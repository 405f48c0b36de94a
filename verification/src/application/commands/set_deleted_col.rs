use vstd::prelude::*;
use crate::application::common::traits::uow::{Answer, Transact, TransactStep, UoW, UowCall};
use crate::application::set::dto::SetDeletedColByShortName;
use crate::application::set::exceptions::SetShortNameNotExist;

verus! {

/// Mark a pack as deleted, or as not deleted: the command, with what it asks of the repository and how far
/// it has come.
#[derive(Debug)]
pub struct SetDeletedCol<'a> {
    script: Transact,
    set: SetDeletedColByShortName<'a>,
}

impl<'a> SetDeletedCol<'a> {
    /// How far the command has come.
    pub closed spec fn spec_script(&self) -> Transact {
        self.script
    }

    /// What the command asks of the repository.
    pub closed spec fn spec_request(&self) -> SetDeletedColByShortName<'a> {
        self.set
    }

    /// Whether `other` asks the repository for the same as `self`.
    pub open spec fn same_request(&self, other: &Self) -> bool {
        other.spec_request() == self.spec_request()
    }

    /// How far the command has come.
    #[verifier::when_used_as_spec(spec_script)]
    pub fn script(&self) -> (script: Transact)
        ensures
            script == self.spec_script(),
    {
        self.script
    }

    /// What the repository is to be asked when the command says
    /// [`UowCall::Execute`].
    pub fn request(&self) -> (request: SetDeletedColByShortName<'a>)
        ensures
            request.spec_short_name() == self.spec_request().spec_short_name(),
            request.spec_deleted() == self.spec_request().spec_deleted(),
    {
        SetDeletedColByShortName::new(self.set.short_name(), self.set.deleted())
    }

    /// Go on with the command once `answer` has come in. That
    /// no pack of that name is recorded is no fault: the transaction is
    /// committed all the same.
    pub fn resume(self, uow: &mut UoW, answer: Answer<SetShortNameNotExist>) -> (next: (Self, TransactStep))
        ensures
            old(uow).follows(self.spec_script(), answer, *final(uow), next.0.spec_script(), next.1),
            self.same_request(&next.0),
    {
        let (script, step) = self.script.resume(uow, answer);
        (SetDeletedCol { script, set: self.set }, step)
    }
}

/// Mark a pack as deleted, or as not deleted. The command works in the transaction of `uow`,
/// which it opens if none is open, and begins with the call that this
/// takes.
pub fn set_deleted_col<'a>(uow: &UoW, set: SetDeletedColByShortName<'a>) -> (begun: (SetDeletedCol<'a>, UowCall))
    ensures
        begun.0.spec_request() == set,
        begun.1 == if uow.in_transaction() {
            UowCall::Execute
        } else {
            UowCall::Begin
        },
        begun.0.spec_script() == if uow.in_transaction() {
            Transact::Executing
        } else {
            Transact::Beginning
        },
{
    let (script, call) = Transact::start(uow);
    (SetDeletedCol { script, set }, call)
}

} // verus!
