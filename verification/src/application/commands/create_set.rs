use vstd::prelude::*;
use crate::application::common::traits::uow::{Answer, Transact, TransactStep, UoW, UowCall};
use crate::application::set::dto::Create;
use crate::application::set::exceptions::SetShortNameAlreadyExist;

verus! {

/// Record a pack as a user's: the command, with what it asks of the repository and how far
/// it has come.
#[derive(Debug)]
pub struct CreateSet<'a> {
    script: Transact,
    set: Create<'a>,
}

impl<'a> CreateSet<'a> {
    /// How far the command has come.
    pub closed spec fn spec_script(&self) -> Transact {
        self.script
    }

    /// What the command asks of the repository.
    pub closed spec fn spec_request(&self) -> Create<'a> {
        self.set
    }

    /// Whether `other` asks the repository for the same as `self`.
    pub open spec fn same_request(&self, other: &Self) -> bool {
        other.spec_request() == self.spec_request()
    }

    /// How far the command has come.
    #[verifier::when_used_as_spec(spec_script)]
    pub fn script(&self) -> (script: Transact)
        ensures
            script == self.spec_script(),
    {
        self.script
    }

    /// What the repository is to be asked when the command says
    /// [`UowCall::Execute`].
    pub fn request(&self) -> (request: Create<'a>)
        ensures
            request.spec_tg_id() == self.spec_request().spec_tg_id(),
            request.spec_short_name() == self.spec_request().spec_short_name(),
            request.spec_title() == self.spec_request().spec_title(),
    {
        Create::new(self.set.tg_id(), self.set.short_name(), self.set.title())
    }

    /// Go on with the command once `answer` has come in. That
    /// a pack of that name is recorded already is no fault: the transaction is
    /// committed all the same.
    pub fn resume(self, uow: &mut UoW, answer: Answer<SetShortNameAlreadyExist>) -> (next: (Self, TransactStep))
        ensures
            old(uow).follows(self.spec_script(), answer, *final(uow), next.0.spec_script(), next.1),
            self.same_request(&next.0),
    {
        let (script, step) = self.script.resume(uow, answer);
        (CreateSet { script, set: self.set }, step)
    }
}

/// Record a pack as a user's. The command works in the transaction of `uow`,
/// which it opens if none is open, and begins with the call that this
/// takes.
pub fn create_set<'a>(uow: &UoW, set: Create<'a>) -> (begun: (CreateSet<'a>, UowCall))
    ensures
        begun.0.spec_request() == set,
        begun.1 == if uow.in_transaction() {
            UowCall::Execute
        } else {
            UowCall::Begin
        },
        begun.0.spec_script() == if uow.in_transaction() {
            Transact::Executing
        } else {
            Transact::Beginning
        },
{
    let (script, call) = Transact::start(uow);
    (CreateSet { script, set }, call)
}

} // verus!
