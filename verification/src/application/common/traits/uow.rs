use vstd::prelude::*;
use crate::application::common::exceptions::{
    ApplicationException, BeginError, CommitError, RepoKind, RollbackError, TransactionKind,
};

verus! {

/// A unit of work: the one transaction, if any, in which the repositories
/// of a command work. The transaction is opened when a repository is first
/// asked for, and ends with the command.
#[derive(Debug)]
pub struct UoW {
    transaction: bool,
}

/// What a command asks of the database next.
#[derive(Debug, Clone, Copy, PartialEq, Eq, Structural)]
pub enum UowCall {
    /// Open a transaction.
    Begin,
    /// Let the repository do what the command is for.
    Execute,
    /// Commit the open transaction.
    Commit,
    /// Roll the open transaction back.
    Rollback,
}

/// How a transaction ends.
#[derive(Debug, Clone, Copy, PartialEq, Eq, Structural)]
pub enum Settlement {
    Commit,
    Rollback,
}

/// What came of a [`UowCall`].
#[derive(Debug)]
pub enum Answer<E> where E: ApplicationException {
    Begun(Result<(), BeginError>),
    Executed(Result<(), RepoKind<E>>),
    Committed(Result<(), CommitError>),
    RolledBack(Result<(), RollbackError>),
}

/// How far a command has come.
#[derive(Debug, Clone, Copy, PartialEq, Eq, Structural)]
pub enum Transact {
    /// Waiting for the transaction to be opened.
    Beginning,
    /// Waiting for the repository.
    Executing,
    /// Waiting for the commit.
    Committing,
    /// Waiting for the rollback.
    RollingBack,
    Over,
}

/// What a command does next.
#[derive(Debug)]
pub enum TransactStep {
    Call(UowCall),
    /// The command is over, with this result.
    Return(Result<(), TransactionKind>),
    /// The answer handed in does not belong to the call that was asked
    /// for.
    Misused,
}

/// How the transaction ends after the repository has answered `result`: a
/// fault of the database rolls it back, and everything else commits it,
/// an error by the rules of the application too, so that such an error
/// never undoes other work of the same transaction.
pub open spec fn settlement_of<E: ApplicationException>(result: Result<(), RepoKind<E>>) -> Settlement {
    match result {
        Err(RepoKind::Unexpected(_)) => Settlement::Rollback,
        _ => Settlement::Commit,
    }
}

/// Decide how the transaction ends after the repository has answered.
pub fn settle<E: ApplicationException>(result: &Result<(), RepoKind<E>>) -> (settlement: Settlement)
    ensures
        settlement == settlement_of(*result),
{
    match result {
        Err(RepoKind::Unexpected(_)) => Settlement::Rollback,
        _ => Settlement::Commit,
    }
}

impl UoW {
    /// Whether a transaction is open.
    pub closed spec fn in_transaction(&self) -> bool {
        self.transaction
    }

    /// A unit of work without a transaction.
    pub fn new() -> (uow: Self)
        ensures
            !uow.in_transaction(),
    {
        UoW { transaction: false }
    }

    /// Note that a transaction has been opened.
    pub fn opened(&mut self)
        ensures
            final(self).in_transaction(),
    {
        self.transaction = true;
    }

    /// Note that the transaction has ended, by commit or by rollback.
    pub fn closed(&mut self)
        ensures
            !final(self).in_transaction(),
    {
        self.transaction = false;
    }

    /// What has to happen before a repository can work: a transaction is
    /// opened unless one is open.
    pub fn connect(&self) -> (call: UowCall)
        ensures
            call == if self.in_transaction() {
                UowCall::Execute
            } else {
                UowCall::Begin
            },
    {
        if self.transaction {
            UowCall::Execute
        } else {
            UowCall::Begin
        }
    }

    /// Whether `now` and `step` are what follows `self` at `script` once
    /// `answer` has come in.
    ///
    /// An opened transaction lets the repository work; one that cannot be
    /// opened ends the command with that error. The repository's answer
    /// decides between commit and rollback as [`settlement_of`] says. A
    /// commit or a rollback, however it went, leaves no transaction open
    /// and ends the command: with the error if it failed, and well
    /// otherwise, after a rollback too.
    pub open spec fn follows<E: ApplicationException>(
        self,
        script: Transact,
        answer: Answer<E>,
        now: UoW,
        after: Transact,
        step: TransactStep,
    ) -> bool {
        match (script, answer) {
            (Transact::Beginning, Answer::Begun(Ok(()))) => {
                &&& now.in_transaction()
                &&& after == Transact::Executing
                &&& step == TransactStep::Call(UowCall::Execute)
            },
            (Transact::Beginning, Answer::Begun(Err(error))) => {
                &&& now.in_transaction() == self.in_transaction()
                &&& after == Transact::Over
                &&& step == TransactStep::Return(Err(TransactionKind::BeginError(error)))
            },
            (Transact::Executing, Answer::Executed(result)) => {
                &&& now.in_transaction() == self.in_transaction()
                &&& match settlement_of(result) {
                    Settlement::Commit => after == Transact::Committing && step
                        == TransactStep::Call(UowCall::Commit),
                    Settlement::Rollback => after == Transact::RollingBack && step
                        == TransactStep::Call(UowCall::Rollback),
                }
            },
            (Transact::Committing, Answer::Committed(result)) => {
                &&& !now.in_transaction()
                &&& after == Transact::Over
                &&& step == TransactStep::Return(
                    match result {
                        Ok(()) => Ok(()),
                        Err(error) => Err(TransactionKind::CommitError(error)),
                    },
                )
            },
            (Transact::RollingBack, Answer::RolledBack(result)) => {
                &&& !now.in_transaction()
                &&& after == Transact::Over
                &&& step == TransactStep::Return(
                    match result {
                        Ok(()) => Ok(()),
                        Err(error) => Err(TransactionKind::RollbackError(error)),
                    },
                )
            },
            _ => {
                &&& now.in_transaction() == self.in_transaction()
                &&& after == Transact::Over
                &&& step == TransactStep::Misused
            },
        }
    }
}

impl Transact {
    /// Begin a command in `uow`: with the first call, which opens a
    /// transaction unless one is open.
    pub fn start(uow: &UoW) -> (begun: (Transact, UowCall))
        ensures
            begun.1 == if uow.in_transaction() {
                UowCall::Execute
            } else {
                UowCall::Begin
            },
            begun.0 == if uow.in_transaction() {
                Transact::Executing
            } else {
                Transact::Beginning
            },
    {
        match uow.connect() {
            UowCall::Begin => (Transact::Beginning, UowCall::Begin),
            _ => (Transact::Executing, UowCall::Execute),
        }
    }

    /// Take in what came of the latest call and say what to do next.
    pub fn resume<E: ApplicationException>(self, uow: &mut UoW, answer: Answer<E>) -> (next: (
        Transact,
        TransactStep,
    ))
        ensures
            old(uow).follows(self, answer, *final(uow), next.0, next.1),
    {
        match (self, answer) {
            (Transact::Beginning, Answer::Begun(Ok(()))) => {
                uow.opened();
                (Transact::Executing, TransactStep::Call(UowCall::Execute))
            },
            (Transact::Beginning, Answer::Begun(Err(error))) => (
                Transact::Over,
                TransactStep::Return(Err(TransactionKind::begin_err(error))),
            ),
            (Transact::Executing, Answer::Executed(result)) => match settle(&result) {
                Settlement::Commit => (Transact::Committing, TransactStep::Call(UowCall::Commit)),
                Settlement::Rollback => (
                    Transact::RollingBack,
                    TransactStep::Call(UowCall::Rollback),
                ),
            },
            (Transact::Committing, Answer::Committed(result)) => {
                uow.closed();
                match result {
                    Ok(()) => (Transact::Over, TransactStep::Return(Ok(()))),
                    Err(error) => (
                        Transact::Over,
                        TransactStep::Return(Err(TransactionKind::commit_err(error))),
                    ),
                }
            },
            (Transact::RollingBack, Answer::RolledBack(result)) => {
                uow.closed();
                match result {
                    Ok(()) => (Transact::Over, TransactStep::Return(Ok(()))),
                    Err(error) => (
                        Transact::Over,
                        TransactStep::Return(Err(TransactionKind::rollback_err(error))),
                    ),
                }
            },
            _ => (Transact::Over, TransactStep::Misused),
        }
    }
}


/// A command ends its transaction once. When the repository has answered,
/// the command asks for the commit or for the rollback, as
/// [`settlement_of`] says; and whatever is answered to that, the command
/// is over and asks for nothing more. If the answer was that of the commit
/// or rollback asked for, no transaction is open afterwards.
pub proof fn lemma_command_settles_once<E: ApplicationException>(
    before: UoW,
    result: Result<(), RepoKind<E>>,
    between: UoW,
    settling: Transact,
    settlement: TransactStep,
    answer: Answer<E>,
    after: UoW,
    ended: Transact,
    end: TransactStep,
)
    requires
        before.follows(Transact::Executing, Answer::Executed(result), between, settling, settlement),
        between.follows(settling, answer, after, ended, end),
    ensures
        settlement == TransactStep::Call(
            match settlement_of(result) {
                Settlement::Commit => UowCall::Commit,
                Settlement::Rollback => UowCall::Rollback,
            },
        ),
        ended == Transact::Over,
        !(end is Call),
        (answer is Committed && settlement_of(result) == Settlement::Commit) || (
        answer is RolledBack && settlement_of(result) == Settlement::Rollback)
            ==> !after.in_transaction() && end is Return,
{
}

} // verus!
