use vstd::prelude::*;

verus! {

/// Marks an error that belongs to the rules of the application: a record
/// that already exists, or one that is missing.
pub trait ApplicationException {

}

/// Marks an error that nobody planned for: the database or the connection
/// to it failed.
pub trait UnexpectedError {

}

/// The database failed while a repository worked on it.
#[derive(Debug)]
pub struct RepoError {
    message: String,
}

impl UnexpectedError for RepoError {

}

impl RepoError {
    pub closed spec fn spec_message(&self) -> Seq<char> {
        self.message@
    }

    pub fn new(message: String) -> (error: Self)
        ensures
            error.spec_message() == message@,
    {
        Self { message }
    }

    /// What went wrong, as the database put it.
    pub fn message(&self) -> (message: &String)
        ensures
            message@ == self.spec_message(),
    {
        &self.message
    }

    /// The error in words.
    pub fn to_text(&self) -> (text: String)
        ensures
            text@ == "repository error: "@ + self.spec_message(),
    {
        let mut text: String = String::from_str("repository error: ");
        text.append(self.message.as_str());
        text
    }
}

/// How a repository call failed: by a rule of the application, or by a
/// fault of the database.
#[derive(Debug)]
pub enum RepoKind<RepoException> where RepoException: ApplicationException {
    Exception(RepoException),
    Unexpected(RepoError),
}

impl<RepoException> RepoKind<RepoException> where RepoException: ApplicationException {
    pub fn exception(exception: RepoException) -> (kind: Self)
        ensures
            kind == RepoKind::Exception(exception),
    {
        Self::Exception(exception)
    }

    pub fn unexpected(error: RepoError) -> (kind: Self)
        ensures
            kind == RepoKind::<RepoException>::Unexpected(error),
    {
        Self::Unexpected(error)
    }
}

/// A transaction could not be opened.
#[derive(Debug)]
pub struct BeginError {
    message: String,
}

impl BeginError {
    pub closed spec fn spec_message(&self) -> Seq<char> {
        self.message@
    }

    pub fn new(message: String) -> (error: Self)
        ensures
            error.spec_message() == message@,
    {
        Self { message }
    }

    pub fn message(&self) -> (message: &String)
        ensures
            message@ == self.spec_message(),
    {
        &self.message
    }

    /// The error in words.
    pub fn to_text(&self) -> (text: String)
        ensures
            text@ == "Begin transaction error: "@ + self.spec_message(),
    {
        let mut text: String = String::from_str("Begin transaction error: ");
        text.append(self.message.as_str());
        text
    }
}

impl ApplicationException for BeginError {

}

/// A transaction could not be committed.
#[derive(Debug)]
pub struct CommitError {
    message: String,
}

impl CommitError {
    pub closed spec fn spec_message(&self) -> Seq<char> {
        self.message@
    }

    pub fn new(message: String) -> (error: Self)
        ensures
            error.spec_message() == message@,
    {
        Self { message }
    }

    pub fn message(&self) -> (message: &String)
        ensures
            message@ == self.spec_message(),
    {
        &self.message
    }

    /// The error in words.
    pub fn to_text(&self) -> (text: String)
        ensures
            text@ == "Commit transaction error: "@ + self.spec_message(),
    {
        let mut text: String = String::from_str("Commit transaction error: ");
        text.append(self.message.as_str());
        text
    }
}

impl ApplicationException for CommitError {

}

/// A transaction could not be rolled back.
#[derive(Debug)]
pub struct RollbackError {
    message: String,
}

impl RollbackError {
    pub closed spec fn spec_message(&self) -> Seq<char> {
        self.message@
    }

    pub fn new(message: String) -> (error: Self)
        ensures
            error.spec_message() == message@,
    {
        Self { message }
    }

    pub fn message(&self) -> (message: &String)
        ensures
            message@ == self.spec_message(),
    {
        &self.message
    }

    /// The error in words.
    pub fn to_text(&self) -> (text: String)
        ensures
            text@ == "Rollback transaction error: "@ + self.spec_message(),
    {
        let mut text: String = String::from_str("Rollback transaction error: ");
        text.append(self.message.as_str());
        text
    }
}

impl ApplicationException for RollbackError {

}

/// The step of a transaction that failed.
#[derive(Debug)]
pub enum TransactionKind {
    BeginError(BeginError),
    CommitError(CommitError),
    RollbackError(RollbackError),
}

impl TransactionKind {
    pub fn begin_err(err: BeginError) -> (kind: Self)
        ensures
            kind == TransactionKind::BeginError(err),
    {
        Self::BeginError(err)
    }

    pub fn commit_err(err: CommitError) -> (kind: Self)
        ensures
            kind == TransactionKind::CommitError(err),
    {
        Self::CommitError(err)
    }

    pub fn rollback_err(err: RollbackError) -> (kind: Self)
        ensures
            kind == TransactionKind::RollbackError(err),
    {
        Self::RollbackError(err)
    }

    /// The error in words: those of the step that failed.
    pub fn to_text(&self) -> (text: String)
        ensures
            text@ == match *self {
                TransactionKind::BeginError(err) => "Begin transaction error: "@
                    + err.spec_message(),
                TransactionKind::CommitError(err) => "Commit transaction error: "@
                    + err.spec_message(),
                TransactionKind::RollbackError(err) => "Rollback transaction error: "@
                    + err.spec_message(),
            },
    {
        match self {
            TransactionKind::BeginError(err) => err.to_text(),
            TransactionKind::CommitError(err) => err.to_text(),
            TransactionKind::RollbackError(err) => err.to_text(),
        }
    }
}

impl ApplicationException for TransactionKind {

}

} // verus!
