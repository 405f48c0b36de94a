use vstd::prelude::*;
use crate::application::common::exceptions::RepoKind;
use crate::application::common::traits::uow::{settlement_of, Settlement};
use crate::application::user::dto::{Create, GetByTgID};
use crate::application::user::exceptions::{UserTgIdAlreadyExists, UserTgIdNotExist};
use crate::infrastructure::database::repositories::{
    insert_one_sql, is_number, render_insert_one, render_select_by_number, select_by_number_sql,
    texts_of, unexpected, DriverError, SqlValue, Statement,
};

verus! {

/// The table of users.
pub const USERS: &'static str = "users";

pub const TG_ID: &'static str = "tg_id";

pub const CREATED: &'static str = "created";

/// The columns of a user's row, in the order in which they are read.
pub open spec fn user_columns() -> Seq<Seq<char>> {
    seq![TG_ID@, CREATED@]
}

/// The repository of users, working on the connection `Conn`.
pub struct UserRepoImpl<Conn> {
    conn: Conn,
}

/// Whether `kind` is how the failure `error` of recording the user `tg_id`
/// is to be read: a repeated unique value means that the user is recorded
/// already, anything else is a fault of the database. Either way the
/// driver's words are kept.
pub open spec fn is_create_failure(
    tg_id: i64,
    error: DriverError,
    kind: RepoKind<UserTgIdAlreadyExists>,
) -> bool {
    if error.unique_violation() {
        &&& kind matches RepoKind::Exception(exception)
        &&& exception.spec_tg_id() == tg_id
        &&& exception.spec_message() == error.message@
    } else {
        kind matches RepoKind::Unexpected(fault) && fault.spec_message() == error.message@
    }
}

/// Whether `kind` is how the failure `error` of reading the user `tg_id`
/// is to be read: a missing row means that the user is not recorded,
/// anything else is a fault of the database.
pub open spec fn is_get_failure(tg_id: i64, error: DriverError, kind: RepoKind<UserTgIdNotExist>) -> bool {
    if error.row_not_found {
        &&& kind matches RepoKind::Exception(exception)
        &&& exception.spec_tg_id() == tg_id
        &&& exception.spec_message() == error.message@
    } else {
        kind matches RepoKind::Unexpected(fault) && fault.spec_message() == error.message@
    }
}

impl<Conn> UserRepoImpl<Conn> {
    /// The connection that the repository works on.
    pub closed spec fn spec_conn(&self) -> Conn {
        self.conn
    }

    pub fn new(conn: Conn) -> (repo: Self)
        ensures
            repo.spec_conn() == conn,
    {
        Self { conn }
    }

    /// The connection, to work on.
    pub fn conn_mut(&mut self) -> (conn: &mut Conn)
        ensures
            *conn == old(self).spec_conn(),
            final(self).spec_conn() == *final(conn),
    {
        &mut self.conn
    }

    /// Give the connection back.
    pub fn into_conn(self) -> (conn: Conn)
        ensures
            conn == self.spec_conn(),
    {
        self.conn
    }

    /// The statement that records `user`: an insert of the user's id into
    /// the table of users.
    pub fn create_statement(&self, user: &Create) -> (statement: Statement)
        ensures
            statement.sql@ == insert_one_sql(USERS@, TG_ID@, user.spec_tg_id()),
            statement.values@.len() == 1,
            is_number(statement.values@[0], user.spec_tg_id()),
    {
        let sql: String = render_insert_one(USERS, TG_ID, user.tg_id());
        let mut values: Vec<SqlValue> = Vec::new();
        values.push(SqlValue::BigInt(user.tg_id()));
        Statement { sql, values }
    }

    /// The statement that reads the record of a user: a select of the
    /// rows with the user's id.
    pub fn get_by_tg_id_statement(&self, user: &GetByTgID) -> (statement: Statement)
        ensures
            statement.sql@ == select_by_number_sql(
                USERS@,
                user_columns(),
                TG_ID@,
                user.spec_tg_id(),
            ),
            statement.values@.len() == 1,
            is_number(statement.values@[0], user.spec_tg_id()),
    {
        let columns: [&'static str; 2] = [TG_ID, CREATED];
        assert(texts_of(columns@) =~= user_columns());
        let sql: String = render_select_by_number(
            USERS,
            columns.as_slice(),
            TG_ID,
            user.tg_id(),
        );
        let mut values: Vec<SqlValue> = Vec::new();
        values.push(SqlValue::BigInt(user.tg_id()));
        Statement { sql, values }
    }

    /// Read the failure of recording `user`.
    pub fn create_failed(&self, user: &Create, error: DriverError) -> (kind: RepoKind<
        UserTgIdAlreadyExists,
    >)
        ensures
            is_create_failure(user.spec_tg_id(), error, kind),
    {
        if error.is_unique_violation() {
            RepoKind::exception(UserTgIdAlreadyExists::new(user.tg_id(), error.message))
        } else {
            unexpected(error)
        }
    }

    /// Read the failure of reading `user`.
    pub fn get_by_tg_id_failed(&self, user: &GetByTgID, error: DriverError) -> (kind: RepoKind<
        UserTgIdNotExist,
    >)
        ensures
            is_get_failure(user.spec_tg_id(), error, kind),
    {
        if error.row_not_found {
            RepoKind::exception(UserTgIdNotExist::new(user.tg_id(), error.message))
        } else {
            unexpected(error)
        }
    }
}

/// How often `tg_id` stands in `users`.
pub open spec fn occurrences(users: Seq<i64>, tg_id: i64) -> nat
    decreases users.len(),
{
    if users.len() == 0 {
        0
    } else {
        occurrences(users.drop_last(), tg_id) + if users.last() == tg_id {
            1nat
        } else {
            0nat
        }
    }
}

/// Whether the table of users holds no user twice, as its key demands.
pub open spec fn is_users_table(users: Seq<i64>) -> bool {
    forall|tg_id: i64| occurrences(users, tg_id) <= 1
}

/// What the database does when it is told to record the user `tg_id`:
/// with `before` the table as it was, `after` the table as it is then, and
/// `failure` what the driver reports. A user who is not in the table is
/// added and nothing is reported; for one who is, the table stays as it
/// is and the driver reports a repeated unique value.
pub open spec fn records_user(
    before: Seq<i64>,
    tg_id: i64,
    after: Seq<i64>,
    failure: Option<DriverError>,
) -> bool {
    if occurrences(before, tg_id) == 0 {
        after == before.push(tg_id) && failure is None
    } else {
        after == before && (failure matches Some(error) && error.unique_violation())
    }
}

/// Adding a user to a table adds one occurrence of that user and none of
/// any other.
proof fn lemma_occurrences_push(users: Seq<i64>, added: i64, tg_id: i64)
    ensures
        occurrences(users.push(added), tg_id) == occurrences(users, tg_id) + if added == tg_id {
            1nat
        } else {
            0nat
        },
{
    assert(users.push(added).drop_last() =~= users);
}

/// Recording the same user twice leaves one row, and the second time is a
/// conflict that commits. Let the database be told twice to record the
/// user `tg_id`, beginning with any table that holds no user twice. Then
/// the table holds that user exactly once afterwards and still holds no
/// user twice; the second time the driver reports a failure, which is read
/// as the error that this user is recorded already, an error by the rules
/// of the application; and after that error the transaction is committed.
pub proof fn lemma_second_create_is_a_conflict(
    before: Seq<i64>,
    tg_id: i64,
    between: Seq<i64>,
    first: Option<DriverError>,
    after: Seq<i64>,
    second: Option<DriverError>,
    kind: RepoKind<UserTgIdAlreadyExists>,
)
    requires
        is_users_table(before),
        records_user(before, tg_id, between, first),
        records_user(between, tg_id, after, second),
        second is Some ==> is_create_failure(tg_id, second->0, kind),
    ensures
        occurrences(after, tg_id) == 1,
        is_users_table(after),
        second is Some,
        kind matches RepoKind::Exception(exception) && exception.spec_tg_id() == tg_id,
        settlement_of::<UserTgIdAlreadyExists>(Err(kind)) == Settlement::Commit,
{
    lemma_occurrences_push(before, tg_id, tg_id);
    assert(occurrences(between, tg_id) == 1);
    assert forall|other: i64| occurrences(between, other) <= 1 by {
        lemma_occurrences_push(before, tg_id, other);
    }
}

} // verus!
