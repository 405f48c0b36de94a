use vstd::prelude::*;
use crate::application::common::exceptions::RepoKind;
use crate::application::set::dto::{
    Create, DeleteByShortName, GetByShortName, GetByTgID, SetDeletedColByShortName,
};
use crate::application::set::exceptions::{
    SetShortNameAlreadyExist, SetShortNameNotExist, SetTgIdNotExist,
};
use crate::infrastructure::database::repositories::{
    delete_by_text_sql, insert_three_sql, is_flag, is_number, is_text, render_delete_by_text,
    render_insert_three, render_select_by_number, render_select_by_number_and_flag,
    render_select_by_text, render_update_flag_by_text, select_by_number_and_flag_sql,
    select_by_number_sql, select_by_text_sql, texts_of, unexpected, update_flag_by_text_sql,
    DriverError, SqlValue, Statement,
};

verus! {

/// The table of packs.
pub const SETS: &'static str = "sets";

pub const TG_ID: &'static str = "tg_id";

pub const SHORT_NAME: &'static str = "short_name";

pub const DELETED: &'static str = "deleted";

pub const TITLE: &'static str = "title";

/// The columns of a pack's row, in the order in which they are read.
pub open spec fn set_columns() -> Seq<Seq<char>> {
    seq![TG_ID@, SHORT_NAME@, DELETED@, TITLE@]
}

/// The columns of a pack's row.
fn columns() -> (columns: [&'static str; 4])
    ensures
        texts_of(columns@) == set_columns(),
{
    let columns: [&'static str; 4] = [TG_ID, SHORT_NAME, DELETED, TITLE];
    assert(texts_of(columns@) =~= set_columns());
    columns
}

/// The repository of packs, working on the connection `Conn`.
pub struct SetRepoImpl<Conn> {
    conn: Conn,
}

/// Whether `kind` is how the failure `error` of recording the pack
/// `short_name` is to be read: a repeated unique value means that a pack
/// of that name is recorded already, anything else is a fault of the
/// database. Either way the driver's words are kept.
pub open spec fn is_create_failure(
    short_name: Seq<char>,
    error: DriverError,
    kind: RepoKind<SetShortNameAlreadyExist>,
) -> bool {
    if error.unique_violation() {
        &&& kind matches RepoKind::Exception(exception)
        &&& exception.spec_short_name() == short_name
        &&& exception.spec_message() == error.message@
    } else {
        kind matches RepoKind::Unexpected(fault) && fault.spec_message() == error.message@
    }
}

/// Whether `kind` is how the failure `error` of a statement about the
/// pack `short_name` is to be read: a missing row means that no pack of
/// that name is recorded, anything else is a fault of the database.
pub open spec fn is_missing_name_failure(
    short_name: Seq<char>,
    error: DriverError,
    kind: RepoKind<SetShortNameNotExist>,
) -> bool {
    if error.row_not_found {
        &&& kind matches RepoKind::Exception(exception)
        &&& exception.spec_short_name() == short_name
        &&& exception.spec_message() == error.message@
    } else {
        kind matches RepoKind::Unexpected(fault) && fault.spec_message() == error.message@
    }
}

/// Whether `kind` is how the failure `error` of reading the packs of the
/// user `tg_id` is to be read: a missing row means that no pack of that
/// user is recorded, anything else is a fault of the database.
pub open spec fn is_missing_owner_failure(
    tg_id: i64,
    error: DriverError,
    kind: RepoKind<SetTgIdNotExist>,
) -> bool {
    if error.row_not_found {
        &&& kind matches RepoKind::Exception(exception)
        &&& exception.spec_tg_id() == tg_id
        &&& exception.spec_message() == error.message@
    } else {
        kind matches RepoKind::Unexpected(fault) && fault.spec_message() == error.message@
    }
}

/// The failure of a statement about the pack `short_name` that needed a
/// row.
fn missing_name(short_name: &str, error: DriverError) -> (kind: RepoKind<SetShortNameNotExist>)
    ensures
        is_missing_name_failure(short_name@, error, kind),
{
    if error.row_not_found {
        RepoKind::exception(
            SetShortNameNotExist::new(String::from_str(short_name), error.message),
        )
    } else {
        unexpected(error)
    }
}

impl<Conn> SetRepoImpl<Conn> {
    /// The connection that the repository works on.
    pub closed spec fn spec_conn(&self) -> Conn {
        self.conn
    }

    pub fn new(conn: Conn) -> (repo: Self)
        ensures
            repo.spec_conn() == conn,
    {
        Self { conn }
    }

    /// The connection, to work on.
    pub fn conn_mut(&mut self) -> (conn: &mut Conn)
        ensures
            *conn == old(self).spec_conn(),
            final(self).spec_conn() == *final(conn),
    {
        &mut self.conn
    }

    /// Give the connection back.
    pub fn into_conn(self) -> (conn: Conn)
        ensures
            conn == self.spec_conn(),
    {
        self.conn
    }

    /// The statement that records `set`: an insert of the owner, the name
    /// and the title, in that order, into the table of packs.
    pub fn create_statement<'a>(&self, set: &Create<'a>) -> (statement: Statement)
        ensures
            statement.sql@ == insert_three_sql(
                SETS@,
                TG_ID@,
                SHORT_NAME@,
                TITLE@,
                set.spec_tg_id(),
                set.spec_short_name(),
                set.spec_title(),
            ),
            statement.values@.len() == 3,
            is_number(statement.values@[0], set.spec_tg_id()),
            is_text(statement.values@[1], set.spec_short_name()),
            is_text(statement.values@[2], set.spec_title()),
    {
        let sql: String = render_insert_three(
            SETS,
            TG_ID,
            SHORT_NAME,
            TITLE,
            set.tg_id(),
            set.short_name(),
            set.title(),
        );
        let mut values: Vec<SqlValue> = Vec::new();
        values.push(SqlValue::BigInt(set.tg_id()));
        values.push(SqlValue::Text(String::from_str(set.short_name())));
        values.push(SqlValue::Text(String::from_str(set.title())));
        Statement { sql, values }
    }

    /// The statement that removes the record of a pack: a delete of the
    /// rows with the pack's name.
    pub fn delete_by_short_name_statement<'a>(&self, set: &DeleteByShortName<'a>) -> (statement:
        Statement)
        ensures
            statement.sql@ == delete_by_text_sql(SETS@, SHORT_NAME@, set.spec_short_name()),
            statement.values@.len() == 1,
            is_text(statement.values@[0], set.spec_short_name()),
    {
        let sql: String = render_delete_by_text(SETS, SHORT_NAME, set.short_name());
        let mut values: Vec<SqlValue> = Vec::new();
        values.push(SqlValue::Text(String::from_str(set.short_name())));
        Statement { sql, values }
    }

    /// The statement that reads the packs of a user: a select of the rows
    /// with the user's id, and, where the request says which packs to
    /// give, with that mark.
    pub fn get_by_tg_id_statement(&self, set: &GetByTgID) -> (statement: Statement)
        ensures
            match set.spec_get_deleted() {
                None => {
                    &&& statement.sql@ == select_by_number_sql(
                        SETS@,
                        set_columns(),
                        TG_ID@,
                        set.spec_tg_id(),
                    )
                    &&& statement.values@.len() == 1
                },
                Some(deleted) => {
                    &&& statement.sql@ == select_by_number_and_flag_sql(
                        SETS@,
                        set_columns(),
                        TG_ID@,
                        set.spec_tg_id(),
                        DELETED@,
                        deleted,
                    )
                    &&& statement.values@.len() == 2
                    &&& is_flag(statement.values@[1], deleted)
                },
            },
            is_number(statement.values@[0], set.spec_tg_id()),
    {
        let columns: [&'static str; 4] = columns();
        let mut values: Vec<SqlValue> = Vec::new();
        values.push(SqlValue::BigInt(set.tg_id()));
        match set.get_deleted() {
            None => {
                let sql: String = render_select_by_number(
                    SETS,
                    columns.as_slice(),
                    TG_ID,
                    set.tg_id(),
                );
                Statement { sql, values }
            },
            Some(deleted) => {
                let sql: String = render_select_by_number_and_flag(
                    SETS,
                    columns.as_slice(),
                    TG_ID,
                    set.tg_id(),
                    DELETED,
                    deleted,
                );
                values.push(SqlValue::Bool(deleted));
                Statement { sql, values }
            },
        }
    }

    /// The statement that reads the record of a pack: a select of the
    /// rows with the pack's name.
    pub fn get_one_by_short_name_statement<'a>(&self, set: &GetByShortName<'a>) -> (statement:
        Statement)
        ensures
            statement.sql@ == select_by_text_sql(
                SETS@,
                set_columns(),
                SHORT_NAME@,
                set.spec_short_name(),
            ),
            statement.values@.len() == 1,
            is_text(statement.values@[0], set.spec_short_name()),
    {
        let columns: [&'static str; 4] = columns();
        let sql: String = render_select_by_text(
            SETS,
            columns.as_slice(),
            SHORT_NAME,
            set.short_name(),
        );
        let mut values: Vec<SqlValue> = Vec::new();
        values.push(SqlValue::Text(String::from_str(set.short_name())));
        Statement { sql, values }
    }

    /// The statement that marks a pack: an update of the mark, first
    /// value, in the rows with the pack's name, second value.
    pub fn set_deleted_col_by_short_name_statement<'a>(&self, set: &SetDeletedColByShortName<'a>) -> (statement:
        Statement)
        ensures
            statement.sql@ == update_flag_by_text_sql(
                SETS@,
                DELETED@,
                set.spec_deleted(),
                SHORT_NAME@,
                set.spec_short_name(),
            ),
            statement.values@.len() == 2,
            is_flag(statement.values@[0], set.spec_deleted()),
            is_text(statement.values@[1], set.spec_short_name()),
    {
        let sql: String = render_update_flag_by_text(
            SETS,
            DELETED,
            set.deleted(),
            SHORT_NAME,
            set.short_name(),
        );
        let mut values: Vec<SqlValue> = Vec::new();
        values.push(SqlValue::Bool(set.deleted()));
        values.push(SqlValue::Text(String::from_str(set.short_name())));
        Statement { sql, values }
    }

    /// Read the failure of recording `set`.
    pub fn create_failed<'a>(&self, set: &Create<'a>, error: DriverError) -> (kind: RepoKind<
        SetShortNameAlreadyExist,
    >)
        ensures
            is_create_failure(set.spec_short_name(), error, kind),
    {
        if error.is_unique_violation() {
            RepoKind::exception(
                SetShortNameAlreadyExist::new(String::from_str(set.short_name()), error.message),
            )
        } else {
            unexpected(error)
        }
    }

    /// Read the failure of removing the record of a pack.
    pub fn delete_by_short_name_failed<'a>(&self, set: &DeleteByShortName<'a>, error: DriverError) -> (kind:
        RepoKind<SetShortNameNotExist>)
        ensures
            is_missing_name_failure(set.spec_short_name(), error, kind),
    {
        missing_name(set.short_name(), error)
    }

    /// Read the failure of reading the packs of a user.
    pub fn get_by_tg_id_failed(&self, set: &GetByTgID, error: DriverError) -> (kind: RepoKind<
        SetTgIdNotExist,
    >)
        ensures
            is_missing_owner_failure(set.spec_tg_id(), error, kind),
    {
        if error.row_not_found {
            RepoKind::exception(SetTgIdNotExist::new(set.tg_id(), error.message))
        } else {
            unexpected(error)
        }
    }

    /// Read the failure of reading the record of a pack.
    pub fn get_one_by_short_name_failed<'a>(&self, set: &GetByShortName<'a>, error: DriverError) -> (kind:
        RepoKind<SetShortNameNotExist>)
        ensures
            is_missing_name_failure(set.spec_short_name(), error, kind),
    {
        missing_name(set.short_name(), error)
    }

    /// Read the failure of marking a pack.
    pub fn set_deleted_col_by_short_name_failed<'a>(&self, set: &SetDeletedColByShortName<'a>,
        error: DriverError,
    ) -> (kind: RepoKind<SetShortNameNotExist>)
        ensures
            is_missing_name_failure(set.spec_short_name(), error, kind),
    {
        missing_name(set.short_name(), error)
    }
}

} // verus!
