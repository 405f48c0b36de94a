use vstd::prelude::*;

verus! {

/// Asks to record a pack as a user's.
#[derive(Debug, Clone, PartialEq, Eq)]
pub struct Create<'a> {
    tg_id: i64,
    short_name: &'a str,
    title: &'a str,
}

impl<'a> Create<'a> {
    /// Telegram id of the pack's owner.
    pub closed spec fn spec_tg_id(&self) -> i64 {
        self.tg_id
    }

    /// Name of the pack.
    pub closed spec fn spec_short_name(&self) -> Seq<char> {
        self.short_name@
    }

    /// Title of the pack.
    pub closed spec fn spec_title(&self) -> Seq<char> {
        self.title@
    }

    pub fn new(tg_id: i64, short_name: &'a str, title: &'a str) -> (request: Self)
        ensures
            request.spec_tg_id() == tg_id,
            request.spec_short_name() == short_name@,
            request.spec_title() == title@,
    {
        Self { tg_id, short_name, title }
    }

    #[verifier::when_used_as_spec(spec_tg_id)]
    pub fn tg_id(&self) -> (tg_id: i64)
        ensures
            tg_id == self.spec_tg_id(),
    {
        self.tg_id
    }

    pub fn short_name(&self) -> (short_name: &'a str)
        ensures
            short_name@ == self.spec_short_name(),
    {
        self.short_name
    }

    pub fn title(&self) -> (title: &'a str)
        ensures
            title@ == self.spec_title(),
    {
        self.title
    }

}

/// Asks to remove the record of a pack.
#[derive(Debug, Clone, PartialEq, Eq)]
pub struct DeleteByShortName<'a> {
    short_name: &'a str,
}

impl<'a> DeleteByShortName<'a> {
    /// Name of the pack.
    pub closed spec fn spec_short_name(&self) -> Seq<char> {
        self.short_name@
    }

    pub fn new(short_name: &'a str) -> (request: Self)
        ensures
            request.spec_short_name() == short_name@,
    {
        Self { short_name }
    }

    pub fn short_name(&self) -> (short_name: &'a str)
        ensures
            short_name@ == self.spec_short_name(),
    {
        self.short_name
    }

}

/// Asks for the record of a pack.
#[derive(Debug, Clone, PartialEq, Eq)]
pub struct GetByShortName<'a> {
    short_name: &'a str,
}

impl<'a> GetByShortName<'a> {
    /// Name of the pack.
    pub closed spec fn spec_short_name(&self) -> Seq<char> {
        self.short_name@
    }

    pub fn new(short_name: &'a str) -> (request: Self)
        ensures
            request.spec_short_name() == short_name@,
    {
        Self { short_name }
    }

    pub fn short_name(&self) -> (short_name: &'a str)
        ensures
            short_name@ == self.spec_short_name(),
    {
        self.short_name
    }

}

/// Asks for the packs of a user.
#[derive(Debug, Clone, PartialEq, Eq)]
pub struct GetByTgID {
    tg_id: i64,
    get_deleted: Option<bool>,
}

impl GetByTgID {
    /// Telegram id of the pack's owner.
    pub closed spec fn spec_tg_id(&self) -> i64 {
        self.tg_id
    }

    /// Which packs to give: all of them for `None`, only those marked as deleted for `Some(true)`, only those not marked for `Some(false)`.
    pub closed spec fn spec_get_deleted(&self) -> Option<bool> {
        self.get_deleted
    }

    pub fn new(tg_id: i64, get_deleted: Option<bool>) -> (request: Self)
        ensures
            request.spec_tg_id() == tg_id,
            request.spec_get_deleted() == get_deleted,
    {
        Self { tg_id, get_deleted }
    }

    #[verifier::when_used_as_spec(spec_tg_id)]
    pub fn tg_id(&self) -> (tg_id: i64)
        ensures
            tg_id == self.spec_tg_id(),
    {
        self.tg_id
    }

    #[verifier::when_used_as_spec(spec_get_deleted)]
    pub fn get_deleted(&self) -> (get_deleted: Option<bool>)
        ensures
            get_deleted == self.spec_get_deleted(),
    {
        self.get_deleted
    }

}

/// Asks to mark a pack as deleted, or as not deleted.
#[derive(Debug, Clone, PartialEq, Eq)]
pub struct SetDeletedColByShortName<'a> {
    short_name: &'a str,
    deleted: bool,
}

impl<'a> SetDeletedColByShortName<'a> {
    /// Name of the pack.
    pub closed spec fn spec_short_name(&self) -> Seq<char> {
        self.short_name@
    }

    /// The mark to set.
    pub closed spec fn spec_deleted(&self) -> bool {
        self.deleted
    }

    pub fn new(short_name: &'a str, deleted: bool) -> (request: Self)
        ensures
            request.spec_short_name() == short_name@,
            request.spec_deleted() == deleted,
    {
        Self { short_name, deleted }
    }

    pub fn short_name(&self) -> (short_name: &'a str)
        ensures
            short_name@ == self.spec_short_name(),
    {
        self.short_name
    }

    #[verifier::when_used_as_spec(spec_deleted)]
    pub fn deleted(&self) -> (deleted: bool)
        ensures
            deleted == self.spec_deleted(),
    {
        self.deleted
    }

}

} // verus!
