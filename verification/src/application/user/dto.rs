use vstd::prelude::*;

verus! {

/// Asks to record a user.
#[derive(Debug, Clone, PartialEq, Eq)]
pub struct Create {
    tg_id: i64,
}

impl Create {
    /// Telegram id of the user.
    pub closed spec fn spec_tg_id(&self) -> i64 {
        self.tg_id
    }

    pub fn new(tg_id: i64) -> (request: Self)
        ensures
            request.spec_tg_id() == tg_id,
    {
        Self { tg_id }
    }

    #[verifier::when_used_as_spec(spec_tg_id)]
    pub fn tg_id(&self) -> (tg_id: i64)
        ensures
            tg_id == self.spec_tg_id(),
    {
        self.tg_id
    }

}

/// Asks for the record of a user.
#[derive(Debug, Clone, PartialEq, Eq)]
pub struct GetByTgID {
    tg_id: i64,
}

impl GetByTgID {
    /// Telegram id of the user.
    pub closed spec fn spec_tg_id(&self) -> i64 {
        self.tg_id
    }

    pub fn new(tg_id: i64) -> (request: Self)
        ensures
            request.spec_tg_id() == tg_id,
    {
        Self { tg_id }
    }

    #[verifier::when_used_as_spec(spec_tg_id)]
    pub fn tg_id(&self) -> (tg_id: i64)
        ensures
            tg_id == self.spec_tg_id(),
    {
        self.tg_id
    }

}

/// Asks to note how many packs a user has.
#[derive(Debug, Clone, PartialEq, Eq)]
pub struct UpdateSetsNumber {
    sets_number: i32,
    tg_id: i64,
}

impl UpdateSetsNumber {
    /// Number of packs.
    pub closed spec fn spec_sets_number(&self) -> i32 {
        self.sets_number
    }

    /// Telegram id of the user.
    pub closed spec fn spec_tg_id(&self) -> i64 {
        self.tg_id
    }

    pub fn new(sets_number: i32, tg_id: i64) -> (request: Self)
        ensures
            request.spec_sets_number() == sets_number,
            request.spec_tg_id() == tg_id,
    {
        Self { sets_number, tg_id }
    }

    #[verifier::when_used_as_spec(spec_sets_number)]
    pub fn sets_number(&self) -> (sets_number: i32)
        ensures
            sets_number == self.spec_sets_number(),
    {
        self.sets_number
    }

    #[verifier::when_used_as_spec(spec_tg_id)]
    pub fn tg_id(&self) -> (tg_id: i64)
        ensures
            tg_id == self.spec_tg_id(),
    {
        self.tg_id
    }

}

} // verus!
