use vstd::prelude::*;
use crate::application::common::exceptions::ApplicationException;
use crate::stickers::numbers::{signed_decimal, signed_decimal_string};

verus! {

/// The user is recorded already.
#[derive(Debug)]
pub struct UserTgIdAlreadyExists {
    tg_id: i64,
    message: String,
}

impl UserTgIdAlreadyExists {
    pub closed spec fn spec_tg_id(&self) -> i64 {
        self.tg_id
    }

    pub closed spec fn spec_message(&self) -> Seq<char> {
        self.message@
    }

    pub fn new(tg_id: i64, message: String) -> (error: Self)
        ensures
            error.spec_tg_id() == tg_id,
            error.spec_message() == message@,
    {
        Self { tg_id, message }
    }

    #[verifier::when_used_as_spec(spec_tg_id)]
    pub fn tg_id(&self) -> (tg_id: i64)
        ensures
            tg_id == self.spec_tg_id(),
    {
        self.tg_id
    }

    pub fn message(&self) -> (message: &String)
        ensures
            message@ == self.spec_message(),
    {
        &self.message
    }

    /// The error in words.
    pub fn to_text(&self) -> (text: String)
        ensures
            text@ == "user with telegram ID `"@ + signed_decimal(self.spec_tg_id() as int) + "` already exists: "@
                + self.spec_message(),
    {
        let mut text: String = String::from_str("user with telegram ID `");
        text.append(signed_decimal_string(self.tg_id).as_str());
        text.append("` already exists: ");
        text.append(self.message.as_str());
        text
    }
}

impl ApplicationException for UserTgIdAlreadyExists {

}

/// The user is not recorded.
#[derive(Debug)]
pub struct UserTgIdNotExist {
    tg_id: i64,
    message: String,
}

impl UserTgIdNotExist {
    pub closed spec fn spec_tg_id(&self) -> i64 {
        self.tg_id
    }

    pub closed spec fn spec_message(&self) -> Seq<char> {
        self.message@
    }

    pub fn new(tg_id: i64, message: String) -> (error: Self)
        ensures
            error.spec_tg_id() == tg_id,
            error.spec_message() == message@,
    {
        Self { tg_id, message }
    }

    #[verifier::when_used_as_spec(spec_tg_id)]
    pub fn tg_id(&self) -> (tg_id: i64)
        ensures
            tg_id == self.spec_tg_id(),
    {
        self.tg_id
    }

    pub fn message(&self) -> (message: &String)
        ensures
            message@ == self.spec_message(),
    {
        &self.message
    }

    /// The error in words.
    pub fn to_text(&self) -> (text: String)
        ensures
            text@ == "user with telegram ID `"@ + signed_decimal(self.spec_tg_id() as int) + "` not exists: "@
                + self.spec_message(),
    {
        let mut text: String = String::from_str("user with telegram ID `");
        text.append(signed_decimal_string(self.tg_id).as_str());
        text.append("` not exists: ");
        text.append(self.message.as_str());
        text
    }
}

impl ApplicationException for UserTgIdNotExist {

}

} // verus!
