use vstd::prelude::*;
use crate::application::common::exceptions::ApplicationException;
use crate::stickers::numbers::{signed_decimal, signed_decimal_string};

verus! {

/// A pack of that name is recorded already.
#[derive(Debug)]
pub struct SetShortNameAlreadyExist {
    short_name: String,
    message: String,
}

impl SetShortNameAlreadyExist {
    pub closed spec fn spec_short_name(&self) -> Seq<char> {
        self.short_name@
    }

    pub closed spec fn spec_message(&self) -> Seq<char> {
        self.message@
    }

    pub fn new(short_name: String, message: String) -> (error: Self)
        ensures
            error.spec_short_name() == short_name@,
            error.spec_message() == message@,
    {
        Self { short_name, message }
    }

    pub fn short_name(&self) -> (short_name: &String)
        ensures
            short_name@ == self.spec_short_name(),
    {
        &self.short_name
    }

    pub fn message(&self) -> (message: &String)
        ensures
            message@ == self.spec_message(),
    {
        &self.message
    }

    /// The error in words.
    pub fn to_text(&self) -> (text: String)
        ensures
            text@ == "sticker set with short name `"@ + self.spec_short_name() + "` already exists: "@
                + self.spec_message(),
    {
        let mut text: String = String::from_str("sticker set with short name `");
        text.append(self.short_name.as_str());
        text.append("` already exists: ");
        text.append(self.message.as_str());
        text
    }
}

impl ApplicationException for SetShortNameAlreadyExist {

}

/// No pack of that name is recorded.
#[derive(Debug)]
pub struct SetShortNameNotExist {
    short_name: String,
    message: String,
}

impl SetShortNameNotExist {
    pub closed spec fn spec_short_name(&self) -> Seq<char> {
        self.short_name@
    }

    pub closed spec fn spec_message(&self) -> Seq<char> {
        self.message@
    }

    pub fn new(short_name: String, message: String) -> (error: Self)
        ensures
            error.spec_short_name() == short_name@,
            error.spec_message() == message@,
    {
        Self { short_name, message }
    }

    pub fn short_name(&self) -> (short_name: &String)
        ensures
            short_name@ == self.spec_short_name(),
    {
        &self.short_name
    }

    pub fn message(&self) -> (message: &String)
        ensures
            message@ == self.spec_message(),
    {
        &self.message
    }

    /// The error in words.
    pub fn to_text(&self) -> (text: String)
        ensures
            text@ == "sticker set with short name `"@ + self.spec_short_name() + "` not exists: "@
                + self.spec_message(),
    {
        let mut text: String = String::from_str("sticker set with short name `");
        text.append(self.short_name.as_str());
        text.append("` not exists: ");
        text.append(self.message.as_str());
        text
    }
}

impl ApplicationException for SetShortNameNotExist {

}

/// No pack of that user is recorded.
#[derive(Debug)]
pub struct SetTgIdNotExist {
    tg_id: i64,
    message: String,
}

impl SetTgIdNotExist {
    pub closed spec fn spec_tg_id(&self) -> i64 {
        self.tg_id
    }

    pub closed spec fn spec_message(&self) -> Seq<char> {
        self.message@
    }

    pub fn new(tg_id: i64, message: String) -> (error: Self)
        ensures
            error.spec_tg_id() == tg_id,
            error.spec_message() == message@,
    {
        Self { tg_id, message }
    }

    #[verifier::when_used_as_spec(spec_tg_id)]
    pub fn tg_id(&self) -> (tg_id: i64)
        ensures
            tg_id == self.spec_tg_id(),
    {
        self.tg_id
    }

    pub fn message(&self) -> (message: &String)
        ensures
            message@ == self.spec_message(),
    {
        &self.message
    }

    /// The error in words.
    pub fn to_text(&self) -> (text: String)
        ensures
            text@ == "sticker sets with Telegram ID `"@ + signed_decimal(self.spec_tg_id() as int) + "` not exists: "@
                + self.spec_message(),
    {
        let mut text: String = String::from_str("sticker sets with Telegram ID `");
        text.append(signed_decimal_string(self.tg_id).as_str());
        text.append("` not exists: ");
        text.append(self.message.as_str());
        text
    }
}

impl ApplicationException for SetTgIdNotExist {

}

} // verus!
