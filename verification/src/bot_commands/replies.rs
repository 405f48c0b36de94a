use vstd::prelude::*;
use crate::bot_commands::handlers::common::Reply;
use crate::bot_commands::handlers::my_stickers::NO_STOLEN_PACKS;
use crate::stickers::constants::{
    CREATE_SET_IN_ONE_GO_LENGTH_LIMIT, MAX_STICKER_SET_LENGTH, TELEGRAM_STICKER_SET_URL,
};
use crate::stickers::numbers::{decimal, decimal_string};
use crate::stickers::texts::{
    bold_html, code_html, html_bold, html_code, html_text_link, link_html, start_message,
    sticker_set_message, START_AFTER_NAME, START_BEFORE_NAME, STOLEN_BEFORE_LINK,
    STOLEN_BEFORE_NAME, STOLEN_BEFORE_ORIGINAL, STOLEN_END,
};

verus! {

pub const LAST_COMMAND_CANCELED: &'static str =
    "Last command was canceled.";

pub const SEND_STICKER: &'static str =
    "Please, send me a sticker.";

pub const SEND_STICKER_TO_STEAL: &'static str =
    "Send me a sticker and i will steal this sticker pack for you!";

pub const STICKER_WITHOUT_PACK: &'static str =
    "This sticker is without sticker pack! Try to send another sticker pack.";

pub const ENTER_NEW_TITLE: &'static str =
    "Now enter name for your new sticker pack (1-64 characters).";

pub const TITLE_TOO_LONG: &'static str =
    "Too long name for sticker pack! Try enter a name up to 64 characters long.";

pub const TITLE_TOO_SHORT: &'static str =
    "Too short name! Try enter a name between 1 and 64 characters long.";

pub const CREATE_FAILED: &'static str =
    "Error occurded while creating new sticker pack :(";

pub const TRY_SEND_STICKER_AGAIN: &'static str =
    "Sorry, an erorr occurded. Try send this sticker again :(";

pub const OWNER_LOOKUP_FAILED: &'static str =
    "Sorry, an error occurded. Try send sticker again :(";

pub const SEND_STICKERS_TO_ADD: &'static str =
    "Now send me stickers you want to add in stolen sticker pack. When youre ready, use /done command (or /cancel, if you want to cancel the last command).";

pub const STICKER_WITHOUT_EMOJI: &'static str =
    "Sorry, but this sticker is without emoji. Try send another sticker.";

pub const STICKER_PROCESSED: &'static str =
    "Sticker processed! Send the next one, or use the /done command if you're ready.";

pub const NO_STICKERS_SENT: &'static str =
    "You haven't sent a single sticker! Send the stickers, and only then use the /done command.";

pub const ADDING_STICKERS: &'static str =
    "Done! Trying to add that sticker(s) to your sticker pack..\n(if you have sent a lot of stickers, it may take up to a few minutes to add them)";

pub const CALLBACK_FAILED: &'static str =
    "Sorry, an error occurded. Try again :(";

pub const SOURCE_BEFORE_LINK: &'static str = "Source code of the bot ";

pub const SOURCE_LINK_TEXT: &'static str = "here!";

pub const SOURCE_LINK_URL: &'static str = "github.com/neocim/steal_stickers_bot";

pub const STEALING_BEFORE_TITLE: &'static str = "Stealing sticker pack with name `";

pub const STEALING_BEFORE_LIMIT: &'static str =
    "` for you..\n(stealing sticker packs containing more than ";

pub const STEALING_END: &'static str =
    " stickers can take up to a several minutes due to some internal limitations)";

pub const PARTLY_BEFORE_LINK: &'static str = "Error occurded while creating new sticker pack ";

pub const PARTLY_BEFORE_ORIGINAL: &'static str = " (original ";

pub const PARTLY_BEFORE_BOLD: &'static str = "), ";

pub const PARTLY_BOLD: &'static str = "but sticker pack was created";

pub const PARTLY_BEFORE_NAME: &'static str =
    "! \nDue to an error, not all stickers have been stolen :( (you can delete this sticker pack if you want using the /delpack command in official Telegram bot @Stickers. Name of this sticker pack: ";

pub const PARTLY_END: &'static str = ")";

pub const YOUR_STOLEN: &'static str = "your stolen";

pub const SEND_PACK_BEFORE_BOLD: &'static str = "Send me ";

pub const SEND_PACK_END: &'static str =
    " sticker pack, in which you want to add stickers. You can see all your stolen stickers, using command /mystickers (if you don't have the sticker packs stolen by this bot, first use the command /stealpack).";

pub const NOT_STOLEN_BEFORE_BOLD: &'static str =
    "This sticker pack wasnt stolen by this bot, which means i cant add stickers to it according to Telegram rules! Please, send ";

pub const NOT_OWNER_BEFORE_BOLD: &'static str =
    "You are not the owner of this sticker pack! Please, send ";

pub const OR_STEAL_END: &'static str =
    " sticker pack or steal this sticker pack using command /stealpack.";

pub const CAPACITY_BEFORE_LENGTH: &'static str = "Total length of this sticker pack = ";

pub const CAPACITY_BEFORE_REMAINING: &'static str = ". This means you can add a maximum of ";

pub const CAPACITY_BEFORE_LIMIT: &'static str =
    " stickers, otherwise you will get error because the maximum size of a sticker pack in current time = ";

pub const CAPACITY_END: &'static str = " stickers.";

pub const FULL_BEFORE_LIMIT: &'static str = "Sorry, but this sticker pack contains ";

pub const FULL_BEFORE_SECOND_LIMIT: &'static str =
    " stickers! :(\nYou cant add more stickers, because the maximum size of a sticker pack in current time = ";

pub const FULL_END: &'static str =
    " stickers. Try send another pack(or delete some stickers from this sticker pack).";

pub const LIMIT_BEFORE_NUMBER: &'static str =
    "Please, use command /done to add stickers (or /cancel if for some reason you change your mind about adding them), because the sum of the current stickers in the sticker pack and the stickers you want to add to it has reached ";

pub const LIMIT_END: &'static str =
    "! All next stickers (if you continue sending) will be ignored!";

pub const NOT_ALL_BEFORE_BOLD: &'static str = "Error occurded while adding stickers, ";

pub const NOT_ALL_BOLD: &'static str = "but some stickers was added";

pub const NOT_ALL_END: &'static str =
    "! Due to an error, not all stickers have been added :(";

pub const ADDED_BEFORE_LINK: &'static str = "This sticker(s) was added into ";

pub const ADDED_END: &'static str = "!";

/// Whether Telegram is to read `reply` as HTML: the messages that hold
/// links, bold type or fixed-width type.
pub open spec fn in_html(reply: Reply) -> bool {
    reply is Source || reply is PartlyStolen || reply is Stolen || reply is SendYourStolenPack
        || reply is NotStolenByThisBot || reply is NotOwner || reply is NotAllAdded
        || reply is StickersAdded || reply is PacksPage
}

/// The words of `reply`.
pub open spec fn text_of(reply: Reply) -> Seq<char> {
    match reply {
        Reply::Start { first_name } => START_BEFORE_NAME@ + first_name@ + START_AFTER_NAME@,
        Reply::Source => SOURCE_BEFORE_LINK@ + link_html(SOURCE_LINK_TEXT@, SOURCE_LINK_URL@),
        Reply::LastCommandCanceled => LAST_COMMAND_CANCELED@,
        Reply::SendSticker => SEND_STICKER@,
        Reply::SendStickerToSteal => SEND_STICKER_TO_STEAL@,
        Reply::StickerWithoutPack => STICKER_WITHOUT_PACK@,
        Reply::EnterNewTitle => ENTER_NEW_TITLE@,
        Reply::TitleTooLong => TITLE_TOO_LONG@,
        Reply::TitleTooShort => TITLE_TOO_SHORT@,
        Reply::CreateFailed => CREATE_FAILED@,
        Reply::TrySendStickerAgain => TRY_SEND_STICKER_AGAIN@,
        Reply::OwnerLookupFailed => OWNER_LOOKUP_FAILED@,
        Reply::SendStickersToAdd => SEND_STICKERS_TO_ADD@,
        Reply::StickerWithoutEmoji => STICKER_WITHOUT_EMOJI@,
        Reply::StickerProcessed => STICKER_PROCESSED@,
        Reply::NoStickersSent => NO_STICKERS_SENT@,
        Reply::AddingStickers => ADDING_STICKERS@,
        Reply::CallbackFailed => CALLBACK_FAILED@,
        Reply::Stealing { title } => STEALING_BEFORE_TITLE@ + title@ + STEALING_BEFORE_LIMIT@
            + decimal(CREATE_SET_IN_ONE_GO_LENGTH_LIMIT as nat) + STEALING_END@,
        Reply::PartlyStolen { title, name, link, original_title, original_link } =>
            PARTLY_BEFORE_LINK@ + link_html(title@, link@) + PARTLY_BEFORE_ORIGINAL@ + link_html(
            original_title@,
            original_link@,
        ) + PARTLY_BEFORE_BOLD@ + bold_html(PARTLY_BOLD@) + PARTLY_BEFORE_NAME@ + code_html(name@)
            + PARTLY_END@,
        Reply::Stolen { title, name, link, original_title, original_link } => STOLEN_BEFORE_LINK@
            + link_html(title@, link@) + STOLEN_BEFORE_ORIGINAL@ + link_html(
            original_title@,
            original_link@,
        ) + STOLEN_BEFORE_NAME@ + code_html(name@) + STOLEN_END@,
        Reply::SendYourStolenPack => SEND_PACK_BEFORE_BOLD@ + bold_html(YOUR_STOLEN@)
            + SEND_PACK_END@,
        Reply::NotStolenByThisBot => NOT_STOLEN_BEFORE_BOLD@ + bold_html(YOUR_STOLEN@)
            + OR_STEAL_END@,
        Reply::NotOwner => NOT_OWNER_BEFORE_BOLD@ + bold_html(YOUR_STOLEN@) + OR_STEAL_END@,
        Reply::PackCapacity { length, remaining } => CAPACITY_BEFORE_LENGTH@ + decimal(
            length as nat,
        ) + CAPACITY_BEFORE_REMAINING@ + decimal(remaining as nat) + CAPACITY_BEFORE_LIMIT@
            + decimal(MAX_STICKER_SET_LENGTH as nat) + CAPACITY_END@,
        Reply::PackFull => FULL_BEFORE_LIMIT@ + decimal(MAX_STICKER_SET_LENGTH as nat)
            + FULL_BEFORE_SECOND_LIMIT@ + decimal(MAX_STICKER_SET_LENGTH as nat) + FULL_END@,
        Reply::LimitReached => LIMIT_BEFORE_NUMBER@ + decimal(MAX_STICKER_SET_LENGTH as nat)
            + LIMIT_END@,
        Reply::NotAllAdded => NOT_ALL_BEFORE_BOLD@ + bold_html(NOT_ALL_BOLD@) + NOT_ALL_END@,
        Reply::StickersAdded { title, name } => ADDED_BEFORE_LINK@ + link_html(
            title@,
            TELEGRAM_STICKER_SET_URL@ + name@,
        ) + ADDED_END@,
        Reply::NoStolenPacks => NO_STOLEN_PACKS@,
        Reply::PacksPage { text, buttons } => text@,
    }
}

/// `before`, then `word` in bold type, then `after`.
fn with_bold(before: &str, word: &str, after: &str) -> (text: String)
    ensures
        text@ == before@ + bold_html(word@) + after@,
{
    let mut text: String = String::from_str(before);
    text.append(html_bold(word).as_str());
    text.append(after);
    text
}

/// The greatest number of stickers of a pack, written out.
fn limit() -> (text: String)
    ensures
        text@ == decimal(MAX_STICKER_SET_LENGTH as nat),
{
    decimal_string(MAX_STICKER_SET_LENGTH as u64)
}

impl Reply {
    /// Whether Telegram is to read the message as HTML.
    pub fn is_html(&self) -> (html: bool)
        ensures
            html == in_html(*self),
    {
        match self {
            Reply::Source => true,
            Reply::PartlyStolen { .. } => true,
            Reply::Stolen { .. } => true,
            Reply::SendYourStolenPack => true,
            Reply::NotStolenByThisBot => true,
            Reply::NotOwner => true,
            Reply::NotAllAdded => true,
            Reply::StickersAdded { .. } => true,
            Reply::PacksPage { .. } => true,
            _ => false,
        }
    }

    /// The words of the message.
    pub fn text(&self) -> (text: String)
        ensures
            text@ == text_of(*self),
    {
        match self {
            Reply::Start { first_name } => start_message(first_name.as_str()),
            Reply::Source => {
                let mut text: String = String::from_str(SOURCE_BEFORE_LINK);
                text.append(html_text_link(SOURCE_LINK_TEXT, SOURCE_LINK_URL).as_str());
                text
            },
            Reply::LastCommandCanceled => String::from_str(LAST_COMMAND_CANCELED),
            Reply::SendSticker => String::from_str(SEND_STICKER),
            Reply::SendStickerToSteal => String::from_str(SEND_STICKER_TO_STEAL),
            Reply::StickerWithoutPack => String::from_str(STICKER_WITHOUT_PACK),
            Reply::EnterNewTitle => String::from_str(ENTER_NEW_TITLE),
            Reply::TitleTooLong => String::from_str(TITLE_TOO_LONG),
            Reply::TitleTooShort => String::from_str(TITLE_TOO_SHORT),
            Reply::CreateFailed => String::from_str(CREATE_FAILED),
            Reply::TrySendStickerAgain => String::from_str(TRY_SEND_STICKER_AGAIN),
            Reply::OwnerLookupFailed => String::from_str(OWNER_LOOKUP_FAILED),
            Reply::SendStickersToAdd => String::from_str(SEND_STICKERS_TO_ADD),
            Reply::StickerWithoutEmoji => String::from_str(STICKER_WITHOUT_EMOJI),
            Reply::StickerProcessed => String::from_str(STICKER_PROCESSED),
            Reply::NoStickersSent => String::from_str(NO_STICKERS_SENT),
            Reply::AddingStickers => String::from_str(ADDING_STICKERS),
            Reply::CallbackFailed => String::from_str(CALLBACK_FAILED),
            Reply::Stealing { title } => {
                let mut text: String = String::from_str(STEALING_BEFORE_TITLE);
                text.append(title.as_str());
                text.append(STEALING_BEFORE_LIMIT);
                text.append(decimal_string(CREATE_SET_IN_ONE_GO_LENGTH_LIMIT as u64).as_str());
                text.append(STEALING_END);
                text
            },
            Reply::PartlyStolen { title, name, link, original_title, original_link } => {
                let mut text: String = String::from_str(PARTLY_BEFORE_LINK);
                text.append(html_text_link(title.as_str(), link.as_str()).as_str());
                text.append(PARTLY_BEFORE_ORIGINAL);
                text.append(
                    html_text_link(original_title.as_str(), original_link.as_str()).as_str(),
                );
                text.append(PARTLY_BEFORE_BOLD);
                text.append(html_bold(PARTLY_BOLD).as_str());
                text.append(PARTLY_BEFORE_NAME);
                text.append(html_code(name.as_str()).as_str());
                text.append(PARTLY_END);
                text
            },
            Reply::Stolen { title, name, link, original_title, original_link } =>
                sticker_set_message(
                title.as_str(),
                name.as_str(),
                link.as_str(),
                original_title.as_str(),
                original_link.as_str(),
            ),
            Reply::SendYourStolenPack => with_bold(
                SEND_PACK_BEFORE_BOLD,
                YOUR_STOLEN,
                SEND_PACK_END,
            ),
            Reply::NotStolenByThisBot => with_bold(
                NOT_STOLEN_BEFORE_BOLD,
                YOUR_STOLEN,
                OR_STEAL_END,
            ),
            Reply::NotOwner => with_bold(NOT_OWNER_BEFORE_BOLD, YOUR_STOLEN, OR_STEAL_END),
            Reply::PackCapacity { length, remaining } => {
                let mut text: String = String::from_str(CAPACITY_BEFORE_LENGTH);
                text.append(decimal_string(*length as u64).as_str());
                text.append(CAPACITY_BEFORE_REMAINING);
                text.append(decimal_string(*remaining as u64).as_str());
                text.append(CAPACITY_BEFORE_LIMIT);
                text.append(limit().as_str());
                text.append(CAPACITY_END);
                text
            },
            Reply::PackFull => {
                let mut text: String = String::from_str(FULL_BEFORE_LIMIT);
                text.append(limit().as_str());
                text.append(FULL_BEFORE_SECOND_LIMIT);
                text.append(limit().as_str());
                text.append(FULL_END);
                text
            },
            Reply::LimitReached => {
                let mut text: String = String::from_str(LIMIT_BEFORE_NUMBER);
                text.append(limit().as_str());
                text.append(LIMIT_END);
                text
            },
            Reply::NotAllAdded => with_bold(NOT_ALL_BEFORE_BOLD, NOT_ALL_BOLD, NOT_ALL_END),
            Reply::StickersAdded { title, name } => {
                let mut link: String = String::from_str(TELEGRAM_STICKER_SET_URL);
                link.append(name.as_str());
                let mut text: String = String::from_str(ADDED_BEFORE_LINK);
                text.append(html_text_link(title.as_str(), link.as_str()).as_str());
                text.append(ADDED_END);
                text
            },
            Reply::NoStolenPacks => String::from_str(NO_STOLEN_PACKS),
            Reply::PacksPage { text, buttons } => text.clone(),
        }
    }
}

} // verus!
