use vstd::prelude::*;

verus! {

/// Address under which Telegram shows a sticker pack, up to the pack's name.
pub const TELEGRAM_STICKER_SET_URL: &'static str = "t.me/addstickers/";

/// Most stickers a pack can hold.
pub const MAX_STICKER_SET_LENGTH: usize = 120;

/// Most stickers Telegram accepts in the call that creates a pack.
pub const CREATE_SET_IN_ONE_GO_LENGTH_LIMIT: usize = 50;

/// Number of packs listed on one page.
pub const STICKER_SETS_NUMBER_PER_PAGE: usize = 50;

/// Page buttons in one keyboard row.
pub const PAGE_BUTTONS_PER_ROW: u32 = 5;

/// How many names the bot tries for a new pack before it gives up.
pub const MAX_NAME_ATTEMPTS: u32 = 8;

/// Characters of a generated pack name before the bot's suffix.
pub const GENERATED_NAME_LENGTH: usize = 11;

/// Least pause, in milliseconds, between two calls that change a pack.
pub const WRITE_PAUSE_MILLIS: u64 = 1001;

/// Most tries to learn from Telegram who owns a pack.
pub const MAX_OWNER_LOOKUPS: u32 = 7;

/// Seconds within which the owner of a pack has to be found, all tries
/// together.
pub const OWNER_LOOKUP_WINDOW_SECS: u64 = 10;

/// How long, in milliseconds, the notice about a pack's size stays before
/// the bot deletes it.
pub const NOTICE_LIFETIME_MILLIS: u64 = 15000;

/// Letters a generated pack name may start with.
pub const CHARSET_WITHOUT_NUMS: &'static str = "abcdefghijklmnopqrstuvwxyzABCDEFGHIJKLMNOPQRSTUVWXYZ";

/// Characters a generated pack name may continue with.
pub const CHARSET: &'static str = "abcdefghijklmnopqrstuvwxyzABCDEFGHIJKLMNOPQRSTUVWXYZ1234567890";

/// What stands between a generated name and the bot's username.
pub const CREATED_BY_MARKER: &'static str = "_by_";

} // verus!
