use vstd::prelude::*;

verus! {

/// A sticker pack that the bot created for a user.
#[derive(Debug, Clone, PartialEq, Eq)]
pub struct StickerSet {
    /// Telegram id of the pack's owner.
    pub tg_id: i64,
    /// Name of the pack, unique among all packs.
    pub short_name: String,
    /// Title shown to the pack's users.
    pub title: String,
}

} // verus!
