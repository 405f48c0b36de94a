use vstd::prelude::*;
use crate::domain::entities::set::StickerSet as SetEntitie;

verus! {

/// A row of the table of packs.
#[derive(Debug, Clone, PartialEq, Eq)]
pub struct StickerSet {
    pub tg_id: i64,
    pub short_name: String,
    /// Whether Telegram no longer knows the pack.
    pub deleted: bool,
    pub title: String,
}

impl StickerSet {
    /// The pack that the row records.
    pub fn into_entity(self) -> (entity: SetEntitie)
        ensures
            entity.tg_id == self.tg_id,
            entity.short_name@ == self.short_name@,
            entity.title@ == self.title@,
    {
        SetEntitie { tg_id: self.tg_id, short_name: self.short_name, title: self.title }
    }
}

} // verus!
