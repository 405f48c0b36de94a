use vstd::prelude::*;
use crate::domain::entities::user::User as UserEntitie;

verus! {

/// A row of the table of users.
#[derive(Debug, Clone, PartialEq, Eq)]
pub struct User {
    pub tg_id: i64,
    /// When the row was made, in seconds since the Unix epoch.
    pub created: i64,
}

impl User {
    /// The user that the row records.
    pub fn into_entity(self) -> (entity: UserEntitie)
        ensures
            entity.tg_id == self.tg_id,
            entity.created == self.created,
    {
        UserEntitie { tg_id: self.tg_id, created: self.created }
    }
}

} // verus!
