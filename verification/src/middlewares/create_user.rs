use vstd::prelude::*;
use crate::application::user::dto::Create;

verus! {

/// Who is to be recorded before an update is handled: the user that the
/// update comes from, and nobody where it comes from no user. Such an
/// update is passed over.
pub fn user_to_create(from_id: Option<i64>) -> (user: Option<Create>)
    ensures
        user is Some == from_id is Some,
        user is Some ==> user->0.spec_tg_id() == from_id->0,
{
    match from_id {
        Some(user_id) => Some(Create::new(user_id)),
        None => None,
    }
}

} // verus!
