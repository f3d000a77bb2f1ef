//! Sign-in of registered accounts with an access token.

use vstd::prelude::*;
use crate::handlers::Refusal;
use crate::ids::NanoId;
use crate::model::UserRole;
use crate::rows::UserRow;

verus! {

/// What a signed-in connection is bound to and answered.
pub struct InitGrant {
    /// The row id the connection is bound to.
    pub user_row_id: u64,
    /// The account's public id, sent back.
    pub user_id: NanoId,
    /// The account's platform role, sent back.
    pub role: UserRole,
    /// The server's version, sent back.
    pub version: String,
}

/// Completes the sign-in of the account `user_pub_id`, given its user row:
/// the connection is bound to the row, and the account's id and role are
/// sent back with the server version. Refused when the account has no row.
pub fn init_handler(user_pub_id: NanoId, user: Option<UserRow>, version: String) -> (r: Result<
    InitGrant,
    Refusal,
>)
    ensures
        user is None ==> (r matches Err(Refusal::UserNotFound(id)) && id@ == user_pub_id@),
        user matches Some(u) ==> (r matches Ok(g) && g.user_row_id == u.id && g.user_id == u.pub_id
            && g.role == u.role && g.version == version),
{
    match user {
        Some(u) => Ok(InitGrant { user_row_id: u.id, user_id: u.pub_id, role: u.role, version }),
        None => Err(Refusal::UserNotFound(user_pub_id)),
    }
}

} // verus!
