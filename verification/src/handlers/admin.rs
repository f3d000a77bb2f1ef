//! Platform administration: the app list, the user list, roles, the log
//! level, app deletion and ownerless apps.

use vstd::prelude::*;
use crate::handlers::{check_access, grants, signed_in, AppAccess, Refusal};
use crate::ids::NanoId;
use crate::model::{AppMemberRole, UserRole};
use crate::rows::{AppConfigRow, AppInfo, AppMemberRow, UserInfo, UserRow};
use vstd::std_specs::convert::FromSpec;

verus! {

/// An app's listing for platform admins carries its row's id, name, switch
/// and time; a user's listing carries the user's row id read as a signed
/// number, public id, name and role.
pub proof fn lemma_info_fields(app: AppConfigRow, user: UserRow)
    ensures
        AppInfo::from_spec(app).public_id == app.public_id,
        AppInfo::from_spec(app).app_name == app.app_name,
        AppInfo::from_spec(app).active == app.active,
        AppInfo::from_spec(app).created_at == app.created_at,
        UserInfo::from_spec(user).id == #[verifier::truncate] (user.id as i64),
        UserInfo::from_spec(user).pub_id == user.pub_id,
        UserInfo::from_spec(user).username == user.username,
        UserInfo::from_spec(user).role == user.role,
{
}

/// Lists every app.
pub struct MethodGetAllApps;

impl MethodGetAllApps {
    /// The listing of the stored apps, one entry per row, in order.
    pub fn respond(rows: Vec<AppConfigRow>) -> (r: Vec<AppInfo>)
        ensures
            r@.len() == rows@.len(),
            forall|i: int| 0 <= i < rows@.len() ==> #[trigger] r@[i] == AppInfo::from_spec(rows@[i]),
    {
        let ghost src = rows@;
        let mut out: Vec<AppInfo> = Vec::new();
        for row in it: rows
            invariant
                it.seq() == src,
                out@.len() == it.index(),
                forall|j: int| 0 <= j < it.index() ==> #[trigger] out@[j] == AppInfo::from_spec(src[j]),
        {
            out.push(AppInfo::from(row));
        }
        out
    }
}

/// Lists every platform user.
pub struct MethodGetUsers;

impl MethodGetUsers {
    /// The listing of the stored users, one entry per row, in order.
    pub fn respond(rows: Vec<UserRow>) -> (r: Vec<UserInfo>)
        ensures
            r@.len() == rows@.len(),
            forall|i: int| 0 <= i < rows@.len() ==> #[trigger] r@[i] == UserInfo::from_spec(rows@[i]),
    {
        let ghost src = rows@;
        let mut out: Vec<UserInfo> = Vec::new();
        for row in it: rows
            invariant
                it.seq() == src,
                out@.len() == it.index(),
                forall|j: int| 0 <= j < it.index() ==> #[trigger] out@[j] == UserInfo::from_spec(src[j]),
        {
            out.push(UserInfo::from(row));
        }
        out
    }
}

/// Sets a user's platform role.
pub struct MethodSetRole;

/// The role a user is given, keyed by the user's public id.
pub struct RoleUpdate {
    pub user_pub_id: NanoId,
    pub role: UserRole,
}

impl MethodSetRole {
    /// The update made: the role column of the row of `user_pub_id`.
    pub fn update(user_pub_id: NanoId, role: UserRole) -> (r: RoleUpdate)
        ensures
            r.user_pub_id == user_pub_id,
            r.role == role,
    {
        RoleUpdate { user_pub_id, role }
    }
}

/// Deletes an app.
pub struct MethodDeleteApp;

/// One step of an app deletion.
pub enum DeleteAppStep {
    /// Stop the app's bot.
    UnregisterBot(NanoId),
    /// Remove every membership of the app.
    DeleteMemberships(NanoId),
    /// Remove the app's configuration row.
    DeleteConfig(NanoId),
}

impl MethodDeleteApp {
    /// The user acting: the connection's user; refused when not signed in.
    pub fn actor(conn_user: Option<NanoId>) -> (r: Result<NanoId, Refusal>)
        ensures
            conn_user matches Some(u) ==> r == Ok::<NanoId, Refusal>(u),
            conn_user is None ==> r matches Err(Refusal::NotAuthenticated),
    {
        signed_in(conn_user, Refusal::NotAuthenticated)
    }

    /// Refused unless the actor's membership of the app, found under their
    /// membership key, is that of the owner.
    pub fn authorize(app_public_id: &NanoId, actor: &NanoId, membership: &Option<AppMemberRow>) -> (r: Result<
        (),
        Refusal,
    >)
        ensures
            r is Ok <==> grants(AppAccess::Owner, app_public_id@, actor@, *membership),
            r is Ok <==> (membership matches Some(m) && m.app_public_id@ == app_public_id@
                && m.user_pub_id@ == actor@ && m.role == AppMemberRole::Owner),
            r is Err ==> r matches Err(Refusal::NotAppOwner),
    {
        check_access(AppAccess::Owner, app_public_id, actor, membership)
    }

    /// The steps of deleting `app_public_id`, once its owner asked for it:
    /// its bot is stopped, its memberships removed, then its configuration
    /// row removed. Its sessions and messages stay.
    pub fn steps(app_public_id: NanoId) -> (r: Vec<DeleteAppStep>)
        ensures
            r@.len() == 3,
            r@[0] matches DeleteAppStep::UnregisterBot(a) && a@ == app_public_id@,
            r@[1] matches DeleteAppStep::DeleteMemberships(a) && a@ == app_public_id@,
            r@[2] matches DeleteAppStep::DeleteConfig(a) && a@ == app_public_id@,
    {
        let mut r: Vec<DeleteAppStep> = Vec::new();
        r.push(DeleteAppStep::UnregisterBot(app_public_id.clone()));
        r.push(DeleteAppStep::DeleteMemberships(app_public_id.clone()));
        r.push(DeleteAppStep::DeleteConfig(app_public_id));
        r
    }
}

/// At start-up, the configured platform admin's row with the role `Admin`;
/// refused when that user has not signed up yet.
pub fn bootstrap_admin_user(user: Option<UserRow>) -> (r: Result<UserRow, Refusal>)
    ensures
        user is None ==> r matches Err(Refusal::AdminNotSignedUp),
        user matches Some(u) ==> (r matches Ok(v) && v.id == u.id && v.pub_id == u.pub_id
            && v.username == u.username && v.role == UserRole::Admin),
{
    match user {
        Some(mut u) => {
            u.role = UserRole::Admin;
            Ok(u)
        },
        None => Err(Refusal::AdminNotSignedUp),
    }
}

} // verus!
