//! The decisions of the request handlers.
//!
//! A handler reads the caller's connection, looks rows up and calls the
//! services; what it decides from those values stands here, as functions from
//! the values read to the answer or to the next steps to take.

pub mod admin;
pub mod app;
pub mod app_admin;
pub mod auth_api;
pub mod platform;

use vstd::prelude::*;
use crate::model::{AppMemberRole, EnumErrorCode};
use crate::ids::NanoId;
use crate::rows::AppMemberRow;

verus! {

/// Why a request is refused.
pub enum Refusal {
    /// The connection is not signed in; answered as a plain error.
    NotAuthenticated,
    /// The connection is not signed in; answered as `Unauthorized`.
    Unauthenticated,
    /// The connection is not an app's widget connection.
    NotAuthenticatedAsApp,
    /// The app does not exist or is not active.
    NoSuchApp,
    /// The visitor id is the id of a registered account.
    RegisteredAccount,
    /// A session was asked for on behalf of someone else.
    NotYourSession,
    /// No app was named for the session.
    DeskNotNamed,
    /// The session belongs to another app.
    SessionNotForApp,
    /// No session has the given id.
    SessionNotFound,
    /// No support user has the given handle in the app.
    SupportUserNotFound,
    /// The signed-in account, with this id, has no user row.
    UserNotFound(NanoId),
    /// The configured platform admin has not signed up.
    AdminNotSignedUp,
    /// The back office presented a wrong platform key.
    InvalidPlatformKey,
    /// The caller is not a member of the app.
    NotAppMember,
    /// The caller is neither an admin nor the owner of the app.
    NotAppAdmin,
    /// The caller is not the owner of the app.
    NotAppOwner,
}

impl Refusal {
    /// The API error code the refusal is answered with; `None` for a plain
    /// error, which the server reports with its own code.
    pub fn code(&self) -> (r: Option<EnumErrorCode>)
        ensures
            r == match self {
                Refusal::Unauthenticated => Some(EnumErrorCode::Unauthorized),
                Refusal::NoSuchApp => Some(EnumErrorCode::NotFound),
                Refusal::RegisteredAccount => Some(EnumErrorCode::Forbidden),
                Refusal::NotYourSession => Some(EnumErrorCode::Forbidden),
                Refusal::DeskNotNamed => Some(EnumErrorCode::BadRequest),
                _ => None,
            },
    {
        match self {
            Refusal::Unauthenticated => Some(EnumErrorCode::Unauthorized),
            Refusal::NoSuchApp => Some(EnumErrorCode::NotFound),
            Refusal::RegisteredAccount => Some(EnumErrorCode::Forbidden),
            Refusal::NotYourSession => Some(EnumErrorCode::Forbidden),
            Refusal::DeskNotNamed => Some(EnumErrorCode::BadRequest),
            _ => None,
        }
    }

    /// The message the refusal is answered with.
    pub fn message(&self) -> (r: String)
        ensures
            r@ == match self {
                Refusal::NotAuthenticated => "Connection not authenticated"@,
                Refusal::Unauthenticated => "Connection not authenticated"@,
                Refusal::NotAuthenticatedAsApp => "Connection not authenticated as app"@,
                Refusal::NoSuchApp => "No such app"@,
                Refusal::RegisteredAccount => "A registered account signs in with Init, not AppConnect"@,
                Refusal::NotYourSession => "A session can only be opened for yourself"@,
                Refusal::DeskNotNamed => "Name the desk in app_public_id"@,
                Refusal::SessionNotForApp => "Session does not belong to this app"@,
                Refusal::SessionNotFound => "Session not found"@,
                Refusal::SupportUserNotFound => "Support user not found"@,
                Refusal::UserNotFound(id) => "User "@ + id@ + " not found"@,
                Refusal::AdminNotSignedUp => "Configured admin user does not exist in database. Sign up first, then restart the server"@,
                Refusal::InvalidPlatformKey => "Invalid platform API key"@,
                Refusal::NotAppMember => "Not a member of this app"@,
                Refusal::NotAppAdmin => "Only an admin or the owner of this app may do this"@,
                Refusal::NotAppOwner => "Only the owner of this app may do this"@,
            },
    {
        let text = match self {
            Refusal::NotAuthenticated => "Connection not authenticated",
            Refusal::Unauthenticated => "Connection not authenticated",
            Refusal::NotAuthenticatedAsApp => "Connection not authenticated as app",
            Refusal::NoSuchApp => "No such app",
            Refusal::RegisteredAccount => "A registered account signs in with Init, not AppConnect",
            Refusal::NotYourSession => "A session can only be opened for yourself",
            Refusal::DeskNotNamed => "Name the desk in app_public_id",
            Refusal::SessionNotForApp => "Session does not belong to this app",
            Refusal::SessionNotFound => "Session not found",
            Refusal::SupportUserNotFound => "Support user not found",
            Refusal::UserNotFound(id) => {
                let mut m = "User ".to_owned();
                m.append(id.as_str());
                m.append(" not found");
                return m;
            },
            Refusal::AdminNotSignedUp => "Configured admin user does not exist in database. Sign up first, then restart the server",
            Refusal::InvalidPlatformKey => "Invalid platform API key",
            Refusal::NotAppMember => "Not a member of this app",
            Refusal::NotAppAdmin => "Only an admin or the owner of this app may do this",
            Refusal::NotAppOwner => "Only the owner of this app may do this",
        };
        text.to_owned()
    }
}

/// The signed-in user of a connection, or `refusal` when there is none.
pub fn signed_in(conn_user: Option<NanoId>, refusal: Refusal) -> (r: Result<NanoId, Refusal>)
    ensures
        conn_user matches Some(u) ==> r == Ok::<NanoId, Refusal>(u),
        conn_user is None ==> r == Err::<NanoId, Refusal>(refusal),
{
    match conn_user {
        Some(u) => Ok(u),
        None => Err(refusal),
    }
}

/// What a request needs of the caller within an app.
pub enum AppAccess {
    /// Any membership.
    Member,
    /// The role `Admin` or `Owner`.
    AdminOrOwner,
    /// The role `Owner`.
    Owner,
}

/// Whether a member with `role` has the access `need`.
pub open spec fn meets(need: AppAccess, role: AppMemberRole) -> bool {
    match need {
        AppAccess::Member => true,
        AppAccess::AdminOrOwner => role == AppMemberRole::Owner || role == AppMemberRole::Admin,
        AppAccess::Owner => role == AppMemberRole::Owner,
    }
}

/// The refusal of a caller without the access `need`.
pub open spec fn lacking(need: AppAccess) -> Refusal {
    match need {
        AppAccess::Member => Refusal::NotAppMember,
        AppAccess::AdminOrOwner => Refusal::NotAppAdmin,
        AppAccess::Owner => Refusal::NotAppOwner,
    }
}

/// Whether `membership` is a membership of `user` in `app` that has the
/// access `need`.
pub open spec fn grants(need: AppAccess, app: Seq<char>, user: Seq<char>, membership: Option<AppMemberRow>) -> bool {
    membership matches Some(m) && m.app_public_id@ == app && m.user_pub_id@ == user && meets(need, m.role)
}

/// The access levels within an app: any membership row of the user in the
/// app grants member access whatever its role; owner access is the role
/// `Owner`, admin-or-owner access the roles `Owner` and `Admin`; each level
/// includes the ones below it; and without a row nothing is granted.
pub proof fn lemma_app_access_levels(app: Seq<char>, user: Seq<char>, membership: Option<AppMemberRow>)
    ensures
        (membership matches Some(m) && m.app_public_id@ == app && m.user_pub_id@ == user) ==> grants(
            AppAccess::Member,
            app,
            user,
            membership,
        ),
        grants(AppAccess::Owner, app, user, membership) <==> (membership matches Some(m) && m.app_public_id@ == app
            && m.user_pub_id@ == user && m.role == AppMemberRole::Owner),
        grants(AppAccess::AdminOrOwner, app, user, membership) <==> (membership matches Some(m)
            && m.app_public_id@ == app && m.user_pub_id@ == user && (m.role == AppMemberRole::Owner
            || m.role == AppMemberRole::Admin)),
        grants(AppAccess::Owner, app, user, membership) ==> grants(AppAccess::AdminOrOwner, app, user, membership),
        grants(AppAccess::AdminOrOwner, app, user, membership) ==> grants(AppAccess::Member, app, user, membership),
        grants(AppAccess::Member, app, user, membership) ==> (membership matches Some(m) && m.app_public_id@ == app
            && m.user_pub_id@ == user),
        membership is None ==> !grants(AppAccess::Member, app, user, membership),
{
}

/// Checks that `user` has the access `need` in `app`, given the membership
/// row found under their membership key (if any). A row of another app or
/// user grants nothing.
pub fn check_access(need: AppAccess, app: &NanoId, user: &NanoId, membership: &Option<AppMemberRow>) -> (r:
    Result<(), Refusal>)
    ensures
        r is Ok <==> grants(need, app@, user@, *membership),
        need is Member ==> (r is Ok <==> (membership matches Some(m) && m.app_public_id@ == app@
            && m.user_pub_id@ == user@)),
        need is AdminOrOwner ==> (r is Ok <==> (membership matches Some(m) && m.app_public_id@ == app@
            && m.user_pub_id@ == user@ && (m.role == AppMemberRole::Owner || m.role == AppMemberRole::Admin))),
        need is Owner ==> (r is Ok <==> (membership matches Some(m) && m.app_public_id@ == app@
            && m.user_pub_id@ == user@ && m.role == AppMemberRole::Owner)),
        r is Err ==> r == Err::<(), Refusal>(lacking(need)),
{
    let ok = match membership {
        Some(m) => {
            m.app_public_id.same(app) && m.user_pub_id.same(user) && match need {
                AppAccess::Member => true,
                AppAccess::AdminOrOwner => match m.role {
                    AppMemberRole::Owner => true,
                    AppMemberRole::Admin => true,
                    _ => false,
                },
                AppAccess::Owner => match m.role {
                    AppMemberRole::Owner => true,
                    _ => false,
                },
            }
        },
        None => false,
    };
    if ok {
        Ok(())
    } else {
        Err(
            match need {
                AppAccess::Member => Refusal::NotAppMember,
                AppAccess::AdminOrOwner => Refusal::NotAppAdmin,
                AppAccess::Owner => Refusal::NotAppOwner,
            },
        )
    }
}

} // verus!
