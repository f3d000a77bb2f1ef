//! App administration by an app's owners and admins: creating and editing
//! apps, support users, members and message persistence.

use vstd::prelude::*;
use crate::handlers::{check_access, grants, signed_in, AppAccess, Refusal};
use crate::ids::NanoId;
use crate::model::AppMemberRole;
use crate::rows::{
    memory_row, AppConfig, AppConfigRow, AppMemberRow, SupportMemoryMessageRow, SupportMessageRow, SupportUser,
    SupportUserRow,
};
use vstd::std_specs::convert::FromSpec;

verus! {

/// A new support user of an app: active, with no chat known yet.
pub open spec fn new_support_user(id: u64, app_public_id: NanoId, tg_handle: String) -> SupportUserRow {
    SupportUserRow { id, app_public_id, tg_handle, chat_id: None, is_active: true }
}

/// A new support user is active, has no chat yet, and holds the given row
/// id, app and handle.
pub proof fn lemma_new_support_user_fields(id: u64, app_public_id: NanoId, tg_handle: String)
    ensures
        new_support_user(id, app_public_id, tg_handle).id == id,
        new_support_user(id, app_public_id, tg_handle).app_public_id == app_public_id,
        new_support_user(id, app_public_id, tg_handle).tg_handle == tg_handle,
        new_support_user(id, app_public_id, tg_handle).chat_id is None,
        new_support_user(id, app_public_id, tg_handle).is_active,
{
}

/// The row of a new support user with the next free row id.
pub fn support_user_row(id: u64, app_public_id: NanoId, tg_handle: String) -> (r: SupportUserRow)
    ensures
        r == new_support_user(id, app_public_id, tg_handle),
{
    SupportUserRow { id, app_public_id, tg_handle, chat_id: None, is_active: true }
}

/// The listed form of a support user: the row id read as a signed number.
pub open spec fn listed_support_user(row: SupportUserRow) -> SupportUser {
    SupportUser {
        id: #[verifier::truncate] (row.id as i64),
        app_public_id: row.app_public_id,
        tg_handle: row.tg_handle,
        chat_id: row.chat_id,
        is_active: row.is_active,
    }
}

/// A listed support user carries its row's app, handle, chat and switch,
/// and its row id read as a signed number.
pub proof fn lemma_listed_support_user_fields(row: SupportUserRow)
    ensures
        listed_support_user(row).id == #[verifier::truncate] (row.id as i64),
        listed_support_user(row).app_public_id == row.app_public_id,
        listed_support_user(row).tg_handle == row.tg_handle,
        listed_support_user(row).chat_id == row.chat_id,
        listed_support_user(row).is_active == row.is_active,
{
}

/// The listing of an app's support users, one entry per row, in order.
pub fn support_user_listing(rows: Vec<SupportUserRow>) -> (r: Vec<SupportUser>)
    ensures
        r@.len() == rows@.len(),
        forall|i: int| 0 <= i < rows@.len() ==> #[trigger] r@[i] == listed_support_user(rows@[i]),
{
    let ghost src = rows@;
    let mut out: Vec<SupportUser> = Vec::new();
    for row in it: rows
        invariant
            it.seq() == src,
            out@.len() == it.index(),
            forall|j: int| 0 <= j < it.index() ==> #[trigger] out@[j] == listed_support_user(src[j]),
    {
        out.push(
            SupportUser {
                id: #[verifier::truncate] (row.id as i64),
                app_public_id: row.app_public_id,
                tg_handle: row.tg_handle,
                chat_id: row.chat_id,
                is_active: row.is_active,
            },
        );
    }
    out
}

/// Adds a support user to an app.
pub struct MethodAddSupportUser;

impl MethodAddSupportUser {
    /// Refused unless the actor's membership of the app, found under their
    /// membership key, is that of an admin or of the owner.
    pub fn authorize(app_public_id: &NanoId, actor: &NanoId, membership: &Option<AppMemberRow>) -> (r: Result<
        (),
        Refusal,
    >)
        ensures
            r is Ok <==> grants(AppAccess::AdminOrOwner, app_public_id@, actor@, *membership),
            r is Ok <==> (membership matches Some(m) && m.app_public_id@ == app_public_id@
                && m.user_pub_id@ == actor@ && (m.role == AppMemberRole::Owner || m.role == AppMemberRole::Admin)),
            r is Err ==> r matches Err(Refusal::NotAppAdmin),
    {
        check_access(AppAccess::AdminOrOwner, app_public_id, actor, membership)
    }

    /// The user acting: the connection's user; refused when not signed in.
    pub fn actor(conn_user: Option<NanoId>) -> (r: Result<NanoId, Refusal>)
        ensures
            conn_user matches Some(u) ==> r == Ok::<NanoId, Refusal>(u),
            conn_user is None ==> r matches Err(Refusal::NotAuthenticated),
    {
        signed_in(conn_user, Refusal::NotAuthenticated)
    }

    /// The row inserted, once the actor is an admin or owner of the app.
    pub fn row(id: u64, app_public_id: NanoId, tg_handle: String) -> (r: SupportUserRow)
        ensures
            r == new_support_user(id, app_public_id, tg_handle),
    {
        support_user_row(id, app_public_id, tg_handle)
    }
}

/// Lists an app's support users.
pub struct MethodListSupportUsers;

impl MethodListSupportUsers {
    /// Refused unless the actor is a member of the app, by the membership
    /// found under their membership key.
    pub fn authorize(app_public_id: &NanoId, actor: &NanoId, membership: &Option<AppMemberRow>) -> (r: Result<
        (),
        Refusal,
    >)
        ensures
            r is Ok <==> grants(AppAccess::Member, app_public_id@, actor@, *membership),
            r is Ok <==> (membership matches Some(m) && m.app_public_id@ == app_public_id@
                && m.user_pub_id@ == actor@),
            r is Err ==> r matches Err(Refusal::NotAppMember),
    {
        check_access(AppAccess::Member, app_public_id, actor, membership)
    }

    /// The user acting: the connection's user; refused when not signed in.
    pub fn actor(conn_user: Option<NanoId>) -> (r: Result<NanoId, Refusal>)
        ensures
            conn_user matches Some(u) ==> r == Ok::<NanoId, Refusal>(u),
            conn_user is None ==> r matches Err(Refusal::NotAuthenticated),
    {
        signed_in(conn_user, Refusal::NotAuthenticated)
    }

    /// The listing, once the actor is a member of the app.
    pub fn respond(rows: Vec<SupportUserRow>) -> (r: Vec<SupportUser>)
        ensures
            r@.len() == rows@.len(),
            forall|i: int| 0 <= i < rows@.len() ==> #[trigger] r@[i] == listed_support_user(rows@[i]),
    {
        support_user_listing(rows)
    }
}

/// Creates an app.
pub struct MethodCreateApp;

/// What an app is created with.
pub struct AppCreation {
    pub tg_bot_token: String,
    pub app_name: Option<String>,
    pub message_persistence_enabled: bool,
    /// The creator, who becomes the app's owner.
    pub owner: NanoId,
}

/// The bot started for a new app.
pub struct BotStart {
    pub app_public_id: NanoId,
    pub tg_bot_token: String,
}

/// The answer to a created app.
pub struct CreateAppResponse {
    pub app_public_id: NanoId,
    pub created_at: i64,
}

impl MethodCreateApp {
    /// The creator: the connection's user; refused when not signed in.
    pub fn creator(conn_user: Option<NanoId>) -> (r: Result<NanoId, Refusal>)
        ensures
            conn_user matches Some(u) ==> r == Ok::<NanoId, Refusal>(u),
            conn_user is None ==> r matches Err(Refusal::NotAuthenticated),
    {
        signed_in(conn_user, Refusal::NotAuthenticated)
    }

    /// The new app: the requested token and name, message persistence off
    /// unless asked for, and the creator as its owner.
    pub fn creation(
        creator: NanoId,
        tg_bot_token: String,
        app_name: Option<String>,
        message_persistence_enabled: Option<bool>,
    ) -> (r: AppCreation)
        ensures
            r.tg_bot_token == tg_bot_token,
            r.app_name == app_name,
            r.message_persistence_enabled == (message_persistence_enabled == Some(true)),
            r.owner == creator,
    {
        let persist = match message_persistence_enabled {
            Some(b) => b,
            None => false,
        };
        AppCreation { tg_bot_token, app_name, message_persistence_enabled: persist, owner: creator }
    }

    /// Once the app is stored under `app_public_id`, its bot is started with
    /// the token it was created with.
    pub fn bot_start(app_public_id: NanoId, creation: &AppCreation) -> (r: BotStart)
        ensures
            r.app_public_id == app_public_id,
            r.tg_bot_token@ == creation.tg_bot_token@,
    {
        BotStart { app_public_id, tg_bot_token: creation.tg_bot_token.clone() }
    }

    /// The answer: the new app's id and creation time.
    pub fn respond(app_public_id: NanoId, created_at: i64) -> (r: CreateAppResponse)
        ensures
            r.app_public_id == app_public_id,
            r.created_at == created_at,
    {
        CreateAppResponse { app_public_id, created_at }
    }
}

/// Switches message persistence off for an app.
pub struct MethodDisableMessagePersistence;

impl MethodDisableMessagePersistence {
    /// The app's stored messages as they move to the in-memory store when
    /// persistence is switched off: every message, in order, each kept as it
    /// was.
    pub fn in_memory(rows: Vec<SupportMessageRow>) -> (r: Vec<SupportMemoryMessageRow>)
        ensures
            r@.len() == rows@.len(),
            forall|i: int| 0 <= i < rows@.len() ==> #[trigger] r@[i] == memory_row(rows@[i]),
    {
        let ghost src = rows@;
        let mut out: Vec<SupportMemoryMessageRow> = Vec::new();
        for row in it: rows
            invariant
                it.seq() == src,
                out@.len() == it.index(),
                forall|j: int| 0 <= j < it.index() ==> #[trigger] out@[j] == memory_row(src[j]),
        {
            out.push(SupportMemoryMessageRow::from(row));
        }
        out
    }

    /// Refused unless the actor's membership of the app, found under their
    /// membership key, is that of an admin or of the owner.
    pub fn authorize(app_public_id: &NanoId, actor: &NanoId, membership: &Option<AppMemberRow>) -> (r: Result<
        (),
        Refusal,
    >)
        ensures
            r is Ok <==> grants(AppAccess::AdminOrOwner, app_public_id@, actor@, *membership),
            r is Ok <==> (membership matches Some(m) && m.app_public_id@ == app_public_id@
                && m.user_pub_id@ == actor@ && (m.role == AppMemberRole::Owner || m.role == AppMemberRole::Admin)),
            r is Err ==> r matches Err(Refusal::NotAppAdmin),
    {
        check_access(AppAccess::AdminOrOwner, app_public_id, actor, membership)
    }

    /// The user acting: the connection's user; refused as `Unauthorized` when
    /// not signed in.
    pub fn actor(conn_user: Option<NanoId>) -> (r: Result<NanoId, Refusal>)
        ensures
            conn_user matches Some(u) ==> r == Ok::<NanoId, Refusal>(u),
            conn_user is None ==> r matches Err(Refusal::Unauthenticated),
    {
        signed_in(conn_user, Refusal::Unauthenticated)
    }
}

/// Disables a support user of an app.
pub struct MethodDisableSupportUser;

impl MethodDisableSupportUser {
    /// Refused unless the actor's membership of the app, found under their
    /// membership key, is that of an admin or of the owner.
    pub fn authorize(app_public_id: &NanoId, actor: &NanoId, membership: &Option<AppMemberRow>) -> (r: Result<
        (),
        Refusal,
    >)
        ensures
            r is Ok <==> grants(AppAccess::AdminOrOwner, app_public_id@, actor@, *membership),
            r is Ok <==> (membership matches Some(m) && m.app_public_id@ == app_public_id@
                && m.user_pub_id@ == actor@ && (m.role == AppMemberRole::Owner || m.role == AppMemberRole::Admin)),
            r is Err ==> r matches Err(Refusal::NotAppAdmin),
    {
        check_access(AppAccess::AdminOrOwner, app_public_id, actor, membership)
    }

    /// The user acting: the connection's user; refused when not signed in.
    pub fn actor(conn_user: Option<NanoId>) -> (r: Result<NanoId, Refusal>)
        ensures
            conn_user matches Some(u) ==> r == Ok::<NanoId, Refusal>(u),
            conn_user is None ==> r matches Err(Refusal::NotAuthenticated),
    {
        signed_in(conn_user, Refusal::NotAuthenticated)
    }
}

/// Lists the members of an app.
pub struct MethodListAppMembers;

impl MethodListAppMembers {
    /// Refused unless the actor is a member of the app, by the membership
    /// found under their membership key.
    pub fn authorize(app_public_id: &NanoId, actor: &NanoId, membership: &Option<AppMemberRow>) -> (r: Result<
        (),
        Refusal,
    >)
        ensures
            r is Ok <==> grants(AppAccess::Member, app_public_id@, actor@, *membership),
            r is Ok <==> (membership matches Some(m) && m.app_public_id@ == app_public_id@
                && m.user_pub_id@ == actor@),
            r is Err ==> r matches Err(Refusal::NotAppMember),
    {
        check_access(AppAccess::Member, app_public_id, actor, membership)
    }

    /// The user acting: the connection's user; refused when not signed in.
    pub fn actor(conn_user: Option<NanoId>) -> (r: Result<NanoId, Refusal>)
        ensures
            conn_user matches Some(u) ==> r == Ok::<NanoId, Refusal>(u),
            conn_user is None ==> r matches Err(Refusal::NotAuthenticated),
    {
        signed_in(conn_user, Refusal::NotAuthenticated)
    }
}

/// Sets a member's role within an app.
pub struct MethodSetAppMemberRole;

impl MethodSetAppMemberRole {
    /// Refused unless the actor's membership of the app, found under their
    /// membership key, is that of the owner.
    pub fn authorize(app_public_id: &NanoId, actor: &NanoId, membership: &Option<AppMemberRow>) -> (r: Result<
        (),
        Refusal,
    >)
        ensures
            r is Ok <==> grants(AppAccess::Owner, app_public_id@, actor@, *membership),
            r is Ok <==> (membership matches Some(m) && m.app_public_id@ == app_public_id@
                && m.user_pub_id@ == actor@ && m.role == AppMemberRole::Owner),
            r is Err ==> r matches Err(Refusal::NotAppOwner),
    {
        check_access(AppAccess::Owner, app_public_id, actor, membership)
    }

    /// The user acting: the connection's user; refused as `Unauthorized` when
    /// not signed in.
    pub fn actor(conn_user: Option<NanoId>) -> (r: Result<NanoId, Refusal>)
        ensures
            conn_user matches Some(u) ==> r == Ok::<NanoId, Refusal>(u),
            conn_user is None ==> r matches Err(Refusal::Unauthenticated),
    {
        signed_in(conn_user, Refusal::Unauthenticated)
    }
}

/// Lists apps.
pub struct MethodListApps;

/// Whether some membership row makes `user` a member of `app`.
pub open spec fn is_member(members: Seq<AppMemberRow>, app: Seq<char>, user: Seq<char>) -> bool {
    exists|k: int|
        #![trigger members[k]]
        0 <= k < members.len() && members[k].app_public_id@ == app && members[k].user_pub_id@ == user
}

/// Whether some membership row makes `user` a member of `app`.
pub fn is_member_of(members: &Vec<AppMemberRow>, app: &NanoId, user: &NanoId) -> (r: bool)
    ensures
        r == is_member(members@, app@, user@),
{
    let mut i: usize = 0;
    while i < members.len()
        invariant
            i <= members@.len(),
            forall|k: int|
                #![trigger members@[k]]
                0 <= k < i ==> !(members@[k].app_public_id@ == app@ && members@[k].user_pub_id@ == user@),
        decreases members@.len() - i,
    {
        if members[i].app_public_id.same(app) && members[i].user_pub_id.same(user) {
            return true;
        }
        i = i + 1;
    }
    false
}

/// The listing of the apps among `apps` that `user` is a member of, in order.
pub open spec fn member_apps(apps: Seq<AppConfigRow>, members: Seq<AppMemberRow>, user: Seq<char>) -> Seq<
    AppConfig,
>
    decreases apps.len(),
{
    if apps.len() == 0 {
        seq![]
    } else {
        let rest = member_apps(apps.drop_last(), members, user);
        if is_member(members, apps.last().public_id@, user) {
            rest.push(listed_app(apps.last()))
        } else {
            rest
        }
    }
}

/// A listed app carries its row's own id, token, name, switches and time.
pub proof fn lemma_listed_app_fields(row: AppConfigRow)
    ensures
        listed_app(row).app_public_id == row.public_id,
        listed_app(row).tg_bot_token == row.tg_bot_token,
        listed_app(row).app_name == row.app_name,
        listed_app(row).active == row.active,
        listed_app(row).message_persistence_enabled == row.message_persistence_enabled,
        listed_app(row).created_at == row.created_at,
{
}

/// Every app that a membership row of the caller names is listed, whatever
/// else its row holds (an inactive app too), with the row's own fields.
pub proof fn lemma_member_apps_listed(apps: Seq<AppConfigRow>, members: Seq<AppMemberRow>, user: Seq<char>, i: int)
    requires
        0 <= i < apps.len(),
        exists|k: int|
            #![trigger members[k]]
            0 <= k < members.len() && members[k].app_public_id@ == apps[i].public_id@ && members[k].user_pub_id@
                == user,
    ensures
        exists|j: int|
            #![trigger member_apps(apps, members, user)[j]]
            0 <= j < member_apps(apps, members, user).len() && member_apps(apps, members, user)[j].app_public_id
                == apps[i].public_id && member_apps(apps, members, user)[j].tg_bot_token == apps[i].tg_bot_token
                && member_apps(apps, members, user)[j].app_name == apps[i].app_name && member_apps(
                apps,
                members,
                user,
            )[j].active == apps[i].active && member_apps(apps, members, user)[j].message_persistence_enabled
                == apps[i].message_persistence_enabled && member_apps(apps, members, user)[j].created_at
                == apps[i].created_at,
    decreases apps.len(),
{
    let rest = member_apps(apps.drop_last(), members, user);
    let out = member_apps(apps, members, user);
    if i == apps.len() - 1 {
        assert(is_member(members, apps.last().public_id@, user));
        assert(out[rest.len() as int] == listed_app(apps.last()));
    } else {
        assert(apps.drop_last()[i] == apps[i]);
        lemma_member_apps_listed(apps.drop_last(), members, user, i);
        let j = choose|j: int|
            #![trigger rest[j]]
            0 <= j < rest.len() && rest[j].app_public_id == apps[i].public_id && rest[j].tg_bot_token
                == apps[i].tg_bot_token && rest[j].app_name == apps[i].app_name && rest[j].active == apps[i].active
                && rest[j].message_persistence_enabled == apps[i].message_persistence_enabled && rest[j].created_at
                == apps[i].created_at;
        assert(out[j] == rest[j]);
    }
}

/// Every listed entry is the row of an app that a membership row of the
/// caller names, with that row's own fields.
pub proof fn lemma_member_apps_only(apps: Seq<AppConfigRow>, members: Seq<AppMemberRow>, user: Seq<char>, j: int)
    requires
        0 <= j < member_apps(apps, members, user).len(),
    ensures
        exists|i: int, k: int|
            #![trigger apps[i], members[k]]
            0 <= i < apps.len() && 0 <= k < members.len() && members[k].app_public_id@ == apps[i].public_id@
                && members[k].user_pub_id@ == user && member_apps(apps, members, user)[j].app_public_id
                == apps[i].public_id && member_apps(apps, members, user)[j].tg_bot_token == apps[i].tg_bot_token
                && member_apps(apps, members, user)[j].app_name == apps[i].app_name && member_apps(
                apps,
                members,
                user,
            )[j].active == apps[i].active && member_apps(apps, members, user)[j].message_persistence_enabled
                == apps[i].message_persistence_enabled && member_apps(apps, members, user)[j].created_at
                == apps[i].created_at,
    decreases apps.len(),
{
    let rest = member_apps(apps.drop_last(), members, user);
    let out = member_apps(apps, members, user);
    if j < rest.len() {
        lemma_member_apps_only(apps.drop_last(), members, user, j);
        let (i, k) = choose|i: int, k: int|
            #![trigger apps.drop_last()[i], members[k]]
            0 <= i < apps.drop_last().len() && 0 <= k < members.len() && members[k].app_public_id@
                == apps.drop_last()[i].public_id@ && members[k].user_pub_id@ == user && rest[j].app_public_id
                == apps.drop_last()[i].public_id && rest[j].tg_bot_token == apps.drop_last()[i].tg_bot_token
                && rest[j].app_name == apps.drop_last()[i].app_name && rest[j].active == apps.drop_last()[i].active
                && rest[j].message_persistence_enabled == apps.drop_last()[i].message_persistence_enabled
                && rest[j].created_at == apps.drop_last()[i].created_at;
        assert(out[j] == rest[j]);
        assert(apps.drop_last()[i] == apps[i]);
    } else {
        let i = apps.len() - 1;
        assert(is_member(members, apps.last().public_id@, user));
        let k = choose|k: int|
            #![trigger members[k]]
            0 <= k < members.len() && members[k].app_public_id@ == apps.last().public_id@ && members[k].user_pub_id@
                == user;
        assert(out[j] == listed_app(apps[i]));
        assert(members[k].app_public_id@ == apps[i].public_id@);
    }
}

/// The listed form of an app's row.
pub open spec fn listed_app(row: AppConfigRow) -> AppConfig {
    AppConfig {
        app_public_id: row.public_id,
        tg_bot_token: row.tg_bot_token,
        app_name: row.app_name,
        active: row.active,
        message_persistence_enabled: row.message_persistence_enabled,
        created_at: row.created_at,
    }
}

impl MethodListApps {
    /// The caller: the connection's user; refused when not signed in.
    pub fn caller(conn_user: Option<NanoId>) -> (r: Result<NanoId, Refusal>)
        ensures
            conn_user matches Some(u) ==> r == Ok::<NanoId, Refusal>(u),
            conn_user is None ==> r matches Err(Refusal::NotAuthenticated),
    {
        signed_in(conn_user, Refusal::NotAuthenticated)
    }

    /// The listing of the apps among `apps` that `caller` is a member of
    /// according to `members`, one entry per such row, in order.
    pub fn respond(apps: Vec<AppConfigRow>, members: &Vec<AppMemberRow>, caller: &NanoId) -> (r: Vec<
        AppConfig,
    >)
        ensures
            r@ == member_apps(apps@, members@, caller@),
    {
        let ghost src = apps@;
        let mut out: Vec<AppConfig> = Vec::new();
        for row in it: apps
            invariant
                it.seq() == src,
                out@ == member_apps(src.take(it.index() as int), members@, caller@),
        {
            proof {
                assert(src.take(it.index() + 1).drop_last() =~= src.take(it.index() as int));
            }
            if is_member_of(members, &row.public_id, caller) {
                out.push(
                    AppConfig {
                        app_public_id: row.public_id,
                        tg_bot_token: row.tg_bot_token,
                        app_name: row.app_name,
                        active: row.active,
                        message_persistence_enabled: row.message_persistence_enabled,
                        created_at: row.created_at,
                    },
                );
            }
        }
        proof {
            assert(src.take(src.len() as int) =~= src);
        }
        out
    }
}

/// Edits an app.
pub struct MethodEditApp;

/// The changes made to an app's row; a field left `None` is kept.
pub struct AppUpdate {
    pub tg_bot_token: Option<String>,
    pub app_name: Option<String>,
    pub active: Option<bool>,
    pub message_persistence_enabled: Option<bool>,
}

/// A step taken on an app's bot after an edit.
pub enum BotStep {
    /// Stop the bot.
    Unregister,
    /// Start the bot with this token.
    Register(String),
    /// Start the bot with the token now stored for the app, if the app is
    /// still there.
    RegisterStoredToken,
}

/// A bot step with its token as text.
pub enum BotStepView {
    Unregister,
    Register(Seq<char>),
    RegisterStoredToken,
}

/// The view of a bot step.
pub open spec fn bot_step_view(s: BotStep) -> BotStepView {
    match s {
        BotStep::Unregister => BotStepView::Unregister,
        BotStep::Register(t) => BotStepView::Register(t@),
        BotStep::RegisterStoredToken => BotStepView::RegisterStoredToken,
    }
}

/// The bot steps of an edit: a new token restarts the bot with it; then
/// activating starts it with the stored token, deactivating stops it.
pub open spec fn edit_bot_steps(tg_bot_token: Option<Seq<char>>, active: Option<bool>) -> Seq<BotStepView> {
    let restart = match tg_bot_token {
        Some(t) => seq![BotStepView::Unregister, BotStepView::Register(t)],
        None => Seq::empty(),
    };
    let switch = match active {
        Some(true) => seq![BotStepView::RegisterStoredToken],
        Some(false) => seq![BotStepView::Unregister],
        None => Seq::empty(),
    };
    restart + switch
}

/// What an edit does to the app's bot: a new token stops the bot and starts
/// it with that token, first; then activating starts it with the stored
/// token and deactivating stops it, as the last step. Without a new token
/// the bot is never started with a given token; without an active flag it is
/// never started with the stored one.
pub proof fn lemma_edit_bot_steps(t: Option<Seq<char>>, a: Option<bool>)
    ensures
        edit_bot_steps(t, a).len() == (if t is Some { 2int } else { 0int }) + (if a is Some { 1int } else { 0int }),
        t matches Some(x) ==> edit_bot_steps(t, a)[0] == BotStepView::Unregister && edit_bot_steps(t, a)[1]
            == BotStepView::Register(x),
        a == Some(true) ==> edit_bot_steps(t, a).last() == BotStepView::RegisterStoredToken,
        a == Some(false) ==> edit_bot_steps(t, a).last() == BotStepView::Unregister,
        t is None ==> forall|i: int|
            0 <= i < edit_bot_steps(t, a).len() ==> !(#[trigger] edit_bot_steps(t, a)[i] is Register),
        a != Some(true) ==> forall|i: int|
            0 <= i < edit_bot_steps(t, a).len() ==> !(#[trigger] edit_bot_steps(t, a)[i] is RegisterStoredToken),
{
    let s = edit_bot_steps(t, a);
    let restart: Seq<BotStepView> = match t {
        Some(x) => seq![BotStepView::Unregister, BotStepView::Register(x)],
        None => Seq::empty(),
    };
    let switch: Seq<BotStepView> = match a {
        Some(true) => seq![BotStepView::RegisterStoredToken],
        Some(false) => seq![BotStepView::Unregister],
        None => Seq::empty(),
    };
    assert(s == restart + switch);
    assert forall|i: int| 0 <= i < s.len() implies (t is None ==> !(#[trigger] s[i] is Register)) && (a != Some(
        true,
    ) ==> !(s[i] is RegisterStoredToken)) by {
        if i < restart.len() {
            assert(s[i] == restart[i]);
        } else {
            assert(s[i] == switch[i - restart.len()]);
        }
    }
}

impl MethodEditApp {
    /// Refused unless the actor's membership of the app, found under their
    /// membership key, is that of an admin or of the owner.
    pub fn authorize(app_public_id: &NanoId, actor: &NanoId, membership: &Option<AppMemberRow>) -> (r: Result<
        (),
        Refusal,
    >)
        ensures
            r is Ok <==> grants(AppAccess::AdminOrOwner, app_public_id@, actor@, *membership),
            r is Ok <==> (membership matches Some(m) && m.app_public_id@ == app_public_id@
                && m.user_pub_id@ == actor@ && (m.role == AppMemberRole::Owner || m.role == AppMemberRole::Admin)),
            r is Err ==> r matches Err(Refusal::NotAppAdmin),
    {
        check_access(AppAccess::AdminOrOwner, app_public_id, actor, membership)
    }

    /// The user acting: the connection's user; refused as `Unauthorized` when
    /// not signed in.
    pub fn actor(conn_user: Option<NanoId>) -> (r: Result<NanoId, Refusal>)
        ensures
            conn_user matches Some(u) ==> r == Ok::<NanoId, Refusal>(u),
            conn_user is None ==> r matches Err(Refusal::Unauthenticated),
    {
        signed_in(conn_user, Refusal::Unauthenticated)
    }

    /// The row changes: exactly the fields given in the request.
    pub fn update(
        tg_bot_token: Option<String>,
        app_name: Option<String>,
        active: Option<bool>,
        message_persistence_enabled: Option<bool>,
    ) -> (r: AppUpdate)
        ensures
            r.tg_bot_token == tg_bot_token,
            r.app_name == app_name,
            r.active == active,
            r.message_persistence_enabled == message_persistence_enabled,
    {
        AppUpdate { tg_bot_token, app_name, active, message_persistence_enabled }
    }

    /// The bot steps taken once the row is updated.
    pub fn bot_steps(tg_bot_token: &Option<String>, active: Option<bool>) -> (r: Vec<BotStep>)
        ensures
            r@.map_values(|s: BotStep| bot_step_view(s)) == edit_bot_steps(
                crate::config::opt_view(*tg_bot_token),
                active,
            ),
    {
        let mut r: Vec<BotStep> = Vec::new();
        if let Some(t) = tg_bot_token {
            r.push(BotStep::Unregister);
            r.push(BotStep::Register(t.clone()));
        }
        match active {
            Some(true) => r.push(BotStep::RegisterStoredToken),
            Some(false) => r.push(BotStep::Unregister),
            None => {},
        }
        assert(r@.map_values(|s: BotStep| bot_step_view(s)) =~= edit_bot_steps(
            crate::config::opt_view(*tg_bot_token),
            active,
        ));
        r
    }
}

} // verus!
