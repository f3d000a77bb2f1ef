use support_cafe::handlers::admin::{bootstrap_admin_user, DeleteAppStep, MethodDeleteApp, MethodGetAllApps, MethodGetUsers, MethodSetRole};
use support_cafe::handlers::app::{
    MethodAppConnect, MethodCloseChatSession, MethodCloseSession, MethodCreateChatSession, MethodCreateSession,
    MethodListMessages, MethodListSessions, MethodSendMessage, MethodSubscribeEvents, SessionDesk, SubscriptionChange,
};
use support_cafe::handlers::app_admin::{
    BotStep, MethodAddSupportUser, MethodCreateApp, MethodDisableMessagePersistence,
    MethodDisableSupportUser, MethodEditApp, MethodListAppMembers, MethodListApps, MethodListSupportUsers,
    MethodSetAppMemberRole,
};
use support_cafe::handlers::auth_api::init_handler;
use support_cafe::handlers::platform::{
    MethodEditApp as PlatformEditApp, MethodPlatformConnect, MethodRemoveSupportUser, PlatformEditStep,
};
use support_cafe::handlers::Refusal;
use support_cafe::model::AppMemberRole;
use support_cafe::ids::NanoId;
use support_cafe::model::{EnumErrorCode, UserRole};
use support_cafe::rows::{AppConfigRow, AppMemberRow, ChatSessionRow, SupportMessageRow, SupportUserRow, UserRow};

fn id(s: &str) -> NanoId {
    NanoId::parse(s).unwrap()
}

fn app_row(active: bool) -> AppConfigRow {
    AppConfigRow {
        id: 1,
        public_id: id("AppAppAppApp0001"),
        tg_bot_token: "123:abc".to_string(),
        app_name: Some("Desk".to_string()),
        active,
        message_persistence_enabled: true,
        created_at: 10,
    }
}

fn session(n: u64, sid: &str) -> ChatSessionRow {
    ChatSessionRow {
        id: n,
        session_id: id(sid),
        app_public_id: id("AppAppAppApp0001"),
        user_pub_id: id("UserUserUser0001"),
        created_at: n as i64,
        closed_at: None,
    }
}

#[test]
fn refusals_have_codes_and_messages() {
    assert_eq!(Refusal::NoSuchApp.code(), Some(EnumErrorCode::NotFound));
    assert_eq!(Refusal::RegisteredAccount.code(), Some(EnumErrorCode::Forbidden));
    assert_eq!(Refusal::DeskNotNamed.code(), Some(EnumErrorCode::BadRequest));
    assert_eq!(Refusal::Unauthenticated.code(), Some(EnumErrorCode::Unauthorized));
    assert_eq!(Refusal::NotAuthenticated.code(), None);
    assert_eq!(Refusal::NotAuthenticated.message(), "Connection not authenticated");
    assert_eq!(Refusal::UserNotFound(id("UserUserUser0001")).message(), "User UserUserUser0001 not found");
    assert_eq!(Refusal::InvalidPlatformKey.message(), "Invalid platform API key");
}

#[test]
fn app_connect_accepts_only_active_apps_and_anonymous_visitors() {
    let visitor = id("VisVisVisVis0001");
    let app = id("AppAppAppApp0001");
    assert!(matches!(MethodAppConnect::auth(app.clone(), visitor.clone(), None, false), Err(Refusal::NoSuchApp)));
    assert!(matches!(
        MethodAppConnect::auth(app.clone(), visitor.clone(), Some(app_row(false)), false),
        Err(Refusal::NoSuchApp)
    ));
    assert!(matches!(
        MethodAppConnect::auth(app.clone(), visitor.clone(), Some(app_row(true)), true),
        Err(Refusal::RegisteredAccount)
    ));
    match MethodAppConnect::auth(app, visitor, Some(app_row(true)), false) {
        Ok(g) => {
            assert_eq!(g.app_public_id.as_str(), "AppAppAppApp0001");
            assert_eq!(g.user_public_id.as_str(), "VisVisVisVis0001");
            assert_eq!(g.app_name.as_deref(), Some("Desk"));
            assert_eq!(g.role_id, 2);
        }
        Err(_) => panic!("expected a grant"),
    }
}

#[test]
fn sessions_are_opened_only_for_yourself() {
    let me = id("UserUserUser0001");
    let other = Some(id("UserUserUser0002"));
    let app = id("AppAppAppApp0001");
    assert!(matches!(MethodCreateChatSession::desk(&me, &other, None, None), Err(Refusal::NotYourSession)));
    assert!(matches!(MethodCreateChatSession::desk(&me, &None, Some(app.clone()), None), Err(Refusal::NotYourSession)));
    let mine = Some(me.clone());
    match MethodCreateChatSession::desk(&me, &mine, Some(app.clone()), Some(id("AppAppAppApp0002"))) {
        Ok(SessionDesk::Connected(a)) => assert_eq!(a.as_str(), "AppAppAppApp0001"),
        _ => panic!("expected the connection's app"),
    }
    match MethodCreateChatSession::desk(&me, &mine, None, Some(id("AppAppAppApp0002"))) {
        Ok(SessionDesk::Named(a)) => assert_eq!(a.as_str(), "AppAppAppApp0002"),
        _ => panic!("expected the named app"),
    }
    assert!(matches!(MethodCreateChatSession::desk(&me, &mine, None, None), Err(Refusal::DeskNotNamed)));
    assert!(matches!(MethodCreateChatSession::after_check(app.clone(), false), Err(Refusal::NoSuchApp)));
    assert_eq!(MethodCreateChatSession::after_check(app, true).ok().unwrap().as_str(), "AppAppAppApp0001");
}

#[test]
fn signed_in_callers_are_required() {
    let u = Some(id("UserUserUser0001"));
    assert!(matches!(MethodSendMessage::sender(None), Err(Refusal::NotAuthenticated)));
    assert!(MethodSendMessage::sender(u.clone()).is_ok());
    assert!(matches!(MethodCloseChatSession::closer(None), Err(Refusal::NotAuthenticated)));
    assert!(matches!(MethodListMessages::reader(None), Err(Refusal::NotAuthenticated)));
    assert!(matches!(MethodListSessions::owner(None), Err(Refusal::NotAuthenticated)));
    assert!(matches!(MethodSubscribeEvents::subscriber(None), Err(Refusal::NotAuthenticated)));
    assert!(matches!(MethodCreateSession::desk(None), Err(Refusal::NotAuthenticatedAsApp)));
    assert!(matches!(MethodAddSupportUser::actor(None), Err(Refusal::NotAuthenticated)));
    assert!(matches!(MethodCreateApp::creator(None), Err(Refusal::NotAuthenticated)));
    assert!(matches!(MethodDisableSupportUser::actor(None), Err(Refusal::NotAuthenticated)));
    assert!(matches!(MethodListAppMembers::actor(None), Err(Refusal::NotAuthenticated)));
    assert!(matches!(MethodListSupportUsers::actor(None), Err(Refusal::NotAuthenticated)));
    assert!(matches!(MethodListApps::caller(None), Err(Refusal::NotAuthenticated)));
    assert!(matches!(MethodDisableMessagePersistence::actor(None), Err(Refusal::Unauthenticated)));
    assert!(matches!(MethodSetAppMemberRole::actor(None), Err(Refusal::Unauthenticated)));
    assert!(matches!(MethodEditApp::actor(None), Err(Refusal::Unauthenticated)));
    assert_eq!(MethodEditApp::actor(u).ok().unwrap().as_str(), "UserUserUser0001");
}

#[test]
fn close_session_finds_the_first_match() {
    let rows = vec![session(1, "SesSesSesSes0001"), session(2, "SesSesSesSes0002"), session(3, "SesSesSesSes0002")];
    assert_eq!(MethodCloseSession::locate(&rows, &id("SesSesSesSes0002")).ok(), Some(2));
    assert!(matches!(MethodCloseSession::locate(&rows, &id("SesSesSesSes0009")), Err(Refusal::SessionNotFound)));
    assert!(matches!(MethodCloseSession::locate(&vec![], &id("SesSesSesSes0001")), Err(Refusal::SessionNotFound)));
}

#[test]
fn listing_messages_of_another_app_is_refused() {
    assert!(MethodListMessages::after_app_check(true).is_ok());
    assert!(matches!(MethodListMessages::after_app_check(false), Err(Refusal::SessionNotForApp)));
}

#[test]
fn sessions_are_listed_in_order() {
    let listed = MethodListSessions::respond(vec![session(5, "SesSesSesSes0005"), session(6, "SesSesSesSes0006")]);
    assert_eq!(listed.len(), 2);
    assert_eq!(listed[0].session_id.as_str(), "SesSesSesSes0005");
    assert_eq!(listed[1].created_at, 6);
    assert!(listed[1].closed_at.is_none());
}

#[test]
fn subscriptions_follow_the_flag() {
    let row = session(1, "SesSesSesSes0001");
    assert!(matches!(MethodSubscribeEvents::change(Some(true), &row, id("SesSesSesSes0001")), SubscriptionChange::Unsubscribe));
    for flag in [None, Some(false)] {
        match MethodSubscribeEvents::change(flag, &row, id("SesSesSesSes0001")) {
            SubscriptionChange::Subscribe { app_public_id, session_id } => {
                assert_eq!(app_public_id.as_str(), "AppAppAppApp0001");
                assert_eq!(session_id.as_str(), "SesSesSesSes0001");
            }
            SubscriptionChange::Unsubscribe => panic!("expected a subscription"),
        }
    }
}

#[test]
fn new_support_users_are_active() {
    let r = MethodAddSupportUser::row(9, id("AppAppAppApp0001"), "@help".to_string());
    assert_eq!(r.id, 9);
    assert!(r.is_active);
    assert!(r.chat_id.is_none());
    assert_eq!(r.tg_handle, "@help");
    let listed = MethodListSupportUsers::respond(vec![r]);
    assert_eq!(listed[0].id, 9);
    assert!(listed[0].is_active);
}

fn member(app: &str, user: &str, role: AppMemberRole) -> AppMemberRow {
    AppMemberRow {
        id: 1,
        app_public_id: id(app),
        user_pub_id: id(user),
        membership_key: String::new(),
        role,
        created_at: 0,
        is_support_enabled: true,
    }
}

#[test]
fn app_creation_defaults_to_no_persistence() {
    let owner = id("UserUserUser0001");
    let c = MethodCreateApp::creation(owner.clone(), "t".to_string(), None, None);
    assert!(!c.message_persistence_enabled);
    assert_eq!(c.owner.as_str(), "UserUserUser0001");
    assert_eq!(c.tg_bot_token, "t");
    assert!(MethodCreateApp::creation(owner.clone(), "t".to_string(), None, Some(true)).message_persistence_enabled);
    assert!(!MethodCreateApp::creation(owner, "t".to_string(), Some("n".to_string()), Some(false)).message_persistence_enabled);
    let bot = MethodCreateApp::bot_start(id("AppAppAppApp0001"), &c);
    assert_eq!(bot.app_public_id.as_str(), "AppAppAppApp0001");
    assert_eq!(bot.tg_bot_token, "t");
    let resp = MethodCreateApp::respond(id("AppAppAppApp0001"), 77);
    assert_eq!(resp.app_public_id.as_str(), "AppAppAppApp0001");
    assert_eq!(resp.created_at, 77);
}

#[test]
fn app_listing_is_by_membership() {
    let u = "UserUserUser0001";
    let other = || {
        let mut r = app_row(false);
        r.public_id = id("AppAppAppApp0002");
        r
    };
    let members = vec![member("AppAppAppApp0002", "UserUserUser0009", AppMemberRole::Owner), member("AppAppAppApp0001", u, AppMemberRole::Support)];
    let listed = MethodListApps::respond(vec![app_row(true), other()], &members, &id(u));
    assert_eq!(listed.len(), 1);
    assert_eq!(listed[0].app_public_id.as_str(), "AppAppAppApp0001");
    assert_eq!(listed[0].tg_bot_token, "123:abc");
    assert!(listed[0].message_persistence_enabled);
    assert!(MethodListApps::respond(vec![app_row(true), other()], &vec![], &id(u)).is_empty());
}

#[test]
fn app_access_follows_the_member_role() {
    let app = id("AppAppAppApp0001");
    let u = id("UserUserUser0001");
    let owner = Some(member("AppAppAppApp0001", "UserUserUser0001", AppMemberRole::Owner));
    let admin = Some(member("AppAppAppApp0001", "UserUserUser0001", AppMemberRole::Admin));
    let support = Some(member("AppAppAppApp0001", "UserUserUser0001", AppMemberRole::Support));
    let elsewhere = Some(member("AppAppAppApp0002", "UserUserUser0001", AppMemberRole::Owner));
    assert!(MethodEditApp::authorize(&app, &u, &owner).is_ok());
    assert!(MethodEditApp::authorize(&app, &u, &admin).is_ok());
    assert!(matches!(MethodEditApp::authorize(&app, &u, &support), Err(Refusal::NotAppAdmin)));
    assert!(matches!(MethodAddSupportUser::authorize(&app, &u, &elsewhere), Err(Refusal::NotAppAdmin)));
    assert!(matches!(MethodDisableMessagePersistence::authorize(&app, &u, &None), Err(Refusal::NotAppAdmin)));
    assert!(MethodDisableSupportUser::authorize(&app, &u, &admin).is_ok());
    assert!(MethodListSupportUsers::authorize(&app, &u, &support).is_ok());
    assert!(matches!(MethodListSupportUsers::authorize(&app, &u, &None), Err(Refusal::NotAppMember)));
    assert!(MethodListAppMembers::authorize(&app, &u, &support).is_ok());
    assert!(MethodSetAppMemberRole::authorize(&app, &u, &owner).is_ok());
    assert!(matches!(MethodSetAppMemberRole::authorize(&app, &u, &admin), Err(Refusal::NotAppOwner)));
    assert!(MethodDeleteApp::authorize(&app, &u, &owner).is_ok());
    assert!(matches!(MethodDeleteApp::authorize(&app, &u, &admin), Err(Refusal::NotAppOwner)));
    assert!(matches!(MethodDeleteApp::authorize(&app, &id("UserUserUser0002"), &owner), Err(Refusal::NotAppOwner)));
    assert!(matches!(MethodDeleteApp::actor(None), Err(Refusal::NotAuthenticated)));
    assert_eq!(Refusal::NotAppOwner.message(), "Only the owner of this app may do this");
}

#[test]
fn created_chat_session_is_answered_from_its_row() {
    let row = session(5, "SesSesSesSes0005");
    let r = MethodCreateChatSession::respond(&row);
    assert_eq!(r.session_id.as_str(), "SesSesSesSes0005");
    assert_eq!(r.created_at, 5);
}

#[test]
fn disabled_persistence_moves_every_message() {
    let msg = SupportMessageRow {
        id: 4,
        message_id: id("MsgMsgMsgMsg0001"),
        session_id: id("SesSesSesSes0001"),
        app_public_id: id("AppAppAppApp0001"),
        incoming: true,
        sent_by: "ann".to_string(),
        sent_at: 9,
        content: "hi".to_string(),
        tg_chat_id: Some(3),
    };
    let moved = MethodDisableMessagePersistence::in_memory(vec![msg]);
    assert_eq!(moved.len(), 1);
    assert_eq!(moved[0].content, "hi");
    assert_eq!(moved[0].sent_at, 9);
}

#[test]
fn edit_restarts_and_switches_the_bot() {
    let steps = MethodEditApp::bot_steps(&Some("new".to_string()), Some(false));
    assert_eq!(steps.len(), 3);
    assert!(matches!(steps[0], BotStep::Unregister));
    assert!(matches!(&steps[1], BotStep::Register(t) if t == "new"));
    assert!(matches!(steps[2], BotStep::Unregister));
    let steps = MethodEditApp::bot_steps(&None, Some(true));
    assert_eq!(steps.len(), 1);
    assert!(matches!(steps[0], BotStep::RegisterStoredToken));
    assert!(MethodEditApp::bot_steps(&None, None).is_empty());
    let u = MethodEditApp::update(None, Some("n".to_string()), Some(true), None);
    assert_eq!(u.app_name.as_deref(), Some("n"));
    assert_eq!(u.active, Some(true));
}

#[test]
fn platform_edit_order() {
    let steps = PlatformEditApp::steps(&Some("tok".to_string()), &Some("Desk".to_string()), Some(true));
    assert_eq!(steps.len(), 5);
    assert!(matches!(&steps[0], PlatformEditStep::SetToken(t) if t == "tok"));
    assert!(matches!(steps[1], PlatformEditStep::UnregisterBot));
    assert!(matches!(&steps[2], PlatformEditStep::RegisterBot(t) if t == "tok"));
    assert!(matches!(&steps[3], PlatformEditStep::SetName(n) if n == "Desk"));
    assert!(matches!(steps[4], PlatformEditStep::SetActive(true)));
    assert!(PlatformEditApp::steps(&None, &None, None).is_empty());
}

#[test]
fn support_users_are_removed_by_app_and_handle() {
    let rows = vec![
        SupportUserRow { id: 1, app_public_id: id("AppAppAppApp0002"), tg_handle: "@a".to_string(), chat_id: None, is_active: true },
        SupportUserRow { id: 2, app_public_id: id("AppAppAppApp0001"), tg_handle: "@a".to_string(), chat_id: None, is_active: true },
    ];
    assert_eq!(MethodRemoveSupportUser::locate(&rows, &id("AppAppAppApp0001"), &"@a".to_string()).ok(), Some(2));
    assert!(matches!(
        MethodRemoveSupportUser::locate(&rows, &id("AppAppAppApp0001"), &"@b".to_string()),
        Err(Refusal::SupportUserNotFound)
    ));
}

#[test]
fn platform_key_must_match() {
    assert!(MethodPlatformConnect::check_key(&"k".to_string(), &"k".to_string()).is_ok());
    assert!(matches!(MethodPlatformConnect::check_key(&"x".to_string(), &"k".to_string()), Err(Refusal::InvalidPlatformKey)));
}

#[test]
fn admin_listings_and_updates() {
    let users = MethodGetUsers::respond(vec![UserRow { id: 3, pub_id: id("UserUserUser0003"), username: "bo".to_string(), role: UserRole::Admin }]);
    assert_eq!(users[0].id, 3);
    assert_eq!(users[0].role, UserRole::Admin);
    let apps = MethodGetAllApps::respond(vec![app_row(false)]);
    assert!(!apps[0].active);
    let upd = MethodSetRole::update(id("UserUserUser0003"), UserRole::Support);
    assert_eq!(upd.role, UserRole::Support);
    let steps = MethodDeleteApp::steps(id("AppAppAppApp0001"));
    assert!(matches!(&steps[0], DeleteAppStep::UnregisterBot(a) if a.as_str() == "AppAppAppApp0001"));
    assert_eq!(steps.len(), 3);
    assert!(matches!(&steps[1], DeleteAppStep::DeleteMemberships(a) if a.as_str() == "AppAppAppApp0001"));
    assert!(matches!(&steps[2], DeleteAppStep::DeleteConfig(a) if a.as_str() == "AppAppAppApp0001"));
}

#[test]
fn bootstrap_promotes_the_configured_admin() {
    let u = UserRow { id: 1, pub_id: id("UserUserUser0001"), username: "root".to_string(), role: UserRole::User };
    let promoted = bootstrap_admin_user(Some(u)).ok().unwrap();
    assert_eq!(promoted.role, UserRole::Admin);
    assert_eq!(promoted.username, "root");
    assert!(matches!(bootstrap_admin_user(None), Err(Refusal::AdminNotSignedUp)));
}

#[test]
fn init_binds_the_account() {
    let u = UserRow { id: 11, pub_id: id("UserUserUser0001"), username: "ann".to_string(), role: UserRole::AppAdmin };
    let g = init_handler(id("UserUserUser0001"), Some(u), "1.2.3".to_string()).ok().unwrap();
    assert_eq!(g.user_row_id, 11);
    assert_eq!(g.role, UserRole::AppAdmin);
    assert_eq!(g.version, "1.2.3");
    match init_handler(id("UserUserUser0009"), None, "1.2.3".to_string()) {
        Err(r) => assert_eq!(r.message(), "User UserUserUser0009 not found"),
        Ok(_) => panic!("expected a refusal"),
    }
}
