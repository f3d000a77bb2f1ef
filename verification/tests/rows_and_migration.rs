use support_cafe::ids::NanoId;
use support_cafe::migration::{
    classify_migration_failure, migrate_app_config_row, migrate_app_member_row, migrate_support_info_row,
    migrate_support_message_row, AppConfigRowV1, AppMemberRowV1, MigrationFailure, MigrationSettings,
    SupportInfoRowV1, SupportMessageRowV1,
};
use support_cafe::model::{AppMemberRole, UserRole};
use support_cafe::rows::{
    membership_key, AppConfigRow, AppInfo, SupportMemoryMessageRow, SupportMessageRow, UserInfo, UserRow,
};

fn id(s: &str) -> NanoId {
    NanoId::parse(s).unwrap()
}

#[test]
fn ids_are_sixteen_letters_and_digits() {
    assert!(NanoId::parse("AbCdEfGh12345678").is_some());
    assert!(NanoId::parse("AbCdEfGh1234567").is_none());
    assert!(NanoId::parse("AbCdEfGh123456789").is_none());
    assert!(NanoId::parse("AbCdEfGh1234567_").is_none());
    assert!(NanoId::parse("AbCdEfGh1234567é").is_none());
    let a = id("AbCdEfGh12345678");
    assert!(a.same(&id("AbCdEfGh12345678")));
    assert!(!a.same(&id("AbCdEfGh12345679")));
    assert_eq!(a.clone().as_str(), "AbCdEfGh12345678");
}

#[test]
fn membership_key_joins_the_packed_ids() {
    let k = membership_key(&id("AAAAAAAAAAAAAAAA"), &id("AAAAAAAAAAAAAAAB"));
    assert_eq!(
        k,
        "PackedNanoid([0, 0, 0, 0, 0, 0, 0, 0, 0, 0, 0, 0]):PackedNanoid([0, 0, 0, 0, 0, 0, 0, 0, 0, 0, 0, 1])"
    );
    let other = membership_key(&id("AAAAAAAAAAAAAAAB"), &id("AAAAAAAAAAAAAAAA"));
    assert_ne!(k, other);
}

#[test]
fn user_rows_are_listed_with_signed_ids() {
    let info = UserInfo::from(UserRow {
        id: 7,
        pub_id: id("UserUserUser0001"),
        username: "ann".to_string(),
        role: UserRole::Support,
    });
    assert_eq!(info.id, 7);
    assert_eq!(info.pub_id.as_str(), "UserUserUser0001");
    assert_eq!(info.username, "ann");
    assert_eq!(info.role, UserRole::Support);
    let big = UserInfo::from(UserRow { id: u64::MAX, pub_id: id("UserUserUser0001"), username: String::new(), role: UserRole::User });
    assert_eq!(big.id, -1);
}

#[test]
fn app_rows_are_listed_without_token() {
    let info = AppInfo::from(AppConfigRow {
        id: 1,
        public_id: id("AppAppAppApp0001"),
        tg_bot_token: "123:abc".to_string(),
        app_name: Some("Desk".to_string()),
        active: true,
        message_persistence_enabled: false,
        created_at: 1700,
    });
    assert_eq!(info.public_id.as_str(), "AppAppAppApp0001");
    assert_eq!(info.app_name.as_deref(), Some("Desk"));
    assert!(info.active);
    assert_eq!(info.created_at, 1700);
}

#[test]
fn message_rows_move_between_tables_unchanged() {
    let row = SupportMessageRow {
        id: -3,
        message_id: id("MsgMsgMsgMsg0001"),
        session_id: id("SesSesSesSes0001"),
        app_public_id: id("AppAppAppApp0001"),
        incoming: true,
        sent_by: "visitor".to_string(),
        sent_at: 99,
        content: "hello".to_string(),
        tg_chat_id: Some(5),
    };
    let mem = SupportMemoryMessageRow::from(row);
    assert_eq!(mem.content, "hello");
    let back = SupportMessageRow::from(mem);
    assert_eq!(back.id, -3);
    assert_eq!(back.message_id.as_str(), "MsgMsgMsgMsg0001");
    assert_eq!(back.session_id.as_str(), "SesSesSesSes0001");
    assert_eq!(back.app_public_id.as_str(), "AppAppAppApp0001");
    assert!(back.incoming);
    assert_eq!(back.sent_by, "visitor");
    assert_eq!(back.sent_at, 99);
    assert_eq!(back.tg_chat_id, Some(5));
}

#[test]
fn migrations_keep_fields_and_set_the_new_ones() {
    let app = migrate_app_config_row(AppConfigRowV1 {
        id: 4,
        public_id: id("AppAppAppApp0001"),
        tg_bot_token: "t".to_string(),
        app_name: None,
        active: false,
        created_at: 12,
    });
    assert!(app.message_persistence_enabled);
    assert_eq!(app.id, 4);
    assert!(!app.active);
    assert_eq!(app.created_at, 12);
    let m = migrate_app_member_row(AppMemberRowV1 {
        id: 2,
        app_public_id: id("AppAppAppApp0001"),
        user_pub_id: id("UserUserUser0001"),
        membership_key: "k".to_string(),
        role: AppMemberRole::Admin,
        created_at: 3,
    });
    assert!(!m.is_support_enabled);
    assert_eq!(m.role, AppMemberRole::Admin);
    assert_eq!(m.membership_key, "k");
    let s = migrate_support_info_row(SupportInfoRowV1 { user_pub_id: id("UserUserUser0001"), tg_handle: "@ann".to_string() });
    assert!(s.chat_id.is_none());
    assert_eq!(s.tg_handle, "@ann");
    let msg = migrate_support_message_row(
        SupportMessageRowV1 {
            id: 8,
            session_id: id("SesSesSesSes0001"),
            app_public_id: id("AppAppAppApp0001"),
            incoming: false,
            sent_by: "agent".to_string(),
            sent_at: 5,
            content: "hi".to_string(),
            tg_chat_id: None,
        },
        id("MsgMsgMsgMsg0009"),
    );
    assert_eq!(msg.message_id.as_str(), "MsgMsgMsgMsg0009");
    assert_eq!(msg.id, 8);
    assert_eq!(msg.content, "hi");
}

#[test]
fn migration_failures_are_sorted() {
    assert!(matches!(
        classify_migration_failure("engine: Unsupported version: 2 in header"),
        MigrationFailure::AlreadyCurrent
    ));
    assert!(matches!(classify_migration_failure("Unsupported version: 3"), MigrationFailure::Fatal));
    assert!(matches!(classify_migration_failure(""), MigrationFailure::Fatal));
    assert_eq!(MigrationSettings::default().output_path, "/tmp/support_cafe_migration");
}
