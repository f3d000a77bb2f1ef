//! Migration of the persisted tables from their first schema version to the
//! second, and the settings of the migration tool.

use vstd::prelude::*;
use crate::ids::NanoId;
use crate::model::AppMemberRole;
use crate::rows::{AppConfigRow, AppMemberRow, SupportInfoRow, SupportMessageRow};
use crate::text::{chars_of, contains_chars, contains_seq};

verus! {

/// Settings of the migration tool.
pub struct MigrationSettings {
    /// Where the migrated tables are written.
    pub output_path: String,
}

impl Default for MigrationSettings {
    fn default() -> (r: Self)
        ensures
            r.output_path@ == "/tmp/support_cafe_migration"@,
    {
        MigrationSettings { output_path: "/tmp/support_cafe_migration".to_owned() }
    }
}

/// An app configuration row of the first schema version, without the
/// message persistence switch.
pub struct AppConfigRowV1 {
    pub id: u64,
    pub public_id: NanoId,
    pub tg_bot_token: String,
    pub app_name: Option<String>,
    pub active: bool,
    pub created_at: i64,
}

/// A membership row of the first schema version, without the support switch.
pub struct AppMemberRowV1 {
    pub id: u64,
    pub app_public_id: NanoId,
    pub user_pub_id: NanoId,
    pub membership_key: String,
    pub role: AppMemberRole,
    pub created_at: i64,
}

/// A support contact row of the first schema version, without a chat id.
pub struct SupportInfoRowV1 {
    pub user_pub_id: NanoId,
    pub tg_handle: String,
}

/// A message row of the first schema version, without a message id.
pub struct SupportMessageRowV1 {
    pub id: i64,
    pub session_id: NanoId,
    pub app_public_id: NanoId,
    pub incoming: bool,
    pub sent_by: String,
    pub sent_at: i64,
    pub content: String,
    pub tg_chat_id: Option<i64>,
}

/// Every field kept; apps that existed before the switch persist messages.
pub fn migrate_app_config_row(row: AppConfigRowV1) -> (r: AppConfigRow)
    ensures
        r.id == row.id,
        r.public_id == row.public_id,
        r.tg_bot_token == row.tg_bot_token,
        r.app_name == row.app_name,
        r.active == row.active,
        r.message_persistence_enabled,
        r.created_at == row.created_at,
{
    AppConfigRow {
        id: row.id,
        public_id: row.public_id,
        tg_bot_token: row.tg_bot_token,
        app_name: row.app_name,
        active: row.active,
        message_persistence_enabled: true,
        created_at: row.created_at,
    }
}

/// Every field kept; existing members start with support switched off.
pub fn migrate_app_member_row(row: AppMemberRowV1) -> (r: AppMemberRow)
    ensures
        r.id == row.id,
        r.app_public_id == row.app_public_id,
        r.user_pub_id == row.user_pub_id,
        r.membership_key == row.membership_key,
        r.role == row.role,
        r.created_at == row.created_at,
        !r.is_support_enabled,
{
    AppMemberRow {
        id: row.id,
        app_public_id: row.app_public_id,
        user_pub_id: row.user_pub_id,
        membership_key: row.membership_key,
        role: row.role,
        created_at: row.created_at,
        is_support_enabled: false,
    }
}

/// Every field kept; no chat is known yet.
pub fn migrate_support_info_row(row: SupportInfoRowV1) -> (r: SupportInfoRow)
    ensures
        r.user_pub_id == row.user_pub_id,
        r.tg_handle == row.tg_handle,
        r.chat_id is None,
{
    SupportInfoRow { user_pub_id: row.user_pub_id, tg_handle: row.tg_handle, chat_id: None }
}

/// Every field kept; the message gets `message_id`, a freshly generated id.
pub fn migrate_support_message_row(row: SupportMessageRowV1, message_id: NanoId) -> (r:
    SupportMessageRow)
    ensures
        r.id == row.id,
        r.message_id == message_id,
        r.session_id == row.session_id,
        r.app_public_id == row.app_public_id,
        r.incoming == row.incoming,
        r.sent_by == row.sent_by,
        r.sent_at == row.sent_at,
        r.content == row.content,
        r.tg_chat_id == row.tg_chat_id,
{
    SupportMessageRow {
        id: row.id,
        message_id,
        session_id: row.session_id,
        app_public_id: row.app_public_id,
        incoming: row.incoming,
        sent_by: row.sent_by,
        sent_at: row.sent_at,
        content: row.content,
        tg_chat_id: row.tg_chat_id,
    }
}

/// A table the migration tool migrates.
pub enum MigrationTable {
    AppConfig,
    AppMember,
    SupportInfo,
    SupportMessage,
}

/// The tables in the order they are migrated.
pub fn migration_order() -> (r: Vec<MigrationTable>)
    ensures
        r@ == seq![
            MigrationTable::AppConfig,
            MigrationTable::AppMember,
            MigrationTable::SupportInfo,
            MigrationTable::SupportMessage,
        ],
{
    vec![
        MigrationTable::AppConfig,
        MigrationTable::AppMember,
        MigrationTable::SupportInfo,
        MigrationTable::SupportMessage,
    ]
}

impl MigrationTable {
    /// The table's name in the tool's reports.
    pub open spec fn label_of(self) -> Seq<char> {
        match self {
            MigrationTable::AppConfig => "AppConfig"@,
            MigrationTable::AppMember => "AppMember"@,
            MigrationTable::SupportInfo => "SupportInfo"@,
            MigrationTable::SupportMessage => "SupportMessage"@,
        }
    }

    /// The table's name in the tool's reports.
    pub fn label(&self) -> (r: String)
        ensures
            r@ == self.label_of(),
    {
        match self {
            MigrationTable::AppConfig => "AppConfig".to_owned(),
            MigrationTable::AppMember => "AppMember".to_owned(),
            MigrationTable::SupportInfo => "SupportInfo".to_owned(),
            MigrationTable::SupportMessage => "SupportMessage".to_owned(),
        }
    }

    /// The context a fatal failure of the table's migration is reported
    /// with: its name and ` migration failed`.
    pub fn failure_context(&self) -> (r: String)
        ensures
            r@ == self.label_of() + " migration failed"@,
    {
        let mut r = self.label();
        r.append(" migration failed");
        r
    }
}

/// What happens to a table whose migration failed: a table that is already
/// at the current version is copied as it is; any other failure stops the
/// migration.
pub enum MigrationFailure {
    AlreadyCurrent,
    Fatal,
}

/// Sorts a migration failure: the engine reports a table that is already at
/// version 2 as `Unsupported version: 2`.
pub fn classify_migration_failure(message: &str) -> (r: MigrationFailure)
    ensures
        r is AlreadyCurrent <==> contains_seq(message@, "Unsupported version: 2"@),
{
    let m = chars_of(message);
    let pat = chars_of("Unsupported version: 2");
    if contains_chars(m.as_slice(), pat.as_slice()) {
        MigrationFailure::AlreadyCurrent
    } else {
        MigrationFailure::Fatal
    }
}

} // verus!
