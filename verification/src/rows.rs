//! Stored rows of the tables and the records the API sends, with the
//! conversions between them.

use vstd::prelude::*;
use crate::ids::{packed_debug, packed_debug_text, NanoId};
use crate::model::{AppMemberRole, UserRole};
use vstd::std_specs::convert::FromSpecImpl;

verus! {

/// A row of the app configuration table.
pub struct AppConfigRow {
    pub id: u64,
    pub public_id: NanoId,
    pub tg_bot_token: String,
    pub app_name: Option<String>,
    pub active: bool,
    pub message_persistence_enabled: bool,
    pub created_at: i64,
}

/// A row of the app membership table.
pub struct AppMemberRow {
    pub id: u64,
    pub app_public_id: NanoId,
    pub user_pub_id: NanoId,
    pub membership_key: String,
    pub role: AppMemberRole,
    pub created_at: i64,
    pub is_support_enabled: bool,
}

/// The unique key of a membership: the packed app id and the packed user id,
/// each in its `Debug` form, joined by a colon.
pub open spec fn membership_key_of(app_public_id: Seq<char>, user_pub_id: Seq<char>) -> Seq<char> {
    packed_debug(app_public_id) + ":"@ + packed_debug(user_pub_id)
}

/// The unique key of the membership of `user_pub_id` in `app_public_id`.
pub fn membership_key(app_public_id: &NanoId, user_pub_id: &NanoId) -> (r: String)
    ensures
        r@ == membership_key_of(app_public_id@, user_pub_id@),
{
    app_public_id.check_valid();
    user_pub_id.check_valid();
    let mut key = packed_debug_text(app_public_id);
    key.append(":");
    let u = packed_debug_text(user_pub_id);
    key.append(u.as_str());
    key
}

/// A row of the slot registry: the partition slot of an app.
pub struct AppSlotRow {
    pub slot: u32,
    pub app_public_id: NanoId,
}

/// A row of the chat session table.
pub struct ChatSessionRow {
    pub id: u64,
    pub session_id: NanoId,
    pub app_public_id: NanoId,
    pub user_pub_id: NanoId,
    pub created_at: i64,
    pub closed_at: Option<i64>,
}

/// A row of the support contact table.
pub struct SupportInfoRow {
    pub user_pub_id: NanoId,
    pub tg_handle: String,
    pub chat_id: Option<i64>,
}

/// A row of the persisted message table.
pub struct SupportMessageRow {
    pub id: i64,
    pub message_id: NanoId,
    pub session_id: NanoId,
    pub app_public_id: NanoId,
    pub incoming: bool,
    pub sent_by: String,
    pub sent_at: i64,
    pub content: String,
    pub tg_chat_id: Option<i64>,
}

/// A row of the in-memory message table, for apps that do not persist
/// messages.
pub struct SupportMemoryMessageRow {
    pub id: i64,
    pub message_id: NanoId,
    pub session_id: NanoId,
    pub app_public_id: NanoId,
    pub incoming: bool,
    pub sent_by: String,
    pub sent_at: i64,
    pub content: String,
    pub tg_chat_id: Option<i64>,
}

/// A row of the support user table.
pub struct SupportUserRow {
    pub id: u64,
    pub app_public_id: NanoId,
    pub tg_handle: String,
    pub chat_id: Option<i64>,
    pub is_active: bool,
}

/// A row of the user table.
pub struct UserRow {
    pub id: u64,
    pub pub_id: NanoId,
    pub username: String,
    pub role: UserRole,
}

/// An app as the API lists it for its admins.
pub struct AppConfig {
    pub app_public_id: NanoId,
    pub tg_bot_token: String,
    pub app_name: Option<String>,
    pub active: bool,
    pub message_persistence_enabled: bool,
    pub created_at: i64,
}

/// An app as the API lists it for platform admins.
pub struct AppInfo {
    pub public_id: NanoId,
    pub app_name: Option<String>,
    pub active: bool,
    pub created_at: i64,
}

/// A member of an app, as the API lists it.
pub struct AppMember {
    pub app_public_id: NanoId,
    pub user_pub_id: NanoId,
    pub username: String,
    pub role: AppMemberRole,
    pub created_at: i64,
    pub is_support_enabled: bool,
    pub tg_handle: Option<String>,
}

/// A message of a chat session, as the API sends it.
pub struct ChatMessage {
    pub session_id: NanoId,
    pub incoming: bool,
    pub sent_by: String,
    pub sent_at: i64,
    pub content: String,
}

/// A chat session, as the API lists it.
pub struct ChatSession {
    pub session_id: NanoId,
    pub app_public_id: NanoId,
    pub user_pub_id: NanoId,
    pub created_at: i64,
    pub closed_at: Option<i64>,
}

/// A user's support contact, as the API sends it.
pub struct SupportInfo {
    pub user_pub_id: NanoId,
    pub tg_handle: String,
    pub chat_id: Option<i64>,
}

/// A support user of an app, as the API lists it.
pub struct SupportUser {
    pub id: i64,
    pub app_public_id: NanoId,
    pub tg_handle: String,
    pub chat_id: Option<i64>,
    pub is_active: bool,
}

/// A platform user, as the API lists it.
pub struct UserInfo {
    pub id: i64,
    pub pub_id: NanoId,
    pub username: String,
    pub role: UserRole,
}

impl From<AppConfigRow> for AppInfo {
    fn from(row: AppConfigRow) -> (r: AppInfo)
        ensures
            r.public_id == row.public_id,
            r.app_name == row.app_name,
            r.active == row.active,
            r.created_at == row.created_at,
    {
        AppInfo {
            public_id: row.public_id,
            app_name: row.app_name,
            active: row.active,
            created_at: row.created_at,
        }
    }
}

impl FromSpecImpl<AppConfigRow> for AppInfo {
    open spec fn obeys_from_spec() -> bool {
        true
    }

    open spec fn from_spec(row: AppConfigRow) -> AppInfo {
        AppInfo {
            public_id: row.public_id,
            app_name: row.app_name,
            active: row.active,
            created_at: row.created_at,
        }
    }
}

impl From<UserRow> for UserInfo {
    /// The listed id is the stored one read as a signed number.
    fn from(row: UserRow) -> (r: UserInfo)
        ensures
            r.id == #[verifier::truncate] (row.id as i64),
            r.pub_id == row.pub_id,
            r.username == row.username,
            r.role == row.role,
    {
        UserInfo {
            id: #[verifier::truncate] (row.id as i64),
            pub_id: row.pub_id,
            username: row.username,
            role: row.role,
        }
    }
}

impl FromSpecImpl<UserRow> for UserInfo {
    open spec fn obeys_from_spec() -> bool {
        true
    }

    open spec fn from_spec(row: UserRow) -> UserInfo {
        UserInfo {
            id: #[verifier::truncate] (row.id as i64),
            pub_id: row.pub_id,
            username: row.username,
            role: row.role,
        }
    }
}

impl From<SupportMessageRow> for SupportMemoryMessageRow {
    fn from(row: SupportMessageRow) -> (r: SupportMemoryMessageRow)
        ensures
            r.id == row.id,
            r.message_id == row.message_id,
            r.session_id == row.session_id,
            r.app_public_id == row.app_public_id,
            r.incoming == row.incoming,
            r.sent_by == row.sent_by,
            r.sent_at == row.sent_at,
            r.content == row.content,
            r.tg_chat_id == row.tg_chat_id,
    {
        SupportMemoryMessageRow {
            id: row.id,
            message_id: row.message_id,
            session_id: row.session_id,
            app_public_id: row.app_public_id,
            incoming: row.incoming,
            sent_by: row.sent_by,
            sent_at: row.sent_at,
            content: row.content,
            tg_chat_id: row.tg_chat_id,
        }
    }
}

impl From<SupportMemoryMessageRow> for SupportMessageRow {
    fn from(row: SupportMemoryMessageRow) -> (r: SupportMessageRow)
        ensures
            r.id == row.id,
            r.message_id == row.message_id,
            r.session_id == row.session_id,
            r.app_public_id == row.app_public_id,
            r.incoming == row.incoming,
            r.sent_by == row.sent_by,
            r.sent_at == row.sent_at,
            r.content == row.content,
            r.tg_chat_id == row.tg_chat_id,
    {
        SupportMessageRow {
            id: row.id,
            message_id: row.message_id,
            session_id: row.session_id,
            app_public_id: row.app_public_id,
            incoming: row.incoming,
            sent_by: row.sent_by,
            sent_at: row.sent_at,
            content: row.content,
            tg_chat_id: row.tg_chat_id,
        }
    }
}

impl FromSpecImpl<SupportMessageRow> for SupportMemoryMessageRow {
    open spec fn obeys_from_spec() -> bool {
        true
    }

    open spec fn from_spec(row: SupportMessageRow) -> SupportMemoryMessageRow {
        memory_row(row)
    }
}

impl FromSpecImpl<SupportMemoryMessageRow> for SupportMessageRow {
    open spec fn obeys_from_spec() -> bool {
        true
    }

    open spec fn from_spec(row: SupportMemoryMessageRow) -> SupportMessageRow {
        persisted_row(row)
    }
}

/// The in-memory row holding the fields of a persisted one.
pub open spec fn memory_row(row: SupportMessageRow) -> SupportMemoryMessageRow {
    SupportMemoryMessageRow {
        id: row.id,
        message_id: row.message_id,
        session_id: row.session_id,
        app_public_id: row.app_public_id,
        incoming: row.incoming,
        sent_by: row.sent_by,
        sent_at: row.sent_at,
        content: row.content,
        tg_chat_id: row.tg_chat_id,
    }
}

/// The persisted row holding the fields of an in-memory one.
pub open spec fn persisted_row(row: SupportMemoryMessageRow) -> SupportMessageRow {
    SupportMessageRow {
        id: row.id,
        message_id: row.message_id,
        session_id: row.session_id,
        app_public_id: row.app_public_id,
        incoming: row.incoming,
        sent_by: row.sent_by,
        sent_at: row.sent_at,
        content: row.content,
        tg_chat_id: row.tg_chat_id,
    }
}

/// A message moved to the in-memory table keeps every field of its row, and
/// one moved back keeps every field of the in-memory row.
pub proof fn lemma_message_row_fields(row: SupportMessageRow, mem: SupportMemoryMessageRow)
    ensures
        memory_row(row).id == row.id && memory_row(row).message_id == row.message_id && memory_row(row).session_id
            == row.session_id && memory_row(row).app_public_id == row.app_public_id && memory_row(row).incoming
            == row.incoming && memory_row(row).sent_by == row.sent_by && memory_row(row).sent_at == row.sent_at
            && memory_row(row).content == row.content && memory_row(row).tg_chat_id == row.tg_chat_id,
        persisted_row(mem).id == mem.id && persisted_row(mem).message_id == mem.message_id && persisted_row(
            mem,
        ).session_id == mem.session_id && persisted_row(mem).app_public_id == mem.app_public_id && persisted_row(
            mem,
        ).incoming == mem.incoming && persisted_row(mem).sent_by == mem.sent_by && persisted_row(mem).sent_at
            == mem.sent_at && persisted_row(mem).content == mem.content && persisted_row(mem).tg_chat_id
            == mem.tg_chat_id,
{
}

/// Moving a message from the persisted table to the in-memory one and back
/// gives the same row.
pub proof fn lemma_message_row_round_trip(row: SupportMessageRow)
    ensures
        persisted_row(memory_row(row)) == row,
{
}

} // verus!
