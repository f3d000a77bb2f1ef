//! The wire-level vocabulary: roles, log levels, endpoints with their codes
//! and the roles allowed to call them, and error codes.

use vstd::prelude::*;

verus! {

/// A connection's role on the platform.
#[derive(Clone, Copy, Debug, PartialEq, Eq, Structural, Hash, PartialOrd, Ord)]
pub enum UserRole {
    /// Unauthenticated
    Public,
    /// Platform admin
    Admin,
    /// App frontend connection
    App,
    /// User authenticated via honey.id token
    User,
    /// App admin authenticated via honey.id Init
    AppAdmin,
    /// Support user authenticated via honey.id Init
    Support,
    /// honey.id callback endpoints
    HoneyAuth,
}

impl UserRole {
    /// The number this variant is stored and sent as.
    pub open spec fn code_of(self) -> u8 {
        match self {
            UserRole::Public => 0,
            UserRole::Admin => 1,
            UserRole::App => 2,
            UserRole::User => 3,
            UserRole::AppAdmin => 4,
            UserRole::Support => 5,
            UserRole::HoneyAuth => 6,
        }
    }

    /// The variant stored as `code`, if any.
    pub open spec fn of_code(code: u8) -> Option<UserRole> {
        if code == 0 {
            Some(UserRole::Public)
        } else if code == 1 {
            Some(UserRole::Admin)
        } else if code == 2 {
            Some(UserRole::App)
        } else if code == 3 {
            Some(UserRole::User)
        } else if code == 4 {
            Some(UserRole::AppAdmin)
        } else if code == 5 {
            Some(UserRole::Support)
        } else if code == 6 {
            Some(UserRole::HoneyAuth)
        } else {
            None
        }
    }

    /// The number this variant is stored and sent as.
    pub fn code(&self) -> (r: u8)
        ensures
            r == self.code_of(),
    {
        match self {
            UserRole::Public => 0,
            UserRole::Admin => 1,
            UserRole::App => 2,
            UserRole::User => 3,
            UserRole::AppAdmin => 4,
            UserRole::Support => 5,
            UserRole::HoneyAuth => 6,
        }
    }

    /// The variant stored as `code`, if any.
    pub fn from_code(code: u8) -> (r: Option<UserRole>)
        ensures
            r == UserRole::of_code(code),
    {
        if code == 0 {
            Some(UserRole::Public)
        } else if code == 1 {
            Some(UserRole::Admin)
        } else if code == 2 {
            Some(UserRole::App)
        } else if code == 3 {
            Some(UserRole::User)
        } else if code == 4 {
            Some(UserRole::AppAdmin)
        } else if code == 5 {
            Some(UserRole::Support)
        } else if code == 6 {
            Some(UserRole::HoneyAuth)
        } else {
            None
        }
    }
}

/// Reading back the number a `UserRole` is stored as gives the same variant,
/// and every number that reads as a variant is that variant's number.
pub proof fn lemma_user_role_code_round_trip(v: UserRole, code: u8)
    ensures
        UserRole::of_code(v.code_of()) == Some(v),
        UserRole::of_code(code) matches Some(x) ==> x.code_of() == code,
{
}

/// A member's role within one app.
#[derive(Clone, Copy, Debug, PartialEq, Eq, Structural, Hash, PartialOrd, Ord)]
pub enum AppMemberRole {
    /// App owner
    Owner,
    /// App admin
    Admin,
    /// App support member
    Support,
}

impl AppMemberRole {
    /// The number this variant is stored and sent as.
    pub open spec fn code_of(self) -> u8 {
        match self {
            AppMemberRole::Owner => 0,
            AppMemberRole::Admin => 1,
            AppMemberRole::Support => 2,
        }
    }

    /// The variant stored as `code`, if any.
    pub open spec fn of_code(code: u8) -> Option<AppMemberRole> {
        if code == 0 {
            Some(AppMemberRole::Owner)
        } else if code == 1 {
            Some(AppMemberRole::Admin)
        } else if code == 2 {
            Some(AppMemberRole::Support)
        } else {
            None
        }
    }

    /// The number this variant is stored and sent as.
    pub fn code(&self) -> (r: u8)
        ensures
            r == self.code_of(),
    {
        match self {
            AppMemberRole::Owner => 0,
            AppMemberRole::Admin => 1,
            AppMemberRole::Support => 2,
        }
    }

    /// The variant stored as `code`, if any.
    pub fn from_code(code: u8) -> (r: Option<AppMemberRole>)
        ensures
            r == AppMemberRole::of_code(code),
    {
        if code == 0 {
            Some(AppMemberRole::Owner)
        } else if code == 1 {
            Some(AppMemberRole::Admin)
        } else if code == 2 {
            Some(AppMemberRole::Support)
        } else {
            None
        }
    }
}

/// Reading back the number a `AppMemberRole` is stored as gives the same variant,
/// and every number that reads as a variant is that variant's number.
pub proof fn lemma_app_member_role_code_round_trip(v: AppMemberRole, code: u8)
    ensures
        AppMemberRole::of_code(v.code_of()) == Some(v),
        AppMemberRole::of_code(code) matches Some(x) ==> x.code_of() == code,
{
}

/// The minimum level of the service log.
#[derive(Clone, Copy, Debug, PartialEq, Eq, Structural, Hash, PartialOrd, Ord)]
pub enum LogLevel {
    /// Trace-level logging
    Trace,
    /// Debug-level logging
    Debug,
    /// Info-level logging
    Info,
    /// Warn-level logging
    Warn,
    /// Error-level logging
    Error,
}

impl LogLevel {
    /// The number this variant is stored and sent as.
    pub open spec fn code_of(self) -> u8 {
        match self {
            LogLevel::Trace => 0,
            LogLevel::Debug => 1,
            LogLevel::Info => 2,
            LogLevel::Warn => 3,
            LogLevel::Error => 4,
        }
    }

    /// The variant stored as `code`, if any.
    pub open spec fn of_code(code: u8) -> Option<LogLevel> {
        if code == 0 {
            Some(LogLevel::Trace)
        } else if code == 1 {
            Some(LogLevel::Debug)
        } else if code == 2 {
            Some(LogLevel::Info)
        } else if code == 3 {
            Some(LogLevel::Warn)
        } else if code == 4 {
            Some(LogLevel::Error)
        } else {
            None
        }
    }

    /// The number this variant is stored and sent as.
    pub fn code(&self) -> (r: u8)
        ensures
            r == self.code_of(),
    {
        match self {
            LogLevel::Trace => 0,
            LogLevel::Debug => 1,
            LogLevel::Info => 2,
            LogLevel::Warn => 3,
            LogLevel::Error => 4,
        }
    }

    /// The variant stored as `code`, if any.
    pub fn from_code(code: u8) -> (r: Option<LogLevel>)
        ensures
            r == LogLevel::of_code(code),
    {
        if code == 0 {
            Some(LogLevel::Trace)
        } else if code == 1 {
            Some(LogLevel::Debug)
        } else if code == 2 {
            Some(LogLevel::Info)
        } else if code == 3 {
            Some(LogLevel::Warn)
        } else if code == 4 {
            Some(LogLevel::Error)
        } else {
            None
        }
    }
}

/// Reading back the number a `LogLevel` is stored as gives the same variant,
/// and every number that reads as a variant is that variant's number.
pub proof fn lemma_log_level_code_round_trip(v: LogLevel, code: u8)
    ensures
        LogLevel::of_code(v.code_of()) == Some(v),
        LogLevel::of_code(code) matches Some(x) ==> x.code_of() == code,
{
}

impl UserRole {
    /// The role number a connection is granted, as the endpoint role lists
    /// name it.
    pub fn role_id(&self) -> (r: u32)
        ensures
            r == self.code_of() as u32,
    {
        self.code() as u32
    }
}

/// The endpoints of the WebSocket API.
#[derive(Clone, Copy, Debug, PartialEq, Eq, Structural, Hash, PartialOrd, Ord)]
pub enum EnumEndpoint {
    Init,
    AppConnect,
    CreateChatSession,
    SendMessage,
    ListMessages,
    SubscribeEvents,
    CloseChatSession,
    ListChatSessions,
    SetMyTgHandle,
    GetMyTgHandle,
    CreateApp,
    EditApp,
    ListApps,
    EnableSupportUser,
    DisableSupportUser,
    AddAppMember,
    SetAppMemberRole,
    ListAppMembers,
    EnableMessagePersistence,
    DisableMessagePersistence,
    DeleteApp,
    SetLogLevel,
    GetUsers,
    SetRole,
    GetAllApps,
    GetMyInfo,
}

impl EnumEndpoint {
    /// The method code of the endpoint.
    pub open spec fn code_of(self) -> u32 {
        match self {
            EnumEndpoint::Init => 10000,
            EnumEndpoint::AppConnect => 20000,
            EnumEndpoint::CreateChatSession => 20001,
            EnumEndpoint::SendMessage => 20002,
            EnumEndpoint::ListMessages => 20003,
            EnumEndpoint::SubscribeEvents => 20004,
            EnumEndpoint::CloseChatSession => 20005,
            EnumEndpoint::ListChatSessions => 20006,
            EnumEndpoint::SetMyTgHandle => 20007,
            EnumEndpoint::GetMyTgHandle => 20008,
            EnumEndpoint::CreateApp => 30000,
            EnumEndpoint::EditApp => 30001,
            EnumEndpoint::ListApps => 30002,
            EnumEndpoint::EnableSupportUser => 30003,
            EnumEndpoint::DisableSupportUser => 30005,
            EnumEndpoint::AddAppMember => 30006,
            EnumEndpoint::SetAppMemberRole => 30007,
            EnumEndpoint::ListAppMembers => 30008,
            EnumEndpoint::EnableMessagePersistence => 30009,
            EnumEndpoint::DisableMessagePersistence => 30010,
            EnumEndpoint::DeleteApp => 40000,
            EnumEndpoint::SetLogLevel => 40001,
            EnumEndpoint::GetUsers => 40002,
            EnumEndpoint::SetRole => 40003,
            EnumEndpoint::GetAllApps => 40004,
            EnumEndpoint::GetMyInfo => 60000,
        }
    }

    /// The endpoint with method code `code`, if any.
    pub open spec fn of_code(code: u32) -> Option<EnumEndpoint> {
        if code == 10000 {
            Some(EnumEndpoint::Init)
        } else if code == 20000 {
            Some(EnumEndpoint::AppConnect)
        } else if code == 20001 {
            Some(EnumEndpoint::CreateChatSession)
        } else if code == 20002 {
            Some(EnumEndpoint::SendMessage)
        } else if code == 20003 {
            Some(EnumEndpoint::ListMessages)
        } else if code == 20004 {
            Some(EnumEndpoint::SubscribeEvents)
        } else if code == 20005 {
            Some(EnumEndpoint::CloseChatSession)
        } else if code == 20006 {
            Some(EnumEndpoint::ListChatSessions)
        } else if code == 20007 {
            Some(EnumEndpoint::SetMyTgHandle)
        } else if code == 20008 {
            Some(EnumEndpoint::GetMyTgHandle)
        } else if code == 30000 {
            Some(EnumEndpoint::CreateApp)
        } else if code == 30001 {
            Some(EnumEndpoint::EditApp)
        } else if code == 30002 {
            Some(EnumEndpoint::ListApps)
        } else if code == 30003 {
            Some(EnumEndpoint::EnableSupportUser)
        } else if code == 30005 {
            Some(EnumEndpoint::DisableSupportUser)
        } else if code == 30006 {
            Some(EnumEndpoint::AddAppMember)
        } else if code == 30007 {
            Some(EnumEndpoint::SetAppMemberRole)
        } else if code == 30008 {
            Some(EnumEndpoint::ListAppMembers)
        } else if code == 30009 {
            Some(EnumEndpoint::EnableMessagePersistence)
        } else if code == 30010 {
            Some(EnumEndpoint::DisableMessagePersistence)
        } else if code == 40000 {
            Some(EnumEndpoint::DeleteApp)
        } else if code == 40001 {
            Some(EnumEndpoint::SetLogLevel)
        } else if code == 40002 {
            Some(EnumEndpoint::GetUsers)
        } else if code == 40003 {
            Some(EnumEndpoint::SetRole)
        } else if code == 40004 {
            Some(EnumEndpoint::GetAllApps)
        } else if code == 60000 {
            Some(EnumEndpoint::GetMyInfo)
        } else {
            None
        }
    }

    /// The roles allowed to call the endpoint, in the order the API lists them.
    pub open spec fn roles_of(self) -> Seq<UserRole> {
        match self {
            EnumEndpoint::Init => seq![UserRole::Public],
            EnumEndpoint::AppConnect => seq![UserRole::Public],
            EnumEndpoint::CreateChatSession => seq![UserRole::App],
            EnumEndpoint::SendMessage => seq![UserRole::App, UserRole::User, UserRole::AppAdmin],
            EnumEndpoint::ListMessages => seq![UserRole::App, UserRole::User, UserRole::AppAdmin],
            EnumEndpoint::SubscribeEvents => seq![UserRole::App, UserRole::User, UserRole::AppAdmin],
            EnumEndpoint::CloseChatSession => seq![UserRole::App, UserRole::User, UserRole::AppAdmin],
            EnumEndpoint::ListChatSessions => seq![UserRole::App, UserRole::User, UserRole::AppAdmin],
            EnumEndpoint::SetMyTgHandle => seq![UserRole::Admin, UserRole::AppAdmin, UserRole::Support],
            EnumEndpoint::GetMyTgHandle => seq![UserRole::Admin, UserRole::AppAdmin, UserRole::Support],
            EnumEndpoint::CreateApp => seq![UserRole::Admin, UserRole::AppAdmin],
            EnumEndpoint::EditApp => seq![UserRole::Admin, UserRole::AppAdmin],
            EnumEndpoint::ListApps => seq![UserRole::Admin, UserRole::AppAdmin],
            EnumEndpoint::EnableSupportUser => seq![UserRole::Admin, UserRole::AppAdmin],
            EnumEndpoint::DisableSupportUser => seq![UserRole::Admin, UserRole::AppAdmin],
            EnumEndpoint::AddAppMember => seq![UserRole::Admin, UserRole::AppAdmin],
            EnumEndpoint::SetAppMemberRole => seq![UserRole::Admin, UserRole::AppAdmin],
            EnumEndpoint::ListAppMembers => seq![UserRole::Admin, UserRole::AppAdmin, UserRole::Support],
            EnumEndpoint::EnableMessagePersistence => seq![UserRole::Admin, UserRole::AppAdmin],
            EnumEndpoint::DisableMessagePersistence => seq![UserRole::Admin, UserRole::AppAdmin],
            EnumEndpoint::DeleteApp => seq![UserRole::Admin, UserRole::AppAdmin],
            EnumEndpoint::SetLogLevel => seq![UserRole::Admin],
            EnumEndpoint::GetUsers => seq![UserRole::Admin],
            EnumEndpoint::SetRole => seq![UserRole::Admin],
            EnumEndpoint::GetAllApps => seq![UserRole::Admin],
            EnumEndpoint::GetMyInfo => seq![UserRole::Admin, UserRole::User, UserRole::AppAdmin, UserRole::Support],
        }
    }

    /// Whether a connection with `role` may call the endpoint.
    pub open spec fn permits_role(self, role: UserRole) -> bool {
        self.roles_of().contains(role)
    }

    /// The method code of the endpoint.
    pub fn code(&self) -> (r: u32)
        ensures
            r == self.code_of(),
    {
        match self {
            EnumEndpoint::Init => 10000,
            EnumEndpoint::AppConnect => 20000,
            EnumEndpoint::CreateChatSession => 20001,
            EnumEndpoint::SendMessage => 20002,
            EnumEndpoint::ListMessages => 20003,
            EnumEndpoint::SubscribeEvents => 20004,
            EnumEndpoint::CloseChatSession => 20005,
            EnumEndpoint::ListChatSessions => 20006,
            EnumEndpoint::SetMyTgHandle => 20007,
            EnumEndpoint::GetMyTgHandle => 20008,
            EnumEndpoint::CreateApp => 30000,
            EnumEndpoint::EditApp => 30001,
            EnumEndpoint::ListApps => 30002,
            EnumEndpoint::EnableSupportUser => 30003,
            EnumEndpoint::DisableSupportUser => 30005,
            EnumEndpoint::AddAppMember => 30006,
            EnumEndpoint::SetAppMemberRole => 30007,
            EnumEndpoint::ListAppMembers => 30008,
            EnumEndpoint::EnableMessagePersistence => 30009,
            EnumEndpoint::DisableMessagePersistence => 30010,
            EnumEndpoint::DeleteApp => 40000,
            EnumEndpoint::SetLogLevel => 40001,
            EnumEndpoint::GetUsers => 40002,
            EnumEndpoint::SetRole => 40003,
            EnumEndpoint::GetAllApps => 40004,
            EnumEndpoint::GetMyInfo => 60000,
        }
    }

    /// The endpoint with method code `code`, if any.
    pub fn from_code(code: u32) -> (r: Option<EnumEndpoint>)
        ensures
            r == EnumEndpoint::of_code(code),
    {
        if code == 10000 {
            Some(EnumEndpoint::Init)
        } else if code == 20000 {
            Some(EnumEndpoint::AppConnect)
        } else if code == 20001 {
            Some(EnumEndpoint::CreateChatSession)
        } else if code == 20002 {
            Some(EnumEndpoint::SendMessage)
        } else if code == 20003 {
            Some(EnumEndpoint::ListMessages)
        } else if code == 20004 {
            Some(EnumEndpoint::SubscribeEvents)
        } else if code == 20005 {
            Some(EnumEndpoint::CloseChatSession)
        } else if code == 20006 {
            Some(EnumEndpoint::ListChatSessions)
        } else if code == 20007 {
            Some(EnumEndpoint::SetMyTgHandle)
        } else if code == 20008 {
            Some(EnumEndpoint::GetMyTgHandle)
        } else if code == 30000 {
            Some(EnumEndpoint::CreateApp)
        } else if code == 30001 {
            Some(EnumEndpoint::EditApp)
        } else if code == 30002 {
            Some(EnumEndpoint::ListApps)
        } else if code == 30003 {
            Some(EnumEndpoint::EnableSupportUser)
        } else if code == 30005 {
            Some(EnumEndpoint::DisableSupportUser)
        } else if code == 30006 {
            Some(EnumEndpoint::AddAppMember)
        } else if code == 30007 {
            Some(EnumEndpoint::SetAppMemberRole)
        } else if code == 30008 {
            Some(EnumEndpoint::ListAppMembers)
        } else if code == 30009 {
            Some(EnumEndpoint::EnableMessagePersistence)
        } else if code == 30010 {
            Some(EnumEndpoint::DisableMessagePersistence)
        } else if code == 40000 {
            Some(EnumEndpoint::DeleteApp)
        } else if code == 40001 {
            Some(EnumEndpoint::SetLogLevel)
        } else if code == 40002 {
            Some(EnumEndpoint::GetUsers)
        } else if code == 40003 {
            Some(EnumEndpoint::SetRole)
        } else if code == 40004 {
            Some(EnumEndpoint::GetAllApps)
        } else if code == 60000 {
            Some(EnumEndpoint::GetMyInfo)
        } else {
            None
        }
    }

    /// The roles allowed to call the endpoint.
    pub fn roles(&self) -> (r: Vec<UserRole>)
        ensures
            r@ == self.roles_of(),
    {
        let mut r: Vec<UserRole> = Vec::new();
        match self {
            EnumEndpoint::Init => {
                r.push(UserRole::Public);
            },
            EnumEndpoint::AppConnect => {
                r.push(UserRole::Public);
            },
            EnumEndpoint::CreateChatSession => {
                r.push(UserRole::App);
            },
            EnumEndpoint::SendMessage => {
                r.push(UserRole::App); r.push(UserRole::User); r.push(UserRole::AppAdmin);
            },
            EnumEndpoint::ListMessages => {
                r.push(UserRole::App); r.push(UserRole::User); r.push(UserRole::AppAdmin);
            },
            EnumEndpoint::SubscribeEvents => {
                r.push(UserRole::App); r.push(UserRole::User); r.push(UserRole::AppAdmin);
            },
            EnumEndpoint::CloseChatSession => {
                r.push(UserRole::App); r.push(UserRole::User); r.push(UserRole::AppAdmin);
            },
            EnumEndpoint::ListChatSessions => {
                r.push(UserRole::App); r.push(UserRole::User); r.push(UserRole::AppAdmin);
            },
            EnumEndpoint::SetMyTgHandle => {
                r.push(UserRole::Admin); r.push(UserRole::AppAdmin); r.push(UserRole::Support);
            },
            EnumEndpoint::GetMyTgHandle => {
                r.push(UserRole::Admin); r.push(UserRole::AppAdmin); r.push(UserRole::Support);
            },
            EnumEndpoint::CreateApp => {
                r.push(UserRole::Admin); r.push(UserRole::AppAdmin);
            },
            EnumEndpoint::EditApp => {
                r.push(UserRole::Admin); r.push(UserRole::AppAdmin);
            },
            EnumEndpoint::ListApps => {
                r.push(UserRole::Admin); r.push(UserRole::AppAdmin);
            },
            EnumEndpoint::EnableSupportUser => {
                r.push(UserRole::Admin); r.push(UserRole::AppAdmin);
            },
            EnumEndpoint::DisableSupportUser => {
                r.push(UserRole::Admin); r.push(UserRole::AppAdmin);
            },
            EnumEndpoint::AddAppMember => {
                r.push(UserRole::Admin); r.push(UserRole::AppAdmin);
            },
            EnumEndpoint::SetAppMemberRole => {
                r.push(UserRole::Admin); r.push(UserRole::AppAdmin);
            },
            EnumEndpoint::ListAppMembers => {
                r.push(UserRole::Admin); r.push(UserRole::AppAdmin); r.push(UserRole::Support);
            },
            EnumEndpoint::EnableMessagePersistence => {
                r.push(UserRole::Admin); r.push(UserRole::AppAdmin);
            },
            EnumEndpoint::DisableMessagePersistence => {
                r.push(UserRole::Admin); r.push(UserRole::AppAdmin);
            },
            EnumEndpoint::DeleteApp => {
                r.push(UserRole::Admin); r.push(UserRole::AppAdmin);
            },
            EnumEndpoint::SetLogLevel => {
                r.push(UserRole::Admin);
            },
            EnumEndpoint::GetUsers => {
                r.push(UserRole::Admin);
            },
            EnumEndpoint::SetRole => {
                r.push(UserRole::Admin);
            },
            EnumEndpoint::GetAllApps => {
                r.push(UserRole::Admin);
            },
            EnumEndpoint::GetMyInfo => {
                r.push(UserRole::Admin); r.push(UserRole::User); r.push(UserRole::AppAdmin); r.push(UserRole::Support);
            },
        }
        assert(r@ =~= self.roles_of());
        r
    }

    /// Whether a connection with `role` may call the endpoint.
    pub fn permits(&self, role: UserRole) -> (r: bool)
        ensures
            r == self.permits_role(role),
    {
        let roles = self.roles();
        let mut i: usize = 0;
        while i < roles.len()
            invariant
                roles@ == self.roles_of(),
                i <= roles@.len(),
                forall|k: int| 0 <= k < i ==> roles@[k] != role,
            decreases roles@.len() - i,
        {
            if roles[i] == role {
                return true;
            }
            i = i + 1;
        }
        false
    }
}

/// Reading back an endpoint's method code gives the same endpoint, and every
/// code that reads as an endpoint is that endpoint's code.
pub proof fn lemma_endpoint_code_round_trip(e: EnumEndpoint, code: u32)
    ensures
        EnumEndpoint::of_code(e.code_of()) == Some(e),
        EnumEndpoint::of_code(code) matches Some(x) ==> x.code_of() == code,
{
}

/// Only the two handshake endpoints, `Init` and `AppConnect`, can be called
/// by an unauthenticated connection.
pub proof fn lemma_public_only_at_handshake(e: EnumEndpoint)
    ensures
        e.permits_role(UserRole::Public) <==> (e == EnumEndpoint::Init || e == EnumEndpoint::AppConnect),
{
    assert(e.roles_of().contains(UserRole::Public) ==> (e == EnumEndpoint::Init || e == EnumEndpoint::AppConnect)) by {
        if e.roles_of().contains(UserRole::Public) {
            let k = choose|k: int| 0 <= k < e.roles_of().len() && e.roles_of()[k] == UserRole::Public;
        }
    }
    if e == EnumEndpoint::Init || e == EnumEndpoint::AppConnect {
        assert(e.roles_of()[0] == UserRole::Public);
    }
}

/// The platform administration endpoints (log level, user list, role
/// assignment, the list of every app) are for platform admins alone.
pub proof fn lemma_platform_admin_endpoints(e: EnumEndpoint, role: UserRole)
    requires
        e == EnumEndpoint::SetLogLevel || e == EnumEndpoint::GetUsers || e == EnumEndpoint::SetRole
            || e == EnumEndpoint::GetAllApps,
    ensures
        e.permits_role(role) <==> role == UserRole::Admin,
{
    assert(e.roles_of() =~= seq![UserRole::Admin]);
    if e.permits_role(role) {
        let k = choose|k: int| 0 <= k < e.roles_of().len() && e.roles_of()[k] == role;
    }
    if role == UserRole::Admin {
        assert(e.roles_of()[0] == role);
    }
}

/// The app administration endpoints (method codes 30000 to 39999, and app
/// deletion) are open to platform admins and app admins; listing an app's
/// members is open to support staff as well; no one else calls them.
pub proof fn lemma_app_admin_endpoints(e: EnumEndpoint, role: UserRole)
    requires
        30000 <= e.code_of() < 40000 || e == EnumEndpoint::DeleteApp,
    ensures
        e.permits_role(role) <==> (role == UserRole::Admin || role == UserRole::AppAdmin || (e
            == EnumEndpoint::ListAppMembers && role == UserRole::Support)),
{
    if e == EnumEndpoint::ListAppMembers {
        assert(e.roles_of() =~= seq![UserRole::Admin, UserRole::AppAdmin, UserRole::Support]);
        assert(e.roles_of()[0] == UserRole::Admin && e.roles_of()[1] == UserRole::AppAdmin && e.roles_of()[2]
            == UserRole::Support);
    } else {
        assert(e.roles_of() =~= seq![UserRole::Admin, UserRole::AppAdmin]);
        assert(e.roles_of()[0] == UserRole::Admin && e.roles_of()[1] == UserRole::AppAdmin);
    }
    if e.permits_role(role) {
        let k = choose|k: int| 0 <= k < e.roles_of().len() && e.roles_of()[k] == role;
    }
}

/// The chat endpoints after the handshake (method codes 20001 to 20006)
/// besides opening a session are open to widget connections, signed-in users
/// and app admins alone; opening a session is for widget connections alone.
pub proof fn lemma_chat_endpoints(e: EnumEndpoint, role: UserRole)
    requires
        20001 <= e.code_of() <= 20006,
    ensures
        e == EnumEndpoint::CreateChatSession ==> (e.permits_role(role) <==> role == UserRole::App),
        e != EnumEndpoint::CreateChatSession ==> (e.permits_role(role) <==> (role == UserRole::App || role
            == UserRole::User || role == UserRole::AppAdmin)),
{
    if e == EnumEndpoint::CreateChatSession {
        assert(e.roles_of() =~= seq![UserRole::App]);
        assert(e.roles_of()[0] == UserRole::App);
    } else {
        assert(e.roles_of() =~= seq![UserRole::App, UserRole::User, UserRole::AppAdmin]);
        assert(e.roles_of()[0] == UserRole::App && e.roles_of()[1] == UserRole::User && e.roles_of()[2]
            == UserRole::AppAdmin);
    }
    if e.permits_role(role) {
        let k = choose|k: int| 0 <= k < e.roles_of().len() && e.roles_of()[k] == role;
    }
}

/// A staff member's own Telegram handle is set and read by platform admins,
/// app admins and support staff; the account's own information is read by
/// every signed-in account (admin, user, app admin, support).
pub proof fn lemma_account_endpoints(e: EnumEndpoint, role: UserRole)
    ensures
        (e == EnumEndpoint::SetMyTgHandle || e == EnumEndpoint::GetMyTgHandle) ==> (e.permits_role(role) <==> (
        role == UserRole::Admin || role == UserRole::AppAdmin || role == UserRole::Support)),
        e == EnumEndpoint::GetMyInfo ==> (e.permits_role(role) <==> (role == UserRole::Admin || role
            == UserRole::User || role == UserRole::AppAdmin || role == UserRole::Support)),
{
    if e == EnumEndpoint::SetMyTgHandle || e == EnumEndpoint::GetMyTgHandle {
        assert(e.roles_of() =~= seq![UserRole::Admin, UserRole::AppAdmin, UserRole::Support]);
        assert(e.roles_of()[0] == UserRole::Admin && e.roles_of()[1] == UserRole::AppAdmin && e.roles_of()[2]
            == UserRole::Support);
    }
    if e == EnumEndpoint::GetMyInfo {
        assert(e.roles_of()[0] == UserRole::Admin && e.roles_of()[1] == UserRole::User && e.roles_of()[2]
            == UserRole::AppAdmin && e.roles_of()[3] == UserRole::Support);
    }
    if e.permits_role(role) {
        let k = choose|k: int| 0 <= k < e.roles_of().len() && e.roles_of()[k] == role;
    }
}

/// No endpoint is open to the identity provider's callback role.
pub proof fn lemma_no_endpoint_for_callbacks(e: EnumEndpoint)
    ensures
        !e.permits_role(UserRole::HoneyAuth),
{
    if e.permits_role(UserRole::HoneyAuth) {
        let k = choose|k: int| 0 <= k < e.roles_of().len() && e.roles_of()[k] == UserRole::HoneyAuth;
    }
}

/// The error codes of the API.
#[derive(Clone, Copy, Debug, PartialEq, Eq, Structural, Hash, PartialOrd, Ord)]
pub enum EnumErrorCode {
    /// Bad request
    BadRequest,
    /// Authentication is required
    Unauthorized,
    /// Payment is required
    PaymentRequired,
    /// Access is forbidden
    Forbidden,
    /// Resource was not found
    NotFound,
    /// Method is not allowed
    MethodNotAllowed,
    /// Response format is not acceptable
    NotAcceptable,
    /// Proxy authentication is required
    ProxyAuthenticationRequired,
    /// Request timed out
    RequestTimeout,
    /// Request conflicts with current state
    Conflict,
    /// Resource is gone
    Gone,
    /// Content length is required
    LengthRequired,
    /// Precondition failed
    PreconditionFailed,
    /// Payload is too large
    PayloadTooLarge,
    /// URI is too long
    UriTooLong,
    /// Media type is unsupported
    UnsupportedMediaType,
    /// Requested range cannot be satisfied
    RangeNotSatisfiable,
    /// Expectation failed
    ExpectationFailed,
    /// I'm a teapot
    ImATeapot,
    /// Request was misdirected
    MisdirectedRequest,
    /// Entity could not be processed
    UnprocessableEntity,
    /// Resource is locked
    Locked,
    /// Dependency failed
    FailedDependency,
    /// Request must be upgraded
    UpgradeRequired,
    /// Precondition is required
    PreconditionRequired,
    /// Too many requests
    TooManyRequests,
    /// Request header fields are too large
    RequestHeaderFieldsTooLarge,
    /// Unavailable for legal reasons
    UnavailableForLegalReasons,
    /// Internal server error
    InternalError,
    /// Endpoint is not implemented
    NotImplemented,
    /// Bad gateway
    BadGateway,
    /// Service is unavailable
    ServiceUnavailable,
    /// Gateway timed out
    GatewayTimeout,
    /// HTTP version is not supported
    HttpVersionNotSupported,
    /// Content negotiation variant problem
    VariantAlsoNegotiates,
    /// Insufficient storage
    InsufficientStorage,
    /// Loop was detected
    LoopDetected,
    /// Request must be extended
    NotExtended,
    /// Network authentication is required
    NetworkAuthenticationRequired,
}

impl EnumErrorCode {
    /// The number sent for this error.
    pub open spec fn code_of(self) -> u32 {
        match self {
            EnumErrorCode::BadRequest => 100400,
            EnumErrorCode::Unauthorized => 100401,
            EnumErrorCode::PaymentRequired => 100402,
            EnumErrorCode::Forbidden => 100403,
            EnumErrorCode::NotFound => 100404,
            EnumErrorCode::MethodNotAllowed => 100405,
            EnumErrorCode::NotAcceptable => 100406,
            EnumErrorCode::ProxyAuthenticationRequired => 100407,
            EnumErrorCode::RequestTimeout => 100408,
            EnumErrorCode::Conflict => 100409,
            EnumErrorCode::Gone => 100410,
            EnumErrorCode::LengthRequired => 100411,
            EnumErrorCode::PreconditionFailed => 100412,
            EnumErrorCode::PayloadTooLarge => 100413,
            EnumErrorCode::UriTooLong => 100414,
            EnumErrorCode::UnsupportedMediaType => 100415,
            EnumErrorCode::RangeNotSatisfiable => 100416,
            EnumErrorCode::ExpectationFailed => 100417,
            EnumErrorCode::ImATeapot => 100418,
            EnumErrorCode::MisdirectedRequest => 100421,
            EnumErrorCode::UnprocessableEntity => 100422,
            EnumErrorCode::Locked => 100423,
            EnumErrorCode::FailedDependency => 100424,
            EnumErrorCode::UpgradeRequired => 100426,
            EnumErrorCode::PreconditionRequired => 100428,
            EnumErrorCode::TooManyRequests => 100429,
            EnumErrorCode::RequestHeaderFieldsTooLarge => 100431,
            EnumErrorCode::UnavailableForLegalReasons => 100451,
            EnumErrorCode::InternalError => 100500,
            EnumErrorCode::NotImplemented => 100501,
            EnumErrorCode::BadGateway => 100502,
            EnumErrorCode::ServiceUnavailable => 100503,
            EnumErrorCode::GatewayTimeout => 100504,
            EnumErrorCode::HttpVersionNotSupported => 100505,
            EnumErrorCode::VariantAlsoNegotiates => 100506,
            EnumErrorCode::InsufficientStorage => 100507,
            EnumErrorCode::LoopDetected => 100508,
            EnumErrorCode::NotExtended => 100510,
            EnumErrorCode::NetworkAuthenticationRequired => 100511,
        }
    }

    /// The error with number `code`, if any.
    pub open spec fn of_code(code: u32) -> Option<EnumErrorCode> {
        if code == 100400 {
            Some(EnumErrorCode::BadRequest)
        } else if code == 100401 {
            Some(EnumErrorCode::Unauthorized)
        } else if code == 100402 {
            Some(EnumErrorCode::PaymentRequired)
        } else if code == 100403 {
            Some(EnumErrorCode::Forbidden)
        } else if code == 100404 {
            Some(EnumErrorCode::NotFound)
        } else if code == 100405 {
            Some(EnumErrorCode::MethodNotAllowed)
        } else if code == 100406 {
            Some(EnumErrorCode::NotAcceptable)
        } else if code == 100407 {
            Some(EnumErrorCode::ProxyAuthenticationRequired)
        } else if code == 100408 {
            Some(EnumErrorCode::RequestTimeout)
        } else if code == 100409 {
            Some(EnumErrorCode::Conflict)
        } else if code == 100410 {
            Some(EnumErrorCode::Gone)
        } else if code == 100411 {
            Some(EnumErrorCode::LengthRequired)
        } else if code == 100412 {
            Some(EnumErrorCode::PreconditionFailed)
        } else if code == 100413 {
            Some(EnumErrorCode::PayloadTooLarge)
        } else if code == 100414 {
            Some(EnumErrorCode::UriTooLong)
        } else if code == 100415 {
            Some(EnumErrorCode::UnsupportedMediaType)
        } else if code == 100416 {
            Some(EnumErrorCode::RangeNotSatisfiable)
        } else if code == 100417 {
            Some(EnumErrorCode::ExpectationFailed)
        } else if code == 100418 {
            Some(EnumErrorCode::ImATeapot)
        } else if code == 100421 {
            Some(EnumErrorCode::MisdirectedRequest)
        } else if code == 100422 {
            Some(EnumErrorCode::UnprocessableEntity)
        } else if code == 100423 {
            Some(EnumErrorCode::Locked)
        } else if code == 100424 {
            Some(EnumErrorCode::FailedDependency)
        } else if code == 100426 {
            Some(EnumErrorCode::UpgradeRequired)
        } else if code == 100428 {
            Some(EnumErrorCode::PreconditionRequired)
        } else if code == 100429 {
            Some(EnumErrorCode::TooManyRequests)
        } else if code == 100431 {
            Some(EnumErrorCode::RequestHeaderFieldsTooLarge)
        } else if code == 100451 {
            Some(EnumErrorCode::UnavailableForLegalReasons)
        } else if code == 100500 {
            Some(EnumErrorCode::InternalError)
        } else if code == 100501 {
            Some(EnumErrorCode::NotImplemented)
        } else if code == 100502 {
            Some(EnumErrorCode::BadGateway)
        } else if code == 100503 {
            Some(EnumErrorCode::ServiceUnavailable)
        } else if code == 100504 {
            Some(EnumErrorCode::GatewayTimeout)
        } else if code == 100505 {
            Some(EnumErrorCode::HttpVersionNotSupported)
        } else if code == 100506 {
            Some(EnumErrorCode::VariantAlsoNegotiates)
        } else if code == 100507 {
            Some(EnumErrorCode::InsufficientStorage)
        } else if code == 100508 {
            Some(EnumErrorCode::LoopDetected)
        } else if code == 100510 {
            Some(EnumErrorCode::NotExtended)
        } else if code == 100511 {
            Some(EnumErrorCode::NetworkAuthenticationRequired)
        } else {
            None
        }
    }

    /// The number sent for this error, the value of the API's error code.
    pub fn code(&self) -> (r: u32)
        ensures
            r == self.code_of(),
    {
        match self {
            EnumErrorCode::BadRequest => 100400,
            EnumErrorCode::Unauthorized => 100401,
            EnumErrorCode::PaymentRequired => 100402,
            EnumErrorCode::Forbidden => 100403,
            EnumErrorCode::NotFound => 100404,
            EnumErrorCode::MethodNotAllowed => 100405,
            EnumErrorCode::NotAcceptable => 100406,
            EnumErrorCode::ProxyAuthenticationRequired => 100407,
            EnumErrorCode::RequestTimeout => 100408,
            EnumErrorCode::Conflict => 100409,
            EnumErrorCode::Gone => 100410,
            EnumErrorCode::LengthRequired => 100411,
            EnumErrorCode::PreconditionFailed => 100412,
            EnumErrorCode::PayloadTooLarge => 100413,
            EnumErrorCode::UriTooLong => 100414,
            EnumErrorCode::UnsupportedMediaType => 100415,
            EnumErrorCode::RangeNotSatisfiable => 100416,
            EnumErrorCode::ExpectationFailed => 100417,
            EnumErrorCode::ImATeapot => 100418,
            EnumErrorCode::MisdirectedRequest => 100421,
            EnumErrorCode::UnprocessableEntity => 100422,
            EnumErrorCode::Locked => 100423,
            EnumErrorCode::FailedDependency => 100424,
            EnumErrorCode::UpgradeRequired => 100426,
            EnumErrorCode::PreconditionRequired => 100428,
            EnumErrorCode::TooManyRequests => 100429,
            EnumErrorCode::RequestHeaderFieldsTooLarge => 100431,
            EnumErrorCode::UnavailableForLegalReasons => 100451,
            EnumErrorCode::InternalError => 100500,
            EnumErrorCode::NotImplemented => 100501,
            EnumErrorCode::BadGateway => 100502,
            EnumErrorCode::ServiceUnavailable => 100503,
            EnumErrorCode::GatewayTimeout => 100504,
            EnumErrorCode::HttpVersionNotSupported => 100505,
            EnumErrorCode::VariantAlsoNegotiates => 100506,
            EnumErrorCode::InsufficientStorage => 100507,
            EnumErrorCode::LoopDetected => 100508,
            EnumErrorCode::NotExtended => 100510,
            EnumErrorCode::NetworkAuthenticationRequired => 100511,
        }
    }

    /// The error with number `code`, if any.
    pub fn from_code(code: u32) -> (r: Option<EnumErrorCode>)
        ensures
            r == EnumErrorCode::of_code(code),
    {
        if code == 100400 {
            Some(EnumErrorCode::BadRequest)
        } else if code == 100401 {
            Some(EnumErrorCode::Unauthorized)
        } else if code == 100402 {
            Some(EnumErrorCode::PaymentRequired)
        } else if code == 100403 {
            Some(EnumErrorCode::Forbidden)
        } else if code == 100404 {
            Some(EnumErrorCode::NotFound)
        } else if code == 100405 {
            Some(EnumErrorCode::MethodNotAllowed)
        } else if code == 100406 {
            Some(EnumErrorCode::NotAcceptable)
        } else if code == 100407 {
            Some(EnumErrorCode::ProxyAuthenticationRequired)
        } else if code == 100408 {
            Some(EnumErrorCode::RequestTimeout)
        } else if code == 100409 {
            Some(EnumErrorCode::Conflict)
        } else if code == 100410 {
            Some(EnumErrorCode::Gone)
        } else if code == 100411 {
            Some(EnumErrorCode::LengthRequired)
        } else if code == 100412 {
            Some(EnumErrorCode::PreconditionFailed)
        } else if code == 100413 {
            Some(EnumErrorCode::PayloadTooLarge)
        } else if code == 100414 {
            Some(EnumErrorCode::UriTooLong)
        } else if code == 100415 {
            Some(EnumErrorCode::UnsupportedMediaType)
        } else if code == 100416 {
            Some(EnumErrorCode::RangeNotSatisfiable)
        } else if code == 100417 {
            Some(EnumErrorCode::ExpectationFailed)
        } else if code == 100418 {
            Some(EnumErrorCode::ImATeapot)
        } else if code == 100421 {
            Some(EnumErrorCode::MisdirectedRequest)
        } else if code == 100422 {
            Some(EnumErrorCode::UnprocessableEntity)
        } else if code == 100423 {
            Some(EnumErrorCode::Locked)
        } else if code == 100424 {
            Some(EnumErrorCode::FailedDependency)
        } else if code == 100426 {
            Some(EnumErrorCode::UpgradeRequired)
        } else if code == 100428 {
            Some(EnumErrorCode::PreconditionRequired)
        } else if code == 100429 {
            Some(EnumErrorCode::TooManyRequests)
        } else if code == 100431 {
            Some(EnumErrorCode::RequestHeaderFieldsTooLarge)
        } else if code == 100451 {
            Some(EnumErrorCode::UnavailableForLegalReasons)
        } else if code == 100500 {
            Some(EnumErrorCode::InternalError)
        } else if code == 100501 {
            Some(EnumErrorCode::NotImplemented)
        } else if code == 100502 {
            Some(EnumErrorCode::BadGateway)
        } else if code == 100503 {
            Some(EnumErrorCode::ServiceUnavailable)
        } else if code == 100504 {
            Some(EnumErrorCode::GatewayTimeout)
        } else if code == 100505 {
            Some(EnumErrorCode::HttpVersionNotSupported)
        } else if code == 100506 {
            Some(EnumErrorCode::VariantAlsoNegotiates)
        } else if code == 100507 {
            Some(EnumErrorCode::InsufficientStorage)
        } else if code == 100508 {
            Some(EnumErrorCode::LoopDetected)
        } else if code == 100510 {
            Some(EnumErrorCode::NotExtended)
        } else if code == 100511 {
            Some(EnumErrorCode::NetworkAuthenticationRequired)
        } else {
            None
        }
    }
}

/// Reading back an error's number gives the same error, and every number that
/// reads as an error is that error's number.
pub proof fn lemma_error_code_round_trip(e: EnumErrorCode, code: u32)
    ensures
        EnumErrorCode::of_code(e.code_of()) == Some(e),
        EnumErrorCode::of_code(code) matches Some(x) ==> x.code_of() == code,
{
}

} // verus!
