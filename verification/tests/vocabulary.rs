use support_cafe::model::{AppMemberRole, EnumEndpoint, EnumErrorCode, LogLevel, UserRole};

#[test]
fn role_numbers() {
    assert_eq!(UserRole::Public.code(), 0);
    assert_eq!(UserRole::App.role_id(), 2);
    assert_eq!(UserRole::HoneyAuth.code(), 6);
    assert_eq!(UserRole::from_code(4), Some(UserRole::AppAdmin));
    assert_eq!(UserRole::from_code(7), None);
    assert_eq!(AppMemberRole::from_code(2), Some(AppMemberRole::Support));
    assert_eq!(AppMemberRole::Owner.code(), 0);
    assert_eq!(AppMemberRole::from_code(3), None);
    assert_eq!(LogLevel::Error.code(), 4);
    assert_eq!(LogLevel::from_code(1), Some(LogLevel::Debug));
    assert_eq!(LogLevel::from_code(5), None);
}

#[test]
fn role_numbers_round_trip() {
    for c in 0..=7u8 {
        if let Some(r) = UserRole::from_code(c) {
            assert_eq!(r.code(), c);
        }
        if let Some(r) = LogLevel::from_code(c) {
            assert_eq!(r.code(), c);
        }
    }
}

#[test]
fn endpoint_codes() {
    assert_eq!(EnumEndpoint::Init.code(), 10000);
    assert_eq!(EnumEndpoint::AppConnect.code(), 20000);
    assert_eq!(EnumEndpoint::DisableSupportUser.code(), 30005);
    assert_eq!(EnumEndpoint::GetMyInfo.code(), 60000);
    assert_eq!(EnumEndpoint::from_code(40004), Some(EnumEndpoint::GetAllApps));
    assert_eq!(EnumEndpoint::from_code(30004), None);
    for code in [10000u32, 20000, 20001, 20008, 30000, 30010, 40000, 40004, 60000] {
        assert_eq!(EnumEndpoint::from_code(code).unwrap().code(), code);
    }
}

#[test]
fn endpoint_roles() {
    assert_eq!(EnumEndpoint::Init.roles(), vec![UserRole::Public]);
    assert_eq!(EnumEndpoint::ListAppMembers.roles(), vec![UserRole::Admin, UserRole::AppAdmin, UserRole::Support]);
    assert_eq!(EnumEndpoint::GetMyInfo.roles(), vec![UserRole::Admin, UserRole::User, UserRole::AppAdmin, UserRole::Support]);
    assert!(EnumEndpoint::SendMessage.permits(UserRole::App));
    assert!(!EnumEndpoint::SendMessage.permits(UserRole::Public));
    assert!(EnumEndpoint::CreateChatSession.permits(UserRole::App));
    assert!(!EnumEndpoint::CreateChatSession.permits(UserRole::User));
}

#[test]
fn only_handshakes_are_public() {
    let all = [
        10000u32, 20000, 20001, 20002, 20003, 20004, 20005, 20006, 20007, 20008, 30000, 30001, 30002,
        30003, 30005, 30006, 30007, 30008, 30009, 30010, 40000, 40001, 40002, 40003, 40004, 60000,
    ];
    for code in all {
        let e = EnumEndpoint::from_code(code).unwrap();
        let public = e.permits(UserRole::Public);
        assert_eq!(public, code == 10000 || code == 20000);
        assert!(!e.permits(UserRole::HoneyAuth));
    }
    for e in [EnumEndpoint::SetLogLevel, EnumEndpoint::GetUsers, EnumEndpoint::SetRole, EnumEndpoint::GetAllApps] {
        assert!(e.permits(UserRole::Admin));
        assert!(!e.permits(UserRole::AppAdmin));
    }
}

#[test]
fn error_codes() {
    assert_eq!(EnumErrorCode::BadRequest.code(), 100400);
    assert_eq!(EnumErrorCode::Forbidden.code(), 100403);
    assert_eq!(EnumErrorCode::InternalError.code(), 100500);
    assert_eq!(EnumErrorCode::NetworkAuthenticationRequired.code(), 100511);
    assert_eq!(EnumErrorCode::from_code(100451), Some(EnumErrorCode::UnavailableForLegalReasons));
    assert_eq!(EnumErrorCode::from_code(100419), None);
    for code in 100400u32..100520 {
        if let Some(e) = EnumErrorCode::from_code(code) {
            assert_eq!(e.code(), code);
        }
    }
}
