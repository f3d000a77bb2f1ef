use support_cafe::doppler::{check_status, plan_fetch, secret_path, secrets_enabled, secrets_request, DopplerSource};

#[test]
fn secret_names_become_config_paths() {
    assert_eq!(secret_path("CAFE__SERVICE__PLATFORM_API_KEY"), "service.platform_api_key");
    assert_eq!(secret_path("CAFE__S3__ACCESS_KEY"), "s3.access_key");
    assert_eq!(secret_path("PLAIN"), "plain");
    assert_eq!(secret_path("A___B"), "a._b");
}

#[test]
fn collect_maps_every_secret() {
    let src = DopplerSource::new(vec![
        ("CAFE__SERVICE__PLATFORM_API_KEY".to_string(), "k1".to_string()),
        ("CAFE__DATABASE__PATH".to_string(), "/data".to_string()),
    ]);
    assert_eq!(
        src.collect(),
        vec![
            ("service.platform_api_key".to_string(), "k1".to_string()),
            ("database.path".to_string(), "/data".to_string()),
        ]
    );
    assert!(DopplerSource::new(vec![]).collect().is_empty());
}

#[test]
fn a_repeated_name_keeps_its_last_value() {
    let src = DopplerSource::new(vec![
        ("CAFE__A".to_string(), "1".to_string()),
        ("CAFE__B".to_string(), "2".to_string()),
        ("CAFE__A".to_string(), "3".to_string()),
    ]);
    assert_eq!(src.collect(), vec![("a".to_string(), "3".to_string()), ("b".to_string(), "2".to_string())]);
}

#[test]
fn switch_reads_true_in_any_case() {
    assert!(secrets_enabled(Some("true")));
    assert!(secrets_enabled(Some("TRUE")));
    assert!(secrets_enabled(Some("True")));
    assert!(!secrets_enabled(Some("yes")));
    assert!(!secrets_enabled(Some("true ")));
    assert!(!secrets_enabled(None));
}

#[test]
fn request_encodes_project_and_config() {
    let r = secrets_request("tok", "my project", "prd&x");
    assert_eq!(r.url, "https://api.doppler.com/v3/configs/config/secrets?project=my+project&config=prd%26x");
    assert_eq!(r.authorization, "Bearer tok");
    let r = secrets_request("t", "backend", "prd");
    assert_eq!(r.url, "https://api.doppler.com/v3/configs/config/secrets?project=backend&config=prd");
}

#[test]
fn fetch_plan_reports_the_first_missing_setting() {
    let ok = |s: &str| -> Result<String, String> { Ok(s.to_string()) };
    let missing = |s: &str| -> Result<String, String> { Err(s.to_string()) };
    assert!(matches!(plan_fetch(false, missing("t"), missing("p"), missing("c")), Ok(None)));
    assert_eq!(plan_fetch(true, missing("t"), missing("p"), ok("c")).err(), Some("t".to_string()));
    assert_eq!(plan_fetch(true, ok("t"), missing("p"), missing("c")).err(), Some("p".to_string()));
    assert_eq!(plan_fetch(true, ok("t"), ok("p"), missing("c")).err(), Some("c".to_string()));
    match plan_fetch(true, ok("t"), ok("p"), ok("c")) {
        Ok(Some(q)) => {
            assert_eq!(q.authorization, "Bearer t");
            assert!(q.url.ends_with("?project=p&config=c"));
        }
        _ => panic!("expected a request"),
    }
}

#[test]
fn only_success_statuses_pass() {
    assert_eq!(check_status(200), Ok(()));
    assert_eq!(check_status(299), Ok(()));
    assert_eq!(check_status(300), Err(300));
    assert_eq!(check_status(199), Err(199));
    assert_eq!(check_status(401), Err(401));
}
