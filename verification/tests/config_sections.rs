use support_cafe::config::{
    init_acme, prepare_rebuild, AcmeConfig, AcmePlan, CertS3Config, DatabaseConfig, OtelLogConfig,
    OtelSettings, RebuildRefusal, S3Config, ServerConfig, ServiceConfig,
};

fn acme_with(domains: &str, key: Option<&str>) -> AcmeConfig {
    let mut a = AcmeConfig::default();
    a.domains = domains.to_string();
    a.bunny_api_key = key.map(|k| k.to_string());
    a
}

#[test]
fn defaults_match_the_documented_values() {
    let s = ServerConfig::default();
    assert_eq!(s.name, "tg_support");
    assert_eq!(s.address, "0.0.0.0:443");
    assert!(s.cert.is_none() && s.key.is_none() && !s.insecure);
    assert_eq!(DatabaseConfig::default().path, "/var/lib/tg_support/data");
    assert_eq!(ServiceConfig::default().platform_api_key, "default-platform-key");
    let o = OtelLogConfig::default();
    assert!(!o.enabled);
    assert_eq!(o.endpoint, "https://in-otel.hyperdx.io/v1/logs");
    assert_eq!(o.stream_name, "support_cafe_backend");
    assert_eq!(o.service_name, "support-cafe-backend");
    let s3 = S3Config::default();
    assert_eq!(s3.bucket_name, "tg-support-db");
    assert_eq!(s3.endpoint, "https://t3.storage.dev");
    assert_eq!(s3.prefix, "db");
    assert_eq!(s3.sync_frequency_secs, 300);
    let a = AcmeConfig::default();
    assert_eq!(a.email, "certs@pathscale.com");
    assert_eq!(a.domains, "api.support.cafe");
    assert!(a.production);
    assert_eq!(a.cert_s3.prefix, "certs");
}

#[test]
fn credentials_decide_whether_s3_is_configured() {
    let mut s3 = S3Config::default();
    assert!(!s3.is_configured());
    s3.access_key = Some("ak".to_string());
    assert!(!s3.is_configured());
    s3.secret_key = Some("sk".to_string());
    assert!(s3.is_configured());
    let mut c = CertS3Config::default();
    assert!(!c.is_configured());
    c.access_key = Some("ak".to_string());
    c.secret_key = Some("sk".to_string());
    assert!(c.is_configured());
}

#[test]
fn storage_settings_fall_back_to_placeholders() {
    let s3 = S3Config::default();
    let st = s3.storage_settings();
    assert_eq!(st.bucket_name, "placeholder");
    assert_eq!(st.endpoint, "https://placeholder.local");
    assert_eq!(st.access_key, "placeholder");
    assert_eq!(st.secret_key, "placeholder");
    assert!(st.region.is_none() && st.prefix.is_none());
    let mut s3 = S3Config::default();
    s3.access_key = Some("ak".to_string());
    s3.secret_key = Some("sk".to_string());
    let st = s3.storage_settings();
    assert_eq!(st.bucket_name, "tg-support-db");
    assert_eq!(st.access_key, "ak");
    assert_eq!(st.secret_key, "sk");
    assert_eq!(st.prefix.as_deref(), Some("db"));
}

#[test]
fn acme_is_enabled_by_the_dns_key() {
    assert!(!AcmeConfig::default().is_enabled());
    assert!(acme_with("a.b", Some("k")).is_enabled());
}

#[test]
fn domains_are_split_trimmed_and_filtered() {
    let a = acme_with(" api.support.cafe , ,www.support.cafe,", None);
    assert_eq!(a.domains_vec(), vec!["api.support.cafe".to_string(), "www.support.cafe".to_string()]);
    assert!(acme_with(" , ", None).domains_vec().is_empty());
    assert!(acme_with("", None).domains_vec().is_empty());
}

#[test]
fn cert_prefix_uses_the_primary_domain() {
    let mut a = acme_with(" api.support.cafe , other.cafe", None);
    a.cert_s3.prefix = "certs//".to_string();
    assert_eq!(a.cert_prefix(), "certs/api.support.cafe");
    let b = acme_with(" ,other.cafe", None);
    assert_eq!(b.cert_prefix(), "certs/default");
}

#[test]
fn cert_sync_needs_both_credentials() {
    let mut a = acme_with("api.support.cafe", Some("k"));
    assert!(a.cert_sync_settings().is_none());
    a.cert_s3.access_key = Some("ak".to_string());
    a.cert_s3.secret_key = Some("sk".to_string());
    a.cert_s3.region = Some("eu".to_string());
    let c = a.cert_sync_settings().unwrap();
    assert_eq!(c.prefix, "certs/api.support.cafe");
    assert_eq!(c.region.as_deref(), Some("eu"));
    assert_eq!(c.bucket_name, "tg-support-db");
}

#[test]
fn acme_plan_follows_the_configuration() {
    let server = ServerConfig::default();
    assert!(matches!(init_acme(&AcmeConfig::default(), &server), AcmePlan::NotConfigured));
    assert!(matches!(init_acme(&acme_with(" , ", Some("k")), &server), AcmePlan::NoDomains));
    match init_acme(&acme_with("api.support.cafe", Some("key")), &server) {
        AcmePlan::Provision(p) => {
            assert_eq!(p.api_key, "key");
            assert_eq!(p.cert_dir, "/certs");
            assert_eq!(p.domains, vec!["api.support.cafe".to_string()]);
            assert_eq!(p.propagation_secs, 180);
            assert_eq!(p.max_retries, 3);
            assert!(p.production);
            assert!(p.cert_sync.is_none());
        }
        _ => panic!("expected provisioning"),
    }
    let mut server = ServerConfig::default();
    server.cert = Some("/etc/tls/live/fullchain.pem".to_string());
    match init_acme(&acme_with("a.cafe", Some("key")), &server) {
        AcmePlan::Provision(p) => assert_eq!(p.cert_dir, "/etc/tls/live"),
        _ => panic!("expected provisioning"),
    }
}

#[test]
fn provisioned_certificates_replace_the_configured_ones() {
    let mut server = ServerConfig::default();
    server.pub_certs = Some(vec!["old.pem".to_string()]);
    server.use_provisioned_certs("/certs");
    assert_eq!(server.cert.as_deref(), Some("/certs/fullchain.pem"));
    assert_eq!(server.key.as_deref(), Some("/certs/privkey.pem"));
    assert_eq!(server.pub_certs, Some(vec!["old.pem".to_string()]));
}

#[test]
fn listener_prefers_the_short_spellings() {
    let mut server = ServerConfig::default();
    server.cert = Some("c.pem".to_string());
    server.key = Some("k.pem".to_string());
    server.pub_certs = Some(vec!["x.pem".to_string()]);
    server.priv_key = Some("y.pem".to_string());
    let ws = server.into_ws_settings();
    assert_eq!(ws.pub_certs, Some(vec!["c.pem".to_string()]));
    assert_eq!(ws.priv_key.as_deref(), Some("k.pem"));
    let mut server = ServerConfig::default();
    server.pub_certs = Some(vec!["x.pem".to_string()]);
    server.priv_key = Some("y.pem".to_string());
    server.insecure = true;
    let ws = server.into_ws_settings();
    assert_eq!(ws.pub_certs, Some(vec!["x.pem".to_string()]));
    assert_eq!(ws.priv_key.as_deref(), Some("y.pem"));
    assert!(ws.insecure);
    assert_eq!(ws.name, "tg_support");
}

#[test]
fn otel_headers_follow_the_configuration() {
    assert!(matches!(OtelLogConfig::default().into_otel_config(), OtelSettings::Disabled));
    let mut o = OtelLogConfig::default();
    o.enabled = true;
    o.organization = Some("org-1".to_string());
    match o.into_otel_config() {
        OtelSettings::Enabled { service_name, endpoint, headers } => {
            assert_eq!(service_name, "support-cafe-backend");
            assert_eq!(endpoint, "https://in-otel.hyperdx.io/v1/logs");
            assert_eq!(
                headers,
                vec![
                    ("organization".to_string(), "org-1".to_string()),
                    ("stream-name".to_string(), "support_cafe_backend".to_string()),
                ]
            );
        }
        OtelSettings::Disabled => panic!("expected enabled"),
    }
    let mut o = OtelLogConfig::default();
    o.enabled = true;
    o.authorization = Some("secret".to_string());
    match o.into_otel_config() {
        OtelSettings::Enabled { headers, .. } => {
            assert_eq!(headers[0], ("authorization".to_string(), "secret".to_string()));
            assert_eq!(headers.len(), 2);
        }
        OtelSettings::Disabled => panic!("expected enabled"),
    }
}

#[test]
fn rebuild_checks_come_in_order() {
    let s3 = S3Config::default();
    assert!(matches!(prepare_rebuild(&s3, Some("new".to_string())), Err(RebuildRefusal::S3NotConfigured)));
    let mut s3 = S3Config::default();
    s3.access_key = Some("ak".to_string());
    s3.secret_key = Some("sk".to_string());
    assert!(matches!(prepare_rebuild(&s3, None), Err(RebuildRefusal::MissingTargetPrefix)));
    assert!(matches!(prepare_rebuild(&s3, Some("db".to_string())), Err(RebuildRefusal::SamePrefix)));
    let t = match prepare_rebuild(&s3, Some("db2".to_string())) {
        Ok(t) => t,
        Err(_) => panic!("expected targets"),
    };
    assert_eq!(t.source.prefix.as_deref(), Some("db"));
    assert_eq!(t.target.prefix.as_deref(), Some("db2"));
    assert_eq!(t.target.access_key, "ak");
    assert_eq!(t.target.bucket_name, "tg-support-db");
}
