use adguardhome_mcp_rs::adguard::client::{AdGuardClient, ApiCall, Auth, HttpMethod, RequestBody};
use adguardhome_mcp_rs::adguard::models::{AdGuardClientDevice, Status, VersionInfo};
use adguardhome_mcp_rs::config::{
    default_http_port, default_log_level, default_transport, AppConfig, InstanceConfig,
};
use adguardhome_mcp_rs::error::Error;
use adguardhome_mcp_rs::settings::Settings;

fn instance(name: &str, url: &str) -> InstanceConfig {
    InstanceConfig { name: Some(name.to_string()), url: url.to_string(), ..Default::default() }
}

#[test]
fn defaults() {
    assert_eq!(default_transport(), "stdio");
    assert_eq!(default_http_port(), 3000);
    assert_eq!(default_log_level(), "info");
    let c = AppConfig::default();
    assert_eq!(c.mcp_transport, "stdio");
    assert_eq!(c.http_port, 3000);
    assert_eq!(c.log_level, "info");
    assert_eq!(c.default_sync_mode, "additive-merge");
    assert_eq!(c.sync_interval_seconds, 3600);
    assert!(!c.lazy_mode);
}

#[test]
fn legacy_host_becomes_default_instance() {
    let mut c = AppConfig {
        adguard_host: "192.168.1.10".to_string(),
        adguard_port: 8080,
        adguard_username: Some("admin".to_string()),
        ..Default::default()
    };
    c.validate().unwrap();
    assert_eq!(c.instances.len(), 1);
    assert_eq!(c.instances[0].name.as_deref(), Some("default"));
    assert_eq!(c.instances[0].url, "http://192.168.1.10:8080");
    assert_eq!(c.instances[0].username.as_deref(), Some("admin"));
    let mut empty = AppConfig::default();
    assert!(matches!(empty.validate(), Err(Error::Config(_))));
}

#[test]
fn instances_by_name_or_index() {
    let c = AppConfig {
        instances: vec![instance("primary", "http://p"), instance("1", "http://named-one"), instance("x", "http://x")],
        ..Default::default()
    };
    assert_eq!(c.get_instance(None).unwrap().url, "http://p");
    assert_eq!(c.get_instance(Some("x")).unwrap().url, "http://x");
    assert_eq!(c.get_instance(Some("1")).unwrap().url, "http://named-one");
    assert_eq!(c.get_instance(Some("2")).unwrap().url, "http://x");
    assert!(matches!(c.get_instance(Some("9")), Err(Error::Config(ref m)) if m == "Instance not found: 9"));
    let none = AppConfig::default();
    assert!(matches!(none.get_instance(None), Err(Error::Config(ref m)) if m == "No instances configured"));
}

#[test]
fn error_messages() {
    assert_eq!(
        Error::MissingEnvironmentVariable("ADGUARD_URL".to_string()).message(),
        "Environment variable ADGUARD_URL is missing"
    );
    assert_eq!(Error::Config("x".to_string()).message(), "Configuration error: x");
    assert_eq!(Error::Generic("plain".to_string()).message(), "plain");
}

#[test]
fn test_settings_from_env_missing_url() {
    let result = Settings::from_values(None, None, None);
    assert!(matches!(result, Err(Error::MissingEnvironmentVariable(ref v)) if v == "ADGUARD_URL"));
}

#[test]
fn test_settings_from_env_success() {
    let settings = Settings::from_values(
        Some("http://localhost:8080".to_string()),
        Some("admin".to_string()),
        Some("password".to_string()),
    )
    .unwrap();
    assert_eq!(settings.adguard_url, "http://localhost:8080");
    assert_eq!(settings.adguard_username, Some("admin".to_string()));
    assert_eq!(settings.adguard_password, Some("password".to_string()));
}

#[test]
fn requests_are_built_from_calls() {
    let client = AdGuardClient::new(InstanceConfig {
        url: "http://h:3000".to_string(),
        api_key: Some("k".to_string()),
        ..Default::default()
    });
    let r = client.request(ApiCall::GetStatus);
    assert_eq!(r.method, HttpMethod::Get);
    assert_eq!(r.url, "http://h:3000/control/status");
    assert!(r.check_status);
    let r = client.request(ApiCall::GetQueryLog {
        search: Some("example.com".to_string()),
        filter: None,
        limit: Some(10),
    });
    assert_eq!(r.url, "http://h:3000/control/querylog?search=example.com&limit=10");
    let r = client.request(ApiCall::SetSafeBrowsing(false));
    assert_eq!(r.method, HttpMethod::Post);
    assert_eq!(r.url, "http://h:3000/control/safebrowsing/disable");
    let r = client.request(ApiCall::SetProtection(true));
    assert!(matches!(r.body, RequestBody::Protection(true)));
    let r = client.request(ApiCall::RestartService { hard: false });
    assert_eq!(r.url, "http://h:3000/control/filtering/refresh");
    assert!(r.check_status);
    let r = client.request(ApiCall::RestartService { hard: true });
    assert_eq!(r.url, "http://h:3000/control/restart");
    assert!(!r.check_status);
    assert!(matches!(client.auth(), Auth::ApiKey(ref k) if k == "k"));
    assert!(client.accepts_invalid_certs());
}

#[test]
fn client_lookup_and_versions() {
    let dev = |n: &str, ids: &[&str]| AdGuardClientDevice {
        name: n.to_string(),
        ids: ids.iter().map(|s| s.to_string()).collect(),
        use_global_settings: true,
        filtering_enabled: true,
        parental_enabled: false,
        safebrowsing_enabled: true,
        safesearch_enabled: false,
    };
    let found = AdGuardClient::find_client(vec![dev("a", &["10.0.0.1"]), dev("b", &["10.0.0.2"])], "10.0.0.2").unwrap();
    assert_eq!(found.name, "b");
    let missing = AdGuardClient::find_client(vec![dev("a", &[])], "zz");
    assert!(matches!(missing, Err(Error::Generic(ref m)) if m == "Client not found: zz"));
    let info = AdGuardClient::version_info_from_status(Status {
        version: "v0.107.0".to_string(),
        language: "en".to_string(),
        protection_enabled: true,
    });
    assert_eq!(info.version, "v0.107.0");
    assert!(!info.can_update);
    assert!(AdGuardClient::check_update_allowed(&info).is_err());
    let can = VersionInfo { can_update: true, ..info };
    assert!(AdGuardClient::check_update_allowed(&can).is_ok());
}
