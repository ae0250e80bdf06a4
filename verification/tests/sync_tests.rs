use adguardhome_mcp_rs::adguard::client::ApiCall;
use adguardhome_mcp_rs::adguard::models::{
    AccessList, DhcpStatus, DnsConfig, DnsRewrite, FilteringConfig, ParentalControlConfig,
    ProfileInfo, QueryLogConfig, SafeSearchConfig, Status, TlsConfig,
};
use adguardhome_mcp_rs::config::{AppConfig, InstanceConfig, ReplicaConfig};
use adguardhome_mcp_rs::error::Error;
use adguardhome_mcp_rs::sync::{
    background_sync, merge_additive, plan_rewrites, replica_instance, sync_list, BackgroundSync,
    Existing, Push, PushAction,
    SyncMode, SyncModule, SyncResult, SyncState,
};

fn strings(v: &[&str]) -> Vec<String> {
    v.iter().map(|s| s.to_string()).collect()
}

fn rw(d: &str, a: &str) -> DnsRewrite {
    DnsRewrite { domain: d.to_string(), answer: a.to_string() }
}

fn state() -> SyncState {
    SyncState {
        metadata: None,
        filtering: FilteringConfig {
            enabled: true,
            interval: 1,
            filters: vec![],
            whitelist_filters: vec![],
            user_rules: strings(&["rule1"]),
        },
        clients: vec![],
        dns: DnsConfig { upstream_dns: strings(&["1.1.1.1"]), ..Default::default() },
        blocked_services: strings(&["youtube"]),
        rewrites: vec![rw("a.lan", "1.1.1.1"), rw("b.lan", "2.2.2.2")],
        access_list: AccessList {
            allowed_clients: vec![],
            disallowed_clients: vec![],
            blocked_hosts: vec![],
        },
        query_log_config: QueryLogConfig {
            enabled: true,
            interval: 1,
            anonymize_client_ip: false,
            allowed_clients: vec![],
            disallowed_clients: vec![],
        },
        safe_search: SafeSearchConfig {
            enabled: true,
            bing: true,
            duckduckgo: true,
            google: true,
            pixabay: true,
            yandex: true,
            youtube: true,
        },
        safe_browsing: true,
        parental_control: ParentalControlConfig { enabled: true, sensitivity: None },
        dhcp: DhcpStatus {
            enabled: false,
            interface_name: "".to_string(),
            v4: None,
            v6: None,
            leases: Vec::new(),
            static_leases: Vec::new(),
        },
        tls: TlsConfig::default(),
        profile_info: ProfileInfo {
            name: "admin".to_string(),
            language: "en".to_string(),
            theme: "dark".to_string(),
        },
    }
}

#[test]
fn test_sync_state_diff() {
    let state1 = state();
    let mut state2 = state1.clone();
    state2.filtering.enabled = false;
    state2.dns.upstream_dns = strings(&["8.8.8.8"]);
    state2.blocked_services = strings(&["facebook"]);
    state2.filtering.user_rules = strings(&["rule2"]);

    let diff = state1.diff(&state2);
    assert!(diff.contains("Filtering: Enabled: false -> true"));
    assert!(diff.contains("DNS: Upstream DNS changed"));
    assert!(diff.contains("Blocked Services: Changed"));
    assert!(diff.contains("User Rules: Changed"));
}

#[test]
fn diff_of_equal_states_reports_nothing() {
    let s = state();
    assert_eq!(s.diff(&s.clone()), "No significant changes detected.");
    let mut t = s.clone();
    t.dhcp.enabled = true;
    t.safe_browsing = false;
    assert_eq!(s.diff(&t), "Safe Browsing: false -> true\nDHCP: true -> false");
}

#[test]
fn merge_keeps_existing_and_adds_missing_once() {
    let merged = merge_additive(&strings(&["a", "b"]), &strings(&["b", "c", "c", "d"]));
    assert_eq!(merged, strings(&["a", "b", "c", "d"]));
    let again = merge_additive(&merged, &strings(&["b", "c", "c", "d"]));
    assert_eq!(again, merged);
    assert_eq!(
        sync_list(SyncMode::FullOverwrite, &strings(&["x"]), &strings(&["y"])),
        strings(&["y"])
    );
    assert_eq!(
        sync_list(SyncMode::AdditiveMerge, &strings(&["x"]), &strings(&["y"])),
        strings(&["x", "y"])
    );
}

#[test]
fn mode_names() {
    assert_eq!(SyncMode::parse("full-overwrite"), SyncMode::FullOverwrite);
    assert_eq!(SyncMode::parse("additive-merge"), SyncMode::AdditiveMerge);
    assert_eq!(SyncMode::parse("anything"), SyncMode::AdditiveMerge);
}

#[test]
fn rewrite_plans() {
    let existing = vec![rw("a.lan", "1.1.1.1"), rw("old.lan", "9.9.9.9")];
    let master = vec![rw("a.lan", "1.1.1.1"), rw("b.lan", "2.2.2.2")];
    let full = plan_rewrites(&existing, &master, SyncMode::FullOverwrite);
    assert_eq!(full.deletions, vec![1]);
    assert_eq!(full.additions, vec![0, 1]);
    let merge = plan_rewrites(&existing, &master, SyncMode::AdditiveMerge);
    assert!(merge.deletions.is_empty());
    assert_eq!(merge.additions, vec![1]);
}

#[test]
fn module_calls_follow_the_mode() {
    assert!(matches!(
        SyncModule::UserRules.read_before(SyncMode::AdditiveMerge),
        Some(ApiCall::ListFilters)
    ));
    assert!(SyncModule::UserRules.read_before(SyncMode::FullOverwrite).is_none());
    assert!(matches!(
        SyncModule::DnsRewrites.read_before(SyncMode::FullOverwrite),
        Some(ApiCall::ListRewrites)
    ));
    assert!(SyncModule::TlsConfig.read_before(SyncMode::AdditiveMerge).is_none());

    let calls = state().calls_for(
        SyncModule::UserRules,
        SyncMode::AdditiveMerge,
        Existing::Rules(strings(&["mine", "rule1"])),
    );
    assert_eq!(calls.len(), 1);
    match &calls[0] {
        ApiCall::SetUserRules(r) => assert_eq!(r, &strings(&["mine", "rule1"])),
        _ => panic!("expected the rules"),
    }
    let calls = state().calls_for(SyncModule::UserRules, SyncMode::FullOverwrite, Existing::Nothing);
    match &calls[0] {
        ApiCall::SetUserRules(r) => assert_eq!(r, &strings(&["rule1"])),
        _ => panic!("expected the rules"),
    }
    let calls = state().calls_for(
        SyncModule::DnsRewrites,
        SyncMode::FullOverwrite,
        Existing::Rewrites(vec![rw("old.lan", "9.9.9.9")]),
    );
    assert_eq!(calls.len(), 3);
    assert!(matches!(&calls[0], ApiCall::DeleteRewrite(r) if r.domain == "old.lan"));
    assert!(matches!(&calls[1], ApiCall::AddRewrite(r) if r.domain == "a.lan"));
    assert!(matches!(&calls[2], ApiCall::AddRewrite(r) if r.domain == "b.lan"));
    let calls = state().calls_for(
        SyncModule::ParentalControl,
        SyncMode::AdditiveMerge,
        Existing::Nothing,
    );
    assert!(matches!(calls[0], ApiCall::SetParentalControl(true)));
    let calls = state().calls_for(SyncModule::GlobalProtection, SyncMode::AdditiveMerge, Existing::Nothing);
    assert!(matches!(calls[0], ApiCall::SetProtection(true)));
}

#[test]
fn modules_in_order() {
    let names: Vec<&str> = SyncModule::all().iter().map(|m| m.name()).collect();
    assert_eq!(names[0], "User Rules");
    assert_eq!(names[2], "DNS Rewrites");
    assert_eq!(names[11], "Profile Info");
    assert_eq!(names.len(), 12);
}

#[test]
fn result_records_outcomes() {
    let mut r = SyncResult::new();
    assert!(r.success);
    r.record("User Rules", None);
    assert!(r.success);
    r.record("DNS Config", Some("boom".to_string()));
    assert!(!r.success);
    assert_eq!(r.applied_modules, strings(&["User Rules"]));
    assert_eq!(r.failed_modules, strings(&["DNS Config"]));
    assert_eq!(r.errors, strings(&["DNS Config: boom"]));
}

#[test]
fn replica_urls_are_checked() {
    let ok = replica_instance(&ReplicaConfig {
        url: "http://192.168.1.11:3000".to_string(),
        api_key: "key".to_string(),
    })
    .unwrap();
    assert_eq!(ok.name.as_deref(), Some("replica"));
    assert_eq!(ok.url, "http://192.168.1.11:3000");
    assert_eq!(ok.api_key.as_deref(), Some("key"));
    let bad = replica_instance(&ReplicaConfig { url: "not a url".to_string(), api_key: "k".to_string() });
    assert!(matches!(bad, Err(Error::Config(ref m)) if m == "relative URL without a base"));
}

#[test]
fn diff_read_the_other_way_mirrors() {
    let a = state();
    let mut b = a.clone();
    b.safe_browsing = false;
    b.blocked_services = strings(&["facebook"]);
    assert_eq!(a.diff(&b), "Blocked Services: Changed\nSafe Browsing: false -> true");
    assert_eq!(b.diff(&a), "Blocked Services: Changed\nSafe Browsing: true -> false");
}

#[test]
fn push_visits_every_module_and_stops_a_module_at_its_failure() {
    let mut push = Push::new(SyncMode::AdditiveMerge);
    let mut seen = Vec::new();
    loop {
        match push.next() {
            PushAction::Read(module, _) => {
                seen.push(module.name());
                if module == SyncModule::BlockedServices {
                    push.failed("read failed".to_string());
                } else {
                    push.plan(vec![ApiCall::ListFilters, ApiCall::ListClients]);
                }
            }
            PushAction::Plan(module) => {
                seen.push(module.name());
                push.plan(vec![ApiCall::GetStatus, ApiCall::GetStatus]);
            }
            PushAction::Send(_) => {
                if seen.last() == Some(&"TLS Config") {
                    push.failed("boom".to_string());
                }
            }
            PushAction::Done => break,
        }
    }
    assert_eq!(seen.len(), 12);
    let r = push.finish();
    assert!(!r.success);
    assert_eq!(r.failed_modules, strings(&["Blocked Services", "TLS Config"]));
    assert_eq!(r.errors, strings(&["Blocked Services: read failed", "TLS Config: boom"]));
    assert_eq!(r.applied_modules.len(), 10);
    assert_eq!(r.applied_modules[0], "User Rules");
    assert_eq!(
        r.applied_modules,
        strings(&[
            "User Rules",
            "DNS Rewrites",
            "DNS Config",
            "Access List",
            "Query Log Config",
            "Safe Search",
            "Parental Control",
            "Global Protection",
            "DHCP Config",
            "Profile Info",
        ])
    );
    assert!(r.applied_modules.iter().all(|m| !r.failed_modules.contains(m)));
}

#[test]
fn rewrite_plans_are_exact_with_repeated_rewrites() {
    let existing = vec![rw("old.lan", "9.9.9.9"), rw("a.lan", "1.1.1.1"), rw("old.lan", "9.9.9.9")];
    let master = vec![rw("a.lan", "1.1.1.1"), rw("a.lan", "1.1.1.2"), rw("a.lan", "1.1.1.2")];
    let full = plan_rewrites(&existing, &master, SyncMode::FullOverwrite);
    assert_eq!(full.deletions, vec![0, 2]);
    assert_eq!(full.additions, vec![0, 1, 2]);
    let merge = plan_rewrites(&existing, &master, SyncMode::AdditiveMerge);
    assert!(merge.deletions.is_empty());
    assert_eq!(merge.additions, vec![1, 2]);
}

#[test]
fn state_from_reads_takes_metadata_and_safe_browsing_from_status() {
    let s = state();
    let status = Status { version: "v0.107.1".to_string(), language: "en".to_string(), protection_enabled: false };
    let built = SyncState::from_reads(
        s.filtering.clone(),
        s.clients.clone(),
        s.dns.clone(),
        s.blocked_services.clone(),
        s.rewrites.clone(),
        s.access_list.clone(),
        s.query_log_config.clone(),
        s.safe_search.clone(),
        status,
        s.parental_control.clone(),
        s.dhcp.clone(),
        s.tls.clone(),
        s.profile_info.clone(),
        "2026-02-18T12:00:00Z".to_string(),
        Some("nightly".to_string()),
    );
    let m = built.metadata.clone().unwrap();
    assert_eq!(m.version, "v0.107.1");
    assert_eq!(m.timestamp, "2026-02-18T12:00:00Z");
    assert_eq!(m.description, Some("nightly".to_string()));
    assert!(!built.safe_browsing);
    assert_eq!(built.blocked_services, strings(&["youtube"]));
    assert_eq!(built.rewrites.len(), 2);
    assert_eq!(s.diff(&built), "Safe Browsing: false -> true");
}

#[test]
fn background_sync_runs_only_with_replicas() {
    let mut config = AppConfig::default();
    assert!(matches!(background_sync(&config), BackgroundSync::Skip));
    config.instances = vec![InstanceConfig { url: "http://master".to_string(), ..Default::default() }];
    config.replicas = vec![ReplicaConfig { url: "http://r1".to_string(), api_key: "k".to_string() }];
    config.default_sync_mode = "full-overwrite".to_string();
    config.sync_interval_seconds = 30;
    match background_sync(&config) {
        BackgroundSync::Run { master, mode, interval_seconds } => {
            assert_eq!(master.url, "http://master");
            assert_eq!(mode, SyncMode::FullOverwrite);
            assert_eq!(interval_seconds, 30);
        }
        BackgroundSync::Skip => panic!("expected a run"),
    }
}
