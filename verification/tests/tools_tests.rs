use adguardhome_mcp_rs::adguard::models::{ParentalControlConfig, SafeSearchConfig};
use adguardhome_mcp_rs::sync::SyncMode;
use adguardhome_mcp_rs::tools::protection::{ConfigPart, ParentalArgs, SafeSearchArgs};
use adguardhome_mcp_rs::tools::sync::{SyncNext, SyncStart};
use adguardhome_mcp_rs::tools::system::RestoreNext;
use adguardhome_mcp_rs::adguard::client::ApiCall;
use adguardhome_mcp_rs::adguard::models::{
    AccessList, AdGuardClientDevice, BlockedService, DhcpLease, DhcpStatus, DnsConfig, Filter,
    FilterCheckResponse, FilteringConfig, QueryLogConfig, QueryLogEntry, QueryLogQuestion,
    StaticLease, Status, TlsConfig, VersionInfo,
};
use adguardhome_mcp_rs::config::{AppConfig, ReplicaConfig};
use adguardhome_mcp_rs::error::Error;
use adguardhome_mcp_rs::mcp::INVALID_PARAMS;
use adguardhome_mcp_rs::sync::SyncResult;
use adguardhome_mcp_rs::tools::clients::{self, ClientsAction, ClientsArgs};
use adguardhome_mcp_rs::tools::dns::{self, DnsAction, DnsArgs};
use adguardhome_mcp_rs::tools::filtering::{self, FilteringAction, FilteringArgs};
use adguardhome_mcp_rs::tools::protection::{self, ProtectionAction, ProtectionArgs};
use adguardhome_mcp_rs::tools::sync::{self, ReplicaArg, SyncArgs};
use adguardhome_mcp_rs::tools::system::{self, SystemAction, SystemArgs};
use adguardhome_mcp_rs::tools::{collect_texts, Step, ToolRegistry};

fn strings(v: &[&str]) -> Vec<String> {
    v.iter().map(|s| s.to_string()).collect()
}

fn items(v: &[&str]) -> Option<Vec<Option<String>>> {
    Some(v.iter().map(|s| Some(s.to_string())).collect())
}

fn dns_args() -> DnsArgs {
    DnsArgs {
        domain: None,
        answer: None,
        upstream_dns: None,
        bootstrap_dns: None,
        fallback_dns: None,
        all_servers: None,
        fastest_addr: None,
        cache_size: None,
        cache_ttl_min: None,
        cache_ttl_max: None,
        cache_optimistic: None,
    }
}

fn filtering_args() -> FilteringArgs {
    FilteringArgs {
        identifier: None,
        name: None,
        url: None,
        new_name: None,
        new_url: None,
        whitelist: None,
        enabled: None,
        rule: None,
        rules: None,
        service_id: None,
        blocked: None,
        domain: None,
        client: None,
    }
}

fn clients_args() -> ClientsArgs {
    ClientsArgs {
        identifier: None,
        name: None,
        old_name: None,
        ids: None,
        use_global_settings: None,
        filtering_enabled: None,
        parental_enabled: None,
        safebrowsing_enabled: None,
        safesearch_enabled: None,
        limit: None,
        allowed_clients: None,
        disallowed_clients: None,
        blocked_hosts: None,
        mac: None,
        ip: None,
        hostname: None,
    }
}

fn protection_args() -> ProtectionArgs {
    ProtectionArgs {
        feature: None,
        enabled: None,
        safe_search: None,
        parental_control: None,
        server_name: None,
        force_https: None,
        port_https: None,
        port_dns_over_tls: None,
        port_dns_over_quic: None,
        certificate_chain: None,
        private_key: None,
        certificate_path: None,
        private_key_path: None,
    }
}

fn system_args() -> SystemArgs {
    SystemArgs {
        time_period: None,
        search: None,
        filter: None,
        limit: None,
        enabled: None,
        interval: None,
        anonymize_client_ip: None,
        allowed_clients: None,
        disallowed_clients: None,
        file_path: None,
        description: None,
    }
}

fn filter(id: u64, name: &str, url: &str, enabled: bool) -> Filter {
    Filter {
        url: url.to_string(),
        name: name.to_string(),
        id,
        enabled,
        last_updated: None,
        rules_count: 0,
    }
}

fn entry(name: &str, reason: &str, status: &str) -> QueryLogEntry {
    QueryLogEntry {
        client: "10.0.0.2".to_string(),
        elapsed_ms: "1.5".to_string(),
        reason: reason.to_string(),
        status: status.to_string(),
        time: "2024-01-01T00:00:00Z".to_string(),
        question: QueryLogQuestion { name: name.to_string(), qtype: "A".to_string() },
    }
}

#[test]
fn tools_register_with_their_metadata() {
    let config = AppConfig::default();
    let mut registry = ToolRegistry::new(&config);
    dns::register(&mut registry);
    protection::register(&mut registry);
    filtering::register(&mut registry);
    clients::register(&mut registry);
    system::register(&mut registry);
    sync::register(&mut registry);
    let names: Vec<String> = registry.list_tools().into_iter().map(|t| t.name).collect();
    assert_eq!(
        names,
        strings(&[
            "manage_clients",
            "manage_dns",
            "manage_filtering",
            "manage_protection",
            "manage_system",
            "sync_instances"
        ])
    );
    let dns_tool = registry.get_tool("manage_dns").unwrap();
    assert_eq!(dns_tool.description, "Manage DNS settings (rewrites, upstream servers, cache).");
    assert!(dns_tool.input_schema.contains("\"list_rewrites\""));
    assert!(registry.check_call("nope").is_err());
}

#[test]
fn unknown_actions_are_refused() {
    let e = DnsAction::parse(Some("explode")).unwrap_err();
    assert!(matches!(e, Error::Mcp(ref r) if r.code == INVALID_PARAMS && r.message == "Unknown action: explode"));
    assert!(matches!(SystemAction::parse(Some("")), Err(Error::Mcp(ref r)) if r.message == "Unknown action: "));
    assert_eq!(DnsAction::parse(Some("set_config")).unwrap(), DnsAction::SetConfig);
    assert_eq!(FilteringAction::parse(Some("check_host")).unwrap(), FilteringAction::CheckHost);
    assert_eq!(ClientsAction::parse(Some("get_activity_report")).unwrap(), ClientsAction::GetActivityReport);
    assert_eq!(ProtectionAction::parse(Some("toggle_feature")).unwrap(), ProtectionAction::ToggleFeature);
    assert_eq!(SystemAction::parse(Some("restart_service")).unwrap(), SystemAction::RestartService);
}

#[test]
fn dns_steps_and_updates() {
    let mut args = dns_args();
    args.domain = Some("example.lan".to_string());
    match dns::step(DnsAction::AddRewrite, &args) {
        Step::Send(ApiCall::AddRewrite(r), t) => {
            assert_eq!(r.domain, "example.lan");
            assert_eq!(r.answer, "");
            assert_eq!(t, "Rewrite added");
        }
        _ => panic!("expected a rewrite"),
    }
    assert!(matches!(dns::step(DnsAction::SetConfig, &args), Step::Read(ApiCall::GetDnsInfo)));
    let mut args = dns_args();
    args.upstream_dns = Some(vec![Some("9.9.9.9".to_string()), None, Some("1.1.1.1".to_string())]);
    args.cache_size = Some(4_294_967_297);
    args.cache_optimistic = Some(true);
    let current = DnsConfig { bootstrap_dns: strings(&["8.8.8.8"]), cache_ttl_min: 5, ..Default::default() };
    let updated = args.apply(current);
    assert_eq!(updated.upstream_dns, strings(&["9.9.9.9", "1.1.1.1"]));
    assert_eq!(updated.bootstrap_dns, strings(&["8.8.8.8"]));
    assert_eq!(updated.cache_size, 1);
    assert_eq!(updated.cache_ttl_min, 5);
    assert!(updated.cache_optimistic);
    assert!(matches!(dns::set_config(&args, DnsConfig::default()), Step::Send(ApiCall::SetDnsConfig(_), ref t) if t == "DNS config updated"));
    assert_eq!(collect_texts(&vec![None, Some("x".to_string())]), strings(&["x"]));
}

#[test]
fn protection_features_and_tls() {
    let mut args = protection_args();
    args.feature = Some("safe_browsing".to_string());
    args.enabled = Some(false);
    match protection::toggle_feature(&args).unwrap() {
        Step::Send(ApiCall::SetSafeBrowsing(false), t) => assert_eq!(t, "Feature 'safe_browsing' set to false"),
        _ => panic!("expected a switch"),
    }
    args.feature = Some("global".to_string());
    args.enabled = None;
    assert!(matches!(protection::toggle_feature(&args).unwrap(), Step::Send(ApiCall::SetProtection(true), _)));
    args.feature = Some("warp".to_string());
    assert!(matches!(protection::toggle_feature(&args), Err(Error::Mcp(ref r)) if r.message == "Unknown feature: warp"));
    let mut args = protection_args();
    args.server_name = Some("dns.lan".to_string());
    args.port_https = Some(70_000);
    let tls = args.apply_tls(TlsConfig { port_dns_over_tls: 853, ..Default::default() });
    assert_eq!(tls.server_name, "dns.lan");
    assert_eq!(tls.port_https, 4464);
    assert_eq!(tls.port_dns_over_tls, 853);
}

#[test]
fn filters_are_found_by_name_url_or_id() {
    let config = FilteringConfig {
        enabled: true,
        interval: 24,
        filters: vec![filter(1, "AdGuard DNS", "https://a/list.txt", true)],
        whitelist_filters: vec![filter(7, "Allow", "https://b/allow.txt", false)],
        user_rules: vec![],
    };
    let mut args = filtering_args();
    args.identifier = Some("7".to_string());
    match filtering::remove_filter(&args, &config) {
        Step::Send(ApiCall::RemoveFilter { url, whitelist }, _) => {
            assert_eq!(url, "https://b/allow.txt");
            assert!(whitelist);
        }
        _ => panic!("expected a removal"),
    }
    args.identifier = Some("AdGuard DNS".to_string());
    args.new_name = Some("Renamed".to_string());
    match filtering::update_filter(&args, &config) {
        Step::Send(ApiCall::UpdateFilter { current_url, new_url, name, whitelist, enabled }, t) => {
            assert_eq!(current_url, "https://a/list.txt");
            assert_eq!(new_url, "https://a/list.txt");
            assert_eq!(name, "Renamed");
            assert!(!whitelist);
            assert!(enabled);
            assert_eq!(t, "Filter updated");
        }
        _ => panic!("expected an update"),
    }
    args.identifier = Some("https://a/list.txt".to_string());
    match filtering::toggle_filter(&args, &config) {
        Step::Send(ApiCall::ToggleFilter { enabled, .. }, t) => {
            assert!(enabled);
            assert_eq!(t, "Filter 'AdGuard DNS' toggled");
        }
        _ => panic!("expected a toggle"),
    }
    args.identifier = Some("missing".to_string());
    assert!(matches!(filtering::toggle_filter(&args, &config), Step::Refuse(ref t) if t == "Filter not found"));
}

#[test]
fn custom_rules_and_services() {
    let mut args = filtering_args();
    args.rule = Some("||ads.example^".to_string());
    match filtering::add_custom_rule(&args, strings(&["a"])) {
        Step::Send(ApiCall::SetUserRules(r), t) => {
            assert_eq!(r, strings(&["a", "||ads.example^"]));
            assert_eq!(t, "Rule added");
        }
        _ => panic!("expected rules"),
    }
    assert!(matches!(filtering::add_custom_rule(&args, strings(&["||ads.example^"])), Step::Reply(ref t) if t == "Rule exists"));
    match filtering::remove_custom_rule(&args, strings(&["x", "||ads.example^", "||ads.example^"])) {
        Step::Send(ApiCall::SetUserRules(r), t) => {
            assert_eq!(r, strings(&["x", "||ads.example^"]));
            assert_eq!(t, "Rule removed");
        }
        _ => panic!("expected rules"),
    }
    assert!(matches!(filtering::remove_custom_rule(&args, strings(&["x"])), Step::Refuse(ref t) if t == "Rule not found"));
    assert_eq!(filtering::rules_text(&strings(&["a", "b"])), "a\nb");

    let mut args = filtering_args();
    args.service_id = Some("youtube".to_string());
    match filtering::toggle_blocked_service(&args, strings(&["tiktok"])) {
        Step::Send(ApiCall::SetBlockedServices(v), _) => assert_eq!(v, strings(&["tiktok", "youtube"])),
        _ => panic!("expected services"),
    }
    args.blocked = Some(false);
    match filtering::toggle_blocked_service(&args, strings(&["youtube", "tiktok", "youtube"])) {
        Step::Send(ApiCall::SetBlockedServices(v), _) => assert_eq!(v, strings(&["tiktok"])),
        _ => panic!("expected services"),
    }
    assert!(matches!(filtering::toggle_blocked_service(&args, strings(&["tiktok"])), Step::Reply(ref t) if t == "Service toggled"));
    let all = vec![
        BlockedService { id: "youtube".to_string(), name: "YouTube".to_string(), icon_svg: None },
        BlockedService { id: "tiktok".to_string(), name: "TikTok".to_string(), icon_svg: None },
    ];
    let states = filtering::service_states(&all, &strings(&["tiktok"]));
    assert!(!states[0].blocked);
    assert!(states[1].blocked);
    let resp = FilterCheckResponse {
        reason: "FilteredBlackList".to_string(),
        filter_id: Some(1),
        rule: Some("||ads.example^".to_string()),
        rules: None,
    };
    assert_eq!(
        filtering::check_host_text("ads.example", &resp),
        "Status for ads.example: FilteredBlackList\nRule: ||ads.example^\n"
    );
}

#[test]
fn clients_devices_and_reports() {
    let mut args = clients_args();
    args.name = Some("laptop".to_string());
    args.ids = items(&["10.0.0.5"]);
    let d = args.device();
    assert_eq!(d.name, "laptop");
    assert_eq!(d.ids, strings(&["10.0.0.5"]));
    assert!(d.use_global_settings && d.filtering_enabled && d.safebrowsing_enabled);
    assert!(!d.parental_enabled && !d.safesearch_enabled);

    let current = AdGuardClientDevice {
        name: "old".to_string(),
        ids: strings(&["10.0.0.9"]),
        use_global_settings: false,
        filtering_enabled: false,
        parental_enabled: true,
        safebrowsing_enabled: false,
        safesearch_enabled: true,
    };
    let mut args = clients_args();
    args.old_name = Some("10.0.0.9".to_string());
    args.filtering_enabled = Some(true);
    match clients::update_client(&args, vec![current]).unwrap() {
        Step::Send(ApiCall::UpdateClient { old_name, device }, t) => {
            assert_eq!(old_name, "10.0.0.9");
            assert_eq!(device.name, "old");
            assert!(device.filtering_enabled && device.parental_enabled);
            assert_eq!(t, "Client updated");
        }
        _ => panic!("expected an update"),
    }
    assert!(clients::update_client(&args, vec![]).is_err());

    let mut args = clients_args();
    args.identifier = Some("10.0.0.2".to_string());
    match clients::step(ClientsAction::GetActivityReport, &args) {
        Step::Read(ApiCall::GetQueryLog { search, filter, limit }) => {
            assert_eq!(search.as_deref(), Some("10.0.0.2"));
            assert!(filter.is_none());
            assert_eq!(limit, Some(50));
        }
        _ => panic!("expected a query log read"),
    }
    let access = args.apply_access(AccessList {
        allowed_clients: strings(&["a"]),
        disallowed_clients: strings(&["b"]),
        blocked_hosts: strings(&["c"]),
    });
    assert_eq!(access.allowed_clients, strings(&["a"]));
}

#[test]
fn activity_report_counts_and_ranks() {
    let es = vec![
        entry("a.com", "NotFilteredNotFound", "NOERROR"),
        entry("b.com", "FilteredBlackList", "NXDOMAIN"),
        entry("b.com", "FilteredBlackList", "NXDOMAIN"),
        entry("c.com", "", "SERVFAIL"),
        entry("b.com", "FilteredBlackList", "NOERROR"),
        entry("d.com", "NotFilteredNotFound", "NOERROR"),
        entry("e.com", "NotFilteredNotFound", "NOERROR"),
        entry("f.com", "NotFilteredNotFound", "NOERROR"),
        entry("f.com", "NotFilteredNotFound", "NOERROR"),
    ];
    assert_eq!(
        clients::activity_report("10.0.0.2", &es),
        "Report for 10.0.0.2: Analyzed=9, Blocked=2\nTop Domains:\n- b.com: 3\n- f.com: 2\n- a.com: 1\n- c.com: 1\n- d.com: 1\n"
    );
    assert_eq!(clients::activity_report("x", &vec![]), "No activity for x");
}

#[test]
fn dhcp_listing() {
    let s = DhcpStatus {
        enabled: true,
        interface_name: "eth0".to_string(),
        v4: None,
        v6: None,
        leases: vec![DhcpLease {
            mac: "aa".to_string(),
            ip: "10.0.0.3".to_string(),
            hostname: "phone".to_string(),
            expires: None,
        }],
        static_leases: vec![StaticLease {
            mac: "bb".to_string(),
            ip: "10.0.0.4".to_string(),
            hostname: "nas".to_string(),
        }],
    };
    assert_eq!(
        clients::dhcp_report(&s),
        "DHCP Enabled: true, Interface: eth0\nDynamic:\n- phone (10.0.0.3) expires Never\nStatic:\n- nas (10.0.0.4) [bb]\n"
    );
}

#[test]
fn system_reports() {
    let status = Status { version: "v0.107.43".to_string(), language: "en".to_string(), protection_enabled: true };
    assert_eq!(system::status_text(&status), "Version: v0.107.43\nProtection: true");
    assert_eq!(system::query_log_report(&vec![]), "No entries found");
    assert_eq!(
        system::query_log_report(&vec![entry("a.com", "NotFilteredNotFound", "NOERROR")]),
        "[2024-01-01T00:00:00Z] a.com -> NOERROR (NotFilteredNotFound, 1.5ms)\n"
    );
    assert_eq!(system::top_blocked_report(&vec![]), "Top Blocked Domains:\nNone found.\n");
    assert_eq!(
        system::top_blocked_report(&vec![vec![("ads.com".to_string(), 12)], vec![("t.com".to_string(), 3)]]),
        "Top Blocked Domains:\n- ads.com: 12\n- t.com: 3\n"
    );
    let mut args = system_args();
    args.limit = Some(10);
    args.search = Some("x".to_string());
    assert!(matches!(
        system::step(SystemAction::GetQueryLog, &args),
        Step::Read(ApiCall::GetQueryLog { limit: Some(10), .. })
    ));
    assert!(matches!(system::step(SystemAction::RestartService, &args), Step::Send(ApiCall::RestartService { hard: false }, ref t) if t == "Restart sent"));
    args.interval = Some(168);
    args.allowed_clients = items(&["10.0.0.1"]);
    let c = args.apply_query_log_config(QueryLogConfig {
        enabled: false,
        interval: 24,
        anonymize_client_ip: true,
        allowed_clients: vec![],
        disallowed_clients: strings(&["z"]),
    });
    assert_eq!(c.interval, 168);
    assert_eq!(c.allowed_clients, strings(&["10.0.0.1"]));
    assert_eq!(c.disallowed_clients, strings(&["z"]));
    assert!(c.anonymize_client_ip);
    let info = VersionInfo {
        version: "v1".to_string(),
        announcement: String::new(),
        announcement_url: String::new(),
        can_update: false,
        new_version: String::new(),
    };
    assert!(system::update_step(&info).is_err());
    assert_eq!(system::backup_file_name("123"), "adguard_backup_123.json");
}

#[test]
fn test_restore_backup_version_mismatch() {
    let r = system::check_restore("v1.0.0", "v0.107.0");
    assert!(matches!(r, Err(Error::Generic(ref m)) if m == "Major version mismatch: Backup is v1.0.0, Target is v0.107.0. Restoration aborted for safety."));
    assert_eq!(system::check_restore("v0.107.0", "0.107.5").unwrap(), false);
    assert_eq!(system::check_restore("v0.106.0", "v0.108.0").unwrap(), true);
    assert_eq!(system::check_restore("garbage", "v9.0.0").unwrap(), false);
    assert_eq!(system::trim_v("vv1.2"), "1.2");
}

#[test]
fn sync_tool_targets_and_reports() {
    let mut config = AppConfig::default();
    config.replicas = vec![ReplicaConfig { url: "http://r1".to_string(), api_key: "k1".to_string() }];
    let args = SyncArgs { mode: None, replicas: None };
    assert_eq!(sync::mode_name(&args, &config), "additive-merge");
    assert_eq!(sync::targets(&args, &config)[0].url, "http://r1");
    let args = SyncArgs {
        mode: Some("full-overwrite".to_string()),
        replicas: Some(vec![
            ReplicaArg { url: Some("http://r2".to_string()), api_key: Some("k2".to_string()) },
            ReplicaArg { url: Some("http://r3".to_string()), api_key: None },
        ]),
    };
    assert_eq!(sync::mode_name(&args, &config), "full-overwrite");
    let t = sync::targets(&args, &config);
    assert_eq!(t.len(), 1);
    assert_eq!(t[0].api_key, "k2");
    let ok = SyncResult { success: true, applied_modules: vec![], failed_modules: vec![], errors: vec![] };
    assert_eq!(sync::synced("http://r2", &ok), "Replica http://r2: Successfully synced.");
    let bad = SyncResult {
        success: false,
        applied_modules: vec![],
        failed_modules: strings(&["DNS Config", "TLS Config"]),
        errors: strings(&["DNS Config: x", "TLS Config: y"]),
    };
    assert_eq!(
        sync::synced("u", &bad),
        "Replica u: Synced with errors. Failed modules: DNS Config, TLS Config. Errors: DNS Config: x; TLS Config: y"
    );
    assert_eq!(sync::unreachable("u", "timeout"), "Failed to connect or push to u: timeout");
    assert_eq!(sync::report(&strings(&["a", "b"])), "a\n    b");
}

#[test]
fn missing_action_is_refused_as_empty() {
    assert!(matches!(DnsAction::parse(None), Err(Error::Mcp(ref r)) if r.code == INVALID_PARAMS && r.message == "Unknown action: "));
    assert!(matches!(ClientsAction::parse(None), Err(Error::Mcp(_))));
}

#[test]
fn protection_set_config_parts() {
    let mut args = protection_args();
    assert!(protection::config_parts(&args).is_empty());
    args.parental_control = Some(ParentalArgs { enabled: Some(false), sensitivity: None });
    args.safe_search = Some(SafeSearchArgs {
        enabled: None,
        bing: Some(false),
        duckduckgo: None,
        google: None,
        pixabay: None,
        yandex: None,
        youtube: None,
    });
    assert_eq!(protection::config_parts(&args), vec![ConfigPart::SafeSearch, ConfigPart::Parental]);
    assert!(matches!(ConfigPart::Parental.read_call(), ApiCall::GetParentalSettings));
    let current = SafeSearchConfig {
        enabled: true,
        bing: true,
        duckduckgo: true,
        google: true,
        pixabay: true,
        yandex: true,
        youtube: true,
    };
    match protection::write_safe_search(&args, current) {
        ApiCall::SetSafeSearchSettings(c) => assert!(c.enabled && !c.bing && c.google),
        _ => panic!("expected safe search"),
    }
    let pc = ParentalControlConfig { enabled: true, sensitivity: Some(13) };
    assert!(matches!(protection::write_parental(&args, pc), ApiCall::SetParentalControl(false)));
}

#[test]
fn restore_steps() {
    assert!(matches!(
        system::restore_step(None, None).unwrap(),
        RestoreNext::Overwrite { mode: SyncMode::FullOverwrite, warn: false }
    ));
    assert!(matches!(system::restore_step(Some("v0.107.0"), None).unwrap(), RestoreNext::ReadStatus));
    assert!(matches!(
        system::restore_step(Some("v0.106.0"), Some("v0.107.0")).unwrap(),
        RestoreNext::Overwrite { warn: true, .. }
    ));
    assert!(system::restore_step(Some("v1.0.0"), Some("v0.107.0")).is_err());
    assert_eq!(system::RESTORED, "Backup restored");
}

#[test]
fn sync_run_reports_each_replica() {
    let config = AppConfig::default();
    match sync::start(&SyncArgs { mode: None, replicas: None }, &config) {
        SyncStart::NoReplicas(t) => assert_eq!(t, sync::NO_REPLICAS),
        _ => panic!("expected no replicas"),
    }
    let args = SyncArgs {
        mode: Some("full-overwrite".to_string()),
        replicas: Some(vec![
            ReplicaArg { url: Some("http://r1:3000".to_string()), api_key: Some("k1".to_string()) },
            ReplicaArg { url: Some("http://r2:3000".to_string()), api_key: Some("k2".to_string()) },
            ReplicaArg { url: Some("bad url".to_string()), api_key: Some("k3".to_string()) },
        ]),
    };
    let mut run = match sync::start(&args, &config) {
        SyncStart::Run(run) => run,
        _ => panic!("expected a run"),
    };
    match run.next() {
        SyncNext::Push { instance, mode } => {
            assert_eq!(instance.url, "http://r1:3000");
            assert_eq!(instance.api_key.as_deref(), Some("k1"));
            assert_eq!(mode, "full-overwrite");
        }
        _ => panic!("expected a push"),
    }
    run.pushed(Ok(SyncResult { success: true, applied_modules: vec![], failed_modules: vec![], errors: vec![] }));
    assert!(matches!(run.next(), SyncNext::Push { .. }));
    run.pushed(Err("timeout".to_string()));
    assert!(matches!(run.next(), SyncNext::Stop(Error::Config(_))));
    let args = SyncArgs {
        mode: None,
        replicas: Some(vec![ReplicaArg { url: Some("http://r1".to_string()), api_key: Some("k".to_string()) }]),
    };
    let mut run = match sync::start(&args, &config) {
        SyncStart::Run(run) => run,
        _ => panic!("expected a run"),
    };
    run.pushed(Err("refused".to_string()));
    match run.next() {
        SyncNext::Done(t) => assert_eq!(t, "Failed to connect or push to http://r1: refused"),
        _ => panic!("expected the report"),
    }
    assert!(matches!(sync::master_failed(&Error::Request("x".to_string())), Error::Generic(ref m) if m == "Request error: x"));
}

#[test]
fn toggling_twice_writes_once_and_rules_stay_unique() {
    let mut args = filtering_args();
    args.service_id = Some("youtube".to_string());
    let after = match filtering::toggle_blocked_service(&args, strings(&["tiktok"])) {
        Step::Send(ApiCall::SetBlockedServices(v), _) => v,
        _ => panic!("expected services"),
    };
    assert!(matches!(filtering::toggle_blocked_service(&args, after), Step::Reply(_)));
    args.rule = Some("r".to_string());
    let rules = match filtering::add_custom_rule(&args, strings(&["a", "b"])) {
        Step::Send(ApiCall::SetUserRules(v), _) => v,
        _ => panic!("expected rules"),
    };
    assert_eq!(rules, strings(&["a", "b", "r"]));
    assert!(matches!(filtering::add_custom_rule(&args, rules), Step::Reply(_)));
}

#[test]
fn every_filtering_action_has_a_first_step() {
    let args = filtering_args();
    assert!(matches!(
        filtering::step(FilteringAction::ListBlockedServices, &args),
        Step::Read(ApiCall::ListAllServices)
    ));
    assert!(matches!(
        filtering::step(FilteringAction::ToggleBlockedService, &args),
        Step::Read(ApiCall::ListBlockedServices)
    ));
    assert!(matches!(
        filtering::step(FilteringAction::AddCustomRule, &args),
        Step::Read(ApiCall::ListFilters)
    ));
}

#[test]
fn every_protection_action_has_a_first_step() {
    let mut args = protection_args();
    assert!(matches!(
        protection::step(ProtectionAction::GetConfig, &args),
        Ok(Step::Read(ApiCall::GetSafeSearchSettings))
    ));
    args.safe_search = None;
    args.parental_control = None;
    assert!(matches!(
        protection::step(ProtectionAction::SetConfig, &args),
        Ok(Step::Reply(ref t)) if t == "Config updated"
    ));
    args.parental_control = Some(ParentalArgs { enabled: Some(true), sensitivity: None });
    assert!(matches!(
        protection::step(ProtectionAction::SetConfig, &args),
        Ok(Step::Read(ApiCall::GetParentalSettings))
    ));
    args.safe_search = Some(SafeSearchArgs {
        enabled: Some(true),
        bing: None,
        duckduckgo: None,
        google: None,
        pixabay: None,
        yandex: None,
        youtube: None,
    });
    assert!(matches!(
        protection::step(ProtectionAction::SetConfig, &args),
        Ok(Step::Read(ApiCall::GetSafeSearchSettings))
    ));
}
