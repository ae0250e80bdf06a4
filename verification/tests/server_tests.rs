use adguardhome_mcp_rs::config::{AppConfig, InstanceConfig};
use adguardhome_mcp_rs::error::Error;
use adguardhome_mcp_rs::mcp::{INTERNAL_ERROR, SERVER_ERROR};
use adguardhome_mcp_rs::server::http::{endpoint_url, is_authorized, token_matches};
use adguardhome_mcp_rs::server::mcp::{
    error_response, initialize_reply, Dispatch, ManageOutcome, McpServer, Transport, MANAGE_TOOLS,
    MANAGE_TOOLS_DESCRIPTION, PROTOCOL_VERSION, SERVER_NAME,
};
use adguardhome_mcp_rs::tools::ToolRegistry;

fn setup() -> McpServer {
    let mut config = AppConfig {
        adguard_host: "localhost".to_string(),
        adguard_port: 80,
        lazy_mode: true,
        ..Default::default()
    };
    config.validate().unwrap();
    let mut registry = ToolRegistry::new(&config);
    adguardhome_mcp_rs::tools::system::register(&mut registry);
    McpServer::new(registry, config)
}

fn names(v: &[&str]) -> Vec<String> {
    v.iter().map(|s| s.to_string()).collect()
}

#[test]
fn test_handle_initialize() {
    let server = setup();
    let resp = server.dispatch("initialize", "", None).unwrap();
    assert!(matches!(resp, Dispatch::Initialize));
    let reply = initialize_reply("0.1.0");
    assert_eq!(reply.protocol_version, "2024-11-05");
    assert_eq!(reply.protocol_version, PROTOCOL_VERSION);
    assert_eq!(reply.server_name, "adguardhome-mcp-rs");
    assert_eq!(reply.server_name, SERVER_NAME);
    assert_eq!(reply.server_version, "0.1.0");
    assert!(reply.tools_list_changed);
}

#[test]
fn test_handle_list_tools() {
    let server = setup();
    match server.dispatch("list_tools", "", None).unwrap() {
        Dispatch::ListTools(tools) => {
            assert!(tools.iter().any(|t| t.name == "manage_tools"));
            // In lazy mode registered tools start disabled: only manage_tools is listed.
            assert_eq!(tools.len(), 1);
            assert_eq!(tools[0].description, MANAGE_TOOLS_DESCRIPTION);
        }
        _ => panic!("expected a listing"),
    }
}

#[test]
fn test_handle_manage_tools_list() {
    let mut server = setup();
    assert!(matches!(
        server.dispatch("call_tool", MANAGE_TOOLS, None).unwrap(),
        Dispatch::ManageTools
    ));
    match server.manage_tools(Some("list"), &Vec::new()).unwrap() {
        ManageOutcome::Listed(entries) => {
            assert_eq!(entries.len(), 1);
            assert_eq!(entries[0].tool.name, "manage_system");
            assert!(!entries[0].enabled);
        }
        _ => panic!("expected a listing"),
    }
}

#[test]
fn test_handle_manage_tools_enable_disable() {
    let mut server = setup();
    server.manage_tools(Some("disable"), &names(&["manage_system"])).unwrap();
    assert!(!server.registry.is_tool_enabled("manage_system"));
    server.manage_tools(Some("enable"), &names(&["manage_system"])).unwrap();
    assert!(server.registry.is_tool_enabled("manage_system"));
}

#[test]
fn test_handle_manage_tools_invalid_action() {
    let mut server = setup();
    let resp = server.manage_tools(Some("invalid"), &Vec::new());
    assert!(matches!(resp, Err(Error::Generic(ref m)) if m == "Invalid or missing 'action' argument"));
    let resp = server.manage_tools(None, &Vec::new());
    assert!(resp.is_err());
}

#[test]
fn test_handle_unknown_method() {
    let server = setup();
    let resp = server.dispatch("unknown", "", None);
    assert!(matches!(resp, Err(Error::Generic(ref m)) if m == "Method not found: unknown"));
    let resp = server.dispatch("tools/list", "", None);
    assert!(matches!(resp, Err(Error::Generic(ref m)) if m == "Method not found: tools/list"));
}

#[test]
fn test_handle_call_tool_with_instance() {
    let mut config = AppConfig::default();
    config.instances = vec![
        InstanceConfig {
            name: Some("primary".to_string()),
            url: "http://primary:80".to_string(),
            ..Default::default()
        },
        InstanceConfig {
            name: Some("secondary".to_string()),
            url: "http://secondary:80".to_string(),
            ..Default::default()
        },
    ];
    config.validate().unwrap();
    let mut registry = ToolRegistry::new(&config);
    adguardhome_mcp_rs::tools::system::register(&mut registry);
    let server = McpServer::new(registry, config);
    match server.dispatch("call_tool", "manage_system", Some("secondary")).unwrap() {
        Dispatch::CallTool { tool, instance } => {
            assert_eq!(tool.name, "manage_system");
            assert_eq!(instance.url, "http://secondary:80");
        }
        _ => panic!("expected a tool call"),
    }
    match server.dispatch("tools/call", "manage_system", Some("0")).unwrap() {
        Dispatch::CallTool { instance, .. } => assert_eq!(instance.url, "http://primary:80"),
        _ => panic!("expected a tool call"),
    }
    let missing = server.dispatch("call_tool", "manage_system", Some("tertiary"));
    assert!(matches!(missing, Err(Error::Config(ref m)) if m == "Instance not found: tertiary"));
}

#[test]
fn dispatch_refuses_disabled_tool() {
    let server = setup();
    let resp = server.dispatch("call_tool", "manage_system", None);
    assert!(
        matches!(resp, Err(Error::Generic(ref m)) if m == "Tool not found or not enabled: manage_system")
    );
}

#[test]
fn manage_tools_counts_and_notifies() {
    let mut server = setup();
    match server.manage_tools(Some("enable"), &names(&["manage_system", "nope", "manage_system"])).unwrap() {
        ManageOutcome::Switched { text, notify } => {
            assert_eq!(text, "Enabled 2 tools.");
            assert!(notify);
        }
        _ => panic!("expected a switch"),
    }
    match server.manage_tools(Some("disable"), &names(&["manage_system", "manage_system"])).unwrap() {
        ManageOutcome::Switched { text, notify } => {
            assert_eq!(text, "Disabled 1 tools.");
            assert!(notify);
        }
        _ => panic!("expected a switch"),
    }
    match server.manage_tools(Some("disable"), &names(&["manage_system"])).unwrap() {
        ManageOutcome::Switched { text, notify } => {
            assert_eq!(text, "Disabled 0 tools.");
            assert!(!notify);
        }
        _ => panic!("expected a switch"),
    }
}

#[test]
fn listing_outside_lazy_mode_has_no_manage_tools() {
    let mut config = AppConfig {
        adguard_host: "localhost".to_string(),
        ..Default::default()
    };
    config.validate().unwrap();
    let mut registry = ToolRegistry::new(&config);
    adguardhome_mcp_rs::tools::system::register(&mut registry);
    adguardhome_mcp_rs::tools::dns::register(&mut registry);
    let server = McpServer::new(registry, config);
    match server.dispatch("list_tools", "", None).unwrap() {
        Dispatch::ListTools(tools) => {
            let listed: Vec<&str> = tools.iter().map(|t| t.name.as_str()).collect();
            assert_eq!(listed, vec!["manage_dns", "manage_system"]);
        }
        _ => panic!("expected a listing"),
    }
    assert!(matches!(
        server.dispatch("call_tool", "manage_tools", None),
        Err(Error::Generic(_))
    ));
}

#[test]
fn error_codes_follow_transport() {
    let e = Error::Config("bad".to_string());
    let stdio = error_response(&e, Transport::Stdio);
    assert_eq!(stdio.code, SERVER_ERROR);
    assert_eq!(stdio.message, "Configuration error: bad");
    let http = error_response(&e, Transport::Http);
    assert_eq!(http.code, INTERNAL_ERROR);
}

#[test]
fn test_http_auth_header() {
    let token = Some("test-token");
    assert!(!is_authorized(token, None, None));
    assert!(is_authorized(token, Some("Bearer test-token"), None));
    assert!(is_authorized(token, None, Some("token=test-token")));
}

#[test]
fn test_http_auth_invalid() {
    let token = Some("test-token");
    assert!(!is_authorized(token, Some("Bearer wrong-token"), None));
    assert!(!is_authorized(token, None, Some("token=wrong-token")));
    assert!(!is_authorized(token, None, None));
}

#[test]
fn test_http_auth_query_param() {
    assert!(is_authorized(Some("test-token"), None, Some("token=test-token")));
}

#[test]
fn auth_query_is_decoded_and_last_value_wins() {
    let token = Some("a b&c");
    assert!(is_authorized(token, None, Some("x=1&token=a+b%26c")));
    assert!(!is_authorized(Some("first"), None, Some("token=first&token=second")));
    assert!(is_authorized(Some("second"), None, Some("token=first&token=second")));
    assert!(is_authorized(None, None, None));
    assert!(!is_authorized(Some("t"), Some("t"), None));
}

#[test]
fn token_matches_uses_last_pair() {
    let pairs = vec![
        ("token".to_string(), "a".to_string()),
        ("other".to_string(), "b".to_string()),
        ("token".to_string(), "c".to_string()),
    ];
    assert!(token_matches(&pairs, "c"));
    assert!(!token_matches(&pairs, "a"));
    assert!(!token_matches(&Vec::new(), ""));
}

#[test]
fn endpoint_url_names_session() {
    assert_eq!(endpoint_url("abc"), "/message?session_id=abc");
}

#[test]
fn enabled_tools_appear_in_listing() {
    let mut server = setup();
    server.manage_tools(Some("enable"), &names(&["manage_system"])).unwrap();
    match server.dispatch("list_tools", "", None).unwrap() {
        Dispatch::ListTools(tools) => {
            let listed: Vec<&str> = tools.iter().map(|t| t.name.as_str()).collect();
            assert_eq!(listed, vec!["manage_system", "manage_tools"]);
        }
        _ => panic!("expected a listing"),
    }
    match server.dispatch("call_tool", "manage_system", None).unwrap() {
        Dispatch::CallTool { tool, instance } => {
            assert_eq!(tool.name, "manage_system");
            assert_eq!(instance.url, "http://localhost:80");
        }
        _ => panic!("expected a tool call"),
    }
}

#[test]
fn listing_is_list_tools_followed_by_manage_tools() {
    let mut server = setup();
    server.manage_tools(Some("enable"), &names(&["manage_system"])).unwrap();
    let registered: Vec<String> = server.registry.list_tools().into_iter().map(|t| t.name).collect();
    match server.dispatch("list_tools", "", None).unwrap() {
        Dispatch::ListTools(tools) => {
            let listed: Vec<String> = tools.into_iter().map(|t| t.name).collect();
            assert_eq!(&listed[..listed.len() - 1], &registered[..]);
            assert_eq!(listed.last().unwrap(), MANAGE_TOOLS);
            assert_eq!(registered, names(&["manage_system"]));
        }
        _ => panic!("expected a listing"),
    }
}
