//! The `manage_protection` tool: global protection, safe search, parental
//! control and TLS.
use vstd::prelude::*;
use crate::adguard::client::{ApiCall, HttpMethod, call_method, call_target};
use crate::adguard::models::{ParentalControlConfig, SafeSearchConfig, TlsConfig};
use crate::error::Error;
use crate::mcp::{ResponseError, INVALID_PARAMS};
use crate::text::{bool_str, bool_text, str_eq};
use super::{
    Step, ToolRegistry, bool_or, action_of, action_text, is_unknown_action, or_empty, registers, text_or_empty, set_bool, set_text, set_u16,
    text_or, u16_or, unknown_action,
};

verus! {

/// The tool's name.
pub const NAME: &'static str = "manage_protection";

/// The tool's description.
pub const DESCRIPTION: &'static str = "Manage protection settings (global, safe search, parental control, TLS).";

/// The tool's input schema, as JSON text.
pub const SCHEMA: &'static str = "{\"type\":\"object\",\"properties\":{\"action\":{\"type\":\"string\",\"description\":\"Protection action to perform\",\"enum\":[\"get_config\",\"set_config\",\"toggle_feature\",\"get_tls_config\",\"set_tls_config\"]},\"feature\":{\"type\":\"string\",\"enum\":[\"global\",\"safe_search\",\"safe_browsing\",\"parental_control\"],\"description\":\"Feature to toggle\"},\"enabled\":{\"type\":\"boolean\",\"description\":\"Toggle state\"},\"safe_search\":{\"type\":\"object\",\"properties\":{\"enabled\":{\"type\":\"boolean\"},\"bing\":{\"type\":\"boolean\"},\"duckduckgo\":{\"type\":\"boolean\"},\"google\":{\"type\":\"boolean\"},\"pixabay\":{\"type\":\"boolean\"},\"yandex\":{\"type\":\"boolean\"},\"youtube\":{\"type\":\"boolean\"}}},\"parental_control\":{\"type\":\"object\",\"properties\":{\"enabled\":{\"type\":\"boolean\"},\"sensitivity\":{\"type\":\"integer\",\"minimum\":0}}},\"server_name\":{\"type\":\"string\"},\"force_https\":{\"type\":\"boolean\"},\"port_https\":{\"type\":\"integer\"},\"port_dns_over_tls\":{\"type\":\"integer\"},\"port_dns_over_quic\":{\"type\":\"integer\"},\"certificate_chain\":{\"type\":\"string\"},\"private_key\":{\"type\":\"string\"},\"certificate_path\":{\"type\":\"string\"},\"private_key_path\":{\"type\":\"string\"}},\"required\":[\"action\"]}";

/// Registers the tool.
pub fn register(registry: &mut ToolRegistry)
    ensures
        registers(*old(registry), *final(registry), NAME@, DESCRIPTION@, SCHEMA@),
{
    registry.register(NAME, DESCRIPTION, String::from_str(SCHEMA));
}

/// The actions of the tool.
#[derive(Debug, Clone, Copy, PartialEq, Eq, Structural)]
pub enum ProtectionAction {
    GetConfig,
    SetConfig,
    ToggleFeature,
    GetTlsConfig,
    SetTlsConfig,
}

/// The action named `a`.
pub open spec fn protection_action_named(a: Seq<char>) -> Option<ProtectionAction> {
    if a == "get_config"@ {
        Some(ProtectionAction::GetConfig)
    } else if a == "set_config"@ {
        Some(ProtectionAction::SetConfig)
    } else if a == "toggle_feature"@ {
        Some(ProtectionAction::ToggleFeature)
    } else if a == "get_tls_config"@ {
        Some(ProtectionAction::GetTlsConfig)
    } else if a == "set_tls_config"@ {
        Some(ProtectionAction::SetTlsConfig)
    } else {
        None
    }
}

/// The actions of the protection tool and the names they are asked for by; any other
/// name asks for no action.
pub proof fn law_protection_action_names(a: Seq<char>)
    ensures
        protection_action_named("get_config"@) == Some(ProtectionAction::GetConfig),
        protection_action_named("set_config"@) == Some(ProtectionAction::SetConfig),
        protection_action_named("toggle_feature"@) == Some(ProtectionAction::ToggleFeature),
        protection_action_named("get_tls_config"@) == Some(ProtectionAction::GetTlsConfig),
        protection_action_named("set_tls_config"@) == Some(ProtectionAction::SetTlsConfig),
        a != "get_config"@ && a != "set_config"@ && a != "toggle_feature"@ && a != "get_tls_config"@ && a != "set_tls_config"@ ==> protection_action_named(a) is None,
{
    reveal_strlit("get_config");
    reveal_strlit("set_config");
    reveal_strlit("toggle_feature");
    reveal_strlit("get_tls_config");
    reveal_strlit("set_tls_config");
    assert("get_config"@.len() == 10);
    assert("get_config"@[0] == 'g');
    assert("get_tls_config"@.len() == 14);
    assert("get_tls_config"@[0] == 'g');
    assert("set_config"@.len() == 10);
    assert("set_config"@[0] == 's');
    assert("set_tls_config"@.len() == 14);
    assert("set_tls_config"@[0] == 's');
    assert("toggle_feature"@.len() == 14);
    assert("toggle_feature"@[0] == 't');
}



impl ProtectionAction {
    /// The action the `action` argument names; an unknown or missing name
    /// is refused, a missing one as the empty name.
    pub fn parse(arg: Option<&str>) -> (res: Result<ProtectionAction, Error>)
        ensures
            match protection_action_named(action_of(arg)) {
                Some(a) => res == Ok::<ProtectionAction, Error>(a),
                None => res matches Err(e) && is_unknown_action(e, action_of(arg)),
            },
    {
        let action = action_text(arg);
        if str_eq(action, "get_config") {
            Ok(ProtectionAction::GetConfig)
        } else if str_eq(action, "set_config") {
            Ok(ProtectionAction::SetConfig)
        } else if str_eq(action, "toggle_feature") {
            Ok(ProtectionAction::ToggleFeature)
        } else if str_eq(action, "get_tls_config") {
            Ok(ProtectionAction::GetTlsConfig)
        } else if str_eq(action, "set_tls_config") {
            Ok(ProtectionAction::SetTlsConfig)
        } else {
            Err(unknown_action(action))
        }
    }
}

/// The `safe_search` argument: each engine switch that it gives.
pub struct SafeSearchArgs {
    pub enabled: Option<bool>,
    pub bing: Option<bool>,
    pub duckduckgo: Option<bool>,
    pub google: Option<bool>,
    pub pixabay: Option<bool>,
    pub yandex: Option<bool>,
    pub youtube: Option<bool>,
}

/// The `parental_control` argument.
pub struct ParentalArgs {
    pub enabled: Option<bool>,
    pub sensitivity: Option<u64>,
}

/// The arguments of a call.
pub struct ProtectionArgs {
    pub feature: Option<String>,
    pub enabled: Option<bool>,
    pub safe_search: Option<SafeSearchArgs>,
    pub parental_control: Option<ParentalArgs>,
    pub server_name: Option<String>,
    pub force_https: Option<bool>,
    pub port_https: Option<u64>,
    pub port_dns_over_tls: Option<u64>,
    pub port_dns_over_quic: Option<u64>,
    pub certificate_chain: Option<String>,
    pub private_key: Option<String>,
    pub certificate_path: Option<String>,
    pub private_key_path: Option<String>,
}

/// Whether `res` is `current` with each switch that `args` gives replaced.
pub open spec fn safe_search_applied(
    args: SafeSearchArgs,
    current: SafeSearchConfig,
    res: SafeSearchConfig,
) -> bool {
    &&& res.enabled == bool_or(args.enabled, current.enabled)
    &&& res.bing == bool_or(args.bing, current.bing)
    &&& res.duckduckgo == bool_or(args.duckduckgo, current.duckduckgo)
    &&& res.google == bool_or(args.google, current.google)
    &&& res.pixabay == bool_or(args.pixabay, current.pixabay)
    &&& res.yandex == bool_or(args.yandex, current.yandex)
    &&& res.youtube == bool_or(args.youtube, current.youtube)
}

/// Whether `res` is `current` with the switch and the sensitivity that
/// `args` gives replaced; the sensitivity is truncated to 32 bits as `as`
/// does.
pub open spec fn parental_applied(
    args: ParentalArgs,
    current: ParentalControlConfig,
    res: ParentalControlConfig,
) -> bool {
    &&& res.enabled == bool_or(args.enabled, current.enabled)
    &&& res.sensitivity == match args.sensitivity {
        Some(s) => Some(s as u32),
        None => current.sensitivity,
    }
}

/// Whether `res` is `current` with each TLS setting that `args` gives
/// replaced; the switch is the `enabled` argument and ports are truncated
/// to 16 bits as `as` does.
pub open spec fn tls_applied(args: ProtectionArgs, current: TlsConfig, res: TlsConfig) -> bool {
    &&& res.enabled == bool_or(args.enabled, current.enabled)
    &&& res.server_name@ == text_or(args.server_name, current.server_name@)
    &&& res.force_https == bool_or(args.force_https, current.force_https)
    &&& res.port_https == u16_or(args.port_https, current.port_https)
    &&& res.port_dns_over_tls == u16_or(args.port_dns_over_tls, current.port_dns_over_tls)
    &&& res.port_dns_over_quic == u16_or(args.port_dns_over_quic, current.port_dns_over_quic)
    &&& res.certificate_chain@ == text_or(args.certificate_chain, current.certificate_chain@)
    &&& res.private_key@ == text_or(args.private_key, current.private_key@)
    &&& res.certificate_path@ == text_or(args.certificate_path, current.certificate_path@)
    &&& res.private_key_path@ == text_or(args.private_key_path, current.private_key_path@)
    &&& res.valid_cert == current.valid_cert
    &&& res.valid_key == current.valid_key
    &&& res.valid_pair == current.valid_pair
}

/// Updating the safe search settings sets each switch (the main one and
/// each search engine's) from the argument of the same name when it is
/// given and keeps it otherwise.
pub proof fn law_safe_search_switches_follow_their_own_arguments(args: SafeSearchArgs, current: SafeSearchConfig, res: SafeSearchConfig)
    requires
        safe_search_applied(args, current, res),
    ensures
        args.enabled matches Some(x) ==> res.enabled == x,
        args.enabled is None ==> res.enabled == current.enabled,
        args.bing matches Some(x) ==> res.bing == x,
        args.bing is None ==> res.bing == current.bing,
        args.duckduckgo matches Some(x) ==> res.duckduckgo == x,
        args.duckduckgo is None ==> res.duckduckgo == current.duckduckgo,
        args.google matches Some(x) ==> res.google == x,
        args.google is None ==> res.google == current.google,
        args.pixabay matches Some(x) ==> res.pixabay == x,
        args.pixabay is None ==> res.pixabay == current.pixabay,
        args.yandex matches Some(x) ==> res.yandex == x,
        args.yandex is None ==> res.yandex == current.yandex,
        args.youtube matches Some(x) ==> res.youtube == x,
        args.youtube is None ==> res.youtube == current.youtube,
{
}

/// Updating the TLS configuration sets each setting from the argument of
/// the same name when it is given (ports truncated to 16 bits) and keeps it
/// otherwise; the validation results are kept.
pub proof fn law_tls_settings_follow_their_own_arguments(args: ProtectionArgs, current: TlsConfig, res: TlsConfig)
    requires
        tls_applied(args, current, res),
    ensures
        args.enabled matches Some(x) ==> res.enabled == x,
        args.enabled is None ==> res.enabled == current.enabled,
        args.server_name matches Some(x) ==> res.server_name@ == x@,
        args.server_name is None ==> res.server_name@ == current.server_name@,
        args.force_https matches Some(x) ==> res.force_https == x,
        args.force_https is None ==> res.force_https == current.force_https,
        args.port_https matches Some(x) ==> res.port_https == x as u16,
        args.port_https is None ==> res.port_https == current.port_https,
        args.port_dns_over_tls matches Some(x) ==> res.port_dns_over_tls == x as u16,
        args.port_dns_over_tls is None ==> res.port_dns_over_tls == current.port_dns_over_tls,
        args.port_dns_over_quic matches Some(x) ==> res.port_dns_over_quic == x as u16,
        args.port_dns_over_quic is None ==> res.port_dns_over_quic == current.port_dns_over_quic,
        args.certificate_chain matches Some(x) ==> res.certificate_chain@ == x@,
        args.certificate_chain is None ==> res.certificate_chain@ == current.certificate_chain@,
        args.private_key matches Some(x) ==> res.private_key@ == x@,
        args.private_key is None ==> res.private_key@ == current.private_key@,
        args.certificate_path matches Some(x) ==> res.certificate_path@ == x@,
        args.certificate_path is None ==> res.certificate_path@ == current.certificate_path@,
        args.private_key_path matches Some(x) ==> res.private_key_path@ == x@,
        args.private_key_path is None ==> res.private_key_path@ == current.private_key_path@,
        res.valid_cert == current.valid_cert,
        res.valid_key == current.valid_key,
        res.valid_pair == current.valid_pair,
{
}

/// Updating the parental control sets its switch from the `enabled`
/// argument and its sensitivity (truncated to 32 bits) from the
/// `sensitivity` argument when they are given, and keeps each otherwise.
pub proof fn law_parental_settings_follow_their_own_arguments(
    args: ParentalArgs,
    current: ParentalControlConfig,
    res: ParentalControlConfig,
)
    requires
        parental_applied(args, current, res),
    ensures
        args.enabled matches Some(x) ==> res.enabled == x,
        args.enabled is None ==> res.enabled == current.enabled,
        args.sensitivity matches Some(x) ==> res.sensitivity == Some(x as u32),
        args.sensitivity is None ==> res.sensitivity == current.sensitivity,
{
}

impl SafeSearchArgs {
    /// `current` with each switch that the argument gives replaced.
    pub fn apply(&self, current: SafeSearchConfig) -> (res: SafeSearchConfig)
        ensures
            safe_search_applied(*self, current, res),
    {
        SafeSearchConfig {
            enabled: set_bool(self.enabled, current.enabled),
            bing: set_bool(self.bing, current.bing),
            duckduckgo: set_bool(self.duckduckgo, current.duckduckgo),
            google: set_bool(self.google, current.google),
            pixabay: set_bool(self.pixabay, current.pixabay),
            yandex: set_bool(self.yandex, current.yandex),
            youtube: set_bool(self.youtube, current.youtube),
        }
    }
}

impl ParentalArgs {
    /// `current` with the switch and sensitivity that the argument gives
    /// replaced.
    pub fn apply(&self, current: ParentalControlConfig) -> (res: ParentalControlConfig)
        ensures
            parental_applied(*self, current, res),
    {
        ParentalControlConfig {
            enabled: set_bool(self.enabled, current.enabled),
            sensitivity: match self.sensitivity {
                Some(s) => Some(s as u32),
                None => current.sensitivity,
            },
        }
    }
}

impl ProtectionArgs {
    /// `current` with each TLS setting that the arguments give replaced.
    pub fn apply_tls(&self, current: TlsConfig) -> (res: TlsConfig)
        ensures
            tls_applied(*self, current, res),
    {
        TlsConfig {
            enabled: set_bool(self.enabled, current.enabled),
            server_name: set_text(&self.server_name, current.server_name),
            force_https: set_bool(self.force_https, current.force_https),
            port_https: set_u16(self.port_https, current.port_https),
            port_dns_over_tls: set_u16(self.port_dns_over_tls, current.port_dns_over_tls),
            port_dns_over_quic: set_u16(self.port_dns_over_quic, current.port_dns_over_quic),
            certificate_chain: set_text(&self.certificate_chain, current.certificate_chain),
            private_key: set_text(&self.private_key, current.private_key),
            certificate_path: set_text(&self.certificate_path, current.certificate_path),
            private_key_path: set_text(&self.private_key_path, current.private_key_path),
            valid_cert: current.valid_cert,
            valid_key: current.valid_key,
            valid_pair: current.valid_pair,
        }
    }
}

/// The call that switches `feature`, if the tool knows it.
pub open spec fn feature_call(feature: Seq<char>, enabled: bool) -> Option<ApiCall> {
    if feature == "global"@ {
        Some(ApiCall::SetProtection(enabled))
    } else if feature == "safe_search"@ {
        Some(ApiCall::SetSafeSearch(enabled))
    } else if feature == "safe_browsing"@ {
        Some(ApiCall::SetSafeBrowsing(enabled))
    } else if feature == "parental_control"@ {
        Some(ApiCall::SetParentalControl(enabled))
    } else {
        None
    }
}

/// Each of the four features names its own switch: `global` the global
/// protection, `safe_search` safe search, `safe_browsing` safe browsing and
/// `parental_control` parental control, each set to the requested state;
/// any other name switches nothing.
pub proof fn law_feature_switches(f: Seq<char>, e: bool)
    ensures
        feature_call("global"@, e) == Some(ApiCall::SetProtection(e)),
        feature_call("safe_search"@, e) == Some(ApiCall::SetSafeSearch(e)),
        feature_call("safe_browsing"@, e) == Some(ApiCall::SetSafeBrowsing(e)),
        feature_call("parental_control"@, e) == Some(ApiCall::SetParentalControl(e)),
        f != "global"@ && f != "safe_search"@ && f != "safe_browsing"@ && f != "parental_control"@
            ==> feature_call(f, e) is None,
{
    reveal_strlit("global");
    reveal_strlit("safe_search");
    reveal_strlit("safe_browsing");
    reveal_strlit("parental_control");
    assert("global"@.len() == 6 && "safe_search"@.len() == 11);
    assert("safe_browsing"@.len() == 13 && "parental_control"@.len() == 16);
}

/// What `toggle_feature` does: switch the feature named by the `feature`
/// argument (empty when absent) to the `enabled` argument (on when
/// absent), replying `Feature '<feature>' set to <enabled>`; an unknown
/// feature is refused with `Unknown feature: <feature>`.
pub fn toggle_feature(args: &ProtectionArgs) -> (res: Result<Step, Error>)
    ensures
        ({
            let f = or_empty(args.feature);
            let e = bool_or(args.enabled, true);
            match feature_call(f, e) {
                Some(c) => res matches Ok(Step::Send(call, t)) && call == c && t@
                    == "Feature '"@ + f + "' set to "@ + bool_text(e),
                None => res matches Err(Error::Mcp(r)) && r.code == INVALID_PARAMS && r.message@
                    == "Unknown feature: "@ + f && r.data is None,
            }
        }),
{
    let feature_text = text_or_empty(&args.feature);
    let feature = feature_text.as_str();
    let enabled = set_bool(args.enabled, true);
    let call = if str_eq(feature, "global") {
        ApiCall::SetProtection(enabled)
    } else if str_eq(feature, "safe_search") {
        ApiCall::SetSafeSearch(enabled)
    } else if str_eq(feature, "safe_browsing") {
        ApiCall::SetSafeBrowsing(enabled)
    } else if str_eq(feature, "parental_control") {
        ApiCall::SetParentalControl(enabled)
    } else {
        let mut msg = String::from_str("Unknown feature: ");
        msg.append(feature);
        return Err(Error::Mcp(ResponseError::new(INVALID_PARAMS, msg)));
    };
    let mut text = String::from_str("Feature '");
    text.append(feature);
    text.append("' set to ");
    text.append(bool_str(enabled));
    Ok(Step::Send(call, text))
}

/// What the tool does first for `action` with the arguments `args`.
pub open spec fn protection_first_step(action: ProtectionAction, args: ProtectionArgs, res: Result<Step, Error>) -> bool {
    match action {
        ProtectionAction::GetConfig => res matches Ok(Step::Read(ApiCall::GetSafeSearchSettings)),
        ProtectionAction::SetConfig => if parts_of(args).len() > 0 {
            res matches Ok(Step::Read(c)) && c == part_read_call(parts_of(args)[0])
        } else {
            res matches Ok(Step::Reply(t)) && t@ == CONFIG_UPDATED@
        },
        ProtectionAction::ToggleFeature => ({
            let f = or_empty(args.feature);
            let e = bool_or(args.enabled, true);
            match feature_call(f, e) {
                Some(c) => res matches Ok(Step::Send(call, t)) && call == c && t@
                    == "Feature '"@ + f + "' set to "@ + bool_text(e),
                None => res matches Err(Error::Mcp(r)) && r.code == INVALID_PARAMS
                    && r.message@ == "Unknown feature: "@ + f && r.data is None,
            }
        }),
        ProtectionAction::GetTlsConfig => res matches Ok(Step::Show(ApiCall::GetTlsStatus)),
        ProtectionAction::SetTlsConfig => res matches Ok(Step::Read(ApiCall::GetTlsStatus)),
    }
}

/// Where the first request of each action of the protection tool goes:
/// the method and the endpoint of the AdGuard Home control API. Toggling a
/// feature switches exactly the named feature: `global` the protection,
/// `safe_search`, `safe_browsing` and `parental_control` their own
/// switches, on or off as the `enabled` argument asks (on when absent); any
/// other feature is refused without a request.
pub proof fn law_protection_actions_reach_their_endpoints(
    action: ProtectionAction,
    args: ProtectionArgs,
    res: Result<Step, Error>,
)
    requires
        protection_first_step(action, args, res),
    ensures
        action == ProtectionAction::GetConfig ==> (res matches Ok(Step::Read(c)) && call_method(c)
            == HttpMethod::Get && call_target(c) == "/control/safesearch/status"@),
        action == ProtectionAction::GetTlsConfig ==> (res matches Ok(Step::Show(c)) && call_method(c)
            == HttpMethod::Get && call_target(c) == "/control/tls/status"@),
        action == ProtectionAction::SetTlsConfig ==> (res matches Ok(Step::Read(c)) && call_method(c)
            == HttpMethod::Get && call_target(c) == "/control/tls/status"@),
        action == ProtectionAction::ToggleFeature && or_empty(args.feature) == "global"@ ==> (res matches Ok(
            Step::Send(c, t),
        ) && call_method(c) == HttpMethod::Post && call_target(c) == "/control/protection"@ && t@ == "Feature '"@
            + "global"@ + "' set to "@ + bool_text(bool_or(args.enabled, true))),
        action == ProtectionAction::ToggleFeature && or_empty(args.feature) == "global"@ ==> (res matches Ok(
            Step::Send(ApiCall::SetProtection(e), _),
        ) && e == bool_or(args.enabled, true)),
        action == ProtectionAction::ToggleFeature && or_empty(args.feature) == "safe_search"@ ==> (res matches Ok(
            Step::Send(c, t),
        ) && call_method(c) == HttpMethod::Post && call_target(c) == "/control/safesearch"@ + (if bool_or(args.enabled, true) {
            "/enable"@
        } else {
            "/disable"@
        }) && t@ == "Feature '"@
            + "safe_search"@ + "' set to "@ + bool_text(bool_or(args.enabled, true))),
        action == ProtectionAction::ToggleFeature && or_empty(args.feature) == "safe_browsing"@ ==> (res matches Ok(
            Step::Send(c, t),
        ) && call_method(c) == HttpMethod::Post && call_target(c) == "/control/safebrowsing"@ + (if bool_or(args.enabled, true) {
            "/enable"@
        } else {
            "/disable"@
        }) && t@ == "Feature '"@
            + "safe_browsing"@ + "' set to "@ + bool_text(bool_or(args.enabled, true))),
        action == ProtectionAction::ToggleFeature && or_empty(args.feature) == "parental_control"@ ==> (res matches Ok(
            Step::Send(c, t),
        ) && call_method(c) == HttpMethod::Post && call_target(c) == "/control/parental"@ + (if bool_or(args.enabled, true) {
            "/enable"@
        } else {
            "/disable"@
        }) && t@ == "Feature '"@
            + "parental_control"@ + "' set to "@ + bool_text(bool_or(args.enabled, true))),
        action == ProtectionAction::ToggleFeature && or_empty(args.feature) != "global"@ && or_empty(
            args.feature,
        ) != "safe_search"@ && or_empty(args.feature) != "safe_browsing"@ && or_empty(args.feature)
            != "parental_control"@ ==> res is Err,
{
    law_feature_switches(or_empty(args.feature), bool_or(args.enabled, true));
}


/// What the tool does first for `action`. `get_config` reads the safe
/// search settings first, then the parental control settings and the
/// status, and shows them. `set_config` reads the first part that
/// [`config_parts`] gives, and goes on to store it and each following part
/// ([`write_safe_search`], [`write_parental`]) before it replies
/// [`CONFIG_UPDATED`]; with no part it replies at once. `set_tls_config`
/// reads the TLS configuration, then goes on with [`set_tls_config`].
pub fn step(action: ProtectionAction, args: &ProtectionArgs) -> (res: Result<Step, Error>)
    ensures
        protection_first_step(action, *args, res),
{
    match action {
        ProtectionAction::GetConfig => Ok(Step::Read(ApiCall::GetSafeSearchSettings)),
        ProtectionAction::SetConfig => {
            let parts = config_parts(args);
            if parts.len() > 0 {
                Ok(Step::Read(parts[0].read_call()))
            } else {
                Ok(Step::Reply(String::from_str(CONFIG_UPDATED)))
            }
        },
        ProtectionAction::ToggleFeature => toggle_feature(args),
        ProtectionAction::GetTlsConfig => Ok(Step::Show(ApiCall::GetTlsStatus)),
        ProtectionAction::SetTlsConfig => Ok(Step::Read(ApiCall::GetTlsStatus)),
    }
}

/// What `set_tls_config` does once the TLS configuration `current` is read:
/// store it updated by the arguments.
pub fn set_tls_config(args: &ProtectionArgs, current: TlsConfig) -> (res: Step)
    ensures
        res matches Step::Send(ApiCall::ConfigureTls(c), t) && t@ == "TLS config updated"@
            && tls_applied(*args, current, c),
{
    Step::Send(ApiCall::ConfigureTls(args.apply_tls(current)), String::from_str("TLS config updated"))
}

/// The reply once `set_config` is done.
pub const CONFIG_UPDATED: &'static str = "Config updated";

/// A part of the protection settings that `set_config` updates.
#[derive(Debug, Clone, Copy, PartialEq, Eq, Structural)]
pub enum ConfigPart {
    SafeSearch,
    Parental,
}

/// The parts that `set_config` updates, in order: the safe search
/// settings when that argument is given, then the parental control when
/// that one is. Each part is read, then written updated; the first failure
/// ends the call.
pub open spec fn parts_of(args: ProtectionArgs) -> Seq<ConfigPart> {
    (if args.safe_search is Some {
        seq![ConfigPart::SafeSearch]
    } else {
        Seq::empty()
    }) + (if args.parental_control is Some {
        seq![ConfigPart::Parental]
    } else {
        Seq::empty()
    })
}

/// The parts that `set_config` updates, in order.
pub fn config_parts(args: &ProtectionArgs) -> (res: Vec<ConfigPart>)
    ensures
        res@ == parts_of(*args),
{
    let mut res: Vec<ConfigPart> = Vec::new();
    if args.safe_search.is_some() {
        res.push(ConfigPart::SafeSearch);
    }
    if args.parental_control.is_some() {
        res.push(ConfigPart::Parental);
    }
    assert(res@ =~= parts_of(*args));
    res
}

/// The call that reads the part `p`.
pub open spec fn part_read_call(p: ConfigPart) -> ApiCall {
    match p {
        ConfigPart::SafeSearch => ApiCall::GetSafeSearchSettings,
        ConfigPart::Parental => ApiCall::GetParentalSettings,
    }
}

impl ConfigPart {
    /// The call that reads the part.
    pub fn read_call(&self) -> (res: ApiCall)
        ensures
            res == part_read_call(*self),
    {
        match self {
            ConfigPart::SafeSearch => ApiCall::GetSafeSearchSettings,
            ConfigPart::Parental => ApiCall::GetParentalSettings,
        }
    }
}

/// The call that stores the safe search settings `current` updated by the
/// `safe_search` argument.
pub fn write_safe_search(args: &ProtectionArgs, current: SafeSearchConfig) -> (res: ApiCall)
    requires
        args.safe_search is Some,
    ensures
        res matches ApiCall::SetSafeSearchSettings(c) && safe_search_applied(
            args.safe_search->0,
            current,
            c,
        ),
{
    match &args.safe_search {
        Some(ss) => ApiCall::SetSafeSearchSettings(ss.apply(current)),
        None => ApiCall::SetSafeSearchSettings(current),
    }
}

/// The call that stores the parental control `current` updated by the
/// `parental_control` argument: only its switch is sent.
pub fn write_parental(args: &ProtectionArgs, current: ParentalControlConfig) -> (res: ApiCall)
    requires
        args.parental_control is Some,
    ensures
        res == ApiCall::SetParentalControl(bool_or(args.parental_control->0.enabled, current.enabled)),
{
    match &args.parental_control {
        Some(pc) => ApiCall::SetParentalControl(pc.apply(current).enabled),
        None => ApiCall::SetParentalControl(current.enabled),
    }
}

} // verus!
