//! The `manage_dns` tool: DNS rewrites, upstream servers and the cache.
use vstd::prelude::*;
use crate::adguard::client::{ApiCall, HttpMethod, call_method, call_target};
use crate::adguard::models::{DnsConfig, DnsRewrite};
use crate::error::Error;
use crate::text::str_eq;
use super::{
    Step, ToolRegistry, bool_or, action_of, action_text, is_unknown_action, or_empty, registers, set_bool, set_texts,
    set_u32, text_or_empty, texts_of, texts_or, u32_or, unknown_action,
};

verus! {

/// The tool's name.
pub const NAME: &'static str = "manage_dns";

/// The tool's description.
pub const DESCRIPTION: &'static str = "Manage DNS settings (rewrites, upstream servers, cache).";

/// The tool's input schema, as JSON text.
pub const SCHEMA: &'static str = "{\"type\":\"object\",\"properties\":{\"action\":{\"type\":\"string\",\"description\":\"DNS action to perform\",\"enum\":[\"list_rewrites\",\"add_rewrite\",\"remove_rewrite\",\"get_config\",\"set_config\",\"clear_cache\"]},\"domain\":{\"type\":\"string\",\"description\":\"Domain for rewrite\"},\"answer\":{\"type\":\"string\",\"description\":\"IP/CNAME for rewrite\"},\"upstream_dns\":{\"type\":\"array\",\"items\":{\"type\":\"string\"}},\"bootstrap_dns\":{\"type\":\"array\",\"items\":{\"type\":\"string\"}},\"fallback_dns\":{\"type\":\"array\",\"items\":{\"type\":\"string\"}},\"all_servers\":{\"type\":\"boolean\"},\"fastest_addr\":{\"type\":\"boolean\"},\"cache_size\":{\"type\":\"integer\"},\"cache_ttl_min\":{\"type\":\"integer\"},\"cache_ttl_max\":{\"type\":\"integer\"},\"cache_optimistic\":{\"type\":\"boolean\"}},\"required\":[\"action\"]}";

/// Registers the tool.
pub fn register(registry: &mut ToolRegistry)
    ensures
        registers(*old(registry), *final(registry), NAME@, DESCRIPTION@, SCHEMA@),
{
    registry.register(NAME, DESCRIPTION, String::from_str(SCHEMA));
}

/// The actions of the tool.
#[derive(Debug, Clone, Copy, PartialEq, Eq, Structural)]
pub enum DnsAction {
    ListRewrites,
    AddRewrite,
    RemoveRewrite,
    GetConfig,
    SetConfig,
    ClearCache,
}

/// The action named `a`.
pub open spec fn dns_action_named(a: Seq<char>) -> Option<DnsAction> {
    if a == "list_rewrites"@ {
        Some(DnsAction::ListRewrites)
    } else if a == "add_rewrite"@ {
        Some(DnsAction::AddRewrite)
    } else if a == "remove_rewrite"@ {
        Some(DnsAction::RemoveRewrite)
    } else if a == "get_config"@ {
        Some(DnsAction::GetConfig)
    } else if a == "set_config"@ {
        Some(DnsAction::SetConfig)
    } else if a == "clear_cache"@ {
        Some(DnsAction::ClearCache)
    } else {
        None
    }
}

/// The actions of the DNS tool and the names they are asked for by; any other
/// name asks for no action.
pub proof fn law_dns_action_names(a: Seq<char>)
    ensures
        dns_action_named("list_rewrites"@) == Some(DnsAction::ListRewrites),
        dns_action_named("add_rewrite"@) == Some(DnsAction::AddRewrite),
        dns_action_named("remove_rewrite"@) == Some(DnsAction::RemoveRewrite),
        dns_action_named("get_config"@) == Some(DnsAction::GetConfig),
        dns_action_named("set_config"@) == Some(DnsAction::SetConfig),
        dns_action_named("clear_cache"@) == Some(DnsAction::ClearCache),
        a != "list_rewrites"@ && a != "add_rewrite"@ && a != "remove_rewrite"@ && a != "get_config"@ && a != "set_config"@ && a != "clear_cache"@ ==> dns_action_named(a) is None,
{
    reveal_strlit("list_rewrites");
    reveal_strlit("add_rewrite");
    reveal_strlit("remove_rewrite");
    reveal_strlit("get_config");
    reveal_strlit("set_config");
    reveal_strlit("clear_cache");
    assert("add_rewrite"@.len() == 11);
    assert("add_rewrite"@[0] == 'a');
    assert("clear_cache"@.len() == 11);
    assert("clear_cache"@[0] == 'c');
    assert("get_config"@.len() == 10);
    assert("get_config"@[0] == 'g');
    assert("list_rewrites"@.len() == 13);
    assert("remove_rewrite"@.len() == 14);
    assert("set_config"@.len() == 10);
    assert("set_config"@[0] == 's');
}



impl DnsAction {
    /// The action the `action` argument names; an unknown or missing name
    /// is refused, a missing one as the empty name.
    pub fn parse(arg: Option<&str>) -> (res: Result<DnsAction, Error>)
        ensures
            match dns_action_named(action_of(arg)) {
                Some(a) => res == Ok::<DnsAction, Error>(a),
                None => res matches Err(e) && is_unknown_action(e, action_of(arg)),
            },
    {
        let action = action_text(arg);
        if str_eq(action, "list_rewrites") {
            Ok(DnsAction::ListRewrites)
        } else if str_eq(action, "add_rewrite") {
            Ok(DnsAction::AddRewrite)
        } else if str_eq(action, "remove_rewrite") {
            Ok(DnsAction::RemoveRewrite)
        } else if str_eq(action, "get_config") {
            Ok(DnsAction::GetConfig)
        } else if str_eq(action, "set_config") {
            Ok(DnsAction::SetConfig)
        } else if str_eq(action, "clear_cache") {
            Ok(DnsAction::ClearCache)
        } else {
            Err(unknown_action(action))
        }
    }
}

/// The arguments of a call. An array argument holds, for each item, its
/// text when it is one.
pub struct DnsArgs {
    pub domain: Option<String>,
    pub answer: Option<String>,
    pub upstream_dns: Option<Vec<Option<String>>>,
    pub bootstrap_dns: Option<Vec<Option<String>>>,
    pub fallback_dns: Option<Vec<Option<String>>>,
    pub all_servers: Option<bool>,
    pub fastest_addr: Option<bool>,
    pub cache_size: Option<u64>,
    pub cache_ttl_min: Option<u64>,
    pub cache_ttl_max: Option<u64>,
    pub cache_optimistic: Option<bool>,
}

/// Whether `res` is `current` with each setting that `args` gives
/// replaced, the other settings kept.
pub open spec fn dns_applied(args: DnsArgs, current: DnsConfig, res: DnsConfig) -> bool {
    &&& res.upstream_dns.deep_view() == texts_or(args.upstream_dns, current.upstream_dns.deep_view())
    &&& res.bootstrap_dns.deep_view() == texts_or(args.bootstrap_dns, current.bootstrap_dns.deep_view())
    &&& res.fallback_dns.deep_view() == texts_or(args.fallback_dns, current.fallback_dns.deep_view())
    &&& res.all_servers == bool_or(args.all_servers, current.all_servers)
    &&& res.fastest_addr == bool_or(args.fastest_addr, current.fastest_addr)
    &&& res.cache_size == u32_or(args.cache_size, current.cache_size)
    &&& res.cache_ttl_min == u32_or(args.cache_ttl_min, current.cache_ttl_min)
    &&& res.cache_ttl_max == u32_or(args.cache_ttl_max, current.cache_ttl_max)
    &&& res.cache_optimistic == bool_or(args.cache_optimistic, current.cache_optimistic)
    &&& res.upstream_dns_file == current.upstream_dns_file
    &&& res.fastest_timeout == current.fastest_timeout
    &&& res.upstream_mode == current.upstream_mode
    &&& res.use_private_ptr_resolvers == current.use_private_ptr_resolvers
    &&& res.local_ptr_upstreams == current.local_ptr_upstreams
}

/// Updating the DNS configuration sets each setting from the argument of
/// the same name when it is given (lists as their texts, numbers truncated
/// to 32 bits) and keeps it otherwise; the settings without an argument are
/// kept as they were.
pub proof fn law_dns_settings_follow_their_own_arguments(args: DnsArgs, current: DnsConfig, res: DnsConfig)
    requires
        dns_applied(args, current, res),
    ensures
        args.upstream_dns matches Some(x) ==> res.upstream_dns.deep_view() == texts_of(x@),
        args.upstream_dns is None ==> res.upstream_dns.deep_view() == current.upstream_dns.deep_view(),
        args.bootstrap_dns matches Some(x) ==> res.bootstrap_dns.deep_view() == texts_of(x@),
        args.bootstrap_dns is None ==> res.bootstrap_dns.deep_view() == current.bootstrap_dns.deep_view(),
        args.fallback_dns matches Some(x) ==> res.fallback_dns.deep_view() == texts_of(x@),
        args.fallback_dns is None ==> res.fallback_dns.deep_view() == current.fallback_dns.deep_view(),
        args.all_servers matches Some(x) ==> res.all_servers == x,
        args.all_servers is None ==> res.all_servers == current.all_servers,
        args.fastest_addr matches Some(x) ==> res.fastest_addr == x,
        args.fastest_addr is None ==> res.fastest_addr == current.fastest_addr,
        args.cache_size matches Some(x) ==> res.cache_size == x as u32,
        args.cache_size is None ==> res.cache_size == current.cache_size,
        args.cache_ttl_min matches Some(x) ==> res.cache_ttl_min == x as u32,
        args.cache_ttl_min is None ==> res.cache_ttl_min == current.cache_ttl_min,
        args.cache_ttl_max matches Some(x) ==> res.cache_ttl_max == x as u32,
        args.cache_ttl_max is None ==> res.cache_ttl_max == current.cache_ttl_max,
        args.cache_optimistic matches Some(x) ==> res.cache_optimistic == x,
        args.cache_optimistic is None ==> res.cache_optimistic == current.cache_optimistic,
        res.upstream_dns_file == current.upstream_dns_file,
        res.fastest_timeout == current.fastest_timeout,
        res.upstream_mode == current.upstream_mode,
        res.use_private_ptr_resolvers == current.use_private_ptr_resolvers,
        res.local_ptr_upstreams == current.local_ptr_upstreams,
{
}


impl DnsArgs {
    /// The rewrite the arguments describe; a missing part is empty.
    pub fn rewrite(&self) -> (res: DnsRewrite)
        ensures
            res.domain@ == or_empty(self.domain),
            res.answer@ == or_empty(self.answer),
    {
        DnsRewrite { domain: text_or_empty(&self.domain), answer: text_or_empty(&self.answer) }
    }

    /// `current` with each setting that the arguments give replaced; the
    /// other settings are kept.
    pub fn apply(&self, current: DnsConfig) -> (res: DnsConfig)
        ensures
            dns_applied(*self, current, res),
    {
        DnsConfig {
            upstream_dns: set_texts(&self.upstream_dns, current.upstream_dns),
            upstream_dns_file: current.upstream_dns_file,
            bootstrap_dns: set_texts(&self.bootstrap_dns, current.bootstrap_dns),
            fallback_dns: set_texts(&self.fallback_dns, current.fallback_dns),
            all_servers: set_bool(self.all_servers, current.all_servers),
            fastest_addr: set_bool(self.fastest_addr, current.fastest_addr),
            fastest_timeout: current.fastest_timeout,
            cache_size: set_u32(self.cache_size, current.cache_size),
            cache_ttl_min: set_u32(self.cache_ttl_min, current.cache_ttl_min),
            cache_ttl_max: set_u32(self.cache_ttl_max, current.cache_ttl_max),
            cache_optimistic: set_bool(self.cache_optimistic, current.cache_optimistic),
            upstream_mode: current.upstream_mode,
            use_private_ptr_resolvers: current.use_private_ptr_resolvers,
            local_ptr_upstreams: current.local_ptr_upstreams,
        }
    }
}

/// What the tool does first for `action` with the arguments `args`.
pub open spec fn dns_first_step(action: DnsAction, args: DnsArgs, res: Step) -> bool {
    match action {
        DnsAction::ListRewrites => res matches Step::Show(ApiCall::ListRewrites),
        DnsAction::AddRewrite => res matches Step::Send(ApiCall::AddRewrite(r), t)
            && r.domain@ == or_empty(args.domain) && r.answer@ == or_empty(args.answer)
            && t@ == "Rewrite added"@,
        DnsAction::RemoveRewrite => res matches Step::Send(ApiCall::DeleteRewrite(r), t)
            && r.domain@ == or_empty(args.domain) && r.answer@ == or_empty(args.answer)
            && t@ == "Rewrite removed"@,
        DnsAction::GetConfig => res matches Step::Show(ApiCall::GetDnsInfo),
        DnsAction::ClearCache => res matches Step::Send(ApiCall::ClearDnsCache, t) && t@
            == "DNS cache cleared"@,
        DnsAction::SetConfig => res matches Step::Read(ApiCall::GetDnsInfo),
    }
}

/// Where the first request of each action of the DNS tool goes: the method,
/// the endpoint of the AdGuard Home control API, and the reply where the
/// request is the whole action.
pub proof fn law_dns_actions_reach_their_endpoints(action: DnsAction, args: DnsArgs, res: Step)
    requires
        dns_first_step(action, args, res),
    ensures
        action == DnsAction::ListRewrites ==> (res matches Step::Show(c) && call_method(c) == HttpMethod::Get && call_target(c) == "/control/rewrite/list"@),
        action == DnsAction::AddRewrite ==> (res matches Step::Send(c, t) && call_method(c) == HttpMethod::Post && call_target(c) == "/control/rewrite/add"@ && t@ == "Rewrite added"@ && (c matches ApiCall::AddRewrite(r) && r.domain@ == or_empty(args.domain) && r.answer@ == or_empty(args.answer))),
        action == DnsAction::RemoveRewrite ==> (res matches Step::Send(c, t) && call_method(c) == HttpMethod::Post && call_target(c) == "/control/rewrite/delete"@ && t@ == "Rewrite removed"@ && (c matches ApiCall::DeleteRewrite(r) && r.domain@ == or_empty(args.domain) && r.answer@ == or_empty(args.answer))),
        action == DnsAction::GetConfig ==> (res matches Step::Show(c) && call_method(c) == HttpMethod::Get && call_target(c) == "/control/dns_info"@),
        action == DnsAction::SetConfig ==> (res matches Step::Read(c) && call_method(c) == HttpMethod::Get && call_target(c) == "/control/dns_info"@),
        action == DnsAction::ClearCache ==> (res matches Step::Send(c, t) && call_method(c) == HttpMethod::Post && call_target(c) == "/control/cache_clear"@ && t@ == "DNS cache cleared"@),
{
}


/// What the tool does first for `action`. `set_config` reads the
/// configuration, then goes on with [`set_config`].
pub fn step(action: DnsAction, args: &DnsArgs) -> (res: Step)
    ensures
        dns_first_step(action, *args, res),
{
    match action {
        DnsAction::ListRewrites => Step::Show(ApiCall::ListRewrites),
        DnsAction::AddRewrite => Step::Send(
            ApiCall::AddRewrite(args.rewrite()),
            String::from_str("Rewrite added"),
        ),
        DnsAction::RemoveRewrite => Step::Send(
            ApiCall::DeleteRewrite(args.rewrite()),
            String::from_str("Rewrite removed"),
        ),
        DnsAction::GetConfig => Step::Show(ApiCall::GetDnsInfo),
        DnsAction::SetConfig => Step::Read(ApiCall::GetDnsInfo),
        DnsAction::ClearCache => Step::Send(ApiCall::ClearDnsCache, String::from_str("DNS cache cleared")),
    }
}

/// What `set_config` does once the configuration `current` is read: store
/// it updated by the arguments.
pub fn set_config(args: &DnsArgs, current: DnsConfig) -> (res: Step)
    ensures
        res matches Step::Send(ApiCall::SetDnsConfig(c), t) && t@ == "DNS config updated"@
            && dns_applied(*args, current, c),
{
    Step::Send(ApiCall::SetDnsConfig(args.apply(current)), String::from_str("DNS config updated"))
}

} // verus!
