//! The `manage_filtering` tool: filter lists, custom rules, blocked
//! services and the filtering debugger.
use vstd::prelude::*;
use crate::adguard::client::{ApiCall, HttpMethod, call_method, call_target};
use crate::adguard::models::{BlockedService, Filter, FilterCheckResponse, FilteringConfig};
use crate::error::Error;
use crate::text::{
    clone_opt_string, clone_strings, contains_string, decimal, decimal_string, join_strings,
    position_of, seq_join, str_eq,
};
use super::{
    Step, ToolRegistry, bool_or, collect_texts, action_of, action_text, is_unknown_action, or_empty, registers, set_bool,
    set_text, text_or, text_or_empty, texts_of, unknown_action,
};

verus! {

/// The tool's name.
pub const NAME: &'static str = "manage_filtering";

/// The tool's description.
pub const DESCRIPTION: &'static str = "Manage filtering (lists, custom rules, blocked services, debugger).";

/// The tool's input schema, as JSON text.
pub const SCHEMA: &'static str = "{\"type\":\"object\",\"properties\":{\"action\":{\"type\":\"string\",\"description\":\"Filtering action to perform\",\"enum\":[\"list_filters\",\"add_filter\",\"remove_filter\",\"update_filter\",\"toggle_filter\",\"list_custom_rules\",\"set_custom_rules\",\"add_custom_rule\",\"remove_custom_rule\",\"list_blocked_services\",\"toggle_blocked_service\",\"check_host\"]},\"identifier\":{\"type\":\"string\",\"description\":\"Filter list Name, ID, or URL\"},\"name\":{\"type\":\"string\",\"description\":\"Filter list name\"},\"url\":{\"type\":\"string\",\"description\":\"Filter list URL\"},\"new_name\":{\"type\":\"string\"},\"new_url\":{\"type\":\"string\"},\"whitelist\":{\"type\":\"boolean\",\"default\":false},\"enabled\":{\"type\":\"boolean\"},\"rule\":{\"type\":\"string\",\"description\":\"Custom rule text\"},\"rules\":{\"type\":\"array\",\"items\":{\"type\":\"string\"}},\"service_id\":{\"type\":\"string\",\"description\":\"Service ID (e.g., 'youtube')\"},\"blocked\":{\"type\":\"boolean\"},\"domain\":{\"type\":\"string\"},\"client\":{\"type\":\"string\",\"description\":\"Optional client IP/Name\"}},\"required\":[\"action\"]}";

/// Registers the tool.
pub fn register(registry: &mut ToolRegistry)
    ensures
        registers(*old(registry), *final(registry), NAME@, DESCRIPTION@, SCHEMA@),
{
    registry.register(NAME, DESCRIPTION, String::from_str(SCHEMA));
}

/// The actions of the tool.
#[derive(Debug, Clone, Copy, PartialEq, Eq, Structural)]
pub enum FilteringAction {
    ListFilters,
    AddFilter,
    RemoveFilter,
    UpdateFilter,
    ToggleFilter,
    ListCustomRules,
    SetCustomRules,
    AddCustomRule,
    RemoveCustomRule,
    ListBlockedServices,
    ToggleBlockedService,
    CheckHost,
}

/// The action named `a`.
pub open spec fn filtering_action_named(a: Seq<char>) -> Option<FilteringAction> {
    if a == "list_filters"@ {
        Some(FilteringAction::ListFilters)
    } else if a == "add_filter"@ {
        Some(FilteringAction::AddFilter)
    } else if a == "remove_filter"@ {
        Some(FilteringAction::RemoveFilter)
    } else if a == "update_filter"@ {
        Some(FilteringAction::UpdateFilter)
    } else if a == "toggle_filter"@ {
        Some(FilteringAction::ToggleFilter)
    } else if a == "list_custom_rules"@ {
        Some(FilteringAction::ListCustomRules)
    } else if a == "set_custom_rules"@ {
        Some(FilteringAction::SetCustomRules)
    } else if a == "add_custom_rule"@ {
        Some(FilteringAction::AddCustomRule)
    } else if a == "remove_custom_rule"@ {
        Some(FilteringAction::RemoveCustomRule)
    } else if a == "list_blocked_services"@ {
        Some(FilteringAction::ListBlockedServices)
    } else if a == "toggle_blocked_service"@ {
        Some(FilteringAction::ToggleBlockedService)
    } else if a == "check_host"@ {
        Some(FilteringAction::CheckHost)
    } else {
        None
    }
}

/// The actions of the filtering tool and the names they are asked for by; any other
/// name asks for no action.
pub proof fn law_filtering_action_names(a: Seq<char>)
    ensures
        filtering_action_named("list_filters"@) == Some(FilteringAction::ListFilters),
        filtering_action_named("add_filter"@) == Some(FilteringAction::AddFilter),
        filtering_action_named("remove_filter"@) == Some(FilteringAction::RemoveFilter),
        filtering_action_named("update_filter"@) == Some(FilteringAction::UpdateFilter),
        filtering_action_named("toggle_filter"@) == Some(FilteringAction::ToggleFilter),
        filtering_action_named("list_custom_rules"@) == Some(FilteringAction::ListCustomRules),
        filtering_action_named("set_custom_rules"@) == Some(FilteringAction::SetCustomRules),
        filtering_action_named("add_custom_rule"@) == Some(FilteringAction::AddCustomRule),
        filtering_action_named("remove_custom_rule"@) == Some(FilteringAction::RemoveCustomRule),
        filtering_action_named("list_blocked_services"@) == Some(FilteringAction::ListBlockedServices),
        filtering_action_named("toggle_blocked_service"@) == Some(FilteringAction::ToggleBlockedService),
        filtering_action_named("check_host"@) == Some(FilteringAction::CheckHost),
        a != "list_filters"@ && a != "add_filter"@ && a != "remove_filter"@ && a != "update_filter"@ && a != "toggle_filter"@ && a != "list_custom_rules"@ && a != "set_custom_rules"@ && a != "add_custom_rule"@ && a != "remove_custom_rule"@ && a != "list_blocked_services"@ && a != "toggle_blocked_service"@ && a != "check_host"@ ==> filtering_action_named(a) is None,
{
    reveal_strlit("list_filters");
    reveal_strlit("add_filter");
    reveal_strlit("remove_filter");
    reveal_strlit("update_filter");
    reveal_strlit("toggle_filter");
    reveal_strlit("list_custom_rules");
    reveal_strlit("set_custom_rules");
    reveal_strlit("add_custom_rule");
    reveal_strlit("remove_custom_rule");
    reveal_strlit("list_blocked_services");
    reveal_strlit("toggle_blocked_service");
    reveal_strlit("check_host");
    assert("add_custom_rule"@.len() == 15);
    assert("add_filter"@.len() == 10);
    assert("add_filter"@[0] == 'a');
    assert("check_host"@.len() == 10);
    assert("check_host"@[0] == 'c');
    assert("list_blocked_services"@.len() == 21);
    assert("list_custom_rules"@.len() == 17);
    assert("list_filters"@.len() == 12);
    assert("remove_custom_rule"@.len() == 18);
    assert("remove_filter"@.len() == 13);
    assert("remove_filter"@[0] == 'r');
    assert("set_custom_rules"@.len() == 16);
    assert("toggle_blocked_service"@.len() == 22);
    assert("toggle_filter"@.len() == 13);
    assert("toggle_filter"@[0] == 't');
    assert("update_filter"@.len() == 13);
    assert("update_filter"@[0] == 'u');
}



impl FilteringAction {
    /// The action the `action` argument names; an unknown or missing name
    /// is refused, a missing one as the empty name.
    pub fn parse(arg: Option<&str>) -> (res: Result<FilteringAction, Error>)
        ensures
            match filtering_action_named(action_of(arg)) {
                Some(a) => res == Ok::<FilteringAction, Error>(a),
                None => res matches Err(e) && is_unknown_action(e, action_of(arg)),
            },
    {
        let action = action_text(arg);
        if str_eq(action, "list_filters") {
            Ok(FilteringAction::ListFilters)
        } else if str_eq(action, "add_filter") {
            Ok(FilteringAction::AddFilter)
        } else if str_eq(action, "remove_filter") {
            Ok(FilteringAction::RemoveFilter)
        } else if str_eq(action, "update_filter") {
            Ok(FilteringAction::UpdateFilter)
        } else if str_eq(action, "toggle_filter") {
            Ok(FilteringAction::ToggleFilter)
        } else if str_eq(action, "list_custom_rules") {
            Ok(FilteringAction::ListCustomRules)
        } else if str_eq(action, "set_custom_rules") {
            Ok(FilteringAction::SetCustomRules)
        } else if str_eq(action, "add_custom_rule") {
            Ok(FilteringAction::AddCustomRule)
        } else if str_eq(action, "remove_custom_rule") {
            Ok(FilteringAction::RemoveCustomRule)
        } else if str_eq(action, "list_blocked_services") {
            Ok(FilteringAction::ListBlockedServices)
        } else if str_eq(action, "toggle_blocked_service") {
            Ok(FilteringAction::ToggleBlockedService)
        } else if str_eq(action, "check_host") {
            Ok(FilteringAction::CheckHost)
        } else {
            Err(unknown_action(action))
        }
    }
}

/// The arguments of a call. `rules` holds, for each item, its text when it
/// is one.
pub struct FilteringArgs {
    pub identifier: Option<String>,
    pub name: Option<String>,
    pub url: Option<String>,
    pub new_name: Option<String>,
    pub new_url: Option<String>,
    pub whitelist: Option<bool>,
    pub enabled: Option<bool>,
    pub rule: Option<String>,
    pub rules: Option<Vec<Option<String>>>,
    pub service_id: Option<String>,
    pub blocked: Option<bool>,
    pub domain: Option<String>,
    pub client: Option<String>,
}

/// Whether the filter `f` is the one `id` designates: by name, by URL or
/// by its number written in decimal.
pub open spec fn filter_matches(f: Filter, id: Seq<char>) -> bool {
    f.name@ == id || f.url@ == id || decimal(f.id as nat) == id
}

/// The index of the first filter of `fs` that `id` designates.
pub open spec fn first_match(fs: Seq<Filter>, id: Seq<char>) -> Option<int> {
    if exists|i: int| 0 <= i < fs.len() && filter_matches(fs[i], id) {
        Some(
            choose|i: int|
                0 <= i < fs.len() && filter_matches(fs[i], id) && forall|j: int|
                    0 <= j < i ==> !filter_matches(fs[j], id),
        )
    } else {
        None
    }
}

/// The filter `id` designates: the first of the block lists, else the
/// first of the allow lists.
pub open spec fn located_filter(c: FilteringConfig, id: Seq<char>) -> Option<Filter> {
    match first_match(c.filters@, id) {
        Some(i) => Some(c.filters@[i]),
        None => match first_match(c.whitelist_filters@, id) {
            Some(j) => Some(c.whitelist_filters@[j]),
            None => None,
        },
    }
}

/// Whether an allow list of `c` has the URL `url`.
pub open spec fn in_allow_lists(c: FilteringConfig, url: Seq<char>) -> bool {
    exists|k: int| 0 <= k < c.whitelist_filters@.len() && c.whitelist_filters@[k].url@ == url
}

/// Whether `f` matches `id`.
fn matches_filter(f: &Filter, id: &str) -> (res: bool)
    ensures
        res == filter_matches(*f, id@),
{
    str_eq(f.name.as_str(), id) || str_eq(f.url.as_str(), id) || str_eq(
        decimal_string(f.id).as_str(),
        id,
    )
}

/// The index of the first filter of `fs` that `id` designates.
fn first_matching(fs: &Vec<Filter>, id: &str) -> (res: Option<usize>)
    ensures
        match res {
            Some(i) => first_match(fs@, id@) == Some(i as int) && i < fs@.len(),
            None => first_match(fs@, id@) is None,
        },
{
    let n = fs.len();
    let mut i: usize = 0;
    while i < n
        invariant
            n == fs@.len(),
            0 <= i <= n,
            forall|j: int| 0 <= j < i ==> !filter_matches(fs@[j], id@),
        decreases n - i,
    {
        if matches_filter(&fs[i], id) {
            proof {
                let k = i as int;
                let c = choose|c: int|
                    0 <= c < fs@.len() && filter_matches(fs@[c], id@) && forall|j: int|
                        0 <= j < c ==> !filter_matches(fs@[j], id@);
                assert(0 <= c < fs@.len() && filter_matches(fs@[c], id@) && forall|j: int|
                    0 <= j < c ==> !filter_matches(fs@[j], id@));
                if c < k {
                    assert(!filter_matches(fs@[c], id@));
                }
                if k < c {
                    assert(!filter_matches(fs@[k], id@));
                }
            }
            return Some(i);
        }
        i = i + 1;
    }
    None
}

/// The filter `id` designates, with whether its URL is that of an allow
/// list.
fn locate<'a>(c: &'a FilteringConfig, id: &str) -> (res: Option<(&'a Filter, bool)>)
    ensures
        match res {
            Some((f, white)) => located_filter(*c, id@) == Some(*f) && white == in_allow_lists(
                *c,
                f.url@,
            ),
            None => located_filter(*c, id@) is None,
        },
{
    let f = match first_matching(&c.filters, id) {
        Some(i) => &c.filters[i],
        None => match first_matching(&c.whitelist_filters, id) {
            Some(j) => &c.whitelist_filters[j],
            None => {
                return None;
            },
        },
    };
    let n = c.whitelist_filters.len();
    let mut k: usize = 0;
    while k < n
        invariant
            n == c.whitelist_filters@.len(),
            0 <= k <= n,
            located_filter(*c, id@) == Some(*f),
            forall|j: int| 0 <= j < k ==> c.whitelist_filters@[j].url@ != f.url@,
        decreases n - k,
    {
        if c.whitelist_filters[k].url == f.url {
            assert(c.whitelist_filters@[k as int].url@ == f.url@);
            return Some((f, true));
        }
        k = k + 1;
    }
    Some((f, false))
}

/// What `remove_filter` does once the filter configuration `c` is read:
/// remove the list that the `identifier` argument designates, or refuse
/// when there is none.
pub fn remove_filter(args: &FilteringArgs, c: &FilteringConfig) -> (res: Step)
    ensures
        match located_filter(*c, or_empty(args.identifier)) {
            Some(f) => res matches Step::Send(ApiCall::RemoveFilter { url, whitelist }, t) && url@
                == f.url@ && whitelist == in_allow_lists(*c, f.url@) && t@ == "Filter removed"@,
            None => res matches Step::Refuse(t) && t@ == "Filter not found"@,
        },
{
    let id = text_or_empty(&args.identifier);
    match locate(c, id.as_str()) {
        Some((f, white)) => Step::Send(
            ApiCall::RemoveFilter { url: f.url.clone(), whitelist: white },
            String::from_str("Filter removed"),
        ),
        None => Step::Refuse(String::from_str("Filter not found")),
    }
}

/// What `update_filter` does once the filter configuration `c` is read:
/// rename, move or switch the list that the `identifier` argument
/// designates, keeping what the arguments do not give, or refuse when
/// there is none.
pub fn update_filter(args: &FilteringArgs, c: &FilteringConfig) -> (res: Step)
    ensures
        match located_filter(*c, or_empty(args.identifier)) {
            Some(f) => res matches Step::Send(
                ApiCall::UpdateFilter { current_url, new_url, name, whitelist, enabled },
                t,
            ) && current_url@ == f.url@ && new_url@ == text_or(args.new_url, f.url@) && name@
                == text_or(args.new_name, f.name@) && whitelist == in_allow_lists(*c, f.url@)
                && enabled == bool_or(args.enabled, f.enabled) && t@ == "Filter updated"@,
            None => res matches Step::Refuse(t) && t@ == "Filter not found"@,
        },
{
    let id = text_or_empty(&args.identifier);
    match locate(c, id.as_str()) {
        Some((f, white)) => Step::Send(
            ApiCall::UpdateFilter {
                current_url: f.url.clone(),
                new_url: set_text(&args.new_url, f.url.clone()),
                name: set_text(&args.new_name, f.name.clone()),
                whitelist: white,
                enabled: set_bool(args.enabled, f.enabled),
            },
            String::from_str("Filter updated"),
        ),
        None => Step::Refuse(String::from_str("Filter not found")),
    }
}

/// What `toggle_filter` does once the filter configuration `c` is read:
/// switch the list that the `identifier` argument designates to the
/// `enabled` argument (on when absent), or refuse when there is none.
pub fn toggle_filter(args: &FilteringArgs, c: &FilteringConfig) -> (res: Step)
    ensures
        match located_filter(*c, or_empty(args.identifier)) {
            Some(f) => res matches Step::Send(ApiCall::ToggleFilter { url, name, enabled }, t)
                && url@ == f.url@ && name@ == f.name@ && enabled == bool_or(args.enabled, true)
                && t@ == "Filter '"@ + f.name@ + "' toggled"@,
            None => res matches Step::Refuse(t) && t@ == "Filter not found"@,
        },
{
    let id = text_or_empty(&args.identifier);
    match locate(c, id.as_str()) {
        Some((f, _)) => {
            let mut text = String::from_str("Filter '");
            text.append(f.name.as_str());
            text.append("' toggled");
            Step::Send(
                ApiCall::ToggleFilter {
                    url: f.url.clone(),
                    name: f.name.clone(),
                    enabled: set_bool(args.enabled, true),
                },
                text,
            )
        },
        None => Step::Refuse(String::from_str("Filter not found")),
    }
}

/// The custom rules as the tool lists them: one per line.
pub fn rules_text(rules: &Vec<String>) -> (res: String)
    ensures
        res@ == seq_join(rules.deep_view(), "\n"@),
{
    join_strings(rules, "\n")
}

/// `rules` with `rule` added at the end, when it is not there yet.
pub open spec fn rules_added(rules: Seq<Seq<char>>, rule: Seq<char>) -> Option<Seq<Seq<char>>> {
    if rules.contains(rule) {
        None
    } else {
        Some(rules.push(rule))
    }
}

/// `rules` without the first occurrence of `rule`, when there is one.
pub open spec fn rules_removed(rules: Seq<Seq<char>>, rule: Seq<char>) -> Option<Seq<Seq<char>>> {
    if rules.contains(rule) {
        let p = choose|p: int|
            0 <= p < rules.len() && rules[p] == rule && forall|j: int|
                0 <= j < p ==> rules[j] != rule;
        Some(rules.remove(p))
    } else {
        None
    }
}

/// What `add_custom_rule` does once the custom rules are read: store them
/// with the `rule` argument added, or reply `Rule exists` when it is there.
pub fn add_custom_rule(args: &FilteringArgs, rules: Vec<String>) -> (res: Step)
    ensures
        match rules_added(rules.deep_view(), or_empty(args.rule)) {
            Some(rs) => res matches Step::Send(ApiCall::SetUserRules(v), t) && v.deep_view() == rs
                && t@ == "Rule added"@,
            None => res matches Step::Reply(t) && t@ == "Rule exists"@,
        },
{
    let rule = text_or_empty(&args.rule);
    if contains_string(&rules, &rule) {
        return Step::Reply(String::from_str("Rule exists"));
    }
    let mut rules = rules;
    let ghost before = rules.deep_view();
    rules.push(rule);
    assert(rules.deep_view() =~= before.push(or_empty(args.rule)));
    Step::Send(ApiCall::SetUserRules(rules), String::from_str("Rule added"))
}

/// What `remove_custom_rule` does once the custom rules are read: store
/// them without the first occurrence of the `rule` argument, or refuse with
/// `Rule not found`.
pub fn remove_custom_rule(args: &FilteringArgs, rules: Vec<String>) -> (res: Step)
    ensures
        match rules_removed(rules.deep_view(), or_empty(args.rule)) {
            Some(rs) => res matches Step::Send(ApiCall::SetUserRules(v), t) && v.deep_view() == rs
                && t@ == "Rule removed"@,
            None => res matches Step::Refuse(t) && t@ == "Rule not found"@,
        },
{
    let rule = text_or_empty(&args.rule);
    match position_of(&rules, &rule) {
        Some(p) => {
            let ghost rs = rules.deep_view();
            proof {
                assert(rs[p as int] == rule@);
                let c = choose|c: int|
                    0 <= c < rs.len() && rs[c] == rule@ && forall|j: int|
                        0 <= j < c ==> rs[j] != rule@;
                assert(0 <= c < rs.len() && rs[c] == rule@ && forall|j: int|
                    0 <= j < c ==> rs[j] != rule@);
                if c < p {
                    assert(rs[c] != rule@);
                }
                if p < c {
                    assert(rs[p as int] != rule@);
                }
            }
            let mut rules = rules;
            rules.remove(p);
            assert(rules.deep_view() =~= rs.remove(p as int));
            Step::Send(ApiCall::SetUserRules(rules), String::from_str("Rule removed"))
        },
        None => Step::Refuse(String::from_str("Rule not found")),
    }
}

/// A service as `list_blocked_services` shows it.
pub struct ServiceState {
    pub id: String,
    pub name: String,
    pub blocked: bool,
}

/// Each service of `all`, in order, with whether `blocked` lists its id.
pub fn service_states(all: &Vec<BlockedService>, blocked: &Vec<String>) -> (res: Vec<ServiceState>)
    ensures
        res@.len() == all@.len(),
        forall|i: int|
            0 <= i < all@.len() ==> (#[trigger] res@[i]).id@ == all@[i].id@ && res@[i].name@
                == all@[i].name@ && res@[i].blocked == blocked.deep_view().contains(all@[i].id@),
{
    let mut res: Vec<ServiceState> = Vec::new();
    let n = all.len();
    let mut i: usize = 0;
    while i < n
        invariant
            n == all@.len(),
            0 <= i <= n,
            res@.len() == i,
            forall|k: int|
                0 <= k < i ==> (#[trigger] res@[k]).id@ == all@[k].id@ && res@[k].name@
                    == all@[k].name@ && res@[k].blocked == blocked.deep_view().contains(
                    all@[k].id@,
                ),
        decreases n - i,
    {
        let s = &all[i];
        res.push(
            ServiceState {
                id: s.id.clone(),
                name: s.name.clone(),
                blocked: contains_string(blocked, &s.id),
            },
        );
        i = i + 1;
    }
    res
}

/// `s` without any occurrence of `x`, the rest in order.
pub open spec fn without_item(s: Seq<Seq<char>>, x: Seq<char>) -> Seq<Seq<char>>
    decreases s.len(),
{
    if s.len() == 0 {
        s
    } else if s.last() == x {
        without_item(s.drop_last(), x)
    } else {
        without_item(s.drop_last(), x).push(s.last())
    }
}

/// The blocked services after the service `id` is blocked (`block`) or
/// unblocked, when that changes them.
pub open spec fn services_after(current: Seq<Seq<char>>, id: Seq<char>, block: bool) -> Option<
    Seq<Seq<char>>,
> {
    if block && !current.contains(id) {
        Some(current.push(id))
    } else if !block && current.contains(id) {
        Some(without_item(current, id))
    } else {
        None
    }
}

/// `v` without any occurrence of `x`.
fn remove_all(v: &Vec<String>, x: &String) -> (res: Vec<String>)
    ensures
        res.deep_view() == without_item(v.deep_view(), x@),
{
    let mut res: Vec<String> = Vec::new();
    let n = v.len();
    let mut i: usize = 0;
    while i < n
        invariant
            n == v.len(),
            0 <= i <= n,
            res.deep_view() == without_item(v.deep_view().take(i as int), x@),
        decreases n - i,
    {
        assert(v.deep_view().take(i + 1).drop_last() =~= v.deep_view().take(i as int));
        if v[i] != *x {
            let ghost before = res.deep_view();
            res.push(v[i].clone());
            assert(res.deep_view() =~= before.push(v.deep_view()[i as int]));
        }
        i = i + 1;
    }
    assert(v.deep_view().take(n as int) =~= v.deep_view());
    res
}

/// What `toggle_blocked_service` does once the blocked services `current`
/// are read: block the `service_id` argument (`blocked`, on when absent) or
/// unblock it, storing the list only when that changes it; the reply is
/// `Service toggled` either way.
pub fn toggle_blocked_service(args: &FilteringArgs, current: Vec<String>) -> (res: Step)
    ensures
        match services_after(
            current.deep_view(),
            or_empty(args.service_id),
            bool_or(args.blocked, true),
        ) {
            Some(s) => res matches Step::Send(ApiCall::SetBlockedServices(v), t) && v.deep_view()
                == s && t@ == "Service toggled"@,
            None => res matches Step::Reply(t) && t@ == "Service toggled"@,
        },
{
    let id = text_or_empty(&args.service_id);
    let block = set_bool(args.blocked, true);
    let exists = contains_string(&current, &id);
    if block && !exists {
        let mut v = current;
        let ghost before = v.deep_view();
        v.push(id);
        assert(v.deep_view() =~= before.push(or_empty(args.service_id)));
        Step::Send(ApiCall::SetBlockedServices(v), String::from_str("Service toggled"))
    } else if !block && exists {
        Step::Send(
            ApiCall::SetBlockedServices(remove_all(&current, &id)),
            String::from_str("Service toggled"),
        )
    } else {
        Step::Reply(String::from_str("Service toggled"))
    }
}

/// The list of custom rules that `set_custom_rules` stores: the texts of
/// the `rules` argument, none when it is absent.
pub open spec fn rules_to_set(args: FilteringArgs) -> Seq<Seq<char>> {
    match args.rules {
        Some(v) => texts_of(v@),
        None => Seq::empty(),
    }
}

/// What the tool does first for `action` with the arguments `args`.
pub open spec fn filtering_first_step(action: FilteringAction, args: FilteringArgs, res: Step) -> bool {
    match action {
        FilteringAction::ListFilters => res matches Step::Show(ApiCall::ListFilters),
        FilteringAction::AddFilter => res matches Step::Send(
            ApiCall::AddFilter { name, url, whitelist },
            t,
        ) && name@ == or_empty(args.name) && url@ == or_empty(args.url) && whitelist
            == bool_or(args.whitelist, false) && t@ == "Filter added"@,
        FilteringAction::RemoveFilter | FilteringAction::UpdateFilter
        | FilteringAction::ToggleFilter | FilteringAction::ListCustomRules
        | FilteringAction::AddCustomRule
        | FilteringAction::RemoveCustomRule => res matches Step::Read(ApiCall::ListFilters),
        FilteringAction::SetCustomRules => res matches Step::Send(ApiCall::SetUserRules(v), t)
            && v.deep_view() == rules_to_set(args) && t@ == "Rules updated"@,
        FilteringAction::ToggleBlockedService => res matches Step::Read(
            ApiCall::ListBlockedServices,
        ),
        FilteringAction::CheckHost => res matches Step::Read(ApiCall::CheckHost { name, client })
            && name@ == or_empty(args.domain) && client == args.client,
        FilteringAction::ListBlockedServices => res matches Step::Read(
            ApiCall::ListAllServices,
        ),
    }
}

/// Where the first request of each action of the filtering tool goes: the method,
/// the endpoint of the AdGuard Home control API, and the reply where the
/// request is the whole action.
pub proof fn law_filtering_actions_reach_their_endpoints(action: FilteringAction, args: FilteringArgs, res: Step)
    requires
        filtering_first_step(action, args, res),
    ensures
        action == FilteringAction::ListFilters ==> (res matches Step::Show(c) && call_method(c) == HttpMethod::Get && call_target(c) == "/control/filtering/status"@),
        action == FilteringAction::AddFilter ==> (res matches Step::Send(c, t) && call_method(c) == HttpMethod::Post && call_target(c) == "/control/filtering/add_url"@ && t@ == "Filter added"@),
        action == FilteringAction::RemoveFilter ==> (res matches Step::Read(c) && call_method(c) == HttpMethod::Get && call_target(c) == "/control/filtering/status"@),
        action == FilteringAction::UpdateFilter ==> (res matches Step::Read(c) && call_method(c) == HttpMethod::Get && call_target(c) == "/control/filtering/status"@),
        action == FilteringAction::ToggleFilter ==> (res matches Step::Read(c) && call_method(c) == HttpMethod::Get && call_target(c) == "/control/filtering/status"@),
        action == FilteringAction::ListCustomRules ==> (res matches Step::Read(c) && call_method(c) == HttpMethod::Get && call_target(c) == "/control/filtering/status"@),
        action == FilteringAction::AddCustomRule ==> (res matches Step::Read(c) && call_method(c) == HttpMethod::Get && call_target(c) == "/control/filtering/status"@),
        action == FilteringAction::RemoveCustomRule ==> (res matches Step::Read(c) && call_method(c) == HttpMethod::Get && call_target(c) == "/control/filtering/status"@),
        action == FilteringAction::SetCustomRules ==> (res matches Step::Send(c, t) && call_method(c) == HttpMethod::Post && call_target(c) == "/control/filtering/set_rules"@ && t@ == "Rules updated"@),
        action == FilteringAction::ToggleBlockedService ==> (res matches Step::Read(c) && call_method(c) == HttpMethod::Get && call_target(c) == "/control/blocked_services/list"@),
        action == FilteringAction::ListBlockedServices ==> (res matches Step::Read(c) && call_method(c) == HttpMethod::Get && call_target(c) == "/control/blocked_services/all"@),
        action == FilteringAction::CheckHost ==> (res matches Step::Read(c) && call_method(c) == HttpMethod::Get && (c matches ApiCall::CheckHost { name, client } && name@ == or_empty(args.domain))),
{
}


/// What the tool does first for `action`. The actions that act on one
/// filter list and `list_custom_rules` read the filter configuration, the
/// custom rule actions read it for its rules, `toggle_blocked_service`
/// reads the blocked services and `check_host` asks the debugger; each
/// then goes on with its own function. `list_blocked_services` reads the
/// list of all services first, then the blocked ones, and shows
/// [`service_states`].
pub fn step(action: FilteringAction, args: &FilteringArgs) -> (res: Step)
    ensures
        filtering_first_step(action, *args, res),
{
    match action {
        FilteringAction::ListFilters => Step::Show(ApiCall::ListFilters),
        FilteringAction::AddFilter => Step::Send(
            ApiCall::AddFilter {
                name: text_or_empty(&args.name),
                url: text_or_empty(&args.url),
                whitelist: set_bool(args.whitelist, false),
            },
            String::from_str("Filter added"),
        ),
        FilteringAction::SetCustomRules => {
            let rules = match &args.rules {
                Some(v) => collect_texts(v),
                None => Vec::new(),
            };
            assert(rules.deep_view() =~= rules_to_set(*args));
            Step::Send(ApiCall::SetUserRules(rules), String::from_str("Rules updated"))
        },
        FilteringAction::ToggleBlockedService => Step::Read(ApiCall::ListBlockedServices),
        FilteringAction::ListBlockedServices => Step::Read(ApiCall::ListAllServices),
        FilteringAction::CheckHost => Step::Read(
            ApiCall::CheckHost {
                name: text_or_empty(&args.domain),
                client: clone_opt_string(&args.client),
            },
        ),
        _ => Step::Read(ApiCall::ListFilters),
    }
}

/// The report of `check_host` for `domain`: its status, and the matching
/// rule when there is one.
pub fn check_host_text(domain: &str, resp: &FilterCheckResponse) -> (res: String)
    ensures
        res@ == "Status for "@ + domain@ + ": "@ + resp.reason@ + "\n"@ + match resp.rule {
            Some(r) => "Rule: "@ + r@ + "\n"@,
            None => Seq::empty(),
        },
{
    let mut text = String::from_str("Status for ");
    text.append(domain);
    text.append(": ");
    text.append(resp.reason.as_str());
    text.append("\n");
    let ghost base = text@;
    match &resp.rule {
        Some(r) => {
            text.append("Rule: ");
            text.append(r.as_str());
            text.append("\n");
        },
        None => {
            assert(text@ =~= base + Seq::<char>::empty());
        },
    }
    text
}

/// Removing a custom rule that was just added restores the rules.
pub proof fn law_remove_undoes_add(rules: Seq<Seq<char>>, rule: Seq<char>)
    requires
        !rules.contains(rule),
    ensures
        rules_added(rules, rule) == Some(rules.push(rule)),
        rules_removed(rules.push(rule), rule) == Some(rules),
{
    let rs = rules.push(rule);
    let n = rules.len() as int;
    assert(rs[n] == rule);
    assert(rs.contains(rule));
    let p = choose|p: int|
        0 <= p < rs.len() && rs[p] == rule && forall|j: int| 0 <= j < p ==> rs[j] != rule;
    assert(0 <= p < rs.len() && rs[p] == rule && forall|j: int| 0 <= j < p ==> rs[j] != rule);
    if p < n {
        assert(rules[p] == rule);
    }
    assert(rs.remove(n) =~= rules);
}

/// What a sequence with one more item contains.
proof fn lemma_contains_push(s: Seq<Seq<char>>, v: Seq<char>, y: Seq<char>)
    ensures
        s.push(v).contains(y) <==> (s.contains(y) || v == y),
{
    if s.push(v).contains(y) {
        let i = choose|i: int| 0 <= i < s.push(v).len() && s.push(v)[i] == y;
        if i < s.len() {
            assert(s[i] == y);
        }
    }
    if s.contains(y) {
        let i = choose|i: int| 0 <= i < s.len() && s[i] == y;
        assert(s.push(v)[i] == y);
    }
    assert(s.push(v)[s.len() as int] == v);
}

/// No item is left that equals the one removed, and every other item stays.
pub proof fn law_without_item(s: Seq<Seq<char>>, x: Seq<char>)
    ensures
        !without_item(s, x).contains(x),
        forall|y: Seq<char>| y != x ==> (s.contains(y) <==> #[trigger] without_item(s, x).contains(y)),
    decreases s.len(),
{
    if s.len() > 0 {
        let front = s.drop_last();
        let l = s.last();
        law_without_item(front, x);
        let w = without_item(front, x);
        assert(front.push(l) =~= s);
        assert forall|y: Seq<char>| y != x implies (s.contains(y) <==> #[trigger] without_item(
            s,
            x,
        ).contains(y)) by {
            lemma_contains_push(front, l, y);
            lemma_contains_push(w, l, y);
        }
        lemma_contains_push(w, l, x);
    }
}

/// Blocking a service leaves it blocked; unblocking leaves it unblocked.
pub proof fn law_toggled_service_takes_the_requested_state(
    current: Seq<Seq<char>>,
    id: Seq<char>,
    block: bool,
)
    ensures
        ({
            let after = match services_after(current, id, block) {
                Some(s) => s,
                None => current,
            };
            after.contains(id) == block
        }),
{
    law_without_item(current, id);
    if block && !current.contains(id) {
        assert(current.push(id)[current.len() as int] == id);
    }
}

/// Adding a custom rule never loses a rule and never duplicates one: the
/// rule is there afterwards, every earlier rule stays, and rules that held
/// no duplicate still hold none.
pub proof fn law_added_rule_is_kept_once(rules: Seq<Seq<char>>, rule: Seq<char>)
    ensures
        ({
            let after = match rules_added(rules, rule) {
                Some(r) => r,
                None => rules,
            };
            &&& after.contains(rule)
            &&& forall|y: Seq<char>| rules.contains(y) ==> #[trigger] after.contains(y)
            &&& rules.no_duplicates() ==> after.no_duplicates()
        }),
{
    if !rules.contains(rule) {
        let after = rules.push(rule);
        assert(after[rules.len() as int] == rule);
        assert forall|y: Seq<char>| rules.contains(y) implies #[trigger] after.contains(y) by {
            let i = choose|i: int| 0 <= i < rules.len() && rules[i] == y;
            assert(after[i] == y);
        }
        if rules.no_duplicates() {
            assert forall|i: int, j: int| 0 <= i < after.len() && 0 <= j < after.len() && i != j implies after[i] != after[j] by {
                if i < rules.len() && j < rules.len() {
                } else if i < rules.len() {
                    assert(rules.contains(rules[i]));
                } else if j < rules.len() {
                    assert(rules.contains(rules[j]));
                }
            }
        }
    }
}

/// Toggling a service twice with the same arguments writes at most once:
/// after the first toggle, the second finds nothing to change.
pub proof fn law_toggle_twice_writes_once(current: Seq<Seq<char>>, id: Seq<char>, block: bool)
    ensures
        ({
            let after = match services_after(current, id, block) {
                Some(s) => s,
                None => current,
            };
            services_after(after, id, block) is None
        }),
{
    law_toggled_service_takes_the_requested_state(current, id, block);
}

} // verus!
