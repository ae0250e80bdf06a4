//! The `manage_system` tool: status, statistics, the query log, backups,
//! updates and the service.
use vstd::prelude::*;
use crate::adguard::client::{AdGuardClient, ApiCall, HttpMethod, call_method, call_target, no_update_message};
use crate::adguard::models::{QueryLogConfig, QueryLogEntry, Status, VersionInfo};
use crate::error::Error;
use crate::sync::SyncMode;
use crate::text::{bool_str, bool_text, clone_opt_string, decimal, push_decimal, str_eq};
use super::{
    Step, ToolRegistry, bool_or, action_of, action_text, is_unknown_action, registers, set_bool, set_texts, set_u32,
    texts_of, texts_or, u32_or, unknown_action,
};

verus! {

/// The tool's name.
pub const NAME: &'static str = "manage_system";

/// The tool's description.
pub const DESCRIPTION: &'static str = "Manage AdGuard Home system (status, stats, logs, backups, updates, service control).";

/// The tool's input schema, as JSON text.
pub const SCHEMA: &'static str = "{\"type\":\"object\",\"properties\":{\"action\":{\"type\":\"string\",\"description\":\"System action to perform\",\"enum\":[\"get_status\",\"get_stats\",\"clear_stats\",\"get_query_log\",\"clear_query_log\",\"get_top_blocked_domains\",\"get_query_log_config\",\"set_query_log_config\",\"get_version_info\",\"update_adguard_home\",\"create_backup\",\"restore_backup\",\"restart_service\"]},\"time_period\":{\"type\":\"string\",\"enum\":[\"24h\",\"7d\",\"30d\"],\"description\":\"For stats\"},\"search\":{\"type\":\"string\",\"description\":\"Filter log by domain\"},\"filter\":{\"type\":\"string\",\"enum\":[\"all\",\"blocked\",\"allowed\"],\"description\":\"Filter log by status\"},\"limit\":{\"type\":\"integer\",\"minimum\":1,\"maximum\":100,\"description\":\"Max log entries\"},\"enabled\":{\"type\":\"boolean\",\"description\":\"For query log config\"},\"interval\":{\"type\":\"integer\",\"minimum\":1,\"description\":\"Log retention hours\"},\"anonymize_client_ip\":{\"type\":\"boolean\"},\"allowed_clients\":{\"type\":\"array\",\"items\":{\"type\":\"string\"}},\"disallowed_clients\":{\"type\":\"array\",\"items\":{\"type\":\"string\"}},\"file_path\":{\"type\":\"string\",\"description\":\"For restore_backup\"},\"description\":{\"type\":\"string\",\"description\":\"Optional description for the backup\"}},\"required\":[\"action\"]}";

/// Registers the tool.
pub fn register(registry: &mut ToolRegistry)
    ensures
        registers(*old(registry), *final(registry), NAME@, DESCRIPTION@, SCHEMA@),
{
    registry.register(NAME, DESCRIPTION, String::from_str(SCHEMA));
}

/// The actions of the tool.
#[derive(Debug, Clone, Copy, PartialEq, Eq, Structural)]
pub enum SystemAction {
    GetStatus,
    GetStats,
    ClearStats,
    GetQueryLog,
    ClearQueryLog,
    GetTopBlockedDomains,
    GetQueryLogConfig,
    SetQueryLogConfig,
    GetVersionInfo,
    UpdateAdguardHome,
    CreateBackup,
    RestoreBackup,
    RestartService,
}

/// The action named `a`.
pub open spec fn system_action_named(a: Seq<char>) -> Option<SystemAction> {
    if a == "get_status"@ {
        Some(SystemAction::GetStatus)
    } else if a == "get_stats"@ {
        Some(SystemAction::GetStats)
    } else if a == "clear_stats"@ {
        Some(SystemAction::ClearStats)
    } else if a == "get_query_log"@ {
        Some(SystemAction::GetQueryLog)
    } else if a == "clear_query_log"@ {
        Some(SystemAction::ClearQueryLog)
    } else if a == "get_top_blocked_domains"@ {
        Some(SystemAction::GetTopBlockedDomains)
    } else if a == "get_query_log_config"@ {
        Some(SystemAction::GetQueryLogConfig)
    } else if a == "set_query_log_config"@ {
        Some(SystemAction::SetQueryLogConfig)
    } else if a == "get_version_info"@ {
        Some(SystemAction::GetVersionInfo)
    } else if a == "update_adguard_home"@ {
        Some(SystemAction::UpdateAdguardHome)
    } else if a == "create_backup"@ {
        Some(SystemAction::CreateBackup)
    } else if a == "restore_backup"@ {
        Some(SystemAction::RestoreBackup)
    } else if a == "restart_service"@ {
        Some(SystemAction::RestartService)
    } else {
        None
    }
}

/// The actions of the system tool and the names they are asked for by; any other
/// name asks for no action.
pub proof fn law_system_action_names(a: Seq<char>)
    ensures
        system_action_named("get_status"@) == Some(SystemAction::GetStatus),
        system_action_named("get_stats"@) == Some(SystemAction::GetStats),
        system_action_named("clear_stats"@) == Some(SystemAction::ClearStats),
        system_action_named("get_query_log"@) == Some(SystemAction::GetQueryLog),
        system_action_named("clear_query_log"@) == Some(SystemAction::ClearQueryLog),
        system_action_named("get_top_blocked_domains"@) == Some(SystemAction::GetTopBlockedDomains),
        system_action_named("get_query_log_config"@) == Some(SystemAction::GetQueryLogConfig),
        system_action_named("set_query_log_config"@) == Some(SystemAction::SetQueryLogConfig),
        system_action_named("get_version_info"@) == Some(SystemAction::GetVersionInfo),
        system_action_named("update_adguard_home"@) == Some(SystemAction::UpdateAdguardHome),
        system_action_named("create_backup"@) == Some(SystemAction::CreateBackup),
        system_action_named("restore_backup"@) == Some(SystemAction::RestoreBackup),
        system_action_named("restart_service"@) == Some(SystemAction::RestartService),
        a != "get_status"@ && a != "get_stats"@ && a != "clear_stats"@ && a != "get_query_log"@ && a != "clear_query_log"@ && a != "get_top_blocked_domains"@ && a != "get_query_log_config"@ && a != "set_query_log_config"@ && a != "get_version_info"@ && a != "update_adguard_home"@ && a != "create_backup"@ && a != "restore_backup"@ && a != "restart_service"@ ==> system_action_named(a) is None,
{
    reveal_strlit("get_status");
    reveal_strlit("get_stats");
    reveal_strlit("clear_stats");
    reveal_strlit("get_query_log");
    reveal_strlit("clear_query_log");
    reveal_strlit("get_top_blocked_domains");
    reveal_strlit("get_query_log_config");
    reveal_strlit("set_query_log_config");
    reveal_strlit("get_version_info");
    reveal_strlit("update_adguard_home");
    reveal_strlit("create_backup");
    reveal_strlit("restore_backup");
    reveal_strlit("restart_service");
    assert("clear_query_log"@.len() == 15);
    assert("clear_query_log"@[0] == 'c');
    assert("clear_stats"@.len() == 11);
    assert("create_backup"@.len() == 13);
    assert("create_backup"@[0] == 'c');
    assert("get_query_log"@.len() == 13);
    assert("get_query_log"@[0] == 'g');
    assert("get_query_log_config"@.len() == 20);
    assert("get_query_log_config"@[0] == 'g');
    assert("get_stats"@.len() == 9);
    assert("get_status"@.len() == 10);
    assert("get_top_blocked_domains"@.len() == 23);
    assert("get_version_info"@.len() == 16);
    assert("restart_service"@.len() == 15);
    assert("restart_service"@[0] == 'r');
    assert("restore_backup"@.len() == 14);
    assert("set_query_log_config"@.len() == 20);
    assert("set_query_log_config"@[0] == 's');
    assert("update_adguard_home"@.len() == 19);
}



impl SystemAction {
    /// The action the `action` argument names; an unknown or missing name
    /// is refused, a missing one as the empty name.
    pub fn parse(arg: Option<&str>) -> (res: Result<SystemAction, Error>)
        ensures
            match system_action_named(action_of(arg)) {
                Some(a) => res == Ok::<SystemAction, Error>(a),
                None => res matches Err(e) && is_unknown_action(e, action_of(arg)),
            },
    {
        let action = action_text(arg);
        if str_eq(action, "get_status") {
            Ok(SystemAction::GetStatus)
        } else if str_eq(action, "get_stats") {
            Ok(SystemAction::GetStats)
        } else if str_eq(action, "clear_stats") {
            Ok(SystemAction::ClearStats)
        } else if str_eq(action, "get_query_log") {
            Ok(SystemAction::GetQueryLog)
        } else if str_eq(action, "clear_query_log") {
            Ok(SystemAction::ClearQueryLog)
        } else if str_eq(action, "get_top_blocked_domains") {
            Ok(SystemAction::GetTopBlockedDomains)
        } else if str_eq(action, "get_query_log_config") {
            Ok(SystemAction::GetQueryLogConfig)
        } else if str_eq(action, "set_query_log_config") {
            Ok(SystemAction::SetQueryLogConfig)
        } else if str_eq(action, "get_version_info") {
            Ok(SystemAction::GetVersionInfo)
        } else if str_eq(action, "update_adguard_home") {
            Ok(SystemAction::UpdateAdguardHome)
        } else if str_eq(action, "create_backup") {
            Ok(SystemAction::CreateBackup)
        } else if str_eq(action, "restore_backup") {
            Ok(SystemAction::RestoreBackup)
        } else if str_eq(action, "restart_service") {
            Ok(SystemAction::RestartService)
        } else {
            Err(unknown_action(action))
        }
    }
}

/// The arguments of a call. An array argument holds, for each item, its
/// text when it is one.
pub struct SystemArgs {
    pub time_period: Option<String>,
    pub search: Option<String>,
    pub filter: Option<String>,
    pub limit: Option<u64>,
    pub enabled: Option<bool>,
    pub interval: Option<u64>,
    pub anonymize_client_ip: Option<bool>,
    pub allowed_clients: Option<Vec<Option<String>>>,
    pub disallowed_clients: Option<Vec<Option<String>>>,
    pub file_path: Option<String>,
    pub description: Option<String>,
}

/// Whether `res` is `current` with each setting that `args` gives
/// replaced; the interval is truncated to 32 bits as `as` does.
pub open spec fn query_log_config_applied(
    args: SystemArgs,
    current: QueryLogConfig,
    res: QueryLogConfig,
) -> bool {
    &&& res.enabled == bool_or(args.enabled, current.enabled)
    &&& res.interval == u32_or(args.interval, current.interval)
    &&& res.anonymize_client_ip == bool_or(args.anonymize_client_ip, current.anonymize_client_ip)
    &&& res.allowed_clients.deep_view() == texts_or(
        args.allowed_clients,
        current.allowed_clients.deep_view(),
    )
    &&& res.disallowed_clients.deep_view() == texts_or(
        args.disallowed_clients,
        current.disallowed_clients.deep_view(),
    )
}

/// Updating the query log configuration sets each setting from the
/// argument of the same name when it is given (the interval truncated to
/// 32 bits, client lists as their texts) and keeps it otherwise.
pub proof fn law_query_log_settings_follow_their_own_arguments(args: SystemArgs, current: QueryLogConfig, res: QueryLogConfig)
    requires
        query_log_config_applied(args, current, res),
    ensures
        args.enabled matches Some(x) ==> res.enabled == x,
        args.enabled is None ==> res.enabled == current.enabled,
        args.interval matches Some(x) ==> res.interval == x as u32,
        args.interval is None ==> res.interval == current.interval,
        args.anonymize_client_ip matches Some(x) ==> res.anonymize_client_ip == x,
        args.anonymize_client_ip is None ==> res.anonymize_client_ip == current.anonymize_client_ip,
        args.allowed_clients matches Some(x) ==> res.allowed_clients.deep_view() == texts_of(x@),
        args.allowed_clients is None ==> res.allowed_clients.deep_view() == current.allowed_clients.deep_view(),
        args.disallowed_clients matches Some(x) ==> res.disallowed_clients.deep_view() == texts_of(x@),
        args.disallowed_clients is None ==> res.disallowed_clients.deep_view() == current.disallowed_clients.deep_view(),
{
}


impl SystemArgs {
    /// `current` with each setting that the arguments give replaced.
    pub fn apply_query_log_config(&self, current: QueryLogConfig) -> (res: QueryLogConfig)
        ensures
            query_log_config_applied(*self, current, res),
    {
        QueryLogConfig {
            enabled: set_bool(self.enabled, current.enabled),
            interval: set_u32(self.interval, current.interval),
            anonymize_client_ip: set_bool(self.anonymize_client_ip, current.anonymize_client_ip),
            allowed_clients: set_texts(&self.allowed_clients, current.allowed_clients),
            disallowed_clients: set_texts(&self.disallowed_clients, current.disallowed_clients),
        }
    }
}

/// The `limit` argument of the query log, truncated to 32 bits as `as`
/// does.
pub open spec fn log_limit(args: SystemArgs) -> Option<u32> {
    match args.limit {
        Some(l) => Some(l as u32),
        None => None,
    }
}

/// What the tool does first for `action` with the arguments `args`.
pub open spec fn system_first_step(action: SystemAction, args: SystemArgs, res: Step) -> bool {
    match action {
        SystemAction::GetStatus => res matches Step::Read(ApiCall::GetStatus),
        SystemAction::GetStats | SystemAction::GetTopBlockedDomains => res matches Step::Read(
            ApiCall::GetStats { time_period },
        ) && time_period == args.time_period,
        SystemAction::ClearStats => res matches Step::Send(ApiCall::ResetStats, t) && t@
            == "Stats cleared"@,
        SystemAction::GetQueryLog => res matches Step::Read(
            ApiCall::GetQueryLog { search, filter, limit },
        ) && search == args.search && filter == args.filter && limit == log_limit(args),
        SystemAction::ClearQueryLog => res matches Step::Send(ApiCall::ClearQueryLog, t) && t@
            == "Query log cleared"@,
        SystemAction::GetQueryLogConfig => res matches Step::Show(ApiCall::GetQueryLogConfig),
        SystemAction::SetQueryLogConfig => res matches Step::Read(ApiCall::GetQueryLogConfig),
        SystemAction::GetVersionInfo => res matches Step::Show(ApiCall::GetVersionInfo),
        SystemAction::UpdateAdguardHome => res matches Step::Read(ApiCall::GetVersionInfo),
        SystemAction::RestartService => res matches Step::Send(
            ApiCall::RestartService { hard: false },
            t,
        ) && t@ == "Restart sent"@,
        SystemAction::CreateBackup | SystemAction::RestoreBackup => false,
    }
}

/// Where the first request of each action of the system tool goes: the method,
/// the endpoint of the AdGuard Home control API, and the reply where the
/// request is the whole action.
pub proof fn law_system_actions_reach_their_endpoints(action: SystemAction, args: SystemArgs, res: Step)
    requires
        system_first_step(action, args, res),
    ensures
        action == SystemAction::GetStatus ==> (res matches Step::Read(c) && call_method(c) == HttpMethod::Get && call_target(c) == "/control/status"@),
        action == SystemAction::GetStats ==> (res matches Step::Read(c) && call_method(c) == HttpMethod::Get && (c matches ApiCall::GetStats { time_period } && time_period == args.time_period)),
        action == SystemAction::GetTopBlockedDomains ==> (res matches Step::Read(c) && call_method(c) == HttpMethod::Get && (c matches ApiCall::GetStats { time_period } && time_period == args.time_period)),
        action == SystemAction::ClearStats ==> (res matches Step::Send(c, t) && call_method(c) == HttpMethod::Post && call_target(c) == "/control/stats_reset"@ && t@ == "Stats cleared"@),
        action == SystemAction::GetQueryLog ==> (res matches Step::Read(c) && call_method(c) == HttpMethod::Get && (c matches ApiCall::GetQueryLog { search, filter, limit } && search == args.search && filter == args.filter)),
        action == SystemAction::ClearQueryLog ==> (res matches Step::Send(c, t) && call_method(c) == HttpMethod::Post && call_target(c) == "/control/querylog_clear"@ && t@ == "Query log cleared"@),
        action == SystemAction::GetQueryLogConfig ==> (res matches Step::Show(c) && call_method(c) == HttpMethod::Get && call_target(c) == "/control/querylog/config"@),
        action == SystemAction::SetQueryLogConfig ==> (res matches Step::Read(c) && call_method(c) == HttpMethod::Get && call_target(c) == "/control/querylog/config"@),
        action == SystemAction::GetVersionInfo ==> (res matches Step::Show(c) && call_method(c) == HttpMethod::Get && call_target(c) == "/control/version_info"@),
        action == SystemAction::UpdateAdguardHome ==> (res matches Step::Read(c) && call_method(c) == HttpMethod::Get && call_target(c) == "/control/version_info"@),
        action == SystemAction::RestartService ==> (res matches Step::Send(c, t) && call_method(c) == HttpMethod::Post && call_target(c) == "/control/filtering/refresh"@ && t@ == "Restart sent"@),
{
}


/// What the tool does first for `action`. The status, the statistics, the
/// query log, the query log configuration to update and the version
/// information before an update are read, and each goes on with its own
/// function; the statistics are formatted outside the verified library, as
/// they hold floating-point numbers. Backups go through files and are not
/// steps.
pub fn step(action: SystemAction, args: &SystemArgs) -> (res: Step)
    requires
        action != SystemAction::CreateBackup,
        action != SystemAction::RestoreBackup,
    ensures
        system_first_step(action, *args, res),
{
    match action {
        SystemAction::GetStatus => Step::Read(ApiCall::GetStatus),
        SystemAction::GetStats => Step::Read(
            ApiCall::GetStats { time_period: clone_opt_string(&args.time_period) },
        ),
        SystemAction::GetTopBlockedDomains => Step::Read(
            ApiCall::GetStats { time_period: clone_opt_string(&args.time_period) },
        ),
        SystemAction::ClearStats => Step::Send(ApiCall::ResetStats, String::from_str("Stats cleared")),
        SystemAction::GetQueryLog => Step::Read(
            ApiCall::GetQueryLog {
                search: clone_opt_string(&args.search),
                filter: clone_opt_string(&args.filter),
                limit: match args.limit {
                    Some(l) => Some(l as u32),
                    None => None,
                },
            },
        ),
        SystemAction::ClearQueryLog => Step::Send(
            ApiCall::ClearQueryLog,
            String::from_str("Query log cleared"),
        ),
        SystemAction::GetQueryLogConfig => Step::Show(ApiCall::GetQueryLogConfig),
        SystemAction::SetQueryLogConfig => Step::Read(ApiCall::GetQueryLogConfig),
        SystemAction::GetVersionInfo => Step::Show(ApiCall::GetVersionInfo),
        SystemAction::UpdateAdguardHome => Step::Read(ApiCall::GetVersionInfo),
        _ => Step::Send(ApiCall::RestartService { hard: false }, String::from_str("Restart sent")),
    }
}

/// The status as `get_status` reports it.
pub fn status_text(status: &Status) -> (res: String)
    ensures
        res@ == "Version: "@ + status.version@ + "\nProtection: "@ + bool_text(
            status.protection_enabled,
        ),
{
    let mut text = String::from_str("Version: ");
    text.append(status.version.as_str());
    text.append("\nProtection: ");
    text.append(bool_str(status.protection_enabled));
    text
}

/// One line of the query log per entry.
pub open spec fn log_lines(es: Seq<QueryLogEntry>) -> Seq<char>
    decreases es.len(),
{
    if es.len() == 0 {
        Seq::empty()
    } else {
        let e = es.last();
        log_lines(es.drop_last()) + "["@ + e.time@ + "] "@ + e.question.name@ + " -> "@
            + e.status@ + " ("@ + e.reason@ + ", "@ + e.elapsed_ms@ + "ms)\n"@
    }
}

/// The query log as `get_query_log` reports it.
pub open spec fn query_log_text(es: Seq<QueryLogEntry>) -> Seq<char> {
    if es.len() == 0 {
        "No entries found"@
    } else {
        log_lines(es)
    }
}

/// The query log entries `es` as `get_query_log` reports them.
pub fn query_log_report(es: &Vec<QueryLogEntry>) -> (res: String)
    ensures
        res@ == query_log_text(es@),
{
    let n = es.len();
    if n == 0 {
        return String::from_str("No entries found");
    }
    let mut text = String::new();
    let mut i: usize = 0;
    assert(es@.take(0) =~= Seq::<QueryLogEntry>::empty());
    while i < n
        invariant
            n == es@.len(),
            0 <= i <= n,
            text@ == log_lines(es@.take(i as int)),
        decreases n - i,
    {
        let e = &es[i];
        assert(es@.take(i + 1).drop_last() =~= es@.take(i as int));
        text.append("[");
        text.append(e.time.as_str());
        text.append("] ");
        text.append(e.question.name.as_str());
        text.append(" -> ");
        text.append(e.status.as_str());
        text.append(" (");
        text.append(e.reason.as_str());
        text.append(", ");
        text.append(e.elapsed_ms.as_str());
        text.append("ms)\n");
        i = i + 1;
    }
    assert(es@.take(n as int) =~= es@);
    text
}

/// One line per domain and count.
pub open spec fn count_lines(ps: Seq<(Seq<char>, u64)>) -> Seq<char>
    decreases ps.len(),
{
    if ps.len() == 0 {
        Seq::empty()
    } else {
        count_lines(ps.drop_last()) + "- "@ + ps.last().0 + ": "@ + decimal(ps.last().1 as nat)
            + "\n"@
    }
}

/// The lines of each entry of the top blocked domains, in order.
pub open spec fn entries_lines(es: Seq<Seq<(Seq<char>, u64)>>) -> Seq<char>
    decreases es.len(),
{
    if es.len() == 0 {
        Seq::empty()
    } else {
        entries_lines(es.drop_last()) + count_lines(es.last())
    }
}

/// The top blocked domains as `get_top_blocked_domains` reports them.
pub open spec fn top_blocked_text(es: Seq<Seq<(Seq<char>, u64)>>) -> Seq<char> {
    "Top Blocked Domains:\n"@ + if es.len() == 0 {
        "None found.\n"@
    } else {
        entries_lines(es)
    }
}

/// The report of the top blocked domains of the statistics: each entry
/// holds the domains and counts of one map, in the order the map gives.
pub fn top_blocked_report(entries: &Vec<Vec<(String, u64)>>) -> (res: String)
    ensures
        res@ == top_blocked_text(entries.deep_view()),
{
    let ghost es = entries.deep_view();
    let mut text = String::from_str("Top Blocked Domains:\n");
    let n = entries.len();
    if n == 0 {
        text.append("None found.\n");
        return text;
    }
    let ghost head = text@;
    let mut i: usize = 0;
    assert(es.take(0) =~= Seq::<Seq<(Seq<char>, u64)>>::empty());
    while i < n
        invariant
            n == entries@.len(),
            es == entries.deep_view(),
            0 <= i <= n,
            text@ == head + entries_lines(es.take(i as int)),
        decreases n - i,
    {
        assert(es.take(i + 1).drop_last() =~= es.take(i as int));
        let entry = &entries[i];
        let ghost ps = es[i as int];
        assert(ps == entry.deep_view());
        let ghost mid = text@;
        let m = entry.len();
        let mut k: usize = 0;
        assert(ps.take(0) =~= Seq::<(Seq<char>, u64)>::empty());
        while k < m
            invariant
                m == entry@.len(),
                ps == entry.deep_view(),
                0 <= k <= m,
                text@ == mid + count_lines(ps.take(k as int)),
            decreases m - k,
        {
            assert(ps.take(k + 1).drop_last() =~= ps.take(k as int));
            assert(ps[k as int] == (entry@[k as int].0@, entry@[k as int].1));
            text.append("- ");
            text.append(entry[k].0.as_str());
            text.append(": ");
            push_decimal(&mut text, entry[k].1);
            text.append("\n");
            k = k + 1;
        }
        assert(ps.take(m as int) =~= ps);
        i = i + 1;
    }
    assert(es.take(n as int) =~= es);
    text
}

/// What `set_query_log_config` does once the configuration `current` is
/// read: store it updated by the arguments.
pub fn set_query_log_config(args: &SystemArgs, current: QueryLogConfig) -> (res: Step)
    ensures
        res matches Step::Send(ApiCall::SetQueryLogConfig(c), t) && query_log_config_applied(
            *args,
            current,
            c,
        ) && t@ == "Config updated"@,
{
    Step::Send(
        ApiCall::SetQueryLogConfig(args.apply_query_log_config(current)),
        String::from_str("Config updated"),
    )
}

/// What `update_adguard_home` does once the version information is read:
/// ask for the update when one is available, fail otherwise.
pub fn update_step(info: &VersionInfo) -> (res: Result<Step, Error>)
    ensures
        info.can_update ==> (res matches Ok(Step::Send(ApiCall::Update, t)) && t@
            == "Update triggered"@),
        !info.can_update ==> (res matches Err(Error::Generic(m)) && m@ == no_update_message()),
{
    AdGuardClient::check_update_allowed(info)?;
    Ok(Step::Send(ApiCall::Update, String::from_str("Update triggered")))
}

/// The name of the file a backup is written to, under `backups/`.
pub fn backup_file_name(id: &str) -> (res: String)
    ensures
        res@ == "adguard_backup_"@ + id@ + ".json"@,
{
    let mut name = String::from_str("adguard_backup_");
    name.append(id);
    name.append(".json");
    name
}

/// The major and minor numbers of the version that `semver::Version::parse`
/// reads in `text`, or nothing when it does not parse.
pub uninterp spec fn semver_major_minor(text: Seq<char>) -> Option<(u64, u64)>;

/// Parses `text` with `semver::Version::parse`, keeping the major and minor
/// numbers. The grammar of semantic versions is not restated here; the
/// result is the name above applied to the text.
#[verifier::external_body]
fn parse_version(text: &str) -> (res: Option<(u64, u64)>)
    ensures
        res == semver_major_minor(text@),
{
    match semver::Version::parse(text) {
        Ok(v) => Some((v.major, v.minor)),
        Err(_) => None,
    }
}

/// `s` without its leading `v`s, as `trim_start_matches('v')` gives it.
pub open spec fn trim_leading_v(s: Seq<char>) -> Seq<char>
    decreases s.len(),
{
    if s.len() > 0 && s[0] == 'v' {
        trim_leading_v(s.drop_first())
    } else {
        s
    }
}

/// `s` without its leading `v`s.
pub fn trim_v(s: &str) -> (res: &str)
    ensures
        res@ == trim_leading_v(s@),
{
    let n = s.unicode_len();
    let mut k: usize = 0;
    assert(s@.subrange(0, n as int) =~= s@);
    while k < n && s.get_char(k) == 'v'
        invariant
            n == s@.len(),
            0 <= k <= n,
            trim_leading_v(s@) == trim_leading_v(s@.subrange(k as int, n as int)),
        decreases n - k,
    {
        assert(s@.subrange(k as int, n as int).drop_first() =~= s@.subrange(k + 1, n as int));
        k = k + 1;
    }
    s.substring_char(k, n)
}

/// Whether a backup of version `backup` may be restored onto an instance
/// of version `target`, each read after its leading `v`s: refused when
/// both parse and their major numbers differ; otherwise allowed, with
/// `true` when both parse and their minor numbers differ, which deserves a
/// warning.
pub open spec fn restore_verdict(backup: Seq<char>, target: Seq<char>) -> Result<bool, Seq<char>> {
    match (semver_major_minor(trim_leading_v(backup)), semver_major_minor(trim_leading_v(target))) {
        (Some(b), Some(t)) => if b.0 != t.0 {
            Err(
                "Major version mismatch: Backup is "@ + backup + ", Target is "@ + target
                    + ". Restoration aborted for safety."@,
            )
        } else {
            Ok(b.1 != t.1)
        },
        _ => Ok(false),
    }
}

/// Whether a backup of version `backup` may be restored onto an instance
/// of version `target`, as [`restore_verdict`] decides from the parsed
/// versions.
pub fn decide_restore(backup: &str, target: &str, b: Option<(u64, u64)>, t: Option<(u64, u64)>) -> (res: Result<bool, Error>)
    ensures
        match (b, t) {
            (Some(bv), Some(tv)) => if bv.0 != tv.0 {
                res matches Err(Error::Generic(m)) && m@ == "Major version mismatch: Backup is "@
                    + backup@ + ", Target is "@ + target@ + ". Restoration aborted for safety."@
            } else {
                res == Ok::<bool, Error>(bv.1 != tv.1)
            },
            _ => res == Ok::<bool, Error>(false),
        },
{
    match (b, t) {
        (Some(bv), Some(tv)) => {
            if bv.0 != tv.0 {
                let mut msg = String::from_str("Major version mismatch: Backup is ");
                msg.append(backup);
                msg.append(", Target is ");
                msg.append(target);
                msg.append(". Restoration aborted for safety.");
                Err(Error::Generic(msg))
            } else {
                Ok(bv.1 != tv.1)
            }
        },
        _ => Ok(false),
    }
}

/// Whether a backup of version `backup` may be restored onto an instance
/// of version `target`: the versions, read after their leading `v`s, are
/// parsed, then [`decide_restore`] decides.
pub fn check_restore(backup: &str, target: &str) -> (res: Result<bool, Error>)
    ensures
        match restore_verdict(backup@, target@) {
            Ok(w) => res == Ok::<bool, Error>(w),
            Err(m) => res matches Err(Error::Generic(e)) && e@ == m,
        },
{
    let b = parse_version(trim_v(backup));
    let t = parse_version(trim_v(target));
    decide_restore(backup, target, b, t)
}

/// The reply once a backup is restored.
pub const RESTORED: &'static str = "Backup restored";

/// What restoring a backup does next.
pub enum RestoreNext {
    /// Read the target's status, then decide again with its version.
    ReadStatus,
    /// Overwrite the target with the backup in `mode`; `warn` when the
    /// minor versions differ, which deserves a warning.
    Overwrite { mode: SyncMode, warn: bool },
}

/// What restoring a backup does next, given the version the backup records
/// (if it records one) and the target's version once it is read. A backup
/// without a version is written at once; otherwise the target's version is
/// read first and [`check_restore`] decides. Restoring always overwrites.
pub fn restore_step(backup_version: Option<&str>, target_version: Option<&str>) -> (res: Result<
    RestoreNext,
    Error,
>)
    ensures
        match (backup_version, target_version) {
            (None, _) => res matches Ok(RestoreNext::Overwrite { mode, warn }) && mode
                == SyncMode::FullOverwrite && !warn,
            (Some(b), None) => res matches Ok(RestoreNext::ReadStatus),
            (Some(b), Some(t)) => match restore_verdict(b@, t@) {
                Ok(w) => res matches Ok(RestoreNext::Overwrite { mode, warn }) && mode
                    == SyncMode::FullOverwrite && warn == w,
                Err(m) => res matches Err(Error::Generic(e)) && e@ == m,
            },
        },
{
    match (backup_version, target_version) {
        (None, _) => Ok(RestoreNext::Overwrite { mode: SyncMode::FullOverwrite, warn: false }),
        (Some(_), None) => Ok(RestoreNext::ReadStatus),
        (Some(b), Some(t)) => {
            let warn = check_restore(b, t)?;
            Ok(RestoreNext::Overwrite { mode: SyncMode::FullOverwrite, warn })
        },
    }
}

} // verus!
