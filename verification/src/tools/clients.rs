//! The `manage_clients` tool: clients, DHCP leases and the access list.
use vstd::prelude::*;
use crate::adguard::client::{AdGuardClient, ApiCall, HttpMethod, call_method, call_target, client_matches};
use crate::adguard::models::{
    AccessList, AdGuardClientDevice, DhcpLease, DhcpStatus, QueryLogEntry, StaticLease,
};
use crate::error::Error;
use crate::text::{bool_str, bool_text, decimal, push_decimal, str_eq};
use super::{
    Step, ToolRegistry, bool_or, collect_texts, action_of, action_text, is_unknown_action, or_empty, registers, set_bool,
    set_text, set_texts, text_or, text_or_empty, texts_of, texts_or, unknown_action,
};

verus! {

/// The tool's name.
pub const NAME: &'static str = "manage_clients";

/// The tool's description.
pub const DESCRIPTION: &'static str = "Manage clients (CRUD), DHCP leases, and access control lists.";

/// The tool's input schema, as JSON text.
pub const SCHEMA: &'static str = "{\"type\":\"object\",\"properties\":{\"action\":{\"type\":\"string\",\"description\":\"Client action to perform\",\"enum\":[\"list_clients\",\"get_client_info\",\"add_client\",\"update_client\",\"delete_client\",\"get_activity_report\",\"get_access_list\",\"update_access_list\",\"list_dhcp_leases\",\"add_static_lease\",\"remove_static_lease\"]},\"identifier\":{\"type\":\"string\",\"description\":\"IP, MAC, or Name\"},\"name\":{\"type\":\"string\"},\"old_name\":{\"type\":\"string\"},\"ids\":{\"type\":\"array\",\"items\":{\"type\":\"string\"}},\"use_global_settings\":{\"type\":\"boolean\"},\"filtering_enabled\":{\"type\":\"boolean\"},\"parental_enabled\":{\"type\":\"boolean\"},\"safebrowsing_enabled\":{\"type\":\"boolean\"},\"safesearch_enabled\":{\"type\":\"boolean\"},\"limit\":{\"type\":\"integer\",\"minimum\":1,\"maximum\":100},\"allowed_clients\":{\"type\":\"array\",\"items\":{\"type\":\"string\"}},\"disallowed_clients\":{\"type\":\"array\",\"items\":{\"type\":\"string\"}},\"blocked_hosts\":{\"type\":\"array\",\"items\":{\"type\":\"string\"}},\"mac\":{\"type\":\"string\"},\"ip\":{\"type\":\"string\"},\"hostname\":{\"type\":\"string\"}},\"required\":[\"action\"]}";

/// Registers the tool.
pub fn register(registry: &mut ToolRegistry)
    ensures
        registers(*old(registry), *final(registry), NAME@, DESCRIPTION@, SCHEMA@),
{
    registry.register(NAME, DESCRIPTION, String::from_str(SCHEMA));
}

/// The actions of the tool.
#[derive(Debug, Clone, Copy, PartialEq, Eq, Structural)]
pub enum ClientsAction {
    ListClients,
    GetClientInfo,
    AddClient,
    UpdateClient,
    DeleteClient,
    GetActivityReport,
    GetAccessList,
    UpdateAccessList,
    ListDhcpLeases,
    AddStaticLease,
    RemoveStaticLease,
}

/// The action named `a`.
pub open spec fn clients_action_named(a: Seq<char>) -> Option<ClientsAction> {
    if a == "list_clients"@ {
        Some(ClientsAction::ListClients)
    } else if a == "get_client_info"@ {
        Some(ClientsAction::GetClientInfo)
    } else if a == "add_client"@ {
        Some(ClientsAction::AddClient)
    } else if a == "update_client"@ {
        Some(ClientsAction::UpdateClient)
    } else if a == "delete_client"@ {
        Some(ClientsAction::DeleteClient)
    } else if a == "get_activity_report"@ {
        Some(ClientsAction::GetActivityReport)
    } else if a == "get_access_list"@ {
        Some(ClientsAction::GetAccessList)
    } else if a == "update_access_list"@ {
        Some(ClientsAction::UpdateAccessList)
    } else if a == "list_dhcp_leases"@ {
        Some(ClientsAction::ListDhcpLeases)
    } else if a == "add_static_lease"@ {
        Some(ClientsAction::AddStaticLease)
    } else if a == "remove_static_lease"@ {
        Some(ClientsAction::RemoveStaticLease)
    } else {
        None
    }
}

/// The actions of the clients tool and the names they are asked for by; any other
/// name asks for no action.
pub proof fn law_clients_action_names(a: Seq<char>)
    ensures
        clients_action_named("list_clients"@) == Some(ClientsAction::ListClients),
        clients_action_named("get_client_info"@) == Some(ClientsAction::GetClientInfo),
        clients_action_named("add_client"@) == Some(ClientsAction::AddClient),
        clients_action_named("update_client"@) == Some(ClientsAction::UpdateClient),
        clients_action_named("delete_client"@) == Some(ClientsAction::DeleteClient),
        clients_action_named("get_activity_report"@) == Some(ClientsAction::GetActivityReport),
        clients_action_named("get_access_list"@) == Some(ClientsAction::GetAccessList),
        clients_action_named("update_access_list"@) == Some(ClientsAction::UpdateAccessList),
        clients_action_named("list_dhcp_leases"@) == Some(ClientsAction::ListDhcpLeases),
        clients_action_named("add_static_lease"@) == Some(ClientsAction::AddStaticLease),
        clients_action_named("remove_static_lease"@) == Some(ClientsAction::RemoveStaticLease),
        a != "list_clients"@ && a != "get_client_info"@ && a != "add_client"@ && a != "update_client"@ && a != "delete_client"@ && a != "get_activity_report"@ && a != "get_access_list"@ && a != "update_access_list"@ && a != "list_dhcp_leases"@ && a != "add_static_lease"@ && a != "remove_static_lease"@ ==> clients_action_named(a) is None,
{
    reveal_strlit("list_clients");
    reveal_strlit("get_client_info");
    reveal_strlit("add_client");
    reveal_strlit("update_client");
    reveal_strlit("delete_client");
    reveal_strlit("get_activity_report");
    reveal_strlit("get_access_list");
    reveal_strlit("update_access_list");
    reveal_strlit("list_dhcp_leases");
    reveal_strlit("add_static_lease");
    reveal_strlit("remove_static_lease");
    assert("add_client"@.len() == 10);
    assert("add_static_lease"@.len() == 16);
    assert("add_static_lease"@[0] == 'a');
    assert("delete_client"@.len() == 13);
    assert("delete_client"@[0] == 'd');
    assert("get_access_list"@.len() == 15);
    assert("get_access_list"@[4] == 'a');
    assert("get_activity_report"@.len() == 19);
    assert("get_activity_report"@[0] == 'g');
    assert("get_client_info"@.len() == 15);
    assert("get_client_info"@[4] == 'c');
    assert("list_clients"@.len() == 12);
    assert("list_dhcp_leases"@.len() == 16);
    assert("list_dhcp_leases"@[0] == 'l');
    assert("remove_static_lease"@.len() == 19);
    assert("remove_static_lease"@[0] == 'r');
    assert("update_access_list"@.len() == 18);
    assert("update_client"@.len() == 13);
    assert("update_client"@[0] == 'u');
}



impl ClientsAction {
    /// The action the `action` argument names; an unknown or missing name
    /// is refused, a missing one as the empty name.
    pub fn parse(arg: Option<&str>) -> (res: Result<ClientsAction, Error>)
        ensures
            match clients_action_named(action_of(arg)) {
                Some(a) => res == Ok::<ClientsAction, Error>(a),
                None => res matches Err(e) && is_unknown_action(e, action_of(arg)),
            },
    {
        let action = action_text(arg);
        if str_eq(action, "list_clients") {
            Ok(ClientsAction::ListClients)
        } else if str_eq(action, "get_client_info") {
            Ok(ClientsAction::GetClientInfo)
        } else if str_eq(action, "add_client") {
            Ok(ClientsAction::AddClient)
        } else if str_eq(action, "update_client") {
            Ok(ClientsAction::UpdateClient)
        } else if str_eq(action, "delete_client") {
            Ok(ClientsAction::DeleteClient)
        } else if str_eq(action, "get_activity_report") {
            Ok(ClientsAction::GetActivityReport)
        } else if str_eq(action, "get_access_list") {
            Ok(ClientsAction::GetAccessList)
        } else if str_eq(action, "update_access_list") {
            Ok(ClientsAction::UpdateAccessList)
        } else if str_eq(action, "list_dhcp_leases") {
            Ok(ClientsAction::ListDhcpLeases)
        } else if str_eq(action, "add_static_lease") {
            Ok(ClientsAction::AddStaticLease)
        } else if str_eq(action, "remove_static_lease") {
            Ok(ClientsAction::RemoveStaticLease)
        } else {
            Err(unknown_action(action))
        }
    }
}

/// The arguments of a call. An array argument holds, for each item, its
/// text when it is one.
pub struct ClientsArgs {
    pub identifier: Option<String>,
    pub name: Option<String>,
    pub old_name: Option<String>,
    pub ids: Option<Vec<Option<String>>>,
    pub use_global_settings: Option<bool>,
    pub filtering_enabled: Option<bool>,
    pub parental_enabled: Option<bool>,
    pub safebrowsing_enabled: Option<bool>,
    pub safesearch_enabled: Option<bool>,
    pub limit: Option<u64>,
    pub allowed_clients: Option<Vec<Option<String>>>,
    pub disallowed_clients: Option<Vec<Option<String>>>,
    pub blocked_hosts: Option<Vec<Option<String>>>,
    pub mac: Option<String>,
    pub ip: Option<String>,
    pub hostname: Option<String>,
}

/// Whether `d` is the client that `add_client` adds: the arguments given,
/// and otherwise no name and no ids, global settings, filtering and safe
/// browsing on, parental control and safe search off.
pub open spec fn new_device(args: ClientsArgs, d: AdGuardClientDevice) -> bool {
    &&& d.name@ == or_empty(args.name)
    &&& d.ids.deep_view() == texts_or(args.ids, Seq::empty())
    &&& d.use_global_settings == bool_or(args.use_global_settings, true)
    &&& d.filtering_enabled == bool_or(args.filtering_enabled, true)
    &&& d.parental_enabled == bool_or(args.parental_enabled, false)
    &&& d.safebrowsing_enabled == bool_or(args.safebrowsing_enabled, true)
    &&& d.safesearch_enabled == bool_or(args.safesearch_enabled, false)
}

/// Whether `d` is `current` with what the arguments give replaced.
pub open spec fn merged_device(
    args: ClientsArgs,
    current: AdGuardClientDevice,
    d: AdGuardClientDevice,
) -> bool {
    &&& d.name@ == text_or(args.name, current.name@)
    &&& d.ids.deep_view() == texts_or(args.ids, current.ids.deep_view())
    &&& d.use_global_settings == bool_or(args.use_global_settings, current.use_global_settings)
    &&& d.filtering_enabled == bool_or(args.filtering_enabled, current.filtering_enabled)
    &&& d.parental_enabled == bool_or(args.parental_enabled, current.parental_enabled)
    &&& d.safebrowsing_enabled == bool_or(
        args.safebrowsing_enabled,
        current.safebrowsing_enabled,
    )
    &&& d.safesearch_enabled == bool_or(args.safesearch_enabled, current.safesearch_enabled)
}

/// Updating a client sets its name, its ids and each of its switches from
/// the argument of the same name when it is given and keeps it otherwise.
pub proof fn law_client_settings_follow_their_own_arguments(args: ClientsArgs, current: AdGuardClientDevice, d: AdGuardClientDevice)
    requires
        merged_device(args, current, d),
    ensures
        args.name matches Some(x) ==> d.name@ == x@,
        args.name is None ==> d.name@ == current.name@,
        args.ids matches Some(x) ==> d.ids.deep_view() == texts_of(x@),
        args.ids is None ==> d.ids.deep_view() == current.ids.deep_view(),
        args.use_global_settings matches Some(x) ==> d.use_global_settings == x,
        args.use_global_settings is None ==> d.use_global_settings == current.use_global_settings,
        args.filtering_enabled matches Some(x) ==> d.filtering_enabled == x,
        args.filtering_enabled is None ==> d.filtering_enabled == current.filtering_enabled,
        args.parental_enabled matches Some(x) ==> d.parental_enabled == x,
        args.parental_enabled is None ==> d.parental_enabled == current.parental_enabled,
        args.safebrowsing_enabled matches Some(x) ==> d.safebrowsing_enabled == x,
        args.safebrowsing_enabled is None ==> d.safebrowsing_enabled == current.safebrowsing_enabled,
        args.safesearch_enabled matches Some(x) ==> d.safesearch_enabled == x,
        args.safesearch_enabled is None ==> d.safesearch_enabled == current.safesearch_enabled,
{
}

/// A new client takes its name, its ids and each of its switches from the
/// argument of the same name when it is given; otherwise it has no name and
/// no ids, uses the global settings, and has filtering and safe browsing
/// on, parental control and safe search off.
pub proof fn law_new_client_follows_its_arguments(args: ClientsArgs, d: AdGuardClientDevice)
    requires
        new_device(args, d),
    ensures
        args.name matches Some(x) ==> d.name@ == x@,
        args.name is None ==> d.name@ == Seq::<char>::empty(),
        args.ids matches Some(x) ==> d.ids.deep_view() == texts_of(x@),
        args.ids is None ==> d.ids.deep_view() == Seq::<Seq<char>>::empty(),
        args.use_global_settings matches Some(x) ==> d.use_global_settings == x,
        args.use_global_settings is None ==> d.use_global_settings,
        args.filtering_enabled matches Some(x) ==> d.filtering_enabled == x,
        args.filtering_enabled is None ==> d.filtering_enabled,
        args.parental_enabled matches Some(x) ==> d.parental_enabled == x,
        args.parental_enabled is None ==> !d.parental_enabled,
        args.safebrowsing_enabled matches Some(x) ==> d.safebrowsing_enabled == x,
        args.safebrowsing_enabled is None ==> d.safebrowsing_enabled,
        args.safesearch_enabled matches Some(x) ==> d.safesearch_enabled == x,
        args.safesearch_enabled is None ==> !d.safesearch_enabled,
{
}

/// Whether `res` is `current` with each list that the arguments give
/// replaced.
pub open spec fn access_applied(args: ClientsArgs, current: AccessList, res: AccessList) -> bool {
    &&& res.allowed_clients.deep_view() == texts_or(
        args.allowed_clients,
        current.allowed_clients.deep_view(),
    )
    &&& res.disallowed_clients.deep_view() == texts_or(
        args.disallowed_clients,
        current.disallowed_clients.deep_view(),
    )
    &&& res.blocked_hosts.deep_view() == texts_or(
        args.blocked_hosts,
        current.blocked_hosts.deep_view(),
    )
}

/// Updating the access list replaces each of its three lists by the
/// argument of the same name when that argument is given, its texts in
/// order, and keeps the list as it was otherwise: the allowed clients come
/// only from `allowed_clients`, the disallowed ones only from
/// `disallowed_clients` and the blocked hosts only from `blocked_hosts`.
pub proof fn law_access_lists_follow_their_own_arguments(
    args: ClientsArgs,
    current: AccessList,
    res: AccessList,
)
    requires
        access_applied(args, current, res),
    ensures
        args.allowed_clients matches Some(v) ==> res.allowed_clients.deep_view() == texts_of(v@),
        args.allowed_clients is None ==> res.allowed_clients.deep_view()
            == current.allowed_clients.deep_view(),
        args.disallowed_clients matches Some(v) ==> res.disallowed_clients.deep_view() == texts_of(
            v@,
        ),
        args.disallowed_clients is None ==> res.disallowed_clients.deep_view()
            == current.disallowed_clients.deep_view(),
        args.blocked_hosts matches Some(v) ==> res.blocked_hosts.deep_view() == texts_of(v@),
        args.blocked_hosts is None ==> res.blocked_hosts.deep_view()
            == current.blocked_hosts.deep_view(),
{
}

/// Whether `l` is the lease the arguments describe; a missing part is
/// empty.
pub open spec fn lease_of(args: ClientsArgs, l: StaticLease) -> bool {
    l.mac@ == or_empty(args.mac) && l.ip@ == or_empty(args.ip) && l.hostname@ == or_empty(
        args.hostname,
    )
}

/// The number of query log entries the activity report reads: the `limit`
/// argument truncated to 32 bits as `as` does, 50 when absent.
pub open spec fn report_limit(args: ClientsArgs) -> u32 {
    match args.limit {
        Some(l) => l as u32,
        None => 50,
    }
}

impl ClientsArgs {
    /// The client that `add_client` adds.
    pub fn device(&self) -> (res: AdGuardClientDevice)
        ensures
            new_device(*self, res),
    {
        let ids = match &self.ids {
            Some(v) => collect_texts(v),
            None => Vec::new(),
        };
        assert(ids.deep_view() =~= texts_or(self.ids, Seq::empty()));
        AdGuardClientDevice {
            name: text_or_empty(&self.name),
            ids,
            use_global_settings: set_bool(self.use_global_settings, true),
            filtering_enabled: set_bool(self.filtering_enabled, true),
            parental_enabled: set_bool(self.parental_enabled, false),
            safebrowsing_enabled: set_bool(self.safebrowsing_enabled, true),
            safesearch_enabled: set_bool(self.safesearch_enabled, false),
        }
    }

    /// `current` with what the arguments give replaced.
    pub fn merge_device(&self, current: AdGuardClientDevice) -> (res: AdGuardClientDevice)
        ensures
            merged_device(*self, current, res),
    {
        AdGuardClientDevice {
            name: set_text(&self.name, current.name),
            ids: set_texts(&self.ids, current.ids),
            use_global_settings: set_bool(self.use_global_settings, current.use_global_settings),
            filtering_enabled: set_bool(self.filtering_enabled, current.filtering_enabled),
            parental_enabled: set_bool(self.parental_enabled, current.parental_enabled),
            safebrowsing_enabled: set_bool(self.safebrowsing_enabled, current.safebrowsing_enabled),
            safesearch_enabled: set_bool(self.safesearch_enabled, current.safesearch_enabled),
        }
    }

    /// `current` with each list that the arguments give replaced.
    pub fn apply_access(&self, current: AccessList) -> (res: AccessList)
        ensures
            access_applied(*self, current, res),
    {
        AccessList {
            allowed_clients: set_texts(&self.allowed_clients, current.allowed_clients),
            disallowed_clients: set_texts(&self.disallowed_clients, current.disallowed_clients),
            blocked_hosts: set_texts(&self.blocked_hosts, current.blocked_hosts),
        }
    }

    /// The lease the arguments describe.
    pub fn lease(&self) -> (res: StaticLease)
        ensures
            lease_of(*self, res),
    {
        StaticLease {
            mac: text_or_empty(&self.mac),
            ip: text_or_empty(&self.ip),
            hostname: text_or_empty(&self.hostname),
        }
    }
}

/// What the tool does first for `action` with the arguments `args`.
pub open spec fn clients_first_step(action: ClientsAction, args: ClientsArgs, res: Step) -> bool {
    match action {
        ClientsAction::ListClients => res matches Step::Show(ApiCall::ListClients),
        ClientsAction::GetClientInfo | ClientsAction::UpdateClient => res matches Step::Read(
            ApiCall::ListClients,
        ),
        ClientsAction::AddClient => res matches Step::Send(ApiCall::AddClient(d), t)
            && new_device(args, d) && t@ == "Client added"@,
        ClientsAction::DeleteClient => res matches Step::Send(ApiCall::DeleteClient(n), t) && n@
            == or_empty(args.name) && t@ == "Client removed"@,
        ClientsAction::GetActivityReport => res matches Step::Read(
            ApiCall::GetQueryLog { search, filter, limit },
        ) && search matches Some(s) && s@ == or_empty(args.identifier) && filter is None
            && limit == Some(report_limit(args)),
        ClientsAction::GetAccessList => res matches Step::Show(ApiCall::GetAccessList),
        ClientsAction::UpdateAccessList => res matches Step::Read(ApiCall::GetAccessList),
        ClientsAction::ListDhcpLeases => res matches Step::Read(ApiCall::GetDhcpStatus),
        ClientsAction::AddStaticLease => res matches Step::Send(ApiCall::AddStaticLease(l), t)
            && lease_of(args, l) && t@ == "Static lease added"@,
        ClientsAction::RemoveStaticLease => res matches Step::Send(
            ApiCall::RemoveStaticLease(l),
            t,
        ) && lease_of(args, l) && t@ == "Static lease removed"@,
    }
}

/// Where the first request of each action of the clients tool goes: the method,
/// the endpoint of the AdGuard Home control API, and the reply where the
/// request is the whole action.
pub proof fn law_clients_actions_reach_their_endpoints(action: ClientsAction, args: ClientsArgs, res: Step)
    requires
        clients_first_step(action, args, res),
    ensures
        action == ClientsAction::ListClients ==> (res matches Step::Show(c) && call_method(c) == HttpMethod::Get && call_target(c) == "/control/clients"@),
        action == ClientsAction::GetClientInfo ==> (res matches Step::Read(c) && call_method(c) == HttpMethod::Get && call_target(c) == "/control/clients"@),
        action == ClientsAction::UpdateClient ==> (res matches Step::Read(c) && call_method(c) == HttpMethod::Get && call_target(c) == "/control/clients"@),
        action == ClientsAction::AddClient ==> (res matches Step::Send(c, t) && call_method(c) == HttpMethod::Post && call_target(c) == "/control/clients/add"@ && t@ == "Client added"@),
        action == ClientsAction::DeleteClient ==> (res matches Step::Send(c, t) && call_method(c) == HttpMethod::Post && call_target(c) == "/control/clients/delete"@ && t@ == "Client removed"@ && (c matches ApiCall::DeleteClient(n) && n@ == or_empty(args.name))),
        action == ClientsAction::GetActivityReport ==> (res matches Step::Read(c) && call_method(c) == HttpMethod::Get && (c matches ApiCall::GetQueryLog { search, filter, limit } && search matches Some(s) && s@ == or_empty(args.identifier))),
        action == ClientsAction::GetAccessList ==> (res matches Step::Show(c) && call_method(c) == HttpMethod::Get && call_target(c) == "/control/access/list"@),
        action == ClientsAction::UpdateAccessList ==> (res matches Step::Read(c) && call_method(c) == HttpMethod::Get && call_target(c) == "/control/access/list"@),
        action == ClientsAction::ListDhcpLeases ==> (res matches Step::Read(c) && call_method(c) == HttpMethod::Get && call_target(c) == "/control/dhcp/status"@),
        action == ClientsAction::AddStaticLease ==> (res matches Step::Send(c, t) && call_method(c) == HttpMethod::Post && call_target(c) == "/control/dhcp/add_static_lease"@ && t@ == "Static lease added"@),
        action == ClientsAction::RemoveStaticLease ==> (res matches Step::Send(c, t) && call_method(c) == HttpMethod::Post && call_target(c) == "/control/dhcp/remove_static_lease"@ && t@ == "Static lease removed"@),
{
}


/// What the tool does first for `action`. Looking a client up and updating
/// one read the clients, the activity report reads the client's query log,
/// updating the access list reads it and listing the leases reads the DHCP
/// status; each then goes on with its own function.
pub fn step(action: ClientsAction, args: &ClientsArgs) -> (res: Step)
    ensures
        clients_first_step(action, *args, res),
{
    match action {
        ClientsAction::ListClients => Step::Show(ApiCall::ListClients),
        ClientsAction::GetClientInfo => Step::Read(ApiCall::ListClients),
        ClientsAction::UpdateClient => Step::Read(ApiCall::ListClients),
        ClientsAction::AddClient => Step::Send(
            ApiCall::AddClient(args.device()),
            String::from_str("Client added"),
        ),
        ClientsAction::DeleteClient => Step::Send(
            ApiCall::DeleteClient(text_or_empty(&args.name)),
            String::from_str("Client removed"),
        ),
        ClientsAction::GetActivityReport => {
            let limit = match args.limit {
                Some(l) => l as u32,
                None => 50,
            };
            Step::Read(
                ApiCall::GetQueryLog {
                    search: Some(text_or_empty(&args.identifier)),
                    filter: None,
                    limit: Some(limit),
                },
            )
        },
        ClientsAction::GetAccessList => Step::Show(ApiCall::GetAccessList),
        ClientsAction::UpdateAccessList => Step::Read(ApiCall::GetAccessList),
        ClientsAction::ListDhcpLeases => Step::Read(ApiCall::GetDhcpStatus),
        ClientsAction::AddStaticLease => Step::Send(
            ApiCall::AddStaticLease(args.lease()),
            String::from_str("Static lease added"),
        ),
        ClientsAction::RemoveStaticLease => Step::Send(
            ApiCall::RemoveStaticLease(args.lease()),
            String::from_str("Static lease removed"),
        ),
    }
}

/// What `update_client` does once the clients are read: store the client
/// that the `old_name` argument designates, as [`AdGuardClient::find_client`]
/// finds it, merged with the arguments; it fails when there is none.
pub fn update_client(args: &ClientsArgs, clients: Vec<AdGuardClientDevice>) -> (res: Result<
    Step,
    Error,
>)
    ensures
        match res {
            Ok(s) => exists|i: int|
                #![trigger clients@[i]]
                0 <= i < clients@.len() && client_matches(clients@[i], or_empty(args.old_name))
                    && (forall|j: int|
                    0 <= j < i ==> !client_matches(#[trigger] clients@[j], or_empty(args.old_name)))
                    && (s matches Step::Send(ApiCall::UpdateClient { old_name, device }, t)
                    && old_name@ == or_empty(args.old_name) && merged_device(
                    *args,
                    clients@[i],
                    device,
                ) && t@ == "Client updated"@),
            Err(e) => (forall|i: int|
                0 <= i < clients@.len() ==> !client_matches(
                    #[trigger] clients@[i],
                    or_empty(args.old_name),
                )) && (e matches Error::Generic(m) && m@ == "Client not found: "@ + or_empty(
                args.old_name,
            )),
        },
{
    let old = text_or_empty(&args.old_name);
    let current = AdGuardClient::find_client(clients, old.as_str())?;
    let device = args.merge_device(current);
    Ok(Step::Send(ApiCall::UpdateClient { old_name: old, device }, String::from_str("Client updated")))
}

/// What `update_access_list` does once the access list `current` is read:
/// store it updated by the arguments.
pub fn update_access_list(args: &ClientsArgs, current: AccessList) -> (res: Step)
    ensures
        res matches Step::Send(ApiCall::SetAccessList(l), t) && access_applied(*args, current, l)
            && t@ == "Access list updated"@,
{
    Step::Send(ApiCall::SetAccessList(args.apply_access(current)), String::from_str("Access list updated"))
}

/// The lines of the dynamic leases.
pub open spec fn lease_lines(leases: Seq<DhcpLease>) -> Seq<char>
    decreases leases.len(),
{
    if leases.len() == 0 {
        Seq::empty()
    } else {
        let l = leases.last();
        lease_lines(leases.drop_last()) + "- "@ + l.hostname@ + " ("@ + l.ip@ + ") expires "@
            + match l.expires {
            Some(e) => e@,
            None => "Never"@,
        } + "\n"@
    }
}

/// The lines of the static leases.
pub open spec fn static_lines(leases: Seq<StaticLease>) -> Seq<char>
    decreases leases.len(),
{
    if leases.len() == 0 {
        Seq::empty()
    } else {
        let l = leases.last();
        static_lines(leases.drop_last()) + "- "@ + l.hostname@ + " ("@ + l.ip@ + ") ["@ + l.mac@
            + "]\n"@
    }
}

/// The listing of the DHCP leases.
pub open spec fn dhcp_text(s: DhcpStatus) -> Seq<char> {
    "DHCP Enabled: "@ + bool_text(s.enabled) + ", Interface: "@ + s.interface_name@
        + "\nDynamic:\n"@ + lease_lines(s.leases@) + "Static:\n"@ + static_lines(s.static_leases@)
}

/// The listing of the DHCP leases in `s`.
pub fn dhcp_report(s: &DhcpStatus) -> (res: String)
    ensures
        res@ == dhcp_text(*s),
{
    let mut text = String::from_str("DHCP Enabled: ");
    text.append(bool_str(s.enabled));
    text.append(", Interface: ");
    text.append(s.interface_name.as_str());
    text.append("\nDynamic:\n");
    let ghost head = text@;
    let n = s.leases.len();
    let mut i: usize = 0;
    assert(s.leases@.take(0) =~= Seq::<DhcpLease>::empty());
    while i < n
        invariant
            n == s.leases@.len(),
            0 <= i <= n,
            text@ == head + lease_lines(s.leases@.take(i as int)),
        decreases n - i,
    {
        let l = &s.leases[i];
        assert(s.leases@.take(i + 1).drop_last() =~= s.leases@.take(i as int));
        text.append("- ");
        text.append(l.hostname.as_str());
        text.append(" (");
        text.append(l.ip.as_str());
        text.append(") expires ");
        match &l.expires {
            Some(e) => text.append(e.as_str()),
            None => text.append("Never"),
        }
        text.append("\n");
        i = i + 1;
    }
    assert(s.leases@.take(n as int) =~= s.leases@);
    text.append("Static:\n");
    let ghost mid = text@;
    let m = s.static_leases.len();
    let mut k: usize = 0;
    assert(s.static_leases@.take(0) =~= Seq::<StaticLease>::empty());
    while k < m
        invariant
            m == s.static_leases@.len(),
            0 <= k <= m,
            text@ == mid + static_lines(s.static_leases@.take(k as int)),
        decreases m - k,
    {
        let l = &s.static_leases[k];
        assert(s.static_leases@.take(k + 1).drop_last() =~= s.static_leases@.take(k as int));
        text.append("- ");
        text.append(l.hostname.as_str());
        text.append(" (");
        text.append(l.ip.as_str());
        text.append(") [");
        text.append(l.mac.as_str());
        text.append("]\n");
        k = k + 1;
    }
    assert(s.static_leases@.take(m as int) =~= s.static_leases@);
    text
}

/// The domain names asked for in the entries, in order.
pub open spec fn query_names(es: Seq<QueryLogEntry>) -> Seq<Seq<char>> {
    Seq::new(es.len(), |i: int| es[i].question.name@)
}

/// How many times `d` occurs in `ns`.
pub open spec fn count_of(ns: Seq<Seq<char>>, d: Seq<char>) -> nat
    decreases ns.len(),
{
    if ns.len() == 0 {
        0
    } else {
        count_of(ns.drop_last(), d) + if ns.last() == d {
            1nat
        } else {
            0nat
        }
    }
}

/// Whether an entry counts as blocked: it has a reason, which is not
/// `NotFilteredNotFound`, and its status is not `NOERROR`.
pub open spec fn is_blocked(e: QueryLogEntry) -> bool {
    e.reason@ != "NotFilteredNotFound"@ && e.reason@.len() > 0 && e.status@ != "NOERROR"@
}

/// How many entries count as blocked.
pub open spec fn blocked_count(es: Seq<QueryLogEntry>) -> nat
    decreases es.len(),
{
    if es.len() == 0 {
        0
    } else {
        blocked_count(es.drop_last()) + if is_blocked(es.last()) {
            1nat
        } else {
            0nat
        }
    }
}

/// Whether `top` lists the most asked domains of `ns`, at most `limit` of
/// them: each with its number of occurrences, no domain twice, in
/// non-increasing order of occurrences, and every domain left out occurring
/// no more often than the last one listed (all are listed when fewer than
/// `limit` are). Among domains that occur equally often, which are listed
/// first is not stated.
pub open spec fn is_top_domains(ns: Seq<Seq<char>>, top: Seq<(Seq<char>, nat)>, limit: nat) -> bool {
    &&& top.len() <= limit
    &&& forall|a: int|
        0 <= a < top.len() ==> ns.contains((#[trigger] top[a]).0) && top[a].1 == count_of(
            ns,
            top[a].0,
        )
    &&& forall|a: int, b: int| 0 <= a < b < top.len() ==> (#[trigger] top[a]).0 != (#[trigger] top[b]).0
    &&& forall|a: int, b: int| 0 <= a < b < top.len() ==> (#[trigger] top[a]).1 >= (#[trigger] top[b]).1
    &&& forall|d: Seq<char>|
        #[trigger] ns.contains(d) && !(exists|a: int| 0 <= a < top.len() && top[a].0 == d) ==> top.len()
            == limit && limit > 0 && count_of(ns, d) <= top[limit - 1].1
}

/// The lines of the most asked domains.
pub open spec fn top_lines(top: Seq<(Seq<char>, nat)>) -> Seq<char>
    decreases top.len(),
{
    if top.len() == 0 {
        Seq::empty()
    } else {
        top_lines(top.drop_last()) + "- "@ + top.last().0 + ": "@ + decimal(top.last().1) + "\n"@
    }
}

/// The activity report of the client `id` from its query log entries `es`,
/// given the most asked domains `top`.
pub open spec fn activity_text(id: Seq<char>, es: Seq<QueryLogEntry>, top: Seq<(Seq<char>, nat)>) -> Seq<
    char,
> {
    if es.len() == 0 {
        "No activity for "@ + id
    } else {
        "Report for "@ + id + ": Analyzed="@ + decimal(es.len()) + ", Blocked="@ + decimal(
            blocked_count(es),
        ) + "\nTop Domains:\n"@ + top_lines(top)
    }
}

/// Occurrences grow by one for the item added.
proof fn lemma_count_step(ns: Seq<Seq<char>>, i: int, d: Seq<char>)
    requires
        0 <= i < ns.len(),
    ensures
        count_of(ns.take(i + 1), d) == count_of(ns.take(i), d) + if ns[i] == d {
            1nat
        } else {
            0nat
        },
{
    assert(ns.take(i + 1).drop_last() =~= ns.take(i));
}

/// An item that does not occur is counted zero times; none occurs more
/// often than the length.
proof fn lemma_count_bounds(ns: Seq<Seq<char>>, d: Seq<char>)
    ensures
        count_of(ns, d) <= ns.len(),
        !ns.contains(d) ==> count_of(ns, d) == 0,
    decreases ns.len(),
{
    if ns.len() > 0 {
        lemma_count_bounds(ns.drop_last(), d);
        if !ns.contains(d) {
            if ns.drop_last().contains(d) {
                let i = choose|i: int| 0 <= i < ns.drop_last().len() && ns.drop_last()[i] == d;
                assert(ns[i] == d);
            }
            assert(ns[ns.len() - 1] == ns.last());
        }
    }
}

/// The distinct domains of `es` in order of first appearance, with how
/// often each is asked for.
#[verifier::spinoff_prover]
fn tally(es: &Vec<QueryLogEntry>) -> (res: (Vec<String>, Vec<usize>))
    ensures
        res.0@.len() == res.1@.len(),
        res.0.deep_view().no_duplicates(),
        forall|d: Seq<char>| query_names(es@).contains(d) <==> #[trigger] res.0.deep_view().contains(d),
        forall|k: int|
            0 <= k < res.1@.len() ==> #[trigger] res.1@[k] == count_of(
                query_names(es@),
                res.0.deep_view()[k],
            ),
{
    let ghost ns = query_names(es@);
    let mut names: Vec<String> = Vec::new();
    let mut counts: Vec<usize> = Vec::new();
    let n = es.len();
    let mut i: usize = 0;
    while i < n
        invariant
            n == es@.len(),
            ns == query_names(es@),
            0 <= i <= n,
            names@.len() == counts@.len(),
            names.deep_view().no_duplicates(),
            forall|d: Seq<char>| ns.take(i as int).contains(d) <==> #[trigger] names.deep_view().contains(d),
            forall|k: int|
                0 <= k < counts@.len() ==> #[trigger] counts@[k] == count_of(
                    ns.take(i as int),
                    names.deep_view()[k],
                ),
            forall|k: int| 0 <= k < counts@.len() ==> #[trigger] counts@[k] <= i,
        decreases n - i,
    {
        let name = es[i].question.name.clone();
        let ghost x = name@;
        assert(ns[i as int] == x);
        let ghost old_names = names.deep_view();
        let ghost old_counts = counts@;
        let ghost t0 = ns.take(i as int);
        let ghost t1 = ns.take(i + 1);
        proof {
            assert(t1 =~= t0.push(x));
            assert forall|d: Seq<char>| #[trigger] t1.contains(d) <==> (t0.contains(d) || d == x) by {
                if t1.contains(d) {
                    let j = choose|j: int| 0 <= j < t1.len() && t1[j] == d;
                    if j < i {
                        assert(t0[j] == d);
                    }
                }
                if t0.contains(d) {
                    let j = choose|j: int| 0 <= j < t0.len() && t0[j] == d;
                    assert(t1[j] == d);
                }
                assert(t1[i as int] == x);
            }
        }
        match crate::text::position_of(&names, &name) {
            Some(k) => {
                let c = counts[k];
                counts.set(k, c + 1);
                proof {
                    assert forall|q: int| 0 <= q < counts@.len() implies #[trigger] counts@[q]
                        == count_of(ns.take(i + 1), names.deep_view()[q]) by {
                        lemma_count_step(ns, i as int, names.deep_view()[q]);
                        if q != k as int {
                            assert(names.deep_view()[q] != x) by {
                                assert(old_names[k as int] == x);
                            }
                        }
                    }
                    assert forall|d: Seq<char>| t1.contains(d) <==> #[trigger] names.deep_view().contains(d) by {
                        if d == x {
                            assert(names.deep_view()[k as int] == x);
                        }
                    }
                }
            },
            None => {
                names.push(name);
                counts.push(1);
                proof {
                    assert(names.deep_view() =~= old_names.push(x));
                    assert(!ns.take(i as int).contains(x));
                    lemma_count_bounds(ns.take(i as int), x);
                    assert forall|q: int| 0 <= q < counts@.len() implies #[trigger] counts@[q]
                        == count_of(ns.take(i + 1), names.deep_view()[q]) by {
                        lemma_count_step(ns, i as int, names.deep_view()[q]);
                        if q < old_counts.len() {
                            assert(names.deep_view()[q] == old_names[q]);
                            assert(old_names[q] != x) by {
                                assert(old_names.contains(old_names[q]));
                            }
                        }
                    }
                    assert forall|d: Seq<char>| t1.contains(d) <==> #[trigger] names.deep_view().contains(d) by {
                        if names.deep_view().contains(d) {
                            let j = choose|j: int| 0 <= j < names.deep_view().len() && names.deep_view()[j] == d;
                            if j < old_names.len() {
                                assert(old_names[j] == d);
                            }
                        }
                        if old_names.contains(d) {
                            let j = choose|j: int| 0 <= j < old_names.len() && old_names[j] == d;
                            assert(names.deep_view()[j] == d);
                        }
                        assert(names.deep_view()[old_names.len() as int] == x);
                    }
                    assert forall|a: int, b: int|
                        0 <= a < names.deep_view().len() && 0 <= b < names.deep_view().len() && a != b implies
                        names.deep_view()[a] != names.deep_view()[b] by {
                        if a < old_names.len() && b < old_names.len() {
                            assert(old_names[a] != old_names[b]);
                        } else if a < old_names.len() {
                            assert(old_names.contains(old_names[a]));
                        } else if b < old_names.len() {
                            assert(old_names.contains(old_names[b]));
                        }
                    }
                }
            },
        }
        i = i + 1;
    }
    assert(ns.take(n as int) =~= ns);
    (names, counts)
}

/// The indices of the `limit` largest counts, largest first, no index twice;
/// every index left out has a count no larger than the last one picked, and
/// all are picked when fewer than `limit` are.
#[verifier::spinoff_prover]
fn pick_top(counts: &Vec<usize>, limit: usize) -> (top: Vec<usize>)
    requires
        limit > 0,
    ensures
        top@.len() <= limit,
        forall|a: int| 0 <= a < top@.len() ==> #[trigger] top@[a] < counts@.len(),
        forall|a: int, b: int| 0 <= a < b < top@.len() ==> #[trigger] top@[a] != #[trigger] top@[b],
        forall|a: int, b: int|
            0 <= a < b < top@.len() ==> counts@[#[trigger] top@[a] as int] >= counts@[#[trigger] top@[b] as int],
        forall|j: usize|
            #![trigger top@.contains(j)]
            j < counts@.len() && !top@.contains(j) ==> top@.len() == limit && counts@[j as int]
                <= counts@[top@[limit - 1] as int],
{
    let m = counts.len();
    let mut picked: Vec<bool> = Vec::new();
    let mut z: usize = 0;
    while z < m
        invariant
            m == counts@.len(),
            0 <= z <= m,
            picked@.len() == z,
            forall|j: int| 0 <= j < z ==> !(#[trigger] picked@[j]),
        decreases m - z,
    {
        picked.push(false);
        z = z + 1;
    }
    let mut top: Vec<usize> = Vec::new();
    let mut done = false;
    while top.len() < limit && !done
        invariant
            m == counts@.len(),
            picked@.len() == m,
            top@.len() <= limit,
            forall|a: int| 0 <= a < top@.len() ==> #[trigger] top@[a] < m,
            forall|a: int, b: int| 0 <= a < b < top@.len() ==> #[trigger] top@[a] != #[trigger] top@[b],
            forall|j: int| 0 <= j < m ==> (#[trigger] picked@[j] <==> top@.contains(j as usize)),
            forall|a: int, b: int|
                0 <= a < b < top@.len() ==> counts@[#[trigger] top@[a] as int] >= counts@[#[trigger] top@[b] as int],
            forall|j: int|
                0 <= j < m && !(#[trigger] picked@[j]) && top@.len() > 0 ==> counts@[j]
                    <= counts@[top@[top@.len() - 1] as int],
            done ==> forall|j: int| 0 <= j < m ==> #[trigger] picked@[j],
        decreases limit - top@.len(), if done { 0int } else { 1int },
    {
        let mut best: Option<usize> = None;
        let mut j: usize = 0;
        while j < m
            invariant
                m == counts@.len(),
                picked@.len() == m,
                0 <= j <= m,
                match best {
                    Some(b) => b < j && !picked@[b as int] && forall|q: int|
                        0 <= q < j && !(#[trigger] picked@[q]) ==> counts@[q] <= counts@[b as int],
                    None => forall|q: int| 0 <= q < j ==> #[trigger] picked@[q],
                },
            decreases m - j,
        {
            if !picked[j] {
                match best {
                    Some(b) => {
                        if counts[j] > counts[b] {
                            best = Some(j);
                        }
                    },
                    None => {
                        best = Some(j);
                    },
                }
            }
            j = j + 1;
        }
        match best {
            Some(b) => {
                let ghost old_top = top@;
                let ghost old_picked = picked@;
                top.push(b);
                picked.set(b, true);
                proof {
                    assert forall|q: int| 0 <= q < m implies (#[trigger] picked@[q] <==> top@.contains(q as usize)) by {
                        if q == b as int {
                            assert(top@[old_top.len() as int] == b);
                        } else {
                            assert(picked@[q] == old_picked[q]);
                            if top@.contains(q as usize) {
                                let a = choose|a: int| 0 <= a < top@.len() && top@[a] == q as usize;
                                assert(a < old_top.len());
                                assert(old_top[a] == q as usize);
                            }
                            if old_top.contains(q as usize) {
                                let a = choose|a: int| 0 <= a < old_top.len() && old_top[a] == q as usize;
                                assert(top@[a] == q as usize);
                            }
                        }
                    }
                    assert forall|a: int, c: int| 0 <= a < c < top@.len() implies #[trigger] top@[a] != #[trigger] top@[c] by {
                        if c == old_top.len() {
                            assert(old_top.contains(top@[a]));
                            assert(old_picked[top@[a] as int]);
                        }
                    }
                    assert forall|a: int, c: int|
                        0 <= a < c < top@.len() implies counts@[#[trigger] top@[a] as int] >= counts@[#[trigger] top@[c] as int] by {
                        if c == old_top.len() && old_top.len() > 0 {
                            assert(counts@[b as int] <= counts@[old_top[old_top.len() - 1] as int]);
                            if a < old_top.len() - 1 {
                                assert(counts@[old_top[a] as int] >= counts@[old_top[old_top.len() - 1] as int]);
                            }
                        }
                    }
                }
            },
            None => {
                done = true;
            },
        }
    }
    proof {
        assert forall|j: usize|
            #![trigger top@.contains(j)]
            j < counts@.len() && !top@.contains(j) implies top@.len() == limit && counts@[j as int]
                <= counts@[top@[limit - 1] as int] by {
            assert(!picked@[j as int]);
        }
    }
    top
}

/// The activity report of the client `id` from its query log entries:
/// how many were analysed and blocked, and the five most asked domains.
/// Among domains asked equally often, the first asked is listed first.
#[verifier::spinoff_prover]
pub fn activity_report(id: &str, es: &Vec<QueryLogEntry>) -> (res: String)
    ensures
        exists|top: Seq<(Seq<char>, nat)>|
            is_top_domains(query_names(es@), top, 5) && res@ == activity_text(id@, es@, top),
{
    let ghost ns = query_names(es@);
    let (names, counts) = tally(es);
    let nlen = names.len();
    let top = pick_top(&counts, 5);
    let ghost pairs: Seq<(Seq<char>, nat)> = Seq::new(
        top@.len(),
        |a: int| (names.deep_view()[top@[a] as int], counts@[top@[a] as int] as nat),
    );
    let n = es.len();
    let mut blocked: usize = 0;
    let mut i: usize = 0;
    while i < n
        invariant
            n == es@.len(),
            0 <= i <= n,
            blocked == blocked_count(es@.take(i as int)),
            blocked <= i,
        decreases n - i,
    {
        assert(es@.take(i + 1).drop_last() =~= es@.take(i as int));
        let e = &es[i];
        if !str_eq(e.reason.as_str(), "NotFilteredNotFound") && e.reason.unicode_len() > 0
            && !str_eq(e.status.as_str(), "NOERROR") {
            blocked = blocked + 1;
        }
        i = i + 1;
    }
    assert(es@.take(n as int) =~= es@);
    if n == 0 {
        let mut text = String::from_str("No activity for ");
        text.append(id);
        proof {
            assert(is_top_domains(ns, Seq::empty(), 5));
        }
        return text;
    }
    let mut text = String::from_str("Report for ");
    text.append(id);
    text.append(": Analyzed=");
    push_decimal(&mut text, n as u64);
    text.append(", Blocked=");
    push_decimal(&mut text, blocked as u64);
    text.append("\nTop Domains:\n");
    let ghost head = text@;
    let t = top.len();
    let mut a: usize = 0;
    while a < t
        invariant
            t == top@.len(),
            0 <= a <= t,
            forall|q: int| 0 <= q < t ==> #[trigger] top@[q] < counts@.len(),
            names@.len() == counts@.len(),
            pairs.len() == t,
            forall|q: int| 0 <= q < t ==> #[trigger] pairs[q] == (names.deep_view()[top@[q] as int], counts@[top@[q] as int] as nat),
            text@ == head + top_lines(pairs.take(a as int)),
        decreases t - a,
    {
        let k = top[a];
        assert(pairs.take(a + 1).drop_last() =~= pairs.take(a as int));
        assert(names.deep_view()[k as int] == names@[k as int]@);
        text.append("- ");
        text.append(names[k].as_str());
        text.append(": ");
        push_decimal(&mut text, counts[k] as u64);
        text.append("\n");
        a = a + 1;
    }
    assert(pairs.take(t as int) =~= pairs);
    proof {
        assert forall|d: Seq<char>|
            #[trigger] ns.contains(d) && !(exists|q: int| 0 <= q < pairs.len() && pairs[q].0 == d)
            implies pairs.len() == 5 && count_of(ns, d) <= pairs[4].1 by {
            assert(names.deep_view().contains(d));
            let k = choose|k: int| 0 <= k < names.deep_view().len() && names.deep_view()[k] == d;
            assert(0 <= k < nlen as int);
            let ku = k as usize;
            assert(ku as int == k);
            if top@.contains(ku) {
                let q = choose|q: int| 0 <= q < top@.len() && top@[q] == ku;
                assert(top@[q] as int == k);
                assert(pairs[q] == (
                    names.deep_view()[top@[q] as int],
                    counts@[top@[q] as int] as nat,
                ));
                assert(pairs[q].0 == names.deep_view()[k]);
                assert(pairs[q].0 == d);
            }
            assert(counts@[ku as int] <= counts@[top@[4] as int]);
        }
        assert forall|q: int, r: int| 0 <= q < r < pairs.len() implies (#[trigger] pairs[q]).0
            != (#[trigger] pairs[r]).0 by {
            assert(top@[q] != top@[r]);
        }
        assert forall|q: int| 0 <= q < pairs.len() implies ns.contains((#[trigger] pairs[q]).0)
            && pairs[q].1 == count_of(ns, pairs[q].0) by {
            assert(names.deep_view().contains(names.deep_view()[top@[q] as int]));
        }
        assert(is_top_domains(ns, pairs, 5));
    }
    text
}

} // verus!
