//! The requests the client sends to an AdGuard Home instance, and the
//! decisions it takes on the answers.
//!
//! Sending a request and decoding its answer is done outside the verified
//! library; here each call of the control API is turned into the exact
//! method, URL, body and credentials to send.
use vstd::prelude::*;
use super::models::{
    AccessList, AddFilterRequest, AdGuardClientDevice, DeleteClientRequest, DhcpStatus, DnsConfig,
    DnsRewrite, ProfileInfo, QueryLogConfig, RemoveFilterRequest, SafeSearchConfig,
    SetFilterUrlData, SetFilterUrlRequest, SetRulesRequest, StaticLease, Status, TlsConfig,
    UpdateClientRequest, UpdateFilterData, UpdateFilterRequest, VersionInfo,
};
use crate::config::InstanceConfig;
use crate::error::Error;
use crate::text::{decimal, push_decimal, join_strings, seq_join};

verus! {

/// The HTTP method of a request.
#[derive(Debug, Clone, Copy, PartialEq, Eq, Structural)]
pub enum HttpMethod {
    Get,
    Post,
    Put,
}

/// The credentials sent with every request: the `X-API-Key` header, basic
/// authentication, or none.
#[derive(Debug, Clone)]
pub enum Auth {
    ApiKey(String),
    Basic { username: String, password: String },
    Anonymous,
}

/// The JSON body of a request. `Protection` is `{"enabled": b}` and
/// `RefreshFilters` is `{"whitelist": false}`.
#[derive(Debug, Clone)]
pub enum RequestBody {
    Empty,
    Protection(bool),
    RefreshFilters,
    Rewrite(DnsRewrite),
    AddFilter(AddFilterRequest),
    SetFilterUrl(SetFilterUrlRequest),
    RemoveFilter(RemoveFilterRequest),
    UpdateFilter(UpdateFilterRequest),
    SetRules(SetRulesRequest),
    ServiceIds(Vec<String>),
    Client(AdGuardClientDevice),
    UpdateClient(UpdateClientRequest),
    DeleteClient(DeleteClientRequest),
    Dhcp(DhcpStatus),
    Profile(ProfileInfo),
    Lease(StaticLease),
    Dns(DnsConfig),
    Access(AccessList),
    QueryLog(QueryLogConfig),
    SafeSearch(SafeSearchConfig),
    Tls(TlsConfig),
}

/// A request ready to be sent. When `check_status` is false, neither a
/// failed connection nor an error status counts as a failure.
#[derive(Debug, Clone)]
pub struct ApiRequest {
    pub method: HttpMethod,
    pub url: String,
    pub body: RequestBody,
    pub check_status: bool,
}

/// A call of the AdGuard Home control API.
#[derive(Debug, Clone)]
pub enum ApiCall {
    GetVersionInfo,
    Update,
    GetQueryLogConfig,
    SetQueryLogConfig(QueryLogConfig),
    GetSafeSearchSettings,
    SetSafeSearchSettings(SafeSearchConfig),
    GetParentalSettings,
    GetStatus,
    GetStats { time_period: Option<String> },
    GetQueryLog { search: Option<String>, filter: Option<String>, limit: Option<u32> },
    ListRewrites,
    AddRewrite(DnsRewrite),
    DeleteRewrite(DnsRewrite),
    SetProtection(bool),
    SetSafeSearch(bool),
    SetSafeBrowsing(bool),
    SetParentalControl(bool),
    ListFilters,
    AddFilter { name: String, url: String, whitelist: bool },
    ToggleFilter { url: String, name: String, enabled: bool },
    RemoveFilter { url: String, whitelist: bool },
    UpdateFilter {
        current_url: String,
        new_url: String,
        name: String,
        whitelist: bool,
        enabled: bool,
    },
    ListClients,
    SetUserRules(Vec<String>),
    ListAllServices,
    ListBlockedServices,
    SetBlockedServices(Vec<String>),
    AddClient(AdGuardClientDevice),
    UpdateClient { old_name: String, device: AdGuardClientDevice },
    DeleteClient(String),
    GetDhcpStatus,
    SetDhcpConfig(DhcpStatus),
    GetProfileInfo,
    SetProfileInfo(ProfileInfo),
    AddStaticLease(StaticLease),
    RemoveStaticLease(StaticLease),
    GetDnsInfo,
    SetDnsConfig(DnsConfig),
    ClearDnsCache,
    GetAccessList,
    SetAccessList(AccessList),
    CheckHost { name: String, client: Option<String> },
    ResetStats,
    ClearQueryLog,
    RestartService { hard: bool },
    GetTlsStatus,
    ConfigureTls(TlsConfig),
    ValidateTls(TlsConfig),
}

/// The path that enables or disables the feature whose path is `feature`.
pub open spec fn switch_path(feature: Seq<char>, enabled: bool) -> Seq<char> {
    feature + if enabled {
        "/enable"@
    } else {
        "/disable"@
    }
}

/// The query parameters of a query log request, in order.
pub open spec fn query_log_params(
    search: Option<String>,
    filter: Option<String>,
    limit: Option<u32>,
) -> Seq<Seq<char>> {
    let a = match search {
        Some(s) => seq!["search="@ + s@],
        None => Seq::empty(),
    };
    let b = match filter {
        Some(f) => seq!["filter="@ + f@],
        None => Seq::empty(),
    };
    let c = match limit {
        Some(l) => seq!["limit="@ + decimal(l as nat)],
        None => Seq::empty(),
    };
    a + b + c
}

/// `?` followed by the parameters joined with `&`, or nothing when there are
/// no parameters.
pub open spec fn query_suffix(params: Seq<Seq<char>>) -> Seq<char> {
    if params.len() == 0 {
        Seq::empty()
    } else {
        "?"@ + seq_join(params, "&"@)
    }
}

/// The path and query of a call, appended to the instance's base URL.
pub open spec fn call_target(call: ApiCall) -> Seq<char> {
    match call {
        ApiCall::GetVersionInfo => "/control/version_info"@,
        ApiCall::Update => "/control/update"@,
        ApiCall::GetQueryLogConfig => "/control/querylog/config"@,
        ApiCall::SetQueryLogConfig(_) => "/control/querylog/config/update"@,
        ApiCall::GetSafeSearchSettings => "/control/safesearch/status"@,
        ApiCall::SetSafeSearchSettings(_) => "/control/safesearch/settings"@,
        ApiCall::GetParentalSettings => "/control/parental/status"@,
        ApiCall::GetStatus => "/control/status"@,
        ApiCall::GetStats { time_period } => "/control/stats"@ + match time_period {
            Some(p) => "?time_period="@ + p@,
            None => Seq::empty(),
        },
        ApiCall::GetQueryLog { search, filter, limit } => "/control/querylog"@ + query_suffix(
            query_log_params(search, filter, limit),
        ),
        ApiCall::ListRewrites => "/control/rewrite/list"@,
        ApiCall::AddRewrite(_) => "/control/rewrite/add"@,
        ApiCall::DeleteRewrite(_) => "/control/rewrite/delete"@,
        ApiCall::SetProtection(_) => "/control/protection"@,
        ApiCall::SetSafeSearch(e) => switch_path("/control/safesearch"@, e),
        ApiCall::SetSafeBrowsing(e) => switch_path("/control/safebrowsing"@, e),
        ApiCall::SetParentalControl(e) => switch_path("/control/parental"@, e),
        ApiCall::ListFilters => "/control/filtering/status"@,
        ApiCall::AddFilter { .. } => "/control/filtering/add_url"@,
        ApiCall::ToggleFilter { .. } => "/control/filtering/set_url"@,
        ApiCall::RemoveFilter { .. } => "/control/filtering/remove_url"@,
        ApiCall::UpdateFilter { .. } => "/control/filtering/set_url"@,
        ApiCall::ListClients => "/control/clients"@,
        ApiCall::SetUserRules(_) => "/control/filtering/set_rules"@,
        ApiCall::ListAllServices => "/control/blocked_services/all"@,
        ApiCall::ListBlockedServices => "/control/blocked_services/list"@,
        ApiCall::SetBlockedServices(_) => "/control/blocked_services/set"@,
        ApiCall::AddClient(_) => "/control/clients/add"@,
        ApiCall::UpdateClient { .. } => "/control/clients/update"@,
        ApiCall::DeleteClient(_) => "/control/clients/delete"@,
        ApiCall::GetDhcpStatus => "/control/dhcp/status"@,
        ApiCall::SetDhcpConfig(_) => "/control/dhcp/set_config"@,
        ApiCall::GetProfileInfo => "/control/profile"@,
        ApiCall::SetProfileInfo(_) => "/control/profile/update"@,
        ApiCall::AddStaticLease(_) => "/control/dhcp/add_static_lease"@,
        ApiCall::RemoveStaticLease(_) => "/control/dhcp/remove_static_lease"@,
        ApiCall::GetDnsInfo => "/control/dns_info"@,
        ApiCall::SetDnsConfig(_) => "/control/dns_config"@,
        ApiCall::ClearDnsCache => "/control/cache_clear"@,
        ApiCall::GetAccessList => "/control/access/list"@,
        ApiCall::SetAccessList(_) => "/control/access/set"@,
        ApiCall::CheckHost { name, client } => "/control/filtering/check_host?name="@ + name@
            + match client {
            Some(c) => "&client="@ + c@,
            None => Seq::empty(),
        },
        ApiCall::ResetStats => "/control/stats_reset"@,
        ApiCall::ClearQueryLog => "/control/querylog_clear"@,
        ApiCall::RestartService { hard } => if hard {
            "/control/restart"@
        } else {
            "/control/filtering/refresh"@
        },
        ApiCall::GetTlsStatus => "/control/tls/status"@,
        ApiCall::ConfigureTls(_) => "/control/tls/configure"@,
        ApiCall::ValidateTls(_) => "/control/tls/validate"@,
    }
}

/// The HTTP method of a call.
pub open spec fn call_method(call: ApiCall) -> HttpMethod {
    match call {
        ApiCall::GetVersionInfo | ApiCall::GetQueryLogConfig | ApiCall::GetSafeSearchSettings
        | ApiCall::GetParentalSettings | ApiCall::GetStatus | ApiCall::GetStats { .. }
        | ApiCall::GetQueryLog { .. } | ApiCall::ListRewrites | ApiCall::ListFilters
        | ApiCall::ListClients | ApiCall::ListAllServices | ApiCall::ListBlockedServices
        | ApiCall::GetDhcpStatus | ApiCall::GetProfileInfo | ApiCall::GetDnsInfo
        | ApiCall::GetAccessList | ApiCall::CheckHost { .. } | ApiCall::GetTlsStatus => HttpMethod::Get,
        ApiCall::SetQueryLogConfig(_) | ApiCall::SetSafeSearchSettings(_)
        | ApiCall::SetProfileInfo(_) => HttpMethod::Put,
        _ => HttpMethod::Post,
    }
}

/// The body of a call.
pub open spec fn call_body(call: ApiCall) -> RequestBody {
    match call {
        ApiCall::SetQueryLogConfig(c) => RequestBody::QueryLog(c),
        ApiCall::SetSafeSearchSettings(s) => RequestBody::SafeSearch(s),
        ApiCall::AddRewrite(r) => RequestBody::Rewrite(r),
        ApiCall::DeleteRewrite(r) => RequestBody::Rewrite(r),
        ApiCall::SetProtection(e) => RequestBody::Protection(e),
        ApiCall::AddFilter { name, url, whitelist } => RequestBody::AddFilter(
            AddFilterRequest { name, url, whitelist },
        ),
        ApiCall::ToggleFilter { url, name, enabled } => RequestBody::SetFilterUrl(
            SetFilterUrlRequest { url, data: SetFilterUrlData { enabled, name, url } },
        ),
        ApiCall::RemoveFilter { url, whitelist } => RequestBody::RemoveFilter(
            RemoveFilterRequest { url, whitelist },
        ),
        ApiCall::UpdateFilter { current_url, new_url, name, whitelist, enabled } =>
            RequestBody::UpdateFilter(
            UpdateFilterRequest {
                url: current_url,
                name,
                whitelist,
                data: UpdateFilterData { name, url: new_url, enabled },
            },
        ),
        ApiCall::SetUserRules(rules) => RequestBody::SetRules(SetRulesRequest { rules }),
        ApiCall::SetBlockedServices(ids) => RequestBody::ServiceIds(ids),
        ApiCall::AddClient(c) => RequestBody::Client(c),
        ApiCall::UpdateClient { old_name, device } => RequestBody::UpdateClient(
            UpdateClientRequest { name: old_name, data: device },
        ),
        ApiCall::DeleteClient(name) => RequestBody::DeleteClient(DeleteClientRequest { name }),
        ApiCall::SetDhcpConfig(d) => RequestBody::Dhcp(d),
        ApiCall::SetProfileInfo(p) => RequestBody::Profile(p),
        ApiCall::AddStaticLease(l) => RequestBody::Lease(l),
        ApiCall::RemoveStaticLease(l) => RequestBody::Lease(l),
        ApiCall::SetDnsConfig(d) => RequestBody::Dns(d),
        ApiCall::SetAccessList(a) => RequestBody::Access(a),
        ApiCall::RestartService { hard } => if hard {
            RequestBody::Empty
        } else {
            RequestBody::RefreshFilters
        },
        ApiCall::ConfigureTls(t) => RequestBody::Tls(t),
        ApiCall::ValidateTls(t) => RequestBody::Tls(t),
        _ => RequestBody::Empty,
    }
}

/// Whether a failure of the call is reported: all calls but the hard
/// restart, whose connection AdGuard Home usually closes before answering.
pub open spec fn call_checks_status(call: ApiCall) -> bool {
    !(call matches ApiCall::RestartService { hard: true })
}

/// Where each call goes: its HTTP method and the path (and query) under the
/// instance's URL, with the body it sends. Each kind of call has its own
/// endpoint of the AdGuard Home control API (adding and deleting a rewrite,
/// resetting the statistics and clearing the query log, switching a
/// feature on and off all differ); only toggling and updating a filter list
/// share `set_url`, with different bodies.
pub proof fn law_endpoint_of_each_call(call: ApiCall)
    ensures
        match call {
            ApiCall::GetVersionInfo => call_method(call) == HttpMethod::Get && call_target(call) == "/control/version_info"@ && call_body(call) == RequestBody::Empty,
            ApiCall::Update => call_method(call) == HttpMethod::Post && call_target(call) == "/control/update"@ && call_body(call) == RequestBody::Empty,
            ApiCall::GetQueryLogConfig => call_method(call) == HttpMethod::Get && call_target(call) == "/control/querylog/config"@ && call_body(call) == RequestBody::Empty,
            ApiCall::SetQueryLogConfig(c) => call_method(call) == HttpMethod::Put && call_target(call) == "/control/querylog/config/update"@ && call_body(call) == RequestBody::QueryLog(c),
            ApiCall::GetSafeSearchSettings => call_method(call) == HttpMethod::Get && call_target(call) == "/control/safesearch/status"@ && call_body(call) == RequestBody::Empty,
            ApiCall::SetSafeSearchSettings(c) => call_method(call) == HttpMethod::Put && call_target(call) == "/control/safesearch/settings"@ && call_body(call) == RequestBody::SafeSearch(c),
            ApiCall::GetParentalSettings => call_method(call) == HttpMethod::Get && call_target(call) == "/control/parental/status"@ && call_body(call) == RequestBody::Empty,
            ApiCall::GetStatus => call_method(call) == HttpMethod::Get && call_target(call) == "/control/status"@ && call_body(call) == RequestBody::Empty,
            ApiCall::GetStats { time_period } => call_method(call) == HttpMethod::Get && call_body(call) == RequestBody::Empty && (time_period is None ==> call_target(call) == "/control/stats"@) && (time_period matches Some(p) ==> call_target(call) == "/control/stats"@ + ("?time_period="@ + p@)),
            ApiCall::GetQueryLog { search, filter, limit } => call_method(call) == HttpMethod::Get && call_target(call) == "/control/querylog"@ + query_suffix(query_log_params(search, filter, limit)) && call_body(call) == RequestBody::Empty,
            ApiCall::ListRewrites => call_method(call) == HttpMethod::Get && call_target(call) == "/control/rewrite/list"@ && call_body(call) == RequestBody::Empty,
            ApiCall::AddRewrite(r) => call_method(call) == HttpMethod::Post && call_target(call) == "/control/rewrite/add"@ && call_body(call) == RequestBody::Rewrite(r),
            ApiCall::DeleteRewrite(r) => call_method(call) == HttpMethod::Post && call_target(call) == "/control/rewrite/delete"@ && call_body(call) == RequestBody::Rewrite(r),
            ApiCall::SetProtection(e) => call_method(call) == HttpMethod::Post && call_target(call) == "/control/protection"@ && call_body(call) == RequestBody::Protection(e),
            ApiCall::SetSafeSearch(e) => call_method(call) == HttpMethod::Post && call_body(call) == RequestBody::Empty && (e ==> call_target(call) == "/control/safesearch"@ + "/enable"@) && (!e ==> call_target(call) == "/control/safesearch"@ + "/disable"@),
            ApiCall::SetSafeBrowsing(e) => call_method(call) == HttpMethod::Post && call_body(call) == RequestBody::Empty && (e ==> call_target(call) == "/control/safebrowsing"@ + "/enable"@) && (!e ==> call_target(call) == "/control/safebrowsing"@ + "/disable"@),
            ApiCall::SetParentalControl(e) => call_method(call) == HttpMethod::Post && call_body(call) == RequestBody::Empty && (e ==> call_target(call) == "/control/parental"@ + "/enable"@) && (!e ==> call_target(call) == "/control/parental"@ + "/disable"@),
            ApiCall::ListFilters => call_method(call) == HttpMethod::Get && call_target(call) == "/control/filtering/status"@ && call_body(call) == RequestBody::Empty,
            ApiCall::AddFilter { .. } => call_method(call) == HttpMethod::Post && call_target(call) == "/control/filtering/add_url"@,
            ApiCall::ToggleFilter { .. } => call_method(call) == HttpMethod::Post && call_target(call) == "/control/filtering/set_url"@,
            ApiCall::RemoveFilter { .. } => call_method(call) == HttpMethod::Post && call_target(call) == "/control/filtering/remove_url"@,
            ApiCall::UpdateFilter { .. } => call_method(call) == HttpMethod::Post && call_target(call) == "/control/filtering/set_url"@,
            ApiCall::ListClients => call_method(call) == HttpMethod::Get && call_target(call) == "/control/clients"@ && call_body(call) == RequestBody::Empty,
            ApiCall::SetUserRules(rules) => call_method(call) == HttpMethod::Post && call_target(call) == "/control/filtering/set_rules"@ && call_body(call) == RequestBody::SetRules(SetRulesRequest { rules }),
            ApiCall::ListAllServices => call_method(call) == HttpMethod::Get && call_target(call) == "/control/blocked_services/all"@ && call_body(call) == RequestBody::Empty,
            ApiCall::ListBlockedServices => call_method(call) == HttpMethod::Get && call_target(call) == "/control/blocked_services/list"@ && call_body(call) == RequestBody::Empty,
            ApiCall::SetBlockedServices(ids) => call_method(call) == HttpMethod::Post && call_target(call) == "/control/blocked_services/set"@ && call_body(call) == RequestBody::ServiceIds(ids),
            ApiCall::AddClient(c) => call_method(call) == HttpMethod::Post && call_target(call) == "/control/clients/add"@ && call_body(call) == RequestBody::Client(c),
            ApiCall::UpdateClient { old_name, device } => call_method(call) == HttpMethod::Post && call_target(call) == "/control/clients/update"@ && call_body(call) == RequestBody::UpdateClient(UpdateClientRequest { name: old_name, data: device }),
            ApiCall::DeleteClient(name) => call_method(call) == HttpMethod::Post && call_target(call) == "/control/clients/delete"@ && call_body(call) == RequestBody::DeleteClient(DeleteClientRequest { name }),
            ApiCall::GetDhcpStatus => call_method(call) == HttpMethod::Get && call_target(call) == "/control/dhcp/status"@ && call_body(call) == RequestBody::Empty,
            ApiCall::SetDhcpConfig(d) => call_method(call) == HttpMethod::Post && call_target(call) == "/control/dhcp/set_config"@ && call_body(call) == RequestBody::Dhcp(d),
            ApiCall::GetProfileInfo => call_method(call) == HttpMethod::Get && call_target(call) == "/control/profile"@ && call_body(call) == RequestBody::Empty,
            ApiCall::SetProfileInfo(p) => call_method(call) == HttpMethod::Put && call_target(call) == "/control/profile/update"@ && call_body(call) == RequestBody::Profile(p),
            ApiCall::AddStaticLease(l) => call_method(call) == HttpMethod::Post && call_target(call) == "/control/dhcp/add_static_lease"@ && call_body(call) == RequestBody::Lease(l),
            ApiCall::RemoveStaticLease(l) => call_method(call) == HttpMethod::Post && call_target(call) == "/control/dhcp/remove_static_lease"@ && call_body(call) == RequestBody::Lease(l),
            ApiCall::GetDnsInfo => call_method(call) == HttpMethod::Get && call_target(call) == "/control/dns_info"@ && call_body(call) == RequestBody::Empty,
            ApiCall::SetDnsConfig(d) => call_method(call) == HttpMethod::Post && call_target(call) == "/control/dns_config"@ && call_body(call) == RequestBody::Dns(d),
            ApiCall::ClearDnsCache => call_method(call) == HttpMethod::Post && call_target(call) == "/control/cache_clear"@ && call_body(call) == RequestBody::Empty,
            ApiCall::GetAccessList => call_method(call) == HttpMethod::Get && call_target(call) == "/control/access/list"@ && call_body(call) == RequestBody::Empty,
            ApiCall::SetAccessList(a) => call_method(call) == HttpMethod::Post && call_target(call) == "/control/access/set"@ && call_body(call) == RequestBody::Access(a),
            ApiCall::CheckHost { name, client } => call_method(call) == HttpMethod::Get && call_body(call) == RequestBody::Empty && (client is None ==> call_target(call) == "/control/filtering/check_host?name="@ + name@) && (client matches Some(c) ==> call_target(call) == "/control/filtering/check_host?name="@ + name@ + ("&client="@ + c@)),
            ApiCall::ResetStats => call_method(call) == HttpMethod::Post && call_target(call) == "/control/stats_reset"@ && call_body(call) == RequestBody::Empty,
            ApiCall::ClearQueryLog => call_method(call) == HttpMethod::Post && call_target(call) == "/control/querylog_clear"@ && call_body(call) == RequestBody::Empty,
            ApiCall::RestartService { hard } => call_method(call) == HttpMethod::Post && (hard ==> call_target(call) == "/control/restart"@ && call_body(call) == RequestBody::Empty) && (!hard ==> call_target(call) == "/control/filtering/refresh"@ && call_body(call) == RequestBody::RefreshFilters),
            ApiCall::GetTlsStatus => call_method(call) == HttpMethod::Get && call_target(call) == "/control/tls/status"@ && call_body(call) == RequestBody::Empty,
            ApiCall::ConfigureTls(t) => call_method(call) == HttpMethod::Post && call_target(call) == "/control/tls/configure"@ && call_body(call) == RequestBody::Tls(t),
            ApiCall::ValidateTls(t) => call_method(call) == HttpMethod::Post && call_target(call) == "/control/tls/validate"@ && call_body(call) == RequestBody::Tls(t),
        },
{
    match call {
        ApiCall::GetStats { time_period: None } => {
            assert(call_target(call) =~= "/control/stats"@);
        },
        ApiCall::CheckHost { name, client: None } => {
            assert(call_target(call) =~= "/control/filtering/check_host?name="@ + name@);
        },
        _ => {},
    }
}

/// A client of one AdGuard Home instance.
#[derive(Debug, Clone)]
pub struct AdGuardClient {
    pub config: InstanceConfig,
}

/// The message of the refusal to update when no update is available.
pub open spec fn no_update_message() -> Seq<char> {
    "/update request isn't allowed now: no update available"@
}

/// Whether `c` is the client `identifier` names: by its name or one of its
/// ids.
pub open spec fn client_matches(c: AdGuardClientDevice, identifier: Seq<char>) -> bool {
    c.name@ == identifier || c.ids.deep_view().contains(identifier)
}

impl AdGuardClient {
    /// A client of the instance `config` describes.
    pub fn new(config: InstanceConfig) -> (res: AdGuardClient)
        ensures
            res.config == config,
    {
        AdGuardClient { config }
    }

    /// Whether invalid TLS certificates are accepted: unless the instance
    /// says otherwise, they are.
    pub fn accepts_invalid_certs(&self) -> (res: bool)
        ensures
            res == match self.config.no_verify_ssl {
                Some(b) => b,
                None => true,
            },
    {
        match self.config.no_verify_ssl {
            Some(b) => b,
            None => true,
        }
    }

    /// The credentials sent with every request: the API key when there is
    /// one; otherwise basic authentication when both user name and password
    /// are set; otherwise none.
    pub fn auth(&self) -> (res: Auth)
        ensures
            match self.config.api_key {
                Some(k) => res matches Auth::ApiKey(r) && r@ == k@,
                None => match (self.config.username, self.config.password) {
                    (Some(u), Some(p)) => res matches Auth::Basic { username, password }
                        && username@ == u@ && password@ == p@,
                    _ => res is Anonymous,
                },
            },
    {
        match &self.config.api_key {
            Some(k) => Auth::ApiKey(k.clone()),
            None => match (&self.config.username, &self.config.password) {
                (Some(u), Some(p)) => Auth::Basic { username: u.clone(), password: p.clone() },
                _ => Auth::Anonymous,
            },
        }
    }

    /// The base URL of the instance followed by `path`.
    fn at(&self, path: &str) -> (res: String)
        ensures
            res@ == self.config.url@ + path@,
    {
        let mut url = self.config.url.clone();
        url.append(path);
        url
    }

    /// The URL of a call on this instance.
    fn target_url(&self, call: &ApiCall) -> (url: String)
        ensures
            url@ == self.config.url@ + call_target(*call),
    {
        match call {
            ApiCall::GetVersionInfo => self.at("/control/version_info"),
            ApiCall::Update => self.at("/control/update"),
            ApiCall::GetQueryLogConfig => self.at("/control/querylog/config"),
            ApiCall::SetQueryLogConfig(_) => self.at("/control/querylog/config/update"),
            ApiCall::GetSafeSearchSettings => self.at("/control/safesearch/status"),
            ApiCall::SetSafeSearchSettings(_) => self.at("/control/safesearch/settings"),
            ApiCall::GetParentalSettings => self.at("/control/parental/status"),
            ApiCall::GetStatus => self.at("/control/status"),
            ApiCall::GetStats { time_period } => {
                let mut url = self.at("/control/stats");
                if let Some(p) = time_period {
                    url.append("?time_period=");
                    url.append(p.as_str());
                }
                assert(url@ =~= self.config.url@ + call_target(*call));
                url
            },
            ApiCall::GetQueryLog { search, filter, limit } => {
                let mut url = self.at("/control/querylog");
                let mut params: Vec<String> = Vec::new();
                if let Some(s) = search {
                    params.push(String::from_str("search=").concat(s.as_str()));
                }
                if let Some(f) = filter {
                    params.push(String::from_str("filter=").concat(f.as_str()));
                }
                if let Some(l) = limit {
                    let mut p = String::from_str("limit=");
                    push_decimal(&mut p, *l as u64);
                    params.push(p);
                }
                assert(params.deep_view() =~= query_log_params(*search, *filter, *limit));
                if params.len() > 0 {
                    url.append("?");
                    let joined = join_strings(&params, "&");
                    url.append(joined.as_str());
                }
                assert(url@ =~= self.config.url@ + call_target(*call));
                url
            },
            ApiCall::ListRewrites => self.at("/control/rewrite/list"),
            ApiCall::AddRewrite(_) => self.at("/control/rewrite/add"),
            ApiCall::DeleteRewrite(_) => self.at("/control/rewrite/delete"),
            ApiCall::SetProtection(_) => self.at("/control/protection"),
            ApiCall::SetSafeSearch(e) => {
                let mut url = self.at("/control/safesearch");
                url.append(if *e { "/enable" } else { "/disable" });
                assert(url@ =~= self.config.url@ + call_target(*call));
                url
            },
            ApiCall::SetSafeBrowsing(e) => {
                let mut url = self.at("/control/safebrowsing");
                url.append(if *e { "/enable" } else { "/disable" });
                assert(url@ =~= self.config.url@ + call_target(*call));
                url
            },
            ApiCall::SetParentalControl(e) => {
                let mut url = self.at("/control/parental");
                url.append(if *e { "/enable" } else { "/disable" });
                assert(url@ =~= self.config.url@ + call_target(*call));
                url
            },
            ApiCall::ListFilters => self.at("/control/filtering/status"),
            ApiCall::AddFilter { .. } => self.at("/control/filtering/add_url"),
            ApiCall::ToggleFilter { .. } => self.at("/control/filtering/set_url"),
            ApiCall::RemoveFilter { .. } => self.at("/control/filtering/remove_url"),
            ApiCall::UpdateFilter { .. } => self.at("/control/filtering/set_url"),
            ApiCall::ListClients => self.at("/control/clients"),
            ApiCall::SetUserRules(_) => self.at("/control/filtering/set_rules"),
            ApiCall::ListAllServices => self.at("/control/blocked_services/all"),
            ApiCall::ListBlockedServices => self.at("/control/blocked_services/list"),
            ApiCall::SetBlockedServices(_) => self.at("/control/blocked_services/set"),
            ApiCall::AddClient(_) => self.at("/control/clients/add"),
            ApiCall::UpdateClient { .. } => self.at("/control/clients/update"),
            ApiCall::DeleteClient(_) => self.at("/control/clients/delete"),
            ApiCall::GetDhcpStatus => self.at("/control/dhcp/status"),
            ApiCall::SetDhcpConfig(_) => self.at("/control/dhcp/set_config"),
            ApiCall::GetProfileInfo => self.at("/control/profile"),
            ApiCall::SetProfileInfo(_) => self.at("/control/profile/update"),
            ApiCall::AddStaticLease(_) => self.at("/control/dhcp/add_static_lease"),
            ApiCall::RemoveStaticLease(_) => self.at("/control/dhcp/remove_static_lease"),
            ApiCall::GetDnsInfo => self.at("/control/dns_info"),
            ApiCall::SetDnsConfig(_) => self.at("/control/dns_config"),
            ApiCall::ClearDnsCache => self.at("/control/cache_clear"),
            ApiCall::GetAccessList => self.at("/control/access/list"),
            ApiCall::SetAccessList(_) => self.at("/control/access/set"),
            ApiCall::CheckHost { name, client } => {
                let mut url = self.at("/control/filtering/check_host?name=");
                url.append(name.as_str());
                if let Some(c) = client {
                    url.append("&client=");
                    url.append(c.as_str());
                }
                assert(url@ =~= self.config.url@ + call_target(*call));
                url
            },
            ApiCall::ResetStats => self.at("/control/stats_reset"),
            ApiCall::ClearQueryLog => self.at("/control/querylog_clear"),
            ApiCall::RestartService { hard } => if *hard {
                self.at("/control/restart")
            } else {
                self.at("/control/filtering/refresh")
            },
            ApiCall::GetTlsStatus => self.at("/control/tls/status"),
            ApiCall::ConfigureTls(_) => self.at("/control/tls/configure"),
            ApiCall::ValidateTls(_) => self.at("/control/tls/validate"),
        }
    }

    /// The HTTP method of a call.
    fn method_of(call: &ApiCall) -> (m: HttpMethod)
        ensures
            m == call_method(*call),
    {
        match call {
            ApiCall::GetVersionInfo | ApiCall::GetQueryLogConfig | ApiCall::GetSafeSearchSettings
            | ApiCall::GetParentalSettings | ApiCall::GetStatus | ApiCall::GetStats { .. }
            | ApiCall::GetQueryLog { .. } | ApiCall::ListRewrites | ApiCall::ListFilters
            | ApiCall::ListClients | ApiCall::ListAllServices | ApiCall::ListBlockedServices
            | ApiCall::GetDhcpStatus | ApiCall::GetProfileInfo | ApiCall::GetDnsInfo
            | ApiCall::GetAccessList | ApiCall::CheckHost { .. } | ApiCall::GetTlsStatus =>
                HttpMethod::Get,
            ApiCall::SetQueryLogConfig(_) | ApiCall::SetSafeSearchSettings(_)
            | ApiCall::SetProfileInfo(_) => HttpMethod::Put,
            _ => HttpMethod::Post,
        }
    }

    /// The body of a call.
    fn body_of(call: ApiCall) -> (b: RequestBody)
        ensures
            b == call_body(call),
    {
        match call {
            ApiCall::SetQueryLogConfig(c) => RequestBody::QueryLog(c),
            ApiCall::SetSafeSearchSettings(s) => RequestBody::SafeSearch(s),
            ApiCall::AddRewrite(r) => RequestBody::Rewrite(r),
            ApiCall::DeleteRewrite(r) => RequestBody::Rewrite(r),
            ApiCall::SetProtection(e) => RequestBody::Protection(e),
            ApiCall::AddFilter { name, url, whitelist } => RequestBody::AddFilter(
                AddFilterRequest { name, url, whitelist },
            ),
            ApiCall::ToggleFilter { url, name, enabled } => {
                let data = SetFilterUrlData { enabled, name, url: url.clone() };
                RequestBody::SetFilterUrl(SetFilterUrlRequest { url, data })
            },
            ApiCall::RemoveFilter { url, whitelist } => RequestBody::RemoveFilter(
                RemoveFilterRequest { url, whitelist },
            ),
            ApiCall::UpdateFilter { current_url, new_url, name, whitelist, enabled } => {
                let data = UpdateFilterData { name: name.clone(), url: new_url, enabled };
                RequestBody::UpdateFilter(
                    UpdateFilterRequest { url: current_url, name, whitelist, data },
                )
            },
            ApiCall::SetUserRules(rules) => RequestBody::SetRules(SetRulesRequest { rules }),
            ApiCall::SetBlockedServices(ids) => RequestBody::ServiceIds(ids),
            ApiCall::AddClient(c) => RequestBody::Client(c),
            ApiCall::UpdateClient { old_name, device } => RequestBody::UpdateClient(
                UpdateClientRequest { name: old_name, data: device },
            ),
            ApiCall::DeleteClient(name) => RequestBody::DeleteClient(DeleteClientRequest { name }),
            ApiCall::SetDhcpConfig(d) => RequestBody::Dhcp(d),
            ApiCall::SetProfileInfo(p) => RequestBody::Profile(p),
            ApiCall::AddStaticLease(l) => RequestBody::Lease(l),
            ApiCall::RemoveStaticLease(l) => RequestBody::Lease(l),
            ApiCall::SetDnsConfig(d) => RequestBody::Dns(d),
            ApiCall::SetAccessList(a) => RequestBody::Access(a),
            ApiCall::RestartService { hard } => if hard {
                RequestBody::Empty
            } else {
                RequestBody::RefreshFilters
            },
            ApiCall::ConfigureTls(t) => RequestBody::Tls(t),
            ApiCall::ValidateTls(t) => RequestBody::Tls(t),
            _ => RequestBody::Empty,
        }
    }

    /// The request that performs `call` on this instance.
    pub fn request(&self, call: ApiCall) -> (req: ApiRequest)
        ensures
            req.method == call_method(call),
            req.url@ == self.config.url@ + call_target(call),
            req.body == call_body(call),
            req.check_status == call_checks_status(call),
    {
        let url = self.target_url(&call);
        let method = Self::method_of(&call);
        let check_status = match &call {
            ApiCall::RestartService { hard } => !*hard,
            _ => true,
        };
        let body = Self::body_of(call);
        ApiRequest { method, url, body, check_status }
    }

    /// The version information reported when `/control/version_info` cannot
    /// be read: the running version, taken from the status, with no update
    /// available.
    pub fn version_info_from_status(status: Status) -> (info: VersionInfo)
        ensures
            info.version == status.version,
            info.announcement@ == "AdGuard Home Status"@,
            info.announcement_url@ == Seq::<char>::empty(),
            !info.can_update,
            info.new_version@ == Seq::<char>::empty(),
    {
        VersionInfo {
            version: status.version,
            announcement: String::from_str("AdGuard Home Status"),
            announcement_url: String::new(),
            can_update: false,
            new_version: String::new(),
        }
    }

    /// Whether an update may be requested: only when one is available.
    pub fn check_update_allowed(info: &VersionInfo) -> (res: Result<(), Error>)
        ensures
            info.can_update <==> res is Ok,
            res matches Err(e) ==> e matches Error::Generic(m) && m@ == no_update_message(),
    {
        if !info.can_update {
            return Err(
                Error::Generic(
                    String::from_str("/update request isn't allowed now: no update available"),
                ),
            );
        }
        Ok(())
    }

    /// The first client in `clients` that `identifier` names, by its name or
    /// one of its ids; `Client not found: <identifier>` when none does.
    pub fn find_client(clients: Vec<AdGuardClientDevice>, identifier: &str) -> (res: Result<
        AdGuardClientDevice,
        Error,
    >)
        ensures
            match res {
                Ok(c) => exists|i: int|
                    #![trigger clients@[i]]
                    0 <= i < clients@.len() && clients@[i] == c && client_matches(c, identifier@)
                        && forall|j: int|
                        0 <= j < i ==> !client_matches(#[trigger] clients@[j], identifier@),
                Err(e) => (forall|i: int|
                    0 <= i < clients@.len() ==> !client_matches(#[trigger] clients@[i], identifier@))
                    && (e matches Error::Generic(m) && m@ == "Client not found: "@ + identifier@),
            },
    {
        let wanted = String::from_str(identifier);
        let mut list = clients;
        let n = list.len();
        let mut i: usize = 0;
        while i < n
            invariant
                n == list@.len(),
                list@ == clients@,
                0 <= i <= n,
                wanted@ == identifier@,
                forall|j: int| 0 <= j < i ==> !client_matches(#[trigger] clients@[j], identifier@),
            decreases n - i,
        {
            let found = list[i].name == wanted || crate::text::contains_string(
                &list[i].ids,
                &wanted,
            );
            if found {
                let c = list.remove(i);
                proof {
                    assert(clients@[i as int] == c);
                    assert(client_matches(c, identifier@));
                }
                return Ok(c);
            }
            i = i + 1;
        }
        let mut msg = String::from_str("Client not found: ");
        msg.append(identifier);
        Err(Error::Generic(msg))
    }
}

} // verus!
