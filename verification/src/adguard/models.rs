//! The values exchanged with the AdGuard Home control API.
//!
//! Their JSON encoding is done outside the verified library; here they are
//! plain data.
use vstd::prelude::*;

verus! {

/// `GET /control/status`.
#[derive(Debug, Clone)]
pub struct Status {
    pub version: String,
    pub language: String,
    pub protection_enabled: bool,
}

/// One DNS rewrite: queries for `domain` are answered with `answer`.
#[derive(Debug, Clone)]
pub struct DnsRewrite {
    pub domain: String,
    pub answer: String,
}

impl DnsRewrite {
    /// A copy of the rewrite.
    pub fn duplicate(&self) -> (res: DnsRewrite)
        ensures
            res == *self,
    {
        DnsRewrite { domain: self.domain.clone(), answer: self.answer.clone() }
    }
}

/// One entry of the query log.
#[derive(Debug, Clone)]
pub struct QueryLogEntry {
    pub client: String,
    pub elapsed_ms: String,
    pub reason: String,
    pub status: String,
    pub time: String,
    pub question: QueryLogQuestion,
}

/// The question of a logged query.
#[derive(Debug, Clone)]
pub struct QueryLogQuestion {
    pub name: String,
    pub qtype: String,
}

/// `GET /control/querylog`.
#[derive(Debug, Clone)]
pub struct QueryLogResponse {
    pub data: Vec<QueryLogEntry>,
}

/// A filter list.
#[derive(Debug, Clone)]
pub struct Filter {
    pub url: String,
    pub name: String,
    pub id: u64,
    pub enabled: bool,
    pub last_updated: Option<String>,
    pub rules_count: u32,
}

/// `GET /control/filtering/status`.
#[derive(Debug, Clone)]
pub struct FilteringConfig {
    pub enabled: bool,
    pub interval: u32,
    pub filters: Vec<Filter>,
    pub whitelist_filters: Vec<Filter>,
    pub user_rules: Vec<String>,
}

/// Body of `POST /control/filtering/set_rules`.
#[derive(Debug, Clone)]
pub struct SetRulesRequest {
    pub rules: Vec<String>,
}

/// Body of `POST /control/filtering/add_url`.
#[derive(Debug, Clone)]
pub struct AddFilterRequest {
    pub name: String,
    pub url: String,
    pub whitelist: bool,
}

/// Body of `POST /control/filtering/set_url` when a filter is toggled.
#[derive(Debug, Clone)]
pub struct SetFilterUrlRequest {
    pub url: String,
    pub data: SetFilterUrlData,
}

/// The new settings of a toggled filter.
#[derive(Debug, Clone)]
pub struct SetFilterUrlData {
    pub enabled: bool,
    pub name: String,
    pub url: String,
}

/// Body of `POST /control/filtering/remove_url`.
#[derive(Debug, Clone)]
pub struct RemoveFilterRequest {
    pub url: String,
    pub whitelist: bool,
}

/// Body of `POST /control/filtering/set_url` when a filter is edited.
#[derive(Debug, Clone)]
pub struct UpdateFilterRequest {
    pub url: String,
    pub name: String,
    pub whitelist: bool,
    pub data: UpdateFilterData,
}

/// The new settings of an edited filter.
#[derive(Debug, Clone)]
pub struct UpdateFilterData {
    pub name: String,
    pub url: String,
    pub enabled: bool,
}

/// A persistent client known to AdGuard Home.
#[derive(Debug, Clone)]
pub struct AdGuardClientDevice {
    pub name: String,
    pub ids: Vec<String>,
    pub use_global_settings: bool,
    pub filtering_enabled: bool,
    pub parental_enabled: bool,
    pub safebrowsing_enabled: bool,
    pub safesearch_enabled: bool,
}

/// `GET /control/clients`.
#[derive(Debug, Clone)]
pub struct ClientsResponse {
    pub clients: Vec<AdGuardClientDevice>,
}

/// A service that can be blocked.
#[derive(Debug, Clone)]
pub struct BlockedService {
    pub id: String,
    pub name: String,
    pub icon_svg: Option<String>,
}

/// `GET /control/blocked_services/all`.
#[derive(Debug, Clone)]
pub struct BlockedServicesAllResponse {
    pub services: Vec<BlockedService>,
}

/// A list of service ids to block.
#[derive(Debug, Clone)]
pub struct SetBlockedServicesRequest {
    pub ids: Vec<String>,
}

/// Body of `POST /control/clients/update`.
#[derive(Debug, Clone)]
pub struct UpdateClientRequest {
    pub name: String,
    pub data: AdGuardClientDevice,
}

/// Body of `POST /control/clients/delete`.
#[derive(Debug, Clone)]
pub struct DeleteClientRequest {
    pub name: String,
}

/// A dynamic DHCP lease.
#[derive(Debug, Clone)]
pub struct DhcpLease {
    pub mac: String,
    pub ip: String,
    pub hostname: String,
    pub expires: Option<String>,
}

/// A static DHCP lease.
#[derive(Debug, Clone)]
pub struct StaticLease {
    pub mac: String,
    pub ip: String,
    pub hostname: String,
}

/// The DNS server settings.
#[derive(Debug, Clone, Default)]
pub struct DnsConfig {
    pub upstream_dns: Vec<String>,
    pub upstream_dns_file: String,
    pub bootstrap_dns: Vec<String>,
    pub fallback_dns: Vec<String>,
    pub all_servers: bool,
    pub fastest_addr: bool,
    pub fastest_timeout: u32,
    pub cache_size: u32,
    pub cache_ttl_min: u32,
    pub cache_ttl_max: u32,
    pub cache_optimistic: bool,
    pub upstream_mode: String,
    pub use_private_ptr_resolvers: bool,
    pub local_ptr_upstreams: Vec<String>,
}

/// The DHCP server settings and its leases. The address-family sections are
/// carried through as JSON text.
#[derive(Debug, Clone)]
pub struct DhcpStatus {
    pub enabled: bool,
    pub interface_name: String,
    pub v4: Option<String>,
    pub v6: Option<String>,
    pub leases: Vec<DhcpLease>,
    pub static_leases: Vec<StaticLease>,
}

/// The access control lists.
#[derive(Debug, Clone, Default)]
pub struct AccessList {
    pub allowed_clients: Vec<String>,
    pub disallowed_clients: Vec<String>,
    pub blocked_hosts: Vec<String>,
}

/// `GET /control/filtering/check_host`.
#[derive(Debug, Clone)]
pub struct FilterCheckResponse {
    pub reason: String,
    pub filter_id: Option<i64>,
    pub rule: Option<String>,
    pub rules: Option<Vec<FilterCheckMatchedRule>>,
}

/// One rule that matched a checked host.
#[derive(Debug, Clone)]
pub struct FilterCheckMatchedRule {
    pub filter_id: i64,
    pub text: String,
}

/// The safe search settings.
#[derive(Debug, Clone)]
pub struct SafeSearchConfig {
    pub enabled: bool,
    pub bing: bool,
    pub duckduckgo: bool,
    pub google: bool,
    pub pixabay: bool,
    pub yandex: bool,
    pub youtube: bool,
}

/// The parental control settings.
#[derive(Debug, Clone)]
pub struct ParentalControlConfig {
    pub enabled: bool,
    pub sensitivity: Option<u32>,
}

/// The query log settings; `interval` is the retention in hours.
#[derive(Debug, Clone)]
pub struct QueryLogConfig {
    pub enabled: bool,
    pub interval: u32,
    pub anonymize_client_ip: bool,
    pub allowed_clients: Vec<String>,
    pub disallowed_clients: Vec<String>,
}

/// `GET /control/version_info`.
#[derive(Debug, Clone)]
pub struct VersionInfo {
    pub version: String,
    pub announcement: String,
    pub announcement_url: String,
    pub can_update: bool,
    pub new_version: String,
}

/// The TLS (encryption) settings.
#[derive(Debug, Clone, Default)]
pub struct TlsConfig {
    pub enabled: bool,
    pub server_name: String,
    pub force_https: bool,
    pub port_https: u16,
    pub port_dns_over_tls: u16,
    pub port_dns_over_quic: u16,
    pub certificate_chain: String,
    pub private_key: String,
    pub certificate_path: String,
    pub private_key_path: String,
    pub valid_cert: bool,
    pub valid_key: bool,
    pub valid_pair: bool,
}

/// The profile of the logged-in user.
#[derive(Debug, Clone)]
pub struct ProfileInfo {
    pub name: String,
    pub language: String,
    pub theme: String,
}

} // verus!
