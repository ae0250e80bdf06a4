//! The AdGuard Home control API: its data model and the requests the client
//! sends.
pub mod client;
pub mod models;

pub use client::AdGuardClient;
pub use models::{
    AccessList, AddFilterRequest, AdGuardClientDevice, BlockedService, BlockedServicesAllResponse,
    ClientsResponse, DeleteClientRequest, DhcpLease, DhcpStatus, DnsConfig, DnsRewrite, Filter,
    FilterCheckMatchedRule, FilterCheckResponse, FilteringConfig, ParentalControlConfig,
    ProfileInfo, QueryLogConfig, QueryLogEntry, QueryLogQuestion, QueryLogResponse,
    RemoveFilterRequest, SafeSearchConfig, SetBlockedServicesRequest, SetFilterUrlData,
    SetFilterUrlRequest, SetRulesRequest, Status, StaticLease, TlsConfig, UpdateClientRequest,
    UpdateFilterData, UpdateFilterRequest, VersionInfo,
};
