//! Synchronisation of a master instance to its replicas, and backups.
//!
//! Fetching the master state and sending it to a replica is done outside
//! the verified library; here are the decisions: how lists are merged, which
//! rewrites are deleted and added, how the outcome of each module is
//! recorded, and how two states differ.
use vstd::prelude::*;
use crate::adguard::models::{
    AccessList, AdGuardClientDevice, DhcpStatus, DnsConfig, DnsRewrite, FilteringConfig,
    ParentalControlConfig, ProfileInfo, QueryLogConfig, SafeSearchConfig, Status, TlsConfig,
};
use crate::adguard::client::{ApiCall, HttpMethod, RequestBody, call_body, call_method, call_target};
use crate::config::{AppConfig, InstanceConfig, ReplicaConfig};
use crate::error::Error;
use crate::text::{
    bool_str, bool_text, clone_strings, contains_string, join_strings, seq_join, strings_equal,
};

verus! {

/// What a backup records about its origin.
#[derive(Debug, Clone)]
pub struct BackupMetadata {
    pub version: String,
    pub timestamp: String,
    pub description: Option<String>,
}

/// The configuration of an instance that is synchronised or backed up.
/// `safe_browsing` holds the global protection switch.
#[derive(Debug, Clone)]
pub struct SyncState {
    pub metadata: Option<BackupMetadata>,
    pub filtering: FilteringConfig,
    pub clients: Vec<AdGuardClientDevice>,
    pub dns: DnsConfig,
    pub blocked_services: Vec<String>,
    pub rewrites: Vec<DnsRewrite>,
    pub access_list: AccessList,
    pub query_log_config: QueryLogConfig,
    pub safe_search: SafeSearchConfig,
    pub safe_browsing: bool,
    pub parental_control: ParentalControlConfig,
    pub dhcp: DhcpStatus,
    pub tls: TlsConfig,
    pub profile_info: ProfileInfo,
}

/// The outcome of pushing a state to a replica: the modules applied and
/// failed, in the order they were tried, one error message per failed
/// module, and whether all succeeded.
#[derive(Debug, Clone)]
pub struct SyncResult {
    pub success: bool,
    pub applied_modules: Vec<String>,
    pub failed_modules: Vec<String>,
    pub errors: Vec<String>,
}

/// How a replica's lists are reconciled with the master's.
#[derive(Debug, Clone, Copy, PartialEq, Eq, Structural)]
pub enum SyncMode {
    /// Keep what the replica has and add what the master has.
    AdditiveMerge,
    /// Make the replica hold exactly what the master has.
    FullOverwrite,
}

impl SyncMode {
    /// The mode a name designates: `full-overwrite`, and any other name
    /// designates the additive merge.
    pub fn parse(mode: &str) -> (res: SyncMode)
        ensures
            res == SyncMode::FullOverwrite <==> mode@ == "full-overwrite"@,
    {
        let m = String::from_str(mode);
        let full = String::from_str("full-overwrite");
        if m == full {
            SyncMode::FullOverwrite
        } else {
            SyncMode::AdditiveMerge
        }
    }
}

/// `existing` followed by each item of `incoming` that is not yet present,
/// in order, each added once.
pub open spec fn merge_seq(existing: Seq<Seq<char>>, incoming: Seq<Seq<char>>) -> Seq<Seq<char>>
    decreases incoming.len(),
{
    if incoming.len() == 0 {
        existing
    } else {
        let m = merge_seq(existing, incoming.drop_last());
        if m.contains(incoming.last()) {
            m
        } else {
            m.push(incoming.last())
        }
    }
}

/// Merges `incoming` into `existing`: the items of `existing`, then each
/// item of `incoming` not already present.
pub fn merge_additive(existing: &Vec<String>, incoming: &Vec<String>) -> (res: Vec<String>)
    ensures
        res.deep_view() == merge_seq(existing.deep_view(), incoming.deep_view()),
{
    let mut merged = clone_strings(existing);
    let ghost inc = incoming.deep_view();
    let n = incoming.len();
    let mut i: usize = 0;
    while i < n
        invariant
            n == incoming.len(),
            0 <= i <= n,
            inc == incoming.deep_view(),
            merged.deep_view() == merge_seq(existing.deep_view(), inc.take(i as int)),
        decreases n - i,
    {
        assert(inc.take((i + 1) as int).drop_last() =~= inc.take(i as int));
        assert(inc.take((i + 1) as int).last() == inc[i as int]);
        if !contains_string(&merged, &incoming[i]) {
            let item = incoming[i].clone();
            let ghost before = merged.deep_view();
            merged.push(item);
            assert(merged.deep_view() =~= before.push(inc[i as int]));
        }
        i = i + 1;
    }
    assert(inc.take(n as int) =~= inc);
    merged
}

/// The list a replica ends with: the master's list when overwriting, the
/// merge of the master's list into the replica's otherwise.
pub fn sync_list(mode: SyncMode, existing: &Vec<String>, master: &Vec<String>) -> (res: Vec<String>)
    ensures
        mode == SyncMode::FullOverwrite ==> res.deep_view() == master.deep_view(),
        mode == SyncMode::AdditiveMerge ==> res.deep_view() == merge_seq(
            existing.deep_view(),
            master.deep_view(),
        ),
{
    match mode {
        SyncMode::FullOverwrite => clone_strings(master),
        SyncMode::AdditiveMerge => merge_additive(existing, master),
    }
}

/// Every item of `existing` and `incoming` is in their merge, and the merge
/// holds nothing else.
pub proof fn law_merge_holds_exactly_both(
    existing: Seq<Seq<char>>,
    incoming: Seq<Seq<char>>,
    x: Seq<char>,
)
    ensures
        merge_seq(existing, incoming).contains(x) <==> (existing.contains(x) || incoming.contains(
            x,
        )),
    decreases incoming.len(),
{
    if incoming.len() > 0 {
        let init = incoming.drop_last();
        law_merge_holds_exactly_both(existing, init, x);
        let m = merge_seq(existing, init);
        assert(incoming =~= init.push(incoming.last()));
        if incoming.contains(x) {
            if !init.contains(x) {
                let k = choose|k: int| 0 <= k < incoming.len() && incoming[k] == x;
                if k < init.len() {
                    assert(init[k] == x);
                }
                assert(x == incoming.last());
            }
        }
        if init.contains(x) {
            let k = choose|k: int| 0 <= k < init.len() && init[k] == x;
            assert(incoming[k] == x);
        }
        if !m.contains(incoming.last()) {
            assert(m.push(incoming.last())[m.len() as int] == incoming.last());
            if m.push(incoming.last()).contains(x) && x != incoming.last() {
                let k = choose|k: int| 0 <= k < m.len() + 1 && m.push(incoming.last())[k] == x;
                assert(m[k] == x);
            }
            if m.contains(x) {
                let k = choose|k: int| 0 <= k < m.len() && m[k] == x;
                assert(m.push(incoming.last())[k] == x);
            }
        }
    }
}

/// The merge keeps the items of `existing` first, in their order.
pub proof fn law_merge_keeps_existing_first(existing: Seq<Seq<char>>, incoming: Seq<Seq<char>>)
    ensures
        merge_seq(existing, incoming).len() >= existing.len(),
        merge_seq(existing, incoming).take(existing.len() as int) == existing,
    decreases incoming.len(),
{
    if incoming.len() > 0 {
        law_merge_keeps_existing_first(existing, incoming.drop_last());
        let m = merge_seq(existing, incoming.drop_last());
        assert(m.push(incoming.last()).take(existing.len() as int) =~= m.take(
            existing.len() as int,
        ));
    }
}

/// Merging adds no duplicates: when `existing` holds no item twice, neither
/// does the merge.
pub proof fn law_merge_adds_no_duplicates(existing: Seq<Seq<char>>, incoming: Seq<Seq<char>>)
    requires
        existing.no_duplicates(),
    ensures
        merge_seq(existing, incoming).no_duplicates(),
    decreases incoming.len(),
{
    if incoming.len() > 0 {
        law_merge_adds_no_duplicates(existing, incoming.drop_last());
        let m = merge_seq(existing, incoming.drop_last());
        if !m.contains(incoming.last()) {
            let p = m.push(incoming.last());
            assert forall|i: int, j: int| 0 <= i < p.len() && 0 <= j < p.len() && i != j implies p[i]
                != p[j] by {
                if i == m.len() as int {
                    assert(m[j] == p[j]);
                } else if j == m.len() as int {
                    assert(m[i] == p[i]);
                }
            }
        }
    }
}

/// Merging what is already present changes nothing.
pub proof fn law_merge_of_present_items_is_identity(
    existing: Seq<Seq<char>>,
    incoming: Seq<Seq<char>>,
)
    requires
        forall|i: int| 0 <= i < incoming.len() ==> existing.contains(#[trigger] incoming[i]),
    ensures
        merge_seq(existing, incoming) == existing,
    decreases incoming.len(),
{
    if incoming.len() > 0 {
        let init = incoming.drop_last();
        assert forall|i: int| 0 <= i < init.len() implies existing.contains(#[trigger] init[i]) by {
            assert(init[i] == incoming[i]);
        }
        law_merge_of_present_items_is_identity(existing, init);
        assert(existing.contains(incoming[incoming.len() - 1]));
    }
}

/// Merging the same list twice is merging it once: a second additive
/// synchronisation of unchanged lists changes nothing.
pub proof fn law_merge_idempotent(existing: Seq<Seq<char>>, incoming: Seq<Seq<char>>)
    ensures
        merge_seq(merge_seq(existing, incoming), incoming) == merge_seq(existing, incoming),
{
    let m = merge_seq(existing, incoming);
    assert forall|i: int| 0 <= i < incoming.len() implies m.contains(#[trigger] incoming[i]) by {
        law_merge_holds_exactly_both(existing, incoming, incoming[i]);
        assert(incoming.contains(incoming[i]));
    }
    law_merge_of_present_items_is_identity(m, incoming);
}

/// The identity of a rewrite: its domain and answer.
pub open spec fn rewrite_key(r: DnsRewrite) -> (Seq<char>, Seq<char>) {
    (r.domain@, r.answer@)
}

/// Whether some rewrite of `rs` has the key `k`.
pub open spec fn has_rewrite(rs: Seq<DnsRewrite>, k: (Seq<char>, Seq<char>)) -> bool {
    exists|i: int| 0 <= i < rs.len() && rewrite_key(#[trigger] rs[i]) == k
}

/// The indices `0 .. n`.
pub open spec fn indices(n: nat) -> Seq<usize> {
    Seq::new(n, |i: int| i as usize)
}

/// Whether the rewrite of `rs` at an index has a key that `others` lacks.
pub open spec fn lacking_in(rs: Seq<DnsRewrite>, others: Seq<DnsRewrite>) -> spec_fn(usize) -> bool {
    |i: usize| !has_rewrite(others, rewrite_key(rs[i as int]))
}

/// The indices of the rewrites of `rs` whose key is not in `others`.
pub open spec fn missing_from(rs: Seq<DnsRewrite>, others: Seq<DnsRewrite>) -> Seq<usize> {
    indices(rs.len()).filter(lacking_in(rs, others))
}

/// Which rewrites a replica deletes and adds: indices into the replica's
/// rewrites and into the master's, in order.
#[derive(Debug, Clone)]
pub struct RewritePlan {
    pub deletions: Vec<usize>,
    pub additions: Vec<usize>,
}

/// The plan for `mode`. When overwriting, the replica's rewrites that the
/// master lacks are deleted and all of the master's are added; when merging,
/// nothing is deleted and the master's rewrites that the replica lacks are
/// added.
pub open spec fn rewrite_plan(
    existing: Seq<DnsRewrite>,
    master: Seq<DnsRewrite>,
    mode: SyncMode,
) -> (Seq<usize>, Seq<usize>) {
    match mode {
        SyncMode::FullOverwrite => (missing_from(existing, master), indices(master.len())),
        SyncMode::AdditiveMerge => (Seq::empty(), missing_from(master, existing)),
    }
}

/// Whether two rewrites have the same domain and answer.
fn same_rewrite(a: &DnsRewrite, b: &DnsRewrite) -> (res: bool)
    ensures
        res == (rewrite_key(*a) == rewrite_key(*b)),
{
    a.domain == b.domain && a.answer == b.answer
}

/// Whether some rewrite of `rs` has the domain and answer of `r`.
fn contains_rewrite(rs: &Vec<DnsRewrite>, r: &DnsRewrite) -> (res: bool)
    ensures
        res == has_rewrite(rs@, rewrite_key(*r)),
{
    let n = rs.len();
    let mut i: usize = 0;
    while i < n
        invariant
            n == rs@.len(),
            0 <= i <= n,
            forall|j: int| 0 <= j < i ==> rewrite_key(#[trigger] rs@[j]) != rewrite_key(*r),
        decreases n - i,
    {
        if same_rewrite(&rs[i], r) {
            assert(rewrite_key(rs@[i as int]) == rewrite_key(*r));
            return true;
        }
        i = i + 1;
    }
    false
}

/// The indices of the rewrites of `rs` whose key is not in `others`.
fn indices_missing_from(rs: &Vec<DnsRewrite>, others: &Vec<DnsRewrite>) -> (res: Vec<usize>)
    ensures
        res@ == missing_from(rs@, others@),
{
    let n = rs.len();
    let ghost pred = lacking_in(rs@, others@);
    let mut res: Vec<usize> = Vec::new();
    let mut i: usize = 0;
    while i < n
        invariant
            n == rs@.len(),
            0 <= i <= n,
            pred == lacking_in(rs@, others@),
            res@ == indices(i as nat).filter(pred),
        decreases n - i,
    {
        reveal_with_fuel(Seq::<_>::filter, 1);
        assert(indices((i + 1) as nat).drop_last() =~= indices(i as nat));
        assert(indices((i + 1) as nat).last() == i);
        if !contains_rewrite(others, &rs[i]) {
            res.push(i);
        }
        i = i + 1;
    }
    assert(indices(n as nat) =~= indices(rs@.len()));
    res
}

/// The indices `0 .. n`.
fn all_indices(n: usize) -> (res: Vec<usize>)
    ensures
        res@ == indices(n as nat),
{
    let mut res: Vec<usize> = Vec::new();
    let mut i: usize = 0;
    while i < n
        invariant
            0 <= i <= n,
            res@ == indices(i as nat),
        decreases n - i,
    {
        res.push(i);
        assert(res@ =~= indices((i + 1) as nat));
        i = i + 1;
    }
    res
}

/// Which of the replica's rewrites to delete and which of the master's to
/// add.
pub fn plan_rewrites(existing: &Vec<DnsRewrite>, master: &Vec<DnsRewrite>, mode: SyncMode) -> (res:
    RewritePlan)
    ensures
        (res.deletions@, res.additions@) == rewrite_plan(existing@, master@, mode),
{
    match mode {
        SyncMode::FullOverwrite => RewritePlan {
            deletions: indices_missing_from(existing, master),
            additions: all_indices(master.len()),
        },
        SyncMode::AdditiveMerge => RewritePlan {
            deletions: Vec::new(),
            additions: indices_missing_from(master, existing),
        },
    }
}

/// The keys of the rewrites of `rs`.
pub open spec fn rewrite_keys(rs: Seq<DnsRewrite>) -> Set<(Seq<char>, Seq<char>)> {
    Set::new(|k: (Seq<char>, Seq<char>)| has_rewrite(rs, k))
}

/// The keys a replica holding `existing` ends with once `deletions` (indices
/// into `existing`) are deleted and `additions` (indices into `master`) are
/// added.
pub open spec fn keys_after(
    existing: Seq<DnsRewrite>,
    master: Seq<DnsRewrite>,
    deletions: Seq<usize>,
    additions: Seq<usize>,
) -> Set<(Seq<char>, Seq<char>)> {
    Set::new(
        |k: (Seq<char>, Seq<char>)|
            (exists|i: int|
                0 <= i < existing.len() && !deletions.contains(i as usize) && rewrite_key(
                    #[trigger] existing[i],
                ) == k) || (exists|j: int|
                0 <= j < master.len() && additions.contains(j as usize) && rewrite_key(
                    #[trigger] master[j],
                ) == k),
    )
}

proof fn lemma_in_missing_from(rs: Seq<DnsRewrite>, others: Seq<DnsRewrite>, i: int)
    requires
        0 <= i < rs.len(),
        rs.len() <= usize::MAX,
    ensures
        missing_from(rs, others).contains(i as usize) <==> !has_rewrite(
            others,
            rewrite_key(rs[i]),
        ),
{
    let pred = lacking_in(rs, others);
    let idx = indices(rs.len());
    idx.filter_lemma(pred);
    assert(idx[i] == i as usize);
    if missing_from(rs, others).contains(i as usize) {
        let k = choose|k: int|
            0 <= k < missing_from(rs, others).len() && missing_from(rs, others)[k] == i as usize;
        assert(pred(missing_from(rs, others)[k]));
    }
    if pred(i as usize) {
        assert(idx.contains(i as usize));
    }
}

/// After a full overwrite the replica holds exactly the master's rewrites.
pub proof fn law_overwrite_leaves_master_rewrites(existing: Seq<DnsRewrite>, master: Seq<DnsRewrite>)
    requires
        existing.len() <= usize::MAX,
        master.len() <= usize::MAX,
    ensures
        ({
            let (del, add) = rewrite_plan(existing, master, SyncMode::FullOverwrite);
            keys_after(existing, master, del, add) == rewrite_keys(master)
        }),
{
    let (del, add) = rewrite_plan(existing, master, SyncMode::FullOverwrite);
    assert forall|k: (Seq<char>, Seq<char>)|
        keys_after(existing, master, del, add).contains(k) <==> rewrite_keys(master).contains(
            k,
        ) by {
        if exists|i: int|
            0 <= i < existing.len() && !del.contains(i as usize) && rewrite_key(
                #[trigger] existing[i],
            ) == k {
            let i = choose|i: int|
                0 <= i < existing.len() && !del.contains(i as usize) && rewrite_key(
                    #[trigger] existing[i],
                ) == k;
            lemma_in_missing_from(existing, master, i);
        }
        if has_rewrite(master, k) {
            let j = choose|j: int| 0 <= j < master.len() && rewrite_key(#[trigger] master[j]) == k;
            assert(add[j] == j as usize);
            assert(add.contains(j as usize));
        }
    }
    assert(keys_after(existing, master, del, add) =~= rewrite_keys(master));
}

/// After an additive merge the replica holds its own rewrites and the
/// master's.
pub proof fn law_merge_keeps_both_rewrites(existing: Seq<DnsRewrite>, master: Seq<DnsRewrite>)
    requires
        existing.len() <= usize::MAX,
        master.len() <= usize::MAX,
    ensures
        ({
            let (del, add) = rewrite_plan(existing, master, SyncMode::AdditiveMerge);
            keys_after(existing, master, del, add) == rewrite_keys(existing).union(
                rewrite_keys(master),
            )
        }),
{
    let (del, add) = rewrite_plan(existing, master, SyncMode::AdditiveMerge);
    assert forall|k: (Seq<char>, Seq<char>)|
        keys_after(existing, master, del, add).contains(k) <==> rewrite_keys(existing).union(
            rewrite_keys(master),
        ).contains(k) by {
        if has_rewrite(existing, k) {
            let i = choose|i: int|
                0 <= i < existing.len() && rewrite_key(#[trigger] existing[i]) == k;
            assert(!del.contains(i as usize));
        }
        if has_rewrite(master, k) && !has_rewrite(existing, k) {
            let j = choose|j: int| 0 <= j < master.len() && rewrite_key(#[trigger] master[j]) == k;
            lemma_in_missing_from(master, existing, j);
        }
        if exists|j: int|
            0 <= j < master.len() && add.contains(j as usize) && rewrite_key(#[trigger] master[j])
                == k {
            let j = choose|j: int|
                0 <= j < master.len() && add.contains(j as usize) && rewrite_key(
                    #[trigger] master[j],
                ) == k;
            assert(has_rewrite(master, k));
        }
    }
    assert(keys_after(existing, master, del, add) =~= rewrite_keys(existing).union(
        rewrite_keys(master),
    ));
}

/// The modules of a synchronisation, in the order they are applied.
#[derive(Debug, Clone, Copy, PartialEq, Eq, Structural)]
pub enum SyncModule {
    UserRules,
    BlockedServices,
    DnsRewrites,
    DnsConfig,
    AccessList,
    QueryLogConfig,
    SafeSearch,
    ParentalControl,
    GlobalProtection,
    DhcpConfig,
    TlsConfig,
    ProfileInfo,
}

/// The name under which a module is reported.
pub open spec fn module_name(m: SyncModule) -> Seq<char> {
    match m {
        SyncModule::UserRules => "User Rules"@,
        SyncModule::BlockedServices => "Blocked Services"@,
        SyncModule::DnsRewrites => "DNS Rewrites"@,
        SyncModule::DnsConfig => "DNS Config"@,
        SyncModule::AccessList => "Access List"@,
        SyncModule::QueryLogConfig => "Query Log Config"@,
        SyncModule::SafeSearch => "Safe Search"@,
        SyncModule::ParentalControl => "Parental Control"@,
        SyncModule::GlobalProtection => "Global Protection"@,
        SyncModule::DhcpConfig => "DHCP Config"@,
        SyncModule::TlsConfig => "TLS Config"@,
        SyncModule::ProfileInfo => "Profile Info"@,
    }
}

/// The modules in the order they are applied.
pub open spec fn module_order() -> Seq<SyncModule> {
    seq![
        SyncModule::UserRules,
        SyncModule::BlockedServices,
        SyncModule::DnsRewrites,
        SyncModule::DnsConfig,
        SyncModule::AccessList,
        SyncModule::QueryLogConfig,
        SyncModule::SafeSearch,
        SyncModule::ParentalControl,
        SyncModule::GlobalProtection,
        SyncModule::DhcpConfig,
        SyncModule::TlsConfig,
        SyncModule::ProfileInfo,
    ]
}

impl SyncModule {
    /// The name under which the module is reported.
    pub fn name(&self) -> (res: &'static str)
        ensures
            res@ == module_name(*self),
    {
        match self {
            SyncModule::UserRules => "User Rules",
            SyncModule::BlockedServices => "Blocked Services",
            SyncModule::DnsRewrites => "DNS Rewrites",
            SyncModule::DnsConfig => "DNS Config",
            SyncModule::AccessList => "Access List",
            SyncModule::QueryLogConfig => "Query Log Config",
            SyncModule::SafeSearch => "Safe Search",
            SyncModule::ParentalControl => "Parental Control",
            SyncModule::GlobalProtection => "Global Protection",
            SyncModule::DhcpConfig => "DHCP Config",
            SyncModule::TlsConfig => "TLS Config",
            SyncModule::ProfileInfo => "Profile Info",
        }
    }

    /// The modules in the order they are applied.
    pub fn all() -> (res: Vec<SyncModule>)
        ensures
            res@ == module_order(),
    {
        let res = vec![
            SyncModule::UserRules,
            SyncModule::BlockedServices,
            SyncModule::DnsRewrites,
            SyncModule::DnsConfig,
            SyncModule::AccessList,
            SyncModule::QueryLogConfig,
            SyncModule::SafeSearch,
            SyncModule::ParentalControl,
            SyncModule::GlobalProtection,
            SyncModule::DhcpConfig,
            SyncModule::TlsConfig,
            SyncModule::ProfileInfo,
        ];
        assert(res@ =~= module_order());
        res
    }
}

impl SyncResult {
    /// The outcome before any module is tried.
    pub fn new() -> (res: SyncResult)
        ensures
            res.success,
            res.applied_modules@.len() == 0,
            res.failed_modules@.len() == 0,
            res.errors@.len() == 0,
    {
        SyncResult {
            success: true,
            applied_modules: Vec::new(),
            failed_modules: Vec::new(),
            errors: Vec::new(),
        }
    }

    /// Records the outcome of one module: applied when `error` is absent;
    /// otherwise failed, with the error `<module>: <error>`. The whole is a
    /// success exactly when no module failed.
    pub fn record(&mut self, module: &str, error: Option<String>)
        ensures
            final(self).success == (final(self).failed_modules@.len() == 0),
            match error {
                None => {
                    &&& final(self).applied_modules.deep_view() == old(
                        self,
                    ).applied_modules.deep_view().push(module@)
                    &&& final(self).failed_modules.deep_view() == old(
                        self,
                    ).failed_modules.deep_view()
                    &&& final(self).errors.deep_view() == old(self).errors.deep_view()
                },
                Some(e) => {
                    &&& final(self).applied_modules.deep_view() == old(
                        self,
                    ).applied_modules.deep_view()
                    &&& final(self).failed_modules.deep_view() == old(
                        self,
                    ).failed_modules.deep_view().push(module@)
                    &&& final(self).errors.deep_view() == old(self).errors.deep_view().push(
                        module@ + ": "@ + e@,
                    )
                },
            },
    {
        let ghost a0 = self.applied_modules.deep_view();
        let ghost f0 = self.failed_modules.deep_view();
        let ghost e0 = self.errors.deep_view();
        match error {
            None => {
                self.applied_modules.push(String::from_str(module));
                assert(self.applied_modules.deep_view() =~= a0.push(module@));
            },
            Some(e) => {
                self.failed_modules.push(String::from_str(module));
                let mut msg = String::from_str(module);
                msg.append(": ");
                msg.append(e.as_str());
                self.errors.push(msg);
                assert(self.failed_modules.deep_view() =~= f0.push(module@));
                assert(self.errors.deep_view() =~= e0.push(module@ + ": "@ + e@));
            },
        }
        self.success = self.failed_modules.len() == 0;
    }
}


/// What a replica holds before a module is synchronised, as far as the
/// module needs it.
pub enum Existing {
    Nothing,
    Rules(Vec<String>),
    Services(Vec<String>),
    Rewrites(Vec<DnsRewrite>),
}

/// Whether `existing` is what `module` needs to know of the replica in
/// `mode`.
pub open spec fn existing_fits(module: SyncModule, mode: SyncMode, existing: Existing) -> bool {
    match module {
        SyncModule::UserRules => mode == SyncMode::FullOverwrite || existing is Rules,
        SyncModule::BlockedServices => mode == SyncMode::FullOverwrite || existing is Services,
        SyncModule::DnsRewrites => existing is Rewrites,
        _ => true,
    }
}

/// Whether `calls` deletes the planned rewrites of `existing`, then adds the
/// planned rewrites of `master`, in order.
pub open spec fn rewrite_calls(
    calls: Seq<ApiCall>,
    existing: Seq<DnsRewrite>,
    master: Seq<DnsRewrite>,
    mode: SyncMode,
) -> bool {
    let (del, add) = rewrite_plan(existing, master, mode);
    &&& calls.len() == del.len() + add.len()
    &&& forall|i: int|
        0 <= i < del.len() ==> #[trigger] calls[i] == ApiCall::DeleteRewrite(existing[del[i] as int])
    &&& forall|j: int|
        0 <= j < add.len() ==> #[trigger] calls[del.len() + j] == ApiCall::AddRewrite(
            master[add[j] as int],
        )
}

/// What `module` reads from the replica before it writes in `mode`.
pub open spec fn module_read(module: SyncModule, mode: SyncMode) -> Option<ApiCall> {
    match module {
        SyncModule::UserRules => if mode == SyncMode::AdditiveMerge {
            Some(ApiCall::ListFilters)
        } else {
            None
        },
        SyncModule::BlockedServices => if mode == SyncMode::AdditiveMerge {
            Some(ApiCall::ListBlockedServices)
        } else {
            None
        },
        SyncModule::DnsRewrites => Some(ApiCall::ListRewrites),
        _ => None,
    }
}

/// Each module reads from the replica what its plan needs, before it
/// writes. The DNS rewrites module reads the replica's rewrites in both
/// modes: an overwrite deletes those the master lacks, a merge adds the
/// master's that the replica lacks. When merging, the user rules module
/// reads the filter configuration and the blocked services module the
/// blocked services, to keep what the replica has. No other module reads.
/// So a module never plans without what it needs, and in a push the third
/// module, the DNS rewrites, starts with reading the replica's rewrites.
pub proof fn law_modules_read_what_their_plan_needs(m: SyncModule, mode: SyncMode, outs: Seq<Option<Seq<char>>>)
    ensures
        module_read(SyncModule::DnsRewrites, mode) == Some(ApiCall::ListRewrites),
        module_read(SyncModule::UserRules, SyncMode::AdditiveMerge) == Some(ApiCall::ListFilters),
        module_read(SyncModule::BlockedServices, SyncMode::AdditiveMerge) == Some(
            ApiCall::ListBlockedServices,
        ),
        module_read(SyncModule::UserRules, SyncMode::FullOverwrite) is None,
        module_read(SyncModule::BlockedServices, SyncMode::FullOverwrite) is None,
        m != SyncModule::UserRules && m != SyncModule::BlockedServices && m
            != SyncModule::DnsRewrites ==> module_read(m, mode) is None,
        !existing_fits(m, mode, Existing::Nothing) ==> module_read(m, mode) is Some,
        outs.len() == 2 ==> between_action(outs, mode) == PushAction::Read(
            SyncModule::DnsRewrites,
            ApiCall::ListRewrites,
        ),
{
}

impl SyncModule {
    /// What the module reads from the replica before it writes: the filter
    /// configuration for its rules and the blocked services when merging,
    /// and the rewrites in either mode.
    pub fn read_before(&self, mode: SyncMode) -> (res: Option<ApiCall>)
        ensures
            res == module_read(*self, mode),
    {
        match self {
            SyncModule::UserRules => match mode {
                SyncMode::AdditiveMerge => Some(ApiCall::ListFilters),
                SyncMode::FullOverwrite => None,
            },
            SyncModule::BlockedServices => match mode {
                SyncMode::AdditiveMerge => Some(ApiCall::ListBlockedServices),
                SyncMode::FullOverwrite => None,
            },
            SyncModule::DnsRewrites => Some(ApiCall::ListRewrites),
            _ => None,
        }
    }
}

/// Whether `at` lists, in increasing order, exactly the indices of the
/// rewrites of `rs` whose domain and answer no rewrite of `others` has.
pub open spec fn lacking_exactly(at: Seq<usize>, rs: Seq<DnsRewrite>, others: Seq<DnsRewrite>) -> bool {
    &&& forall|p: int, q: int| 0 <= p < q < at.len() ==> #[trigger] at[p] < #[trigger] at[q]
    &&& forall|q: int|
        0 <= q < at.len() ==> (#[trigger] at[q] as int) < rs.len() && !has_rewrite(
            others,
            rewrite_key(rs[at[q] as int]),
        )
    &&& forall|i: int|
        0 <= i < rs.len() && !has_rewrite(others, rewrite_key(#[trigger] rs[i])) ==> at.contains(
            i as usize,
        )
}

/// A filter of the indices `0 .. n` keeps them in increasing order.
proof fn lemma_filtered_indices_increase(n: nat, pred: spec_fn(usize) -> bool)
    requires
        n <= usize::MAX,
    ensures
        forall|p: int, q: int|
            0 <= p < q < indices(n).filter(pred).len() ==> #[trigger] indices(n).filter(pred)[p]
                < #[trigger] indices(n).filter(pred)[q],
        forall|q: int|
            0 <= q < indices(n).filter(pred).len() ==> (#[trigger] indices(n).filter(pred)[q] as int)
                < n,
    decreases n,
{
    reveal_with_fuel(Seq::<_>::filter, 1);
    if n > 0 {
        let m = (n - 1) as nat;
        lemma_filtered_indices_increase(m, pred);
        assert(indices(n).drop_last() =~= indices(m));
        assert(indices(n).last() == m as usize);
        let f = indices(n).filter(pred);
        let g = indices(m).filter(pred);
        assert(f == if pred(m as usize) {
            g.push(m as usize)
        } else {
            g
        });
        assert forall|q: int| 0 <= q < f.len() implies (#[trigger] f[q] as int) < n by {
            if q < g.len() {
                assert(f[q] == g[q]);
            }
        }
        assert forall|p: int, q: int| 0 <= p < q < f.len() implies #[trigger] f[p] < #[trigger] f[q] by {
            assert(f[p] == g[p]);
            if q < g.len() {
                assert(f[q] == g[q]);
            }
        }
    }
}

/// `missing_from(rs, others)` lists, in increasing order, exactly the
/// indices of the rewrites of `rs` that `others` lacks.
proof fn lemma_missing_from_exact(rs: Seq<DnsRewrite>, others: Seq<DnsRewrite>)
    requires
        rs.len() <= usize::MAX,
    ensures
        lacking_exactly(missing_from(rs, others), rs, others),
{
    let f = missing_from(rs, others);
    lemma_filtered_indices_increase(rs.len(), lacking_in(rs, others));
    indices(rs.len()).filter_lemma(lacking_in(rs, others));
    assert forall|q: int| 0 <= q < f.len() implies (#[trigger] f[q] as int) < rs.len() && !has_rewrite(
        others,
        rewrite_key(rs[f[q] as int]),
    ) by {
        assert(lacking_in(rs, others)(f[q]));
    }
    assert forall|i: int|
        0 <= i < rs.len() && !has_rewrite(others, rewrite_key(#[trigger] rs[i])) implies f.contains(
        i as usize,
    ) by {
        lemma_in_missing_from(rs, others, i);
    }
}

/// The rewrite plan is exact. Overwriting deletes, in order, exactly the
/// replica's rewrites whose domain and answer no rewrite of the master has,
/// then adds every rewrite of the master once, in order, also those the
/// replica already has. Merging deletes nothing, so every rewrite of the
/// replica is kept, and adds, in order, exactly the master's rewrites whose
/// domain and answer no rewrite of the replica has. [`rewrite_calls`] turns
/// the plan into the calls, deletions first.
pub proof fn law_rewrite_plan_is_exact(
    existing: Seq<DnsRewrite>,
    master: Seq<DnsRewrite>,
    mode: SyncMode,
)
    requires
        existing.len() <= usize::MAX,
        master.len() <= usize::MAX,
    ensures
        mode == SyncMode::FullOverwrite ==> {
            let (del, add) = rewrite_plan(existing, master, mode);
            &&& lacking_exactly(del, existing, master)
            &&& add.len() == master.len()
            &&& forall|j: int| 0 <= j < add.len() ==> #[trigger] add[j] == j as usize
        },
        mode == SyncMode::AdditiveMerge ==> {
            let (del, add) = rewrite_plan(existing, master, mode);
            &&& del.len() == 0
            &&& lacking_exactly(add, master, existing)
        },
{
    lemma_missing_from_exact(existing, master);
    lemma_missing_from_exact(master, existing);
}

/// The planned indices are indices of the rewrites they come from.
proof fn lemma_missing_in_range(rs: Seq<DnsRewrite>, others: Seq<DnsRewrite>, q: int)
    requires
        0 <= q < missing_from(rs, others).len(),
    ensures
        (missing_from(rs, others)[q] as int) < rs.len(),
{
    let f = missing_from(rs, others);
    assert(f.contains(f[q]));
    indices(rs.len()).lemma_filter_contains_rev(lacking_in(rs, others), f[q]);
    let k = choose|k: int| 0 <= k < indices(rs.len()).len() && indices(rs.len())[k] == f[q];
    assert(indices(rs.len())[k] == k as usize);
}

/// The calls that delete and add rewrites as planned.
fn rewrite_call_list(existing: &Vec<DnsRewrite>, master: &Vec<DnsRewrite>, mode: SyncMode) -> (res:
    Vec<ApiCall>)
    ensures
        rewrite_calls(res@, existing@, master@, mode),
{
    let plan = plan_rewrites(existing, master, mode);
    let ghost del = plan.deletions@;
    let ghost add = plan.additions@;
    let mut calls: Vec<ApiCall> = Vec::new();
    let nd = plan.deletions.len();
    let mut i: usize = 0;
    while i < nd
        invariant
            nd == del.len(),
            del == plan.deletions@,
            (del, add) == rewrite_plan(existing@, master@, mode),
            0 <= i <= nd,
            calls@.len() == i,
            forall|q: int|
                0 <= q < i ==> #[trigger] calls@[q] == ApiCall::DeleteRewrite(existing@[del[q] as int]),
        decreases nd - i,
    {
        let d = plan.deletions[i];
        proof {
            lemma_missing_in_range(existing@, master@, i as int);
        }
        calls.push(ApiCall::DeleteRewrite(existing[d].duplicate()));
        i = i + 1;
    }
    let na = plan.additions.len();
    let mut j: usize = 0;
    while j < na
        invariant
            nd == del.len(),
            na == add.len(),
            add == plan.additions@,
            (del, add) == rewrite_plan(existing@, master@, mode),
            0 <= j <= na,
            calls@.len() == nd + j,
            forall|q: int|
                0 <= q < nd ==> #[trigger] calls@[q] == ApiCall::DeleteRewrite(existing@[del[q] as int]),
            forall|q: int|
                0 <= q < j ==> #[trigger] calls@[nd + q] == ApiCall::AddRewrite(master@[add[q] as int]),
        decreases na - j,
    {
        let a = plan.additions[j];
        proof {
            if mode == SyncMode::AdditiveMerge {
                lemma_missing_in_range(master@, existing@, j as int);
            }
        }
        let ghost before = calls@;
        calls.push(ApiCall::AddRewrite(master[a].duplicate()));
        proof {
            assert forall|q: int| 0 <= q < nd implies #[trigger] calls@[q] == ApiCall::DeleteRewrite(
                existing@[del[q] as int],
            ) by {
                assert(calls@[q] == before[q]);
            }
            assert forall|q: int| 0 <= q < j + 1 implies #[trigger] calls@[nd + q]
                == ApiCall::AddRewrite(master@[add[q] as int]) by {
                if q < j {
                    assert(calls@[nd + q] == before[nd + q]);
                }
            }
        }
        j = j + 1;
    }
    calls
}

/// Whether `res` are the calls that store the module `module` of `s` on a
/// replica in `mode`, given what was read of the replica.
pub open spec fn calls_planned(
    s: SyncState,
    module: SyncModule,
    mode: SyncMode,
    existing: Existing,
    res: Seq<ApiCall>,
) -> bool {
    match module {
        SyncModule::UserRules => res.len() == 1 && match existing {
            Existing::Rules(ex) if mode == SyncMode::AdditiveMerge => res[0] matches ApiCall::SetUserRules(v)
                && v.deep_view() == merge_seq(
                ex.deep_view(),
                s.filtering.user_rules.deep_view(),
            ),
            _ => res[0] == ApiCall::SetUserRules(s.filtering.user_rules),
        },
        SyncModule::BlockedServices => res.len() == 1 && match existing {
            Existing::Services(ex) if mode == SyncMode::AdditiveMerge => res[0] matches ApiCall::SetBlockedServices(v)
                && v.deep_view() == merge_seq(
                ex.deep_view(),
                s.blocked_services.deep_view(),
            ),
            _ => res[0] == ApiCall::SetBlockedServices(s.blocked_services),
        },
        SyncModule::DnsRewrites => match existing {
            Existing::Rewrites(ex) => rewrite_calls(res, ex@, s.rewrites@, mode),
            _ => false,
        },
        SyncModule::DnsConfig => res == seq![ApiCall::SetDnsConfig(s.dns)],
        SyncModule::AccessList => res == seq![ApiCall::SetAccessList(s.access_list)],
        SyncModule::QueryLogConfig => res == seq![
            ApiCall::SetQueryLogConfig(s.query_log_config),
        ],
        SyncModule::SafeSearch => res == seq![
            ApiCall::SetSafeSearchSettings(s.safe_search),
        ],
        SyncModule::ParentalControl => res == seq![
            ApiCall::SetParentalControl(s.parental_control.enabled),
        ],
        SyncModule::GlobalProtection => res == seq![
            ApiCall::SetProtection(s.safe_browsing),
        ],
        SyncModule::DhcpConfig => res == seq![ApiCall::SetDhcpConfig(s.dhcp)],
        SyncModule::TlsConfig => res == seq![ApiCall::ConfigureTls(s.tls)],
        SyncModule::ProfileInfo => res == seq![ApiCall::SetProfileInfo(s.profile_info)],
    }
}

/// What each module stores on a replica: each of its calls goes to the
/// module's own endpoint of the AdGuard Home control API, carrying the
/// master's setting. The rewrites module first deletes, through
/// `rewrite/delete`, the rewrites its plan deletes, then adds, through
/// `rewrite/add`, those it adds.
pub proof fn law_modules_store_through_their_endpoints(
    s: SyncState,
    module: SyncModule,
    mode: SyncMode,
    existing: Existing,
    res: Seq<ApiCall>,
)
    requires
        calls_planned(s, module, mode, existing, res),
    ensures
        module == SyncModule::UserRules ==> res.len() == 1 && call_method(res[0]) == HttpMethod::Post && call_target(res[0]) == "/control/filtering/set_rules"@,
        module == SyncModule::BlockedServices ==> res.len() == 1 && call_method(res[0]) == HttpMethod::Post && call_target(res[0]) == "/control/blocked_services/set"@,
        module == SyncModule::UserRules && mode == SyncMode::FullOverwrite ==> (res[0] matches ApiCall::SetUserRules(v)
            && v.deep_view() == s.filtering.user_rules.deep_view()),
        module == SyncModule::UserRules && mode == SyncMode::AdditiveMerge ==> (existing matches Existing::Rules(ex)
            ==> (res[0] matches ApiCall::SetUserRules(v) && v.deep_view().take(ex.len() as int)
            == ex.deep_view() && forall|x: Seq<char>| #[trigger] v.deep_view().contains(x) <==> (ex.deep_view().contains(x)
            || s.filtering.user_rules.deep_view().contains(x)))),
        module == SyncModule::BlockedServices && mode == SyncMode::FullOverwrite ==> (res[0] matches ApiCall::SetBlockedServices(v)
            && v.deep_view() == s.blocked_services.deep_view()),
        module == SyncModule::BlockedServices && mode == SyncMode::AdditiveMerge ==> (existing matches Existing::Services(ex)
            ==> (res[0] matches ApiCall::SetBlockedServices(v) && v.deep_view().take(ex.len() as int)
            == ex.deep_view() && forall|x: Seq<char>| #[trigger] v.deep_view().contains(x) <==> (ex.deep_view().contains(x)
            || s.blocked_services.deep_view().contains(x)))),
        module == SyncModule::DnsRewrites ==> (existing matches Existing::Rewrites(ex) && forall|i: int|
            0 <= i < res.len() ==> call_method(#[trigger] res[i]) == HttpMethod::Post && (i
                < rewrite_plan(ex@, s.rewrites@, mode).0.len() ==> call_target(res[i])
                == "/control/rewrite/delete"@) && (i >= rewrite_plan(ex@, s.rewrites@, mode).0.len()
                ==> call_target(res[i]) == "/control/rewrite/add"@)),
        module == SyncModule::DnsConfig ==> res.len() == 1 && call_method(res[0]) == HttpMethod::Post && call_target(res[0]) == "/control/dns_config"@ && call_body(res[0]) == RequestBody::Dns(s.dns),
        module == SyncModule::AccessList ==> res.len() == 1 && call_method(res[0]) == HttpMethod::Post && call_target(res[0]) == "/control/access/set"@ && call_body(res[0]) == RequestBody::Access(s.access_list),
        module == SyncModule::QueryLogConfig ==> res.len() == 1 && call_method(res[0]) == HttpMethod::Put && call_target(res[0]) == "/control/querylog/config/update"@ && call_body(res[0]) == RequestBody::QueryLog(s.query_log_config),
        module == SyncModule::SafeSearch ==> res.len() == 1 && call_method(res[0]) == HttpMethod::Put && call_target(res[0]) == "/control/safesearch/settings"@ && call_body(res[0]) == RequestBody::SafeSearch(s.safe_search),
        module == SyncModule::ParentalControl ==> res.len() == 1 && call_method(res[0]) == HttpMethod::Post && call_target(res[0]) == "/control/parental"@ + (if s.parental_control.enabled {
            "/enable"@
        } else {
            "/disable"@
        }),
        module == SyncModule::GlobalProtection ==> res.len() == 1 && call_method(res[0]) == HttpMethod::Post && call_target(res[0]) == "/control/protection"@ && call_body(res[0]) == RequestBody::Protection(s.safe_browsing),
        module == SyncModule::DhcpConfig ==> res.len() == 1 && call_method(res[0]) == HttpMethod::Post && call_target(res[0]) == "/control/dhcp/set_config"@ && call_body(res[0]) == RequestBody::Dhcp(s.dhcp),
        module == SyncModule::TlsConfig ==> res.len() == 1 && call_method(res[0]) == HttpMethod::Post && call_target(res[0]) == "/control/tls/configure"@ && call_body(res[0]) == RequestBody::Tls(s.tls),
        module == SyncModule::ProfileInfo ==> res.len() == 1 && call_method(res[0]) == HttpMethod::Put && call_target(res[0]) == "/control/profile/update"@ && call_body(res[0]) == RequestBody::Profile(s.profile_info),
{
    if mode == SyncMode::AdditiveMerge {
        if let Existing::Rules(ex) = existing {
            if module == SyncModule::UserRules {
                law_merge_keeps_existing_first(ex.deep_view(), s.filtering.user_rules.deep_view());
                assert forall|x: Seq<char>| #[trigger] merge_seq(ex.deep_view(), s.filtering.user_rules.deep_view()).contains(x)
                    <==> (ex.deep_view().contains(x) || s.filtering.user_rules.deep_view().contains(x)) by {
                    law_merge_holds_exactly_both(ex.deep_view(), s.filtering.user_rules.deep_view(), x);
                }
            }
        }
        if let Existing::Services(ex) = existing {
            if module == SyncModule::BlockedServices {
                law_merge_keeps_existing_first(ex.deep_view(), s.blocked_services.deep_view());
                assert forall|x: Seq<char>| #[trigger] merge_seq(ex.deep_view(), s.blocked_services.deep_view()).contains(x)
                    <==> (ex.deep_view().contains(x) || s.blocked_services.deep_view().contains(x)) by {
                    law_merge_holds_exactly_both(ex.deep_view(), s.blocked_services.deep_view(), x);
                }
            }
        }
    }
    if module == SyncModule::DnsRewrites {
        if let Existing::Rewrites(ex) = existing {
            let del = rewrite_plan(ex@, s.rewrites@, mode).0;
            assert forall|i: int| 0 <= i < res.len() implies call_method(#[trigger] res[i])
                == HttpMethod::Post && (i < del.len() ==> call_target(res[i])
                == "/control/rewrite/delete"@) && (i >= del.len() ==> call_target(res[i])
                == "/control/rewrite/add"@) by {
                if i >= del.len() {
                    assert(res[del.len() + (i - del.len())] == res[i]);
                }
            }
        }
    }
}


impl SyncState {
    /// The calls that bring the replica in line with this state for
    /// `module`, given what the module read from the replica first.
    ///
    /// The rules and the blocked services are stored as the master has
    /// them when overwriting, and merged into the replica's with
    /// [`merge_additive`] otherwise; the rewrites are deleted and added as
    /// [`plan_rewrites`] decides; every other module stores the master's
    /// setting.
    pub fn calls_for(self, module: SyncModule, mode: SyncMode, existing: Existing) -> (res: Vec<
        ApiCall,
    >)
        requires
            existing_fits(module, mode, existing),
        ensures
            calls_planned(self, module, mode, existing, res@),
    {
        let call = match module {
            SyncModule::UserRules => match existing {
                Existing::Rules(ex) => match mode {
                    SyncMode::AdditiveMerge => ApiCall::SetUserRules(
                        merge_additive(&ex, &self.filtering.user_rules),
                    ),
                    SyncMode::FullOverwrite => ApiCall::SetUserRules(self.filtering.user_rules),
                },
                _ => ApiCall::SetUserRules(self.filtering.user_rules),
            },
            SyncModule::BlockedServices => match existing {
                Existing::Services(ex) => match mode {
                    SyncMode::AdditiveMerge => ApiCall::SetBlockedServices(
                        merge_additive(&ex, &self.blocked_services),
                    ),
                    SyncMode::FullOverwrite => ApiCall::SetBlockedServices(self.blocked_services),
                },
                _ => ApiCall::SetBlockedServices(self.blocked_services),
            },
            SyncModule::DnsRewrites => {
                return match existing {
                    Existing::Rewrites(ex) => rewrite_call_list(&ex, &self.rewrites, mode),
                    _ => Vec::new(),
                };
            },
            SyncModule::DnsConfig => ApiCall::SetDnsConfig(self.dns),
            SyncModule::AccessList => ApiCall::SetAccessList(self.access_list),
            SyncModule::QueryLogConfig => ApiCall::SetQueryLogConfig(self.query_log_config),
            SyncModule::SafeSearch => ApiCall::SetSafeSearchSettings(self.safe_search),
            SyncModule::ParentalControl => ApiCall::SetParentalControl(self.parental_control.enabled),
            SyncModule::GlobalProtection => ApiCall::SetProtection(self.safe_browsing),
            SyncModule::DhcpConfig => ApiCall::SetDhcpConfig(self.dhcp),
            SyncModule::TlsConfig => ApiCall::ConfigureTls(self.tls),
            SyncModule::ProfileInfo => ApiCall::SetProfileInfo(self.profile_info),
        };
        let res = vec![call];
        assert(res@ =~= seq![call]);
        res
    }
}

/// What `url::Url::parse` reports about `url`: nothing when it parses,
/// otherwise the message of its error.
pub uninterp spec fn url_parse_error(url: Seq<char>) -> Option<Seq<char>>;

/// Parses `url` with `url::Url::parse` and keeps the message of the error,
/// if any. The URL grammar is not restated here; the result is the name
/// above applied to the text.
#[verifier::external_body]
fn url_error(url: &str) -> (res: Option<String>)
    ensures
        match res {
            Some(m) => url_parse_error(url@) == Some(m@),
            None => url_parse_error(url@) is None,
        },
{
    match url::Url::parse(url) {
        Ok(_) => None,
        Err(e) => Some(e.to_string()),
    }
}

/// What the background synchronisation does.
pub enum BackgroundSync {
    /// No replica is configured: nothing is done.
    Skip,
    /// Every `interval_seconds`, the state of `master` is read and pushed in
    /// `mode` to each configured replica in turn (reached as
    /// [`replica_instance`] gives), going on with the next replica after a
    /// failure.
    Run { master: InstanceConfig, mode: SyncMode, interval_seconds: u64 },
}

/// What the background synchronisation of `config` does: nothing without
/// replicas; otherwise it pushes the first instance's state to them in the
/// default mode, at the configured interval.
pub fn background_sync(config: &AppConfig) -> (res: BackgroundSync)
    requires
        config.replicas@.len() > 0 ==> config.instances@.len() > 0,
    ensures
        config.replicas@.len() == 0 ==> res is Skip,
        config.replicas@.len() > 0 ==> (res matches BackgroundSync::Run {
            master,
            mode,
            interval_seconds,
        } && master == config.instances@[0] && (mode == SyncMode::FullOverwrite
            <==> config.default_sync_mode@ == "full-overwrite"@) && interval_seconds
            == config.sync_interval_seconds),
{
    if config.replicas.len() == 0 {
        return BackgroundSync::Skip;
    }
    BackgroundSync::Run {
        master: config.instances[0].duplicate(),
        mode: SyncMode::parse(config.default_sync_mode.as_str()),
        interval_seconds: config.sync_interval_seconds,
    }
}

/// The instance a replica is reached as: named `replica`, with the
/// replica's URL and API key; refused with a configuration error when the
/// URL does not parse.
pub fn replica_instance(r: &ReplicaConfig) -> (res: Result<InstanceConfig, Error>)
    ensures
        match url_parse_error(r.url@) {
            Some(m) => res matches Err(Error::Config(e)) && e@ == m,
            None => res matches Ok(i) && i.name matches Some(n) && n@ == "replica"@ && i.url
                == r.url && i.api_key == Some(r.api_key) && i.username is None && i.password is None
                && i.no_verify_ssl is None,
        },
{
    match url_error(r.url.as_str()) {
        Some(m) => Err(Error::Config(m)),
        None => Ok(
            InstanceConfig {
                name: Some(String::from_str("replica")),
                url: r.url.clone(),
                api_key: Some(r.api_key.clone()),
                username: None,
                password: None,
                no_verify_ssl: None,
            },
        ),
    }
}


/// The names of the modules that applied, given the outcome of each module
/// in order (nothing when it applied, its error otherwise).
pub open spec fn applied_of(outs: Seq<Option<Seq<char>>>) -> Seq<Seq<char>>
    decreases outs.len(),
{
    if outs.len() == 0 {
        Seq::empty()
    } else {
        let front = applied_of(outs.drop_last());
        if outs.last() is None {
            front.push(module_name(module_order()[outs.len() - 1]))
        } else {
            front
        }
    }
}

/// The names of the modules that failed, in order.
pub open spec fn failed_of(outs: Seq<Option<Seq<char>>>) -> Seq<Seq<char>>
    decreases outs.len(),
{
    if outs.len() == 0 {
        Seq::empty()
    } else {
        let front = failed_of(outs.drop_last());
        if outs.last() is Some {
            front.push(module_name(module_order()[outs.len() - 1]))
        } else {
            front
        }
    }
}

/// The positions, in increasing order, of the modules that applied.
pub open spec fn applied_at(outs: Seq<Option<Seq<char>>>) -> Seq<int>
    decreases outs.len(),
{
    if outs.len() == 0 {
        Seq::empty()
    } else {
        let front = applied_at(outs.drop_last());
        if outs.last() is None {
            front.push(outs.len() - 1)
        } else {
            front
        }
    }
}

/// The positions, in increasing order, of the modules that failed.
pub open spec fn failed_at(outs: Seq<Option<Seq<char>>>) -> Seq<int>
    decreases outs.len(),
{
    if outs.len() == 0 {
        Seq::empty()
    } else {
        let front = failed_at(outs.drop_last());
        if outs.last() is Some {
            front.push(outs.len() - 1)
        } else {
            front
        }
    }
}

/// Whether `at` lists, in increasing order, exactly the positions `i` of
/// `outs` whose outcome is a failure when `failed`, a success otherwise.
pub open spec fn positions_of(outs: Seq<Option<Seq<char>>>, at: Seq<int>, failed: bool) -> bool {
    &&& forall|p: int, q: int| 0 <= p < q < at.len() ==> #[trigger] at[p] < #[trigger] at[q]
    &&& forall|q: int|
        0 <= q < at.len() ==> 0 <= #[trigger] at[q] < outs.len() && (outs[at[q]] is Some)
            == failed
    &&& forall|i: int|
        0 <= i < outs.len() && (#[trigger] outs[i] is Some) == failed ==> at.contains(i)
}

/// Whether `names` are the names of the modules at the positions `at`.
pub open spec fn names_at(names: Seq<Seq<char>>, at: Seq<int>) -> bool {
    &&& names.len() == at.len()
    &&& forall|q: int| 0 <= q < at.len() ==> #[trigger] names[q] == module_name(module_order()[at[q]])
}

/// Different modules are reported under different names.
proof fn lemma_module_names_differ(a: SyncModule, b: SyncModule)
    requires
        a != b,
    ensures
        module_name(a) != module_name(b),
{
    reveal_strlit("User Rules");
    reveal_strlit("Blocked Services");
    reveal_strlit("DNS Rewrites");
    reveal_strlit("DNS Config");
    reveal_strlit("Access List");
    reveal_strlit("Query Log Config");
    reveal_strlit("Safe Search");
    reveal_strlit("Parental Control");
    reveal_strlit("Global Protection");
    reveal_strlit("DHCP Config");
    reveal_strlit("TLS Config");
    reveal_strlit("Profile Info");
    if module_name(a) == module_name(b) {
        assert(module_name(a).len() == module_name(b).len());
        assert(module_name(a)[0] == module_name(b)[0]);
    }
}

/// Modules at different positions of the order have different names.
proof fn lemma_positions_have_different_names(i: int, j: int)
    requires
        0 <= i < module_order().len(),
        0 <= j < module_order().len(),
        i != j,
    ensures
        module_name(module_order()[i]) != module_name(module_order()[j]),
{
    assert(module_order()[i] != module_order()[j]);
    lemma_module_names_differ(module_order()[i], module_order()[j]);
}

/// The applied and the failed modules are listed at the positions of their
/// outcomes, in order.
proof fn lemma_outcome_positions(outs: Seq<Option<Seq<char>>>)
    requires
        outs.len() <= module_order().len(),
    ensures
        positions_of(outs, applied_at(outs), false),
        positions_of(outs, failed_at(outs), true),
        names_at(applied_of(outs), applied_at(outs)),
        names_at(failed_of(outs), failed_at(outs)),
    decreases outs.len(),
{
    if outs.len() > 0 {
        let front = outs.drop_last();
        let k = outs.len() - 1;
        lemma_outcome_positions(front);
        assert forall|i: int| 0 <= i < k implies outs[i] == #[trigger] front[i] by {}
        let (fa, ff) = (applied_at(front), failed_at(front));
        if outs.last() is None {
            assert forall|i: int| 0 <= i < outs.len() && outs[i] is None implies applied_at(outs).contains(i) by {
                if i < k {
                    assert((front[i] is Some) == false);
                    assert(fa.contains(i));
                    let q = choose|q: int| 0 <= q < fa.len() && fa[q] == i;
                    assert(applied_at(outs)[q] == i);
                } else {
                    assert(applied_at(outs)[fa.len() as int] == i);
                }
            }
            assert forall|i: int| 0 <= i < outs.len() && outs[i] is Some implies failed_at(outs).contains(i) by {
                assert(i < k);
                assert(front[i] is Some);
            }
        } else {
            assert forall|i: int| 0 <= i < outs.len() && outs[i] is Some implies failed_at(outs).contains(i) by {
                if i < k {
                    assert(front[i] is Some);
                    let q = choose|q: int| 0 <= q < ff.len() && ff[q] == i;
                    assert(failed_at(outs)[q] == i);
                } else {
                    assert(failed_at(outs)[ff.len() as int] == i);
                }
            }
            assert forall|i: int| 0 <= i < outs.len() && outs[i] is None implies applied_at(outs).contains(i) by {
                assert(i < k);
                assert(front[i] is None);
            }
        }
    }
}

/// One error per failed module: its name, `: ` and the error.
pub open spec fn errors_of(outs: Seq<Option<Seq<char>>>) -> Seq<Seq<char>>
    decreases outs.len(),
{
    if outs.len() == 0 {
        Seq::empty()
    } else {
        let front = errors_of(outs.drop_last());
        match outs.last() {
            Some(e) => front.push(module_name(module_order()[outs.len() - 1]) + ": "@ + e),
            None => front,
        }
    }
}

/// Whether `r` records the outcomes `outs`.
pub open spec fn records(r: SyncResult, outs: Seq<Option<Seq<char>>>) -> bool {
    &&& r.applied_modules.deep_view() == applied_of(outs)
    &&& r.failed_modules.deep_view() == failed_of(outs)
    &&& r.errors.deep_view() == errors_of(outs)
    &&& r.success == (failed_of(outs).len() == 0)
}

/// What pushing a state to a replica does next.
pub enum PushAction {
    /// Read this from the replica for `module`, then hand
    /// [`SyncState::calls_for`] of what was read to [`Push::plan`]; a
    /// failed read goes to [`Push::failed`].
    Read(SyncModule, ApiCall),
    /// Hand [`SyncState::calls_for`] with nothing read to [`Push::plan`].
    Plan(SyncModule),
    /// Send this call; a failure goes to [`Push::failed`].
    Send(ApiCall),
    /// Every module has an outcome; [`Push::finish`] gives the result.
    Done,
}

/// The action for the next module once the modules of `outs` are done.
pub open spec fn between_action(outs: Seq<Option<Seq<char>>>, mode: SyncMode) -> PushAction {
    if outs.len() >= module_order().len() {
        PushAction::Done
    } else {
        let m = module_order()[outs.len() as int];
        match module_read(m, mode) {
            Some(c) => PushAction::Read(m, c),
            None => PushAction::Plan(m),
        }
    }
}

/// The progress of pushing a state to a replica: each module in order is
/// read for, planned and its calls sent; a module stops at its first
/// failure, which is its outcome, and the next module follows.
pub struct Push {
    mode: SyncMode,
    modules: Vec<SyncModule>,
    next: usize,
    sending: bool,
    calls: Vec<ApiCall>,
    result: SyncResult,
    outcomes: Ghost<Seq<Option<Seq<char>>>>,
}

impl Push {
    /// The outcomes of the modules done so far, in order.
    pub closed spec fn outcomes(&self) -> Seq<Option<Seq<char>>> {
        self.outcomes@
    }

    /// The mode of the push.
    pub closed spec fn mode(&self) -> SyncMode {
        self.mode
    }

    /// Whether the current module's calls are being sent.
    pub closed spec fn sending(&self) -> bool {
        self.sending
    }

    /// The current module's calls not sent yet.
    pub closed spec fn pending(&self) -> Seq<ApiCall> {
        self.calls@
    }

    /// Whether the push is consistent.
    pub closed spec fn wf(&self) -> bool {
        &&& self.modules@ == module_order()
        &&& self.next as int == self.outcomes@.len()
        &&& self.outcomes@.len() <= module_order().len()
        &&& self.sending ==> self.outcomes@.len() < module_order().len()
        &&& !self.sending ==> self.calls@.len() == 0
        &&& records(self.result, self.outcomes@)
    }

    /// A push in `mode` with no module done.
    pub fn new(mode: SyncMode) -> (res: Push)
        ensures
            res.wf(),
            res.mode() == mode,
            res.outcomes() == Seq::<Option<Seq<char>>>::empty(),
            !res.sending(),
    {
        let res = Push {
            mode,
            modules: SyncModule::all(),
            next: 0,
            sending: false,
            calls: Vec::new(),
            result: SyncResult::new(),
            outcomes: Ghost(Seq::empty()),
        };
        assert(res.result.applied_modules.deep_view() =~= applied_of(Seq::empty()));
        assert(res.result.failed_modules.deep_view() =~= failed_of(Seq::empty()));
        assert(res.result.errors.deep_view() =~= errors_of(Seq::empty()));
        res
    }

    /// Records the outcome of the current module.
    fn conclude(&mut self, error: Option<String>)
        requires
            old(self).wf(),
            old(self).outcomes().len() < module_order().len(),
        ensures
            final(self).wf(),
            final(self).mode() == old(self).mode(),
            !final(self).sending(),
            final(self).outcomes() == old(self).outcomes().push(
                match error {
                    Some(e) => Some(e@),
                    None => None,
                },
            ),
    {
        let ghost outs = self.outcomes@;
        let ghost o = match error {
            Some(ref e) => Some(e@),
            None => None,
        };
        let m = self.modules[self.next];
        self.result.record(m.name(), error);
        proof {
            let n = outs.push(o);
            assert(n.drop_last() =~= outs);
            assert(module_order()[n.len() - 1] == m);
            self.outcomes = Ghost(n);
        }
        self.next = self.next + 1;
        self.sending = false;
        self.calls = Vec::new();
    }

    /// The next thing to do. While the current module has calls left, the
    /// first is sent; once none is left the module applied, and the next
    /// module is read for or planned; when every module has an outcome the
    /// push is done.
    pub fn next(&mut self) -> (res: PushAction)
        requires
            old(self).wf(),
        ensures
            final(self).wf(),
            final(self).mode() == old(self).mode(),
            old(self).sending() && old(self).pending().len() > 0 ==> {
                &&& res matches PushAction::Send(c) && c == old(self).pending()[0]
                &&& final(self).pending() == old(self).pending().drop_first()
                &&& final(self).sending()
                &&& final(self).outcomes() == old(self).outcomes()
            },
            !(old(self).sending() && old(self).pending().len() > 0) ==> {
                let outs = if old(self).sending() {
                    old(self).outcomes().push(None)
                } else {
                    old(self).outcomes()
                };
                &&& final(self).outcomes() == outs
                &&& !final(self).sending()
                &&& res == between_action(outs, old(self).mode())
            },
    {
        if self.sending {
            if self.calls.len() > 0 {
                let c = self.calls.remove(0);
                return PushAction::Send(c);
            }
            self.conclude(None);
        }
        if self.next >= self.modules.len() {
            return PushAction::Done;
        }
        let m = self.modules[self.next];
        match m.read_before(self.mode) {
            Some(c) => PushAction::Read(m, c),
            None => PushAction::Plan(m),
        }
    }

    /// Starts sending the calls planned for the current module.
    pub fn plan(&mut self, calls: Vec<ApiCall>)
        requires
            old(self).wf(),
            !old(self).sending(),
            old(self).outcomes().len() < module_order().len(),
        ensures
            final(self).wf(),
            final(self).mode() == old(self).mode(),
            final(self).sending(),
            final(self).pending() == calls@,
            final(self).outcomes() == old(self).outcomes(),
    {
        self.calls = calls;
        self.sending = true;
    }

    /// The current module failed with `error`: it stops there, with that
    /// outcome, and the next module follows.
    pub fn failed(&mut self, error: String)
        requires
            old(self).wf(),
            old(self).outcomes().len() < module_order().len(),
        ensures
            final(self).wf(),
            final(self).mode() == old(self).mode(),
            !final(self).sending(),
            final(self).outcomes() == old(self).outcomes().push(Some(error@)),
    {
        self.conclude(Some(error));
    }

    /// The result, once every module has an outcome.
    pub fn finish(self) -> (res: SyncResult)
        requires
            self.wf(),
        ensures
            records(res, self.outcomes()),
    {
        self.result
    }
}

/// The outcomes of the modules split them, in order, into those applied
/// and those failed: each list names its modules once, in the order they
/// are applied, no module is in both, and once every module has an outcome
/// each module is in one of them. Each failure has one error that starts
/// with the module's name; the push succeeds exactly when none failed.
pub proof fn law_outcomes_partition_the_modules(outs: Seq<Option<Seq<char>>>)
    requires
        outs.len() <= module_order().len(),
    ensures
        applied_of(outs).len() + failed_of(outs).len() == outs.len(),
        errors_of(outs).len() == failed_of(outs).len(),
        positions_of(outs, applied_at(outs), false),
        positions_of(outs, failed_at(outs), true),
        names_at(applied_of(outs), applied_at(outs)),
        names_at(failed_of(outs), failed_at(outs)),
        applied_of(outs).no_duplicates(),
        failed_of(outs).no_duplicates(),
        forall|p: int, q: int|
            0 <= p < applied_of(outs).len() && 0 <= q < failed_of(outs).len() ==> #[trigger] applied_of(
                outs,
            )[p] != #[trigger] failed_of(outs)[q],
        forall|i: int|
            0 <= i < outs.len() ==> (outs[i] is None ==> applied_of(outs).contains(
                module_name(module_order()[i]),
            )) && (outs[i] is Some ==> failed_of(outs).contains(module_name(module_order()[i]))),
        outs.len() == module_order().len() ==> forall|m: SyncModule|
            applied_of(outs).contains(#[trigger] module_name(m)) || failed_of(outs).contains(
                module_name(m),
            ),
        forall|j: int|
            0 <= j < failed_of(outs).len() ==> (#[trigger] errors_of(outs)[j]).take(
                failed_of(outs)[j].len() + 2int,
            ) == failed_of(outs)[j] + ": "@,
        (failed_of(outs).len() == 0) <==> (forall|i: int| 0 <= i < outs.len() ==> outs[i] is None),
    decreases outs.len(),
{
    if outs.len() > 0 {
        let front = outs.drop_last();
        law_outcomes_partition_the_modules(front);
        let k = outs.len() - 1;
        let name = module_name(module_order()[k]);
        assert forall|i: int|
            0 <= i < outs.len() implies (outs[i] is None ==> applied_of(outs).contains(
                module_name(module_order()[i]),
            )) && (outs[i] is Some ==> failed_of(outs).contains(module_name(module_order()[i]))) by {
            if i < k {
                assert(outs[i] == front[i]);
                if outs[i] is None {
                    let q = choose|q: int| 0 <= q < applied_of(front).len() && applied_of(front)[q] == module_name(module_order()[i]);
                    if outs.last() is None {
                        assert(applied_of(outs)[q] == applied_of(front)[q]);
                    }
                } else {
                    let q = choose|q: int| 0 <= q < failed_of(front).len() && failed_of(front)[q] == module_name(module_order()[i]);
                    if outs.last() is Some {
                        assert(failed_of(outs)[q] == failed_of(front)[q]);
                    }
                }
            } else {
                if outs[i] is None {
                    assert(applied_of(outs)[applied_of(front).len() as int] == name);
                } else {
                    assert(failed_of(outs)[failed_of(front).len() as int] == name);
                }
            }
        }
        assert forall|j: int|
            0 <= j < failed_of(outs).len() implies (#[trigger] errors_of(outs)[j]).take(
                failed_of(outs)[j].len() + 2int,
            ) == failed_of(outs)[j] + ": "@ by {
            if j < failed_of(front).len() {
                assert(errors_of(outs)[j] == errors_of(front)[j]);
                assert(failed_of(outs)[j] == failed_of(front)[j]);
            } else {
                let e = outs.last()->0;
                assert(errors_of(outs)[j] == name + ": "@ + e);
                assert(failed_of(outs)[j] == name);
                reveal_strlit(": ");
                assert((name + ": "@ + e).take(name.len() + 2int) =~= name + ": "@);
            }
        }
        if failed_of(outs).len() == 0 {
            assert forall|i: int| 0 <= i < outs.len() implies outs[i] is None by {
                if i < k {
                    assert(outs[i] == front[i]);
                }
            }
        }
        if forall|i: int| 0 <= i < outs.len() ==> outs[i] is None {
            assert forall|i: int| 0 <= i < front.len() implies front[i] is None by {
                assert(front[i] == outs[i]);
            }
            assert(outs[k] is None);
        }
    }
    lemma_outcome_names(outs);
}

/// The names of the applied and the failed modules are all different, and
/// once every module has an outcome every module is named.
proof fn lemma_outcome_names(outs: Seq<Option<Seq<char>>>)
    requires
        outs.len() <= module_order().len(),
        forall|i: int|
            0 <= i < outs.len() ==> (outs[i] is None ==> applied_of(outs).contains(
                module_name(module_order()[i]),
            )) && (outs[i] is Some ==> failed_of(outs).contains(module_name(module_order()[i]))),
    ensures
        positions_of(outs, applied_at(outs), false),
        positions_of(outs, failed_at(outs), true),
        names_at(applied_of(outs), applied_at(outs)),
        names_at(failed_of(outs), failed_at(outs)),
        applied_of(outs).no_duplicates(),
        failed_of(outs).no_duplicates(),
        forall|p: int, q: int|
            0 <= p < applied_of(outs).len() && 0 <= q < failed_of(outs).len() ==> #[trigger] applied_of(
                outs,
            )[p] != #[trigger] failed_of(outs)[q],
        outs.len() == module_order().len() ==> forall|m: SyncModule|
            applied_of(outs).contains(#[trigger] module_name(m)) || failed_of(outs).contains(
                module_name(m),
            ),
{
    lemma_outcome_positions(outs);
    let (ap, fp) = (applied_at(outs), failed_at(outs));
    let (an, fnames) = (applied_of(outs), failed_of(outs));
    assert forall|p: int, q: int| 0 <= p < an.len() && 0 <= q < an.len() && p != q implies an[p] != an[q] by {
        if p < q {
            assert(ap[p] < ap[q]);
        } else {
            assert(ap[q] < ap[p]);
        }
        lemma_positions_have_different_names(ap[p], ap[q]);
    }
    assert forall|p: int, q: int| 0 <= p < fnames.len() && 0 <= q < fnames.len() && p != q implies fnames[p] != fnames[q] by {
        if p < q {
            assert(fp[p] < fp[q]);
        } else {
            assert(fp[q] < fp[p]);
        }
        lemma_positions_have_different_names(fp[p], fp[q]);
    }
    assert forall|p: int, q: int|
        0 <= p < an.len() && 0 <= q < fnames.len() implies #[trigger] an[p] != #[trigger] fnames[q] by {
        assert(outs[ap[p]] is None && outs[fp[q]] is Some);
        lemma_positions_have_different_names(ap[p], fp[q]);
    }
    if outs.len() == module_order().len() {
        assert forall|m: SyncModule| an.contains(#[trigger] module_name(m)) || fnames.contains(module_name(m)) by {
            let i = match m {
                SyncModule::UserRules => 0int,
                SyncModule::BlockedServices => 1,
                SyncModule::DnsRewrites => 2,
                SyncModule::DnsConfig => 3,
                SyncModule::AccessList => 4,
                SyncModule::QueryLogConfig => 5,
                SyncModule::SafeSearch => 6,
                SyncModule::ParentalControl => 7,
                SyncModule::GlobalProtection => 8,
                SyncModule::DhcpConfig => 9,
                SyncModule::TlsConfig => 10,
                SyncModule::ProfileInfo => 11,
            };
            assert(module_order()[i] == m);
            if outs[i] is None {
                assert(an.contains(module_name(module_order()[i])));
            } else {
                assert(fnames.contains(module_name(module_order()[i])));
            }
        }
    }
}

/// The line for a switch that changed from `before` to `after`.
pub open spec fn switch_line(label: Seq<char>, before: bool, after: bool) -> Seq<char> {
    label + bool_text(before) + " -> "@ + bool_text(after)
}

/// `seq![line]` when `changed`, nothing otherwise.
pub open spec fn line_if(changed: bool, line: Seq<char>) -> Seq<Seq<char>> {
    if changed {
        seq![line]
    } else {
        Seq::empty()
    }
}

/// The line for the switch `label` when it changed from `before` to
/// `after`, nothing when it kept its state.
pub open spec fn switch_if(label: Seq<char>, before: bool, after: bool) -> Seq<Seq<char>> {
    line_if(before != after, switch_line(label, before, after))
}

/// The changes from `other` to `s`, one line each, in a fixed order.
pub open spec fn diff_lines(s: SyncState, other: SyncState) -> Seq<Seq<char>> {
    switch_if("Filtering: Enabled: "@, other.filtering.enabled, s.filtering.enabled) + line_if(
        s.filtering.user_rules.deep_view() != other.filtering.user_rules.deep_view(),
        "User Rules: Changed"@,
    ) + line_if(
        s.dns.upstream_dns.deep_view() != other.dns.upstream_dns.deep_view(),
        "DNS: Upstream DNS changed"@,
    ) + line_if(
        s.blocked_services.deep_view() != other.blocked_services.deep_view(),
        "Blocked Services: Changed"@,
    ) + switch_if("Safe Browsing: "@, other.safe_browsing, s.safe_browsing) + switch_if(
        "Parental Control: "@,
        other.parental_control.enabled,
        s.parental_control.enabled,
    ) + switch_if("DHCP: "@, other.dhcp.enabled, s.dhcp.enabled) + switch_if(
        "TLS: "@,
        other.tls.enabled,
        s.tls.enabled,
    )
}

/// The report of the changes from `other` to `s`.
pub open spec fn diff_text(s: SyncState, other: SyncState) -> Seq<char> {
    if diff_lines(s, other).len() == 0 {
        "No significant changes detected."@
    } else {
        seq_join(diff_lines(s, other), "\n"@)
    }
}

/// The line for a switch that changed from `before` to `after`.
fn switch_string(label: &str, before: bool, after: bool) -> (res: String)
    ensures
        res@ == switch_line(label@, before, after),
{
    let mut s = String::from_str(label);
    s.append(bool_str(before));
    s.append(" -> ");
    s.append(bool_str(after));
    s
}

/// Appends `line` to `changes` when `changed`.
fn add_line(changes: &mut Vec<String>, changed: bool, line: String)
    ensures
        final(changes).deep_view() == old(changes).deep_view() + line_if(changed, line@),
{
    let ghost before = changes.deep_view();
    if changed {
        changes.push(line);
    }
    assert(changes.deep_view() =~= before + line_if(changed, line@));
}

impl SyncState {
    /// The state of an instance from what was read of it: the backup
    /// metadata carry the instance's version from its `status`, the
    /// `timestamp` and the `description`, and Safe Browsing is recorded as
    /// the status's protection switch.
    #[allow(clippy::too_many_arguments)]
    pub fn from_reads(
        filtering: FilteringConfig,
        clients: Vec<AdGuardClientDevice>,
        dns: DnsConfig,
        blocked_services: Vec<String>,
        rewrites: Vec<DnsRewrite>,
        access_list: AccessList,
        query_log_config: QueryLogConfig,
        safe_search: SafeSearchConfig,
        status: Status,
        parental_control: ParentalControlConfig,
        dhcp: DhcpStatus,
        tls: TlsConfig,
        profile_info: ProfileInfo,
        timestamp: String,
        description: Option<String>,
    ) -> (res: SyncState)
        ensures
            res.metadata matches Some(m) && m.version == status.version && m.timestamp == timestamp
                && m.description == description,
            res.safe_browsing == status.protection_enabled,
            res.filtering == filtering,
            res.clients == clients,
            res.dns == dns,
            res.blocked_services == blocked_services,
            res.rewrites == rewrites,
            res.access_list == access_list,
            res.query_log_config == query_log_config,
            res.safe_search == safe_search,
            res.parental_control == parental_control,
            res.dhcp == dhcp,
            res.tls == tls,
            res.profile_info == profile_info,
    {
        SyncState {
            metadata: Some(BackupMetadata { version: status.version, timestamp, description }),
            filtering,
            clients,
            dns,
            blocked_services,
            rewrites,
            access_list,
            query_log_config,
            safe_search,
            safe_browsing: status.protection_enabled,
            parental_control,
            dhcp,
            tls,
            profile_info,
        }
    }

    /// Describes the changes from `other` to this state, one line per
    /// change, or says that there is none.
    #[verifier::spinoff_prover]
    pub fn diff(&self, other: &SyncState) -> (res: String)
        ensures
            res@ == diff_text(*self, *other),
    {
        let mut changes: Vec<String> = Vec::new();
        let ghost s = *self;
        let ghost o = *other;
        add_line(
            &mut changes,
            self.filtering.enabled != other.filtering.enabled,
            switch_string("Filtering: Enabled: ", other.filtering.enabled, self.filtering.enabled),
        );
        assert(changes.deep_view() =~= line_if(
            s.filtering.enabled != o.filtering.enabled,
            switch_line("Filtering: Enabled: "@, o.filtering.enabled, s.filtering.enabled),
        ));
        add_line(
            &mut changes,
            !strings_equal(&self.filtering.user_rules, &other.filtering.user_rules),
            String::from_str("User Rules: Changed"),
        );
        add_line(
            &mut changes,
            !strings_equal(&self.dns.upstream_dns, &other.dns.upstream_dns),
            String::from_str("DNS: Upstream DNS changed"),
        );
        add_line(
            &mut changes,
            !strings_equal(&self.blocked_services, &other.blocked_services),
            String::from_str("Blocked Services: Changed"),
        );
        add_line(
            &mut changes,
            self.safe_browsing != other.safe_browsing,
            switch_string("Safe Browsing: ", other.safe_browsing, self.safe_browsing),
        );
        add_line(
            &mut changes,
            self.parental_control.enabled != other.parental_control.enabled,
            switch_string(
                "Parental Control: ",
                other.parental_control.enabled,
                self.parental_control.enabled,
            ),
        );
        add_line(
            &mut changes,
            self.dhcp.enabled != other.dhcp.enabled,
            switch_string("DHCP: ", other.dhcp.enabled, self.dhcp.enabled),
        );
        add_line(
            &mut changes,
            self.tls.enabled != other.tls.enabled,
            switch_string("TLS: ", other.tls.enabled, self.tls.enabled),
        );
        assert(changes.deep_view() =~= diff_lines(s, o));
        if changes.len() == 0 {
            String::from_str("No significant changes detected.")
        } else {
            join_strings(&changes, "\n")
        }
    }
}

/// A state compared with itself shows no change.
#[verifier::spinoff_prover]
pub proof fn law_diff_of_identical_states(s: SyncState)
    ensures
        diff_text(s, s) == "No significant changes detected."@,
{
    assert(diff_lines(s, s) =~= Seq::<Seq<char>>::empty());
}

/// The changes from `b` to `a` are reported exactly when the compared
/// fields differ: no line is reported for states that agree on them.
#[verifier::spinoff_prover]
#[verifier::rlimit(40)]
pub proof fn law_diff_reports_nothing_iff_compared_fields_agree(a: SyncState, b: SyncState)
    ensures
        diff_lines(a, b).len() == 0 <==> {
            &&& a.filtering.enabled == b.filtering.enabled
            &&& a.filtering.user_rules.deep_view() == b.filtering.user_rules.deep_view()
            &&& a.dns.upstream_dns.deep_view() == b.dns.upstream_dns.deep_view()
            &&& a.blocked_services.deep_view() == b.blocked_services.deep_view()
            &&& a.safe_browsing == b.safe_browsing
            &&& a.parental_control.enabled == b.parental_control.enabled
            &&& a.dhcp.enabled == b.dhcp.enabled
            &&& a.tls.enabled == b.tls.enabled
        },
{
}

/// Whether `l` is one of the lines that report a changed list.
pub open spec fn is_change_line(l: Seq<char>) -> bool {
    ||| l == "User Rules: Changed"@
    ||| l == "DNS: Upstream DNS changed"@
    ||| l == "Blocked Services: Changed"@
}

/// Whether `l2` is `l1` read the other way: the same line where `l1`
/// reports a changed list, or the same switch with its two (different)
/// states exchanged where `l1` reports a switch.
pub open spec fn mirrored(l1: Seq<char>, l2: Seq<char>) -> bool {
    ||| l1 == l2 && is_change_line(l1)
    ||| exists|label: Seq<char>, u: bool, v: bool|
        u != v && l1 == switch_line(label, u, v) && l2 == switch_line(label, v, u)
}

/// Whether `ys` holds the lines of `xs`, each read the other way.
#[verifier::opaque]
pub open spec fn pairwise_mirrored(xs: Seq<Seq<char>>, ys: Seq<Seq<char>>) -> bool {
    xs.len() == ys.len() && forall|i: int| 0 <= i < xs.len() ==> mirrored(#[trigger] xs[i], ys[i])
}

proof fn lemma_mirror_change(c1: bool, c2: bool, l: Seq<char>)
    requires
        c1 == c2,
        is_change_line(l),
    ensures
        pairwise_mirrored(line_if(c1, l), line_if(c2, l)),
{
    reveal(pairwise_mirrored);
}

proof fn lemma_mirror_switch(label: Seq<char>, u: bool, v: bool)
    ensures
        pairwise_mirrored(switch_if(label, u, v), switch_if(label, v, u)),
{
    reveal(pairwise_mirrored);
    if u != v {
        assert(switch_if(label, u, v)[0] == switch_line(label, u, v));
        assert(mirrored(switch_line(label, u, v), switch_line(label, v, u)));
    }
}

proof fn lemma_mirror_concat(x1: Seq<Seq<char>>, y1: Seq<Seq<char>>, x2: Seq<Seq<char>>, y2: Seq<Seq<char>>)
    requires
        pairwise_mirrored(x1, y1),
        pairwise_mirrored(x2, y2),
    ensures
        pairwise_mirrored(x1 + x2, y1 + y2),
{
    reveal(pairwise_mirrored);
    assert forall|i: int| 0 <= i < (x1 + x2).len() implies mirrored(#[trigger] (x1 + x2)[i], (y1 + y2)[i]) by {
        if i < x1.len() {
            assert((x1 + x2)[i] == x1[i] && (y1 + y2)[i] == y1[i]);
        } else {
            assert((x1 + x2)[i] == x2[i - x1.len()] && (y1 + y2)[i] == y2[i - x1.len()]);
        }
    }
}

proof fn lemma_mirror_len(xs: Seq<Seq<char>>, ys: Seq<Seq<char>>)
    requires
        pairwise_mirrored(xs, ys),
    ensures
        xs.len() == ys.len(),
{
    reveal(pairwise_mirrored);
}

/// Comparing the other way round reports the same changes in the same
/// order: each line of a changed list stays as it is and each switch has
/// its two states exchanged. So one direction reports nothing exactly when
/// the other does, and then both give the same no-change message.
pub proof fn law_diff_mirrors(a: SyncState, b: SyncState)
    ensures
        pairwise_mirrored(diff_lines(a, b), diff_lines(b, a)),
        diff_lines(a, b).len() == 0 <==> diff_lines(b, a).len() == 0,
        diff_lines(a, b).len() == 0 ==> diff_text(a, b) == diff_text(b, a),
{
    lemma_diff_lines_mirror(a, b);
    lemma_mirror_len(diff_lines(a, b), diff_lines(b, a));
}

#[verifier::spinoff_prover]
#[verifier::rlimit(40)]
proof fn lemma_diff_lines_mirror(a: SyncState, b: SyncState)
    ensures
        pairwise_mirrored(diff_lines(a, b), diff_lines(b, a)),
{
    let fa = a.filtering.enabled;
    let fb = b.filtering.enabled;
    let ra = a.filtering.user_rules.deep_view();
    let rb = b.filtering.user_rules.deep_view();
    let ua = a.dns.upstream_dns.deep_view();
    let ub = b.dns.upstream_dns.deep_view();
    let sa = a.blocked_services.deep_view();
    let sb = b.blocked_services.deep_view();
    let pa = a.parental_control.enabled;
    let pb = b.parental_control.enabled;
    lemma_mirror_switch("Filtering: Enabled: "@, fb, fa);
    lemma_mirror_change(ra != rb, rb != ra, "User Rules: Changed"@);
    lemma_mirror_change(ua != ub, ub != ua, "DNS: Upstream DNS changed"@);
    lemma_mirror_change(sa != sb, sb != sa, "Blocked Services: Changed"@);
    lemma_mirror_switch("Safe Browsing: "@, b.safe_browsing, a.safe_browsing);
    lemma_mirror_switch("Parental Control: "@, pb, pa);
    lemma_mirror_switch("DHCP: "@, b.dhcp.enabled, a.dhcp.enabled);
    lemma_mirror_switch("TLS: "@, b.tls.enabled, a.tls.enabled);
    let x1 = switch_if("Filtering: Enabled: "@, fb, fa);
    let y1 = switch_if("Filtering: Enabled: "@, fa, fb);
    let x2 = x1 + line_if(ra != rb, "User Rules: Changed"@);
    let y2 = y1 + line_if(rb != ra, "User Rules: Changed"@);
    lemma_mirror_concat(x1, y1, line_if(ra != rb, "User Rules: Changed"@), line_if(rb != ra, "User Rules: Changed"@));
    let x3 = x2 + line_if(ua != ub, "DNS: Upstream DNS changed"@);
    let y3 = y2 + line_if(ub != ua, "DNS: Upstream DNS changed"@);
    lemma_mirror_concat(x2, y2, line_if(ua != ub, "DNS: Upstream DNS changed"@), line_if(ub != ua, "DNS: Upstream DNS changed"@));
    let x4 = x3 + line_if(sa != sb, "Blocked Services: Changed"@);
    let y4 = y3 + line_if(sb != sa, "Blocked Services: Changed"@);
    lemma_mirror_concat(x3, y3, line_if(sa != sb, "Blocked Services: Changed"@), line_if(sb != sa, "Blocked Services: Changed"@));
    let x5 = x4 + switch_if("Safe Browsing: "@, b.safe_browsing, a.safe_browsing);
    let y5 = y4 + switch_if("Safe Browsing: "@, a.safe_browsing, b.safe_browsing);
    lemma_mirror_concat(x4, y4, switch_if("Safe Browsing: "@, b.safe_browsing, a.safe_browsing), switch_if("Safe Browsing: "@, a.safe_browsing, b.safe_browsing));
    let x6 = x5 + switch_if("Parental Control: "@, pb, pa);
    let y6 = y5 + switch_if("Parental Control: "@, pa, pb);
    lemma_mirror_concat(x5, y5, switch_if("Parental Control: "@, pb, pa), switch_if("Parental Control: "@, pa, pb));
    let x7 = x6 + switch_if("DHCP: "@, b.dhcp.enabled, a.dhcp.enabled);
    let y7 = y6 + switch_if("DHCP: "@, a.dhcp.enabled, b.dhcp.enabled);
    lemma_mirror_concat(x6, y6, switch_if("DHCP: "@, b.dhcp.enabled, a.dhcp.enabled), switch_if("DHCP: "@, a.dhcp.enabled, b.dhcp.enabled));
    lemma_mirror_concat(x7, y7, switch_if("TLS: "@, b.tls.enabled, a.tls.enabled), switch_if("TLS: "@, a.tls.enabled, b.tls.enabled));
}

} // verus!
