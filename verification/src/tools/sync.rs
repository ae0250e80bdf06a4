//! The `sync_instances` tool: push the master instance's configuration to
//! replicas.
use vstd::prelude::*;
use crate::config::{AppConfig, InstanceConfig, ReplicaConfig};
use crate::error::{Error, error_message};
use crate::sync::{SyncResult, replica_instance, url_parse_error};
use crate::text::{join_strings, seq_join};
use super::{ToolRegistry, registers, set_text, text_or};

verus! {

/// The tool's name.
pub const NAME: &'static str = "sync_instances";

/// The tool's description.
pub const DESCRIPTION: &'static str = "Synchronize configuration from the master instance to one or more replica instances.";

/// The tool's input schema, as JSON text.
pub const SCHEMA: &'static str = "{\"type\":\"object\",\"properties\":{\"replicas\":{\"type\":\"array\",\"items\":{\"type\":\"object\",\"properties\":{\"url\":{\"type\":\"string\",\"description\":\"URL of the replica AdGuard Home instance.\"},\"api_key\":{\"type\":\"string\",\"description\":\"API Key for the replica.\"}},\"required\":[\"url\",\"api_key\"]},\"description\":\"Optional list of replicas to sync to. Defaults to configured replicas.\"},\"mode\":{\"type\":\"string\",\"enum\":[\"additive-merge\",\"full-overwrite\"],\"description\":\"Sync mode. Defaults to configured default mode.\"}}}";

/// The reply when there is no replica to synchronise, marked as an error.
pub const NO_REPLICAS: &'static str = "No replicas configured or provided for synchronization.";

/// Registers the tool.
pub fn register(registry: &mut ToolRegistry)
    ensures
        registers(*old(registry), *final(registry), NAME@, DESCRIPTION@, SCHEMA@),
{
    registry.register(NAME, DESCRIPTION, String::from_str(SCHEMA));
}

/// One item of the `replicas` argument: its `url` and `api_key` when they
/// are texts.
pub struct ReplicaArg {
    pub url: Option<String>,
    pub api_key: Option<String>,
}

/// The arguments of a call. `replicas` is present when the argument is an
/// array.
pub struct SyncArgs {
    pub mode: Option<String>,
    pub replicas: Option<Vec<ReplicaArg>>,
}

/// The name of the mode to synchronise in: the `mode` argument, else the
/// configured default.
pub fn mode_name(args: &SyncArgs, config: &AppConfig) -> (res: String)
    ensures
        res@ == text_or(args.mode, config.default_sync_mode@),
{
    set_text(&args.mode, config.default_sync_mode.clone())
}

/// The replicas that the items describe: those with both a URL and a key,
/// in order.
pub open spec fn described_replicas(items: Seq<ReplicaArg>) -> Seq<(Seq<char>, Seq<char>)>
    decreases items.len(),
{
    if items.len() == 0 {
        Seq::empty()
    } else {
        let front = described_replicas(items.drop_last());
        match (items.last().url, items.last().api_key) {
            (Some(u), Some(k)) => front.push((u@, k@)),
            _ => front,
        }
    }
}

/// The URL and key of each replica.
pub open spec fn replica_pairs(rs: Seq<ReplicaConfig>) -> Seq<(Seq<char>, Seq<char>)> {
    Seq::new(rs.len(), |i: int| (rs[i].url@, rs[i].api_key@))
}

/// The replicas to synchronise: those the `replicas` argument describes
/// when it is given, the configured ones otherwise.
pub fn targets(args: &SyncArgs, config: &AppConfig) -> (res: Vec<ReplicaConfig>)
    ensures
        replica_pairs(res@) == match args.replicas {
            Some(items) => described_replicas(items@),
            None => replica_pairs(config.replicas@),
        },
{
    match &args.replicas {
        Some(items) => {
            let mut res: Vec<ReplicaConfig> = Vec::new();
            let n = items.len();
            let mut i: usize = 0;
            assert(items@.take(0) =~= Seq::<ReplicaArg>::empty());
            assert(replica_pairs(res@) =~= Seq::<(Seq<char>, Seq<char>)>::empty());
            while i < n
                invariant
                    n == items@.len(),
                    0 <= i <= n,
                    replica_pairs(res@) == described_replicas(items@.take(i as int)),
                decreases n - i,
            {
                assert(items@.take(i + 1).drop_last() =~= items@.take(i as int));
                let ghost before = res@;
                match (&items[i].url, &items[i].api_key) {
                    (Some(u), Some(k)) => {
                        res.push(ReplicaConfig { url: u.clone(), api_key: k.clone() });
                        assert(replica_pairs(res@) =~= replica_pairs(before).push((u@, k@)));
                    },
                    _ => {},
                }
                i = i + 1;
            }
            assert(items@.take(n as int) =~= items@);
            res
        },
        None => {
            let mut res: Vec<ReplicaConfig> = Vec::new();
            let n = config.replicas.len();
            let mut i: usize = 0;
            while i < n
                invariant
                    n == config.replicas@.len(),
                    0 <= i <= n,
                    res@ == config.replicas@.take(i as int),
                decreases n - i,
            {
                res.push(config.replicas[i].duplicate());
                assert(res@ =~= config.replicas@.take(i + 1));
                i = i + 1;
            }
            assert(res@ =~= config.replicas@);
            res
        },
    }
}

/// The line reporting a replica whose synchronisation ended with `result`.
pub open spec fn synced_line(url: Seq<char>, result: SyncResult) -> Seq<char> {
    "Replica "@ + url + ": "@ + if result.success {
        "Successfully synced."@
    } else {
        "Synced with errors. Failed modules: "@ + seq_join(result.failed_modules.deep_view(), ", "@)
            + ". Errors: "@ + seq_join(result.errors.deep_view(), "; "@)
    }
}

/// The line reporting the replica at `url` whose synchronisation ended
/// with `result`.
pub fn synced(url: &str, result: &SyncResult) -> (res: String)
    ensures
        res@ == synced_line(url@, *result),
{
    let mut line = String::from_str("Replica ");
    line.append(url);
    line.append(": ");
    if result.success {
        line.append("Successfully synced.");
    } else {
        line.append("Synced with errors. Failed modules: ");
        line.append(join_strings(&result.failed_modules, ", ").as_str());
        line.append(". Errors: ");
        line.append(join_strings(&result.errors, "; ").as_str());
    }
    line
}

/// The line reporting the replica at `url` that could not be reached or
/// written, with the error's message.
pub fn unreachable(url: &str, error: &str) -> (res: String)
    ensures
        res@ == "Failed to connect or push to "@ + url@ + ": "@ + error@,
{
    let mut line = String::from_str("Failed to connect or push to ");
    line.append(url);
    line.append(": ");
    line.append(error);
    line
}

/// The reply of a synchronisation: the lines of the replicas, separated by
/// a line break and four spaces.
pub fn report(lines: &Vec<String>) -> (res: String)
    ensures
        res@ == seq_join(lines.deep_view(), "\n    "@),
{
    join_strings(lines, "\n    ")
}

/// The line reporting the replica at `url` given the outcome of pushing to
/// it: its result, or the message of the error that stopped it.
pub open spec fn outcome_line(url: Seq<char>, outcome: Result<SyncResult, Seq<char>>) -> Seq<char> {
    match outcome {
        Ok(r) => synced_line(url, r),
        Err(m) => "Failed to connect or push to "@ + url + ": "@ + m,
    }
}

/// A synchronisation under way: the mode, the replicas, how many are done
/// and their lines.
pub struct SyncRun {
    mode: String,
    targets: Vec<ReplicaConfig>,
    next: usize,
    lines: Vec<String>,
}

/// How a synchronisation begins.
pub enum SyncStart {
    /// There is no replica: the reply is the text, marked as an error.
    NoReplicas(String),
    /// Read the master's state, then go on with the run.
    Run(SyncRun),
}

/// What a synchronisation does next.
pub enum SyncNext {
    /// Push the master's state to this replica in this mode, then report
    /// the outcome with [`SyncRun::pushed`].
    Push { instance: InstanceConfig, mode: String },
    /// The replica's URL does not parse: the synchronisation fails with
    /// this error.
    Stop(Error),
    /// Every replica is done: the reply is the text.
    Done(String),
}

impl SyncRun {
    /// The mode of the run.
    pub closed spec fn mode(&self) -> Seq<char> {
        self.mode@
    }

    /// The replicas, in order.
    pub closed spec fn replicas(&self) -> Seq<ReplicaConfig> {
        self.targets@
    }

    /// How many replicas are done.
    pub closed spec fn done(&self) -> nat {
        self.next as nat
    }

    /// The lines of the replicas done, in order.
    pub closed spec fn lines(&self) -> Seq<Seq<char>> {
        self.lines.deep_view()
    }

    /// Whether the run is consistent.
    pub closed spec fn wf(&self) -> bool {
        self.next <= self.targets@.len() && self.lines@.len() == self.next
    }

    /// What happens next: the next replica is pushed to, unless its URL
    /// does not parse, which stops the whole synchronisation; once every
    /// replica is done, the reply joins their lines.
    pub fn next(&self) -> (res: SyncNext)
        requires
            self.wf(),
        ensures
            self.done() < self.replicas().len() ==> match url_parse_error(
                self.replicas()[self.done() as int].url@,
            ) {
                Some(m) => res matches SyncNext::Stop(Error::Config(e)) && e@ == m,
                None => res matches SyncNext::Push { instance, mode } && instance.url
                    == self.replicas()[self.done() as int].url && instance.api_key == Some(
                    self.replicas()[self.done() as int].api_key,
                ) && (instance.name matches Some(n) && n@ == "replica"@) && mode@ == self.mode(),
            },
            self.done() == self.replicas().len() ==> (res matches SyncNext::Done(t) && t@
                == seq_join(self.lines(), "\n    "@)),
    {
        if self.next < self.targets.len() {
            match replica_instance(&self.targets[self.next]) {
                Ok(instance) => SyncNext::Push { instance, mode: self.mode.clone() },
                Err(e) => SyncNext::Stop(e),
            }
        } else {
            SyncNext::Done(report(&self.lines))
        }
    }

    /// Records the outcome of pushing to the current replica and moves on.
    pub fn pushed(&mut self, outcome: Result<SyncResult, String>)
        requires
            old(self).wf(),
            old(self).done() < old(self).replicas().len(),
        ensures
            final(self).wf(),
            final(self).mode() == old(self).mode(),
            final(self).replicas() == old(self).replicas(),
            final(self).done() == old(self).done() + 1,
            final(self).lines() == old(self).lines().push(
                outcome_line(
                    old(self).replicas()[old(self).done() as int].url@,
                    match outcome {
                        Ok(r) => Ok(r),
                        Err(m) => Err(m@),
                    },
                ),
            ),
    {
        let ghost before = self.lines.deep_view();
        let ghost url = self.targets@[self.next as int].url@;
        let line = match &outcome {
            Ok(r) => synced(self.targets[self.next].url.as_str(), r),
            Err(m) => unreachable(self.targets[self.next].url.as_str(), m.as_str()),
        };
        let ghost lv = line@;
        self.lines.push(line);
        assert(self.lines.deep_view() =~= before.push(lv));
        let n = self.targets.len();
        assert(self.next < n);
        self.next = self.next + 1;
    }
}

/// How `sync_instances` begins: with the replicas [`targets`] gives and the
/// mode [`mode_name`] gives; with no replica it replies [`NO_REPLICAS`] as
/// an error.
pub fn start(args: &SyncArgs, config: &AppConfig) -> (res: SyncStart)
    ensures
        ({
            let wanted = match args.replicas {
                Some(items) => described_replicas(items@),
                None => replica_pairs(config.replicas@),
            };
            match res {
                SyncStart::NoReplicas(t) => wanted.len() == 0 && t@ == NO_REPLICAS@,
                SyncStart::Run(run) => wanted.len() > 0 && run.wf() && run.done() == 0
                    && replica_pairs(run.replicas()) == wanted && run.mode() == text_or(
                    args.mode,
                    config.default_sync_mode@,
                ),
            }
        }),
{
    let targets = targets(args, config);
    if targets.len() == 0 {
        return SyncStart::NoReplicas(String::from_str(NO_REPLICAS));
    }
    let run = SyncRun { mode: mode_name(args, config), targets, next: 0, lines: Vec::new() };
    SyncStart::Run(run)
}

/// The error of a synchronisation whose master state could not be read:
/// the read's message, as a plain error.
pub fn master_failed(e: &Error) -> (res: Error)
    ensures
        res matches Error::Generic(m) && m@ == error_message(*e),
{
    Error::Generic(e.message())
}

} // verus!
