//! The MCP tools and their registry.
//!
//! The registry knows each tool's name, description and input schema, and
//! which tools are enabled. In lazy mode tools start disabled and are
//! enabled on demand; otherwise every registered tool is enabled. The
//! handlers that run a tool against AdGuard Home live outside the verified
//! library, keyed by the tool's name.
pub mod clients;
pub mod dns;
pub mod filtering;
pub mod protection;
pub mod sync;
pub mod system;

use vstd::prelude::*;
use crate::adguard::client::ApiCall;
use crate::config::AppConfig;
use crate::error::Error;
use crate::mcp::{ResponseError, INVALID_PARAMS, METHOD_NOT_FOUND};
use crate::text::{lex_lt, lemma_lex_irreflexive, lemma_lex_total, lemma_lex_transitive, text_less};


verus! {

/// A tool as the MCP client sees it. `input_schema` is JSON text.
#[derive(Debug)]
pub struct Tool {
    pub name: String,
    pub description: String,
    pub input_schema: String,
}

impl Tool {
    /// A copy of the tool.
    pub fn duplicate(&self) -> (res: Tool)
        ensures
            res == *self,
    {
        Tool {
            name: self.name.clone(),
            description: self.description.clone(),
            input_schema: self.input_schema.clone(),
        }
    }
}

/// A registered tool and whether it is enabled.
#[derive(Debug)]
pub struct ToolEntry {
    pub tool: Tool,
    pub enabled: bool,
}

impl ToolEntry {
    /// A copy of the entry.
    pub fn duplicate(&self) -> (res: ToolEntry)
        ensures
            res == *self,
    {
        ToolEntry { tool: self.tool.duplicate(), enabled: self.enabled }
    }
}

/// The name of an entry.
pub open spec fn entry_name(e: ToolEntry) -> Seq<char> {
    e.tool.name@
}

/// Whether the entries are in strictly increasing order of name.
pub open spec fn sorted_by_name(es: Seq<ToolEntry>) -> bool {
    forall|i: int, j: int|
        0 <= i < j < es.len() ==> lex_lt(entry_name(#[trigger] es[i]), entry_name(#[trigger] es[j]))
}

/// Whether some entry has the name `k`.
pub open spec fn has_entry(es: Seq<ToolEntry>, k: Seq<char>) -> bool {
    exists|i: int| 0 <= i < es.len() && entry_name(#[trigger] es[i]) == k
}

/// The entries keyed by name.
pub open spec fn entries_map(es: Seq<ToolEntry>) -> Map<Seq<char>, ToolEntry> {
    Map::new(
        |k: Seq<char>| has_entry(es, k),
        |k: Seq<char>| es[choose|i: int| 0 <= i < es.len() && entry_name(#[trigger] es[i]) == k],
    )
}

/// In sorted entries, the entry at `i` is the one its name maps to.
proof fn lemma_entries_map_at(es: Seq<ToolEntry>, i: int)
    requires
        sorted_by_name(es),
        0 <= i < es.len(),
    ensures
        entries_map(es).contains_key(entry_name(es[i])),
        entries_map(es)[entry_name(es[i])] == es[i],
{
    let k = entry_name(es[i]);
    assert(has_entry(es, k));
    let j = choose|j: int| 0 <= j < es.len() && entry_name(#[trigger] es[j]) == k;
    if j < i {
        lemma_lex_irreflexive(k);
        assert(lex_lt(entry_name(es[j]), entry_name(es[i])));
    } else if i < j {
        lemma_lex_irreflexive(k);
        assert(lex_lt(entry_name(es[i]), entry_name(es[j])));
    }
}

/// In sorted entries, one name is at one index only.
proof fn lemma_unique_name(es: Seq<ToolEntry>, i: int, j: int)
    requires
        sorted_by_name(es),
        0 <= i < es.len(),
        0 <= j < es.len(),
        entry_name(es[i]) == entry_name(es[j]),
    ensures
        i == j,
{
    lemma_lex_irreflexive(entry_name(es[i]));
    if i < j {
        assert(lex_lt(entry_name(es[i]), entry_name(es[j])));
    } else if j < i {
        assert(lex_lt(entry_name(es[j]), entry_name(es[i])));
    }
}

/// The registry of tools.
pub struct ToolRegistry {
    entries: Vec<ToolEntry>,
    lazy_mode: bool,
}

impl View for ToolRegistry {
    type V = Map<Seq<char>, ToolEntry>;

    closed spec fn view(&self) -> Map<Seq<char>, ToolEntry> {
        entries_map(self.entries@)
    }
}

/// `m` with the tool `name`, when registered, enabled or disabled.
pub open spec fn with_enabled(
    m: Map<Seq<char>, ToolEntry>,
    name: Seq<char>,
    enabled: bool,
) -> Map<Seq<char>, ToolEntry> {
    if m.contains_key(name) {
        m.insert(name, ToolEntry { tool: m[name].tool, enabled })
    } else {
        m
    }
}

/// Whether the tool `name` is registered and enabled in `m`.
pub open spec fn is_enabled_in(m: Map<Seq<char>, ToolEntry>, name: Seq<char>) -> bool {
    m.contains_key(name) && m[name].enabled
}

/// Whether the tools of `res` are in strictly increasing order of name.
pub open spec fn tools_sorted(res: Seq<Tool>) -> bool {
    forall|i: int, j: int| 0 <= i < j < res.len() ==> lex_lt(res[i].name@, res[j].name@)
}

impl ToolRegistry {
    #[verifier::type_invariant]
    spec fn inv(&self) -> bool {
        sorted_by_name(self.entries@)
    }

    /// Whether tools start disabled.
    pub closed spec fn lazy(&self) -> bool {
        self.lazy_mode
    }

    /// An empty registry, lazy when the configuration says so.
    pub fn new(config: &AppConfig) -> (res: ToolRegistry)
        ensures
            res@ == Map::<Seq<char>, ToolEntry>::empty(),
            res.lazy() == config.lazy_mode,
    {
        let res = ToolRegistry { entries: Vec::new(), lazy_mode: config.lazy_mode };
        assert(res@ =~= Map::<Seq<char>, ToolEntry>::empty());
        res
    }

    /// The position of the entry named `name`, or where it would go: the
    /// first entry whose name is not before `name`.
    fn position(&self, name: &String) -> (res: usize)
        ensures
            res <= self.entries@.len(),
            forall|j: int| 0 <= j < res ==> lex_lt(entry_name(#[trigger] self.entries@[j]), name@),
            res < self.entries@.len() ==> !lex_lt(entry_name(self.entries@[res as int]), name@),
    {
        let n = self.entries.len();
        let mut i: usize = 0;
        while i < n
            invariant
                n == self.entries@.len(),
                0 <= i <= n,
                forall|j: int|
                    0 <= j < i ==> lex_lt(entry_name(#[trigger] self.entries@[j]), name@),
            decreases n - i,
        {
            if !text_less(&self.entries[i].tool.name, name) {
                return i;
            }
            i = i + 1;
        }
        n
    }

    /// The index of the entry named `name`, if there is one.
    fn find(&self, name: &String) -> (res: Option<usize>)
        ensures
            match res {
                Some(i) => i < self.entries@.len() && entry_name(self.entries@[i as int]) == name@
                    && self@.contains_key(name@) && self@[name@] == self.entries@[i as int],
                None => !self@.contains_key(name@),
            },
    {
        proof {
            use_type_invariant(self);
        }
        let p = self.position(name);
        if p < self.entries.len() && self.entries[p].tool.name == *name {
            proof {
                lemma_entries_map_at(self.entries@, p as int);
            }
            return Some(p);
        }
        proof {
            if has_entry(self.entries@, name@) {
                let j = choose|j: int|
                    0 <= j < self.entries@.len() && entry_name(#[trigger] self.entries@[j])
                        == name@;
                lemma_lex_irreflexive(name@);
                if j >= p as int && j != p as int {
                    assert(lex_lt(
                        entry_name(self.entries@[p as int]),
                        entry_name(self.entries@[j]),
                    ));
                    lemma_lex_total(entry_name(self.entries@[p as int]), name@);
                }
            }
        }
        None
    }

    /// Registers a tool, replacing any tool of the same name. Outside lazy
    /// mode the tool is enabled; in lazy mode a new tool starts disabled and
    /// a replaced one keeps its state.
    pub fn register(&mut self, name: &str, description: &str, input_schema: String)
        ensures
            final(self).lazy() == old(self).lazy(),
            final(self)@.dom() == old(self)@.dom().insert(name@),
            forall|k: Seq<char>|
                k != name@ && old(self)@.contains_key(k) ==> #[trigger] final(self)@[k] == old(
                    self,
                )@[k],
            final(self)@[name@].tool.name@ == name@,
            final(self)@[name@].tool.description@ == description@,
            final(self)@[name@].tool.input_schema@ == input_schema@,
            final(self)@[name@].enabled == if !old(self).lazy() {
                true
            } else if old(self)@.contains_key(name@) {
                old(self)@[name@].enabled
            } else {
                false
            },
    {
        proof {
            use_type_invariant(&*self);
        }
        let key = String::from_str(name);
        let found = self.find(&key);
        let exists = found.is_some();
        let p = match found {
            Some(i) => i,
            None => self.position(&key),
        };
        let ghost old_es = self.entries@;
        proof {
            if !exists {
                assert(!has_entry(old_es, name@));
                if p < old_es.len() {
                    assert(entry_name(old_es[p as int]) != name@);
                }
            }
        }
        let enabled = if !self.lazy_mode {
            true
        } else if exists {
            self.entries[p].enabled
        } else {
            false
        };
        let entry = ToolEntry {
            tool: Tool {
                name: key,
                description: String::from_str(description),
                input_schema,
            },
            enabled,
        };
        let ghost e = entry;
        let mut es_new: Vec<ToolEntry> = Vec::new();
        std::mem::swap(&mut es_new, &mut self.entries);
        if exists {
            proof {
                lemma_entries_map_at(old_es, p as int);
            }
            es_new.set(p, entry);
            proof {
                let es = es_new@;
                assert forall|i: int, j: int| 0 <= i < j < es.len() implies lex_lt(
                    entry_name(#[trigger] es[i]),
                    entry_name(#[trigger] es[j]),
                ) by {
                    assert(entry_name(es[i]) == entry_name(old_es[i]));
                    assert(entry_name(es[j]) == entry_name(old_es[j]));
                }
                assert(sorted_by_name(es));
            }
        } else {
            es_new.insert(p, entry);
            proof {
                let es = es_new@;
                assert forall|i: int, j: int| 0 <= i < j < es.len() implies lex_lt(
                    entry_name(#[trigger] es[i]),
                    entry_name(#[trigger] es[j]),
                ) by {
                    let pi = p as int;
                    if i < pi && j < pi {
                        assert(es[i] == old_es[i] && es[j] == old_es[j]);
                    } else if i < pi && j == pi {
                        assert(es[i] == old_es[i]);
                    } else if i < pi && j > pi {
                        assert(es[i] == old_es[i] && es[j] == old_es[j - 1]);
                    } else if i == pi {
                        assert(es[j] == old_es[j - 1]);
                        if j - 1 > pi {
                            assert(lex_lt(entry_name(old_es[pi]), entry_name(old_es[j - 1])));
                        }
                        lemma_lex_total(entry_name(old_es[pi]), name@);
                        if j - 1 > pi {
                            lemma_lex_transitive(
                                name@,
                                entry_name(old_es[pi]),
                                entry_name(old_es[j - 1]),
                            );
                        }
                    } else {
                        assert(es[i] == old_es[i - 1] && es[j] == old_es[j - 1]);
                    }
                }
                assert(sorted_by_name(es));
            }
        }
        self.entries = es_new;
        proof {
            let es = self.entries@;
            let pi = p as int;
            assert(es[pi] == e);
            lemma_entries_map_at(es, pi);
            assert forall|k: Seq<char>|
                #![trigger entries_map(es).contains_key(k)]
                entries_map(es).contains_key(k) <==> (entries_map(old_es).contains_key(k) || k
                    == name@) by {
                if has_entry(es, k) {
                    let i = choose|i: int| 0 <= i < es.len() && entry_name(#[trigger] es[i]) == k;
                    if k != name@ {
                        if exists {
                            assert(es[i] == old_es[i]);
                        } else if i < pi {
                            assert(es[i] == old_es[i]);
                        } else {
                            assert(es[i] == old_es[i - 1]);
                        }
                    }
                }
                if has_entry(old_es, k) {
                    let i = choose|i: int|
                        0 <= i < old_es.len() && entry_name(#[trigger] old_es[i]) == k;
                    if exists {
                        if i != pi {
                            assert(es[i] == old_es[i]);
                        }
                    } else if i < pi {
                        assert(es[i] == old_es[i]);
                    } else {
                        assert(es[i + 1] == old_es[i]);
                    }
                }
            }
            assert(entries_map(es).dom() =~= entries_map(old_es).dom().insert(name@));
            assert forall|k: Seq<char>|
                k != name@ && entries_map(old_es).contains_key(k) implies #[trigger] entries_map(
                    es,
                )[k] == entries_map(old_es)[k] by {
                let i = choose|i: int|
                    0 <= i < old_es.len() && entry_name(#[trigger] old_es[i]) == k;
                lemma_entries_map_at(old_es, i);
                if exists {
                    assert(es[i] == old_es[i]);
                    lemma_entries_map_at(es, i);
                } else if i < pi {
                    assert(es[i] == old_es[i]);
                    lemma_entries_map_at(es, i);
                } else {
                    assert(es[i + 1] == old_es[i]);
                    lemma_entries_map_at(es, i + 1);
                }
            }
        }
    }

    /// Enables the tool `name`; false, and nothing changes, when no such tool
    /// is registered.
    pub fn enable_tool(&mut self, name: &str) -> (res: bool)
        ensures
            res == old(self)@.contains_key(name@),
            final(self).lazy() == old(self).lazy(),
            final(self)@ == with_enabled(old(self)@, name@, true),
    {
        self.set_enabled(name, true)
    }

    /// Disables the tool `name`; true when it was enabled.
    pub fn disable_tool(&mut self, name: &str) -> (res: bool)
        ensures
            res == is_enabled_in(old(self)@, name@),
            final(self).lazy() == old(self).lazy(),
            final(self)@ == with_enabled(old(self)@, name@, false),
    {
        let was_enabled = self.is_tool_enabled(name);
        self.set_enabled(name, false);
        was_enabled
    }

    /// Sets whether the tool `name` is enabled; false when no such tool is
    /// registered.
    fn set_enabled(&mut self, name: &str, enabled: bool) -> (res: bool)
        ensures
            res == old(self)@.contains_key(name@),
            final(self).lazy() == old(self).lazy(),
            final(self)@ == with_enabled(old(self)@, name@, enabled),
    {
        proof {
            use_type_invariant(&*self);
        }
        let key = String::from_str(name);
        match self.find(&key) {
            None => false,
            Some(i) => {
                let ghost old_es = self.entries@;
                let ghost old_map = self@;
                let tool = self.entries[i].tool.duplicate();
                let entry = ToolEntry { tool, enabled };
                let mut es_new: Vec<ToolEntry> = Vec::new();
                std::mem::swap(&mut es_new, &mut self.entries);
                es_new.set(i, entry);
                proof {
                    let es = es_new@;
                    assert forall|a: int, b: int| 0 <= a < b < es.len() implies lex_lt(
                        entry_name(#[trigger] es[a]),
                        entry_name(#[trigger] es[b]),
                    ) by {
                        assert(entry_name(es[a]) == entry_name(old_es[a]));
                        assert(entry_name(es[b]) == entry_name(old_es[b]));
                    }
                    let want = old_map.insert(
                        name@,
                        ToolEntry { tool: old_map[name@].tool, enabled },
                    );
                    assert forall|k: Seq<char>| #[trigger]
                        entries_map(es).contains_key(k) <==> want.contains_key(k) by {
                        if has_entry(es, k) {
                            let j = choose|j: int|
                                0 <= j < es.len() && entry_name(#[trigger] es[j]) == k;
                            assert(entry_name(old_es[j]) == k);
                        }
                        if has_entry(old_es, k) {
                            let j = choose|j: int|
                                0 <= j < old_es.len() && entry_name(#[trigger] old_es[j]) == k;
                            assert(entry_name(es[j]) == k);
                        }
                    }
                    assert forall|k: Seq<char>|
                        want.contains_key(k) implies #[trigger] entries_map(es)[k] == want[k] by {
                        let j = choose|j: int|
                            0 <= j < old_es.len() && entry_name(#[trigger] old_es[j]) == k;
                        lemma_entries_map_at(old_es, j);
                        assert(entry_name(es[j]) == k);
                        lemma_entries_map_at(es, j);
                        if k == name@ {
                            lemma_unique_name(old_es, i as int, j);
                        }
                        if j != i as int {
                            assert(es[j] == old_es[j]);
                        }
                    }
                    assert(entries_map(es) =~= want);
                }
                self.entries = es_new;
                true
            },
        }
    }

    /// Whether the tool `name` is registered and enabled.
    pub fn is_tool_enabled(&self, name: &str) -> (res: bool)
        ensures
            res == is_enabled_in(self@, name@),
    {
        let key = String::from_str(name);
        match self.find(&key) {
            Some(i) => self.entries[i].enabled,
            None => false,
        }
    }

    /// The tool `name`, if it is registered.
    pub fn get_tool(&self, name: &str) -> (res: Option<Tool>)
        ensures
            match res {
                Some(t) => self@.contains_key(name@) && t == self@[name@].tool,
                None => !self@.contains_key(name@),
            },
    {
        let key = String::from_str(name);
        match self.find(&key) {
            Some(i) => Some(self.entries[i].tool.duplicate()),
            None => None,
        }
    }

    /// The tool to run for a call of `name`: refused with `METHOD_NOT_FOUND`
    /// unless the tool is registered and enabled.
    pub fn check_call(&self, name: &str) -> (res: Result<Tool, ResponseError>)
        ensures
            match res {
                Ok(t) => self@.contains_key(name@) && self@[name@].enabled && t == self@[name@].tool,
                Err(e) => !(self@.contains_key(name@) && self@[name@].enabled) && e.code
                    == METHOD_NOT_FOUND && e.message@ == "Tool not found or not enabled: "@ + name@
                    && e.data is None,
            },
    {
        if !self.is_tool_enabled(name) {
            let mut msg = String::from_str("Tool not found or not enabled: ");
            msg.append(name);
            return Err(ResponseError::new(METHOD_NOT_FOUND, msg));
        }
        match self.get_tool(name) {
            Some(t) => Ok(t),
            None => {
                let mut msg = String::from_str("Tool not found: ");
                msg.append(name);
                Err(ResponseError::new(METHOD_NOT_FOUND, msg))
            },
        }
    }

    /// The enabled tools, in increasing order of name.
    pub fn list_tools(&self) -> (res: Vec<Tool>)
        ensures
            tools_sorted(res@),
            forall|i: int|
                0 <= i < res@.len() ==> {
                    &&& self@.contains_key(#[trigger] res@[i].name@)
                    &&& self@[res@[i].name@].enabled
                    &&& self@[res@[i].name@].tool == res@[i]
                },
            forall|k: Seq<char>|
                self@.contains_key(k) && #[trigger] self@[k].enabled ==> exists|i: int|
                    0 <= i < res@.len() && res@[i].name@ == k,
    {
        proof {
            use_type_invariant(self);
        }
        let ghost es = self.entries@;
        let mut res: Vec<Tool> = Vec::new();
        let ghost mut src: Seq<int> = Seq::empty();
        let n = self.entries.len();
        let mut i: usize = 0;
        while i < n
            invariant
                n == es.len(),
                es == self.entries@,
                sorted_by_name(es),
                0 <= i <= n,
                src.len() == res@.len(),
                forall|a: int| 0 <= a < src.len() ==> 0 <= #[trigger] src[a] < i,
                forall|a: int, b: int| 0 <= a < b < src.len() ==> #[trigger] src[a] < #[trigger] src[b],
                forall|a: int|
                    0 <= a < res@.len() ==> #[trigger] res@[a] == es[src[a]].tool && es[src[a]].enabled,
                forall|j: int|
                    0 <= j < i && #[trigger] es[j].enabled ==> exists|a: int|
                        0 <= a < src.len() && src[a] == j,
            decreases n - i,
        {
            let ghost old_src = src;
            if self.entries[i].enabled {
                res.push(self.entries[i].tool.duplicate());
                proof {
                    src = src.push(i as int);
                }
            }
            proof {
                assert forall|j: int|
                    0 <= j < i + 1 && #[trigger] es[j].enabled implies exists|a: int|
                        0 <= a < src.len() && src[a] == j by {
                    if j < i {
                        let a = choose|a: int| 0 <= a < old_src.len() && old_src[a] == j;
                        assert(src[a] == j);
                    } else {
                        assert(src[src.len() - 1] == j);
                    }
                }
            }
            i = i + 1;
        }
        proof {
            assert forall|a: int, b: int| 0 <= a < b < res@.len() implies lex_lt(
                res@[a].name@,
                res@[b].name@,
            ) by {
                assert(src[a] < src[b]);
                assert(lex_lt(entry_name(es[src[a]]), entry_name(es[src[b]])));
            }
            assert forall|a: int| 0 <= a < res@.len() implies {
                &&& self@.contains_key(#[trigger] res@[a].name@)
                &&& self@[res@[a].name@].enabled
                &&& self@[res@[a].name@].tool == res@[a]
            } by {
                lemma_entries_map_at(es, src[a]);
            }
            assert forall|k: Seq<char>|
                self@.contains_key(k) && #[trigger] self@[k].enabled implies exists|a: int|
                    0 <= a < res@.len() && res@[a].name@ == k by {
                let j = choose|j: int| 0 <= j < es.len() && entry_name(#[trigger] es[j]) == k;
                lemma_entries_map_at(es, j);
                let a = choose|a: int| 0 <= a < src.len() && src[a] == j;
                assert(res@[a].name@ == k);
            }
        }
        res
    }

    /// All registered tools with whether each is enabled, in increasing
    /// order of name.
    pub fn list_available_tools(&self) -> (res: Vec<ToolEntry>)
        ensures
            sorted_by_name(res@),
            forall|i: int|
                0 <= i < res@.len() ==> self@.contains_key(#[trigger] entry_name(res@[i]))
                    && self@[entry_name(res@[i])] == res@[i],
            forall|k: Seq<char>|
                #[trigger] self@.contains_key(k) ==> exists|i: int|
                    0 <= i < res@.len() && entry_name(res@[i]) == k,
    {
        proof {
            use_type_invariant(self);
        }
        let ghost es = self.entries@;
        let mut res: Vec<ToolEntry> = Vec::new();
        let n = self.entries.len();
        let mut i: usize = 0;
        while i < n
            invariant
                n == es.len(),
                es == self.entries@,
                0 <= i <= n,
                res@ == es.take(i as int),
            decreases n - i,
        {
            res.push(self.entries[i].duplicate());
            assert(res@ =~= es.take((i + 1) as int));
            i = i + 1;
        }
        proof {
            assert(res@ =~= es);
            assert forall|a: int| 0 <= a < res@.len() implies self@.contains_key(
                #[trigger] entry_name(res@[a]),
            ) && self@[entry_name(res@[a])] == res@[a] by {
                lemma_entries_map_at(es, a);
            }
        }
        res
    }
}

/// Whether `new` is `old` after registering the tool `name` with
/// `description` and `schema`.
pub open spec fn registers(
    old: ToolRegistry,
    new: ToolRegistry,
    name: Seq<char>,
    description: Seq<char>,
    schema: Seq<char>,
) -> bool {
    &&& new.lazy() == old.lazy()
    &&& new@.dom() == old@.dom().insert(name)
    &&& forall|k: Seq<char>| k != name && old@.contains_key(k) ==> #[trigger] new@[k] == old@[k]
    &&& new@[name].tool.name@ == name
    &&& new@[name].tool.description@ == description
    &&& new@[name].tool.input_schema@ == schema
    &&& new@[name].enabled == if !old.lazy() {
        true
    } else if old@.contains_key(name) {
        old@[name].enabled
    } else {
        false
    }
}

/// Whether `e` is the error for the action `action` that a tool does not
/// know.
pub open spec fn is_unknown_action(e: Error, action: Seq<char>) -> bool {
    e matches Error::Mcp(r) && r.code == INVALID_PARAMS && r.message@ == "Unknown action: "@
        + action && r.data is None
}

/// The name of the action a call asks for: its `action` argument, empty
/// when the argument is absent.
pub open spec fn action_of(arg: Option<&str>) -> Seq<char> {
    match arg {
        Some(a) => a@,
        None => Seq::empty(),
    }
}

/// The name of the action a call asks for.
pub fn action_text(arg: Option<&str>) -> (res: &str)
    ensures
        res@ == action_of(arg),
{
    match arg {
        Some(a) => a,
        None => {
            proof {
                reveal_strlit("");
            }
            ""
        },
    }
}

/// The error for the action `action` that a tool does not know.
pub fn unknown_action(action: &str) -> (e: Error)
    ensures
        is_unknown_action(e, action@),
{
    let mut msg = String::from_str("Unknown action: ");
    msg.append(action);
    Error::Mcp(ResponseError::new(INVALID_PARAMS, msg))
}

/// The text of an optional argument, empty when it is absent.
pub open spec fn or_empty(o: Option<String>) -> Seq<char> {
    match o {
        Some(s) => s@,
        None => Seq::empty(),
    }
}

/// A copy of the text of an optional argument, empty when it is absent.
pub fn text_or_empty(o: &Option<String>) -> (res: String)
    ensures
        res@ == or_empty(*o),
{
    match o {
        Some(s) => s.clone(),
        None => String::new(),
    }
}

/// The texts among the items of a JSON array, in order; other items are
/// skipped.
pub open spec fn texts_of(items: Seq<Option<String>>) -> Seq<Seq<char>>
    decreases items.len(),
{
    if items.len() == 0 {
        Seq::empty()
    } else {
        let front = texts_of(items.drop_last());
        match items.last() {
            Some(s) => front.push(s@),
            None => front,
        }
    }
}

/// The texts among `items`, in order.
pub fn collect_texts(items: &Vec<Option<String>>) -> (res: Vec<String>)
    ensures
        res.deep_view() == texts_of(items@),
{
    let mut res: Vec<String> = Vec::new();
    let n = items.len();
    let mut i: usize = 0;
    while i < n
        invariant
            n == items@.len(),
            0 <= i <= n,
            res.deep_view() == texts_of(items@.take(i as int)),
        decreases n - i,
    {
        assert(items@.take(i + 1).drop_last() =~= items@.take(i as int));
        let ghost before = res.deep_view();
        match &items[i] {
            Some(s) => {
                res.push(s.clone());
                assert(res.deep_view() =~= before.push(s@));
            },
            None => {},
        }
        i = i + 1;
    }
    assert(items@.take(n as int) =~= items@);
    res
}

/// The list an optional array argument sets: its texts when it is given,
/// `current` otherwise.
pub open spec fn texts_or(items: Option<Vec<Option<String>>>, current: Seq<Seq<char>>) -> Seq<
    Seq<char>,
> {
    match items {
        Some(v) => texts_of(v@),
        None => current,
    }
}

/// The list an optional array argument sets: its texts when it is given,
/// `current` otherwise.
pub fn set_texts(items: &Option<Vec<Option<String>>>, current: Vec<String>) -> (res: Vec<String>)
    ensures
        res.deep_view() == texts_or(*items, current.deep_view()),
{
    match items {
        Some(v) => collect_texts(v),
        None => current,
    }
}

/// A number argument stored in a 32-bit field, truncated as `as` does.
pub open spec fn u32_or(o: Option<u64>, current: u32) -> u32 {
    match o {
        Some(v) => v as u32,
        None => current,
    }
}

/// A switch argument, or `current` when it is absent.
pub open spec fn bool_or(o: Option<bool>, current: bool) -> bool {
    match o {
        Some(b) => b,
        None => current,
    }
}

/// A number argument stored in a 32-bit field, truncated as `as` does.
pub fn set_u32(o: Option<u64>, current: u32) -> (res: u32)
    ensures
        res == u32_or(o, current),
{
    match o {
        Some(v) => v as u32,
        None => current,
    }
}

/// A switch argument, or `current` when it is absent.
pub fn set_bool(o: Option<bool>, current: bool) -> (res: bool)
    ensures
        res == bool_or(o, current),
{
    match o {
        Some(b) => b,
        None => current,
    }
}

/// A number argument stored in a 16-bit field, truncated as `as` does.
pub open spec fn u16_or(o: Option<u64>, current: u16) -> u16 {
    match o {
        Some(v) => v as u16,
        None => current,
    }
}

/// A number argument stored in a 16-bit field, truncated as `as` does.
pub fn set_u16(o: Option<u64>, current: u16) -> (res: u16)
    ensures
        res == u16_or(o, current),
{
    match o {
        Some(v) => v as u16,
        None => current,
    }
}

/// A text argument, or `current` when it is absent.
pub open spec fn text_or(o: Option<String>, current: Seq<char>) -> Seq<char> {
    match o {
        Some(s) => s@,
        None => current,
    }
}

/// A text argument, or `current` when it is absent.
pub fn set_text(o: &Option<String>, current: String) -> (res: String)
    ensures
        res@ == text_or(*o, current@),
{
    match o {
        Some(s) => s.clone(),
        None => current,
    }
}

/// What a tool does for an action that needs a single request.
pub enum Step {
    /// Send the call; its answer, as JSON, is the reply.
    Show(ApiCall),
    /// Send the call; the reply is the text.
    Send(ApiCall, String),
    /// Send the call and hand its answer to the action's next step.
    Read(ApiCall),
    /// Send nothing; the reply is the text.
    Reply(String),
    /// Send nothing; the reply is the text, marked as an error.
    Refuse(String),
}

/// Outside lazy mode a tool is enabled as soon as it is registered.
pub proof fn law_registered_tools_start_enabled_outside_lazy_mode(
    old: ToolRegistry,
    new: ToolRegistry,
    name: Seq<char>,
    description: Seq<char>,
    schema: Seq<char>,
)
    requires
        registers(old, new, name, description, schema),
        !old.lazy(),
    ensures
        is_enabled_in(new@, name),
{
    assert(new@.dom().contains(name));
}

/// Enabling a registered tool enables it and leaves every other tool as it
/// was; the set of registered tools does not change.
pub proof fn law_enable_enables_only_that_tool(m: Map<Seq<char>, ToolEntry>, name: Seq<char>)
    ensures
        with_enabled(m, name, true).dom() == m.dom(),
        m.contains_key(name) ==> is_enabled_in(with_enabled(m, name, true), name),
        forall|k: Seq<char>| k != name ==> #[trigger] with_enabled(m, name, true).contains_key(k) ==
            m.contains_key(k) && (m.contains_key(k) ==> with_enabled(m, name, true)[k] == m[k]),
{
    if m.contains_key(name) {
        assert(with_enabled(m, name, true).dom() =~= m.dom());
    }
}

/// Disabling a tool makes it not enabled.
pub proof fn law_disable_disables(m: Map<Seq<char>, ToolEntry>, name: Seq<char>)
    ensures
        !is_enabled_in(with_enabled(m, name, false), name),
        with_enabled(m, name, false).dom() == m.dom(),
{
    if m.contains_key(name) {
        assert(with_enabled(m, name, false).dom() =~= m.dom());
    }
}

/// Disabling a tool that was just enabled restores the registry, and
/// enabling a tool that was just disabled does too.
pub proof fn law_enable_and_disable_undo_each_other(m: Map<Seq<char>, ToolEntry>, name: Seq<char>)
    ensures
        m.contains_key(name) && !m[name].enabled ==> with_enabled(
            with_enabled(m, name, true),
            name,
            false,
        ) == m,
        is_enabled_in(m, name) ==> with_enabled(with_enabled(m, name, false), name, true) == m,
{
    if m.contains_key(name) {
        let e = m[name];
        assert(ToolEntry { tool: e.tool, enabled: e.enabled } == e);
        if !e.enabled {
            assert(with_enabled(with_enabled(m, name, true), name, false) =~= m);
        } else {
            assert(with_enabled(with_enabled(m, name, false), name, true) =~= m);
        }
    }
}

/// Enabling is idempotent.
pub proof fn law_enable_idempotent(m: Map<Seq<char>, ToolEntry>, name: Seq<char>)
    ensures
        with_enabled(with_enabled(m, name, true), name, true) == with_enabled(m, name, true),
{
    if m.contains_key(name) {
        assert(with_enabled(with_enabled(m, name, true), name, true) =~= with_enabled(
            m,
            name,
            true,
        ));
    }
}

} // verus!
