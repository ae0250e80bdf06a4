//! The decisions of the MCP server: which answer a request gets, and what
//! the `manage_tools` tool does to the registry.
//!
//! Reading requests, running tool handlers against AdGuard Home and writing
//! responses and notifications is done outside the verified library; it
//! asks [`McpServer::dispatch`] what to do with each request and
//! [`McpServer::manage_tools`] what a call of `manage_tools` changes.
use vstd::prelude::*;
use crate::config::{AppConfig, InstanceConfig, selected_index};
use crate::error::{Error, error_message};
use crate::mcp::{ResponseError, INTERNAL_ERROR, SERVER_ERROR};
use crate::text::{decimal, lemma_increasing_texts_unique, lex_lt, push_decimal, str_eq};
use crate::tools::{
    Tool, ToolEntry, ToolRegistry, entry_name, is_enabled_in, sorted_by_name, tools_sorted,
    with_enabled,
};

verus! {

/// The protocol version the server speaks.
pub const PROTOCOL_VERSION: &'static str = "2024-11-05";

/// The name the server gives itself.
pub const SERVER_NAME: &'static str = "adguardhome-mcp-rs";

/// The name of the tool that enables and disables the other tools in lazy
/// mode.
pub const MANAGE_TOOLS: &'static str = "manage_tools";

/// The description of `manage_tools`.
pub const MANAGE_TOOLS_DESCRIPTION: &'static str = "Manage available tools (enable/disable) to save tokens.";

/// The input schema of `manage_tools`, as JSON text.
pub const MANAGE_TOOLS_SCHEMA: &'static str = "{\"type\":\"object\",\"properties\":{\"action\":{\"type\":\"string\",\"enum\":[\"list\",\"enable\",\"disable\"],\"description\":\"The action to perform.\"},\"tools\":{\"type\":\"array\",\"items\":{\"type\":\"string\"},\"description\":\"List of tool names to enable or disable.\"}},\"required\":[\"action\"]}";

/// The method of a notification that the list of tools changed.
pub const TOOLS_CHANGED: &'static str = "notifications/tools/list_changed";

/// Whether `t` is the `manage_tools` tool.
pub open spec fn is_manage_tools_tool(t: Tool) -> bool {
    &&& t.name@ == MANAGE_TOOLS@
    &&& t.description@ == MANAGE_TOOLS_DESCRIPTION@
    &&& t.input_schema@ == MANAGE_TOOLS_SCHEMA@
}

/// Whether `ts` lists exactly the enabled tools of `m`, in increasing order
/// of name.
pub open spec fn lists_enabled(m: Map<Seq<char>, ToolEntry>, ts: Seq<Tool>) -> bool {
    &&& tools_sorted(ts)
    &&& forall|i: int|
        0 <= i < ts.len() ==> {
            &&& m.contains_key(#[trigger] ts[i].name@)
            &&& m[ts[i].name@].enabled
            &&& m[ts[i].name@].tool == ts[i]
        }
    &&& forall|k: Seq<char>|
        m.contains_key(k) && #[trigger] m[k].enabled ==> exists|i: int|
            0 <= i < ts.len() && ts[i].name@ == k
}

/// Whether `es` lists every registered tool of `m` with its state, in
/// increasing order of name.
pub open spec fn lists_registered(m: Map<Seq<char>, ToolEntry>, es: Seq<ToolEntry>) -> bool {
    &&& sorted_by_name(es)
    &&& forall|i: int|
        0 <= i < es.len() ==> m.contains_key(#[trigger] entry_name(es[i])) && m[entry_name(es[i])]
            == es[i]
    &&& forall|k: Seq<char>| #[trigger] m.contains_key(k) ==> exists|i: int|
        0 <= i < es.len() && entry_name(es[i]) == k
}

/// Whether `m` names the method that lists the tools.
pub open spec fn is_list_method(m: Seq<char>) -> bool {
    m == "list_tools"@
}

/// Whether `m` names one of the methods that call a tool.
pub open spec fn is_call_method(m: Seq<char>) -> bool {
    m == "call_tool"@ || m == "tools/call"@
}

/// The view of an optional text.
pub open spec fn opt_text(o: Option<&str>) -> Option<Seq<char>> {
    match o {
        Some(s) => Some(s@),
        None => None,
    }
}

/// The instance a call runs against: the first one when no name is given,
/// otherwise the one the name selects.
pub open spec fn chosen_instance(instances: Seq<InstanceConfig>, name: Option<Seq<char>>) -> Option<
    InstanceConfig,
> {
    match name {
        None => if instances.len() > 0 {
            Some(instances[0])
        } else {
            None
        },
        Some(id) => match selected_index(instances, id) {
            Some(i) => Some(instances[i]),
            None => None,
        },
    }
}

/// The message of the error when no instance is chosen.
pub open spec fn no_instance_message(name: Option<Seq<char>>) -> Seq<char> {
    match name {
        None => "No instances configured"@,
        Some(id) => "Instance not found: "@ + id,
    }
}

/// The answer to `initialize`: the protocol version, the server's name and
/// version, and whether the server announces changes of its tool list.
pub struct InitializeReply {
    pub protocol_version: String,
    pub server_name: String,
    pub server_version: String,
    pub tools_list_changed: bool,
}

/// The answer to `initialize` from a server of version `version`: the
/// protocol version it speaks, its name and version, and a tools capability
/// that announces changes of the tool list.
pub fn initialize_reply(version: &str) -> (r: InitializeReply)
    ensures
        r.protocol_version@ == PROTOCOL_VERSION@,
        r.server_name@ == SERVER_NAME@,
        r.server_version@ == version@,
        r.tools_list_changed,
{
    InitializeReply {
        protocol_version: String::from_str(PROTOCOL_VERSION),
        server_name: String::from_str(SERVER_NAME),
        server_version: String::from_str(version),
        tools_list_changed: true,
    }
}

/// What to do with a request.
pub enum Dispatch {
    /// Answer with [`initialize_reply`].
    Initialize,
    /// Answer with these tools.
    ListTools(Vec<Tool>),
    /// Run `manage_tools` with the call's arguments.
    ManageTools,
    /// Run the handler of `tool` against `instance`.
    CallTool { tool: Tool, instance: InstanceConfig },
}

/// The outcome of a call of `manage_tools`.
pub enum ManageOutcome {
    /// The registered tools with their state.
    Listed(Vec<ToolEntry>),
    /// Tools were enabled or disabled: `text` reports how many, and a
    /// notification that the tools changed is owed when `notify`.
    Switched { text: String, notify: bool },
}

/// `m` after each tool of `names`, in order, is enabled (when `enabled`)
/// or disabled.
pub open spec fn switch_all(
    m: Map<Seq<char>, ToolEntry>,
    names: Seq<Seq<char>>,
    enabled: bool,
) -> Map<Seq<char>, ToolEntry>
    decreases names.len(),
{
    if names.len() == 0 {
        m
    } else {
        with_enabled(switch_all(m, names.drop_last(), enabled), names.last(), enabled)
    }
}

/// Whether switching `name` in `m` is counted: enabling counts a registered
/// tool, disabling counts a tool that was enabled.
pub open spec fn switch_counts(m: Map<Seq<char>, ToolEntry>, name: Seq<char>, enabled: bool) -> bool {
    if enabled {
        m.contains_key(name)
    } else {
        is_enabled_in(m, name)
    }
}

/// How many of the switches of `names`, applied in order, are counted.
pub open spec fn switch_count(
    m: Map<Seq<char>, ToolEntry>,
    names: Seq<Seq<char>>,
    enabled: bool,
) -> nat
    decreases names.len(),
{
    if names.len() == 0 {
        0
    } else {
        switch_count(m, names.drop_last(), enabled) + if switch_counts(
            switch_all(m, names.drop_last(), enabled),
            names.last(),
            enabled,
        ) {
            1nat
        } else {
            0nat
        }
    }
}

/// The report of a switch of `count` tools.
pub open spec fn switch_text(enabled: bool, count: nat) -> Seq<char> {
    (if enabled {
        "Enabled "@
    } else {
        "Disabled "@
    }) + decimal(count) + " tools."@
}

/// The server's state: the tool registry and the configuration.
pub struct McpServer {
    pub registry: ToolRegistry,
    pub config: AppConfig,
}

impl McpServer {
    /// A server with `registry` and `config`.
    pub fn new(registry: ToolRegistry, config: AppConfig) -> (res: McpServer)
        ensures
            res.registry@ == registry@,
            res.registry.lazy() == registry.lazy(),
            res.config == config,
    {
        McpServer { registry, config }
    }

    /// The `manage_tools` tool.
    pub fn manage_tools_tool() -> (res: Tool)
        ensures
            is_manage_tools_tool(res),
    {
        Tool {
            name: String::from_str(MANAGE_TOOLS),
            description: String::from_str(MANAGE_TOOLS_DESCRIPTION),
            input_schema: String::from_str(MANAGE_TOOLS_SCHEMA),
        }
    }

    /// The tools a listing shows: the enabled tools in increasing order of
    /// name, followed, in lazy mode, by `manage_tools`.
    pub fn listed_tools(&self) -> (res: Vec<Tool>)
        ensures
            self.config.lazy_mode ==> res@.len() > 0 && is_manage_tools_tool(res@.last())
                && lists_enabled(self.registry@, res@.drop_last()),
            !self.config.lazy_mode ==> lists_enabled(self.registry@, res@),
    {
        let mut res = self.registry.list_tools();
        if self.config.lazy_mode {
            let ghost before = res@;
            res.push(Self::manage_tools_tool());
            assert(res@.drop_last() =~= before);
        }
        res
    }

    /// What to do with a request for `method`. For a call, `tool_name` is
    /// the tool called and `instance` the instance named in its arguments.
    ///
    /// `initialize` is answered at once and a listing gets the listed
    /// tools. A call of `manage_tools` in lazy mode is run by the server
    /// itself; any other call needs an instance, chosen as
    /// [`AppConfig::get_instance`] does, and a registered, enabled tool.
    /// Any other method is unknown.
    pub fn dispatch(&self, method: &str, tool_name: &str, instance: Option<&str>) -> (res: Result<
        Dispatch,
        Error,
    >)
        ensures
            method@ == "initialize"@ ==> res matches Ok(Dispatch::Initialize),
            is_list_method(method@) ==> (res matches Ok(Dispatch::ListTools(ts)) && (
            if self.config.lazy_mode {
                ts@.len() > 0 && is_manage_tools_tool(ts@.last()) && lists_enabled(
                    self.registry@,
                    ts@.drop_last(),
                )
            } else {
                lists_enabled(self.registry@, ts@)
            })),
            is_call_method(method@) && tool_name@ == MANAGE_TOOLS@ && self.config.lazy_mode ==> res
                matches Ok(Dispatch::ManageTools),
            is_call_method(method@) && !(tool_name@ == MANAGE_TOOLS@ && self.config.lazy_mode) ==> {
                let chosen = chosen_instance(self.config.instances@, opt_text(instance));
                match chosen {
                    None => res matches Err(Error::Config(m)) && m@ == no_instance_message(
                        opt_text(instance),
                    ),
                    Some(inst) => if is_enabled_in(self.registry@, tool_name@) {
                        res matches Ok(Dispatch::CallTool { tool, instance: i }) && tool
                            == self.registry@[tool_name@].tool && i == inst
                    } else {
                        res matches Err(Error::Generic(m)) && m@
                            == "Tool not found or not enabled: "@ + tool_name@
                    },
                }
            },
            !(method@ == "initialize"@ || is_list_method(method@) || is_call_method(method@))
                ==> (res matches Err(Error::Generic(m)) && m@ == "Method not found: "@ + method@),
    {
        proof {
            reveal_strlit("initialize");
            reveal_strlit("list_tools");
            reveal_strlit("call_tool");
            reveal_strlit("tools/call");
            assert("initialize"@[0] == 'i' && "list_tools"@[0] == 'l' && "call_tool"@[0] == 'c');
            assert("tools/call"@[0] == 't' && "tools/call"@[6] == 'c');
        }
        if str_eq(method, "initialize") {
            return Ok(Dispatch::Initialize);
        }
        if str_eq(method, "list_tools") {
            return Ok(Dispatch::ListTools(self.listed_tools()));
        }
        if str_eq(method, "call_tool") || str_eq(method, "tools/call") {
            if str_eq(tool_name, MANAGE_TOOLS) && self.config.lazy_mode {
                return Ok(Dispatch::ManageTools);
            }
            let inst = match self.config.get_instance(instance) {
                Ok(i) => i.duplicate(),
                Err(e) => {
                    return Err(e);
                },
            };
            return match self.registry.check_call(tool_name) {
                Ok(tool) => Ok(Dispatch::CallTool { tool, instance: inst }),
                Err(re) => Err(Error::Generic(re.message)),
            };
        }
        let mut msg = String::from_str("Method not found: ");
        msg.append(method);
        Err(Error::Generic(msg))
    }

    /// Enables (when `enabled`) or disables each tool of `names` in order;
    /// the number of switches that count.
    fn switch_tools(&mut self, names: &Vec<String>, enabled: bool) -> (count: usize)
        ensures
            final(self).registry@ == switch_all(old(self).registry@, names.deep_view(), enabled),
            final(self).registry.lazy() == old(self).registry.lazy(),
            final(self).config == old(self).config,
            count == switch_count(old(self).registry@, names.deep_view(), enabled),
    {
        let ghost m0 = self.registry@;
        let ghost ns = names.deep_view();
        let mut count: usize = 0;
        let n = names.len();
        let mut i: usize = 0;
        assert(ns.take(0) =~= Seq::<Seq<char>>::empty());
        while i < n
            invariant
                n == names.len(),
                ns == names.deep_view(),
                0 <= i <= n,
                count <= i,
                self.registry@ == switch_all(m0, ns.take(i as int), enabled),
                count == switch_count(m0, ns.take(i as int), enabled),
                self.registry.lazy() == old(self).registry.lazy(),
                self.config == old(self).config,
            decreases n - i,
        {
            let name = names[i].as_str();
            assert(name@ == ns[i as int]);
            let counted = if enabled {
                self.registry.enable_tool(name)
            } else {
                self.registry.disable_tool(name)
            };
            assert(ns.take(i + 1).drop_last() =~= ns.take(i as int));
            assert(ns.take(i + 1).last() == ns[i as int]);
            if counted {
                count = count + 1;
            }
            i = i + 1;
        }
        assert(ns.take(n as int) =~= ns);
        count
    }

    /// Runs `manage_tools`. `action` is the call's `action` argument and
    /// `names` the texts of its `tools` argument.
    ///
    /// `list` lists the registered tools. `enable` enables each registered
    /// tool of `names` and counts them; `disable` disables each enabled tool
    /// of `names` and counts them. The tools changed notification is owed
    /// when the count is not zero. Any other action is refused.
    pub fn manage_tools(&mut self, action: Option<&str>, names: &Vec<String>) -> (res: Result<
        ManageOutcome,
        Error,
    >)
        ensures
            final(self).config == old(self).config,
            final(self).registry.lazy() == old(self).registry.lazy(),
            match opt_text(action) {
                Some(a) => if a == "list"@ {
                    &&& res matches Ok(ManageOutcome::Listed(es)) && lists_registered(
                        old(self).registry@,
                        es@,
                    )
                    &&& final(self).registry@ == old(self).registry@
                } else if a == "enable"@ || a == "disable"@ {
                    let enabled = a == "enable"@;
                    let count = switch_count(old(self).registry@, names.deep_view(), enabled);
                    &&& res matches Ok(ManageOutcome::Switched { text, notify }) && text@
                        == switch_text(enabled, count) && notify == (count > 0)
                    &&& final(self).registry@ == switch_all(
                        old(self).registry@,
                        names.deep_view(),
                        enabled,
                    )
                } else {
                    &&& res matches Err(Error::Generic(m)) && m@
                        == "Invalid or missing 'action' argument"@
                    &&& final(self).registry@ == old(self).registry@
                },
                None => {
                    &&& res matches Err(Error::Generic(m)) && m@
                        == "Invalid or missing 'action' argument"@
                    &&& final(self).registry@ == old(self).registry@
                },
            },
    {
        let a = match action {
            Some(a) => a,
            None => {
                return Err(Error::Generic(String::from_str("Invalid or missing 'action' argument")));
            },
        };
        if str_eq(a, "list") {
            return Ok(ManageOutcome::Listed(self.registry.list_available_tools()));
        }
        let enabled = if str_eq(a, "enable") {
            true
        } else if str_eq(a, "disable") {
            false
        } else {
            return Err(Error::Generic(String::from_str("Invalid or missing 'action' argument")));
        };
        let count = self.switch_tools(names, enabled);
        let mut text = if enabled {
            String::from_str("Enabled ")
        } else {
            String::from_str("Disabled ")
        };
        push_decimal(&mut text, count as u64);
        text.append(" tools.");
        Ok(ManageOutcome::Switched { text, notify: count > 0 })
    }
}

/// The transport a response goes out on.
#[derive(Debug, Clone, Copy, PartialEq, Eq, Structural)]
pub enum Transport {
    Stdio,
    Http,
}

/// The error member of the response to a request that failed with `e`:
/// code `-32000` over stdio and `-32603` over HTTP, with the error's
/// message.
pub fn error_response(e: &Error, transport: Transport) -> (res: ResponseError)
    ensures
        res.code == match transport {
            Transport::Stdio => SERVER_ERROR,
            Transport::Http => INTERNAL_ERROR,
        },
        res.message@ == error_message(*e),
        res.data is None,
{
    let code = match transport {
        Transport::Stdio => SERVER_ERROR,
        Transport::Http => INTERNAL_ERROR,
    };
    ResponseError::new(code, e.message())
}

/// Switching never changes which tools are registered.
pub proof fn law_switch_keeps_registered(
    m: Map<Seq<char>, ToolEntry>,
    names: Seq<Seq<char>>,
    enabled: bool,
)
    ensures
        switch_all(m, names, enabled).dom() == m.dom(),
    decreases names.len(),
{
    if names.len() > 0 {
        law_switch_keeps_registered(m, names.drop_last(), enabled);
        let p = switch_all(m, names.drop_last(), enabled);
        if p.contains_key(names.last()) {
            assert(with_enabled(p, names.last(), enabled).dom() =~= p.dom());
        }
    }
}

/// After `manage_tools` enables or disables `names`, each registered tool
/// of `names` is in the requested state, and every tool not named keeps
/// its entry.
pub proof fn law_switched_tools_take_the_requested_state(
    m: Map<Seq<char>, ToolEntry>,
    names: Seq<Seq<char>>,
    enabled: bool,
)
    ensures
        forall|j: int|
            0 <= j < names.len() && m.contains_key(#[trigger] names[j]) ==> switch_all(
                m,
                names,
                enabled,
            )[names[j]].enabled == enabled,
        forall|k: Seq<char>|
            !names.contains(k) && m.contains_key(k) ==> #[trigger] switch_all(m, names, enabled)[k]
                == m[k],
    decreases names.len(),
{
    if names.len() > 0 {
        let front = names.drop_last();
        law_switched_tools_take_the_requested_state(m, front, enabled);
        law_switch_keeps_registered(m, front, enabled);
        let p = switch_all(m, front, enabled);
        assert forall|j: int|
            0 <= j < names.len() && m.contains_key(#[trigger] names[j]) implies switch_all(
            m,
            names,
            enabled,
        )[names[j]].enabled == enabled by {
            if j < names.len() - 1 {
                assert(front[j] == names[j]);
            }
        }
        assert forall|k: Seq<char>|
            !names.contains(k) && m.contains_key(k) implies #[trigger] switch_all(
            m,
            names,
            enabled,
        )[k] == m[k] by {
            if front.contains(k) {
                let j = choose|j: int| 0 <= j < front.len() && front[j] == k;
                assert(names[j] == k);
            }
            assert(k != names.last());
        }
    }
}

/// No notification without a change: when no switch of `names` counts, the
/// registry is left as it was.
pub proof fn law_uncounted_switches_change_nothing(
    m: Map<Seq<char>, ToolEntry>,
    names: Seq<Seq<char>>,
    enabled: bool,
)
    requires
        switch_count(m, names, enabled) == 0,
    ensures
        switch_all(m, names, enabled) == m,
    decreases names.len(),
{
    if names.len() > 0 {
        law_uncounted_switches_change_nothing(m, names.drop_last(), enabled);
        let k = names.last();
        if m.contains_key(k) {
            let e = m[k];
            assert(!enabled && !e.enabled);
            assert(ToolEntry { tool: e.tool, enabled: false } == e);
            assert(m.insert(k, e) =~= m);
        }
    }
}

/// The distinct names of `names` that are enabled tools of `m`.
pub open spec fn enabled_among(m: Map<Seq<char>, ToolEntry>, names: Seq<Seq<char>>) -> Set<
    Seq<char>,
> {
    Set::new(|k: Seq<char>| names.contains(k) && is_enabled_in(m, k))
}

/// Disabling the tools `names` counts each distinct name of the list that
/// was an enabled tool, once, however often it is repeated; afterwards the
/// enabled tools are those that were enabled and are not in the list.
pub proof fn law_disable_counts_distinct_enabled_names(
    m: Map<Seq<char>, ToolEntry>,
    names: Seq<Seq<char>>,
)
    ensures
        enabled_among(m, names).finite(),
        switch_count(m, names, false) == enabled_among(m, names).len(),
        forall|k: Seq<char>|
            #[trigger] is_enabled_in(switch_all(m, names, false), k) <==> is_enabled_in(m, k)
                && !names.contains(k),
    decreases names.len(),
{
    if names.len() == 0 {
        assert(enabled_among(m, names) =~= Set::<Seq<char>>::empty());
        assert(switch_all(m, names, false) == m);
    } else {
        let pre = names.drop_last();
        let x = names.last();
        law_disable_counts_distinct_enabled_names(m, pre);
        law_switch_keeps_registered(m, pre, false);
        let p = switch_all(m, pre, false);
        assert forall|k: Seq<char>| names.contains(k) <==> (pre.contains(k) || k == x) by {
            if names.contains(k) {
                let i = choose|i: int| 0 <= i < names.len() && names[i] == k;
                if i < names.len() - 1 {
                    assert(pre[i] == k);
                }
            }
            if pre.contains(k) {
                let i = choose|i: int| 0 <= i < pre.len() && pre[i] == k;
                assert(names[i] == k);
            }
            if k == x {
                assert(names[names.len() - 1] == k);
            }
        }
        if is_enabled_in(m, x) && !pre.contains(x) {
            assert(enabled_among(m, names) =~= enabled_among(m, pre).insert(x));
        } else {
            assert(enabled_among(m, names) =~= enabled_among(m, pre));
        }
        assert(is_enabled_in(p, x) == (is_enabled_in(m, x) && !pre.contains(x)));
        let after = switch_all(m, names, false);
        assert(after == with_enabled(p, x, false));
        assert forall|k: Seq<char>|
            #[trigger] is_enabled_in(after, k) <==> is_enabled_in(m, k) && !names.contains(k) by {
            assert(is_enabled_in(p, k) <==> is_enabled_in(m, k) && !pre.contains(k));
            if k != x && p.contains_key(x) {
                assert(after[k] == p[k]);
            }
        }
    }
}

/// The names of the tools `ts`, in order.
pub open spec fn tool_names(ts: Seq<Tool>) -> Seq<Seq<char>> {
    Seq::new(ts.len(), |i: int| ts[i].name@)
}

/// A listing of the enabled tools is determined by the registry: any two
/// listings of the enabled tools of `m` are the same list. So the tools
/// that [`McpServer::dispatch`] lists are exactly those that
/// [`ToolRegistry::list_tools`] gives, followed in lazy mode by
/// `manage_tools`.
pub proof fn law_listing_is_unique(m: Map<Seq<char>, ToolEntry>, ts1: Seq<Tool>, ts2: Seq<Tool>)
    requires
        lists_enabled(m, ts1),
        lists_enabled(m, ts2),
    ensures
        ts1 == ts2,
{
    let n1 = tool_names(ts1);
    let n2 = tool_names(ts2);
    assert forall|i: int| 0 <= i < n1.len() implies n2.contains(#[trigger] n1[i]) by {
        let k = ts1[i].name@;
        assert(m.contains_key(k) && m[k].enabled);
        let j = choose|j: int| 0 <= j < ts2.len() && ts2[j].name@ == k;
        assert(n2[j] == k);
    }
    assert forall|i: int| 0 <= i < n2.len() implies n1.contains(#[trigger] n2[i]) by {
        let k = ts2[i].name@;
        assert(m.contains_key(k) && m[k].enabled);
        let j = choose|j: int| 0 <= j < ts1.len() && ts1[j].name@ == k;
        assert(n1[j] == k);
    }
    assert forall|i: int, j: int| 0 <= i < j < n1.len() implies lex_lt(#[trigger] n1[i], #[trigger] n1[j]) by {
        assert(lex_lt(ts1[i].name@, ts1[j].name@));
    }
    assert forall|i: int, j: int| 0 <= i < j < n2.len() implies lex_lt(#[trigger] n2[i], #[trigger] n2[j]) by {
        assert(lex_lt(ts2[i].name@, ts2[j].name@));
    }
    lemma_increasing_texts_unique(n1, n2);
    assert(ts1.len() == n1.len() && n1.len() == n2.len() && n2.len() == ts2.len());
    assert forall|i: int| 0 <= i < ts1.len() implies ts1[i] == ts2[i] by {
        assert(n1[i] == n2[i]);
        assert(m[ts1[i].name@].tool == ts1[i]);
        assert(m[ts2[i].name@].tool == ts2[i]);
    }
    assert(ts1 =~= ts2);
}

/// On-demand loading: once `manage_tools` has enabled a registered tool,
/// every listing of the registry shows it.
pub proof fn law_enabled_tools_are_listed(
    m: Map<Seq<char>, ToolEntry>,
    names: Seq<Seq<char>>,
    k: Seq<char>,
    ts: Seq<Tool>,
)
    requires
        names.contains(k),
        m.contains_key(k),
        lists_enabled(switch_all(m, names, true), ts),
    ensures
        exists|i: int| 0 <= i < ts.len() && ts[i].name@ == k,
{
    law_switch_keeps_registered(m, names, true);
    law_switched_tools_take_the_requested_state(m, names, true);
    let j = choose|j: int| 0 <= j < names.len() && names[j] == k;
    let after = switch_all(m, names, true);
    assert(after.contains_key(k));
    assert(after[names[j]].enabled);
    assert(after[k].enabled);
}

} // verus!
