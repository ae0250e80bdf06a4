//! The server configuration: the AdGuard Home instances it manages, the
//! replicas it synchronises, and the transport settings.
//!
//! Reading the configuration from files, the environment and the command
//! line is done outside the verified library; here the loaded values are
//! completed and queried.
use vstd::prelude::*;
use crate::error::Error;
use crate::text::{clone_opt_string, decimal, decimal_string, push_decimal};

verus! {

/// One AdGuard Home instance. `url` is the base URL, such as
/// `http://192.168.1.10:8080`.
#[derive(Debug, Clone)]
pub struct InstanceConfig {
    pub name: Option<String>,
    pub url: String,
    pub api_key: Option<String>,
    pub username: Option<String>,
    pub password: Option<String>,
    pub no_verify_ssl: Option<bool>,
}

impl InstanceConfig {
    /// A copy of the instance.
    pub fn duplicate(&self) -> (res: InstanceConfig)
        ensures
            res == *self,
    {
        InstanceConfig {
            name: clone_opt_string(&self.name),
            url: self.url.clone(),
            api_key: clone_opt_string(&self.api_key),
            username: clone_opt_string(&self.username),
            password: clone_opt_string(&self.password),
            no_verify_ssl: self.no_verify_ssl,
        }
    }
}

impl Default for InstanceConfig {
    fn default() -> (res: InstanceConfig)
        ensures
            res.name is None,
            res.url@ == Seq::<char>::empty(),
            res.api_key is None,
            res.username is None,
            res.password is None,
            res.no_verify_ssl is None,
    {
        InstanceConfig {
            name: None,
            url: String::new(),
            api_key: None,
            username: None,
            password: None,
            no_verify_ssl: None,
        }
    }
}

/// A replica that receives the configuration of the master instance.
#[derive(Debug, Clone)]
pub struct ReplicaConfig {
    pub url: String,
    pub api_key: String,
}

impl ReplicaConfig {
    /// A copy of the replica.
    pub fn duplicate(&self) -> (res: ReplicaConfig)
        ensures
            res == *self,
    {
        ReplicaConfig { url: self.url.clone(), api_key: self.api_key.clone() }
    }
}

/// The whole configuration. `adguard_host`, `adguard_port`,
/// `adguard_username` and `adguard_password` describe a single instance in
/// the legacy form; `instances` lists all instances, the first being the
/// default one.
#[derive(Debug, Clone)]
pub struct AppConfig {
    pub adguard_host: String,
    pub adguard_port: u16,
    pub adguard_username: Option<String>,
    pub adguard_password: Option<String>,
    pub mcp_transport: String,
    pub lazy_mode: bool,
    pub http_port: u16,
    pub http_auth_token: Option<String>,
    pub log_level: String,
    pub no_verify_ssl: bool,
    pub instances: Vec<InstanceConfig>,
    pub replicas: Vec<ReplicaConfig>,
    pub sync_interval_seconds: u64,
    pub default_sync_mode: String,
}

/// The transport used unless configured otherwise.
pub fn default_transport() -> (res: String)
    ensures
        res@ == "stdio"@,
{
    String::from_str("stdio")
}

/// The port of the HTTP transport unless configured otherwise.
pub fn default_http_port() -> (port: u16)
    ensures
        port == 3000,
{
    3000
}

/// The log level unless configured otherwise.
pub fn default_log_level() -> (res: String)
    ensures
        res@ == "info"@,
{
    String::from_str("info")
}

/// The port of the AdGuard Home web interface unless configured otherwise.
pub fn default_adguard_port() -> (port: u16)
    ensures
        port == 3000,
{
    3000
}

/// The period of the background synchronisation unless configured
/// otherwise, in seconds.
pub fn default_sync_interval_seconds() -> (secs: u64)
    ensures
        secs == 3600,
{
    3600
}

/// The synchronisation mode unless configured otherwise.
pub fn default_sync_mode() -> (res: String)
    ensures
        res@ == "additive-merge"@,
{
    String::from_str("additive-merge")
}

/// The base URL of the instance described by the legacy host and port.
pub open spec fn legacy_url(host: Seq<char>, port: u16) -> Seq<char> {
    "http://"@ + host + ":"@ + decimal(port as nat)
}

/// Whether `inst` is selected by `id`: its name is `id`.
pub open spec fn instance_named(inst: InstanceConfig, id: Seq<char>) -> bool {
    inst.name matches Some(n) && n@ == id
}

/// The instance that `id` selects in `instances`: the first one named `id`;
/// failing that, the one whose index is written `id` in decimal.
pub open spec fn selected_index(instances: Seq<InstanceConfig>, id: Seq<char>) -> Option<int> {
    if exists|i: int| 0 <= i < instances.len() && instance_named(instances[i], id) {
        Some(
            choose|i: int|
                0 <= i < instances.len() && instance_named(instances[i], id) && forall|j: int|
                    0 <= j < i ==> !instance_named(instances[j], id),
        )
    } else if exists|i: int| 0 <= i < instances.len() && #[trigger] decimal(i as nat) == id {
        Some(choose|i: int| 0 <= i < instances.len() && #[trigger] decimal(i as nat) == id)
    } else {
        None
    }
}

/// The character of one decimal digit.
spec fn digit_char(d: nat) -> char {
    if d == 0 {
        '0'
    } else if d == 1 {
        '1'
    } else if d == 2 {
        '2'
    } else if d == 3 {
        '3'
    } else if d == 4 {
        '4'
    } else if d == 5 {
        '5'
    } else if d == 6 {
        '6'
    } else if d == 7 {
        '7'
    } else if d == 8 {
        '8'
    } else {
        '9'
    }
}

proof fn lemma_digit_text(d: nat)
    ensures
        crate::text::digit_text(d) == seq![digit_char(d)],
{
    reveal_strlit("0");
    reveal_strlit("1");
    reveal_strlit("2");
    reveal_strlit("3");
    reveal_strlit("4");
    reveal_strlit("5");
    reveal_strlit("6");
    reveal_strlit("7");
    reveal_strlit("8");
    reveal_strlit("9");
    assert(crate::text::digit_text(d) =~= seq![digit_char(d)]);
}

proof fn lemma_decimal_len(n: nat)
    ensures
        decimal(n).len() >= 1,
        n >= 10 ==> decimal(n).len() >= 2,
        n < 10 ==> decimal(n).len() == 1,
    decreases n,
{
    lemma_digit_text(n % 10);
    lemma_digit_text(n);
    if n >= 10 {
        lemma_decimal_len(n / 10);
    }
}

/// Two different numbers have different decimal renderings.
proof fn lemma_decimal_injective(a: nat, b: nat)
    requires
        decimal(a) == decimal(b),
    ensures
        a == b,
    decreases a + b,
{
    lemma_decimal_len(a);
    lemma_decimal_len(b);
    if a < 10 && b < 10 {
        lemma_digit_text(a);
        lemma_digit_text(b);
        assert(decimal(a)[0] == digit_char(a));
        assert(decimal(b)[0] == digit_char(b));
    } else if a >= 10 && b >= 10 {
        let da = decimal(a);
        let db = decimal(b);
        lemma_digit_text(a % 10);
        lemma_digit_text(b % 10);
        assert(da == decimal(a / 10) + seq![digit_char(a % 10)]);
        assert(db == decimal(b / 10) + seq![digit_char(b % 10)]);
        assert(decimal(a / 10) =~= da.drop_last());
        assert(decimal(b / 10) =~= db.drop_last());
        assert(da.last() == digit_char(a % 10));
        assert(db.last() == digit_char(b % 10));
        lemma_decimal_injective(a / 10, b / 10);
    }
}

/// An index written `id`, when no instance is named `id`, is the one `id`
/// selects.
proof fn lemma_selected_by_index(instances: Seq<InstanceConfig>, id: Seq<char>, k: int)
    requires
        0 <= k < instances.len(),
        decimal(k as nat) == id,
        forall|j: int| 0 <= j < instances.len() ==> !instance_named(instances[j], id),
    ensures
        selected_index(instances, id) == Some(k),
{
    let c = choose|c: int| 0 <= c < instances.len() && #[trigger] decimal(c as nat) == id;
    lemma_decimal_injective(c as nat, k as nat);
}

impl Default for AppConfig {
    fn default() -> (res: AppConfig)
        ensures
            res.adguard_host@ == Seq::<char>::empty(),
            res.adguard_port == 3000,
            res.adguard_username is None,
            res.adguard_password is None,
            res.mcp_transport@ == "stdio"@,
            !res.lazy_mode,
            res.http_port == 3000,
            res.http_auth_token is None,
            res.log_level@ == "info"@,
            res.no_verify_ssl,
            res.instances@.len() == 0,
            res.replicas@.len() == 0,
            res.sync_interval_seconds == 3600,
            res.default_sync_mode@ == "additive-merge"@,
    {
        AppConfig {
            adguard_host: String::new(),
            adguard_port: default_adguard_port(),
            adguard_username: None,
            adguard_password: None,
            mcp_transport: default_transport(),
            lazy_mode: false,
            http_port: default_http_port(),
            http_auth_token: None,
            log_level: default_log_level(),
            no_verify_ssl: true,
            instances: Vec::new(),
            replicas: Vec::new(),
            sync_interval_seconds: default_sync_interval_seconds(),
            default_sync_mode: default_sync_mode(),
        }
    }
}

impl AppConfig {
    /// Completes the configuration: when no instance is listed, the legacy
    /// host, port and credentials become the single instance, named
    /// `default`. Fails when there is neither an instance nor a host.
    pub fn validate(&mut self) -> (res: Result<(), Error>)
        ensures
            old(self).instances@.len() > 0 ==> res is Ok && *final(self) == *old(self),
            old(self).instances@.len() == 0 && old(self).adguard_host@.len() == 0 ==> {
                &&& res matches Err(Error::Config(m))
                &&& m@ == "No AdGuard Home instance configured: set adguard_host or instances"@
                &&& *final(self) == *old(self)
            },
            old(self).instances@.len() == 0 && old(self).adguard_host@.len() > 0 ==> {
                &&& res is Ok
                &&& final(self).instances@.len() == 1
                &&& final(self).instances@[0].name matches Some(n) && n@ == "default"@
                &&& final(self).instances@[0].url@ == legacy_url(
                    old(self).adguard_host@,
                    old(self).adguard_port,
                )
                &&& final(self).instances@[0].api_key is None
                &&& final(self).instances@[0].username == old(self).adguard_username
                &&& final(self).instances@[0].password == old(self).adguard_password
                &&& final(self).instances@[0].no_verify_ssl == Some(old(self).no_verify_ssl)
                &&& final(self).adguard_host == old(self).adguard_host
                &&& final(self).adguard_port == old(self).adguard_port
                &&& final(self).replicas == old(self).replicas
                &&& final(self).lazy_mode == old(self).lazy_mode
                &&& final(self).default_sync_mode == old(self).default_sync_mode
            },
    {
        if self.instances.len() > 0 {
            return Ok(());
        }
        if self.adguard_host.unicode_len() == 0 {
            return Err(
                Error::Config(
                    String::from_str(
                        "No AdGuard Home instance configured: set adguard_host or instances",
                    ),
                ),
            );
        }
        let mut url = String::from_str("http://");
        url.append(self.adguard_host.as_str());
        url.append(":");
        push_decimal(&mut url, self.adguard_port as u64);
        let inst = InstanceConfig {
            name: Some(String::from_str("default")),
            url,
            api_key: None,
            username: self.adguard_username.clone(),
            password: self.adguard_password.clone(),
            no_verify_ssl: Some(self.no_verify_ssl),
        };
        self.instances.push(inst);
        Ok(())
    }

    /// The instance selected by `name`: the first instance when `name` is
    /// absent; otherwise the first instance with that name, or else the
    /// instance whose index is written `name` in decimal.
    pub fn get_instance(&self, name: Option<&str>) -> (res: Result<&InstanceConfig, Error>)
        ensures
            match name {
                None => match res {
                    Ok(inst) => self.instances@.len() > 0 && *inst == self.instances@[0],
                    Err(e) => self.instances@.len() == 0 && (e matches Error::Config(m) && m@
                        == "No instances configured"@),
                },
                Some(id) => match res {
                    Ok(inst) => (selected_index(self.instances@, id@) matches Some(i) && *inst
                        == self.instances@[i]),
                    Err(e) => selected_index(self.instances@, id@) is None && (e matches Error::Config(
                        m,
                    ) && m@ == "Instance not found: "@ + id@),
                },
            },
    {
        match name {
            None => {
                if self.instances.len() == 0 {
                    Err(Error::Config(String::from_str("No instances configured")))
                } else {
                    Ok(&self.instances[0])
                }
            },
            Some(id) => {
                let wanted = String::from_str(id);
                let n = self.instances.len();
                let mut i: usize = 0;
                while i < n
                    invariant
                        n == self.instances@.len(),
                        name == Some(id),
                        0 <= i <= n,
                        wanted@ == id@,
                        forall|j: int| 0 <= j < i ==> !instance_named(self.instances@[j], id@),
                    decreases n - i,
                {
                    let matched = match &self.instances[i].name {
                        Some(nm) => *nm == wanted,
                        None => false,
                    };
                    if matched {
                        proof {
                            let k = i as int;
                            assert(instance_named(self.instances@[k], id@));
                            let c = choose|c: int|
                                0 <= c < self.instances@.len() && instance_named(
                                    self.instances@[c],
                                    id@,
                                ) && forall|j: int|
                                    0 <= j < c ==> !instance_named(self.instances@[j], id@);
                            assert(0 <= c < self.instances@.len() && instance_named(
                                self.instances@[c],
                                id@,
                            ) && forall|j: int|
                                0 <= j < c ==> !instance_named(self.instances@[j], id@));
                            if c < k {
                                assert(!instance_named(self.instances@[c], id@));
                            }
                            if k < c {
                                assert(!instance_named(self.instances@[k], id@));
                            }
                        }
                        return Ok(&self.instances[i]);
                    }
                    i = i + 1;
                }
                let mut k: usize = 0;
                while k < n
                    invariant
                        n == self.instances@.len(),
                        name == Some(id),
                        0 <= k <= n,
                        wanted@ == id@,
                        forall|j: int| 0 <= j < n ==> !instance_named(self.instances@[j], id@),
                        forall|j: int| 0 <= j < k ==> #[trigger] decimal(j as nat) != id@,
                    decreases n - k,
                {
                    let rendered = decimal_string(k as u64);
                    if rendered == wanted {
                        proof {
                            assert(decimal(k as nat) == id@);
                            lemma_selected_by_index(self.instances@, id@, k as int);
                        }
                        return Ok(&self.instances[k]);
                    }
                    k = k + 1;
                }
                let mut msg = String::from_str("Instance not found: ");
                msg.append(id);
                Err(Error::Config(msg))
            },
        }
    }
}

} // verus!
