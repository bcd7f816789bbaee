//! Deployment configuration: where each step runs, the overrides given on
//! the command line, and the configurations found in a flake.
use vstd::prelude::*;

use crate::errors::DeployError;
use crate::text::{decimal, copy_str, push_decimal};

verus! {

/// A copy of an optional string.
pub fn copy_opt_string(s: &Option<String>) -> (res: Option<String>)
    ensures
        res == *s,
{
    match s {
        Some(v) => Some(v.clone()),
        None => None,
    }
}

/// Whether two optional strings are equal.
pub fn opt_string_eq(a: &Option<String>, b: &Option<String>) -> (res: bool)
    ensures
        res == (opt_view(*a) == opt_view(*b)),
{
    match (a, b) {
        (Some(x), Some(y)) => x.eq(y),
        (None, None) => true,
        _ => false,
    }
}

/// The character view of an optional string.
pub open spec fn opt_view(s: Option<String>) -> Option<Seq<char>> {
    match s {
        Some(v) => Some(v@),
        None => None,
    }
}

/// Where an operation is executed.
pub enum ExecutionTarget {
    /// On this machine.
    Local,
    /// Via SSH on a remote host.
    Ssh { host: String, username: Option<String>, port: Option<u16> },
}

impl Clone for ExecutionTarget {
    fn clone(&self) -> (res: Self)
        ensures
            res == *self,
    {
        match self {
            ExecutionTarget::Local => ExecutionTarget::Local,
            ExecutionTarget::Ssh { host, username, port } => ExecutionTarget::Ssh {
                host: host.clone(),
                username: copy_opt_string(username),
                port: *port,
            },
        }
    }
}

/// The text that names a target in messages: `local`, or
/// `[user@]host[:port]`.
pub open spec fn host_identifier_of(t: ExecutionTarget) -> Seq<char> {
    match t {
        ExecutionTarget::Local => "local"@,
        ExecutionTarget::Ssh { host, username, port } => {
            let base = match username {
                Some(u) => u@ + "@"@ + host@,
                None => host@,
            };
            match port {
                Some(p) => base + ":"@ + decimal(p as nat),
                None => base,
            }
        },
    }
}

impl ExecutionTarget {
    /// Whether the target is this machine.
    pub fn is_local(&self) -> (res: bool)
        ensures
            res == (*self is Local),
    {
        match self {
            ExecutionTarget::Local => true,
            _ => false,
        }
    }

    /// The text that names this target in messages.
    pub fn host_identifier(&self) -> (res: String)
        ensures
            res@ == host_identifier_of(*self),
    {
        match self {
            ExecutionTarget::Local => copy_str("local"),
            ExecutionTarget::Ssh { host, username, port } => {
                let mut identifier = match username {
                    Some(u) => {
                        let mut s = u.clone();
                        s.append("@");
                        s.append(host.as_str());
                        s
                    },
                    None => host.clone(),
                };
                match port {
                    Some(p) => {
                        identifier.append(":");
                        push_decimal(&mut identifier, *p as u64);
                    },
                    None => {},
                }
                identifier
            },
        }
    }
}

/// Copy of an optional target.
pub fn copy_opt_target(t: &Option<ExecutionTarget>) -> (res: Option<ExecutionTarget>)
    ensures
        res == *t,
{
    match t {
        Some(v) => Some(v.clone()),
        None => None,
    }
}

/// Where the steps of one deployment run.
pub struct DeploymentConfig {
    /// Where to evaluate the Nix expressions.
    pub evaluation_host: Option<ExecutionTarget>,
    /// Where to build the Nix derivations.
    pub build_host: Option<ExecutionTarget>,
    /// The host that receives the configuration.
    pub target_host: ExecutionTarget,
    /// Whether to activate with `test` instead of `switch`.
    pub dry_run: bool,
    /// Timeout for operations, in seconds.
    pub timeout_secs: Option<u64>,
}

impl Clone for DeploymentConfig {
    fn clone(&self) -> (res: Self)
        ensures
            res == *self,
    {
        DeploymentConfig {
            evaluation_host: copy_opt_target(&self.evaluation_host),
            build_host: copy_opt_target(&self.build_host),
            target_host: self.target_host.clone(),
            dry_run: self.dry_run,
            timeout_secs: self.timeout_secs,
        }
    }
}

/// How much output a deployment shows.
#[derive(Clone, Copy, Debug, PartialEq, Eq, Structural)]
pub enum Verbosity {
    /// Progress bars with summary information.
    Progress,
    /// All command output, prefixed by host.
    Detailed,
}

/// Command-line options that affect every deployment.
pub struct DeploymentOptions {
    /// Evaluation host for all configurations.
    pub evaluation_host_override: Option<ExecutionTarget>,
    /// Build host for all configurations.
    pub build_host_override: Option<ExecutionTarget>,
    /// Whether to perform a dry run.
    pub dry_run: bool,
    /// How much output to show.
    pub verbosity: Verbosity,
    /// Maximum number of concurrent operations.
    pub max_concurrent: Option<usize>,
    /// Timeout for operations, in seconds.
    pub timeout_secs: Option<u64>,
}

/// The default operation timeout: ten minutes.
pub const DEFAULT_TIMEOUT_SECS: u64 = 600;

impl Default for DeploymentOptions {
    fn default() -> (res: Self)
        ensures
            res.evaluation_host_override is None,
            res.build_host_override is None,
            !res.dry_run,
            res.verbosity == Verbosity::Progress,
            res.max_concurrent is None,
            res.timeout_secs == Some(DEFAULT_TIMEOUT_SECS),
    {
        DeploymentOptions {
            evaluation_host_override: None,
            build_host_override: None,
            dry_run: false,
            verbosity: Verbosity::Progress,
            max_concurrent: None,
            timeout_secs: Some(DEFAULT_TIMEOUT_SECS),
        }
    }
}

/// The configuration after the command-line overrides: each override that
/// is given replaces the configured value, a dry run is switched on but
/// never off.
pub open spec fn overridden(c: DeploymentConfig, o: DeploymentOptions) -> DeploymentConfig {
    DeploymentConfig {
        evaluation_host: match o.evaluation_host_override {
            Some(h) => Some(h),
            None => c.evaluation_host,
        },
        build_host: match o.build_host_override {
            Some(h) => Some(h),
            None => c.build_host,
        },
        target_host: c.target_host,
        dry_run: c.dry_run || o.dry_run,
        timeout_secs: match o.timeout_secs {
            Some(t) => Some(t),
            None => c.timeout_secs,
        },
    }
}

/// Where evaluation happens: the evaluation host, else the target.
pub open spec fn effective_evaluation_of(c: DeploymentConfig) -> ExecutionTarget {
    match c.evaluation_host {
        Some(h) => h,
        None => c.target_host,
    }
}

/// Where building happens: the build host, else where evaluation happens.
pub open spec fn effective_build_of(c: DeploymentConfig) -> ExecutionTarget {
    match c.build_host {
        Some(h) => h,
        None => effective_evaluation_of(c),
    }
}

impl DeploymentConfig {
    /// A configuration that does everything on `target_host`, with the
    /// default timeout.
    pub fn new(target_host: ExecutionTarget) -> (res: Self)
        ensures
            res.evaluation_host is None,
            res.build_host is None,
            res.target_host == target_host,
            !res.dry_run,
            res.timeout_secs == Some(DEFAULT_TIMEOUT_SECS),
    {
        DeploymentConfig {
            evaluation_host: None,
            build_host: None,
            target_host,
            dry_run: false,
            timeout_secs: Some(DEFAULT_TIMEOUT_SECS),
        }
    }

    /// Applies the command-line overrides to this configuration.
    pub fn apply_overrides(&mut self, options: &DeploymentOptions)
        ensures
            *final(self) == overridden(*old(self), *options),
    {
        match &options.evaluation_host_override {
            Some(h) => {
                self.evaluation_host = Some(h.clone());
            },
            None => {},
        }
        match &options.build_host_override {
            Some(h) => {
                self.build_host = Some(h.clone());
            },
            None => {},
        }
        if options.dry_run {
            self.dry_run = true;
        }
        match options.timeout_secs {
            Some(t) => {
                self.timeout_secs = Some(t);
            },
            None => {},
        }
    }

    /// Where evaluation happens (the target, unless an evaluation host is set).
    pub fn effective_evaluation_host(&self) -> (res: &ExecutionTarget)
        ensures
            *res == effective_evaluation_of(*self),
    {
        match &self.evaluation_host {
            Some(h) => h,
            None => &self.target_host,
        }
    }

    /// Where building happens (where evaluation happens, unless a build
    /// host is set).
    pub fn effective_build_host(&self) -> (res: &ExecutionTarget)
        ensures
            *res == effective_build_of(*self),
    {
        match &self.build_host {
            Some(h) => h,
            None => self.effective_evaluation_host(),
        }
    }
}

/// Applying the same overrides twice gives what applying them once gives.
pub proof fn lemma_overrides_idempotent(c: DeploymentConfig, o: DeploymentOptions)
    ensures
        overridden(overridden(c, o), o) == overridden(c, o),
{
}

/// Overrides that give nothing leave a configuration as it is.
pub proof fn lemma_empty_overrides_keep_config(c: DeploymentConfig, o: DeploymentOptions)
    requires
        o.evaluation_host_override is None,
        o.build_host_override is None,
        !o.dry_run,
        o.timeout_secs is None,
    ensures
        overridden(c, o) == c,
{
}

/// After the overrides, a given evaluation host is where evaluation happens,
/// and a given build host is where building happens; the target host is
/// never overridden.
pub proof fn lemma_overrides_take_effect(c: DeploymentConfig, o: DeploymentOptions)
    ensures
        o.evaluation_host_override matches Some(h) ==> effective_evaluation_of(overridden(c, o))
            == h,
        o.build_host_override matches Some(h) ==> effective_build_of(overridden(c, o)) == h,
        overridden(c, o).target_host == c.target_host,
        o.dry_run ==> overridden(c, o).dry_run,
{
}

/// With no evaluation or build host set, every step runs on the target.
pub proof fn lemma_defaults_fall_back_to_target(c: DeploymentConfig)
    requires
        c.evaluation_host is None,
        c.build_host is None,
    ensures
        effective_evaluation_of(c) == c.target_host,
        effective_build_of(c) == c.target_host,
{
}

/// The entries of the JSON object `ips` of a configuration: each key with
/// the value's text when the value is a JSON string, `None` otherwise.
pub struct IpEntry {
    pub key: String,
    pub value: Option<String>,
}

impl Clone for IpEntry {
    fn clone(&self) -> (res: Self)
        ensures
            res == *self,
    {
        IpEntry { key: self.key.clone(), value: copy_opt_string(&self.value) }
    }
}

/// The first entry for `key`, if any.
pub open spec fn ip_lookup(ips: Seq<IpEntry>, key: Seq<char>) -> Option<Option<String>>
    decreases ips.len(),
{
    if ips.len() == 0 {
        None
    } else if ips[0].key@ == key {
        Some(ips[0].value)
    } else {
        ip_lookup(ips.drop_first(), key)
    }
}

/// What is found under a key is the value of the first entry with the key:
/// nothing exactly when no entry has the key; otherwise some entry has the
/// key and that value, and no entry before it has the key.
pub proof fn lemma_ip_lookup(ips: Seq<IpEntry>, key: Seq<char>)
    ensures
        ip_lookup(ips, key) is None <==> forall|j: int|
            0 <= j < ips.len() ==> #[trigger] ips[j].key@ != key,
        ip_lookup(ips, key) matches Some(v) ==> exists|i: int|
            0 <= i < ips.len() && #[trigger] ips[i].key@ == key && ips[i].value == v && forall|j: int|
                0 <= j < i ==> #[trigger] ips[j].key@ != key,
    decreases ips.len(),
{
    if ips.len() > 0 {
        let rest = ips.drop_first();
        lemma_ip_lookup(rest, key);
        assert forall|j: int| 0 < j < ips.len() implies #[trigger] ips[j].key@ == rest[j - 1].key@ by {}
        if ips[0].key@ == key {
            assert(ips[0].key@ == key);
        } else {
            if ip_lookup(rest, key) is None {
                assert forall|j: int| 0 <= j < ips.len() implies #[trigger] ips[j].key@ != key by {
                    if j > 0 {
                        assert(rest[j - 1].key@ != key);
                    }
                }
            } else {
                let v = ip_lookup(rest, key)->0;
                let k = choose|k: int|
                    0 <= k < rest.len() && #[trigger] rest[k].key@ == key && rest[k].value == v
                        && forall|j: int| 0 <= j < k ==> #[trigger] rest[j].key@ != key;
                assert(ips[k + 1].key@ == key);
                assert forall|j: int| 0 <= j < k + 1 implies #[trigger] ips[j].key@ != key by {
                    if j > 0 {
                        assert(rest[j - 1].key@ != key);
                    }
                }
            }
        }
    }
}

/// The first entry under `primary` holds the string `host`.
pub open spec fn primary_entry_is(ips: Seq<IpEntry>, host: String) -> bool {
    exists|i: int|
        0 <= i < ips.len() && #[trigger] ips[i].key@ == "primary"@ && ips[i].value == Some(host)
            && forall|j: int| 0 <= j < i ==> #[trigger] ips[j].key@ != "primary"@
}

/// The string under `primary` in the `ips` object, if there is one.
pub open spec fn primary_ip_of(ips: Seq<IpEntry>) -> Option<String> {
    match ip_lookup(ips, "primary"@) {
        Some(Some(v)) => Some(v),
        _ => None,
    }
}

/// The primary address among `ips`: the string value under `primary`.
pub fn primary_ip(ips: &Vec<IpEntry>) -> (res: Option<String>)
    ensures
        res == primary_ip_of(ips@),
{
    let key = copy_str("primary");
    let mut i: usize = 0;
    assert(ips@.skip(0) =~= ips@);
    while i < ips.len()
        invariant
            i <= ips@.len(),
            key@ == "primary"@,
            ip_lookup(ips@, key@) == ip_lookup(ips@.skip(i as int), key@),
        decreases ips@.len() - i,
    {
        assert(ips@.skip(i as int).drop_first() =~= ips@.skip(i + 1));
        if ips[i].key == key {
            return copy_opt_string(&ips[i].value);
        }
        i = i + 1;
    }
    None
}

/// Metadata of a NixOS configuration, as the flake declares it.
pub struct ConfigurationMetadata {
    pub system: String,
    pub ips: Vec<IpEntry>,
    pub tags: Vec<String>,
    /// Deployment settings that replace the defaults, if given.
    pub deploy: Option<DeploymentConfig>,
}

impl View for ConfigurationMetadata {
    type V = (String, Seq<IpEntry>, Seq<String>, Option<DeploymentConfig>);

    /// The system, addresses, tags and deployment settings.
    open spec fn view(&self) -> (String, Seq<IpEntry>, Seq<String>, Option<DeploymentConfig>) {
        (self.system, self.ips@, self.tags@, self.deploy)
    }
}

impl Clone for ConfigurationMetadata {
    fn clone(&self) -> (res: Self)
        ensures
            res@ == self@,
    {
        let ips = self.ips.clone();
        assert(ips@ =~= self.ips@);
        let tags = self.tags.clone();
        assert(tags@ =~= self.tags@);
        ConfigurationMetadata {
            system: self.system.clone(),
            ips,
            tags,
            deploy: match &self.deploy {
                Some(d) => Some(d.clone()),
                None => None,
            },
        }
    }
}

/// A NixOS configuration with its metadata and paths.
pub struct NixosConfiguration {
    pub name: String,
    pub metadata: ConfigurationMetadata,
    pub deployment_config: DeploymentConfig,
    pub drv_path: Option<String>,
    pub out_path: Option<String>,
}

impl Clone for NixosConfiguration {
    fn clone(&self) -> (res: Self)
        ensures
            res.name == self.name,
            res.metadata@ == self.metadata@,
            res.deployment_config == self.deployment_config,
            res.drv_path == self.drv_path,
            res.out_path == self.out_path,
    {
        NixosConfiguration {
            name: self.name.clone(),
            metadata: self.metadata.clone(),
            deployment_config: self.deployment_config.clone(),
            drv_path: copy_opt_string(&self.drv_path),
            out_path: copy_opt_string(&self.out_path),
        }
    }
}

/// The deployment settings of a configuration: those of its metadata, or
/// else SSH to `ip` with the defaults.
pub open spec fn deployment_config_for(metadata: ConfigurationMetadata, ip: String) -> DeploymentConfig {
    match metadata.deploy {
        Some(d) => d,
        None => DeploymentConfig {
            evaluation_host: None,
            build_host: None,
            target_host: ExecutionTarget::Ssh { host: ip, username: None, port: None },
            dry_run: false,
            timeout_secs: Some(DEFAULT_TIMEOUT_SECS),
        },
    }
}

/// The configuration `name` with `metadata`, when it has a primary address.
pub open spec fn new_configuration(name: String, metadata: ConfigurationMetadata) -> Option<
    NixosConfiguration,
> {
    match primary_ip_of(metadata.ips@) {
        Some(ip) => Some(
            NixosConfiguration {
                name,
                metadata,
                deployment_config: deployment_config_for(metadata, ip),
                drv_path: None,
                out_path: None,
            },
        ),
        None => None,
    }
}

/// A configuration made from metadata that carries deployment settings is
/// deployed exactly with those settings (its dry run and timeout
/// included); without them, over SSH to its primary address, with the
/// default timeout and no dry run.
pub proof fn lemma_configuration_deploys_as_its_metadata_says(
    name: String,
    metadata: ConfigurationMetadata,
)
    ensures
        new_configuration(name, metadata) matches Some(c) ==> match metadata.deploy {
            Some(d) => c.deployment_config == d,
            None => c.deployment_config.target_host matches ExecutionTarget::Ssh {
                host,
                username: None,
                port: None,
            } && primary_entry_is(metadata.ips@, host) && !c.deployment_config.dry_run
                && c.deployment_config.timeout_secs == Some(600u64)
                && c.deployment_config.evaluation_host is None
                && c.deployment_config.build_host is None,
        },
{
    lemma_ip_lookup(metadata.ips@, "primary"@);
}

/// The message for a configuration without a primary address.
pub open spec fn missing_primary_message(name: Seq<char>) -> Seq<char> {
    "Configuration '"@ + name + "' missing primary IP"@
}

impl NixosConfiguration {
    /// A configuration named `name`: deployed as its metadata says, or else
    /// over SSH to its primary address. Fails when no primary address is
    /// given, also when the metadata carries deployment settings.
    pub fn new(name: String, metadata: ConfigurationMetadata) -> (res: Result<Self, DeployError>)
        ensures
            match new_configuration(name, metadata) {
                None => res matches Err(DeployError::InvalidConfiguration { message })
                    && message@ == missing_primary_message(name@),
                Some(c) => res == Ok::<Self, DeployError>(c),
            },
            res is Ok <==> exists|h: String| primary_entry_is(metadata.ips@, h),
            res matches Ok(c) ==> c.name == name && c.metadata == metadata && c.drv_path is None
                && c.out_path is None,
            metadata.deploy matches Some(d) ==> (res matches Ok(c) ==> c.deployment_config == d),
            metadata.deploy is None ==> (res matches Ok(c) ==> (c.deployment_config.target_host matches ExecutionTarget::Ssh {
                host,
                username: None,
                port: None,
            } && primary_entry_is(metadata.ips@, host)) && c.deployment_config.evaluation_host is None
                && c.deployment_config.build_host is None && !c.deployment_config.dry_run
                && c.deployment_config.timeout_secs == Some(600u64)),
    {
        proof {
            lemma_ip_lookup(metadata.ips@, "primary"@);
            match ip_lookup(metadata.ips@, "primary"@) {
                Some(Some(h)) => {
                    assert(primary_entry_is(metadata.ips@, h));
                },
                _ => {
                    assert forall|h: String| !primary_entry_is(metadata.ips@, h) by {
                        if primary_entry_is(metadata.ips@, h) {
                            let i = choose|i: int|
                                0 <= i < metadata.ips@.len() && #[trigger] metadata.ips@[i].key@
                                    == "primary"@ && metadata.ips@[i].value == Some(h) && forall|j: int|
                                    0 <= j < i ==> #[trigger] metadata.ips@[j].key@ != "primary"@;
                            let w = choose|w: int|
                                0 <= w < metadata.ips@.len() && #[trigger] metadata.ips@[w].key@
                                    == "primary"@ && metadata.ips@[w].value == ip_lookup(
                                    metadata.ips@,
                                    "primary"@,
                                )->0 && forall|j: int|
                                    0 <= j < w ==> #[trigger] metadata.ips@[j].key@ != "primary"@;
                            if w < i {
                                assert(metadata.ips@[w].key@ != "primary"@);
                            } else if i < w {
                                assert(metadata.ips@[i].key@ != "primary"@);
                            }
                        }
                    }
                },
            }
        }
        let primary = primary_ip(&metadata.ips);
        match primary {
            None => {
                let mut message = copy_str("Configuration '");
                message.append(name.as_str());
                message.append("' missing primary IP");
                Err(DeployError::invalid_configuration(message))
            },
            Some(ip) => {
                let target_host = ExecutionTarget::Ssh { host: ip, username: None, port: None };
                let deployment_config = match &metadata.deploy {
                    Some(d) => d.clone(),
                    None => DeploymentConfig::new(target_host),
                };
                Ok(NixosConfiguration {
                    name,
                    metadata,
                    deployment_config,
                    drv_path: None,
                    out_path: None,
                })
            },
        }
    }

    /// This configuration with the given derivation and output paths.
    pub fn with_paths(self, drv_path: Option<String>, out_path: Option<String>) -> (res: Self)
        ensures
            res.name == self.name,
            res.metadata == self.metadata,
            res.deployment_config == self.deployment_config,
            res.drv_path == drv_path,
            res.out_path == out_path,
    {
        NixosConfiguration { drv_path, out_path, ..self }
    }
}

/// The outputs of an evaluated derivation.
pub struct NixOutputs {
    pub out: String,
}

/// One result line of `nix-eval-jobs`.
pub struct NixEvalJobOutput {
    pub drv_path: Option<String>,
    pub outputs: Option<NixOutputs>,
    pub attr: Option<String>,
    pub name: Option<String>,
    pub system: Option<String>,
}

/// Progress of one configuration through a deployment.
pub enum ConfigurationStatus {
    Started(String),
    Evaluating,
    Evaluated { drv_path: String },
    Building,
    Built { result: String },
    CopyingClosure,
    Activating,
    Activated,
    Error { error: String, error_lines: Vec<String> },
}

} // verus!
