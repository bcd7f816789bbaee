//! Deploying a flake's configurations: which ones to deploy, how each one
//! moves from build to activation, and the summary at the end.
use vstd::prelude::*;

use crate::display::status_view;
use crate::errors::{error_tail_of, message_of, DeployError};
use crate::pipeline::{failure_count, lemma_failure_count_bounded};
use crate::text::{copy_str, decimal, push_decimal, views};
use crate::types::{
    effective_build_of, new_configuration, overridden, ConfigurationMetadata, ConfigurationStatus,
    DeploymentOptions, ExecutionTarget, NixEvalJobOutput, NixosConfiguration, Verbosity,
    copy_opt_string,
};

verus! {

/// Whether a configuration is wanted: every one when no names are given,
/// else those named.
pub open spec fn wanted(targets: Seq<String>, name: Seq<char>) -> bool {
    targets.len() == 0 || exists|i: int| 0 <= i < targets.len() && #[trigger] targets[i]@ == name
}

/// Whether `name` is among `targets`.
fn is_named(targets: &Vec<String>, name: &String) -> (res: bool)
    ensures
        res == (exists|i: int| 0 <= i < targets@.len() && #[trigger] targets@[i]@ == name@),
{
    let mut i: usize = 0;
    while i < targets.len()
        invariant
            i <= targets@.len(),
            forall|k: int| 0 <= k < i ==> #[trigger] targets@[k]@ != name@,
        decreases targets@.len() - i,
    {
        if targets[i].eq(name) {
            return true;
        }
        i = i + 1;
    }
    false
}

/// A configuration with the command-line overrides applied.
pub open spec fn with_overrides(c: NixosConfiguration, o: DeploymentOptions) -> NixosConfiguration {
    NixosConfiguration { deployment_config: overridden(c.deployment_config, o), ..c }
}

/// The wanted configurations that can be deployed, overrides applied, in
/// the order of the metadata.
pub open spec fn selected_configurations(
    entries: Seq<(String, ConfigurationMetadata)>,
    targets: Seq<String>,
    options: DeploymentOptions,
) -> Seq<NixosConfiguration>
    decreases entries.len(),
{
    if entries.len() == 0 {
        Seq::empty()
    } else {
        let rest = selected_configurations(entries.drop_last(), targets, options);
        let (name, meta) = entries.last();
        if wanted(targets, name@) {
            match new_configuration(name, meta) {
                Some(c) => rest.push(with_overrides(c, options)),
                None => rest,
            }
        } else {
            rest
        }
    }
}

/// The names of the wanted configurations that cannot be deployed, in the
/// order of the metadata.
pub open spec fn rejected_configurations(
    entries: Seq<(String, ConfigurationMetadata)>,
    targets: Seq<String>,
) -> Seq<Seq<char>>
    decreases entries.len(),
{
    if entries.len() == 0 {
        Seq::empty()
    } else {
        let rest = rejected_configurations(entries.drop_last(), targets);
        let (name, meta) = entries.last();
        if wanted(targets, name@) && new_configuration(name, meta) is None {
            rest.push(name@)
        } else {
            rest
        }
    }
}

/// The configurations to deploy: of the configurations in `metadata` that
/// `targets` names (all of them when it names none), those that can be
/// deployed, with the overrides of `options` applied; and, for each that
/// cannot, its name and why.
pub fn select_configurations(
    metadata: Vec<(String, ConfigurationMetadata)>,
    targets: &Vec<String>,
    options: &DeploymentOptions,
) -> (res: (Vec<NixosConfiguration>, Vec<(String, DeployError)>))
    ensures
        res.0@ == selected_configurations(metadata@, targets@, *options),
        res.1@.map_values(|e: (String, DeployError)| e.0@) == rejected_configurations(
            metadata@,
            targets@,
        ),
        forall|i: int|
            0 <= i < res.1@.len() ==> ((#[trigger] res.1@[i]).1 matches DeployError::InvalidConfiguration {
                message,
            } && message@ == crate::types::missing_primary_message(res.1@[i].0@)),
{
    let ghost all = metadata@;
    let mut configurations: Vec<NixosConfiguration> = Vec::new();
    let mut rejected: Vec<(String, DeployError)> = Vec::new();
    for entry in it: metadata
        invariant
            it.seq() == all,
            configurations@ == selected_configurations(all.take(it.index() as int), targets@, *options),
            rejected@.map_values(|e: (String, DeployError)| e.0@) == rejected_configurations(
                all.take(it.index() as int),
                targets@,
            ),
            forall|i: int|
                0 <= i < rejected@.len() ==> ((#[trigger] rejected@[i]).1 matches DeployError::InvalidConfiguration {
                    message,
                } && message@ == crate::types::missing_primary_message(rejected@[i].0@)),
    {
        assert(all.take(it.index() + 1).drop_last() =~= all.take(it.index() as int));
        let (name, meta) = entry;
        let want = targets.len() == 0 || is_named(targets, &name);
        if want {
            let kept_name = name.clone();
            match NixosConfiguration::new(name, meta) {
                Ok(mut config) => {
                    config.deployment_config.apply_overrides(options);
                    configurations.push(config);
                },
                Err(e) => {
                    let ghost before = rejected@;
                    rejected.push((kept_name, e));
                    assert(rejected@.map_values(|e: (String, DeployError)| e.0@) =~= before.map_values(
                        |e: (String, DeployError)| e.0@,
                    ).push(kept_name@));
                },
            }
        }
    }
    assert(all.take(all.len() as int) =~= all);
    (configurations, rejected)
}

/// How many configurations are wanted.
pub open spec fn wanted_count(entries: Seq<(String, ConfigurationMetadata)>, targets: Seq<String>) -> nat
    decreases entries.len(),
{
    if entries.len() == 0 {
        0
    } else {
        wanted_count(entries.drop_last(), targets) + if wanted(targets, entries.last().0@) {
            1nat
        } else {
            0nat
        }
    }
}

/// Every wanted configuration is either selected or rejected, and no other
/// is either.
pub proof fn lemma_selection_partitions(
    entries: Seq<(String, ConfigurationMetadata)>,
    targets: Seq<String>,
    options: DeploymentOptions,
)
    ensures
        selected_configurations(entries, targets, options).len() + rejected_configurations(
            entries,
            targets,
        ).len() == wanted_count(entries, targets),
    decreases entries.len(),
{
    if entries.len() > 0 {
        lemma_selection_partitions(entries.drop_last(), targets, options);
    }
}

/// With no names given, every configuration is wanted.
pub proof fn lemma_no_targets_wants_all(entries: Seq<(String, ConfigurationMetadata)>)
    ensures
        wanted_count(entries, Seq::empty()) == entries.len(),
    decreases entries.len(),
{
    if entries.len() > 0 {
        lemma_no_targets_wants_all(entries.drop_last());
    }
}

/// The first configuration named `name`, by position.
pub open spec fn first_config_named(configs: Seq<NixosConfiguration>, name: Seq<char>) -> Option<int>
    decreases configs.len(),
{
    if configs.len() == 0 {
        None
    } else if configs[0].name@ == name {
        Some(0)
    } else {
        match first_config_named(configs.drop_first(), name) {
            Some(i) => Some(i + 1),
            None => None,
        }
    }
}

/// The configuration found for a name is the first one that has it: there
/// is none exactly when no configuration has the name; otherwise the one
/// found has the name and none before it has.
pub proof fn lemma_first_config_named(configs: Seq<NixosConfiguration>, name: Seq<char>)
    ensures
        first_config_named(configs, name) is None <==> forall|j: int|
            0 <= j < configs.len() ==> #[trigger] configs[j].name@ != name,
        first_config_named(configs, name) matches Some(i) ==> 0 <= i < configs.len()
            && configs[i].name@ == name && forall|j: int|
            0 <= j < i ==> #[trigger] configs[j].name@ != name,
    decreases configs.len(),
{
    if configs.len() > 0 {
        let rest = configs.drop_first();
        lemma_first_config_named(rest, name);
        assert forall|j: int| 0 < j < configs.len() implies #[trigger] configs[j].name@ == rest[j
            - 1].name@ by {}
        if configs[0].name@ != name {
            if first_config_named(rest, name) is None {
                assert forall|j: int| 0 <= j < configs.len() implies #[trigger] configs[j].name@
                    != name by {
                    if j > 0 {
                        assert(rest[j - 1].name@ != name);
                    }
                }
            } else {
                let k = first_config_named(rest, name)->0;
                assert(configs[k + 1].name@ == name);
                assert forall|j: int| 0 <= j < k + 1 implies #[trigger] configs[j].name@ != name by {
                    if j > 0 {
                        assert(rest[j - 1].name@ != name);
                    }
                }
            }
        }
    }
}

/// The output path an evaluation result gives, if any.
pub open spec fn output_path(output: NixEvalJobOutput) -> Option<String> {
    match output.outputs {
        Some(o) => Some(o.out),
        None => None,
    }
}

/// The configuration an evaluation result is for, with the result's
/// derivation and output paths: the first configuration named like the
/// result's attribute. Nothing when there is none.
pub fn configuration_for_output(configs: &Vec<NixosConfiguration>, output: &NixEvalJobOutput) -> (res:
    Option<NixosConfiguration>)
    ensures
        output.attr is None ==> res is None,
        output.attr matches Some(attr) ==> (first_config_named(configs@, attr@) is None ==> res is None),
        output.attr matches Some(attr) ==> (first_config_named(configs@, attr@) matches Some(i) ==> (
            res matches Some(c) && c.name == configs@[i].name && c.metadata@ == configs@[i].metadata@
                && c.deployment_config == configs@[i].deployment_config && c.drv_path
                == output.drv_path && c.out_path == output_path(*output))),
        output.attr matches Some(attr) ==> ((exists|k: int|
            0 <= k < configs@.len() && #[trigger] configs@[k].name@ == attr@) <==> res is Some),
        res matches Some(c) ==> (output.attr matches Some(attr) && c.name@ == attr@ && exists|k: int|
            0 <= k < configs@.len() && #[trigger] configs@[k].name == c.name && c.deployment_config
                == configs@[k].deployment_config && forall|j: int|
                0 <= j < k ==> #[trigger] configs@[j].name@ != attr@),
{
    match &output.attr {
        None => None,
        Some(attr) => {
            let mut i: usize = 0;
            assert(configs@.skip(0) =~= configs@);
            while i < configs.len()
                invariant
                    i <= configs@.len(),
                    output.attr == Some(*attr),
                    match first_config_named(configs@, attr@) {
                        Some(k) => match first_config_named(configs@.skip(i as int), attr@) {
                            Some(m) => k == m + i,
                            None => false,
                        },
                        None => first_config_named(configs@.skip(i as int), attr@) is None,
                    },
                decreases configs@.len() - i,
            {
                assert(configs@.skip(i as int).drop_first() =~= configs@.skip(i + 1));
                assert(configs@.skip(i as int)[0] == configs@[i as int]);
                if configs[i].name.eq(attr) {
                    assert(first_config_named(configs@.skip(i as int), attr@) == Some(0int));
                    let out = match &output.outputs {
                        Some(o) => Some(o.out.clone()),
                        None => None,
                    };
                    let c = configs[i].clone();
                    let r = c.with_paths(copy_opt_string(&output.drv_path), out);
                    proof {
                        lemma_first_config_named(configs@, attr@);
                    }
                    return Some(r);
                }
                i = i + 1;
            }
            proof {
                lemma_first_config_named(configs@, attr@);
            }
            None
        },
    }
}

/// The status of a configuration once evaluated: its derivation path, or
/// an empty one when the result has none.
pub fn evaluated_status(output: &NixEvalJobOutput) -> (res: ConfigurationStatus)
    ensures
        res matches ConfigurationStatus::Evaluated { drv_path } && drv_path@ == match output.drv_path {
            Some(d) => d@,
            None => Seq::<char>::empty(),
        },
{
    match &output.drv_path {
        Some(d) => ConfigurationStatus::Evaluated { drv_path: d.clone() },
        None => ConfigurationStatus::Evaluated { drv_path: String::new() },
    }
}

/// Whether another deployment may start while `running` are under way:
/// always when no limit is set; with a limit, while fewer than the limit
/// run, and always when none runs (so a limit of 0 still lets the
/// deployments proceed one at a time).
pub open spec fn may_start_spec(running: nat, max_concurrent: Option<usize>) -> bool {
    match max_concurrent {
        Some(m) => running == 0 || running < m,
        None => true,
    }
}

/// Whether another deployment may start while `running` are under way,
/// with at most `max_concurrent` at once.
pub fn may_start_deployment(running: usize, max_concurrent: Option<usize>) -> (res: bool)
    ensures
        res == may_start_spec(running as nat, max_concurrent),
        max_concurrent is None ==> res,
        max_concurrent matches Some(m) ==> (res <==> running < (if m == 0 {
            1
        } else {
            m
        })),
{
    match max_concurrent {
        Some(m) => running == 0 || running < m,
        None => true,
    }
}

/// Without a limit another deployment may always start; with a limit `m`,
/// exactly while fewer than `m` (at least one) are under way.
pub proof fn lemma_start_rule(running: nat, max_concurrent: Option<usize>)
    ensures
        max_concurrent is None ==> may_start_spec(running, max_concurrent),
        max_concurrent matches Some(m) ==> (may_start_spec(running, max_concurrent) <==> running < (
        if m == 0 {
            1
        } else {
            m as nat
        })),
{
}

/// Starting deployments only when allowed keeps the number under way
/// within the limit (at least one): after a start, at most `max(m, 1)` run.
pub proof fn lemma_limit_is_kept(running: nat, m: usize)
    requires
        may_start_spec(running, Some(m)),
    ensures
        running + 1 <= if m == 0 {
            1
        } else {
            m as nat
        },
{
}

/// How a run ended, from whether each deployment succeeded: the number of
/// successes, the number of failures, and whether the run exits with a
/// failure (exactly when some deployment failed).
pub fn run_outcome(results: &Vec<bool>) -> (res: (usize, usize, bool))
    ensures
        res.1 == failure_count(results@),
        res.0 + res.1 == results@.len(),
        res.2 == (res.1 > 0),
{
    let mut failures: usize = 0;
    let mut i: usize = 0;
    while i < results.len()
        invariant
            i <= results@.len(),
            failures == failure_count(results@.take(i as int)),
        decreases results@.len() - i,
    {
        assert(results@.take(i + 1).drop_last() =~= results@.take(i as int));
        proof {
            lemma_failure_count_bounded(results@.take(i as int));
        }
        if !results[i] {
            failures = failures + 1;
        }
        i = i + 1;
    }
    assert(results@.take(results@.len() as int) =~= results@);
    proof {
        lemma_failure_count_bounded(results@);
    }
    (results.len() - failures, failures, failures > 0)
}

/// The summary printed at the end of a deployment.
pub open spec fn summary_of(verbosity: Verbosity, successes: nat, failures: nat) -> Seq<Seq<char>> {
    match verbosity {
        Verbosity::Progress => if failures == 0 {
            seq!["\n✓ All "@ + decimal(successes) + " configurations deployed successfully"@]
        } else {
            seq![
                "\n✗ Deployment completed: "@ + decimal(successes) + " successes, "@ + decimal(
                    failures,
                ) + " failures"@,
                "  (Errors shown above for each failed configuration)"@,
            ]
        },
        Verbosity::Detailed => seq![
            "INFO: Deployment completed: "@ + decimal(successes) + " successes, "@ + decimal(
                failures,
            ) + " failures"@,
        ],
    }
}

/// The summary printed at the end of a deployment.
pub fn deployment_summary(verbosity: Verbosity, successes: usize, failures: usize) -> (res: Vec<
    String,
>)
    ensures
        views(res@) == summary_of(verbosity, successes as nat, failures as nat),
{
    let mut v: Vec<String> = Vec::new();
    match verbosity {
        Verbosity::Progress => {
            if failures == 0 {
                let mut s = copy_str("\n✓ All ");
                push_decimal(&mut s, successes as u64);
                s.append(" configurations deployed successfully");
                v.push(s);
            } else {
                let mut s = copy_str("\n✗ Deployment completed: ");
                push_decimal(&mut s, successes as u64);
                s.append(" successes, ");
                push_decimal(&mut s, failures as u64);
                s.append(" failures");
                v.push(s);
                v.push(copy_str("  (Errors shown above for each failed configuration)"));
            }
        },
        Verbosity::Detailed => {
            let mut s = copy_str("INFO: Deployment completed: ");
            push_decimal(&mut s, successes as u64);
            s.append(" successes, ");
            push_decimal(&mut s, failures as u64);
            s.append(" failures");
            v.push(s);
        },
    }
    assert(views(v@) =~= summary_of(verbosity, successes as nat, failures as nat));
    v
}

/// Whether a built system must be copied: not between two local hosts, nor
/// between SSH hosts with the same address; otherwise it must.
pub open spec fn needs_copy_of(build_host: ExecutionTarget, target_host: ExecutionTarget) -> bool {
    match (build_host, target_host) {
        (ExecutionTarget::Local, ExecutionTarget::Local) => false,
        (ExecutionTarget::Ssh { host: h1, .. }, ExecutionTarget::Ssh { host: h2, .. }) => h1@ != h2@,
        _ => true,
    }
}

/// Whether a built system must be copied from the build host to the target.
pub fn needs_copy(build_host: &ExecutionTarget, target_host: &ExecutionTarget) -> (res: bool)
    ensures
        res == needs_copy_of(*build_host, *target_host),
{
    match (build_host, target_host) {
        (ExecutionTarget::Local, ExecutionTarget::Local) => false,
        (ExecutionTarget::Ssh { host: h1, .. }, ExecutionTarget::Ssh { host: h2, .. }) => !h1.eq(h2),
        _ => true,
    }
}

/// Where the deployment of one configuration stands.
#[derive(Debug, Clone, Copy, PartialEq, Eq, Structural)]
pub enum DeployPhase {
    /// Nothing done yet.
    Starting,
    /// Waiting for the build.
    Building,
    /// Waiting for the copy to the target.
    Copying,
    /// Waiting for the activation.
    Activating,
    /// Deployed.
    Deployed,
    /// Failed; nothing more happens.
    Failed,
}

/// What happened last during the deployment of one configuration.
pub enum DeployEvent {
    /// The deployment begins.
    Start,
    /// The system was built at this path.
    BuildSucceeded(String),
    BuildFailed(DeployError),
    CopySucceeded,
    CopyFailed(DeployError),
    /// The system was activated; the error lines it printed.
    ActivationSucceeded(Vec<String>),
    ActivationFailed(DeployError),
}

/// What to do next for one configuration.
pub enum DeployAction {
    /// Build the system, within the timeout (seconds).
    Build { timeout_secs: Option<u64> },
    /// Copy the built system to the target, within the timeout (seconds).
    CopyClosure { timeout_secs: Option<u64> },
    /// Activate the system on the target, within the timeout (seconds).
    Activate { timeout_secs: Option<u64> },
    /// Done: report the activation's error lines as warnings.
    Finish(Vec<String>),
    /// Stop with this error.
    Abort(DeployError),
}

/// The deployment of one configuration.
pub struct SingleDeployment {
    pub config: NixosConfiguration,
    pub phase: DeployPhase,
}

/// Whether an event can happen in a phase: the start at the start, and the
/// outcome of the step being waited for.
pub open spec fn event_fits(phase: DeployPhase, event: DeployEvent) -> bool {
    match (phase, event) {
        (DeployPhase::Starting, DeployEvent::Start) => true,
        (DeployPhase::Building, DeployEvent::BuildSucceeded(_)) => true,
        (DeployPhase::Building, DeployEvent::BuildFailed(_)) => true,
        (DeployPhase::Copying, DeployEvent::CopySucceeded) => true,
        (DeployPhase::Copying, DeployEvent::CopyFailed(_)) => true,
        (DeployPhase::Activating, DeployEvent::ActivationSucceeded(_)) => true,
        (DeployPhase::Activating, DeployEvent::ActivationFailed(_)) => true,
        _ => false,
    }
}

/// Whether the configuration's built system must be copied.
pub open spec fn copies(config: NixosConfiguration) -> bool {
    needs_copy_of(effective_build_of(config.deployment_config), config.deployment_config.target_host)
}

/// The phase after an event.
pub open spec fn phase_after(config: NixosConfiguration, event: DeployEvent) -> DeployPhase {
    match event {
        DeployEvent::Start => DeployPhase::Building,
        DeployEvent::BuildSucceeded(_) => if copies(config) {
            DeployPhase::Copying
        } else {
            DeployPhase::Activating
        },
        DeployEvent::CopySucceeded => DeployPhase::Activating,
        DeployEvent::ActivationSucceeded(_) => DeployPhase::Deployed,
        _ => DeployPhase::Failed,
    }
}

/// The error status for a failed step: the step's complaint with the
/// error, and the error's last five lines.
pub open spec fn failure_status(what: Seq<char>, e: DeployError) -> (nat, Seq<char>, Seq<Seq<char>>) {
    (8, what + message_of(e), error_tail_of(e, 5))
}

/// The statuses reported for an event (each as kind and contents).
pub open spec fn statuses_after(config: NixosConfiguration, event: DeployEvent) -> Seq<
    (nat, Seq<char>, Seq<Seq<char>>),
> {
    match event {
        DeployEvent::Start => seq![(3nat, Seq::empty(), Seq::empty())],
        DeployEvent::BuildSucceeded(out) => if copies(config) {
            seq![(4nat, out@, Seq::empty()), (5nat, Seq::empty(), Seq::empty())]
        } else {
            seq![(4nat, out@, Seq::empty()), (6nat, Seq::empty(), Seq::empty())]
        },
        DeployEvent::BuildFailed(e) => seq![failure_status("Build failed: "@, e)],
        DeployEvent::CopySucceeded => seq![(6nat, Seq::empty(), Seq::empty())],
        DeployEvent::CopyFailed(e) => seq![failure_status("Copy closure failed: "@, e)],
        DeployEvent::ActivationSucceeded(_) => seq![(7nat, Seq::empty(), Seq::empty())],
        DeployEvent::ActivationFailed(e) => seq![failure_status("Activation failed: "@, e)],
    }
}

/// The error status for a failed step.
fn failure(what: &str, e: &DeployError) -> (res: ConfigurationStatus)
    ensures
        status_view(res) == failure_status(what@, *e),
{
    let mut error = copy_str(what);
    let m = e.message();
    error.append(m.as_str());
    let error_lines = e.get_error_tail(5);
    ConfigurationStatus::Error { error, error_lines }
}

/// The kinds and contents of some statuses.
pub open spec fn status_views(s: Seq<ConfigurationStatus>) -> Seq<(nat, Seq<char>, Seq<Seq<char>>)> {
    s.map_values(|x: ConfigurationStatus| status_view(x))
}

/// One status.
fn one_status(s: ConfigurationStatus) -> (res: Vec<ConfigurationStatus>)
    ensures
        status_views(res@) == seq![status_view(s)],
{
    let mut v: Vec<ConfigurationStatus> = Vec::new();
    v.push(s);
    assert(status_views(v@) =~= seq![status_view(s)]);
    v
}

/// Two statuses.
fn two_statuses(a: ConfigurationStatus, b: ConfigurationStatus) -> (res: Vec<ConfigurationStatus>)
    ensures
        status_views(res@) == seq![status_view(a), status_view(b)],
{
    let mut v: Vec<ConfigurationStatus> = Vec::new();
    v.push(a);
    v.push(b);
    assert(status_views(v@) =~= seq![status_view(a), status_view(b)]);
    v
}

impl SingleDeployment {
    /// The deployment of `config`, not started yet.
    pub fn new(config: NixosConfiguration) -> (res: Self)
        ensures
            res.config == config,
            res.phase == DeployPhase::Starting,
    {
        SingleDeployment { config, phase: DeployPhase::Starting }
    }

    /// Whether `event` can happen now: the start at the start, and the
    /// outcome of the step being waited for.
    pub fn accepts(&self, event: &DeployEvent) -> (res: bool)
        ensures
            res == event_fits(self.phase, *event),
    {
        match (self.phase, event) {
            (DeployPhase::Starting, DeployEvent::Start) => true,
            (DeployPhase::Building, DeployEvent::BuildSucceeded(_)) => true,
            (DeployPhase::Building, DeployEvent::BuildFailed(_)) => true,
            (DeployPhase::Copying, DeployEvent::CopySucceeded) => true,
            (DeployPhase::Copying, DeployEvent::CopyFailed(_)) => true,
            (DeployPhase::Activating, DeployEvent::ActivationSucceeded(_)) => true,
            (DeployPhase::Activating, DeployEvent::ActivationFailed(_)) => true,
            _ => false,
        }
    }

    /// Takes in what happened; gives the statuses to report and what to do
    /// next. Once built, the configuration carries its output path. A
    /// failure reports an error status, and the deployment stops with the
    /// error.
    pub fn step(&mut self, event: DeployEvent) -> (res: (Vec<ConfigurationStatus>, DeployAction))
        requires
            event_fits(old(self).phase, event),
        ensures
            final(self).phase == phase_after(old(self).config, event),
            status_views(res.0@) == statuses_after(old(self).config, event),
            match event {
                DeployEvent::BuildSucceeded(out) => final(self).config == NixosConfiguration {
                    out_path: Some(out),
                    ..old(self).config
                },
                _ => final(self).config == old(self).config,
            },
            match event {
                DeployEvent::Start => res.1 == DeployAction::Build {
                    timeout_secs: old(self).config.deployment_config.timeout_secs,
                },
                DeployEvent::BuildSucceeded(_) => if copies(old(self).config) {
                    res.1 == DeployAction::CopyClosure {
                        timeout_secs: old(self).config.deployment_config.timeout_secs,
                    }
                } else {
                    res.1 == DeployAction::Activate {
                        timeout_secs: old(self).config.deployment_config.timeout_secs,
                    }
                },
                DeployEvent::CopySucceeded => res.1 == DeployAction::Activate {
                    timeout_secs: old(self).config.deployment_config.timeout_secs,
                },
                DeployEvent::ActivationSucceeded(lines) => res.1 == DeployAction::Finish(lines),
                DeployEvent::BuildFailed(e) => res.1 == DeployAction::Abort(e),
                DeployEvent::CopyFailed(e) => res.1 == DeployAction::Abort(e),
                DeployEvent::ActivationFailed(e) => res.1 == DeployAction::Abort(e),
            },
    {
        let timeout_secs = self.config.deployment_config.timeout_secs;
        match event {
            DeployEvent::Start => {
                self.phase = DeployPhase::Building;
                (one_status(ConfigurationStatus::Building), DeployAction::Build { timeout_secs })
            },
            DeployEvent::BuildSucceeded(out) => {
                let copy = needs_copy(
                    self.config.deployment_config.effective_build_host(),
                    &self.config.deployment_config.target_host,
                );
                let built = ConfigurationStatus::Built { result: out.clone() };
                self.config.out_path = Some(out);
                if copy {
                    self.phase = DeployPhase::Copying;
                    (
                        two_statuses(built, ConfigurationStatus::CopyingClosure),
                        DeployAction::CopyClosure { timeout_secs },
                    )
                } else {
                    self.phase = DeployPhase::Activating;
                    (
                        two_statuses(built, ConfigurationStatus::Activating),
                        DeployAction::Activate { timeout_secs },
                    )
                }
            },
            DeployEvent::BuildFailed(e) => {
                self.phase = DeployPhase::Failed;
                let s = failure("Build failed: ", &e);
                (one_status(s), DeployAction::Abort(e))
            },
            DeployEvent::CopySucceeded => {
                self.phase = DeployPhase::Activating;
                (one_status(ConfigurationStatus::Activating), DeployAction::Activate { timeout_secs })
            },
            DeployEvent::CopyFailed(e) => {
                self.phase = DeployPhase::Failed;
                let s = failure("Copy closure failed: ", &e);
                (one_status(s), DeployAction::Abort(e))
            },
            DeployEvent::ActivationSucceeded(lines) => {
                self.phase = DeployPhase::Deployed;
                (one_status(ConfigurationStatus::Activated), DeployAction::Finish(lines))
            },
            DeployEvent::ActivationFailed(e) => {
                self.phase = DeployPhase::Failed;
                let s = failure("Activation failed: ", &e);
                (one_status(s), DeployAction::Abort(e))
            },
        }
    }
}

/// A deployed or failed configuration takes in no more events.
pub proof fn lemma_end_phases_are_final(phase: DeployPhase, event: DeployEvent)
    requires
        phase == DeployPhase::Deployed || phase == DeployPhase::Failed,
    ensures
        !event_fits(phase, event),
{
}

/// A failed step reports exactly one status, an error, and ends the
/// deployment.
pub proof fn lemma_failure_reports_one_error(config: NixosConfiguration, event: DeployEvent)
    requires
        event is BuildFailed || event is CopyFailed || event is ActivationFailed,
    ensures
        phase_after(config, event) == DeployPhase::Failed,
        statuses_after(config, event).len() == 1,
        statuses_after(config, event)[0].0 == 8,
{
}

/// A deployment where every step succeeds reports, in order: building,
/// built (with the output path), copying when the system must be copied,
/// activating, activated; and ends deployed.
pub proof fn lemma_successful_deployment(config: NixosConfiguration, out: String, warnings: Vec<String>)
    ensures
        ({
            let built = NixosConfiguration { out_path: Some(out), ..config };
            let after_build = phase_after(config, DeployEvent::BuildSucceeded(out));
            let middle = if copies(config) {
                statuses_after(built, DeployEvent::CopySucceeded)
            } else {
                Seq::empty()
            };
            &&& phase_after(config, DeployEvent::Start) == DeployPhase::Building
            &&& after_build == (if copies(config) {
                DeployPhase::Copying
            } else {
                DeployPhase::Activating
            })
            &&& copies(built) == copies(config)
            &&& phase_after(built, DeployEvent::ActivationSucceeded(warnings)) == DeployPhase::Deployed
            &&& statuses_after(config, DeployEvent::Start) + statuses_after(
                config,
                DeployEvent::BuildSucceeded(out),
            ) + middle + statuses_after(built, DeployEvent::ActivationSucceeded(warnings))
                == (if copies(config) {
                seq![
                    (3nat, Seq::<char>::empty(), Seq::<Seq<char>>::empty()),
                    (4nat, out@, Seq::<Seq<char>>::empty()),
                    (5nat, Seq::<char>::empty(), Seq::<Seq<char>>::empty()),
                    (6nat, Seq::<char>::empty(), Seq::<Seq<char>>::empty()),
                    (7nat, Seq::<char>::empty(), Seq::<Seq<char>>::empty()),
                ]
            } else {
                seq![
                    (3nat, Seq::<char>::empty(), Seq::<Seq<char>>::empty()),
                    (4nat, out@, Seq::<Seq<char>>::empty()),
                    (6nat, Seq::<char>::empty(), Seq::<Seq<char>>::empty()),
                    (7nat, Seq::<char>::empty(), Seq::<Seq<char>>::empty()),
                ]
            })
        }),
{
    let built = NixosConfiguration { out_path: Some(out), ..config };
    if copies(config) {
        assert(statuses_after(config, DeployEvent::Start) + statuses_after(
            config,
            DeployEvent::BuildSucceeded(out),
        ) + statuses_after(built, DeployEvent::CopySucceeded) + statuses_after(
            built,
            DeployEvent::ActivationSucceeded(warnings),
        ) =~= seq![
            (3nat, Seq::<char>::empty(), Seq::<Seq<char>>::empty()),
            (4nat, out@, Seq::<Seq<char>>::empty()),
            (5nat, Seq::<char>::empty(), Seq::<Seq<char>>::empty()),
            (6nat, Seq::<char>::empty(), Seq::<Seq<char>>::empty()),
            (7nat, Seq::<char>::empty(), Seq::<Seq<char>>::empty()),
        ]);
    } else {
        assert(statuses_after(config, DeployEvent::Start) + statuses_after(
            config,
            DeployEvent::BuildSucceeded(out),
        ) + Seq::empty() + statuses_after(built, DeployEvent::ActivationSucceeded(warnings)) =~= seq![
            (3nat, Seq::<char>::empty(), Seq::<Seq<char>>::empty()),
            (4nat, out@, Seq::<Seq<char>>::empty()),
            (6nat, Seq::<char>::empty(), Seq::<Seq<char>>::empty()),
            (7nat, Seq::<char>::empty(), Seq::<Seq<char>>::empty()),
        ]);
    }
}

} // verus!
