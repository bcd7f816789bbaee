//! Activating configurations on their hosts, checking them afterwards, and
//! going back to the previous system.
use vstd::prelude::*;

use crate::errors::{last_lines, message_of, DeployError};
use crate::execution::{executor_for, exited_zero, is_exit_zero, CommandResult, Executor};
use crate::text::{
    copy_str, decimal, join, join_strings, lemma_views_push, push_decimal, signed_decimal, trim,
    trim_str, views, i32_text,
};
use crate::types::{host_identifier_of, ExecutionTarget, NixosConfiguration};

verus! {

/// The timeout of an activation when none is given: ten minutes.
pub const ACTIVATION_TIMEOUT_SECS: u64 = 600;

/// The timeout of a health check when none is given.
pub const HEALTH_TIMEOUT_SECS: u64 = 30;

/// The timeout of reading the current system profile.
pub const PROFILE_TIMEOUT_SECS: u64 = 30;

/// How many error lines a failed activation shows.
pub const ACTIVATION_ERROR_LINES: usize = 10;

/// Activates configurations on one host.
pub struct Deployer {
    executor: Executor,
    host_identifier: String,
}

impl View for Deployer {
    type V = (Executor, Seq<char>);

    /// The executor that activates, and the name of its host.
    closed spec fn view(&self) -> (Executor, Seq<char>) {
        (self.executor, self.host_identifier@)
    }
}

/// How an exit code reads in messages: `Some(<code>)` or `None`.
pub open spec fn exit_code_text(code: Option<i32>) -> Seq<char> {
    match code {
        Some(c) => "Some("@ + signed_decimal(c as int) + ")"@,
        None => "None"@,
    }
}

/// How an exit code reads in messages.
pub fn exit_code_debug(code: Option<i32>) -> (res: String)
    ensures
        res@ == exit_code_text(code),
{
    match code {
        Some(c) => {
            let mut s = copy_str("Some(");
            let n = i32_text(c);
            s.append(n.as_str());
            s.append(")");
            s
        },
        None => copy_str("None"),
    }
}

/// `e` is the failed deployment of `name`, with `message`.
pub open spec fn is_deployment_failure(e: DeployError, name: Seq<char>, message: Seq<char>) -> bool {
    e matches DeployError::DeploymentFailed { config_name, message: m } && config_name@ == name
        && m@ == message
}

/// The message of a failed activation: its exit code, then its last
/// error lines.
pub open spec fn activation_failure_message(code: Option<i32>, error_lines: Seq<Seq<char>>) -> Seq<
    char,
> {
    let shown = last_lines(error_lines, ACTIVATION_ERROR_LINES as nat);
    "Activation failed with exit code "@ + exit_code_text(code) + ". Last "@ + decimal(
        shown.len(),
    ) + " error lines:\n"@ + join(shown, "\n"@)
}

/// A failed deployment of `name` with `message`.
fn deployment_failure(name: &String, message: String) -> (res: DeployError)
    ensures
        is_deployment_failure(res, name@, message@),
{
    DeployError::deployment_failed(name.clone(), message)
}

/// Healths a deployed system can be in.
pub enum HealthStatus {
    Healthy,
    Degraded { reason: String },
    Unhealthy { reason: String },
    Unknown { status: String },
}

/// What the health check reports: from `systemctl is-system-running`,
/// healthy when it says `running`, degraded when it says `degraded`, the
/// state it names otherwise (`unknown` when it says nothing); unhealthy
/// when it fails or exits with another code than 0.
pub open spec fn health_of(result: Result<CommandResult, DeployError>) -> (nat, Seq<char>) {
    match result {
        Ok(r) => if exited_zero(r.exit_code) {
            let status = if r.stdout_lines@.len() > 0 {
                trim(r.stdout_lines@[0]@)
            } else {
                "unknown"@
            };
            if status == "running"@ {
                (0, Seq::empty())
            } else if status == "degraded"@ {
                (1, "System is degraded"@)
            } else {
                (3, status)
            }
        } else {
            (2, "systemctl failed: "@ + join(views(r.stderr_lines@), "\n"@))
        },
        Err(e) => (2, "Health check failed: "@ + message_of(e)),
    }
}

/// A health as a kind (healthy, degraded, unhealthy, unknown) and its text.
pub open spec fn health_view(h: HealthStatus) -> (nat, Seq<char>) {
    match h {
        HealthStatus::Healthy => (0, Seq::empty()),
        HealthStatus::Degraded { reason } => (1, reason@),
        HealthStatus::Unhealthy { reason } => (2, reason@),
        HealthStatus::Unknown { status } => (3, status@),
    }
}

/// What is needed to go back to the system a host ran before.
pub struct RollbackInfo {
    pub config_name: String,
    pub previous_profile: String,
    pub host: String,
}

impl Deployer {
    /// The executor that runs this deployer's commands.
    pub fn executor(&self) -> (res: &Executor)
        ensures
            *res == self@.0,
    {
        &self.executor
    }

    /// The name of the host this deployer works on.
    pub fn host_identifier(&self) -> (res: &String)
        ensures
            res@ == self@.1,
    {
        &self.host_identifier
    }
    /// A deployer on `target`.
    pub fn new(target: &ExecutionTarget) -> (res: Self)
        ensures
            res@ == (executor_for(*target), host_identifier_of(*target)),
    {
        Deployer { executor: Executor::from_target(target), host_identifier: target.host_identifier() }
    }

    /// The activation script of `config` and its argument: `test` for a dry
    /// run, `switch` otherwise. A failed deployment when nothing was built.
    pub fn activation_command(config: &NixosConfiguration) -> (res: Result<(String, String), DeployError>)
        ensures
            match config.out_path {
                Some(p) => res matches Ok((script, mode)) && script@ == p@
                    + "/bin/switch-to-configuration"@ && mode@ == if config.deployment_config.dry_run {
                    "test"@
                } else {
                    "switch"@
                },
                None => res matches Err(e) && is_deployment_failure(
                    e,
                    config.name@,
                    "No output path available for activation"@,
                ),
            },
    {
        match &config.out_path {
            Some(p) => {
                let mode = if config.deployment_config.dry_run {
                    copy_str("test")
                } else {
                    copy_str("switch")
                };
                let mut script = p.clone();
                script.append("/bin/switch-to-configuration");
                Ok((script, mode))
            },
            None => Err(
                deployment_failure(&config.name, copy_str("No output path available for activation")),
            ),
        }
    }

    /// A failure to start the activation of `config`.
    pub fn activation_start_failure(config: &NixosConfiguration, error: &DeployError) -> (res: DeployError)
        ensures
            is_deployment_failure(res, config.name@, "Failed to start activation: "@ + message_of(*error)),
    {
        let mut m = copy_str("Failed to start activation: ");
        let em = error.message();
        m.append(em.as_str());
        deployment_failure(&config.name, m)
    }

    /// A failure to wait for the activation of `config`, with the reason.
    pub fn activation_wait_failure(config: &NixosConfiguration, reason: &str) -> (res: DeployError)
        ensures
            is_deployment_failure(res, config.name@, "Failed to wait for activation process: "@ + reason@),
    {
        let mut m = copy_str("Failed to wait for activation process: ");
        m.append(reason);
        deployment_failure(&config.name, m)
    }

    /// The activation of `config` ran out of time: the given timeout, else
    /// ten minutes.
    pub fn activation_timeout(config: &NixosConfiguration, timeout_secs: Option<u64>) -> (res: DeployError)
        ensures
            res matches DeployError::Timeout { operation, timeout_secs: t } && operation@
                == "activation of "@ + config.name@ && t == match timeout_secs {
                Some(s) => s,
                None => ACTIVATION_TIMEOUT_SECS,
            },
    {
        let mut op = copy_str("activation of ");
        op.append(config.name.as_str());
        let t = match timeout_secs {
            Some(s) => s,
            None => ACTIVATION_TIMEOUT_SECS,
        };
        DeployError::timeout(op, t)
    }

    /// What an activation came to: its error output when it succeeded,
    /// else a failed deployment with the exit code and the last error lines.
    pub fn activation_outcome(
        config: &NixosConfiguration,
        success: bool,
        exit_code: Option<i32>,
        error_lines: Vec<String>,
    ) -> (res: Result<Vec<String>, DeployError>)
        ensures
            success ==> res == Ok::<Vec<String>, DeployError>(error_lines),
            !success ==> (res matches Err(e) && is_deployment_failure(
                e,
                config.name@,
                activation_failure_message(exit_code, views(error_lines@)),
            )),
    {
        if success {
            return Ok(error_lines);
        }
        let n = error_lines.len();
        let start = if n > ACTIVATION_ERROR_LINES {
            n - ACTIVATION_ERROR_LINES
        } else {
            0
        };
        let mut shown: Vec<String> = Vec::new();
        let mut i = start;
        while i < n
            invariant
                start <= i <= n,
                n == error_lines@.len(),
                views(shown@) == views(error_lines@).subrange(start as int, i as int),
            decreases n - i,
        {
            let l = error_lines[i].clone();
            proof {
                lemma_views_push(shown@, l);
            }
            shown.push(l);
            assert(views(shown@) =~= views(error_lines@).subrange(start as int, i + 1));
            i = i + 1;
        }
        assert(views(shown@) =~= last_lines(views(error_lines@), ACTIVATION_ERROR_LINES as nat));
        let mut m = copy_str("Activation failed with exit code ");
        let code = exit_code_debug(exit_code);
        m.append(code.as_str());
        m.append(". Last ");
        push_decimal(&mut m, shown.len() as u64);
        m.append(" error lines:\n");
        let joined = join_strings(&shown, "\n");
        m.append(joined.as_str());
        Err(deployment_failure(&config.name, m))
    }

    /// The health of the system, from the result of
    /// `systemctl is-system-running`.
    pub fn health_from(result: Result<CommandResult, DeployError>) -> (res: HealthStatus)
        ensures
            health_view(res) == health_of(result),
    {
        match result {
            Ok(r) => {
                if is_exit_zero(r.exit_code) {
                    let status = if r.stdout_lines.len() > 0 {
                        trim_str(r.stdout_lines[0].as_str())
                    } else {
                        copy_str("unknown")
                    };
                    let running = copy_str("running");
                    let degraded = copy_str("degraded");
                    if status.eq(&running) {
                        HealthStatus::Healthy
                    } else if status.eq(&degraded) {
                        HealthStatus::Degraded { reason: copy_str("System is degraded") }
                    } else {
                        HealthStatus::Unknown { status }
                    }
                } else {
                    let mut m = copy_str("systemctl failed: ");
                    let joined = join_strings(&r.stderr_lines, "\n");
                    m.append(joined.as_str());
                    HealthStatus::Unhealthy { reason: m }
                }
            },
            Err(e) => {
                let mut m = copy_str("Health check failed: ");
                let em = e.message();
                m.append(em.as_str());
                HealthStatus::Unhealthy { reason: m }
            },
        }
    }

    /// What is needed to roll `config` back, from the result of reading the
    /// current system profile: its first line, trimmed.
    pub fn rollback_info(
        &self,
        config: &NixosConfiguration,
        result: Result<CommandResult, DeployError>,
    ) -> (res: Result<RollbackInfo, DeployError>)
        ensures
            match result {
                Err(e) => res matches Err(f) && is_deployment_failure(
                    f,
                    config.name@,
                    "Failed to get current system profile: "@ + message_of(e),
                ),
                Ok(r) => if r.stdout_lines@.len() == 0 {
                    res matches Err(f) && is_deployment_failure(
                        f,
                        config.name@,
                        "No current system profile found"@,
                    )
                } else {
                    res matches Ok(info) && info.config_name@ == config.name@
                        && info.previous_profile@ == trim(r.stdout_lines@[0]@) && info.host@
                        == self@.1
                },
            },
    {
        match result {
            Err(e) => {
                let mut m = copy_str("Failed to get current system profile: ");
                let em = e.message();
                m.append(em.as_str());
                Err(deployment_failure(&config.name, m))
            },
            Ok(r) => {
                if r.stdout_lines.len() == 0 {
                    return Err(
                        deployment_failure(&config.name, copy_str("No current system profile found")),
                    );
                }
                Ok(RollbackInfo {
                    config_name: config.name.clone(),
                    previous_profile: trim_str(r.stdout_lines[0].as_str()),
                    host: self.host_identifier.clone(),
                })
            },
        }
    }
}

impl RollbackInfo {
    /// The activation script of the previous system.
    pub fn rollback_script(&self) -> (res: String)
        ensures
            res@ == self.previous_profile@ + "/bin/switch-to-configuration"@,
    {
        let mut s = self.previous_profile.clone();
        s.append("/bin/switch-to-configuration");
        s
    }

    /// What a rollback came to.
    pub fn rollback_outcome(&self, result: Result<CommandResult, DeployError>) -> (res: Result<
        (),
        DeployError,
    >)
        ensures
            match result {
                Err(e) => res matches Err(f) && is_deployment_failure(
                    f,
                    self.config_name@,
                    "Rollback failed: "@ + message_of(e),
                ),
                Ok(r) => if exited_zero(r.exit_code) {
                    res is Ok
                } else {
                    res matches Err(f) && is_deployment_failure(
                        f,
                        self.config_name@,
                        "Rollback activation failed: "@ + join(views(r.stderr_lines@), "\n"@),
                    )
                },
            },
    {
        match result {
            Err(e) => {
                let mut m = copy_str("Rollback failed: ");
                let em = e.message();
                m.append(em.as_str());
                Err(deployment_failure(&self.config_name, m))
            },
            Ok(r) => {
                if is_exit_zero(r.exit_code) {
                    Ok(())
                } else {
                    let mut m = copy_str("Rollback activation failed: ");
                    let joined = join_strings(&r.stderr_lines, "\n");
                    m.append(joined.as_str());
                    Err(deployment_failure(&self.config_name, m))
                }
            },
        }
    }
}

} // verus!
