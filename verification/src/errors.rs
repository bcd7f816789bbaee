//! The errors of a deployment and how they read.
use vstd::prelude::*;

use crate::text::{decimal, split_lines, views, lines_of, copy_str, push_decimal};

verus! {

/// What went wrong during a deployment.
#[derive(Debug)]
pub enum DeployError {
    /// An I/O error, by its message.
    Io(String),
    /// A JSON parsing error, by its message.
    Json(String),
    CommandFailed { command: String, exit_code: Option<i32>, stderr: String },
    NixEvaluationFailed { flake_path: String, message: String },
    NixBuildFailed { config_name: String, drv_path: Option<String>, message: String },
    DeploymentFailed { config_name: String, message: String },
    SshConnectionFailed { host: String, message: String },
    ConfigurationNotFound { config_name: String },
    InvalidConfiguration { message: String },
    CopyClosureFailed { src: String, target: String, message: String },
    Timeout { operation: String, timeout_secs: u64 },
    Multiple { errors: Vec<DeployError> },
    Channel(String),
    Other(String),
}

/// How an error reads.
pub open spec fn message_of(e: DeployError) -> Seq<char> {
    match e {
        DeployError::Io(m) => "IO error: "@ + m@,
        DeployError::Json(m) => "JSON parsing error: "@ + m@,
        DeployError::CommandFailed { command, stderr, .. } => "Command execution failed: "@
            + command@ + "\nError output: "@ + stderr@,
        DeployError::NixEvaluationFailed { flake_path, message } =>
            "Nix evaluation failed for flake at "@ + flake_path@ + ": "@ + message@,
        DeployError::NixBuildFailed { config_name, message, .. } =>
            "Nix build failed for configuration "@ + config_name@ + ": "@ + message@,
        DeployError::DeploymentFailed { config_name, message } =>
            "Deployment failed for configuration "@ + config_name@ + ": "@ + message@,
        DeployError::SshConnectionFailed { host, message } => "SSH connection failed to "@
            + host@ + ": "@ + message@,
        DeployError::ConfigurationNotFound { config_name } => "Configuration not found: "@
            + config_name@,
        DeployError::InvalidConfiguration { message } => "Invalid configuration: "@ + message@,
        DeployError::CopyClosureFailed { src, target, message } => "Copy closure failed from "@
            + src@ + " to "@ + target@ + ": "@ + message@,
        DeployError::Timeout { operation, timeout_secs } => "Timeout occurred during "@
            + operation@ + " after "@ + decimal(timeout_secs as nat) + " seconds"@,
        DeployError::Multiple { .. } => "Multiple errors occurred"@,
        DeployError::Channel(m) => "Channel error: "@ + m@,
        DeployError::Other(m) => "Other error: "@ + m@,
    }
}

/// The last `n` of `lines` (all of them when there are fewer).
pub open spec fn last_lines(lines: Seq<Seq<char>>, n: nat) -> Seq<Seq<char>> {
    if n >= lines.len() {
        lines
    } else {
        lines.skip(lines.len() - n)
    }
}

/// The lines shown for an error: the last `n` lines of the command's error
/// output or of the message for failed commands, builds, deployments and
/// connections; the whole message, as one line, for the others.
pub open spec fn error_tail_of(e: DeployError, n: nat) -> Seq<Seq<char>> {
    match e {
        DeployError::CommandFailed { stderr, .. } => last_lines(split_lines(stderr@), n),
        DeployError::NixBuildFailed { message, .. } => last_lines(split_lines(message@), n),
        DeployError::DeploymentFailed { message, .. } => last_lines(split_lines(message@), n),
        DeployError::SshConnectionFailed { message, .. } => last_lines(split_lines(message@), n),
        _ => seq![message_of(e)],
    }
}

/// The last `n` lines of `s`.
fn tail_lines(s: &String, n: usize) -> (res: Vec<String>)
    ensures
        views(res@) == last_lines(split_lines(s@), n as nat),
{
    let all = lines_of(s.as_str());
    let len = all.len();
    let start = if n >= len {
        0
    } else {
        len - n
    };
    let mut res: Vec<String> = Vec::new();
    let mut i = start;
    while i < len
        invariant
            start <= i,
            i <= len,
            len == all@.len(),
            res@.len() == i - start,
            forall|j: int| 0 <= j < res@.len() ==> #[trigger] res@[j]@ == all@[start + j]@,
        decreases len - i,
    {
        let line = all[i].clone();
        assert(line@ == views(all@)[i as int]);
        let ghost before = res@;
        res.push(line);
        assert(res@ == before.push(line));
        i = i + 1;
    }
    assert(views(res@) =~= last_lines(split_lines(s@), n as nat));
    res
}

impl DeployError {
    /// A failed command, with its exit code and error output.
    pub fn command_failed(command: String, exit_code: Option<i32>, stderr: String) -> (res: Self)
        ensures
            res == (DeployError::CommandFailed { command, exit_code, stderr }),
    {
        DeployError::CommandFailed { command, exit_code, stderr }
    }

    /// A failed evaluation of the flake at `flake_path`.
    pub fn nix_evaluation_failed(flake_path: String, message: String) -> (res: Self)
        ensures
            res == (DeployError::NixEvaluationFailed { flake_path, message }),
    {
        DeployError::NixEvaluationFailed { flake_path, message }
    }

    /// A failed build of a configuration.
    pub fn nix_build_failed(config_name: String, drv_path: Option<String>, message: String) -> (res:
        Self)
        ensures
            res == (DeployError::NixBuildFailed { config_name, drv_path, message }),
    {
        DeployError::NixBuildFailed { config_name, drv_path, message }
    }

    /// A failed deployment of a configuration.
    pub fn deployment_failed(config_name: String, message: String) -> (res: Self)
        ensures
            res == (DeployError::DeploymentFailed { config_name, message }),
    {
        DeployError::DeploymentFailed { config_name, message }
    }

    /// A failed SSH connection.
    pub fn ssh_connection_failed(host: String, message: String) -> (res: Self)
        ensures
            res == (DeployError::SshConnectionFailed { host, message }),
    {
        DeployError::SshConnectionFailed { host, message }
    }

    /// A configuration that the flake does not have.
    pub fn configuration_not_found(config_name: String) -> (res: Self)
        ensures
            res == (DeployError::ConfigurationNotFound { config_name }),
    {
        DeployError::ConfigurationNotFound { config_name }
    }

    /// An invalid configuration.
    pub fn invalid_configuration(message: String) -> (res: Self)
        ensures
            res == (DeployError::InvalidConfiguration { message }),
    {
        DeployError::InvalidConfiguration { message }
    }

    /// A failed copy of a closure from `source` to `target`.
    pub fn copy_closure_failed(source: String, target: String, message: String) -> (res: Self)
        ensures
            res == (DeployError::CopyClosureFailed { src: source, target, message }),
    {
        DeployError::CopyClosureFailed { src: source, target, message }
    }

    /// An operation that ran out of time.
    pub fn timeout(operation: String, timeout_secs: u64) -> (res: Self)
        ensures
            res == (DeployError::Timeout { operation, timeout_secs }),
    {
        DeployError::Timeout { operation, timeout_secs }
    }

    /// Several errors at once.
    pub fn multiple(errors: Vec<DeployError>) -> (res: Self)
        ensures
            res == (DeployError::Multiple { errors }),
    {
        DeployError::Multiple { errors }
    }

    /// A failure to pass a message between tasks.
    pub fn channel(message: String) -> (res: Self)
        ensures
            res == DeployError::Channel(message),
    {
        DeployError::Channel(message)
    }

    /// How this error reads.
    pub fn message(&self) -> (res: String)
        ensures
            res@ == message_of(*self),
    {
        match self {
            DeployError::Io(m) => {
                let mut s = copy_str("IO error: ");
                s.append(m.as_str());
                s
            },
            DeployError::Json(m) => {
                let mut s = copy_str("JSON parsing error: ");
                s.append(m.as_str());
                s
            },
            DeployError::CommandFailed { command, stderr, .. } => {
                let mut s = copy_str("Command execution failed: ");
                s.append(command.as_str());
                s.append("\nError output: ");
                s.append(stderr.as_str());
                s
            },
            DeployError::NixEvaluationFailed { flake_path, message } => {
                let mut s = copy_str("Nix evaluation failed for flake at ");
                s.append(flake_path.as_str());
                s.append(": ");
                s.append(message.as_str());
                s
            },
            DeployError::NixBuildFailed { config_name, message, .. } => {
                let mut s = copy_str("Nix build failed for configuration ");
                s.append(config_name.as_str());
                s.append(": ");
                s.append(message.as_str());
                s
            },
            DeployError::DeploymentFailed { config_name, message } => {
                let mut s = copy_str("Deployment failed for configuration ");
                s.append(config_name.as_str());
                s.append(": ");
                s.append(message.as_str());
                s
            },
            DeployError::SshConnectionFailed { host, message } => {
                let mut s = copy_str("SSH connection failed to ");
                s.append(host.as_str());
                s.append(": ");
                s.append(message.as_str());
                s
            },
            DeployError::ConfigurationNotFound { config_name } => {
                let mut s = copy_str("Configuration not found: ");
                s.append(config_name.as_str());
                s
            },
            DeployError::InvalidConfiguration { message } => {
                let mut s = copy_str("Invalid configuration: ");
                s.append(message.as_str());
                s
            },
            DeployError::CopyClosureFailed { src, target, message } => {
                let mut s = copy_str("Copy closure failed from ");
                s.append(src.as_str());
                s.append(" to ");
                s.append(target.as_str());
                s.append(": ");
                s.append(message.as_str());
                s
            },
            DeployError::Timeout { operation, timeout_secs } => {
                let mut s = copy_str("Timeout occurred during ");
                s.append(operation.as_str());
                s.append(" after ");
                push_decimal(&mut s, *timeout_secs);
                s.append(" seconds");
                s
            },
            DeployError::Multiple { .. } => copy_str("Multiple errors occurred"),
            DeployError::Channel(m) => {
                let mut s = copy_str("Channel error: ");
                s.append(m.as_str());
                s
            },
            DeployError::Other(m) => {
                let mut s = copy_str("Other error: ");
                s.append(m.as_str());
                s
            },
        }
    }

    /// The last `lines` lines worth showing for this error.
    pub fn get_error_tail(&self, lines: usize) -> (res: Vec<String>)
        ensures
            views(res@) == error_tail_of(*self, lines as nat),
    {
        match self {
            DeployError::CommandFailed { stderr, .. } => tail_lines(stderr, lines),
            DeployError::NixBuildFailed { message, .. } => tail_lines(message, lines),
            DeployError::DeploymentFailed { message, .. } => tail_lines(message, lines),
            DeployError::SshConnectionFailed { message, .. } => tail_lines(message, lines),
            _ => {
                let mut res = Vec::new();
                res.push(self.message());
                assert(views(res@) =~= seq![message_of(*self)]);
                res
            },
        }
    }
}

/// An error shows at most `n` lines, and at most one when it is not the
/// output of a command, build, deployment or connection.
pub proof fn lemma_error_tail_bounded(e: DeployError, n: nat)
    ensures
        error_tail_of(e, n).len() <= if n >= 1 {
            n
        } else {
            1
        },
        !(e is CommandFailed || e is NixBuildFailed || e is DeploymentFailed || e is SshConnectionFailed)
            ==> error_tail_of(e, n) == seq![message_of(e)],
{
}

/// The values of the successful results, in order.
pub open spec fn ok_values<T>(s: Seq<Result<T, DeployError>>) -> Seq<T>
    decreases s.len(),
{
    if s.len() == 0 {
        Seq::empty()
    } else {
        let rest = ok_values(s.drop_last());
        match s.last() {
            Ok(v) => rest.push(v),
            Err(_) => rest,
        }
    }
}

/// The errors of the failed results, in order.
pub open spec fn err_values<T>(s: Seq<Result<T, DeployError>>) -> Seq<DeployError>
    decreases s.len(),
{
    if s.len() == 0 {
        Seq::empty()
    } else {
        let rest = err_values(s.drop_last());
        match s.last() {
            Ok(_) => rest,
            Err(e) => rest.push(e),
        }
    }
}

/// Collects the results, going on past errors and keeping all of them.
pub fn collect_results<T>(results: Vec<Result<T, DeployError>>) -> (res: Result<
    Vec<T>,
    DeployError,
>)
    ensures
        match res {
            Ok(values) => err_values(results@).len() == 0 && values@ == ok_values(results@),
            Err(e) => err_values(results@).len() > 0 && if ok_values(results@).len() == 0
                && err_values(results@).len() == 1 {
                e == err_values(results@)[0]
            } else {
                e matches DeployError::Multiple { errors } && errors@ == err_values(results@)
            },
        },
{
    let mut successes: Vec<T> = Vec::new();
    let mut errors: Vec<DeployError> = Vec::new();
    let ghost all = results@;
    for result in it: results
        invariant
            it.seq() == all,
            successes@ == ok_values(all.take(it.index() as int)),
            errors@ == err_values(all.take(it.index() as int)),
    {
        assert(all.take(it.index() + 1).drop_last() =~= all.take(it.index() as int));
        match result {
            Ok(value) => successes.push(value),
            Err(error) => errors.push(error),
        }
    }
    assert(all.take(all.len() as int) =~= all);
    if errors.len() == 0 {
        Ok(successes)
    } else if successes.len() == 0 {
        if errors.len() == 1 {
            let e = errors.pop().unwrap();
            Err(e)
        } else {
            Err(DeployError::multiple(errors))
        }
    } else {
        Err(DeployError::multiple(errors))
    }
}

/// Every result is either a value or an error: none is lost.
pub proof fn lemma_results_partition<T>(s: Seq<Result<T, DeployError>>)
    ensures
        ok_values(s).len() + err_values(s).len() == s.len(),
    decreases s.len(),
{
    if s.len() > 0 {
        lemma_results_partition(s.drop_last());
    }
}

/// When nothing failed, every result is a value.
pub proof fn lemma_no_errors_keeps_all<T>(s: Seq<Result<T, DeployError>>)
    requires
        err_values(s).len() == 0,
    ensures
        ok_values(s).len() == s.len(),
        forall|i: int| #![trigger s[i]] 0 <= i < s.len() ==> (s[i] matches Ok(v) && ok_values(s)[i] == v),
    decreases s.len(),
{
    lemma_results_partition(s);
    if s.len() > 0 {
        lemma_no_errors_keeps_all(s.drop_last());
        assert forall|i: int| #![trigger s[i]] 0 <= i < s.len() implies (s[i] matches Ok(v) && ok_values(s)[i]
            == v) by {
            if i < s.len() - 1 {
                assert(s.drop_last()[i] == s[i]);
            }
        }
    }
}

} // verus!
