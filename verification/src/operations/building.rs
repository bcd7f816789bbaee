//! Building derivations and copying their closures between hosts.
use vstd::prelude::*;

use crate::errors::{message_of, DeployError};
use crate::execution::{
    destination, destination_of, executor_for, exited_zero, is_exit_zero, CommandResult, Executor,
};
use crate::text::{
    copy_str, decimal, join, join_strings, push_decimal, trim, trim_str, views,
};
use crate::types::{host_identifier_of, opt_string_eq, opt_view, ExecutionTarget, NixosConfiguration};

verus! {

/// The timeout of a build or a copy when none is given: 30 minutes.
pub const BUILD_TIMEOUT_SECS: u64 = 1800;

/// The timeout of a store path check when none is given.
pub const CHECK_TIMEOUT_SECS: u64 = 30;

/// Builds derivations on one host.
pub struct Builder {
    executor: Executor,
    host_identifier: String,
}

impl View for Builder {
    type V = (Executor, Seq<char>);

    /// The executor that builds, and the name of its host.
    closed spec fn view(&self) -> (Executor, Seq<char>) {
        (self.executor, self.host_identifier@)
    }
}

/// `e` is the failed build of `drv` for `config`, with `message`.
pub open spec fn is_build_failure(
    e: DeployError,
    config: NixosConfiguration,
    drv: String,
    message: Seq<char>,
) -> bool {
    e matches DeployError::NixBuildFailed { config_name, drv_path: Some(d), message: m }
        && config_name@ == config.name@ && d@ == drv@ && m@ == message
}

/// The store address `nix-copy-closure` copies to: `[user@]host`, as
/// `ssh://[user@]host:port` when a port is set.
pub open spec fn copy_destination(host: Seq<char>, username: Option<String>, port: Option<u16>) -> Seq<char> {
    match port {
        Some(p) => "ssh://"@ + destination_of(host, username) + ":"@ + decimal(p as nat),
        None => destination_of(host, username),
    }
}

/// The arguments of `nix-copy-closure` that copy `out_path` to a host;
/// with a port, the closure is also compressed and includes outputs.
pub open spec fn copy_args(
    host: Seq<char>,
    username: Option<String>,
    port: Option<u16>,
    out_path: Seq<char>,
) -> Seq<Seq<char>> {
    let base = seq!["--to"@, copy_destination(host, username, port), out_path];
    match port {
        Some(_) => seq!["--gzip"@, "--include-outputs"@] + base,
        None => base,
    }
}

/// The login `nix-copy-closure` uses on `host`: `user@host` when a user is
/// given, else `host` alone.
pub open spec fn login_at(host: Seq<char>, username: Option<String>) -> Seq<char> {
    match username {
        Some(u) => u@ + "@"@ + host,
        None => host,
    }
}

/// The arguments that copy a closure to an SSH target name the target's
/// login: without a port they are `--to`, `user@host` (or `host` when no
/// user is given) and the path; with a port `p` they are `--gzip`,
/// `--include-outputs`, `--to`, `ssh://user@host:p` (or `ssh://host:p`)
/// and the path.
pub proof fn lemma_copy_args_name_the_login(
    host: Seq<char>,
    username: Option<String>,
    port: Option<u16>,
    out_path: Seq<char>,
)
    ensures
        copy_args(host, username, port, out_path) == match port {
            None => seq!["--to"@, login_at(host, username), out_path],
            Some(p) => seq![
                "--gzip"@,
                "--include-outputs"@,
                "--to"@,
                "ssh://"@ + login_at(host, username) + ":"@ + decimal(p as nat),
                out_path,
            ],
        },
{
    match port {
        None => {},
        Some(p) => {
            assert(copy_args(host, username, port, out_path) =~= seq![
                "--gzip"@,
                "--include-outputs"@,
                "--to"@,
                "ssh://"@ + login_at(host, username) + ":"@ + decimal(p as nat),
                out_path,
            ]);
        },
    }
}

/// Whether a builder's executor already is the target: both local, or the
/// same host, user and port over SSH.
pub open spec fn executor_is_target(executor: Executor, target: ExecutionTarget) -> bool {
    match (executor, target) {
        (Executor::Local(_), ExecutionTarget::Local) => true,
        (Executor::Ssh(e), ExecutionTarget::Ssh { host, username, port }) => e.host@ == host@
            && opt_view(e.username) == opt_view(username) && e.port == port,
        _ => false,
    }
}

/// A builder made for a target already is that target: it never copies a
/// closure to the host it builds on.
pub proof fn lemma_builder_is_its_target(target: ExecutionTarget)
    ensures
        executor_is_target(executor_for(target), target),
{
}

impl Builder {
    /// The executor that runs this builder's commands.
    pub fn executor(&self) -> (res: &Executor)
        ensures
            *res == self@.0,
    {
        &self.executor
    }

    /// The name of the host this builder works on.
    pub fn host_identifier(&self) -> (res: &String)
        ensures
            res@ == self@.1,
    {
        &self.host_identifier
    }
    /// A builder on `build_target`.
    pub fn new(build_target: &ExecutionTarget) -> (res: Self)
        ensures
            res@ == (executor_for(*build_target), host_identifier_of(*build_target)),
    {
        Builder {
            executor: Executor::from_target(build_target),
            host_identifier: build_target.host_identifier(),
        }
    }

    /// The derivation to build for `config`; a failed build when it has none.
    pub fn derivation_to_build(config: &NixosConfiguration) -> (res: Result<String, DeployError>)
        ensures
            match config.drv_path {
                Some(d) => res matches Ok(p) && p@ == d@,
                None => res matches Err(DeployError::NixBuildFailed { config_name, drv_path, message })
                    && config_name@ == config.name@ && drv_path is None && message@
                    == "No derivation path available for building"@,
            },
    {
        match &config.drv_path {
            Some(d) => Ok(d.clone()),
            None => Err(
                DeployError::nix_build_failed(
                    config.name.clone(),
                    None,
                    copy_str("No derivation path available for building"),
                ),
            ),
        }
    }

    /// What the build of `drv_path` for `config` came to.
    pub fn build_outcome(
        config: &NixosConfiguration,
        drv_path: &String,
        result: Result<CommandResult, DeployError>,
    ) -> (res: Result<String, DeployError>)
        ensures
            match result {
                Err(e) => res matches Err(f) && is_build_failure(f, *config, *drv_path, message_of(e)),
                Ok(r) => if !exited_zero(r.exit_code) {
                    res matches Err(f) && is_build_failure(
                        f,
                        *config,
                        *drv_path,
                        "nix-build failed: "@ + join(views(r.stderr_lines@), "\n"@),
                    )
                } else if r.stdout_lines@.len() == 0 {
                    res matches Err(f) && is_build_failure(
                        f,
                        *config,
                        *drv_path,
                        "No output path returned from nix-build"@,
                    )
                } else {
                    res matches Ok(p) && p@ == trim(r.stdout_lines@.last()@)
                },
            },
    {
        match result {
            Err(e) => {
                let m = e.message();
                Err(DeployError::nix_build_failed(config.name.clone(), Some(drv_path.clone()), m))
            },
            Ok(r) => {
                if !is_exit_zero(r.exit_code) {
                    let mut m = copy_str("nix-build failed: ");
                    let joined = join_strings(&r.stderr_lines, "\n");
                    m.append(joined.as_str());
                    return Err(
                        DeployError::nix_build_failed(config.name.clone(), Some(drv_path.clone()), m),
                    );
                }
                let n = r.stdout_lines.len();
                if n == 0 {
                    return Err(
                        DeployError::nix_build_failed(
                            config.name.clone(),
                            Some(drv_path.clone()),
                            copy_str("No output path returned from nix-build"),
                        ),
                    );
                }
                Ok(trim_str(r.stdout_lines[n - 1].as_str()))
            },
        }
    }

    /// Whether this builder's executor already is `target`.
    pub fn executor_matches_target(&self, target: &ExecutionTarget) -> (res: bool)
        ensures
            res == executor_is_target(self@.0, *target),
    {
        match (&self.executor, target) {
            (Executor::Local(_), ExecutionTarget::Local) => true,
            (Executor::Ssh(e), ExecutionTarget::Ssh { host, username, port }) => {
                e.host.eq(host) && opt_string_eq(&e.username, username) && e.port == *port
            },
            _ => false,
        }
    }

    /// The `nix-copy-closure` arguments that copy `out_path` to `target`:
    /// nothing to do when this builder already is the target; a failed copy
    /// when the target is this machine.
    pub fn copy_closure_args(&self, out_path: &str, target: &ExecutionTarget) -> (res: Result<
        Option<Vec<String>>,
        DeployError,
    >)
        ensures
            executor_is_target(self@.0, *target) ==> res matches Ok(None),
            !executor_is_target(self@.0, *target) ==> match *target {
                ExecutionTarget::Local => res matches Err(
                    DeployError::CopyClosureFailed { src, target: t, message },
                ) && src@ == self@.1 && t@ == "local"@ && message@
                    == "Cannot copy closure to local from remote host using nix-copy-closure"@,
                ExecutionTarget::Ssh { host, username, port } => res matches Ok(Some(args))
                    && views(args@) == copy_args(host@, username, port, out_path@),
            },
            !executor_is_target(self@.0, *target) ==> match *target {
                ExecutionTarget::Ssh { host, username, port: None } => res matches Ok(Some(args))
                    && views(args@) == seq!["--to"@, login_at(host@, username), out_path@],
                _ => true,
            },
    {
        proof {
            if target is Ssh {
                lemma_copy_args_name_the_login(
                    target->host@,
                    target->username,
                    target->port,
                    out_path@,
                );
            }
        }
        if self.executor_matches_target(target) {
            return Ok(None);
        }
        match target {
            ExecutionTarget::Local => {
                Err(
                    DeployError::copy_closure_failed(
                        self.host_identifier.clone(),
                        target.host_identifier(),
                        copy_str("Cannot copy closure to local from remote host using nix-copy-closure"),
                    ),
                )
            },
            ExecutionTarget::Ssh { host, username, port } => {
                let base = destination(host, username);
                let spec_text = match port {
                    Some(p) => {
                        let mut s = copy_str("ssh://");
                        s.append(base.as_str());
                        s.append(":");
                        push_decimal(&mut s, *p as u64);
                        s
                    },
                    None => base,
                };
                let mut args: Vec<String> = Vec::new();
                match port {
                    Some(_) => {
                        args.push(copy_str("--gzip"));
                        args.push(copy_str("--include-outputs"));
                    },
                    None => {},
                }
                args.push(copy_str("--to"));
                args.push(spec_text);
                args.push(copy_str(out_path));
                assert(views(args@) =~= copy_args(host@, *username, *port, out_path@));
                Ok(Some(args))
            },
        }
    }

    /// What copying a closure to `target` came to: done, or a failed copy
    /// naming both hosts with the command's failure or error output.
    pub fn copy_outcome(&self, target: &ExecutionTarget, result: Result<CommandResult, DeployError>) -> (res:
        Result<(), DeployError>)
        ensures
            match result {
                Err(e) => res matches Err(DeployError::CopyClosureFailed { src, target: t, message })
                    && src@ == self@.1 && t@ == host_identifier_of(*target) && message@
                    == "nix-copy-closure failed: "@ + message_of(e),
                Ok(r) => if exited_zero(r.exit_code) {
                    res is Ok
                } else {
                    res matches Err(DeployError::CopyClosureFailed { src, target: t, message })
                        && src@ == self@.1 && t@ == host_identifier_of(*target) && message@
                        == "nix-copy-closure failed: "@ + join(views(r.stderr_lines@), "\n"@)
                },
            },
    {
        match result {
            Err(e) => {
                let mut m = copy_str("nix-copy-closure failed: ");
                let em = e.message();
                m.append(em.as_str());
                Err(DeployError::copy_closure_failed(self.host_identifier.clone(), target.host_identifier(), m))
            },
            Ok(r) => {
                if is_exit_zero(r.exit_code) {
                    Ok(())
                } else {
                    let mut m = copy_str("nix-copy-closure failed: ");
                    let joined = join_strings(&r.stderr_lines, "\n");
                    m.append(joined.as_str());
                    Err(
                        DeployError::copy_closure_failed(
                            self.host_identifier.clone(),
                            target.host_identifier(),
                            m,
                        ),
                    )
                }
            },
        }
    }
}

/// The arguments of `test` that check whether `store_path` exists.
pub fn store_path_check_args(store_path: &str) -> (res: Vec<String>)
    ensures
        views(res@) == seq!["-e"@, store_path@],
{
    let mut v: Vec<String> = Vec::new();
    v.push(copy_str("-e"));
    v.push(copy_str(store_path));
    assert(views(v@) =~= seq!["-e"@, store_path@]);
    v
}

/// Whether a store path exists, from the check's result: when the check
/// exited with 0; a check that could not run counts as absent.
pub fn check_store_path_exists(result: &Result<CommandResult, DeployError>) -> (res: bool)
    ensures
        res == (result matches Ok(r) && exited_zero(r.exit_code)),
{
    match result {
        Ok(r) => is_exit_zero(r.exit_code),
        Err(_) => false,
    }
}

} // verus!
