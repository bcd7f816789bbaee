//! Evaluating a flake: its deployment metadata and its configurations.
use vstd::prelude::*;

use crate::errors::{message_of, DeployError};
use crate::execution::{
    destination, destination_of, executor_for, exited_zero, is_exit_zero, CommandResult, Executor,
};
use crate::nix::flake::APPLY_DEPLOY;
use crate::text::{copy_str, decimal, join, join_strings, push_decimal, views};
use crate::types::ExecutionTarget;
use crate::operations::deployment::exit_code_text;
use crate::operations::deployment::exit_code_debug;

verus! {

/// The timeout of the metadata evaluation: five minutes.
pub const METADATA_TIMEOUT_SECS: u64 = 300;

/// Evaluates one flake.
pub struct Evaluator {
    flake_path: String,
    executor: Executor,
}

impl View for Evaluator {
    type V = (Seq<char>, Executor);

    /// The path of the flake, and the executor that evaluates it.
    closed spec fn view(&self) -> (Seq<char>, Executor) {
        (self.flake_path@, self.executor)
    }
}

/// `e` is the failed evaluation of the flake at `path`, with `message`.
pub open spec fn is_evaluation_failure(e: DeployError, path: Seq<char>, message: Seq<char>) -> bool {
    e matches DeployError::NixEvaluationFailed { flake_path, message: m } && flake_path@ == path
        && m@ == message
}

/// The expression before the flake path.
pub const CONFIGURATIONS_HEAD: &'static str = "\n            with builtins;\n            let flake = getFlake \"path:";

/// The expression after the flake path.
pub const CONFIGURATIONS_TAIL: &'static str = "\";\n            in mapAttrs\n                (name: config: config.config.system.build.toplevel)\n                flake.outputs.nixosConfigurations\n            ";

/// The Nix expression for the systems of every configuration of the flake
/// at `path`.
pub open spec fn configurations_expression_of(path: Seq<char>) -> Seq<char> {
    CONFIGURATIONS_HEAD@ + path + CONFIGURATIONS_TAIL@
}

/// The program that copies a flake to a remote evaluation host.
pub const FLAKE_COPY_PROGRAM: &'static str = "rsync";

/// Where a flake is copied to on a remote evaluation host.
pub const REMOTE_FLAKE_DIR: &'static str = "/tmp/nixdeploy-flake";

/// The remote shell `rsync` uses: `ssh`, with `-p port` when a port is set.
pub open spec fn remote_shell(port: Option<u16>) -> Seq<char> {
    match port {
        Some(p) => "ssh -p "@ + decimal(p as nat),
        None => "ssh"@,
    }
}

/// The `rsync` arguments that copy the flake at `path` into
/// `REMOTE_FLAKE_DIR` on `host`.
pub open spec fn remote_flake_copy_args_of(
    path: Seq<char>,
    host: Seq<char>,
    username: Option<String>,
    port: Option<u16>,
) -> Seq<Seq<char>> {
    seq![
        "-a"@,
        "--delete"@,
        "-e"@,
        remote_shell(port),
        path + "/"@,
        destination_of(host, username) + ":"@ + REMOTE_FLAKE_DIR@,
    ]
}

/// How a failed copy of the flake to `host` begins.
pub open spec fn flake_copy_failure(host: Seq<char>) -> Seq<char> {
    "Failed to copy flake to remote host "@ + host + ": "@
}

impl Evaluator {
    /// The executor that runs the evaluations.
    pub fn executor(&self) -> (res: &Executor)
        ensures
            *res == self@.1,
    {
        &self.executor
    }

    /// The path of the flake this evaluator evaluates.
    pub fn flake_path(&self) -> (res: &String)
        ensures
            res@ == self@.0,
    {
        &self.flake_path
    }
    /// An evaluator of the flake at `flake_path`, evaluating on `target`.
    pub fn new(flake_path: String, evaluation_target: &ExecutionTarget) -> (res: Self)
        ensures
            res@ == (flake_path@, executor_for(*evaluation_target)),
    {
        Evaluator { flake_path, executor: Executor::from_target(evaluation_target) }
    }

    /// A failed evaluation of this flake with `message`.
    pub fn failure(&self, message: String) -> (res: DeployError)
        ensures
            is_evaluation_failure(res, self@.0, message@),
    {
        DeployError::nix_evaluation_failed(self.flake_path.clone(), message)
    }

    /// The arguments of `nix` that read the deployment settings of every
    /// configuration, as JSON.
    pub fn metadata_args(&self) -> (res: Vec<String>)
        ensures
            views(res@) == seq![
                "eval"@,
                "--json"@,
                "path:"@ + self@.0 + "#nixosConfigurations"@,
                "--apply"@,
                APPLY_DEPLOY@,
            ],
    {
        let mut v: Vec<String> = Vec::new();
        v.push(copy_str("eval"));
        v.push(copy_str("--json"));
        let mut e = copy_str("path:");
        e.append(self.flake_path.as_str());
        e.append("#nixosConfigurations");
        v.push(e);
        v.push(copy_str("--apply"));
        v.push(copy_str(APPLY_DEPLOY));
        assert(views(v@) =~= seq![
            "eval"@,
            "--json"@,
            "path:"@ + self@.0 + "#nixosConfigurations"@,
            "--apply"@,
            APPLY_DEPLOY@,
        ]);
        v
    }

    /// The JSON text of the deployment metadata, from the result of the
    /// evaluation: its output lines joined by newlines; a failed evaluation
    /// when the command failed or exited with another code than 0.
    pub fn metadata_output(&self, result: Result<CommandResult, DeployError>) -> (res: Result<
        String,
        DeployError,
    >)
        ensures
            match result {
                Err(e) => res matches Err(f) && is_evaluation_failure(
                    f,
                    self@.0,
                    "Failed to evaluate deployment metadata: "@ + message_of(e),
                ),
                Ok(r) => if exited_zero(r.exit_code) {
                    res matches Ok(text) && text@ == join(views(r.stdout_lines@), "\n"@)
                } else {
                    res matches Err(f) && is_evaluation_failure(
                        f,
                        self@.0,
                        "nix eval failed: "@ + join(views(r.stderr_lines@), "\n"@),
                    )
                },
            },
    {
        match result {
            Err(e) => {
                let mut m = copy_str("Failed to evaluate deployment metadata: ");
                let em = e.message();
                m.append(em.as_str());
                Err(self.failure(m))
            },
            Ok(r) => {
                if !is_exit_zero(r.exit_code) {
                    let mut m = copy_str("nix eval failed: ");
                    let joined = join_strings(&r.stderr_lines, "\n");
                    m.append(joined.as_str());
                    return Err(self.failure(m));
                }
                Ok(join_strings(&r.stdout_lines, "\n"))
            },
        }
    }

    /// The failure to read the metadata JSON, with the parser's complaint.
    pub fn metadata_parse_failure(&self, complaint: &str) -> (res: DeployError)
        ensures
            is_evaluation_failure(res, self@.0, "Failed to parse deployment metadata JSON: "@ + complaint@),
    {
        let mut m = copy_str("Failed to parse deployment metadata JSON: ");
        m.append(complaint);
        self.failure(m)
    }

    /// The Nix expression for the systems of every configuration.
    pub fn configurations_expression(&self) -> (res: String)
        ensures
            res@ == configurations_expression_of(self@.0),
    {
        let mut e = copy_str(CONFIGURATIONS_HEAD);
        e.append(self.flake_path.as_str());
        e.append(CONFIGURATIONS_TAIL);
        e
    }

    /// The arguments of `nix-eval-jobs` that evaluate every configuration;
    /// a failed evaluation when the evaluator is not this machine.
    pub fn configurations_args(&self) -> (res: Result<Vec<String>, DeployError>)
        ensures
            self@.1 is Local ==> (res matches Ok(args) && views(args@) == seq![
                "--workers"@,
                "12"@,
                "--expr"@,
                configurations_expression_of(self@.0),
            ]),
            !(self@.1 is Local) ==> (res matches Err(f) && is_evaluation_failure(
                f,
                self@.0,
                "Remote evaluation not yet implemented - please use local evaluation"@,
            )),
    {
        if !self.executor_is_local() {
            return Err(
                self.failure(
                    copy_str("Remote evaluation not yet implemented - please use local evaluation"),
                ),
            );
        }
        let mut v: Vec<String> = Vec::new();
        v.push(copy_str("--workers"));
        v.push(copy_str("12"));
        v.push(copy_str("--expr"));
        v.push(self.configurations_expression());
        assert(views(v@) =~= seq![
            "--workers"@,
            "12"@,
            "--expr"@,
            configurations_expression_of(self@.0),
        ]);
        Ok(v)
    }

    /// What the end of `nix-eval-jobs` means: nothing when it succeeded,
    /// else a failed evaluation with its exit code.
    pub fn evaluation_exit(&self, success: bool, exit_code: Option<i32>) -> (res: Option<DeployError>)
        ensures
            success ==> res is None,
            !success ==> (res matches Some(f) && is_evaluation_failure(
                f,
                self@.0,
                "nix-eval-jobs failed with exit code: "@ + exit_code_text(exit_code),
            )),
    {
        if success {
            return None;
        }
        let mut m = copy_str("nix-eval-jobs failed with exit code: ");
        let c = exit_code_debug(exit_code);
        m.append(c.as_str());
        Some(self.failure(m))
    }

    /// The arguments of `rsync` (`FLAKE_COPY_PROGRAM`) that copy the flake
    /// to the remote evaluation host `target`: archive mode, deleting what
    /// is no longer in the flake, over `ssh` (with the target's port), from
    /// the flake's directory into `REMOTE_FLAKE_DIR` on `user@host`.
    /// Nothing to run when the target is this machine.
    pub fn remote_flake_copy_args(&self, target: &ExecutionTarget) -> (res: Option<Vec<String>>)
        ensures
            match *target {
                ExecutionTarget::Local => res is None,
                ExecutionTarget::Ssh { host, username, port } => res matches Some(args) && views(
                    args@,
                ) == remote_flake_copy_args_of(self@.0, host@, username, port),
            },
    {
        match target {
            ExecutionTarget::Local => None,
            ExecutionTarget::Ssh { host, username, port } => {
                let mut shell = copy_str("ssh");
                match port {
                    Some(p) => {
                        shell.append(" -p ");
                        push_decimal(&mut shell, *p as u64);
                        assert(shell@ == "ssh -p "@ + decimal(*p as nat)) by {
                            reveal_strlit("ssh");
                            reveal_strlit(" -p ");
                            reveal_strlit("ssh -p ");
                        }
                    },
                    None => {},
                }
                assert(shell@ == remote_shell(*port));
                let mut source = self.flake_path.clone();
                source.append("/");
                let mut dest = destination(host, username);
                dest.append(":");
                dest.append(REMOTE_FLAKE_DIR);
                let mut v: Vec<String> = Vec::new();
                v.push(copy_str("-a"));
                v.push(copy_str("--delete"));
                v.push(copy_str("-e"));
                v.push(shell);
                v.push(source);
                v.push(dest);
                assert(views(v@) =~= remote_flake_copy_args_of(self@.0, host@, *username, *port));
                Some(v)
            },
        }
    }

    /// Where the flake is for an evaluation on `target`, given what the
    /// copy to it came to: the flake's own path when the target is this
    /// machine (nothing was copied); `REMOTE_FLAKE_DIR` when the copy to a
    /// remote host succeeded; else a failed evaluation naming the host with
    /// the copy's failure or error output.
    pub fn remote_flake_outcome(
        &self,
        target: &ExecutionTarget,
        result: Result<CommandResult, DeployError>,
    ) -> (res: Result<String, DeployError>)
        ensures
            match *target {
                ExecutionTarget::Local => res matches Ok(p) && p@ == self@.0,
                ExecutionTarget::Ssh { host, .. } => match result {
                    Err(e) => res matches Err(f) && is_evaluation_failure(
                        f,
                        self@.0,
                        flake_copy_failure(host@) + message_of(e),
                    ),
                    Ok(r) => if exited_zero(r.exit_code) {
                        res matches Ok(q) && q@ == REMOTE_FLAKE_DIR@
                    } else {
                        res matches Err(f) && is_evaluation_failure(
                            f,
                            self@.0,
                            flake_copy_failure(host@) + join(views(r.stderr_lines@), "\n"@),
                        )
                    },
                },
            },
    {
        match target {
            ExecutionTarget::Local => Ok(self.flake_path.clone()),
            ExecutionTarget::Ssh { host, .. } => {
                let mut m = copy_str("Failed to copy flake to remote host ");
                m.append(host.as_str());
                m.append(": ");
                match result {
                    Err(e) => {
                        let em = e.message();
                        m.append(em.as_str());
                        Err(self.failure(m))
                    },
                    Ok(r) => {
                        if is_exit_zero(r.exit_code) {
                            Ok(copy_str(REMOTE_FLAKE_DIR))
                        } else {
                            let joined = join_strings(&r.stderr_lines, "\n");
                            m.append(joined.as_str());
                            Err(self.failure(m))
                        }
                    },
                }
            },
        }
    }

    /// Whether the evaluation runs on this machine.
    pub fn executor_is_local(&self) -> (res: bool)
        ensures
            res == (self@.1 is Local),
    {
        self.executor.is_local()
    }
}

} // verus!
