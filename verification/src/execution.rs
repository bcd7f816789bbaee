//! Command executors that run a program on this machine or through `ssh`,
//! and what their runs report.
use vstd::prelude::*;

use crate::errors::DeployError;
use crate::text::{
    contains_seq, copy_str, lemma_views_push, decimal, join, join_strings, push_decimal, contains_str, views,
};
use crate::types::{copy_opt_string, ExecutionTarget, Verbosity};

verus! {

/// Runs commands on this machine.
#[derive(Debug, Clone, Copy)]
pub struct LocalExecutor;

impl LocalExecutor {
    /// The local executor.
    pub fn new() -> (res: Self)
        ensures
            res == LocalExecutor,
    {
        LocalExecutor
    }
}

/// Runs commands on a remote host through `ssh`.
pub struct SshExecutor {
    pub host: String,
    pub username: Option<String>,
    pub port: Option<u16>,
}

impl Clone for SshExecutor {
    fn clone(&self) -> (res: Self)
        ensures
            res == *self,
    {
        SshExecutor {
            host: self.host.clone(),
            username: copy_opt_string(&self.username),
            port: self.port,
        }
    }
}

/// Where `ssh` connects: `user@host`, or `host`.
pub open spec fn destination_of(host: Seq<char>, username: Option<String>) -> Seq<char> {
    match username {
        Some(u) => u@ + "@"@ + host,
        None => host,
    }
}

/// The options that make `ssh` run unattended.
pub open spec fn batch_options() -> Seq<Seq<char>> {
    seq![
        "-o"@,
        "BatchMode=yes"@,
        "-o"@,
        "StrictHostKeyChecking=no"@,
        "-o"@,
        "UserKnownHostsFile=/dev/null"@,
    ]
}

/// The `-p port` arguments, when a port is set.
pub open spec fn port_args(port: Option<u16>) -> Seq<Seq<char>> {
    match port {
        Some(p) => seq!["-p"@, decimal(p as nat)],
        None => Seq::empty(),
    }
}

/// The arguments that `ssh` gets before the remote command.
pub open spec fn ssh_args_of(e: SshExecutor) -> Seq<Seq<char>> {
    batch_options() + port_args(e.port) + seq![destination_of(e.host@, e.username)]
}

/// `user@host` or `host`.
pub fn destination(host: &String, username: &Option<String>) -> (res: String)
    ensures
        res@ == destination_of(host@, *username),
{
    match username {
        Some(u) => {
            let mut s = u.clone();
            s.append("@");
            s.append(host.as_str());
            s
        },
        None => host.clone(),
    }
}

impl SshExecutor {
    /// An executor for `host`, with the default user and port.
    pub fn new(host: String) -> (res: Self)
        ensures
            res.host == host,
            res.username is None,
            res.port is None,
    {
        SshExecutor { host, username: None, port: None }
    }

    /// This executor, logging in as `username`.
    pub fn with_username(self, username: String) -> (res: Self)
        ensures
            res.host == self.host,
            res.username == Some(username),
            res.port == self.port,
    {
        SshExecutor { username: Some(username), ..self }
    }

    /// This executor, connecting to `port`.
    pub fn with_port(self, port: u16) -> (res: Self)
        ensures
            res.host == self.host,
            res.username == self.username,
            res.port == Some(port),
    {
        SshExecutor { port: Some(port), ..self }
    }

    /// The arguments that `ssh` gets before the remote command.
    pub fn build_ssh_args(&self) -> (res: Vec<String>)
        ensures
            views(res@) == ssh_args_of(*self),
    {
        let mut args: Vec<String> = Vec::new();
        args.push(copy_str("-o"));
        args.push(copy_str("BatchMode=yes"));
        args.push(copy_str("-o"));
        args.push(copy_str("StrictHostKeyChecking=no"));
        args.push(copy_str("-o"));
        args.push(copy_str("UserKnownHostsFile=/dev/null"));
        match self.port {
            Some(p) => {
                args.push(copy_str("-p"));
                let mut s = String::new();
                push_decimal(&mut s, p as u64);
                args.push(s);
            },
            None => {},
        }
        args.push(destination(&self.host, &self.username));
        assert(views(args@) =~= ssh_args_of(*self));
        args
    }

    /// The whole `ssh` command line that runs `program` with `args`
    /// remotely (after `ssh` itself).
    pub fn command_line(&self, program: &str, args: &Vec<String>) -> (res: Vec<String>)
        ensures
            views(res@) == ssh_args_of(*self) + seq![program@] + views(args@),
    {
        let mut res = self.build_ssh_args();
        res.push(copy_str(program));
        let mut i: usize = 0;
        let ghost head = views(res@);
        while i < args.len()
            invariant
                i <= args@.len(),
                views(res@) == head + views(args@).take(i as int),
            decreases args@.len() - i,
        {
            let a = args[i].clone();
            proof {
                lemma_views_push(res@, a);
            }
            res.push(a);
            assert(views(res@) =~= head + views(args@).take(i + 1));
            i = i + 1;
        }
        assert(views(args@).take(args@.len() as int) =~= views(args@));
        res
    }

    /// How a command run through this executor is named in messages.
    pub fn describe(&self, program: &str, args: &Vec<String>) -> (res: String)
        ensures
            res@ == "ssh "@ + self.host@ + " "@ + program@ + " "@ + join(views(args@), " "@),
    {
        let mut s = copy_str("ssh ");
        s.append(self.host.as_str());
        s.append(" ");
        s.append(program);
        s.append(" ");
        let joined = join_strings(args, " ");
        s.append(joined.as_str());
        s
    }
}

/// How a command run on this machine is named in messages.
pub fn describe_local(program: &str, args: &Vec<String>) -> (res: String)
    ensures
        res@ == program@ + " "@ + join(views(args@), " "@),
{
    let mut s = copy_str(program);
    s.append(" ");
    let joined = join_strings(args, " ");
    s.append(joined.as_str());
    s
}

/// The timeout to use: the given one, else `default`.
pub fn timeout_or(timeout_secs: Option<u64>, default: u64) -> (res: u64)
    ensures
        res == match timeout_secs {
            Some(t) => t,
            None => default,
        },
{
    match timeout_secs {
        Some(t) => t,
        None => default,
    }
}

/// Whether a command exited with code 0.
pub open spec fn exited_zero(exit_code: Option<i32>) -> bool {
    exit_code == Some(0i32)
}

/// Whether a command exited with code 0.
pub fn is_exit_zero(exit_code: Option<i32>) -> (res: bool)
    ensures
        res == exited_zero(exit_code),
{
    match exit_code {
        Some(c) => c == 0,
        None => false,
    }
}

/// What a finished command reported.
pub struct CommandResult {
    pub exit_code: Option<i32>,
    pub stdout_lines: Vec<String>,
    pub stderr_lines: Vec<String>,
}

/// The result of a finished command named `description`: its output when
/// it succeeded, else a failed command with its exit code and its error
/// lines joined by newlines.
pub fn wait_outcome(
    description: String,
    success: bool,
    exit_code: Option<i32>,
    stdout_lines: Vec<String>,
    stderr_lines: Vec<String>,
) -> (res: Result<CommandResult, DeployError>)
    ensures
        success ==> (res matches Ok(r) && r.exit_code == exit_code && r.stdout_lines
            == stdout_lines && r.stderr_lines == stderr_lines),
        !success ==> (res matches Err(DeployError::CommandFailed { command, exit_code: code, stderr })
            && command == description && code == exit_code && stderr@ == join(
            views(stderr_lines@),
            "\n"@,
        )),
{
    if !success {
        let stderr = join_strings(&stderr_lines, "\n");
        return Err(DeployError::command_failed(description, exit_code, stderr));
    }
    Ok(CommandResult { exit_code, stdout_lines, stderr_lines })
}

/// Whether a line of standard output is passed on while streaming: every
/// line in detailed mode; in progress mode only lines that mention `error`
/// or `warning`, or that are longer than 100 bytes.
pub open spec fn forwards_line_spec(verbosity: Verbosity, line: &str) -> bool {
    match verbosity {
        Verbosity::Detailed => true,
        Verbosity::Progress => contains_seq(line@, "error"@) || contains_seq(line@, "warning"@)
            || line.len() > 100,
    }
}

/// Whether a line of standard output is passed on while streaming.
pub fn forwards_line(verbosity: Verbosity, line: &str) -> (res: bool)
    ensures
        res == forwards_line_spec(verbosity, line),
{
    match verbosity {
        Verbosity::Detailed => true,
        Verbosity::Progress => contains_str(line, "error") || contains_str(line, "warning")
            || line.len() > 100,
    }
}

/// A streamed line as it is passed on: `[prefix] line`.
pub fn tagged_line(host_prefix: &str, line: &str) -> (res: String)
    ensures
        res@ == "["@ + host_prefix@ + "] "@ + line@,
{
    let mut s = copy_str("[");
    s.append(host_prefix);
    s.append("] ");
    s.append(line);
    s
}

/// How a command is run.
pub enum Executor {
    Local(LocalExecutor),
    Ssh(SshExecutor),
}

impl Clone for Executor {
    fn clone(&self) -> (res: Self)
        ensures
            res == *self,
    {
        match self {
            Executor::Local(l) => Executor::Local(*l),
            Executor::Ssh(s) => Executor::Ssh(s.clone()),
        }
    }
}

/// The executor for a target: local, or `ssh` with the target's host,
/// user and port.
pub open spec fn executor_for(target: ExecutionTarget) -> Executor {
    match target {
        ExecutionTarget::Local => Executor::Local(LocalExecutor),
        ExecutionTarget::Ssh { host, username, port } => Executor::Ssh(
            SshExecutor { host, username, port },
        ),
    }
}

/// An executor made for a target runs commands on this machine exactly
/// when the target is this machine.
pub proof fn lemma_executor_runs_where_target_is(target: ExecutionTarget)
    ensures
        (executor_for(target) is Local) <==> (target is Local),
{
}

impl Executor {
    /// The executor that runs commands on `target`.
    pub fn from_target(target: &ExecutionTarget) -> (res: Self)
        ensures
            res == executor_for(*target),
    {
        match target {
            ExecutionTarget::Local => Executor::Local(LocalExecutor::new()),
            ExecutionTarget::Ssh { host, username, port } => {
                let mut executor = SshExecutor::new(host.clone());
                match username {
                    Some(u) => {
                        executor = executor.with_username(u.clone());
                    },
                    None => {},
                }
                match port {
                    Some(p) => {
                        executor = executor.with_port(*p);
                    },
                    None => {},
                }
                Executor::Ssh(executor)
            },
        }
    }

    /// Whether commands run on this machine.
    pub fn is_local(&self) -> (res: bool)
        ensures
            res == (*self is Local),
    {
        match self {
            Executor::Local(_) => true,
            Executor::Ssh(_) => false,
        }
    }
}

} // verus!
