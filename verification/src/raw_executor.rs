//! Executors that start a program and hand back its running process: on
//! this machine, or through a plain `ssh` invocation.
use vstd::prelude::*;

use crate::execution::{destination, destination_of, port_args};
use crate::text::{copy_str, push_decimal, views};

verus! {

/// How a program is started.
pub enum Executor {
    Local(LocalExecutor),
    Ssh(SshExecutor),
}

/// Starts programs on this machine.
#[derive(Debug, Clone, Copy)]
pub struct LocalExecutor;

impl LocalExecutor {
    /// The local executor.
    pub fn new() -> (res: Self)
        ensures
            res == LocalExecutor,
    {
        LocalExecutor {  }
    }
}

/// Starts programs on a remote host through `ssh`.
pub struct SshExecutor {
    pub host: String,
    pub username: Option<String>,
    pub port: Option<u16>,
}

/// The arguments that `ssh` gets before the remote program: the port, if
/// any, then the destination.
pub open spec fn plain_ssh_args_of(e: SshExecutor) -> Seq<Seq<char>> {
    port_args(e.port) + seq![destination_of(e.host@, e.username)]
}

impl SshExecutor {
    /// An executor for `host`, with the default user and port.
    pub fn new(host: String) -> (res: Self)
        ensures
            res.host == host,
            res.username is None,
            res.port is None,
    {
        SshExecutor { host, username: None, port: None }
    }

    /// This executor, logging in as `username`.
    pub fn with_username(self, username: String) -> (res: Self)
        ensures
            res.host == self.host,
            res.username == Some(username),
            res.port == self.port,
    {
        SshExecutor { username: Some(username), ..self }
    }

    /// This executor, connecting to `port`.
    pub fn with_port(self, port: u16) -> (res: Self)
        ensures
            res.host == self.host,
            res.username == self.username,
            res.port == Some(port),
    {
        SshExecutor { port: Some(port), ..self }
    }

    /// The arguments that `ssh` gets before the remote program.
    pub fn ssh_args(&self) -> (res: Vec<String>)
        ensures
            views(res@) == plain_ssh_args_of(*self),
    {
        let mut args: Vec<String> = Vec::new();
        match self.port {
            Some(p) => {
                args.push(copy_str("-p"));
                let mut s = String::new();
                push_decimal(&mut s, p as u64);
                args.push(s);
            },
            None => {},
        }
        args.push(destination(&self.host, &self.username));
        assert(views(args@) =~= plain_ssh_args_of(*self));
        args
    }
}

} // verus!
