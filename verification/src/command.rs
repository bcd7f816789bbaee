//! Commands run by a host: their output, failures, and how their output
//! lines are shown.
use vstd::prelude::*;

use crate::text::{copy_str, push_char};

verus! {

/// How a process ended: whether it succeeded, and how its exit status reads.
#[derive(Debug)]
pub struct ExitOutcome {
    pub success: bool,
    pub description: String,
}

/// Everything a finished command printed, and how it ended.
#[derive(Debug)]
pub struct CommandOutput {
    pub stdout: String,
    pub stderr: String,
    pub status: ExitOutcome,
}

/// A command that did not succeed.
#[derive(Debug)]
pub struct CommandError {
    pub stderr: String,
    pub status: ExitOutcome,
}

impl CommandError {
    /// How this failure reads: `Command failed with status <status>: <stderr>`.
    pub fn message(&self) -> (res: String)
        ensures
            res@ == "Command failed with status "@ + self.status.description@ + ": "@
                + self.stderr@,
    {
        let mut s = copy_str("Command failed with status ");
        s.append(self.status.description.as_str());
        s.append(": ");
        s.append(self.stderr.as_str());
        s
    }
}

impl CommandOutput {
    /// The standard output when the command succeeded, else its failure.
    pub fn into_result(self) -> (res: Result<String, CommandError>)
        ensures
            self.status.success ==> res == Ok::<String, CommandError>(self.stdout),
            !self.status.success ==> res == Err::<String, CommandError>(
                CommandError { stderr: self.stderr, status: self.status },
            ),
    {
        if self.status.success {
            Ok(self.stdout)
        } else {
            Err(CommandError { stderr: self.stderr, status: self.status })
        }
    }
}

/// Where a command runs, for the prefix of its output lines.
pub enum ExecutionContext {
    /// On the host itself.
    This,
    /// On the host, on behalf of another one.
    Cross(String),
}

impl ExecutionContext {
    /// The prefix for output of `this`: `[this]` or `[this => remote]`.
    pub fn fmt(&self, this: &str) -> (res: String)
        ensures
            res@ == match *self {
                ExecutionContext::This => "["@ + this@ + "]"@,
                ExecutionContext::Cross(remote) => "["@ + this@ + " => "@ + remote@ + "]"@,
            },
    {
        let mut s = copy_str("[");
        s.append(this);
        match self {
            ExecutionContext::This => {},
            ExecutionContext::Cross(remote) => {
                s.append(" => ");
                s.append(remote.as_str());
            },
        }
        s.append("]");
        s
    }
}

/// This machine, as a host that runs commands.
#[derive(Debug, Clone, Copy)]
pub struct LocalHost;

impl LocalHost {
    /// The store of this machine, as `nix copy` names it.
    pub fn store_uri(&self) -> (res: &'static str)
        ensures
            res@ == "auto"@,
    {
        "auto"
    }

    /// How this host is named.
    pub fn name(&self) -> (res: String)
        ensures
            res@ == "localhost"@,
    {
        copy_str("localhost")
    }
}

/// The store of a host reached over SSH at `destination`.
pub fn remote_store_uri(destination: &str) -> (res: String)
    ensures
        res@ == "ssh://"@ + destination@,
{
    let mut s = copy_str("ssh://");
    s.append(destination);
    s
}

/// The width to which output prefixes are padded.
pub const PREFIX_WIDTH: usize = 20;

/// `n` spaces.
pub open spec fn spaces(n: nat) -> Seq<char> {
    Seq::new(n, |i: int| ' ')
}

/// `prefix` padded with spaces to `PREFIX_WIDTH` characters.
pub open spec fn padded(prefix: Seq<char>) -> Seq<char> {
    if prefix.len() < PREFIX_WIDTH {
        prefix + spaces((PREFIX_WIDTH - prefix.len()) as nat)
    } else {
        prefix
    }
}

/// A line of a command's output as it is shown: the prefix padded to
/// `PREFIX_WIDTH` characters, ` | `, then the line.
pub fn output_line(prefix: &str, line: &str) -> (res: String)
    ensures
        res@ == padded(prefix@) + " | "@ + line@,
{
    let mut s = copy_str(prefix);
    let chars = crate::text::chars_of(prefix);
    let n = chars.len();
    if n < PREFIX_WIDTH {
        let mut k = n;
        while k < PREFIX_WIDTH
            invariant
                n == prefix@.len(),
                n <= k <= PREFIX_WIDTH,
                s@ == prefix@ + spaces((k - n) as nat),
            decreases PREFIX_WIDTH - k,
        {
            push_char(&mut s, ' ');
            assert(s@ =~= prefix@ + spaces((k + 1 - n) as nat));
            k = k + 1;
        }
    }
    s.append(" | ");
    s.append(line);
    s
}

/// Adds a line of output to what was collected: the line and a newline.
pub fn collect_line(buffer: &mut String, line: &str)
    ensures
        final(buffer)@ == old(buffer)@ + line@ + seq!['\n'],
{
    buffer.append(line);
    push_char(buffer, '\n');
}

} // verus!
