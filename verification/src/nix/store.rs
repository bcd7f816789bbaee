//! Paths in the Nix store and the commands that act on them.
use vstd::prelude::*;

use crate::text::{copy_str, lines_of, split_lines, views};

verus! {

/// A derivation in the store of the host that evaluated it.
pub struct DrvPath {
    pub path: String,
}

/// A path in the store of a host.
pub struct StorePath {
    pub path: String,
}

impl DrvPath {
    /// The command that builds the derivation.
    pub fn realise_command(&self) -> (res: Vec<String>)
        ensures
            views(res@) == seq!["nix-store"@, "--realise"@, self.path@],
    {
        let mut v: Vec<String> = Vec::new();
        v.push(copy_str("nix-store"));
        v.push(copy_str("--realise"));
        v.push(self.path.clone());
        assert(views(v@) =~= seq!["nix-store"@, "--realise"@, self.path@]);
        v
    }

    /// The built store path, read from the build's output: its first line.
    pub fn realised_path(output: &str) -> (res: Option<StorePath>)
        ensures
            split_lines(output@).len() == 0 ==> res is None,
            split_lines(output@).len() > 0 ==> (res matches Some(p) && p.path@ == split_lines(
                output@,
            )[0]),
    {
        let lines = lines_of(output);
        if lines.len() == 0 {
            None
        } else {
            Some(StorePath { path: lines[0].clone() })
        }
    }
}

/// The profile that holds the system configuration.
pub const SYSTEM_PROFILE: &'static str = "/nix/var/nix/profiles/system";

impl StorePath {
    /// The command that copies this path from one store to another.
    pub fn copy_command(&self, from_uri: &str, to_uri: &str) -> (res: Vec<String>)
        ensures
            views(res@) == seq![
                "nix"@,
                "copy"@,
                "--from"@,
                from_uri@,
                "--to"@,
                to_uri@,
                self.path@,
            ],
    {
        let mut v: Vec<String> = Vec::new();
        v.push(copy_str("nix"));
        v.push(copy_str("copy"));
        v.push(copy_str("--from"));
        v.push(copy_str(from_uri));
        v.push(copy_str("--to"));
        v.push(copy_str(to_uri));
        v.push(self.path.clone());
        assert(views(v@) =~= seq![
            "nix"@,
            "copy"@,
            "--from"@,
            from_uri@,
            "--to"@,
            to_uri@,
            self.path@,
        ]);
        v
    }

    /// The command that makes this path the system profile.
    pub fn set_profile_command(&self) -> (res: Vec<String>)
        ensures
            views(res@) == seq![
                "sudo"@,
                "nix-env"@,
                "-p"@,
                SYSTEM_PROFILE@,
                "--set"@,
                self.path@,
            ],
    {
        let mut v: Vec<String> = Vec::new();
        v.push(copy_str("sudo"));
        v.push(copy_str("nix-env"));
        v.push(copy_str("-p"));
        v.push(copy_str(SYSTEM_PROFILE));
        v.push(copy_str("--set"));
        v.push(self.path.clone());
        assert(views(v@) =~= seq![
            "sudo"@,
            "nix-env"@,
            "-p"@,
            SYSTEM_PROFILE@,
            "--set"@,
            self.path@,
        ]);
        v
    }

    /// The command that switches the running system to this path.
    pub fn switch_command(&self) -> (res: Vec<String>)
        ensures
            views(res@) == seq![
                "sudo"@,
                self.path@ + "/bin/switch-to-configuration"@,
                "switch"@,
            ],
    {
        let mut v: Vec<String> = Vec::new();
        v.push(copy_str("sudo"));
        let mut script = self.path.clone();
        script.append("/bin/switch-to-configuration");
        v.push(script);
        v.push(copy_str("switch"));
        assert(views(v@) =~= seq![
            "sudo"@,
            self.path@ + "/bin/switch-to-configuration"@,
            "switch"@,
        ]);
        v
    }
}

} // verus!
