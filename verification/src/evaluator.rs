//! A flake and the NixOS configurations it defines, each deployed over SSH
//! to its primary address.
use vstd::prelude::*;

use crate::execution::{Executor, SshExecutor};
use crate::text::{copy_str, lemma_views_push, views};
use crate::types::{copy_opt_string, ConfigurationStatus};

verus! {

/// One entry of a configuration's `ips` object: the key, and the value as
/// JSON text.
pub struct JsonEntry {
    pub key: String,
    pub json: String,
}

/// The metadata of a configuration.
pub struct Metadata {
    pub system: String,
    /// The entries of the `ips` object (none when `ips` is not an object).
    pub ips: Vec<JsonEntry>,
    pub tags: Vec<String>,
}

impl Clone for JsonEntry {
    fn clone(&self) -> (res: Self)
        ensures
            res == *self,
    {
        JsonEntry { key: self.key.clone(), json: self.json.clone() }
    }
}

impl View for Metadata {
    type V = (String, Seq<JsonEntry>, Seq<String>);

    /// The system, the `ips` entries and the tags.
    open spec fn view(&self) -> (String, Seq<JsonEntry>, Seq<String>) {
        (self.system, self.ips@, self.tags@)
    }
}

impl Clone for Metadata {
    fn clone(&self) -> (res: Self)
        ensures
            res@ == self@,
    {
        let ips = self.ips.clone();
        assert(ips@ =~= self.ips@);
        let tags = self.tags.clone();
        assert(tags@ =~= self.tags@);
        Metadata { system: self.system.clone(), ips, tags }
    }
}

/// A configuration of the flake, with the executor that reaches its host.
pub struct NixosConfiguration {
    pub name: String,
    pub metadata: Metadata,
    pub executor: Executor,
    pub drv_path: Option<String>,
    pub out_path: Option<String>,
}

/// Whether `copy` holds what `c` holds: the same name, metadata, executor
/// and paths.
pub open spec fn same_configuration(copy: NixosConfiguration, c: NixosConfiguration) -> bool {
    &&& copy.name == c.name
    &&& copy.metadata@ == c.metadata@
    &&& copy.executor == c.executor
    &&& copy.drv_path == c.drv_path
    &&& copy.out_path == c.out_path
}

impl Clone for NixosConfiguration {
    fn clone(&self) -> (res: Self)
        ensures
            same_configuration(res, *self),
    {
        NixosConfiguration {
            name: self.name.clone(),
            metadata: self.metadata.clone(),
            executor: self.executor.clone(),
            drv_path: copy_opt_string(&self.drv_path),
            out_path: copy_opt_string(&self.out_path),
        }
    }
}

/// A flake and its configurations, each under its name.
pub struct Flake {
    pub path: String,
    pub nixos_configurations: Vec<(String, NixosConfiguration)>,
}

/// The JSON text of the `primary` entry, or `null` when there is none.
pub open spec fn primary_json_of(ips: Seq<JsonEntry>) -> Seq<char>
    decreases ips.len(),
{
    if ips.len() == 0 {
        "null"@
    } else if ips[0].key@ == "primary"@ {
        ips[0].json@
    } else {
        primary_json_of(ips.drop_first())
    }
}

/// The JSON text of the `primary` entry, or `null` when there is none.
pub fn primary_json(ips: &Vec<JsonEntry>) -> (res: String)
    ensures
        res@ == primary_json_of(ips@),
{
    let key = copy_str("primary");
    let mut i: usize = 0;
    assert(ips@.skip(0) =~= ips@);
    while i < ips.len()
        invariant
            i <= ips@.len(),
            key@ == "primary"@,
            primary_json_of(ips@) == primary_json_of(ips@.skip(i as int)),
        decreases ips@.len() - i,
    {
        assert(ips@.skip(i as int).drop_first() =~= ips@.skip(i + 1));
        if ips[i].key.eq(&key) {
            return ips[i].json.clone();
        }
        i = i + 1;
    }
    copy_str("null")
}

/// The configuration of an entry: reached over SSH at the JSON text of its
/// primary address, not evaluated yet.
pub open spec fn configuration_of(name: String, meta: Metadata) -> (Seq<char>, Seq<char>, bool) {
    (name@, primary_json_of(meta.ips@), true)
}

/// The name, the SSH host, and whether nothing is evaluated yet.
pub open spec fn configuration_view(c: NixosConfiguration) -> (Seq<char>, Seq<char>, bool) {
    (
        c.name@,
        match c.executor {
            Executor::Ssh(e) => e.host@,
            Executor::Local(_) => Seq::empty(),
        },
        c.executor is Ssh && c.drv_path is None && c.out_path is None && match c.executor {
            Executor::Ssh(e) => e.username is None && e.port is None,
            Executor::Local(_) => false,
        },
    )
}

/// The first configuration under `name`, by position.
pub open spec fn position_of(configs: Seq<(String, NixosConfiguration)>, name: Seq<char>) -> Option<int>
    decreases configs.len(),
{
    if configs.len() == 0 {
        None
    } else if configs[0].0@ == name {
        Some(0)
    } else {
        match position_of(configs.drop_first(), name) {
            Some(i) => Some(i + 1),
            None => None,
        }
    }
}

/// The position found is that of a configuration under the name.
pub proof fn lemma_position_of(configs: Seq<(String, NixosConfiguration)>, name: Seq<char>)
    ensures
        position_of(configs, name) matches Some(i) ==> 0 <= i < configs.len() && configs[i].0@
            == name,
    decreases configs.len(),
{
    if configs.len() > 0 {
        lemma_position_of(configs.drop_first(), name);
    }
}

impl Flake {
    /// The flake at `path`, with no configurations known yet.
    pub fn new(path: String) -> (res: Self)
        ensures
            res.path == path,
            res.nixos_configurations@.len() == 0,
    {
        Flake { path, nixos_configurations: Vec::new() }
    }

    /// Takes in the metadata of every configuration: each becomes a
    /// configuration under its name, reached over SSH at its primary address.
    pub fn set_configurations(&mut self, metadata: Vec<(String, Metadata)>)
        ensures
            final(self).path == old(self).path,
            final(self).nixos_configurations@.len() == metadata@.len(),
            forall|i: int|
                0 <= i < metadata@.len() ==> (#[trigger] final(self).nixos_configurations@[i]).0
                    == metadata@[i].0 && configuration_view(final(self).nixos_configurations@[i].1)
                    == configuration_of(metadata@[i].0, metadata@[i].1)
                    && final(self).nixos_configurations@[i].1.metadata == metadata@[i].1,
    {
        let ghost all = metadata@;
        let mut configs: Vec<(String, NixosConfiguration)> = Vec::new();
        for entry in it: metadata
            invariant
                it.seq() == all,
                configs@.len() == it.index(),
                forall|i: int|
                    0 <= i < it.index() ==> (#[trigger] configs@[i]).0 == all[i].0
                        && configuration_view(configs@[i].1) == configuration_of(all[i].0, all[i].1)
                        && configs@[i].1.metadata == all[i].1,
        {
            let (name, meta) = entry;
            let primary = primary_json(&meta.ips);
            let config = NixosConfiguration {
                name: name.clone(),
                metadata: meta,
                executor: Executor::Ssh(SshExecutor::new(primary)),
                drv_path: None,
                out_path: None,
            };
            configs.push((name, config));
        }
        self.nixos_configurations = configs;
    }

    /// Records the paths an evaluation gave the configuration `attr`, and
    /// gives back a copy of the updated configuration. Nothing when the
    /// flake has no such configuration.
    pub fn record_evaluation(
        &mut self,
        attr: &String,
        drv_path: Option<String>,
        out_path: Option<String>,
    ) -> (res: Option<NixosConfiguration>)
        ensures
            final(self).path == old(self).path,
            final(self).nixos_configurations@.len() == old(self).nixos_configurations@.len(),
            match position_of(old(self).nixos_configurations@, attr@) {
                None => res is None && final(self).nixos_configurations@ == old(
                    self,
                ).nixos_configurations@,
                Some(k) => (res matches Some(c) && same_configuration(
                    c,
                    final(self).nixos_configurations@[k].1,
                )) && forall|j: int|
                    0 <= j < old(self).nixos_configurations@.len() ==> if j == k {
                        (#[trigger] final(self).nixos_configurations@[j]).0 == old(
                            self,
                        ).nixos_configurations@[j].0 && final(self).nixos_configurations@[j].1.name
                            == old(self).nixos_configurations@[j].1.name
                            && final(self).nixos_configurations@[j].1.executor == old(
                            self,
                        ).nixos_configurations@[j].1.executor
                            && final(self).nixos_configurations@[j].1.metadata == old(
                            self,
                        ).nixos_configurations@[j].1.metadata
                            && final(self).nixos_configurations@[j].1.drv_path == drv_path
                            && final(self).nixos_configurations@[j].1.out_path == out_path
                    } else {
                        final(self).nixos_configurations@[j] == old(self).nixos_configurations@[j]
                    },
            },
    {
        let ghost configs = self.nixos_configurations@;
        let mut i: usize = 0;
        let mut found: Option<usize> = None;
        assert(configs.skip(0) =~= configs);
        while i < self.nixos_configurations.len()
            invariant_except_break
                found is None,
            invariant
                self.nixos_configurations@ == configs,
                i <= configs.len(),
                position_of(configs, attr@) == match position_of(configs.skip(i as int), attr@) {
                    Some(m) => Some(m + i),
                    None => None,
                },
            ensures
                found matches Some(k) ==> position_of(configs, attr@) == Some(k as int) && k
                    < configs.len(),
                found is None ==> position_of(configs, attr@) is None,
            decreases configs.len() - i,
        {
            assert(configs.skip(i as int).drop_first() =~= configs.skip(i + 1));
            assert(configs.skip(i as int)[0] == configs[i as int]);
            if self.nixos_configurations[i].0.eq(attr) {
                found = Some(i);
                break;
            }
            i = i + 1;
            if i == self.nixos_configurations.len() {
                assert(configs.skip(i as int).len() == 0);
            }
        }
        match found {
            None => None,
            Some(k) => {
                let (key, mut config) = self.nixos_configurations.remove(k);
                config.drv_path = drv_path;
                config.out_path = out_path;
                let copy = config.clone();
                self.nixos_configurations.insert(k, (key, config));
                Some(copy)
            },
        }
    }
}

impl NixosConfiguration {
    /// The derivation to build, if evaluated.
    pub fn build_target(&self) -> (res: Option<String>)
        ensures
            res == self.drv_path,
    {
        copy_opt_string(&self.drv_path)
    }

    /// The activation script, if built.
    pub fn activation_script(&self) -> (res: Option<String>)
        ensures
            match self.out_path {
                Some(p) => res matches Some(s) && s@ == p@ + "/bin/switch-to-configuration"@,
                None => res is None,
            },
    {
        match &self.out_path {
            Some(p) => {
                let mut s = p.clone();
                s.append("/bin/switch-to-configuration");
                Some(s)
            },
            None => None,
        }
    }
}

/// The statuses for what an activation printed on standard error: an error
/// for each line, with the line as its only detail.
pub fn activation_statuses(stderr_lines: &Vec<String>) -> (res: Vec<ConfigurationStatus>)
    ensures
        res@.len() == stderr_lines@.len(),
        forall|i: int|
            0 <= i < res@.len() ==> ((#[trigger] res@[i]) matches ConfigurationStatus::Error {
                error,
                error_lines,
            } && error@ == stderr_lines@[i]@ && views(error_lines@) == seq![stderr_lines@[i]@]),
{
    let mut res: Vec<ConfigurationStatus> = Vec::new();
    let mut i: usize = 0;
    while i < stderr_lines.len()
        invariant
            i <= stderr_lines@.len(),
            res@.len() == i,
            forall|k: int|
                0 <= k < i ==> ((#[trigger] res@[k]) matches ConfigurationStatus::Error {
                    error,
                    error_lines,
                } && error@ == stderr_lines@[k]@ && views(error_lines@) == seq![stderr_lines@[k]@]),
        decreases stderr_lines@.len() - i,
    {
        let mut lines: Vec<String> = Vec::new();
        lines.push(stderr_lines[i].clone());
        assert(views(lines@) =~= seq![stderr_lines@[i as int]@]);
        res.push(ConfigurationStatus::Error { error: stderr_lines[i].clone(), error_lines: lines });
        i = i + 1;
    }
    res
}

} // verus!
