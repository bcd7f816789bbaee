//! The hosts of a flake, and how they move from evaluation to a built
//! system.
use vstd::prelude::*;

use crate::nix::flake::NixFlake;
use crate::nix::store::{DrvPath, StorePath};
use crate::text::copy_str;

verus! {

/// One named address of a host.
pub struct HostAddress {
    pub label: String,
    pub address: String,
}

impl Clone for HostAddress {
    fn clone(&self) -> (res: Self)
        ensures
            res == *self,
    {
        HostAddress { label: self.label.clone(), address: self.address.clone() }
    }
}

/// The address under `label`, the first one if several have it.
pub open spec fn address_lookup(ips: Seq<HostAddress>, label: Seq<char>) -> Option<String>
    decreases ips.len(),
{
    if ips.len() == 0 {
        None
    } else if ips[0].label@ == label {
        Some(ips[0].address)
    } else {
        address_lookup(ips.drop_first(), label)
    }
}

/// The address found under a label is that of the first entry with the
/// label: there is none exactly when no entry has the label; otherwise some
/// entry has the label and that address, and no entry before it has the
/// label.
pub proof fn lemma_address_lookup(ips: Seq<HostAddress>, label: Seq<char>)
    ensures
        address_lookup(ips, label) is None <==> forall|j: int|
            0 <= j < ips.len() ==> #[trigger] ips[j].label@ != label,
        address_lookup(ips, label) matches Some(a) ==> exists|i: int|
            0 <= i < ips.len() && #[trigger] ips[i].label@ == label && ips[i].address == a
                && forall|j: int| 0 <= j < i ==> #[trigger] ips[j].label@ != label,
    decreases ips.len(),
{
    if ips.len() > 0 {
        let rest = ips.drop_first();
        lemma_address_lookup(rest, label);
        assert forall|j: int| 0 < j < ips.len() implies #[trigger] ips[j].label@ == rest[j - 1].label@ by {}
        if ips[0].label@ == label {
            assert(ips[0].label@ == label);
        } else {
            if address_lookup(rest, label) is None {
                assert forall|j: int| 0 <= j < ips.len() implies #[trigger] ips[j].label@ != label by {
                    if j > 0 {
                        assert(rest[j - 1].label@ != label);
                    }
                }
            } else {
                let a = address_lookup(rest, label)->0;
                let k = choose|k: int|
                    0 <= k < rest.len() && #[trigger] rest[k].label@ == label && rest[k].address == a
                        && forall|j: int| 0 <= j < k ==> #[trigger] rest[j].label@ != label;
                assert(ips[k + 1].label@ == label);
                assert forall|j: int| 0 <= j < k + 1 implies #[trigger] ips[j].label@ != label by {
                    if j > 0 {
                        assert(rest[j - 1].label@ != label);
                    }
                }
            }
        }
    }
}

/// What a flake says about how to deploy one host.
pub struct HostMeta {
    pub name: String,
    pub ips: Vec<HostAddress>,
    pub tags: Vec<String>,
}

impl View for HostMeta {
    type V = (String, Seq<HostAddress>, Seq<String>);

    /// The host's name, addresses and tags.
    open spec fn view(&self) -> (String, Seq<HostAddress>, Seq<String>) {
        (self.name, self.ips@, self.tags@)
    }
}

impl Clone for HostMeta {
    fn clone(&self) -> (res: Self)
        ensures
            res@ == self@,
    {
        let ips = self.ips.clone();
        assert(ips@ =~= self.ips@);
        let tags = self.tags.clone();
        assert(tags@ =~= self.tags@);
        HostMeta { name: self.name.clone(), ips, tags }
    }
}

impl HostMeta {
    /// The address the host is connected to: its `primary` address.
    pub fn primary_ip(&self) -> (res: Option<String>)
        ensures
            res == address_lookup(self.ips@, "primary"@),
            res is None <==> forall|j: int|
                0 <= j < self.ips@.len() ==> #[trigger] self.ips@[j].label@ != "primary"@,
            res matches Some(a) ==> exists|i: int|
                0 <= i < self.ips@.len() && #[trigger] self.ips@[i].label@ == "primary"@
                    && self.ips@[i].address == a && forall|j: int|
                    0 <= j < i ==> #[trigger] self.ips@[j].label@ != "primary"@,
    {
        let key = copy_str("primary");
        let mut i: usize = 0;
        assert(self.ips@.skip(0) =~= self.ips@);
        while i < self.ips.len()
            invariant
                i <= self.ips@.len(),
                key@ == "primary"@,
                address_lookup(self.ips@, key@) == address_lookup(self.ips@.skip(i as int), key@),
            decreases self.ips@.len() - i,
        {
            assert(self.ips@.skip(i as int).drop_first() =~= self.ips@.skip(i + 1));
            if self.ips[i].label == key {
                proof {
                    lemma_address_lookup(self.ips@, "primary"@);
                }
                return Some(self.ips[i].address.clone());
            }
            i = i + 1;
        }
        proof {
            lemma_address_lookup(self.ips@, "primary"@);
        }
        None
    }
}

/// A host to deploy, with the flake that describes it.
pub struct TargetHost {
    pub meta: HostMeta,
    pub flake: NixFlake,
}

impl TargetHost {
    /// The host described by `meta` in `flake`.
    pub fn new(meta: HostMeta, flake: NixFlake) -> (res: Self)
        ensures
            res.meta == meta,
            res.flake == flake,
    {
        TargetHost { meta, flake }
    }
}

/// A host whose system derivation is known.
pub struct EvaluatedHost {
    pub meta: HostMeta,
    pub derivation_path: DrvPath,
}

/// A host whose system is built.
pub struct BuiltHost {
    pub meta: HostMeta,
    pub store_path: StorePath,
}

} // verus!
