//! Evaluating the NixOS configurations of a flake: the commands that ask
//! Nix, and what their answers mean.
use vstd::prelude::*;

use crate::host::{EvaluatedHost, HostMeta, TargetHost};
use crate::nix::eval::EvalOutput;
use crate::nix::store::DrvPath;
use crate::text::{copy_str, decimal, join, join_strings, lemma_views_push, lines_of, push_decimal, split_lines, views};

verus! {

/// A flake, by the reference Nix knows it by.
pub struct NixFlake {
    pub flake_ref: String,
}

impl Clone for NixFlake {
    fn clone(&self) -> (res: Self)
        ensures
            res == *self,
    {
        NixFlake { flake_ref: self.flake_ref.clone() }
    }
}

/// What is read of each configuration: its `deploy` settings.
pub const APPLY_DEPLOY: &'static str = "builtins.mapAttrs (_: value: value.config.deploy)";

/// The hosts as named after the evaluation: each under its key, with the
/// key as its name.
pub open spec fn named_hosts(entries: Seq<(String, HostMeta)>) -> Seq<(String, HostMeta)> {
    entries.map_values(|e: (String, HostMeta)| (e.0, HostMeta { name: e.0, ..e.1 }))
}

impl NixFlake {
    /// The command that reads the deployment settings of every
    /// configuration of the flake, as JSON.
    pub fn host_configs_command(&self) -> (res: Vec<String>)
        ensures
            views(res@) == seq![
                "nix"@,
                "eval"@,
                "--json"@,
                self.flake_ref@ + "#nixosConfigurations"@,
                "--apply"@,
                APPLY_DEPLOY@,
            ],
    {
        let mut v: Vec<String> = Vec::new();
        v.push(copy_str("nix"));
        v.push(copy_str("eval"));
        v.push(copy_str("--json"));
        let mut attr = self.flake_ref.clone();
        attr.append("#nixosConfigurations");
        v.push(attr);
        v.push(copy_str("--apply"));
        v.push(copy_str(APPLY_DEPLOY));
        assert(views(v@) =~= seq![
            "nix"@,
            "eval"@,
            "--json"@,
            self.flake_ref@ + "#nixosConfigurations"@,
            "--apply"@,
            APPLY_DEPLOY@,
        ]);
        v
    }

    /// Names each host after the key it was found under.
    pub fn name_hosts(entries: Vec<(String, HostMeta)>) -> (res: Vec<(String, HostMeta)>)
        ensures
            res@ == named_hosts(entries@),
    {
        let ghost all = entries@;
        let mut res: Vec<(String, HostMeta)> = Vec::new();
        for entry in it: entries
            invariant
                it.seq() == all,
                res@ == named_hosts(all.take(it.index() as int)),
        {
            let (name, mut meta) = entry;
            meta.name = name.clone();
            res.push((name, meta));
            assert(res@ =~= named_hosts(all.take(it.index() + 1)));
        }
        assert(all.take(all.len() as int) =~= all);
        res
    }
}

/// The expression for one host's system, around the flake reference.
pub const SINGLE_HEAD: &'static str = "\n                with builtins;\n                let\n                    flake = getFlake \"";

/// The expression for one host's system, between flake and host name.
pub const SINGLE_MID: &'static str = "\";\n                    lib = flake.inputs.nixpkgs.lib;\n                in\n                    flake.outputs.nixosConfigurations.";

/// The expression for one host's system, after the host name.
pub const SINGLE_TAIL: &'static str = ".config.system.build.toplevel\n                ";

/// The Nix expression for the system of host `name` in `flake_ref`.
pub open spec fn single_expression(flake_ref: Seq<char>, name: Seq<char>) -> Seq<char> {
    SINGLE_HEAD@ + flake_ref + SINGLE_MID@ + name + SINGLE_TAIL@
}

/// `nix-eval-jobs` with its fixed options, evaluating `expr`.
pub open spec fn eval_jobs_command(expr: Seq<char>) -> Seq<Seq<char>> {
    seq!["nix-eval-jobs"@, "--expr"@, "--workers"@, "8"@, expr]
}

/// The `nix-eval-jobs` command line for `expr`.
fn eval_jobs(expr: String) -> (res: Vec<String>)
    ensures
        views(res@) == eval_jobs_command(expr@),
{
    let mut v: Vec<String> = Vec::new();
    v.push(copy_str("nix-eval-jobs"));
    v.push(copy_str("--expr"));
    v.push(copy_str("--workers"));
    v.push(copy_str("8"));
    v.push(expr);
    assert(views(v@) =~= eval_jobs_command(expr@));
    v
}

impl TargetHost {
    /// The command that evaluates this host's system.
    pub fn evaluation_command(&self) -> (res: Vec<String>)
        ensures
            views(res@) == eval_jobs_command(
                single_expression(self.flake.flake_ref@, self.meta.name@),
            ),
    {
        let mut expr = copy_str(SINGLE_HEAD);
        expr.append(self.flake.flake_ref.as_str());
        expr.append(SINGLE_MID);
        expr.append(self.meta.name.as_str());
        expr.append(SINGLE_TAIL);
        eval_jobs(expr)
    }
}

/// The complaint when an evaluation printed `got` lines instead of one.
pub open spec fn single_line_message(got: nat) -> Seq<char> {
    "Expected single line output, got "@ + decimal(got) + " lines"@
}

/// Checks that the evaluation of one host printed exactly one line.
pub fn check_single_line(output: &str) -> (res: Result<(), String>)
    ensures
        split_lines(output@).len() == 1 ==> res is Ok,
        split_lines(output@).len() != 1 ==> (res matches Err(m) && m@ == single_line_message(
            split_lines(output@).len(),
        )),
{
    let lines = lines_of(output);
    if lines.len() != 1 {
        let mut m = copy_str("Expected single line output, got ");
        push_decimal(&mut m, lines.len() as u64);
        m.append(" lines");
        return Err(m);
    }
    Ok(())
}

/// The batch expression before the flake reference.
pub const BATCH_HEAD: &'static str = "\n                      with builtins;\n                      let\n                          flake = getFlake \"";

/// The batch expression between the flake reference and the host names.
pub const BATCH_MID: &'static str = "\";\n                          lib = flake.inputs.nixpkgs.lib;\n                      in\n                         lib.genAttrs [";

/// The batch expression after the host names.
pub const BATCH_TAIL: &'static str = "]\n                         (host: flake.outputs.nixosConfigurations.\"${host}\".config.system.build.toplevel)\n                      ";

/// Each host's name in double quotes.
pub open spec fn quoted_names(targets: Seq<TargetHost>) -> Seq<Seq<char>> {
    targets.map_values(|t: TargetHost| "\""@ + t.meta.name@ + "\""@)
}

/// The Nix expression for the systems of all `targets`, in the flake of
/// the first one.
pub open spec fn batch_expression(targets: Seq<TargetHost>) -> Seq<char> {
    BATCH_HEAD@ + targets[0].flake.flake_ref@ + BATCH_MID@ + join(quoted_names(targets), " "@)
        + BATCH_TAIL@
}

/// The command that evaluates the systems of all `targets` at once.
pub fn batch_evaluation_command(targets: &Vec<TargetHost>) -> (res: Vec<String>)
    requires
        targets@.len() > 0,
    ensures
        views(res@) == eval_jobs_command(batch_expression(targets@)),
{
    let mut names: Vec<String> = Vec::new();
    let mut i: usize = 0;
    while i < targets.len()
        invariant
            i <= targets@.len(),
            views(names@) == quoted_names(targets@).take(i as int),
        decreases targets@.len() - i,
    {
        let mut q = copy_str("\"");
        q.append(targets[i].meta.name.as_str());
        q.append("\"");
        proof {
            lemma_views_push(names@, q);
        }
        names.push(q);
        assert(views(names@) =~= quoted_names(targets@).take(i + 1));
        i = i + 1;
    }
    assert(quoted_names(targets@).take(targets@.len() as int) =~= quoted_names(targets@));
    let mut expr = copy_str(BATCH_HEAD);
    expr.append(targets[0].flake.flake_ref.as_str());
    expr.append(BATCH_MID);
    let joined = join_strings(&names, " ");
    expr.append(joined.as_str());
    expr.append(BATCH_TAIL);
    eval_jobs(expr)
}

/// The complaint when an evaluation printed `got` lines instead of
/// `expected`.
pub open spec fn line_count_message(expected: nat, got: nat) -> Seq<char> {
    "Expected "@ + decimal(expected) + " line output, got "@ + decimal(got) + " lines"@
}

/// Checks that the evaluation printed one line per host.
pub fn check_line_count(output: &str, expected: usize) -> (res: Result<(), String>)
    ensures
        split_lines(output@).len() == expected ==> res is Ok,
        split_lines(output@).len() != expected ==> (res matches Err(m) && m@
            == line_count_message(expected as nat, split_lines(output@).len())),
{
    let lines = lines_of(output);
    if lines.len() != expected {
        let mut m = copy_str("Expected ");
        push_decimal(&mut m, expected as u64);
        m.append(" line output, got ");
        push_decimal(&mut m, lines.len() as u64);
        m.append(" lines");
        return Err(m);
    }
    Ok(())
}

/// The first host named `attr`, by position.
pub open spec fn first_named(targets: Seq<TargetHost>, attr: Seq<char>) -> Option<int>
    decreases targets.len(),
{
    if targets.len() == 0 {
        None
    } else if targets[0].meta.name@ == attr {
        Some(0)
    } else {
        match first_named(targets.drop_first(), attr) {
            Some(i) => Some(i + 1),
            None => None,
        }
    }
}

/// `first_named` gives the first position whose host has the name.
pub proof fn lemma_first_named(targets: Seq<TargetHost>, attr: Seq<char>)
    ensures
        match first_named(targets, attr) {
            Some(i) => 0 <= i < targets.len() && targets[i].meta.name@ == attr && forall|j: int|
                0 <= j < i ==> #[trigger] targets[j].meta.name@ != attr,
            None => forall|j: int| 0 <= j < targets.len() ==> #[trigger] targets[j].meta.name@
                != attr,
        },
    decreases targets.len(),
{
    if targets.len() > 0 {
        lemma_first_named(targets.drop_first(), attr);
        assert forall|j: int| 1 <= j < targets.len() implies #[trigger] targets[j].meta.name@
            == targets.drop_first()[j - 1].meta.name@ by {}
    }
}

/// The position of the first host named `attr`.
fn find_named(targets: &Vec<TargetHost>, attr: &String) -> (res: Option<usize>)
    ensures
        match res {
            Some(i) => first_named(targets@, attr@) == Some(i as int),
            None => first_named(targets@, attr@) is None,
        },
{
    proof {
        lemma_first_named(targets@, attr@);
    }
    let mut i: usize = 0;
    while i < targets.len()
        invariant
            i <= targets@.len(),
            forall|j: int| 0 <= j < i ==> #[trigger] targets@[j].meta.name@ != attr@,
            match first_named(targets@, attr@) {
                Some(k) => 0 <= k < targets@.len() && targets@[k].meta.name@ == attr@ && forall|
                    j: int,
                | 0 <= j < k ==> #[trigger] targets@[j].meta.name@ != attr@,
                None => forall|j: int| 0 <= j < targets@.len() ==> #[trigger] targets@[j].meta.name@
                    != attr@,
            },
        decreases targets@.len() - i,
    {
        if targets[i].meta.name.eq(attr) {
            return Some(i);
        }
        i = i + 1;
    }
    None
}

/// Every evaluation result belongs to a host among `targets`.
pub open spec fn all_assignable(targets: Seq<TargetHost>, outputs: Seq<EvalOutput>) -> bool {
    forall|i: int| 0 <= i < outputs.len() ==> (#[trigger] first_named(targets, outputs[i].attr@))
        is Some
}

/// Pairs each evaluation result with the first host named like its
/// attribute: that host, with the result's derivation. Nothing when a
/// result names no host.
pub fn assign_derivations(targets: &Vec<TargetHost>, outputs: Vec<EvalOutput>) -> (res: Option<
    Vec<EvaluatedHost>,
>)
    ensures
        res is None <==> !all_assignable(targets@, outputs@),
        res matches Some(hosts) ==> hosts@.len() == outputs@.len() && forall|i: int|
            0 <= i < outputs@.len() ==> (#[trigger] hosts@[i]).meta@ == targets@[first_named(
                targets@,
                outputs@[i].attr@,
            )->0].meta@ && hosts@[i].derivation_path.path == outputs@[i].drv_path,
{
    let ghost all = outputs@;
    let mut hosts: Vec<EvaluatedHost> = Vec::new();
    for output in it: outputs
        invariant
            it.seq() == all,
            hosts@.len() == it.index(),
            forall|i: int| 0 <= i < it.index() ==> (#[trigger] first_named(targets@, all[i].attr@))
                is Some,
            forall|i: int| 0 <= i < it.index() ==> (#[trigger] hosts@[i]).meta@
                == targets@[first_named(targets@, all[i].attr@)->0].meta@
                && hosts@[i].derivation_path.path == all[i].drv_path,
    {
        let ghost k = it.index();
        match find_named(targets, &output.attr) {
            Some(j) => {
                proof {
                    lemma_first_named(targets@, output.attr@);
                }
                let meta = targets[j].meta.clone();
                hosts.push(EvaluatedHost { meta, derivation_path: DrvPath { path: output.drv_path } });
            },
            None => {
                assert(!all_assignable(targets@, all)) by {
                    assert(first_named(targets@, all[k as int].attr@) is None);
                }
                return None;
            },
        }
    }
    Some(hosts)
}

} // verus!
