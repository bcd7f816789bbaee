//! Choosing the hosts to deploy, and how far each host is taken.
use vstd::prelude::*;

use crate::host::{HostMeta, TargetHost};
use crate::nix::flake::NixFlake;
use crate::text::{copy_str, decimal, join, join_strings, lemma_views_push, push_decimal, views};

verus! {

/// How far a deployment goes.
#[derive(Debug, Clone, Copy, PartialEq, Eq, Structural, PartialOrd, Ord)]
pub enum Stage {
    /// Only evaluate the configurations.
    Eval,
    /// Build them too.
    Build,
    /// Copy them to their hosts too.
    Push,
    /// Activate them too.
    Apply,
}

/// The position of a stage in the order Eval < Build < Push < Apply.
pub open spec fn rank(s: Stage) -> int {
    match s {
        Stage::Eval => 0,
        Stage::Build => 1,
        Stage::Push => 2,
        Stage::Apply => 3,
    }
}

impl Stage {
    /// Whether this stage comes before `other`.
    pub fn before(self, other: Stage) -> (res: bool)
        ensures
            res == (rank(self) < rank(other)),
    {
        let a: u8 = match self {
            Stage::Eval => 0,
            Stage::Build => 1,
            Stage::Push => 2,
            Stage::Apply => 3,
        };
        let b: u8 = match other {
            Stage::Eval => 0,
            Stage::Build => 1,
            Stage::Push => 2,
            Stage::Apply => 3,
        };
        a < b
    }

    /// Whether hosts go on past evaluation: for every stage but `Eval`.
    pub fn proceeds_past_evaluation(self) -> (res: bool)
        ensures
            res == (self != Stage::Eval),
    {
        match self {
            Stage::Eval => false,
            _ => true,
        }
    }
}

/// Whether `pattern` matches the whole of `text`: `*` stands for any run of
/// characters (also none), `?` for exactly one character, and every other
/// character for itself.
pub open spec fn wildcard_matches(pattern: Seq<char>, text: Seq<char>) -> bool
    decreases pattern.len() + text.len(),
{
    if pattern.len() == 0 {
        text.len() == 0
    } else if pattern[0] == '*' {
        wildcard_matches(pattern.drop_first(), text) || (text.len() > 0 && wildcard_matches(
            pattern,
            text.drop_first(),
        ))
    } else {
        text.len() > 0 && (pattern[0] == '?' || pattern[0] == text[0]) && wildcard_matches(
            pattern.drop_first(),
            text.drop_first(),
        )
    }
}

/// Matches `text` against the wildcard `pattern` with the `wildmatch` crate
/// (`WildMatch::new(pattern).matches(text)`). Its documentation: the whole
/// text must match; `?` matches exactly one character, `*` any number of
/// characters, including none; there are no escapes. The contract says so.
#[verifier::external_body]
fn wildcard_match(pattern: &str, text: &str) -> (res: bool)
    ensures
        res == wildcard_matches(pattern@, text@),
{
    wildmatch::WildMatch::new(pattern).matches(text)
}

/// Some key among the host entries matches `pattern`.
pub open spec fn matches_some_key(metas: Seq<(String, HostMeta)>, pattern: Seq<char>) -> bool {
    exists|j: int| 0 <= j < metas.len() && #[trigger] wildcard_matches(pattern, metas[j].0@)
}

/// Some pattern among `patterns` matches `key`.
pub open spec fn matched_by_some(patterns: Seq<String>, key: Seq<char>) -> bool {
    exists|i: int| 0 <= i < patterns.len() && #[trigger] wildcard_matches(patterns[i]@, key)
}

/// The patterns that match no key, in order.
pub open spec fn unmatched_patterns(patterns: Seq<String>, metas: Seq<(String, HostMeta)>) -> Seq<
    Seq<char>,
>
    decreases patterns.len(),
{
    if patterns.len() == 0 {
        Seq::empty()
    } else {
        let rest = unmatched_patterns(patterns.drop_last(), metas);
        if matches_some_key(metas, patterns.last()@) {
            rest
        } else {
            rest.push(patterns.last()@)
        }
    }
}

/// The host entries whose key some pattern matches, in order.
pub open spec fn matched_entries(metas: Seq<(String, HostMeta)>, patterns: Seq<String>) -> Seq<
    (String, HostMeta),
>
    decreases metas.len(),
{
    if metas.len() == 0 {
        Seq::empty()
    } else {
        let rest = matched_entries(metas.drop_last(), patterns);
        if matched_by_some(patterns, metas.last().0@) {
            rest.push(metas.last())
        } else {
            rest
        }
    }
}

/// The complaint about patterns that match no host.
pub open spec fn unmatched_message(missing: Seq<Seq<char>>) -> Seq<char> {
    "Specified host patterns matched no hosts in flake: "@ + join(missing, ", "@)
}

/// Whether some key among the entries matches `pattern`.
fn any_key_matches(metas: &Vec<(String, HostMeta)>, pattern: &str) -> (res: bool)
    ensures
        res == matches_some_key(metas@, pattern@),
{
    let mut j: usize = 0;
    while j < metas.len()
        invariant
            j <= metas@.len(),
            forall|k: int| 0 <= k < j ==> !#[trigger] wildcard_matches(pattern@, metas@[k].0@),
        decreases metas@.len() - j,
    {
        if wildcard_match(pattern, metas[j].0.as_str()) {
            return true;
        }
        j = j + 1;
    }
    false
}

/// Whether some pattern matches `key`.
fn any_pattern_matches(patterns: &Vec<String>, key: &str) -> (res: bool)
    ensures
        res == matched_by_some(patterns@, key@),
{
    let mut i: usize = 0;
    while i < patterns.len()
        invariant
            i <= patterns@.len(),
            forall|k: int| 0 <= k < i ==> !#[trigger] wildcard_matches(patterns@[k]@, key@),
        decreases patterns@.len() - i,
    {
        if wildcard_match(patterns[i].as_str(), key) {
            return true;
        }
        i = i + 1;
    }
    false
}

/// The hosts of `flake` whose names match one of the wildcard `hosts`, in
/// the order of `host_metas` (each entry a host's name and what the flake
/// says of it). Fails, naming them, when some patterns match no host.
pub fn resolve_targets(
    flake: &NixFlake,
    host_metas: &Vec<(String, HostMeta)>,
    hosts: &Vec<String>,
) -> (res: Result<Vec<TargetHost>, String>)
    ensures
        unmatched_patterns(hosts@, host_metas@).len() > 0 ==> (res matches Err(m) && m@
            == unmatched_message(unmatched_patterns(hosts@, host_metas@))),
        unmatched_patterns(hosts@, host_metas@).len() == 0 ==> (res matches Ok(targets)
            && targets@.len() == matched_entries(host_metas@, hosts@).len() && forall|i: int|
            0 <= i < targets@.len() ==> (#[trigger] targets@[i]).meta@ == matched_entries(
                host_metas@,
                hosts@,
            )[i].1@ && targets@[i].flake == *flake),
{
    let mut missing: Vec<String> = Vec::new();
    let mut i: usize = 0;
    while i < hosts.len()
        invariant
            i <= hosts@.len(),
            views(missing@) == unmatched_patterns(hosts@.take(i as int), host_metas@),
        decreases hosts@.len() - i,
    {
        assert(hosts@.take(i + 1).drop_last() =~= hosts@.take(i as int));
        if !any_key_matches(host_metas, hosts[i].as_str()) {
            let p = hosts[i].clone();
            proof {
                lemma_views_push(missing@, p);
            }
            missing.push(p);
        }
        i = i + 1;
    }
    assert(hosts@.take(hosts@.len() as int) =~= hosts@);
    if missing.len() > 0 {
        let mut m = copy_str("Specified host patterns matched no hosts in flake: ");
        let joined = join_strings(&missing, ", ");
        m.append(joined.as_str());
        return Err(m);
    }
    let mut targets: Vec<TargetHost> = Vec::new();
    let mut j: usize = 0;
    while j < host_metas.len()
        invariant
            j <= host_metas@.len(),
            targets@.len() == matched_entries(host_metas@.take(j as int), hosts@).len(),
            forall|k: int|
                0 <= k < targets@.len() ==> (#[trigger] targets@[k]).meta@ == matched_entries(
                    host_metas@.take(j as int),
                    hosts@,
                )[k].1@ && targets@[k].flake == *flake,
        decreases host_metas@.len() - j,
    {
        assert(host_metas@.take(j + 1).drop_last() =~= host_metas@.take(j as int));
        if any_pattern_matches(hosts, host_metas[j].0.as_str()) {
            let target = TargetHost::new(host_metas[j].1.clone(), flake.clone());
            targets.push(target);
        }
        j = j + 1;
    }
    assert(host_metas@.take(host_metas@.len() as int) =~= host_metas@);
    Ok(targets)
}

/// An entry is among the matched ones exactly when it is among the
/// entries and some pattern matches its key.
pub proof fn lemma_matched_entries_exact(
    metas: Seq<(String, HostMeta)>,
    patterns: Seq<String>,
    e: (String, HostMeta),
)
    ensures
        matched_entries(metas, patterns).contains(e) <==> (metas.contains(e) && matched_by_some(
            patterns,
            e.0@,
        )),
    decreases metas.len(),
{
    if metas.len() > 0 {
        lemma_matched_entries_exact(metas.drop_last(), patterns, e);
        let rest = matched_entries(metas.drop_last(), patterns);
        assert(metas.contains(e) <==> (metas.drop_last().contains(e) || metas.last() == e)) by {
            if metas.contains(e) {
                let k = choose|k: int| 0 <= k < metas.len() && metas[k] == e;
                if k < metas.len() - 1 {
                    assert(metas.drop_last()[k] == e);
                }
            }
            if metas.drop_last().contains(e) {
                let k = choose|k: int| 0 <= k < metas.drop_last().len() && metas.drop_last()[k] == e;
                assert(metas[k] == e);
            }
            if metas.last() == e {
                assert(metas[metas.len() - 1] == e);
            }
        }
        if matched_by_some(patterns, metas.last().0@) {
            assert(rest.push(metas.last()).contains(e) <==> (rest.contains(e) || metas.last()
                == e)) by {
                if rest.push(metas.last()).contains(e) {
                    let k = choose|k: int|
                        0 <= k < rest.push(metas.last()).len() && rest.push(metas.last())[k] == e;
                    if k < rest.len() {
                        assert(rest[k] == e);
                    }
                }
                if rest.contains(e) {
                    let k = choose|k: int| 0 <= k < rest.len() && rest[k] == e;
                    assert(rest.push(metas.last())[k] == e);
                }
                if metas.last() == e {
                    assert(rest.push(metas.last())[rest.len() as int] == e);
                }
            }
        }
    }
}

/// Every host that a resolution yields has a name that one of the patterns
/// matches, and every host whose name one of them matches is yielded.
pub proof fn lemma_resolution_is_exact(
    metas: Seq<(String, HostMeta)>,
    patterns: Seq<String>,
)
    ensures
        forall|e: (String, HostMeta)| #[trigger]
            matched_entries(metas, patterns).contains(e) <==> (metas.contains(e)
                && matched_by_some(patterns, e.0@)),
{
    assert forall|e: (String, HostMeta)| #[trigger]
        matched_entries(metas, patterns).contains(e) <==> (metas.contains(e) && matched_by_some(
            patterns,
            e.0@,
        )) by {
        lemma_matched_entries_exact(metas, patterns, e);
    }
}

/// The entry for `key`: the first one with that key.
pub open spec fn entry_lookup(metas: Seq<(String, HostMeta)>, key: Seq<char>) -> Option<HostMeta>
    decreases metas.len(),
{
    if metas.len() == 0 {
        None
    } else if metas[0].0@ == key {
        Some(metas[0].1)
    } else {
        entry_lookup(metas.drop_first(), key)
    }
}

/// The requested names that no entry has, in order.
pub open spec fn unknown_hosts(requested: Seq<String>, metas: Seq<(String, HostMeta)>) -> Seq<
    Seq<char>,
>
    decreases requested.len(),
{
    if requested.len() == 0 {
        Seq::empty()
    } else {
        let rest = unknown_hosts(requested.drop_last(), metas);
        if entry_lookup(metas, requested.last()@) is Some {
            rest
        } else {
            rest.push(requested.last()@)
        }
    }
}

/// The complaint about requested hosts that the flake does not have.
pub open spec fn unknown_hosts_message(missing: Seq<Seq<char>>) -> Seq<char> {
    "Specified hosts not found in flake: "@ + join(missing, ","@)
}

/// The entry for `key`, if any.
fn find_entry(metas: &Vec<(String, HostMeta)>, key: &String) -> (res: Option<usize>)
    ensures
        match res {
            Some(j) => j < metas@.len() && entry_lookup(metas@, key@) == Some(metas@[j as int].1),
            None => entry_lookup(metas@, key@) is None,
        },
{
    let mut j: usize = 0;
    assert(metas@.skip(0) =~= metas@);
    while j < metas.len()
        invariant
            j <= metas@.len(),
            entry_lookup(metas@, key@) == entry_lookup(metas@.skip(j as int), key@),
        decreases metas@.len() - j,
    {
        assert(metas@.skip(j as int).drop_first() =~= metas@.skip(j + 1));
        if metas[j].0.eq(key) {
            return Some(j);
        }
        j = j + 1;
    }
    None
}

/// The hosts named in `requested`, in that order (a name given twice is
/// taken twice), each with what the flake says of it. Fails, naming them,
/// when some names are not in the flake.
pub fn select_hosts(
    flake: &NixFlake,
    host_metas: &Vec<(String, HostMeta)>,
    requested: &Vec<String>,
) -> (res: Result<Vec<TargetHost>, String>)
    ensures
        unknown_hosts(requested@, host_metas@).len() > 0 ==> (res matches Err(m) && m@
            == unknown_hosts_message(unknown_hosts(requested@, host_metas@))),
        unknown_hosts(requested@, host_metas@).len() == 0 ==> (res matches Ok(targets)
            && targets@.len() == requested@.len() && forall|i: int|
            0 <= i < targets@.len() ==> (entry_lookup(host_metas@, requested@[i]@) matches Some(m)
                && (#[trigger] targets@[i]).meta@ == m@ && targets@[i].flake == *flake)),
{
    let mut missing: Vec<String> = Vec::new();
    let mut i: usize = 0;
    while i < requested.len()
        invariant
            i <= requested@.len(),
            views(missing@) == unknown_hosts(requested@.take(i as int), host_metas@),
        decreases requested@.len() - i,
    {
        assert(requested@.take(i + 1).drop_last() =~= requested@.take(i as int));
        if find_entry(host_metas, &requested[i]).is_none() {
            let p = requested[i].clone();
            proof {
                lemma_views_push(missing@, p);
            }
            missing.push(p);
        }
        i = i + 1;
    }
    assert(requested@.take(requested@.len() as int) =~= requested@);
    if missing.len() > 0 {
        let mut m = copy_str("Specified hosts not found in flake: ");
        let joined = join_strings(&missing, ",");
        m.append(joined.as_str());
        return Err(m);
    }
    proof {
        lemma_no_unknown_hosts(requested@, host_metas@);
    }
    let mut targets: Vec<TargetHost> = Vec::new();
    let mut k: usize = 0;
    while k < requested.len()
        invariant
            k <= requested@.len(),
            targets@.len() == k,
            forall|r: int| 0 <= r < requested@.len() ==> #[trigger] entry_lookup(host_metas@, requested@[r]@) is Some,
            forall|r: int|
                0 <= r < k ==> (entry_lookup(host_metas@, requested@[r]@) matches Some(m)
                    && (#[trigger] targets@[r]).meta@ == m@ && targets@[r].flake == *flake),
        decreases requested@.len() - k,
    {
        let found = find_entry(host_metas, &requested[k]);
        assert(entry_lookup(host_metas@, requested@[k as int]@) is Some);
        let j = found.unwrap();
        let target = TargetHost::new(host_metas[j].1.clone(), flake.clone());
        targets.push(target);
        k = k + 1;
    }
    Ok(targets)
}

/// When no requested name is unknown, each one has an entry.
proof fn lemma_no_unknown_hosts(requested: Seq<String>, metas: Seq<(String, HostMeta)>)
    requires
        unknown_hosts(requested, metas).len() == 0,
    ensures
        forall|r: int| 0 <= r < requested.len() ==> #[trigger] entry_lookup(metas, requested[r]@) is Some,
    decreases requested.len(),
{
    if requested.len() > 0 {
        let rest = unknown_hosts(requested.drop_last(), metas);
        if entry_lookup(metas, requested.last()@) is None {
            assert(unknown_hosts(requested, metas).len() == rest.len() + 1);
        }
        lemma_no_unknown_hosts(requested.drop_last(), metas);
        assert forall|r: int| 0 <= r < requested.len() implies #[trigger] entry_lookup(
            metas,
            requested[r]@,
        ) is Some by {
            if r < requested.len() - 1 {
                assert(requested.drop_last()[r] == requested[r]);
            }
        }
    }
}

/// The announcement of the hosts being evaluated.
pub fn evaluating_message(targets: &Vec<TargetHost>) -> (res: String)
    ensures
        res@ == "Evaluating hosts: "@ + join(
            targets@.map_values(|t: TargetHost| t.meta.name@),
            ", "@,
        ),
{
    let mut names: Vec<String> = Vec::new();
    let mut i: usize = 0;
    while i < targets.len()
        invariant
            i <= targets@.len(),
            views(names@) == targets@.map_values(|t: TargetHost| t.meta.name@).take(i as int),
        decreases targets@.len() - i,
    {
        let n = targets[i].meta.name.clone();
        proof {
            lemma_views_push(names@, n);
        }
        names.push(n);
        assert(views(names@) =~= targets@.map_values(|t: TargetHost| t.meta.name@).take(i + 1));
        i = i + 1;
    }
    assert(targets@.map_values(|t: TargetHost| t.meta.name@).take(targets@.len() as int)
        =~= targets@.map_values(|t: TargetHost| t.meta.name@));
    let mut m = copy_str("Evaluating hosts: ");
    let joined = join_strings(&names, ", ");
    m.append(joined.as_str());
    m
}

/// How many of the outcomes are failures.
pub open spec fn failure_count(succeeded: Seq<bool>) -> nat
    decreases succeeded.len(),
{
    if succeeded.len() == 0 {
        0
    } else {
        failure_count(succeeded.drop_last()) + if succeeded.last() {
            0nat
        } else {
            1nat
        }
    }
}

/// There are never more failures than outcomes.
pub proof fn lemma_failure_count_bounded(succeeded: Seq<bool>)
    ensures
        failure_count(succeeded) <= succeeded.len(),
    decreases succeeded.len(),
{
    if succeeded.len() > 0 {
        lemma_failure_count_bounded(succeeded.drop_last());
    }
}

/// The result of a deployment from the outcome of each host: success when
/// every host succeeded, else how many failed.
pub fn deploy_result(succeeded: &Vec<bool>) -> (res: Result<(), String>)
    requires
        succeeded@.len() <= u32::MAX,
    ensures
        failure_count(succeeded@) == 0 ==> res is Ok,
        failure_count(succeeded@) > 0 ==> (res matches Err(m) && m@ == decimal(
            failure_count(succeeded@),
        ) + " host(s) failed"@),
{
    let mut failures: u32 = 0;
    let mut i: usize = 0;
    while i < succeeded.len()
        invariant
            i <= succeeded@.len() <= u32::MAX,
            failures == failure_count(succeeded@.take(i as int)),
        decreases succeeded@.len() - i,
    {
        assert(succeeded@.take(i + 1).drop_last() =~= succeeded@.take(i as int));
        proof {
            lemma_failure_count_bounded(succeeded@.take(i as int));
        }
        if !succeeded[i] {
            failures = failures + 1;
        }
        i = i + 1;
    }
    assert(succeeded@.take(succeeded@.len() as int) =~= succeeded@);
    if failures > 0 {
        let mut m = String::new();
        push_decimal(&mut m, failures as u64);
        m.append(" host(s) failed");
        return Err(m);
    }
    Ok(())
}

/// What a host has got through so far.
#[derive(Debug, Clone, Copy, PartialEq, Eq, Structural)]
pub enum HostProgress {
    Started,
    Built,
    Copied,
    Activated,
}

/// What a host does next.
#[derive(Debug, Clone, Copy, PartialEq, Eq, Structural)]
pub enum HostStep {
    /// Build its system.
    Build,
    /// Connect to it and copy the system there.
    Copy,
    /// Activate the system.
    Activate,
    /// Nothing more.
    Finish,
}

/// The next step of a host, given the stage and what it got through: it is
/// always built; copied when the stage is at least `Push`; activated when
/// the stage is `Apply`.
pub open spec fn next_step_of(stage: Stage, progress: HostProgress) -> HostStep {
    match progress {
        HostProgress::Started => HostStep::Build,
        HostProgress::Built => if rank(stage) < rank(Stage::Push) {
            HostStep::Finish
        } else {
            HostStep::Copy
        },
        HostProgress::Copied => if rank(stage) < rank(Stage::Apply) {
            HostStep::Finish
        } else {
            HostStep::Activate
        },
        HostProgress::Activated => HostStep::Finish,
    }
}

/// What a host has got through once `step` succeeded.
pub open spec fn progress_after(step: HostStep, progress: HostProgress) -> HostProgress {
    match step {
        HostStep::Build => HostProgress::Built,
        HostStep::Copy => HostProgress::Copied,
        HostStep::Activate => HostProgress::Activated,
        HostStep::Finish => progress,
    }
}

/// The next step of a host.
pub fn next_step(stage: Stage, progress: HostProgress) -> (res: HostStep)
    ensures
        res == next_step_of(stage, progress),
{
    match progress {
        HostProgress::Started => HostStep::Build,
        HostProgress::Built => if stage.before(Stage::Push) {
            HostStep::Finish
        } else {
            HostStep::Copy
        },
        HostProgress::Copied => if stage.before(Stage::Apply) {
            HostStep::Finish
        } else {
            HostStep::Activate
        },
        HostProgress::Activated => HostStep::Finish,
    }
}

/// What a host has got through once `step` succeeded.
pub fn advance(step: HostStep, progress: HostProgress) -> (res: HostProgress)
    ensures
        res == progress_after(step, progress),
{
    match step {
        HostStep::Build => HostProgress::Built,
        HostStep::Copy => HostProgress::Copied,
        HostStep::Activate => HostProgress::Activated,
        HostStep::Finish => progress,
    }
}

/// The steps a host goes through for a stage, when every step succeeds.
pub open spec fn steps_for(stage: Stage) -> Seq<HostStep> {
    match stage {
        Stage::Eval => seq![HostStep::Build],
        Stage::Build => seq![HostStep::Build],
        Stage::Push => seq![HostStep::Build, HostStep::Copy],
        Stage::Apply => seq![HostStep::Build, HostStep::Copy, HostStep::Activate],
    }
}

/// The steps taken from `progress` on, at most `fuel` of them, stopping at
/// `Finish`.
pub open spec fn run_steps(stage: Stage, progress: HostProgress, fuel: nat) -> Seq<HostStep>
    decreases fuel,
{
    if fuel == 0 {
        Seq::empty()
    } else {
        let step = next_step_of(stage, progress);
        if step == HostStep::Finish {
            Seq::empty()
        } else {
            seq![step] + run_steps(stage, progress_after(step, progress), (fuel - 1) as nat)
        }
    }
}

/// A host that starts and succeeds at every step is built, then copied
/// exactly when the stage is at least `Push`, then activated exactly when
/// the stage is `Apply`, and then finishes.
pub proof fn lemma_host_runs_its_stage(stage: Stage)
    ensures
        run_steps(stage, HostProgress::Started, 4) == steps_for(stage),
{
    reveal_with_fuel(run_steps, 5);
    assert(run_steps(stage, HostProgress::Started, 4) =~= steps_for(stage));
}

/// A later stage does everything an earlier stage does, in the same order,
/// and perhaps more.
pub proof fn lemma_later_stage_does_more(s1: Stage, s2: Stage)
    requires
        rank(s1) <= rank(s2),
    ensures
        steps_for(s1).len() <= steps_for(s2).len(),
        steps_for(s1) == steps_for(s2).take(steps_for(s1).len() as int),
{
    assert(steps_for(s1) =~= steps_for(s2).take(steps_for(s1).len() as int));
}

/// Once finished, a host stays finished.
pub proof fn lemma_finish_is_final(stage: Stage, progress: HostProgress)
    requires
        next_step_of(stage, progress) == HostStep::Finish,
    ensures
        next_step_of(stage, progress_after(HostStep::Finish, progress)) == HostStep::Finish,
{
}

} // verus!
