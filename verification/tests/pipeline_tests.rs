use nixdeploy::host::{HostAddress, HostMeta};
use nixdeploy::nix::flake::NixFlake;
use nixdeploy::pipeline::{
    advance, deploy_result, evaluating_message, next_step, resolve_targets, select_hosts,
    HostProgress, HostStep, Stage,
};

fn meta(name: &str) -> HostMeta {
    HostMeta {
        name: name.to_string(),
        ips: vec![HostAddress { label: "primary".into(), address: format!("{name}.lan") }],
        tags: vec![],
    }
}

fn metas(names: &[&str]) -> Vec<(String, HostMeta)> {
    names.iter().map(|n| (n.to_string(), meta(n))).collect()
}

fn flake() -> NixFlake {
    NixFlake { flake_ref: ".".into() }
}

#[test]
fn wildcards_select_matching_hosts() {
    let m = metas(&["web-1", "web-2", "db-1", "cache"]);
    let t = resolve_targets(&flake(), &m, &vec!["web-*".into(), "?b-1".into()]).unwrap();
    let names: Vec<&str> = t.iter().map(|x| x.meta.name.as_str()).collect();
    assert_eq!(names, vec!["web-1", "web-2", "db-1"]);
    assert_eq!(t[0].flake.flake_ref, ".");
}

#[test]
fn overlapping_patterns_select_each_host_once() {
    let m = metas(&["web-1", "web-2"]);
    let t = resolve_targets(&flake(), &m, &vec!["web-1".into(), "*".into(), "web-?".into()]).unwrap();
    assert_eq!(t.len(), 2);
}

#[test]
fn unmatched_patterns_are_named() {
    let m = metas(&["web-1"]);
    let err = resolve_targets(&flake(), &m, &vec!["db*".into(), "web-1".into(), "x?".into()])
        .err()
        .unwrap();
    assert_eq!(err, "Specified host patterns matched no hosts in flake: db*, x?");
}

#[test]
fn wildcard_question_mark_needs_one_character() {
    let m = metas(&["cat"]);
    assert!(resolve_targets(&flake(), &m, &vec!["????".into()]).is_err());
    assert!(resolve_targets(&flake(), &m, &vec!["c?t".into()]).is_ok());
    assert!(resolve_targets(&flake(), &m, &vec!["*d".into()]).is_err());
    assert!(resolve_targets(&flake(), &m, &vec!["**t".into()]).is_ok());
}

#[test]
fn exact_host_selection_keeps_request_order() {
    let m = metas(&["a", "b", "c"]);
    let t = select_hosts(&flake(), &m, &vec!["c".into(), "a".into(), "c".into()]).unwrap();
    let names: Vec<&str> = t.iter().map(|x| x.meta.name.as_str()).collect();
    assert_eq!(names, vec!["c", "a", "c"]);
    let err = select_hosts(&flake(), &m, &vec!["x".into(), "a".into(), "y".into()]).err().unwrap();
    assert_eq!(err, "Specified hosts not found in flake: x,y");
}

#[test]
fn deploy_result_counts_failures() {
    assert!(deploy_result(&vec![true, true]).is_ok());
    assert!(deploy_result(&vec![]).is_ok());
    assert_eq!(deploy_result(&vec![false, true, false]).err().unwrap(), "2 host(s) failed");
}

#[test]
fn evaluating_message_lists_hosts() {
    let m = metas(&["a", "b"]);
    let t = resolve_targets(&flake(), &m, &vec!["*".into()]).unwrap();
    assert_eq!(evaluating_message(&t), "Evaluating hosts: a, b");
}

fn run(stage: Stage) -> Vec<HostStep> {
    let mut progress = HostProgress::Started;
    let mut steps = Vec::new();
    loop {
        let step = next_step(stage, progress);
        if step == HostStep::Finish {
            return steps;
        }
        steps.push(step);
        progress = advance(step, progress);
    }
}

#[test]
fn stages_decide_the_host_steps() {
    assert_eq!(run(Stage::Build), vec![HostStep::Build]);
    assert_eq!(run(Stage::Push), vec![HostStep::Build, HostStep::Copy]);
    assert_eq!(run(Stage::Apply), vec![HostStep::Build, HostStep::Copy, HostStep::Activate]);
    assert!(!Stage::Eval.proceeds_past_evaluation());
    assert!(Stage::Apply.proceeds_past_evaluation());
    assert!(Stage::Build.before(Stage::Push));
    assert!(!Stage::Apply.before(Stage::Push));
}
