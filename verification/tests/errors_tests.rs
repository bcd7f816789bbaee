use nixdeploy::errors::{collect_results, DeployError};

fn msg(e: DeployError) -> String {
    e.message()
}

#[test]
fn error_messages() {
    assert_eq!(msg(DeployError::Io("denied".into())), "IO error: denied");
    assert_eq!(msg(DeployError::Json("eof".into())), "JSON parsing error: eof");
    assert_eq!(
        msg(DeployError::command_failed("ls -l".into(), Some(2), "no such file".into())),
        "Command execution failed: ls -l\nError output: no such file"
    );
    assert_eq!(
        msg(DeployError::nix_evaluation_failed("/flake".into(), "bad".into())),
        "Nix evaluation failed for flake at /flake: bad"
    );
    assert_eq!(
        msg(DeployError::nix_build_failed("web".into(), None, "oops".into())),
        "Nix build failed for configuration web: oops"
    );
    assert_eq!(
        msg(DeployError::deployment_failed("web".into(), "down".into())),
        "Deployment failed for configuration web: down"
    );
    assert_eq!(
        msg(DeployError::ssh_connection_failed("h".into(), "refused".into())),
        "SSH connection failed to h: refused"
    );
    assert_eq!(msg(DeployError::configuration_not_found("x".into())), "Configuration not found: x");
    assert_eq!(msg(DeployError::invalid_configuration("m".into())), "Invalid configuration: m");
    assert_eq!(
        msg(DeployError::copy_closure_failed("a".into(), "b".into(), "c".into())),
        "Copy closure failed from a to b: c"
    );
    assert_eq!(
        msg(DeployError::timeout("build".into(), 30)),
        "Timeout occurred during build after 30 seconds"
    );
    assert_eq!(msg(DeployError::multiple(vec![])), "Multiple errors occurred");
    assert_eq!(msg(DeployError::channel("closed".into())), "Channel error: closed");
    assert_eq!(msg(DeployError::Other("x".into())), "Other error: x");
}

#[test]
fn error_tail_of_command_output() {
    let e = DeployError::command_failed("c".into(), None, "l1\nl2\nl3\nl4".into());
    assert_eq!(e.get_error_tail(2), vec!["l3".to_string(), "l4".to_string()]);
    assert_eq!(e.get_error_tail(10).len(), 4);
    assert!(e.get_error_tail(0).is_empty());
}

#[test]
fn error_tail_of_messages() {
    let e = DeployError::deployment_failed("web".into(), "a\nb\nc".into());
    assert_eq!(e.get_error_tail(1), vec!["c".to_string()]);
    let e = DeployError::timeout("x".into(), 5);
    assert_eq!(e.get_error_tail(3), vec!["Timeout occurred during x after 5 seconds".to_string()]);
}

#[test]
fn collecting_all_successes() {
    let r: Vec<Result<u32, DeployError>> = vec![Ok(1), Ok(2), Ok(3)];
    assert_eq!(collect_results(r).unwrap(), vec![1, 2, 3]);
    let r: Vec<Result<u32, DeployError>> = vec![];
    assert!(collect_results(r).unwrap().is_empty());
}

#[test]
fn collecting_a_single_error() {
    let r: Vec<Result<u32, DeployError>> = vec![Err(DeployError::Other("x".into()))];
    match collect_results(r) {
        Err(DeployError::Other(m)) => assert_eq!(m, "x"),
        _ => panic!("expected the one error"),
    }
}

#[test]
fn collecting_several_errors_or_partial_success() {
    let r: Vec<Result<u32, DeployError>> =
        vec![Err(DeployError::Other("a".into())), Err(DeployError::Other("b".into()))];
    match collect_results(r) {
        Err(DeployError::Multiple { errors }) => assert_eq!(errors.len(), 2),
        _ => panic!("expected several errors"),
    }
    let r: Vec<Result<u32, DeployError>> = vec![Ok(1), Err(DeployError::Other("a".into()))];
    match collect_results(r) {
        Err(DeployError::Multiple { errors }) => assert_eq!(errors.len(), 1),
        _ => panic!("expected a multiple error even with a success"),
    }
}
