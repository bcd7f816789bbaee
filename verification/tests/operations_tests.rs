use nixdeploy::errors::DeployError;
use nixdeploy::execution::CommandResult;
use nixdeploy::operations::building::{check_store_path_exists, store_path_check_args, Builder};
use nixdeploy::operations::deployment::{exit_code_debug, Deployer, HealthStatus, RollbackInfo};
use nixdeploy::operations::evaluation::Evaluator;
use nixdeploy::types::{ConfigurationMetadata, DeploymentConfig, ExecutionTarget, IpEntry, NixosConfiguration};

fn ssh(host: &str, user: Option<&str>, port: Option<u16>) -> ExecutionTarget {
    ExecutionTarget::Ssh { host: host.into(), username: user.map(|u| u.into()), port }
}

fn config(drv: Option<&str>, out: Option<&str>, dry_run: bool) -> NixosConfiguration {
    let meta = ConfigurationMetadata {
        system: "x86_64-linux".into(),
        ips: vec![IpEntry { key: "primary".into(), value: Some("10.0.0.1".into()) }],
        tags: vec![],
        deploy: None,
    };
    let mut c = NixosConfiguration::new("web".into(), meta).unwrap();
    c.deployment_config.dry_run = dry_run;
    c.with_paths(drv.map(|s| s.into()), out.map(|s| s.into()))
}

fn result(code: Option<i32>, out: &[&str], err: &[&str]) -> Result<CommandResult, DeployError> {
    Ok(CommandResult {
        exit_code: code,
        stdout_lines: out.iter().map(|s| s.to_string()).collect(),
        stderr_lines: err.iter().map(|s| s.to_string()).collect(),
    })
}

#[test]
fn build_needs_a_derivation() {
    assert_eq!(Builder::derivation_to_build(&config(Some("/d.drv"), None, false)).unwrap(), "/d.drv");
    match Builder::derivation_to_build(&config(None, None, false)) {
        Err(DeployError::NixBuildFailed { config_name, drv_path, message }) => {
            assert_eq!(config_name, "web");
            assert!(drv_path.is_none());
            assert_eq!(message, "No derivation path available for building");
        }
        _ => panic!("expected a failed build"),
    }
}

#[test]
fn build_outcomes() {
    let c = config(Some("/d.drv"), None, false);
    let d = "/d.drv".to_string();
    assert_eq!(
        Builder::build_outcome(&c, &d, result(Some(0), &["progress", "  /nix/store/out \n"], &[])).unwrap(),
        "/nix/store/out"
    );
    match Builder::build_outcome(&c, &d, result(Some(1), &[], &["e1", "e2"])) {
        Err(DeployError::NixBuildFailed { message, drv_path, .. }) => {
            assert_eq!(message, "nix-build failed: e1\ne2");
            assert_eq!(drv_path.as_deref(), Some("/d.drv"));
        }
        _ => panic!("expected a failed build"),
    }
    match Builder::build_outcome(&c, &d, result(Some(0), &[], &[])) {
        Err(DeployError::NixBuildFailed { message, .. }) => {
            assert_eq!(message, "No output path returned from nix-build")
        }
        _ => panic!("expected a failed build"),
    }
    match Builder::build_outcome(&c, &d, Err(DeployError::timeout("nix-build".into(), 9))) {
        Err(DeployError::NixBuildFailed { message, .. }) => {
            assert_eq!(message, "Timeout occurred during nix-build after 9 seconds")
        }
        _ => panic!("expected a failed build"),
    }
}

#[test]
fn copy_closure_arguments() {
    let b = Builder::new(&ExecutionTarget::Local);
    assert_eq!(
        b.copy_closure_args("/nix/store/o", &ssh("h", None, None)).unwrap().unwrap(),
        vec!["--to", "h", "/nix/store/o"]
    );
    assert_eq!(
        b.copy_closure_args("/nix/store/o", &ssh("h", Some("root"), Some(22))).unwrap().unwrap(),
        vec!["--gzip", "--include-outputs", "--to", "ssh://root@h:22", "/nix/store/o"]
    );
    assert!(b.copy_closure_args("/o", &ExecutionTarget::Local).unwrap().is_none());
}

#[test]
fn copy_to_own_host_is_skipped_and_to_local_refused() {
    let target = ssh("h", Some("u"), Some(2));
    let b = Builder::new(&target);
    assert!(b.executor_matches_target(&target));
    assert!(!b.executor_matches_target(&ssh("h", None, Some(2))));
    assert!(b.copy_closure_args("/o", &target).unwrap().is_none());
    match b.copy_closure_args("/o", &ExecutionTarget::Local) {
        Err(DeployError::CopyClosureFailed { src, target, message }) => {
            assert_eq!(src, "u@h:2");
            assert_eq!(target, "local");
            assert_eq!(message, "Cannot copy closure to local from remote host using nix-copy-closure");
        }
        _ => panic!("expected a refused copy"),
    }
}

#[test]
fn copy_outcomes() {
    let b = Builder::new(&ExecutionTarget::Local);
    let t = ssh("h", None, None);
    assert!(b.copy_outcome(&t, result(Some(0), &[], &[])).is_ok());
    match b.copy_outcome(&t, result(Some(3), &[], &["denied"])) {
        Err(DeployError::CopyClosureFailed { src, target, message }) => {
            assert_eq!(src, "local");
            assert_eq!(target, "h");
            assert_eq!(message, "nix-copy-closure failed: denied");
        }
        _ => panic!("expected a failed copy"),
    }
}

#[test]
fn store_path_checks() {
    assert_eq!(store_path_check_args("/nix/store/x"), vec!["-e", "/nix/store/x"]);
    assert!(check_store_path_exists(&result(Some(0), &[], &[])));
    assert!(!check_store_path_exists(&result(Some(1), &[], &[])));
    assert!(!check_store_path_exists(&Err(DeployError::Other("x".into()))));
}

#[test]
fn activation_commands() {
    let (script, mode) = Deployer::activation_command(&config(None, Some("/nix/store/o"), false)).unwrap();
    assert_eq!(script, "/nix/store/o/bin/switch-to-configuration");
    assert_eq!(mode, "switch");
    let (_, mode) = Deployer::activation_command(&config(None, Some("/o"), true)).unwrap();
    assert_eq!(mode, "test");
    match Deployer::activation_command(&config(None, None, false)) {
        Err(DeployError::DeploymentFailed { message, .. }) => {
            assert_eq!(message, "No output path available for activation")
        }
        _ => panic!("expected a failed deployment"),
    }
}

#[test]
fn activation_failure_shows_last_ten_lines() {
    let c = config(None, Some("/o"), false);
    let lines: Vec<String> = (1..=12).map(|i| format!("e{i}")).collect();
    match Deployer::activation_outcome(&c, false, Some(4), lines) {
        Err(DeployError::DeploymentFailed { config_name, message }) => {
            assert_eq!(config_name, "web");
            assert_eq!(
                message,
                "Activation failed with exit code Some(4). Last 10 error lines:\ne3\ne4\ne5\ne6\ne7\ne8\ne9\ne10\ne11\ne12"
            );
        }
        _ => panic!("expected a failed deployment"),
    }
    let ok = Deployer::activation_outcome(&c, true, Some(0), vec!["warn".into()]).unwrap();
    assert_eq!(ok, vec!["warn".to_string()]);
    assert_eq!(exit_code_debug(None), format!("{:?}", None::<i32>));
    assert_eq!(exit_code_debug(Some(-1)), format!("{:?}", Some(-1)));
}

#[test]
fn activation_timeouts_and_waits() {
    let c = config(None, Some("/o"), false);
    match Deployer::activation_timeout(&c, None) {
        DeployError::Timeout { operation, timeout_secs } => {
            assert_eq!(operation, "activation of web");
            assert_eq!(timeout_secs, 600);
        }
        _ => panic!("expected a timeout"),
    }
    match Deployer::activation_wait_failure(&c, "broken pipe") {
        DeployError::DeploymentFailed { message, .. } => {
            assert_eq!(message, "Failed to wait for activation process: broken pipe")
        }
        _ => panic!("expected a failed deployment"),
    }
    match Deployer::activation_start_failure(&c, &DeployError::Other("x".into())) {
        DeployError::DeploymentFailed { message, .. } => {
            assert_eq!(message, "Failed to start activation: Other error: x")
        }
        _ => panic!("expected a failed deployment"),
    }
}

#[test]
fn health_classification() {
    assert!(matches!(Deployer::health_from(result(Some(0), &["running\n"], &[])), HealthStatus::Healthy));
    match Deployer::health_from(result(Some(0), &["degraded"], &[])) {
        HealthStatus::Degraded { reason } => assert_eq!(reason, "System is degraded"),
        _ => panic!(),
    }
    match Deployer::health_from(result(Some(0), &[" starting "], &[])) {
        HealthStatus::Unknown { status } => assert_eq!(status, "starting"),
        _ => panic!(),
    }
    match Deployer::health_from(result(Some(0), &[], &[])) {
        HealthStatus::Unknown { status } => assert_eq!(status, "unknown"),
        _ => panic!(),
    }
    match Deployer::health_from(result(Some(1), &[], &["a", "b"])) {
        HealthStatus::Unhealthy { reason } => assert_eq!(reason, "systemctl failed: a\nb"),
        _ => panic!(),
    }
    match Deployer::health_from(Err(DeployError::Other("x".into()))) {
        HealthStatus::Unhealthy { reason } => assert_eq!(reason, "Health check failed: Other error: x"),
        _ => panic!(),
    }
}

#[test]
fn rollback_information() {
    let d = Deployer::new(&ssh("h", None, Some(22)));
    let c = config(None, Some("/o"), false);
    let info = d.rollback_info(&c, result(Some(0), &["/nix/store/prev \n"], &[])).unwrap();
    assert_eq!(info.config_name, "web");
    assert_eq!(info.previous_profile, "/nix/store/prev");
    assert_eq!(info.host, "h:22");
    assert_eq!(info.rollback_script(), "/nix/store/prev/bin/switch-to-configuration");
    match d.rollback_info(&c, result(Some(0), &[], &[])) {
        Err(DeployError::DeploymentFailed { message, .. }) => assert_eq!(message, "No current system profile found"),
        _ => panic!(),
    }
    let info = RollbackInfo { config_name: "web".into(), previous_profile: "/p".into(), host: "h".into() };
    assert!(info.rollback_outcome(result(Some(0), &[], &[])).is_ok());
    match info.rollback_outcome(result(Some(2), &[], &["bad"])) {
        Err(DeployError::DeploymentFailed { message, .. }) => assert_eq!(message, "Rollback activation failed: bad"),
        _ => panic!(),
    }
    match info.rollback_outcome(Err(DeployError::Other("x".into()))) {
        Err(DeployError::DeploymentFailed { message, .. }) => assert_eq!(message, "Rollback failed: Other error: x"),
        _ => panic!(),
    }
}

#[test]
fn evaluator_commands_and_outcomes() {
    let e = Evaluator::new("/src/flake".into(), &ExecutionTarget::Local);
    assert!(e.executor_is_local());
    assert_eq!(
        e.metadata_args(),
        vec!["eval", "--json", "path:/src/flake#nixosConfigurations", "--apply", "builtins.mapAttrs (_: value: value.config.deploy)"]
    );
    assert_eq!(e.metadata_output(result(Some(0), &["{", "}"], &[])).unwrap(), "{\n}");
    match e.metadata_output(result(Some(1), &[], &["boom"])) {
        Err(DeployError::NixEvaluationFailed { flake_path, message }) => {
            assert_eq!(flake_path, "/src/flake");
            assert_eq!(message, "nix eval failed: boom");
        }
        _ => panic!(),
    }
    let args = e.configurations_args().unwrap();
    assert_eq!(args[..3], ["--workers", "12", "--expr"]);
    let expected = format!(
        r#"
            with builtins;
            let flake = getFlake "path:{}";
            in mapAttrs
                (name: config: config.config.system.build.toplevel)
                flake.outputs.nixosConfigurations
            "#,
        "/src/flake"
    );
    assert_eq!(args[3], expected);
    assert!(e.evaluation_exit(true, Some(0)).is_none());
    match e.evaluation_exit(false, Some(1)) {
        Some(DeployError::NixEvaluationFailed { message, .. }) => {
            assert_eq!(message, "nix-eval-jobs failed with exit code: Some(1)")
        }
        _ => panic!(),
    }
    assert!(e.remote_flake_copy_args(&ExecutionTarget::Local).is_none());
    assert_eq!(
        e.remote_flake_outcome(&ExecutionTarget::Local, result(Some(1), &[], &["x"])).unwrap(),
        "/src/flake"
    );
}

#[test]
fn flake_copies_to_remote_hosts() {
    let e = Evaluator::new("/src/flake".into(), &ExecutionTarget::Local);
    assert_eq!(
        e.remote_flake_copy_args(&ssh("far", None, None)).unwrap(),
        vec!["-a", "--delete", "-e", "ssh", "/src/flake/", "far:/tmp/nixdeploy-flake"]
    );
    assert_eq!(
        e.remote_flake_copy_args(&ssh("far", Some("root"), Some(2222))).unwrap(),
        vec!["-a", "--delete", "-e", "ssh -p 2222", "/src/flake/", "root@far:/tmp/nixdeploy-flake"]
    );
    let far = ssh("far", None, None);
    assert_eq!(e.remote_flake_outcome(&far, result(Some(0), &[], &[])).unwrap(), "/tmp/nixdeploy-flake");
    match e.remote_flake_outcome(&far, result(Some(23), &[], &["denied", "again"])) {
        Err(DeployError::NixEvaluationFailed { flake_path, message }) => {
            assert_eq!(flake_path, "/src/flake");
            assert_eq!(message, "Failed to copy flake to remote host far: denied\nagain");
        }
        _ => panic!(),
    }
    match e.remote_flake_outcome(&far, Err(DeployError::Other("gone".into()))) {
        Err(DeployError::NixEvaluationFailed { message, .. }) => {
            assert_eq!(message, "Failed to copy flake to remote host far: Other error: gone");
        }
        _ => panic!(),
    }
}

#[test]
fn remote_evaluation_is_refused() {
    let e = Evaluator::new("/f".into(), &ssh("far", None, None));
    assert!(!e.executor_is_local());
    match e.configurations_args() {
        Err(DeployError::NixEvaluationFailed { message, .. }) => {
            assert_eq!(message, "Remote evaluation not yet implemented - please use local evaluation")
        }
        _ => panic!(),
    }
    match e.metadata_parse_failure("expected value") {
        DeployError::NixEvaluationFailed { message, .. } => {
            assert_eq!(message, "Failed to parse deployment metadata JSON: expected value")
        }
        _ => panic!(),
    }
    let _ = DeploymentConfig::new(ExecutionTarget::Local);
}

#[test]
fn operations_name_their_hosts() {
    let b = Builder::new(&ssh("build", Some("nix"), Some(2222)));
    assert!(!b.executor().is_local());
    assert_eq!(b.host_identifier(), "nix@build:2222");
    let d = Deployer::new(&ExecutionTarget::Local);
    assert!(d.executor().is_local());
    assert_eq!(d.host_identifier(), "local");
    let e = Evaluator::new("/srv/flake".into(), &ssh("eval", None, None));
    assert_eq!(e.flake_path(), "/srv/flake");
    assert!(!e.executor().is_local());
    assert!(!e.executor_is_local());
}
