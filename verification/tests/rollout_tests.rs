use nixdeploy::errors::DeployError;
use nixdeploy::rollout::{
    configuration_for_output, deployment_summary, evaluated_status, may_start_deployment, needs_copy,
    run_outcome, select_configurations, DeployAction, DeployEvent, DeployPhase, SingleDeployment,
};
use nixdeploy::types::{
    ConfigurationMetadata, ConfigurationStatus, DeploymentConfig, DeploymentOptions,
    ExecutionTarget, IpEntry, NixEvalJobOutput, NixOutputs, NixosConfiguration, Verbosity,
};

fn ssh(host: &str) -> ExecutionTarget {
    ExecutionTarget::Ssh { host: host.into(), username: None, port: None }
}

fn meta(primary: Option<&str>, deploy: Option<DeploymentConfig>) -> ConfigurationMetadata {
    ConfigurationMetadata {
        system: "x86_64-linux".into(),
        ips: primary
            .map(|p| vec![IpEntry { key: "primary".into(), value: Some(p.into()) }])
            .unwrap_or_default(),
        tags: vec![],
        deploy,
    }
}

fn options() -> DeploymentOptions {
    DeploymentOptions { build_host_override: Some(ExecutionTarget::Local), ..DeploymentOptions::default() }
}

#[test]
fn selection_filters_and_overrides() {
    let md = vec![
        ("a".to_string(), meta(Some("1.1.1.1"), None)),
        ("b".to_string(), meta(None, None)),
        ("c".to_string(), meta(Some("3.3.3.3"), None)),
    ];
    let (configs, rejected) = select_configurations(md, &vec!["a".into(), "b".into()], &options());
    assert_eq!(configs.len(), 1);
    assert_eq!(configs[0].name, "a");
    assert!(configs[0].deployment_config.build_host.as_ref().unwrap().is_local());
    assert_eq!(rejected.len(), 1);
    assert_eq!(rejected[0].0, "b");
    assert_eq!(rejected[0].1.message(), "Invalid configuration: Configuration 'b' missing primary IP");
}

#[test]
fn no_names_select_every_configuration() {
    let md = vec![
        ("a".to_string(), meta(Some("1.1.1.1"), None)),
        ("c".to_string(), meta(Some("3.3.3.3"), None)),
    ];
    let (configs, rejected) = select_configurations(md, &vec![], &options());
    assert_eq!(configs.len(), 2);
    assert!(rejected.is_empty());
}

fn configuration(name: &str, deploy: Option<DeploymentConfig>) -> NixosConfiguration {
    NixosConfiguration::new(name.into(), meta(Some("9.9.9.9"), deploy)).unwrap()
}

#[test]
fn evaluation_results_find_their_configuration() {
    let configs = vec![configuration("a", None), configuration("b", None)];
    let out = NixEvalJobOutput {
        drv_path: Some("/b.drv".into()),
        outputs: Some(NixOutputs { out: "/b".into() }),
        attr: Some("b".into()),
        name: None,
        system: None,
    };
    let c = configuration_for_output(&configs, &out).unwrap();
    assert_eq!(c.name, "b");
    assert_eq!(c.drv_path.as_deref(), Some("/b.drv"));
    assert_eq!(c.out_path.as_deref(), Some("/b"));
    let none = NixEvalJobOutput { attr: Some("zz".into()), drv_path: None, outputs: None, name: None, system: None };
    assert!(configuration_for_output(&configs, &none).is_none());
    match evaluated_status(&none) {
        ConfigurationStatus::Evaluated { drv_path } => assert_eq!(drv_path, ""),
        _ => panic!(),
    }
}

#[test]
fn summaries() {
    assert_eq!(
        deployment_summary(Verbosity::Progress, 3, 0),
        vec!["\n✓ All 3 configurations deployed successfully".to_string()]
    );
    assert_eq!(
        deployment_summary(Verbosity::Progress, 2, 1),
        vec![
            "\n✗ Deployment completed: 2 successes, 1 failures".to_string(),
            "  (Errors shown above for each failed configuration)".to_string()
        ]
    );
    assert_eq!(
        deployment_summary(Verbosity::Detailed, 2, 1),
        vec!["INFO: Deployment completed: 2 successes, 1 failures".to_string()]
    );
}

#[test]
fn copy_decision() {
    assert!(!needs_copy(&ExecutionTarget::Local, &ExecutionTarget::Local));
    assert!(!needs_copy(&ssh("h"), &ssh("h")));
    assert!(needs_copy(&ssh("h"), &ssh("g")));
    assert!(needs_copy(&ExecutionTarget::Local, &ssh("g")));
    assert!(needs_copy(&ssh("h"), &ExecutionTarget::Local));
}

fn kinds(statuses: &[ConfigurationStatus]) -> Vec<&'static str> {
    statuses
        .iter()
        .map(|s| match s {
            ConfigurationStatus::Building => "building",
            ConfigurationStatus::Built { .. } => "built",
            ConfigurationStatus::CopyingClosure => "copying",
            ConfigurationStatus::Activating => "activating",
            ConfigurationStatus::Activated => "activated",
            ConfigurationStatus::Error { .. } => "error",
            _ => "other",
        })
        .collect()
}

#[test]
fn successful_deployment_with_copy() {
    let mut remote = DeploymentConfig::new(ssh("web.example"));
    remote.build_host = Some(ExecutionTarget::Local);
    remote.timeout_secs = Some(42);
    let mut d = SingleDeployment::new(configuration("web", Some(remote)));
    let mut seen = Vec::new();
    let (s, a) = d.step(DeployEvent::Start);
    seen.extend(s);
    assert!(matches!(a, DeployAction::Build { timeout_secs: Some(42) }));
    let (s, a) = d.step(DeployEvent::BuildSucceeded("/nix/store/out".into()));
    seen.extend(s);
    assert!(matches!(a, DeployAction::CopyClosure { timeout_secs: Some(42) }));
    assert_eq!(d.config.out_path.as_deref(), Some("/nix/store/out"));
    let (s, a) = d.step(DeployEvent::CopySucceeded);
    seen.extend(s);
    assert!(matches!(a, DeployAction::Activate { timeout_secs: Some(42) }));
    let (s, a) = d.step(DeployEvent::ActivationSucceeded(vec!["warn".into()]));
    seen.extend(s);
    match a {
        DeployAction::Finish(lines) => assert_eq!(lines, vec!["warn".to_string()]),
        _ => panic!(),
    }
    assert_eq!(d.phase, DeployPhase::Deployed);
    assert_eq!(kinds(&seen), vec!["building", "built", "copying", "activating", "activated"]);
}

#[test]
fn deployment_on_the_build_host_skips_the_copy() {
    let mut d = SingleDeployment::new(configuration("web", Some(DeploymentConfig::new(ExecutionTarget::Local))));
    d.step(DeployEvent::Start);
    let (s, a) = d.step(DeployEvent::BuildSucceeded("/o".into()));
    assert!(matches!(a, DeployAction::Activate { timeout_secs: Some(600) }));
    assert_eq!(kinds(&s), vec!["built", "activating"]);
}

#[test]
fn failed_build_reports_one_error() {
    let mut d = SingleDeployment::new(configuration("web", None));
    d.step(DeployEvent::Start);
    let e = DeployError::nix_build_failed("web".into(), None, "a\nb".into());
    let (s, a) = d.step(DeployEvent::BuildFailed(e));
    assert_eq!(d.phase, DeployPhase::Failed);
    assert!(matches!(a, DeployAction::Abort(_)));
    match &s[..] {
        [ConfigurationStatus::Error { error, error_lines }] => {
            assert_eq!(error, "Build failed: Nix build failed for configuration web: a\nb");
            assert_eq!(error_lines, &vec!["a".to_string(), "b".to_string()]);
        }
        _ => panic!(),
    }
}

#[test]
fn deployment_accepts_only_the_awaited_outcome() {
    let mut d = SingleDeployment::new(configuration("web", None));
    assert!(d.accepts(&DeployEvent::Start));
    assert!(!d.accepts(&DeployEvent::CopySucceeded));
    assert!(!d.accepts(&DeployEvent::BuildSucceeded("/o".into())));
    d.step(DeployEvent::Start);
    assert!(!d.accepts(&DeployEvent::Start));
    assert!(d.accepts(&DeployEvent::BuildSucceeded("/o".into())));
    assert!(d.accepts(&DeployEvent::BuildFailed(DeployError::Other("x".into()))));
    assert!(!d.accepts(&DeployEvent::ActivationSucceeded(vec![])));
    d.step(DeployEvent::BuildSucceeded("/o".into()));
    assert!(d.accepts(&DeployEvent::ActivationSucceeded(vec![])));
    assert!(!d.accepts(&DeployEvent::CopySucceeded));
}

#[test]
fn run_outcomes() {
    assert_eq!(run_outcome(&vec![]), (0, 0, false));
    assert_eq!(run_outcome(&vec![true, true]), (2, 0, false));
    assert_eq!(run_outcome(&vec![true, false, false]), (1, 2, true));
}

#[test]
fn deployments_start_within_the_limit() {
    assert!(may_start_deployment(7, None));
    assert!(may_start_deployment(1, Some(2)));
    assert!(!may_start_deployment(2, Some(2)));
    assert!(!may_start_deployment(5, Some(2)));
    assert!(may_start_deployment(0, Some(0)));
    assert!(!may_start_deployment(1, Some(0)));
}
