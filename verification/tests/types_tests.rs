use nixdeploy::types::{
    ConfigurationMetadata, DeploymentConfig, DeploymentOptions, ExecutionTarget, IpEntry,
    NixosConfiguration, Verbosity,
};
use nixdeploy::errors::DeployError;

fn ssh(host: &str, user: Option<&str>, port: Option<u16>) -> ExecutionTarget {
    ExecutionTarget::Ssh {
        host: host.to_string(),
        username: user.map(|u| u.to_string()),
        port,
    }
}

fn host_of(t: &ExecutionTarget) -> String {
    match t {
        ExecutionTarget::Local => "local".to_string(),
        ExecutionTarget::Ssh { host, .. } => host.clone(),
    }
}

#[test]
fn host_identifier_forms() {
    assert_eq!(ExecutionTarget::Local.host_identifier(), "local");
    assert_eq!(ssh("10.0.0.1", None, None).host_identifier(), "10.0.0.1");
    assert_eq!(ssh("h", Some("root"), None).host_identifier(), "root@h");
    assert_eq!(ssh("h", Some("root"), Some(2222)).host_identifier(), "root@h:2222");
    assert_eq!(ssh("h", None, Some(22)).host_identifier(), "h:22");
    assert!(ExecutionTarget::Local.is_local());
    assert!(!ssh("h", None, None).is_local());
}

#[test]
fn new_config_runs_everything_on_target() {
    let c = DeploymentConfig::new(ssh("target", None, None));
    assert_eq!(host_of(c.effective_evaluation_host()), "target");
    assert_eq!(host_of(c.effective_build_host()), "target");
    assert_eq!(c.timeout_secs, Some(600));
    assert!(!c.dry_run);
}

#[test]
fn build_host_falls_back_to_evaluation_host() {
    let mut c = DeploymentConfig::new(ssh("target", None, None));
    c.evaluation_host = Some(ssh("eval", None, None));
    assert_eq!(host_of(c.effective_build_host()), "eval");
    c.build_host = Some(ExecutionTarget::Local);
    assert_eq!(host_of(c.effective_build_host()), "local");
    assert_eq!(host_of(c.effective_evaluation_host()), "eval");
}

#[test]
fn default_options() {
    let o = DeploymentOptions::default();
    assert!(o.evaluation_host_override.is_none());
    assert!(o.build_host_override.is_none());
    assert!(!o.dry_run);
    assert_eq!(o.verbosity, Verbosity::Progress);
    assert_eq!(o.max_concurrent, None);
    assert_eq!(o.timeout_secs, Some(600));
}

#[test]
fn overrides_apply_and_are_idempotent() {
    let mut c = DeploymentConfig::new(ssh("target", None, None));
    c.timeout_secs = Some(5);
    let o = DeploymentOptions {
        evaluation_host_override: Some(ExecutionTarget::Local),
        build_host_override: Some(ssh("builder", None, None)),
        dry_run: true,
        verbosity: Verbosity::Detailed,
        max_concurrent: Some(2),
        timeout_secs: Some(30),
    };
    c.apply_overrides(&o);
    assert_eq!(host_of(c.effective_evaluation_host()), "local");
    assert_eq!(host_of(c.effective_build_host()), "builder");
    assert_eq!(host_of(&c.target_host), "target");
    assert!(c.dry_run);
    assert_eq!(c.timeout_secs, Some(30));
    c.apply_overrides(&o);
    assert_eq!(host_of(c.effective_build_host()), "builder");
    assert!(c.dry_run);
    assert_eq!(c.timeout_secs, Some(30));
}

#[test]
fn empty_overrides_keep_config_and_never_clear_dry_run() {
    let mut c = DeploymentConfig::new(ssh("target", None, None));
    c.dry_run = true;
    c.timeout_secs = Some(7);
    let o = DeploymentOptions {
        evaluation_host_override: None,
        build_host_override: None,
        dry_run: false,
        verbosity: Verbosity::Progress,
        max_concurrent: None,
        timeout_secs: None,
    };
    c.apply_overrides(&o);
    assert!(c.dry_run);
    assert_eq!(c.timeout_secs, Some(7));
    assert!(c.evaluation_host.is_none());
    assert!(c.build_host.is_none());
}

fn metadata(ips: Vec<IpEntry>, deploy: Option<DeploymentConfig>) -> ConfigurationMetadata {
    ConfigurationMetadata {
        system: "x86_64-linux".to_string(),
        ips,
        tags: vec!["web".to_string()],
        deploy,
    }
}

#[test]
fn configuration_targets_primary_ip() {
    let ips = vec![
        IpEntry { key: "secondary".to_string(), value: Some("10.0.0.9".to_string()) },
        IpEntry { key: "primary".to_string(), value: Some("10.0.0.1".to_string()) },
    ];
    let c = NixosConfiguration::new("web".to_string(), metadata(ips, None)).unwrap();
    assert_eq!(c.name, "web");
    assert_eq!(c.deployment_config.target_host.host_identifier(), "10.0.0.1");
    assert_eq!(c.deployment_config.timeout_secs, Some(600));
    assert!(c.drv_path.is_none() && c.out_path.is_none());
    let c = c.with_paths(Some("/nix/store/a.drv".to_string()), Some("/nix/store/a".to_string()));
    assert_eq!(c.drv_path.as_deref(), Some("/nix/store/a.drv"));
    assert_eq!(c.out_path.as_deref(), Some("/nix/store/a"));
}

#[test]
fn configuration_keeps_its_own_deploy_settings() {
    let ips = vec![IpEntry { key: "primary".to_string(), value: Some("10.0.0.1".to_string()) }];
    let own = DeploymentConfig::new(ssh("elsewhere", Some("admin"), None));
    let c = NixosConfiguration::new("db".to_string(), metadata(ips, Some(own))).unwrap();
    assert_eq!(c.deployment_config.target_host.host_identifier(), "admin@elsewhere");
}

#[test]
fn configuration_without_primary_ip_is_invalid() {
    let ips = vec![IpEntry { key: "primary".to_string(), value: None }];
    let own = DeploymentConfig::new(ExecutionTarget::Local);
    match NixosConfiguration::new("db".to_string(), metadata(ips, Some(own))) {
        Err(DeployError::InvalidConfiguration { message }) => {
            assert_eq!(message, "Configuration 'db' missing primary IP")
        }
        _ => panic!("expected an invalid configuration"),
    }
}
