use nixdeploy::cli::{Commands, Common};
use nixdeploy::command::{collect_line, output_line, remote_store_uri, CommandOutput, ExecutionContext, ExitOutcome, LocalHost};
use nixdeploy::evaluator::{activation_statuses, Flake, JsonEntry, Metadata};
use nixdeploy::execution::{describe_local, forwards_line, tagged_line, timeout_or, wait_outcome, Executor, SshExecutor};
use nixdeploy::pipeline::Stage;
use nixdeploy::raw_executor;
use nixdeploy::types::{ConfigurationStatus, ExecutionTarget, Verbosity};
use nixdeploy::errors::DeployError;

#[test]
fn ssh_arguments() {
    let e = SshExecutor::new("h".into()).with_username("root".into()).with_port(2222);
    assert_eq!(
        e.build_ssh_args(),
        vec!["-o", "BatchMode=yes", "-o", "StrictHostKeyChecking=no", "-o", "UserKnownHostsFile=/dev/null", "-p", "2222", "root@h"]
    );
    assert_eq!(
        e.command_line("echo", &vec!["hi".into()]),
        vec!["-o", "BatchMode=yes", "-o", "StrictHostKeyChecking=no", "-o", "UserKnownHostsFile=/dev/null", "-p", "2222", "root@h", "echo", "hi"]
    );
    assert_eq!(e.describe("echo", &vec!["a".into(), "b".into()]), "ssh h echo a b");
    assert_eq!(describe_local("ls", &vec![]), "ls ");
    let plain = raw_executor::SshExecutor::new("h".into()).with_port(22);
    assert_eq!(plain.ssh_args(), vec!["-p", "22", "h"]);
    let plain = raw_executor::SshExecutor::new("h".into()).with_username("u".into());
    assert_eq!(plain.ssh_args(), vec!["u@h"]);
}

#[test]
fn executors_from_targets() {
    assert!(Executor::from_target(&ExecutionTarget::Local).is_local());
    let t = ExecutionTarget::Ssh { host: "h".into(), username: Some("u".into()), port: Some(1) };
    match Executor::from_target(&t) {
        Executor::Ssh(e) => {
            assert_eq!(e.host, "h");
            assert_eq!(e.username.as_deref(), Some("u"));
            assert_eq!(e.port, Some(1));
        }
        _ => panic!(),
    }
}

#[test]
fn finished_commands() {
    let ok = wait_outcome("c".into(), true, Some(0), vec!["o".into()], vec![]).unwrap();
    assert_eq!(ok.stdout_lines, vec!["o".to_string()]);
    match wait_outcome("ls x".into(), false, Some(2), vec![], vec!["a".into(), "b".into()]) {
        Err(DeployError::CommandFailed { command, exit_code, stderr }) => {
            assert_eq!(command, "ls x");
            assert_eq!(exit_code, Some(2));
            assert_eq!(stderr, "a\nb");
        }
        _ => panic!(),
    }
}

#[test]
fn streamed_lines() {
    assert!(forwards_line(Verbosity::Detailed, "anything"));
    assert!(forwards_line(Verbosity::Progress, "an error occurred"));
    assert!(forwards_line(Verbosity::Progress, "warning: x"));
    assert!(!forwards_line(Verbosity::Progress, "copying path"));
    assert!(forwards_line(Verbosity::Progress, &"x".repeat(101)));
    assert!(!forwards_line(Verbosity::Progress, &"x".repeat(100)));
    assert!(forwards_line(Verbosity::Progress, &"é".repeat(51)));
    assert_eq!(tagged_line("web", "hello"), "[web] hello");
}

#[test]
fn command_outputs() {
    let out = CommandOutput {
        stdout: "ok".into(),
        stderr: "".into(),
        status: ExitOutcome { success: true, description: "exit status: 0".into() },
    };
    assert_eq!(out.into_result().unwrap(), "ok");
    let out = CommandOutput {
        stdout: "".into(),
        stderr: "bad".into(),
        status: ExitOutcome { success: false, description: "exit status: 1".into() },
    };
    let err = out.into_result().err().unwrap();
    assert_eq!(err.message(), "Command failed with status exit status: 1: bad");
}

#[test]
fn output_prefixes() {
    assert_eq!(ExecutionContext::This.fmt("web"), "[web]");
    assert_eq!(ExecutionContext::Cross("db".into()).fmt("web"), "[web => db]");
    assert_eq!(output_line("[web]", "hi"), format!("{:<20} | {}", "[web]", "hi"));
    let long = "[a-very-long-host-name-indeed]";
    assert_eq!(output_line(long, "hi"), format!("{:<20} | {}", long, "hi"));
    let mut buf = String::new();
    collect_line(&mut buf, "a");
    collect_line(&mut buf, "b");
    assert_eq!(buf, "a\nb\n");
    assert_eq!(remote_store_uri("root@h"), "ssh://root@h");
    assert_eq!(LocalHost.store_uri(), "auto");
    assert_eq!(LocalHost.name(), "localhost");
}

#[test]
fn commands_and_stages() {
    let c = Commands::Push { common: Common { hosts: vec!["a".into()] } };
    assert_eq!(c.stage(), Some(Stage::Push));
    assert_eq!(c.hosts().unwrap(), &vec!["a".to_string()]);
    assert_eq!(Commands::Show {}.stage(), None);
}

#[test]
fn flake_configurations_from_metadata() {
    let mut f = Flake::new("/f".into());
    let md = vec![
        ("a".to_string(), Metadata { system: "s".into(), ips: vec![JsonEntry { key: "primary".into(), json: "\"1.2.3.4\"".into() }], tags: vec![] }),
        ("b".to_string(), Metadata { system: "s".into(), ips: vec![], tags: vec![] }),
    ];
    f.set_configurations(md);
    assert_eq!(f.nixos_configurations.len(), 2);
    assert_eq!(f.nixos_configurations[0].1.metadata.ips[0].json, "\"1.2.3.4\"");
    assert_eq!(f.nixos_configurations[1].1.metadata.system, "s");
    match &f.nixos_configurations[0].1.executor {
        Executor::Ssh(e) => assert_eq!(e.host, "\"1.2.3.4\""),
        _ => panic!(),
    }
    match &f.nixos_configurations[1].1.executor {
        Executor::Ssh(e) => assert_eq!(e.host, "null"),
        _ => panic!(),
    }
    let r = f.record_evaluation(&"b".to_string(), Some("/b.drv".into()), Some("/b".into())).unwrap();
    assert_eq!(r.name, "b");
    assert_eq!(r.drv_path.as_deref(), Some("/b.drv"));
    assert_eq!(r.out_path.as_deref(), Some("/b"));
    assert_eq!(r.metadata.system, f.nixos_configurations[1].1.metadata.system);
    assert_eq!(f.nixos_configurations[1].1.drv_path.as_deref(), Some("/b.drv"));
    assert_eq!(f.nixos_configurations[1].1.activation_script().unwrap(), "/b/bin/switch-to-configuration");
    assert_eq!(f.nixos_configurations[1].1.build_target().as_deref(), Some("/b.drv"));
    assert!(f.record_evaluation(&"zz".to_string(), None, None).is_none());
    let s = activation_statuses(&vec!["x".into()]);
    match &s[0] {
        ConfigurationStatus::Error { error, error_lines } => {
            assert_eq!(error, "x");
            assert_eq!(error_lines, &vec!["x".to_string()]);
        }
        _ => panic!(),
    }
}

#[test]
fn timeouts_fall_back_to_their_default() {
    assert_eq!(timeout_or(Some(5), 1800), 5);
    assert_eq!(timeout_or(None, 1800), 1800);
    assert_eq!(timeout_or(Some(0), 30), 0);
}
