use nixdeploy::host::{HostAddress, HostMeta, TargetHost};
use nixdeploy::nix::eval::EvalOutput;
use nixdeploy::nix::flake::{
    assign_derivations, batch_evaluation_command, check_line_count, check_single_line, NixFlake,
};
use nixdeploy::nix::store::{DrvPath, StorePath};

fn target(name: &str) -> TargetHost {
    TargetHost::new(
        HostMeta { name: name.into(), ips: vec![], tags: vec![] },
        NixFlake { flake_ref: "/src/flake".into() },
    )
}

fn output(attr: &str, drv: &str) -> EvalOutput {
    EvalOutput {
        attr: attr.into(),
        attr_path: vec![attr.into()],
        drv_path: drv.into(),
        name: "nixos-system".into(),
        required_system_features: vec![],
        system: "x86_64-linux".into(),
    }
}

#[test]
fn host_configs_command_reads_deploy_settings() {
    let f = NixFlake { flake_ref: "github:me/infra".into() };
    assert_eq!(
        f.host_configs_command(),
        vec![
            "nix",
            "eval",
            "--json",
            "github:me/infra#nixosConfigurations",
            "--apply",
            "builtins.mapAttrs (_: value: value.config.deploy)"
        ]
    );
}

#[test]
fn hosts_are_named_after_their_keys() {
    let entries = vec![(
        "web".to_string(),
        HostMeta { name: String::new(), ips: vec![HostAddress { label: "primary".into(), address: "1.2.3.4".into() }], tags: vec![] },
    )];
    let named = NixFlake::name_hosts(entries);
    assert_eq!(named[0].0, "web");
    assert_eq!(named[0].1.name, "web");
    assert_eq!(named[0].1.primary_ip().as_deref(), Some("1.2.3.4"));
}

#[test]
fn single_evaluation_expression() {
    let cmd = target("web").evaluation_command();
    assert_eq!(cmd[..4], ["nix-eval-jobs", "--expr", "--workers", "8"]);
    let expected = format!(
        r#"
                with builtins;
                let
                    flake = getFlake "{}";
                    lib = flake.inputs.nixpkgs.lib;
                in
                    flake.outputs.nixosConfigurations.{}.config.system.build.toplevel
                "#,
        "/src/flake", "web"
    );
    assert_eq!(cmd[4], expected);
}

#[test]
fn batch_evaluation_expression() {
    let targets = vec![target("a"), target("b")];
    let cmd = batch_evaluation_command(&targets);
    let expected = format!(
        r#"
                      with builtins;
                      let
                          flake = getFlake "{}";
                          lib = flake.inputs.nixpkgs.lib;
                      in
                         lib.genAttrs [{}]
                         (host: flake.outputs.nixosConfigurations."${{host}}".config.system.build.toplevel)
                      "#,
        "/src/flake", "\"a\" \"b\""
    );
    assert_eq!(cmd[4], expected);
}

#[test]
fn line_count_checks() {
    assert!(check_single_line("{\"x\":1}\n").is_ok());
    assert_eq!(check_single_line("a\nb\n").err().unwrap(), "Expected single line output, got 2 lines");
    assert_eq!(check_single_line("").err().unwrap(), "Expected single line output, got 0 lines");
    assert!(check_line_count("a\nb", 2).is_ok());
    assert_eq!(check_line_count("a", 3).err().unwrap(), "Expected 3 line output, got 1 lines");
}

#[test]
fn derivations_go_to_their_hosts() {
    let targets = vec![target("a"), target("b")];
    let hosts = assign_derivations(&targets, vec![output("b", "/b.drv"), output("a", "/a.drv")]).unwrap();
    assert_eq!(hosts[0].meta.name, "b");
    assert_eq!(hosts[0].derivation_path.path, "/b.drv");
    assert_eq!(hosts[1].meta.name, "a");
    assert!(assign_derivations(&targets, vec![output("zzz", "/z.drv")]).is_none());
}

#[test]
fn store_commands() {
    let d = DrvPath { path: "/nix/store/x.drv".into() };
    assert_eq!(d.realise_command(), vec!["nix-store", "--realise", "/nix/store/x.drv"]);
    assert_eq!(DrvPath::realised_path("/nix/store/x\nmore\n").unwrap().path, "/nix/store/x");
    assert!(DrvPath::realised_path("").is_none());
    let s = StorePath { path: "/nix/store/x".into() };
    assert_eq!(
        s.copy_command("auto", "ssh://h"),
        vec!["nix", "copy", "--from", "auto", "--to", "ssh://h", "/nix/store/x"]
    );
    assert_eq!(
        s.set_profile_command(),
        vec!["sudo", "nix-env", "-p", "/nix/var/nix/profiles/system", "--set", "/nix/store/x"]
    );
    assert_eq!(
        s.switch_command(),
        vec!["sudo", "/nix/store/x/bin/switch-to-configuration", "switch"]
    );
}
