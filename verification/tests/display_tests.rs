use nixdeploy::display::{
    buffer_error, detailed_lines, error_info, extract_useful_error, progress_update, report_lines,
    status_changed, truncate_path, ErrorInfo, LogLevel, ProgressEnding,
};
use nixdeploy::types::{ConfigurationStatus, Verbosity};

#[test]
fn progress_updates() {
    let u = progress_update(&ConfigurationStatus::Started("web".into()));
    assert_eq!(u.prefix.as_deref(), Some("[web]"));
    assert_eq!(u.message, "Starting...");
    assert_eq!(u.ending, ProgressEnding::Running);
    let u = progress_update(&ConfigurationStatus::Activated);
    assert_eq!(u.message, "✓ Deployed successfully");
    assert_eq!(u.ending, ProgressEnding::Finished);
    let u = progress_update(&ConfigurationStatus::Error { error: "e".into(), error_lines: vec![] });
    assert_eq!(u.message, "✗ Failed");
    assert_eq!(u.ending, ProgressEnding::Abandoned);
    let u = progress_update(&ConfigurationStatus::Built { result: "/o".into() });
    assert_eq!(u.message, "Derivation built");
    assert!(u.prefix.is_none());
}

#[test]
fn detailed_log_lines() {
    let l = detailed_lines(&ConfigurationStatus::Evaluated { drv_path: "/d.drv".into() });
    assert_eq!(l.len(), 1);
    assert_eq!(l[0].level, LogLevel::Info);
    assert_eq!(l[0].text, "→ Configuration evaluated: /d.drv");
    let l = detailed_lines(&ConfigurationStatus::Error {
        error: "Build failed".into(),
        error_lines: vec!["a".into(), "b".into()],
    });
    let texts: Vec<&str> = l.iter().map(|x| x.text.as_str()).collect();
    assert_eq!(texts, vec!["Build failed", "Error details:", "│ a", "│ b"]);
    assert!(l.iter().all(|x| x.level == LogLevel::Error));
    let l = detailed_lines(&ConfigurationStatus::Error { error: "x".into(), error_lines: vec![] });
    assert_eq!(l.len(), 1);
}

#[test]
fn errors_are_kept_for_the_report() {
    let s = ConfigurationStatus::Error { error: "boom".into(), error_lines: vec!["l".into()] };
    let info = error_info("web", &s).unwrap();
    assert_eq!(info.config_name, "web");
    assert_eq!(info.error, "boom");
    assert_eq!(info.error_lines, vec!["l".to_string()]);
    assert!(error_info("web", &ConfigurationStatus::Building).is_none());
}

#[test]
fn progress_shows_only_changes() {
    let built = ConfigurationStatus::Built { result: "/o".into() };
    assert!(status_changed(&None, &built));
    assert!(!status_changed(&Some(ConfigurationStatus::Built { result: "/o".into() }), &built));
    assert!(status_changed(&Some(ConfigurationStatus::Built { result: "/p".into() }), &built));
    assert!(status_changed(&Some(ConfigurationStatus::Building), &built));
}

#[test]
fn useful_error_strips_host_tags() {
    let lines = vec!["[nixos-desktop] Error: disk full".to_string(), "plain] line".to_string(), "[no tag".to_string()];
    assert_eq!(
        extract_useful_error("ignored", &lines),
        vec!["Error: disk full".to_string(), "plain] line".to_string(), "[no tag".to_string()]
    );
}

#[test]
fn useful_error_from_main_message() {
    assert_eq!(
        extract_useful_error("Nix build failed for configuration web: nix-build failed:  cannot build \n", &vec![]),
        vec!["cannot build".to_string()]
    );
    assert_eq!(
        extract_useful_error("Command execution failed: ls -l\nError output: x", &vec![]),
        vec!["Command failed: ls -l\nError output: x".to_string()]
    );
    assert_eq!(extract_useful_error("other", &vec![]), vec!["other".to_string()]);
}

#[test]
fn report_skips_blank_lines() {
    let info = ErrorInfo {
        config_name: "web".into(),
        error: "e".into(),
        error_lines: vec!["[web] a".into(), "[web]  ".into(), "b".into()],
    };
    assert_eq!(report_lines(&info), vec!["a".to_string(), "b".to_string()]);
}

#[test]
fn path_truncation() {
    assert_eq!(truncate_path("/nix/store/abc", 20), "/nix/store/abc");
    assert_eq!(truncate_path("/nix/store/abcdef", 8), "...bcdef");
}

#[test]
fn errors_are_kept_in_send_order() {
    let sent = vec![
        ConfigurationStatus::Building,
        ConfigurationStatus::Error { error: "first".into(), error_lines: vec!["a".into()] },
        ConfigurationStatus::Activated,
        ConfigurationStatus::Error { error: "second".into(), error_lines: vec![] },
    ];
    let mut kept: Vec<ErrorInfo> = Vec::new();
    for s in &sent {
        buffer_error(&mut kept, Verbosity::Progress, "web", s);
    }
    assert_eq!(kept.len(), 2);
    assert_eq!(kept[0].config_name, "web");
    assert_eq!(kept[0].error, "first");
    assert_eq!(kept[0].error_lines, vec!["a".to_string()]);
    assert_eq!(kept[1].error, "second");
    let mut detailed: Vec<ErrorInfo> = Vec::new();
    for s in &sent {
        buffer_error(&mut detailed, Verbosity::Detailed, "web", s);
    }
    assert!(detailed.is_empty());
}
