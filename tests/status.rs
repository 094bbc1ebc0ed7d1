use maziq::catalog::{SoftwareId, VersionProbe, SOFTWARE_COUNT};
use maziq::manager::{SoftwareManager, StatusReport, StatusState};
use maziq::status::{
    classify_bundle, classify_program, detect_version, parse_mdls_version_output, strip,
    summarize_status, CommandExecutor, ProbeOutcome, ProbeRequest,
};

fn version(s: &StatusState) -> Option<&str> {
    match s {
        StatusState::Installed { version } => version.as_deref(),
        _ => panic!("expected an installed status"),
    }
}

#[test]
fn missing_program_is_not_installed() {
    assert!(matches!(classify_program(&ProbeOutcome::NotFound), StatusState::NotInstalled));
}

#[test]
fn failing_program_is_not_installed() {
    let o = ProbeOutcome::Exited { success: false, stdout: "1.0".into() };
    assert!(matches!(classify_program(&o), StatusState::NotInstalled));
}

#[test]
fn program_that_cannot_start_is_unknown() {
    let o = ProbeOutcome::Failed("permission denied".into());
    match classify_program(&o) {
        StatusState::Unknown(m) => assert_eq!(m, "permission denied"),
        _ => panic!("expected unknown"),
    }
}

#[test]
fn program_output_is_the_trimmed_version() {
    let o = ProbeOutcome::Exited { success: true, stdout: "  rustup 1.27.1\n".into() };
    assert_eq!(version(&classify_program(&o)), Some("rustup 1.27.1"));
    let o = ProbeOutcome::Exited { success: true, stdout: " \n\t".into() };
    assert_eq!(version(&classify_program(&o)), None);
}

#[test]
fn bundle_metadata_value_is_unquoted() {
    let s = parse_mdls_version_output("kMDItemVersion = \"1.62.3\"\n");
    assert_eq!(version(&s), Some("1.62.3"));
    let s = parse_mdls_version_output("first line\nkMDItemVersion = 2.0 = extra\nnext = 3\n");
    assert_eq!(version(&s), Some("2.0 = extra"));
    let s = parse_mdls_version_output("k=a=b");
    assert_eq!(version(&s), Some("a=b"));
    let s = parse_mdls_version_output("kMDItemVersion = \"\"\n");
    assert_eq!(version(&s), None);
    let s = parse_mdls_version_output("no value here");
    assert_eq!(version(&s), None);
    let s = parse_mdls_version_output("kMDItemVersion = \"3.1\"\r\n");
    assert_eq!(version(&s), Some("3.1"));
}

#[test]
fn bundle_probe_outcomes() {
    let o = ProbeOutcome::Exited { success: true, stdout: "kMDItemVersion = \"5\"".into() };
    assert_eq!(version(&classify_bundle(&o)), Some("5"));
    let o = ProbeOutcome::Exited { success: false, stdout: String::new() };
    assert!(matches!(classify_bundle(&o), StatusState::NotInstalled));
    match classify_bundle(&ProbeOutcome::NotFound) {
        StatusState::Unknown(m) => assert_eq!(m, "failed to run mdls"),
        _ => panic!("expected unknown"),
    }
}

#[test]
fn manual_probe_reports_its_note() {
    let p = VersionProbe::Manual("check by hand");
    match detect_version(&p, &ProbeOutcome::NotFound) {
        StatusState::ManualCheck(n) => assert_eq!(n, "check by hand"),
        _ => panic!("expected a manual check"),
    }
    assert!(matches!(p.request(), ProbeRequest::Note("check by hand")));
}

#[test]
fn brew_list_probe_runs_the_package_manager() {
    match (VersionProbe::BrewList { package: "jq" }).request() {
        ProbeRequest::Program { program, args } => {
            assert_eq!(program, "brew");
            assert_eq!(args, vec!["list", "--versions", "jq"]);
        }
        _ => panic!("expected a program"),
    }
    match SoftwareId::Brave.version_probe().request() {
        ProbeRequest::Bundle { path } => assert_eq!(path, "/Applications/Brave Browser.app"),
        _ => panic!("expected a bundle"),
    }
}

#[test]
fn status_and_status_all() {
    let m = SoftwareManager::new();
    let r = m.status(SoftwareId::Rustup, &ProbeOutcome::Exited { success: true, stdout: "rustup 1.0\n".into() });
    assert_eq!(r.id, SoftwareId::Rustup);
    assert_eq!(version(&r.state), Some("rustup 1.0"));
    assert!(matches!(m.status_request(SoftwareId::Rustup), ProbeRequest::Program { program: "rustup", .. }));
    let outcomes: Vec<ProbeOutcome> = (0..SOFTWARE_COUNT).map(|_| ProbeOutcome::NotFound).collect();
    let all = m.status_all(&outcomes);
    assert_eq!(all.len(), SOFTWARE_COUNT);
    for (i, r) in all.iter().enumerate() {
        assert_eq!(r.id, SoftwareId::from_index(i));
    }
    assert!(matches!(all[SoftwareId::Homebrew.index()].state, StatusState::NotInstalled));
    assert!(matches!(all[SoftwareId::Brave.index()].state, StatusState::Unknown(_)));
}

#[test]
fn strip_trims_ends_only() {
    assert_eq!(strip("  a b \u{3000}", false), "a b");
    assert_eq!(strip("\"\"x\"y\"", true), "x\"y");
    assert_eq!(strip("", false), "");
}

#[test]
fn status_lines() {
    let r = StatusReport { id: SoftwareId::Go, state: StatusState::Installed { version: Some("go1.22".into()) } };
    assert_eq!(summarize_status(&r), "Go Toolchain (go) -> go1.22");
    let r = StatusReport { id: SoftwareId::Go, state: StatusState::Installed { version: None } };
    assert_eq!(summarize_status(&r), "Go Toolchain (go) -> installed");
    let r = StatusReport { id: SoftwareId::Go, state: StatusState::NotInstalled };
    assert_eq!(summarize_status(&r), "Go Toolchain (go) -> not installed");
    let r = StatusReport { id: SoftwareId::Go, state: StatusState::ManualCheck("look".into()) };
    assert_eq!(summarize_status(&r), "Go Toolchain (go) -> manual check required: look");
    let r = StatusReport { id: SoftwareId::Go, state: StatusState::Unknown("odd".into()) };
    assert_eq!(summarize_status(&r), "Go Toolchain (go) -> unknown: odd");
}

#[test]
fn executor_flags() {
    let e = CommandExecutor::new(true);
    assert!(e.dry_run());
    assert!(!e.must_spawn());
    let s = CommandExecutor::for_status();
    assert!(s.must_spawn());
    let st = s.detect_version(&VersionProbe::Command { program: "x", args: vec![] }, &ProbeOutcome::NotFound);
    assert!(matches!(st, StatusState::NotInstalled));
}
