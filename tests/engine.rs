use maziq::catalog::{entry, CommandSource, SoftwareId, SoftwareKind};
use maziq::manager::{
    order_for_action, ActionKind, BatchRun, BatchStep, ExecutionEvent, ManagerError,
    SoftwareManager, SourceRun, SourceStep, StatusState,
};
use maziq::resolver::DependencyGraph;

fn graph(edges: Vec<Vec<usize>>) -> DependencyGraph {
    DependencyGraph { edges }
}

#[test]
fn resolve_lists_dependencies_first_and_once() {
    // 0 needs 1 and 2, 1 needs 3, 2 needs 3; 4 stands alone.
    let g = graph(vec![vec![1, 2], vec![3], vec![3], vec![], vec![]]);
    let order = g.resolve(&vec![0, 2]).unwrap();
    assert_eq!(order, vec![3, 1, 2, 0]);
    let pos = |x: usize| order.iter().position(|&y| y == x).unwrap();
    for (node, deps) in g.edges.iter().enumerate() {
        if order.contains(&node) {
            for d in deps {
                assert!(pos(*d) < pos(node));
            }
        }
    }
    assert!(!order.contains(&4));
}

#[test]
fn resolve_of_no_roots_is_empty() {
    let g = graph(vec![vec![], vec![0]]);
    assert_eq!(g.resolve(&vec![]).unwrap(), Vec::<usize>::new());
}

#[test]
fn resolve_reports_a_two_cycle() {
    // a = 0 and b = 1 depend on each other; 2 needs a.
    let g = graph(vec![vec![1], vec![0], vec![0]]);
    let err = g.resolve(&vec![2]).unwrap_err();
    assert!(err == 0 || err == 1);
    let err = g.resolve(&vec![1]).unwrap_err();
    assert!(err == 0 || err == 1);
}

#[test]
fn resolve_reports_a_self_loop() {
    let g = graph(vec![vec![0]]);
    assert_eq!(g.resolve(&vec![0]), Err(0));
}

#[test]
fn plan_install_then_uninstall_of_rust_stable() {
    let m = SoftwareManager::new();
    let install = m.plan(&[SoftwareId::RustStable], ActionKind::Install).unwrap();
    assert_eq!(install, vec![SoftwareId::Rustup, SoftwareId::RustStable]);
    let uninstall = m.plan(&[SoftwareId::RustStable], ActionKind::Uninstall).unwrap();
    assert_eq!(uninstall, vec![SoftwareId::RustStable, SoftwareId::Rustup]);
}

#[test]
fn uninstall_order_is_reverse_of_install_order() {
    let m = SoftwareManager::new();
    let roots = [SoftwareId::Brave, SoftwareId::CargoJust, SoftwareId::GeminiCli, SoftwareId::Homebrew];
    let mut install = m.plan(&roots, ActionKind::Install).unwrap();
    let uninstall = m.plan(&roots, ActionKind::Uninstall).unwrap();
    install.reverse();
    assert_eq!(install, uninstall);
    let same = order_for_action(vec![SoftwareId::Go, SoftwareId::Bun], ActionKind::Update);
    assert_eq!(same, vec![SoftwareId::Go, SoftwareId::Bun]);
}

#[test]
fn catalog_plan_of_everything_is_dependency_ordered() {
    let m = SoftwareManager::new();
    let all = SoftwareId::all();
    let order = m.plan(&all, ActionKind::Install).unwrap();
    assert_eq!(order.len(), all.len());
    for (i, id) in order.iter().enumerate() {
        for d in id.dependencies() {
            assert!(order[..i].contains(&d));
        }
    }
}

fn shell_run(kind: SoftwareKind, cmds: &[&'static str], dry_run: bool) -> SourceRun {
    let sources = cmds.iter().map(|c| CommandSource::shell("first", c)).collect();
    SourceRun::new(SoftwareId::Jq, kind, ActionKind::Install, sources, dry_run)
}

#[test]
fn dry_run_never_asks_to_execute() {
    let run = shell_run(SoftwareKind::CliTool, &["brew install jq"], true);
    match run.step() {
        SourceStep::Finished(Ok(e)) => {
            assert!(e.skipped);
            assert_eq!(e.command.as_deref(), Some("brew install jq"));
            assert_eq!(e.source.as_deref(), Some("first"));
            assert!(e.summary().contains("dry-run via first -> brew install jq"));
        }
        _ => panic!("a dry run must finish without executing"),
    }
}

#[test]
fn gui_package_with_non_cask_command_is_refused() {
    for dry_run in [false, true] {
        let run = shell_run(SoftwareKind::GuiApplication, &["curl -fsSL x | sh"], dry_run);
        match run.step() {
            SourceStep::Finished(Err(ManagerError::UnsafeGuiCommand { id, command })) => {
                assert_eq!(id, SoftwareId::Jq);
                assert_eq!(command, "curl -fsSL x | sh");
            }
            _ => panic!("the guard must refuse the command"),
        }
    }
}

#[test]
fn gui_package_may_run_cask_commands() {
    let run = shell_run(SoftwareKind::GuiApplication, &["brew uninstall --cask zed"], false);
    assert!(matches!(run.step(), SourceStep::Execute("brew uninstall --cask zed")));
}

#[test]
fn failed_source_falls_through_to_the_next() {
    let sources = vec![CommandSource::shell("a", "false"), CommandSource::shell("b", "true")];
    let mut run = SourceRun::new(SoftwareId::Jq, SoftwareKind::CliTool, ActionKind::Install, sources, false);
    assert!(matches!(run.step(), SourceStep::Execute("false")));
    run.record_failure(ManagerError::CommandFailed { command: "false".into(), stderr: String::new() });
    assert!(matches!(run.step(), SourceStep::Execute("true")));
    let e = run.record_success();
    assert_eq!(e.source.as_deref(), Some("b"));
    assert_eq!(e.command.as_deref(), Some("true"));
    assert!(!e.skipped);
}

#[test]
fn all_sources_failing_returns_the_last_error() {
    let sources = vec![CommandSource::shell("a", "x"), CommandSource::shell("b", "y")];
    let mut run = SourceRun::new(SoftwareId::Jq, SoftwareKind::CliTool, ActionKind::Update, sources, false);
    run.record_failure(ManagerError::CommandFailed { command: "x".into(), stderr: "one".into() });
    run.record_failure(ManagerError::Spawn("two".into()));
    match run.step() {
        SourceStep::Finished(Err(ManagerError::Spawn(m))) => assert_eq!(m, "two"),
        _ => panic!("the last error must come back"),
    }
}

#[test]
fn manual_source_ends_with_a_skipped_note() {
    let sources = vec![CommandSource::manual("by hand", "Drag it to Applications.")];
    let run = SourceRun::new(SoftwareId::Cursor, SoftwareKind::GuiApplication, ActionKind::Install, sources, false);
    match run.step() {
        SourceStep::Finished(Ok(e)) => {
            assert!(e.skipped);
            assert_eq!(e.note.as_deref(), Some("Drag it to Applications."));
            assert_eq!(e.summary(), "[install] Cursor: Drag it to Applications.");
        }
        _ => panic!("a manual source ends the walk"),
    }
}

#[test]
fn no_sources_and_test_action() {
    let run = SourceRun::new(SoftwareId::Go, SoftwareKind::Sdk, ActionKind::Update, Vec::new(), false);
    match run.step() {
        SourceStep::Finished(Ok(e)) => assert_eq!(e.note.as_deref(), Some("No automated steps defined.")),
        _ => panic!(),
    }
    let run = SourceRun::for_entry(&entry(SoftwareId::Go), ActionKind::Test, false);
    match run.step() {
        SourceStep::Finished(Ok(e)) => {
            assert_eq!(e.note.as_deref(), Some("Test command not implemented"));
            assert_eq!(e.source, None);
        }
        _ => panic!(),
    }
}

#[test]
fn installed_gui_package_is_skipped_without_force() {
    let m = SoftwareManager::with_flags(false, false);
    let mut batch = m.install(SoftwareId::Brave).unwrap();
    assert_eq!(batch.order, vec![SoftwareId::Homebrew, SoftwareId::Brave]);
    assert!(!batch.needs_status_check());
    batch.complete(ExecutionEvent {
        id: SoftwareId::Homebrew,
        action: ActionKind::Install,
        command: None,
        source: None,
        note: None,
        skipped: false,
    });
    assert!(batch.needs_status_check());
    let skipped = batch.apply_status(&StatusState::Installed { version: Some("1.0".into()) });
    assert!(skipped);
    assert!(batch.is_done());
    let events = batch.into_events();
    assert_eq!(events.len(), 2);
    assert!(events[1].skipped);
    assert_eq!(events[1].command, None);
    assert_eq!(events[1].note.as_deref(), Some("Already installed; run install --force to reinstall."));
}

#[test]
fn forced_install_of_installed_gui_package_runs_the_cask_command() {
    let m = SoftwareManager::with_flags(false, true);
    let mut batch = BatchRun::new(vec![SoftwareId::Brave], ActionKind::Install, true, false);
    assert!(!batch.needs_status_check());
    let run = batch.source_run();
    assert!(matches!(run.step(), SourceStep::Execute("brew install --cask brave-browser")));
    let e = run.record_success();
    assert_eq!(e.source.as_deref(), Some("homebrew cask"));
    assert!(batch.should_record(&e));
    batch.complete(e);
    assert!(batch.is_done());
    assert!(m.force);
}

#[test]
fn not_installed_gui_package_goes_on_to_its_sources() {
    let mut batch = BatchRun::new(vec![SoftwareId::Brave], ActionKind::Install, false, false);
    assert!(batch.needs_status_check());
    assert!(!batch.apply_status(&StatusState::NotInstalled));
    assert_eq!(batch.current(), Some(SoftwareId::Brave));
    assert_eq!(batch.pos, 0);
}

#[test]
fn dry_run_events_are_not_recorded() {
    let batch = BatchRun::new(vec![SoftwareId::Jq], ActionKind::Install, false, true);
    let run = batch.source_run();
    match run.step() {
        SourceStep::Finished(Ok(e)) => {
            assert!(e.skipped);
            assert!(!batch.should_record(&e));
        }
        _ => panic!(),
    }
}

#[test]
fn many_and_update_batches() {
    let m = SoftwareManager::new();
    let b = m.update_many(&[SoftwareId::CargoJust]).unwrap();
    assert_eq!(b.order, vec![SoftwareId::Rustup, SoftwareId::CargoJust]);
    assert_eq!(b.action, ActionKind::Update);
    let b = m.uninstall(SoftwareId::CargoJust).unwrap();
    assert_eq!(b.order, vec![SoftwareId::CargoJust, SoftwareId::Rustup]);
    let b = m.install_many(&[]).unwrap();
    assert!(b.is_done());
    let b = m.update(SoftwareId::Homebrew).unwrap();
    assert_eq!(b.order, vec![SoftwareId::Homebrew]);
    let b = m.uninstall_many(&[SoftwareId::Homebrew]).unwrap();
    assert_eq!(b.order, vec![SoftwareId::Homebrew]);
}

#[test]
fn labels_summaries_and_messages() {
    assert_eq!(ActionKind::Install.label(), "install");
    assert_eq!(ActionKind::Update.label(), "update");
    assert_eq!(ActionKind::Uninstall.label(), "uninstall");
    assert_eq!(ActionKind::Test.label(), "test");
    let e = ExecutionEvent {
        id: SoftwareId::Jq,
        action: ActionKind::Update,
        command: Some("brew upgrade jq".into()),
        source: None,
        note: None,
        skipped: false,
    };
    assert_eq!(e.summary(), "[update] jq: source -> brew upgrade jq");
    let e = ExecutionEvent { command: None, skipped: true, ..e };
    assert_eq!(e.summary(), "[update] jq: skipped");
    let e = ExecutionEvent { skipped: false, ..e };
    assert_eq!(e.summary(), "[update] jq: completed");
    let err = ManagerError::CommandFailed { command: "x".into(), stderr: "boom".into() };
    assert_eq!(err.message(), "Command `x` failed: boom");
    let err = ManagerError::CycleDetected(SoftwareId::Rustup);
    assert_eq!(err.message(), "Dependency cycle detected while resolving Rustup");
    let err = ManagerError::Spawn("no shell".into());
    assert_eq!(err.message(), "Failed to spawn command: no shell");
    let err = ManagerError::UnsafeGuiCommand { id: SoftwareId::Brave, command: "rm" };
    assert_eq!(
        err.message(),
        "GUI application `Brave Browser` attempted to run unsafe command `rm`. Only application binaries should be managed."
    );
}

/// Drives a batch with scripted answers; returns the commands asked for,
/// the status checks asked for, and the outcome.
fn drive(
    mut batch: BatchRun,
    installed: &[SoftwareId],
    failing: &[&str],
) -> (Vec<String>, Vec<SoftwareId>, Result<Vec<ExecutionEvent>, ManagerError>) {
    let mut commands = Vec::new();
    let mut checks = Vec::new();
    loop {
        match batch.next() {
            BatchStep::CheckStatus(id) => {
                checks.push(id);
                let state = if installed.contains(&id) {
                    StatusState::Installed { version: None }
                } else {
                    StatusState::NotInstalled
                };
                batch.status_known(&state);
            }
            BatchStep::Execute(cmd) => {
                commands.push(cmd.to_string());
                if failing.contains(&cmd) {
                    batch.executed(Err(ManagerError::CommandFailed { command: cmd.into(), stderr: "no".into() }));
                } else {
                    batch.executed(Ok(()));
                }
            }
            BatchStep::Continue => {}
            BatchStep::Finished => break,
        }
    }
    (commands, checks, batch.into_result())
}

#[test]
fn batch_skips_installed_gui_package_without_running_anything_for_it() {
    let batch = BatchRun::new(vec![SoftwareId::Brave], ActionKind::Install, false, false);
    let (commands, checks, result) = drive(batch, &[SoftwareId::Brave], &[]);
    assert!(commands.is_empty());
    assert_eq!(checks, vec![SoftwareId::Brave]);
    let events = result.unwrap();
    assert_eq!(events.len(), 1);
    assert!(events[0].skipped);
}

#[test]
fn forced_batch_installs_without_checking() {
    let batch = BatchRun::new(vec![SoftwareId::Brave], ActionKind::Install, true, false);
    let (commands, checks, result) = drive(batch, &[SoftwareId::Brave], &[]);
    assert_eq!(commands, vec!["brew install --cask brave-browser"]);
    assert!(checks.is_empty());
    assert_eq!(result.unwrap()[0].source.as_deref(), Some("homebrew cask"));
}

#[test]
fn batch_falls_back_to_the_manual_source() {
    let batch = BatchRun::new(vec![SoftwareId::Cursor], ActionKind::Install, true, false);
    let (commands, _, result) = drive(batch, &[], &["brew install --cask cursor"]);
    assert_eq!(commands, vec!["brew install --cask cursor"]);
    let events = result.unwrap();
    assert_eq!(events[0].source.as_deref(), Some("manual"));
    assert!(events[0].skipped);
}

#[test]
fn batch_stops_at_the_first_failed_package() {
    let m = SoftwareManager::new();
    let batch = m.install(SoftwareId::RustStable).unwrap();
    let rustup = SoftwareId::Rustup.install_recipe().description();
    let (commands, _, result) = drive(batch, &[], &[rustup]);
    assert_eq!(commands, vec![rustup.to_string()]);
    match result {
        Err(ManagerError::CommandFailed { command, .. }) => assert_eq!(command, rustup),
        _ => panic!("the failure must end the batch"),
    }
}

#[test]
fn dry_run_batch_asks_for_no_command() {
    let m = SoftwareManager::with_flags(true, false);
    let batch = m.install_many(&[SoftwareId::RustStable, SoftwareId::Jq, SoftwareId::Cursor]).unwrap();
    let (commands, _, result) = drive(batch, &[], &[]);
    assert!(commands.is_empty());
    let events = result.unwrap();
    assert_eq!(events.len(), 5);
    assert!(events.iter().all(|e| e.skipped));
}
