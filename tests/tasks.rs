use maziq::catalog::{flattened_handles, SoftwareHandle, SoftwareId};
use maziq::components::{E2EStepStatus, E2ETab, E2ETestComponent, SoftwareComponent};
use maziq::flow::{E2EFlow, E2EStep};
use maziq::history::HistoryRecord;
use maziq::manager::{ActionKind, ManagerError, StatusReport, StatusState};
use maziq::progress::{versions_messages, TemplateFlow, TemplateStep};
use maziq::tasks::{
    push_log_line, trim_lines, EventChannel, TaskAction, TaskBoard, TaskEmitter, TaskEvent,
    TaskQueue, MAX_LOG_ENTRIES, MAX_TASKS, MAX_TASK_LOG_LINES,
};

fn lines(n: usize) -> Vec<String> {
    (0..n).map(|i| format!("line {i}")).collect()
}

#[test]
fn task_ids_increase_and_requests_leave_in_order() {
    let mut q = TaskQueue::new();
    let a = q.submit("first".into(), TaskAction::Versions);
    let b = q.submit(
        "second".into(),
        TaskAction::TemplateFlow { action: ActionKind::Install, software: vec![SoftwareId::Go], force: false, dry_run: true },
    );
    let c = q.submit(
        "third".into(),
        TaskAction::E2EFlow { software: SoftwareId::Jq, install_enabled: true, update_enabled: false, remove_enabled: true },
    );
    assert!(a < b && b < c);
    assert_eq!(q.take().unwrap().id, a);
    assert_eq!(q.take().unwrap().label, "second");
    let d = q.submit("fourth".into(), TaskAction::Versions);
    assert!(d > c);
    assert_eq!(q.take().unwrap().id, c);
    assert_eq!(q.take().unwrap().id, d);
    assert!(q.take().is_none());
}

#[test]
fn events_are_polled_in_order_and_end_with_completion() {
    let mut q = TaskQueue::new();
    q.submit("refresh".into(), TaskAction::Versions);
    let req = q.take().unwrap();
    let mut ch = EventChannel::new();
    let mut em = TaskEmitter::for_request(&req);
    ch.send(em.progress(vec!["one".into()]));
    ch.send(em.progress(vec!["two".into(), "three".into()]));
    let reports = vec![StatusReport { id: SoftwareId::Go, state: StatusState::NotInstalled }];
    ch.send(em.finish(vec!["four".into()], Some(reports)));
    assert!(em.finished);
    let got = ch.poll();
    assert_eq!(got.len(), 3);
    let flat: Vec<String> = got.iter().flat_map(|e| e.messages.clone()).collect();
    assert_eq!(flat, vec!["one", "two", "three", "four", "done"]);
    assert!(got.iter().all(|e| e.id == req.id));
    assert!(!got[0].is_completion());
    assert!(got[2].is_completion());
    assert!(ch.poll().is_empty());
}

#[test]
fn done_message_alone_completes() {
    let e = TaskEvent { id: 1, label: "x".into(), messages: vec!["a".into(), "done".into()], statuses: None };
    assert!(e.is_completion());
    let e = TaskEvent { id: 1, label: "x".into(), messages: vec![], statuses: None };
    assert!(!e.is_completion());
}

#[test]
fn trimming_keeps_the_newest_lines() {
    let mut l = lines(MAX_TASK_LOG_LINES + 3);
    trim_lines(&mut l);
    assert_eq!(l, lines(MAX_TASK_LOG_LINES + 3)[3..].to_vec());
    let mut short = lines(2);
    trim_lines(&mut short);
    assert_eq!(short, lines(2));
    let mut log = lines(MAX_LOG_ENTRIES);
    push_log_line(&mut log, "new".into());
    assert_eq!(log.len(), MAX_LOG_ENTRIES);
    assert_eq!(log.last().unwrap(), "new");
    assert_eq!(log[0], "line 1");
}

#[test]
fn board_evicts_the_oldest_task() {
    let mut b = TaskBoard::new();
    for id in 1..=(MAX_TASKS as u64 + 1) {
        b.add_task_log(id, format!("task {id}"), "start".into());
    }
    assert_eq!(b.logs.len(), MAX_TASKS);
    assert_eq!(b.logs[0].id, 2);
    assert_eq!(b.find(1), None);
    assert_eq!(b.find(3), Some(1));
    b.add_task_log(3, "task 3".into(), "more".into());
    assert_eq!(b.logs[1].lines, vec!["start", "more"]);
}

#[test]
fn board_appends_messages_with_a_queued_line() {
    let mut b = TaskBoard::new();
    b.append_task_messages(7, "refresh".into(), vec![]);
    assert!(b.logs.is_empty());
    b.append_task_messages(7, "refresh".into(), vec!["a".into(), "b".into()]);
    assert_eq!(b.logs[0].lines, vec!["task queued: refresh", "a", "b"]);
    b.append_task_messages(7, "refresh".into(), lines(4));
    assert_eq!(b.logs[0].lines.len(), MAX_TASK_LOG_LINES);
    assert_eq!(b.logs[0].lines.last().unwrap(), "line 3");
}

#[test]
fn e2e_flow_runs_enabled_steps_in_order() {
    let mut f = E2EFlow::new(SoftwareId::Jq, true, false, true, false);
    match f.current() {
        E2EStep::Run(a, m) => {
            assert_eq!(a, ActionKind::Install);
            assert_eq!(m, vec!["Step 1: Installing..."]);
        }
        _ => panic!(),
    }
    assert_eq!(f.result_line(None), "  Install complete");
    f.advance();
    assert_eq!(f.result_line(Some("boom".into())), "  Update failed: boom");
    match f.current() {
        E2EStep::Report(m) => assert_eq!(m, vec!["Step 2: Update skipped (disabled)"]),
        _ => panic!(),
    }
    f.advance();
    assert!(matches!(f.current(), E2EStep::Run(ActionKind::Uninstall, _)));
    f.advance();
    assert!(f.is_finished());
    match f.current() {
        E2EStep::Finished(m) => assert_eq!(m, vec!["E2E test complete"]),
        _ => panic!(),
    }
}

#[test]
fn e2e_dry_run_reports_instead_of_running() {
    let f = E2EFlow::new(SoftwareId::Jq, true, true, true, true);
    match f.current() {
        E2EStep::Report(m) => assert_eq!(m, vec!["Step 1: Installing...", "  Install skipped (dry-run)"]),
        _ => panic!(),
    }
}

#[test]
fn e2e_component_toggles_and_tabs() {
    let mut c = E2ETestComponent::new();
    assert!(!c.can_execute());
    c.next_tab();
    assert_eq!(c.tab, E2ETab::Install);
    c.set_software(SoftwareId::Jq);
    c.toggle_current_step();
    assert!(!c.install_enabled);
    c.next_tab();
    c.next_tab();
    c.next_tab();
    assert_eq!(c.tab, E2ETab::Execute);
    assert!(c.can_execute());
    c.set_executing(true);
    assert!(c.is_executing());
    assert!(!c.can_execute());
    c.previous_tab();
    assert_eq!(c.tab, E2ETab::Execute);
    c.set_task_lines(vec!["x".into()]);
    c.reset();
    assert!(c.software.is_none() && c.install_enabled && !c.executing && c.task_lines.is_empty());
    assert_eq!(c.install_status, E2EStepStatus::Pending);
}

#[test]
fn software_component_selection_and_statuses() {
    let handles = flattened_handles();
    let n = handles.len();
    let mut c = SoftwareComponent::new(handles.clone());
    assert_eq!(c.selected_software(), Some(handles[0].id));
    c.select_previous();
    assert_eq!(c.selected, n - 1);
    c.select_next();
    assert_eq!(c.selected, 0);
    assert!(matches!(c.status_for(SoftwareId::Go), StatusState::NotInstalled));
    c.set_statuses(vec![StatusReport { id: SoftwareId::Go, state: StatusState::Unknown("odd".into()) }]);
    assert!(matches!(c.status_for(SoftwareId::Go), StatusState::Unknown(_)));
    c.set_message("hi".into());
    c.set_log_lines(vec!["l".into()]);
    c.set_task_lines(vec!["t".into()]);
    c.set_show_tasks(false);
    assert_eq!(c.message, "hi");
    assert!(!c.show_tasks);
}

#[test]
fn history_record_uses_key_and_label() {
    let r = HistoryRecord::new(SoftwareId::RustStable, ActionKind::Install, Some("1.80".into()), None, 42);
    assert_eq!(r.software, "rust_stable");
    assert_eq!(r.action, "install");
    assert_eq!(r.version.as_deref(), Some("1.80"));
    assert_eq!(r.timestamp, 42);
}

#[test]
fn missing_software_skips_installed_packages() {
    let handles = vec![
        SoftwareHandle { category: "a", id: SoftwareId::Go },
        SoftwareHandle { category: "a", id: SoftwareId::Bun },
        SoftwareHandle { category: "b", id: SoftwareId::Jq },
    ];
    let mut c = SoftwareComponent::new(handles);
    assert_eq!(c.missing_software(), vec![SoftwareId::Go, SoftwareId::Bun, SoftwareId::Jq]);
    c.set_statuses(vec![
        StatusReport { id: SoftwareId::Bun, state: StatusState::Installed { version: None } },
        StatusReport { id: SoftwareId::Jq, state: StatusState::ManualCheck("x".into()) },
    ]);
    assert_eq!(c.missing_software(), vec![SoftwareId::Go, SoftwareId::Jq]);
}

#[test]
fn board_receives_events_and_reports_completion() {
    let mut b = TaskBoard::new();
    let (done, statuses) = b.receive(TaskEvent { id: 3, label: "refresh".into(), messages: vec!["a".into()], statuses: None });
    assert!(!done);
    assert!(statuses.is_none());
    let reports = vec![StatusReport { id: SoftwareId::Go, state: StatusState::NotInstalled }];
    let (done, statuses) = b.receive(TaskEvent { id: 3, label: "refresh".into(), messages: vec!["b".into()], statuses: Some(reports) });
    assert!(done);
    assert_eq!(statuses.unwrap().len(), 1);
    assert_eq!(b.logs[0].lines, vec!["task queued: refresh", "a", "b", "done"]);
}

#[test]
fn template_flow_reports_plan_then_runs_batch() {
    let mut f = TemplateFlow::new(12, "install `dev` template".into(), ActionKind::Install, false);
    let plan = Ok(vec![SoftwareId::Homebrew, SoftwareId::Rustup, SoftwareId::RustStable, SoftwareId::Go, SoftwareId::Jq, SoftwareId::Bun]);
    match f.planned(&plan) {
        TemplateStep::Report(lines) => assert_eq!(
            lines,
            vec![
                "install `dev` template (task #12)",
                "Plan includes 6 steps",
                "   1. Homebrew",
                "   2. Rustup",
                "   3. Rust Toolchain (Stable)",
                "   4. Go Toolchain",
                "   5. jq",
                "  ...",
            ]
        ),
        _ => panic!("expected a report"),
    }
    assert!(matches!(f.after_report(), TemplateStep::RunBatch(ActionKind::Install)));
    match f.batch_done(&Ok(vec![])) {
        TemplateStep::Finish(lines, snapshot) => {
            assert!(lines.is_empty());
            assert!(snapshot);
        }
        _ => panic!(),
    }
}

#[test]
fn template_flow_early_finishes() {
    let mut f = TemplateFlow::new(1, "x".into(), ActionKind::Install, false);
    match f.planned(&Err(ManagerError::CycleDetected(SoftwareId::Go))) {
        TemplateStep::Finish(lines, snapshot) => {
            assert_eq!(lines, vec!["Failed to plan: Dependency cycle detected while resolving Go Toolchain"]);
            assert!(!snapshot);
        }
        _ => panic!(),
    }
    let mut f = TemplateFlow::new(2, "x".into(), ActionKind::Update, true);
    let _ = f.planned(&Ok(vec![SoftwareId::Go]));
    match f.after_report() {
        TemplateStep::Finish(lines, snapshot) => {
            assert_eq!(lines, vec!["Dry run complete."]);
            assert!(!snapshot);
        }
        _ => panic!(),
    }
    let mut f = TemplateFlow::new(3, "x".into(), ActionKind::Test, false);
    let _ = f.planned(&Ok(vec![]));
    assert!(matches!(f.after_report(), TemplateStep::Finish(ref l, true) if l.is_empty()));
    let mut f = TemplateFlow::new(4, "x".into(), ActionKind::Uninstall, false);
    let _ = f.planned(&Ok(vec![SoftwareId::Go]));
    let _ = f.after_report();
    match f.batch_done(&Err(ManagerError::Spawn("no sh".into()))) {
        TemplateStep::Finish(lines, snapshot) => {
            assert_eq!(lines, vec!["Error: Failed to spawn command: no sh"]);
            assert!(!snapshot);
        }
        _ => panic!(),
    }
}

#[test]
fn versions_messages_follow_the_report_format() {
    let reports = vec![
        StatusReport { id: SoftwareId::Go, state: StatusState::Installed { version: Some("1.22".into()) } },
        StatusReport { id: SoftwareId::Bun, state: StatusState::Installed { version: None } },
        StatusReport { id: SoftwareId::Jq, state: StatusState::NotInstalled },
        StatusReport { id: SoftwareId::Nvm, state: StatusState::ManualCheck("look".into()) },
        StatusReport { id: SoftwareId::Fd, state: StatusState::Unknown("odd".into()) },
        StatusReport { id: SoftwareId::Bat, state: StatusState::NotInstalled },
    ];
    let lines = versions_messages(&reports);
    assert_eq!(lines.len(), 7);
    assert_eq!(lines[0], "Versions refreshed for 6 entries");
    assert_eq!(lines[1], "versions -> Go Toolchain -> 1.22");
    assert_eq!(lines[2], format!("versions -> {} -> installed", SoftwareId::Bun.name()));
    assert_eq!(lines[3], "versions -> jq -> missing");
    assert_eq!(lines[4], format!("versions -> {} -> manual (look)", SoftwareId::Nvm.name()));
    assert_eq!(lines[5], format!("versions -> {} -> unknown (odd)", SoftwareId::Fd.name()));
    assert_eq!(lines[6], "versions -> ...");
    assert_eq!(versions_messages(&vec![]), vec!["Versions refreshed for 0 entries"]);
}

#[test]
fn board_receives_a_run_of_events_in_order() {
    let mut b = TaskBoard::new();
    let evs = vec![
        TaskEvent { id: 5, label: "t".into(), messages: vec!["one".into()], statuses: None },
        TaskEvent { id: 6, label: "u".into(), messages: vec!["x".into(), "done".into()], statuses: None },
        TaskEvent { id: 5, label: "t".into(), messages: vec!["two".into()], statuses: Some(vec![]) },
    ];
    let out = b.receive_all(evs);
    assert_eq!(out.len(), 3);
    assert!(!out[0].0 && out[1].0 && out[2].0);
    assert!(out[2].1.is_some());
    assert_eq!(b.logs[0].lines, vec!["task queued: t", "one", "two", "done"]);
    assert_eq!(b.logs[1].lines, vec!["task queued: u", "x", "done"]);
}
