//! The state behind the interactive view: screens, menu entries, the
//! package list and the end-to-end tab, without any drawing.

use crate::catalog::{SoftwareHandle, SoftwareId};
use crate::manager::{opt_view, StatusReport, StatusState, StatusView};
use vstd::prelude::*;
use vstd::string::*;

verus! {

/// The screens of the interactive view.
#[derive(Clone, Copy, Debug, PartialEq, Eq, Structural)]
pub enum Screen {
    Menu,
    Software,
    E2ETest,
}

/// One entry of the main menu.
#[derive(Clone, Copy, Debug)]
pub struct MenuEntry {
    pub label: &'static str,
    pub description: &'static str,
    pub index: usize,
}

/// The tabs of the end-to-end screen.
#[derive(Clone, Copy, Debug, PartialEq, Eq, Structural)]
pub enum E2ETab {
    Install,
    Update,
    Remove,
    Execute,
}

/// The progress of one end-to-end step.
#[derive(Clone, Copy, Debug, PartialEq, Eq, Structural)]
pub enum E2EStepStatus {
    Pending,
    Running,
    Done,
    Skipped,
}

/// The tab to the right, wrapping around.
pub open spec fn tab_after(t: E2ETab) -> E2ETab {
    match t {
        E2ETab::Install => E2ETab::Update,
        E2ETab::Update => E2ETab::Remove,
        E2ETab::Remove => E2ETab::Execute,
        E2ETab::Execute => E2ETab::Install,
    }
}

/// The tab to the left, wrapping around.
pub open spec fn tab_before(t: E2ETab) -> E2ETab {
    match t {
        E2ETab::Install => E2ETab::Execute,
        E2ETab::Update => E2ETab::Install,
        E2ETab::Remove => E2ETab::Update,
        E2ETab::Execute => E2ETab::Remove,
    }
}

/// The end-to-end screen: which package, which tab, which steps are
/// enabled, how each went, and the task's lines.
pub struct E2ETestComponent {
    pub software: Option<SoftwareId>,
    pub tab: E2ETab,
    pub install_enabled: bool,
    pub update_enabled: bool,
    pub remove_enabled: bool,
    pub install_status: E2EStepStatus,
    pub update_status: E2EStepStatus,
    pub remove_status: E2EStepStatus,
    pub executing: bool,
    pub task_lines: Vec<String>,
}

impl E2ETestComponent {
    /// The state of a fresh screen: no package, first tab, every step
    /// enabled and pending, nothing running.
    pub open spec fn is_fresh(&self) -> bool {
        &&& self.software is None
        &&& self.tab == E2ETab::Install
        &&& self.install_enabled && self.update_enabled && self.remove_enabled
        &&& self.install_status == E2EStepStatus::Pending
        &&& self.update_status == E2EStepStatus::Pending
        &&& self.remove_status == E2EStepStatus::Pending
        &&& !self.executing
        &&& self.task_lines@.len() == 0
    }

    pub fn new() -> (r: Self)
        ensures
            r.is_fresh(),
    {
        E2ETestComponent {
            software: None,
            tab: E2ETab::Install,
            install_enabled: true,
            update_enabled: true,
            remove_enabled: true,
            install_status: E2EStepStatus::Pending,
            update_status: E2EStepStatus::Pending,
            remove_status: E2EStepStatus::Pending,
            executing: false,
            task_lines: Vec::new(),
        }
    }

    /// Back to the state of a fresh screen.
    pub fn reset(&mut self)
        ensures
            final(self).is_fresh(),
    {
        self.software = None;
        self.tab = E2ETab::Install;
        self.install_enabled = true;
        self.update_enabled = true;
        self.remove_enabled = true;
        self.install_status = E2EStepStatus::Pending;
        self.update_status = E2EStepStatus::Pending;
        self.remove_status = E2EStepStatus::Pending;
        self.executing = false;
        self.task_lines.clear();
    }

    pub fn set_software(&mut self, software: SoftwareId)
        ensures
            final(self).software == Some(software),
            final(self).tab == old(self).tab,
            final(self).executing == old(self).executing,
    {
        self.software = Some(software);
    }

    pub fn set_task_lines(&mut self, lines: Vec<String>)
        ensures
            final(self).task_lines@ == lines@,
            final(self).software == old(self).software,
            final(self).executing == old(self).executing,
    {
        self.task_lines = lines;
    }

    pub fn set_executing(&mut self, executing: bool)
        ensures
            final(self).executing == executing,
            final(self).software == old(self).software,
            final(self).tab == old(self).tab,
    {
        self.executing = executing;
    }

    pub fn is_executing(&self) -> (r: bool)
        ensures
            r == self.executing,
    {
        self.executing
    }

    /// Flips the step of the current tab, unless a flow is running.
    pub fn toggle_current_step(&mut self)
        ensures
            final(self).install_status == old(self).install_status,
            final(self).update_status == old(self).update_status,
            final(self).remove_status == old(self).remove_status,
            final(self).task_lines@ == old(self).task_lines@,
            final(self).tab == old(self).tab,
            final(self).executing == old(self).executing,
            final(self).software == old(self).software,
            final(self).install_enabled == if !old(self).executing && old(self).tab == E2ETab::Install {
                !old(self).install_enabled
            } else {
                old(self).install_enabled
            },
            final(self).update_enabled == if !old(self).executing && old(self).tab == E2ETab::Update {
                !old(self).update_enabled
            } else {
                old(self).update_enabled
            },
            final(self).remove_enabled == if !old(self).executing && old(self).tab == E2ETab::Remove {
                !old(self).remove_enabled
            } else {
                old(self).remove_enabled
            },
    {
        if self.executing {
            return;
        }
        match self.tab {
            E2ETab::Install => self.install_enabled = !self.install_enabled,
            E2ETab::Update => self.update_enabled = !self.update_enabled,
            E2ETab::Remove => self.remove_enabled = !self.remove_enabled,
            E2ETab::Execute => {},
        }
    }

    /// A flow can start: a package is chosen, none is running, and the
    /// execute tab is shown.
    pub fn can_execute(&self) -> (r: bool)
        ensures
            r == (self.software is Some && !self.executing && self.tab == E2ETab::Execute),
    {
        self.software.is_some() && !self.executing && self.tab == E2ETab::Execute
    }

    /// Moves one tab to the right, if a package is chosen and nothing runs.
    pub fn next_tab(&mut self)
        ensures
            final(self).tab == if old(self).software is Some && !old(self).executing {
                tab_after(old(self).tab)
            } else {
                old(self).tab
            },
            final(self).software == old(self).software,
            final(self).executing == old(self).executing,
    {
        if self.software.is_some() && !self.executing {
            self.tab = match self.tab {
                E2ETab::Install => E2ETab::Update,
                E2ETab::Update => E2ETab::Remove,
                E2ETab::Remove => E2ETab::Execute,
                E2ETab::Execute => E2ETab::Install,
            };
        }
    }

    /// Moves one tab to the left, if a package is chosen and nothing runs.
    pub fn previous_tab(&mut self)
        ensures
            final(self).tab == if old(self).software is Some && !old(self).executing {
                tab_before(old(self).tab)
            } else {
                old(self).tab
            },
            final(self).software == old(self).software,
            final(self).executing == old(self).executing,
    {
        if self.software.is_some() && !self.executing {
            self.tab = match self.tab {
                E2ETab::Install => E2ETab::Execute,
                E2ETab::Update => E2ETab::Install,
                E2ETab::Remove => E2ETab::Update,
                E2ETab::Execute => E2ETab::Remove,
            };
        }
    }
}

/// A copy of a status.
pub fn copy_state(s: &StatusState) -> (r: StatusState)
    ensures
        r@ == s@,
{
    match s {
        StatusState::Installed { version } => StatusState::Installed {
            version: match version {
                Some(v) => Some(v.clone()),
                None => None,
            },
        },
        StatusState::NotInstalled => StatusState::NotInstalled,
        StatusState::ManualCheck(n) => StatusState::ManualCheck(n.clone()),
        StatusState::Unknown(n) => StatusState::Unknown(n.clone()),
    }
}

/// The status recorded first for `id` in `reports`, if any.
pub open spec fn recorded_status(reports: Seq<StatusReport>, id: SoftwareId) -> Option<StatusView>
    decreases reports.len(),
{
    if reports.len() == 0 {
        None
    } else if reports[0].id == id {
        Some(reports[0].state@)
    } else {
        recorded_status(reports.drop_first(), id)
    }
}

/// The status shown for a package: the one recorded, or not installed.
pub open spec fn shown_status(reports: Seq<StatusReport>, id: SoftwareId) -> StatusView {
    match recorded_status(reports, id) {
        Some(s) => s,
        None => StatusView::NotInstalled,
    }
}

/// The packages of `handles`, in order, whose shown status is not installed.
pub open spec fn missing_of(handles: Seq<SoftwareHandle>, reports: Seq<StatusReport>) -> Seq<SoftwareId>
    decreases handles.len(),
{
    if handles.len() == 0 {
        Seq::empty()
    } else {
        let rest = missing_of(handles.drop_last(), reports);
        if shown_status(reports, handles.last().id) is Installed {
            rest
        } else {
            rest.push(handles.last().id)
        }
    }
}

/// The package list: the packages in menu order, their known statuses, the
/// selection, and the lines shown beside it.
pub struct SoftwareComponent {
    pub handles: Vec<SoftwareHandle>,
    pub statuses: Vec<StatusReport>,
    pub selected: usize,
    pub message: String,
    pub log_lines: Vec<String>,
    pub show_tasks: bool,
    pub task_lines: Vec<String>,
}

impl SoftwareComponent {
    pub fn new(handles: Vec<SoftwareHandle>) -> (r: Self)
        ensures
            r.handles@ == handles@,
            r.statuses@.len() == 0,
            r.selected == 0,
            r.message@ == "Browse the catalog. Use Enter/u/x to install/update/uninstall."@,
            r.log_lines@.len() == 0,
            r.show_tasks,
            r.task_lines@.len() == 0,
    {
        SoftwareComponent {
            handles,
            statuses: Vec::new(),
            selected: 0,
            message: String::from_str("Browse the catalog. Use Enter/u/x to install/update/uninstall."),
            log_lines: Vec::new(),
            show_tasks: true,
            task_lines: Vec::new(),
        }
    }

    pub fn set_statuses(&mut self, statuses: Vec<StatusReport>)
        ensures
            final(self).statuses@ == statuses@,
            final(self).handles@ == old(self).handles@,
            final(self).selected == old(self).selected,
    {
        self.statuses = statuses;
    }

    pub fn set_message(&mut self, message: String)
        ensures
            final(self).message@ == message@,
            final(self).handles@ == old(self).handles@,
            final(self).selected == old(self).selected,
    {
        self.message = message;
    }

    pub fn set_log_lines(&mut self, lines: Vec<String>)
        ensures
            final(self).log_lines@ == lines@,
            final(self).handles@ == old(self).handles@,
            final(self).selected == old(self).selected,
    {
        self.log_lines = lines;
    }

    pub fn set_task_lines(&mut self, lines: Vec<String>)
        ensures
            final(self).task_lines@ == lines@,
            final(self).handles@ == old(self).handles@,
            final(self).selected == old(self).selected,
    {
        self.task_lines = lines;
    }

    pub fn set_show_tasks(&mut self, show: bool)
        ensures
            final(self).show_tasks == show,
            final(self).handles@ == old(self).handles@,
            final(self).selected == old(self).selected,
    {
        self.show_tasks = show;
    }

    /// The package under the selection, if the selection is on the list.
    pub fn selected_software(&self) -> (r: Option<SoftwareId>)
        ensures
            self.selected < self.handles@.len() ==> r == Some(self.handles@[self.selected as int].id),
            self.selected >= self.handles@.len() ==> r is None,
    {
        if self.selected < self.handles.len() {
            Some(self.handles[self.selected].id)
        } else {
            None
        }
    }

    /// The status shown for a package: the one recorded, or not installed.
    pub fn status_for(&self, id: SoftwareId) -> (r: StatusState)
        ensures
            r@ == shown_status(self.statuses@, id),
    {
        let mut i: usize = 0;
        assert(self.statuses@.subrange(0, self.statuses@.len() as int) =~= self.statuses@);
        while i < self.statuses.len()
            invariant
                i <= self.statuses@.len(),
                recorded_status(self.statuses@.subrange(i as int, self.statuses@.len() as int), id)
                    == recorded_status(self.statuses@, id),
            decreases self.statuses@.len() - i,
        {
            let ghost rest = self.statuses@.subrange(i as int, self.statuses@.len() as int);
            if self.statuses[i].id == id {
                return copy_state(&self.statuses[i].state);
            }
            assert(rest.drop_first() =~= self.statuses@.subrange(i + 1, self.statuses@.len() as int));
            i += 1;
        }
        proof {
            assert(self.statuses@.subrange(i as int, self.statuses@.len() as int).len() == 0);
        }
        StatusState::NotInstalled
    }

    /// The listed packages not shown as installed, in list order: what
    /// installing everything missing would ask for.
    pub fn missing_software(&self) -> (r: Vec<SoftwareId>)
        ensures
            r@ == missing_of(self.handles@, self.statuses@),
    {
        let mut r: Vec<SoftwareId> = Vec::new();
        let mut i: usize = 0;
        while i < self.handles.len()
            invariant
                i <= self.handles@.len(),
                r@ == missing_of(self.handles@.subrange(0, i as int), self.statuses@),
            decreases self.handles@.len() - i,
        {
            let id = self.handles[i].id;
            let state = self.status_for(id);
            assert(self.handles@.subrange(0, i + 1).drop_last() =~= self.handles@.subrange(0, i as int));
            match state {
                StatusState::Installed { .. } => {},
                _ => r.push(id),
            }
            i += 1;
        }
        assert(self.handles@.subrange(0, i as int) =~= self.handles@);
        r
    }

    /// Moves the selection down, wrapping to the top.
    pub fn select_next(&mut self)
        ensures
            old(self).handles@.len() > 0 ==> final(self).selected == (old(self).selected + 1) % (old(
                self,
            ).handles@.len() as int),
            old(self).handles@.len() == 0 ==> final(self).selected == old(self).selected,
            final(self).handles@ == old(self).handles@,
    {
        let n = self.handles.len();
        if n > 0 {
            self.selected = ((self.selected as u128 + 1) % (n as u128)) as usize;
        }
    }

    /// Moves the selection up, wrapping to the bottom.
    pub fn select_previous(&mut self)
        ensures
            old(self).handles@.len() > 0 ==> final(self).selected == if old(self).selected == 0 {
                old(self).handles@.len() - 1
            } else {
                old(self).selected - 1
            },
            old(self).handles@.len() == 0 ==> final(self).selected == old(self).selected,
            final(self).handles@ == old(self).handles@,
    {
        let n = self.handles.len();
        if n > 0 {
            self.selected = if self.selected == 0 {
                n - 1
            } else {
                self.selected - 1
            };
        }
    }
}

} // verus!
