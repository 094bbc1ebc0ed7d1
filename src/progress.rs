//! What the background worker reports for template flows and status
//! refreshes: the plan report, the early finishes, the final batch with or
//! without a status snapshot, and the status refresh lines.

use crate::catalog::{name_of, SoftwareId};
use crate::manager::{error_message, ActionKind, ErrorView, ExecutionEvent, ManagerError, StatusReport, StatusState, StatusView};
use crate::tasks::{string_views, MAX_TASK_LOG_LINES};
use crate::text::{append_decimal, decimal};
use vstd::prelude::*;
use vstd::string::*;

verus! {

/// What a template flow asks for next.
pub enum TemplateStep {
    /// Report these lines and ask again with `after_report`.
    Report(Vec<String>),
    /// Run this action over the template's packages and hand the outcome to
    /// `batch_done`.
    RunBatch(ActionKind),
    /// Complete the task with these lines, and with a status snapshot if
    /// the flag is set.
    Finish(Vec<String>, bool),
}

/// The step with its lines as character sequences.
pub enum TemplateStepView {
    Report(Seq<Seq<char>>),
    RunBatch(ActionKind),
    Finish(Seq<Seq<char>>, bool),
}

impl View for TemplateStep {
    type V = TemplateStepView;

    open spec fn view(&self) -> TemplateStepView {
        match self {
            TemplateStep::Report(m) => TemplateStepView::Report(string_views(m@)),
            TemplateStep::RunBatch(a) => TemplateStepView::RunBatch(*a),
            TemplateStep::Finish(m, s) => TemplateStepView::Finish(string_views(m@), *s),
        }
    }
}

/// A number right-aligned in two columns.
pub open spec fn padded(k: nat) -> Seq<char> {
    if k < 10 {
        " "@ + decimal(k)
    } else {
        decimal(k)
    }
}

/// The report line of the `k`-th package of a plan, counting from one.
pub open spec fn plan_line(k: nat, id: SoftwareId) -> Seq<char> {
    "  "@ + padded(k) + ". "@ + name_of(id)
}

/// How many lines a listing shows before it is cut short.
pub open spec fn shown(n: nat) -> nat {
    if n > MAX_TASK_LOG_LINES {
        MAX_TASK_LOG_LINES as nat
    } else {
        n
    }
}

/// The report of a plan: the task, the number of steps, the first packages
/// numbered, and `  ...` when there are more.
pub open spec fn plan_report(label: Seq<char>, id: u64, plan: Seq<SoftwareId>) -> Seq<Seq<char>> {
    seq![label + " (task #"@ + decimal(id as nat) + ")"@, "Plan includes "@ + decimal(plan.len()) + " steps"@]
        + Seq::new(shown(plan.len()), |i: int| plan_line((i + 1) as nat, plan[i]))
        + if plan.len() > MAX_TASK_LOG_LINES {
        seq!["  ..."@]
    } else {
        Seq::empty()
    }
}

/// A plan with its error as a view.
pub open spec fn plan_view(r: Result<Vec<SoftwareId>, ManagerError>) -> Result<Seq<SoftwareId>, ErrorView> {
    match r {
        Ok(v) => Ok(v@),
        Err(e) => Err(e@),
    }
}

/// What a template flow does with its plan: report it, or finish with the
/// reason planning failed.
pub open spec fn planned_step(label: Seq<char>, id: u64, plan: Result<Seq<SoftwareId>, ErrorView>) -> TemplateStepView {
    match plan {
        Ok(p) => TemplateStepView::Report(plan_report(label, id, p)),
        Err(e) => TemplateStepView::Finish(seq!["Failed to plan: "@ + error_message(e)], false),
    }
}

fn one_line(a: String) -> (r: Vec<String>)
    ensures
        string_views(r@) == seq![a@],
{
    let r = vec![a];
    assert(string_views(r@) =~= seq![r@[0]@]);
    r
}

/// One template flow run by the worker: plan, report, then the batch unless
/// it is a dry run, then completion.
pub struct TemplateFlow {
    pub id: u64,
    pub label: String,
    pub action: ActionKind,
    pub dry_run: bool,
    /// 0 before the plan, 1 once reported, 2 while the batch runs, 3 done.
    pub stage: u8,
}

impl TemplateFlow {
    pub fn new(id: u64, label: String, action: ActionKind, dry_run: bool) -> (r: Self)
        ensures
            r.id == id,
            r.label@ == label@,
            r.action == action,
            r.dry_run == dry_run,
            r.stage == 0,
    {
        TemplateFlow { id, label, action, dry_run, stage: 0 }
    }

    /// Takes the plan: its report, or the end of the task if planning failed.
    pub fn planned(&mut self, plan: &Result<Vec<SoftwareId>, ManagerError>) -> (r: TemplateStep)
        requires
            old(self).stage == 0,
        ensures
            r@ == planned_step(old(self).label@, old(self).id, plan_view(*plan)),
            final(self).stage == if plan is Ok { 1u8 } else { 3u8 },
            final(self).id == old(self).id,
            final(self).label@ == old(self).label@,
            final(self).action == old(self).action,
            final(self).dry_run == old(self).dry_run,
    {
        match plan {
            Err(e) => {
                self.stage = 3;
                let mut line = String::from_str("Failed to plan: ");
                let m = e.message();
                line.append(m.as_str());
                TemplateStep::Finish(one_line(line), false)
            },
            Ok(p) => {
                self.stage = 1;
                let mut lines: Vec<String> = Vec::new();
                let mut head = self.label.clone();
                head.append(" (task #");
                append_decimal(&mut head, self.id);
                head.append(")");
                lines.push(head);
                let mut count = String::from_str("Plan includes ");
                append_decimal(&mut count, p.len() as u64);
                count.append(" steps");
                lines.push(count);
                let n = if p.len() > MAX_TASK_LOG_LINES {
                    MAX_TASK_LOG_LINES
                } else {
                    p.len()
                };
                let ghost top = string_views(lines@);
                let mut i: usize = 0;
                while i < n
                    invariant
                        i <= n,
                        n == shown(p@.len()),
                        n <= p@.len(),
                        string_views(lines@) == top + Seq::new(
                            i as nat,
                            |j: int| plan_line((j + 1) as nat, p@[j]),
                        ),
                    decreases n - i,
                {
                    let mut line = String::from_str("  ");
                    if i + 1 < 10 {
                        line.append(" ");
                    }
                    append_decimal(&mut line, (i + 1) as u64);
                    line.append(". ");
                    line.append(p[i].name());
                    let ghost prev = string_views(lines@);
                    assert(line@ =~= plan_line((i + 1) as nat, p@[i as int]));
                    lines.push(line);
                    assert(string_views(lines@) =~= prev.push(line@));
                    assert(string_views(lines@) =~= top + Seq::new(
                        (i + 1) as nat,
                        |j: int| plan_line((j + 1) as nat, p@[j]),
                    ));
                    i += 1;
                }
                if p.len() > MAX_TASK_LOG_LINES {
                    let ghost prev = string_views(lines@);
                    lines.push(String::from_str("  ..."));
                    assert(string_views(lines@) =~= prev.push("  ..."@));
                }
                let r = TemplateStep::Report(lines);
                assert(r@ == planned_step(old(self).label@, old(self).id, plan_view(*plan))) by {
                    assert(string_views(lines@) =~= plan_report(self.label@, self.id, p@));
                }
                r
            },
        }
    }

    /// After the report: a dry run ends here; a test has no batch and ends
    /// with a status snapshot; anything else runs its batch.
    pub fn after_report(&mut self) -> (r: TemplateStep)
        requires
            old(self).stage == 1,
        ensures
            old(self).dry_run ==> r@ == TemplateStepView::Finish(seq!["Dry run complete."@], false),
            !old(self).dry_run && old(self).action == ActionKind::Test ==> r@
                == TemplateStepView::Finish(Seq::empty(), true),
            !old(self).dry_run && old(self).action != ActionKind::Test ==> r@
                == TemplateStepView::RunBatch(old(self).action),
            final(self).stage == if r is RunBatch { 2u8 } else { 3u8 },
            final(self).id == old(self).id,
            final(self).label@ == old(self).label@,
            final(self).action == old(self).action,
            final(self).dry_run == old(self).dry_run,
    {
        if self.dry_run {
            self.stage = 3;
            TemplateStep::Finish(one_line(String::from_str("Dry run complete.")), false)
        } else if matches!(self.action, ActionKind::Test) {
            self.stage = 3;
            let v: Vec<String> = Vec::new();
            assert(string_views(v@) =~= Seq::<Seq<char>>::empty());
            TemplateStep::Finish(v, true)
        } else {
            self.stage = 2;
            TemplateStep::RunBatch(self.action)
        }
    }

    /// After the batch: success completes with a status snapshot, failure
    /// with the error.
    pub fn batch_done(&mut self, result: &Result<Vec<ExecutionEvent>, ManagerError>) -> (r: TemplateStep)
        requires
            old(self).stage == 2,
        ensures
            result is Ok ==> r@ == TemplateStepView::Finish(Seq::empty(), true),
            result matches Err(e) ==> r@ == TemplateStepView::Finish(
                seq!["Error: "@ + error_message(e@)],
                false,
            ),
            final(self).stage == 3,
            final(self).id == old(self).id,
    {
        self.stage = 3;
        match result {
            Ok(_) => {
                let v: Vec<String> = Vec::new();
                assert(string_views(v@) =~= Seq::<Seq<char>>::empty());
                TemplateStep::Finish(v, true)
            },
            Err(e) => {
                let mut line = String::from_str("Error: ");
                let m = e.message();
                line.append(m.as_str());
                TemplateStep::Finish(one_line(line), false)
            },
        }
    }
}

/// A status report as a package and a status view.
pub open spec fn report_views(r: Seq<StatusReport>) -> Seq<(SoftwareId, StatusView)> {
    r.map_values(|x: StatusReport| (x.id, x.state@))
}

/// The refresh line of one package.
pub open spec fn report_line(id: SoftwareId, state: StatusView) -> Seq<char> {
    "versions -> "@ + name_of(id) + match state {
        StatusView::Installed { version: Some(v) } => " -> "@ + v,
        StatusView::Installed { version: None } => " -> installed"@,
        StatusView::NotInstalled => " -> missing"@,
        StatusView::ManualCheck(n) => " -> manual ("@ + n + ")"@,
        StatusView::Unknown(n) => " -> unknown ("@ + n + ")"@,
    }
}

/// The lines of a status refresh: how many packages were checked, the first
/// few of them, and `versions -> ...` when there are more.
pub open spec fn versions_lines(r: Seq<(SoftwareId, StatusView)>) -> Seq<Seq<char>> {
    seq!["Versions refreshed for "@ + decimal(r.len()) + " entries"@] + Seq::new(
        shown(r.len()),
        |i: int| report_line(r[i].0, r[i].1),
    ) + if r.len() > MAX_TASK_LOG_LINES {
        seq!["versions -> ..."@]
    } else {
        Seq::empty()
    }
}

fn report_text(report: &StatusReport) -> (r: String)
    ensures
        r@ == report_line(report.id, report.state@),
{
    let mut r = String::from_str("versions -> ");
    r.append(report.id.name());
    match &report.state {
        StatusState::Installed { version: Some(v) } => {
            r.append(" -> ");
            r.append(v.as_str());
        },
        StatusState::Installed { version: None } => r.append(" -> installed"),
        StatusState::NotInstalled => r.append(" -> missing"),
        StatusState::ManualCheck(n) => {
            r.append(" -> manual (");
            r.append(n.as_str());
            r.append(")");
        },
        StatusState::Unknown(n) => {
            r.append(" -> unknown (");
            r.append(n.as_str());
            r.append(")");
        },
    }
    proof {
        assert(r@ =~= report_line(report.id, report.state@));
    }
    r
}

/// The lines the worker reports for a status refresh.
pub fn versions_messages(reports: &Vec<StatusReport>) -> (r: Vec<String>)
    ensures
        string_views(r@) == versions_lines(report_views(reports@)),
{
    let mut lines: Vec<String> = Vec::new();
    let mut head = String::from_str("Versions refreshed for ");
    append_decimal(&mut head, reports.len() as u64);
    head.append(" entries");
    lines.push(head);
    let ghost top = string_views(lines@);
    let ghost rv = report_views(reports@);
    let n = if reports.len() > MAX_TASK_LOG_LINES {
        MAX_TASK_LOG_LINES
    } else {
        reports.len()
    };
    let mut i: usize = 0;
    while i < n
        invariant
            i <= n,
            n == shown(reports@.len()),
            n <= reports@.len(),
            rv == report_views(reports@),
            string_views(lines@) == top + Seq::new(i as nat, |j: int| report_line(rv[j].0, rv[j].1)),
        decreases n - i,
    {
        let line = report_text(&reports[i]);
        let ghost prev = string_views(lines@);
        lines.push(line);
        assert(string_views(lines@) =~= prev.push(line@));
        assert(string_views(lines@) =~= top + Seq::new(
            (i + 1) as nat,
            |j: int| report_line(rv[j].0, rv[j].1),
        ));
        i += 1;
    }
    if reports.len() > MAX_TASK_LOG_LINES {
        let ghost prev = string_views(lines@);
        lines.push(String::from_str("versions -> ..."));
        assert(string_views(lines@) =~= prev.push("versions -> ..."@));
    }
    assert(string_views(lines@) =~= versions_lines(rv));
    lines
}

} // verus!
