//! The end-to-end flow: install, update and remove one package, each step
//! enabled on its own, strictly one after the other.

use crate::catalog::SoftwareId;
use crate::manager::{opt_view, ActionKind};
use crate::tasks::string_views;
use vstd::prelude::*;
use vstd::string::*;

verus! {

/// The action of each step.
pub open spec fn step_action(k: nat) -> ActionKind {
    if k == 0 {
        ActionKind::Install
    } else if k == 1 {
        ActionKind::Update
    } else {
        ActionKind::Uninstall
    }
}

/// The line that says a disabled step is skipped.
pub open spec fn disabled_line(k: nat) -> Seq<char> {
    if k == 0 {
        "Step 1: Install skipped (disabled)"@
    } else if k == 1 {
        "Step 2: Update skipped (disabled)"@
    } else {
        "Step 3: Remove skipped (disabled)"@
    }
}

/// The line that announces an enabled step.
pub open spec fn start_line(k: nat) -> Seq<char> {
    if k == 0 {
        "Step 1: Installing..."@
    } else if k == 1 {
        "Step 2: Updating..."@
    } else {
        "Step 3: Removing..."@
    }
}

/// The line that says an enabled step is skipped in a dry run.
pub open spec fn dry_run_line(k: nat) -> Seq<char> {
    if k == 0 {
        "  Install skipped (dry-run)"@
    } else if k == 1 {
        "  Update skipped (dry-run)"@
    } else {
        "  Remove skipped (dry-run)"@
    }
}

fn one_line(a: String) -> (r: Vec<String>)
    ensures
        string_views(r@) == seq![a@],
{
    let r = vec![a];
    assert(string_views(r@) =~= seq![r@[0]@]);
    r
}

fn two_lines(a: String, b: String) -> (r: Vec<String>)
    ensures
        string_views(r@) == seq![a@, b@],
{
    let r = vec![a, b];
    assert(string_views(r@) =~= seq![r@[0]@, r@[1]@]);
    r
}

/// The name of each step.
pub open spec fn step_name(k: nat) -> Seq<char> {
    if k == 0 {
        "Install"@
    } else if k == 1 {
        "Update"@
    } else {
        "Remove"@
    }
}

/// The line that closes a step that ran: complete, or failed with a message.
pub open spec fn result_line(k: nat, failure: Option<Seq<char>>) -> Seq<char> {
    match failure {
        None => "  "@ + step_name(k) + " complete"@,
        Some(m) => "  "@ + step_name(k) + " failed: "@ + m,
    }
}

/// What the flow asks for next.
pub enum E2EStep {
    /// Report these lines; nothing runs for this step.
    Report(Vec<String>),
    /// Report these lines, then run this action on the package.
    Run(ActionKind, Vec<String>),
    /// Every step is over; report these lines and complete the task.
    Finished(Vec<String>),
}

/// The step with its lines as character sequences.
pub enum E2EStepView {
    Report(Seq<Seq<char>>),
    Run(ActionKind, Seq<Seq<char>>),
    Finished(Seq<Seq<char>>),
}

impl View for E2EStep {
    type V = E2EStepView;

    open spec fn view(&self) -> E2EStepView {
        match self {
            E2EStep::Report(m) => E2EStepView::Report(string_views(m@)),
            E2EStep::Run(a, m) => E2EStepView::Run(*a, string_views(m@)),
            E2EStep::Finished(m) => E2EStepView::Finished(string_views(m@)),
        }
    }
}

/// The three steps of the flow over one package.
pub struct E2EFlow {
    pub software: SoftwareId,
    pub install_enabled: bool,
    pub update_enabled: bool,
    pub remove_enabled: bool,
    pub dry_run: bool,
    pub step: usize,
}

impl E2EFlow {
    /// Whether step `k` is enabled.
    pub open spec fn enabled(&self, k: nat) -> bool {
        if k == 0 {
            self.install_enabled
        } else if k == 1 {
            self.update_enabled
        } else {
            self.remove_enabled
        }
    }

    /// What the flow asks for at its current step.
    pub open spec fn step_spec(&self) -> E2EStepView {
        let k = self.step as nat;
        if k >= 3 {
            E2EStepView::Finished(seq!["E2E test complete"@])
        } else if !self.enabled(k) {
            E2EStepView::Report(seq![disabled_line(k)])
        } else if self.dry_run {
            E2EStepView::Report(seq![start_line(k), dry_run_line(k)])
        } else {
            E2EStepView::Run(step_action(k), seq![start_line(k)])
        }
    }

    pub fn new(
        software: SoftwareId,
        install_enabled: bool,
        update_enabled: bool,
        remove_enabled: bool,
        dry_run: bool,
    ) -> (r: Self)
        ensures
            r.software == software,
            r.install_enabled == install_enabled,
            r.update_enabled == update_enabled,
            r.remove_enabled == remove_enabled,
            r.dry_run == dry_run,
            r.step == 0,
    {
        E2EFlow { software, install_enabled, update_enabled, remove_enabled, dry_run, step: 0 }
    }

    /// Says what the current step asks for: a disabled step only reports,
    /// an enabled one reports in a dry run and runs its action otherwise.
    pub fn current(&self) -> (r: E2EStep)
        ensures
            r@ == self.step_spec(),
    {
        if self.step >= 3 {
            return E2EStep::Finished(one_line(String::from_str("E2E test complete")));
        }
        let enabled = if self.step == 0 {
            self.install_enabled
        } else if self.step == 1 {
            self.update_enabled
        } else {
            self.remove_enabled
        };
        let r = if !enabled {
            let line = if self.step == 0 {
                String::from_str("Step 1: Install skipped (disabled)")
            } else if self.step == 1 {
                String::from_str("Step 2: Update skipped (disabled)")
            } else {
                String::from_str("Step 3: Remove skipped (disabled)")
            };
            E2EStep::Report(one_line(line))
        } else {
            let start = if self.step == 0 {
                String::from_str("Step 1: Installing...")
            } else if self.step == 1 {
                String::from_str("Step 2: Updating...")
            } else {
                String::from_str("Step 3: Removing...")
            };
            if self.dry_run {
                let skipped = if self.step == 0 {
                    String::from_str("  Install skipped (dry-run)")
                } else if self.step == 1 {
                    String::from_str("  Update skipped (dry-run)")
                } else {
                    String::from_str("  Remove skipped (dry-run)")
                };
                E2EStep::Report(two_lines(start, skipped))
            } else {
                let action = if self.step == 0 {
                    ActionKind::Install
                } else if self.step == 1 {
                    ActionKind::Update
                } else {
                    ActionKind::Uninstall
                };
                E2EStep::Run(action, one_line(start))
            }
        };
        r
    }

    /// The line that closes the current step once its action has run;
    /// `failure` is the message of the error it ended with, if any.
    pub fn result_line(&self, failure: Option<String>) -> (r: String)
        requires
            self.step < 3,
        ensures
            r@ == result_line(self.step as nat, opt_view(failure)),
    {
        let mut r = String::from_str("  ");
        if self.step == 0 {
            r.append("Install");
        } else if self.step == 1 {
            r.append("Update");
        } else {
            r.append("Remove");
        }
        match &failure {
            None => r.append(" complete"),
            Some(m) => {
                r.append(" failed: ");
                r.append(m.as_str());
            },
        }
        proof {
            assert(r@ =~= result_line(self.step as nat, opt_view(failure)));
        }
        r
    }

    /// Moves on to the next step, whatever became of the current one.
    pub fn advance(&mut self)
        requires
            old(self).step < 3,
        ensures
            *final(self) == (E2EFlow { step: (old(self).step + 1) as usize, ..*old(self) }),
    {
        self.step = self.step + 1;
    }

    /// Whether every step is over.
    pub fn is_finished(&self) -> (r: bool)
        ensures
            r == (self.step >= 3),
    {
        self.step >= 3
    }
}

/// A disabled step never runs; an enabled step runs its action unless the
/// flow is a dry run; after the third step the flow is finished.
pub proof fn lemma_e2e_steps(f: E2EFlow)
    ensures
        f.step < 3 && !f.enabled(f.step as nat) ==> f.step_spec() is Report,
        f.step < 3 && f.enabled(f.step as nat) && f.dry_run ==> f.step_spec() is Report,
        f.step < 3 && f.enabled(f.step as nat) && !f.dry_run ==> f.step_spec() == E2EStepView::Run(
            step_action(f.step as nat),
            seq![start_line(f.step as nat)],
        ),
        f.step >= 3 ==> f.step_spec() is Finished,
{
}

} // verus!
