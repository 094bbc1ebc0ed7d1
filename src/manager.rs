//! The execution engine: actions, events, errors, the per-package walk over
//! fallback command sources, and the batch walk over a resolved plan.
//!
//! Running a command or a probe is left to the caller: each walk is a state
//! machine that says what to run next and is told how it went.

use crate::catalog::{
    deps_of, entry, extra_install_of, id_at, id_index, install_recipe_of, kind_of,
    lemma_at_round_trip, lemma_index_round_trip, name_of, sources_built, uninstall_recipe_of,
    update_recipe_of, CommandRecipe, CommandSource, SoftwareEntry, SoftwareId, SoftwareKind,
    SOFTWARE_COUNT,
};
use crate::resolver::{on_cycle, resolution, valid_order, within, DependencyGraph};
use crate::text::{has_prefix, starts_with};
use vstd::prelude::*;
use vstd::string::*;

verus! {

/// What is being done to a package.
#[derive(Clone, Copy, Debug, PartialEq, Eq, Structural)]
pub enum ActionKind {
    Install,
    Update,
    Uninstall,
    Test,
}

/// The word shown for an action.
pub open spec fn action_label(a: ActionKind) -> Seq<char> {
    match a {
        ActionKind::Install => "install"@,
        ActionKind::Update => "update"@,
        ActionKind::Uninstall => "uninstall"@,
        ActionKind::Test => "test"@,
    }
}

impl ActionKind {
    pub fn label(&self) -> (r: &'static str)
        ensures
            r@ == action_label(*self),
    {
        match self {
            ActionKind::Install => "install",
            ActionKind::Update => "update",
            ActionKind::Uninstall => "uninstall",
            ActionKind::Test => "test",
        }
    }
}

/// The text of an optional string.
pub open spec fn opt_view(o: Option<String>) -> Option<Seq<char>> {
    match o {
        Some(s) => Some(s@),
        None => None,
    }
}

/// The outcome of one action on one package.
#[derive(Debug)]
pub struct ExecutionEvent {
    pub id: SoftwareId,
    pub action: ActionKind,
    pub command: Option<String>,
    pub source: Option<String>,
    pub note: Option<String>,
    pub skipped: bool,
}

/// An execution event with its strings as character sequences.
pub struct EventView {
    pub id: SoftwareId,
    pub action: ActionKind,
    pub command: Option<Seq<char>>,
    pub source: Option<Seq<char>>,
    pub note: Option<Seq<char>>,
    pub skipped: bool,
}

impl View for ExecutionEvent {
    type V = EventView;

    open spec fn view(&self) -> EventView {
        EventView {
            id: self.id,
            action: self.action,
            command: opt_view(self.command),
            source: opt_view(self.source),
            note: opt_view(self.note),
            skipped: self.skipped,
        }
    }
}

/// Why an action, or a whole batch, did not go through.
#[derive(Debug)]
pub enum ManagerError {
    /// The package lies on a dependency cycle.
    CycleDetected(SoftwareId),
    /// A command ran and exited with failure.
    CommandFailed { command: String, stderr: String },
    /// The shell could not be started; the text says why.
    Spawn(String),
    /// A GUI package's recipe is not a cask command.
    UnsafeGuiCommand { id: SoftwareId, command: &'static str },
}

/// A manager error with its strings as character sequences.
pub enum ErrorView {
    CycleDetected(SoftwareId),
    CommandFailed { command: Seq<char>, stderr: Seq<char> },
    Spawn(Seq<char>),
    UnsafeGuiCommand { id: SoftwareId, command: Seq<char> },
}

impl View for ManagerError {
    type V = ErrorView;

    open spec fn view(&self) -> ErrorView {
        match self {
            ManagerError::CycleDetected(id) => ErrorView::CycleDetected(*id),
            ManagerError::CommandFailed { command, stderr } => ErrorView::CommandFailed {
                command: command@,
                stderr: stderr@,
            },
            ManagerError::Spawn(m) => ErrorView::Spawn(m@),
            ManagerError::UnsafeGuiCommand { id, command } => ErrorView::UnsafeGuiCommand {
                id: *id,
                command: command@,
            },
        }
    }
}

/// A shell command that only installs, upgrades or uninstalls a cask.
pub open spec fn is_cask_command(cmd: Seq<char>) -> bool {
    has_prefix(cmd, "brew install --cask"@) || has_prefix(cmd, "brew upgrade --cask"@) || has_prefix(
        cmd,
        "brew uninstall --cask"@,
    )
}

/// Whether a shell command only installs, upgrades or uninstalls a cask.
pub fn is_cask(cmd: &str) -> (r: bool)
    ensures
        r == is_cask_command(cmd@),
{
    starts_with(cmd, "brew install --cask") || starts_with(cmd, "brew upgrade --cask")
        || starts_with(cmd, "brew uninstall --cask")
}

/// A package of this kind may run this command.
pub open spec fn guard_allows(kind: SoftwareKind, cmd: Seq<char>) -> bool {
    kind != SoftwareKind::GuiApplication || is_cask_command(cmd)
}

/// What the walk over command sources asks for next, with strings as
/// character sequences.
pub enum StepView {
    Execute(Seq<char>),
    Succeeded(EventView),
    Failed(ErrorView),
}

/// What the walk over command sources asks for next.
pub enum SourceStep {
    /// Run this shell command and report how it went.
    Execute(&'static str),
    /// The action is over.
    Finished(Result<ExecutionEvent, ManagerError>),
}

impl View for SourceStep {
    type V = StepView;

    open spec fn view(&self) -> StepView {
        match self {
            SourceStep::Execute(c) => StepView::Execute(c@),
            SourceStep::Finished(Ok(e)) => StepView::Succeeded(e@),
            SourceStep::Finished(Err(e)) => StepView::Failed(e@),
        }
    }
}

/// The attempt of one action on one package over its ordered command
/// sources: the first that succeeds ends it, a failure falls through to the
/// next, a manual note ends it at once, and a non-cask command on a GUI
/// package ends it with an error before anything runs.
pub struct SourceRun {
    pub id: SoftwareId,
    pub kind: SoftwareKind,
    pub action: ActionKind,
    pub sources: Vec<CommandSource>,
    pub dry_run: bool,
    pub next: usize,
    pub last_error: Option<ManagerError>,
}

impl SourceRun {
    /// The event for a package with no sources at all.
    pub open spec fn empty_event(&self) -> EventView {
        if self.action == ActionKind::Test {
            EventView {
                id: self.id,
                action: self.action,
                command: None,
                source: None,
                note: Some("Test command not implemented"@),
                skipped: true,
            }
        } else {
            EventView {
                id: self.id,
                action: self.action,
                command: None,
                source: Some("manual"@),
                note: Some("No automated steps defined."@),
                skipped: true,
            }
        }
    }

    /// The error once every source has failed.
    pub open spec fn exhausted_error(&self) -> ErrorView {
        match self.last_error {
            Some(e) => e@,
            None => ErrorView::CommandFailed {
                command: "all sources"@,
                stderr: "All command sources failed"@,
            },
        }
    }

    /// What comes next, given the sources tried so far.
    pub open spec fn step_spec(&self) -> StepView {
        if self.sources@.len() == 0 {
            StepView::Succeeded(self.empty_event())
        } else if self.next >= self.sources@.len() {
            StepView::Failed(self.exhausted_error())
        } else {
            let src = self.sources@[self.next as int];
            match src.recipe {
                CommandRecipe::Manual(note) => StepView::Succeeded(
                    EventView {
                        id: self.id,
                        action: self.action,
                        command: None,
                        source: Some(src.label@),
                        note: Some(note@),
                        skipped: true,
                    },
                ),
                CommandRecipe::Shell(cmd) => if !guard_allows(self.kind, cmd@) {
                    StepView::Failed(ErrorView::UnsafeGuiCommand { id: self.id, command: cmd@ })
                } else if self.dry_run {
                    StepView::Succeeded(
                        EventView {
                            id: self.id,
                            action: self.action,
                            command: Some(cmd@),
                            source: Some(src.label@),
                            note: None,
                            skipped: true,
                        },
                    )
                } else {
                    StepView::Execute(cmd@)
                },
            }
        }
    }

    /// The event once the command asked for has succeeded.
    pub open spec fn success_event(&self) -> EventView {
        let src = self.sources@[self.next as int];
        EventView {
            id: self.id,
            action: self.action,
            command: Some(recipe_command(src.recipe)),
            source: Some(src.label@),
            note: None,
            skipped: false,
        }
    }

    /// The state once the command asked for has failed with `err`.
    pub open spec fn after_failure(&self, err: ManagerError) -> SourceRun {
        SourceRun { next: (self.next + 1) as usize, last_error: Some(err), ..*self }
    }

    pub fn new(
        id: SoftwareId,
        kind: SoftwareKind,
        action: ActionKind,
        sources: Vec<CommandSource>,
        dry_run: bool,
    ) -> (r: Self)
        ensures
            r.id == id,
            r.kind == kind,
            r.action == action,
            r.sources@ == sources@,
            r.dry_run == dry_run,
            r.next == 0,
            r.last_error is None,
    {
        SourceRun { id, kind, action, sources, dry_run, next: 0, last_error: None }
    }

    /// The walk for an action on a catalog entry, over the entry's sources
    /// for that action; a test has none.
    pub fn for_entry(e: &SoftwareEntry, action: ActionKind, dry_run: bool) -> (r: Self)
        ensures
            r.id == e.id,
            r.kind == e.kind,
            r.action == action,
            r.dry_run == dry_run,
            r.next == 0,
            r.last_error is None,
            action == ActionKind::Test ==> r.sources@.len() == 0,
            action == ActionKind::Install ==> sources_built(
                r.sources@,
                e.install,
                extra_install_of(e.id),
            ),
            action == ActionKind::Update ==> sources_built(r.sources@, e.update, Seq::empty()),
            action == ActionKind::Uninstall ==> sources_built(
                r.sources@,
                e.uninstall,
                Seq::empty(),
            ),
    {
        let sources = match action {
            ActionKind::Install => e.install_sources(),
            ActionKind::Update => e.update_sources(),
            ActionKind::Uninstall => e.uninstall_sources(),
            ActionKind::Test => Vec::new(),
        };
        SourceRun::new(e.id, e.kind, action, sources, dry_run)
    }

    /// Says what comes next. In a dry run nothing is ever to be executed,
    /// and every event it ends with is marked skipped.
    pub fn step(&self) -> (r: SourceStep)
        ensures
            r@ == self.step_spec(),
            self.dry_run ==> !(r is Execute),
            self.dry_run ==> (r@ matches StepView::Succeeded(e) ==> e.skipped),
    {
        let n = self.sources.len();
        if n == 0 {
            if matches!(self.action, ActionKind::Test) {
                return SourceStep::Finished(
                    Ok(
                        ExecutionEvent {
                            id: self.id,
                            action: self.action,
                            command: None,
                            source: None,
                            note: Some(String::from_str("Test command not implemented")),
                            skipped: true,
                        },
                    ),
                );
            }
            return SourceStep::Finished(
                Ok(
                    ExecutionEvent {
                        id: self.id,
                        action: self.action,
                        command: None,
                        source: Some(String::from_str("manual")),
                        note: Some(String::from_str("No automated steps defined.")),
                        skipped: true,
                    },
                ),
            );
        }
        if self.next >= n {
            return SourceStep::Finished(Err(self.exhausted()));
        }
        let src = self.sources[self.next];
        match src.recipe {
            CommandRecipe::Manual(note) => SourceStep::Finished(
                Ok(
                    ExecutionEvent {
                        id: self.id,
                        action: self.action,
                        command: None,
                        source: Some(String::from_str(src.label)),
                        note: Some(String::from_str(note)),
                        skipped: true,
                    },
                ),
            ),
            CommandRecipe::Shell(cmd) => {
                if self.kind == SoftwareKind::GuiApplication && !is_cask(cmd) {
                    SourceStep::Finished(Err(ManagerError::UnsafeGuiCommand { id: self.id, command: cmd }))
                } else if self.dry_run {
                    SourceStep::Finished(
                        Ok(
                            ExecutionEvent {
                                id: self.id,
                                action: self.action,
                                command: Some(String::from_str(cmd)),
                                source: Some(String::from_str(src.label)),
                                note: None,
                                skipped: true,
                            },
                        ),
                    )
                } else {
                    SourceStep::Execute(cmd)
                }
            },
        }
    }

    fn exhausted(&self) -> (r: ManagerError)
        ensures
            r@ == self.exhausted_error(),
    {
        match &self.last_error {
            Some(e) => copy_error(e),
            None => ManagerError::CommandFailed {
                command: String::from_str("all sources"),
                stderr: String::from_str("All command sources failed"),
            },
        }
    }

    /// The command asked for succeeded: the event that ends the walk.
    pub fn record_success(&self) -> (r: ExecutionEvent)
        requires
            self.step_spec() is Execute,
        ensures
            r@ == self.success_event(),
    {
        let src = self.sources[self.next];
        let cmd = src.recipe.description();
        ExecutionEvent {
            id: self.id,
            action: self.action,
            command: Some(String::from_str(cmd)),
            source: Some(String::from_str(src.label)),
            note: None,
            skipped: false,
        }
    }

    /// The command asked for failed: the walk moves to the next source.
    pub fn record_failure(&mut self, err: ManagerError)
        requires
            old(self).step_spec() is Execute,
        ensures
            *final(self) == old(self).after_failure(err),
    {
        let n = self.sources.len();
        assert(self.next < n);
        self.next = self.next + 1;
        self.last_error = Some(err);
    }
}

/// The command of a shell recipe.
pub open spec fn recipe_command(r: CommandRecipe) -> Seq<char> {
    match r {
        CommandRecipe::Shell(c) => c@,
        CommandRecipe::Manual(n) => n@,
    }
}

/// A copy of an error.
pub fn copy_error(e: &ManagerError) -> (r: ManagerError)
    ensures
        r@ == e@,
{
    match e {
        ManagerError::CycleDetected(id) => ManagerError::CycleDetected(*id),
        ManagerError::CommandFailed { command, stderr } => ManagerError::CommandFailed {
            command: command.clone(),
            stderr: stderr.clone(),
        },
        ManagerError::Spawn(m) => ManagerError::Spawn(m.clone()),
        ManagerError::UnsafeGuiCommand { id, command } => ManagerError::UnsafeGuiCommand {
            id: *id,
            command,
        },
    }
}

/// The label an event shows for its source.
pub open spec fn source_text(e: EventView) -> Seq<char> {
    match e.source {
        Some(s) => s,
        None => "source"@,
    }
}

/// The one-line account of an event.
pub open spec fn event_summary(e: EventView) -> Seq<char> {
    let prefix = "["@ + action_label(e.action) + "] "@ + name_of(e.id);
    match e.note {
        Some(n) => prefix + ": "@ + n,
        None => match e.command {
            Some(c) => if e.skipped {
                prefix + ": dry-run via "@ + source_text(e) + " -> "@ + c
            } else {
                prefix + ": "@ + source_text(e) + " -> "@ + c
            },
            None => if e.skipped {
                prefix + ": skipped"@
            } else {
                prefix + ": completed"@
            },
        },
    }
}

impl ExecutionEvent {
    /// A one-line account of the event for logs and task output.
    pub fn summary(&self) -> (r: String)
        ensures
            r@ == event_summary(self@),
    {
        let mut r = String::from_str("[");
        r.append(self.action.label());
        r.append("] ");
        r.append(self.id.name());
        let ghost prefix = r@;
        match &self.note {
            Some(note) => {
                r.append(": ");
                r.append(note.as_str());
            },
            None => match &self.command {
                Some(cmd) => {
                    if self.skipped {
                        r.append(": dry-run via ");
                    } else {
                        r.append(": ");
                    }
                    let label = self.source_label();
                    r.append(label.as_str());
                    r.append(" -> ");
                    r.append(cmd.as_str());
                },
                None => {
                    if self.skipped {
                        r.append(": skipped");
                    } else {
                        r.append(": completed");
                    }
                },
            },
        }
        proof {
            assert(r@ =~= event_summary(self@));
        }
        r
    }

    /// The source's label, or `source` when there is none.
    pub fn source_label(&self) -> (r: String)
        ensures
            r@ == source_text(self@),
    {
        match &self.source {
            Some(s) => s.clone(),
            None => String::from_str("source"),
        }
    }
}

/// The message a user is shown for an error.
pub open spec fn error_message(e: ErrorView) -> Seq<char> {
    match e {
        ErrorView::CycleDetected(id) => "Dependency cycle detected while resolving "@ + name_of(id),
        ErrorView::CommandFailed { command, stderr } => "Command `"@ + command + "` failed: "@ + stderr,
        ErrorView::Spawn(m) => "Failed to spawn command: "@ + m,
        ErrorView::UnsafeGuiCommand { id, command } => "GUI application `"@ + name_of(id)
            + "` attempted to run unsafe command `"@ + command
            + "`. Only application binaries should be managed."@,
    }
}

impl ManagerError {
    /// The message a user is shown for this error.
    pub fn message(&self) -> (r: String)
        ensures
            r@ == error_message(self@),
    {
        let mut r;
        match self {
            ManagerError::CycleDetected(id) => {
                r = String::from_str("Dependency cycle detected while resolving ");
                r.append(id.name());
            },
            ManagerError::CommandFailed { command, stderr } => {
                r = String::from_str("Command `");
                r.append(command.as_str());
                r.append("` failed: ");
                r.append(stderr.as_str());
            },
            ManagerError::Spawn(m) => {
                r = String::from_str("Failed to spawn command: ");
                r.append(m.as_str());
            },
            ManagerError::UnsafeGuiCommand { id, command } => {
                r = String::from_str("GUI application `");
                r.append(id.name());
                r.append("` attempted to run unsafe command `");
                r.append(command);
                r.append("`. Only application binaries should be managed.");
            },
        }
        proof {
            assert(r@ =~= error_message(self@));
        }
        r
    }
}

/// A package's presence on the host.
#[derive(Clone, Debug)]
pub enum StatusState {
    Installed { version: Option<String> },
    NotInstalled,
    ManualCheck(String),
    Unknown(String),
}

/// A status with its strings as character sequences.
pub enum StatusView {
    Installed { version: Option<Seq<char>> },
    NotInstalled,
    ManualCheck(Seq<char>),
    Unknown(Seq<char>),
}

impl View for StatusState {
    type V = StatusView;

    open spec fn view(&self) -> StatusView {
        match self {
            StatusState::Installed { version } => StatusView::Installed { version: opt_view(*version) },
            StatusState::NotInstalled => StatusView::NotInstalled,
            StatusState::ManualCheck(n) => StatusView::ManualCheck(n@),
            StatusState::Unknown(n) => StatusView::Unknown(n@),
        }
    }
}

/// A package and its status.
#[derive(Clone, Debug)]
pub struct StatusReport {
    pub id: SoftwareId,
    pub state: StatusState,
}

/// The catalog's dependencies as a graph over declaration positions.
pub open spec fn catalog_edges() -> Seq<Seq<usize>> {
    Seq::new(SOFTWARE_COUNT as nat, |i: int| indices(deps_of(id_at(i))))
}

/// The declaration positions of identifiers.
pub open spec fn indices(ids: Seq<SoftwareId>) -> Seq<usize> {
    ids.map_values(|d: SoftwareId| id_index(d) as usize)
}

/// `order` lists the packages that `roots` need, each once, every one after
/// all of its dependencies.
pub open spec fn install_order_valid(roots: Seq<SoftwareId>, order: Seq<SoftwareId>) -> bool {
    valid_order(catalog_edges(), indices(roots), indices(order))
}

/// No dependency of a catalog package has dependencies of its own.
proof fn lemma_deps_are_leaves(id: SoftwareId, k: int)
    requires
        0 <= k < deps_of(id).len(),
    ensures
        deps_of(deps_of(id)[k]).len() == 0,
{
}

/// The catalog's dependency graph has no cycle.
pub proof fn lemma_catalog_acyclic(x: usize)
    ensures
        !on_cycle(catalog_edges(), x),
{
    let g = catalog_edges();
    if on_cycle(g, x) {
        let c = choose|c: Seq<usize>| crate::resolver::is_walk(g, c) && c[0] == x && #[trigger] g[c.last() as int].contains(x);
        let a = c[0];
        let b = if c.len() == 1 { x } else { c[1] };
        assert(g[a as int].contains(b)) by {
            if c.len() > 1 {
                assert(g[c[0] as int].contains(c[1]));
            }
        }
        let next = if c.len() == 1 { x } else if c.len() == 2 { x } else { c[2] };
        assert(g[b as int].contains(next)) by {
            if c.len() == 2 {
                assert(c.last() == c[1]);
            } else if c.len() > 2 {
                assert(g[c[1] as int].contains(c[2]));
            }
        }
        let ia = id_at(a as int);
        let kk = choose|kk: int| 0 <= kk < g[a as int].len() && #[trigger] g[a as int][kk] == b;
        assert(g[a as int] == indices(deps_of(ia)));
        let d = deps_of(ia)[kk];
        lemma_deps_are_leaves(ia, kk);
        lemma_index_round_trip(d);
        assert(id_index(d) as usize == b);
        assert(id_at(b as int) == d);
        assert(g[b as int] == indices(deps_of(d)));
        assert(g[b as int].len() == 0);
    }
}

/// `order` is what planning `action` on `roots` yields: the resolution of
/// the roots in the catalog graph, put in the order the action visits it.
pub open spec fn planned(roots: Seq<SoftwareId>, action: ActionKind, order: Seq<SoftwareId>) -> bool {
    resolution(catalog_edges(), indices(roots)) == Ok::<Seq<usize>, usize>(
        indices(action_order(order, action)),
    )
}

/// Identifiers with the same positions are the same identifiers.
proof fn lemma_indices_injective(a: Seq<SoftwareId>, b: Seq<SoftwareId>)
    requires
        indices(a) == indices(b),
    ensures
        a == b,
{
    assert(indices(a).len() == a.len());
    assert(indices(b).len() == b.len());
    assert forall|i: int| 0 <= i < a.len() implies a[i] == b[i] by {
        lemma_index_round_trip(a[i]);
        lemma_index_round_trip(b[i]);
        assert(indices(a)[i] == id_index(a[i]) as usize);
        assert(indices(b)[i] == id_index(b[i]) as usize);
        assert(id_index(a[i]) == id_index(b[i]));
        assert(id_at(id_index(a[i]) as int) == a[i]);
    }
    assert(a =~= b);
}

/// For the same roots, the uninstall plan is exactly the install plan
/// reversed: dependents are removed before what they depend on.
pub proof fn lemma_uninstall_plan_reverses_install_plan(
    roots: Seq<SoftwareId>,
    install: Seq<SoftwareId>,
    uninstall: Seq<SoftwareId>,
)
    requires
        planned(roots, ActionKind::Install, install),
        planned(roots, ActionKind::Uninstall, uninstall),
    ensures
        uninstall == install.reverse(),
{
    lemma_indices_injective(install, uninstall.reverse());
    assert(uninstall.reverse().reverse() =~= uninstall);
}

/// The order in which an action visits a resolved plan: uninstalling goes
/// from dependents to dependencies, everything else the other way.
pub open spec fn action_order(order: Seq<SoftwareId>, action: ActionKind) -> Seq<SoftwareId> {
    if action == ActionKind::Uninstall {
        order.reverse()
    } else {
        order
    }
}

fn index_all(ids: &[SoftwareId]) -> (r: Vec<usize>)
    ensures
        r@ == indices(ids@),
        within(catalog_edges(), r@),
{
    let mut r: Vec<usize> = Vec::new();
    let mut i: usize = 0;
    while i < ids.len()
        invariant
            i <= ids@.len(),
            r@ == indices(ids@.subrange(0, i as int)),
            within(catalog_edges(), r@),
        decreases ids@.len() - i,
    {
        r.push(ids[i].index());
        assert(indices(ids@.subrange(0, i + 1)) =~= indices(ids@.subrange(0, i as int)).push(
            id_index(ids@[i as int]) as usize,
        ));
        i += 1;
    }
    assert(ids@.subrange(0, ids@.len() as int) =~= ids@);
    r
}

fn ids_at(v: &Vec<usize>) -> (r: Vec<SoftwareId>)
    requires
        within(catalog_edges(), v@),
    ensures
        indices(r@) == v@,
{
    let mut r: Vec<SoftwareId> = Vec::new();
    let mut i: usize = 0;
    while i < v.len()
        invariant
            i <= v@.len(),
            within(catalog_edges(), v@),
            indices(r@) == v@.subrange(0, i as int),
        decreases v@.len() - i,
    {
        proof {
            assert(v@[i as int] < catalog_edges().len());
            lemma_at_round_trip(v@[i as int] as int);
        }
        let ghost prev = r@;
        r.push(SoftwareId::from_index(v[i]));
        assert(indices(r@) =~= v@.subrange(0, i + 1)) by {
            assert(indices(r@) =~= indices(prev).push(v@[i as int]));
        }
        i += 1;
    }
    assert(v@.subrange(0, v@.len() as int) =~= v@);
    r
}

/// The catalog's dependency graph.
pub fn catalog_graph() -> (g: DependencyGraph)
    ensures
        g@ == catalog_edges(),
        g.well_formed(),
{
    let mut edges: Vec<Vec<usize>> = Vec::new();
    let mut i: usize = 0;
    while i < SOFTWARE_COUNT
        invariant
            i <= SOFTWARE_COUNT,
            edges@.len() == i,
            forall|j: int| 0 <= j < i ==> (#[trigger] edges@[j])@ == catalog_edges()[j],
        decreases SOFTWARE_COUNT - i,
    {
        let id = SoftwareId::from_index(i);
        let deps = id.dependencies();
        edges.push(index_all(deps.as_slice()));
        i += 1;
    }
    let g = DependencyGraph { edges };
    assert(g@ =~= catalog_edges());
    assert forall|i: int, k: int|
        0 <= i < g@.len() && 0 <= k < g@[i].len() implies #[trigger] g@[i][k] < g@.len() by {
        let d = deps_of(id_at(i))[k];
        lemma_index_round_trip(d);
    }
    g
}

fn reversed(v: Vec<SoftwareId>) -> (r: Vec<SoftwareId>)
    ensures
        r@ == v@.reverse(),
{
    let mut r: Vec<SoftwareId> = Vec::new();
    let n = v.len();
    let mut i: usize = n;
    while i > 0
        invariant
            i <= n,
            n == v@.len(),
            r@ == v@.subrange(i as int, n as int).reverse(),
        decreases i,
    {
        i -= 1;
        r.push(v[i]);
        assert(r@ =~= v@.subrange(i as int, n as int).reverse());
    }
    assert(v@.subrange(0, n as int) =~= v@);
    r
}

/// A resolved plan put in the order an action visits it.
pub fn order_for_action(order: Vec<SoftwareId>, action: ActionKind) -> (r: Vec<SoftwareId>)
    ensures
        r@ == action_order(order@, action),
{
    if matches!(action, ActionKind::Uninstall) {
        reversed(order)
    } else {
        order
    }
}

/// The event for a GUI package that is already installed.
pub open spec fn already_installed_event(id: SoftwareId) -> EventView {
    EventView {
        id,
        action: ActionKind::Install,
        command: None,
        source: None,
        note: Some("Already installed; run install --force to reinstall."@),
        skipped: true,
    }
}

/// What a batch asks for next.
pub enum BatchStep {
    /// Detect this package's status and hand it to `status_known`.
    CheckStatus(SoftwareId),
    /// Run this shell command and hand the outcome to `executed`.
    Execute(&'static str),
    /// An internal step was taken; ask again.
    Continue,
    /// The batch is over; `into_result` gives its outcome.
    Finished,
}

/// What one internal step of a batch does, from `o` to `n`, answering `r`.
pub open spec fn next_post(o: BatchRun, n: BatchRun, r: BatchStep) -> bool {
    if o.finished_spec() {
        r is Finished && n == o
    } else if o.current is None {
        if o.awaits_status() {
            &&& r == BatchStep::CheckStatus(o.order@[o.pos as int])
            &&& n.same_progress(o)
            &&& n.current is None
            &&& !n.checked
            &&& n.failure is None
        } else {
            &&& r is Continue
            &&& n.same_progress(o)
            &&& (n.current matches Some(run) && o.starts(run))
            &&& n.checked == o.checked
            &&& n.failure is None
        }
    } else {
        match o.current->Some_0.step_spec() {
            StepView::Execute(c) => (r matches BatchStep::Execute(x) && x@ == c) && n == o,
            StepView::Succeeded(e) => r is Continue && n.moved_on(o, e),
            StepView::Failed(err) => {
                &&& r is Continue
                &&& n.same_progress(o)
                &&& n.current is None
                &&& (n.failure matches Some(f) && f@ == err)
            },
        }
    }
}

/// A batch of one action over a resolved plan, one package at a time: the
/// installed-GUI skip first, then the package's sources. A package that
/// fails ends the batch and the packages after it are not attempted.
pub struct BatchRun {
    pub order: Vec<SoftwareId>,
    pub action: ActionKind,
    pub force: bool,
    pub dry_run: bool,
    pub pos: usize,
    pub events: Vec<ExecutionEvent>,
    /// The walk over the current package's sources, once started.
    pub current: Option<SourceRun>,
    /// Whether the current package's status has been found not installed.
    pub checked: bool,
    /// The error that ended the batch.
    pub failure: Option<ManagerError>,
}

impl BatchRun {
    /// Before the current package is attempted its status must be known:
    /// installing a GUI package that is already there is skipped unless forced.
    pub open spec fn needs_check_spec(&self) -> bool {
        &&& self.pos < self.order@.len()
        &&& self.action == ActionKind::Install
        &&& !self.force
        &&& kind_of(self.order@[self.pos as int]) == SoftwareKind::GuiApplication
    }

    /// The views of the events so far.
    pub open spec fn event_views(&self) -> Seq<EventView> {
        self.events@.map_values(|e: ExecutionEvent| e@)
    }

    pub fn new(order: Vec<SoftwareId>, action: ActionKind, force: bool, dry_run: bool) -> (r: Self)
        ensures
            r.order@ == order@,
            r.action == action,
            r.force == force,
            r.dry_run == dry_run,
            r.pos == 0,
            r.events@.len() == 0,
            r.current is None,
            !r.checked,
            r.failure is None,
    {
        BatchRun {
            order,
            action,
            force,
            dry_run,
            pos: 0,
            events: Vec::new(),
            current: None,
            checked: false,
            failure: None,
        }
    }

    /// The package to attempt next, if any is left.
    pub fn current(&self) -> (r: Option<SoftwareId>)
        ensures
            self.pos < self.order@.len() ==> r == Some(self.order@[self.pos as int]),
            self.pos >= self.order@.len() ==> r is None,
    {
        if self.pos < self.order.len() {
            Some(self.order[self.pos])
        } else {
            None
        }
    }

    pub fn needs_status_check(&self) -> (r: bool)
        ensures
            r == self.needs_check_spec(),
    {
        self.pos < self.order.len() && matches!(self.action, ActionKind::Install) && !self.force
            && self.order[self.pos].kind() == SoftwareKind::GuiApplication
    }

    /// Takes the status of the current package: if it is installed, the
    /// package is skipped with a note and the batch moves on.
    pub fn apply_status(&mut self, state: &StatusState) -> (skipped: bool)
        requires
            old(self).needs_check_spec(),
        ensures
            skipped == (state is Installed),
            skipped ==> final(self).pos == old(self).pos + 1 && final(self).event_views()
                == old(self).event_views().push(
                already_installed_event(old(self).order@[old(self).pos as int]),
            ),
            !skipped ==> final(self).pos == old(self).pos && final(self).event_views()
                == old(self).event_views(),
            final(self).order@ == old(self).order@,
            final(self).action == old(self).action,
            final(self).force == old(self).force,
            final(self).dry_run == old(self).dry_run,
            final(self).current == old(self).current,
            final(self).checked == old(self).checked,
            final(self).failure == old(self).failure,
    {
        match state {
            StatusState::Installed { .. } => {
                let id = self.order[self.pos];
                self.events.push(
                    ExecutionEvent {
                        id,
                        action: ActionKind::Install,
                        command: None,
                        source: None,
                        note: Some(String::from_str("Already installed; run install --force to reinstall.")),
                        skipped: true,
                    },
                );
                let n = self.order.len();
                assert(self.pos < n);
                self.pos = self.pos + 1;
                assert(self.event_views() =~= old(self).event_views().push(
                    already_installed_event(id),
                ));
                true
            },
            _ => false,
        }
    }

    /// The walk over the current package's sources for this batch's action.
    pub fn source_run(&self) -> (r: SourceRun)
        requires
            self.pos < self.order@.len(),
        ensures
            r.id == self.order@[self.pos as int],
            r.kind == kind_of(r.id),
            r.action == self.action,
            r.dry_run == self.dry_run,
            r.next == 0,
            r.last_error is None,
            self.action == ActionKind::Test ==> r.sources@.len() == 0,
            self.action == ActionKind::Install ==> sources_built(
                r.sources@,
                install_recipe_of(r.id),
                extra_install_of(r.id),
            ),
            self.action == ActionKind::Update ==> sources_built(
                r.sources@,
                update_recipe_of(r.id),
                Seq::empty(),
            ),
            self.action == ActionKind::Uninstall ==> sources_built(
                r.sources@,
                uninstall_recipe_of(r.id),
                Seq::empty(),
            ),
    {
        let e = entry(self.order[self.pos]);
        SourceRun::for_entry(&e, self.action, self.dry_run)
    }

    /// Records the event that ended the current package's walk.
    pub fn complete(&mut self, event: ExecutionEvent)
        requires
            old(self).pos < old(self).order@.len(),
        ensures
            final(self).pos == old(self).pos + 1,
            final(self).event_views() == old(self).event_views().push(event@),
            final(self).current == old(self).current,
            final(self).checked == old(self).checked,
            final(self).failure == old(self).failure,
            final(self).order@ == old(self).order@,
            final(self).action == old(self).action,
            final(self).force == old(self).force,
            final(self).dry_run == old(self).dry_run,
    {
        let ghost ev = event@;
        self.events.push(event);
        let n = self.order.len();
        self.pos = self.pos + 1;
        assert(self.event_views() =~= old(self).event_views().push(ev));
    }

    /// Whether every package of the plan has been dealt with.
    pub fn is_done(&self) -> (r: bool)
        ensures
            r == (self.pos >= self.order@.len()),
    {
        self.pos >= self.order.len()
    }

    /// Whether an event goes to the history: only what really ran.
    pub fn should_record(&self, event: &ExecutionEvent) -> (r: bool)
        ensures
            r == (!self.dry_run && !event.skipped),
    {
        !self.dry_run && !event.skipped
    }

    /// The batch is over: a package failed, or every package is dealt with.
    pub open spec fn finished_spec(&self) -> bool {
        self.failure is Some || self.pos >= self.order@.len()
    }

    /// The current package's status is still to be detected.
    pub open spec fn awaits_status(&self) -> bool {
        &&& !self.finished_spec()
        &&& self.current is None
        &&& self.needs_check_spec()
        &&& !self.checked
    }

    /// `run` is the walk a batch starts for its current package.
    pub open spec fn starts(&self, run: SourceRun) -> bool {
        &&& run.id == self.order@[self.pos as int]
        &&& run.kind == kind_of(run.id)
        &&& run.action == self.action
        &&& run.dry_run == self.dry_run
        &&& run.next == 0
        &&& run.last_error is None
        &&& self.action == ActionKind::Test ==> run.sources@.len() == 0
        &&& self.action == ActionKind::Install ==> sources_built(
            run.sources@,
            install_recipe_of(run.id),
            extra_install_of(run.id),
        )
        &&& self.action == ActionKind::Update ==> sources_built(
            run.sources@,
            update_recipe_of(run.id),
            Seq::empty(),
        )
        &&& self.action == ActionKind::Uninstall ==> sources_built(
            run.sources@,
            uninstall_recipe_of(run.id),
            Seq::empty(),
        )
    }

    /// Everything but the walk, the check and the failure is as in `o`.
    pub open spec fn same_progress(&self, o: BatchRun) -> bool {
        &&& self.order@ == o.order@
        &&& self.action == o.action
        &&& self.force == o.force
        &&& self.dry_run == o.dry_run
        &&& self.pos == o.pos
        &&& self.event_views() == o.event_views()
    }

    /// `self` is `o` with one more package done, ending with event `e`.
    pub open spec fn moved_on(&self, o: BatchRun, e: EventView) -> bool {
        &&& self.order@ == o.order@
        &&& self.action == o.action
        &&& self.force == o.force
        &&& self.dry_run == o.dry_run
        &&& self.pos == o.pos + 1
        &&& self.event_views() == o.event_views().push(e)
        &&& self.current is None
        &&& !self.checked
        &&& self.failure is None
    }

    /// Takes the next internal step, or says what the caller must do.
    pub fn next(&mut self) -> (r: BatchStep)
        ensures
            next_post(*old(self), *final(self), r),
    {
        if self.failure.is_some() || self.pos >= self.order.len() {
            return BatchStep::Finished;
        }
        match self.current.take() {
            None => {
                if self.needs_status_check() && !self.checked {
                    return BatchStep::CheckStatus(self.order[self.pos]);
                }
                let run = self.source_run();
                self.current = Some(run);
                BatchStep::Continue
            },
            Some(run) => {
                match run.step() {
                    SourceStep::Execute(cmd) => {
                        self.current = Some(run);
                        BatchStep::Execute(cmd)
                    },
                    SourceStep::Finished(Ok(event)) => {
                        let ghost ev = event@;
                        self.events.push(event);
                        self.pos = self.pos + 1;
                        self.checked = false;
                        assert(self.event_views() =~= old(self).event_views().push(ev));
                        BatchStep::Continue
                    },
                    SourceStep::Finished(Err(err)) => {
                        self.failure = Some(err);
                        BatchStep::Continue
                    },
                }
            },
        }
    }

    /// Takes the status asked for: an installed package is skipped with a
    /// note and the batch moves on; otherwise its sources come next.
    pub fn status_known(&mut self, state: &StatusState)
        requires
            old(self).awaits_status(),
        ensures
            state is Installed ==> final(self).moved_on(
                *old(self),
                already_installed_event(old(self).order@[old(self).pos as int]),
            ),
            !(state is Installed) ==> final(self).same_progress(*old(self)) && final(self).checked
                && final(self).current is None && final(self).failure is None,
    {
        if !self.apply_status(state) {
            self.checked = true;
        }
    }

    /// Takes the outcome of the command asked for: success ends the
    /// package with an event; failure moves its walk to the next source.
    pub fn executed(&mut self, outcome: Result<(), ManagerError>)
        requires
            !old(self).finished_spec(),
            old(self).current matches Some(run) && run.step_spec() is Execute,
        ensures
            outcome is Ok ==> final(self).moved_on(*old(self), old(self).current->Some_0.success_event()),
            outcome matches Err(e) ==> final(self).same_progress(*old(self)) && final(self).current
                == Some(old(self).current->Some_0.after_failure(e)) && final(self).checked
                == old(self).checked && final(self).failure is None,
    {
        let mut run = self.current.take().unwrap();
        let n = self.order.len();
        match outcome {
            Ok(()) => {
                let event = run.record_success();
                let ghost ev = event@;
                self.events.push(event);
                self.pos = self.pos + 1;
                self.checked = false;
                assert(self.event_views() =~= old(self).event_views().push(ev));
            },
            Err(e) => {
                run.record_failure(e);
                self.current = Some(run);
            },
        }
    }

    /// The outcome of a finished batch: its events, or the error that ended it.
    pub fn into_result(self) -> (r: Result<Vec<ExecutionEvent>, ManagerError>)
        requires
            self.finished_spec(),
        ensures
            self.failure is None ==> (r matches Ok(v) && v@ == self.events@),
            self.failure matches Some(e) ==> (r matches Err(x) && x@ == e@),
    {
        match self.failure {
            Some(e) => Err(e),
            None => Ok(self.events),
        }
    }

    /// The events of the batch.
    pub fn into_events(self) -> (r: Vec<ExecutionEvent>)
        ensures
            r@ == self.events@,
    {
        self.events
    }
}

/// A package whose walk fails ends its batch: the packages after it are not
/// attempted, and every later step reports the batch finished.
pub proof fn lemma_failure_ends_batch(o: BatchRun, n: BatchRun, r: BatchStep, n2: BatchRun, r2: BatchStep)
    requires
        !o.finished_spec(),
        o.current matches Some(run) && run.step_spec() is Failed,
        next_post(o, n, r),
        next_post(n, n2, r2),
    ensures
        n.finished_spec(),
        n.pos == o.pos,
        r2 is Finished,
        n2.pos == o.pos,
{
}

/// A dry-run batch never asks for a command to be executed.
pub proof fn lemma_dry_run_batch_runs_nothing(o: BatchRun, n: BatchRun, r: BatchStep)
    requires
        o.dry_run,
        o.current matches Some(run) ==> run.dry_run,
        next_post(o, n, r),
    ensures
        !(r is Execute),
        n.current matches Some(run) ==> run.dry_run,
{
    if o.current is Some {
        lemma_dry_run_runs_nothing(o.current->Some_0);
    }
}

/// Before a GUI package is installed without force, the batch asks for its
/// status; with force it goes straight to the package's sources.
pub proof fn lemma_gui_install_checks_status_first(b: BatchRun)
    requires
        !b.finished_spec(),
        b.current is None,
        !b.checked,
        b.action == ActionKind::Install,
        kind_of(b.order@[b.pos as int]) == SoftwareKind::GuiApplication,
    ensures
        !b.force ==> b.awaits_status(),
        b.force ==> !b.awaits_status(),
{
}

/// A GUI package's walk, not started, whose only source is a shell command
/// that is not a cask command.
pub open spec fn lone_unsafe_source(run: SourceRun, cmd: &'static str) -> bool {
    &&& run.kind == SoftwareKind::GuiApplication
    &&& run.sources@.len() == 1
    &&& run.next == 0
    &&& run.sources@[0].recipe == CommandRecipe::Shell(cmd)
    &&& !is_cask_command(cmd@)
}

/// In a batch, a GUI package whose walk has a single shell source that is
/// not a cask command ends the batch with `UnsafeGuiCommand`, whatever the
/// dry-run and force flags: nothing is asked to run, and the next step
/// reports the batch finished.
pub proof fn lemma_unsafe_gui_command_ends_batch(
    o: BatchRun,
    n: BatchRun,
    r: BatchStep,
    n2: BatchRun,
    r2: BatchStep,
    cmd: &'static str,
)
    requires
        !o.finished_spec(),
        o.current is Some,
        lone_unsafe_source(o.current->Some_0, cmd),
        next_post(o, n, r),
        next_post(n, n2, r2),
    ensures
        !(r is Execute),
        n.failure is Some,
        n.failure->Some_0@ == (ErrorView::UnsafeGuiCommand { id: o.current->Some_0.id, command: cmd@ }),
        n.pos == o.pos,
        r2 is Finished,
{
    lemma_unsafe_gui_command_refused(o.current->Some_0, cmd);
}

/// Plans and prepares batches under two orthogonal flags: `dry_run` runs
/// nothing, and `force` reinstalls GUI packages that are already there.
pub struct SoftwareManager {
    pub dry_run: bool,
    pub force: bool,
}

impl SoftwareManager {
    pub fn new() -> (r: Self)
        ensures
            !r.dry_run,
            !r.force,
    {
        SoftwareManager { dry_run: false, force: false }
    }

    pub fn with_flags(dry_run: bool, force: bool) -> (r: Self)
        ensures
            r.dry_run == dry_run,
            r.force == force,
    {
        SoftwareManager { dry_run, force }
    }

    /// Every package the roots need, each after its dependencies.
    pub fn resolve_order(&self, roots: &[SoftwareId]) -> (r: Result<Vec<SoftwareId>, ManagerError>)
        ensures
            r matches Ok(o) ==> install_order_valid(roots@, o@),
            r matches Ok(o) ==> planned(roots@, ActionKind::Install, o@),
            r is Ok,
    {
        let g = catalog_graph();
        let idx = index_all(roots);
        match g.resolve(&idx) {
            Ok(order) => {
                proof {
                    assert(within(catalog_edges(), order@)) by {
                        assert forall|i: int| 0 <= i < order@.len() implies #[trigger] order@[i]
                            < catalog_edges().len() by {
                            assert(order@.contains(order@[i]));
                            let x = order@[i];
                            let p = choose|p: Seq<usize>| crate::resolver::is_walk(catalog_edges(), p)
                                && idx@.contains(p[0]) && #[trigger] p.last() == x;
                            assert(p[p.len() - 1] < catalog_edges().len());
                        }
                    }
                }
                let ids = ids_at(&order);
                Ok(ids)
            },
            Err(x) => {
                proof {
                    lemma_catalog_acyclic(x);
                    let c = choose|c: Seq<usize>| crate::resolver::is_walk(catalog_edges(), c) && c[0] == x
                        && #[trigger] catalog_edges()[c.last() as int].contains(x);
                    assert(c[0] < catalog_edges().len());
                    lemma_at_round_trip(x as int);
                }
                Err(ManagerError::CycleDetected(SoftwareId::from_index(x)))
            },
        }
    }

    /// The resolved plan in the order the action visits it.
    pub fn plan(&self, ids: &[SoftwareId], action: ActionKind) -> (r: Result<
        Vec<SoftwareId>,
        ManagerError,
    >)
        ensures
            r matches Ok(o) ==> install_order_valid(ids@, action_order(o@, action)),
            r matches Ok(o) ==> planned(ids@, action, o@),
            r is Ok,
    {
        match self.resolve_order(ids) {
            Ok(order) => {
                let ghost base = order@;
                let r = order_for_action(order, action);
                proof {
                    if action == ActionKind::Uninstall {
                        assert(base.reverse().reverse() =~= base);
                    }
                }
                Ok(r)
            },
            Err(e) => Err(e),
        }
    }

    /// Prepares the batch that installs one package and what it needs.
    pub fn install(&self, id: SoftwareId) -> (r: Result<BatchRun, ManagerError>)
        ensures
            r matches Ok(b) ==> {
                &&& install_order_valid(seq![id], action_order(b.order@, ActionKind::Install))
                &&& planned(seq![id], ActionKind::Install, b.order@)
                &&& b.action == ActionKind::Install
                &&& b.force == self.force
                &&& b.dry_run == self.dry_run
                &&& b.pos == 0
                &&& b.events@.len() == 0
                &&& b.current is None
                &&& !b.checked
                &&& b.failure is None
            },
            r is Ok,
    {
        let ids = [id];
        assert(ids@ =~= seq![id]);
        self.batch(ids.as_slice(), ActionKind::Install)
    }

    /// Prepares the batch that installs these packages and what they need.
    pub fn install_many(&self, ids: &[SoftwareId]) -> (r: Result<BatchRun, ManagerError>)
        ensures
            r matches Ok(b) ==> {
                &&& install_order_valid(ids@, action_order(b.order@, ActionKind::Install))
                &&& planned(ids@, ActionKind::Install, b.order@)
                &&& b.action == ActionKind::Install
                &&& b.force == self.force
                &&& b.dry_run == self.dry_run
                &&& b.pos == 0
                &&& b.events@.len() == 0
                &&& b.current is None
                &&& !b.checked
                &&& b.failure is None
            },
            r is Ok,
    {
        self.batch(ids, ActionKind::Install)
    }

    /// Prepares the batch that updates one package and what it needs.
    pub fn update(&self, id: SoftwareId) -> (r: Result<BatchRun, ManagerError>)
        ensures
            r matches Ok(b) ==> {
                &&& install_order_valid(seq![id], action_order(b.order@, ActionKind::Update))
                &&& planned(seq![id], ActionKind::Update, b.order@)
                &&& b.action == ActionKind::Update
                &&& b.force == self.force
                &&& b.dry_run == self.dry_run
                &&& b.pos == 0
                &&& b.events@.len() == 0
                &&& b.current is None
                &&& !b.checked
                &&& b.failure is None
            },
            r is Ok,
    {
        let ids = [id];
        assert(ids@ =~= seq![id]);
        self.batch(ids.as_slice(), ActionKind::Update)
    }

    /// Prepares the batch that updates these packages and what they need.
    pub fn update_many(&self, ids: &[SoftwareId]) -> (r: Result<BatchRun, ManagerError>)
        ensures
            r matches Ok(b) ==> {
                &&& install_order_valid(ids@, action_order(b.order@, ActionKind::Update))
                &&& planned(ids@, ActionKind::Update, b.order@)
                &&& b.action == ActionKind::Update
                &&& b.force == self.force
                &&& b.dry_run == self.dry_run
                &&& b.pos == 0
                &&& b.events@.len() == 0
                &&& b.current is None
                &&& !b.checked
                &&& b.failure is None
            },
            r is Ok,
    {
        self.batch(ids, ActionKind::Update)
    }

    /// Prepares the batch that uninstalls one package and what it needs.
    pub fn uninstall(&self, id: SoftwareId) -> (r: Result<BatchRun, ManagerError>)
        ensures
            r matches Ok(b) ==> {
                &&& install_order_valid(seq![id], action_order(b.order@, ActionKind::Uninstall))
                &&& planned(seq![id], ActionKind::Uninstall, b.order@)
                &&& b.action == ActionKind::Uninstall
                &&& b.force == self.force
                &&& b.dry_run == self.dry_run
                &&& b.pos == 0
                &&& b.events@.len() == 0
                &&& b.current is None
                &&& !b.checked
                &&& b.failure is None
            },
            r is Ok,
    {
        let ids = [id];
        assert(ids@ =~= seq![id]);
        self.batch(ids.as_slice(), ActionKind::Uninstall)
    }

    /// Prepares the batch that uninstalls these packages and what they need.
    pub fn uninstall_many(&self, ids: &[SoftwareId]) -> (r: Result<BatchRun, ManagerError>)
        ensures
            r matches Ok(b) ==> {
                &&& install_order_valid(ids@, action_order(b.order@, ActionKind::Uninstall))
                &&& planned(ids@, ActionKind::Uninstall, b.order@)
                &&& b.action == ActionKind::Uninstall
                &&& b.force == self.force
                &&& b.dry_run == self.dry_run
                &&& b.pos == 0
                &&& b.events@.len() == 0
                &&& b.current is None
                &&& !b.checked
                &&& b.failure is None
            },
            r is Ok,
    {
        self.batch(ids, ActionKind::Uninstall)
    }

    fn batch(&self, ids: &[SoftwareId], action: ActionKind) -> (r: Result<BatchRun, ManagerError>)
        ensures
            r matches Ok(b) ==> {
                &&& install_order_valid(ids@, action_order(b.order@, action))
                &&& planned(ids@, action, b.order@)
                &&& b.action == action
                &&& b.force == self.force
                &&& b.dry_run == self.dry_run
                &&& b.pos == 0
                &&& b.events@.len() == 0
                &&& b.current is None
                &&& !b.checked
                &&& b.failure is None
            },
            r is Ok,
    {
        match self.plan(ids, action) {
            Ok(order) => Ok(BatchRun::new(order, action, self.force, self.dry_run)),
            Err(e) => Err(e),
        }
    }
}

/// A dry run never asks for a command to be executed, and whatever event it
/// ends with is marked skipped.
pub proof fn lemma_dry_run_runs_nothing(run: SourceRun)
    requires
        run.dry_run,
    ensures
        !(run.step_spec() is Execute),
        run.step_spec() matches StepView::Succeeded(e) ==> e.skipped,
{
}

/// A GUI package whose only source is a shell command that is not a cask
/// command ends with `UnsafeGuiCommand`, dry run or not, before anything runs.
pub proof fn lemma_unsafe_gui_command_refused(run: SourceRun, cmd: &'static str)
    requires
        run.kind == SoftwareKind::GuiApplication,
        run.sources@.len() == 1,
        run.next == 0,
        run.sources@[0].recipe == CommandRecipe::Shell(cmd),
        !is_cask_command(cmd@),
    ensures
        run.step_spec() == StepView::Failed(
            ErrorView::UnsafeGuiCommand { id: run.id, command: cmd@ },
        ),
{
}

/// Installing a GUI package without force waits for its status, and an
/// installed status skips it with a single event; with force no status is
/// asked for and, outside a dry run, the first cask command is executed.
pub proof fn lemma_installed_gui_policy(b: BatchRun, run: SourceRun, cmd: &'static str)
    requires
        b.pos < b.order@.len(),
        b.action == ActionKind::Install,
        kind_of(b.order@[b.pos as int]) == SoftwareKind::GuiApplication,
        run.kind == SoftwareKind::GuiApplication,
        run.sources@.len() > 0,
        run.next == 0,
        !run.dry_run,
        run.sources@[0].recipe == CommandRecipe::Shell(cmd),
        is_cask_command(cmd@),
    ensures
        !b.force ==> b.needs_check_spec(),
        b.force ==> !b.needs_check_spec(),
        run.step_spec() == StepView::Execute(cmd@),
{
}

/// With sources `[a, b]` where `a` fails and `b` succeeds, the walk asks for
/// `a`, then for `b`, and ends with an event that names `b`'s label.
pub proof fn lemma_fallback_to_next_source(
    run: SourceRun,
    a: &'static str,
    b: &'static str,
    err: ManagerError,
)
    requires
        run.sources@.len() == 2,
        run.next == 0,
        !run.dry_run,
        run.sources@[0].recipe == CommandRecipe::Shell(a),
        run.sources@[1].recipe == CommandRecipe::Shell(b),
        guard_allows(run.kind, a@),
        guard_allows(run.kind, b@),
    ensures
        run.step_spec() == StepView::Execute(a@),
        run.after_failure(err).step_spec() == StepView::Execute(b@),
        run.after_failure(err).success_event().source == Some(run.sources@[1].label@),
        run.after_failure(err).success_event().command == Some(b@),
        !run.after_failure(err).success_event().skipped,
{
}

} // verus!
