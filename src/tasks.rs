//! The task queue between a front end and its single background worker:
//! numbered requests taken in submission order, progress events delivered in
//! the order they were sent and closed by a completion, and the bounded task
//! logs the front end keeps.

use crate::catalog::SoftwareId;
use crate::manager::{ActionKind, StatusReport};
use crate::text::same_text;
use vstd::prelude::*;
use vstd::string::*;

verus! {

/// The most lines a task log keeps.
pub const MAX_TASK_LOG_LINES: usize = 5;

/// The most task logs shown at once.
pub const MAX_TASKS: usize = 4;

/// The most lines the general activity log keeps.
pub const MAX_LOG_ENTRIES: usize = 6;

/// The work a task asks for.
pub enum TaskAction {
    /// One action over a list of packages and everything they need.
    TemplateFlow { action: ActionKind, software: Vec<SoftwareId>, force: bool, dry_run: bool },
    /// A status refresh of every package.
    Versions,
    /// Install, update and remove one package, each step enabled on its own.
    E2EFlow { software: SoftwareId, install_enabled: bool, update_enabled: bool, remove_enabled: bool },
}

/// A queued unit of work.
pub struct TaskRequest {
    pub id: u64,
    pub label: String,
    pub action: TaskAction,
}

/// The requests waiting for the worker, in submission order, and the
/// identity the next one will get.
pub struct TaskQueue {
    pub next_id: u64,
    pub pending: Vec<TaskRequest>,
}

impl TaskQueue {
    /// Identities grow with submission order and none has been handed out
    /// beyond `next_id`.
    pub open spec fn well_formed(&self) -> bool {
        &&& self.next_id >= 1
        &&& forall|i: int, j: int|
            0 <= i < j < self.pending@.len() ==> self.pending@[i].id < self.pending@[j].id
        &&& forall|i: int| 0 <= i < self.pending@.len() ==> #[trigger] self.pending@[i].id < self.next_id
    }

    pub fn new() -> (r: Self)
        ensures
            r.well_formed(),
            r.next_id == 1,
            r.pending@.len() == 0,
    {
        TaskQueue { next_id: 1, pending: Vec::new() }
    }

    /// Queues a request under a fresh identity, larger than every identity
    /// handed out before, and returns that identity.
    pub fn submit(&mut self, label: String, action: TaskAction) -> (id: u64)
        requires
            old(self).well_formed(),
            old(self).next_id < u64::MAX,
        ensures
            final(self).well_formed(),
            id == old(self).next_id,
            final(self).next_id == id + 1,
            final(self).pending@.len() == old(self).pending@.len() + 1,
            final(self).pending@.drop_last() == old(self).pending@,
            final(self).pending@.last().id == id,
            final(self).pending@.last().label@ == label@,
            final(self).pending@.last().action == action,
    {
        let id = self.next_id;
        self.pending.push(TaskRequest { id, label, action });
        self.next_id = id + 1;
        assert(self.pending@.drop_last() =~= old(self).pending@);
        id
    }

    /// Hands the oldest waiting request to the worker.
    pub fn take(&mut self) -> (r: Option<TaskRequest>)
        requires
            old(self).well_formed(),
        ensures
            final(self).well_formed(),
            final(self).next_id == old(self).next_id,
            old(self).pending@.len() == 0 ==> r is None && final(self).pending@ == old(self).pending@,
            old(self).pending@.len() > 0 ==> r == Some(old(self).pending@[0]) && final(self).pending@
                == old(self).pending@.drop_first(),
    {
        if self.pending.len() == 0 {
            None
        } else {
            let r = self.pending.remove(0);
            assert(self.pending@ =~= old(self).pending@.drop_first());
            Some(r)
        }
    }
}

/// The characters of each string.
pub open spec fn string_views(v: Seq<String>) -> Seq<Seq<char>> {
    v.map_values(|s: String| s@)
}

/// A batch of progress messages from the worker for one task; a batch with
/// a status snapshot, or one whose last message is `done`, completes it.
pub struct TaskEvent {
    pub id: u64,
    pub label: String,
    pub messages: Vec<String>,
    pub statuses: Option<Vec<StatusReport>>,
}

/// A task event with its strings as character sequences.
pub struct TaskEventView {
    pub id: u64,
    pub label: Seq<char>,
    pub messages: Seq<Seq<char>>,
    pub has_statuses: bool,
}

impl View for TaskEvent {
    type V = TaskEventView;

    open spec fn view(&self) -> TaskEventView {
        TaskEventView {
            id: self.id,
            label: self.label@,
            messages: string_views(self.messages@),
            has_statuses: self.statuses is Some,
        }
    }
}

/// The event marks its task complete.
pub open spec fn completes(e: TaskEventView) -> bool {
    e.has_statuses || (e.messages.len() > 0 && e.messages.last() == "done"@)
}

impl TaskEvent {
    /// Whether this event marks its task complete.
    pub fn is_completion(&self) -> (r: bool)
        ensures
            r == completes(self@),
    {
        if self.statuses.is_some() {
            return true;
        }
        let n = self.messages.len();
        if n == 0 {
            return false;
        }
        same_text(self.messages[n - 1].as_str(), "done")
    }
}

/// A first-in, first-out channel held in one thread: what was sent and not
/// yet taken, oldest first. It states the order the front end relies on; a
/// front end that crosses threads uses a channel of its own with the same
/// order, such as std's `mpsc`, and hands what it drains to `receive_all`.
pub struct EventChannel {
    pub pending: Vec<TaskEvent>,
}

/// The views of a sequence of events.
pub open spec fn event_views(s: Seq<TaskEvent>) -> Seq<TaskEventView> {
    s.map_values(|e: TaskEvent| e@)
}

impl EventChannel {
    pub fn new() -> (r: Self)
        ensures
            r.pending@.len() == 0,
    {
        EventChannel { pending: Vec::new() }
    }

    /// Sends an event behind everything sent before.
    pub fn send(&mut self, event: TaskEvent)
        ensures
            event_views(final(self).pending@) == event_views(old(self).pending@).push(event@),
    {
        let ghost ev = event@;
        self.pending.push(event);
        assert(event_views(self.pending@) =~= event_views(old(self).pending@).push(ev));
    }

    /// Takes, without waiting, everything sent so far, in the order sent.
    pub fn poll(&mut self) -> (r: Vec<TaskEvent>)
        ensures
            r@ == old(self).pending@,
            final(self).pending@.len() == 0,
    {
        let mut out: Vec<TaskEvent> = Vec::new();
        std::mem::swap(&mut out, &mut self.pending);
        out
    }
}

/// The worker's side of one task: progress batches, then one completion.
pub struct TaskEmitter {
    pub id: u64,
    pub label: String,
    pub finished: bool,
}

impl TaskEmitter {
    /// Starts emitting for a request the worker has taken.
    pub fn for_request(request: &TaskRequest) -> (r: Self)
        ensures
            r.id == request.id,
            r.label@ == request.label@,
            !r.finished,
    {
        TaskEmitter { id: request.id, label: request.label.clone(), finished: false }
    }

    /// A progress batch for the request being worked on.
    pub fn progress(&self, messages: Vec<String>) -> (e: TaskEvent)
        requires
            !self.finished,
        ensures
            e@.id == self.id,
            e@.label == self.label@,
            e@.messages == string_views(messages@),
            !e@.has_statuses,
    {
        TaskEvent { id: self.id, label: self.label.clone(), messages, statuses: None }
    }

    /// The batch that completes the request: the messages followed by `done`,
    /// with the status snapshot if there is one.
    pub fn finish(&mut self, messages: Vec<String>, statuses: Option<Vec<StatusReport>>) -> (e: TaskEvent)
        requires
            !old(self).finished,
        ensures
            final(self).finished,
            final(self).id == old(self).id,
            e@.id == old(self).id,
            e@.label == old(self).label@,
            e@.messages == string_views(messages@).push("done"@),
            e@.has_statuses == (statuses is Some),
            completes(e@),
    {
        let mut messages = messages;
        let ghost before = messages@;
        messages.push(String::from_str("done"));
        assert(string_views(messages@) =~= string_views(before).push("done"@));
        self.finished = true;
        TaskEvent { id: self.id, label: self.label.clone(), messages, statuses }
    }
}

/// Events sent on an empty `EventChannel` are taken by a poll exactly as
/// sent; if the last one a task sent completes it, the poller sees that
/// completion. This is a fact about this channel type, not about a channel
/// between threads.
pub proof fn lemma_events_observed_in_order(c0: EventChannel, sent: Seq<TaskEvent>, c1: EventChannel)
    requires
        c0.pending@.len() == 0,
        event_views(c1.pending@) == event_views(c0.pending@) + event_views(sent),
        sent.len() > 0,
        completes(sent.last()@),
    ensures
        event_views(c1.pending@) == event_views(sent),
        completes(event_views(c1.pending@).last()),
{
    assert(event_views(c0.pending@) =~= Seq::<TaskEventView>::empty());
    assert(event_views(c0.pending@) + event_views(sent) =~= event_views(sent));
}

/// The last `cap` elements of `s`, or all of it if it is shorter.
pub open spec fn keep_last<A>(s: Seq<A>, cap: nat) -> Seq<A> {
    if s.len() > cap {
        s.subrange(s.len() - cap, s.len() as int)
    } else {
        s
    }
}

/// Drops the oldest lines beyond the cap.
pub fn trim_to(lines: &mut Vec<String>, cap: usize)
    ensures
        final(lines)@ == keep_last(old(lines)@, cap as nat),
{
    if lines.len() > cap {
        let excess = lines.len() - cap;
        let tail = lines.split_off(excess);
        *lines = tail;
    }
}

/// Drops the oldest lines of a task log beyond its cap.
pub fn trim_lines(lines: &mut Vec<String>)
    ensures
        final(lines)@ == keep_last(old(lines)@, MAX_TASK_LOG_LINES as nat),
{
    trim_to(lines, MAX_TASK_LOG_LINES)
}

/// Appends a line to the activity log, dropping the oldest beyond its cap.
pub fn push_log_line(log: &mut Vec<String>, line: String)
    ensures
        final(log)@ == keep_last(old(log)@.push(line), MAX_LOG_ENTRIES as nat),
{
    log.push(line);
    trim_to(log, MAX_LOG_ENTRIES);
}

/// The lines shown for one task.
#[derive(Clone, Debug)]
pub struct TaskLog {
    pub id: u64,
    pub label: String,
    pub lines: Vec<String>,
}

/// A task log with its strings as character sequences.
pub struct LogView {
    pub id: u64,
    pub label: Seq<char>,
    pub lines: Seq<Seq<char>>,
}

impl View for TaskLog {
    type V = LogView;

    open spec fn view(&self) -> LogView {
        LogView { id: self.id, label: self.label@, lines: string_views(self.lines@) }
    }
}

/// The views of a sequence of task logs.
pub open spec fn log_views(s: Seq<TaskLog>) -> Seq<LogView> {
    s.map_values(|t: TaskLog| t@)
}

/// Some log of `b` belongs to task `id`.
pub open spec fn has_log(b: Seq<LogView>, id: u64) -> bool {
    exists|k: int| 0 <= k < b.len() && b[k].id == id
}

/// The position of task `id`'s log in `b`.
pub open spec fn log_pos(b: Seq<LogView>, id: u64) -> int {
    choose|k: int| 0 <= k < b.len() && b[k].id == id
}

/// Logs with distinct tasks, no more than the cap of them.
pub open spec fn board_wf(b: Seq<LogView>) -> bool {
    &&& b.len() <= MAX_TASKS
    &&& forall|i: int, j: int| 0 <= i < b.len() && 0 <= j < b.len() && i != j ==> b[i].id != b[j].id
}

/// The logs after one line for task `id`: appended to its log, or, for a new
/// task, a new log at the end, the oldest log leaving if the cap is reached.
pub open spec fn board_add(b: Seq<LogView>, id: u64, label: Seq<char>, line: Seq<char>) -> Seq<
    LogView,
> {
    if has_log(b, id) {
        let k = log_pos(b, id);
        b.update(
            k,
            LogView { lines: keep_last(b[k].lines.push(line), MAX_TASK_LOG_LINES as nat), ..b[k] },
        )
    } else {
        let kept = if b.len() >= MAX_TASKS {
            b.drop_first()
        } else {
            b
        };
        kept.push(LogView { id, label, lines: seq![line] })
    }
}

/// The logs after a batch of messages for task `id`; a task not shown yet
/// first gets a log that says it was queued.
pub open spec fn board_append(b: Seq<LogView>, id: u64, label: Seq<char>, msgs: Seq<Seq<char>>) -> Seq<
    LogView,
> {
    if msgs.len() == 0 {
        b
    } else {
        let b1 = if has_log(b, id) {
            b
        } else {
            board_add(b, id, label, queued_line(label))
        };
        let k = log_pos(b1, id);
        b1.update(
            k,
            LogView { lines: keep_last(b1[k].lines + msgs, MAX_TASK_LOG_LINES as nat), ..b1[k] },
        )
    }
}

/// The placeholder line of a task that is not shown yet.
pub open spec fn queued_line(label: Seq<char>) -> Seq<char> {
    "task queued: "@ + label
}

/// The logs after one event from the worker.
pub open spec fn board_received(b: Seq<LogView>, e: TaskEventView) -> Seq<LogView> {
    let b1 = board_append(b, e.id, e.label, e.messages);
    if e.has_statuses && has_log(b1, e.id) {
        board_add(b1, e.id, e.label, "done"@)
    } else {
        b1
    }
}

/// The logs after a run of events from the worker, taken in order.
pub open spec fn board_after(b: Seq<LogView>, evs: Seq<TaskEventView>) -> Seq<LogView>
    decreases evs.len(),
{
    if evs.len() == 0 {
        b
    } else {
        board_received(board_after(b, evs.drop_last()), evs.last())
    }
}

/// Keeping the last elements commutes with taking views.
proof fn lemma_keep_last_views(s: Seq<String>, cap: nat)
    ensures
        string_views(keep_last(s, cap)) == keep_last(string_views(s), cap),
{
    assert(string_views(keep_last(s, cap)) =~= keep_last(string_views(s), cap));
}

/// The task logs a front end shows, oldest first.
pub struct TaskBoard {
    pub logs: Vec<TaskLog>,
}

impl TaskBoard {
    /// The logs as views.
    pub open spec fn board(&self) -> Seq<LogView> {
        log_views(self.logs@)
    }

    pub fn new() -> (r: Self)
        ensures
            r.board().len() == 0,
            board_wf(r.board()),
    {
        TaskBoard { logs: Vec::new() }
    }

    /// The position of task `id`'s log, if it has one.
    pub fn find(&self, id: u64) -> (r: Option<usize>)
        requires
            board_wf(self.board()),
        ensures
            r is None <==> !has_log(self.board(), id),
            r matches Some(k) ==> k == log_pos(self.board(), id) && k < self.board().len(),
    {
        let mut i: usize = 0;
        while i < self.logs.len()
            invariant
                i <= self.logs@.len(),
                board_wf(self.board()),
                forall|j: int| 0 <= j < i ==> (#[trigger] self.logs@[j]).id != id,
            decreases self.logs@.len() - i,
        {
            if self.logs[i].id == id {
                proof {
                    let b = self.board();
                    assert(b[i as int].id == id);
                    let k = log_pos(b, id);
                    assert(b[k].id == id);
                    assert(0 <= k < b.len());
                    assert(board_wf(b));
                    if k != i as int {
                        assert(b[k].id != b[i as int].id);
                    }
                }
                return Some(i);
            }
            i += 1;
        }
        proof {
            let b = self.board();
            if has_log(b, id) {
                let k = choose|k: int| 0 <= k < b.len() && b[k].id == id;
                assert(self.logs@[k].id == id);
            }
        }
        None
    }

    /// Adds one line for task `id`.
    pub fn add_task_log(&mut self, id: u64, label: String, line: String)
        requires
            board_wf(old(self).board()),
        ensures
            board_wf(final(self).board()),
            final(self).board() == board_add(old(self).board(), id, label@, line@),
    {
        let ghost b = self.board();
        match self.find(id) {
            Some(k) => {
                let mut log = self.logs.remove(k);
                let ghost before = log.lines@;
                log.lines.push(line);
                trim_lines(&mut log.lines);
                proof {
                    lemma_keep_last_views(before.push(line), MAX_TASK_LOG_LINES as nat);
                    assert(string_views(before.push(line)) =~= string_views(before).push(line@));
                }
                let ghost nv = log@;
                self.logs.insert(k, log);
                proof {
                    assert(self.board() =~= b.update(k as int, nv));
                    assert forall|i: int, j: int|
                        0 <= i < self.board().len() && 0 <= j < self.board().len() && i != j implies self.board()[i].id
                        != self.board()[j].id by {
                        assert(self.board()[i].id == b[i].id);
                        assert(self.board()[j].id == b[j].id);
                    }
                }
            },
            None => {
                if self.logs.len() >= MAX_TASKS {
                    self.logs.remove(0);
                }
                let ghost kept = self.board();
                assert(kept =~= if b.len() >= MAX_TASKS { b.drop_first() } else { b });
                let mut lines: Vec<String> = Vec::new();
                lines.push(line);
                let log = TaskLog { id, label, lines };
                assert(log@.lines =~= seq![line@]);
                self.logs.push(log);
                proof {
                    assert(self.board() =~= kept.push(log@));
                    assert forall|i: int, j: int|
                        0 <= i < self.board().len() && 0 <= j < self.board().len() && i != j implies self.board()[i].id
                        != self.board()[j].id by {
                        if i < kept.len() && j < kept.len() {
                            assert(self.board()[i].id == kept[i].id);
                            assert(self.board()[j].id == kept[j].id);
                        } else if i < kept.len() {
                            assert(self.board()[i].id == kept[i].id);
                            if b.len() >= MAX_TASKS {
                                assert(kept[i] == b[i + 1]);
                            }
                        } else if j < kept.len() {
                            assert(self.board()[j].id == kept[j].id);
                            if b.len() >= MAX_TASKS {
                                assert(kept[j] == b[j + 1]);
                            }
                        }
                    }
                }
            },
        }
    }

    /// Appends a batch of messages for task `id`.
    pub fn append_task_messages(&mut self, id: u64, label: String, messages: Vec<String>)
        requires
            board_wf(old(self).board()),
        ensures
            board_wf(final(self).board()),
            final(self).board() == board_append(
                old(self).board(),
                id,
                label@,
                string_views(messages@),
            ),
    {
        if messages.len() == 0 {
            return;
        }
        if self.find(id).is_none() {
            let mut line = String::from_str("task queued: ");
            line.append(label.as_str());
            self.add_task_log(id, label.clone(), line);
            proof {
                let b1 = self.board();
                let k = b1.len() - 1;
                assert(b1[k].id == id);
            }
        }
        let ghost b1 = self.board();
        match self.find(id) {
            None => {},
            Some(k) => {
                let mut log = self.logs.remove(k);
                let ghost before = log.lines@;
                let mut i: usize = 0;
                while i < messages.len()
                    invariant
                        i <= messages@.len(),
                        string_views(log.lines@) == string_views(before) + string_views(
                            messages@.subrange(0, i as int),
                        ),
                        log.id == id,
                        log@.id == b1[k as int].id,
                        log@.label == b1[k as int].label,
                    decreases messages@.len() - i,
                {
                    let m = messages[i].clone();
                    let ghost prev = log.lines@;
                    log.lines.push(m);
                    assert(string_views(log.lines@) =~= string_views(prev).push(m@));
                    assert(string_views(messages@.subrange(0, i + 1)) =~= string_views(
                        messages@.subrange(0, i as int),
                    ).push(messages@[i as int]@));
                    i += 1;
                }
                assert(messages@.subrange(0, i as int) =~= messages@);
                let ghost full = log.lines@;
                trim_lines(&mut log.lines);
                proof {
                    lemma_keep_last_views(full, MAX_TASK_LOG_LINES as nat);
                }
                let ghost nv = log@;
                self.logs.insert(k, log);
                proof {
                    assert(self.board() =~= b1.update(k as int, nv));
                    assert forall|i: int, j: int|
                        0 <= i < self.board().len() && 0 <= j < self.board().len() && i != j implies self.board()[i].id
                        != self.board()[j].id by {
                        assert(self.board()[i].id == b1[i].id);
                        assert(self.board()[j].id == b1[j].id);
                    }
                }
            },
        }
    }

    /// Takes one event from the worker: its messages go to the task's log, a
    /// status snapshot also adds a `done` line, and the result says whether
    /// the event completes its task, with the snapshot for the status cache.
    pub fn receive(&mut self, event: TaskEvent) -> (r: (bool, Option<Vec<StatusReport>>))
        requires
            board_wf(old(self).board()),
        ensures
            board_wf(final(self).board()),
            final(self).board() == board_received(old(self).board(), event@),
            r.0 == completes(event@),
            r.1 == event.statuses,
    {
        let ghost ev = event@;
        let done = event.is_completion();
        let TaskEvent { id, label, messages, statuses } = event;
        self.append_task_messages(id, label.clone(), messages);
        if statuses.is_some() && self.find(id).is_some() {
            self.add_task_log(id, label, String::from_str("done"));
        }
        (done, statuses)
    }

    /// Takes a run of events in the order they were sent: each goes to its
    /// task's log as `receive` says, and the result tells, event by event,
    /// whether it completed its task and what snapshot it carried.
    pub fn receive_all(&mut self, events: Vec<TaskEvent>) -> (r: Vec<(bool, Option<Vec<StatusReport>>)>)
        requires
            board_wf(old(self).board()),
        ensures
            board_wf(final(self).board()),
            final(self).board() == board_after(old(self).board(), event_views(events@)),
            r@.len() == events@.len(),
            forall|i: int|
                0 <= i < r@.len() ==> (#[trigger] r@[i]).0 == completes(events@[i]@) && r@[i].1
                    == events@[i].statuses,
    {
        let ghost all = events@;
        let mut events = events;
        let mut out: Vec<(bool, Option<Vec<StatusReport>>)> = Vec::new();
        let mut i: usize = 0;
        let n = events.len();
        assert(event_views(all).subrange(0, 0) =~= Seq::<TaskEventView>::empty());
        while i < n
            invariant
                i <= n,
                n == all.len(),
                events@ == all.subrange(i as int, n as int),
                board_wf(self.board()),
                self.board() == board_after(old(self).board(), event_views(all).subrange(0, i as int)),
                out@.len() == i,
                forall|j: int|
                    0 <= j < i ==> (#[trigger] out@[j]).0 == completes(all[j]@) && out@[j].1
                        == all[j].statuses,
            decreases n - i,
        {
            let e = events.remove(0);
            assert(e == all[i as int]);
            let ghost before = self.board();
            let r = self.receive(e);
            out.push(r);
            assert(event_views(all).subrange(0, i + 1).drop_last() =~= event_views(all).subrange(0, i as int));
            assert(events@ =~= all.subrange(i + 1, n as int));
            i += 1;
        }
        assert(event_views(all).subrange(0, n as int) =~= event_views(all));
        out
    }
}

} // verus!
