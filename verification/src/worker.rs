//! Worker dispatcher: what a background run sends to the window, and in which order.
//!
//! A run disables the run button, reports each of its steps with a progress update and
//! a line for the result log, and enables the button again. The worker here decides
//! what comes next; the thread that drives it does the waiting and the posting.

use crate::control::ID_BTN_RUN;
use crate::message::{views, Message, MessageView};
use crate::text::{concat3, decimal, decimal_string};
use vstd::prelude::*;

verus! {

/// Number of steps of a run.
pub const RUN_STEPS: usize = 30;

/// Milliseconds that a worker waits before each step.
pub const STEP_DELAY_MS: u64 = 400;

/// The text beside the progress bar once step `current` of `total` is done.
pub open spec fn progress_label(current: usize, total: usize) -> Seq<char> {
    "進度"@ + decimal(current as nat) + "/"@ + decimal(total as nat)
}

/// The line that step `current` adds to the result log.
pub open spec fn result_line(current: usize) -> Seq<char> {
    "append line "@ + decimal(current as nat) + " to results"@
}

/// The line that tells of a run that failed at step `step`.
pub open spec fn failure_line(step: usize) -> Seq<char> {
    "run failed at step "@ + decimal(step as nat)
}

/// What a run that failed at step `step` still sends: the line that tells of the
/// failure, and the message that enables the run button again.
pub open spec fn failure_script(step: usize) -> Seq<MessageView> {
    seq![
        MessageView::ResultAppend { line: failure_line(step) },
        MessageView::SetControlEnabled { id: ID_BTN_RUN, enabled: true },
    ]
}

/// Number of messages that a run of `total` steps sends.
pub open spec fn script_len(total: usize) -> int {
    2 * total + 2
}

/// The message at place `i` of a run of `total` steps: the first disables the run
/// button, the last enables it, and between them each step sends its progress update
/// and then its line.
pub open spec fn script_message(total: usize, i: int) -> MessageView {
    if i <= 0 {
        MessageView::SetControlEnabled { id: ID_BTN_RUN, enabled: false }
    } else if i >= 2 * total + 1 {
        MessageView::SetControlEnabled { id: ID_BTN_RUN, enabled: true }
    } else if i % 2 == 1 {
        MessageView::ProgressUpdate {
            current: ((i + 1) / 2) as usize,
            total,
            label: progress_label(((i + 1) / 2) as usize, total),
        }
    } else {
        MessageView::ResultAppend { line: result_line((i / 2) as usize) }
    }
}

/// All that a run of `total` steps sends, in order.
pub open spec fn run_script(total: usize) -> Seq<MessageView> {
    Seq::new(script_len(total) as nat, |i: int| script_message(total, i))
}

/// The `(current, total)` pairs of the progress updates among `messages`, in order.
pub open spec fn progress_updates(messages: Seq<MessageView>) -> Seq<(usize, usize)>
    decreases messages.len(),
{
    if messages.len() == 0 {
        Seq::empty()
    } else {
        let before = progress_updates(messages.drop_last());
        match messages.last() {
            MessageView::ProgressUpdate { current, total, .. } => before.push((current, total)),
            _ => before,
        }
    }
}

/// Number of progress updates among the first `n` messages of a run of `total` steps.
pub open spec fn updates_among(total: usize, n: int) -> int {
    if n / 2 <= total {
        n / 2
    } else {
        total as int
    }
}

/// Number of result lines among the first `n` messages of a run.
pub open spec fn lines_among(n: int) -> int {
    if n > 0 {
        (n - 1) / 2
    } else {
        0
    }
}

/// The progress updates among the first `n` messages of a run count up from one.
pub proof fn lemma_progress_prefix(total: usize, n: int)
    requires
        0 <= n <= script_len(total),
    ensures
        progress_updates(run_script(total).take(n)) == Seq::new(
            updates_among(total, n) as nat,
            |k: int| ((k + 1) as usize, total),
        ),
    decreases n,
{
    let script = run_script(total);
    let expected = Seq::new(
        updates_among(total, n) as nat,
        |k: int| ((k + 1) as usize, total),
    );
    if n == 0 {
        assert(progress_updates(script.take(0)) =~= expected);
    } else {
        lemma_progress_prefix(total, n - 1);
        let prefix = script.take(n);
        assert(prefix.drop_last() =~= script.take(n - 1));
        assert(prefix.last() == script_message(total, n - 1));
        assert(progress_updates(prefix) =~= expected);
    }
}

/// A run of `total` steps sends exactly `total` progress updates; their `current`
/// counts 1, 2, and so on up to `total`, and each carries `total`.
pub proof fn lemma_progress_sequence(total: usize)
    ensures
        progress_updates(run_script(total)) == Seq::new(
            total as nat,
            |k: int| ((k + 1) as usize, total),
        ),
{
    lemma_progress_prefix(total, script_len(total));
    assert(run_script(total).take(script_len(total)) =~= run_script(total));
}

/// Where a worker stands in its run.
#[derive(Clone, Copy, Debug, PartialEq, Eq, Structural)]
pub enum Phase {
    /// Nothing was sent yet.
    Start,
    /// About to wait before a step.
    Waiting,
    /// About to send the progress update of a step.
    Reporting,
    /// About to send the line of a step.
    Logging,
    /// The work failed; about to send the line that tells of it.
    Failing,
    /// No step is left; the run button is still disabled.
    Ending,
    /// Nothing is left to do.
    Finished,
}

/// What the thread that drives a worker has to do next.
#[derive(Clone, Debug, PartialEq, Eq)]
pub enum WorkerAction {
    /// Post this message to the window.
    Post(Message),
    /// Wait this many milliseconds.
    Sleep(u64),
    /// The run is over.
    Finished,
}

/// What a `WorkerAction` says, with its texts as sequences of characters.
pub enum WorkerActionView {
    Post(MessageView),
    Sleep(u64),
    Finished,
}

impl View for WorkerAction {
    type V = WorkerActionView;

    open spec fn view(&self) -> WorkerActionView {
        match self {
            WorkerAction::Post(m) => WorkerActionView::Post(m@),
            WorkerAction::Sleep(ms) => WorkerActionView::Sleep(*ms),
            WorkerAction::Finished => WorkerActionView::Finished,
        }
    }
}

/// One run of `total` steps, as far as it has come.
#[derive(Clone, Copy, Debug, PartialEq, Eq, Structural)]
pub struct Worker {
    pub total: usize,
    pub step: usize,
    pub phase: Phase,
}

impl Worker {
    /// While a step is under way, its number lies between one and `total`.
    pub open spec fn wf(&self) -> bool {
        match self.phase {
            Phase::Waiting | Phase::Reporting | Phase::Logging => 1 <= self.step <= self.total,
            _ => true,
        }
    }

    /// A run of `total` steps of which nothing was sent yet.
    pub open spec fn fresh(total: usize) -> Worker {
        Worker { total, step: 0, phase: Phase::Start }
    }

    /// The worker's place in `run_script`: the index of the next message of the script
    /// that it will send. A run that failed skips to the last one.
    pub open spec fn position(&self) -> int {
        match self.phase {
            Phase::Start => 0,
            Phase::Waiting | Phase::Reporting => 2 * self.step - 1,
            Phase::Logging => 2 * self.step,
            Phase::Failing | Phase::Ending => 2 * self.total + 1,
            Phase::Finished => 2 * self.total + 2,
        }
    }

    /// What the worker asks for next.
    pub open spec fn next_action(&self) -> WorkerActionView {
        match self.phase {
            Phase::Waiting => WorkerActionView::Sleep(STEP_DELAY_MS),
            Phase::Finished => WorkerActionView::Finished,
            Phase::Failing => WorkerActionView::Post(
                MessageView::ResultAppend { line: failure_line(self.step) },
            ),
            _ => WorkerActionView::Post(script_message(self.total, self.position())),
        }
    }

    /// Where the worker stands once it has asked for `next_action`.
    pub open spec fn advanced(&self) -> Worker {
        match self.phase {
            Phase::Start => if self.total == 0 {
                Worker { total: self.total, step: self.step, phase: Phase::Ending }
            } else {
                Worker { total: self.total, step: 1, phase: Phase::Waiting }
            },
            Phase::Waiting => Worker {
                total: self.total,
                step: self.step,
                phase: Phase::Reporting,
            },
            Phase::Reporting => Worker {
                total: self.total,
                step: self.step,
                phase: Phase::Logging,
            },
            Phase::Logging => if self.step >= self.total {
                Worker { total: self.total, step: self.step, phase: Phase::Ending }
            } else {
                Worker { total: self.total, step: (self.step + 1) as usize, phase: Phase::Waiting }
            },
            Phase::Failing => Worker { total: self.total, step: self.step, phase: Phase::Ending },
            Phase::Ending => Worker { total: self.total, step: self.step, phase: Phase::Finished },
            Phase::Finished => *self,
        }
    }

    /// Where the worker stands once its work has failed: it will tell of the failure and
    /// enable the run button, and send nothing else. A run that has no step left, or
    /// that failed before, is not changed.
    pub open spec fn failed(&self) -> Worker {
        match self.phase {
            Phase::Failing | Phase::Ending | Phase::Finished => *self,
            _ => Worker { total: self.total, step: self.step, phase: Phase::Failing },
        }
    }

    /// Number of actions that the worker will still ask for before it says `Finished`.
    pub open spec fn actions_left(&self) -> int {
        match self.phase {
            Phase::Start => 3 * self.total + 2,
            Phase::Waiting => 3 * (self.total - self.step) + 4,
            Phase::Reporting => 3 * (self.total - self.step) + 3,
            Phase::Logging => 3 * (self.total - self.step) + 2,
            Phase::Failing => 2,
            Phase::Ending => 1,
            Phase::Finished => 0,
        }
    }

    /// All that the worker will still post, in order: the rest of `run_script`, or, for
    /// a run that failed, `failure_script`.
    pub open spec fn remaining_posts(&self) -> Seq<MessageView> {
        match self.phase {
            Phase::Failing => failure_script(self.step),
            _ => run_script(self.total).subrange(self.position(), script_len(self.total)),
        }
    }

    /// What the worker will still post is what it posts next, if it posts, followed by
    /// what it will post after that.
    pub proof fn lemma_remaining_posts(&self)
        requires
            self.wf(),
        ensures
            match self.next_action() {
                WorkerActionView::Post(m) => self.remaining_posts() == seq![m]
                    + self.advanced().remaining_posts(),
                WorkerActionView::Sleep(_) => self.remaining_posts()
                    == self.advanced().remaining_posts(),
                WorkerActionView::Finished => self.remaining_posts() == Seq::<
                    MessageView,
                >::empty(),
            },
            self.advanced().wf(),
            0 <= self.position() <= script_len(self.total),
    {
        let script = run_script(self.total);
        let len = script_len(self.total);
        match self.next_action() {
            WorkerActionView::Post(m) => {
                if self.phase == Phase::Failing {
                    assert(self.advanced().remaining_posts() =~= seq![
                        MessageView::SetControlEnabled { id: ID_BTN_RUN, enabled: true },
                    ]);
                    assert(self.remaining_posts() =~= seq![m]
                        + self.advanced().remaining_posts());
                } else {
                    let p = self.position();
                    assert(self.advanced().position() == p + 1);
                    assert(script.subrange(p, len) =~= seq![script[p]] + script.subrange(
                        p + 1,
                        len,
                    ));
                }
            },
            WorkerActionView::Sleep(_) => {},
            WorkerActionView::Finished => {
                assert(self.remaining_posts() =~= Seq::<MessageView>::empty());
            },
        }
    }

    /// A run of which nothing was sent yet will post `run_script`.
    pub proof fn lemma_fresh_posts(total: usize)
        ensures
            Worker::fresh(total).remaining_posts() == run_script(total),
    {
        assert(run_script(total).subrange(0, script_len(total)) =~= run_script(total));
    }

    /// A run that fails while steps are left will post `failure_script` and nothing
    /// else: the last thing it sends enables the run button.
    pub proof fn lemma_failed_posts(&self)
        requires
            self.phase != Phase::Ending,
            self.phase != Phase::Finished,
        ensures
            self.failed().remaining_posts() == failure_script(self.step),
            self.failed().wf(),
    {
    }

    /// Starts a run of `total` steps.
    pub fn new(total: usize) -> (w: Worker)
        ensures
            w == Worker::fresh(total),
            w.wf(),
    {
        Worker { total, step: 0, phase: Phase::Start }
    }

    /// Whether the run is over.
    pub fn is_finished(&self) -> (b: bool)
        ensures
            b == (self.phase == Phase::Finished),
    {
        match self.phase {
            Phase::Finished => true,
            _ => false,
        }
    }

    /// Tells the worker that its work has failed.
    pub fn fail(&mut self)
        requires
            old(self).wf(),
        ensures
            final(self).wf(),
            *final(self) == old(self).failed(),
    {
        match self.phase {
            Phase::Failing | Phase::Ending | Phase::Finished => {},
            _ => {
                self.phase = Phase::Failing;
            },
        }
    }

    /// Says what to do next, and moves on.
    pub fn next(&mut self) -> (action: WorkerAction)
        requires
            old(self).wf(),
        ensures
            final(self).wf(),
            action@ == old(self).next_action(),
            *final(self) == old(self).advanced(),
            final(self).actions_left() == if old(self).phase == Phase::Finished {
                0
            } else {
                old(self).actions_left() - 1
            },
    {
        match self.phase {
            Phase::Start => {
                if self.total == 0 {
                    self.phase = Phase::Ending;
                } else {
                    self.step = 1;
                    self.phase = Phase::Waiting;
                }
                WorkerAction::Post(Message::SetControlEnabled { id: ID_BTN_RUN, enabled: false })
            },
            Phase::Waiting => {
                self.phase = Phase::Reporting;
                WorkerAction::Sleep(STEP_DELAY_MS)
            },
            Phase::Reporting => {
                let message = progress_message(self.step, self.total);
                self.phase = Phase::Logging;
                WorkerAction::Post(message)
            },
            Phase::Logging => {
                let message = result_message(self.step);
                if self.step >= self.total {
                    self.phase = Phase::Ending;
                } else {
                    self.step = self.step + 1;
                    self.phase = Phase::Waiting;
                }
                WorkerAction::Post(message)
            },
            Phase::Failing => {
                let message = failure_message(self.step);
                self.phase = Phase::Ending;
                WorkerAction::Post(message)
            },
            Phase::Ending => {
                self.phase = Phase::Finished;
                WorkerAction::Post(Message::SetControlEnabled { id: ID_BTN_RUN, enabled: true })
            },
            Phase::Finished => WorkerAction::Finished,
        }
    }

    /// Drives the worker to the end of its run without waiting, and hands back what it
    /// would have posted from where it stood.
    pub fn run_to_end(&mut self) -> (posts: Vec<Message>)
        requires
            old(self).wf(),
        ensures
            final(self).wf(),
            final(self).total == old(self).total,
            final(self).phase == Phase::Finished,
            views(posts@) == old(self).remaining_posts(),
    {
        let ghost all = self.remaining_posts();
        let ghost total = self.total;
        let mut posts: Vec<Message> = Vec::new();
        assert(views(posts@) + all =~= all);
        loop
            invariant
                self.wf(),
                self.total == total,
                self.actions_left() >= 0,
                views(posts@) + self.remaining_posts() == all,
            ensures
                self.wf(),
                self.total == total,
                self.phase == Phase::Finished,
                views(posts@) == all,
            decreases self.actions_left(),
        {
            let ghost before = *self;
            let ghost posts_before = posts@;
            proof {
                before.lemma_remaining_posts();
            }
            let action = self.next();
            match action {
                WorkerAction::Post(message) => {
                    posts.push(message);
                    proof {
                        assert(views(posts@) =~= views(
                            posts_before,
                        ).push(message@));
                        assert(views(posts_before).push(message@)
                            + self.remaining_posts() =~= views(posts_before) + (
                        seq![message@] + self.remaining_posts()));
                    }
                },
                WorkerAction::Sleep(_) => {},
                WorkerAction::Finished => {
                    proof {
                        assert(views(posts@) + Seq::<MessageView>::empty()
                            =~= views(posts@));
                    }
                    break ;
                },
            }
        }
        posts
    }
}

/// The progress update that step `current` of `total` sends.
pub fn progress_message(current: usize, total: usize) -> (m: Message)
    ensures
        m@ == (MessageView::ProgressUpdate {
            current,
            total,
            label: progress_label(current, total),
        }),
{
    let number = decimal_string(current);
    let of = decimal_string(total);
    let mut label = concat3("進度", number.as_str(), "/");
    label.append(of.as_str());
    Message::ProgressUpdate { current, total, label }
}

/// The line for the result log that step `current` sends.
pub fn result_message(current: usize) -> (m: Message)
    ensures
        m@ == (MessageView::ResultAppend { line: result_line(current) }),
{
    let number = decimal_string(current);
    let line = concat3("append line ", number.as_str(), " to results");
    Message::ResultAppend { line }
}

/// The line for the result log that tells of a failure at step `step`.
pub fn failure_message(step: usize) -> (m: Message)
    ensures
        m@ == (MessageView::ResultAppend { line: failure_line(step) }),
{
    let number = decimal_string(step);
    let line = concat3("run failed at step ", number.as_str(), "");
    proof {
        reveal_strlit("");
        assert("run failed at step "@ + number@ + ""@ =~= failure_line(step));
    }
    Message::ResultAppend { line }
}

/// All that a run of `total` steps posts, in order.
pub fn script(total: usize) -> (posts: Vec<Message>)
    ensures
        views(posts@) == run_script(total),
{
    let mut worker = Worker::new(total);
    proof {
        Worker::lemma_fresh_posts(total);
    }
    worker.run_to_end()
}

/// What one trigger asks of the thread that serves a long-lived worker: wait, then post.
#[derive(Clone, Debug, PartialEq, Eq)]
pub struct WorkUnit {
    pub delay_ms: u64,
    pub message: Message,
}

/// A worker that lives as long as the application and does one unit of work for each
/// trigger that it is sent.
#[derive(Clone, Copy, Debug, PartialEq, Eq, Structural)]
pub struct TriggerWorker {
    /// Number of units done so far.
    pub counter: usize,
}

impl TriggerWorker {
    /// A worker that has done nothing yet.
    pub fn new() -> (w: TriggerWorker)
        ensures
            w.counter == 0,
    {
        TriggerWorker { counter: 0 }
    }

    /// Serves one trigger: the counter goes up by one, and the unit says how long to
    /// wait and which one line to post, the line of the unit's number. A counter that
    /// cannot go up any more serves nothing.
    pub fn on_trigger(&mut self) -> (unit: Option<WorkUnit>)
        ensures
            match unit {
                Some(u) => {
                    &&& old(self).counter < usize::MAX
                    &&& final(self).counter == old(self).counter + 1
                    &&& u.delay_ms == STEP_DELAY_MS
                    &&& u.message@ == (MessageView::ResultAppend {
                        line: result_line(final(self).counter),
                    })
                },
                None => old(self).counter == usize::MAX && final(self).counter == old(self).counter,
            },
    {
        if self.counter == usize::MAX {
            None
        } else {
            self.counter = self.counter + 1;
            Some(WorkUnit { delay_ms: STEP_DELAY_MS, message: result_message(self.counter) })
        }
    }
}

} // verus!
