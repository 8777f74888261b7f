//! What the window is and does, as mathematics: its state as a plain record, and each
//! event as a function from the state before to the state after and to the commands for
//! the toolkit.

use crate::control::{
    ControlRect, ID_BTN_PATH, ID_BTN_RUN, ID_PROGRESS_TXT, ID_TEXTBOX_PATH, ID_TEXTBOX_RESULT,
};
use crate::layout::{
    font_height_at, layout_map, layout_order, lemma_layout_non_negative, scaled_length, Metrics,
    REFERENCE_DPI,
};
use crate::message::{MessageView, Notification};
use crate::text::line_end;
use crate::thread_safe::ThreadSafeHwnd;
use crate::worker::{
    failure_line, failure_script, lines_among, progress_label, progress_updates, run_script,
    script_len, script_message, updates_among,
};
use vstd::prelude::*;

verus! {

/// Toolkit code of the message that announces the creation of the window.
pub const WM_CREATE: u32 = 0x0001;

/// Toolkit code of the message that announces the destruction of the window.
pub const WM_DESTROY: u32 = 0x0002;

/// Toolkit code of the message that announces a new size of the client area.
pub const WM_SIZE: u32 = 0x0005;

/// Toolkit code of the message that asks the window to paint itself.
pub const WM_PAINT: u32 = 0x000F;

/// Toolkit code of the message that a control sends to its parent.
pub const WM_COMMAND: u32 = 0x0111;

/// Code by which an edit control tells that its text has changed.
pub const EN_CHANGE: usize = 0x0300;

/// Highest position of the progress bar.
pub const PROGRESS_MAX: usize = 100;

/// The low sixteen bits of `v`, as a number.
pub open spec fn low_word(v: int) -> int {
    v % 0x1_0000
}

/// The sixteen bits of `v` above the low sixteen, as a number.
pub open spec fn high_word(v: int) -> int {
    (v / 0x1_0000) % 0x1_0000
}

/// Position of the progress bar when `current` of `total` is done: the percentage,
/// rounded down and held to a hundred. A run of no steps is complete.
pub open spec fn progress_percent(current: usize, total: usize) -> int {
    if total == 0 || current >= total {
        100
    } else {
        (current * 100) / (total as int)
    }
}

/// The states of a window's life.
#[derive(Clone, Copy, Debug, PartialEq, Eq, Structural)]
pub enum Lifecycle {
    /// The state exists; the native window has not reported its creation.
    Created,
    /// The controls exist and events are served.
    Running,
    /// The native window is gone. Nothing changes the state any more.
    Destroyed,
}

/// A command for the toolkit, with its texts as sequences of characters.
pub enum ActionView {
    QueryDpi,
    ResizeWindow { width: u32, height: u32 },
    CreateControl { id: usize, rect: ControlRect },
    SetFont { id: usize, size: i32 },
    Quit,
    Repaint,
    Reposition { id: usize, rect: ControlRect },
    ScrollPathToStart,
    OpenFolderDialog,
    SetPathText { text: Seq<char> },
    ReadPathText,
    StartRun { target: ThreadSafeHwnd },
    SetProgress { text: Seq<char>, position: usize },
    AppendLog { text: Seq<char> },
    EnableControl { id: usize, enabled: bool },
    DefaultProcessing,
}

/// The controls that get the window's font, in the order in which they get it.
pub open spec fn font_targets() -> Seq<usize> {
    seq![ID_TEXTBOX_PATH, ID_PROGRESS_TXT, ID_TEXTBOX_RESULT, ID_BTN_PATH, ID_BTN_RUN]
}

/// One command per control of `order` that creates it at its rectangle in `controls`.
pub open spec fn create_actions(order: Seq<usize>, controls: Map<usize, ControlRect>) -> Seq<
    ActionView,
> {
    Seq::new(
        order.len(),
        |k: int| ActionView::CreateControl { id: order[k], rect: controls[order[k]] },
    )
}

/// One command per control of `targets` that gives it the font of height `size`.
pub open spec fn font_actions(targets: Seq<usize>, size: i32) -> Seq<ActionView> {
    Seq::new(targets.len(), |k: int| ActionView::SetFont { id: targets[k], size })
}

/// For each control of `order`, a command that moves it to its rectangle in `controls`,
/// followed by one that scrolls the path field back to its start.
pub open spec fn reposition_actions(order: Seq<usize>, controls: Map<usize, ControlRect>) -> Seq<
    ActionView,
> {
    Seq::new(
        2 * order.len(),
        |k: int|
            if k % 2 == 0 {
                ActionView::Reposition { id: order[k / 2], rect: controls[order[k / 2]] }
            } else {
                ActionView::ScrollPathToStart
            },
    )
}

/// All that is known of a window.
pub struct WindowView {
    pub lifecycle: Lifecycle,
    /// The handle under which workers reach the window, once it is bound.
    pub target: Option<ThreadSafeHwnd>,
    pub controls: Map<usize, ControlRect>,
    /// The keys of `controls`, in the order in which the registry walks them.
    pub order: Seq<usize>,
    pub metrics: Metrics,
    pub width: u32,
    pub height: u32,
    pub dpi: u32,
    pub title: Seq<char>,
    pub path_text: Seq<char>,
    pub progress_text: Seq<char>,
    pub progress_pos: usize,
    pub result_log: Seq<Seq<char>>,
    pub run_enabled: bool,
}

impl WindowView {
    /// What holds of every window: its constants are lengths, the progress bar stays
    /// within its range, a window that is not yet running has no controls, and a
    /// running one has the six controls where its size puts them.
    pub open spec fn inv(self) -> bool {
        &&& self.metrics.wf()
        &&& self.progress_pos <= PROGRESS_MAX
        &&& self.lifecycle == Lifecycle::Created ==> {
            &&& self.controls == Map::<usize, ControlRect>::empty()
            &&& self.order == Seq::<usize>::empty()
        }
        &&& self.lifecycle == Lifecycle::Running ==> {
            &&& self.controls == layout_map(self.width, self.height, self.metrics)
            &&& self.order == layout_order()
        }
    }

    /// The window before its creation was reported: no controls, nothing shown, the run
    /// button enabled, the constants at the reference density.
    pub open spec fn initial(
        title: Seq<char>,
        width: u32,
        height: u32,
        target: Option<ThreadSafeHwnd>,
    ) -> WindowView {
        WindowView {
            lifecycle: Lifecycle::Created,
            target,
            controls: Map::empty(),
            order: Seq::empty(),
            metrics: Metrics::at_dpi(REFERENCE_DPI),
            width,
            height,
            dpi: REFERENCE_DPI,
            title,
            path_text: Seq::empty(),
            progress_text: Seq::empty(),
            progress_pos: 0,
            result_log: Seq::empty(),
            run_enabled: true,
        }
    }

    /// The window once its creation was reported with handle `hwnd` at `dpi` dots per
    /// inch: size and constants are scaled once, the six controls are laid out, the
    /// application is bound to the handle, and the window runs. A window that was
    /// created before stays as it is.
    pub open spec fn created(self, hwnd: ThreadSafeHwnd, dpi: u32) -> WindowView {
        if self.lifecycle == Lifecycle::Created {
            let width = scaled_length(self.width, dpi) as u32;
            let height = scaled_length(self.height, dpi) as u32;
            let metrics = Metrics::at_dpi(dpi);
            WindowView {
                lifecycle: Lifecycle::Running,
                target: Some(hwnd),
                controls: layout_map(width, height, metrics),
                order: layout_order(),
                metrics,
                width,
                height,
                dpi,
                ..self
            }
        } else {
            self
        }
    }

    /// The commands that go with `created`: resize the native window, create the six
    /// controls, give five of them the font.
    pub open spec fn creation_actions(self, hwnd: ThreadSafeHwnd, dpi: u32) -> Seq<ActionView> {
        if self.lifecycle == Lifecycle::Created {
            let after = self.created(hwnd, dpi);
            seq![ActionView::ResizeWindow { width: after.width, height: after.height }]
                + create_actions(after.order, after.controls) + font_actions(
                font_targets(),
                font_height_at(dpi) as i32,
            )
        } else {
            Seq::empty()
        }
    }

    /// The window after the client area took the size `width` by `height`. Only a
    /// running window follows; its controls are laid out for the new size.
    pub open spec fn resized(self, width: u32, height: u32) -> WindowView {
        if self.lifecycle == Lifecycle::Running {
            WindowView {
                controls: layout_map(width, height, self.metrics),
                width,
                height,
                ..self
            }
        } else {
            self
        }
    }

    /// The commands that go with `resized`: every control is moved to its new place,
    /// after all of them were computed.
    pub open spec fn resize_actions(self, width: u32, height: u32) -> Seq<ActionView> {
        if self.lifecycle == Lifecycle::Running {
            reposition_actions(self.order, self.resized(width, height).controls)
        } else {
            Seq::empty()
        }
    }

    /// The window after one size after the other of `sizes`.
    pub open spec fn resized_all(self, sizes: Seq<(u32, u32)>) -> WindowView
        decreases sizes.len(),
    {
        if sizes.len() == 0 {
            self
        } else {
            self.resized_all(sizes.drop_last()).resized(sizes.last().0, sizes.last().1)
        }
    }

    /// Whether a click on the run button starts a run: the window runs, the button is
    /// enabled, and there is a handle for the worker to address.
    pub open spec fn can_run(self) -> bool {
        self.lifecycle == Lifecycle::Running && self.run_enabled && self.target is Some
    }

    /// The window after the command `wparam` of one of its controls. A click on the run
    /// button that starts a run disables the button; nothing else changes the state.
    pub open spec fn commanded(self, wparam: usize) -> WindowView {
        if wparam == ID_BTN_RUN && self.can_run() {
            WindowView { run_enabled: false, ..self }
        } else {
            self
        }
    }

    /// The commands that go with `commanded`.
    pub open spec fn command_actions(self, wparam: usize) -> Seq<ActionView> {
        if self.lifecycle != Lifecycle::Running {
            Seq::empty()
        } else if wparam == ID_BTN_PATH {
            seq![ActionView::OpenFolderDialog]
        } else if wparam == ID_BTN_RUN {
            if self.can_run() {
                seq![
                    ActionView::EnableControl { id: ID_BTN_RUN, enabled: false },
                    ActionView::StartRun { target: self.target->0 },
                ]
            } else {
                Seq::empty()
            }
        } else if high_word(wparam as int) == EN_CHANGE && low_word(wparam as int)
            == ID_TEXTBOX_PATH {
            seq![ActionView::ReadPathText]
        } else {
            Seq::empty()
        }
    }

    /// The window after the folder dialog answered `path`. An empty answer is a
    /// cancellation and changes nothing.
    pub open spec fn folder_selected(self, path: Seq<char>) -> WindowView {
        if self.lifecycle == Lifecycle::Running && path.len() > 0 {
            WindowView { path_text: path, ..self }
        } else {
            self
        }
    }

    /// The commands that go with `folder_selected`.
    pub open spec fn folder_actions(self, path: Seq<char>) -> Seq<ActionView> {
        if self.lifecycle == Lifecycle::Running && path.len() > 0 {
            seq![ActionView::SetPathText { text: path }]
        } else {
            Seq::empty()
        }
    }

    /// The window after one message of a worker was applied. A window that does not
    /// run drops the message and stays as it is.
    pub open spec fn applied(self, message: MessageView) -> WindowView {
        if self.lifecycle != Lifecycle::Running {
            self
        } else {
            match message {
                MessageView::ProgressUpdate { current, total, label } => WindowView {
                    progress_text: label,
                    progress_pos: progress_percent(current, total) as usize,
                    ..self
                },
                MessageView::ResultAppend { line } => WindowView {
                    result_log: self.result_log.push(line),
                    ..self
                },
                MessageView::SetControlEnabled { id, enabled } => if id == ID_BTN_RUN {
                    WindowView { run_enabled: enabled, ..self }
                } else {
                    self
                },
            }
        }
    }

    /// The commands that go with `applied`.
    pub open spec fn apply_actions(self, message: MessageView) -> Seq<ActionView> {
        if self.lifecycle != Lifecycle::Running {
            Seq::empty()
        } else {
            match message {
                MessageView::ProgressUpdate { current, total, label } => seq![
                    ActionView::SetProgress {
                        text: label,
                        position: progress_percent(current, total) as usize,
                    },
                ],
                MessageView::ResultAppend { line } => seq![
                    ActionView::AppendLog { text: line + line_end() },
                ],
                MessageView::SetControlEnabled { id, enabled } => seq![
                    ActionView::EnableControl { id, enabled },
                ],
            }
        }
    }

    /// The window after the messages of `messages` were applied one after the other.
    pub open spec fn applied_all(self, messages: Seq<MessageView>) -> WindowView
        decreases messages.len(),
    {
        if messages.len() == 0 {
            self
        } else {
            self.applied_all(messages.drop_last()).applied(messages.last())
        }
    }

    /// The commands that go with `applied_all`, in the order of the messages.
    pub open spec fn apply_all_actions(self, messages: Seq<MessageView>) -> Seq<ActionView>
        decreases messages.len(),
    {
        if messages.len() == 0 {
            Seq::empty()
        } else {
            self.apply_all_actions(messages.drop_last()) + self.applied_all(
                messages.drop_last(),
            ).apply_actions(messages.last())
        }
    }

    /// The window after its destruction was reported: it forgets its handle and is
    /// destroyed for good.
    pub open spec fn destroyed(self) -> WindowView {
        if self.lifecycle == Lifecycle::Destroyed {
            self
        } else {
            WindowView { lifecycle: Lifecycle::Destroyed, target: None, ..self }
        }
    }

    /// Whether serving `message` leaves nothing on the bus: the destruction of the
    /// window drops what waits, and a worker's notification makes a running window take
    /// all of it.
    pub open spec fn empties_bus(self, message: u32) -> bool {
        message == WM_DESTROY || (self.lifecycle == Lifecycle::Running && Notification::of_code(
            message,
        ) is Some)
    }

    /// The window after the toolkit delivered `message` with its two parameters, while
    /// `pending` waited on the bus.
    pub open spec fn handled(
        self,
        pending: Seq<MessageView>,
        message: u32,
        wparam: usize,
        lparam: isize,
    ) -> WindowView {
        if message == WM_DESTROY {
            self.destroyed()
        } else if self.lifecycle != Lifecycle::Running {
            self
        } else if message == WM_SIZE {
            self.resized(low_word(lparam as int) as u32, high_word(lparam as int) as u32)
        } else if message == WM_COMMAND {
            self.commanded(wparam)
        } else if Notification::of_code(message) is Some {
            self.applied_all(pending)
        } else {
            self
        }
    }

    /// The commands that go with `handled`. A message that the window does not know is
    /// left to the toolkit, whatever the state.
    pub open spec fn handle_actions(
        self,
        pending: Seq<MessageView>,
        message: u32,
        wparam: usize,
        lparam: isize,
    ) -> Seq<ActionView> {
        if message == WM_DESTROY {
            if self.lifecycle == Lifecycle::Destroyed {
                Seq::empty()
            } else {
                seq![ActionView::Quit]
            }
        } else if message == WM_CREATE {
            if self.lifecycle == Lifecycle::Created {
                seq![ActionView::QueryDpi]
            } else {
                Seq::empty()
            }
        } else if message == WM_PAINT {
            if self.lifecycle == Lifecycle::Running {
                seq![ActionView::Repaint]
            } else {
                Seq::empty()
            }
        } else if message == WM_SIZE {
            self.resize_actions(low_word(lparam as int) as u32, high_word(lparam as int) as u32)
        } else if message == WM_COMMAND {
            self.command_actions(wparam)
        } else if Notification::of_code(message) is Some {
            if self.lifecycle == Lifecycle::Running {
                self.apply_all_actions(pending)
            } else {
                Seq::empty()
            }
        } else {
            seq![ActionView::DefaultProcessing]
        }
    }
}

/// Whether every control of the window has a width and a height that are not negative.
pub open spec fn all_non_negative(controls: Map<usize, ControlRect>) -> bool {
    forall|id: usize| #[trigger] controls.contains_key(id) ==> controls[id].non_negative()
}

/// A running window that is resized to a usable size has no control of negative width or
/// height, and to resize it once more to the same size changes nothing: neither the
/// state nor the commands.
pub proof fn lemma_resize(w: WindowView, width: u32, height: u32)
    requires
        w.inv(),
        w.lifecycle == Lifecycle::Running,
        w.metrics.usable(width, height),
    ensures
        w.resized(width, height).inv(),
        all_non_negative(w.resized(width, height).controls),
        w.resized(width, height).resized(width, height) == w.resized(width, height),
        w.resized(width, height).resize_actions(width, height) == w.resize_actions(
            width,
            height,
        ),
{
    let after = w.resized(width, height);
    assert forall|id: usize| #[trigger]
        after.controls.contains_key(id) implies after.controls[id].non_negative() by {
        lemma_layout_non_negative(id, width, height, w.metrics);
    }
}

/// After any sequence of resizes to usable sizes, a running window has its controls where
/// the last size puts them, and none has a negative width or height.
pub proof fn lemma_resize_sequence(w: WindowView, sizes: Seq<(u32, u32)>)
    requires
        w.inv(),
        w.lifecycle == Lifecycle::Running,
        sizes.len() > 0,
        forall|i: int|
            0 <= i < sizes.len() ==> w.metrics.usable(#[trigger] sizes[i].0, sizes[i].1),
    ensures
        w.resized_all(sizes).inv(),
        w.resized_all(sizes).lifecycle == Lifecycle::Running,
        w.resized_all(sizes).metrics == w.metrics,
        w.resized_all(sizes).controls == layout_map(sizes.last().0, sizes.last().1, w.metrics),
        all_non_negative(w.resized_all(sizes).controls),
    decreases sizes.len(),
{
    let before = w.resized_all(sizes.drop_last());
    if sizes.len() > 1 {
        assert forall|i: int| 0 <= i < sizes.drop_last().len() implies w.metrics.usable(
            #[trigger] sizes.drop_last()[i].0,
            sizes.drop_last()[i].1,
        ) by {
            assert(sizes.drop_last()[i] == sizes[i]);
        }
        lemma_resize_sequence(w, sizes.drop_last());
    } else {
        assert(sizes.drop_last().len() == 0);
        assert(before == w);
    }
    assert(w.metrics.usable(sizes[sizes.len() - 1].0, sizes[sizes.len() - 1].1));
    lemma_resize(before, sizes.last().0, sizes.last().1);
}

/// Messages change neither the life of a window, nor its handle, nor its controls.
pub proof fn lemma_applied_all_frame(w: WindowView, messages: Seq<MessageView>)
    requires
        w.inv(),
    ensures
        w.applied_all(messages).inv(),
        w.applied_all(messages).lifecycle == w.lifecycle,
        w.applied_all(messages).target == w.target,
        w.applied_all(messages).controls == w.controls,
        w.applied_all(messages).order == w.order,
        w.applied_all(messages).metrics == w.metrics,
        w.applied_all(messages).width == w.width,
        w.applied_all(messages).height == w.height,
        w.applied_all(messages).path_text == w.path_text,
    decreases messages.len(),
{
    if messages.len() > 0 {
        lemma_applied_all_frame(w, messages.drop_last());
        lemma_percent_range(messages.last());
    }
}

/// The position that a progress update asks for lies between nothing and a hundred.
pub proof fn lemma_percent_range(message: MessageView)
    ensures
        message matches MessageView::ProgressUpdate { current, total, .. } ==> 0
            <= progress_percent(current, total) <= 100,
{
    if let MessageView::ProgressUpdate { current, total, .. } = message {
        if total != 0 && current < total {
            assert(0 <= (current * 100) / (total as int) < 100) by (nonlinear_arith)
                requires
                    0 <= current < total,
            ;
        }
    }
}

/// A window that was destroyed drops whatever reaches it: a message of a worker, a
/// batch of them, a command, a resize, the answer of a dialog or a second creation all
/// leave the state as it is and ask nothing of the toolkit.
pub proof fn lemma_destroyed_drops(
    w: WindowView,
    message: MessageView,
    messages: Seq<MessageView>,
    code: u32,
    wparam: usize,
    lparam: isize,
    hwnd: ThreadSafeHwnd,
    dpi: u32,
    path: Seq<char>,
)
    requires
        w.lifecycle == Lifecycle::Destroyed,
    ensures
        w.applied(message) == w,
        w.apply_actions(message) == Seq::<ActionView>::empty(),
        w.applied_all(messages) == w,
        w.apply_all_actions(messages) == Seq::<ActionView>::empty(),
        w.handled(messages, code, wparam, lparam) == w,
        w.handle_actions(messages, code, wparam, lparam) == Seq::<ActionView>::empty()
            || w.handle_actions(messages, code, wparam, lparam) == seq![
            ActionView::DefaultProcessing,
        ],
        w.created(hwnd, dpi) == w,
        w.creation_actions(hwnd, dpi) == Seq::<ActionView>::empty(),
        w.folder_selected(path) == w,
        w.folder_actions(path) == Seq::<ActionView>::empty(),
    decreases messages.len(),
{
    if messages.len() > 0 {
        lemma_destroyed_drops(
            w,
            message,
            messages.drop_last(),
            code,
            wparam,
            lparam,
            hwnd,
            dpi,
            path,
        );
    }
    assert(w.apply_all_actions(messages) =~= Seq::<ActionView>::empty());
}

/// The run button through a run of `total` steps. A click that starts the run disables
/// the button at once; a second click is then ignored; the button stays disabled after
/// every message of the run but the last, and the last enables it.
pub proof fn lemma_run_control(w: WindowView, total: usize, k: int)
    requires
        w.inv(),
        w.can_run(),
        0 <= k <= script_len(total),
    ensures
        !w.commanded(ID_BTN_RUN).run_enabled,
        w.commanded(ID_BTN_RUN).commanded(ID_BTN_RUN) == w.commanded(ID_BTN_RUN),
        w.commanded(ID_BTN_RUN).command_actions(ID_BTN_RUN) == Seq::<ActionView>::empty(),
        w.commanded(ID_BTN_RUN).applied_all(run_script(total).take(k)).run_enabled == (k
            == script_len(total)),
    decreases k,
{
    let started = w.commanded(ID_BTN_RUN);
    let script = run_script(total);
    if k > 0 {
        lemma_run_control(w, total, k - 1);
        lemma_applied_all_frame(started, script.take(k - 1));
        assert(script.take(k).drop_last() =~= script.take(k - 1));
        assert(script.take(k).last() == script_message(total, k - 1));
    } else {
        assert(script.take(0).len() == 0);
    }
}

/// To apply one batch of messages and then another is to apply the two joined, for
/// the state as for the commands.
pub proof fn lemma_applied_all_concat(w: WindowView, a: Seq<MessageView>, b: Seq<MessageView>)
    ensures
        w.applied_all(a + b) == w.applied_all(a).applied_all(b),
        w.apply_all_actions(a + b) == w.apply_all_actions(a) + w.applied_all(
            a,
        ).apply_all_actions(b),
    decreases b.len(),
{
    if b.len() == 0 {
        assert(a + b =~= a);
        assert(w.apply_all_actions(a) + Seq::<ActionView>::empty() =~= w.apply_all_actions(a));
    } else {
        lemma_applied_all_concat(w, a, b.drop_last());
        assert((a + b).drop_last() =~= a + b.drop_last());
        assert((a + b).last() == b.last());
        let mid = w.applied_all(a);
        assert(w.apply_all_actions(a) + mid.apply_all_actions(b.drop_last())
            + mid.applied_all(b.drop_last()).apply_actions(b.last()) =~= w.apply_all_actions(a)
            + (mid.apply_all_actions(b.drop_last()) + mid.applied_all(
            b.drop_last(),
        ).apply_actions(b.last())));
    }
}

/// A run that fails after any number of its messages still leaves the run button
/// enabled: the window that has applied what the run sent before it failed, and then
/// what a failed run sends, shows the line of the failure last in its log and has the
/// button enabled. A failed run sends no progress update any more.
pub proof fn lemma_failed_run(w: WindowView, total: usize, k: int, step: usize)
    requires
        w.inv(),
        w.lifecycle == Lifecycle::Running,
        0 <= k <= script_len(total),
    ensures
        w.applied_all(run_script(total).take(k) + failure_script(step)).run_enabled,
        w.applied_all(run_script(total).take(k) + failure_script(step)).result_log.last()
            == failure_line(step),
        progress_updates(failure_script(step)) == Seq::<(usize, usize)>::empty(),
{
    let sent = run_script(total).take(k);
    let rest = failure_script(step);
    lemma_applied_all_concat(w, sent, rest);
    lemma_applied_all_frame(w, sent);
    let mid = w.applied_all(sent);
    assert(rest.drop_last() =~= seq![rest[0]]);
    assert(rest.drop_last().drop_last() =~= Seq::<MessageView>::empty());
    assert(mid.applied_all(rest.drop_last().drop_last()) == mid);
    assert(mid.applied_all(rest.drop_last()) == mid.applied(rest[0]));
    assert(mid.applied_all(rest) == mid.applied(rest[0]).applied(rest[1]));
    assert(progress_updates(rest.drop_last().drop_last()) =~= Seq::<(usize, usize)>::empty());
    assert(progress_updates(rest.drop_last()) =~= Seq::<(usize, usize)>::empty());
}

/// What a whole run of `total` steps leaves behind in a running window: the button is
/// enabled again, the log has grown by one line per step, and, if the run had a step,
/// the progress bar stands at a hundred.
pub proof fn lemma_run_outcome(w: WindowView, total: usize)
    requires
        w.inv(),
        w.lifecycle == Lifecycle::Running,
    ensures
        w.applied_all(run_script(total)).run_enabled,
        w.applied_all(run_script(total)).result_log.len() == w.result_log.len() + total,
        total > 0 ==> w.applied_all(run_script(total)).progress_pos == 100,
        total > 0 ==> w.applied_all(run_script(total)).progress_text == progress_label(
            total,
            total,
        ),
{
    let script = run_script(total);
    lemma_run_prefix(w, total, script_len(total));
    assert(script.take(script_len(total)) =~= script);
}

/// The log and the progress bar after the first `k` messages of a run of `total` steps:
/// the log has grown by the lines among them, and the bar and its text show the last
/// progress update among them. After the whole run the button is enabled.
pub proof fn lemma_run_prefix(w: WindowView, total: usize, k: int)
    requires
        w.inv(),
        w.lifecycle == Lifecycle::Running,
        0 <= k <= script_len(total),
    ensures
        w.applied_all(run_script(total).take(k)).lifecycle == Lifecycle::Running,
        w.applied_all(run_script(total).take(k)).result_log.len() == w.result_log.len()
            + lines_among(k),
        k == script_len(total) ==> w.applied_all(run_script(total).take(k)).run_enabled,
        updates_among(total, k) > 0 ==> w.applied_all(run_script(total).take(k)).progress_pos
            == progress_percent(updates_among(total, k) as usize, total),
        updates_among(total, k) > 0 ==> w.applied_all(run_script(total).take(k)).progress_text
            == progress_label(updates_among(total, k) as usize, total),
    decreases k,
{
    let script = run_script(total);
    if k > 0 {
        lemma_run_prefix(w, total, k - 1);
        lemma_applied_all_frame(w, script.take(k - 1));
        assert(script.take(k).drop_last() =~= script.take(k - 1));
        assert(script.take(k).last() == script_message(total, k - 1));
        let m = script_message(total, k - 1);
        lemma_percent_range(m);
    } else {
        assert(script.take(0).len() == 0);
    }
}

} // verus!
