//! Window state machine: the one owner of the controls and of what they show.
//!
//! The window never touches the toolkit. Each event changes its state and yields the
//! commands that the caller has to carry out, in order. Two commands ask for something
//! that only the caller can find out; the answer comes back through `on_create` and
//! `on_folder_selected`.

use crate::app::App;
use crate::bus::{messages_of, EnvelopeView, MessageBus};
use crate::control::{
    ControlRect, ControlRegistry, ID_BTN_PATH, ID_BTN_RUN, ID_PROGRESS_TXT, ID_TEXTBOX_PATH,
    ID_TEXTBOX_RESULT,
};
use crate::layout::{
    font_height, font_height_at, layout, layout_map, layout_order, relayout, scale_length,
    scaled_length, Metrics, REFERENCE_DPI,
};
use crate::message::{Message, MessageView, Notification};
use crate::text::{copy_string, with_line_end};
use crate::thread_safe::ThreadSafeHwnd;
use crate::window_model::{
    create_actions, font_actions, font_targets, high_word, low_word, progress_percent,
    reposition_actions, ActionView, Lifecycle, WindowView, EN_CHANGE, WM_COMMAND, WM_CREATE,
    WM_DESTROY, WM_PAINT, WM_SIZE,
};
use vstd::prelude::*;

verus! {

/// A command for the toolkit.
#[derive(Clone, Debug, PartialEq, Eq)]
pub enum Action {
    /// Find out the dots per inch of the window and answer with `on_create`.
    QueryDpi,
    /// Give the native window this size, in device pixels, without moving it.
    ResizeWindow { width: u32, height: u32 },
    /// Create the control `id` at `rect`.
    CreateControl { id: usize, rect: ControlRect },
    /// Give the control `id` the window's font at the height `size`.
    SetFont { id: usize, size: i32 },
    /// End the message loop.
    Quit,
    /// Fill the client area with the window's background.
    Repaint,
    /// Move the control `id` to `rect`.
    Reposition { id: usize, rect: ControlRect },
    /// Scroll the path field back to its start.
    ScrollPathToStart,
    /// Ask the user for a folder and answer with `on_folder_selected`.
    OpenFolderDialog,
    /// Show `text` in the path field.
    SetPathText { text: String },
    /// Read the text of the path field.
    ReadPathText,
    /// Start a worker that addresses `target`.
    StartRun { target: ThreadSafeHwnd },
    /// Show `text` beside the progress bar and set the bar to `position`.
    SetProgress { text: String, position: usize },
    /// Add `text` at the end of the result log and scroll to it.
    AppendLog { text: String },
    /// Enable or disable the control `id`.
    EnableControl { id: usize, enabled: bool },
    /// Leave the message to the toolkit.
    DefaultProcessing,
}

impl View for Action {
    type V = ActionView;

    open spec fn view(&self) -> ActionView {
        match self {
            Action::QueryDpi => ActionView::QueryDpi,
            Action::ResizeWindow { width, height } => ActionView::ResizeWindow {
                width: *width,
                height: *height,
            },
            Action::CreateControl { id, rect } => ActionView::CreateControl {
                id: *id,
                rect: *rect,
            },
            Action::SetFont { id, size } => ActionView::SetFont { id: *id, size: *size },
            Action::Quit => ActionView::Quit,
            Action::Repaint => ActionView::Repaint,
            Action::Reposition { id, rect } => ActionView::Reposition { id: *id, rect: *rect },
            Action::ScrollPathToStart => ActionView::ScrollPathToStart,
            Action::OpenFolderDialog => ActionView::OpenFolderDialog,
            Action::SetPathText { text } => ActionView::SetPathText { text: text@ },
            Action::ReadPathText => ActionView::ReadPathText,
            Action::StartRun { target } => ActionView::StartRun { target: *target },
            Action::SetProgress { text, position } => ActionView::SetProgress {
                text: text@,
                position: *position,
            },
            Action::AppendLog { text } => ActionView::AppendLog { text: text@ },
            Action::EnableControl { id, enabled } => ActionView::EnableControl {
                id: *id,
                enabled: *enabled,
            },
            Action::DefaultProcessing => ActionView::DefaultProcessing,
        }
    }
}

/// What each command of `actions` says, in the same order.
pub open spec fn action_views(actions: Seq<Action>) -> Seq<ActionView> {
    actions.map_values(|a: Action| a@)
}

/// The text of each line of `lines`, in the same order.
pub open spec fn line_views(lines: Seq<String>) -> Seq<Seq<char>> {
    lines.map_values(|s: String| s@)
}

fn emit(actions: &mut Vec<Action>, action: Action)
    ensures
        action_views(final(actions)@) == action_views(old(actions)@).push(action@),
{
    actions.push(action);
    assert(action_views(actions@) =~= action_views(old(actions)@).push(action@));
}

/// The low sixteen bits of `l`.
pub fn loword(l: isize) -> (r: isize)
    ensures
        r == low_word(l as int),
        0 <= r <= 0xFFFF,
{
    let m: isize = l % 0x1_0000;
    if m < 0 {
        m + 0x1_0000
    } else {
        m
    }
}

/// The sixteen bits of `l` above the low sixteen.
pub fn hiword(l: isize) -> (r: isize)
    ensures
        r == high_word(l as int),
        0 <= r <= 0xFFFF,
{
    let q: isize = l / 0x1_0000;
    let m: isize = l % 0x1_0000;
    let floor: isize = if m < 0 {
        q - 1
    } else {
        q
    };
    loword(floor)
}

/// Computes `progress_percent`.
pub fn percent(current: usize, total: usize) -> (p: usize)
    ensures
        p == progress_percent(current, total),
        p <= 100,
{
    if total == 0 || current >= total {
        100
    } else {
        assert(0 <= (current * 100) / (total as int) < 100) by (nonlinear_arith)
            requires
                0 <= current < total,
        ;
        let q: u128 = (current as u128 * 100) / (total as u128);
        q as usize
    }
}

fn push_create_actions(controls: &ControlRegistry, actions: &mut Vec<Action>)
    requires
        controls.wf(),
    ensures
        action_views(final(actions)@) == action_views(old(actions)@) + create_actions(
            controls.ids(),
            controls@,
        ),
{
    let n = controls.len();
    let mut i: usize = 0;
    assert(action_views(actions@) =~= action_views(old(actions)@) + create_actions(
        controls.ids(),
        controls@,
    ).take(0));
    while i < n
        invariant
            controls.wf(),
            n == controls.ids().len(),
            i <= n,
            action_views(actions@) == action_views(old(actions)@) + create_actions(
                controls.ids(),
                controls@,
            ).take(i as int),
        decreases n - i,
    {
        let entry = match controls.entry(i) {
            Some(entry) => entry,
            None => {
                proof {
                    assert(false);
                }
                return ;
            },
        };
        emit(actions, Action::CreateControl { id: entry.id, rect: entry.rect });
        proof {
            let all = create_actions(controls.ids(), controls@);
            assert(all.take(i as int).push(all[i as int]) =~= all.take(i + 1));
            assert((action_views(old(actions)@) + all.take(i as int)).push(all[i as int])
                =~= action_views(old(actions)@) + all.take(i + 1));
        }
        i += 1;
    }
    proof {
        let all = create_actions(controls.ids(), controls@);
        assert(all.take(n as int) =~= all);
    }
}

fn push_reposition_actions(controls: &ControlRegistry, actions: &mut Vec<Action>)
    requires
        controls.wf(),
    ensures
        action_views(final(actions)@) == action_views(old(actions)@) + reposition_actions(
            controls.ids(),
            controls@,
        ),
{
    let n = controls.len();
    let mut i: usize = 0;
    assert(action_views(actions@) =~= action_views(old(actions)@) + reposition_actions(
        controls.ids(),
        controls@,
    ).take(0));
    while i < n
        invariant
            controls.wf(),
            n == controls.ids().len(),
            i <= n,
            action_views(actions@) == action_views(old(actions)@) + reposition_actions(
                controls.ids(),
                controls@,
            ).take(2 * i),
        decreases n - i,
    {
        let entry = match controls.entry(i) {
            Some(entry) => entry,
            None => {
                proof {
                    assert(false);
                }
                return ;
            },
        };
        emit(actions, Action::Reposition { id: entry.id, rect: entry.rect });
        emit(actions, Action::ScrollPathToStart);
        proof {
            let all = reposition_actions(controls.ids(), controls@);
            assert(all.take(2 * i).push(all[2 * i]).push(all[2 * i + 1]) =~= all.take(
                2 * (i + 1),
            ));
            assert((action_views(old(actions)@) + all.take(2 * i)).push(all[2 * i]).push(
                all[2 * i + 1],
            ) =~= action_views(old(actions)@) + all.take(2 * (i + 1)));
        }
        i += 1;
    }
    proof {
        let all = reposition_actions(controls.ids(), controls@);
        assert(all.take(2 * n) =~= all);
    }
}

fn push_font_actions(size: i32, actions: &mut Vec<Action>)
    ensures
        action_views(final(actions)@) == action_views(old(actions)@) + font_actions(
            font_targets(),
            size,
        ),
{
    emit(actions, Action::SetFont { id: ID_TEXTBOX_PATH, size });
    emit(actions, Action::SetFont { id: ID_PROGRESS_TXT, size });
    emit(actions, Action::SetFont { id: ID_TEXTBOX_RESULT, size });
    emit(actions, Action::SetFont { id: ID_BTN_PATH, size });
    emit(actions, Action::SetFont { id: ID_BTN_RUN, size });
    assert(action_views(actions@) =~= action_views(old(actions)@) + font_actions(
        font_targets(),
        size,
    ));
}

/// The main window: its life, its controls, and what they show.
pub struct Window {
    app: App,
    lifecycle: Lifecycle,
    controls: ControlRegistry,
    metrics: Metrics,
    width: u32,
    height: u32,
    dpi: u32,
    title: String,
    path_text: String,
    progress_text: String,
    progress_pos: usize,
    result_log: Vec<String>,
    run_enabled: bool,
}

impl View for Window {
    type V = WindowView;

    closed spec fn view(&self) -> WindowView {
        WindowView {
            lifecycle: self.lifecycle,
            target: self.app.target(),
            controls: self.controls@,
            order: self.controls.ids(),
            metrics: self.metrics,
            width: self.width,
            height: self.height,
            dpi: self.dpi,
            title: self.title@,
            path_text: self.path_text@,
            progress_text: self.progress_text@,
            progress_pos: self.progress_pos,
            result_log: line_views(self.result_log@),
            run_enabled: self.run_enabled,
        }
    }
}

impl Window {
    /// The registry is sound and the window's invariant holds.
    pub closed spec fn wf(&self) -> bool {
        self.controls.wf() && self@.inv()
    }

    /// The state of a window of `width` by `height` pixels at the reference density,
    /// before the native window reports its creation.
    pub fn new(title: &str, width: u32, height: u32, app: App) -> (w: Window)
        ensures
            w.wf(),
            w@.inv(),
            w@ == WindowView::initial(title@, width, height, app.target()),
    {
        let w = Window {
            app,
            lifecycle: Lifecycle::Created,
            controls: ControlRegistry::new(),
            metrics: Metrics::reference(),
            width,
            height,
            dpi: REFERENCE_DPI,
            title: String::from_str(title),
            path_text: String::new(),
            progress_text: String::new(),
            progress_pos: 0,
            result_log: Vec::new(),
            run_enabled: true,
        };
        assert(line_views(w.result_log@) =~= Seq::<Seq<char>>::empty());
        w
    }

    /// Where the window stands in its life.
    pub fn lifecycle(&self) -> (l: Lifecycle)
        ensures
            l == self@.lifecycle,
    {
        self.lifecycle
    }

    /// The application state as the window holds it.
    pub fn app(&self) -> (app: App)
        ensures
            app.target() == self@.target,
    {
        self.app
    }

    /// The title of the window.
    pub fn title(&self) -> (t: &String)
        ensures
            t@ == self@.title,
    {
        &self.title
    }

    /// Width of the last layout, in device pixels.
    pub fn width(&self) -> (w: u32)
        ensures
            w == self@.width,
    {
        self.width
    }

    /// Height of the last layout, in device pixels.
    pub fn height(&self) -> (h: u32)
        ensures
            h == self@.height,
    {
        self.height
    }

    /// Dots per inch at which the window was created.
    pub fn dpi(&self) -> (d: u32)
        ensures
            d == self@.dpi,
    {
        self.dpi
    }

    /// The layout constants of the window.
    pub fn metrics(&self) -> (m: Metrics)
        ensures
            m == self@.metrics,
    {
        self.metrics
    }

    /// The rectangle of the control `id`, if the window has that control.
    pub fn control_rect(&self, id: usize) -> (r: Option<ControlRect>)
        requires
            self.wf(),
        ensures
            r == if self@.controls.contains_key(id) {
                Some(self@.controls[id])
            } else {
                None
            },
    {
        self.controls.get(id)
    }

    /// Number of controls.
    pub fn control_count(&self) -> (n: usize)
        requires
            self.wf(),
        ensures
            n == self@.order.len(),
    {
        self.controls.len()
    }

    /// The text of the path field.
    pub fn path_text(&self) -> (t: &String)
        ensures
            t@ == self@.path_text,
    {
        &self.path_text
    }

    /// The text beside the progress bar.
    pub fn progress_text(&self) -> (t: &String)
        ensures
            t@ == self@.progress_text,
    {
        &self.progress_text
    }

    /// The position of the progress bar, from nothing to a hundred.
    pub fn progress_position(&self) -> (p: usize)
        ensures
            p == self@.progress_pos,
    {
        self.progress_pos
    }

    /// Number of lines in the result log.
    pub fn result_len(&self) -> (n: usize)
        ensures
            n == self@.result_log.len(),
    {
        self.result_log.len()
    }

    /// Line `index` of the result log, if the log has so many.
    pub fn result_line(&self, index: usize) -> (line: Option<&String>)
        ensures
            match line {
                Some(text) => index < self@.result_log.len() && text@
                    == self@.result_log[index as int],
                None => index >= self@.result_log.len(),
            },
    {
        if index < self.result_log.len() {
            Some(&self.result_log[index])
        } else {
            None
        }
    }

    /// Whether the run button is enabled.
    pub fn run_enabled(&self) -> (b: bool)
        ensures
            b == self@.run_enabled,
    {
        self.run_enabled
    }

    /// Scales the size of the window and its layout constants to `dpi` dots per inch,
    /// and asks for the native window to take that size.
    fn set_window(&mut self, dpi: u32, actions: &mut Vec<Action>)
        ensures
            final(self)@ == (WindowView {
                dpi,
                width: scaled_length(old(self)@.width, dpi) as u32,
                height: scaled_length(old(self)@.height, dpi) as u32,
                metrics: Metrics::at_dpi(dpi),
                ..old(self)@
            }),
            final(self).controls == old(self).controls,
            final(self).metrics.wf(),
            action_views(final(actions)@) == action_views(old(actions)@).push(
                ActionView::ResizeWindow {
                    width: scaled_length(old(self)@.width, dpi) as u32,
                    height: scaled_length(old(self)@.height, dpi) as u32,
                },
            ),
    {
        self.dpi = dpi;
        self.width = scale_length(self.width, dpi);
        self.height = scale_length(self.height, dpi);
        self.metrics = Metrics::scaled(dpi);
        emit(actions, Action::ResizeWindow { width: self.width, height: self.height });
    }

    /// Lays the six controls out for the size of the window, and asks for each of them
    /// to be created where it stands.
    fn build_ui(&mut self, actions: &mut Vec<Action>)
        requires
            old(self).metrics.wf(),
        ensures
            final(self).controls.wf(),
            final(self)@ == (WindowView {
                controls: layout_map(old(self)@.width, old(self)@.height, old(self)@.metrics),
                order: layout_order(),
                ..old(self)@
            }),
            action_views(final(actions)@) == action_views(old(actions)@) + create_actions(
                layout_order(),
                layout_map(old(self)@.width, old(self)@.height, old(self)@.metrics),
            ),
    {
        self.controls = layout(self.width, self.height, &self.metrics);
        push_create_actions(&self.controls, actions);
    }

    /// Asks for the font, at the height that goes with the window's density, on the
    /// controls that show text.
    fn set_ctrl_font(&self, actions: &mut Vec<Action>)
        ensures
            action_views(final(actions)@) == action_views(old(actions)@) + font_actions(
                font_targets(),
                font_height_at(self@.dpi) as i32,
            ),
    {
        push_font_actions(font_height(self.dpi), actions);
    }

    /// Binds the application to the handle of the window.
    fn init(&mut self, hwnd: ThreadSafeHwnd)
        ensures
            final(self)@ == (WindowView { target: Some(hwnd), ..old(self)@ }),
            final(self).controls == old(self).controls,
    {
        self.app.init_app(hwnd);
    }

    /// The native window reported its creation under `hwnd`, at `dpi` dots per inch.
    ///
    /// Size and layout constants are scaled, the six controls are laid out, the
    /// application is bound to the handle, and the window runs. The commands resize the
    /// native window, create the controls and set their font. A window that was created
    /// before is left alone.
    pub fn on_create(&mut self, hwnd: ThreadSafeHwnd, dpi: u32) -> (actions: Vec<Action>)
        requires
            old(self).wf(),
        ensures
            final(self).wf(),
            final(self)@.inv(),
            final(self)@ == old(self)@.created(hwnd, dpi),
            action_views(actions@) == old(self)@.creation_actions(hwnd, dpi),
    {
        let mut actions: Vec<Action> = Vec::new();
        assert(action_views(actions@) =~= Seq::<ActionView>::empty());
        match self.lifecycle {
            Lifecycle::Created => {
                self.set_window(dpi, &mut actions);
                self.build_ui(&mut actions);
                self.set_ctrl_font(&mut actions);
                self.init(hwnd);
                self.lifecycle = Lifecycle::Running;
                assert(action_views(actions@) =~= old(self)@.creation_actions(hwnd, dpi));
            },
            _ => {},
        }
        actions
    }

    /// The client area took the size `width` by `height`: every control of a running
    /// window gets its new rectangle.
    pub fn update_rect(&mut self, width: u32, height: u32)
        requires
            old(self).wf(),
        ensures
            final(self).wf(),
            final(self)@.inv(),
            final(self)@ == old(self)@.resized(width, height),
    {
        match self.lifecycle {
            Lifecycle::Running => {
                relayout(&mut self.controls, width, height, &self.metrics);
                assert(old(self)@.controls.union_prefer_right(
                    layout_map(width, height, self.metrics),
                ) =~= layout_map(width, height, self.metrics));
                self.width = width;
                self.height = height;
            },
            _ => {},
        }
    }

    /// The commands that move every control to its rectangle.
    pub fn update_position(&self) -> (actions: Vec<Action>)
        requires
            self.wf(),
        ensures
            action_views(actions@) == reposition_actions(self@.order, self@.controls),
    {
        let mut actions: Vec<Action> = Vec::new();
        assert(action_views(actions@) =~= Seq::<ActionView>::empty());
        push_reposition_actions(&self.controls, &mut actions);
        assert(Seq::<ActionView>::empty() + reposition_actions(self@.order, self@.controls)
            =~= reposition_actions(self@.order, self@.controls));
        actions
    }

    /// The folder dialog answered `path`; an empty answer means that the user cancelled.
    pub fn on_folder_selected(&mut self, path: String) -> (actions: Vec<Action>)
        requires
            old(self).wf(),
        ensures
            final(self).wf(),
            final(self)@.inv(),
            final(self)@ == old(self)@.folder_selected(path@),
            action_views(actions@) == old(self)@.folder_actions(path@),
    {
        let mut actions: Vec<Action> = Vec::new();
        assert(action_views(actions@) =~= Seq::<ActionView>::empty());
        match self.lifecycle {
            Lifecycle::Running => {
                if path.as_str().unicode_len() > 0 {
                    let text = copy_string(&path);
                    self.path_text = path;
                    emit(&mut actions, Action::SetPathText { text });
                    assert(action_views(actions@) =~= old(self)@.folder_actions(path@));
                }
            },
            _ => {},
        }
        actions
    }

    /// The path button was clicked: the folder dialog is to be opened.
    fn on_path_btn(&self, actions: &mut Vec<Action>)
        requires
            self@.lifecycle == Lifecycle::Running,
        ensures
            action_views(final(actions)@) == action_views(old(actions)@)
                + self@.command_actions(ID_BTN_PATH),
    {
        let ghost before = action_views(actions@);
        emit(actions, Action::OpenFolderDialog);
        assert(before.push(ActionView::OpenFolderDialog) =~= before + seq![
            ActionView::OpenFolderDialog,
        ]);
    }

    /// The run button was clicked. If the button is enabled and there is a handle for a
    /// worker to address, the button is disabled and a run is started; else the click is
    /// ignored.
    fn on_go_btn(&mut self, actions: &mut Vec<Action>)
        requires
            old(self).wf(),
            old(self)@.lifecycle == Lifecycle::Running,
        ensures
            final(self).wf(),
            final(self)@.inv(),
            final(self)@ == old(self)@.commanded(ID_BTN_RUN),
            action_views(final(actions)@) == action_views(old(actions)@)
                + old(self)@.command_actions(ID_BTN_RUN),
    {
        let ghost before = action_views(actions@);
        assert(before + Seq::<ActionView>::empty() =~= before);
        if self.run_enabled {
            match self.app.window() {
                Some(target) => {
                    self.run_enabled = false;
                    emit(actions, Action::EnableControl { id: ID_BTN_RUN, enabled: false });
                    emit(actions, Action::StartRun { target });
                    assert(before.push(
                        ActionView::EnableControl { id: ID_BTN_RUN, enabled: false },
                    ).push(ActionView::StartRun { target }) =~= before + seq![
                        ActionView::EnableControl { id: ID_BTN_RUN, enabled: false },
                        ActionView::StartRun { target },
                    ]);
                },
                None => {},
            }
        }
    }

    /// A control other than the two buttons sent a command: if the path field tells
    /// that its text has changed, the text is to be read.
    fn on_textbox(&self, wparam: usize, actions: &mut Vec<Action>)
        requires
            self@.lifecycle == Lifecycle::Running,
            wparam != ID_BTN_PATH,
            wparam != ID_BTN_RUN,
        ensures
            action_views(final(actions)@) == action_views(old(actions)@)
                + self@.command_actions(wparam),
    {
        let ghost before = action_views(actions@);
        assert(before + Seq::<ActionView>::empty() =~= before);
        let notification = (wparam / 0x1_0000) % 0x1_0000;
        let control_id = wparam % 0x1_0000;
        if notification == EN_CHANGE && control_id == ID_TEXTBOX_PATH {
            emit(actions, Action::ReadPathText);
            assert(before.push(ActionView::ReadPathText) =~= before + seq![
                ActionView::ReadPathText,
            ]);
        }
    }

    fn on_command(&mut self, wparam: usize, actions: &mut Vec<Action>)
        requires
            old(self).wf(),
        ensures
            final(self).wf(),
            final(self)@.inv(),
            final(self)@ == old(self)@.commanded(wparam),
            action_views(final(actions)@) == action_views(old(actions)@)
                + old(self)@.command_actions(wparam),
    {
        match self.lifecycle {
            Lifecycle::Running => {
                if wparam == ID_BTN_PATH {
                    self.on_path_btn(actions);
                } else if wparam == ID_BTN_RUN {
                    self.on_go_btn(actions);
                } else {
                    self.on_textbox(wparam, actions);
                }
            },
            _ => {
                assert(action_views(actions@) + Seq::<ActionView>::empty() =~= action_views(
                    actions@,
                ));
            },
        }
    }

    /// A progress update arrived: the text beside the bar and the bar's position follow.
    fn on_update_progress(
        &mut self,
        current: usize,
        total: usize,
        label: String,
        actions: &mut Vec<Action>,
    )
        requires
            old(self).wf(),
            old(self)@.lifecycle == Lifecycle::Running,
        ensures
            final(self).wf(),
            final(self)@.inv(),
            final(self)@ == old(self)@.applied(
                MessageView::ProgressUpdate { current, total, label: label@ },
            ),
            action_views(final(actions)@) == action_views(old(actions)@)
                + old(self)@.apply_actions(
                    MessageView::ProgressUpdate { current, total, label: label@ },
                ),
    {
        let ghost before = action_views(actions@);
        let position = percent(current, total);
        let text = copy_string(&label);
        self.progress_text = label;
        self.progress_pos = position;
        emit(actions, Action::SetProgress { text, position });
        assert(before.push(ActionView::SetProgress { text: label@, position }) =~= before
            + seq![ActionView::SetProgress { text: label@, position }]);
    }

    /// A line for the result log arrived: the log grows by it.
    fn on_update_result(&mut self, line: String, actions: &mut Vec<Action>)
        requires
            old(self).wf(),
            old(self)@.lifecycle == Lifecycle::Running,
        ensures
            final(self).wf(),
            final(self)@.inv(),
            final(self)@ == old(self)@.applied(MessageView::ResultAppend { line: line@ }),
            action_views(final(actions)@) == action_views(old(actions)@)
                + old(self)@.apply_actions(MessageView::ResultAppend { line: line@ }),
    {
        let ghost before = action_views(actions@);
        let text = with_line_end(line.as_str());
        let ghost lines = self.result_log@;
        self.result_log.push(line);
        assert(line_views(self.result_log@) =~= line_views(lines).push(line@));
        emit(actions, Action::AppendLog { text });
        assert(before.push(ActionView::AppendLog { text: text@ }) =~= before + seq![
            ActionView::AppendLog { text: text@ },
        ]);
    }

    /// A request to enable or disable the control `id` arrived.
    fn on_ctrl_en_dis(&mut self, id: usize, enabled: bool, actions: &mut Vec<Action>)
        requires
            old(self).wf(),
            old(self)@.lifecycle == Lifecycle::Running,
        ensures
            final(self).wf(),
            final(self)@.inv(),
            final(self)@ == old(self)@.applied(MessageView::SetControlEnabled { id, enabled }),
            action_views(final(actions)@) == action_views(old(actions)@)
                + old(self)@.apply_actions(MessageView::SetControlEnabled { id, enabled }),
    {
        let ghost before = action_views(actions@);
        if id == ID_BTN_RUN {
            self.run_enabled = enabled;
        }
        emit(actions, Action::EnableControl { id, enabled });
        assert(before.push(ActionView::EnableControl { id, enabled }) =~= before + seq![
            ActionView::EnableControl { id, enabled },
        ]);
    }

    fn apply_into(&mut self, message: Message, actions: &mut Vec<Action>)
        requires
            old(self).wf(),
        ensures
            final(self).wf(),
            final(self)@.inv(),
            final(self)@ == old(self)@.applied(message@),
            action_views(final(actions)@) == action_views(old(actions)@)
                + old(self)@.apply_actions(message@),
    {
        match self.lifecycle {
            Lifecycle::Running => {
                match message {
                    Message::ProgressUpdate { current, total, label } => {
                        self.on_update_progress(current, total, label, actions);
                    },
                    Message::ResultAppend { line } => {
                        self.on_update_result(line, actions);
                    },
                    Message::SetControlEnabled { id, enabled } => {
                        self.on_ctrl_en_dis(id, enabled, actions);
                    },
                }
            },
            _ => {
                assert(action_views(actions@) + Seq::<ActionView>::empty() =~= action_views(
                    actions@,
                ));
            },
        }
    }

    /// Applies one message of a worker to what the window shows.
    ///
    /// A progress update sets the text beside the bar and the bar's position; a result
    /// line is added to the log; a request to enable or disable the run button is
    /// remembered. A window that does not run drops the message: its state stays as it
    /// is and no command comes back.
    pub fn apply(&mut self, message: Message) -> (actions: Vec<Action>)
        requires
            old(self).wf(),
        ensures
            final(self).wf(),
            final(self)@.inv(),
            final(self)@ == old(self)@.applied(message@),
            action_views(actions@) == old(self)@.apply_actions(message@),
            old(self)@.lifecycle != Lifecycle::Running ==> final(self)@ == old(self)@
                && actions@.len() == 0,
    {
        let mut actions: Vec<Action> = Vec::new();
        assert(action_views(actions@) =~= Seq::<ActionView>::empty());
        self.apply_into(message, &mut actions);
        assert(Seq::<ActionView>::empty() + old(self)@.apply_actions(message@)
            =~= old(self)@.apply_actions(message@));
        actions
    }

    fn drain_into(&mut self, bus: &mut MessageBus, actions: &mut Vec<Action>)
        requires
            old(self).wf(),
            old(bus).wf(),
            old(self)@.lifecycle == Lifecycle::Running,
        ensures
            final(self).wf(),
            final(self)@.inv(),
            final(bus).wf(),
            final(bus).is_open() == old(bus).is_open(),
            final(bus).pending() == Seq::<EnvelopeView>::empty(),
            final(self)@ == old(self)@.applied_all(messages_of(old(bus).pending())),
            action_views(final(actions)@) == action_views(old(actions)@)
                + old(self)@.apply_all_actions(messages_of(old(bus).pending())),
    {
        let ghost start = self@;
        let ghost before = action_views(actions@);
        let ghost all = messages_of(bus.pending());
        let ghost pending = bus.pending();
        let ghost mut done: int = 0;
        assert(all.take(0).len() == 0);
        assert(before + start.apply_all_actions(all.take(0)) =~= before);
        assert(pending.skip(0) =~= pending);
        loop
            invariant
                self.wf(),
                bus.wf(),
                bus.is_open() == old(bus).is_open(),
                pending == old(bus).pending(),
                all == messages_of(pending),
                start == old(self)@,
                start.inv(),
                before == action_views(old(actions)@),
                0 <= done <= pending.len(),
                bus.pending() == pending.skip(done),
                self@ == start.applied_all(all.take(done)),
                action_views(actions@) == before + start.apply_all_actions(all.take(done)),
            ensures
                self.wf(),
                bus.wf(),
                bus.is_open() == old(bus).is_open(),
                bus.pending() == Seq::<EnvelopeView>::empty(),
                self@ == start.applied_all(all),
                action_views(actions@) == before + start.apply_all_actions(all),
            decreases pending.len() - done,
        {
            let ghost now = self@;
            let ghost sofar = action_views(actions@);
            match bus.take() {
                Some(envelope) => {
                    let ghost m = envelope.message@;
                    self.apply_into(envelope.message, actions);
                    proof {
                        assert(envelope@ == pending.skip(done)[0]);
                        assert(m == all[done]);
                        assert(pending.skip(done).drop_first() =~= pending.skip(done + 1));
                        assert(all.take(done + 1).drop_last() =~= all.take(done));
                        assert(all.take(done + 1).last() == m);
                        assert(before + start.apply_all_actions(all.take(done))
                            + now.apply_actions(m) =~= before + (start.apply_all_actions(
                            all.take(done),
                        ) + now.apply_actions(m)));
                        done = done + 1;
                    }
                },
                None => {
                    proof {
                        assert(pending.skip(done).len() == 0);
                        assert(all.take(done) =~= all);
                        assert(bus.pending() =~= Seq::<EnvelopeView>::empty());
                    }
                    break ;
                },
            }
        }
    }

    /// Takes from `bus` all that waits and applies it, oldest first.
    ///
    /// A running window ends with the bus empty and with the state and the commands
    /// that applying the messages one after the other gives. A window that does not run
    /// leaves the bus alone.
    pub fn drain(&mut self, bus: &mut MessageBus) -> (actions: Vec<Action>)
        requires
            old(self).wf(),
            old(bus).wf(),
        ensures
            final(self).wf(),
            final(self)@.inv(),
            final(bus).wf(),
            final(bus).is_open() == old(bus).is_open(),
            old(self)@.lifecycle == Lifecycle::Running ==> {
                &&& final(bus).pending() == Seq::<EnvelopeView>::empty()
                &&& final(self)@ == old(self)@.applied_all(messages_of(old(bus).pending()))
                &&& action_views(actions@) == old(self)@.apply_all_actions(
                    messages_of(old(bus).pending()),
                )
            },
            old(self)@.lifecycle != Lifecycle::Running ==> {
                &&& final(bus).pending() == old(bus).pending()
                &&& final(self)@ == old(self)@
                &&& actions@.len() == 0
            },
    {
        let mut actions: Vec<Action> = Vec::new();
        assert(action_views(actions@) =~= Seq::<ActionView>::empty());
        match self.lifecycle {
            Lifecycle::Running => {
                self.drain_into(bus, &mut actions);
                assert(Seq::<ActionView>::empty() + old(self)@.apply_all_actions(
                    messages_of(old(bus).pending()),
                ) =~= old(self)@.apply_all_actions(messages_of(old(bus).pending())));
            },
            _ => {},
        }
        actions
    }

    /// Serves one message of the toolkit.
    ///
    /// The creation message asks for the density; the destruction message ends the
    /// window's life, closes `bus`, which drops what waits on it, and ends the message
    /// loop. A running window repaints, lays its controls out anew on a new size, serves
    /// the commands of its controls, and drains `bus` when a worker's notification
    /// arrives. Whatever the window does not know is left to the toolkit.
    pub fn message_handler(
        &mut self,
        bus: &mut MessageBus,
        message: u32,
        wparam: usize,
        lparam: isize,
    ) -> (actions: Vec<Action>)
        requires
            old(self).wf(),
            old(bus).wf(),
        ensures
            final(self).wf(),
            final(self)@.inv(),
            final(bus).wf(),
            final(self)@ == old(self)@.handled(
                messages_of(old(bus).pending()),
                message,
                wparam,
                lparam,
            ),
            action_views(actions@) == old(self)@.handle_actions(
                messages_of(old(bus).pending()),
                message,
                wparam,
                lparam,
            ),
            final(bus).is_open() == (old(bus).is_open() && message != WM_DESTROY),
            final(bus).pending() == if old(self)@.empties_bus(message) {
                Seq::<EnvelopeView>::empty()
            } else {
                old(bus).pending()
            },
    {
        let mut actions: Vec<Action> = Vec::new();
        let ghost none = Seq::<ActionView>::empty();
        assert(action_views(actions@) =~= none);
        let running = match self.lifecycle {
            Lifecycle::Running => true,
            _ => false,
        };
        if message == WM_DESTROY {
            bus.close();
            match self.lifecycle {
                Lifecycle::Destroyed => {},
                _ => {
                    self.lifecycle = Lifecycle::Destroyed;
                    self.app.release();
                    emit(&mut actions, Action::Quit);
                    assert(none.push(ActionView::Quit) =~= seq![ActionView::Quit]);
                },
            }
        } else if message == WM_CREATE {
            match self.lifecycle {
                Lifecycle::Created => {
                    emit(&mut actions, Action::QueryDpi);
                    assert(none.push(ActionView::QueryDpi) =~= seq![ActionView::QueryDpi]);
                },
                _ => {},
            }
        } else if message == WM_PAINT {
            if running {
                emit(&mut actions, Action::Repaint);
                assert(none.push(ActionView::Repaint) =~= seq![ActionView::Repaint]);
            }
        } else if message == WM_SIZE {
            if running {
                let width = loword(lparam) as u32;
                let height = hiword(lparam) as u32;
                self.update_rect(width, height);
                push_reposition_actions(&self.controls, &mut actions);
                assert(none + reposition_actions(self@.order, self@.controls)
                    =~= reposition_actions(self@.order, self@.controls));
            }
        } else if message == WM_COMMAND {
            self.on_command(wparam, &mut actions);
            assert(none + old(self)@.command_actions(wparam) =~= old(self)@.command_actions(
                wparam,
            ));
        } else if Notification::from_code(message).is_some() {
            if running {
                self.drain_into(bus, &mut actions);
                assert(none + old(self)@.apply_all_actions(messages_of(old(bus).pending()))
                    =~= old(self)@.apply_all_actions(messages_of(old(bus).pending())));
            }
        } else {
            emit(&mut actions, Action::DefaultProcessing);
            assert(none.push(ActionView::DefaultProcessing) =~= seq![
                ActionView::DefaultProcessing,
            ]);
        }
        actions
    }
}

} // verus!
