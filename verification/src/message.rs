//! Notifications that a worker sends to the window, and the codes under which the
//! toolkit carries them.

use vstd::prelude::*;

verus! {

/// First code of the range that the toolkit leaves to a window class for its own use.
pub const WM_USER: u32 = 0x0400;

/// Last code of that range.
pub const WM_USER_LAST: u32 = 0x7FFF;

/// Code of a progress update.
pub const APP_UPDATE_PROGRESS: u32 = WM_USER + 1;

/// Code of a line for the result log.
pub const APP_UPDATE_RESULT: u32 = WM_USER + 2;

/// Code of a request to enable or disable a control.
pub const CTRL_EN_DIS: u32 = WM_USER + 3;

/// The kinds of notification that cross from a worker to the window.
#[derive(Clone, Copy, Debug, PartialEq, Eq, Structural)]
pub enum Notification {
    UpdateProgress,
    UpdateResult,
    CtrlEnDis,
}

impl Notification {
    /// The toolkit code of this kind.
    pub open spec fn code_of(self) -> u32 {
        match self {
            Notification::UpdateProgress => APP_UPDATE_PROGRESS,
            Notification::UpdateResult => APP_UPDATE_RESULT,
            Notification::CtrlEnDis => CTRL_EN_DIS,
        }
    }

    /// The kind that `code` stands for, if it stands for one.
    pub open spec fn of_code(code: u32) -> Option<Notification> {
        if code == APP_UPDATE_PROGRESS {
            Some(Notification::UpdateProgress)
        } else if code == APP_UPDATE_RESULT {
            Some(Notification::UpdateResult)
        } else if code == CTRL_EN_DIS {
            Some(Notification::CtrlEnDis)
        } else {
            None
        }
    }

    /// Computes `code_of`.
    pub fn code(&self) -> (c: u32)
        ensures
            c == self.code_of(),
            WM_USER < c <= WM_USER_LAST,
    {
        match self {
            Notification::UpdateProgress => APP_UPDATE_PROGRESS,
            Notification::UpdateResult => APP_UPDATE_RESULT,
            Notification::CtrlEnDis => CTRL_EN_DIS,
        }
    }

    /// Computes `of_code`.
    pub fn from_code(code: u32) -> (n: Option<Notification>)
        ensures
            n == Notification::of_code(code),
    {
        if code == APP_UPDATE_PROGRESS {
            Some(Notification::UpdateProgress)
        } else if code == APP_UPDATE_RESULT {
            Some(Notification::UpdateResult)
        } else if code == CTRL_EN_DIS {
            Some(Notification::CtrlEnDis)
        } else {
            None
        }
    }
}

/// Every kind has a code of its own inside the range left to the window class, and the
/// code leads back to the kind; a code outside the three leads to no kind.
pub proof fn lemma_codes(a: Notification, b: Notification, code: u32)
    ensures
        WM_USER < a.code_of() <= WM_USER_LAST,
        a.code_of() == b.code_of() ==> a == b,
        Notification::of_code(a.code_of()) == Some(a),
        Notification::of_code(code) == Some(a) <==> code == a.code_of(),
{
}

/// One notification from a worker.
#[derive(Clone, Debug, PartialEq, Eq)]
pub enum Message {
    /// Step `current` of `total` is done; `label` is the text to show beside the bar.
    ProgressUpdate { current: usize, total: usize, label: String },
    /// `line` is to be added to the result log.
    ResultAppend { line: String },
    /// The control `id` is to be enabled or disabled.
    SetControlEnabled { id: usize, enabled: bool },
}

/// What a `Message` says, with its texts as sequences of characters.
pub enum MessageView {
    ProgressUpdate { current: usize, total: usize, label: Seq<char> },
    ResultAppend { line: Seq<char> },
    SetControlEnabled { id: usize, enabled: bool },
}

impl View for Message {
    type V = MessageView;

    open spec fn view(&self) -> MessageView {
        match self {
            Message::ProgressUpdate { current, total, label } => MessageView::ProgressUpdate {
                current: *current,
                total: *total,
                label: label@,
            },
            Message::ResultAppend { line } => MessageView::ResultAppend { line: line@ },
            Message::SetControlEnabled { id, enabled } => MessageView::SetControlEnabled {
                id: *id,
                enabled: *enabled,
            },
        }
    }
}

impl MessageView {
    /// The kind of notification that carries this message.
    pub open spec fn kind(self) -> Notification {
        match self {
            MessageView::ProgressUpdate { .. } => Notification::UpdateProgress,
            MessageView::ResultAppend { .. } => Notification::UpdateResult,
            MessageView::SetControlEnabled { .. } => Notification::CtrlEnDis,
        }
    }
}

impl Message {
    /// The kind of notification that carries this message.
    pub fn notification(&self) -> (n: Notification)
        ensures
            n == self@.kind(),
    {
        match self {
            Message::ProgressUpdate { .. } => Notification::UpdateProgress,
            Message::ResultAppend { .. } => Notification::UpdateResult,
            Message::SetControlEnabled { .. } => Notification::CtrlEnDis,
        }
    }

    /// A copy that says the same.
    pub fn duplicate(&self) -> (m: Message)
        ensures
            m@ == self@,
    {
        match self {
            Message::ProgressUpdate { current, total, label } => Message::ProgressUpdate {
                current: *current,
                total: *total,
                label: label.clone(),
            },
            Message::ResultAppend { line } => Message::ResultAppend { line: line.clone() },
            Message::SetControlEnabled { id, enabled } => Message::SetControlEnabled {
                id: *id,
                enabled: *enabled,
            },
        }
    }
}

/// What each message of `messages` says, in the same order.
pub open spec fn views(messages: Seq<Message>) -> Seq<MessageView> {
    messages.map_values(|m: Message| m@)
}

} // verus!
