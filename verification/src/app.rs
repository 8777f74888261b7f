//! Application state: who the workers address, and how a notification gets on the bus.

use crate::bus::{after_post, EnvelopeView, MessageBus};
use crate::message::Message;
use crate::thread_safe::ThreadSafeHwnd;
use crate::worker::{Worker, RUN_STEPS};
use vstd::prelude::*;

verus! {

/// What the poster hands to the toolkit after it has queued a message: the window to
/// wake, and the code that tells it which kind of message waits.
#[derive(Clone, Copy, Debug, PartialEq, Eq, Structural)]
pub struct Wake {
    pub target: ThreadSafeHwnd,
    pub code: u32,
}

/// State that belongs to the application rather than to its window: the handle under
/// which workers reach the window, once there is one.
#[derive(Clone, Copy, Debug, PartialEq, Eq)]
pub struct App {
    window: Option<ThreadSafeHwnd>,
}

impl Default for App {
    fn default() -> (app: App)
        ensures
            app.target() == None::<ThreadSafeHwnd>,
    {
        App { window: None }
    }
}

impl App {
    /// The window that notifications are addressed to, if one is bound.
    pub closed spec fn target(&self) -> Option<ThreadSafeHwnd> {
        self.window
    }

    /// An application that has no window yet.
    pub fn new() -> (app: App)
        ensures
            app.target() == None::<ThreadSafeHwnd>,
    {
        App { window: None }
    }

    /// Binds the application to its window.
    pub fn init_app(&mut self, hwnd: ThreadSafeHwnd)
        ensures
            final(self).target() == Some(hwnd),
    {
        self.window = Some(hwnd);
    }

    /// Forgets the window, which is what its destruction calls for.
    pub fn release(&mut self)
        ensures
            final(self).target() == None::<ThreadSafeHwnd>,
    {
        self.window = None;
    }

    /// The window that notifications are addressed to, if one is bound.
    pub fn window(&self) -> (w: Option<ThreadSafeHwnd>)
        ensures
            w == self.target(),
    {
        self.window
    }

    /// Posts `message` for `producer`.
    ///
    /// With a window bound and the bus open, the message is queued behind all that
    /// wait, and the answer names the window to wake and the code of the message's
    /// kind. Without a window, or with the bus closed, the message is dropped and the
    /// bus stays as it is.
    pub fn post_message(&self, bus: &mut MessageBus, producer: usize, message: Message) -> (wake:
        Option<Wake>)
        requires
            old(bus).wf(),
        ensures
            final(bus).wf(),
            final(bus).is_open() == old(bus).is_open(),
            match self.target() {
                Some(hwnd) if old(bus).is_open() => {
                    &&& wake == Some(Wake { target: hwnd, code: message@.kind().code_of() })
                    &&& final(bus).pending() == after_post(
                        old(bus).pending(),
                        EnvelopeView { producer, message: message@ },
                    )
                },
                _ => {
                    &&& wake == None::<Wake>
                    &&& final(bus).pending() == old(bus).pending()
                },
            },
    {
        match self.window {
            Some(hwnd) => {
                let code = message.notification().code();
                if bus.post(producer, message) {
                    Some(Wake { target: hwnd, code })
                } else {
                    None
                }
            },
            None => None,
        }
    }

    /// Starts a run of the progress bar: the worker that will report its thirty steps.
    pub fn run_progress_bar(&self) -> (worker: Worker)
        ensures
            worker == Worker::fresh(RUN_STEPS),
            worker.wf(),
    {
        Worker::new(RUN_STEPS)
    }
}

} // verus!
