//! Core of a small desktop application: a main window with a path picker, a run button,
//! a progress bar and a result log, fed by workers that report their progress.
//!
//! The window state machine owns the controls and what they show. Workers never touch
//! it: they put messages on the bus, and the thread that owns the window takes them in
//! the order in which they were posted and applies them one by one. The layout engine
//! places the controls for a given size and density. Nothing here calls the toolkit:
//! every event yields commands, and the program around this library carries them out.

pub mod app;
pub mod bus;
pub mod control;
pub mod delivery;
pub mod layout;
pub mod message;
pub mod text;
pub mod thread_safe;
pub mod win_str;
pub mod window;
pub mod window_model;
pub mod worker;
