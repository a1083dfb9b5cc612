//! An interactive, terminal-rendered text editor core.
//!
//! The library holds the event-driven heart of the editor: the line-based
//! text buffer with cursor and selection, the cursor context manager, the
//! screen/buffer coordinate mapper, the typed publish/subscribe event bus,
//! the keyboard and mouse interpreters, and the shared editor state that
//! they mutate. Terminal I/O, file access and widget painting live outside,
//! in the surrounding binary; everything here is pure state manipulation
//! with verified contracts.

pub mod app;

pub mod buffer;

pub mod config;

pub mod events;

pub mod handlers;

pub mod input;

pub mod performance;

pub mod plugins;

pub mod text;

pub mod ui;

pub mod widgets;

pub use app::App;
pub use app::CommandMode;
pub use buffer::Buffer;
