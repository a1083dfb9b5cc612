//! The editor's widget state: cursors per context, the editor view, the
//! command palette, the slot-based status bar and toast notifications.
//! Only widget state and its rules live here; painting is left to the
//! surrounding binary.

pub mod cursor;

pub mod editor;

pub mod modal;

pub mod status_bar;

pub mod toast;

pub use cursor::Cursor;
pub use cursor::CursorManager;
pub use cursor::CursorState;
pub use status_bar::SlotAlignment;
pub use status_bar::StatusBar;
pub use status_bar::StatusSlot;
