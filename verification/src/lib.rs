//! Native backend of a desktop application shell: the response envelope its
//! commands answer with, the restore plan of the single-instance guard and
//! the tray, the window-event policy, and the devtools, quit, dialog and
//! system-info command decisions.

pub mod commands;
pub mod dialogs;
pub mod envelope;
pub mod instance;
pub mod payload;
pub mod tray;
pub mod window;
