//! The decisions of a desktop shell that supervises a local backend service:
//! how the service is launched and probed, how menu and tray clicks are routed
//! to the user interface, how a document is handed to the platform's viewer,
//! and what a save dialog reports. The shell itself performs the effects; this
//! library says what is to be done and what each outcome means.

pub mod command;
pub mod dialog;
pub mod events;
pub mod menu;
pub mod supervisor;
pub mod text;
pub mod tray;
pub mod viewer;
