//! Window lifecycle core of a tray-resident desktop alarm clock.
//!
//! The library decides, for each event that the GUI runtime delivers, which
//! requests go back to the runtime (show, focus or hide the main window, veto a
//! close, end the process) and how the process-wide exit intent changes.
//! Running those requests is left to the host application.
pub mod commands;
pub mod laws;
pub mod lifecycle;
pub mod router;
pub mod startup;
pub mod text;
