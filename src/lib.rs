//! Coordination of application start-up: the main window is revealed only
//! once both setup phases (frontend and backend) have reported completion.

pub mod coordinator;
pub mod laws;
pub mod setup;
mod text;
pub mod tray;
