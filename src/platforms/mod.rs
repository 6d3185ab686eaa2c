//! One module per distribution platform: how its metadata becomes game records.

pub mod ea_app;
pub mod epic;
pub mod gog;
pub mod osx;
pub mod riot;
pub mod steam;
pub mod uplay;
pub mod win_registry;
