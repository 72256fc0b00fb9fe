//! Decision core of the AE2 Lanuis terminal client shell: the stored
//! connection settings, the tray menu, the window policy and the handling of
//! the events that the application loop delivers.

pub mod config;
pub mod shell;
mod text;
pub mod tray;
pub mod window;

pub use config::{ConnectionConfig, ConnectionConfigView, CONNECTION_CONFIG_FILE};
