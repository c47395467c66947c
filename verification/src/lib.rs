//! Launcher and lifecycle supervisor for a backend that a desktop shell
//! runs as a local sidecar process.
//!
//! The crate decides; the shell around it acts. It names the sidecar for
//! the machine (`platform`), lays out the data directory (`layout`), builds
//! the backend's environment (`environment`) and the launch plan (`plan`)
//! on a freshly allocated port (`port`), reads the answers of the health
//! endpoint (`probe`), words the failures (`error`), relays the backend's
//! output (`relay`), and keeps the supervisor's record (`supervisor`),
//! whose state machine is written down in `model` and whose laws are
//! proved in `laws`. The shell's own small rules, the tray menu (`tray`)
//! and the window events (`lifecycle`), are here as well.

pub mod environment;
pub mod error;
pub mod laws;
pub mod layout;
pub mod lifecycle;
pub mod model;
pub mod plan;
pub mod platform;
pub mod port;
pub mod probe;
pub mod relay;
pub mod supervisor;
pub mod text;
pub mod tray;
