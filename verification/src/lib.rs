//! Decides when an idle virtual machine is to be suspended.

pub mod cli;
pub mod config;
pub mod gce;
pub mod history;
pub mod monitor;
pub mod request_id;
pub mod retry;
pub mod scheduler;
pub mod text;
pub mod time;

pub use config::IdleConfig;
pub use monitor::IdleEvent;
