//! Core of an automatic host-shutdown scheduler: the schedule state machine
//! (arming, pre-alerts, final warning, one-time commit to execution), the
//! process-liveness matching engine, and the durable-store decision logic
//! (sanitization, corruption recovery, bounded history).
pub mod dispatch;
pub mod engine;
pub mod guard;
pub mod history;
pub mod laws;
pub mod matcher;
pub mod notify;
pub mod paths;
pub mod schedule;
pub mod selector;
pub mod settings;
pub mod store;
pub mod text;
pub mod tick;
pub mod time;
pub mod types;
