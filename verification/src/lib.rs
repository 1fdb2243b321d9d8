//! Durable session semantics for a local conversation recorder: stable
//! session records, the deterministic session state machine and its
//! presentation, and the decisions that guard the durable preparation,
//! media, recovery and library projections of the native store.

pub mod types;

pub use types::{
    DurabilityRecord, Lifecycle, PermissionRecord, PermissionState, RecoveryRecord, RecoveryStatus,
    SessionHealth, SessionId, SessionRecord, SourceActivity, SourceHealth, SourceId, SourceKind,
    SourceRecord,
};
pub mod text;
pub mod domain;
pub mod controller;
pub mod store;
pub mod caf;
pub mod validation;
pub mod journal;
pub mod media;
pub mod decisions;
pub mod recovery;
pub mod runtime;
pub mod native;
pub mod site;
