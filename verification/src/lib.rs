//! Verified core of a snapshot-based backup orchestrator.
//!
//! The library models the btrfs control-channel protocol, collision-safe
//! snapshot naming, the backup run as an explicit state machine, and the
//! classification of a child process's termination status. All filesystem
//! and process side effects are performed by an unverified driver that
//! executes the actions this library emits.
//!
//! - [`btrfs`]: the control-channel request and response records and their
//!   exact byte encodings.
//! - [`naming`]: the hash-based candidate names for snapshots.
//! - [`backup`]: the run's state machine, the spawn plan, and the
//!   termination-status taxonomy.
//! - [`check`]: the repository-reachability probe's log classification.
//! - [`config`]: archive specifications and their validation rules.

pub mod backup;
pub mod btrfs;
pub mod check;
pub mod config;
pub mod naming;
