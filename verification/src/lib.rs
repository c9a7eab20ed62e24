//! Verified core of the Balladi Drive transfer tool: Google Drive link and
//! rclone configuration parsing, transfer routing and request building, the
//! transfer state machine, integrity-verification verdicts, the daemon's
//! credentials, OAuth settings handling, the connect transaction's decisions,
//! and the host checks (sleep lock, storage).
pub mod auth;
pub mod connect;
pub mod digest;
pub mod engine;
pub mod settings;
pub mod system;
pub mod text;
