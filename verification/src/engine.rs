//! The rclone transfer engine: the daemon's credentials, routing and
//! requests, the transfer state machine and integrity verdicts.
pub mod daemon;
pub mod rclone;
pub mod state;
pub mod verification;
