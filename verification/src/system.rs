//! The host system: keeping it awake during transfers, and the storage a
//! transfer writes to.
pub mod power;
pub mod storage;
