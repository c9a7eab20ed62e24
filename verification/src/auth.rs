//! Google Drive links, rclone configuration and account profile data.
pub mod drive;
