# Balladi Drive core

Balladi Drive moves media between local disks and Google Drive through an
rclone daemon. This crate is its verified core, written in Verus:

- `src/auth/drive.rs`: Google Drive share links, the rclone connection
  string, the `gdrive` access token in an rclone configuration, and the
  signed-in user.
- `src/engine/rclone.rs`: transfer routing, rclone remote-control requests,
  error classification, clutter filtering and mode names.
- `src/engine/state.rs`: the transfer state machine (one transfer at a time,
  superseded starts, confirmed stops).
- `src/engine/verification.rs`: integrity verdicts for single files, uploads
  and directories.
- `src/engine/daemon.rs`: which credentials the daemon runs with and when a
  running daemon is kept.
- `src/settings.rs`: settings, OAuth clients, fingerprints, redaction and the
  webhook allowlist.
- `src/connect.rs`: connecting a Google account, the connect transaction and
  its rollback.
- `src/system/`: the sleep lock and storage inspection decisions.
- `src/text.rs`, `src/digest.rs`: string and digest helpers.

`app/` holds the application around it: files, processes, HTTP and the
commands of the user interface. `tests/` exercises the library.
