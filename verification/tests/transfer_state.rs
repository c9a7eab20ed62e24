use balladi_drive::engine::rclone::TransferMode;
use balladi_drive::engine::state::{
    running_job_ids, stop_failure_entry, stop_requests_result, TransferControl, TransferState,
};

fn start(c: &mut TransferControl, job: u64) -> u64 {
    let g = c.begin_start().unwrap();
    let out = c.finish_start(g, Ok(Some(job)), "/src".into(), "gdrive:/dst".into(), TransferMode::DirectoryUpload);
    out.result.unwrap()
}

#[test]
fn test_parse_job_ids_ignores_finished() {
    // "jobids": [101, 102, 103], "runningIds": [103]; only the running list is read.
    let running_ids = vec![Some(103u64)];
    let running = running_job_ids(&running_ids);
    assert_eq!(running, vec![103]);
    assert_eq!(running.len(), 1);
}

#[test]
fn job_ids_skip_non_integers() {
    assert_eq!(running_job_ids(&vec![Some(1), None, Some(3)]), vec![1, 3]);
    assert!(running_job_ids(&vec![]).is_empty());
}

#[test]
fn only_one_transfer_at_a_time() {
    let mut c = TransferControl::new();
    assert!(c.is_idle());
    assert_eq!(start(&mut c, 42), 42);
    assert!(matches!(c.state, TransferState::Running { job_id: 42, .. }));
    assert_eq!(
        c.begin_start().unwrap_err(),
        "A transfer job is already active or in transition."
    );
}

#[test]
fn start_without_job_id_returns_to_idle() {
    let mut c = TransferControl::new();
    let g = c.begin_start().unwrap();
    assert_eq!(g, 1);
    let out = c.finish_start(g, Ok(None), "/s".into(), "/d".into(), TransferMode::LocalFileUpload);
    assert_eq!(out.result.unwrap_err(), "No jobid returned by rclone");
    assert!(c.is_idle());
    let g = c.begin_start().unwrap();
    let out = c.finish_start(g, Err("RC connection error: refused".into()), "/s".into(), "/d".into(), TransferMode::LocalFileUpload);
    assert_eq!(out.result.unwrap_err(), "RC connection error: refused");
    assert!(out.stray_job.is_none());
    assert!(c.is_idle());
}

#[test]
fn stop_all_supersedes_a_pending_start() {
    let mut c = TransferControl::new();
    let g = c.begin_start().unwrap();
    // Stop-all happens while rclone is still answering the start.
    c.begin_stop_all();
    c.mark_stopping(&vec![]);
    c.finish_stop_all();
    let out = c.finish_start(g, Ok(Some(7)), "/s".into(), "/d".into(), TransferMode::DirectoryUpload);
    assert_eq!(out.result.unwrap_err(), "Transfer start was superseded or cancelled.");
    assert_eq!(out.stray_job, Some(7));
    assert!(c.is_idle());
}

#[test]
fn stop_only_the_active_job() {
    let mut c = TransferControl::new();
    start(&mut c, 5);
    assert_eq!(c.begin_stop(6).unwrap_err(), "Cannot stop job 6; active job is 5");
    assert!(c.begin_stop(5).is_ok());
    assert!(matches!(c.state, TransferState::Stopping { job_id: 5 }));
    // A repeated stop of the same job is accepted while stopping.
    assert!(c.begin_stop(5).is_ok());
    c.finish_stop(5);
    assert!(c.is_idle());
    assert_eq!(c.begin_stop(5).unwrap_err(), "No matching active transfer to stop.");
}

#[test]
fn finished_status_frees_the_engine() {
    let mut c = TransferControl::new();
    start(&mut c, 9);
    c.on_job_status(8, true);
    assert!(!c.is_idle());
    c.on_job_status(9, false);
    assert!(!c.is_idle());
    c.on_job_status(9, true);
    assert!(c.is_idle());
}

#[test]
fn stop_all_marks_first_running_job() {
    let mut c = TransferControl::new();
    start(&mut c, 11);
    c.begin_stop_all();
    c.mark_stopping(&vec![11, 12]);
    assert!(matches!(c.state, TransferState::Stopping { job_id: 11 }));
    c.finish_stop_all();
    assert!(c.is_idle());
}

#[test]
fn stop_request_failures_are_reported() {
    assert!(stop_requests_result(&vec![]).is_ok());
    let f = vec![stop_failure_entry(3, "timeout"), stop_failure_entry(4, "gone")];
    assert_eq!(f[0], "job 3: timeout");
    assert_eq!(
        stop_requests_result(&f).unwrap_err(),
        "Could not request termination for all jobs: job 3: timeout; job 4: gone"
    );
}

use balladi_drive::engine::rclone::{build_transfer_request, select_transfer_route, LocalSourceKind, RequestContext};
use balladi_drive::engine::state::{
    after_poll_round, confirm_failure_error, wait_timeout_error, WaitDecision, STOP_CONFIRM_ROUNDS,
};

#[test]
fn start_copy_sequence() {
    // A route error leaves the engine as it was.
    let mut c = TransferControl::new();
    assert!(select_transfer_route("/x", false, &LocalSourceKind::Symlink).is_err());
    assert!(c.is_idle() && c.start_generation == 0);
    // A routed and built request claims the idle engine and runs the job
    // with the request's destination.
    let mode = select_transfer_route("gdrive:abc", true, &LocalSourceKind::Other).unwrap();
    let ctx = RequestContext { source_parent: String::new(), source_file_name: String::new(), destination_dir: Ok(()) };
    let req = build_transfer_request("gdrive:abc", "/tmp/dl", mode, &ctx).unwrap();
    let g = c.begin_start().unwrap();
    assert_eq!(c.start_generation, 1);
    let out = c.finish_start(g, Ok(Some(77)), "gdrive:abc".into(), req.normalized_destination.clone(), mode);
    assert_eq!(out.result.unwrap(), 77);
    match &c.state {
        TransferState::Running { job_id, destination, mode: m, .. } => {
            assert_eq!(*job_id, 77);
            assert_eq!(destination, "/tmp/dl/");
            assert_eq!(*m, TransferMode::DriveFileDownload);
        }
        _ => panic!("not running"),
    }
}

#[test]
fn waiting_for_stopped_jobs() {
    assert_eq!(after_poll_round(0, STOP_CONFIRM_ROUNDS, true), WaitDecision::Confirmed);
    assert_eq!(after_poll_round(0, STOP_CONFIRM_ROUNDS, false), WaitDecision::PollAgain);
    assert_eq!(after_poll_round(18, STOP_CONFIRM_ROUNDS, false), WaitDecision::PollAgain);
    assert_eq!(after_poll_round(19, STOP_CONFIRM_ROUNDS, false), WaitDecision::TimedOut);
    assert_eq!(wait_timeout_error(&vec![1, 22]), "Timed out waiting for jobs to terminate: [1, 22]");
    assert_eq!(wait_timeout_error(&vec![]), "Timed out waiting for jobs to terminate: []");
    assert_eq!(confirm_failure_error(5, "refused"), "Could not confirm termination of job 5: refused");
}
