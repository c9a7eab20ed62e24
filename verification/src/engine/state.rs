//! The transfer state machine: at most one transfer at a time, starts that
//! can be superseded, and stops that are confirmed before the engine is idle.
use vstd::prelude::*;
use vstd::string::*;
use crate::engine::rclone::{transfer_request_spec, transfer_route_spec, LocalSourceKind, TransferMode};
use crate::text::{concat, decimal_text, join, join_strings, string_views, u64_to_text};

verus! {

broadcast use vstd::string::group_string_axioms;

/// Where the engine is in a transfer's life.
pub enum TransferState {
    Idle,
    Starting { generation: u64 },
    Running { job_id: u64, source: String, destination: String, mode: TransferMode },
    Stopping { job_id: u64 },
}

pub enum StateView {
    Idle,
    Starting { generation: u64 },
    Running { job_id: u64, source: Seq<char>, destination: Seq<char>, mode: TransferMode },
    Stopping { job_id: u64 },
}

impl View for TransferState {
    type V = StateView;

    open spec fn view(&self) -> StateView {
        match self {
            TransferState::Idle => StateView::Idle,
            TransferState::Starting { generation } => StateView::Starting { generation: *generation },
            TransferState::Running { job_id, source, destination, mode } => StateView::Running {
                job_id: *job_id,
                source: source@,
                destination: destination@,
                mode: *mode,
            },
            TransferState::Stopping { job_id } => StateView::Stopping { job_id: *job_id },
        }
    }
}

/// The engine runs job `job_id`.
pub open spec fn runs_job(s: StateView, job_id: u64) -> bool {
    match s {
        StateView::Running { job_id: a, .. } => a == job_id,
        _ => false,
    }
}

/// The transfer state together with the counter that numbers start attempts.
pub struct TransferControl {
    pub state: TransferState,
    pub start_generation: u64,
}

pub struct ControlView {
    pub state: StateView,
    pub generation: u64,
}

impl View for TransferControl {
    type V = ControlView;

    open spec fn view(&self) -> ControlView {
        ControlView { state: self.state@, generation: self.start_generation }
    }
}

/// The next value of the start counter (it wraps like an atomic `fetch_add`).
pub open spec fn next_generation(g: u64) -> u64 {
    if g == u64::MAX {
        0
    } else {
        (g + 1) as u64
    }
}

fn next_generation_exec(g: u64) -> (res: u64)
    ensures
        res == next_generation(g),
{
    if g == u64::MAX {
        0
    } else {
        g + 1
    }
}

pub open spec fn error_text(r: Result<u64, String>) -> Result<u64, Seq<char>> {
    match r {
        Ok(v) => Ok(v),
        Err(e) => Err(e@),
    }
}

pub open spec fn unit_text(r: Result<(), String>) -> Result<(), Seq<char>> {
    match r {
        Ok(_) => Ok(()),
        Err(e) => Err(e@),
    }
}

/// What rclone answered to a transfer request: the job ID it reported (if
/// any), or the error of the call.
pub open spec fn response_view(r: Result<Option<u64>, String>) -> Result<Option<u64>, Seq<char>> {
    match r {
        Ok(v) => Ok(v),
        Err(e) => Err(e@),
    }
}

/// The outcome of a start attempt: the job ID or the error, and a job that
/// rclone started for a superseded attempt and that must be stopped.
pub struct StartOutcome {
    pub result: Result<u64, String>,
    pub stray_job: Option<u64>,
}

/// Claiming the engine for a new transfer: only an idle engine can be
/// claimed, and the attempt gets the next generation number.
pub open spec fn begin_start_spec(c: ControlView) -> (ControlView, Result<u64, Seq<char>>) {
    if c.state == StateView::Idle {
        let g = next_generation(c.generation);
        (ControlView { state: StateView::Starting { generation: g }, generation: g }, Ok(g))
    } else {
        (c, Err("A transfer job is already active or in transition."@))
    }
}

/// Recording rclone's answer to start attempt `g`: `(next control, result,
/// job to stop)`.
pub open spec fn finish_start_spec(
    c: ControlView,
    g: u64,
    response: Result<Option<u64>, Seq<char>>,
    source: Seq<char>,
    destination: Seq<char>,
    mode: TransferMode,
) -> (ControlView, Result<u64, Seq<char>>, Option<u64>) {
    if c.state != (StateView::Starting { generation: g }) {
        (c, Err("Transfer start was superseded or cancelled."@), match response {
            Ok(Some(j)) => Some(j),
            _ => None,
        })
    } else {
        match response {
            Ok(Some(j)) => (
                ControlView {
                    state: StateView::Running { job_id: j, source, destination, mode },
                    generation: c.generation,
                },
                Ok(j),
                None,
            ),
            Ok(None) => (
                ControlView { state: StateView::Idle, generation: c.generation },
                Err("No jobid returned by rclone"@),
                None,
            ),
            Err(e) => (ControlView { state: StateView::Idle, generation: c.generation }, Err(e), None),
        }
    }
}

/// Asking to stop job `j`.
pub open spec fn begin_stop_spec(c: ControlView, j: u64) -> (ControlView, Result<(), Seq<char>>) {
    match c.state {
        StateView::Running { job_id: active, .. } => if active == j {
            (ControlView { state: StateView::Stopping { job_id: j }, generation: c.generation }, Ok(()))
        } else {
            (c, Err("Cannot stop job "@ + decimal_text(j as nat) + "; active job is "@ + decimal_text(
                active as nat,
            )))
        },
        StateView::Stopping { job_id: stopping } => if stopping == j {
            (c, Ok(()))
        } else {
            (c, Err("No matching active transfer to stop."@))
        },
        _ => (c, Err("No matching active transfer to stop."@)),
    }
}

/// The stop of job `j` is confirmed.
pub open spec fn finish_stop_spec(c: ControlView, j: u64) -> ControlView {
    if c.state == (StateView::Stopping { job_id: j }) {
        ControlView { state: StateView::Idle, generation: c.generation }
    } else {
        c
    }
}

/// A status report on job `j`.
pub open spec fn job_status_spec(c: ControlView, j: u64, finished: bool) -> ControlView {
    if finished && runs_job(c.state, j) {
        ControlView { state: StateView::Idle, generation: c.generation }
    } else {
        c
    }
}

/// Stopping everything: pending starts are invalidated first.
pub open spec fn begin_stop_all_spec(c: ControlView) -> ControlView {
    ControlView { state: c.state, generation: next_generation(c.generation) }
}

/// rclone reports `running` as the running jobs.
pub open spec fn mark_stopping_spec(c: ControlView, running: Seq<u64>) -> ControlView {
    if running.len() > 0 {
        ControlView { state: StateView::Stopping { job_id: running[0] }, generation: c.generation }
    } else {
        c
    }
}

/// All jobs are confirmed stopped.
pub open spec fn finish_stop_all_spec(c: ControlView) -> ControlView {
    ControlView { state: StateView::Idle, generation: c.generation }
}

impl TransferControl {
    /// A fresh engine: idle, no start attempted.
    pub fn new() -> (res: TransferControl)
        ensures
            res@ == (ControlView { state: StateView::Idle, generation: 0 }),
    {
        TransferControl { state: TransferState::Idle, start_generation: 0 }
    }

    pub fn is_idle(&self) -> (res: bool)
        ensures
            res == (self.state@ == StateView::Idle),
    {
        match self.state {
            TransferState::Idle => true,
            _ => false,
        }
    }

    /// Claims the engine for a new transfer.
    pub fn begin_start(&mut self) -> (res: Result<u64, String>)
        ensures
            (final(self)@, error_text(res)) == begin_start_spec(old(self)@),
    {
        if !self.is_idle() {
            return Err(String::from_str("A transfer job is already active or in transition."));
        }
        let g = next_generation_exec(self.start_generation);
        self.start_generation = g;
        self.state = TransferState::Starting { generation: g };
        Ok(g)
    }

    fn is_starting(&self, generation: u64) -> (res: bool)
        ensures
            res == (self.state@ == StateView::Starting { generation }),
    {
        match self.state {
            TransferState::Starting { generation: g } => g == generation,
            _ => false,
        }
    }

    /// Records rclone's answer to the transfer request of start attempt
    /// `generation`.  An attempt that is no longer the engine's pending start
    /// was superseded: the state stays, and a job that rclone started for it
    /// is handed back to be stopped.  Otherwise a reported job ID makes the
    /// transfer run, and anything else returns the engine to idle.
    pub fn finish_start(
        &mut self,
        generation: u64,
        response: Result<Option<u64>, String>,
        source: String,
        destination: String,
        mode: TransferMode,
    ) -> (res: StartOutcome)
        ensures
            (final(self)@, error_text(res.result), res.stray_job) == finish_start_spec(
                old(self)@,
                generation,
                response_view(response),
                source@,
                destination@,
                mode,
            ),
    {
        if !self.is_starting(generation) {
            let stray = match &response {
                Ok(Some(j)) => Some(*j),
                _ => None,
            };
            return StartOutcome {
                result: Err(String::from_str("Transfer start was superseded or cancelled.")),
                stray_job: stray,
            };
        }
        match response {
            Ok(Some(job_id)) => {
                self.state = TransferState::Running { job_id, source, destination, mode };
                StartOutcome { result: Ok(job_id), stray_job: None }
            },
            Ok(None) => {
                self.state = TransferState::Idle;
                StartOutcome {
                    result: Err(String::from_str("No jobid returned by rclone")),
                    stray_job: None,
                }
            },
            Err(e) => {
                self.state = TransferState::Idle;
                StartOutcome { result: Err(e), stray_job: None }
            },
        }
    }

    /// Marks the running job `job_id` as stopping.  Stopping another job than
    /// the running one, or when nothing runs, is refused and changes nothing;
    /// asking again for a job that is already stopping is accepted.
    pub fn begin_stop(&mut self, job_id: u64) -> (res: Result<(), String>)
        ensures
            (final(self)@, unit_text(res)) == begin_stop_spec(old(self)@, job_id),
    {
        match &self.state {
            TransferState::Running { job_id: active, .. } => {
                let active = *active;
                if active == job_id {
                    self.state = TransferState::Stopping { job_id };
                    Ok(())
                } else {
                    let mut msg = concat("Cannot stop job ", u64_to_text(job_id).as_str());
                    msg.append("; active job is ");
                    let a = u64_to_text(active);
                    msg.append(a.as_str());
                    Err(msg)
                }
            },
            TransferState::Stopping { job_id: stopping } => {
                if *stopping == job_id {
                    Ok(())
                } else {
                    Err(String::from_str("No matching active transfer to stop."))
                }
            },
            _ => Err(String::from_str("No matching active transfer to stop.")),
        }
    }

    /// Once the stop of `job_id` is confirmed, a stopping engine becomes idle.
    pub fn finish_stop(&mut self, job_id: u64)
        ensures
            final(self)@ == finish_stop_spec(old(self)@, job_id),
    {
        let stopping = match self.state {
            TransferState::Stopping { job_id: s } => s == job_id,
            _ => false,
        };
        if stopping {
            self.state = TransferState::Idle;
        }
    }

    /// A status report: when the running job `job_id` has finished, the
    /// engine becomes idle.
    pub fn on_job_status(&mut self, job_id: u64, finished: bool)
        ensures
            final(self)@ == job_status_spec(old(self)@, job_id, finished),
    {
        if finished {
            let matches_job = match self.state {
                TransferState::Running { job_id: a, .. } => a == job_id,
                _ => false,
            };
            if matches_job {
                self.state = TransferState::Idle;
            }
        }
    }

    /// Stopping everything first invalidates pending start attempts.
    pub fn begin_stop_all(&mut self)
        ensures
            final(self)@ == begin_stop_all_spec(old(self)@),
    {
        self.start_generation = next_generation_exec(self.start_generation);
    }

    /// With the jobs that rclone reports as running, the engine is stopping
    /// the first of them (and stays as it is when none runs).
    pub fn mark_stopping(&mut self, running: &Vec<u64>)
        ensures
            final(self)@ == mark_stopping_spec(old(self)@, running@),
    {
        if running.len() > 0 {
            self.state = TransferState::Stopping { job_id: running[0] };
        }
    }

    /// All jobs are confirmed stopped: the engine is idle.
    pub fn finish_stop_all(&mut self)
        ensures
            final(self)@ == finish_stop_all_spec(old(self)@),
    {
        self.state = TransferState::Idle;
    }
}

/// One transfer at a time: a start is accepted exactly when the engine is idle.
pub proof fn law_single_active_transfer(c: ControlView)
    ensures
        begin_start_spec(c).1 is Ok <==> c.state == StateView::Idle,
        begin_start_spec(c).1 is Err ==> begin_start_spec(c).0 == c,
{
}

/// A start attempt that is not the pending one never makes a transfer run:
/// the state is kept, and a job that rclone started for it is to be stopped.
pub proof fn law_superseded_start_never_runs(
    c: ControlView,
    g: u64,
    response: Result<Option<u64>, Seq<char>>,
    source: Seq<char>,
    destination: Seq<char>,
    mode: TransferMode,
)
    requires
        c.state != (StateView::Starting { generation: g }),
    ensures
        ({
            let (c2, r, stray) = finish_start_spec(c, g, response, source, destination, mode);
            &&& c2 == c
            &&& r is Err
            &&& (response matches Ok(Some(j)) ==> stray == Some(j))
        }),
{
}

/// Stopping all transfers while a start is pending makes that start
/// superseded, even when another start has begun since.
pub proof fn law_stop_all_supersedes_pending_start(
    c: ControlView,
    running: Seq<u64>,
    restart: bool,
    response: Result<Option<u64>, Seq<char>>,
    source: Seq<char>,
    destination: Seq<char>,
    mode: TransferMode,
)
    requires
        c.state == StateView::Idle,
    ensures
        ({
            let (c1, r1) = begin_start_spec(c);
            let g = r1->Ok_0;
            let c2 = finish_stop_all_spec(mark_stopping_spec(begin_stop_all_spec(c1), running));
            let c3 = if restart { begin_start_spec(c2).0 } else { c2 };
            let (c4, r4, _) = finish_start_spec(c3, g, response, source, destination, mode);
            r4 is Err && c4 == c3
        }),
{
}

/// A running transfer carries the job ID that rclone reported for it.
pub proof fn law_running_job_was_reported(
    c: ControlView,
    g: u64,
    response: Result<Option<u64>, Seq<char>>,
    source: Seq<char>,
    destination: Seq<char>,
    mode: TransferMode,
)
    ensures
        ({
            let (c2, r, _) = finish_start_spec(c, g, response, source, destination, mode);
            r matches Ok(j) ==> response == Ok::<Option<u64>, Seq<char>>(Some(j)) && runs_job(
                c2.state,
                j,
            )
        }),
{
}

/// Stopping a job other than the running one is refused and changes nothing.
pub proof fn law_stop_only_matching_job(c: ControlView, j: u64)
    requires
        !runs_job(c.state, j),
        c.state != (StateView::Stopping { job_id: j }),
    ensures
        begin_stop_spec(c, j).0 == c,
        begin_stop_spec(c, j).1 is Err,
{
}

// ---------------------------------------------------------------------------
// Starting a copy, end to end
// ---------------------------------------------------------------------------

/// A whole copy start (`start_copy`) from control `c`, with no other call on
/// the engine in between: the route of `src` (what the file system reports
/// of it is `local`), the request (`parent`, `file_name` and `dir` are what
/// the paths and the destination directory gave), the preflight size reading
/// (which fails only for a local file whose metadata cannot be read), the
/// claim on the engine, and rclone's `response` to the copy request.
/// Gives the control after it, the job or the error, whether the copy request
/// was sent, and a stray job to stop.
pub open spec fn start_copy_spec(
    c: ControlView,
    src: Seq<char>,
    dst: Seq<char>,
    single: bool,
    local: LocalSourceKind,
    parent: Seq<char>,
    file_name: Seq<char>,
    dir: Result<(), Seq<char>>,
    preflight: Result<(), Seq<char>>,
    response: Result<Option<u64>, Seq<char>>,
) -> (ControlView, Result<u64, Seq<char>>, bool, Option<u64>) {
    match transfer_route_spec(src, single, local) {
        Err(e) => (c, Err(e), false, None),
        Ok(mode) => match transfer_request_spec(src, dst, mode, parent, file_name, dir) {
            Err(e) => (c, Err(e), false, None),
            Ok(r) => match preflight {
                Err(e) => (c, Err(e), false, None),
                Ok(_) => {
                    let (c1, claim) = begin_start_spec(c);
                    match claim {
                        Err(e) => (c1, Err(e), false, None),
                        Ok(g) => {
                            let (c2, res, stray) = finish_start_spec(
                                c1,
                                g,
                                response,
                                src,
                                r.normalized_destination,
                                mode,
                            );
                            (c2, res, true, stray)
                        },
                    }
                },
            },
        },
    }
}

/// A copy start that fails on the route, the request or the preflight
/// leaves the engine as it was and sends nothing; one on a busy engine is
/// refused the same way; on an idle engine the start counter advances
/// (wrapping like an atomic counter), the copy request is sent, and the engine
/// then runs the reported job (with the source, the request's destination and
/// the route's mode) or is idle again.
pub proof fn law_start_copy(
    c: ControlView,
    src: Seq<char>,
    dst: Seq<char>,
    single: bool,
    local: LocalSourceKind,
    parent: Seq<char>,
    file_name: Seq<char>,
    dir: Result<(), Seq<char>>,
    preflight: Result<(), Seq<char>>,
    response: Result<Option<u64>, Seq<char>>,
)
    ensures
        ({
            let (c2, res, sent, stray) = start_copy_spec(
                c,
                src,
                dst,
                single,
                local,
                parent,
                file_name,
                dir,
                preflight,
                response,
            );
            let route = transfer_route_spec(src, single, local);
            &&& route matches Err(e) ==> c2 == c && res == Err::<u64, Seq<char>>(e) && !sent
            &&& route matches Ok(mode) ==> {
                let req = transfer_request_spec(src, dst, mode, parent, file_name, dir);
                &&& req matches Err(e) ==> c2 == c && res == Err::<u64, Seq<char>>(e) && !sent
                &&& req matches Ok(r) ==> {
                    &&& preflight matches Err(e) ==> c2 == c && res == Err::<u64, Seq<char>>(e) && !sent
                    &&& (preflight is Ok && c.state != StateView::Idle) ==> c2 == c && res
                        == Err::<u64, Seq<char>>("A transfer job is already active or in transition."@)
                        && !sent
                    &&& (preflight is Ok && c.state == StateView::Idle) ==> {
                        &&& sent
                        &&& stray is None
                        &&& c2.generation == next_generation(c.generation)
                        &&& res matches Ok(j) ==> c2.state == (StateView::Running {
                            job_id: j,
                            source: src,
                            destination: r.normalized_destination,
                            mode,
                        })
                        &&& res is Err ==> c2.state == StateView::Idle
                    }
                }
            }
        }),
{
}

// ---------------------------------------------------------------------------
// Stopping every job
// ---------------------------------------------------------------------------

/// The job IDs of a `job/list` answer: the entries that are unsigned
/// integers, in order.
pub open spec fn job_ids_spec(items: Seq<Option<u64>>) -> Seq<u64>
    decreases items.len(),
{
    if items.len() == 0 {
        Seq::empty()
    } else {
        match items.last() {
            Some(id) => job_ids_spec(items.drop_last()).push(id),
            None => job_ids_spec(items.drop_last()),
        }
    }
}

/// Keeps the entries of a job-ID list that are integers (each entry is its
/// value as an unsigned integer, if it is one).
pub fn running_job_ids(items: &Vec<Option<u64>>) -> (res: Vec<u64>)
    ensures
        res@ == job_ids_spec(items@),
{
    let mut res: Vec<u64> = Vec::new();
    let mut i: usize = 0;
    while i < items.len()
        invariant
            i <= items.len(),
            res@ == job_ids_spec(items@.take(i as int)),
        decreases items.len() - i,
    {
        assert(items@.take(i + 1).drop_last() =~= items@.take(i as int));
        match items[i] {
            Some(id) => res.push(id),
            None => {},
        }
        i = i + 1;
    }
    assert(items@.take(items.len() as int) =~= items@);
    res
}

/// One job whose stop could not be requested: `job <id>: <error>`.
pub open spec fn stop_failure_text(job_id: u64, err: Seq<char>) -> Seq<char> {
    "job "@ + decimal_text(job_id as nat) + ": "@ + err
}

pub fn stop_failure_entry(job_id: u64, err: &str) -> (res: String)
    ensures
        res@ == stop_failure_text(job_id, err@),
{
    let mut s = concat("job ", u64_to_text(job_id).as_str());
    s.append(": ");
    s.append(err);
    s
}

/// The end of the stop requests of `stop_all_transfers`: an error listing
/// the failures when there were any (the engine then keeps its state, as
/// termination is unconfirmed).
pub open spec fn stop_requests_spec(failures: Seq<Seq<char>>) -> Result<(), Seq<char>> {
    if failures.len() == 0 {
        Ok(())
    } else {
        Err("Could not request termination for all jobs: "@ + join(failures, "; "@))
    }
}

pub fn stop_requests_result(failures: &Vec<String>) -> (res: Result<(), String>)
    ensures
        unit_text(res) == stop_requests_spec(string_views(failures@)),
{
    if failures.len() == 0 {
        return Ok(());
    }
    let joined = join_strings(failures, "; ");
    Err(concat("Could not request termination for all jobs: ", joined.as_str()))
}

// ---------------------------------------------------------------------------
// Confirming that stopped jobs finished
// ---------------------------------------------------------------------------

/// Stopped jobs are polled up to 20 rounds, 100 ms apart, for having finished.
pub const STOP_CONFIRM_ROUNDS: u64 = 20;

pub const STOP_CONFIRM_POLL_MS: u64 = 100;

/// What follows a round of status polls.
#[derive(Clone, Copy, Debug, PartialEq, Eq, Structural)]
pub enum WaitDecision {
    /// Every job reported finished.
    Confirmed,
    /// Wait one interval and poll again.
    PollAgain,
    /// Wait one interval and give up: the rounds are spent.
    TimedOut,
}

/// After round `round` (counted from 0) of `rounds`: confirmed when all
/// jobs finished, else another round while rounds remain, else time out.
pub open spec fn after_poll_round_spec(round: u64, rounds: u64, all_finished: bool) -> WaitDecision {
    if all_finished {
        WaitDecision::Confirmed
    } else if round + 1 < rounds {
        WaitDecision::PollAgain
    } else {
        WaitDecision::TimedOut
    }
}

pub fn after_poll_round(round: u64, rounds: u64, all_finished: bool) -> (res: WaitDecision)
    ensures
        res == after_poll_round_spec(round, rounds, all_finished),
{
    if all_finished {
        WaitDecision::Confirmed
    } else if round < rounds && round + 1 < rounds {
        WaitDecision::PollAgain
    } else {
        WaitDecision::TimedOut
    }
}

/// The decimal texts of job IDs, in order.
pub open spec fn id_texts(ids: Seq<u64>) -> Seq<Seq<char>>
    decreases ids.len(),
{
    if ids.len() == 0 {
        Seq::empty()
    } else {
        id_texts(ids.drop_last()).push(decimal_text(ids.last() as nat))
    }
}

/// The job IDs as `{:?}` shows a slice of them: `[1, 2]`.
pub open spec fn id_list_text(ids: Seq<u64>) -> Seq<char> {
    "["@ + join(id_texts(ids), ", "@) + "]"@
}

/// The error when stopped jobs were not confirmed finished in time.
pub fn wait_timeout_error(job_ids: &Vec<u64>) -> (res: String)
    ensures
        res@ == "Timed out waiting for jobs to terminate: "@ + id_list_text(job_ids@),
{
    let mut texts: Vec<String> = Vec::new();
    let mut i: usize = 0;
    while i < job_ids.len()
        invariant
            i <= job_ids.len(),
            texts@.len() == i,
            string_views(texts@) == id_texts(job_ids@.take(i as int)),
        decreases job_ids.len() - i,
    {
        let ghost before = texts@;
        texts.push(u64_to_text(job_ids[i]));
        assert(job_ids@.take(i + 1).drop_last() =~= job_ids@.take(i as int));
        assert(job_ids@.take(i + 1).last() == job_ids@[i as int]);
        assert(string_views(texts@) =~= string_views(before).push(texts@[i as int]@));
        i = i + 1;
    }
    assert(job_ids@.take(job_ids.len() as int) =~= job_ids@);
    let joined = join_strings(&texts, ", ");
    let mut res = concat("Timed out waiting for jobs to terminate: [", joined.as_str());
    res.append("]");
    proof {
        reveal_strlit("Timed out waiting for jobs to terminate: [");
        reveal_strlit("Timed out waiting for jobs to terminate: ");
        reveal_strlit("[");
        assert(res@ =~= "Timed out waiting for jobs to terminate: "@ + ("["@ + joined@ + "]"@));
    }
    res
}

/// The error when the status of a stopped job could not be read.
pub fn confirm_failure_error(job_id: u64, err: &str) -> (res: String)
    ensures
        res@ == "Could not confirm termination of job "@ + decimal_text(job_id as nat) + ": "@ + err@,
{
    let mut res = concat("Could not confirm termination of job ", u64_to_text(job_id).as_str());
    res.append(": ");
    res.append(err);
    res
}

} // verus!
