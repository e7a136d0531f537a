//! The ingestion loop: cursor lifecycle against the log provider, batch
//! dispatch through the transform into a bounded channel, and the reaction
//! to every provider status — more data, end of data, end of stream,
//! abandonment, overrun, errors — with optional overrun recovery. The
//! provider itself is a collaborator: the loop's decisions are pure and
//! fully specified, and a scripted runner executes them.
use crate::error::VarnishError;
use crate::vsl::models::LogRecord;
use crate::vsl::transform::{spec_process, ConfigSpec, LogTransform, ProcessSpec};
use crate::vsl::LogTransaction;
use vstd::prelude::*;

verus! {

#[verifier::external_type_specification]
#[verifier::external_body]
#[verifier::reject_recursive_types(T)]
pub struct ExSender<T>(crossbeam_channel::Sender<T>);

#[verifier::external_type_specification]
#[verifier::external_body]
#[verifier::reject_recursive_types(T)]
pub struct ExReceiver<T>(crossbeam_channel::Receiver<T>);

/// Relies on crossbeam_channel::Sender::send: blocks while the channel is
/// full and delivers the message, or reports failure once every receiver is
/// gone. Success depends on the other side, so nothing is promised of the
/// outcome.
#[verifier::external_body]
fn send_msg<T>(s: &crossbeam_channel::Sender<T>, v: T) -> (ok: bool) {
    s.send(v).is_ok()
}

/// What one poll of a channel found.
#[derive(Debug, Copy, Clone, PartialEq, Eq, Structural)]
pub enum PollResult {
    Message,
    Empty,
    Closed,
}

/// Relies on crossbeam_channel::Receiver::try_recv: without blocking, takes
/// a pending message, or finds the channel empty, or finds every sender
/// gone. Which one comes back depends on the other side, so nothing is
/// promised of the outcome.
#[verifier::external_body]
fn poll_unit(r: &crossbeam_channel::Receiver<()>) -> (p: PollResult) {
    match r.try_recv() {
        Ok(_) => PollResult::Message,
        Err(crossbeam_channel::TryRecvError::Empty) => PollResult::Empty,
        Err(crossbeam_channel::TryRecvError::Disconnected) => PollResult::Closed,
    }
}

/// A stop signal counts as fired when a message arrived or the stop channel
/// is gone; only an empty channel means carry on.
pub fn should_stop(p: PollResult) -> (r: bool)
    ensures
        r == (p != PollResult::Empty),
{
    match p {
        PollResult::Message => true,
        PollResult::Empty => false,
        PollResult::Closed => true,
    }
}

/// The provider's answer to one dispatch call, decoded from its raw status
/// word. The two callback codes are the ones the dispatch callback itself
/// produces: a closed record channel and a failed transform.
#[derive(Debug, Copy, Clone, PartialEq, Eq, Structural)]
pub enum DispatchStatus {
    More,
    End,
    Eof,
    Abandon,
    Overrun,
    IoError,
    ChannelClosed,
    TransformFailed,
    User(i32),
}

/// The provider's encoding of a dispatch status.
pub open spec fn spec_status_of_raw(res: i32) -> DispatchStatus {
    if res == 1 {
        DispatchStatus::More
    } else if res == 0 {
        DispatchStatus::End
    } else if res == -1 {
        DispatchStatus::Eof
    } else if res == -2 {
        DispatchStatus::Abandon
    } else if res == -3 {
        DispatchStatus::Overrun
    } else if res == -4 {
        DispatchStatus::IoError
    } else if res == -6 {
        DispatchStatus::ChannelClosed
    } else if res == -7 {
        DispatchStatus::TransformFailed
    } else {
        DispatchStatus::User(res)
    }
}

/// Decodes the provider's raw status word.
pub fn status_of_raw(res: i32) -> (r: DispatchStatus)
    ensures
        r == spec_status_of_raw(res),
{
    match res {
        1i32 => DispatchStatus::More,
        0i32 => DispatchStatus::End,
        -1i32 => DispatchStatus::Eof,
        -2i32 => DispatchStatus::Abandon,
        -3i32 => DispatchStatus::Overrun,
        -4i32 => DispatchStatus::IoError,
        -6i32 => DispatchStatus::ChannelClosed,
        -7i32 => DispatchStatus::TransformFailed,
        c => DispatchStatus::User(c),
    }
}

/// Why a run ends with an error.
#[derive(Debug, Copy, Clone, PartialEq, Eq, Structural)]
pub enum FailureKind {
    Overrun,
    Io,
    ChannelClosed,
    TransformFailed,
    User(i32),
}

/// The error each failure kind surfaces as.
pub fn error_of_kind(k: FailureKind) -> (r: VarnishError)
    ensures
        match k {
            FailureKind::Overrun => r is LogOverrun,
            FailureKind::Io => r is IOError,
            FailureKind::ChannelClosed => r matches VarnishError::CallbackError(m) && m@
                == "Log channel error"@,
            FailureKind::TransformFailed => r matches VarnishError::CallbackError(m) && m@
                == "Log transformation error"@,
            FailureKind::User(c) => r == VarnishError::UserStatus(c),
        },
{
    match k {
        FailureKind::Overrun => VarnishError::LogOverrun,
        FailureKind::Io => VarnishError::IOError,
        FailureKind::ChannelClosed => VarnishError::CallbackError("Log channel error".to_owned()),
        FailureKind::TransformFailed => VarnishError::CallbackError(
            "Log transformation error".to_owned(),
        ),
        FailureKind::User(c) => VarnishError::UserStatus(c),
    }
}

/// Pending transactions are flushed through the transform once more on
/// every path that leaves the dispatch loop other than more-data, end-of-
/// data and end-of-stream, so none is silently dropped on overrun or
/// abandonment.
pub open spec fn spec_needs_flush(st: DispatchStatus) -> bool {
    !(st == DispatchStatus::More || st == DispatchStatus::End || st == DispatchStatus::Eof)
}

/// Whether a status obliges the loop to flush before reacting.
pub fn needs_flush(st: DispatchStatus) -> (r: bool)
    ensures
        r == spec_needs_flush(st),
{
    match st {
        DispatchStatus::More => false,
        DispatchStatus::End => false,
        DispatchStatus::Eof => false,
        _ => true,
    }
}

/// The loop's own state and counters: whether a cursor is attached, and how
/// often it dropped the cursor, acquired one, slept on an idle source,
/// flushed, and signalled an overrun.
#[derive(Debug, Copy, Clone, PartialEq, Eq, Structural)]
pub struct IngestReport {
    pub cursor_attached: bool,
    pub cursor_drops: u64,
    pub cursor_acquisitions: u64,
    pub batches: u64,
    pub sleeps: u64,
    pub flushes: u64,
    pub notifications: u64,
    pub stopped: bool,
}

/// A fresh, cursorless state.
pub fn initial_report() -> (r: IngestReport)
    ensures
        r == spec_initial_report(),
{
    IngestReport {
        cursor_attached: false,
        cursor_drops: 0,
        cursor_acquisitions: 0,
        batches: 0,
        sleeps: 0,
        flushes: 0,
        notifications: 0,
        stopped: false,
    }
}

pub open spec fn spec_initial_report() -> IngestReport {
    IngestReport {
        cursor_attached: false,
        cursor_drops: 0,
        cursor_acquisitions: 0,
        batches: 0,
        sleeps: 0,
        flushes: 0,
        notifications: 0,
        stopped: false,
    }
}

/// What the loop does after reacting to one dispatch status.
#[derive(Debug, Copy, Clone, PartialEq, Eq, Structural)]
pub enum LoopVerdict {
    Proceed,
    Done,
    Failed(FailureKind),
}

/// The loop's whole reaction to one dispatch status: more data keeps
/// dispatching; end of data sleeps and polls again; end of stream finishes;
/// abandonment drops the cursor and goes on; an overrun drops the cursor,
/// signals once when a signal channel is configured, and goes on — but only
/// when recovery is enabled, and is fatal otherwise; every other status is
/// fatal with its own failure kind.
pub open spec fn spec_transition(
    rep: IngestReport,
    status: DispatchStatus,
    reacquire: bool,
    has_signal: bool,
) -> (IngestReport, LoopVerdict) {
    match status {
        DispatchStatus::More => (rep, LoopVerdict::Proceed),
        DispatchStatus::End => (
            IngestReport { sleeps: (rep.sleeps + 1) as u64, ..rep },
            LoopVerdict::Proceed,
        ),
        DispatchStatus::Eof => (rep, LoopVerdict::Done),
        DispatchStatus::Abandon => (
            IngestReport {
                cursor_attached: false,
                cursor_drops: (rep.cursor_drops + 1) as u64,
                ..rep
            },
            LoopVerdict::Proceed,
        ),
        DispatchStatus::Overrun => {
            if reacquire {
                (
                    IngestReport {
                        cursor_attached: false,
                        cursor_drops: (rep.cursor_drops + 1) as u64,
                        notifications: if has_signal {
                            (rep.notifications + 1) as u64
                        } else {
                            rep.notifications
                        },
                        ..rep
                    },
                    LoopVerdict::Proceed,
                )
            } else {
                (rep, LoopVerdict::Failed(FailureKind::Overrun))
            }
        },
        DispatchStatus::IoError => (rep, LoopVerdict::Failed(FailureKind::Io)),
        DispatchStatus::ChannelClosed => (rep, LoopVerdict::Failed(FailureKind::ChannelClosed)),
        DispatchStatus::TransformFailed => (
            rep,
            LoopVerdict::Failed(FailureKind::TransformFailed),
        ),
        DispatchStatus::User(c) => (rep, LoopVerdict::Failed(FailureKind::User(c))),
    }
}

/// Applies one dispatch status to the loop state.
pub fn loop_transition(
    rep: &mut IngestReport,
    status: DispatchStatus,
    reacquire: bool,
    has_signal: bool,
) -> (r: LoopVerdict)
    requires
        old(rep).sleeps < u64::MAX,
        old(rep).cursor_drops < u64::MAX,
        old(rep).notifications < u64::MAX,
    ensures
        (*final(rep), r) == spec_transition(*old(rep), status, reacquire, has_signal),
{
    match status {
        DispatchStatus::More => LoopVerdict::Proceed,
        DispatchStatus::End => {
            rep.sleeps = rep.sleeps + 1;
            LoopVerdict::Proceed
        },
        DispatchStatus::Eof => LoopVerdict::Done,
        DispatchStatus::Abandon => {
            rep.cursor_attached = false;
            rep.cursor_drops = rep.cursor_drops + 1;
            LoopVerdict::Proceed
        },
        DispatchStatus::Overrun => {
            if reacquire {
                rep.cursor_attached = false;
                rep.cursor_drops = rep.cursor_drops + 1;
                if has_signal {
                    rep.notifications = rep.notifications + 1;
                }
                LoopVerdict::Proceed
            } else {
                LoopVerdict::Failed(FailureKind::Overrun)
            }
        },
        DispatchStatus::IoError => LoopVerdict::Failed(FailureKind::Io),
        DispatchStatus::ChannelClosed => LoopVerdict::Failed(FailureKind::ChannelClosed),
        DispatchStatus::TransformFailed => LoopVerdict::Failed(FailureKind::TransformFailed),
        DispatchStatus::User(c) => LoopVerdict::Failed(FailureKind::User(c)),
    }
}

/// Law: an overrun under enabled recovery drops the cursor, raises the
/// notification count by exactly one when a signal channel is configured
/// and not otherwise, and resumes rather than terminating; without
/// recovery the same overrun is fatal.
pub proof fn lemma_overrun_recovery(rep: IngestReport, has_signal: bool)
    requires
        rep.cursor_drops < u64::MAX,
        rep.notifications < u64::MAX,
    ensures
        spec_transition(rep, DispatchStatus::Overrun, true, has_signal).1 == LoopVerdict::Proceed,
        !spec_transition(rep, DispatchStatus::Overrun, true, has_signal).0.cursor_attached,
        spec_transition(rep, DispatchStatus::Overrun, true, has_signal).0.notifications == (
        if has_signal {
            rep.notifications + 1
        } else {
            rep.notifications as int
        }),
        spec_transition(rep, DispatchStatus::Overrun, false, has_signal).1
            == LoopVerdict::Failed(FailureKind::Overrun),
        spec_transition(rep, DispatchStatus::Overrun, false, has_signal).0 == rep,
{
}

/// Every transaction before position `k` is one the transform skips.
pub open spec fn skips_before(cfg: ConfigSpec, txs: Seq<LogTransaction>, k: int) -> bool {
    forall|j: int| 0 <= j < k ==> #[trigger] spec_process(cfg, txs[j]@) is Skip
}

/// Drives a batch of transactions through the transform and forwards every
/// emitted record into the channel, in transaction order, stopping at the
/// first failure: a refused send ends the batch with the channel code, a
/// transform failure with the transform code — owed whenever the first
/// transaction the transform does not skip is one it fails — and otherwise
/// the batch ends cleanly. The channel code can only arise once some
/// transaction emitted a record.
pub fn dispatch_batch(
    transform: &LogTransform,
    txs: &Vec<LogTransaction>,
    sender: &crossbeam_channel::Sender<LogRecord>,
) -> (code: i32)
    ensures
        code == 0 || code == -6 || code == -7,
        code == -7 ==> exists|i: int|
            0 <= i < txs@.len() && #[trigger] spec_process(transform@, txs@[i]@) is Fail,
        code == -6 ==> exists|i: int|
            0 <= i < txs@.len() && #[trigger] spec_process(transform@, txs@[i]@) is Emit,
        forall|k: int|
            0 <= k < txs@.len() && skips_before(transform@, txs@, k) && (#[trigger] spec_process(
                transform@,
                txs@[k]@,
            )) is Fail ==> code == -7,
        (forall|i: int|
            0 <= i < txs@.len() ==> #[trigger] spec_process(transform@, txs@[i]@) is Skip) ==> code
            == 0,
{
    let n = txs.len();
    let mut i: usize = 0;
    while i < n
        invariant
            n == txs@.len(),
            i <= n,
            forall|j: int| 0 <= j < i ==> !(#[trigger] spec_process(transform@, txs@[j]@) is Fail),
        decreases n - i,
    {
        match transform.process_txn(&txs[i]) {
            Ok(Some(rec)) => {
                proof {
                    assert(spec_process(transform@, txs@[i as int]@) is Emit);
                }
                if !send_msg(sender, rec) {
                    proof {
                        assert forall|k: int|
                            0 <= k < txs@.len() && skips_before(
                                transform@,
                                txs@,
                                k,
                            ) implies !(spec_process(transform@, txs@[k]@) is Fail) by {
                            if k > i as int {
                                assert(spec_process(transform@, txs@[i as int]@) is Skip);
                            }
                        }
                    }
                    return -6;
                }
            },
            Ok(None) => {},
            Err(_) => {
                proof {
                    assert(spec_process(transform@, txs@[i as int]@) is Fail);
                }
                return -7;
            },
        }
        i = i + 1;
    }
    0
}

/// The number of dispatch entries among the first `i` of the script whose
/// raw status is the overrun word.
pub open spec fn dispatch_overruns(s: Seq<ProviderEvent>, i: int) -> int
    decreases i,
{
    if i <= 0 || i > s.len() {
        0
    } else {
        dispatch_overruns(s, i - 1) + (match s[i - 1] {
            ProviderEvent::Dispatch(_, raw) => {
                if raw == -3 {
                    1int
                } else {
                    0int
                }
            },
            _ => 0int,
        })
    }
}

/// One scripted provider interaction, in the order the loop would meet it:
/// a report that the shared resource was reallocated, a denied cursor
/// acquisition, or one dispatch call with the transactions it drives
/// through the transform and the raw status it then returns.
#[derive(Debug)]
pub enum ProviderEvent {
    Restarted,
    CursorDenied,
    Dispatch(Vec<LogTransaction>, i32),
}

proof fn lemma_dispatch_overruns_prefix(s: Seq<ProviderEvent>, i: int, j: int)
    requires
        0 <= i <= j <= s.len(),
    ensures
        dispatch_overruns(s, i) <= dispatch_overruns(s, j),
    decreases j - i,
{
    if i < j {
        lemma_dispatch_overruns_prefix(s, i, j - 1);
    }
}

proof fn lemma_dispatch_overruns_mono(s: Seq<ProviderEvent>, i: int)
    requires
        0 <= i < s.len(),
    ensures
        dispatch_overruns(s, i) <= dispatch_overruns(s, i + 1) <= dispatch_overruns(s, i) + 1,
        dispatch_overruns(s, i + 1) == dispatch_overruns(s, i) + 1 <==> (s[i] matches ProviderEvent::Dispatch(_, raw) && raw == -3),
{
}

/// Every transaction of a batch is one the transform skips.
pub open spec fn all_skip(cfg: ConfigSpec, txs: Seq<LogTransaction>) -> bool {
    forall|i: int| 0 <= i < txs.len() ==> #[trigger] spec_process(cfg, txs[i]@) is Skip
}

/// The number of dispatch entries among the first `i` of the script.
pub open spec fn dispatch_count(s: Seq<ProviderEvent>, i: int) -> int
    decreases i,
{
    if i <= 0 || i > s.len() {
        0
    } else {
        dispatch_count(s, i - 1) + (if s[i - 1] matches ProviderEvent::Dispatch(_, _) {
            1int
        } else {
            0int
        })
    }
}

proof fn lemma_dispatch_count_prefix(s: Seq<ProviderEvent>, i: int, j: int)
    requires
        0 <= i <= j <= s.len(),
    ensures
        dispatch_count(s, i) <= dispatch_count(s, j),
    decreases j - i,
{
    if i < j {
        lemma_dispatch_count_prefix(s, i, j - 1);
    }
}

proof fn lemma_overruns_le_count(s: Seq<ProviderEvent>, i: int)
    requires
        0 <= i <= s.len(),
    ensures
        0 <= dispatch_overruns(s, i) <= dispatch_count(s, i),
    decreases i,
{
    if i > 0 {
        lemma_overruns_le_count(s, i - 1);
    }
}

/// Runs the ingestion loop against a scripted provider. A reallocation
/// report drops the cursor; a denied acquisition is retried on the next
/// round, never fatal; a dispatch acquires a cursor if none is attached,
/// drives its transactions into the channel, then reacts to the returned
/// status — overridden by the dispatch callback's own code when that is
/// nonzero — after polling the stop signal, which is checked only between
/// dispatch calls. The script standing for a live source, its exhaustion
/// ends the run cleanly.
pub fn run_script(
    transform: &LogTransform,
    reacquire: bool,
    script: &Vec<ProviderEvent>,
    sender: &crossbeam_channel::Sender<LogRecord>,
    stop: Option<&crossbeam_channel::Receiver<()>>,
    notify: Option<&crossbeam_channel::Sender<()>>,
) -> (r: Result<IngestReport, VarnishError>)
    ensures
        r matches Ok(rep) && rep.notifications > 0 ==> reacquire && notify is Some,
        r matches Ok(rep) ==> rep.notifications <= dispatch_overruns(script@, script@.len() as int),
        r matches Err(e) && e is LogOverrun ==> !reacquire || notify is Some,
        r matches Err(e) ==> (e is LogOverrun || e is IOError || e matches
            VarnishError::CallbackError(_) || e matches VarnishError::UserStatus(_)),
        r matches Ok(rep) && rep.stopped ==> stop is Some,
        dispatch_count(script@, script@.len() as int) == 0 ==> (r matches Ok(rep) && rep.batches
            == 0 && !rep.stopped && rep.notifications == 0),
        (script@.len() > 0 && (script@[0] matches ProviderEvent::Dispatch(txs0, raw0) && all_skip(
            transform@,
            txs0@,
        ) && stop is None && raw0 == -1)) ==> (r matches Ok(rep) && rep.batches == 1
            && !rep.stopped),
        (script@.len() > 0 && (script@[0] matches ProviderEvent::Dispatch(txs0, raw0) && all_skip(
            transform@,
            txs0@,
        ) && stop is None && raw0 == -4)) ==> (r matches Err(e) && e is IOError),
        (script@.len() > 0 && (script@[0] matches ProviderEvent::Dispatch(txs0, raw0) && all_skip(
            transform@,
            txs0@,
        ) && stop is None && raw0 == -3 && !reacquire)) ==> (r matches Err(e) && e is LogOverrun),
{
    let mut rep = initial_report();
    let n = script.len();
    let mut i: usize = 0;
    while i < n
        invariant
            n == script@.len(),
            i <= n,
            rep.cursor_drops <= i as u64,
            rep.sleeps <= i as u64,
            rep.notifications <= i as u64,
            rep.notifications <= dispatch_overruns(script@, i as int),
            dispatch_overruns(script@, i as int) <= i as int,
            rep.notifications > 0 ==> reacquire && notify is Some,
            !rep.stopped,
            rep.batches <= dispatch_count(script@, i as int),
            (script@.len() > 0 && (script@[0] matches ProviderEvent::Dispatch(txs0, raw0)
                && all_skip(transform@, txs0@) && stop is None && (raw0 == -1 || raw0 == -4 || (
            raw0 == -3 && !reacquire)))) ==> i == 0,
        decreases n - i,
    {
        proof {
            lemma_dispatch_overruns_mono(script@, i as int);
            lemma_dispatch_count_prefix(script@, 0, i as int);
        }
        match &script[i] {
            ProviderEvent::Restarted => {
                if rep.cursor_attached {
                    rep.cursor_attached = false;
                    rep.cursor_drops = rep.cursor_drops + 1;
                }
            },
            ProviderEvent::CursorDenied => {},
            ProviderEvent::Dispatch(txs, raw) => {
                proof {
                    assert(script@[i as int] is Dispatch);
                    assert(dispatch_count(script@, i + 1 as int) == dispatch_count(
                        script@,
                        i as int,
                    ) + 1);
                    lemma_dispatch_count_prefix(script@, i + 1 as int, script@.len() as int);
                }
                if !rep.cursor_attached {
                    rep.cursor_attached = true;
                    if rep.cursor_acquisitions < u64::MAX {
                        rep.cursor_acquisitions = rep.cursor_acquisitions + 1;
                    }
                }
                if rep.batches < u64::MAX {
                    rep.batches = rep.batches + 1;
                }
                let code = dispatch_batch(transform, txs, sender);
                let eff: i32 = if code != 0 {
                    code
                } else {
                    *raw
                };
                let status = status_of_raw(eff);
                let stop_now = match stop {
                    Some(rx) => should_stop(poll_unit(rx)),
                    None => false,
                };
                if stop_now {
                    rep.stopped = true;
                    proof {
                        lemma_dispatch_overruns_prefix(script@, i as int, script@.len() as int);
                    }
                    return Ok(rep);
                }
                proof {
                    assert(dispatch_count(script@, 0) == 0);
                }
                if needs_flush(status) {
                    if rep.flushes < u64::MAX {
                        rep.flushes = rep.flushes + 1;
                    }
                }
                let had_signal = match notify {
                    Some(_) => true,
                    None => false,
                };
                match loop_transition(&mut rep, status, reacquire, had_signal) {
                    LoopVerdict::Proceed => {
                        if status == DispatchStatus::Overrun && reacquire {
                            match notify {
                                Some(tx) => {
                                    if !send_msg(tx, ()) {
                                        return Err(VarnishError::LogOverrun);
                                    }
                                },
                                None => {},
                            }
                        }
                    },
                    LoopVerdict::Done => {
                        proof {
                            lemma_dispatch_overruns_prefix(script@, i as int, script@.len() as int);
                        }
                        return Ok(rep);
                    },
                    LoopVerdict::Failed(k) => {
                        return Err(error_of_kind(k));
                    },
                }
            },
        }
        i = i + 1;
    }
    proof {
        lemma_overruns_le_count(script@, n as int);
    }
    Ok(rep)
}

} // verus!
