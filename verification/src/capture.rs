//! Decisions of the camera capture loop: when to stop, which frames get an
//! id and are handed on, and when to report progress.

use vstd::prelude::*;

verus! {

/// A progress line is logged after every this many empty reads in a row of
/// the count.
pub const EMPTY_FRAME_LOG_INTERVAL: u64 = 60;

/// What polling the command channel gave.
#[derive(Clone, Copy, PartialEq, Eq, Debug, Structural)]
pub enum CommandPoll {
    /// A shutdown was requested.
    Shutdown,
    /// The controlling side went away.
    Disconnected,
    /// No command arrived in time.
    Timeout,
}

/// What handing a frame on gave.
#[derive(Clone, Copy, PartialEq, Eq, Debug, Structural)]
pub enum SendOutcome {
    /// The frame was queued.
    Sent,
    /// The queue was full; the frame was dropped.
    Full,
    /// The receiving side went away.
    Disconnected,
}

/// The capture loop stops on a shutdown request or when its controller is gone.
pub fn stop_on_command(poll: CommandPoll) -> (stop: bool)
    ensures
        stop == (poll != CommandPoll::Timeout),
{
    match poll {
        CommandPoll::Timeout => false,
        _ => true,
    }
}

/// The capture loop stops when nobody receives its frames any more; a full
/// queue only drops the frame.
pub fn stop_after_send(outcome: SendOutcome) -> (stop: bool)
    ensures
        stop == (outcome == SendOutcome::Disconnected),
{
    match outcome {
        SendOutcome::Disconnected => true,
        _ => false,
    }
}

/// What the capture loop does with a frame it read.
#[derive(Clone, Copy, PartialEq, Eq, Debug, Structural)]
pub enum FrameDecision {
    /// An empty read: skipped; `log` when the count of empty reads reached a
    /// multiple of the log interval.
    Skip { log: bool },
    /// A real frame: handed on with this id; `first` for the very first one.
    Deliver { id: u64, first: bool },
}

/// Counts delivered frames and empty reads of one capture session.
pub struct CaptureCounter {
    next_id: u64,
    empty_reads: u64,
}

impl CaptureCounter {
    /// Frames delivered so far (the id the next one gets).
    pub closed spec fn delivered(&self) -> nat {
        self.next_id as nat
    }

    /// Empty reads so far.
    pub closed spec fn empty(&self) -> nat {
        self.empty_reads as nat
    }

    /// A session that has read nothing yet.
    pub fn new() -> (c: Self)
        ensures
            c.delivered() == 0,
            c.empty() == 0,
    {
        CaptureCounter { next_id: 0, empty_reads: 0 }
    }

    /// Frames delivered so far.
    pub fn delivered_count(&self) -> (n: u64)
        ensures
            n == self.delivered(),
    {
        self.next_id
    }

    /// Empty reads so far.
    pub fn empty_count(&self) -> (n: u64)
        ensures
            n == self.empty(),
    {
        self.empty_reads
    }

    /// Whether to announce that the session is waiting for its first frame:
    /// only before anything at all was read.
    pub fn waiting_for_first(&self) -> (w: bool)
        ensures
            w == (self.delivered() == 0 && self.empty() == 0),
    {
        self.next_id == 0 && self.empty_reads == 0
    }

    /// Decides on one read.
    pub fn on_read(&mut self, empty: bool) -> (d: FrameDecision)
        requires
            empty ==> old(self).empty() < u64::MAX,
            !empty ==> old(self).delivered() < u64::MAX,
        ensures
            empty ==> d == (FrameDecision::Skip { log: final(self).empty() % (EMPTY_FRAME_LOG_INTERVAL as nat) == 0 })
                && final(self).empty() == old(self).empty() + 1
                && final(self).delivered() == old(self).delivered(),
            !empty ==> d == (FrameDecision::Deliver { id: old(self).delivered() as u64, first: old(self).delivered() == 0 })
                && final(self).delivered() == old(self).delivered() + 1
                && final(self).empty() == old(self).empty(),
    {
        if empty {
            self.empty_reads = self.empty_reads + 1;
            FrameDecision::Skip { log: self.empty_reads % EMPTY_FRAME_LOG_INTERVAL == 0 }
        } else {
            let id = self.next_id;
            self.next_id = self.next_id + 1;
            FrameDecision::Deliver { id, first: id == 0 }
        }
    }
}

/// Opening the camera: backends are tried in order until one opens. Keeps
/// the error of the latest failed attempt, which is reported when none opens
/// (`E` is the caller's error type).
pub struct BackendProbe<E> {
    last_error: Option<E>,
}

impl<E> BackendProbe<E> {
    /// The error of the latest failed attempt, if any.
    pub closed spec fn last(&self) -> Option<E> {
        self.last_error
    }

    /// Nothing tried yet.
    pub fn new() -> (p: Self)
        ensures
            p.last() is None,
    {
        BackendProbe { last_error: None }
    }

    /// Records one attempt: `Ok` when the backend opened the camera (the
    /// search stops, returning `true`), or the error it failed with.
    pub fn record(&mut self, attempt: Result<(), E>) -> (done: bool)
        ensures
            done == (attempt is Ok),
            final(self).last() == (match attempt {
                Ok(()) => old(self).last(),
                Err(e) => Some(e),
            }),
    {
        match attempt {
            Ok(()) => true,
            Err(e) => {
                self.last_error = Some(e);
                false
            },
        }
    }

    /// The error to report when no backend opened: the latest failure, or
    /// `None` when nothing was tried (the caller then reports its default).
    pub fn into_error(self) -> (e: Option<E>)
        ensures
            e == self.last(),
    {
        self.last_error
    }
}

/// A run of reads through the counter, oldest first (`true` for an empty
/// read), from `delivered` frames already handed on: the count of delivered
/// frames after the run, and the ids `on_read` gave the frames it delivered.
pub open spec fn run_reads(delivered: nat, reads: Seq<bool>) -> (nat, Seq<nat>)
    decreases reads.len(),
{
    if reads.len() == 0 {
        (delivered, Seq::empty())
    } else {
        let (d, ids) = run_reads(delivered, reads.drop_last());
        if reads.last() {
            (d, ids)
        } else {
            (d + 1, ids.push(d))
        }
    }
}

/// The frames of a capture session get consecutive ids from where it started,
/// one per non-empty read, whatever empty reads come in between; afterwards the
/// next id is the one after the last handed out.
pub proof fn law_ids_are_consecutive(start: nat, reads: Seq<bool>)
    ensures
        run_reads(start, reads).0 == start + run_reads(start, reads).1.len(),
        forall|k: int| 0 <= k < run_reads(start, reads).1.len() ==> #[trigger] run_reads(start, reads).1[k] == start + k,
    decreases reads.len(),
{
    if reads.len() > 0 {
        law_ids_are_consecutive(start, reads.drop_last());
        let (d, ids) = run_reads(start, reads.drop_last());
        let cur = run_reads(start, reads).1;
        if !reads.last() {
            assert(cur == ids.push(d));
            assert forall|k: int| 0 <= k < cur.len() implies #[trigger] cur[k] == start + k by {
                if k < ids.len() {
                    assert(cur[k] == ids[k]);
                }
            }
        }
    }
}

} // verus!
