//! Session orchestrator: the state machine that drives exactly one send
//! or receive attempt to completion or failure.
//!
//! The orchestrator itself performs no I/O.  An outer driver owns the
//! rendezvous, transit and transfer calls into the external
//! secure-channel collaborator; after each such call it hands the
//! observed event to the [`Session`] through one of the step methods
//! here, and the contracts of those methods pin down the next state,
//! what may be surfaced to the caller (the pairing code, connection
//! info, progress counts), and the terminal [`TransferOutcome`].
//!
//! Every session walks `Idle → CodeReady → Connected → Negotiating →
//! Transferring` and ends in `Completed` or `Failed`; a failure at any
//! state goes straight to `Failed` and is never retried.  Progress
//! counts handed out by [`Session::progress`] are clipped to the
//! transfer's total length and filtered so that the stream of emitted
//! counts never decreases; on success the final count equals the total.

use vstd::prelude::*;

use crate::outcome::FailureReason;
use crate::outcome::ReceiveResult;
use crate::outcome::TransferOutcome;

verus! {

/// Which of the two transfer protocols this session runs.
#[derive(Clone, Copy, Debug, PartialEq, Eq, Structural)]
pub enum Direction {
    Send,
    Receive,
}

/// Orchestration phase of one session attempt.
#[derive(Clone, Copy, Debug, PartialEq, Eq, Structural)]
pub enum SessionState {
    /// Initial state of a send: no pairing code exists yet.
    Idle,
    /// A pairing code is available (generated, or supplied by the caller).
    CodeReady,
    /// The secure channel is established.
    Connected,
    /// Transit/relay capabilities are being exchanged.
    Negotiating,
    /// Bytes are being streamed.
    Transferring,
    /// Terminal: the transfer finished and an outcome was produced.
    Completed,
    /// Terminal: the attempt failed with a classified reason.
    Failed,
}

/// The transit capability request handed to the collaborator.
#[derive(Clone, Copy, Debug, PartialEq, Eq, Structural)]
pub enum TransitAbilities {
    /// Direct connections and relay fallback are both allowed.
    All,
    /// Only a direct connection is acceptable.
    ForceDirect,
    /// Only the relay is used.
    ForceRelay,
}

/// The cumulative count `sent`, as reported by the collaborator,
/// clipped to the transfer's total length.
pub open spec fn clip_to_total(total: u64, sent: u64) -> u64 {
    if sent <= total {
        sent
    } else {
        total
    }
}

/// The progress count the session emits to the caller for a raw report
/// of `sent` when `reported` was the last emitted count: the clipped
/// count if it does not fall behind, nothing otherwise.
pub open spec fn progress_emit(reported: u64, total: u64, sent: u64) -> Option<u64> {
    if clip_to_total(total, sent) >= reported {
        Some(clip_to_total(total, sent))
    } else {
        None
    }
}

/// The last-emitted count after a raw report of `sent`: it only ever
/// moves forward.
pub open spec fn progress_next(reported: u64, total: u64, sent: u64) -> u64 {
    if clip_to_total(total, sent) >= reported {
        clip_to_total(total, sent)
    } else {
        reported
    }
}

/// What one transfer moves: the file's name and its total byte length.
/// Fixed for the whole transfer — given by the caller for a send,
/// announced by the accepted offer for a receive.
#[derive(Clone, Debug, PartialEq, Eq)]
pub struct TransferDescriptor {
    pub filename: String,
    pub length: u64,
}

/// State of one session attempt, stepped by the driver as events come
/// back from the external collaborator.
#[derive(Debug)]
pub struct Session {
    state: SessionState,
    direction: Direction,
    code: Option<String>,
    filename: Option<String>,
    total: u64,
    reported: u64,
    failure: Option<FailureReason>,
}

impl Session {
    /// Current orchestration phase.
    pub closed spec fn spec_state(self) -> SessionState {
        self.state
    }

    /// Which protocol this session runs.
    pub closed spec fn spec_direction(self) -> Direction {
        self.direction
    }

    /// The pairing code of this attempt, once one exists.
    pub closed spec fn spec_code(self) -> Option<String> {
        self.code
    }

    /// The file name announced by the accepted offer (receive only).
    pub closed spec fn spec_filename(self) -> Option<String> {
        self.filename
    }

    /// Total byte length of the transfer: the descriptor's length for a
    /// send, the accepted offer's length for a receive.
    pub closed spec fn spec_total(self) -> u64 {
        self.total
    }

    /// The last progress count emitted to the caller.
    pub closed spec fn spec_reported(self) -> u64 {
        self.reported
    }

    /// The classified reason, once the session has failed.
    pub closed spec fn spec_failure(self) -> Option<FailureReason> {
        self.failure
    }

    /// Session invariant: a failure reason exists exactly in the
    /// `Failed` state, a send starts without a code and every later
    /// state has one, progress is only accumulated while transferring
    /// and never exceeds the total, and a receive only transfers after
    /// an offer supplied its file name and length.
    pub open spec fn wf(self) -> bool {
        &&& self.spec_reported() <= self.spec_total()
        &&& (self.spec_state() is Failed <==> self.spec_failure() is Some)
        &&& (self.spec_state() is Idle ==> self.spec_direction() is Send && self.spec_code()
            is None)
        &&& (self.spec_state() is CodeReady || self.spec_state() is Connected
            || self.spec_state() is Negotiating || self.spec_state() is Transferring
            || self.spec_state() is Completed ==> self.spec_code() is Some)
        &&& (self.spec_state() is Idle || self.spec_state() is CodeReady || self.spec_state()
            is Connected || self.spec_state() is Negotiating ==> self.spec_reported() == 0)
        &&& (self.spec_direction() is Receive && self.spec_state() is Transferring
            ==> self.spec_filename() is Some)
    }

    /// Start a send attempt for the file the descriptor names.  No
    /// pairing code exists yet; the collaborator will generate one.
    pub fn new_send(descriptor: TransferDescriptor) -> (s: Session)
        ensures
            s.wf(),
            s.spec_state() == SessionState::Idle,
            s.spec_direction() == Direction::Send,
            s.spec_total() == descriptor.length,
            s.spec_filename() == Some(descriptor.filename),
            s.spec_reported() == 0,
            s.spec_code() is None,
            s.spec_failure() is None,
    {
        Session {
            state: SessionState::Idle,
            direction: Direction::Send,
            code: None,
            filename: Some(descriptor.filename),
            total: descriptor.length,
            reported: 0,
            failure: None,
        }
    }

    /// Start a receive attempt with the caller-supplied pairing code:
    /// the session begins with the code already in hand.
    pub fn new_receive(code: String) -> (s: Session)
        ensures
            s.wf(),
            s.spec_state() == SessionState::CodeReady,
            s.spec_direction() == Direction::Receive,
            s.spec_total() == 0,
            s.spec_reported() == 0,
            s.spec_code() == Some(code),
            s.spec_failure() is None,
    {
        Session {
            state: SessionState::CodeReady,
            direction: Direction::Receive,
            code: Some(code),
            filename: None,
            total: 0,
            reported: 0,
            failure: None,
        }
    }

    /// The collaborator issued a pairing code for this send attempt.
    /// The code is recorded once and surfaced to the caller; no later
    /// step changes it.
    pub fn code_issued(&mut self, code: String)
        requires
            old(self).wf(),
            old(self).spec_state() is Idle,
        ensures
            final(self).wf(),
            final(self).spec_state() == SessionState::CodeReady,
            final(self).spec_code() == Some(code),
            final(self).spec_direction() == old(self).spec_direction(),
            final(self).spec_filename() == old(self).spec_filename(),
            final(self).spec_total() == old(self).spec_total(),
            final(self).spec_reported() == old(self).spec_reported(),
            final(self).spec_failure() is None,
    {
        self.state = SessionState::CodeReady;
        self.code = Some(code);
    }

    /// The collaborator reports the secure channel as established.
    pub fn connection_established(&mut self)
        requires
            old(self).wf(),
            old(self).spec_state() is CodeReady,
        ensures
            final(self).wf(),
            final(self).spec_state() == SessionState::Connected,
            final(self).spec_code() == old(self).spec_code(),
            final(self).spec_filename() == old(self).spec_filename(),
            final(self).spec_direction() == old(self).spec_direction(),
            final(self).spec_total() == old(self).spec_total(),
            final(self).spec_reported() == old(self).spec_reported(),
            final(self).spec_failure() is None,
    {
        self.state = SessionState::Connected;
    }

    /// Enter the transit/relay capability exchange and supply the
    /// requested ability flags, fixed here to use the relay.
    pub fn negotiate(&mut self) -> (a: TransitAbilities)
        requires
            old(self).wf(),
            old(self).spec_state() is Connected,
        ensures
            final(self).wf(),
            final(self).spec_state() == SessionState::Negotiating,
            a == TransitAbilities::ForceRelay,
            final(self).spec_code() == old(self).spec_code(),
            final(self).spec_filename() == old(self).spec_filename(),
            final(self).spec_direction() == old(self).spec_direction(),
            final(self).spec_total() == old(self).spec_total(),
            final(self).spec_reported() == old(self).spec_reported(),
            final(self).spec_failure() is None,
    {
        self.state = SessionState::Negotiating;
        TransitAbilities::ForceRelay
    }

    /// The send transfer call has been issued over the negotiated
    /// channel: bytes are now streaming from the chunk source adapter.
    pub fn transfer_issued(&mut self)
        requires
            old(self).wf(),
            old(self).spec_state() is Negotiating,
            old(self).spec_direction() is Send,
        ensures
            final(self).wf(),
            final(self).spec_state() == SessionState::Transferring,
            final(self).spec_code() == old(self).spec_code(),
            final(self).spec_filename() == old(self).spec_filename(),
            final(self).spec_direction() == old(self).spec_direction(),
            final(self).spec_total() == old(self).spec_total(),
            final(self).spec_reported() == old(self).spec_reported(),
            final(self).spec_failure() is None,
    {
        self.state = SessionState::Transferring;
    }

    /// The collaborator reports no incoming transfer request for this
    /// code.  This is its own classified outcome — `NoTransferOffered`
    /// — and never a generic connection error: the connection itself
    /// succeeded.
    pub fn no_offer(&mut self) -> (o: TransferOutcome)
        requires
            old(self).wf(),
            old(self).spec_state() is Negotiating,
            old(self).spec_direction() is Receive,
        ensures
            final(self).wf(),
            final(self).spec_state() == SessionState::Failed,
            final(self).spec_failure() == Some(FailureReason::NoTransferOffered),
            o == TransferOutcome::Failed(FailureReason::NoTransferOffered),
            final(self).spec_code() == old(self).spec_code(),
            final(self).spec_filename() == old(self).spec_filename(),
            final(self).spec_direction() == old(self).spec_direction(),
            final(self).spec_total() == old(self).spec_total(),
            final(self).spec_reported() == old(self).spec_reported(),
    {
        self.state = SessionState::Failed;
        self.failure = Some(FailureReason::NoTransferOffered);
        TransferOutcome::Failed(FailureReason::NoTransferOffered)
    }

    /// The collaborator offered an incoming file and the session
    /// accepts it: record the announced name and byte length and start
    /// streaming into the in-memory buffer.
    pub fn offer_accepted(&mut self, filename: String, filesize: u64)
        requires
            old(self).wf(),
            old(self).spec_state() is Negotiating,
            old(self).spec_direction() is Receive,
        ensures
            final(self).wf(),
            final(self).spec_state() == SessionState::Transferring,
            final(self).spec_total() == filesize,
            final(self).spec_filename() == Some(filename),
            final(self).spec_code() == old(self).spec_code(),
            final(self).spec_direction() == old(self).spec_direction(),
            final(self).spec_reported() == 0,
            final(self).spec_failure() is None,
    {
        self.state = SessionState::Transferring;
        self.filename = Some(filename);
        self.total = filesize;
    }

    /// A cumulative progress report arrived from the collaborator.
    /// The count is clipped to the transfer's total length and is
    /// emitted to the caller only if it does not fall behind an earlier
    /// emission, so the stream of emitted `(count, total)` pairs never
    /// decreases.
    pub fn progress(&mut self, sent: u64) -> (emit: Option<(u64, u64)>)
        requires
            old(self).wf(),
            old(self).spec_state() is Transferring,
        ensures
            final(self).wf(),
            final(self).spec_state() == SessionState::Transferring,
            final(self).spec_reported() == progress_next(
                old(self).spec_reported(),
                old(self).spec_total(),
                sent,
            ),
            emit matches Some(p) ==> Some(p.0) == progress_emit(
                old(self).spec_reported(),
                old(self).spec_total(),
                sent,
            ) && p.1 == old(self).spec_total() && p.0 == final(self).spec_reported(),
            emit is None <==> progress_emit(
                old(self).spec_reported(),
                old(self).spec_total(),
                sent,
            ) is None,
            final(self).spec_code() == old(self).spec_code(),
            final(self).spec_direction() == old(self).spec_direction(),
            final(self).spec_total() == old(self).spec_total(),
            final(self).spec_filename() == old(self).spec_filename(),
            final(self).spec_failure() is None,
    {
        let clipped = if sent <= self.total {
            sent
        } else {
            self.total
        };
        if clipped >= self.reported {
            self.reported = clipped;
            Some((clipped, self.total))
        } else {
            None
        }
    }

    /// The send transfer completed.  A last progress emission brings
    /// the caller's count up to the total if it is not there already,
    /// so the final emitted count on success equals the total length;
    /// the outcome reports the total bytes sent.
    pub fn send_complete(&mut self) -> (r: (Option<(u64, u64)>, TransferOutcome))
        requires
            old(self).wf(),
            old(self).spec_state() is Transferring,
            old(self).spec_direction() is Send,
        ensures
            final(self).wf(),
            final(self).spec_state() == SessionState::Completed,
            final(self).spec_reported() == final(self).spec_total(),
            r.1 == (TransferOutcome::Sent { byte_count: old(self).spec_total() }),
            old(self).spec_reported() < old(self).spec_total() ==> r.0 == Some(
                (old(self).spec_total(), old(self).spec_total()),
            ),
            old(self).spec_reported() == old(self).spec_total() ==> r.0 is None,
            final(self).spec_code() == old(self).spec_code(),
            final(self).spec_filename() == old(self).spec_filename(),
            final(self).spec_direction() == old(self).spec_direction(),
            final(self).spec_total() == old(self).spec_total(),
            final(self).spec_failure() is None,
    {
        self.state = SessionState::Completed;
        let emit = if self.reported < self.total {
            self.reported = self.total;
            Some((self.total, self.total))
        } else {
            None
        };
        (emit, TransferOutcome::Sent { byte_count: self.total })
    }

    /// The receive transfer completed with `data` buffered in memory.
    /// The outcome carries those bytes together with the name and
    /// length announced by the accepted offer; as for a send, a last
    /// progress emission brings the count up to the total.
    pub fn receive_complete(&mut self, data: Vec<u8>) -> (r: (
        Option<(u64, u64)>,
        TransferOutcome,
    ))
        requires
            old(self).wf(),
            old(self).spec_state() is Transferring,
            old(self).spec_direction() is Receive,
        ensures
            final(self).wf(),
            final(self).spec_state() == SessionState::Completed,
            final(self).spec_reported() == final(self).spec_total(),
            r.1 matches TransferOutcome::Received(rr) && rr.data@ == data@ && rr.filesize == old(
                self,
            ).spec_total() && Some(rr.filename) == old(self).spec_filename(),
            old(self).spec_reported() < old(self).spec_total() ==> r.0 == Some(
                (old(self).spec_total(), old(self).spec_total()),
            ),
            old(self).spec_reported() == old(self).spec_total() ==> r.0 is None,
            final(self).spec_code() == old(self).spec_code(),
            final(self).spec_direction() == old(self).spec_direction(),
            final(self).spec_total() == old(self).spec_total(),
            final(self).spec_failure() is None,
    {
        self.state = SessionState::Completed;
        let emit = if self.reported < self.total {
            self.reported = self.total;
            Some((self.total, self.total))
        } else {
            None
        };
        let name = match self.filename.take() {
            Some(n) => n,
            None => String::new(),
        };
        let outcome = TransferOutcome::Received(
            ReceiveResult::new(data, name, self.total),
        );
        (emit, outcome)
    }

    /// An external collaborator call failed.  Whatever the state, the
    /// session moves straight to `Failed` with the classified reason
    /// and is never retried; nothing else about the attempt changes.
    pub fn fail(&mut self, reason: FailureReason) -> (o: TransferOutcome)
        requires
            old(self).wf(),
            !(old(self).spec_state() is Completed),
            !(old(self).spec_state() is Failed),
        ensures
            final(self).wf(),
            final(self).spec_state() == SessionState::Failed,
            final(self).spec_failure() == Some(reason),
            o == TransferOutcome::Failed(reason),
            final(self).spec_code() == old(self).spec_code(),
            final(self).spec_filename() == old(self).spec_filename(),
            final(self).spec_direction() == old(self).spec_direction(),
            final(self).spec_total() == old(self).spec_total(),
            final(self).spec_reported() == old(self).spec_reported(),
    {
        self.state = SessionState::Failed;
        self.failure = Some(reason);
        TransferOutcome::Failed(reason)
    }

    /// Current phase, for the driver and the caller.
    pub fn state(&self) -> (r: SessionState)
        ensures
            r == self.spec_state(),
    {
        self.state
    }

    /// Total byte length of the transfer as currently known.
    pub fn total_len(&self) -> (r: u64)
        ensures
            r == self.spec_total(),
    {
        self.total
    }

    /// The last progress count emitted to the caller.
    pub fn reported(&self) -> (r: u64)
        ensures
            r == self.spec_reported(),
    {
        self.reported
    }
}

/// The counts a transferring session emits to the caller, in order,
/// when the collaborator's raw cumulative reports are `raw`, the last
/// emitted count so far is `reported`, and the transfer's total length
/// is `total`: each report is passed through [`progress_emit`] and the
/// session's count advances by [`progress_next`], exactly as
/// [`Session::progress`] does one step at a time.
pub open spec fn emitted_counts(reported: u64, total: u64, raw: Seq<u64>) -> Seq<u64>
    decreases raw.len(),
{
    if raw.len() == 0 {
        Seq::empty()
    } else {
        let rest = emitted_counts(progress_next(reported, total, raw[0]), total, raw.skip(1));
        match progress_emit(reported, total, raw[0]) {
            Some(v) => seq![v] + rest,
            None => rest,
        }
    }
}

/// Law: however the collaborator's raw cumulative reports behave, the
/// progress counts the session emits never decrease from one emission
/// to the next, never fall below the count already reported when the
/// reports began, and never exceed the transfer's total length.
pub proof fn lemma_progress_monotone(reported: u64, total: u64, raw: Seq<u64>)
    requires
        reported <= total,
    ensures
        forall|i: int, j: int|
            0 <= i <= j < emitted_counts(reported, total, raw).len() ==> #[trigger] emitted_counts(
                reported,
                total,
                raw,
            )[i] <= #[trigger] emitted_counts(reported, total, raw)[j],
        forall|i: int|
            0 <= i < emitted_counts(reported, total, raw).len() ==> reported <= #[trigger] emitted_counts(
                reported,
                total,
                raw,
            )[i] <= total,
    decreases raw.len(),
{
    if raw.len() > 0 {
        let next = progress_next(reported, total, raw[0]);
        lemma_progress_monotone(next, total, raw.skip(1));
        let rest = emitted_counts(next, total, raw.skip(1));
        let e = emitted_counts(reported, total, raw);
        match progress_emit(reported, total, raw[0]) {
            Some(v) => {
                assert(e == seq![v] + rest);
                assert(e[0] == v);
                assert(forall|i: int| 1 <= i < e.len() ==> e[i] == rest[i - 1]);
                assert(v == next);
            },
            None => {
                assert(e == rest);
            },
        }
    }
}

} // verus!
