use vstd::prelude::*;

use crate::error::SendError;
use crate::frame::{part_of, Phase, HEADER_LEN};

verus! {

/// Attempts allowed per send: the first one and the retries together.
pub const MAX_ATTEMPTS: u32 = 5;

/// How the operation that the current step asked for went.
#[derive(Clone, Copy, Debug, PartialEq, Eq, Structural)]
pub enum Event {
    WriteOk,
    WriteFailed,
    Reconnected,
    ReconnectFailed,
    FlushOk,
    FlushFailed,
}

/// What the sender does next.
#[derive(Clone, Copy, Debug, PartialEq, Eq, Structural)]
pub enum Step {
    /// Write this part of the message to the connection in full.
    Write(Phase),
    /// Shut the failed connection down, best effort, and open a fresh one.
    Reconnect,
    /// Flush the connection once; a failure here is not retried.
    Flush,
    /// The message was written in full and flushed.
    Sent,
    /// The send ended with this error. The connection in use is shut down
    /// and not used again, so that no part of the message stays on a live
    /// connection.
    Failed(SendError),
}

/// The state of one send: the attempt under way (counted from 0) and the
/// next step.
#[derive(Clone, Copy, Debug, PartialEq, Eq, Structural)]
pub struct Retry {
    pub attempt: u32,
    pub step: Step,
}

/// The part written after `p`, or the flush after the payload.
pub open spec fn after_write(p: Phase) -> Step {
    match p {
        Phase::Tag => Step::Write(Phase::Length),
        Phase::Length => Step::Write(Phase::Payload),
        Phase::Payload => Step::Flush,
    }
}

/// The transition taken on event `e`. An event that does not answer the
/// current step leaves the state as it is; a finished send stays finished.
pub open spec fn next_state(s: Retry, e: Event) -> Retry {
    match s.step {
        Step::Write(p) => match e {
            Event::WriteOk => Retry { step: after_write(p), ..s },
            Event::WriteFailed => if s.attempt + 1 >= MAX_ATTEMPTS {
                Retry { step: Step::Failed(SendError::Write(p)), ..s }
            } else {
                Retry { step: Step::Reconnect, ..s }
            },
            _ => s,
        },
        Step::Reconnect => match e {
            Event::Reconnected => Retry { attempt: (s.attempt + 1) as u32, step: Step::Write(Phase::Tag) },
            Event::ReconnectFailed => Retry { step: Step::Failed(SendError::Reconnect), ..s },
            _ => s,
        },
        Step::Flush => match e {
            Event::FlushOk => Retry { step: Step::Sent, ..s },
            Event::FlushFailed => Retry { step: Step::Failed(SendError::Flush), ..s },
            _ => s,
        },
        _ => s,
    }
}

/// The bytes that the connection in use holds of the message `frame` after
/// event `e`: a written part is appended, a fresh connection starts empty,
/// and once the send fails no connection is in use.
pub open spec fn next_wire(s: Retry, wire: Seq<u8>, frame: Seq<u8>, e: Event) -> Seq<u8> {
    if next_state(s, e).step is Failed && !(s.step is Failed) {
        Seq::empty()
    } else {
        match s.step {
            Step::Write(p) => if e == Event::WriteOk {
                wire + part_of(frame, p)
            } else {
                wire
            },
            Step::Reconnect => if e == Event::Reconnected {
                Seq::empty()
            } else {
                wire
            },
            _ => wire,
        }
    }
}

/// The state and the bytes on the current connection after the events `evs`.
pub open spec fn run_events(s: Retry, wire: Seq<u8>, frame: Seq<u8>, evs: Seq<Event>) -> (Retry, Seq<u8>)
    decreases evs.len(),
{
    if evs.len() == 0 {
        (s, wire)
    } else {
        run_events(next_state(s, evs[0]), next_wire(s, wire, frame, evs[0]), frame, evs.drop_first())
    }
}

/// The phase that the `j`-th write of an attempt writes.
pub open spec fn phase_at(j: nat) -> Phase {
    if j == 0 {
        Phase::Tag
    } else if j == 1 {
        Phase::Length
    } else {
        Phase::Payload
    }
}

/// `j` writes that go through.
pub open spec fn writes_ok(j: nat) -> Seq<Event> {
    Seq::new(j, |i: int| Event::WriteOk)
}

/// An attempt whose first `j` writes go through, whose next write fails,
/// and after which reconnecting succeeds.
pub open spec fn failed_attempt(j: nat) -> Seq<Event> {
    writes_ok(j) + seq![Event::WriteFailed, Event::Reconnected]
}

/// A run of failed attempts, the `i`-th one failing after `fails[i]` writes.
pub open spec fn failed_attempts(fails: Seq<nat>) -> Seq<Event>
    decreases fails.len(),
{
    if fails.len() == 0 {
        Seq::empty()
    } else {
        failed_attempt(fails[0]) + failed_attempts(fails.drop_first())
    }
}

/// An attempt on a healthy connection: three writes and the flush go through.
pub open spec fn healthy_attempt() -> Seq<Event> {
    writes_ok(3) + seq![Event::FlushOk]
}

/// Where the bytes written by the first `j` parts of a message end.
pub open spec fn prefix_end(j: nat, total: int) -> int {
    if j == 0 {
        0
    } else if j == 1 {
        1
    } else if j == 2 {
        HEADER_LEN as int
    } else {
        total
    }
}

proof fn lemma_run_concat(s: Retry, wire: Seq<u8>, frame: Seq<u8>, a: Seq<Event>, b: Seq<Event>)
    ensures
        run_events(s, wire, frame, a + b) == run_events(run_events(s, wire, frame, a).0, run_events(s, wire, frame, a).1, frame, b),
    decreases a.len(),
{
    if a.len() == 0 {
        assert(a + b =~= b);
    } else {
        assert((a + b)[0] == a[0]);
        assert((a + b).drop_first() =~= a.drop_first() + b);
        lemma_run_concat(
            next_state(s, a[0]),
            next_wire(s, wire, frame, a[0]),
            frame,
            a.drop_first(),
            b,
        );
    }
}

proof fn lemma_run_one(s: Retry, wire: Seq<u8>, frame: Seq<u8>, e: Event)
    ensures
        run_events(s, wire, frame, seq![e]) == (next_state(s, e), next_wire(s, wire, frame, e)),
{
    reveal_with_fuel(run_events, 2);
    assert(seq![e].drop_first() =~= Seq::<Event>::empty());
}

/// From the start of an attempt, `j` writes that go through leave the first
/// `j` parts on the connection.
proof fn lemma_writes_ok(s: Retry, frame: Seq<u8>, j: nat)
    requires
        s.step == Step::Write(Phase::Tag),
        frame.len() >= HEADER_LEN,
        j <= 3,
    ensures
        run_events(s, Seq::empty(), frame, writes_ok(j)) == (
            Retry { step: if j == 3 { Step::Flush } else { Step::Write(phase_at(j)) }, ..s },
            frame.subrange(0, prefix_end(j, frame.len() as int)),
        ),
    decreases j,
{
    if j == 0 {
        assert(writes_ok(0) =~= Seq::<Event>::empty());
        assert(frame.subrange(0, 0) =~= Seq::<u8>::empty());
    } else {
        let k = (j - 1) as nat;
        lemma_writes_ok(s, frame, k);
        assert(writes_ok(j) =~= writes_ok(k) + seq![Event::WriteOk]);
        lemma_run_concat(s, Seq::empty(), frame, writes_ok(k), seq![Event::WriteOk]);
        let mid = run_events(s, Seq::empty(), frame, writes_ok(k));
        lemma_run_one(mid.0, mid.1, frame, Event::WriteOk);
        assert(frame.subrange(0, prefix_end(k, frame.len() as int)) + part_of(frame, phase_at(k))
            =~= frame.subrange(0, prefix_end(j, frame.len() as int)));
    }
}

/// An attempt that fails after `j` writes and reconnects leaves the next
/// attempt at its start, on an empty connection.
proof fn lemma_failed_attempt(s: Retry, frame: Seq<u8>, j: nat)
    requires
        s.step == Step::Write(Phase::Tag),
        s.attempt + 1 < MAX_ATTEMPTS,
        frame.len() >= HEADER_LEN,
        j < 3,
    ensures
        run_events(s, Seq::empty(), frame, failed_attempt(j)) == (
            Retry { attempt: (s.attempt + 1) as u32, step: Step::Write(Phase::Tag) },
            Seq::<u8>::empty(),
        ),
{
    lemma_writes_ok(s, frame, j);
    lemma_run_concat(s, Seq::empty(), frame, writes_ok(j), seq![Event::WriteFailed, Event::Reconnected]);
    let mid = run_events(s, Seq::empty(), frame, writes_ok(j));
    assert(seq![Event::WriteFailed, Event::Reconnected] =~= seq![Event::WriteFailed] + seq![Event::Reconnected]);
    lemma_run_concat(mid.0, mid.1, frame, seq![Event::WriteFailed], seq![Event::Reconnected]);
    lemma_run_one(mid.0, mid.1, frame, Event::WriteFailed);
    let s2 = next_state(mid.0, Event::WriteFailed);
    lemma_run_one(s2, next_wire(mid.0, mid.1, frame, Event::WriteFailed), frame, Event::Reconnected);
}

proof fn lemma_failed_attempts(s: Retry, frame: Seq<u8>, fails: Seq<nat>)
    requires
        s.step == Step::Write(Phase::Tag),
        s.attempt + fails.len() < MAX_ATTEMPTS,
        frame.len() >= HEADER_LEN,
        forall|i: int| 0 <= i < fails.len() ==> fails[i] < 3,
    ensures
        run_events(s, Seq::empty(), frame, failed_attempts(fails)) == (
            Retry { attempt: (s.attempt + fails.len()) as u32, step: Step::Write(Phase::Tag) },
            Seq::<u8>::empty(),
        ),
    decreases fails.len(),
{
    if fails.len() == 0 {
    } else {
        lemma_failed_attempt(s, frame, fails[0]);
        lemma_run_concat(s, Seq::empty(), frame, failed_attempt(fails[0]), failed_attempts(fails.drop_first()));
        let s1 = Retry { attempt: (s.attempt + 1) as u32, step: Step::Write(Phase::Tag) };
        lemma_failed_attempts(s1, frame, fails.drop_first());
    }
}

/// A send whose first `fails.len()` attempts each fail on some write, fewer
/// than the attempt budget, and whose next attempt goes through, succeeds;
/// the connection it ends on holds the whole message exactly once.
pub proof fn lemma_recovers_after_failures(frame: Seq<u8>, fails: Seq<nat>)
    requires
        frame.len() >= HEADER_LEN,
        fails.len() < MAX_ATTEMPTS,
        forall|i: int| 0 <= i < fails.len() ==> fails[i] < 3,
    ensures
        run_events(Retry::start_spec(), Seq::empty(), frame, failed_attempts(fails) + healthy_attempt())
            == (Retry { attempt: fails.len() as u32, step: Step::Sent }, frame),
{
    let s = Retry::start_spec();
    lemma_failed_attempts(s, frame, fails);
    lemma_run_concat(s, Seq::empty(), frame, failed_attempts(fails), healthy_attempt());
    let s1 = Retry { attempt: fails.len() as u32, step: Step::Write(Phase::Tag) };
    lemma_writes_ok(s1, frame, 3);
    lemma_run_concat(s1, Seq::empty(), frame, writes_ok(3), seq![Event::FlushOk]);
    let mid = run_events(s1, Seq::empty(), frame, writes_ok(3));
    lemma_run_one(mid.0, mid.1, frame, Event::FlushOk);
    assert(frame.subrange(0, frame.len() as int) =~= frame);
}

/// A send whose every attempt fails on some write gives up after the attempt
/// budget, with an error that names the part whose write failed last, and
/// leaves no part of the message on a connection still in use.
pub proof fn lemma_gives_up_after_budget(frame: Seq<u8>, fails: Seq<nat>, last: nat)
    requires
        frame.len() >= HEADER_LEN,
        fails.len() + 1 == MAX_ATTEMPTS,
        forall|i: int| 0 <= i < fails.len() ==> fails[i] < 3,
        last < 3,
    ensures
        run_events(
            Retry::start_spec(),
            Seq::empty(),
            frame,
            failed_attempts(fails) + writes_ok(last) + seq![Event::WriteFailed],
        ) == (
            Retry {
                attempt: (MAX_ATTEMPTS - 1) as u32,
                step: Step::Failed(SendError::Write(phase_at(last))),
            },
            Seq::<u8>::empty(),
        ),
{
    let s = Retry::start_spec();
    let evs = failed_attempts(fails) + writes_ok(last) + seq![Event::WriteFailed];
    assert(evs =~= failed_attempts(fails) + (writes_ok(last) + seq![Event::WriteFailed]));
    lemma_failed_attempts(s, frame, fails);
    lemma_run_concat(s, Seq::empty(), frame, failed_attempts(fails), writes_ok(last) + seq![Event::WriteFailed]);
    let s1 = Retry { attempt: fails.len() as u32, step: Step::Write(Phase::Tag) };
    lemma_writes_ok(s1, frame, last);
    lemma_run_concat(s1, Seq::empty(), frame, writes_ok(last), seq![Event::WriteFailed]);
    let mid = run_events(s1, Seq::empty(), frame, writes_ok(last));
    lemma_run_one(mid.0, mid.1, frame, Event::WriteFailed);
}

/// A send that has ended stays as it is, whatever is reported afterwards.
pub proof fn lemma_finished_is_final(s: Retry, wire: Seq<u8>, frame: Seq<u8>, evs: Seq<Event>)
    requires
        s.step is Sent || s.step is Failed,
    ensures
        run_events(s, wire, frame, evs) == (s, wire),
    decreases evs.len(),
{
    if evs.len() > 0 {
        lemma_finished_is_final(s, wire, frame, evs.drop_first());
    }
}

impl Retry {
    pub open spec fn wf(self) -> bool {
        &&& self.attempt < MAX_ATTEMPTS
        &&& self.step is Reconnect ==> self.attempt + 1 < MAX_ATTEMPTS
    }

    pub open spec fn start_spec() -> Retry {
        Retry { attempt: 0, step: Step::Write(Phase::Tag) }
    }

    /// A fresh send: first attempt, type tag first.
    pub fn start() -> (r: Retry)
        ensures
            r == Retry::start_spec(),
            r.wf(),
    {
        Retry { attempt: 0, step: Step::Write(Phase::Tag) }
    }

    /// Whether the send has ended, well or not.
    pub fn is_finished(&self) -> (r: bool)
        ensures
            r == (self.step is Sent || self.step is Failed),
    {
        match self.step {
            Step::Sent | Step::Failed(_) => true,
            _ => false,
        }
    }

    /// Takes the outcome of the current step into account.
    pub fn advance(&mut self, e: Event)
        requires
            old(self).wf(),
        ensures
            final(self).wf(),
            *final(self) == next_state(*old(self), e),
    {
        match self.step {
            Step::Write(p) => match e {
                Event::WriteOk => {
                    self.step = match p {
                        Phase::Tag => Step::Write(Phase::Length),
                        Phase::Length => Step::Write(Phase::Payload),
                        Phase::Payload => Step::Flush,
                    };
                },
                Event::WriteFailed => {
                    if self.attempt + 1 >= MAX_ATTEMPTS {
                        self.step = Step::Failed(SendError::Write(p));
                    } else {
                        self.step = Step::Reconnect;
                    }
                },
                _ => {},
            },
            Step::Reconnect => match e {
                Event::Reconnected => {
                    self.attempt = self.attempt + 1;
                    self.step = Step::Write(Phase::Tag);
                },
                Event::ReconnectFailed => {
                    self.step = Step::Failed(SendError::Reconnect);
                },
                _ => {},
            },
            Step::Flush => match e {
                Event::FlushOk => {
                    self.step = Step::Sent;
                },
                Event::FlushFailed => {
                    self.step = Step::Failed(SendError::Flush);
                },
                _ => {},
            },
            _ => {},
        }
    }
}

} // verus!
