use vstd::prelude::*;

verus! {

/// Readiness token of the inbound socket.
pub const INBOUND_READY: usize = 0;

/// Readiness token of the outbound queue.
pub const OUTBOUND_READY: usize = 1;

/// The two sources the dispatch loop waits on.
#[derive(Clone, Copy, Debug, PartialEq, Eq, Structural)]
pub enum Source {
    Inbound,
    Outbound,
}

/// What one non-blocking receive on the socket gave.
#[derive(Clone, Copy, Debug, PartialEq, Eq, Structural)]
pub enum RecvOutcome {
    /// A datagram was received.
    Datagram,
    /// No datagram is waiting.
    WouldBlock,
    /// The receive failed for another reason.
    Failed,
}

/// What the dispatch loop does next while draining a source.
#[derive(Clone, Copy, Debug, PartialEq, Eq, Structural)]
pub enum Step {
    /// Handle what was received, then try the source again.
    Handle,
    /// The source is empty: go back to waiting.
    Drained,
    /// Stop the loop with an error.
    Fatal,
}

pub open spec fn token_source(token: usize) -> Option<Source> {
    if token == INBOUND_READY {
        Some(Source::Inbound)
    } else if token == OUTBOUND_READY {
        Some(Source::Outbound)
    } else {
        None
    }
}

pub open spec fn inbound_step_spec(o: RecvOutcome) -> Step {
    match o {
        RecvOutcome::Datagram => Step::Handle,
        RecvOutcome::WouldBlock => Step::Drained,
        RecvOutcome::Failed => Step::Fatal,
    }
}

pub open spec fn outbound_step_spec(popped: bool) -> Step {
    if popped {
        Step::Handle
    } else {
        Step::Drained
    }
}

/// The source a readiness token stands for; `None` for a token that was
/// never registered.
pub fn source_of_token(token: usize) -> (r: Option<Source>)
    ensures
        r == token_source(token),
{
    if token == INBOUND_READY {
        Some(Source::Inbound)
    } else if token == OUTBOUND_READY {
        Some(Source::Outbound)
    } else {
        None
    }
}

/// The next step after a receive on the socket: a datagram is handled and
/// the socket read again; only "would block" ends the drain, and any other
/// failure ends the loop.
pub fn inbound_step(o: RecvOutcome) -> (r: Step)
    ensures
        r == inbound_step_spec(o),
{
    match o {
        RecvOutcome::Datagram => Step::Handle,
        RecvOutcome::WouldBlock => Step::Drained,
        RecvOutcome::Failed => Step::Fatal,
    }
}

/// The next step after a pop from the outbound queue: an item is handled
/// and the queue popped again; only an empty queue ends the drain.
pub fn outbound_step(popped: bool) -> (r: Step)
    ensures
        r == outbound_step_spec(popped),
{
    if popped {
        Step::Handle
    } else {
        Step::Drained
    }
}

/// How many receives in a row the loop handles, when the socket answers
/// successive receives with `outs`.
pub open spec fn inbound_handled(outs: Seq<RecvOutcome>) -> nat
    decreases outs.len(),
{
    if outs.len() > 0 && inbound_step_spec(outs[0]) == Step::Handle {
        1 + inbound_handled(outs.skip(1))
    } else {
        0
    }
}

/// How many pops in a row the loop handles, when successive pops of the
/// outbound queue give an item where `pops` holds `true`.
pub open spec fn outbound_handled(pops: Seq<bool>) -> nat
    decreases pops.len(),
{
    if pops.len() > 0 && outbound_step_spec(pops[0]) == Step::Handle {
        1 + outbound_handled(pops.skip(1))
    } else {
        0
    }
}

/// One wake drains the socket: every datagram it yields is handled until it
/// reports that none is waiting, and the loop goes back to waiting only then
/// (a receive failure of another kind stops it). A socket holding `n`
/// datagrams has all `n` handled before the wait.
pub proof fn lemma_inbound_drain(outs: Seq<RecvOutcome>)
    ensures
        inbound_handled(outs) <= outs.len(),
        forall|i: int| 0 <= i < inbound_handled(outs) ==> outs[i] == RecvOutcome::Datagram,
        inbound_handled(outs) < outs.len() ==> outs[inbound_handled(outs) as int] != RecvOutcome::Datagram,
        inbound_handled(outs) < outs.len()
            && inbound_step_spec(outs[inbound_handled(outs) as int]) == Step::Drained
            ==> outs[inbound_handled(outs) as int] == RecvOutcome::WouldBlock,
    decreases outs.len(),
{
    if outs.len() > 0 && inbound_step_spec(outs[0]) == Step::Handle {
        lemma_inbound_drain(outs.skip(1));
        assert forall|i: int| 0 <= i < inbound_handled(outs) implies outs[i] == RecvOutcome::Datagram by {
            if i > 0 {
                assert(outs[i] == outs.skip(1)[i - 1]);
            }
        }
        let h = inbound_handled(outs.skip(1));
        if h < outs.skip(1).len() {
            assert(outs[h + 1int] == outs.skip(1)[h as int]);
        }
    }
}

/// One wake drains the outbound queue: every item it yields is handled, and
/// the loop goes back to waiting only once a pop finds it empty. A queue
/// holding `n` items has all `n` handled before the wait.
pub proof fn lemma_outbound_drain(pops: Seq<bool>)
    ensures
        outbound_handled(pops) <= pops.len(),
        forall|i: int| 0 <= i < outbound_handled(pops) ==> pops[i],
        outbound_handled(pops) < pops.len() ==> !pops[outbound_handled(pops) as int],
    decreases pops.len(),
{
    if pops.len() > 0 && outbound_step_spec(pops[0]) == Step::Handle {
        lemma_outbound_drain(pops.skip(1));
        assert forall|i: int| 0 <= i < outbound_handled(pops) implies pops[i] by {
            if i > 0 {
                assert(pops[i] == pops.skip(1)[i - 1]);
            }
        }
        let h = outbound_handled(pops.skip(1));
        if h < pops.skip(1).len() {
            assert(pops[h + 1int] == pops.skip(1)[h as int]);
        }
    }
}

} // verus!
