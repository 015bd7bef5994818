//! The arbitration protocol of the shared bus, as a state machine.
//!
//! A client of the bus goes through three steps: it enters the critical
//! section, it performs its operations on the physical bus, and it leaves the
//! critical section. Clients may try any step at any time, as interrupt handlers
//! do; the cell admits a step only where the protocol allows it. What the cell
//! admitted is recorded in its trace, and the theorems of this module say that
//! no schedule of attempts, however interleaved, produces a trace in which two
//! transactions overlap.

use vstd::prelude::*;
use crate::bus::{BusError, OperationView};

verus! {

/// A step that a client of the bus tries to take.
pub enum Attempt {
    /// Mint one more proxy for the cell.
    Mint,
    /// Enter the critical section.
    Enter { proxy: nat },
    /// Hand an operation list for the device at `address` to the physical bus.
    Perform { proxy: nat, address: u8, operations: Seq<OperationView> },
    /// Leave the critical section with the outcome of the transaction.
    Exit { proxy: nat, outcome: Result<(), BusError> },
}

/// A step that the cell admitted.
pub enum BusEvent {
    Entered { proxy: nat },
    Performed { proxy: nat, address: u8, operations: Seq<OperationView> },
    Exited { proxy: nat, outcome: Result<(), BusError> },
}

impl BusEvent {
    /// The proxy through which the step was taken.
    pub open spec fn proxy(self) -> nat {
        match self {
            BusEvent::Entered { proxy } => proxy,
            BusEvent::Performed { proxy, .. } => proxy,
            BusEvent::Exited { proxy, .. } => proxy,
        }
    }

    /// Whether the step may follow a history that left `holder` in the
    /// critical section.
    pub open spec fn fits(self, holder: Option<nat>) -> bool {
        match self {
            BusEvent::Entered { .. } => holder is None,
            BusEvent::Performed { proxy, .. } => holder == Some(proxy),
            BusEvent::Exited { proxy, .. } => holder == Some(proxy),
        }
    }
}

/// The proxy that is inside the critical section after the events of `trace`.
pub open spec fn holder_after(trace: Seq<BusEvent>) -> Option<nat>
    decreases trace.len(),
{
    if trace.len() == 0 {
        None
    } else {
        match trace.last() {
            BusEvent::Entered { proxy } => Some(proxy),
            BusEvent::Performed { .. } => holder_after(trace.drop_last()),
            BusEvent::Exited { .. } => None,
        }
    }
}

/// A trace is serial when every event fits the holder that the events before it
/// left behind: transactions follow one another and never overlap.
pub open spec fn serial(trace: Seq<BusEvent>) -> bool
    decreases trace.len(),
{
    trace.len() == 0 || (serial(trace.drop_last()) && trace.last().fits(
        holder_after(trace.drop_last()),
    ))
}

/// What specifications know of a shared bus cell.
pub struct CellState {
    /// Number of proxies minted so far; they carry the identities below it.
    pub minted: nat,
    /// The proxy inside the critical section, if any.
    pub holder: Option<nat>,
    /// Every step admitted so far, oldest first.
    pub trace: Seq<BusEvent>,
}

impl CellState {
    /// The state of a cell that has just been built around its bus.
    pub open spec fn fresh() -> CellState {
        CellState { minted: 0, holder: None, trace: Seq::empty() }
    }

    /// The trace is serial and the holder is the one that the trace leaves.
    pub open spec fn wf(self) -> bool {
        serial(self.trace) && holder_after(self.trace) == self.holder
    }

    /// Whether the cell lets the attempt through.
    pub open spec fn admits(self, attempt: Attempt) -> bool {
        match attempt {
            Attempt::Mint => true,
            Attempt::Enter { .. } => self.holder is None,
            Attempt::Perform { proxy, .. } => self.holder == Some(proxy),
            Attempt::Exit { proxy, .. } => self.holder == Some(proxy),
        }
    }

    /// The state after an attempt. A refused attempt leaves no mark.
    pub open spec fn step(self, attempt: Attempt) -> CellState {
        if !self.admits(attempt) {
            self
        } else {
            match attempt {
                Attempt::Mint => CellState { minted: self.minted + 1, ..self },
                Attempt::Enter { proxy } => CellState {
                    holder: Some(proxy),
                    trace: self.trace.push(BusEvent::Entered { proxy }),
                    ..self
                },
                Attempt::Perform { proxy, address, operations } => CellState {
                    trace: self.trace.push(BusEvent::Performed { proxy, address, operations }),
                    ..self
                },
                Attempt::Exit { proxy, outcome } => CellState {
                    holder: None,
                    trace: self.trace.push(BusEvent::Exited { proxy, outcome }),
                    ..self
                },
            }
        }
    }

    /// The state after a whole schedule of attempts, taken in order.
    pub open spec fn run(self, schedule: Seq<Attempt>) -> CellState
        decreases schedule.len(),
    {
        if schedule.len() == 0 {
            self
        } else {
            self.step(schedule.first()).run(schedule.drop_first())
        }
    }

    /// The state after one whole transaction through `proxy`.
    pub open spec fn transact(
        self,
        proxy: nat,
        address: u8,
        operations: Seq<OperationView>,
        outcome: Result<(), BusError>,
    ) -> CellState {
        self.step(Attempt::Enter { proxy }).step(Attempt::Perform { proxy, address, operations })
            .step(Attempt::Exit { proxy, outcome })
    }
}

/// No single attempt, admitted or refused, breaks a well-formed cell.
pub proof fn step_preserves_wf(state: CellState, attempt: Attempt)
    requires
        state.wf(),
    ensures
        state.step(attempt).wf(),
{
    let next = state.step(attempt);
    if state.admits(attempt) && !(attempt is Mint) {
        assert(next.trace.drop_last() == state.trace);
    }
}

/// Mutual exclusion, as an invariant: whatever the clients attempt and however
/// their attempts interleave, the cell stays well formed, so its trace stays
/// serial.
pub proof fn interleavings_stay_serial(start: CellState, schedule: Seq<Attempt>)
    requires
        start.wf(),
    ensures
        start.run(schedule).wf(),
        serial(start.run(schedule).trace),
    decreases schedule.len(),
{
    if schedule.len() > 0 {
        step_preserves_wf(start, schedule.first());
        interleavings_stay_serial(start.step(schedule.first()), schedule.drop_first());
    }
}

/// Mutual exclusion from the first moment: a cell that has just been built
/// stays well formed under every schedule of attempts.
pub proof fn fresh_cell_stays_serial(schedule: Seq<Attempt>)
    ensures
        CellState::fresh().run(schedule).wf(),
        serial(CellState::fresh().run(schedule).trace),
{
    interleavings_stay_serial(CellState::fresh(), schedule);
}

/// Every prefix of a serial trace is serial.
pub proof fn serial_prefix(trace: Seq<BusEvent>, n: int)
    requires
        serial(trace),
        0 <= n <= trace.len(),
    ensures
        serial(trace.take(n)),
    decreases trace.len(),
{
    if n == trace.len() {
        assert(trace.take(n) == trace);
    } else {
        serial_prefix(trace.drop_last(), n);
        assert(trace.drop_last().take(n) == trace.take(n));
    }
}

/// While a transaction is in flight, its proxy is the holder: if the event at
/// `i` enters the critical section and no later event before `j` leaves it,
/// then the events before `j` leave that proxy inside.
pub proof fn holder_during_transaction(trace: Seq<BusEvent>, i: int, j: int)
    requires
        serial(trace),
        0 <= i < j <= trace.len(),
        trace[i] is Entered,
        forall|k: int| i < k < j ==> !(#[trigger] trace[k] is Exited),
    ensures
        holder_after(trace.take(j)) == Some(trace[i].proxy()),
    decreases j - i,
{
    let before = trace.take(j);
    assert(before.last() == trace[j - 1]);
    assert(before.drop_last() == trace.take(j - 1));
    if j - 1 > i {
        holder_during_transaction(trace, i, j - 1);
        serial_prefix(trace, j);
        assert(!(trace[j - 1] is Exited));
    }
}

/// Mutual exclusion, as an observer of the bus sees it: between the moment a
/// proxy enters the critical section and the moment it leaves, every event on
/// the trace was made through that proxy, and none of them is another entry.
/// No step of another transaction is ever observed between the steps of this
/// one.
pub proof fn transactions_never_interleave(trace: Seq<BusEvent>, i: int, j: int)
    requires
        serial(trace),
        0 <= i < j < trace.len(),
        trace[i] is Entered,
        forall|k: int| i < k < j ==> !(#[trigger] trace[k] is Exited),
    ensures
        trace[j].proxy() == trace[i].proxy(),
        !(trace[j] is Entered),
{
    holder_during_transaction(trace, i, j);
    serial_prefix(trace, j + 1);
    let upto = trace.take(j + 1);
    assert(upto.last() == trace[j]);
    assert(upto.drop_last() == trace.take(j));
}

/// Mutual exclusion for every schedule: start from any well-formed cell, let
/// any number of proxies attempt any steps in any order, and look at the trace
/// that results. Whatever lies between an entry and the exit that ends it
/// belongs to the proxy that entered.
pub proof fn no_interleaving_under_any_schedule(
    start: CellState,
    schedule: Seq<Attempt>,
    i: int,
    j: int,
)
    requires
        start.wf(),
        0 <= i < j < start.run(schedule).trace.len(),
        start.run(schedule).trace[i] is Entered,
        forall|k: int| i < k < j ==> !(#[trigger] start.run(schedule).trace[k] is Exited),
    ensures
        start.run(schedule).trace[j].proxy() == start.run(schedule).trace[i].proxy(),
        !(start.run(schedule).trace[j] is Entered),
{
    interleavings_stay_serial(start, schedule);
    transactions_never_interleave(start.run(schedule).trace, i, j);
}

/// A whole transaction through any proxy of a released cell is admitted step
/// by step, appends exactly its three events, and leaves the cell released,
/// whatever the bus answered.
pub proof fn transaction_is_atomic(
    state: CellState,
    proxy: nat,
    address: u8,
    operations: Seq<OperationView>,
    outcome: Result<(), BusError>,
)
    requires
        state.wf(),
        state.holder is None,
    ensures
        state.transact(proxy, address, operations, outcome).wf(),
        state.transact(proxy, address, operations, outcome).holder is None,
        state.transact(proxy, address, operations, outcome).minted == state.minted,
        state.transact(proxy, address, operations, outcome).trace == state.trace + seq![
            BusEvent::Entered { proxy },
            BusEvent::Performed { proxy, address, operations },
            BusEvent::Exited { proxy, outcome },
        ],
{
    let entered = state.step(Attempt::Enter { proxy });
    let performed = entered.step(Attempt::Perform { proxy, address, operations });
    step_preserves_wf(state, Attempt::Enter { proxy });
    step_preserves_wf(entered, Attempt::Perform { proxy, address, operations });
    step_preserves_wf(performed, Attempt::Exit { proxy, outcome });
}

/// One whole transaction as its caller sees it: the proxy it went through, what
/// was handed to the bus, and what the bus answered.
pub struct Call {
    pub proxy: nat,
    pub address: u8,
    pub operations: Seq<OperationView>,
    pub outcome: Result<(), BusError>,
}

impl Call {
    /// The three events of the call, in the order in which they happen.
    pub open spec fn events(self) -> Seq<BusEvent> {
        seq![
            BusEvent::Entered { proxy: self.proxy },
            BusEvent::Performed {
                proxy: self.proxy,
                address: self.address,
                operations: self.operations,
            },
            BusEvent::Exited { proxy: self.proxy, outcome: self.outcome },
        ]
    }
}

/// The events of a sequence of calls: those of the first call, then those of
/// the second, and so on.
pub open spec fn calls_trace(calls: Seq<Call>) -> Seq<BusEvent>
    decreases calls.len(),
{
    if calls.len() == 0 {
        Seq::empty()
    } else {
        calls_trace(calls.drop_last()) + calls.last().events()
    }
}

impl CellState {
    /// The state after a sequence of whole transactions, made one after
    /// another through any proxies.
    pub open spec fn run_calls(self, calls: Seq<Call>) -> CellState
        decreases calls.len(),
    {
        if calls.len() == 0 {
            self
        } else {
            self.run_calls(calls.drop_last()).transact(
                calls.last().proxy,
                calls.last().address,
                calls.last().operations,
                calls.last().outcome,
            )
        }
    }
}

/// Calls through the proxies of one cell serialize: in whatever order the
/// proxies take their turns, the trace grows by the events of each call as one
/// block, in the order of the calls, and the cell is released after the last.
pub proof fn calls_serialize(start: CellState, calls: Seq<Call>)
    requires
        start.wf(),
        start.holder is None,
    ensures
        start.run_calls(calls).wf(),
        start.run_calls(calls).holder is None,
        start.run_calls(calls).minted == start.minted,
        start.run_calls(calls).trace == start.trace + calls_trace(calls),
        calls_trace(calls).len() == 3 * calls.len(),
    decreases calls.len(),
{
    if calls.len() > 0 {
        let earlier = calls.drop_last();
        let last = calls.last();
        calls_serialize(start, earlier);
        transaction_is_atomic(
            start.run_calls(earlier),
            last.proxy,
            last.address,
            last.operations,
            last.outcome,
        );
        assert(start.trace + calls_trace(earlier) + last.events() == start.trace + (calls_trace(
            earlier,
        ) + last.events()));
    } else {
        assert(start.trace + calls_trace(calls) == start.trace);
    }
}

/// The events of the call at position `n` stand next to one another in the
/// trace of the calls: no event of another call lies between them.
pub proof fn call_events_are_adjacent(calls: Seq<Call>, n: int)
    requires
        0 <= n < calls.len(),
    ensures
        calls_trace(calls).len() == 3 * calls.len(),
        calls_trace(calls).subrange(3 * n, 3 * n + 3) == calls[n].events(),
    decreases calls.len(),
{
    let earlier = calls.drop_last();
    let block = calls.last().events();
    if earlier.len() > 0 {
        call_events_are_adjacent(earlier, 0);
    }
    assert(calls_trace(earlier).len() == 3 * earlier.len());
    if n == calls.len() - 1 {
        assert((calls_trace(earlier) + block).subrange(3 * n, 3 * n + 3) == block);
    } else {
        call_events_are_adjacent(earlier, n);
        assert((calls_trace(earlier) + block).subrange(3 * n, 3 * n + 3) == calls_trace(
            earlier,
        ).subrange(3 * n, 3 * n + 3));
    }
}

/// Minting a proxy never disturbs the critical section: the holder and the
/// trace stay as they were, so a cell with three or more clients serializes
/// exactly as a cell with two.
pub proof fn minting_keeps_arbitration(state: CellState)
    requires
        state.wf(),
    ensures
        state.step(Attempt::Mint).wf(),
        state.step(Attempt::Mint).minted == state.minted + 1,
        state.step(Attempt::Mint).holder == state.holder,
        state.step(Attempt::Mint).trace == state.trace,
{
}

/// While one proxy is inside the critical section, every attempt by another
/// proxy to enter, to perform or to exit is refused and leaves the cell as it
/// was.
pub proof fn contender_is_refused(state: CellState, attempt: Attempt, holder: nat)
    requires
        state.holder == Some(holder),
        match attempt {
            Attempt::Mint => false,
            Attempt::Enter { .. } => true,
            Attempt::Perform { proxy, .. } => proxy != holder,
            Attempt::Exit { proxy, .. } => proxy != holder,
        },
    ensures
        !state.admits(attempt),
        state.step(attempt) == state,
{
}

} // verus!
