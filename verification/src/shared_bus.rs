//! The shared bus cell and the proxies minted from it.
//!
//! The cell is the single owner of the physical bus. A proxy is a token that
//! names one client of the cell; it owns nothing and has no state that a
//! transaction could change. All access to the bus goes through the cell's
//! critical section, which follows the protocol of [`crate::arbitration`].

use vstd::prelude::*;
use crate::arbitration::{transaction_is_atomic, Attempt, BusEvent, CellState};
use crate::bus::{operations_view, BusError, Operation, PhysicalBus};

verus! {

/// A capability to issue one transaction at a time on a shared bus.
///
/// Proxies come from [`SharedBusCell::mint`] alone, each with an identity of
/// its own within the cell that minted it.
#[derive(Debug)]
pub struct I2CProxy {
    id: usize,
}

impl View for I2CProxy {
    type V = nat;

    /// The identity of the proxy within its cell.
    closed spec fn view(&self) -> nat {
        self.id as nat
    }
}

/// The bookkeeping of the critical section.
struct Arbiter {
    minted: usize,
    holder: Option<usize>,
    trace: Ghost<Seq<BusEvent>>,
}

impl Arbiter {
    spec fn state(self) -> CellState {
        CellState {
            minted: self.minted as nat,
            holder: match self.holder {
                Some(id) => Some(id as nat),
                None => None,
            },
            trace: self.trace@,
        }
    }

    #[verifier::type_invariant]
    spec fn inv(self) -> bool {
        self.state().wf()
    }
}

/// The lock-protected container of the physical bus.
///
/// The bus is moved in when the cell is built and never handed out again.
pub struct SharedBusCell<B> {
    bus: B,
    arbiter: Arbiter,
}

impl<B> View for SharedBusCell<B> {
    type V = CellState;

    closed spec fn view(&self) -> CellState {
        self.arbiter.state()
    }
}

impl<B> SharedBusCell<B> {
    /// The physical bus inside the cell.
    pub closed spec fn bus(&self) -> B {
        self.bus
    }

    /// Wraps a configured bus. No proxy exists yet and nobody is inside the
    /// critical section.
    pub fn new(bus: B) -> (cell: Self)
        ensures
            cell@ == CellState::fresh(),
            cell@.wf(),
            cell.bus() == bus,
    {
        SharedBusCell { bus, arbiter: Arbiter { minted: 0, holder: None, trace: Ghost(Seq::empty()) } }
    }

    /// Number of proxies minted so far.
    pub fn minted(&self) -> (count: usize)
        ensures
            count == self@.minted,
    {
        self.arbiter.minted
    }

    /// Whether nobody is inside the critical section.
    pub fn is_released(&self) -> (released: bool)
        ensures
            released == (self@.holder is None),
    {
        self.arbiter.holder.is_none()
    }

    /// Whether `proxy` is inside the critical section.
    pub fn is_held_by(&self, proxy: &I2CProxy) -> (held: bool)
        ensures
            held == (self@.holder == Some(proxy@)),
    {
        match self.arbiter.holder {
            Some(id) => id == proxy.id,
            None => false,
        }
    }

    /// Mints one more proxy. Its identity is the number of proxies minted
    /// before it, so no two proxies of a cell share one; the critical section
    /// is not disturbed.
    pub fn mint(&mut self) -> (proxy: I2CProxy)
        requires
            old(self)@.minted < usize::MAX,
        ensures
            proxy@ == old(self)@.minted,
            final(self)@ == old(self)@.step(Attempt::Mint),
            final(self)@.wf(),
            final(self)@.minted == old(self)@.minted + 1,
            final(self)@.holder == old(self)@.holder,
            final(self)@.trace == old(self)@.trace,
            final(self).bus() == old(self).bus(),
    {
        proof {
            use_type_invariant(&self.arbiter);
        }
        let id = self.arbiter.minted;
        self.arbiter = Arbiter {
            minted: id + 1,
            holder: self.arbiter.holder,
            trace: self.arbiter.trace,
        };
        I2CProxy { id }
    }

    /// Tries to enter the critical section through `proxy`. The attempt
    /// succeeds exactly when the critical section is free; a refused attempt
    /// changes nothing.
    pub fn enter(&mut self, proxy: &I2CProxy) -> (entered: bool)
        ensures
            entered == old(self)@.admits(Attempt::Enter { proxy: proxy@ }),
            entered == (old(self)@.holder is None),
            final(self)@ == old(self)@.step(Attempt::Enter { proxy: proxy@ }),
            final(self)@.wf(),
            final(self).bus() == old(self).bus(),
    {
        proof {
            use_type_invariant(&self.arbiter);
        }
        if self.arbiter.holder.is_some() {
            return false;
        }
        let ghost entry = BusEvent::Entered { proxy: proxy@ };
        let ghost before = self.arbiter.trace@;
        assert(before.push(entry).drop_last() == before);
        self.arbiter = Arbiter {
            minted: self.arbiter.minted,
            holder: Some(proxy.id),
            trace: Ghost(before.push(entry)),
        };
        true
    }

    /// Leaves the critical section through `proxy` and settles the transaction
    /// with `outcome`, which is handed back exactly as it came, success or
    /// error. Only the holder can leave: from any other proxy the call changes
    /// nothing.
    pub fn exit(&mut self, proxy: &I2CProxy, outcome: Result<(), BusError>) -> (settled: Result<
        (),
        BusError,
    >)
        ensures
            settled == outcome,
            final(self)@ == old(self)@.step(Attempt::Exit { proxy: proxy@, outcome }),
            final(self)@.wf(),
            final(self).bus() == old(self).bus(),
    {
        proof {
            use_type_invariant(&self.arbiter);
        }
        if self.is_held_by(proxy) {
            let ghost leave = BusEvent::Exited { proxy: proxy@, outcome };
            let ghost before = self.arbiter.trace@;
            assert(before.push(leave).drop_last() == before);
            self.arbiter = Arbiter {
                minted: self.arbiter.minted,
                holder: None,
                trace: Ghost(before.push(leave)),
            };
        }
        outcome
    }
}

impl<B: PhysicalBus> SharedBusCell<B> {
    /// Hands the operation list to the physical bus, provided that `proxy` is
    /// inside the critical section. From any other proxy the bus is not
    /// touched, the operations stay as they were and the answer is `None`.
    ///
    /// The trace records the address and the operations exactly as they were
    /// handed over. What the bus answers, and what it leaves in the read
    /// buffers, is the bus's own business.
    pub fn perform(&mut self, proxy: &I2CProxy, address: u8, operations: &mut Vec<Operation>) -> (
        outcome: Option<Result<(), BusError>>
    )
        ensures
            (outcome is Some) == old(self)@.admits(
                Attempt::Perform {
                    proxy: proxy@,
                    address,
                    operations: operations_view(old(operations)@),
                },
            ),
            (outcome is Some) == (old(self)@.holder == Some(proxy@)),
            final(self)@ == old(self)@.step(
                Attempt::Perform {
                    proxy: proxy@,
                    address,
                    operations: operations_view(old(operations)@),
                },
            ),
            final(self)@.wf(),
            outcome is None ==> *final(operations) == *old(operations) && final(self).bus() == old(
                self,
            ).bus(),
    {
        proof {
            use_type_invariant(&self.arbiter);
        }
        if !self.is_held_by(proxy) {
            return None;
        }
        let ghost step = BusEvent::Performed {
            proxy: proxy@,
            address,
            operations: operations_view(operations@),
        };
        let ghost before = self.arbiter.trace@;
        assert(before.push(step).drop_last() == before);
        self.arbiter = Arbiter {
            minted: self.arbiter.minted,
            holder: self.arbiter.holder,
            trace: Ghost(before.push(step)),
        };
        Some(self.bus.transaction(address, operations))
    }
}

impl I2CProxy {
    /// The identity of the proxy within its cell.
    pub fn id(&self) -> (id: usize)
        ensures
            id == self@,
    {
        self.id
    }

    /// Carries out one transaction on the shared bus: enters the critical
    /// section of `cell`, hands the whole operation list to the physical bus,
    /// and leaves the critical section again, on success and on error alike.
    /// Whatever the bus reports is returned unchanged; nothing is retried.
    ///
    /// The cell must be released when the call is made, as it is between any
    /// two transactions; it is released again when the call returns. The trace
    /// of the cell grows by exactly the three events of this transaction, with
    /// the returned value as its outcome.
    pub fn transaction<B: PhysicalBus>(
        &mut self,
        cell: &mut SharedBusCell<B>,
        address: u8,
        operations: &mut Vec<Operation>,
    ) -> (result: Result<(), BusError>)
        requires
            old(cell)@.holder is None,
        ensures
            final(self)@ == old(self)@,
            final(cell)@ == old(cell)@.transact(
                old(self)@,
                address,
                operations_view(old(operations)@),
                result,
            ),
            final(cell)@.wf(),
            final(cell)@.holder is None,
            final(cell)@.minted == old(cell)@.minted,
            final(cell)@.trace == old(cell)@.trace + seq![
                BusEvent::Entered { proxy: old(self)@ },
                BusEvent::Performed {
                    proxy: old(self)@,
                    address,
                    operations: operations_view(old(operations)@),
                },
                BusEvent::Exited { proxy: old(self)@, outcome: result },
            ],
    {
        let ghost start = cell@;
        let ghost handed = operations_view(operations@);
        proof {
            use_type_invariant(&cell.arbiter);
        }
        let entered = cell.enter(self);
        assert(entered);
        let outcome = cell.perform(self, address, operations).unwrap();
        let result = cell.exit(self, outcome);
        proof {
            transaction_is_atomic(start, self@, address, handed, result);
        }
        result
    }

    /// Carries out one transaction if the critical section is free, as
    /// [`I2CProxy::transaction`] does, and answers `None` if somebody is
    /// inside: the transaction is then put off, the bus is not touched, and
    /// neither the cell nor the operations change.
    pub fn try_transaction<B: PhysicalBus>(
        &mut self,
        cell: &mut SharedBusCell<B>,
        address: u8,
        operations: &mut Vec<Operation>,
    ) -> (attempt: Option<Result<(), BusError>>)
        ensures
            final(self)@ == old(self)@,
            (attempt is None) == (old(cell)@.holder is Some),
            attempt is None ==> {
                &&& final(cell)@ == old(cell)@
                &&& final(cell).bus() == old(cell).bus()
                &&& *final(operations) == *old(operations)
            },
            attempt matches Some(result) ==> {
                &&& final(cell)@ == old(cell)@.transact(
                    old(self)@,
                    address,
                    operations_view(old(operations)@),
                    result,
                )
                &&& final(cell)@.holder is None
            },
            final(cell)@.wf(),
    {
        proof {
            use_type_invariant(&cell.arbiter);
        }
        if cell.is_released() {
            Some(self.transaction(cell, address, operations))
        } else {
            None
        }
    }
}

} // verus!
