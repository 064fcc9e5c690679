//! Several operations on one lock.
//!
//! The operations of several callers take their steps in any order. Whatever
//! the order, the transfers of one exchange with the dongle are never mixed
//! with those of another: what reaches the dongle is one whole exchange after
//! the other.

use vstd::prelude::*;

use crate::error::ErrorView;
use crate::exchange::AnswerView;
use crate::radio::CrazyradioView;
use crate::scan::{ProbingView, ScanStepView, ScanView};
use crate::shared::{LockView, SendPacketView, SendStepView, SendingView};
use crate::transfer::{OutcomeView, TransferView};

verus! {

/// One operation on the shared dongle, at any point of its life.
pub enum Operation {
    /// A packet that waits for the lock.
    Packet(SendPacketView),
    /// A packet on its way.
    Sending(SendingView),
    /// A scan between two channels.
    Scan(ScanView),
    /// A scan that probes a channel.
    Probing(ProbingView),
    /// A packet that was sent, or not: what the operation ended with.
    Sent(AnswerView),
    /// A scan that is over: what it ended with.
    Scanned(Result<Seq<u8>, ErrorView>),
}

/// A step of one of the operations. If the operation has a transfer in
/// flight, the transfer ends with `outcome`.
pub struct Turn {
    /// Position of the operation that takes the step.
    pub who: int,
    /// Outcome of its transfer in flight.
    pub outcome: OutcomeView,
}

/// A transfer that was asked of the dongle.
pub struct Entry {
    /// Position of the operation that asked for it.
    pub who: int,
    /// Channel of the exchange it belongs to.
    pub channel: u8,
    /// The transfer.
    pub transfer: TransferView,
}

impl Entry {
    /// Both transfers belong to the same exchange: an operation makes one
    /// exchange on a channel.
    pub open spec fn same_exchange(self, other: Entry) -> bool {
        self.who == other.who && self.channel == other.channel
    }
}

/// A lock, the operations that go through it, and the transfers they have
/// asked for so far.
pub struct System {
    pub lock: LockView,
    pub operations: Seq<Operation>,
    pub log: Seq<Entry>,
}

/// No exchange is interrupted: between two transfers of one exchange lie only
/// transfers of that exchange.
pub open spec fn unmixed(log: Seq<Entry>) -> bool {
    forall|a: int, b: int, c: int|
        0 <= a <= b <= c < log.len() && (#[trigger] log[a]).same_exchange(#[trigger] log[c])
            ==> log[a].same_exchange(#[trigger] log[b])
}

impl Operation {
    /// The operation has the driver state: it is in the middle of an
    /// exchange.
    pub open spec fn holds(self) -> bool {
        self is Sending || self is Probing
    }

    /// The operation has not begun, and what it carries is sound.
    pub open spec fn fresh(self) -> bool {
        match self {
            Operation::Packet(_) => true,
            Operation::Scan(scan) => scan.wf(),
            _ => false,
        }
    }

    /// The transfer that the operation has in flight, if it is making an
    /// exchange.
    pub open spec fn pending(self) -> Option<TransferView> {
        match self {
            Operation::Sending(sending) => Some(sending.exchange.pending()),
            Operation::Probing(probing) => Some(probing.exchange.pending()),
            _ => None,
        }
    }

    /// Channel of the exchange that the operation is making.
    pub open spec fn channel(self) -> u8 {
        match self {
            Operation::Sending(sending) => sending.exchange.channel,
            Operation::Probing(probing) => probing.exchange.channel,
            _ => 0,
        }
    }

    /// What a send step makes of the operation.
    pub open spec fn after_send(step: (SendStepView, LockView)) -> (
        Operation,
        LockView,
        Option<TransferView>,
    ) {
        match step.0 {
            SendStepView::Idle(packet) => (Operation::Packet(packet), step.1, None),
            SendStepView::Pending(sending, transfer) => (
                Operation::Sending(sending),
                step.1,
                Some(transfer),
            ),
            SendStepView::Finished(answer) => (Operation::Sent(answer), step.1, None),
        }
    }

    /// What a scan step makes of the operation.
    pub open spec fn after_scan(step: (ScanStepView, LockView)) -> (
        Operation,
        LockView,
        Option<TransferView>,
    ) {
        match step.0 {
            ScanStepView::Idle(scan) => (Operation::Scan(scan), step.1, None),
            ScanStepView::Pending(probing, transfer) => (
                Operation::Probing(probing),
                step.1,
                Some(transfer),
            ),
            ScanStepView::Finished(found) => (Operation::Scanned(found), step.1, None),
        }
    }

    /// One step of the operation on `lock`: the operation and the lock after
    /// it, and the transfer it asks for, if any. An operation without the lock
    /// tries to take it, one in an exchange takes `outcome` as the outcome of
    /// its transfer in flight, one that is over does nothing.
    pub open spec fn step(self, lock: LockView, outcome: OutcomeView) -> (
        Operation,
        LockView,
        Option<TransferView>,
    ) {
        match self {
            Operation::Packet(packet) => Operation::after_send(packet.begin(lock)),
            Operation::Sending(sending) => Operation::after_send(sending.resume(lock, outcome)),
            Operation::Scan(scan) => Operation::after_scan(scan.begin(lock)),
            Operation::Probing(probing) => Operation::after_scan(probing.resume(lock, outcome)),
            Operation::Sent(_) => (self, lock, None),
            Operation::Scanned(_) => (self, lock, None),
        }
    }

    /// What the operation carries is sound.
    spec fn sound(self) -> bool {
        match self {
            Operation::Scan(scan) => scan.wf(),
            Operation::Probing(probing) => probing.wf(),
            _ => true,
        }
    }

    /// The operation has made no exchange on `channel` and is not making one.
    spec fn unused(self, channel: u8) -> bool {
        match self {
            Operation::Packet(_) => true,
            Operation::Sending(sending) => channel != sending.exchange.channel,
            Operation::Scan(scan) => channel >= scan.next,
            Operation::Probing(probing) => channel > probing.scan.next,
            Operation::Sent(_) => false,
            Operation::Scanned(_) => false,
        }
    }

    /// The operation is making its exchange on `channel`.
    spec fn current(self, channel: u8) -> bool {
        self.holds() && channel == self.channel()
    }
}

impl System {
    /// The lock is free and holds `radio`, no operation has begun, nothing was
    /// asked of the dongle.
    pub open spec fn initial(radio: CrazyradioView, operations: Seq<Operation>) -> System {
        System { lock: Some(radio), operations, log: Seq::empty() }
    }

    /// The system after the step of `turn`. The transfer that the step asks
    /// for, if any, is added to the log. A turn of an operation that does not
    /// exist changes nothing.
    pub open spec fn step(self, turn: Turn) -> System {
        if 0 <= turn.who < self.operations.len() {
            let (operation, lock, transfer) = self.operations[turn.who].step(
                self.lock,
                turn.outcome,
            );
            System {
                lock,
                operations: self.operations.update(turn.who, operation),
                log: match transfer {
                    Some(transfer) => self.log.push(
                        Entry { who: turn.who, channel: operation.channel(), transfer },
                    ),
                    None => self.log,
                },
            }
        } else {
            self
        }
    }

    /// The system after the steps of `schedule`, one after the other.
    pub open spec fn run(self, schedule: Seq<Turn>) -> System
        decreases schedule.len(),
    {
        if schedule.len() == 0 {
            self
        } else {
            self.run(schedule.drop_last()).step(schedule.last())
        }
    }

    /// At most one operation holds the driver state, and none while it is in
    /// the lock; the log tells of each operation what its state tells.
    spec fn inv(self) -> bool {
        &&& forall|i: int, j: int|
            0 <= i < self.operations.len() && 0 <= j < self.operations.len() && (
            #[trigger] self.operations[i]).holds() && (#[trigger] self.operations[j]).holds()
                ==> i == j
        &&& self.lock is Some ==> forall|i: int|
            0 <= i < self.operations.len() ==> !(#[trigger] self.operations[i]).holds()
        &&& self.lock is None ==> exists|i: int|
            0 <= i < self.operations.len() && (#[trigger] self.operations[i]).holds()
        &&& forall|i: int|
            0 <= i < self.operations.len() ==> (#[trigger] self.operations[i]).sound()
        &&& forall|a: int|
            0 <= a < self.log.len() ==> 0 <= (#[trigger] self.log[a]).who < self.operations.len()
        &&& forall|a: int|
            0 <= a < self.log.len() ==> !self.operations[(#[trigger] self.log[a]).who].unused(
                self.log[a].channel,
            )
        &&& forall|a: int, b: int|
            0 <= a <= b < self.log.len() && self.operations[(#[trigger] self.log[a]).who].current(
                self.log[a].channel,
            ) ==> self.log[a].same_exchange(#[trigger] self.log[b])
        &&& unmixed(self.log)
    }

    /// A step keeps what [`System::inv`] says.
    proof fn lemma_step_inv(self, turn: Turn)
        requires
            self.inv(),
        ensures
            self.step(turn).inv(),
    {
        if 0 <= turn.who < self.operations.len() {
            let next = self.step(turn);
            if next.lock is None && !next.operations[turn.who].holds() {
                // The lock was held before the step, and by another operation.
                let holder = choose|i: int|
                    0 <= i < self.operations.len() && (#[trigger] self.operations[i]).holds();
                assert(next.operations[holder].holds());
            }
        }
    }

    /// A run keeps what [`System::inv`] says.
    proof fn lemma_run_inv(self, schedule: Seq<Turn>)
        requires
            self.inv(),
        ensures
            self.run(schedule).inv(),
        decreases schedule.len(),
    {
        if schedule.len() > 0 {
            self.lemma_run_inv(schedule.drop_last());
            self.run(schedule.drop_last()).lemma_step_inv(schedule.last());
        }
    }

    /// One operation at a time has the dongle.
    ///
    /// Let any number of operations begin at a free lock and take their steps
    /// in any order, with any outcomes. At every moment at most one of them is
    /// in an exchange with the dongle, so at most one transfer is in flight;
    /// the lock is held as long as one is, and free as soon as none is: no
    /// operation, however it ends, keeps the lock.
    pub proof fn lemma_one_at_a_time(
        radio: CrazyradioView,
        operations: Seq<Operation>,
        schedule: Seq<Turn>,
    )
        requires
            forall|i: int| 0 <= i < operations.len() ==> (#[trigger] operations[i]).fresh(),
        ensures
            ({
                let system = System::initial(radio, operations).run(schedule);
                &&& system.operations.len() == operations.len()
                &&& forall|i: int, j: int|
                    0 <= i < operations.len() && 0 <= j < operations.len() && (
                    #[trigger] system.operations[i]).holds() && (
                    #[trigger] system.operations[j]).holds() ==> i == j
                &&& system.lock is None <==> exists|i: int|
                    0 <= i < operations.len() && (#[trigger] system.operations[i]).holds()
            }),
    {
        let system = System::initial(radio, operations);
        system.lemma_run_inv(schedule);
        system.lemma_run_len(schedule);
    }

    /// A run keeps the number of operations.
    proof fn lemma_run_len(self, schedule: Seq<Turn>)
        ensures
            self.run(schedule).operations.len() == self.operations.len(),
        decreases schedule.len(),
    {
        if schedule.len() > 0 {
            self.lemma_run_len(schedule.drop_last());
        }
    }

    /// Exchanges never interleave.
    ///
    /// Let any number of operations, packets to send and scans, begin at a
    /// free lock, and let them take their steps in any order, with any
    /// outcomes. In what is asked of the dongle, the transfers of one exchange
    /// stand together: between two transfers of an exchange there is none of
    /// another operation, and none of another exchange of the same scan.
    pub proof fn lemma_exchanges_never_interleave(
        radio: CrazyradioView,
        operations: Seq<Operation>,
        schedule: Seq<Turn>,
    )
        requires
            forall|i: int| 0 <= i < operations.len() ==> (#[trigger] operations[i]).fresh(),
        ensures
            unmixed(System::initial(radio, operations).run(schedule).log),
    {
        let system = System::initial(radio, operations);
        system.lemma_run_inv(schedule);
    }
}

} // verus!
