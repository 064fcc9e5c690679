//! Scanning a range of channels for radios that answer.
//!
//! A scan probes one channel after the other. For each channel it takes the
//! lock, makes one exchange with the dongle and frees the lock again, so that
//! other callers get their turn between two channels.

use vstd::prelude::*;

use crate::channel::{Channel, CHANNEL_COUNT};
use crate::error::{Error, ErrorView};
use crate::exchange::{
    copy_of, Exchange, ExchangeStep, ExchangeStepView, ExchangeView, Order,
};
use crate::radio::CrazyradioView;
use crate::shared::{LockView, SharedCrazyradio};
use crate::transfer::{Outcome, OutcomeView, Transfer, TransferView};

verus! {

/// A scan between two channels: it holds nothing of the dongle.
pub struct Scan {
    start: u8,
    next: u8,
    stop: u8,
    address: [u8; 5],
    payload: Vec<u8>,
    found: Vec<Channel>,
}

/// Mathematical value of a [`Scan`].
pub struct ScanView {
    /// Number of the first channel of the range.
    pub start: u8,
    /// Number of the next channel to probe.
    pub next: u8,
    /// Number of the last channel of the range.
    pub stop: u8,
    /// Address the probes are sent to.
    pub address: Seq<u8>,
    /// Packet sent as a probe.
    pub payload: Seq<u8>,
    /// Numbers of the channels on which a probe was acknowledged so far.
    pub found: Seq<u8>,
}

/// The channel numbers of `channels`.
pub open spec fn numbers(channels: Seq<Channel>) -> Seq<u8> {
    channels.map_values(|channel: Channel| channel@)
}

/// Each number is smaller than the one after it.
pub open spec fn ascending(numbers: Seq<u8>) -> bool {
    forall|i: int, j: int| 0 <= i < j < numbers.len() ==> numbers[i] < numbers[j]
}

impl View for Scan {
    type V = ScanView;

    closed spec fn view(&self) -> ScanView {
        ScanView {
            start: self.start,
            next: self.next,
            stop: self.stop,
            address: self.address@,
            payload: self.payload@,
            found: numbers(self.found@),
        }
    }
}

/// A scan that probes a channel: it holds the lock.
pub struct Probing {
    scan: Scan,
    channel: Channel,
    exchange: Exchange,
}

/// Mathematical value of a [`Probing`].
pub struct ProbingView {
    /// The scan as it stood before this probe.
    pub scan: ScanView,
    /// The exchange with the dongle on channel `scan.next`.
    pub exchange: ExchangeView,
}

impl View for Probing {
    type V = ProbingView;

    closed spec fn view(&self) -> ProbingView {
        ProbingView { scan: self.scan@, exchange: self.exchange@ }
    }
}

/// Where a scan stands after one step.
pub enum ScanStep {
    /// The scan holds nothing: the lock was held by another operation, or the
    /// scan has just freed it after a probe. Go on with [`Scan::begin`].
    Idle(Scan),
    /// The scan holds the lock: the transfer has to be performed and its
    /// outcome handed to [`Probing::resume`].
    Pending(Probing, Transfer),
    /// The scan is over: the channels that answered, in ascending order, or
    /// the failure that stopped it.
    Finished(Result<Vec<Channel>, Error>),
}

/// Mathematical value of a [`ScanStep`].
pub enum ScanStepView {
    Idle(ScanView),
    Pending(ProbingView, TransferView),
    Finished(Result<Seq<u8>, ErrorView>),
}

impl View for ScanStep {
    type V = ScanStepView;

    open spec fn view(&self) -> ScanStepView {
        match self {
            ScanStep::Idle(scan) => ScanStepView::Idle(scan@),
            ScanStep::Pending(probing, transfer) => ScanStepView::Pending(probing@, transfer@),
            ScanStep::Finished(Ok(channels)) => ScanStepView::Finished(Ok(numbers(channels@))),
            ScanStep::Finished(Err(error)) => ScanStepView::Finished(Err(error@)),
        }
    }
}

impl ScanView {
    /// A scan of the channels `start..=stop` that has not probed anything.
    pub open spec fn new(start: u8, stop: u8, address: Seq<u8>, payload: Seq<u8>) -> ScanView {
        ScanView { start, next: start, stop, address, payload, found: Seq::empty() }
    }

    /// Where a scan of the channels `start..=stop` stands before it has done
    /// anything: idle before its first probe, or over if the range is empty.
    pub open spec fn prepared(
        start: u8,
        stop: u8,
        address: Seq<u8>,
        payload: Seq<u8>,
    ) -> ScanStepView {
        ScanView::new(start, stop, address, payload).rest()
    }

    /// The next channel lies in the range, the range among the radio's
    /// channels, and what was found so far are channels that were probed, in
    /// ascending order.
    pub open spec fn wf(self) -> bool {
        &&& self.start <= self.next <= self.stop < CHANNEL_COUNT
        &&& self.address.len() == 5
        &&& ascending(self.found)
        &&& forall|i: int|
            0 <= i < self.found.len() ==> self.start <= #[trigger] self.found[i] < self.next
    }

    /// No channel is left to probe.
    pub open spec fn exhausted(self) -> bool {
        self.next > self.stop
    }

    /// The scan after the probe of channel `next`, acknowledged or not.
    pub open spec fn probed(self, acknowledged: bool) -> ScanView {
        ScanView {
            next: (self.next + 1) as u8,
            found: if acknowledged {
                self.found.push(self.next)
            } else {
                self.found
            },
            ..self
        }
    }

    /// Where the scan stands once it holds nothing: over when no channel is
    /// left, idle before the next probe otherwise.
    pub open spec fn rest(self) -> ScanStepView {
        if self.exhausted() {
            ScanStepView::Finished(Ok(self.found))
        } else {
            ScanStepView::Idle(self)
        }
    }

    /// The step with which a scan goes for its next channel, and the lock
    /// after it.
    ///
    /// A held lock leaves everything as it is. A free lock is taken and the
    /// channel probed: address first, channel second, packet last.
    pub open spec fn begin(self, lock: LockView) -> (ScanStepView, LockView) {
        match lock {
            None => (ScanStepView::Idle(self), None),
            Some(radio) => {
                let exchange = ExchangeView::start(
                    radio,
                    self.next,
                    self.address,
                    self.payload,
                    Order::AddressFirst,
                );
                (
                    ScanStepView::Pending(ProbingView { scan: self, exchange }, exchange.pending()),
                    None,
                )
            },
        }
    }
}

impl ProbingView {
    /// The probe is an exchange on the scan's next channel, with the scan's
    /// address and packet.
    pub open spec fn wf(self) -> bool {
        &&& self.scan.wf()
        &&& self.exchange.channel == self.scan.next
        &&& self.exchange.address == self.scan.address
        &&& self.exchange.payload == self.scan.payload
        &&& self.exchange.order == Order::AddressFirst
    }

    /// The step taken when the transfer in flight ends with `outcome`, and the
    /// lock after it.
    ///
    /// While the exchange goes on the lock is left alone. When it is over the
    /// driver state goes back into the lock. A failure ends the scan, and what
    /// was found is dropped. An answer is counted, the channel is found if it
    /// was acknowledged, and the scan goes on or is over.
    pub open spec fn resume(self, lock: LockView, outcome: OutcomeView) -> (
        ScanStepView,
        LockView,
    ) {
        match self.exchange.resume(outcome) {
            ExchangeStepView::Next(exchange, transfer) => (
                ScanStepView::Pending(ProbingView { exchange, ..self }, transfer),
                lock,
            ),
            ExchangeStepView::Done(radio, Err(error)) => (
                ScanStepView::Finished(Err(error)),
                Some(radio),
            ),
            ExchangeStepView::Done(radio, Ok(answer)) => (
                self.scan.probed(answer.0.received).rest(),
                Some(radio),
            ),
        }
    }

    /// Whether `outcome` can be the outcome of the transfer in flight.
    pub open spec fn accepts(self, outcome: OutcomeView) -> bool {
        self.exchange.accepts(outcome)
    }

    /// A failed transfer ends the scan with that failure and nothing of what
    /// was found, and frees the lock.
    pub proof fn lemma_failure_ends_scan(self, lock: LockView, detail: Seq<char>)
        ensures
            self.resume(lock, OutcomeView::Failed(detail)) == (
                ScanStepView::Finished(Err(ErrorView::BrowserError(detail))),
                Some(self.exchange.radio),
            ),
    {
    }

    /// A step of a probe keeps the scan sound, and a scan never holds the lock
    /// between two channels or when it is over.
    pub proof fn lemma_resume_wf(self, lock: LockView, outcome: OutcomeView)
        requires
            self.wf(),
        ensures
            match self.resume(lock, outcome) {
                (ScanStepView::Idle(scan), after) => {
                    &&& scan.wf()
                    &&& scan.next == self.scan.next + 1
                    &&& after is Some
                },
                (ScanStepView::Pending(probing, _), after) => {
                    &&& probing.wf()
                    &&& probing.scan == self.scan
                    &&& after == lock
                },
                (ScanStepView::Finished(Ok(found)), after) => {
                    &&& self.scan.next == self.scan.stop
                    &&& found_in(found, self.scan.start, self.scan.stop)
                    &&& after is Some
                },
                (ScanStepView::Finished(Err(_)), after) => after is Some,
            },
    {
    }
}

/// `found` is what a scan of the channels `start..=stop` can end with:
/// channels of that range, each once, in ascending order.
pub open spec fn found_in(found: Seq<u8>, start: u8, stop: u8) -> bool {
    &&& ascending(found)
    &&& forall|i: int| 0 <= i < found.len() ==> start <= #[trigger] found[i] <= stop
}

impl ScanView {
    /// A scan between two valid channels is sound when it is prepared, and a
    /// scan of an empty range, its last channel below its first, is over at
    /// once with nothing found.
    pub proof fn lemma_prepared_wf(
        start: Channel,
        stop: Channel,
        address: Seq<u8>,
        payload: Seq<u8>,
    )
        requires
            start.wf(),
            stop.wf(),
            address.len() == 5,
        ensures
            match ScanView::prepared(start@, stop@, address, payload) {
                ScanStepView::Idle(scan) => {
                    &&& start@ <= stop@
                    &&& scan == ScanView::new(start@, stop@, address, payload)
                    &&& scan.wf()
                },
                ScanStepView::Pending(_, _) => false,
                ScanStepView::Finished(found) => {
                    &&& start@ > stop@
                    &&& found == Ok::<Seq<u8>, ErrorView>(Seq::empty())
                },
            },
    {
    }

    /// A channel is probed with the address written first, the channel second.
    ///
    /// Let the scan take a free lock for its next channel and the transfers of
    /// the probe end with `outcomes`. Then the transfers made are the first
    /// ones of: the address, if the dongle is not known to hold it; the
    /// channel, if the dongle is not known to be on it; the packet; its
    /// answer.
    pub proof fn lemma_address_channel_packet(
        self,
        radio: CrazyradioView,
        outcomes: Seq<OutcomeView>,
    )
        ensures
            self.begin(Some(radio)).1 is None,
            self.begin(Some(radio)).0 matches ScanStepView::Pending(probing, first) && ({
                let made = probing.exchange.transfers(outcomes);
                let plan = ExchangeView::plan(
                    radio,
                    self.next,
                    self.address,
                    self.payload,
                    Order::AddressFirst,
                );
                &&& first == made[0]
                &&& 1 <= made.len() <= plan.len()
                &&& made == plan.take(made.len() as int)
            }),
    {
        ExchangeView::lemma_transfers_follow_plan(
            radio,
            self.next,
            self.address,
            self.payload,
            Order::AddressFirst,
            outcomes,
        );
        ExchangeView::lemma_start_wf(
            radio,
            self.next,
            self.address,
            self.payload,
            Order::AddressFirst,
        );
    }

    /// A scan stays sound when it goes for its next channel.
    pub proof fn lemma_begin_wf(self, lock: LockView)
        requires
            self.wf(),
        ensures
            match self.begin(lock) {
                (ScanStepView::Idle(scan), after) => {
                    scan == self && lock is None && after is None
                },
                (ScanStepView::Pending(probing, _), after) => {
                    &&& probing.wf()
                    &&& probing.scan == self
                    &&& lock is Some
                    &&& after is None
                },
                (ScanStepView::Finished(_), _) => false,
            },
    {
    }
}

impl Scan {
    #[verifier::type_invariant]
    closed spec fn inv(self) -> bool {
        self@.wf()
    }

    /// A scan of the channels from `start` to `stop` before it has done
    /// anything.
    pub(crate) fn prepare(
        start: Channel,
        stop: Channel,
        address: [u8; 5],
        payload: Vec<u8>,
    ) -> (step: ScanStep)
        ensures
            step@ == ScanView::prepared(start@, stop@, address@, payload@),
            step@ matches ScanStepView::Idle(scan) ==> scan.wf(),
    {
        let first = start.number();
        let last = stop.number();
        if first > last {
            let found: Vec<Channel> = Vec::new();
            assert(numbers(found@) == Seq::<u8>::empty());
            ScanStep::Finished(Ok(found))
        } else {
            let scan = Scan {
                start: first,
                next: first,
                stop: last,
                address,
                payload,
                found: Vec::new(),
            };
            assert(numbers(scan.found@) == Seq::<u8>::empty());
            ScanStep::Idle(scan)
        }
    }

    /// Tries to take the lock and, with it, begins to probe the next channel.
    /// The channel number is validated once more before it is used.
    pub fn begin(self, shared: &mut SharedCrazyradio) -> (step: ScanStep)
        ensures
            (step@, final(shared)@) == self@.begin(old(shared)@),
            self@.wf(),
            step@ matches ScanStepView::Pending(probing, _) ==> probing.wf()
                && probing.exchange.wf(),
    {
        proof {
            use_type_invariant(&self);
        }
        let channel = match Channel::from_number(self.next) {
            Ok(channel) => channel,
            // A scan stays in its range, so this does not happen.
            Err(error) => {
                return ScanStep::Finished(Err(error));
            },
        };
        match shared.acquire() {
            None => ScanStep::Idle(self),
            Some(radio) => {
                let (exchange, transfer) = Exchange::start(
                    radio,
                    channel,
                    self.address,
                    copy_of(&self.payload),
                    Order::AddressFirst,
                );
                ScanStep::Pending(Probing { scan: self, channel, exchange }, transfer)
            },
        }
    }
}

impl Probing {
    #[verifier::type_invariant]
    closed spec fn inv(self) -> bool {
        self@.wf() && self.channel@ == self.scan.next
    }

    /// Whether `outcome` can be handed to [`Probing::resume`]: an answer that
    /// was fetched has to hold its status byte at least.
    pub fn accepts(&self, outcome: &Outcome) -> (accepted: bool)
        ensures
            accepted == self@.accepts(outcome@),
    {
        self.exchange.accepts(outcome)
    }

    /// Takes the outcome of the transfer in flight and says how the scan goes
    /// on. With the last step of a probe the scan frees the lock.
    pub fn resume(self, shared: &mut SharedCrazyradio, outcome: Outcome) -> (step: ScanStep)
        requires
            self@.accepts(outcome@),
        ensures
            (step@, final(shared)@) == self@.resume(old(shared)@, outcome@),
            self@.wf(),
            match step@ {
                ScanStepView::Idle(scan) => scan.wf(),
                ScanStepView::Pending(probing, _) => probing.wf() && probing.exchange.wf(),
                ScanStepView::Finished(Ok(found)) => found_in(
                    found,
                    self@.scan.start,
                    self@.scan.stop,
                ),
                ScanStepView::Finished(Err(_)) => true,
            },
    {
        proof {
            use_type_invariant(&self);
            self@.lemma_resume_wf(old(shared)@, outcome@);
        }
        let Probing { scan, channel, exchange } = self;
        match exchange.resume(outcome) {
            ExchangeStep::Next(exchange, transfer) => ScanStep::Pending(
                Probing { scan, channel, exchange },
                transfer,
            ),
            ExchangeStep::Done(radio, Err(error)) => {
                shared.release(radio);
                ScanStep::Finished(Err(error))
            },
            ExchangeStep::Done(radio, Ok(answer)) => {
                shared.release(radio);
                let Scan { start, next, stop, address, payload, mut found } = scan;
                let ghost before = numbers(found@);
                if answer.0.received {
                    found.push(channel);
                    assert(numbers(found@) == before.push(channel@));
                }
                let next: u8 = next + 1;
                if next > stop {
                    ScanStep::Finished(Ok(found))
                } else {
                    ScanStep::Idle(Scan { start, next, stop, address, payload, found })
                }
            },
        }
    }
}

} // verus!
