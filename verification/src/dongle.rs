//! The dongle, as the driver takes it to be.
//!
//! The driver never sees the dongle, only the outcomes of the transfers it
//! asks for. This module says what a dongle in good order does with those
//! transfers, and shows what the driver achieves on such a dongle: what it
//! remembers of the dongle's settings stays true, a packet is answered by what
//! the radio hears on the channel and the address it was sent to, and a scan
//! finds the channels that answer.

use vstd::prelude::*;

use crate::ack::Ack;
use crate::exchange::{ExchangeStepView, ExchangeView, Order, Stage};
use crate::exclusion::Operation;
use crate::radio::CrazyradioView;
use crate::scan::{ascending, ProbingView, ScanView};
use crate::shared::{LockView, SendPacketView, SendingView};
use crate::transfer::{OutcomeView, TransferView, SET_RADIO_ADDRESS, SET_RADIO_CHANNEL};

verus! {

/// What the radio hears: the bytes that the dongle answers to a packet, given
/// the channel it is tuned to, the address it listens on, and the packet.
pub type Air = spec_fn(u16, Seq<u8>, Seq<u8>) -> Seq<u8>;

/// The settings of a dongle, and the packet it was last given.
pub struct DongleView {
    pub channel: u16,
    pub address: Seq<u8>,
    pub packet: Seq<u8>,
}

impl DongleView {
    /// What the driver remembers of the dongle is true of it.
    pub open spec fn agrees(self, radio: CrazyradioView) -> bool {
        &&& radio.channel matches Some(channel) ==> self.channel == channel
        &&& radio.address matches Some(address) ==> self.address == address
    }

    /// What a dongle in good order does with `transfer`: the outcome, and the
    /// dongle after it. Every transfer completes. The two vendor requests set
    /// the channel and the address, a packet is sent on them, and the answer
    /// that is fetched is what the radio heard for that packet.
    pub open spec fn perform(self, transfer: TransferView, air: Air) -> (OutcomeView, DongleView) {
        match transfer {
            TransferView::ControlOut { request, value, data, .. } => (
                OutcomeView::Completed(Seq::empty()),
                if request == SET_RADIO_CHANNEL {
                    DongleView { channel: value, ..self }
                } else if request == SET_RADIO_ADDRESS {
                    DongleView { address: data, ..self }
                } else {
                    self
                },
            ),
            TransferView::BulkOut { endpoint, data } => (
                OutcomeView::Completed(Seq::empty()),
                DongleView { packet: data, ..self },
            ),
            TransferView::BulkIn { endpoint, length } => (
                OutcomeView::Completed(air(self.channel, self.address, self.packet)),
                self,
            ),
        }
    }

    /// The dongle after a whole exchange on `channel` and `address` with the
    /// packet `payload`.
    pub open spec fn served(channel: u8, address: Seq<u8>, payload: Seq<u8>) -> DongleView {
        DongleView { channel: channel as u16, address, packet: payload }
    }
}

/// What the driver remembers after a whole exchange on `channel` and
/// `address`.
pub open spec fn configured(channel: u8, address: Seq<u8>) -> CrazyradioView {
    CrazyradioView { channel: Some(channel), address: Some(address) }
}

/// Whether a packet sent on `channel` to `address` is acknowledged.
pub open spec fn acknowledged(channel: u8, address: Seq<u8>, payload: Seq<u8>, air: Air) -> bool {
    Ack::decoded(air(channel as u16, address, payload)).0.received
}

/// The channels from `first` to `last` on which `payload`, sent to `address`,
/// is acknowledged, in ascending order.
pub open spec fn answering(
    first: int,
    last: int,
    address: Seq<u8>,
    payload: Seq<u8>,
    air: Air,
) -> Seq<u8>
    decreases last - first + 1,
{
    if first > last {
        Seq::empty()
    } else if acknowledged(first as u8, address, payload, air) {
        seq![first as u8] + answering(first + 1, last, address, payload, air)
    } else {
        answering(first + 1, last, address, payload, air)
    }
}

/// The channels that answer are exactly those of the range on which the
/// packet is acknowledged, each once, in ascending order.
pub proof fn lemma_answering(
    first: int,
    last: int,
    address: Seq<u8>,
    payload: Seq<u8>,
    air: Air,
)
    requires
        0 <= first,
        last <= u8::MAX,
    ensures
        ascending(answering(first, last, address, payload, air)),
        forall|channel: u8|
            #![trigger answering(first, last, address, payload, air).contains(channel)]
            #![trigger acknowledged(channel, address, payload, air)]
            answering(first, last, address, payload, air).contains(channel) <==> first <= channel
                <= last && acknowledged(channel, address, payload, air),
    decreases last - first + 1,
{
    let found = answering(first, last, address, payload, air);
    if first <= last {
        lemma_answering(first + 1, last, address, payload, air);
        let rest = answering(first + 1, last, address, payload, air);
        let hit = acknowledged(first as u8, address, payload, air);
        let head = if hit {
            seq![first as u8]
        } else {
            Seq::<u8>::empty()
        };
        // What follows the first channel lies above it.
        assert forall|i: int| 0 <= i < rest.len() implies first < #[trigger] rest[i] <= last by {
            assert(rest.contains(rest[i]));
        }
        assert forall|channel: u8| found.contains(channel) <==> first <= channel <= last
            && acknowledged(channel, address, payload, air) by {
            if first <= channel <= last && acknowledged(channel, address, payload, air) {
                if channel == first {
                    assert(found[0] == channel);
                } else {
                    let i = choose|i: int| 0 <= i < rest.len() && rest[i] == channel;
                    assert(found[i + head.len()] == channel);
                }
            }
        }
    }
}

impl Operation {
    /// The operation, the lock and the dongle after `turns` steps of the
    /// operation, when no other operation is there and each transfer is
    /// performed by the dongle as soon as it is asked for.
    pub open spec fn alone(self, lock: LockView, dongle: DongleView, air: Air, turns: nat) -> (
        Operation,
        LockView,
        DongleView,
    )
        decreases turns,
    {
        if turns == 0 {
            (self, lock, dongle)
        } else {
            let (outcome, served) = match self.pending() {
                Some(transfer) => dongle.perform(transfer, air),
                None => (OutcomeView::Completed(Seq::empty()), dongle),
            };
            let (next, after, _) = self.step(lock, outcome);
            next.alone(after, served, air, (turns - 1) as nat)
        }
    }

    /// The operation is over.
    pub open spec fn over(self) -> bool {
        self is Sent || self is Scanned
    }

    /// An operation that is over stays as it is.
    proof fn lemma_over_stays(self, lock: LockView, dongle: DongleView, air: Air, turns: nat)
        requires
            self.over(),
        ensures
            self.alone(lock, dongle, air, turns) == (self, lock, dongle),
        decreases turns,
    {
        if turns > 0 {
            self.lemma_over_stays(lock, dongle, air, (turns - 1) as nat);
        }
    }
}

impl ExchangeView {
    /// The exchange can go on with `dongle`: what the driver remembers is true
    /// of the dongle, and the dongle was given the packet if its answer is
    /// being fetched.
    pub open spec fn suits(self, dongle: DongleView) -> bool {
        &&& self.wf()
        &&& dongle.agrees(self.radio)
        &&& self.stage == Stage::Receive ==> dongle.packet == self.payload
    }

    /// The driver state stays true of the dongle.
    ///
    /// One step of an exchange on a dongle in good order: the exchange goes on
    /// with the next transfer of its plan and still suits the dongle, or it is
    /// over, and then the dongle was on the channel and the address of the
    /// exchange when it answered.
    pub proof fn lemma_step_suits(self, dongle: DongleView, air: Air)
        requires
            self.suits(dongle),
        ensures
            ({
                let (outcome, served) = dongle.perform(self.pending(), air);
                match self.resume(outcome) {
                    ExchangeStepView::Next(next, transfer) => {
                        &&& next.suits(served)
                        &&& transfer == next.pending()
                        &&& next.channel == self.channel
                        &&& next.address == self.address
                        &&& next.payload == self.payload
                        &&& next.order == self.order
                        &&& self.rest().len() == 1 + next.rest().len()
                    },
                    ExchangeStepView::Done(radio, answer) => {
                        &&& self.rest().len() == 1
                        &&& radio == configured(self.channel, self.address)
                        &&& served == DongleView::served(self.channel, self.address, self.payload)
                        &&& answer == Ok::<(Ack, Seq<u8>), crate::error::ErrorView>(
                            Ack::decoded(air(self.channel as u16, self.address, self.payload)),
                        )
                    },
                }
            }),
    {
        reveal_with_fuel(ExchangeView::settled, 4);
    }
}

impl SendingView {
    /// A packet on its way, alone on a dongle in good order, is answered by
    /// what the radio hears on its channel and address.
    pub proof fn lemma_sending_answered(
        self,
        lock: LockView,
        dongle: DongleView,
        air: Air,
        turns: nat,
    )
        requires
            self.exchange.suits(dongle),
            turns >= self.exchange.rest().len(),
        ensures
            ({
                let exchange = self.exchange;
                Operation::Sending(self).alone(lock, dongle, air, turns) == (
                    Operation::Sent(
                        Ok(
                            Ack::decoded(
                                air(exchange.channel as u16, exchange.address, exchange.payload),
                            ),
                        ),
                    ),
                    Some(configured(exchange.channel, exchange.address)),
                    DongleView::served(exchange.channel, exchange.address, exchange.payload),
                )
            }),
        decreases self.exchange.rest().len(),
    {
        let exchange = self.exchange;
        exchange.lemma_step_suits(dongle, air);
        let (outcome, served) = dongle.perform(exchange.pending(), air);
        let (next, after, _) = Operation::Sending(self).step(lock, outcome);
        match exchange.resume(outcome) {
            ExchangeStepView::Next(following, _) => {
                SendingView { exchange: following }.lemma_sending_answered(
                    after,
                    served,
                    air,
                    (turns - 1) as nat,
                );
            },
            ExchangeStepView::Done(_, _) => {
                next.lemma_over_stays(after, served, air, (turns - 1) as nat);
            },
        }
    }
}

impl SendPacketView {
    /// A packet sent alone on a dongle in good order is answered by what the
    /// radio hears on the channel and the address it was sent to.
    ///
    /// Let the lock be free and the driver state true of the dongle. After at
    /// most five steps the operation is over with the acknowledgment and the
    /// payload decoded from what the radio heard, the lock is free again, and
    /// the driver state says, truly, that the dongle is on the packet's channel
    /// and address.
    pub proof fn lemma_packet_answered(
        self,
        radio: CrazyradioView,
        dongle: DongleView,
        air: Air,
        turns: nat,
    )
        requires
            dongle.agrees(radio),
            turns >= 5,
        ensures
            Operation::Packet(self).alone(Some(radio), dongle, air, turns) == (
                Operation::Sent(
                    Ok(Ack::decoded(air(self.channel as u16, self.address, self.payload))),
                ),
                Some(configured(self.channel, self.address)),
                DongleView::served(self.channel, self.address, self.payload),
            ),
            DongleView::served(self.channel, self.address, self.payload).agrees(
                configured(self.channel, self.address),
            ),
    {
        let exchange = ExchangeView::start(
            radio,
            self.channel,
            self.address,
            self.payload,
            Order::ChannelFirst,
        );
        ExchangeView::lemma_start_wf(
            radio,
            self.channel,
            self.address,
            self.payload,
            Order::ChannelFirst,
        );
        let sending = SendingView { exchange };
        sending.lemma_sending_answered(None, dongle, air, (turns - 1) as nat);
    }
}

impl ProbingView {
    /// A probe alone on a dongle in good order ends with the channel counted,
    /// and found if the radio heard an acknowledgment on it.
    proof fn lemma_probe_counted(self, lock: LockView, dongle: DongleView, air: Air, turns: nat)
        requires
            self.wf(),
            self.exchange.suits(dongle),
            turns >= self.exchange.rest().len(),
        ensures
            ({
                let scan = self.scan;
                let probed = scan.probed(
                    acknowledged(scan.next, scan.address, scan.payload, air),
                );
                let radio = configured(scan.next, scan.address);
                Operation::Probing(self).alone(lock, dongle, air, turns) == Operation::after_scan(
                    (probed.rest(), Some(radio)),
                ).0.alone(
                    Some(radio),
                    DongleView::served(scan.next, scan.address, scan.payload),
                    air,
                    (turns - self.exchange.rest().len()) as nat,
                )
            }),
        decreases self.exchange.rest().len(),
    {
        let exchange = self.exchange;
        exchange.lemma_step_suits(dongle, air);
        let (outcome, served) = dongle.perform(exchange.pending(), air);
        let (next, after, _) = Operation::Probing(self).step(lock, outcome);
        match exchange.resume(outcome) {
            ExchangeStepView::Next(following, _) => {
                ProbingView { exchange: following, ..self }.lemma_probe_counted(
                    after,
                    served,
                    air,
                    (turns - 1) as nat,
                );
            },
            ExchangeStepView::Done(_, _) => {},
        }
    }
}

impl ScanView {
    /// A scan alone on a dongle in good order finds the channels that answer.
    ///
    /// Let the lock be free and the driver state true of the dongle. After at
    /// most five steps for each channel left the scan is over, and it has
    /// found, besides what it had found before, the channels from its next to
    /// its last on which the radio hears an acknowledgment, in ascending
    /// order. The lock is free again.
    pub proof fn lemma_scan_finds_answering(
        self,
        radio: CrazyradioView,
        dongle: DongleView,
        air: Air,
        turns: nat,
    )
        requires
            self.wf(),
            dongle.agrees(radio),
            turns >= 5 * (self.stop - self.next + 1),
        ensures
            Operation::Scan(self).alone(Some(radio), dongle, air, turns) == (
                Operation::Scanned(
                    Ok(
                        self.found + answering(
                            self.next as int,
                            self.stop as int,
                            self.address,
                            self.payload,
                            air,
                        ),
                    ),
                ),
                Some(configured(self.stop, self.address)),
                DongleView::served(self.stop, self.address, self.payload),
            ),
        decreases self.stop - self.next,
    {
        let exchange = ExchangeView::start(
            radio,
            self.next,
            self.address,
            self.payload,
            Order::AddressFirst,
        );
        ExchangeView::lemma_start_wf(
            radio,
            self.next,
            self.address,
            self.payload,
            Order::AddressFirst,
        );
        let probing = ProbingView { scan: self, exchange };
        probing.lemma_probe_counted(None, dongle, air, (turns - 1) as nat);
        let hit = acknowledged(self.next, self.address, self.payload, air);
        let probed = self.probed(hit);
        let between = configured(self.next, self.address);
        let served = DongleView::served(self.next, self.address, self.payload);
        let left = (turns - 1 - exchange.rest().len()) as nat;
        let rest = answering(
            self.next as int + 1,
            self.stop as int,
            self.address,
            self.payload,
            air,
        );
        assert(self.found + answering(
            self.next as int,
            self.stop as int,
            self.address,
            self.payload,
            air,
        ) =~= probed.found + rest);
        if probed.exhausted() {
            Operation::Scanned(Ok(probed.found)).lemma_over_stays(
                Some(between),
                served,
                air,
                left,
            );
        } else {
            probed.lemma_scan_finds_answering(between, served, air, left);
        }
    }
}

} // verus!
