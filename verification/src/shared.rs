//! One dongle shared by several callers.
//!
//! A [`SharedCrazyradio`] is the lock on the dongle. It owns the driver state
//! and lends it to one operation at a time: while an operation has it, the
//! lock is held and no other operation can begin. An operation gives the
//! driver state back with its last step, whether it succeeded or failed.
//!
//! The lock never waits. An operation that finds it held stays idle, and the
//! caller tries again once the holder has finished.

use vstd::prelude::*;

use crate::channel::Channel;
use crate::error::ErrorView;
use crate::exchange::{
    answer_view, Answer, AnswerView, Exchange, ExchangeStep, ExchangeStepView, ExchangeView,
    Order,
};
use crate::radio::{Crazyradio, CrazyradioView};
use crate::scan::{Scan, ScanStep, ScanStepView, ScanView};
use crate::transfer::{Outcome, OutcomeView, Transfer, TransferView};

verus! {

/// The lock on one dongle.
pub struct SharedCrazyradio {
    radio: Option<Crazyradio>,
}

/// Mathematical value of a [`SharedCrazyradio`]: the driver state while the
/// lock is free, nothing while an operation holds it.
pub type LockView = Option<CrazyradioView>;

impl View for SharedCrazyradio {
    type V = LockView;

    closed spec fn view(&self) -> LockView {
        match self.radio {
            Some(radio) => Some(radio@),
            None => None,
        }
    }
}

/// A packet waiting to be sent through the lock.
pub struct SendPacket {
    channel: Channel,
    address: [u8; 5],
    payload: Vec<u8>,
}

/// Mathematical value of a [`SendPacket`].
pub struct SendPacketView {
    /// Number of the channel to send on.
    pub channel: u8,
    /// Address to send to.
    pub address: Seq<u8>,
    /// Packet to send.
    pub payload: Seq<u8>,
}

impl View for SendPacket {
    type V = SendPacketView;

    closed spec fn view(&self) -> SendPacketView {
        SendPacketView {
            channel: self.channel@,
            address: self.address@,
            payload: self.payload@,
        }
    }
}

/// A packet on its way: the operation holds the lock.
pub struct Sending {
    exchange: Exchange,
}

/// Mathematical value of a [`Sending`].
pub struct SendingView {
    /// The exchange with the dongle.
    pub exchange: ExchangeView,
}

impl View for Sending {
    type V = SendingView;

    closed spec fn view(&self) -> SendingView {
        SendingView { exchange: self.exchange@ }
    }
}

/// Where the sending of a packet stands after one step.
pub enum SendStep {
    /// The lock is held by another operation. Nothing was sent; try
    /// [`SendPacket::begin`] again when the holder has finished.
    Idle(SendPacket),
    /// The operation holds the lock: the transfer has to be performed and its
    /// outcome handed to [`Sending::resume`].
    Pending(Sending, Transfer),
    /// The operation is over and the lock free again.
    Finished(Answer),
}

/// Mathematical value of a [`SendStep`].
pub enum SendStepView {
    Idle(SendPacketView),
    Pending(SendingView, TransferView),
    Finished(AnswerView),
}

impl View for SendStep {
    type V = SendStepView;

    open spec fn view(&self) -> SendStepView {
        match self {
            SendStep::Idle(packet) => SendStepView::Idle(packet@),
            SendStep::Pending(sending, transfer) => SendStepView::Pending(sending@, transfer@),
            SendStep::Finished(answer) => SendStepView::Finished(answer_view(*answer)),
        }
    }
}

impl SendPacketView {
    /// The first step of sending a packet through `lock`, and the lock after
    /// it.
    ///
    /// A held lock leaves everything as it is. A free lock is taken, and the
    /// exchange begins: channel first, address second, packet last.
    pub open spec fn begin(self, lock: LockView) -> (SendStepView, LockView) {
        match lock {
            None => (SendStepView::Idle(self), None),
            Some(radio) => {
                let exchange = ExchangeView::start(
                    radio,
                    self.channel,
                    self.address,
                    self.payload,
                    Order::ChannelFirst,
                );
                (SendStepView::Pending(SendingView { exchange }, exchange.pending()), None)
            },
        }
    }
}

impl SendingView {
    /// The step taken when the transfer in flight ends with `outcome`, and the
    /// lock after it.
    ///
    /// While the exchange goes on the lock is left alone. When the exchange is
    /// over, with an answer or a failure, the driver state goes back into the
    /// lock.
    pub open spec fn resume(self, lock: LockView, outcome: OutcomeView) -> (
        SendStepView,
        LockView,
    ) {
        match self.exchange.resume(outcome) {
            ExchangeStepView::Next(exchange, transfer) => (
                SendStepView::Pending(SendingView { exchange }, transfer),
                lock,
            ),
            ExchangeStepView::Done(radio, answer) => (SendStepView::Finished(answer), Some(radio)),
        }
    }

    /// Whether `outcome` can be the outcome of the transfer in flight.
    pub open spec fn accepts(self, outcome: OutcomeView) -> bool {
        self.exchange.accepts(outcome)
    }

    /// A failed transfer ends the operation with that failure and frees the
    /// lock; the driver state is as it was before the transfer.
    pub proof fn lemma_failure_frees_lock(self, lock: LockView, detail: Seq<char>)
        ensures
            self.resume(lock, OutcomeView::Failed(detail)) == (
                SendStepView::Finished(Err(ErrorView::BrowserError(detail))),
                Some(self.exchange.radio),
            ),
    {
    }

    /// An operation that is over has freed the lock, whatever it ended with.
    pub proof fn lemma_finished_frees_lock(self, lock: LockView, outcome: OutcomeView)
        ensures
            self.resume(lock, outcome).0 is Finished ==> self.resume(lock, outcome).1 is Some,
            self.resume(lock, outcome).0 is Pending ==> self.resume(lock, outcome).1 == lock,
            !(self.resume(lock, outcome).0 is Idle),
    {
    }
}

impl SendPacketView {
    /// A packet is sent with the channel written first, the address second.
    ///
    /// Let the packet take a free lock and its transfers end with `outcomes`.
    /// Then the transfers made are the first ones of: the channel, if the
    /// dongle is not known to be on it; the address, if the dongle is not
    /// known to hold it; the packet; its answer. So no setting is written
    /// after the packet is sent, and the channel is never written after the
    /// address.
    pub proof fn lemma_channel_address_packet(
        self,
        radio: CrazyradioView,
        outcomes: Seq<OutcomeView>,
    )
        ensures
            self.begin(Some(radio)).1 is None,
            self.begin(Some(radio)).0 matches SendStepView::Pending(sending, first) && ({
                let made = sending.exchange.transfers(outcomes);
                let plan = ExchangeView::plan(
                    radio,
                    self.channel,
                    self.address,
                    self.payload,
                    Order::ChannelFirst,
                );
                &&& first == made[0]
                &&& 1 <= made.len() <= plan.len()
                &&& made == plan.take(made.len() as int)
                &&& forall|i: int, j: int|
                    0 <= i < j < made.len() ==> !(#[trigger] made[i] is BulkOut)
                        || !(#[trigger] made[j] is ControlOut)
                &&& forall|i: int, j: int|
                    0 <= i < j < made.len() ==> !(#[trigger] made[i] == TransferView::set_address(
                        self.address,
                    )) || !(#[trigger] made[j] == TransferView::set_channel(self.channel))
            }),
    {
        ExchangeView::lemma_transfers_follow_plan(
            radio,
            self.channel,
            self.address,
            self.payload,
            Order::ChannelFirst,
            outcomes,
        );
        ExchangeView::lemma_start_wf(
            radio,
            self.channel,
            self.address,
            self.payload,
            Order::ChannelFirst,
        );
    }
}

impl SharedCrazyradio {
    /// A lock on the dongle that `radio` describes. The lock is free.
    pub fn new(radio: Crazyradio) -> (shared: SharedCrazyradio)
        ensures
            shared@ == Some(radio@),
    {
        SharedCrazyradio { radio: Some(radio) }
    }

    /// Whether an operation holds the lock.
    pub fn is_held(&self) -> (held: bool)
        ensures
            held == (self@ is None),
    {
        self.radio.is_none()
    }

    /// The driver state, while no operation holds the lock.
    pub fn radio(&self) -> (radio: Option<&Crazyradio>)
        ensures
            match radio {
                Some(radio) => self@ == Some(radio@),
                None => self@ is None,
            },
    {
        self.radio.as_ref()
    }

    /// Prepares the sending of `payload` on `channel` to `address`. Nothing
    /// happens to the dongle before [`SendPacket::begin`].
    pub fn send_packet_async(
        channel: Channel,
        address: [u8; 5],
        payload: Vec<u8>,
    ) -> (packet: SendPacket)
        ensures
            packet@ == (SendPacketView {
                channel: channel@,
                address: address@,
                payload: payload@,
            }),
    {
        SendPacket { channel, address, payload }
    }

    /// Prepares a scan: `payload` is sent to `address` on every channel from
    /// `start` to `stop`, both ends counted, to find the channels on which it
    /// is acknowledged. With `stop` below `start` there is no channel to
    /// probe, and the scan is over at once with nothing found. Nothing happens
    /// to the dongle before [`Scan::begin`].
    pub fn scan_async(
        start: Channel,
        stop: Channel,
        address: [u8; 5],
        payload: Vec<u8>,
    ) -> (step: ScanStep)
        ensures
            step@ == ScanView::prepared(start@, stop@, address@, payload@),
            start@ > stop@ <==> step@ == ScanStepView::Finished(Ok(Seq::empty())),
            start@ <= stop@ <==> step@ == ScanStepView::Idle(
                ScanView::new(start@, stop@, address@, payload@),
            ),
            step@ matches ScanStepView::Idle(scan) ==> scan.wf(),
    {
        Scan::prepare(start, stop, address, payload)
    }

    /// Takes the driver state out of the lock, if it is there.
    pub(crate) fn acquire(&mut self) -> (radio: Option<Crazyradio>)
        ensures
            final(self)@ is None,
            match radio {
                Some(radio) => old(self)@ == Some(radio@),
                None => old(self)@ is None,
            },
    {
        self.radio.take()
    }

    /// Puts the driver state back into the lock.
    pub(crate) fn release(&mut self, radio: Crazyradio)
        ensures
            final(self)@ == Some(radio@),
    {
        self.radio = Some(radio);
    }
}

impl SendPacket {
    /// Tries to take the lock and, with it, begins the exchange with the
    /// dongle.
    pub fn begin(self, shared: &mut SharedCrazyradio) -> (step: SendStep)
        ensures
            (step@, final(shared)@) == self@.begin(old(shared)@),
            step@ matches SendStepView::Pending(sending, _) ==> sending.exchange.wf(),
    {
        match shared.acquire() {
            None => SendStep::Idle(self),
            Some(radio) => {
                let (exchange, transfer) = Exchange::start(
                    radio,
                    self.channel,
                    self.address,
                    self.payload,
                    Order::ChannelFirst,
                );
                SendStep::Pending(Sending { exchange }, transfer)
            },
        }
    }
}

impl Sending {
    /// Whether `outcome` can be handed to [`Sending::resume`]: an answer that
    /// was fetched has to hold its status byte at least.
    pub fn accepts(&self, outcome: &Outcome) -> (accepted: bool)
        ensures
            accepted == self@.accepts(outcome@),
    {
        self.exchange.accepts(outcome)
    }

    /// Takes the outcome of the transfer in flight and says how the operation
    /// goes on. With its last step the operation frees the lock.
    pub fn resume(self, shared: &mut SharedCrazyradio, outcome: Outcome) -> (step: SendStep)
        requires
            self@.accepts(outcome@),
        ensures
            (step@, final(shared)@) == self@.resume(old(shared)@, outcome@),
            step@ matches SendStepView::Pending(sending, _) ==> sending.exchange.wf(),
    {
        match self.exchange.resume(outcome) {
            ExchangeStep::Next(exchange, transfer) => SendStep::Pending(
                Sending { exchange },
                transfer,
            ),
            ExchangeStep::Done(radio, answer) => {
                shared.release(radio);
                SendStep::Finished(answer)
            },
        }
    }
}

} // verus!
