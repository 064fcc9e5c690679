//! One exchange with the dongle: configure the radio, send a packet, read the
//! answer.
//!
//! An [`Exchange`] owns the driver state for as long as it lasts, so nothing
//! else can talk to the dongle in between. It is a state machine: it always
//! has one transfer in flight and is resumed with the outcome of that
//! transfer.

use vstd::prelude::*;

use crate::ack::Ack;
use crate::channel::Channel;
use crate::error::{Error, ErrorView};
use crate::radio::{Crazyradio, CrazyradioView};
use crate::transfer::{
    Outcome, OutcomeView, Transfer, TransferView, BULK_ENDPOINT, RESPONSE_LENGTH,
};

verus! {

/// Which of the radio's two settings an exchange writes first.
#[derive(Debug, Copy, Clone, PartialEq, Eq, Structural)]
pub enum Order {
    /// Channel, address, packet.
    ChannelFirst,
    /// Address, channel, packet.
    AddressFirst,
}

/// The transfer an exchange is waiting for.
#[derive(Debug, Copy, Clone, PartialEq, Eq, Structural)]
pub enum Stage {
    /// Writing the channel.
    Channel,
    /// Writing the address.
    Address,
    /// Handing the packet to the radio.
    Send,
    /// Fetching the radio's answer.
    Receive,
}

impl Order {
    /// The setting written first.
    pub open spec fn first(self) -> Stage {
        match self {
            Order::ChannelFirst => Stage::Channel,
            Order::AddressFirst => Stage::Address,
        }
    }

    /// The stage that comes after `stage`. Nothing comes after the answer.
    pub open spec fn following(self, stage: Stage) -> Stage {
        match stage {
            Stage::Channel => match self {
                Order::ChannelFirst => Stage::Address,
                Order::AddressFirst => Stage::Send,
            },
            Stage::Address => match self {
                Order::ChannelFirst => Stage::Send,
                Order::AddressFirst => Stage::Channel,
            },
            Stage::Send => Stage::Receive,
            Stage::Receive => Stage::Receive,
        }
    }

    /// How many stages come after `stage`.
    pub open spec fn remaining(self, stage: Stage) -> nat {
        match stage {
            Stage::Receive => 0,
            Stage::Send => 1,
            _ => if stage == self.first() {
                3
            } else {
                2
            },
        }
    }

    fn first_stage(self) -> (stage: Stage)
        ensures
            stage == self.first(),
    {
        match self {
            Order::ChannelFirst => Stage::Channel,
            Order::AddressFirst => Stage::Address,
        }
    }

    fn stage_after(self, stage: Stage) -> (next: Stage)
        ensures
            next == self.following(stage),
    {
        match stage {
            Stage::Channel => match self {
                Order::ChannelFirst => Stage::Address,
                Order::AddressFirst => Stage::Send,
            },
            Stage::Address => match self {
                Order::ChannelFirst => Stage::Send,
                Order::AddressFirst => Stage::Channel,
            },
            Stage::Send => Stage::Receive,
            Stage::Receive => Stage::Receive,
        }
    }
}

/// What an exchange ends with: the acknowledgment and its payload, or the
/// failure that stopped it.
pub type Answer = Result<(Ack, Vec<u8>), Error>;

/// Mathematical value of an [`Answer`].
pub type AnswerView = Result<(Ack, Seq<u8>), ErrorView>;

/// The value of `answer`.
pub open spec fn answer_view(answer: Answer) -> AnswerView {
    match answer {
        Ok((ack, payload)) => Ok((ack, payload@)),
        Err(error) => Err(error@),
    }
}

/// An exchange in progress.
pub struct Exchange {
    radio: Crazyradio,
    channel: Channel,
    address: [u8; 5],
    payload: Vec<u8>,
    order: Order,
    stage: Stage,
}

/// Mathematical value of an [`Exchange`].
pub struct ExchangeView {
    /// What the dongle is known to hold.
    pub radio: CrazyradioView,
    /// Number of the channel to send on.
    pub channel: u8,
    /// Address to send to.
    pub address: Seq<u8>,
    /// Packet to send.
    pub payload: Seq<u8>,
    /// Order in which the settings are written.
    pub order: Order,
    /// The transfer in flight.
    pub stage: Stage,
}

impl View for Exchange {
    type V = ExchangeView;

    closed spec fn view(&self) -> ExchangeView {
        ExchangeView {
            radio: self.radio@,
            channel: self.channel@,
            address: self.address@,
            payload: self.payload@,
            order: self.order,
            stage: self.stage,
        }
    }
}

/// Where an exchange stands after one step.
pub enum ExchangeStep {
    /// The exchange goes on: the transfer has to be performed and its outcome
    /// handed to [`Exchange::resume`].
    Next(Exchange, Transfer),
    /// The exchange is over: the driver state as it leaves it, and the answer.
    Done(Crazyradio, Answer),
}

/// Mathematical value of an [`ExchangeStep`].
pub enum ExchangeStepView {
    Next(ExchangeView, TransferView),
    Done(CrazyradioView, AnswerView),
}

impl View for ExchangeStep {
    type V = ExchangeStepView;

    open spec fn view(&self) -> ExchangeStepView {
        match self {
            ExchangeStep::Next(exchange, transfer) => ExchangeStepView::Next(
                exchange@,
                transfer@,
            ),
            ExchangeStep::Done(radio, answer) => ExchangeStepView::Done(
                radio@,
                answer_view(*answer),
            ),
        }
    }
}

impl ExchangeView {
    /// Whether the transfer of `stage` has to be made: a setting is written
    /// only when the dongle is not known to hold it, the packet is always sent
    /// and its answer always fetched.
    pub open spec fn needed(self, stage: Stage) -> bool {
        match stage {
            Stage::Channel => self.radio.channel != Some(self.channel),
            Stage::Address => self.radio.address != Some(self.address),
            Stage::Send => true,
            Stage::Receive => true,
        }
    }

    /// The first stage from `from` on whose transfer has to be made.
    pub open spec fn settled(self, from: Stage) -> Stage
        decreases self.order.remaining(from),
    {
        if self.needed(from) {
            from
        } else {
            self.settled(self.order.following(from))
        }
    }

    /// The transfer in flight.
    pub open spec fn pending(self) -> TransferView {
        match self.stage {
            Stage::Channel => TransferView::set_channel(self.channel),
            Stage::Address => TransferView::set_address(self.address),
            Stage::Send => TransferView::send(self.payload),
            Stage::Receive => TransferView::receive(),
        }
    }

    /// The exchange moved on to the first needed stage from `from` on.
    pub open spec fn moved(self, from: Stage) -> ExchangeView {
        ExchangeView { stage: self.settled(from), ..self }
    }

    /// The step that goes on with the first needed stage from `from` on.
    pub open spec fn proceed(self, from: Stage) -> ExchangeStepView {
        ExchangeStepView::Next(self.moved(from), self.moved(from).pending())
    }

    /// An exchange that begins: it stands at the first transfer it needs.
    pub open spec fn start(
        radio: CrazyradioView,
        channel: u8,
        address: Seq<u8>,
        payload: Seq<u8>,
        order: Order,
    ) -> ExchangeView {
        ExchangeView { radio, channel, address, payload, order, stage: order.first() }.moved(
            order.first(),
        )
    }

    /// The step an exchange takes when the transfer in flight ends with
    /// `outcome`.
    ///
    /// A failed transfer ends the exchange with that failure and leaves the
    /// driver state as it was. A completed write is recorded and the exchange
    /// moves on; the completed answer is decoded and ends the exchange.
    pub open spec fn resume(self, outcome: OutcomeView) -> ExchangeStepView {
        match outcome {
            OutcomeView::Failed(detail) => ExchangeStepView::Done(
                self.radio,
                Err(ErrorView::BrowserError(detail)),
            ),
            OutcomeView::Completed(bytes) => match self.stage {
                Stage::Channel => ExchangeView {
                    radio: self.radio.tuned(self.channel),
                    ..self
                }.proceed(self.order.following(Stage::Channel)),
                Stage::Address => ExchangeView {
                    radio: self.radio.addressed(self.address),
                    ..self
                }.proceed(self.order.following(Stage::Address)),
                Stage::Send => self.proceed(Stage::Receive),
                Stage::Receive => ExchangeStepView::Done(self.radio, Ok(Ack::decoded(bytes))),
            },
        }
    }

    /// Whether `outcome` can be the outcome of the transfer in flight: an
    /// answer that was fetched begins with its status byte.
    pub open spec fn accepts(self, outcome: OutcomeView) -> bool {
        self.stage == Stage::Receive ==> (outcome matches OutcomeView::Completed(bytes)
            ==> bytes.len() >= 1)
    }
}

/// How many outcomes at the head of `outcomes` are completed transfers.
pub open spec fn completed_first(outcomes: Seq<OutcomeView>) -> nat
    decreases outcomes.len(),
{
    if outcomes.len() > 0 && outcomes.first() is Completed {
        1 + completed_first(outcomes.drop_first())
    } else {
        0
    }
}

impl ExchangeView {
    /// The dongle is known to hold the channel and the address of this
    /// exchange.
    pub open spec fn configured(self) -> bool {
        self.radio.channel == Some(self.channel) && self.radio.address == Some(self.address)
    }

    /// The settings that are written before the stage in flight are in the
    /// dongle: the first one when the second is written, both when the packet
    /// is sent and its answer fetched.
    pub open spec fn wf(self) -> bool {
        self.written_before(self.stage)
    }

    /// The dongle is known to hold each setting that is written before
    /// `stage`.
    pub open spec fn written_before(self, stage: Stage) -> bool {
        &&& self.order.remaining(Stage::Channel) > self.order.remaining(stage)
            ==> self.radio.channel == Some(self.channel)
        &&& self.order.remaining(Stage::Address) > self.order.remaining(stage)
            ==> self.radio.address == Some(self.address)
    }

    /// The transfer of `stage`, if it has to be made.
    pub open spec fn transfer_of(self, stage: Stage) -> Seq<TransferView> {
        if self.needed(stage) {
            seq![ExchangeView { stage, ..self }.pending()]
        } else {
            Seq::empty()
        }
    }

    /// All transfers of an exchange in which none fails, in their order: each
    /// setting that the dongle is not known to hold is written, in the order
    /// of the exchange, the packet is sent, its answer fetched.
    pub open spec fn plan(
        radio: CrazyradioView,
        channel: u8,
        address: Seq<u8>,
        payload: Seq<u8>,
        order: Order,
    ) -> Seq<TransferView> {
        let tune = if radio.channel == Some(channel) {
            Seq::empty()
        } else {
            seq![TransferView::set_channel(channel)]
        };
        let listen = if radio.address == Some(address) {
            Seq::empty()
        } else {
            seq![TransferView::set_address(address)]
        };
        let settings = match order {
            Order::ChannelFirst => tune + listen,
            Order::AddressFirst => listen + tune,
        };
        settings + seq![TransferView::send(payload), TransferView::receive()]
    }

    /// What is left of the plan at the stage in flight: the transfer in flight
    /// and those that follow it if none fails.
    pub open spec fn rest(self) -> Seq<TransferView> {
        let closing = seq![TransferView::send(self.payload), TransferView::receive()];
        match self.stage {
            Stage::Receive => seq![TransferView::receive()],
            Stage::Send => closing,
            _ => if self.stage == self.order.first() {
                seq![self.pending()] + self.transfer_of(self.order.following(self.stage))
                    + closing
            } else {
                seq![self.pending()] + closing
            },
        }
    }

    /// The transfers that the exchange makes from here on, the one in flight
    /// first, when they end with `outcomes` one after the other. The exchange
    /// stops at the first failure, at its answer, or where `outcomes` ends.
    pub open spec fn transfers(self, outcomes: Seq<OutcomeView>) -> Seq<TransferView>
        decreases outcomes.len(),
    {
        if outcomes.len() == 0 {
            seq![self.pending()]
        } else {
            match self.resume(outcomes.first()) {
                ExchangeStepView::Next(next, _) => seq![self.pending()] + next.transfers(
                    outcomes.drop_first(),
                ),
                ExchangeStepView::Done(_, _) => seq![self.pending()],
            }
        }
    }

    /// An exchange that begins is well formed, and all of its plan is left.
    pub proof fn lemma_start_wf(
        radio: CrazyradioView,
        channel: u8,
        address: Seq<u8>,
        payload: Seq<u8>,
        order: Order,
    )
        ensures
            ExchangeView::start(radio, channel, address, payload, order).wf(),
            ExchangeView::start(radio, channel, address, payload, order).rest()
                == ExchangeView::plan(radio, channel, address, payload, order),
            2 <= ExchangeView::plan(radio, channel, address, payload, order).len() <= 4,
    {
        reveal_with_fuel(ExchangeView::settled, 4);
    }

    /// A step keeps an exchange well formed: no transfer is made before the
    /// settings due before it are in the dongle. In particular the packet is
    /// sent, and its answer fetched, with the radio on the channel and the
    /// address of the exchange. The exchange goes on with what was left of its
    /// plan.
    pub proof fn lemma_resume_wf(self, outcome: OutcomeView)
        requires
            self.wf(),
        ensures
            self.resume(outcome) matches ExchangeStepView::Next(next, transfer) ==> {
                &&& outcome is Completed
                &&& next.wf()
                &&& transfer == next.pending()
                &&& next.channel == self.channel
                &&& next.address == self.address
                &&& next.payload == self.payload
                &&& next.order == self.order
                &&& self.rest() == seq![self.pending()] + next.rest()
            },
            self.resume(outcome) is Done <==> outcome is Failed || self.stage == Stage::Receive,
            self.stage == Stage::Send || self.stage == Stage::Receive ==> self.configured(),
            self.rest().len() >= 1,
            self.rest().first() == self.pending(),
    {
        reveal_with_fuel(ExchangeView::settled, 4);
    }

    /// An exchange on the channel and the address that the dongle is known to
    /// hold writes no setting: the packet is sent at once.
    pub proof fn lemma_plan_when_configured(
        radio: CrazyradioView,
        channel: u8,
        address: Seq<u8>,
        payload: Seq<u8>,
        order: Order,
    )
        requires
            radio.channel == Some(channel),
            radio.address == Some(address),
        ensures
            ExchangeView::plan(radio, channel, address, payload, order) == seq![
                TransferView::send(payload),
                TransferView::receive(),
            ],
    {
    }

    /// The transfers of an exchange follow its plan.
    ///
    /// Whatever the outcomes, the exchange makes the transfers of its plan, in
    /// the order of the plan, up to the first one that fails or is still in
    /// flight: with channel first, the channel is written before the address
    /// and both before the packet is sent.
    pub proof fn lemma_transfers_follow_plan(
        radio: CrazyradioView,
        channel: u8,
        address: Seq<u8>,
        payload: Seq<u8>,
        order: Order,
        outcomes: Seq<OutcomeView>,
    )
        ensures
            ({
                let plan = ExchangeView::plan(radio, channel, address, payload, order);
                let made = ExchangeView::start(radio, channel, address, payload, order).transfers(
                    outcomes,
                );
                &&& 2 <= plan.len() <= 4
                &&& 1 <= made.len() <= plan.len()
                &&& made == plan.take(made.len() as int)
                &&& made.len() == if completed_first(outcomes) + 1 < plan.len() {
                    completed_first(outcomes) + 1
                } else {
                    plan.len()
                }
            }),
    {
        Self::lemma_start_wf(radio, channel, address, payload, order);
        ExchangeView::start(radio, channel, address, payload, order).lemma_transfers_follow_rest(
            outcomes,
        );
    }

    /// From any stage on, the transfers of an exchange follow what is left of
    /// its plan.
    pub proof fn lemma_transfers_follow_rest(self, outcomes: Seq<OutcomeView>)
        requires
            self.wf(),
        ensures
            ({
                let made = self.transfers(outcomes);
                let rest = self.rest();
                &&& 1 <= made.len() <= rest.len()
                &&& made == rest.take(made.len() as int)
                &&& made.len() == if completed_first(outcomes) + 1 < rest.len() {
                    completed_first(outcomes) + 1
                } else {
                    rest.len()
                }
            }),
        decreases outcomes.len(),
    {
        if outcomes.len() > 0 {
            self.lemma_resume_wf(outcomes.first());
            if let ExchangeStepView::Next(next, _) = self.resume(outcomes.first()) {
                next.lemma_transfers_follow_rest(outcomes.drop_first());
            }
        }
    }
}

/// A copy of `bytes`.
pub(crate) fn copy_of(bytes: &Vec<u8>) -> (copy: Vec<u8>)
    ensures
        copy@ == bytes@,
{
    bytes.clone()
}

impl Exchange {
    /// Every exchange that exists is well formed.
    #[verifier::type_invariant]
    closed spec fn inv(self) -> bool {
        self@.wf()
    }

    /// Begins an exchange on `radio`: tune to `channel`, listen on `address`,
    /// send `payload`, with the settings written in `order`. Returns the
    /// exchange and its first transfer.
    pub fn start(
        radio: Crazyradio,
        channel: Channel,
        address: [u8; 5],
        payload: Vec<u8>,
        order: Order,
    ) -> (begun: (Exchange, Transfer))
        ensures
            begun.0@ == ExchangeView::start(radio@, channel@, address@, payload@, order),
            begun.1@ == begun.0@.pending(),
            begun.0@.wf(),
    {
        let first = order.first_stage();
        let exchange = Exchange { radio, channel, address, payload, order, stage: first };
        exchange.proceed(first)
    }

    /// Moves to the first stage from `from` on whose transfer has to be made,
    /// and names that transfer.
    fn proceed(self, from: Stage) -> (begun: (Exchange, Transfer))
        requires
            self@.written_before(from),
        ensures
            begun.0@ == self@.moved(from),
            begun.1@ == begun.0@.pending(),
            begun.0@.wf(),
        decreases self@.order.remaining(from),
    {
        let request = match from {
            Stage::Channel => self.radio.set_channel_async(self.channel),
            Stage::Address => self.radio.set_address_async(&self.address),
            Stage::Send => Some(self.radio.send_packet_async(copy_of(&self.payload))),
            Stage::Receive => Some(
                Transfer::BulkIn { endpoint: BULK_ENDPOINT, length: RESPONSE_LENGTH },
            ),
        };
        match request {
            Some(transfer) => {
                let Exchange { radio, channel, address, payload, order, stage: _ } = self;
                (Exchange { radio, channel, address, payload, order, stage: from }, transfer)
            },
            None => {
                let next = self.order.stage_after(from);
                self.proceed(next)
            },
        }
    }

    /// Whether `outcome` can be handed to [`Exchange::resume`]: an answer that
    /// was fetched has to hold its status byte at least.
    pub fn accepts(&self, outcome: &Outcome) -> (accepted: bool)
        ensures
            accepted == self@.accepts(outcome@),
    {
        match (self.stage, outcome) {
            (Stage::Receive, Outcome::Completed(bytes)) => bytes.len() >= 1,
            _ => true,
        }
    }

    /// Takes the outcome of the transfer in flight and says how the exchange
    /// goes on: with its next transfer, or not at all, because the answer is
    /// there or the transfer failed.
    pub fn resume(self, outcome: Outcome) -> (step: ExchangeStep)
        requires
            self@.accepts(outcome@),
        ensures
            step@ == self@.resume(outcome@),
            step@ matches ExchangeStepView::Next(next, transfer) ==> next.wf() && transfer
                == next.pending(),
            outcome@ matches OutcomeView::Failed(detail) ==> step@ == ExchangeStepView::Done(
                self@.radio,
                Err(ErrorView::BrowserError(detail)),
            ),
    {
        proof {
            use_type_invariant(&self);
        }
        let Exchange { mut radio, channel, address, payload, order, stage } = self;
        match stage {
            Stage::Channel => match radio.channel_written(channel, outcome) {
                Ok(()) => {
                    let written = Exchange { radio, channel, address, payload, order, stage };
                    let (exchange, transfer) = written.proceed(order.stage_after(stage));
                    ExchangeStep::Next(exchange, transfer)
                },
                Err(error) => ExchangeStep::Done(radio, Err(error)),
            },
            Stage::Address => match radio.address_written(&address, outcome) {
                Ok(()) => {
                    let written = Exchange { radio, channel, address, payload, order, stage };
                    let (exchange, transfer) = written.proceed(order.stage_after(stage));
                    ExchangeStep::Next(exchange, transfer)
                },
                Err(error) => ExchangeStep::Done(radio, Err(error)),
            },
            Stage::Send => match radio.packet_sent(outcome) {
                Ok(transfer) => ExchangeStep::Next(
                    Exchange { radio, channel, address, payload, order, stage: Stage::Receive },
                    transfer,
                ),
                Err(error) => ExchangeStep::Done(radio, Err(error)),
            },
            Stage::Receive => {
                let answer = radio.ack_received(outcome);
                ExchangeStep::Done(radio, answer)
            },
        }
    }
}

} // verus!
