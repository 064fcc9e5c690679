//! The driver's picture of one dongle: what was last programmed into it, and
//! the transfers that change it.
//!
//! Each operation of the dongle is split at the points where the caller has to
//! wait for the USB bus. The function named after the operation says which
//! transfer has to be performed, if any; a second function takes the outcome of
//! that transfer and records it.

use vstd::prelude::*;

use crate::ack::Ack;
use crate::channel::Channel;
use crate::error::{Error, ErrorView};
use crate::transfer::{
    Outcome, OutcomeView, Transfer, TransferView, BULK_ENDPOINT, RESPONSE_LENGTH,
    SET_RADIO_ADDRESS, SET_RADIO_CHANNEL,
};

verus! {

/// USB vendor number under which the dongle announces itself.
pub const VENDOR_ID: u16 = 0x1915;

/// Number of the USB interface that the driver claims.
pub const INTERFACE: u8 = 0;

/// Driver state of one opened dongle.
///
/// Holds the channel and the address that were last written to the dongle with
/// success, so that a value the dongle already has is not written again.
/// Nothing is known of a dongle that was just opened.
pub struct Crazyradio {
    current_channel: Option<Channel>,
    current_address: Option<[u8; 5]>,
}

/// Mathematical value of a [`Crazyradio`]: the channel number and the address
/// bytes the dongle is known to hold.
pub struct CrazyradioView {
    pub channel: Option<u8>,
    pub address: Option<Seq<u8>>,
}

impl View for Crazyradio {
    type V = CrazyradioView;

    closed spec fn view(&self) -> CrazyradioView {
        CrazyradioView {
            channel: match self.current_channel {
                Some(channel) => Some(channel@),
                None => None,
            },
            address: match self.current_address {
                Some(address) => Some(address@),
                None => None,
            },
        }
    }
}

/// One step on the way to a dongle that is ready for use.
#[derive(Debug, Copy, Clone, PartialEq, Eq, Structural)]
pub enum Setup {
    /// Take the device with this position among those already paired.
    UsePaired(usize),
    /// Ask the user to pair a device of this vendor, and take it.
    RequestDevice { vendor_id: u16 },
    /// Open the device that was taken.
    Open,
    /// Claim this interface of the device.
    ClaimInterface { interface: u8 },
}

/// The steps that make a dongle ready for use, in their order, given how many
/// dongles are already paired: the first paired device is taken if there is
/// one, else the user is asked for one; the device is opened; its interface
/// [`INTERFACE`] is claimed.
pub open spec fn setup_steps(paired: usize) -> Seq<Setup> {
    seq![
        if paired > 0 {
            Setup::UsePaired(0)
        } else {
            Setup::RequestDevice { vendor_id: VENDOR_ID }
        },
        Setup::Open,
        Setup::ClaimInterface { interface: INTERFACE },
    ]
}

impl CrazyradioView {
    /// Nothing programmed yet.
    pub open spec fn fresh() -> CrazyradioView {
        CrazyradioView { channel: None, address: None }
    }

    /// The same state, with the radio tuned to `channel`.
    pub open spec fn tuned(self, channel: u8) -> CrazyradioView {
        CrazyradioView { channel: Some(channel), ..self }
    }

    /// The same state, with the radio listening on `address`.
    pub open spec fn addressed(self, address: Seq<u8>) -> CrazyradioView {
        CrazyradioView { address: Some(address), ..self }
    }

    /// The transfer needed to tune the radio to `channel`: none when the dongle
    /// is known to be on that channel already.
    pub open spec fn channel_request(self, channel: u8) -> Option<TransferView> {
        if self.channel == Some(channel) {
            None
        } else {
            Some(TransferView::set_channel(channel))
        }
    }

    /// The transfer needed to make the radio listen on `address`: none when the
    /// dongle is known to hold that address already.
    pub open spec fn address_request(self, address: Seq<u8>) -> Option<TransferView> {
        if self.address == Some(address) {
            None
        } else {
            Some(TransferView::set_address(address))
        }
    }
}

impl CrazyradioView {
    /// What one whole attempt to tune the radio to `channel` does, when the
    /// transfer it may need ends with `outcome`: the state it leaves and the
    /// transfers it makes.
    pub open spec fn set_channel(self, channel: u8, outcome: OutcomeView) -> (
        CrazyradioView,
        Seq<TransferView>,
    ) {
        match self.channel_request(channel) {
            None => (self, Seq::empty()),
            Some(transfer) => match outcome {
                OutcomeView::Completed(_) => (self.tuned(channel), seq![transfer]),
                OutcomeView::Failed(_) => (self, seq![transfer]),
            },
        }
    }

    /// What one whole attempt to make the radio listen on `address` does, when
    /// the transfer it may need ends with `outcome`: the state it leaves and
    /// the transfers it makes.
    pub open spec fn set_address(self, address: Seq<u8>, outcome: OutcomeView) -> (
        CrazyradioView,
        Seq<TransferView>,
    ) {
        match self.address_request(address) {
            None => (self, Seq::empty()),
            Some(transfer) => match outcome {
                OutcomeView::Completed(_) => (self.addressed(address), seq![transfer]),
                OutcomeView::Failed(_) => (self, seq![transfer]),
            },
        }
    }

    /// Tuning twice to the same channel costs one transfer at most.
    ///
    /// If the first attempt did not fail, the second makes no transfer and
    /// changes nothing, however its transfer would have ended. A first attempt
    /// that failed is made again. In the terms of the two halves of an attempt:
    /// once a channel is recorded as written, nothing is asked for it.
    pub proof fn lemma_set_channel_twice(
        self,
        channel: u8,
        first: OutcomeView,
        second: OutcomeView,
    )
        ensures
            ({
                let (between, sent) = self.set_channel(channel, first);
                let (after, again) = between.set_channel(channel, second);
                &&& sent.len() <= 1
                &&& first is Completed || self.channel == Some(channel) ==> {
                    &&& between.channel == Some(channel)
                    &&& again.len() == 0
                    &&& after == between
                }
                &&& first is Failed ==> between == self && again == sent
            }),
            self.tuned(channel).channel_request(channel) is None,
            self.channel_request(channel) is None ==> self.tuned(channel) == self,
    {
    }

    /// Writing the same address twice costs one transfer at most.
    ///
    /// If the first attempt did not fail, the second makes no transfer and
    /// changes nothing, however its transfer would have ended. A first attempt
    /// that failed is made again. In the terms of the two halves of an attempt:
    /// once an address is recorded as written, nothing is asked for it.
    pub proof fn lemma_set_address_twice(
        self,
        address: Seq<u8>,
        first: OutcomeView,
        second: OutcomeView,
    )
        ensures
            ({
                let (between, sent) = self.set_address(address, first);
                let (after, again) = between.set_address(address, second);
                &&& sent.len() <= 1
                &&& first is Completed || self.address == Some(address) ==> {
                    &&& between.address == Some(address)
                    &&& again.len() == 0
                    &&& after == between
                }
                &&& first is Failed ==> between == self && again == sent
            }),
            self.addressed(address).address_request(address) is None,
            self.address_request(address) is None ==> self.addressed(address) == self,
    {
    }
}

/// The serial numbers in `reported`, in their order, without the devices that
/// report none.
pub open spec fn known_serials(reported: Seq<Option<String>>) -> Seq<String>
    decreases reported.len(),
{
    if reported.len() == 0 {
        Seq::empty()
    } else {
        let before = known_serials(reported.drop_last());
        match reported.last() {
            Some(serial) => before.push(serial),
            None => before,
        }
    }
}

fn same_address(a: &[u8; 5], b: &[u8; 5]) -> (same: bool)
    ensures
        same == (a@ == b@),
{
    let same = a[0] == b[0] && a[1] == b[1] && a[2] == b[2] && a[3] == b[3] && a[4] == b[4];
    assert(same == (a@ =~= b@));
    same
}

fn address_bytes(address: &[u8; 5]) -> (bytes: Vec<u8>)
    ensures
        bytes@ == address@,
{
    let mut bytes: Vec<u8> = Vec::new();
    bytes.push(address[0]);
    bytes.push(address[1]);
    bytes.push(address[2]);
    bytes.push(address[3]);
    bytes.push(address[4]);
    bytes
}

impl Crazyradio {
    /// Driver state for the first dongle: the same as
    /// [`Crazyradio::open_nth_async`] with index 0, which always succeeds.
    pub fn open_first_async() -> (r: Result<Crazyradio, Error>)
        ensures
            r matches Ok(radio) && radio@ == CrazyradioView::fresh(),
    {
        Crazyradio::open_nth_async(0)
    }

    /// Driver state for the dongle with index `nth`, before anything is
    /// programmed into it. Only index 0 can be served: any other is rejected
    /// with [`Error::InvalidArgument`].
    ///
    /// The caller makes the device ready as [`Crazyradio::setup`] says.
    pub fn open_nth_async(nth: usize) -> (r: Result<Crazyradio, Error>)
        ensures
            nth == 0 <==> r is Ok,
            r matches Ok(radio) ==> radio@ == CrazyradioView::fresh(),
            r matches Err(e) ==> e == Error::InvalidArgument,
    {
        if nth != 0 {
            return Err(Error::InvalidArgument);
        }
        Ok(Crazyradio { current_channel: None, current_address: None })
    }

    /// What has to be done to make the dongle ready for use, given how many
    /// dongles are already paired. The steps are taken in their order, and the
    /// first one that fails ends the attempt.
    pub fn setup(paired: usize) -> (steps: Vec<Setup>)
        ensures
            steps@ == setup_steps(paired),
    {
        let mut steps: Vec<Setup> = Vec::new();
        if paired > 0 {
            steps.push(Setup::UsePaired(0));
        } else {
            steps.push(Setup::RequestDevice { vendor_id: VENDOR_ID });
        }
        steps.push(Setup::Open);
        steps.push(Setup::ClaimInterface { interface: INTERFACE });
        assert(steps@ =~= setup_steps(paired));
        steps
    }

    /// The serial numbers of the paired dongles, given what each paired device
    /// reports as its serial number: devices that report none are left out, the
    /// order is kept.
    pub fn list_serials_async(reported: &Vec<Option<String>>) -> (serials: Vec<String>)
        ensures
            serials@ == known_serials(reported@),
    {
        let mut serials: Vec<String> = Vec::new();
        let mut i: usize = 0;
        while i < reported.len()
            invariant
                i <= reported@.len(),
                serials@ == known_serials(reported@.take(i as int)),
            decreases reported@.len() - i,
        {
            assert(reported@.take(i + 1).drop_last() == reported@.take(i as int));
            if let Some(serial) = &reported[i] {
                serials.push(serial.clone());
            }
            i += 1;
        }
        assert(reported@.take(i as int) == reported@);
        serials
    }

    /// The channel the dongle is known to be tuned to.
    pub fn current_channel(&self) -> (channel: Option<Channel>)
        ensures
            channel matches Some(c) ==> self@.channel == Some(c@) && c.wf(),
            channel is None ==> self@.channel is None,
    {
        match self.current_channel {
            Some(channel) => {
                proof {
                    use_type_invariant(channel);
                }
                Some(channel)
            },
            None => None,
        }
    }

    /// The address the dongle is known to listen on.
    pub fn current_address(&self) -> (address: Option<[u8; 5]>)
        ensures
            address matches Some(a) ==> self@.address == Some(a@),
            address is None ==> self@.address is None,
    {
        self.current_address
    }

    /// The transfer that tunes the radio to `channel`, or none when the dongle
    /// is known to be on that channel: then nothing has to be sent.
    ///
    /// The outcome of the transfer goes to [`Crazyradio::channel_written`].
    pub fn set_channel_async(&self, channel: Channel) -> (request: Option<Transfer>)
        ensures
            request is Some <==> self@.channel != Some(channel@),
            match request {
                Some(transfer) => Some(transfer@) == self@.channel_request(channel@),
                None => self@.channel_request(channel@) is None,
            },
    {
        let stale = match self.current_channel {
            Some(current) => current.number() != channel.number(),
            None => true,
        };
        if stale {
            Some(Transfer::vendor_request(SET_RADIO_CHANNEL, channel.number() as u16, Vec::new()))
        } else {
            None
        }
    }

    /// Records how the transfer that tunes the radio to `channel` ended. After
    /// a completed transfer the dongle is known to be on `channel`; after a
    /// failed one nothing changes, so that the next attempt writes again, and
    /// the failure is reported.
    pub fn channel_written(
        &mut self,
        channel: Channel,
        outcome: Outcome,
    ) -> (r: Result<(), Error>)
        ensures
            match outcome@ {
                OutcomeView::Completed(_) => r is Ok && final(self)@ == old(self)@.tuned(channel@),
                OutcomeView::Failed(detail) => {
                    &&& r matches Err(e) && e@ == ErrorView::BrowserError(detail)
                    &&& final(self)@ == old(self)@
                },
            },
    {
        match outcome {
            Outcome::Completed(_) => {
                self.current_channel = Some(channel);
                Ok(())
            },
            Outcome::Failed(detail) => Err(Error::BrowserError(detail)),
        }
    }

    /// The transfer that makes the radio listen on `address`, or none when the
    /// dongle is known to hold that address: then nothing has to be sent.
    ///
    /// The outcome of the transfer goes to [`Crazyradio::address_written`].
    pub fn set_address_async(&self, address: &[u8; 5]) -> (request: Option<Transfer>)
        ensures
            request is Some <==> self@.address != Some(address@),
            match request {
                Some(transfer) => Some(transfer@) == self@.address_request(address@),
                None => self@.address_request(address@) is None,
            },
    {
        let stale = match &self.current_address {
            Some(current) => !same_address(current, address),
            None => true,
        };
        if stale {
            Some(Transfer::vendor_request(SET_RADIO_ADDRESS, 0, address_bytes(address)))
        } else {
            None
        }
    }

    /// Records how the transfer that writes `address` ended. After a completed
    /// transfer the dongle is known to listen on `address`; after a failed one
    /// nothing changes, and the failure is reported.
    pub fn address_written(
        &mut self,
        address: &[u8; 5],
        outcome: Outcome,
    ) -> (r: Result<(), Error>)
        ensures
            match outcome@ {
                OutcomeView::Completed(_) => {
                    r is Ok && final(self)@ == old(self)@.addressed(address@)
                },
                OutcomeView::Failed(detail) => {
                    &&& r matches Err(e) && e@ == ErrorView::BrowserError(detail)
                    &&& final(self)@ == old(self)@
                },
            },
    {
        match outcome {
            Outcome::Completed(_) => {
                self.current_address = Some(*address);
                Ok(())
            },
            Outcome::Failed(detail) => Err(Error::BrowserError(detail)),
        }
    }

    /// The transfer that hands `packet` to the radio, which sends it on the
    /// channel and to the address it was last given.
    ///
    /// The outcome of the transfer goes to [`Crazyradio::packet_sent`].
    pub fn send_packet_async(&self, packet: Vec<u8>) -> (request: Transfer)
        ensures
            request@ == TransferView::send(packet@),
    {
        Transfer::BulkOut { endpoint: BULK_ENDPOINT, data: packet }
    }

    /// Takes the outcome of handing a packet to the radio. After a completed
    /// transfer the radio's answer has to be fetched, with the transfer that is
    /// returned; a failure is reported.
    ///
    /// The outcome of the returned transfer goes to
    /// [`Crazyradio::ack_received`].
    pub fn packet_sent(&self, outcome: Outcome) -> (r: Result<Transfer, Error>)
        ensures
            match outcome@ {
                OutcomeView::Completed(_) => {
                    r matches Ok(request) && request@ == TransferView::receive()
                },
                OutcomeView::Failed(detail) => {
                    r matches Err(e) && e@ == ErrorView::BrowserError(detail)
                },
            },
    {
        match outcome {
            Outcome::Completed(_) => Ok(
                Transfer::BulkIn { endpoint: BULK_ENDPOINT, length: RESPONSE_LENGTH },
            ),
            Outcome::Failed(detail) => Err(Error::BrowserError(detail)),
        }
    }

    /// Takes the outcome of fetching the radio's answer: the acknowledgment and
    /// its payload as [`Ack::decode`] reads them from the bytes received, or
    /// the failure of the transfer.
    ///
    /// An answer always begins with its status byte.
    pub fn ack_received(&self, outcome: Outcome) -> (r: Result<(Ack, Vec<u8>), Error>)
        requires
            outcome matches Outcome::Completed(response) ==> response@.len() >= 1,
        ensures
            match outcome@ {
                OutcomeView::Completed(response) => {
                    r matches Ok(answer) && (answer.0, answer.1@) == Ack::decoded(response)
                },
                OutcomeView::Failed(detail) => {
                    r matches Err(e) && e@ == ErrorView::BrowserError(detail)
                },
            },
    {
        match outcome {
            Outcome::Completed(response) => Ok(Ack::decode(response.as_slice())),
            Outcome::Failed(detail) => Err(Error::BrowserError(detail)),
        }
    }
}

} // verus!
