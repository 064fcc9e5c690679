//! Radio channels.

use vstd::prelude::*;

use crate::error::Error;

verus! {

/// How many channels the radio has: valid numbers are `0..CHANNEL_COUNT`.
pub const CHANNEL_COUNT: u8 = 126;

/// A radio channel: a number below [`CHANNEL_COUNT`].
///
/// The only way to obtain one is [`Channel::from_number`], so a `Channel`
/// that exists at run time is always in range.
#[derive(Debug, Copy, Clone, PartialEq, Eq, Hash, Structural)]
pub struct Channel(u8);

impl View for Channel {
    type V = u8;

    closed spec fn view(&self) -> u8 {
        self.0
    }
}

impl Channel {
    /// The channel holds a number the radio can be tuned to.
    #[verifier::type_invariant]
    pub open spec fn wf(self) -> bool {
        self@ < CHANNEL_COUNT
    }

    /// The channel with the given number, in range or not. Such a value exists
    /// in proofs only.
    pub closed spec fn with_number(number: u8) -> Channel {
        Channel(number)
    }

    /// Outcome of validating `number`.
    pub open spec fn checked(number: u8) -> Result<Channel, Error> {
        if number < CHANNEL_COUNT {
            Ok(Channel::with_number(number))
        } else {
            Err(Error::InvalidArgument)
        }
    }

    /// The channel with a given number has that number.
    pub proof fn lemma_with_number(number: u8)
        ensures
            Channel::with_number(number)@ == number,
    {
    }

    /// Two channels with the same number are the same channel.
    pub proof fn lemma_eq_by_number(a: Channel, b: Channel)
        ensures
            a@ == b@ <==> a == b,
    {
    }

    /// Validates a channel number: accepted exactly when it is below
    /// [`CHANNEL_COUNT`], rejected with [`Error::InvalidArgument`] otherwise.
    pub fn from_number(channel: u8) -> (r: Result<Channel, Error>)
        ensures
            r == Channel::checked(channel),
            channel < CHANNEL_COUNT <==> r is Ok,
            r matches Ok(c) ==> c@ == channel && c.wf(),
            r matches Err(e) ==> e == Error::InvalidArgument,
    {
        if channel < CHANNEL_COUNT {
            Ok(Channel(channel))
        } else {
            Err(Error::InvalidArgument)
        }
    }

    /// The channel's number.
    pub fn number(&self) -> (n: u8)
        ensures
            n == self@,
            n < CHANNEL_COUNT,
    {
        proof {
            use_type_invariant(self);
        }
        self.0
    }
}

/// The number of a channel, as the byte that goes to the dongle.
impl From<Channel> for u8 {
    fn from(channel: Channel) -> (number: u8) {
        channel.number()
    }
}

impl vstd::std_specs::convert::FromSpecImpl<Channel> for u8 {
    open spec fn obeys_from_spec() -> bool {
        true
    }

    open spec fn from_spec(channel: Channel) -> u8 {
        channel@
    }
}

/// The number of a channel, as the value of a control transfer.
impl From<Channel> for u16 {
    fn from(channel: Channel) -> (number: u16) {
        channel.number() as u16
    }
}

impl vstd::std_specs::convert::FromSpecImpl<Channel> for u16 {
    open spec fn obeys_from_spec() -> bool {
        true
    }

    open spec fn from_spec(channel: Channel) -> u16 {
        channel@ as u16
    }
}

/// A number becomes a channel as [`Channel::from_number`] says.
impl TryFrom<u8> for Channel {
    type Error = Error;

    fn try_from(number: u8) -> (r: Result<Channel, Error>) {
        Channel::from_number(number)
    }
}

impl vstd::std_specs::convert::TryFromSpecImpl<u8> for Channel {
    open spec fn obeys_try_from_spec() -> bool {
        true
    }

    open spec fn try_from_spec(number: u8) -> Result<Channel, Error> {
        Channel::checked(number)
    }
}

} // verus!
