//! Acknowledgment of one packet exchange.

use vstd::prelude::*;

verus! {

/// What the dongle reports about one transmitted packet.
#[derive(Debug, Copy, Clone, PartialEq, Eq, Structural)]
pub struct Ack {
    /// Whether an acknowledgment came back from the remote radio.
    pub received: bool,
    /// Reading of the radio's power detector while the acknowledgment arrived.
    pub power_detector: bool,
    /// How often the packet was sent before it was acknowledged.
    pub retry: usize,
    /// Length of the payload that came with the acknowledgment.
    pub length: usize,
}

impl Default for Ack {
    /// No acknowledgment: nothing received, nothing measured.
    fn default() -> (ack: Ack)
        ensures
            ack == Ack::none(),
    {
        Ack { received: false, power_detector: false, retry: 0, length: 0 }
    }
}

impl Ack {
    /// The acknowledgment of a packet nobody answered.
    pub open spec fn none() -> Ack {
        Ack { received: false, power_detector: false, retry: 0, length: 0 }
    }

    /// Meaning of the dongle's response to a packet.
    ///
    /// The first byte is a status flag, zero for "no acknowledgment". The bytes
    /// after it are the payload. The wire format says nothing of the power
    /// detector or of retries, so both stay unset.
    pub open spec fn decoded(response: Seq<u8>) -> (Ack, Seq<u8>)
        recommends
            response.len() >= 1,
    {
        let payload = response.skip(1);
        if response[0] != 0 {
            (
                Ack {
                    received: true,
                    power_detector: false,
                    retry: 0,
                    length: payload.len() as usize,
                },
                payload,
            )
        } else {
            (Ack::none(), payload)
        }
    }

    /// Decodes the dongle's response to a packet into the acknowledgment and
    /// the payload that came with it.
    pub fn decode(response: &[u8]) -> (r: (Ack, Vec<u8>))
        requires
            response@.len() >= 1,
        ensures
            (r.0, r.1@) == Ack::decoded(response@),
            r.0.received <==> response@[0] != 0,
            r.0.received ==> r.0.length == response@.len() - 1,
            !r.0.received ==> r.0.length == 0,
            r.1@ == response@.skip(1),
    {
        let mut payload: Vec<u8> = Vec::new();
        let mut i: usize = 1;
        while i < response.len()
            invariant
                1 <= i <= response@.len(),
                payload@ == response@.subrange(1, i as int),
            decreases response@.len() - i,
        {
            payload.push(response[i]);
            i += 1;
        }
        let mut ack = Ack::default();
        if response[0] != 0 {
            ack.received = true;
            ack.length = payload.len();
        }
        (ack, payload)
    }
}

} // verus!
