//! The USB transfers the driver asks for, and what comes back.

use vstd::prelude::*;

verus! {

/// Vendor request that programs the radio channel.
pub const SET_RADIO_CHANNEL: u8 = 0x01;

/// Vendor request that programs the radio address.
pub const SET_RADIO_ADDRESS: u8 = 0x02;

/// Number of the bulk endpoint, the same in both directions.
pub const BULK_ENDPOINT: u8 = 0x01;

/// Most bytes the dongle answers to one packet.
pub const RESPONSE_LENGTH: u32 = 64;

/// Kind of a control request, as the USB setup packet tells it.
#[derive(Debug, Copy, Clone, PartialEq, Eq, Structural)]
pub enum RequestType {
    Standard,
    Class,
    Vendor,
}

/// Whom a control request is meant for, as the USB setup packet tells it.
#[derive(Debug, Copy, Clone, PartialEq, Eq, Structural)]
pub enum Recipient {
    Device,
    Interface,
    Endpoint,
    Other,
}

/// One USB transfer that the caller has to perform on the dongle.
#[derive(Debug, Clone, PartialEq, Eq)]
pub enum Transfer {
    /// Control transfer out: the setup packet and the data that follows it.
    ControlOut {
        request_type: RequestType,
        recipient: Recipient,
        request: u8,
        value: u16,
        index: u16,
        data: Vec<u8>,
    },
    /// Bulk transfer of `data` to endpoint `endpoint`.
    BulkOut { endpoint: u8, data: Vec<u8> },
    /// Bulk transfer of up to `length` bytes from endpoint `endpoint`.
    BulkIn { endpoint: u8, length: u32 },
}

/// Mathematical value of a [`Transfer`].
pub enum TransferView {
    ControlOut {
        request_type: RequestType,
        recipient: Recipient,
        request: u8,
        value: u16,
        index: u16,
        data: Seq<u8>,
    },
    BulkOut { endpoint: u8, data: Seq<u8> },
    BulkIn { endpoint: u8, length: u32 },
}

impl View for Transfer {
    type V = TransferView;

    open spec fn view(&self) -> TransferView {
        match self {
            Transfer::ControlOut { request_type, recipient, request, value, index, data } => {
                TransferView::ControlOut {
                    request_type: *request_type,
                    recipient: *recipient,
                    request: *request,
                    value: *value,
                    index: *index,
                    data: data@,
                }
            },
            Transfer::BulkOut { endpoint, data } => TransferView::BulkOut {
                endpoint: *endpoint,
                data: data@,
            },
            Transfer::BulkIn { endpoint, length } => TransferView::BulkIn {
                endpoint: *endpoint,
                length: *length,
            },
        }
    }
}

impl TransferView {
    /// A vendor request to the device, with index 0: the form of every
    /// control transfer that the driver makes.
    pub open spec fn vendor_request(request: u8, value: u16, data: Seq<u8>) -> TransferView {
        TransferView::ControlOut {
            request_type: RequestType::Vendor,
            recipient: Recipient::Device,
            request,
            value,
            index: 0,
            data,
        }
    }

    /// The request that tunes the radio to channel number `channel`: the
    /// channel number is the value, there is no data.
    pub open spec fn set_channel(channel: u8) -> TransferView {
        TransferView::vendor_request(SET_RADIO_CHANNEL, channel as u16, Seq::empty())
    }

    /// The request that makes the radio listen on `address`: the value is 0,
    /// the address bytes are the data.
    pub open spec fn set_address(address: Seq<u8>) -> TransferView {
        TransferView::vendor_request(SET_RADIO_ADDRESS, 0, address)
    }

    /// The transfer that hands `packet` to the radio for transmission.
    pub open spec fn send(packet: Seq<u8>) -> TransferView {
        TransferView::BulkOut { endpoint: BULK_ENDPOINT, data: packet }
    }

    /// The transfer that fetches the radio's answer to the last packet.
    pub open spec fn receive() -> TransferView {
        TransferView::BulkIn { endpoint: BULK_ENDPOINT, length: RESPONSE_LENGTH }
    }
}

impl Transfer {
    /// A vendor request to the device, with index 0.
    pub fn vendor_request(request: u8, value: u16, data: Vec<u8>) -> (transfer: Transfer)
        ensures
            transfer@ == TransferView::vendor_request(request, value, data@),
    {
        Transfer::ControlOut {
            request_type: RequestType::Vendor,
            recipient: Recipient::Device,
            request,
            value,
            index: 0,
            data,
        }
    }
}

/// How a [`Transfer`] ended.
#[derive(Debug, Clone, PartialEq, Eq)]
pub enum Outcome {
    /// The transfer went through. Holds the bytes that were read, none for a
    /// transfer out.
    Completed(Vec<u8>),
    /// The transfer failed; the text describes the failure.
    Failed(String),
}

/// Mathematical value of an [`Outcome`].
pub enum OutcomeView {
    Completed(Seq<u8>),
    Failed(Seq<char>),
}

impl View for Outcome {
    type V = OutcomeView;

    open spec fn view(&self) -> OutcomeView {
        match self {
            Outcome::Completed(bytes) => OutcomeView::Completed(bytes@),
            Outcome::Failed(detail) => OutcomeView::Failed(detail@),
        }
    }
}

} // verus!
