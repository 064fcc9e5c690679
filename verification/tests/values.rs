use crazyradio_webusb::channel::CHANNEL_COUNT;
use crazyradio_webusb::radio::{Setup, INTERFACE, VENDOR_ID};
use crazyradio_webusb::transfer::{
    Recipient, RequestType, BULK_ENDPOINT, RESPONSE_LENGTH, SET_RADIO_ADDRESS, SET_RADIO_CHANNEL,
};
use crazyradio_webusb::{Ack, Channel, Crazyradio, Error, Outcome, Transfer};

#[test]
fn channel_accepts_every_number_below_126() {
    for n in 0u8..126 {
        let channel = Channel::from_number(n).unwrap();
        assert_eq!(channel.number(), n);
    }
}

#[test]
fn channel_rejects_every_number_from_126() {
    for n in 126u8..=255 {
        assert!(matches!(Channel::from_number(n), Err(Error::InvalidArgument)));
    }
}

#[test]
fn channel_bounds() {
    assert_eq!(CHANNEL_COUNT, 126);
    assert!(Channel::from_number(0).is_ok());
    assert!(Channel::from_number(125).is_ok());
    assert!(Channel::from_number(126).is_err());
    assert!(Channel::from_number(255).is_err());
}

#[test]
fn channel_converts_to_numbers() {
    let channel = Channel::from_number(80).unwrap();
    let byte: u8 = channel.into();
    let word: u16 = channel.into();
    assert_eq!(byte, 80);
    assert_eq!(word, 80);
    assert_eq!(u8::from(channel), 80);
    assert_eq!(u16::from(channel), 80);
}

#[test]
fn number_converts_to_channel() {
    let channel: Channel = 42u8.try_into().unwrap();
    assert_eq!(channel, Channel::from_number(42).unwrap());
    let refused: Result<Channel, Error> = 126u8.try_into();
    assert!(matches!(refused, Err(Error::InvalidArgument)));
    assert!(matches!(Channel::try_from(200u8), Err(Error::InvalidArgument)));
}

#[test]
fn channels_compare_by_number() {
    let a = Channel::from_number(7).unwrap();
    let b = Channel::from_number(7).unwrap();
    let c = Channel::from_number(8).unwrap();
    assert_eq!(a, b);
    assert_ne!(a, c);
}

#[test]
fn ack_default_is_nothing_received() {
    let ack = Ack::default();
    assert_eq!(ack, Ack { received: false, power_detector: false, retry: 0, length: 0 });
}

#[test]
fn ack_decode_acknowledged_with_payload() {
    let (ack, payload) = Ack::decode(&[0x01, 0xAA, 0xBB]);
    assert_eq!(ack, Ack { received: true, power_detector: false, retry: 0, length: 2 });
    assert_eq!(payload, vec![0xAA, 0xBB]);
}

#[test]
fn ack_decode_not_acknowledged() {
    let (ack, payload) = Ack::decode(&[0x00]);
    assert_eq!(ack, Ack { received: false, power_detector: false, retry: 0, length: 0 });
    assert!(payload.is_empty());
}

#[test]
fn ack_decode_any_nonzero_status_is_an_acknowledgment() {
    let (ack, payload) = Ack::decode(&[0xFF]);
    assert!(ack.received);
    assert_eq!(ack.length, 0);
    assert!(payload.is_empty());
    let (ack, payload) = Ack::decode(&[0x80, 1, 2, 3]);
    assert!(ack.received);
    assert_eq!(ack.length, 3);
    assert_eq!(payload, vec![1, 2, 3]);
}

#[test]
fn ack_decode_leaves_power_detector_and_retry_unset() {
    // Status bits that a richer firmware might use must not leak into the
    // fields this wire format does not define.
    let (ack, _) = Ack::decode(&[0b1111_0011, 9]);
    assert!(!ack.power_detector);
    assert_eq!(ack.retry, 0);
}

#[test]
fn ack_decode_keeps_bytes_after_a_zero_status() {
    let (ack, payload) = Ack::decode(&[0x00, 5, 6]);
    assert!(!ack.received);
    assert_eq!(ack.length, 0);
    assert_eq!(payload, vec![5, 6]);
}

#[test]
fn ack_decode_full_response() {
    let mut response = vec![1u8];
    response.extend((0u8..63).map(|i| i.wrapping_mul(3)));
    assert_eq!(response.len(), RESPONSE_LENGTH as usize);
    let (ack, payload) = Ack::decode(&response);
    assert!(ack.received);
    assert_eq!(ack.length, 63);
    assert_eq!(payload, response[1..].to_vec());
}

#[test]
fn error_messages() {
    assert_eq!(Error::NotFound.message(), "Crazyradio not found");
    assert_eq!(Error::InvalidArgument.message(), "Invalid arguments");
    assert_eq!(Error::DongleVersionNotSupported.message(), "Crazyradio version not supported");
    assert_eq!(Error::BrowserError("stall".to_string()).message(), "Browser error");
}

#[test]
fn protocol_constants() {
    assert_eq!(SET_RADIO_CHANNEL, 0x01);
    assert_eq!(SET_RADIO_ADDRESS, 0x02);
    assert_eq!(BULK_ENDPOINT, 0x01);
    assert_eq!(RESPONSE_LENGTH, 64);
    assert_eq!(VENDOR_ID, 6421);
    assert_eq!(INTERFACE, 0);
}

#[test]
fn open_first_knows_nothing_of_the_dongle() {
    let radio = Crazyradio::open_first_async().unwrap();
    assert_eq!(radio.current_channel(), None);
    assert_eq!(radio.current_address(), None);
}

#[test]
fn open_nth_serves_index_zero_only() {
    let radio = Crazyradio::open_nth_async(0).unwrap();
    assert_eq!(radio.current_channel(), None);
    assert_eq!(radio.current_address(), None);
    assert!(matches!(Crazyradio::open_nth_async(1), Err(Error::InvalidArgument)));
    assert!(matches!(Crazyradio::open_nth_async(usize::MAX), Err(Error::InvalidArgument)));
}

#[test]
fn setup_takes_a_paired_device_if_there_is_one() {
    for paired in [1usize, 2, 7] {
        assert_eq!(
            Crazyradio::setup(paired),
            vec![Setup::UsePaired(0), Setup::Open, Setup::ClaimInterface { interface: 0 }]
        );
    }
}

#[test]
fn setup_asks_for_a_device_if_none_is_paired() {
    assert_eq!(
        Crazyradio::setup(0),
        vec![
            Setup::RequestDevice { vendor_id: 0x1915 },
            Setup::Open,
            Setup::ClaimInterface { interface: 0 },
        ]
    );
}

#[test]
fn list_serials_keeps_reported_serials_in_order() {
    let reported = vec![
        Some("E7E7E7E701".to_string()),
        None,
        Some("E7E7E7E702".to_string()),
        None,
    ];
    assert_eq!(
        Crazyradio::list_serials_async(&reported),
        vec!["E7E7E7E701".to_string(), "E7E7E7E702".to_string()]
    );
    assert!(Crazyradio::list_serials_async(&vec![]).is_empty());
    assert!(Crazyradio::list_serials_async(&vec![None, None]).is_empty());
}

#[test]
fn set_channel_asks_for_vendor_request_one() {
    let radio = Crazyradio::open_first_async().unwrap();
    let channel = Channel::from_number(80).unwrap();
    assert_eq!(
        radio.set_channel_async(channel),
        Some(Transfer::ControlOut {
            request_type: RequestType::Vendor,
            recipient: Recipient::Device,
            request: 0x01,
            value: 80,
            index: 0,
            data: vec![],
        })
    );
}

#[test]
fn set_address_asks_for_vendor_request_two() {
    let radio = Crazyradio::open_first_async().unwrap();
    assert_eq!(
        radio.set_address_async(&[0xe7, 1, 2, 3, 4]),
        Some(Transfer::ControlOut {
            request_type: RequestType::Vendor,
            recipient: Recipient::Device,
            request: 0x02,
            value: 0,
            index: 0,
            data: vec![0xe7, 1, 2, 3, 4],
        })
    );
}

#[test]
fn set_channel_twice_writes_once() {
    let mut radio = Crazyradio::open_first_async().unwrap();
    let channel = Channel::from_number(10).unwrap();
    assert!(radio.set_channel_async(channel).is_some());
    assert!(radio.channel_written(channel, Outcome::Completed(vec![])).is_ok());
    assert_eq!(radio.current_channel(), Some(channel));
    assert_eq!(radio.set_channel_async(channel), None);
    // Another channel is written again.
    let other = Channel::from_number(11).unwrap();
    assert_eq!(
        radio.set_channel_async(other),
        Some(Transfer::vendor_request(0x01, 11, vec![]))
    );
}

#[test]
fn set_address_twice_writes_once() {
    let mut radio = Crazyradio::open_first_async().unwrap();
    let address = [0xe7; 5];
    assert!(radio.set_address_async(&address).is_some());
    assert!(radio.address_written(&address, Outcome::Completed(vec![])).is_ok());
    assert_eq!(radio.current_address(), Some(address));
    assert_eq!(radio.set_address_async(&address), None);
    assert!(radio.set_address_async(&[0xe7, 0xe7, 0xe7, 0xe7, 0xe8]).is_some());
}

#[test]
fn failed_channel_write_is_made_again() {
    let mut radio = Crazyradio::open_first_async().unwrap();
    let channel = Channel::from_number(10).unwrap();
    let failed = radio.channel_written(channel, Outcome::Failed("stall".to_string()));
    assert!(matches!(failed, Err(Error::BrowserError(detail)) if detail == "stall"));
    assert_eq!(radio.current_channel(), None);
    assert!(radio.set_channel_async(channel).is_some());
}

#[test]
fn failed_address_write_keeps_the_old_address() {
    let mut radio = Crazyradio::open_first_async().unwrap();
    let old = [1, 2, 3, 4, 5];
    assert!(radio.address_written(&old, Outcome::Completed(vec![])).is_ok());
    let new = [5, 4, 3, 2, 1];
    let failed = radio.address_written(&new, Outcome::Failed("gone".to_string()));
    assert!(matches!(failed, Err(Error::BrowserError(detail)) if detail == "gone"));
    assert_eq!(radio.current_address(), Some(old));
    assert_eq!(radio.set_address_async(&old), None);
    assert!(radio.set_address_async(&new).is_some());
}

#[test]
fn send_packet_goes_out_on_endpoint_one() {
    let radio = Crazyradio::open_first_async().unwrap();
    assert_eq!(
        radio.send_packet_async(vec![0xff, 1, 2]),
        Transfer::BulkOut { endpoint: 0x01, data: vec![0xff, 1, 2] }
    );
}

#[test]
fn packet_sent_asks_for_the_answer() {
    let radio = Crazyradio::open_first_async().unwrap();
    assert_eq!(
        radio.packet_sent(Outcome::Completed(vec![])).unwrap(),
        Transfer::BulkIn { endpoint: 0x01, length: 64 }
    );
    let failed = radio.packet_sent(Outcome::Failed("babble".to_string()));
    assert!(matches!(failed, Err(Error::BrowserError(detail)) if detail == "babble"));
}

#[test]
fn ack_received_decodes_the_answer() {
    let radio = Crazyradio::open_first_async().unwrap();
    let (ack, payload) = radio.ack_received(Outcome::Completed(vec![1, 0xAA, 0xBB])).unwrap();
    assert!(ack.received);
    assert_eq!(ack.length, 2);
    assert_eq!(payload, vec![0xAA, 0xBB]);
    let failed = radio.ack_received(Outcome::Failed("disconnected".to_string()));
    assert!(matches!(failed, Err(Error::BrowserError(detail)) if detail == "disconnected"));
}

#[test]
fn test_list_serial() {
    let reported = vec![None, Some("E7E7E7E7E7".to_string())];
    let serials = Crazyradio::list_serials_async(&reported);

    assert!(!serials.is_empty());
    assert!(serials[0].len() == 10);
}
