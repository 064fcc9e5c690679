use crazyradio_webusb::exchange::{Exchange, ExchangeStep, Order};
use crazyradio_webusb::scan::ScanStep;
use crazyradio_webusb::shared::SendStep;
use crazyradio_webusb::transfer::{Recipient, RequestType};
use crazyradio_webusb::{Ack, Channel, Crazyradio, Error, Outcome, SharedCrazyradio, Transfer};

/// A dongle that lives in memory: it records what it is asked, remembers its
/// settings and acknowledges packets on some channels.
struct Dongle {
    log: Vec<Transfer>,
    channel: Option<u16>,
    address: Option<Vec<u8>>,
    answering: Vec<u16>,
    answer: Vec<u8>,
    fail_at: Option<usize>,
    fail_on_probe: Option<usize>,
    probes: usize,
}

impl Dongle {
    fn new() -> Dongle {
        Dongle {
            log: Vec::new(),
            channel: None,
            address: None,
            answering: Vec::new(),
            answer: Vec::new(),
            fail_at: None,
            fail_on_probe: None,
            probes: 0,
        }
    }

    fn answering_on(channels: &[u16]) -> Dongle {
        let mut dongle = Dongle::new();
        dongle.answering = channels.to_vec();
        dongle
    }

    fn perform(&mut self, transfer: Transfer) -> Outcome {
        let index = self.log.len();
        self.log.push(transfer.clone());
        if self.fail_at == Some(index) {
            return Outcome::Failed(format!("transfer {} failed", index));
        }
        match transfer {
            Transfer::ControlOut { request_type, recipient, index, .. }
                if request_type != RequestType::Vendor
                    || recipient != Recipient::Device
                    || index != 0 =>
            {
                panic!("a control transfer that is no vendor request to the device")
            }
            Transfer::ControlOut { request: 0x01, value, data, .. } => {
                assert!(data.is_empty());
                self.channel = Some(value);
                Outcome::Completed(vec![])
            }
            Transfer::ControlOut { request: 0x02, value, data, .. } => {
                assert_eq!(value, 0);
                assert_eq!(data.len(), 5);
                self.address = Some(data);
                Outcome::Completed(vec![])
            }
            Transfer::ControlOut { request, .. } => panic!("unknown request {}", request),
            Transfer::BulkOut { endpoint, .. } => {
                assert_eq!(endpoint, 1);
                self.probes += 1;
                if self.fail_on_probe == Some(self.probes) {
                    return Outcome::Failed(format!("probe {} failed", self.probes));
                }
                Outcome::Completed(vec![])
            }
            Transfer::BulkIn { endpoint, length } => {
                assert_eq!(endpoint, 1);
                assert_eq!(length, 64);
                let channel = self.channel.expect("no channel was programmed");
                if self.answering.contains(&channel) {
                    let mut response = vec![1u8];
                    response.extend_from_slice(&self.answer);
                    Outcome::Completed(response)
                } else {
                    Outcome::Completed(vec![0])
                }
            }
        }
    }
}

fn channel(n: u8) -> Channel {
    Channel::from_number(n).unwrap()
}

fn fresh() -> SharedCrazyradio {
    SharedCrazyradio::new(Crazyradio::open_first_async().unwrap())
}

fn set_channel(n: u16) -> Transfer {
    Transfer::ControlOut {
        request_type: RequestType::Vendor,
        recipient: Recipient::Device,
        request: 0x01,
        value: n,
        index: 0,
        data: vec![],
    }
}

fn set_address(address: [u8; 5]) -> Transfer {
    Transfer::ControlOut {
        request_type: RequestType::Vendor,
        recipient: Recipient::Device,
        request: 0x02,
        value: 0,
        index: 0,
        data: address.to_vec(),
    }
}

fn send(payload: &[u8]) -> Transfer {
    Transfer::BulkOut { endpoint: 1, data: payload.to_vec() }
}

fn receive() -> Transfer {
    Transfer::BulkIn { endpoint: 1, length: 64 }
}

/// Sends one packet, as a caller that has the dongle to itself does.
fn send_packet(
    shared: &mut SharedCrazyradio,
    dongle: &mut Dongle,
    on: Channel,
    address: [u8; 5],
    payload: Vec<u8>,
) -> Result<(Ack, Vec<u8>), Error> {
    let packet = SharedCrazyradio::send_packet_async(on, address, payload);
    let mut step = packet.begin(shared);
    loop {
        match step {
            SendStep::Idle(_) => panic!("the lock is held"),
            SendStep::Pending(sending, transfer) => {
                assert!(shared.is_held());
                let outcome = dongle.perform(transfer);
                assert!(sending.accepts(&outcome));
                step = sending.resume(shared, outcome);
            }
            SendStep::Finished(answer) => {
                assert!(!shared.is_held());
                return answer;
            }
        }
    }
}

/// Scans, as a caller that has the dongle to itself does. Counts how often
/// the scan took the lock.
fn scan(
    shared: &mut SharedCrazyradio,
    dongle: &mut Dongle,
    start: Channel,
    stop: Channel,
    address: [u8; 5],
    payload: Vec<u8>,
) -> (Result<Vec<Channel>, Error>, usize) {
    let mut taken = 0;
    let mut step = SharedCrazyradio::scan_async(start, stop, address, payload);
    loop {
        match step {
            ScanStep::Idle(scan) => {
                assert!(!shared.is_held());
                taken += 1;
                step = scan.begin(shared);
            }
            ScanStep::Pending(probing, transfer) => {
                assert!(shared.is_held());
                let outcome = dongle.perform(transfer);
                assert!(probing.accepts(&outcome));
                step = probing.resume(shared, outcome);
            }
            ScanStep::Finished(found) => {
                assert!(!shared.is_held());
                return (found, taken);
            }
        }
    }
}

#[test]
fn send_packet_programs_channel_then_address_then_sends() {
    let mut shared = fresh();
    let mut dongle = Dongle::answering_on(&[80]);
    dongle.answer = vec![0xAA, 0xBB];
    let (ack, payload) =
        send_packet(&mut shared, &mut dongle, channel(80), [0xe7; 5], vec![0xff]).unwrap();
    assert_eq!(
        dongle.log,
        vec![set_channel(80), set_address([0xe7; 5]), send(&[0xff]), receive()]
    );
    assert_eq!(ack, Ack { received: true, power_detector: false, retry: 0, length: 2 });
    assert_eq!(payload, vec![0xAA, 0xBB]);
}

#[test]
fn send_packet_without_answer() {
    let mut shared = fresh();
    let mut dongle = Dongle::new();
    let (ack, payload) =
        send_packet(&mut shared, &mut dongle, channel(5), [1, 2, 3, 4, 5], vec![1, 2]).unwrap();
    assert_eq!(ack, Ack { received: false, power_detector: false, retry: 0, length: 0 });
    assert!(payload.is_empty());
}

#[test]
fn second_send_on_same_settings_writes_nothing() {
    let mut shared = fresh();
    let mut dongle = Dongle::answering_on(&[80]);
    send_packet(&mut shared, &mut dongle, channel(80), [0xe7; 5], vec![1]).unwrap();
    dongle.log.clear();
    send_packet(&mut shared, &mut dongle, channel(80), [0xe7; 5], vec![2]).unwrap();
    assert_eq!(dongle.log, vec![send(&[2]), receive()]);
}

#[test]
fn send_writes_only_the_setting_that_changed() {
    let mut shared = fresh();
    let mut dongle = Dongle::new();
    send_packet(&mut shared, &mut dongle, channel(80), [0xe7; 5], vec![1]).unwrap();
    dongle.log.clear();
    send_packet(&mut shared, &mut dongle, channel(81), [0xe7; 5], vec![1]).unwrap();
    assert_eq!(dongle.log, vec![set_channel(81), send(&[1]), receive()]);
    dongle.log.clear();
    send_packet(&mut shared, &mut dongle, channel(81), [0xe8; 5], vec![1]).unwrap();
    assert_eq!(dongle.log, vec![set_address([0xe8; 5]), send(&[1]), receive()]);
    let radio = shared.radio().unwrap();
    assert_eq!(radio.current_channel(), Some(channel(81)));
    assert_eq!(radio.current_address(), Some([0xe8; 5]));
}

#[test]
fn failed_channel_write_stops_the_send_and_frees_the_lock() {
    let mut shared = fresh();
    let mut dongle = Dongle::new();
    dongle.fail_at = Some(0);
    let failed = send_packet(&mut shared, &mut dongle, channel(80), [0xe7; 5], vec![1]);
    assert!(matches!(failed, Err(Error::BrowserError(detail)) if detail == "transfer 0 failed"));
    assert_eq!(dongle.log, vec![set_channel(80)]);
    assert!(!shared.is_held());
    assert_eq!(shared.radio().unwrap().current_channel(), None);
    // The next send writes the channel again.
    dongle.fail_at = None;
    dongle.log.clear();
    send_packet(&mut shared, &mut dongle, channel(80), [0xe7; 5], vec![1]).unwrap();
    assert_eq!(
        dongle.log,
        vec![set_channel(80), set_address([0xe7; 5]), send(&[1]), receive()]
    );
}

#[test]
fn failed_address_write_keeps_the_channel() {
    let mut shared = fresh();
    let mut dongle = Dongle::new();
    dongle.fail_at = Some(1);
    let failed = send_packet(&mut shared, &mut dongle, channel(80), [0xe7; 5], vec![1]);
    assert!(matches!(failed, Err(Error::BrowserError(_))));
    assert_eq!(dongle.log, vec![set_channel(80), set_address([0xe7; 5])]);
    let radio = shared.radio().unwrap();
    assert_eq!(radio.current_channel(), Some(channel(80)));
    assert_eq!(radio.current_address(), None);
}

#[test]
fn failed_bulk_transfers_stop_the_send() {
    for failing in [2usize, 3] {
        let mut shared = fresh();
        let mut dongle = Dongle::new();
        dongle.fail_at = Some(failing);
        let failed = send_packet(&mut shared, &mut dongle, channel(80), [0xe7; 5], vec![1]);
        assert!(matches!(failed, Err(Error::BrowserError(_))));
        assert_eq!(dongle.log.len(), failing + 1);
        assert!(!shared.is_held());
    }
}

#[test]
fn scan_finds_the_answering_channels_in_ascending_order() {
    let mut shared = fresh();
    let mut dongle = Dongle::answering_on(&[40, 3, 7]);
    let (found, _) =
        scan(&mut shared, &mut dongle, channel(0), channel(80), [0xe7; 5], vec![0xff]);
    assert_eq!(found.unwrap(), vec![channel(3), channel(7), channel(40)]);
}

#[test]
fn scan_probes_every_channel_of_the_range_once() {
    let mut shared = fresh();
    let mut dongle = Dongle::new();
    let (found, taken) =
        scan(&mut shared, &mut dongle, channel(10), channel(13), [0xe7; 5], vec![0xff]);
    assert!(found.unwrap().is_empty());
    // The address is written once, before the first channel.
    let mut expected = vec![set_address([0xe7; 5])];
    for n in 10..=13 {
        expected.extend([set_channel(n), send(&[0xff]), receive()]);
    }
    assert_eq!(dongle.log, expected);
    // The lock was taken once for each channel.
    assert_eq!(taken, 4);
}

#[test]
fn scan_ignores_channels_outside_the_range() {
    let mut shared = fresh();
    let mut dongle = Dongle::answering_on(&[3, 7, 40, 90]);
    let (found, _) =
        scan(&mut shared, &mut dongle, channel(4), channel(40), [0xe7; 5], vec![0xff]);
    assert_eq!(found.unwrap(), vec![channel(7), channel(40)]);
}

#[test]
fn scan_of_one_channel() {
    let mut shared = fresh();
    let mut dongle = Dongle::answering_on(&[125]);
    let (found, taken) =
        scan(&mut shared, &mut dongle, channel(125), channel(125), [0xe7; 5], vec![0xff]);
    assert_eq!(found.unwrap(), vec![channel(125)]);
    assert_eq!(taken, 1);
    assert_eq!(
        dongle.log,
        vec![set_address([0xe7; 5]), set_channel(125), send(&[0xff]), receive()]
    );
}

#[test]
fn scan_of_all_channels() {
    let mut shared = fresh();
    let mut dongle = Dongle::answering_on(&[0, 125]);
    let (found, _) =
        scan(&mut shared, &mut dongle, channel(0), channel(125), [0xe7; 5], vec![0xff]);
    assert_eq!(found.unwrap(), vec![channel(0), channel(125)]);
    assert_eq!(dongle.probes, 126);
}

#[test]
fn scan_with_stop_below_start_finds_nothing_and_sends_nothing() {
    let mut shared = fresh();
    let mut dongle = Dongle::answering_on(&[3, 4, 5]);
    let (found, taken) =
        scan(&mut shared, &mut dongle, channel(5), channel(3), [0xe7; 5], vec![0xff]);
    assert!(found.unwrap().is_empty());
    assert!(dongle.log.is_empty());
    assert_eq!(taken, 0);
}

#[test]
fn empty_scan_is_over_before_it_begins() {
    let step = SharedCrazyradio::scan_async(channel(9), channel(8), [0; 5], vec![]);
    assert!(matches!(step, ScanStep::Finished(Ok(found)) if found.is_empty()));
    let step = SharedCrazyradio::scan_async(channel(125), channel(0), [0; 5], vec![1]);
    assert!(matches!(step, ScanStep::Finished(Ok(found)) if found.is_empty()));
    let step = SharedCrazyradio::scan_async(channel(8), channel(8), [0; 5], vec![]);
    assert!(matches!(step, ScanStep::Idle(_)));
}

#[test]
fn scan_waits_while_the_lock_is_held() {
    let mut shared = fresh();
    let mut dongle = Dongle::new();
    let holder = SharedCrazyradio::send_packet_async(channel(1), [0; 5], vec![]).begin(&mut shared);
    assert!(shared.is_held());
    let ScanStep::Idle(scan) = SharedCrazyradio::scan_async(channel(8), channel(9), [0; 5], vec![])
    else {
        panic!("the scan did not wait for its first probe")
    };
    let ScanStep::Idle(scan) = scan.begin(&mut shared) else {
        panic!("the scan went through a held lock")
    };
    assert!(dongle.log.is_empty());
    // The holder goes on undisturbed.
    let SendStep::Pending(sending, transfer) = holder else { panic!("the lock was free") };
    let outcome = dongle.perform(transfer);
    assert!(matches!(sending.resume(&mut shared, outcome), SendStep::Pending(_, _)));
    assert!(matches!(scan.begin(&mut shared), ScanStep::Idle(_)));
}

#[test]
fn scan_stops_at_the_first_failure_and_drops_what_it_found() {
    let mut shared = fresh();
    let mut dongle = Dongle::answering_on(&[0, 1, 2, 3, 7, 40]);
    dongle.fail_on_probe = Some(5);
    let (found, _) =
        scan(&mut shared, &mut dongle, channel(0), channel(80), [0xe7; 5], vec![0xff]);
    assert!(matches!(found, Err(Error::BrowserError(detail)) if detail == "probe 5 failed"));
    // Channels 0 to 4 were probed, nothing after the failure.
    assert_eq!(dongle.probes, 5);
    assert_eq!(dongle.channel, Some(4));
    assert_eq!(dongle.log.last(), Some(&send(&[0xff])));
    // The dongle keeps what was programmed, and the lock is free.
    assert!(!shared.is_held());
    assert_eq!(shared.radio().unwrap().current_channel(), Some(channel(4)));
}

#[test]
fn scan_fails_on_a_failed_setting() {
    let mut shared = fresh();
    let mut dongle = Dongle::new();
    dongle.fail_at = Some(0);
    let (found, _) =
        scan(&mut shared, &mut dongle, channel(0), channel(80), [0xe7; 5], vec![0xff]);
    assert!(matches!(found, Err(Error::BrowserError(_))));
    assert_eq!(dongle.log, vec![set_address([0xe7; 5])]);
}

#[test]
fn scan_writes_address_before_channel() {
    let mut shared = fresh();
    let mut dongle = Dongle::new();
    scan(&mut shared, &mut dongle, channel(20), channel(20), [9; 5], vec![1]).0.unwrap();
    assert_eq!(dongle.log[0], set_address([9; 5]));
    assert_eq!(dongle.log[1], set_channel(20));
}

#[test]
fn held_lock_keeps_a_second_packet_waiting() {
    let mut shared = fresh();
    let mut dongle = Dongle::answering_on(&[10, 20]);
    let first = SharedCrazyradio::send_packet_async(channel(10), [1; 5], vec![1]);
    let second = SharedCrazyradio::send_packet_async(channel(20), [2; 5], vec![2]);

    let SendStep::Pending(mut sending, mut transfer) = first.begin(&mut shared) else {
        panic!("the lock was free")
    };
    // The second packet cannot begin while the first is on its way.
    let mut waiting = second;
    loop {
        waiting = match waiting.begin(&mut shared) {
            SendStep::Idle(packet) => packet,
            _ => panic!("the second packet went through a held lock"),
        };
        let outcome = dongle.perform(transfer);
        match sending.resume(&mut shared, outcome) {
            SendStep::Pending(next, request) => {
                sending = next;
                transfer = request;
            }
            SendStep::Finished(answer) => {
                assert!(answer.unwrap().0.received);
                break;
            }
            SendStep::Idle(_) => panic!("a packet on its way went idle"),
        }
    }
    // Now the second packet gets its turn.
    let SendStep::Pending(mut sending, mut transfer) = waiting.begin(&mut shared) else {
        panic!("the lock was not freed")
    };
    loop {
        let outcome = dongle.perform(transfer);
        match sending.resume(&mut shared, outcome) {
            SendStep::Pending(next, request) => {
                sending = next;
                transfer = request;
            }
            SendStep::Finished(answer) => {
                assert!(answer.unwrap().0.received);
                break;
            }
            SendStep::Idle(_) => panic!("a packet on its way went idle"),
        }
    }
    assert_eq!(
        dongle.log,
        vec![
            set_channel(10),
            set_address([1; 5]),
            send(&[1]),
            receive(),
            set_channel(20),
            set_address([2; 5]),
            send(&[2]),
            receive(),
        ]
    );
}

#[test]
fn packet_gets_its_turn_between_two_channels_of_a_scan() {
    let mut shared = fresh();
    let mut dongle = Dongle::answering_on(&[30, 31, 99]);
    let mut step = SharedCrazyradio::scan_async(channel(30), channel(31), [7; 5], vec![0]);
    let mut sent = false;
    let found = loop {
        match step {
            ScanStep::Idle(scan) => {
                if !dongle.log.is_empty() {
                    // The scan has freed the lock: another caller sends a packet.
                    let answer =
                        send_packet(&mut shared, &mut dongle, channel(99), [8; 5], vec![9]);
                    assert!(answer.unwrap().0.received);
                    sent = true;
                }
                step = scan.begin(&mut shared);
            }
            ScanStep::Pending(probing, transfer) => {
                // While the scan probes, nobody else gets through.
                let packet = SharedCrazyradio::send_packet_async(channel(99), [8; 5], vec![9]);
                assert!(matches!(packet.begin(&mut shared), SendStep::Idle(_)));
                let outcome = dongle.perform(transfer);
                step = probing.resume(&mut shared, outcome);
            }
            ScanStep::Finished(found) => break found.unwrap(),
        }
    };
    assert!(sent);
    assert_eq!(found, vec![channel(30), channel(31)]);
    assert_eq!(
        dongle.log,
        vec![
            set_address([7; 5]),
            set_channel(30),
            send(&[0]),
            receive(),
            set_channel(99),
            set_address([8; 5]),
            send(&[9]),
            receive(),
            // The other caller changed both settings: the scan writes them again.
            set_address([7; 5]),
            set_channel(31),
            send(&[0]),
            receive(),
        ]
    );
}

#[test]
fn exchange_with_address_first() {
    let radio = Crazyradio::open_first_async().unwrap();
    let mut dongle = Dongle::answering_on(&[12]);
    dongle.answer = vec![4, 5, 6];
    let (mut exchange, mut transfer) =
        Exchange::start(radio, channel(12), [3; 5], vec![7, 8], Order::AddressFirst);
    let (radio, answer) = loop {
        let outcome = dongle.perform(transfer);
        assert!(exchange.accepts(&outcome));
        match exchange.resume(outcome) {
            ExchangeStep::Next(next, request) => {
                exchange = next;
                transfer = request;
            }
            ExchangeStep::Done(radio, answer) => break (radio, answer),
        }
    };
    assert_eq!(
        dongle.log,
        vec![set_address([3; 5]), set_channel(12), send(&[7, 8]), receive()]
    );
    let (ack, payload) = answer.unwrap();
    assert_eq!(ack, Ack { received: true, power_detector: false, retry: 0, length: 3 });
    assert_eq!(payload, vec![4, 5, 6]);
    assert_eq!(radio.current_channel(), Some(channel(12)));
    assert_eq!(radio.current_address(), Some([3; 5]));
}

#[test]
fn exchange_refuses_an_empty_answer() {
    let radio = Crazyradio::open_first_async().unwrap();
    let (mut exchange, _) =
        Exchange::start(radio, channel(12), [3; 5], vec![7, 8], Order::ChannelFirst);
    // Channel, address and packet went through.
    for _ in 0..3 {
        assert!(exchange.accepts(&Outcome::Completed(vec![])));
        exchange = match exchange.resume(Outcome::Completed(vec![])) {
            ExchangeStep::Next(next, _) => next,
            ExchangeStep::Done(_, _) => panic!("the exchange ended early"),
        };
    }
    assert!(!exchange.accepts(&Outcome::Completed(vec![])));
    assert!(exchange.accepts(&Outcome::Completed(vec![0])));
    assert!(exchange.accepts(&Outcome::Failed("stall".to_string())));
}

#[test]
fn new_lock_is_free_and_holds_the_driver_state() {
    let mut radio = Crazyradio::open_first_async().unwrap();
    radio.channel_written(channel(33), Outcome::Completed(vec![])).unwrap();
    let shared = SharedCrazyradio::new(radio);
    assert!(!shared.is_held());
    assert_eq!(shared.radio().unwrap().current_channel(), Some(channel(33)));
    assert_eq!(shared.radio().unwrap().current_address(), None);
}

#[test]
fn test_open_first() {
    let _ = Crazyradio::open_first_async().unwrap();
}

#[test]
fn test_scan() {
    let radio = Crazyradio::open_first_async().unwrap();
    let mut radio = SharedCrazyradio::new(radio);
    let mut dongle = Dongle::answering_on(&[42]);

    let (found, _) = scan(
        &mut radio,
        &mut dongle,
        0.try_into().unwrap(),
        80.try_into().unwrap(),
        [0xe7; 5],
        vec![0xff],
    );
    assert_eq!(found.unwrap(), vec![channel(42)]);
    assert_eq!(dongle.probes, 81);
}

/// An operation of one of several callers, at any point of its life.
enum Caller {
    Packet(crazyradio_webusb::shared::SendPacket),
    Sending(crazyradio_webusb::shared::Sending, Transfer),
    Scan(crazyradio_webusb::scan::Scan),
    Probing(crazyradio_webusb::scan::Probing, Transfer),
    Sent(Ack),
    Scanned(Vec<Channel>),
}

impl Caller {
    fn of_send(step: SendStep) -> Caller {
        match step {
            SendStep::Idle(packet) => Caller::Packet(packet),
            SendStep::Pending(sending, transfer) => Caller::Sending(sending, transfer),
            SendStep::Finished(answer) => Caller::Sent(answer.unwrap().0),
        }
    }

    fn of_scan(step: ScanStep) -> Caller {
        match step {
            ScanStep::Idle(scan) => Caller::Scan(scan),
            ScanStep::Pending(probing, transfer) => Caller::Probing(probing, transfer),
            ScanStep::Finished(found) => Caller::Scanned(found.unwrap()),
        }
    }

    fn holds(&self) -> bool {
        matches!(self, Caller::Sending(_, _) | Caller::Probing(_, _))
    }

    fn over(&self) -> bool {
        matches!(self, Caller::Sent(_) | Caller::Scanned(_))
    }

    /// One step. A transfer in flight is performed on the dongle first.
    fn step(self, shared: &mut SharedCrazyradio, dongle: &mut Dongle) -> Caller {
        match self {
            Caller::Packet(packet) => Caller::of_send(packet.begin(shared)),
            Caller::Sending(sending, transfer) => {
                let outcome = dongle.perform(transfer);
                Caller::of_send(sending.resume(shared, outcome))
            }
            Caller::Scan(scan) => Caller::of_scan(scan.begin(shared)),
            Caller::Probing(probing, transfer) => {
                let outcome = dongle.perform(transfer);
                Caller::of_scan(probing.resume(shared, outcome))
            }
            over => over,
        }
    }
}

#[test]
fn callers_in_any_order_never_mix_their_exchanges() {
    // Many schedules, each drawn from its own seed.
    for seed in 0u64..200 {
        let mut shared = fresh();
        let mut dongle = Dongle::answering_on(&[5, 21, 22, 60]);
        let packet = |on: u8, address: [u8; 5], payload: Vec<u8>| {
            Caller::Packet(SharedCrazyradio::send_packet_async(channel(on), address, payload))
        };
        let scan = |start: u8, stop: u8, address: [u8; 5], payload: Vec<u8>| {
            let step = SharedCrazyradio::scan_async(channel(start), channel(stop), address, payload);
            Caller::of_scan(step)
        };
        let mut callers = vec![
            packet(5, [1; 5], vec![1]),
            scan(20, 23, [2; 5], vec![2]),
            packet(60, [3; 5], vec![3]),
            scan(59, 61, [3; 5], vec![4]),
            packet(5, [1; 5], vec![5]),
        ];
        // For each transfer made so far, the caller that made it and the
        // number of exchanges that this caller had finished before.
        let mut made: Vec<(usize, usize)> = Vec::new();
        let mut finished = vec![0usize; callers.len()];
        let mut state = seed.wrapping_mul(0x9E37_79B9_7F4A_7C15).wrapping_add(1);
        let mut turns = 0;
        while !callers.iter().all(Caller::over) {
            state = state.wrapping_mul(6364136223846793005).wrapping_add(1442695040888963407);
            let who = (state >> 33) as usize % callers.len();
            let caller = callers.remove(who);
            let held = caller.holds();
            let before = dongle.log.len();
            let caller = caller.step(&mut shared, &mut dongle);
            for _ in before..dongle.log.len() {
                made.push((who, finished[who]));
            }
            if held && !caller.holds() {
                finished[who] += 1;
            }
            // At most one caller has the dongle, and the lock tells so.
            callers.insert(who, caller);
            let holders = callers.iter().filter(|caller| caller.holds()).count();
            assert!(holders <= 1);
            assert_eq!(shared.is_held(), holders == 1);
            turns += 1;
            assert!(turns < 10_000, "the callers do not come to an end");
        }
        // The transfers of one exchange stand together.
        for first in 0..made.len() {
            for last in first..made.len() {
                if made[first] == made[last] {
                    assert!(made[first..=last].iter().all(|entry| *entry == made[first]));
                }
            }
        }
        // Each caller got the answer of its own exchange.
        assert!(matches!(&callers[0], Caller::Sent(ack) if ack.received));
        let found = vec![channel(21), channel(22)];
        assert!(matches!(&callers[1], Caller::Scanned(channels) if *channels == found));
        assert!(matches!(&callers[2], Caller::Sent(ack) if ack.received));
        let found = vec![channel(60)];
        assert!(matches!(&callers[3], Caller::Scanned(channels) if *channels == found));
        assert!(matches!(&callers[4], Caller::Sent(ack) if ack.received));
    }
}
