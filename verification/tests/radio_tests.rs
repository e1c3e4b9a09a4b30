use key_lib::radio::central::{
    after_attempt, CentralConnection, ConnectionState, SendStep, ACK_TIMEOUT_US,
    MAX_CONNECTION_EVENTS, RECEIVE_TIMEOUT_US,
};
use key_lib::radio::mailbox::Mailbox;
use key_lib::radio::packet::{Packet, PacketType};
use key_lib::radio::peripheral::{get_next_time_period, PeripheralConnection, SendWindow};
use key_lib::radio::reliable::Radio;
use key_lib::radio::simple::{PulseLink, PulseState};
use key_lib::radio::Addresses;

fn packet(packet_type: PacketType, id: u8, addr: u8, payload: &[u8]) -> Packet {
    let mut packet = Packet::default();
    packet.copy_from_slice(payload);
    packet.set_type(packet_type);
    packet.set_id(id);
    packet.set_address(addr);
    packet
}

fn drain(mailbox: &mut Mailbox) -> Vec<Vec<u8>> {
    let mut all = Vec::new();
    while let Some(p) = mailbox.take() {
        all.push(p.as_slice().to_vec());
    }
    all
}

#[test]
fn default_packet_is_empty() {
    let packet = Packet::default();
    assert!(packet.is_empty());
    assert_eq!(packet.len(), 0);
    assert_eq!(packet.address(), 0);
    assert_eq!(packet.to_bytes(), [2u8; 35]);
    assert_eq!(packet.id(), 2);
    assert_eq!(packet.packet_type(), Ok(PacketType::Advertise));
}

#[test]
fn packet_wire_format() {
    let mut packet = Packet::default();
    packet.copy_from_slice(&[10, 20, 30]);
    packet.set_id(7);
    packet.set_type(PacketType::EstablishConnection);
    let bytes = packet.to_bytes();
    assert_eq!(&bytes[..6], &[5, 7, 3, 10, 20, 30]);
    assert_eq!(&bytes[6..], &[2u8; 29]);
    assert_eq!(packet.len(), 3);
    assert!(!packet.is_empty());
    assert_eq!(packet.as_slice(), &[10, 20, 30]);
    assert_eq!(packet.get(1), 20);
    packet.set(1, 99);
    assert_eq!(packet.as_slice(), &[10, 99, 30]);
    packet.set_len(2);
    assert_eq!(packet.as_slice(), &[10, 99]);
    assert_eq!(packet.to_bytes()[0], 4);
    packet.set_type(PacketType::Data);
    assert_eq!(packet.to_bytes()[2], 0);
    assert_eq!(packet.packet_type(), Ok(PacketType::Data));
    assert!(packet.is_type(PacketType::Data));
    assert!(!packet.is_type(PacketType::Ack));
}

#[test]
fn packet_takes_a_full_payload() {
    let mut packet = Packet::default();
    let payload: Vec<u8> = (0..32).collect();
    packet.copy_from_slice(&payload);
    assert_eq!(packet.len(), 32);
    assert_eq!(packet.to_bytes()[0], 34);
    assert_eq!(packet.as_slice(), &payload[..]);
}

#[test]
fn packet_from_bytes_checks_the_length_byte() {
    let mut bytes = [0u8; 35];
    bytes[0] = 1;
    assert!(Packet::from_bytes(1, bytes).is_none());
    bytes[0] = 35;
    assert!(Packet::from_bytes(1, bytes).is_none());
    bytes[0] = 34;
    bytes[2] = 9;
    let packet = Packet::from_bytes(3, bytes).unwrap();
    assert_eq!(packet.len(), 32);
    assert_eq!(packet.address(), 3);
    assert_eq!(packet.packet_type(), Err(9));
    assert!(!packet.is_type(PacketType::Data));
    bytes[0] = 2;
    assert_eq!(Packet::from_bytes(3, bytes).unwrap().len(), 0);
}

#[test]
fn packet_types_have_their_numbers() {
    assert_eq!(PacketType::Data.to_u8(), 0);
    assert_eq!(PacketType::Ack.to_u8(), 1);
    assert_eq!(PacketType::Advertise.to_u8(), 2);
    assert_eq!(PacketType::EstablishConnection.to_u8(), 3);
    assert_eq!(PacketType::try_from_primitive(3), Ok(PacketType::EstablishConnection));
    assert_eq!(PacketType::try_from_primitive(4), Err(4));
}

#[test]
fn default_addresses() {
    let addresses = Addresses::default();
    assert_eq!(addresses.base, [0x0A55_0A55, 0x0727_0727]);
    assert_eq!(addresses.prefix, [[0x42, 0x21, 0x25, 0], [0, 0, 0, 0]]);
}

#[test]
fn full_mailbox_drops_its_oldest_packet() {
    let mut mailbox = Mailbox::new();
    assert!(mailbox.take().is_none());
    for i in 0..5u8 {
        mailbox.post(packet(PacketType::Data, i, 0, &[i]));
    }
    mailbox.post(packet(PacketType::Data, 5, 0, &[5]));
    mailbox.post(packet(PacketType::Data, 6, 0, &[6]));
    assert_eq!(drain(&mut mailbox), vec![vec![2], vec![3], vec![4], vec![5], vec![6]]);
    assert!(mailbox.take().is_none());
}

#[test]
fn mailbox_hands_out_in_order() {
    let mut mailbox = Mailbox::new();
    mailbox.post(packet(PacketType::Data, 1, 0, &[1]));
    mailbox.post(packet(PacketType::Data, 2, 0, &[2, 2]));
    assert_eq!(mailbox.take().unwrap().as_slice(), &[1]);
    mailbox.post(packet(PacketType::Data, 3, 0, &[3]));
    assert_eq!(drain(&mut mailbox), vec![vec![2, 2], vec![3]]);
}

#[test]
fn retries_end_after_three_attempts() {
    assert_eq!(after_attempt(0, true), SendStep::Acked);
    assert_eq!(after_attempt(0, false), SendStep::Resend);
    assert_eq!(after_attempt(1, false), SendStep::Resend);
    assert_eq!(after_attempt(2, false), SendStep::GaveUp);
    assert_eq!(after_attempt(2, true), SendStep::Acked);
}

fn connected_central(inbox: &mut Mailbox) -> CentralConnection {
    let mut central = CentralConnection::default();
    let adv = packet(PacketType::Advertise, 0, 1, &[]);
    assert!(central.accepts(&adv));
    let reply = central.handle_listen(Some(adv), inbox).unwrap();
    assert_eq!(reply.packet_type(), Ok(PacketType::EstablishConnection));
    assert_eq!(reply.id(), 1);
    assert!(reply.is_empty());
    central
}

#[test]
fn central_waits_for_an_advertisement() {
    let mut inbox = Mailbox::new();
    let mut central = CentralConnection::default();
    assert_eq!(central.state, ConnectionState::Advertisement);
    assert_eq!(central.listen_timeout(), RECEIVE_TIMEOUT_US);
    assert!(!central.accepts(&packet(PacketType::Data, 0, 1, &[])));
    assert!(central.handle_listen(None, &mut inbox).is_none());
    assert_eq!(central, CentralConnection::default());
    let central = connected_central(&mut inbox);
    assert_eq!(
        central,
        CentralConnection {
            state: ConnectionState::ConnectedReceive,
            num_events: 0,
            num_miss_events: 0,
            addr: 1,
            rx_id: 0,
            tx_id: 0,
        }
    );
    assert!(inbox.take().is_none());
}

#[test]
fn central_takes_data_from_its_peripheral_only() {
    let mut inbox = Mailbox::new();
    let central = connected_central(&mut inbox);
    assert!(central.accepts(&packet(PacketType::Data, 9, 1, &[1])));
    assert!(!central.accepts(&packet(PacketType::Data, 9, 2, &[1])));
    assert!(!central.accepts(&packet(PacketType::Ack, 9, 1, &[1])));
    assert!(!central.accepts(&packet(PacketType::Advertise, 9, 1, &[])));
}

#[test]
fn retransmitted_data_is_acked_twice_and_delivered_once() {
    let mut inbox = Mailbox::new();
    let mut central = connected_central(&mut inbox);
    let data = packet(PacketType::Data, 7, 1, &[0xAB, 0xCD]);
    let ack = central.handle_listen(Some(data), &mut inbox).unwrap();
    assert_eq!(ack.packet_type(), Ok(PacketType::Ack));
    assert_eq!(ack.id(), 7);
    assert_eq!(ack.as_slice(), &[1]);
    assert_eq!(central.rx_id, 7);
    // The acknowledgement was lost and the packet comes again.
    assert!(central.accepts(&data));
    let ack = central.handle_listen(Some(data), &mut inbox).unwrap();
    assert_eq!(ack.packet_type(), Ok(PacketType::Ack));
    assert_eq!(ack.id(), 7);
    assert_eq!(ack.as_slice(), &[1]);
    assert_eq!(drain(&mut inbox), vec![vec![0xAB, 0xCD]]);
    // The next packet has another id and is delivered.
    let next = packet(PacketType::Data, 8, 1, &[0xEF]);
    central.handle_listen(Some(next), &mut inbox).unwrap();
    assert_eq!(drain(&mut inbox), vec![vec![0xEF]]);
    assert_eq!(central.num_events, 3);
}

#[test]
fn central_sends_after_five_hundred_receive_slots() {
    let mut inbox = Mailbox::new();
    let mut central = connected_central(&mut inbox);
    for _ in 0..MAX_CONNECTION_EVENTS - 1 {
        assert!(central.handle_listen(None, &mut inbox).is_none());
    }
    assert_eq!(central.state, ConnectionState::ConnectedReceive);
    assert_eq!(central.num_events, 499);
    central.handle_listen(None, &mut inbox);
    assert_eq!(central.state, ConnectionState::ConnectedSend);
    assert_eq!(central.num_events, 0);
    assert_eq!(central.listen_timeout(), ACK_TIMEOUT_US);
    // Nothing was sent yet: the id of what was sent last is 0.
    assert!(central.accepts(&packet(PacketType::Ack, 0, 1, &[])));
    assert!(!central.accepts(&packet(PacketType::Ack, 0, 2, &[])));
    assert!(!central.accepts(&packet(PacketType::Ack, 1, 1, &[])));
    assert!(!central.accepts(&packet(PacketType::Data, 0, 1, &[])));
}

fn sending_central() -> CentralConnection {
    CentralConnection {
        state: ConnectionState::ConnectedSend,
        num_events: 0,
        num_miss_events: 0,
        addr: 1,
        rx_id: 0,
        tx_id: 0,
    }
}

#[test]
fn central_sends_what_waits_or_a_keep_alive() {
    let mut central = sending_central();
    central.addr = 3;
    central.tx_id = 253;
    let mut outbox = Mailbox::new();
    let keep_alive = central.next_outbound(&mut outbox);
    assert_eq!(keep_alive.packet_type(), Ok(PacketType::Data));
    assert_eq!(keep_alive.id(), 254);
    assert!(keep_alive.is_empty());
    assert_eq!(central.tx_id, 254);
    outbox.post(packet(PacketType::Advertise, 9, 0, &[5, 6]));
    outbox.post(packet(PacketType::Advertise, 9, 0, &[7]));
    let queued = central.next_outbound(&mut outbox);
    assert_eq!(queued.packet_type(), Ok(PacketType::Data));
    assert_eq!(queued.id(), 255);
    assert_eq!(queued.as_slice(), &[5, 6]);
    // Only the acknowledgement of this packet counts.
    assert!(central.accepts(&packet(PacketType::Ack, 255, 3, &[])));
    assert!(central.accepts_ack(&packet(PacketType::Ack, 255, 3, &[])));
    assert!(!central.accepts(&packet(PacketType::Ack, 254, 3, &[])));
    assert!(!central.accepts_ack(&packet(PacketType::Ack, 255, 1, &[])));
    // The ids start over after 255.
    let last = central.next_outbound(&mut outbox);
    assert_eq!(last.id(), 0);
    assert_eq!(last.as_slice(), &[7]);
    assert_eq!(central.tx_id, 0);
    assert!(drain(&mut outbox).is_empty());
    assert_eq!(central.addr, 3);
    assert_eq!(central.state, ConnectionState::ConnectedSend);
}

#[test]
fn central_starts_its_ids_anew_with_a_connection() {
    let mut inbox = Mailbox::new();
    let mut central = CentralConnection::default();
    central.rx_id = 7;
    central.tx_id = 9;
    central.handle_listen(Some(packet(PacketType::Advertise, 0, 2, &[])), &mut inbox);
    assert_eq!(central.rx_id, 0);
    assert_eq!(central.tx_id, 0);
    assert_eq!(central.addr, 2);
}

#[test]
fn central_gives_up_after_five_missed_sends() {
    let mut central = sending_central();
    for missed in 1..5 {
        central.handle_send(false);
        assert_eq!(central.state, ConnectionState::ConnectedReceive);
        assert_eq!(central.num_miss_events, missed);
        central.state = ConnectionState::ConnectedSend;
    }
    central.handle_send(false);
    assert_eq!(central.state, ConnectionState::Advertisement);
    assert_eq!(central.num_miss_events, 5);
    let mut central = sending_central();
    central.num_miss_events = 4;
    central.handle_send(true);
    assert_eq!(central.state, ConnectionState::ConnectedReceive);
    assert_eq!(central.num_miss_events, 0);
}

#[test]
fn peripheral_connects_on_the_reply_to_its_own_address() {
    let mut peripheral = PeripheralConnection::new(100);
    let adv = PeripheralConnection::advertise_packet();
    assert_eq!(adv.packet_type(), Ok(PacketType::Advertise));
    assert!(adv.is_empty());
    assert!(peripheral.accepts(&packet(PacketType::EstablishConnection, 1, 0, &[]), 1));
    assert!(!peripheral.accepts(&packet(PacketType::EstablishConnection, 2, 0, &[]), 1));
    assert!(!peripheral.accepts(&packet(PacketType::Data, 1, 0, &[]), 1));
    peripheral.handle_advertise(false, 150);
    assert_eq!(peripheral, PeripheralConnection::new(100));
    peripheral.tx_id = 9;
    peripheral.rx_id = 4;
    peripheral.num_missed_events = 5;
    peripheral.handle_advertise(true, 200);
    assert_eq!(
        peripheral,
        PeripheralConnection {
            state: ConnectionState::ConnectedSend,
            tx_id: 0,
            rx_id: 0,
            num_missed_events: 0,
            prev_recv_time: 200,
        }
    );
}

fn receiving_peripheral() -> PeripheralConnection {
    PeripheralConnection {
        state: ConnectionState::ConnectedReceive,
        tx_id: 0,
        rx_id: 0,
        num_missed_events: 0,
        prev_recv_time: 1000,
    }
}

#[test]
fn peripheral_acks_data_and_delivers_what_has_a_payload() {
    let mut inbox = Mailbox::new();
    let mut peripheral = receiving_peripheral();
    peripheral.num_missed_events = 3;
    assert!(peripheral.accepts(&packet(PacketType::Data, 5, 0, &[1]), 1));
    assert!(peripheral.accepts(&packet(PacketType::Data, 1, 0, &[1]), 1));
    assert!(!peripheral.accepts(&packet(PacketType::Ack, 5, 0, &[1]), 1));
    let ack = peripheral
        .handle_listen(Some(packet(PacketType::Data, 5, 0, &[1, 2])), 2000, &mut inbox)
        .unwrap();
    assert_eq!(ack.packet_type(), Ok(PacketType::Ack));
    assert_eq!(ack.id(), 5);
    assert!(ack.is_empty());
    assert_eq!(peripheral.prev_recv_time, 2000);
    assert_eq!(peripheral.num_missed_events, 0);
    assert_eq!(peripheral.rx_id, 5);
    assert_eq!(peripheral.state, ConnectionState::ConnectedReceive);
    // A keep-alive is acknowledged and not delivered.
    let ack = peripheral
        .handle_listen(Some(packet(PacketType::Data, 6, 0, &[])), 3000, &mut inbox)
        .unwrap();
    assert_eq!(ack.id(), 6);
    assert_eq!(peripheral.rx_id, 6);
    assert_eq!(drain(&mut inbox), vec![vec![1, 2]]);
}

#[test]
fn peripheral_acks_a_retransmission_and_delivers_it_once() {
    let mut inbox = Mailbox::new();
    let mut peripheral = receiving_peripheral();
    let data = packet(PacketType::Data, 9, 0, &[0xAB, 0xCD]);
    let ack = peripheral.handle_listen(Some(data), 2000, &mut inbox).unwrap();
    assert_eq!(ack.packet_type(), Ok(PacketType::Ack));
    assert_eq!(ack.id(), 9);
    // The acknowledgement was lost and the packet comes again.
    assert!(peripheral.accepts(&data, 1));
    let ack = peripheral.handle_listen(Some(data), 2600, &mut inbox).unwrap();
    assert_eq!(ack.packet_type(), Ok(PacketType::Ack));
    assert_eq!(ack.id(), 9);
    assert_eq!(peripheral.prev_recv_time, 2600);
    assert_eq!(peripheral.rx_id, 9);
    assert_eq!(drain(&mut inbox), vec![vec![0xAB, 0xCD]]);
    // The packet after it has the next id and is delivered, with the same
    // payload or another.
    let next = packet(PacketType::Data, 10, 0, &[0xAB, 0xCD]);
    peripheral.handle_listen(Some(next), 3000, &mut inbox).unwrap();
    assert_eq!(drain(&mut inbox), vec![vec![0xAB, 0xCD]]);
}

#[test]
fn what_the_central_sends_reaches_the_peripheral_once() {
    let mut outbox = Mailbox::new();
    let mut inbox = Mailbox::new();
    let mut central = sending_central();
    let mut peripheral = receiving_peripheral();
    outbox.post(packet(PacketType::Data, 0, 0, &[1]));
    outbox.post(packet(PacketType::Data, 0, 0, &[2]));
    let first = central.next_outbound(&mut outbox);
    // Sent three times before an acknowledgement gets through.
    for now in [2000u64, 2200, 2400] {
        assert!(peripheral.accepts(&first, 1));
        let mut ack = peripheral.handle_listen(Some(first), now, &mut inbox).unwrap();
        ack.set_address(central.addr);
        assert!(central.accepts_ack(&ack));
    }
    let second = central.next_outbound(&mut outbox);
    let mut ack = peripheral.handle_listen(Some(second), 3000, &mut inbox).unwrap();
    ack.set_address(central.addr);
    assert!(central.accepts_ack(&ack));
    let keep_alive = central.next_outbound(&mut outbox);
    assert!(keep_alive.is_empty());
    peripheral.handle_listen(Some(keep_alive), 4000, &mut inbox).unwrap();
    assert_eq!(drain(&mut inbox), vec![vec![1], vec![2]]);
}

#[test]
fn peripheral_sends_after_a_missed_phase_and_advertises_after_five() {
    let mut inbox = Mailbox::new();
    let mut peripheral = receiving_peripheral();
    for missed in 1..=5u32 {
        assert!(peripheral.handle_listen(None, 0, &mut inbox).is_none());
        assert_eq!(peripheral.state, ConnectionState::ConnectedSend);
        assert_eq!(peripheral.num_missed_events, missed);
        assert_eq!(peripheral.prev_recv_time, 1000 + 500_000 * missed as u64);
        let window = peripheral.begin_send();
        assert_eq!(peripheral.state, ConnectionState::ConnectedReceive);
        assert_eq!(
            window,
            SendWindow {
                guard_at: peripheral.prev_recv_time + 499_000,
                switch_at: peripheral.prev_recv_time + 500_000,
            }
        );
    }
    peripheral.handle_listen(None, 0, &mut inbox);
    assert_eq!(peripheral.state, ConnectionState::Advertisement);
    assert_eq!(peripheral.num_missed_events, 5);
}

#[test]
fn next_time_period_is_the_next_round() {
    assert_eq!(get_next_time_period(1000, 1000), 2000);
    assert_eq!(get_next_time_period(1000, 1999), 2000);
    assert_eq!(get_next_time_period(1000, 2000), 3000);
    assert_eq!(get_next_time_period(1000, 123_456), 124_000);
    assert_eq!(get_next_time_period(0, 0), 1000);
}

#[test]
fn peripheral_plans_a_send_within_its_window() {
    let mut outbox = Mailbox::new();
    let mut peripheral = PeripheralConnection {
        state: ConnectionState::ConnectedSend,
        tx_id: 255,
        rx_id: 0,
        num_missed_events: 2,
        prev_recv_time: 1000,
    };
    let window = peripheral.begin_send();
    assert!(peripheral.plan_send(window, 1500, &mut outbox).is_none());
    outbox.post(packet(PacketType::Advertise, 77, 0, &[4, 2]));
    outbox.post(packet(PacketType::Advertise, 77, 0, &[4, 3]));
    let (planned, at) = peripheral.plan_send(window, 1500, &mut outbox).unwrap();
    assert_eq!(at, 2000);
    assert_eq!(planned.packet_type(), Ok(PacketType::Data));
    assert_eq!(planned.id(), 0);
    assert_eq!(planned.as_slice(), &[4, 2]);
    assert_eq!(peripheral.tx_id, 0);
    // The acknowledgement has to carry the id and the own address.
    peripheral.state = ConnectionState::ConnectedSend;
    assert!(peripheral.accepts(&packet(PacketType::Ack, 0, 0, &[1]), 1));
    assert!(!peripheral.accepts(&packet(PacketType::Ack, 1, 0, &[1]), 1));
    assert!(!peripheral.accepts(&packet(PacketType::Ack, 0, 0, &[2]), 1));
    assert!(!peripheral.accepts(&packet(PacketType::Ack, 0, 0, &[]), 1));
    peripheral.handle_send(false);
    assert_eq!(peripheral.num_missed_events, 2);
    peripheral.handle_send(true);
    assert_eq!(peripheral.num_missed_events, 0);
    // In the last round of the window nothing is sent.
    assert!(peripheral.plan_send(window, 499_000, &mut outbox).is_none());
    assert!(peripheral.plan_send(window, 498_999, &mut outbox).is_some());
    assert_eq!(peripheral.tx_id, 1);
    assert_eq!(peripheral.get_next_tx_id(), 2);
}

#[test]
fn pulse_link_counts_misses_over_the_connection() {
    let mut link = PulseLink::new(5);
    assert_eq!(link.state, PulseState::Scanning);
    assert!(link.central_scan(&packet(PacketType::Data, 0, 0, &[]), 10).is_none());
    assert_eq!(link.state, PulseState::Scanning);
    let reply = link.central_scan(&packet(PacketType::Advertise, 0, 0, &[]), 20).unwrap();
    assert_eq!(reply.packet_type(), Ok(PacketType::EstablishConnection));
    assert_eq!(link, PulseLink { state: PulseState::Connected, last_time: 20, missed: 0 });
    assert_eq!(link.begin_pulse(), 1_000_020);
    assert_eq!(link.last_time, 1_000_020);
    for missed in 1..10 {
        assert!(link.end_pulse(true));
        assert!(link.end_pulse(false));
        assert_eq!(link.missed, missed);
    }
    assert!(!link.end_pulse(false));
    assert_eq!(link.state, PulseState::Scanning);
    link.peripheral_scan(false, 30);
    assert_eq!(link.state, PulseState::Scanning);
    link.peripheral_scan(true, 40);
    assert_eq!(link, PulseLink { state: PulseState::Connected, last_time: 40, missed: 0 });
    assert_eq!(PulseLink::pulse_packet(PacketType::Ack).packet_type(), Ok(PacketType::Ack));
    assert_eq!(PulseLink::advertise_packet().packet_type(), Ok(PacketType::Advertise));
}

#[test]
fn radio_ids_are_kept_per_address() {
    let mut radio = Radio::new();
    let mut first = packet(PacketType::Data, 7, 0, &[1]);
    let (ack, new) = radio.receive(&mut first, 3);
    assert!(new);
    assert_eq!(ack.id(), 7);
    assert_eq!(ack.packet_type(), Ok(PacketType::Ack));
    assert_eq!(ack.len(), 1);
    assert_eq!(first.address(), 3);
    let mut again = packet(PacketType::Data, 7, 0, &[1]);
    let (ack, new) = radio.receive(&mut again, 3);
    assert!(!new);
    assert_eq!(ack.id(), 7);
    // The same id from another address is new.
    let mut other = packet(PacketType::Data, 7, 0, &[1]);
    assert!(radio.receive(&mut other, 4).1);
    assert_eq!(radio.rx_id, [0, 0, 0, 7, 7, 0, 0, 0]);
}

#[test]
fn radio_numbers_what_it_sends() {
    let mut radio = Radio::new();
    radio.tx_id = 254;
    let mut data = packet(PacketType::Ack, 0, 0, &[9]);
    radio.send(&mut data);
    assert_eq!(data.id(), 255);
    assert_eq!(data.packet_type(), Ok(PacketType::Data));
    assert_eq!(data.as_slice(), &[9]);
    radio.send(&mut data);
    assert_eq!(data.id(), 0);
    assert!(Radio::send_again(0, false));
    assert!(Radio::send_again(8, false));
    assert!(!Radio::send_again(9, false));
    assert!(!Radio::send_again(0, true));
    radio.tx_addreses = 2;
    assert!(radio.await_ack(&packet(PacketType::Ack, 0, 0, &[2]), 0));
    assert!(!radio.await_ack(&packet(PacketType::Ack, 0, 0, &[3]), 0));
    assert!(!radio.await_ack(&packet(PacketType::Ack, 1, 0, &[2]), 0));
    assert!(!radio.await_ack(&packet(PacketType::Data, 0, 0, &[2]), 0));
}

#[test]
fn advertisement_is_an_empty_packet_of_its_type() {
    let mut expected = [2u8; 35];
    expected[2] = PacketType::Advertise.to_u8();
    let adv = PeripheralConnection::advertise_packet();
    assert_eq!(adv.to_bytes(), expected);
    assert_eq!(adv.address(), 0);
    assert_eq!(adv.as_slice(), &[] as &[u8]);
    let adv = PulseLink::advertise_packet();
    assert_eq!(adv.to_bytes(), expected);
    assert_eq!(adv.address(), 0);
    assert_eq!(adv.len(), 0);
}
