use key_lib::codes::{ScanCodeBehavior, SerializationError};
use key_lib::code_set::new_code_set;
use key_lib::com::{
    cell_bytes_wanted, key_source, keyboard_meta_info, upload_fallback, ContiniousReader,
    ContiniousWriter, KeySource, FALLBACK_PROFILE,
};
use key_lib::indicator::{config_color, Color, IndicatorOutput, IndicatorState};
use key_lib::key_config::{keymap_entry, set_keys};
use key_lib::keys::{ConfigIndicator, Indicate, Keys};
use key_lib::matrix::{find_order, Debouncer, Matrix};
use key_lib::position::DefaultSwitch;
use key_lib::scan_codes::KeyCodes;
use key_lib::sensors::{
    mux_step, select_level, unpack_half, DongleSensors, HallEffectSensors, KeySensors,
    MasterSensors,
};
use key_lib::slave_com::{
    slave_key_pressed, slave_state_from_buffer, HidRequest, HidResponse, SlaveState,
};
use key_lib::storage::{storage_init_action, StorageCheck, StorageInit, StorageKey};

struct Silent;

impl ConfigIndicator for Silent {
    fn indicate_config(&self, _config_num: Indicate) {}
}

#[test]
fn storage_keys_follow_the_formula() {
    assert_eq!(StorageKey::StorageCheck.to_key(), 0);
    assert_eq!(StorageKey::KeyScanCode { config_num: 0, layer: 0 }.to_key(), 100);
    assert_eq!(StorageKey::KeyScanCode { config_num: 0, layer: 5 }.to_key(), 105);
    assert_eq!(StorageKey::KeyScanCode { config_num: 1, layer: 0 }.to_key(), 106);
    assert_eq!(StorageKey::KeyScanCode { config_num: 2, layer: 3 }.to_key(), 115);
}

#[test]
fn storage_keys_that_do_not_fit_are_told_apart() {
    assert_eq!(StorageKey::StorageCheck.checked_to_key(), Some(0));
    assert_eq!(StorageKey::KeyScanCode { config_num: 2, layer: 3 }.checked_to_key(), Some(115));
    assert_eq!(
        StorageKey::KeyScanCode { config_num: 10905, layer: 5 }.checked_to_key(),
        Some(65535)
    );
    assert_eq!(StorageKey::KeyScanCode { config_num: 10906, layer: 0 }.checked_to_key(), None);
    assert_eq!(StorageKey::KeyScanCode { config_num: 0, layer: 65435 }.checked_to_key(), Some(65535));
    assert_eq!(StorageKey::KeyScanCode { config_num: 0, layer: 65436 }.checked_to_key(), None);
    assert_eq!(
        StorageKey::KeyScanCode { config_num: usize::MAX, layer: usize::MAX }.checked_to_key(),
        None
    );
}

#[test]
fn storage_keys_do_not_collide() {
    let mut seen = std::collections::HashSet::new();
    seen.insert(StorageKey::StorageCheck.to_key());
    for config_num in 0..3 {
        for layer in 0..6 {
            assert!(seen.insert(StorageKey::KeyScanCode { config_num, layer }.to_key()));
        }
    }
    assert_eq!(seen.len(), 19);
}

#[test]
fn store_is_erased_unless_it_is_marked() {
    assert_eq!(storage_init_action(StorageCheck::Found(0x69)), StorageInit::Keep);
    assert_eq!(storage_init_action(StorageCheck::Found(0x68)), StorageInit::EraseAndMark);
    assert_eq!(storage_init_action(StorageCheck::Found(0xFFFF_FFFF)), StorageInit::EraseAndMark);
    assert_eq!(storage_init_action(StorageCheck::Missing), StorageInit::EraseAndMark);
    assert_eq!(storage_init_action(StorageCheck::Unreadable), StorageInit::Keep);
}

#[test]
fn slave_state_packs_one_bit_per_key() {
    let mut state = <u32 as SlaveState>::default_state();
    assert_eq!(state, 0);
    state.update_state(0, true);
    state.update_state(17, true);
    state.update_state(31, true);
    assert_eq!(state, 0x8002_0001);
    state.update_state(17, false);
    state.update_state(5, false);
    assert_eq!(state, 0x8000_0001);
    assert!(slave_key_pressed(state, 0));
    assert!(!slave_key_pressed(state, 17));
    assert!(slave_key_pressed(state, 31));
    assert!(state.differs(&0));
    assert!(!state.differs(&0x8000_0001));
}

#[test]
fn slave_state_travels_low_byte_first() {
    let mut buf = [0xEEu8; 6];
    0x1234_5678u32.into_buffer(&mut buf);
    assert_eq!(buf, [0x78, 0x56, 0x34, 0x12, 0xEE, 0xEE]);
    assert_eq!(slave_state_from_buffer(&buf), 0x1234_5678);
    assert_eq!(slave_state_from_buffer(&[1, 0, 0, 0x80]), 0x8000_0001);
}

#[test]
fn link_requests_round_trip() {
    let mut buf = [9u8; 4];
    assert_eq!(HidRequest::ConfigIndicate(2).send_request(&mut buf), 2);
    assert_eq!(buf, [0, 2, 9, 9]);
    assert_eq!(HidRequest::get_request(&buf), Some(HidRequest::ConfigIndicate(2)));
    assert_eq!(HidRequest::HallEffectReading(17).send_request(&mut buf), 2);
    assert_eq!(buf, [1, 17, 9, 9]);
    assert_eq!(HidRequest::get_request(&buf), Some(HidRequest::HallEffectReading(17)));
    assert_eq!(HidRequest::get_request(&[2, 0]), None);
    assert_eq!(HidRequest::get_request(&[200]), None);
    assert_eq!(HidRequest::ConfigIndicate(0).index(), 0);
    assert_eq!(HidRequest::HallEffectReading(0).index(), 1);
}

#[test]
fn link_responses_round_trip() {
    let mut buf = [9u8; 4];
    assert_eq!(HidResponse::HallEffectReading(0x1234).send_response(&mut buf), 3);
    assert_eq!(buf, [1, 0x34, 0x12, 9]);
    assert_eq!(HidResponse::get_response(&buf), Some(HidResponse::HallEffectReading(0x1234)));
    assert_eq!(HidResponse::get_response(&[0, 1, 2]), None);
    assert_eq!(HidResponse::get_response(&[2]), None);
    assert_eq!(HidResponse::HallEffectReading(0).index(), 1);
}

#[test]
fn writer_cuts_the_stream_into_frames() {
    let mut writer = ContiniousWriter::new();
    let mut frames = Vec::new();
    let first: Vec<u8> = (0..20).collect();
    writer.write(&first, &mut frames);
    assert!(frames.is_empty());
    let second: Vec<u8> = (20..70).collect();
    writer.write(&second, &mut frames);
    assert_eq!(frames.len(), 2);
    let all: Vec<u8> = (0..64).collect();
    assert_eq!(frames.concat(), all);
    writer.flush(&mut frames);
    assert_eq!(frames.len(), 3);
    let mut last = [0u8; 32];
    last[..6].copy_from_slice(&[64, 65, 66, 67, 68, 69]);
    assert_eq!(frames[2], last);
    writer.flush(&mut frames);
    assert_eq!(frames.len(), 3);
    writer.write(&[1u8; 32], &mut frames);
    assert_eq!(frames.len(), 4);
    writer.flush(&mut frames);
    assert_eq!(frames.len(), 4);
}

#[test]
fn reader_hands_out_bytes_across_frames() {
    let mut reader = ContiniousReader::new();
    assert!(reader.needs_frame());
    let mut frame = [0u8; 32];
    for (i, b) in frame.iter_mut().enumerate() {
        *b = i as u8;
    }
    reader.feed(frame, 32);
    assert!(!reader.needs_frame());
    assert_eq!(reader.pop(), 0);
    assert_eq!(reader.pop(), 1);
    let mut buf = [0xFFu8; 40];
    let filled = reader.pop_slice(&mut buf, 0);
    assert_eq!(filled, 30);
    assert!(reader.needs_frame());
    assert_eq!(reader.pop_slice(&mut buf, filled), 30);
    reader.feed(frame, 16);
    let filled = reader.pop_slice(&mut buf, filled);
    assert_eq!(filled, 40);
    let mut expected: Vec<u8> = (2..32).collect();
    expected.extend(0..10);
    assert_eq!(buf.to_vec(), expected);
    assert_eq!(reader.pop(), 10);
    reader.flush();
    assert!(reader.needs_frame());
}

#[test]
fn reader_fills_a_part_of_the_buffer() {
    let mut reader = ContiniousReader::new();
    reader.feed([7u8; 32], 32);
    let mut buf = [0u8; 5];
    assert_eq!(reader.pop_slice(&mut buf, 2), 5);
    assert_eq!(buf, [0, 0, 7, 7, 7]);
    assert_eq!(reader.pop_slice(&mut buf, 5), 5);
}

#[test]
fn host_requests_are_read_from_bytes() {
    assert_eq!(key_lib::com::HidRequest::from_u8(0), Some(key_lib::com::HidRequest::UpdateKeys));
    assert_eq!(key_lib::com::HidRequest::from_u8(1), Some(key_lib::com::HidRequest::KeyboardInfo));
    assert_eq!(key_lib::com::HidRequest::from_u8(2), Some(key_lib::com::HidRequest::WriteToFlash));
    assert_eq!(key_lib::com::HidRequest::from_u8(3), Some(key_lib::com::HidRequest::KeyboardMetaInfo));
    assert_eq!(key_lib::com::HidRequest::from_u8(4), None);
    assert_eq!(keyboard_meta_info(), [3, 36, 6, 1]);
    assert_eq!(keyboard_meta_info()[3] as usize, key_lib::IS_SPLIT);
}

#[test]
fn host_protocol_decisions() {
    assert_eq!(FALLBACK_PROFILE, 0);
    assert_eq!(upload_fallback(Ok(())), None);
    assert_eq!(upload_fallback(Err(SerializationError::InvalidFormat)), Some(0));
    assert_eq!(upload_fallback(Err(SerializationError::BufferTooSmall)), Some(0));
    assert_eq!(key_source(2, 2), KeySource::Live);
    assert_eq!(key_source(2, 0), KeySource::Stored);
    assert_eq!(key_source(0, 1), KeySource::Stored);
}

#[test]
fn new_code_set_is_empty() {
    let set = new_code_set();
    assert!(set.is_empty());
    assert_eq!(set.capacity(), 64);
}

#[test]
fn cell_reading_asks_for_the_tag_then_the_payload() {
    assert_eq!(cell_bytes_wanted(&[]), Ok(1));
    assert_eq!(cell_bytes_wanted(&[0]), Ok(1));
    assert_eq!(cell_bytes_wanted(&[1]), Ok(2));
    assert_eq!(cell_bytes_wanted(&[2]), Ok(3));
    assert_eq!(cell_bytes_wanted(&[3, 1]), Ok(2));
    assert_eq!(cell_bytes_wanted(&[4, 1]), Ok(0));
    assert_eq!(cell_bytes_wanted(&[4, 1, 1]), Ok(0));
    assert_eq!(cell_bytes_wanted(&[5]), Err(SerializationError::InvalidFormat));
}

#[test]
fn dongle_sensors_unpack_by_address() {
    let mut sensors = DongleSensors::new();
    assert!(sensors.take_readings().is_empty());
    sensors.deliver(1, 0b101);
    let readings = sensors.take_readings();
    assert_eq!(readings.len(), 18);
    assert_eq!(readings[0], (0, true));
    assert_eq!(readings[1], (1, false));
    assert_eq!(readings[2], (2, true));
    assert_eq!(readings[17], (17, false));
    assert!(sensors.take_readings().is_empty());
    sensors.deliver(2, 1 << 17);
    let readings = sensors.take_readings();
    assert_eq!(readings[0], (18, false));
    assert_eq!(readings[17], (35, true));
    sensors.deliver(3, 0xFFFF_FFFF);
    assert!(sensors.take_readings().is_empty());
    assert_eq!(unpack_half(18, 2)[1], (19, true));
}

#[test]
fn master_sensors_add_the_other_half() {
    let order: [usize; 18] = core::array::from_fn(|i| 17 - i);
    let mut sensors = MasterSensors::new(order);
    sensors.sensors.set_reading(0, 1500);
    let own = sensors.take_readings();
    assert_eq!(own.len(), 18);
    assert_eq!(own[0], (17, 1500));
    assert_eq!(own[17], (0, 0));
    sensors.slave_state = Some(0b10);
    let both = sensors.take_readings();
    assert_eq!(both.len(), 36);
    assert_eq!(both[18], (18, 0));
    assert_eq!(both[19], (19, 1));
    assert_eq!(sensors.slave_state, None);
    let mut plain = HallEffectSensors::new(order);
    plain.set_reading(3, 7);
    assert_eq!(plain.take_readings()[3], (14, 7));
}

#[test]
fn multiplexer_steps() {
    assert_eq!(mux_step(0, 4), (0, Some(0)));
    assert_eq!(mux_step(1, 4), (1, None));
    assert_eq!(mux_step(3, 4), (3, None));
    assert_eq!(mux_step(4, 4), (0, Some(1)));
    assert_eq!(mux_step(17, 4), (1, None));
    assert!(select_level(5, 0));
    assert!(!select_level(5, 1));
    assert!(select_level(5, 2));
}

#[test]
fn debouncer_waits_for_the_level_to_last() {
    let mut debouncer = Debouncer::default();
    debouncer.update_buf(true, 1000);
    assert!(!debouncer.is_pressed());
    assert_eq!(debouncer.debounced, Some(1000));
    debouncer.update_buf(true, 6000);
    assert!(!debouncer.is_pressed());
    debouncer.update_buf(true, 6001);
    assert!(debouncer.is_pressed());
    assert_eq!(debouncer.debounced, None);
    // A bounce: the level seen when the wait is over counts.
    debouncer.update_buf(false, 7000);
    debouncer.update_buf(true, 12_001);
    assert!(debouncer.is_pressed());
    debouncer.update_buf(true, 13_000);
    assert_eq!(debouncer.debounced, None);
}

#[test]
fn matrix_packs_the_contacts_that_have_a_key() {
    let mut matrix = Matrix::<2, 3>::new();
    let all = [[true; 3]; 2];
    matrix.update(&all, 0);
    assert_eq!(matrix.get_state(), 0);
    assert_eq!(matrix.pressed, Some(0));
    assert!(!matrix.may_sleep(4999));
    assert!(matrix.may_sleep(5000));
    matrix.update(&[[true, false, true], [false, true, true]], 5001);
    assert_eq!(matrix.get_state(), 0b110101);
    assert_eq!(matrix.pressed, None);
    assert!(!matrix.may_sleep(50_000));
    // Contacts 1 and 2 have no key: the others move down.
    matrix.disable_debouncer(1..3);
    assert_eq!(matrix.valid_input, [[true, false, false], [true, true, true]]);
    assert_eq!(matrix.get_state(), 0b1101);
    matrix.disable_debouncer(5..9);
    assert_eq!(matrix.valid_input, [[true, false, false], [true, true, false]]);
    assert_eq!(matrix.get_state(), 0b101);
}

#[test]
fn matrix_notes_when_the_last_key_went_up() {
    let mut matrix = Matrix::<1, 2>::new();
    matrix.update(&[[true, false]], 0);
    matrix.update(&[[true, false]], 5001);
    assert_eq!(matrix.pressed, None);
    matrix.update(&[[false, false]], 6000);
    matrix.update(&[[false, false]], 11_001);
    assert_eq!(matrix.get_state(), 0);
    assert_eq!(matrix.pressed, Some(11_001));
    matrix.update(&[[false, false]], 12_000);
    assert_eq!(matrix.pressed, Some(11_001));
}

#[test]
fn find_order_inverts_a_permutation() {
    let mut order = [2usize, 0, 3, 1];
    find_order(&mut order);
    assert_eq!(order, [1, 3, 0, 2]);
    let mut order = [1usize, 1, 5];
    find_order(&mut order);
    assert_eq!(order, [0, 1, 0]);
    let mut empty: [usize; 0] = [];
    find_order(&mut empty);
}

#[test]
fn built_in_key_map() {
    let mut keys = Keys::<DefaultSwitch, Silent>::default();
    keys.set_code(ScanCodeBehavior::ChangeConfig(1), 0, 5);
    keys.set_code(ScanCodeBehavior::ChangeConfig(2), 19, 1);
    set_keys(&mut keys);
    assert_eq!(keys.layer_storage(0).codes[0], ScanCodeBehavior::Single(KeyCodes::KeyboardQq));
    assert_eq!(
        keys.layer_storage(0).codes[16],
        ScanCodeBehavior::CombinedKey {
            other_index: 34,
            normal_code: KeyCodes::Layer1,
            combined_code: KeyCodes::Layer3,
        }
    );
    assert_eq!(
        keys.layer_storage(2).codes[2],
        ScanCodeBehavior::Double(KeyCodes::KeyboardLeftShift, KeyCodes::KeyboardOpenBracketBrace)
    );
    assert_eq!(keys.layer_storage(3).codes[35], ScanCodeBehavior::Single(KeyCodes::Layer5));
    // Cells that the map does not assign stay.
    assert_eq!(keys.layer_storage(1).codes[19], ScanCodeBehavior::ChangeConfig(2));
    assert_eq!(keys.layer_storage(5).codes[0], ScanCodeBehavior::ChangeConfig(1));
    assert_eq!(keys.layer_storage(4).codes[0], ScanCodeBehavior::Single(KeyCodes::Undefined));
    assert_eq!(keymap_entry(19, 1), None);
    assert_eq!(keymap_entry(36, 0), None);
    let mut assigned = 0;
    for layer in 0..6 {
        for index in 0..36 {
            if keymap_entry(index, layer).is_some() {
                assigned += 1;
            }
        }
    }
    assert_eq!(assigned, 140);
}

#[test]
fn indicator_shows_profiles_unless_the_host_sleeps() {
    let none = IndicatorOutput { color: None, forward: None };
    let mut state = IndicatorState::new();
    assert_eq!(
        state.handle(Indicate::Config(1)),
        IndicatorOutput { color: Some(Color { r: 0, g: 0, b: 10 }), forward: Some(1) }
    );
    assert_eq!(state.config_num, 1);
    // The first notice of sleep is passed over.
    assert_eq!(state.handle(Indicate::Disable), none);
    assert!(!state.suspended);
    assert_eq!(
        state.handle(Indicate::Disable),
        IndicatorOutput { color: Some(Color { r: 0, g: 0, b: 0 }), forward: None }
    );
    assert!(state.suspended);
    assert_eq!(state.handle(Indicate::Config(2)), none);
    assert_eq!(state.config_num, 2);
    assert_eq!(
        state.handle(Indicate::Enable),
        IndicatorOutput { color: Some(Color { r: 0, g: 10, b: 0 }), forward: None }
    );
    assert_eq!(
        state.handle(Indicate::Config(7)),
        IndicatorOutput { color: None, forward: Some(7) }
    );
    assert_eq!(config_color(0), Some(Color { r: 0, g: 10, b: 10 }));
    assert_eq!(config_color(3), None);
    assert_eq!(IndicatorState::suspend(true), Indicate::Disable);
    assert_eq!(IndicatorState::suspend(false), Indicate::Enable);
}
