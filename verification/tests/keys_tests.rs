use key_lib::codes::{ScanCodeBehavior, ScanCodeLayerStorage, SerializationError};
use key_lib::com::ContiniousWriter;
use key_lib::keys::{
    ConfigIndicator, Indicate, Keys, KeysOutcome, NoIndicator, PressResult, Settle, SettleOutcome,
    SlaveKeys, SETTLE_DELAY_MS, SETTLE_DELAY_US,
};
use key_lib::position::{DefaultSwitch, HeSwitch, KeyState, SlavePosition};
use key_lib::scan_codes::{KeyCodes, ReportCodes};
use key_lib::sensors::{DongleSensors, HallEffectSensors};
use key_lib::storage::{StorageItem, StorageKey};
use key_lib::{NUM_KEYS, NUM_LAYERS};
use std::cell::RefCell;
use std::rc::Rc;

#[derive(Clone)]
struct Recorder {
    seen: Rc<RefCell<Vec<Indicate>>>,
}

impl ConfigIndicator for Recorder {
    fn indicate_config(&self, config_num: Indicate) {
        self.seen.borrow_mut().push(config_num);
    }
}

type TestKeys = Keys<DefaultSwitch, Recorder>;

fn press(keys: &mut TestKeys, pressed: &[usize]) {
    let mut low = 0u32;
    let mut high = 0u32;
    for k in pressed {
        if *k < 18 {
            low |= 1 << k;
        } else {
            high |= 1 << (k - 18);
        }
    }
    let mut sensors = DongleSensors::new();
    sensors.deliver(1, low);
    keys.update_positions(&mut sensors);
    sensors.deliver(2, high);
    keys.update_positions(&mut sensors);
}

fn scan(keys: &mut TestKeys, layer: usize) -> (KeysOutcome, Vec<ReportCodes>) {
    let mut set = heapless::Vec::<ReportCodes, 64>::new();
    assert!(keys.can_scan(layer, &set));
    let outcome = keys.get_keys(layer, &mut set);
    (outcome, set.as_slice().to_vec())
}

fn layer_item(code: ScanCodeBehavior) -> Option<StorageItem> {
    Some(StorageItem::Key(ScanCodeLayerStorage { codes: [code; NUM_KEYS] }))
}

#[test]
fn single_key_on_base_layer() {
    let mut keys = TestKeys::default();
    keys.set_code(ScanCodeBehavior::Single(KeyCodes::KeyboardAa), 0, 0);
    press(&mut keys, &[0]);
    let (outcome, codes) = scan(&mut keys, 0);
    assert_eq!(outcome, KeysOutcome::Resolved);
    assert_eq!(codes, vec![ReportCodes::Letter(4)]);
    assert_eq!(keys.current_layer[0], Some(0));
    for i in 1..NUM_KEYS {
        assert_eq!(keys.current_layer[i], None);
    }
}

#[test]
fn change_config_clears_everything() {
    let mut keys = TestKeys::default();
    keys.set_code(ScanCodeBehavior::Single(KeyCodes::KeyboardAa), 2, 0);
    keys.set_code(ScanCodeBehavior::ChangeConfig(1), 5, 0);
    keys.set_code(ScanCodeBehavior::Single(KeyCodes::KeyboardBb), 7, 0);
    press(&mut keys, &[2]);
    let (_, codes) = scan(&mut keys, 0);
    assert_eq!(codes, vec![ReportCodes::Letter(4)]);
    assert_eq!(keys.current_layer[2], Some(0));

    press(&mut keys, &[2, 5, 7]);
    let (outcome, codes) = scan(&mut keys, 0);
    assert_eq!(outcome, KeysOutcome::ConfigChange { config_num: 1, settle_ms: 500 });
    assert_eq!(SETTLE_DELAY_MS, 500);
    assert!(codes.is_empty());
    for i in 0..NUM_KEYS {
        assert_eq!(keys.current_layer[i], None);
        assert!(!keys.get_pressed(i));
    }
    assert_eq!(keys.config_num, 0);

    // The caller loads the profile that was asked for.
    let stored: Vec<Option<StorageItem>> = (0..NUM_LAYERS)
        .map(|_| layer_item(ScanCodeBehavior::Single(KeyCodes::KeyboardCc)))
        .collect();
    assert_eq!(keys.load_keys_from_storage(1, &stored), Ok(()));
    assert_eq!(keys.config_num, 1);
    press(&mut keys, &[5]);
    let (outcome, codes) = scan(&mut keys, 0);
    assert_eq!(outcome, KeysOutcome::Resolved);
    assert_eq!(codes, vec![ReportCodes::Letter(6)]);
}

#[test]
fn change_config_that_is_not_pressed_does_nothing() {
    let mut keys = TestKeys::default();
    keys.set_code(ScanCodeBehavior::ChangeConfig(2), 5, 0);
    keys.set_code(ScanCodeBehavior::Single(KeyCodes::KeyboardBb), 7, 0);
    press(&mut keys, &[7]);
    let (outcome, codes) = scan(&mut keys, 0);
    assert_eq!(outcome, KeysOutcome::Resolved);
    assert_eq!(codes, vec![ReportCodes::Letter(5)]);
}

#[test]
fn double_and_triple_send_their_codes_in_order() {
    let mut keys = TestKeys::default();
    keys.set_code(
        ScanCodeBehavior::Double(KeyCodes::KeyboardLeftShift, KeyCodes::Keyboard1Exclamation),
        1,
        0,
    );
    keys.set_code(
        ScanCodeBehavior::Triple(
            KeyCodes::KeyboardLeftControl,
            KeyCodes::KeyboardLeftAlt,
            KeyCodes::KeyboardDelete,
        ),
        0,
        0,
    );
    press(&mut keys, &[0, 1]);
    let (_, codes) = scan(&mut keys, 0);
    assert_eq!(
        codes,
        vec![
            ReportCodes::Modifier(0xE0),
            ReportCodes::Modifier(0xE2),
            ReportCodes::Letter(0x4C),
            ReportCodes::Modifier(0xE1),
            ReportCodes::Letter(0x1E),
        ]
    );
}

fn combined(other_index: usize) -> ScanCodeBehavior {
    ScanCodeBehavior::CombinedKey {
        other_index,
        normal_code: KeyCodes::Layer1,
        combined_code: KeyCodes::Layer3,
    }
}

#[test]
fn combined_key_alone_sends_marker_and_normal_code() {
    let mut keys = TestKeys::default();
    keys.set_code(combined(3), 10, 0);
    press(&mut keys, &[10]);
    let (_, codes) = scan(&mut keys, 0);
    assert_eq!(codes, vec![ReportCodes::Sticky, ReportCodes::Layer(1)]);
}

#[test]
fn combined_key_sees_partner_with_lower_index() {
    let mut keys = TestKeys::default();
    keys.set_code(combined(3), 10, 0);
    keys.set_code(ScanCodeBehavior::Single(KeyCodes::KeyboardAa), 3, 0);
    press(&mut keys, &[3, 10]);
    let (_, codes) = scan(&mut keys, 0);
    assert_eq!(
        codes,
        vec![ReportCodes::Letter(4), ReportCodes::Sticky, ReportCodes::Layer(3)]
    );
}

#[test]
fn combined_key_sees_a_later_partner_one_scan_late() {
    let mut keys = TestKeys::default();
    keys.set_code(combined(30), 10, 0);
    keys.set_code(ScanCodeBehavior::Single(KeyCodes::KeyboardAa), 30, 0);
    press(&mut keys, &[10]);
    let (_, codes) = scan(&mut keys, 0);
    assert_eq!(codes, vec![ReportCodes::Sticky, ReportCodes::Layer(1)]);
    // The partner goes down: the scan before did not find it pressed.
    press(&mut keys, &[10, 30]);
    let (_, codes) = scan(&mut keys, 0);
    assert_eq!(
        codes,
        vec![ReportCodes::Sticky, ReportCodes::Layer(1), ReportCodes::Letter(4)]
    );
    // Now the scan before found it pressed.
    let (_, codes) = scan(&mut keys, 0);
    assert_eq!(
        codes,
        vec![ReportCodes::Sticky, ReportCodes::Layer(3), ReportCodes::Letter(4)]
    );
    // The partner goes up: the scan before still found it pressed.
    press(&mut keys, &[10]);
    let (_, codes) = scan(&mut keys, 0);
    assert_eq!(codes, vec![ReportCodes::Sticky, ReportCodes::Layer(3)]);
    let (_, codes) = scan(&mut keys, 0);
    assert_eq!(codes, vec![ReportCodes::Sticky, ReportCodes::Layer(1)]);
}

#[test]
fn combined_key_after_its_later_partner_was_released() {
    let mut keys = TestKeys::default();
    keys.set_code(
        ScanCodeBehavior::CombinedKey {
            other_index: 1,
            normal_code: KeyCodes::KeyboardAa,
            combined_code: KeyCodes::KeyboardBb,
        },
        0,
        0,
    );
    press(&mut keys, &[1]);
    let (_, codes) = scan(&mut keys, 0);
    assert_eq!(codes, vec![ReportCodes::Letter(0)]);
    press(&mut keys, &[0]);
    let (_, codes) = scan(&mut keys, 0);
    assert_eq!(codes, vec![ReportCodes::Sticky, ReportCodes::Letter(5)]);
    let (_, codes) = scan(&mut keys, 0);
    assert_eq!(codes, vec![ReportCodes::Sticky, ReportCodes::Letter(4)]);
}

#[test]
fn combined_key_sees_an_earlier_partner_in_the_same_scan() {
    let mut keys = TestKeys::default();
    keys.set_code(combined(3), 10, 0);
    press(&mut keys, &[10]);
    let (_, codes) = scan(&mut keys, 0);
    assert_eq!(codes, vec![ReportCodes::Sticky, ReportCodes::Layer(1)]);
    press(&mut keys, &[3, 10]);
    let (_, codes) = scan(&mut keys, 0);
    assert_eq!(
        codes,
        vec![ReportCodes::Letter(0), ReportCodes::Sticky, ReportCodes::Layer(3)]
    );
    // Released in this scan, though the scan before found it pressed.
    press(&mut keys, &[10]);
    let (_, codes) = scan(&mut keys, 0);
    assert_eq!(codes, vec![ReportCodes::Sticky, ReportCodes::Layer(1)]);
}

#[test]
fn combined_key_that_names_itself_is_its_own_pressed_partner() {
    let mut keys = TestKeys::default();
    keys.set_code(combined(10), 10, 0);
    press(&mut keys, &[10]);
    let (_, codes) = scan(&mut keys, 0);
    assert_eq!(codes, vec![ReportCodes::Sticky, ReportCodes::Layer(3)]);
}

#[test]
fn held_key_keeps_its_layer() {
    let mut keys = TestKeys::default();
    keys.set_code(ScanCodeBehavior::Single(KeyCodes::KeyboardAa), 4, 0);
    keys.set_code(ScanCodeBehavior::Single(KeyCodes::KeyboardBb), 4, 2);
    keys.set_code(ScanCodeBehavior::Single(KeyCodes::KeyboardCc), 6, 2);
    press(&mut keys, &[4]);
    let (_, codes) = scan(&mut keys, 0);
    assert_eq!(codes, vec![ReportCodes::Letter(4)]);
    // The base layer changes while key 4 is held: it stays on layer 0,
    // key 6 is resolved on layer 2.
    press(&mut keys, &[4, 6]);
    let (_, codes) = scan(&mut keys, 2);
    assert_eq!(codes, vec![ReportCodes::Letter(4), ReportCodes::Letter(6)]);
    assert_eq!(keys.current_layer[4], Some(0));
    assert_eq!(keys.current_layer[6], Some(2));
    // Once released and pressed again it takes the new layer.
    press(&mut keys, &[6]);
    let (_, _) = scan(&mut keys, 2);
    assert_eq!(keys.current_layer[4], None);
    press(&mut keys, &[4, 6]);
    let (_, codes) = scan(&mut keys, 2);
    assert_eq!(codes, vec![ReportCodes::Letter(5), ReportCodes::Letter(6)]);
}

#[test]
fn get_pressed_code_tells_what_a_key_does() {
    let mut keys = TestKeys::default();
    keys.set_code(ScanCodeBehavior::ChangeConfig(2), 1, 0);
    keys.set_code(ScanCodeBehavior::Single(KeyCodes::KeyboardAa), 2, 0);
    press(&mut keys, &[1, 2]);
    let mut set = heapless::Vec::<ReportCodes, 64>::new();
    assert_eq!(keys.get_pressed_code(0, 0, &mut set), PressResult::Released);
    assert_eq!(keys.get_pressed_code(1, 0, &mut set), PressResult::Function(2));
    assert!(set.is_empty());
    assert_eq!(keys.get_pressed_code(2, 0, &mut set), PressResult::Pressed);
    assert_eq!(set.as_slice(), &[ReportCodes::Letter(4)]);
}

#[test]
fn scan_adds_to_what_the_set_holds() {
    let mut keys = TestKeys::default();
    keys.set_code(ScanCodeBehavior::Single(KeyCodes::KeyboardAa), 0, 0);
    press(&mut keys, &[0]);
    let mut set = heapless::Vec::<ReportCodes, 64>::new();
    set.push(ReportCodes::Sticky).unwrap();
    assert!(keys.can_scan(0, &set));
    assert_eq!(keys.get_keys(0, &mut set), KeysOutcome::Resolved);
    assert_eq!(set.as_slice(), &[ReportCodes::Sticky, ReportCodes::Letter(4)]);
}

#[test]
fn can_scan_refuses_what_would_not_fit_or_not_exist() {
    let mut keys = TestKeys::default();
    let set = heapless::Vec::<ReportCodes, 64>::new();
    assert!(keys.can_scan(NUM_LAYERS - 1, &set));
    assert!(!keys.can_scan(NUM_LAYERS, &set));
    keys.set_code(combined(NUM_KEYS), 3, 1);
    assert!(!keys.can_scan(0, &set));
    keys.set_code(combined(NUM_KEYS - 1), 3, 1);
    assert!(keys.can_scan(0, &set));
    // 22 keys with three codes each are 66 codes.
    for i in 0..22 {
        keys.set_code(
            ScanCodeBehavior::Triple(
                KeyCodes::KeyboardAa,
                KeyCodes::KeyboardBb,
                KeyCodes::KeyboardCc,
            ),
            i,
            0,
        );
    }
    let all: Vec<usize> = (0..22).collect();
    press(&mut keys, &all);
    assert!(!keys.can_scan(0, &set));
    press(&mut keys, &all[..21]);
    assert!(keys.can_scan(0, &set));
    let mut held = heapless::Vec::<ReportCodes, 64>::new();
    held.push(ReportCodes::Sticky).unwrap();
    assert!(keys.can_scan(0, &held));
    held.push(ReportCodes::Sticky).unwrap();
    assert!(!keys.can_scan(0, &held));
    // A switch of the key map ends the scan before the codes that do not fit.
    press(&mut keys, &all);
    keys.set_code(ScanCodeBehavior::ChangeConfig(0), 21, 0);
    assert!(keys.can_scan(0, &set));
}

#[test]
fn is_pressed_lists_the_pressed_keys() {
    let mut keys = TestKeys::default();
    press(&mut keys, &[3, 17, 18, 35]);
    let mut vec = heapless::Vec::<usize, NUM_KEYS>::new();
    keys.is_pressed(&mut vec);
    assert_eq!(vec.as_slice(), &[3, 17, 18, 35]);
    assert!(keys.get_pressed(3));
    assert!(!keys.get_pressed(4));
    assert_eq!(keys.pressed_keys().as_slice(), &[3, 17, 18, 35]);
    let all: Vec<usize> = (0..NUM_KEYS).collect();
    press(&mut keys, &all);
    assert_eq!(keys.pressed_keys().as_slice(), &all[..]);
}

#[test]
fn set_position_type_ranged_sets_the_range_only() {
    let mut keys = Keys::<HeSwitch, Recorder>::default();
    keys.set_position_type_ranged(18..36, HeSwitch::Slave(SlavePosition::default_state()));
    let order: [usize; 18] = core::array::from_fn(|i| i + 18);
    let mut sensors = HallEffectSensors::new(order);
    for i in 0..18 {
        sensors.set_reading(i, 1);
    }
    keys.update_positions(&mut sensors);
    // Relayed keys take 1 as pressed.
    for i in 18..36 {
        assert!(keys.get_pressed(i));
    }
    let order: [usize; 18] = core::array::from_fn(|i| i);
    let mut sensors = HallEffectSensors::new(order);
    for i in 0..18 {
        sensors.set_reading(i, 1650);
    }
    keys.update_positions(&mut sensors);
    for i in 0..18 {
        assert!(!keys.get_pressed(i));
    }
    for i in 0..18 {
        sensors.set_reading(i, 1500);
    }
    keys.update_positions(&mut sensors);
    for i in 0..18 {
        assert!(keys.get_pressed(i));
    }
}

#[test]
fn setup_positions_reports_when_all_keys_are_ready() {
    let mut keys = Keys::<HeSwitch, Recorder>::default();
    keys.set_position_type_ranged(18..36, HeSwitch::Slave(SlavePosition::default_state()));
    let order: [usize; 18] = core::array::from_fn(|i| i);
    let mut sensors = HallEffectSensors::new(order);
    for i in 0..18 {
        sensors.set_reading(i, 1700);
    }
    assert!(!keys.setup_positions(&mut sensors));
    assert!(keys.setup_positions(&mut sensors));
}

#[test]
fn load_from_storage_takes_each_layer() {
    let seen = Rc::new(RefCell::new(Vec::new()));
    let mut keys = TestKeys::default();
    keys.set_indicator(Recorder { seen: seen.clone() });
    let stored: Vec<Option<StorageItem>> = (0..NUM_LAYERS)
        .map(|l| layer_item(ScanCodeBehavior::ChangeConfig(l as u8)))
        .collect();
    assert_eq!(keys.load_keys_from_storage(2, &stored), Ok(()));
    assert_eq!(keys.config_num, 2);
    assert_eq!(*seen.borrow(), vec![Indicate::Config(2)]);
    for l in 0..NUM_LAYERS {
        assert_eq!(keys.layer_storage(l).codes, [ScanCodeBehavior::ChangeConfig(l as u8); NUM_KEYS]);
    }
}

#[test]
fn load_from_storage_with_a_missing_layer_resets() {
    let seen = Rc::new(RefCell::new(Vec::new()));
    let mut keys = TestKeys::default();
    keys.set_indicator(Recorder { seen: seen.clone() });
    keys.set_code(ScanCodeBehavior::ChangeConfig(1), 3, 3);
    press(&mut keys, &[1]);
    let mut stored: Vec<Option<StorageItem>> = (0..NUM_LAYERS)
        .map(|_| layer_item(ScanCodeBehavior::ChangeConfig(9)))
        .collect();
    stored[4] = None;
    assert_eq!(keys.load_keys_from_storage(2, &stored), Err(()));
    assert_eq!(keys.config_num, 0);
    assert!(seen.borrow().is_empty());
    // The states of the keys are kept.
    assert!(keys.get_pressed(1));
    assert!(!keys.get_pressed(2));
    assert_eq!(keys.current_layer, [None; NUM_KEYS]);
    for l in 0..NUM_LAYERS {
        assert_eq!(
            keys.layer_storage(l).codes,
            [ScanCodeBehavior::Single(KeyCodes::Undefined); NUM_KEYS]
        );
    }
    // The indicator is gone with the key map.
    let stored: Vec<Option<StorageItem>> = (0..NUM_LAYERS)
        .map(|_| layer_item(ScanCodeBehavior::ChangeConfig(9)))
        .collect();
    assert_eq!(keys.load_keys_from_storage(1, &stored), Ok(()));
    assert!(seen.borrow().is_empty());
}

#[test]
fn write_to_storage_writes_what_differs() {
    let mut keys = TestKeys::default();
    keys.set_code(ScanCodeBehavior::ChangeConfig(1), 3, 2);
    let mut stored: Vec<Option<StorageItem>> = (0..NUM_LAYERS)
        .map(|_| layer_item(ScanCodeBehavior::Single(KeyCodes::Undefined)))
        .collect();
    stored[5] = None;
    let writes = keys.write_keys_to_storage(1, &stored);
    assert_eq!(writes.len(), 2);
    assert_eq!(writes[0].0, StorageKey::KeyScanCode { config_num: 1, layer: 2 });
    assert_eq!(writes[1].0, StorageKey::KeyScanCode { config_num: 1, layer: 5 });
    let StorageItem::Key(layer2) = writes[0].1;
    assert_eq!(layer2.codes[3], ScanCodeBehavior::ChangeConfig(1));
    assert_eq!(layer2.codes[4], ScanCodeBehavior::Single(KeyCodes::Undefined));
    let StorageItem::Key(layer5) = writes[1].1;
    assert_eq!(layer5, ScanCodeLayerStorage::<NUM_KEYS>::default());
    let same: Vec<Option<StorageItem>> =
        (0..NUM_LAYERS).map(|l| Some(StorageItem::Key(keys.layer_storage(l)))).collect();
    assert!(keys.write_keys_to_storage(1, &same).is_empty());
}

fn stream_of(keys: &TestKeys) -> Vec<u8> {
    let mut writer = ContiniousWriter::new();
    let mut frames = Vec::new();
    keys.write_keys_to_com(&mut writer, &mut frames);
    writer.flush(&mut frames);
    frames.concat()
}

#[test]
fn key_map_travels_key_by_key() {
    let mut keys = TestKeys::default();
    keys.set_code(ScanCodeBehavior::ChangeConfig(1), 0, 1);
    keys.set_code(combined(2), 1, 0);
    let bytes = stream_of(&keys);
    // 215 cells of two bytes and one of four make 434 bytes, in 14 frames.
    assert_eq!(bytes.len(), 14 * 32);
    assert_eq!(&bytes[..16], &[0, 0, 4, 1, 0, 0, 0, 0, 0, 0, 0, 0, 3, 0xF2, 0xF4, 2]);
    assert!(bytes[434..].iter().all(|b| *b == 0));

    let mut other = TestKeys::default();
    assert_eq!(other.load_keys_from_com(&bytes[..434], 2), Ok(()));
    assert_eq!(other.config_num, 2);
    for l in 0..NUM_LAYERS {
        assert_eq!(other.layer_storage(l), keys.layer_storage(l));
    }
    // What follows the key map in the stream is not read.
    let mut third = TestKeys::default();
    assert_eq!(third.load_keys_from_com(&bytes, 1), Ok(()));
    for l in 0..NUM_LAYERS {
        assert_eq!(third.layer_storage(l), keys.layer_storage(l));
    }
}

#[test]
fn key_map_that_does_not_decode_changes_nothing() {
    let mut keys = TestKeys::default();
    keys.set_code(ScanCodeBehavior::ChangeConfig(1), 0, 1);
    let mut bytes = stream_of(&keys)[..432].to_vec();
    bytes[100] = 9;
    let mut other = TestKeys::default();
    other.set_code(ScanCodeBehavior::ChangeConfig(7), 5, 5);
    assert_eq!(other.load_keys_from_com(&bytes, 2), Err(SerializationError::InvalidFormat));
    assert_eq!(other.config_num, 0);
    assert_eq!(other.layer_storage(5).codes[5], ScanCodeBehavior::ChangeConfig(7));
    assert_eq!(other.layer_storage(1).codes[0], ScanCodeBehavior::Single(KeyCodes::Undefined));
    // A key map that ends early is refused as well.
    let bytes = stream_of(&keys)[..430].to_vec();
    assert_eq!(other.load_keys_from_com(&bytes, 2), Err(SerializationError::BufferTooSmall));
    assert_eq!(other.config_num, 0);
}

#[test]
fn slave_keys_report_when_the_state_changes() {
    let order: [usize; 18] = core::array::from_fn(|i| i);
    let mut keys =
        SlaveKeys::<SlavePosition, HallEffectSensors, u32>::new(HallEffectSensors::new(order));
    assert_eq!(keys.send_report(), None);
    keys.sensors_mut().set_reading(0, 1);
    keys.sensors_mut().set_reading(17, 1);
    assert_eq!(keys.send_report(), Some(1 | (1 << 17)));
    assert_eq!(keys.send_report(), None);
    keys.sensors_mut().set_reading(0, 0);
    assert_eq!(keys.send_report(), Some(1 << 17));
    assert!(keys.setup_keys());
}

#[test]
fn scans_are_passed_over_while_a_switch_settles() {
    let mut keys = TestKeys::default();
    keys.set_code(ScanCodeBehavior::ChangeConfig(1), 5, 0);
    keys.set_code(ScanCodeBehavior::Single(KeyCodes::KeyboardAa), 6, 0);
    let mut settle = Settle::new();
    let mut set = heapless::Vec::<ReportCodes, 64>::new();
    press(&mut keys, &[6]);
    assert_eq!(
        settle.scan(&mut keys, 0, &mut set, 1_000),
        SettleOutcome::Scanned(KeysOutcome::Resolved)
    );
    assert_eq!(set.as_slice(), &[ReportCodes::Letter(4)]);
    set.clear();
    press(&mut keys, &[5, 6]);
    assert_eq!(
        settle.scan(&mut keys, 0, &mut set, 2_000),
        SettleOutcome::Scanned(KeysOutcome::ConfigChange { config_num: 1, settle_ms: 500 })
    );
    assert_eq!(settle.resume_at, 502_000);
    assert_eq!(SETTLE_DELAY_US, 500_000);
    assert!(set.is_empty());
    // The key that switched is still down, and so is another: nothing is
    // scanned until the pause is over.
    press(&mut keys, &[5, 6]);
    for now in [2_000u64, 2_001, 250_000, 501_999] {
        assert_eq!(settle.scan(&mut keys, 0, &mut set, now), SettleOutcome::Settling);
        assert!(set.is_empty());
        assert_eq!(keys.current_layer[6], None);
        assert!(keys.get_pressed(5));
    }
    press(&mut keys, &[6]);
    assert_eq!(
        settle.scan(&mut keys, 0, &mut set, 502_000),
        SettleOutcome::Scanned(KeysOutcome::Resolved)
    );
    assert_eq!(set.as_slice(), &[ReportCodes::Letter(4)]);
    assert_eq!(keys.current_layer[6], Some(0));
}

#[test]
fn scan_that_cannot_be_made_is_refused() {
    let mut keys = TestKeys::default();
    let mut settle = Settle::new();
    let mut set = heapless::Vec::<ReportCodes, 64>::new();
    assert_eq!(settle.scan(&mut keys, NUM_LAYERS, &mut set, 0), SettleOutcome::Refused);
    assert_eq!(keys.try_get_keys(NUM_LAYERS, &mut set), None);
    assert_eq!(keys.try_get_keys(0, &mut set), Some(KeysOutcome::Resolved));
}

#[test]
fn missing_layer_keeps_calibration_and_switch_types() {
    let mut keys = Keys::<HeSwitch, NoIndicator>::default();
    keys.set_position_type_ranged(18..36, HeSwitch::Slave(SlavePosition::default_state()));
    let order: [usize; 18] = core::array::from_fn(|i| i);
    let mut sensors = HallEffectSensors::new(order);
    // A reading of 1000 widens the travel of the first half to 1000..1700:
    // release 1490, actuation 1455, tolerance 70.
    for i in 0..18 {
        sensors.set_reading(i, 1000);
    }
    keys.update_positions(&mut sensors);
    for i in 0..18 {
        sensors.set_reading(i, 1600);
    }
    keys.update_positions(&mut sensors);
    assert!(!keys.get_pressed(0));

    let stored: Vec<Option<StorageItem>> = (0..NUM_LAYERS).map(|_| None).collect();
    assert_eq!(keys.load_keys_from_storage(1, &stored), Err(()));

    // With the calibration kept, the tolerance is still 70: after a press
    // at 1450 a rise to 1485 is too short to release. A switch that had
    // gone back to a tolerance of 30 would be released by it.
    for i in 0..18 {
        sensors.set_reading(i, 1450);
    }
    keys.update_positions(&mut sensors);
    assert!(keys.get_pressed(0));
    for i in 0..18 {
        sensors.set_reading(i, 1485);
    }
    keys.update_positions(&mut sensors);
    assert!(keys.get_pressed(0));
    for i in 0..18 {
        sensors.set_reading(i, 1521);
    }
    keys.update_positions(&mut sensors);
    assert!(!keys.get_pressed(0));
    // The second half still takes 1 as pressed, as relayed keys do.
    let order: [usize; 18] = core::array::from_fn(|i| i + 18);
    let mut relayed = HallEffectSensors::new(order);
    for i in 0..18 {
        relayed.set_reading(i, 1);
    }
    keys.update_positions(&mut relayed);
    for i in 18..36 {
        assert!(keys.get_pressed(i));
    }
}
