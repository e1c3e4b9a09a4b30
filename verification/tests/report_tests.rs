use key_lib::descriptor::{KeyboardReportNKRO, MouseReport};
use key_lib::report::{set_bit, MouseDelta, Report};
use key_lib::scan_codes::ReportCodes;

fn set_of(codes: &[ReportCodes]) -> heapless::Vec<ReportCodes, 64> {
    let mut set = heapless::Vec::new();
    for code in codes {
        set.push(*code).unwrap();
    }
    set
}

fn tick(
    report: &mut Report,
    codes: &[ReportCodes],
    now: u64,
) -> (Option<KeyboardReportNKRO>, Option<MouseReport>) {
    let set = set_of(codes);
    assert!(Report::can_report(&set));
    report.generate_report(&set, now)
}

fn bitmap(usages: &[u8]) -> [u8; 28] {
    let mut map = [0u8; 28];
    for u in usages {
        map[(*u / 8) as usize] |= 1 << (*u % 8);
    }
    map
}

#[test]
fn set_bit_sets_and_clears() {
    let mut num = 0b1000_0001u8;
    set_bit(&mut num, 1, 3);
    assert_eq!(num, 0b1000_1001);
    set_bit(&mut num, 0, 7);
    assert_eq!(num, 0b0000_1001);
    set_bit(&mut num, 1, 0);
    assert_eq!(num, 0b0000_1001);
    set_bit(&mut num, 2, 0);
    assert_eq!(num, 0b0000_1000);
}

#[test]
fn letters_and_modifiers_fill_the_keyboard_report() {
    let mut report = Report::new();
    let (keyboard, mouse) = tick(
        &mut report,
        &[
            ReportCodes::Letter(4),
            ReportCodes::Modifier(0xE1),
            ReportCodes::Letter(0x1D),
            ReportCodes::Modifier(0xE4),
            ReportCodes::Letter(223),
        ],
        1000,
    );
    let keyboard = keyboard.unwrap();
    assert_eq!(keyboard.modifier, 0b0001_0010);
    assert_eq!(keyboard.nkro_keycodes, bitmap(&[4, 0x1D, 223]));
    assert_eq!(keyboard.nkro_keycodes[0], 0b0001_0000);
    assert_eq!(keyboard.nkro_keycodes[3], 0b0010_0000);
    assert_eq!(keyboard.nkro_keycodes[27], 0b1000_0000);
    assert_eq!(mouse, None);
}

#[test]
fn unchanged_reports_are_not_sent_again() {
    let mut report = Report::new();
    assert_eq!(tick(&mut report, &[], 0), (None, None));
    let (keyboard, _) = tick(&mut report, &[ReportCodes::Letter(4)], 1000);
    assert!(keyboard.is_some());
    assert_eq!(tick(&mut report, &[ReportCodes::Letter(4)], 2000), (None, None));
    let (keyboard, _) = tick(&mut report, &[], 3000);
    assert_eq!(keyboard, Some(KeyboardReportNKRO { modifier: 0, nkro_keycodes: [0; 28] }));
    assert_eq!(tick(&mut report, &[], 4000), (None, None));
}

#[test]
fn mouse_buttons_are_sent_when_they_change() {
    let mut report = Report::new();
    let (_, mouse) =
        tick(&mut report, &[ReportCodes::MouseButton(0), ReportCodes::MouseButton(2)], 0);
    assert_eq!(mouse, Some(MouseReport { buttons: 0b101, x: 0, y: 0, wheel: 0, pan: 0 }));
    let (_, mouse) =
        tick(&mut report, &[ReportCodes::MouseButton(0), ReportCodes::MouseButton(2)], 10);
    assert_eq!(mouse, None);
    let (_, mouse) = tick(&mut report, &[], 20);
    assert_eq!(mouse, Some(MouseReport { buttons: 0, x: 0, y: 0, wheel: 0, pan: 0 }));
}

#[test]
fn first_motion_passes_and_the_next_waits_fifty_milliseconds() {
    let mut report = Report::new();
    let moving = [ReportCodes::MouseX(5), ReportCodes::MouseY(-5), ReportCodes::MouseX(2)];
    let (_, mouse) = tick(&mut report, &moving, 1_000_000);
    assert_eq!(mouse, Some(MouseReport { buttons: 0, x: 7, y: -5, wheel: 0, pan: 0 }));
    let (_, mouse) = tick(&mut report, &moving, 1_010_000);
    assert_eq!(mouse, None);
    let (_, mouse) = tick(&mut report, &moving, 1_050_000);
    assert_eq!(mouse, None);
    // 50 ms and one microsecond after the first motion. The motion has been
    // going on for 50 ms, so the next pause is 500000 / (4999 + 10000) = 33 ms.
    let (_, mouse) = tick(&mut report, &moving, 1_050_001);
    assert_eq!(mouse, Some(MouseReport { buttons: 0, x: 7, y: -5, wheel: 0, pan: 0 }));
    let (_, mouse) = tick(&mut report, &moving, 1_083_001);
    assert_eq!(mouse, None);
    // 83 ms in, the pause after this one is 500000 / (13775 + 10000) = 21 ms.
    let (_, mouse) = tick(&mut report, &moving, 1_083_002);
    assert!(mouse.is_some());
    let (_, mouse) = tick(&mut report, &moving, 1_104_002);
    assert_eq!(mouse, None);
    let (_, mouse) = tick(&mut report, &moving, 1_104_003);
    assert!(mouse.is_some());
}

#[test]
fn motion_that_stops_starts_over() {
    let mut report = Report::new();
    let moving = [ReportCodes::MouseX(1)];
    assert!(tick(&mut report, &moving, 0).1.is_some());
    assert!(tick(&mut report, &moving, 10_000).1.is_none());
    assert!(tick(&mut report, &[], 20_000).1.is_none());
    // The key was released in between: the motion passes at once again.
    assert!(tick(&mut report, &moving, 30_000).1.is_some());
}

#[test]
fn scroll_has_a_throttle_of_its_own() {
    let mut report = Report::new();
    assert!(tick(&mut report, &[ReportCodes::MouseX(1)], 0).1.is_some());
    let (_, mouse) =
        tick(&mut report, &[ReportCodes::MouseX(1), ReportCodes::MouseScroll(-1)], 10_000);
    assert_eq!(mouse, Some(MouseReport { buttons: 0, x: 0, y: 0, wheel: -1, pan: 0 }));
}

#[test]
fn mouse_delta_follows_the_repeat_curve() {
    let mut delta = MouseDelta::new(1_000_000, 500_000);
    assert!(delta.check(0));
    assert!(delta.check(0));
    delta.reset();
    // Held for 100 ms: 10^10 / 500100 = 19996, 500000 / 29996 = 16 ms.
    assert!(delta.check(100_000));
    delta.reset();
    assert!(!delta.check(116_000));
    delta.reset();
    assert!(delta.check(116_001));
    delta.reset();
    // Held for 116 ms: 13456 * 10^6 / 500116 = 26905, 500000 / 36905 = 13 ms.
    assert!(!delta.check(129_001));
    delta.reset();
    assert!(delta.check(129_002));
    delta.reset();
    // Held for a second the curve gives no pause at all.
    assert!(delta.check(1_000_000));
    delta.reset();
    assert!(!delta.check(1_000_000));
    delta.reset();
    assert!(delta.check(1_000_001));
    delta.reset();
    // A tick without a question ends the motion.
    delta.reset();
    assert!(delta.check(1_000_002));
}

#[test]
fn mouse_delta_takes_huge_terms() {
    let mut delta = MouseDelta::new(u64::MAX, 1);
    assert!(delta.check(0));
    delta.reset();
    assert!(delta.check(u64::MAX - 50_000));
    delta.reset();
    assert!(!delta.check(u64::MAX - 50_000));
}

#[test]
fn sticky_modifier_joins_the_next_press_once() {
    let mut report = Report::new();
    // The dual-role key alone: its modifier shows and is latched.
    let (keyboard, _) =
        tick(&mut report, &[ReportCodes::Sticky, ReportCodes::Modifier(0xE1)], 0);
    assert_eq!(keyboard.unwrap().modifier, 0b10);
    // Released: nothing is pressed, the latch waits.
    let (keyboard, _) = tick(&mut report, &[], 1000);
    assert_eq!(keyboard.unwrap().modifier, 0);
    // A real key, with a modifier of its own: the latched one joins it.
    let (keyboard, _) =
        tick(&mut report, &[ReportCodes::Letter(4), ReportCodes::Modifier(0xE0)], 2000);
    let keyboard = keyboard.unwrap();
    assert_eq!(keyboard.modifier, 0b11);
    assert_eq!(keyboard.nkro_keycodes, bitmap(&[4]));
    // The latch is used up.
    let (keyboard, _) = tick(&mut report, &[ReportCodes::Letter(4)], 3000);
    assert_eq!(keyboard.unwrap().modifier, 0);
    let (keyboard, _) = tick(&mut report, &[ReportCodes::Letter(5)], 4000);
    assert_eq!(keyboard.unwrap().modifier, 0);
}

#[test]
fn sticky_modifier_held_with_a_key_is_not_latched() {
    let mut report = Report::new();
    let (keyboard, _) = tick(
        &mut report,
        &[ReportCodes::Sticky, ReportCodes::Modifier(0xE1), ReportCodes::Letter(4)],
        0,
    );
    assert_eq!(keyboard.unwrap().modifier, 0b10);
    let (_, _) = tick(&mut report, &[], 1000);
    let (keyboard, _) = tick(&mut report, &[ReportCodes::Letter(5)], 2000);
    assert_eq!(keyboard.unwrap().modifier, 0);
}

#[test]
fn sticky_layer_key_latches_nothing() {
    let mut report = Report::new();
    let (keyboard, _) = tick(&mut report, &[ReportCodes::Sticky, ReportCodes::Layer(1)], 0);
    assert_eq!(keyboard, None);
    assert_eq!(report.current_layer(), 1);
    let (keyboard, _) = tick(&mut report, &[ReportCodes::Letter(5)], 2000);
    assert_eq!(keyboard.unwrap().modifier, 0);
}

#[test]
fn first_layer_key_wins_and_the_layer_is_momentary() {
    let mut report = Report::new();
    assert_eq!(report.current_layer(), 0);
    tick(&mut report, &[ReportCodes::Layer(2), ReportCodes::Layer(3)], 0);
    assert_eq!(report.current_layer(), 2);
    tick(&mut report, &[], 1000);
    assert_eq!(report.current_layer(), 0);
}

#[test]
fn toggle_overrides_and_stays() {
    let mut report = Report::new();
    tick(
        &mut report,
        &[ReportCodes::Layer(2), ReportCodes::LayerToggle(4), ReportCodes::Layer(3)],
        0,
    );
    assert_eq!(report.current_layer(), 4);
    tick(&mut report, &[], 1000);
    assert_eq!(report.current_layer(), 4);
    tick(&mut report, &[ReportCodes::Layer(1)], 2000);
    assert_eq!(report.current_layer(), 1);
    tick(&mut report, &[], 3000);
    assert_eq!(report.current_layer(), 4);
    tick(&mut report, &[ReportCodes::LayerToggle(1), ReportCodes::LayerToggle(0)], 4000);
    assert_eq!(report.current_layer(), 0);
    tick(&mut report, &[], 5000);
    assert_eq!(report.current_layer(), 0);
}

#[test]
fn can_report_refuses_what_has_no_place() {
    assert!(Report::can_report(&set_of(&[ReportCodes::Letter(223)])));
    assert!(!Report::can_report(&set_of(&[ReportCodes::Letter(224)])));
    assert!(Report::can_report(&set_of(&[ReportCodes::MouseX(127)])));
    assert!(!Report::can_report(&set_of(&[ReportCodes::MouseX(127), ReportCodes::MouseX(1)])));
    assert!(Report::can_report(&set_of(&[
        ReportCodes::MouseX(127),
        ReportCodes::MouseX(1),
        ReportCodes::MouseX(-1)
    ])));
    assert!(!Report::can_report(&set_of(&[
        ReportCodes::MouseY(-128),
        ReportCodes::MouseY(-1)
    ])));
    assert!(!Report::can_report(&set_of(&[
        ReportCodes::MouseScroll(100),
        ReportCodes::MouseScroll(28)
    ])));
}

#[test]
fn default_reports_are_empty() {
    assert_eq!(
        KeyboardReportNKRO::default(),
        KeyboardReportNKRO { modifier: 0, nkro_keycodes: [0; 28] }
    );
    assert_eq!(MouseReport::default(), MouseReport { buttons: 0, x: 0, y: 0, wheel: 0, pan: 0 });
    let a = KeyboardReportNKRO { modifier: 1, nkro_keycodes: [0; 28] };
    let mut b = a;
    assert!(a.same_as(&b));
    b.nkro_keycodes[27] = 1;
    assert!(!a.same_as(&b));
}

#[test]
fn try_generate_report_refuses_and_changes_nothing() {
    let mut report = Report::new();
    assert!(report.can_tick(0));
    assert!(!report.can_tick(u64::MAX));
    let bad = set_of(&[ReportCodes::Letter(250), ReportCodes::Layer(3)]);
    assert_eq!(report.try_generate_report(&bad, 0), None);
    assert_eq!(report.current_layer(), 0);
    let good = set_of(&[ReportCodes::Layer(3)]);
    assert_eq!(report.try_generate_report(&good, u64::MAX), None);
    assert_eq!(report.try_generate_report(&good, 0), Some((None, None)));
    assert_eq!(report.current_layer(), 3);
    // A motion began at 1000: an earlier time is refused.
    let moving = set_of(&[ReportCodes::MouseX(1)]);
    assert!(report.try_generate_report(&moving, 1000).is_some());
    assert_eq!(report.try_generate_report(&moving, 999), None);
    assert!(report.try_generate_report(&moving, 1000).is_some());
}
