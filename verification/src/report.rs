use crate::code_set::{codes_as_slice, report_codes, CODE_CAPACITY};
use crate::descriptor::{KeyboardReportNKRO, MouseReport, NKRO_BYTES};
use crate::scan_codes::{ReportCodes, LETTER_LIMIT};
use vstd::prelude::*;

verus! {

/// Microseconds between the first motion of a held mouse key and its first
/// repeat.
pub const INITIAL_DELAY_US: u64 = 50_000;

/// Longest pause, in milliseconds, that the repeat curve can give.
pub const MAX_INTERVAL_MS: u64 = 50;

/// The bit of `pos` set in `num` when `bit` is 1, and cleared otherwise.
pub open spec fn with_bit(num: u8, bit: u8, pos: u8) -> u8 {
    if bit == 1 {
        num | (1u8 << pos)
    } else {
        num & !(1u8 << pos)
    }
}

pub fn set_bit(num: &mut u8, bit: u8, pos: u8)
    requires
        pos < 8,
    ensures
        *final(num) == with_bit(*old(num), bit, pos),
{
    let mask: u8 = 1u8 << pos;
    if bit == 1 {
        *num |= mask
    } else {
        *num &= !mask
    }
}

/// The pause, in milliseconds, before the next repeat of a mouse key that
/// has been held for `held_ms` milliseconds: `500000 / (term0 * t * t / (t +
/// term1) + 10000)`, each division rounded down.
pub open spec fn repeat_interval(term0: u64, term1: u64, held_ms: int) -> int {
    500000int / ((term0 * held_ms * held_ms) / (held_ms + term1) + 10000)
}

/// The pause never exceeds fifty milliseconds and never is negative.
pub proof fn lemma_repeat_interval_bounds(term0: u64, term1: u64, held_ms: int)
    requires
        held_ms >= 0,
        term1 > 0,
    ensures
        0 <= repeat_interval(term0, term1, held_ms) <= MAX_INTERVAL_MS,
{
    let product = term0 * held_ms * held_ms;
    let divisor = held_ms + term1;
    assert(product >= 0) by (nonlinear_arith)
        requires
            product == term0 * held_ms * held_ms,
            held_ms >= 0,
            term0 >= 0,
    ;
    let quotient = product / divisor;
    assert(quotient >= 0) by (nonlinear_arith)
        requires
            quotient == product / divisor,
            product >= 0,
            divisor > 0,
    ;
    let d = quotient + 10000;
    assert(0 <= 500000int / d <= 50) by (nonlinear_arith)
        requires
            d >= 10000,
    ;
}

/// Computes the repeat pause without overflow, whatever the operands.
fn repeat_interval_ms(term0: u64, term1: u64, held_ms: u64) -> (interval: u64)
    requires
        term1 > 0,
    ensures
        interval == repeat_interval(term0, term1, held_ms as int),
        interval <= MAX_INTERVAL_MS,
{
    proof {
        lemma_repeat_interval_bounds(term0, term1, held_ms as int);
    }
    let x: u128 = held_ms as u128;
    assert(x * x <= u128::MAX) by (nonlinear_arith)
        requires
            0 <= x <= 0xffff_ffff_ffff_ffff,
    ;
    let square: u128 = x * x;
    let divisor: u128 = x + term1 as u128;
    let ghost product: int = term0 * held_ms * held_ms;
    assert(product == term0 * square) by (nonlinear_arith)
        requires
            product == term0 * held_ms * held_ms,
            square == held_ms * held_ms,
    ;
    match (term0 as u128).checked_mul(square) {
        Some(p) => {
            let quotient: u128 = p / divisor;
            if quotient > 490_000 {
                assert(500000int / (quotient + 10000) == 0) by (nonlinear_arith)
                    requires
                        quotient > 490_000,
                ;
                0
            } else {
                (500_000 / (quotient + 10_000)) as u64
            }
        },
        None => {
            let ghost quotient: int = product / (divisor as int);
            assert(quotient > 490_000) by (nonlinear_arith)
                requires
                    quotient == product / (divisor as int),
                    product > 0xffff_ffff_ffff_ffff_ffff_ffff_ffff_ffff,
                    0 < divisor <= 0x1_ffff_ffff_ffff_fffe,
            ;
            assert(500000int / (quotient + 10000) == 0) by (nonlinear_arith)
                requires
                    quotient > 490_000,
            ;
            0
        },
    }
}

/// Throttles the motion of one pair of mouse keys. The first motion after
/// rest passes at once; later ones pass when their pause is over, and each
/// that passes sets the next pause by the repeat curve. Times are in
/// microseconds.
#[derive(Copy, Clone, Debug)]
pub struct MouseDelta {
    initial_press: Option<u64>,
    next_tick: u64,
    term0: u64,
    term1: u64,
    check_state: bool,
    res: bool,
}

impl MouseDelta {
    pub closed spec fn wf(&self) -> bool {
        self.term1 > 0
    }

    /// When the motion that is going on began, if one is going on.
    pub closed spec fn initial_press(&self) -> Option<u64> {
        self.initial_press
    }

    /// The time after which the next motion passes.
    pub closed spec fn next_tick(&self) -> u64 {
        self.next_tick
    }

    /// Whether the throttle was asked since it was last reset.
    pub closed spec fn asked(&self) -> bool {
        self.check_state
    }

    /// The answer the throttle gave when it was asked.
    pub closed spec fn answer(&self) -> bool {
        self.res
    }

    pub closed spec fn terms(&self) -> (u64, u64) {
        (self.term0, self.term1)
    }

    /// Whether `now` is a time at which the throttle can be asked: not before
    /// the motion began, and not so late that the next pause would overflow.
    pub open spec fn accepts(&self, now: u64) -> bool {
        &&& now + INITIAL_DELAY_US <= u64::MAX
        &&& self.initial_press() matches Some(began) ==> began <= now
    }

    /// The throttle after it took the time: a motion that begins passes and
    /// waits fifty milliseconds; one that goes on passes if its pause is over
    /// and then waits as long as the repeat curve says for the time it has
    /// been going on.
    pub closed spec fn after_update_state(&self, now: u64) -> Self {
        match self.initial_press {
            Some(began) => {
                if now > self.next_tick {
                    MouseDelta {
                        next_tick: (now + 1000 * repeat_interval(
                            self.term0,
                            self.term1,
                            (now - began) / 1000,
                        )) as u64,
                        res: true,
                        ..*self
                    }
                } else {
                    MouseDelta { res: false, ..*self }
                }
            },
            None => MouseDelta {
                initial_press: Some(now),
                next_tick: (now + INITIAL_DELAY_US) as u64,
                res: true,
                ..*self
            },
        }
    }

    /// The throttle after it was asked: the first question of a tick takes
    /// the time, the others find the answer kept.
    pub closed spec fn after_check(&self, now: u64) -> Self {
        if self.check_state {
            *self
        } else {
            MouseDelta { check_state: true, ..self.after_update_state(now) }
        }
    }

    /// Whether a motion passes when the throttle is asked at `now`.
    pub closed spec fn passes(&self, now: u64) -> bool {
        self.after_check(now).res
    }

    /// The throttle at the end of a tick: a tick in which it was not asked
    /// ends the motion.
    pub closed spec fn after_reset(&self) -> Self {
        MouseDelta {
            initial_press: if self.check_state {
                self.initial_press
            } else {
                None
            },
            res: false,
            check_state: false,
            ..*self
        }
    }

    /// Whether `now` is a time at which the throttle can be asked.
    pub fn can_check(&self, now: u64) -> (ok: bool)
        ensures
            ok == self.accepts(now),
    {
        now <= u64::MAX - INITIAL_DELAY_US && match self.initial_press {
            Some(began) => began <= now,
            None => true,
        }
    }

    pub fn new(term0: u64, term1: u64) -> (delta: Self)
        requires
            term1 > 0,
        ensures
            delta.wf(),
            delta.initial_press() is None,
            delta.next_tick() == 0,
            !delta.asked(),
            !delta.answer(),
            delta.terms() == (term0, term1),
    {
        MouseDelta {
            initial_press: None,
            next_tick: 0,
            term0,
            term1,
            check_state: false,
            res: false,
        }
    }

    pub fn reset(&mut self)
        ensures
            *final(self) == old(self).after_reset(),
            final(self).wf() == old(self).wf(),
    {
        if !self.check_state {
            self.initial_press = None;
        }
        self.res = false;
        self.check_state = false;
    }

    pub fn check(&mut self, now: u64) -> (passes: bool)
        requires
            old(self).wf(),
            old(self).accepts(now),
        ensures
            passes == old(self).passes(now),
            *final(self) == old(self).after_check(now),
            final(self).wf(),
    {
        if self.check_state {
            self.res
        } else {
            self.update_state(now);
            self.check_state = true;
            self.res
        }
    }

    /// Takes the time for a throttle that is asked for the first time in a
    /// tick: decides whether the motion passes and when the next one may.
    pub fn update_state(&mut self, now: u64)
        requires
            old(self).wf(),
            old(self).accepts(now),
        ensures
            *final(self) == old(self).after_update_state(now),
            final(self).wf(),
    {
        match self.initial_press {
            Some(time) => {
                if now > self.next_tick {
                    let x: u64 = (now - time) / 1000;
                    let val = repeat_interval_ms(self.term0, self.term1, x);
                    self.next_tick = now + val * 1000;
                    self.res = true;
                } else {
                    self.res = false;
                }
            },
            None => {
                self.initial_press = Some(now);
                self.next_tick = now + INITIAL_DELAY_US;
                self.res = true;
            },
        }
    }
}

/// Asking a throttle twice in a tick is asking it once: the second question
/// changes nothing and gets the first answer.
pub proof fn lemma_check_once(delta: MouseDelta, now: u64, later: u64)
    ensures
        delta.after_check(now).asked(),
        delta.after_check(now).after_check(later) == delta.after_check(now),
        delta.after_check(now).passes(later) == delta.passes(now),
        delta.after_check(now).wf() == delta.wf(),
{
}

/// What taking the time does to a throttle. At rest the motion begins: it
/// passes, and the next one may pass fifty milliseconds later. While a motion
/// goes on, it passes if the time lies after the pause, and the next pause
/// is then the one of the repeat curve for the time the motion has been
/// going on; before that it does not pass and the pause stays. Whether the
/// throttle was asked, and its terms, stay as they are.
pub proof fn lemma_update_state(delta: MouseDelta, now: u64)
    requires
        delta.wf(),
        delta.accepts(now),
    ensures
        ({
            let next = delta.after_update_state(now);
            &&& next.wf()
            &&& next.terms() == delta.terms()
            &&& next.asked() == delta.asked()
            &&& match delta.initial_press() {
                None => {
                    &&& next.initial_press() == Some(now)
                    &&& next.next_tick() == now + INITIAL_DELAY_US
                    &&& next.answer()
                },
                Some(began) => {
                    &&& next.initial_press() == Some(began)
                    &&& next.answer() == (now > delta.next_tick())
                    &&& next.next_tick() == if now > delta.next_tick() {
                        now + 1000 * repeat_interval(
                            delta.terms().0,
                            delta.terms().1,
                            (now - began) / 1000,
                        )
                    } else {
                        delta.next_tick() as int
                    }
                },
            }
        }),
        delta.asked() ==> delta.after_check(now) == delta,
        !delta.asked() ==> {
            &&& delta.after_check(now).asked()
            &&& delta.after_check(now).answer() == delta.after_update_state(now).answer()
            &&& delta.after_check(now).initial_press() == delta.after_update_state(
                now,
            ).initial_press()
            &&& delta.after_check(now).next_tick() == delta.after_update_state(now).next_tick()
            &&& delta.after_check(now).terms() == delta.terms()
        },
        delta.passes(now) == delta.after_check(now).answer(),
{
    if delta.initial_press() is Some {
        lemma_repeat_interval_bounds(
            delta.terms().0,
            delta.terms().1,
            (now - delta.initial_press()->Some_0) / 1000,
        );
    }
}

/// How a throttle answers. At rest a motion passes and the first pause is
/// fifty milliseconds. While a motion goes on, it passes only after the
/// pause, and the pause that follows is the one of the repeat curve.
pub proof fn lemma_throttle(delta: MouseDelta, now: u64)
    requires
        delta.wf(),
        delta.accepts(now),
        !delta.asked(),
    ensures
        delta.initial_press() is None ==> delta.passes(now) && delta.after_check(
            now,
        ).initial_press() == Some(now) && delta.after_check(now).next_tick() == now
            + INITIAL_DELAY_US,
        delta.initial_press() matches Some(began) ==> {
            &&& delta.passes(now) == (now > delta.next_tick())
            &&& delta.after_check(now).initial_press() == Some(began)
            &&& delta.after_check(now).next_tick() == if now > delta.next_tick() {
                now + 1000 * repeat_interval(delta.terms().0, delta.terms().1, (now - began) / 1000)
            } else {
                delta.next_tick() as int
            }
        },
        delta.after_check(now).after_reset().initial_press() == delta.after_check(
            now,
        ).initial_press(),
        delta.after_reset().initial_press() is None,
        !delta.after_reset().asked(),
        !delta.after_check(now).after_reset().asked(),
{
    if delta.initial_press() is Some {
        lemma_repeat_interval_bounds(
            delta.terms().0,
            delta.terms().1,
            (now - delta.initial_press()->Some_0) / 1000,
        );
    }
}

/// The latch that lets the modifier of a dual-role key apply to the press
/// that follows it.
#[derive(Copy, Clone, Debug, PartialEq, Eq, Structural)]
pub enum State {
    /// The modifier byte waits for the next press.
    Stick(u8),
    /// The dual-role key was held together with another key, so its modifier
    /// is used up.
    Pressed,
    Idle,
}

/// The modifier byte that the modifier codes of a scan add up to: for each
/// of them the bit of its usage modulo 8.
pub open spec fn modifier_bits(codes: Seq<ReportCodes>) -> u8
    decreases codes.len(),
{
    if codes.len() == 0 {
        0
    } else {
        let rest = modifier_bits(codes.drop_last());
        match codes.last() {
            ReportCodes::Modifier(code) => with_bit(rest, 1, code % 8),
            _ => rest,
        }
    }
}

/// Byte `index` of the rollover bitmap that the key codes of a scan add up
/// to: usage `u` is bit `u % 8` of byte `u / 8`.
pub open spec fn letter_bits(codes: Seq<ReportCodes>, index: int) -> u8
    decreases codes.len(),
{
    if codes.len() == 0 {
        0
    } else {
        let rest = letter_bits(codes.drop_last(), index);
        match codes.last() {
            ReportCodes::Letter(code) => if code / 8 == index {
                with_bit(rest, 1, code % 8)
            } else {
                rest
            },
            _ => rest,
        }
    }
}

/// The button byte that the mouse button codes of a scan add up to.
pub open spec fn button_bits(codes: Seq<ReportCodes>) -> u8
    decreases codes.len(),
{
    if codes.len() == 0 {
        0
    } else {
        let rest = button_bits(codes.drop_last());
        match codes.last() {
            ReportCodes::MouseButton(code) => with_bit(rest, 1, code % 8),
            _ => rest,
        }
    }
}

/// Sum of the horizontal motion in a scan.
pub open spec fn x_sum(codes: Seq<ReportCodes>) -> int
    decreases codes.len(),
{
    if codes.len() == 0 {
        0
    } else {
        x_sum(codes.drop_last()) + match codes.last() {
            ReportCodes::MouseX(delta) => delta as int,
            _ => 0,
        }
    }
}

/// Sum of the vertical motion in a scan.
pub open spec fn y_sum(codes: Seq<ReportCodes>) -> int
    decreases codes.len(),
{
    if codes.len() == 0 {
        0
    } else {
        y_sum(codes.drop_last()) + match codes.last() {
            ReportCodes::MouseY(delta) => delta as int,
            _ => 0,
        }
    }
}

/// Sum of the wheel motion in a scan.
pub open spec fn scroll_sum(codes: Seq<ReportCodes>) -> int
    decreases codes.len(),
{
    if codes.len() == 0 {
        0
    } else {
        scroll_sum(codes.drop_last()) + match codes.last() {
            ReportCodes::MouseScroll(delta) => delta as int,
            _ => 0,
        }
    }
}

/// Whether a scan holds a code that moves the pointer.
pub open spec fn has_motion(codes: Seq<ReportCodes>) -> bool
    decreases codes.len(),
{
    if codes.len() == 0 {
        false
    } else {
        has_motion(codes.drop_last()) || codes.last() is MouseX || codes.last() is MouseY
    }
}

/// Whether a scan holds a code that turns the wheel.
pub open spec fn has_scroll(codes: Seq<ReportCodes>) -> bool
    decreases codes.len(),
{
    if codes.len() == 0 {
        false
    } else {
        has_scroll(codes.drop_last()) || codes.last() is MouseScroll
    }
}

/// Whether a scan holds the code of a real key.
pub open spec fn has_letter(codes: Seq<ReportCodes>) -> bool
    decreases codes.len(),
{
    if codes.len() == 0 {
        false
    } else {
        has_letter(codes.drop_last()) || codes.last() is Letter
    }
}

/// Whether a scan holds the marker of a dual-role key.
pub open spec fn has_sticky(codes: Seq<ReportCodes>) -> bool
    decreases codes.len(),
{
    if codes.len() == 0 {
        false
    } else {
        has_sticky(codes.drop_last()) || codes.last() is Sticky
    }
}

/// Whether a scan holds a layer toggle.
pub open spec fn has_toggle(codes: Seq<ReportCodes>) -> bool
    decreases codes.len(),
{
    if codes.len() == 0 {
        false
    } else {
        has_toggle(codes.drop_last()) || codes.last() is LayerToggle
    }
}

/// The layer that a scan selects: the one of its last toggle if it has a
/// toggle, else the one of its first layer key, else none.
pub open spec fn chosen_layer(codes: Seq<ReportCodes>) -> Option<u8>
    decreases codes.len(),
{
    if codes.len() == 0 {
        None
    } else {
        let rest = chosen_layer(codes.drop_last());
        match codes.last() {
            ReportCodes::LayerToggle(layer) => Some(layer),
            ReportCodes::Layer(layer) => if rest is None {
                Some(layer)
            } else {
                rest
            },
            _ => rest,
        }
    }
}

/// Whether every key usage in a scan has a bit in the rollover bitmap.
pub open spec fn letters_in_range(codes: Seq<ReportCodes>) -> bool {
    forall|i: int|
        0 <= i < codes.len() ==> (#[trigger] codes[i] matches ReportCodes::Letter(code) ==> code
            < LETTER_LIMIT)
}

/// Whether a report can be made of a scan: every key usage has a bit in the
/// rollover bitmap, and the motion along each axis fits the report.
pub open spec fn reportable(codes: Seq<ReportCodes>) -> bool {
    &&& letters_in_range(codes)
    &&& i8::MIN <= x_sum(codes) <= i8::MAX
    &&& i8::MIN <= y_sum(codes) <= i8::MAX
    &&& i8::MIN <= scroll_sum(codes) <= i8::MAX
}

/// The latch after a tick in which the scan held a marker (`stick`) or a real
/// key (`pressed`) and gave the modifier byte `modifier`.
pub open spec fn stick_after(state: State, stick: bool, pressed: bool, modifier: u8) -> State {
    if stick {
        if pressed {
            State::Pressed
        } else {
            match state {
                State::Stick(held) => if modifier != 0 {
                    State::Stick(modifier)
                } else {
                    State::Stick(held)
                },
                State::Pressed => State::Pressed,
                State::Idle => if modifier != 0 {
                    State::Stick(modifier)
                } else {
                    State::Idle
                },
            }
        }
    } else {
        match state {
            State::Stick(held) => if pressed {
                State::Idle
            } else {
                State::Stick(held)
            },
            State::Pressed => State::Idle,
            State::Idle => State::Idle,
        }
    }
}

/// The modifier byte that a tick reports: the one of its scan, joined by the
/// latched one in the tick that uses the latch up.
pub open spec fn modifier_after(state: State, stick: bool, pressed: bool, modifier: u8) -> u8 {
    match state {
        State::Stick(held) => if !stick && pressed {
            modifier | held
        } else {
            modifier
        },
        _ => modifier,
    }
}

/// A modifier latched by a dual-role key that was tapped alone joins the
/// modifier byte of the next tick with a real key, whatever that tick holds
/// of its own, and of no tick after it.
pub proof fn lemma_sticky_modifier_applies_once(
    latched: u8,
    next: u8,
    later: u8,
    later_stick: bool,
    later_pressed: bool,
)
    requires
        latched != 0,
    ensures
        stick_after(State::Idle, true, false, latched) == State::Stick(latched),
        modifier_after(State::Idle, true, false, latched) == latched,
        modifier_after(State::Stick(latched), false, true, next) == next | latched,
        stick_after(State::Stick(latched), false, true, next) == State::Idle,
        modifier_after(State::Idle, later_stick, later_pressed, later) == later,
        stick_after(State::Stick(latched), false, false, next) == State::Stick(latched),
        modifier_after(State::Stick(latched), false, false, next) == next,
{
}

/// Whether `report` is the keyboard report of a scan taken with the latch in
/// `state`.
pub open spec fn is_key_report_of(
    report: KeyboardReportNKRO,
    state: State,
    codes: Seq<ReportCodes>,
) -> bool {
    &&& report.modifier == modifier_after(
        state,
        has_sticky(codes),
        has_letter(codes),
        modifier_bits(codes),
    )
    &&& forall|n: int| 0 <= n < NKRO_BYTES ==> #[trigger] report.nkro_keycodes[n] == letter_bits(codes, n)
}

/// The mouse report of a scan: the buttons, and the motion along each axis
/// whose throttle lets it pass.
pub open spec fn mouse_report_of(
    codes: Seq<ReportCodes>,
    motion_passes: bool,
    scroll_passes: bool,
) -> MouseReport {
    MouseReport {
        buttons: button_bits(codes),
        x: if has_motion(codes) && motion_passes {
            x_sum(codes) as i8
        } else {
            0
        },
        y: if has_motion(codes) && motion_passes {
            y_sum(codes) as i8
        } else {
            0
        },
        wheel: if has_scroll(codes) && scroll_passes {
            scroll_sum(codes) as i8
        } else {
            0
        },
        pan: 0,
    }
}

/// Whether a mouse report has to be sent after `last`: when a button changed
/// or anything moves.
pub open spec fn mouse_report_due(last: MouseReport, next: MouseReport) -> bool {
    last.buttons != next.buttons || next.x != 0 || next.y != 0 || next.wheel != 0
}

proof fn lemma_sum_bounds(codes: Seq<ReportCodes>)
    ensures
        -128 * codes.len() <= x_sum(codes) <= 127 * codes.len(),
        -128 * codes.len() <= y_sum(codes) <= 127 * codes.len(),
        -128 * codes.len() <= scroll_sum(codes) <= 127 * codes.len(),
    decreases codes.len(),
{
    if codes.len() > 0 {
        lemma_sum_bounds(codes.drop_last());
    }
}

proof fn lemma_no_motion_no_sum(codes: Seq<ReportCodes>)
    ensures
        !has_motion(codes) ==> x_sum(codes) == 0 && y_sum(codes) == 0,
        !has_scroll(codes) ==> scroll_sum(codes) == 0,
    decreases codes.len(),
{
    if codes.len() > 0 {
        lemma_no_motion_no_sum(codes.drop_last());
    }
}

/// Turns the codes of each scan into keyboard and mouse reports.
#[derive(Copy, Clone, Debug)]
pub struct Report {
    key_report: KeyboardReportNKRO,
    mouse_report: MouseReport,
    mouse_delta: MouseDelta,
    scroll_delta: MouseDelta,
    current_layer: usize,
    reset_layer: usize,
    stick: State,
}

impl Report {
    pub closed spec fn wf(&self) -> bool {
        self.mouse_delta.wf() && self.scroll_delta.wf()
    }

    /// The keyboard report that was sent last.
    pub closed spec fn key_report(&self) -> KeyboardReportNKRO {
        self.key_report
    }

    /// The mouse report that was sent last.
    pub closed spec fn mouse_report(&self) -> MouseReport {
        self.mouse_report
    }

    /// The throttle of the pointer motion.
    pub closed spec fn mouse_delta(&self) -> MouseDelta {
        self.mouse_delta
    }

    /// The throttle of the wheel motion.
    pub closed spec fn scroll_delta(&self) -> MouseDelta {
        self.scroll_delta
    }

    /// The base layer of the next scan.
    pub closed spec fn layer(&self) -> usize {
        self.current_layer
    }

    /// The layer that the base layer falls back to when no layer key is held.
    pub closed spec fn reset_layer(&self) -> usize {
        self.reset_layer
    }

    pub closed spec fn stick(&self) -> State {
        self.stick
    }

    /// Whether `now` is a time at which both throttles can be asked.
    pub open spec fn accepts(&self, now: u64) -> bool {
        self.mouse_delta().accepts(now) && self.scroll_delta().accepts(now)
    }

    pub fn new() -> (report: Self)
        ensures
            report.wf(),
            report.key_report().modifier == 0,
            report.key_report().nkro_keycodes@ == Seq::new(NKRO_BYTES as nat, |i: int| 0u8),
            report.mouse_report() == (MouseReport { buttons: 0, x: 0, y: 0, wheel: 0, pan: 0 }),
            report.layer() == 0,
            report.reset_layer() == 0,
            report.stick() == State::Idle,
            report.mouse_delta().initial_press() is None,
            report.scroll_delta().initial_press() is None,
            report.mouse_delta().terms() == (1000000u64, 500000u64),
            report.scroll_delta().terms() == (1000000u64, 500000u64),
            !report.mouse_delta().asked(),
            !report.scroll_delta().asked(),
    {
        Report {
            key_report: KeyboardReportNKRO::default(),
            mouse_report: MouseReport::default(),
            mouse_delta: MouseDelta::new(1000000, 500000),
            scroll_delta: MouseDelta::new(1000000, 500000),
            current_layer: 0,
            reset_layer: 0,
            stick: State::Idle,
        }
    }

    /// The base layer for the next scan.
    pub fn current_layer(&self) -> (layer: usize)
        ensures
            layer == self.layer(),
    {
        self.current_layer
    }

    /// Whether a report can be made of the codes in `pressed_keys`.
    pub fn can_report(pressed_keys: &heapless::Vec<ReportCodes, 64>) -> (ok: bool)
        ensures
            ok == reportable(report_codes(*pressed_keys)),
    {
        let codes = codes_as_slice(pressed_keys);
        let mut x: i32 = 0;
        let mut y: i32 = 0;
        let mut wheel: i32 = 0;
        let mut i: usize = 0;
        while i < codes.len()
            invariant
                i <= codes@.len() <= CODE_CAPACITY,
                codes@ == report_codes(*pressed_keys),
                letters_in_range(codes@.take(i as int)),
                x == x_sum(codes@.take(i as int)),
                y == y_sum(codes@.take(i as int)),
                wheel == scroll_sum(codes@.take(i as int)),
            decreases codes@.len() - i,
        {
            proof {
                assert(codes@.take(i + 1).drop_last() == codes@.take(i as int));
                lemma_sum_bounds(codes@.take(i as int));
            }
            match codes[i] {
                ReportCodes::Letter(code) => {
                    if code >= LETTER_LIMIT {
                        assert(!letters_in_range(codes@)) by {
                            assert(codes@[i as int] matches ReportCodes::Letter(c) && c
                                >= LETTER_LIMIT);
                        }
                        return false;
                    }
                },
                ReportCodes::MouseX(delta) => {
                    x += delta as i32;
                },
                ReportCodes::MouseY(delta) => {
                    y += delta as i32;
                },
                ReportCodes::MouseScroll(delta) => {
                    wheel += delta as i32;
                },
                _ => {},
            }
            assert(letters_in_range(codes@.take(i + 1))) by {
                assert forall|j: int| 0 <= j < i + 1 implies (#[trigger] codes@.take(i + 1)[j]
                    matches ReportCodes::Letter(code) ==> code < LETTER_LIMIT) by {
                    if j < i {
                        assert(codes@.take(i as int)[j] == codes@.take(i + 1)[j]);
                    }
                }
            }
            i += 1;
        }
        assert(codes@.take(i as int) == codes@);
        -128 <= x && x <= 127 && -128 <= y && y <= 127 && -128 <= wheel && wheel <= 127
    }

    /// Whether a tick at `now` with the codes `codes` turns `self` into
    /// `after` and sends `reports`.
    ///
    /// The keyboard report of the tick is sent, and kept, if it differs from
    /// the one kept; the mouse report if a button changed or anything moves.
    /// A throttle is asked only if the scan moves its axis, and ends its
    /// motion otherwise. The layer of the next scan is the one the scan
    /// selects, or the one toggled last.
    pub open spec fn reported(
        &self,
        after: &Self,
        codes: Seq<ReportCodes>,
        now: u64,
        reports: (Option<KeyboardReportNKRO>, Option<MouseReport>),
    ) -> bool {
        let next = mouse_report_of(
            codes,
            self.mouse_delta().passes(now),
            self.scroll_delta().passes(now),
        );
        let due = mouse_report_due(self.mouse_report(), next);
        &&& is_key_report_of(after.key_report(), self.stick(), codes)
        &&& reports.0 matches Some(sent) ==> sent == after.key_report() && !(sent.modifier
            == self.key_report().modifier && sent.nkro_keycodes@
            == self.key_report().nkro_keycodes@)
        &&& reports.0 is None ==> after.key_report() == self.key_report()
        &&& reports.1 == if due {
            Some(next)
        } else {
            None
        }
        &&& after.mouse_report() == if due {
            next
        } else {
            self.mouse_report()
        }
        &&& after.mouse_delta() == (if has_motion(codes) {
            self.mouse_delta().after_check(now)
        } else {
            self.mouse_delta()
        }).after_reset()
        &&& after.scroll_delta() == (if has_scroll(codes) {
            self.scroll_delta().after_check(now)
        } else {
            self.scroll_delta()
        }).after_reset()
        &&& after.stick() == stick_after(
            self.stick(),
            has_sticky(codes),
            has_letter(codes),
            modifier_bits(codes),
        )
        &&& after.layer() == match chosen_layer(codes) {
            Some(layer) => layer as usize,
            None => self.reset_layer(),
        }
        &&& after.reset_layer() == match chosen_layer(codes) {
            Some(layer) => if has_toggle(codes) {
                layer as usize
            } else {
                self.reset_layer()
            },
            None => self.reset_layer(),
        }
    }

    /// Whether `now` is a time at which a report can be made.
    pub fn can_tick(&self, now: u64) -> (ok: bool)
        ensures
            ok == self.accepts(now),
    {
        self.mouse_delta.can_check(now) && self.scroll_delta.can_check(now)
    }

    /// Makes the reports of one tick like `generate_report` if they can be
    /// made, and else leaves everything as it is: when a key usage has no
    /// bit in the report, the motion along an axis does not fit it, or `now`
    /// lies before the start of a motion that goes on or too close to the
    /// end of time.
    pub fn try_generate_report(&mut self, pressed_keys: &heapless::Vec<ReportCodes, 64>, now: u64) -> (reports:
        Option<(Option<KeyboardReportNKRO>, Option<MouseReport>)>)
        requires
            old(self).wf(),
        ensures
            final(self).wf(),
            reports is Some <==> old(self).accepts(now) && reportable(report_codes(*pressed_keys)),
            reports matches Some(sent) ==> old(self).reported(
                final(self),
                report_codes(*pressed_keys),
                now,
                sent,
            ),
            reports is None ==> *final(self) == *old(self),
    {
        if self.can_tick(now) && Report::can_report(pressed_keys) {
            Some(self.generate_report(pressed_keys, now))
        } else {
            None
        }
    }

    /// Makes the reports of one tick from the codes of its scan, taken at
    /// `now` microseconds. Returns the keyboard report if it differs from the
    /// one sent last, and the mouse report if a button changed or anything
    /// moves; both are then kept as the ones sent last. Also moves the latch
    /// of the dual-role keys, the throttles, and the base layer of the next
    /// scan.
    pub fn generate_report(&mut self, pressed_keys: &heapless::Vec<ReportCodes, 64>, now: u64) -> (reports:
        (Option<KeyboardReportNKRO>, Option<MouseReport>))
        requires
            old(self).wf(),
            old(self).accepts(now),
            reportable(report_codes(*pressed_keys)),
        ensures
            final(self).wf(),
            old(self).reported(final(self), report_codes(*pressed_keys), now, reports),
    {
        let codes = codes_as_slice(pressed_keys);
        let mut new_layer: Option<u8> = None;
        let mut new_key_report = KeyboardReportNKRO::default();
        let mut new_mouse_report = MouseReport::default();
        let mut pressed = false;
        let mut stick = false;
        let mut toggle = false;
        let mut x: i32 = 0;
        let mut y: i32 = 0;
        let mut wheel: i32 = 0;
        let mut i: usize = 0;
        while i < codes.len()
            invariant
                i <= codes@.len() <= CODE_CAPACITY,
                codes@ == report_codes(*pressed_keys),
                letters_in_range(codes@),
                old(self).wf(),
                old(self).accepts(now),
                self.key_report == old(self).key_report,
                self.mouse_report == old(self).mouse_report,
                self.current_layer == old(self).current_layer,
                self.reset_layer == old(self).reset_layer,
                self.stick == old(self).stick,
                self.mouse_delta == if has_motion(codes@.take(i as int)) {
                    old(self).mouse_delta.after_check(now)
                } else {
                    old(self).mouse_delta
                },
                self.scroll_delta == if has_scroll(codes@.take(i as int)) {
                    old(self).scroll_delta.after_check(now)
                } else {
                    old(self).scroll_delta
                },
                new_key_report.modifier == modifier_bits(codes@.take(i as int)),
                forall|n: int|
                    0 <= n < NKRO_BYTES ==> #[trigger] new_key_report.nkro_keycodes[n]
                        == letter_bits(codes@.take(i as int), n),
                new_mouse_report.buttons == button_bits(codes@.take(i as int)),
                new_mouse_report.x == 0 && new_mouse_report.y == 0 && new_mouse_report.wheel == 0
                    && new_mouse_report.pan == 0,
                x == if old(self).mouse_delta.passes(now) {
                    x_sum(codes@.take(i as int))
                } else {
                    0
                },
                y == if old(self).mouse_delta.passes(now) {
                    y_sum(codes@.take(i as int))
                } else {
                    0
                },
                wheel == if old(self).scroll_delta.passes(now) {
                    scroll_sum(codes@.take(i as int))
                } else {
                    0
                },
                pressed == has_letter(codes@.take(i as int)),
                stick == has_sticky(codes@.take(i as int)),
                toggle == has_toggle(codes@.take(i as int)),
                new_layer == chosen_layer(codes@.take(i as int)),
            decreases codes@.len() - i,
        {
            proof {
                assert(codes@.take(i + 1).drop_last() == codes@.take(i as int));
                assert(codes@.take(i + 1).last() == codes@[i as int]);
                lemma_sum_bounds(codes@.take(i as int));
                lemma_check_once(old(self).mouse_delta, now, now);
                lemma_check_once(old(self).scroll_delta, now, now);
            }
            match codes[i] {
                ReportCodes::Modifier(code) => {
                    let b_idx = code % 8;
                    set_bit(&mut new_key_report.modifier, 1, b_idx);
                },
                ReportCodes::Letter(code) => {
                    let n_idx = (code / 8) as usize;
                    let b_idx = code % 8;
                    let mut byte = new_key_report.nkro_keycodes[n_idx];
                    set_bit(&mut byte, 1, b_idx);
                    new_key_report.nkro_keycodes[n_idx] = byte;
                    pressed = true;
                },
                ReportCodes::MouseButton(code) => {
                    let b_idx = code % 8;
                    set_bit(&mut new_mouse_report.buttons, 1, b_idx);
                },
                ReportCodes::MouseX(code) => {
                    if self.mouse_delta.check(now) {
                        x += code as i32;
                    }
                },
                ReportCodes::MouseY(code) => {
                    if self.mouse_delta.check(now) {
                        y += code as i32;
                    }
                },
                ReportCodes::MouseScroll(code) => {
                    if self.scroll_delta.check(now) {
                        wheel += code as i32;
                    }
                },
                ReportCodes::LayerToggle(layer) => {
                    new_layer = Some(layer);
                    toggle = true;
                },
                ReportCodes::Layer(layer) => {
                    if new_layer.is_none() {
                        new_layer = Some(layer);
                    }
                },
                ReportCodes::Sticky => {
                    stick = true;
                },
            }
            i += 1;
        }
        assert(codes@.take(i as int) == codes@);
        proof {
            lemma_no_motion_no_sum(codes@);
        }
        new_mouse_report.x = x as i8;
        new_mouse_report.y = y as i8;
        new_mouse_report.wheel = wheel as i8;

        self.mouse_delta.reset();
        self.scroll_delta.reset();
        if stick {
            if pressed {
                self.stick = State::Pressed;
            } else {
                match self.stick {
                    State::Stick(_) => {
                        if new_key_report.modifier != 0 {
                            self.stick = State::Stick(new_key_report.modifier)
                        }
                    },
                    State::Pressed => {},
                    State::Idle => {
                        if new_key_report.modifier != 0 {
                            self.stick = State::Stick(new_key_report.modifier)
                        } else {
                            self.stick = State::Idle;
                        }
                    },
                }
            }
        } else {
            match self.stick {
                State::Stick(val) => {
                    if pressed {
                        new_key_report.modifier = new_key_report.modifier | val;
                        self.stick = State::Idle;
                    }
                },
                State::Pressed => {
                    self.stick = State::Idle;
                },
                State::Idle => {},
            }
        }

        match new_layer {
            Some(layer) => {
                if toggle {
                    self.reset_layer = layer as usize;
                }
                self.current_layer = layer as usize;
            },
            None => {
                self.current_layer = self.reset_layer;
            },
        }
        let mut key_sent: Option<KeyboardReportNKRO> = None;
        let mut mouse_sent: Option<MouseReport> = None;
        if !self.key_report.same_as(&new_key_report) {
            self.key_report = new_key_report;
            key_sent = Some(new_key_report);
        } else {
            assert(self.key_report.nkro_keycodes =~= new_key_report.nkro_keycodes);
        }
        if self.mouse_report.buttons != new_mouse_report.buttons || new_mouse_report.x != 0
            || new_mouse_report.y != 0 || new_mouse_report.wheel != 0 {
            self.mouse_report = new_mouse_report;
            mouse_sent = Some(new_mouse_report);
        }
        (key_sent, mouse_sent)
    }
}

} // verus!
