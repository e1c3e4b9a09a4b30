use vstd::prelude::*;

verus! {

/// Pointer travel, in report units, that one throttled tick of a mouse
/// movement key contributes.
pub const MOUSE_STEP: i8 = 5;

/// Wheel travel that one throttled tick of a scroll key contributes.
pub const SCROLL_STEP: i8 = 1;

/// First usage that is a keyboard modifier (left control).
pub const FIRST_MODIFIER: u8 = 0xE0;

/// Number of usages that the rollover bitmap of a keyboard report can hold.
pub const LETTER_LIMIT: u8 = 224;

/// What a resolved key contributes to a report.
#[derive(Clone, Copy, Debug, PartialEq, Eq, Structural)]
pub enum ReportCodes {
    /// A modifier usage; its bit in the modifier byte is the usage modulo 8.
    Modifier(u8),
    /// A key usage held in the rollover bitmap.
    Letter(u8),
    /// A mouse button; its bit in the button byte is the value modulo 8.
    MouseButton(u8),
    MouseX(i8),
    MouseY(i8),
    MouseScroll(i8),
    /// Makes the layer the base layer until another toggle replaces it.
    LayerToggle(u8),
    /// Selects the layer for as long as the key is held.
    Layer(u8),
    /// Marks a dual-role key, whose modifier may latch onto the next press.
    Sticky,
}

/// The codes a key map cell can name: keyboard usages by their HID usage id,
/// followed by the mouse and layer codes in the range the HID tables leave free.
#[derive(Clone, Copy, Debug, PartialEq, Eq, Structural)]
pub enum KeyCodes {
    Undefined,
    KeyboardAa,
    KeyboardBb,
    KeyboardCc,
    KeyboardDd,
    KeyboardEe,
    KeyboardFf,
    KeyboardGg,
    KeyboardHh,
    KeyboardIi,
    KeyboardJj,
    KeyboardKk,
    KeyboardLl,
    KeyboardMm,
    KeyboardNn,
    KeyboardOo,
    KeyboardPp,
    KeyboardQq,
    KeyboardRr,
    KeyboardSs,
    KeyboardTt,
    KeyboardUu,
    KeyboardVv,
    KeyboardWw,
    KeyboardXx,
    KeyboardYy,
    KeyboardZz,
    Keyboard1Exclamation,
    Keyboard2At,
    Keyboard3Hash,
    Keyboard4Dollar,
    Keyboard5Percent,
    Keyboard6Caret,
    Keyboard7Ampersand,
    Keyboard8Asterisk,
    Keyboard9OpenParens,
    Keyboard0CloseParens,
    KeyboardEnter,
    KeyboardEscape,
    KeyboardBackspace,
    KeyboardTab,
    KeyboardSpacebar,
    KeyboardDashUnderscore,
    KeyboardEqualPlus,
    KeyboardOpenBracketBrace,
    KeyboardCloseBracketBrace,
    KeyboardBackslashBar,
    KeyboardNonUSHash,
    KeyboardSemiColon,
    KeyboardSingleDoubleQuote,
    KeyboardBacktickTilde,
    KeyboardCommaLess,
    KeyboardPeriodGreater,
    KeyboardSlashQuestion,
    KeyboardCapsLock,
    KeyboardF1,
    KeyboardF2,
    KeyboardF3,
    KeyboardF4,
    KeyboardF5,
    KeyboardF6,
    KeyboardF7,
    KeyboardF8,
    KeyboardF9,
    KeyboardF10,
    KeyboardF11,
    KeyboardF12,
    KeyboardPrintScreen,
    KeyboardScrollLock,
    KeyboardPause,
    KeyboardInsert,
    KeyboardHome,
    KeyboardPageUp,
    KeyboardDelete,
    KeyboardEnd,
    KeyboardPageDown,
    KeyboardRightArrow,
    KeyboardLeftArrow,
    KeyboardDownArrow,
    KeyboardUpArrow,
    KeyboardMute,
    KeyboardVolumeUp,
    KeyboardVolumeDown,
    KeyboardLeftControl,
    KeyboardLeftShift,
    KeyboardLeftAlt,
    KeyboardLeftGUI,
    KeyboardRightControl,
    KeyboardRightShift,
    KeyboardRightAlt,
    KeyboardRightGUI,
    MouseLeftClick,
    MouseRightClick,
    MouseMiddleClick,
    MouseXPos,
    MouseXNeg,
    MouseYPos,
    MouseYNeg,
    MouseScrollPos,
    MouseScrollNeg,
    Layer0,
    Layer1,
    Layer2,
    Layer3,
    Layer4,
    Layer5,
    LayerToggle0,
    LayerToggle1,
    LayerToggle2,
    LayerToggle3,
    LayerToggle4,
    LayerToggle5,
}

impl KeyCodes {
    /// The byte that stands for this code in a stored or transmitted key map.
    #[verifier::opaque]
    pub open spec fn usage(self) -> u8 {
        match self {
            KeyCodes::Undefined => 0x00,
            KeyCodes::KeyboardAa => 0x04,
            KeyCodes::KeyboardBb => 0x05,
            KeyCodes::KeyboardCc => 0x06,
            KeyCodes::KeyboardDd => 0x07,
            KeyCodes::KeyboardEe => 0x08,
            KeyCodes::KeyboardFf => 0x09,
            KeyCodes::KeyboardGg => 0x0A,
            KeyCodes::KeyboardHh => 0x0B,
            KeyCodes::KeyboardIi => 0x0C,
            KeyCodes::KeyboardJj => 0x0D,
            KeyCodes::KeyboardKk => 0x0E,
            KeyCodes::KeyboardLl => 0x0F,
            KeyCodes::KeyboardMm => 0x10,
            KeyCodes::KeyboardNn => 0x11,
            KeyCodes::KeyboardOo => 0x12,
            KeyCodes::KeyboardPp => 0x13,
            KeyCodes::KeyboardQq => 0x14,
            KeyCodes::KeyboardRr => 0x15,
            KeyCodes::KeyboardSs => 0x16,
            KeyCodes::KeyboardTt => 0x17,
            KeyCodes::KeyboardUu => 0x18,
            KeyCodes::KeyboardVv => 0x19,
            KeyCodes::KeyboardWw => 0x1A,
            KeyCodes::KeyboardXx => 0x1B,
            KeyCodes::KeyboardYy => 0x1C,
            KeyCodes::KeyboardZz => 0x1D,
            KeyCodes::Keyboard1Exclamation => 0x1E,
            KeyCodes::Keyboard2At => 0x1F,
            KeyCodes::Keyboard3Hash => 0x20,
            KeyCodes::Keyboard4Dollar => 0x21,
            KeyCodes::Keyboard5Percent => 0x22,
            KeyCodes::Keyboard6Caret => 0x23,
            KeyCodes::Keyboard7Ampersand => 0x24,
            KeyCodes::Keyboard8Asterisk => 0x25,
            KeyCodes::Keyboard9OpenParens => 0x26,
            KeyCodes::Keyboard0CloseParens => 0x27,
            KeyCodes::KeyboardEnter => 0x28,
            KeyCodes::KeyboardEscape => 0x29,
            KeyCodes::KeyboardBackspace => 0x2A,
            KeyCodes::KeyboardTab => 0x2B,
            KeyCodes::KeyboardSpacebar => 0x2C,
            KeyCodes::KeyboardDashUnderscore => 0x2D,
            KeyCodes::KeyboardEqualPlus => 0x2E,
            KeyCodes::KeyboardOpenBracketBrace => 0x2F,
            KeyCodes::KeyboardCloseBracketBrace => 0x30,
            KeyCodes::KeyboardBackslashBar => 0x31,
            KeyCodes::KeyboardNonUSHash => 0x32,
            KeyCodes::KeyboardSemiColon => 0x33,
            KeyCodes::KeyboardSingleDoubleQuote => 0x34,
            KeyCodes::KeyboardBacktickTilde => 0x35,
            KeyCodes::KeyboardCommaLess => 0x36,
            KeyCodes::KeyboardPeriodGreater => 0x37,
            KeyCodes::KeyboardSlashQuestion => 0x38,
            KeyCodes::KeyboardCapsLock => 0x39,
            KeyCodes::KeyboardF1 => 0x3A,
            KeyCodes::KeyboardF2 => 0x3B,
            KeyCodes::KeyboardF3 => 0x3C,
            KeyCodes::KeyboardF4 => 0x3D,
            KeyCodes::KeyboardF5 => 0x3E,
            KeyCodes::KeyboardF6 => 0x3F,
            KeyCodes::KeyboardF7 => 0x40,
            KeyCodes::KeyboardF8 => 0x41,
            KeyCodes::KeyboardF9 => 0x42,
            KeyCodes::KeyboardF10 => 0x43,
            KeyCodes::KeyboardF11 => 0x44,
            KeyCodes::KeyboardF12 => 0x45,
            KeyCodes::KeyboardPrintScreen => 0x46,
            KeyCodes::KeyboardScrollLock => 0x47,
            KeyCodes::KeyboardPause => 0x48,
            KeyCodes::KeyboardInsert => 0x49,
            KeyCodes::KeyboardHome => 0x4A,
            KeyCodes::KeyboardPageUp => 0x4B,
            KeyCodes::KeyboardDelete => 0x4C,
            KeyCodes::KeyboardEnd => 0x4D,
            KeyCodes::KeyboardPageDown => 0x4E,
            KeyCodes::KeyboardRightArrow => 0x4F,
            KeyCodes::KeyboardLeftArrow => 0x50,
            KeyCodes::KeyboardDownArrow => 0x51,
            KeyCodes::KeyboardUpArrow => 0x52,
            KeyCodes::KeyboardMute => 0x7F,
            KeyCodes::KeyboardVolumeUp => 0x80,
            KeyCodes::KeyboardVolumeDown => 0x81,
            KeyCodes::KeyboardLeftControl => 0xE0,
            KeyCodes::KeyboardLeftShift => 0xE1,
            KeyCodes::KeyboardLeftAlt => 0xE2,
            KeyCodes::KeyboardLeftGUI => 0xE3,
            KeyCodes::KeyboardRightControl => 0xE4,
            KeyCodes::KeyboardRightShift => 0xE5,
            KeyCodes::KeyboardRightAlt => 0xE6,
            KeyCodes::KeyboardRightGUI => 0xE7,
            KeyCodes::MouseLeftClick => 0xE8,
            KeyCodes::MouseRightClick => 0xE9,
            KeyCodes::MouseMiddleClick => 0xEA,
            KeyCodes::MouseXPos => 0xEB,
            KeyCodes::MouseXNeg => 0xEC,
            KeyCodes::MouseYPos => 0xED,
            KeyCodes::MouseYNeg => 0xEE,
            KeyCodes::MouseScrollPos => 0xEF,
            KeyCodes::MouseScrollNeg => 0xF0,
            KeyCodes::Layer0 => 0xF1,
            KeyCodes::Layer1 => 0xF2,
            KeyCodes::Layer2 => 0xF3,
            KeyCodes::Layer3 => 0xF4,
            KeyCodes::Layer4 => 0xF5,
            KeyCodes::Layer5 => 0xF6,
            KeyCodes::LayerToggle0 => 0xF7,
            KeyCodes::LayerToggle1 => 0xF8,
            KeyCodes::LayerToggle2 => 0xF9,
            KeyCodes::LayerToggle3 => 0xFA,
            KeyCodes::LayerToggle4 => 0xFB,
            KeyCodes::LayerToggle5 => 0xFC,
        }
    }

    /// The code a byte stands for; bytes that no code uses read as `Undefined`.
    #[verifier::opaque]
    pub open spec fn of_usage(byte: u8) -> KeyCodes {
        if byte == 0x04 {
            KeyCodes::KeyboardAa
        }
        else if byte == 0x05 {
            KeyCodes::KeyboardBb
        }
        else if byte == 0x06 {
            KeyCodes::KeyboardCc
        }
        else if byte == 0x07 {
            KeyCodes::KeyboardDd
        }
        else if byte == 0x08 {
            KeyCodes::KeyboardEe
        }
        else if byte == 0x09 {
            KeyCodes::KeyboardFf
        }
        else if byte == 0x0A {
            KeyCodes::KeyboardGg
        }
        else if byte == 0x0B {
            KeyCodes::KeyboardHh
        }
        else if byte == 0x0C {
            KeyCodes::KeyboardIi
        }
        else if byte == 0x0D {
            KeyCodes::KeyboardJj
        }
        else if byte == 0x0E {
            KeyCodes::KeyboardKk
        }
        else if byte == 0x0F {
            KeyCodes::KeyboardLl
        }
        else if byte == 0x10 {
            KeyCodes::KeyboardMm
        }
        else if byte == 0x11 {
            KeyCodes::KeyboardNn
        }
        else if byte == 0x12 {
            KeyCodes::KeyboardOo
        }
        else if byte == 0x13 {
            KeyCodes::KeyboardPp
        }
        else if byte == 0x14 {
            KeyCodes::KeyboardQq
        }
        else if byte == 0x15 {
            KeyCodes::KeyboardRr
        }
        else if byte == 0x16 {
            KeyCodes::KeyboardSs
        }
        else if byte == 0x17 {
            KeyCodes::KeyboardTt
        }
        else if byte == 0x18 {
            KeyCodes::KeyboardUu
        }
        else if byte == 0x19 {
            KeyCodes::KeyboardVv
        }
        else if byte == 0x1A {
            KeyCodes::KeyboardWw
        }
        else if byte == 0x1B {
            KeyCodes::KeyboardXx
        }
        else if byte == 0x1C {
            KeyCodes::KeyboardYy
        }
        else if byte == 0x1D {
            KeyCodes::KeyboardZz
        }
        else if byte == 0x1E {
            KeyCodes::Keyboard1Exclamation
        }
        else if byte == 0x1F {
            KeyCodes::Keyboard2At
        }
        else if byte == 0x20 {
            KeyCodes::Keyboard3Hash
        }
        else if byte == 0x21 {
            KeyCodes::Keyboard4Dollar
        }
        else if byte == 0x22 {
            KeyCodes::Keyboard5Percent
        }
        else if byte == 0x23 {
            KeyCodes::Keyboard6Caret
        }
        else if byte == 0x24 {
            KeyCodes::Keyboard7Ampersand
        }
        else if byte == 0x25 {
            KeyCodes::Keyboard8Asterisk
        }
        else if byte == 0x26 {
            KeyCodes::Keyboard9OpenParens
        }
        else if byte == 0x27 {
            KeyCodes::Keyboard0CloseParens
        }
        else if byte == 0x28 {
            KeyCodes::KeyboardEnter
        }
        else if byte == 0x29 {
            KeyCodes::KeyboardEscape
        }
        else if byte == 0x2A {
            KeyCodes::KeyboardBackspace
        }
        else if byte == 0x2B {
            KeyCodes::KeyboardTab
        }
        else if byte == 0x2C {
            KeyCodes::KeyboardSpacebar
        }
        else if byte == 0x2D {
            KeyCodes::KeyboardDashUnderscore
        }
        else if byte == 0x2E {
            KeyCodes::KeyboardEqualPlus
        }
        else if byte == 0x2F {
            KeyCodes::KeyboardOpenBracketBrace
        }
        else if byte == 0x30 {
            KeyCodes::KeyboardCloseBracketBrace
        }
        else if byte == 0x31 {
            KeyCodes::KeyboardBackslashBar
        }
        else if byte == 0x32 {
            KeyCodes::KeyboardNonUSHash
        }
        else if byte == 0x33 {
            KeyCodes::KeyboardSemiColon
        }
        else if byte == 0x34 {
            KeyCodes::KeyboardSingleDoubleQuote
        }
        else if byte == 0x35 {
            KeyCodes::KeyboardBacktickTilde
        }
        else if byte == 0x36 {
            KeyCodes::KeyboardCommaLess
        }
        else if byte == 0x37 {
            KeyCodes::KeyboardPeriodGreater
        }
        else if byte == 0x38 {
            KeyCodes::KeyboardSlashQuestion
        }
        else if byte == 0x39 {
            KeyCodes::KeyboardCapsLock
        }
        else if byte == 0x3A {
            KeyCodes::KeyboardF1
        }
        else if byte == 0x3B {
            KeyCodes::KeyboardF2
        }
        else if byte == 0x3C {
            KeyCodes::KeyboardF3
        }
        else if byte == 0x3D {
            KeyCodes::KeyboardF4
        }
        else if byte == 0x3E {
            KeyCodes::KeyboardF5
        }
        else if byte == 0x3F {
            KeyCodes::KeyboardF6
        }
        else if byte == 0x40 {
            KeyCodes::KeyboardF7
        }
        else if byte == 0x41 {
            KeyCodes::KeyboardF8
        }
        else if byte == 0x42 {
            KeyCodes::KeyboardF9
        }
        else if byte == 0x43 {
            KeyCodes::KeyboardF10
        }
        else if byte == 0x44 {
            KeyCodes::KeyboardF11
        }
        else if byte == 0x45 {
            KeyCodes::KeyboardF12
        }
        else if byte == 0x46 {
            KeyCodes::KeyboardPrintScreen
        }
        else if byte == 0x47 {
            KeyCodes::KeyboardScrollLock
        }
        else if byte == 0x48 {
            KeyCodes::KeyboardPause
        }
        else if byte == 0x49 {
            KeyCodes::KeyboardInsert
        }
        else if byte == 0x4A {
            KeyCodes::KeyboardHome
        }
        else if byte == 0x4B {
            KeyCodes::KeyboardPageUp
        }
        else if byte == 0x4C {
            KeyCodes::KeyboardDelete
        }
        else if byte == 0x4D {
            KeyCodes::KeyboardEnd
        }
        else if byte == 0x4E {
            KeyCodes::KeyboardPageDown
        }
        else if byte == 0x4F {
            KeyCodes::KeyboardRightArrow
        }
        else if byte == 0x50 {
            KeyCodes::KeyboardLeftArrow
        }
        else if byte == 0x51 {
            KeyCodes::KeyboardDownArrow
        }
        else if byte == 0x52 {
            KeyCodes::KeyboardUpArrow
        }
        else if byte == 0x7F {
            KeyCodes::KeyboardMute
        }
        else if byte == 0x80 {
            KeyCodes::KeyboardVolumeUp
        }
        else if byte == 0x81 {
            KeyCodes::KeyboardVolumeDown
        }
        else if byte == 0xE0 {
            KeyCodes::KeyboardLeftControl
        }
        else if byte == 0xE1 {
            KeyCodes::KeyboardLeftShift
        }
        else if byte == 0xE2 {
            KeyCodes::KeyboardLeftAlt
        }
        else if byte == 0xE3 {
            KeyCodes::KeyboardLeftGUI
        }
        else if byte == 0xE4 {
            KeyCodes::KeyboardRightControl
        }
        else if byte == 0xE5 {
            KeyCodes::KeyboardRightShift
        }
        else if byte == 0xE6 {
            KeyCodes::KeyboardRightAlt
        }
        else if byte == 0xE7 {
            KeyCodes::KeyboardRightGUI
        }
        else if byte == 0xE8 {
            KeyCodes::MouseLeftClick
        }
        else if byte == 0xE9 {
            KeyCodes::MouseRightClick
        }
        else if byte == 0xEA {
            KeyCodes::MouseMiddleClick
        }
        else if byte == 0xEB {
            KeyCodes::MouseXPos
        }
        else if byte == 0xEC {
            KeyCodes::MouseXNeg
        }
        else if byte == 0xED {
            KeyCodes::MouseYPos
        }
        else if byte == 0xEE {
            KeyCodes::MouseYNeg
        }
        else if byte == 0xEF {
            KeyCodes::MouseScrollPos
        }
        else if byte == 0xF0 {
            KeyCodes::MouseScrollNeg
        }
        else if byte == 0xF1 {
            KeyCodes::Layer0
        }
        else if byte == 0xF2 {
            KeyCodes::Layer1
        }
        else if byte == 0xF3 {
            KeyCodes::Layer2
        }
        else if byte == 0xF4 {
            KeyCodes::Layer3
        }
        else if byte == 0xF5 {
            KeyCodes::Layer4
        }
        else if byte == 0xF6 {
            KeyCodes::Layer5
        }
        else if byte == 0xF7 {
            KeyCodes::LayerToggle0
        }
        else if byte == 0xF8 {
            KeyCodes::LayerToggle1
        }
        else if byte == 0xF9 {
            KeyCodes::LayerToggle2
        }
        else if byte == 0xFA {
            KeyCodes::LayerToggle3
        }
        else if byte == 0xFB {
            KeyCodes::LayerToggle4
        }
        else if byte == 0xFC {
            KeyCodes::LayerToggle5
        }
        else {
            KeyCodes::Undefined
        }
    }

    /// What pressing a key with this code contributes to a report.
    #[verifier::opaque]
    pub open spec fn report_code(self) -> ReportCodes {
        match self {
            KeyCodes::Layer0 => ReportCodes::Layer(0),
            KeyCodes::Layer1 => ReportCodes::Layer(1),
            KeyCodes::Layer2 => ReportCodes::Layer(2),
            KeyCodes::Layer3 => ReportCodes::Layer(3),
            KeyCodes::Layer4 => ReportCodes::Layer(4),
            KeyCodes::Layer5 => ReportCodes::Layer(5),
            KeyCodes::LayerToggle0 => ReportCodes::LayerToggle(0),
            KeyCodes::LayerToggle1 => ReportCodes::LayerToggle(1),
            KeyCodes::LayerToggle2 => ReportCodes::LayerToggle(2),
            KeyCodes::LayerToggle3 => ReportCodes::LayerToggle(3),
            KeyCodes::LayerToggle4 => ReportCodes::LayerToggle(4),
            KeyCodes::LayerToggle5 => ReportCodes::LayerToggle(5),
            KeyCodes::MouseLeftClick => ReportCodes::MouseButton(0),
            KeyCodes::MouseRightClick => ReportCodes::MouseButton(1),
            KeyCodes::MouseMiddleClick => ReportCodes::MouseButton(2),
            KeyCodes::MouseXPos => ReportCodes::MouseX(MOUSE_STEP),
            KeyCodes::MouseXNeg => ReportCodes::MouseX((-MOUSE_STEP) as i8),
            KeyCodes::MouseYPos => ReportCodes::MouseY(MOUSE_STEP),
            KeyCodes::MouseYNeg => ReportCodes::MouseY((-MOUSE_STEP) as i8),
            KeyCodes::MouseScrollPos => ReportCodes::MouseScroll(SCROLL_STEP),
            KeyCodes::MouseScrollNeg => ReportCodes::MouseScroll((-SCROLL_STEP) as i8),
            KeyCodes::KeyboardLeftControl => ReportCodes::Modifier(self.usage()),
            KeyCodes::KeyboardLeftShift => ReportCodes::Modifier(self.usage()),
            KeyCodes::KeyboardLeftAlt => ReportCodes::Modifier(self.usage()),
            KeyCodes::KeyboardLeftGUI => ReportCodes::Modifier(self.usage()),
            KeyCodes::KeyboardRightControl => ReportCodes::Modifier(self.usage()),
            KeyCodes::KeyboardRightShift => ReportCodes::Modifier(self.usage()),
            KeyCodes::KeyboardRightAlt => ReportCodes::Modifier(self.usage()),
            KeyCodes::KeyboardRightGUI => ReportCodes::Modifier(self.usage()),
            _ => ReportCodes::Letter(self.usage()),
        }
    }

    pub fn to_u8(self) -> (byte: u8)
        ensures
            byte == self.usage(),
    {
        proof {
            reveal(KeyCodes::usage);
        }
        match self {
            KeyCodes::Undefined => 0x00,
            KeyCodes::KeyboardAa => 0x04,
            KeyCodes::KeyboardBb => 0x05,
            KeyCodes::KeyboardCc => 0x06,
            KeyCodes::KeyboardDd => 0x07,
            KeyCodes::KeyboardEe => 0x08,
            KeyCodes::KeyboardFf => 0x09,
            KeyCodes::KeyboardGg => 0x0A,
            KeyCodes::KeyboardHh => 0x0B,
            KeyCodes::KeyboardIi => 0x0C,
            KeyCodes::KeyboardJj => 0x0D,
            KeyCodes::KeyboardKk => 0x0E,
            KeyCodes::KeyboardLl => 0x0F,
            KeyCodes::KeyboardMm => 0x10,
            KeyCodes::KeyboardNn => 0x11,
            KeyCodes::KeyboardOo => 0x12,
            KeyCodes::KeyboardPp => 0x13,
            KeyCodes::KeyboardQq => 0x14,
            KeyCodes::KeyboardRr => 0x15,
            KeyCodes::KeyboardSs => 0x16,
            KeyCodes::KeyboardTt => 0x17,
            KeyCodes::KeyboardUu => 0x18,
            KeyCodes::KeyboardVv => 0x19,
            KeyCodes::KeyboardWw => 0x1A,
            KeyCodes::KeyboardXx => 0x1B,
            KeyCodes::KeyboardYy => 0x1C,
            KeyCodes::KeyboardZz => 0x1D,
            KeyCodes::Keyboard1Exclamation => 0x1E,
            KeyCodes::Keyboard2At => 0x1F,
            KeyCodes::Keyboard3Hash => 0x20,
            KeyCodes::Keyboard4Dollar => 0x21,
            KeyCodes::Keyboard5Percent => 0x22,
            KeyCodes::Keyboard6Caret => 0x23,
            KeyCodes::Keyboard7Ampersand => 0x24,
            KeyCodes::Keyboard8Asterisk => 0x25,
            KeyCodes::Keyboard9OpenParens => 0x26,
            KeyCodes::Keyboard0CloseParens => 0x27,
            KeyCodes::KeyboardEnter => 0x28,
            KeyCodes::KeyboardEscape => 0x29,
            KeyCodes::KeyboardBackspace => 0x2A,
            KeyCodes::KeyboardTab => 0x2B,
            KeyCodes::KeyboardSpacebar => 0x2C,
            KeyCodes::KeyboardDashUnderscore => 0x2D,
            KeyCodes::KeyboardEqualPlus => 0x2E,
            KeyCodes::KeyboardOpenBracketBrace => 0x2F,
            KeyCodes::KeyboardCloseBracketBrace => 0x30,
            KeyCodes::KeyboardBackslashBar => 0x31,
            KeyCodes::KeyboardNonUSHash => 0x32,
            KeyCodes::KeyboardSemiColon => 0x33,
            KeyCodes::KeyboardSingleDoubleQuote => 0x34,
            KeyCodes::KeyboardBacktickTilde => 0x35,
            KeyCodes::KeyboardCommaLess => 0x36,
            KeyCodes::KeyboardPeriodGreater => 0x37,
            KeyCodes::KeyboardSlashQuestion => 0x38,
            KeyCodes::KeyboardCapsLock => 0x39,
            KeyCodes::KeyboardF1 => 0x3A,
            KeyCodes::KeyboardF2 => 0x3B,
            KeyCodes::KeyboardF3 => 0x3C,
            KeyCodes::KeyboardF4 => 0x3D,
            KeyCodes::KeyboardF5 => 0x3E,
            KeyCodes::KeyboardF6 => 0x3F,
            KeyCodes::KeyboardF7 => 0x40,
            KeyCodes::KeyboardF8 => 0x41,
            KeyCodes::KeyboardF9 => 0x42,
            KeyCodes::KeyboardF10 => 0x43,
            KeyCodes::KeyboardF11 => 0x44,
            KeyCodes::KeyboardF12 => 0x45,
            KeyCodes::KeyboardPrintScreen => 0x46,
            KeyCodes::KeyboardScrollLock => 0x47,
            KeyCodes::KeyboardPause => 0x48,
            KeyCodes::KeyboardInsert => 0x49,
            KeyCodes::KeyboardHome => 0x4A,
            KeyCodes::KeyboardPageUp => 0x4B,
            KeyCodes::KeyboardDelete => 0x4C,
            KeyCodes::KeyboardEnd => 0x4D,
            KeyCodes::KeyboardPageDown => 0x4E,
            KeyCodes::KeyboardRightArrow => 0x4F,
            KeyCodes::KeyboardLeftArrow => 0x50,
            KeyCodes::KeyboardDownArrow => 0x51,
            KeyCodes::KeyboardUpArrow => 0x52,
            KeyCodes::KeyboardMute => 0x7F,
            KeyCodes::KeyboardVolumeUp => 0x80,
            KeyCodes::KeyboardVolumeDown => 0x81,
            KeyCodes::KeyboardLeftControl => 0xE0,
            KeyCodes::KeyboardLeftShift => 0xE1,
            KeyCodes::KeyboardLeftAlt => 0xE2,
            KeyCodes::KeyboardLeftGUI => 0xE3,
            KeyCodes::KeyboardRightControl => 0xE4,
            KeyCodes::KeyboardRightShift => 0xE5,
            KeyCodes::KeyboardRightAlt => 0xE6,
            KeyCodes::KeyboardRightGUI => 0xE7,
            KeyCodes::MouseLeftClick => 0xE8,
            KeyCodes::MouseRightClick => 0xE9,
            KeyCodes::MouseMiddleClick => 0xEA,
            KeyCodes::MouseXPos => 0xEB,
            KeyCodes::MouseXNeg => 0xEC,
            KeyCodes::MouseYPos => 0xED,
            KeyCodes::MouseYNeg => 0xEE,
            KeyCodes::MouseScrollPos => 0xEF,
            KeyCodes::MouseScrollNeg => 0xF0,
            KeyCodes::Layer0 => 0xF1,
            KeyCodes::Layer1 => 0xF2,
            KeyCodes::Layer2 => 0xF3,
            KeyCodes::Layer3 => 0xF4,
            KeyCodes::Layer4 => 0xF5,
            KeyCodes::Layer5 => 0xF6,
            KeyCodes::LayerToggle0 => 0xF7,
            KeyCodes::LayerToggle1 => 0xF8,
            KeyCodes::LayerToggle2 => 0xF9,
            KeyCodes::LayerToggle3 => 0xFA,
            KeyCodes::LayerToggle4 => 0xFB,
            KeyCodes::LayerToggle5 => 0xFC,
        }
    }

    pub fn from_u8(byte: u8) -> (code: KeyCodes)
        ensures
            code == KeyCodes::of_usage(byte),
    {
        proof {
            reveal(KeyCodes::of_usage);
        }
        match byte {
            0x04 => KeyCodes::KeyboardAa,
            0x05 => KeyCodes::KeyboardBb,
            0x06 => KeyCodes::KeyboardCc,
            0x07 => KeyCodes::KeyboardDd,
            0x08 => KeyCodes::KeyboardEe,
            0x09 => KeyCodes::KeyboardFf,
            0x0A => KeyCodes::KeyboardGg,
            0x0B => KeyCodes::KeyboardHh,
            0x0C => KeyCodes::KeyboardIi,
            0x0D => KeyCodes::KeyboardJj,
            0x0E => KeyCodes::KeyboardKk,
            0x0F => KeyCodes::KeyboardLl,
            0x10 => KeyCodes::KeyboardMm,
            0x11 => KeyCodes::KeyboardNn,
            0x12 => KeyCodes::KeyboardOo,
            0x13 => KeyCodes::KeyboardPp,
            0x14 => KeyCodes::KeyboardQq,
            0x15 => KeyCodes::KeyboardRr,
            0x16 => KeyCodes::KeyboardSs,
            0x17 => KeyCodes::KeyboardTt,
            0x18 => KeyCodes::KeyboardUu,
            0x19 => KeyCodes::KeyboardVv,
            0x1A => KeyCodes::KeyboardWw,
            0x1B => KeyCodes::KeyboardXx,
            0x1C => KeyCodes::KeyboardYy,
            0x1D => KeyCodes::KeyboardZz,
            0x1E => KeyCodes::Keyboard1Exclamation,
            0x1F => KeyCodes::Keyboard2At,
            0x20 => KeyCodes::Keyboard3Hash,
            0x21 => KeyCodes::Keyboard4Dollar,
            0x22 => KeyCodes::Keyboard5Percent,
            0x23 => KeyCodes::Keyboard6Caret,
            0x24 => KeyCodes::Keyboard7Ampersand,
            0x25 => KeyCodes::Keyboard8Asterisk,
            0x26 => KeyCodes::Keyboard9OpenParens,
            0x27 => KeyCodes::Keyboard0CloseParens,
            0x28 => KeyCodes::KeyboardEnter,
            0x29 => KeyCodes::KeyboardEscape,
            0x2A => KeyCodes::KeyboardBackspace,
            0x2B => KeyCodes::KeyboardTab,
            0x2C => KeyCodes::KeyboardSpacebar,
            0x2D => KeyCodes::KeyboardDashUnderscore,
            0x2E => KeyCodes::KeyboardEqualPlus,
            0x2F => KeyCodes::KeyboardOpenBracketBrace,
            0x30 => KeyCodes::KeyboardCloseBracketBrace,
            0x31 => KeyCodes::KeyboardBackslashBar,
            0x32 => KeyCodes::KeyboardNonUSHash,
            0x33 => KeyCodes::KeyboardSemiColon,
            0x34 => KeyCodes::KeyboardSingleDoubleQuote,
            0x35 => KeyCodes::KeyboardBacktickTilde,
            0x36 => KeyCodes::KeyboardCommaLess,
            0x37 => KeyCodes::KeyboardPeriodGreater,
            0x38 => KeyCodes::KeyboardSlashQuestion,
            0x39 => KeyCodes::KeyboardCapsLock,
            0x3A => KeyCodes::KeyboardF1,
            0x3B => KeyCodes::KeyboardF2,
            0x3C => KeyCodes::KeyboardF3,
            0x3D => KeyCodes::KeyboardF4,
            0x3E => KeyCodes::KeyboardF5,
            0x3F => KeyCodes::KeyboardF6,
            0x40 => KeyCodes::KeyboardF7,
            0x41 => KeyCodes::KeyboardF8,
            0x42 => KeyCodes::KeyboardF9,
            0x43 => KeyCodes::KeyboardF10,
            0x44 => KeyCodes::KeyboardF11,
            0x45 => KeyCodes::KeyboardF12,
            0x46 => KeyCodes::KeyboardPrintScreen,
            0x47 => KeyCodes::KeyboardScrollLock,
            0x48 => KeyCodes::KeyboardPause,
            0x49 => KeyCodes::KeyboardInsert,
            0x4A => KeyCodes::KeyboardHome,
            0x4B => KeyCodes::KeyboardPageUp,
            0x4C => KeyCodes::KeyboardDelete,
            0x4D => KeyCodes::KeyboardEnd,
            0x4E => KeyCodes::KeyboardPageDown,
            0x4F => KeyCodes::KeyboardRightArrow,
            0x50 => KeyCodes::KeyboardLeftArrow,
            0x51 => KeyCodes::KeyboardDownArrow,
            0x52 => KeyCodes::KeyboardUpArrow,
            0x7F => KeyCodes::KeyboardMute,
            0x80 => KeyCodes::KeyboardVolumeUp,
            0x81 => KeyCodes::KeyboardVolumeDown,
            0xE0 => KeyCodes::KeyboardLeftControl,
            0xE1 => KeyCodes::KeyboardLeftShift,
            0xE2 => KeyCodes::KeyboardLeftAlt,
            0xE3 => KeyCodes::KeyboardLeftGUI,
            0xE4 => KeyCodes::KeyboardRightControl,
            0xE5 => KeyCodes::KeyboardRightShift,
            0xE6 => KeyCodes::KeyboardRightAlt,
            0xE7 => KeyCodes::KeyboardRightGUI,
            0xE8 => KeyCodes::MouseLeftClick,
            0xE9 => KeyCodes::MouseRightClick,
            0xEA => KeyCodes::MouseMiddleClick,
            0xEB => KeyCodes::MouseXPos,
            0xEC => KeyCodes::MouseXNeg,
            0xED => KeyCodes::MouseYPos,
            0xEE => KeyCodes::MouseYNeg,
            0xEF => KeyCodes::MouseScrollPos,
            0xF0 => KeyCodes::MouseScrollNeg,
            0xF1 => KeyCodes::Layer0,
            0xF2 => KeyCodes::Layer1,
            0xF3 => KeyCodes::Layer2,
            0xF4 => KeyCodes::Layer3,
            0xF5 => KeyCodes::Layer4,
            0xF6 => KeyCodes::Layer5,
            0xF7 => KeyCodes::LayerToggle0,
            0xF8 => KeyCodes::LayerToggle1,
            0xF9 => KeyCodes::LayerToggle2,
            0xFA => KeyCodes::LayerToggle3,
            0xFB => KeyCodes::LayerToggle4,
            0xFC => KeyCodes::LayerToggle5,
            _ => KeyCodes::Undefined,
        }
    }

    pub fn to_report_code(self) -> (code: ReportCodes)
        ensures
            code == self.report_code(),
    {
        proof {
            reveal(KeyCodes::report_code);
        }
        match self {
            KeyCodes::Layer0 => ReportCodes::Layer(0),
            KeyCodes::Layer1 => ReportCodes::Layer(1),
            KeyCodes::Layer2 => ReportCodes::Layer(2),
            KeyCodes::Layer3 => ReportCodes::Layer(3),
            KeyCodes::Layer4 => ReportCodes::Layer(4),
            KeyCodes::Layer5 => ReportCodes::Layer(5),
            KeyCodes::LayerToggle0 => ReportCodes::LayerToggle(0),
            KeyCodes::LayerToggle1 => ReportCodes::LayerToggle(1),
            KeyCodes::LayerToggle2 => ReportCodes::LayerToggle(2),
            KeyCodes::LayerToggle3 => ReportCodes::LayerToggle(3),
            KeyCodes::LayerToggle4 => ReportCodes::LayerToggle(4),
            KeyCodes::LayerToggle5 => ReportCodes::LayerToggle(5),
            KeyCodes::MouseLeftClick => ReportCodes::MouseButton(0),
            KeyCodes::MouseRightClick => ReportCodes::MouseButton(1),
            KeyCodes::MouseMiddleClick => ReportCodes::MouseButton(2),
            KeyCodes::MouseXPos => ReportCodes::MouseX(MOUSE_STEP),
            KeyCodes::MouseXNeg => ReportCodes::MouseX(-MOUSE_STEP),
            KeyCodes::MouseYPos => ReportCodes::MouseY(MOUSE_STEP),
            KeyCodes::MouseYNeg => ReportCodes::MouseY(-MOUSE_STEP),
            KeyCodes::MouseScrollPos => ReportCodes::MouseScroll(SCROLL_STEP),
            KeyCodes::MouseScrollNeg => ReportCodes::MouseScroll(-SCROLL_STEP),
            KeyCodes::KeyboardLeftControl => ReportCodes::Modifier(self.to_u8()),
            KeyCodes::KeyboardLeftShift => ReportCodes::Modifier(self.to_u8()),
            KeyCodes::KeyboardLeftAlt => ReportCodes::Modifier(self.to_u8()),
            KeyCodes::KeyboardLeftGUI => ReportCodes::Modifier(self.to_u8()),
            KeyCodes::KeyboardRightControl => ReportCodes::Modifier(self.to_u8()),
            KeyCodes::KeyboardRightShift => ReportCodes::Modifier(self.to_u8()),
            KeyCodes::KeyboardRightAlt => ReportCodes::Modifier(self.to_u8()),
            KeyCodes::KeyboardRightGUI => ReportCodes::Modifier(self.to_u8()),
            _ => ReportCodes::Letter(self.to_u8()),
        }
    }
}

/// Every code is the code of its own byte, so a key map survives being written
/// out and read back.
pub proof fn lemma_usage_round_trip(code: KeyCodes)
    ensures
        KeyCodes::of_usage(code.usage()) == code,
{
    reveal(KeyCodes::usage);
    reveal(KeyCodes::of_usage);
}

/// A code read from a byte either writes back as that byte or is `Undefined`.
pub proof fn lemma_of_usage_canonical(byte: u8)
    ensures
        KeyCodes::of_usage(byte).usage() == byte || KeyCodes::of_usage(byte) == KeyCodes::Undefined,
{
    reveal(KeyCodes::usage);
    reveal(KeyCodes::of_usage);
}

/// A code only ever yields a rollover usage that the report bitmap can hold,
/// and a layer that a layer key names.
pub proof fn lemma_report_code_in_range(code: KeyCodes)
    ensures
        code.report_code() matches ReportCodes::Letter(usage) ==> usage < LETTER_LIMIT,
        code.report_code() matches ReportCodes::Modifier(usage) ==> usage >= FIRST_MODIFIER,
        code.report_code() matches ReportCodes::Layer(layer) ==> layer < 6,
        code.report_code() matches ReportCodes::LayerToggle(layer) ==> layer < 6,
        code.report_code() !is Sticky,
{
    reveal(KeyCodes::usage);
    reveal(KeyCodes::report_code);
}

} // verus!
