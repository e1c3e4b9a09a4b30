use crate::codes::ScanCodeBehavior;
use crate::keys::{ConfigIndicator, Keys};
use crate::position::KeyState;
use crate::scan_codes::KeyCodes;
use crate::{NUM_KEYS, NUM_LAYERS};
use vstd::prelude::*;

verus! {

/// The cell that the built-in key map assigns to key `index` on `layer`, if
/// it assigns one. The map covers the first four layers of a board with two
/// halves of eighteen keys.
#[verifier::opaque]
pub open spec fn keymap_cell(index: usize, layer: usize) -> Option<ScanCodeBehavior> {
    match (index, layer) {
            (0, 0) => Some(ScanCodeBehavior::Single(KeyCodes::KeyboardQq)),
            (1, 0) => Some(ScanCodeBehavior::Single(KeyCodes::KeyboardWw)),
            (2, 0) => Some(ScanCodeBehavior::Single(KeyCodes::KeyboardEe)),
            (3, 0) => Some(ScanCodeBehavior::Single(KeyCodes::KeyboardRr)),
            (4, 0) => Some(ScanCodeBehavior::Single(KeyCodes::KeyboardTt)),
            (5, 0) => Some(ScanCodeBehavior::Single(KeyCodes::KeyboardAa)),
            (6, 0) => Some(ScanCodeBehavior::Single(KeyCodes::KeyboardSs)),
            (7, 0) => Some(ScanCodeBehavior::Single(KeyCodes::KeyboardDd)),
            (8, 0) => Some(ScanCodeBehavior::Single(KeyCodes::KeyboardFf)),
            (9, 0) => Some(ScanCodeBehavior::Single(KeyCodes::KeyboardGg)),
            (10, 0) => Some(ScanCodeBehavior::Single(KeyCodes::KeyboardZz)),
            (11, 0) => Some(ScanCodeBehavior::Single(KeyCodes::KeyboardXx)),
            (12, 0) => Some(ScanCodeBehavior::Single(KeyCodes::KeyboardCc)),
            (13, 0) => Some(ScanCodeBehavior::Single(KeyCodes::KeyboardVv)),
            (14, 0) => Some(ScanCodeBehavior::Single(KeyCodes::KeyboardBb)),
            (15, 0) => Some(ScanCodeBehavior::Single(KeyCodes::Layer4)),
            (16, 0) => Some(ScanCodeBehavior::CombinedKey {
                other_index: 34,
                normal_code: KeyCodes::Layer1,
                combined_code: KeyCodes::Layer3,
            }),
            (17, 0) => Some(ScanCodeBehavior::Single(KeyCodes::KeyboardSpacebar)),
            (18, 0) => Some(ScanCodeBehavior::Single(KeyCodes::KeyboardYy)),
            (19, 0) => Some(ScanCodeBehavior::Single(KeyCodes::KeyboardUu)),
            (20, 0) => Some(ScanCodeBehavior::Single(KeyCodes::KeyboardIi)),
            (21, 0) => Some(ScanCodeBehavior::Single(KeyCodes::KeyboardOo)),
            (22, 0) => Some(ScanCodeBehavior::Single(KeyCodes::KeyboardPp)),
            (23, 0) => Some(ScanCodeBehavior::Single(KeyCodes::KeyboardHh)),
            (24, 0) => Some(ScanCodeBehavior::Single(KeyCodes::KeyboardJj)),
            (25, 0) => Some(ScanCodeBehavior::Single(KeyCodes::KeyboardKk)),
            (26, 0) => Some(ScanCodeBehavior::Single(KeyCodes::KeyboardLl)),
            (27, 0) => Some(ScanCodeBehavior::Single(KeyCodes::KeyboardSemiColon)),
            (28, 0) => Some(ScanCodeBehavior::Single(KeyCodes::KeyboardNn)),
            (29, 0) => Some(ScanCodeBehavior::Single(KeyCodes::KeyboardMm)),
            (30, 0) => Some(ScanCodeBehavior::Single(KeyCodes::KeyboardCommaLess)),
            (31, 0) => Some(ScanCodeBehavior::Single(KeyCodes::KeyboardPeriodGreater)),
            (32, 0) => Some(ScanCodeBehavior::Single(KeyCodes::KeyboardSlashQuestion)),
            (33, 0) => Some(ScanCodeBehavior::Single(KeyCodes::KeyboardLeftShift)),
            (34, 0) => Some(ScanCodeBehavior::CombinedKey {
                other_index: 16,
                normal_code: KeyCodes::Layer2,
                combined_code: KeyCodes::Layer4,
            }),
            (35, 0) => Some(ScanCodeBehavior::Single(KeyCodes::Layer5)),
            (0, 1) => Some(ScanCodeBehavior::Single(KeyCodes::KeyboardTab)),
            (1, 1) => Some(ScanCodeBehavior::Single(KeyCodes::KeyboardCommaLess)),
            (2, 1) => Some(ScanCodeBehavior::Single(KeyCodes::KeyboardPeriodGreater)),
            (3, 1) => Some(ScanCodeBehavior::Single(KeyCodes::KeyboardSlashQuestion)),
            (4, 1) => Some(ScanCodeBehavior::Single(KeyCodes::KeyboardVolumeUp)),
            (5, 1) => Some(ScanCodeBehavior::Single(KeyCodes::KeyboardLeftGUI)),
            (6, 1) => Some(ScanCodeBehavior::Single(KeyCodes::KeyboardLeftAlt)),
            (7, 1) => Some(ScanCodeBehavior::Single(KeyCodes::KeyboardLeftControl)),
            (8, 1) => Some(ScanCodeBehavior::Single(KeyCodes::KeyboardLeftShift)),
            (9, 1) => Some(ScanCodeBehavior::Single(KeyCodes::KeyboardVolumeDown)),
            (10, 1) => Some(ScanCodeBehavior::Single(KeyCodes::MouseScrollNeg)),
            (11, 1) => Some(ScanCodeBehavior::Single(KeyCodes::MouseScrollPos)),
            (12, 1) => Some(ScanCodeBehavior::Single(KeyCodes::MouseLeftClick)),
            (13, 1) => Some(ScanCodeBehavior::Single(KeyCodes::MouseMiddleClick)),
            (14, 1) => Some(ScanCodeBehavior::Single(KeyCodes::MouseRightClick)),
            (15, 1) => Some(ScanCodeBehavior::Single(KeyCodes::Layer4)),
            (16, 1) => Some(ScanCodeBehavior::CombinedKey {
                other_index: 34,
                normal_code: KeyCodes::Layer1,
                combined_code: KeyCodes::Layer3,
            }),
            (17, 1) => Some(ScanCodeBehavior::Single(KeyCodes::KeyboardSpacebar)),
            (18, 1) => Some(ScanCodeBehavior::Single(KeyCodes::KeyboardCapsLock)),
            (22, 1) => Some(ScanCodeBehavior::Single(KeyCodes::KeyboardDelete)),
            (23, 1) => Some(ScanCodeBehavior::Single(KeyCodes::KeyboardLeftArrow)),
            (24, 1) => Some(ScanCodeBehavior::Single(KeyCodes::KeyboardDownArrow)),
            (25, 1) => Some(ScanCodeBehavior::Single(KeyCodes::KeyboardUpArrow)),
            (26, 1) => Some(ScanCodeBehavior::Single(KeyCodes::KeyboardRightArrow)),
            (27, 1) => Some(ScanCodeBehavior::Single(KeyCodes::KeyboardBackspace)),
            (28, 1) => Some(ScanCodeBehavior::Single(KeyCodes::MouseXNeg)),
            (29, 1) => Some(ScanCodeBehavior::Single(KeyCodes::MouseYPos)),
            (30, 1) => Some(ScanCodeBehavior::Single(KeyCodes::MouseYNeg)),
            (31, 1) => Some(ScanCodeBehavior::Single(KeyCodes::MouseXPos)),
            (32, 1) => Some(ScanCodeBehavior::Single(KeyCodes::KeyboardEnter)),
            (33, 1) => Some(ScanCodeBehavior::Single(KeyCodes::KeyboardLeftShift)),
            (34, 1) => Some(ScanCodeBehavior::CombinedKey {
                other_index: 16,
                normal_code: KeyCodes::Layer2,
                combined_code: KeyCodes::Layer4,
            }),
            (35, 1) => Some(ScanCodeBehavior::Single(KeyCodes::Layer5)),
            (0, 2) => Some(ScanCodeBehavior::Single(KeyCodes::KeyboardEscape)),
            (1, 2) => Some(ScanCodeBehavior::Single(KeyCodes::KeyboardOpenBracketBrace)),
            (2, 2) => Some(ScanCodeBehavior::Double(KeyCodes::KeyboardLeftShift, KeyCodes::KeyboardOpenBracketBrace)),
            (3, 2) => Some(ScanCodeBehavior::Double(KeyCodes::KeyboardLeftShift, KeyCodes::Keyboard9OpenParens)),
            (4, 2) => Some(ScanCodeBehavior::Double(KeyCodes::KeyboardLeftShift, KeyCodes::KeyboardBacktickTilde)),
            (5, 2) => Some(ScanCodeBehavior::Single(KeyCodes::KeyboardDashUnderscore)),
            (6, 2) => Some(ScanCodeBehavior::Double(KeyCodes::KeyboardLeftShift, KeyCodes::Keyboard8Asterisk)),
            (7, 2) => Some(ScanCodeBehavior::Single(KeyCodes::KeyboardEqualPlus)),
            (8, 2) => Some(ScanCodeBehavior::Double(KeyCodes::KeyboardLeftShift, KeyCodes::KeyboardDashUnderscore)),
            (9, 2) => Some(ScanCodeBehavior::Double(KeyCodes::KeyboardLeftShift, KeyCodes::Keyboard4Dollar)),
            (10, 2) => Some(ScanCodeBehavior::Double(KeyCodes::KeyboardLeftShift, KeyCodes::KeyboardEqualPlus)),
            (11, 2) => Some(ScanCodeBehavior::Double(KeyCodes::KeyboardLeftShift, KeyCodes::KeyboardBackslashBar)),
            (12, 2) => Some(ScanCodeBehavior::Double(KeyCodes::KeyboardLeftShift, KeyCodes::Keyboard2At)),
            (13, 2) => Some(ScanCodeBehavior::Single(KeyCodes::KeyboardSingleDoubleQuote)),
            (14, 2) => Some(ScanCodeBehavior::Double(KeyCodes::KeyboardLeftShift, KeyCodes::Keyboard5Percent)),
            (15, 2) => Some(ScanCodeBehavior::Single(KeyCodes::Layer4)),
            (16, 2) => Some(ScanCodeBehavior::CombinedKey {
                other_index: 34,
                normal_code: KeyCodes::Layer1,
                combined_code: KeyCodes::Layer3,
            }),
            (17, 2) => Some(ScanCodeBehavior::Single(KeyCodes::KeyboardSpacebar)),
            (18, 2) => Some(ScanCodeBehavior::Double(KeyCodes::KeyboardLeftShift, KeyCodes::Keyboard6Caret)),
            (19, 2) => Some(ScanCodeBehavior::Double(KeyCodes::KeyboardLeftShift, KeyCodes::Keyboard0CloseParens)),
            (20, 2) => Some(ScanCodeBehavior::Double(KeyCodes::KeyboardLeftShift, KeyCodes::KeyboardCloseBracketBrace)),
            (21, 2) => Some(ScanCodeBehavior::Single(KeyCodes::KeyboardCloseBracketBrace)),
            (22, 2) => Some(ScanCodeBehavior::Single(KeyCodes::KeyboardBacktickTilde)),
            (23, 2) => Some(ScanCodeBehavior::Double(KeyCodes::KeyboardLeftShift, KeyCodes::Keyboard3Hash)),
            (24, 2) => Some(ScanCodeBehavior::Single(KeyCodes::KeyboardRightShift)),
            (25, 2) => Some(ScanCodeBehavior::Single(KeyCodes::KeyboardRightControl)),
            (26, 2) => Some(ScanCodeBehavior::Single(KeyCodes::KeyboardRightAlt)),
            (27, 2) => Some(ScanCodeBehavior::Single(KeyCodes::KeyboardRightGUI)),
            (29, 2) => Some(ScanCodeBehavior::Single(KeyCodes::KeyboardBackslashBar)),
            (30, 2) => Some(ScanCodeBehavior::Double(KeyCodes::KeyboardLeftShift, KeyCodes::Keyboard7Ampersand)),
            (31, 2) => Some(ScanCodeBehavior::Double(KeyCodes::KeyboardLeftShift, KeyCodes::KeyboardSingleDoubleQuote)),
            (32, 2) => Some(ScanCodeBehavior::Double(KeyCodes::KeyboardLeftShift, KeyCodes::Keyboard1Exclamation)),
            (33, 2) => Some(ScanCodeBehavior::Single(KeyCodes::KeyboardLeftShift)),
            (34, 2) => Some(ScanCodeBehavior::CombinedKey {
                other_index: 16,
                normal_code: KeyCodes::Layer2,
                combined_code: KeyCodes::Layer4,
            }),
            (35, 2) => Some(ScanCodeBehavior::Single(KeyCodes::Layer5)),
            (0, 3) => Some(ScanCodeBehavior::Single(KeyCodes::Keyboard1Exclamation)),
            (1, 3) => Some(ScanCodeBehavior::Single(KeyCodes::Keyboard2At)),
            (2, 3) => Some(ScanCodeBehavior::Single(KeyCodes::Keyboard3Hash)),
            (3, 3) => Some(ScanCodeBehavior::Single(KeyCodes::Keyboard4Dollar)),
            (4, 3) => Some(ScanCodeBehavior::Single(KeyCodes::Keyboard5Percent)),
            (5, 3) => Some(ScanCodeBehavior::Single(KeyCodes::KeyboardLeftGUI)),
            (6, 3) => Some(ScanCodeBehavior::Single(KeyCodes::KeyboardLeftAlt)),
            (7, 3) => Some(ScanCodeBehavior::Single(KeyCodes::KeyboardLeftControl)),
            (8, 3) => Some(ScanCodeBehavior::Single(KeyCodes::KeyboardLeftShift)),
            (9, 3) => Some(ScanCodeBehavior::Single(KeyCodes::KeyboardF11)),
            (10, 3) => Some(ScanCodeBehavior::Single(KeyCodes::KeyboardF1)),
            (11, 3) => Some(ScanCodeBehavior::Single(KeyCodes::KeyboardF2)),
            (12, 3) => Some(ScanCodeBehavior::Single(KeyCodes::KeyboardF3)),
            (13, 3) => Some(ScanCodeBehavior::Single(KeyCodes::KeyboardF4)),
            (14, 3) => Some(ScanCodeBehavior::Single(KeyCodes::KeyboardF5)),
            (15, 3) => Some(ScanCodeBehavior::Single(KeyCodes::Layer4)),
            (16, 3) => Some(ScanCodeBehavior::CombinedKey {
                other_index: 34,
                normal_code: KeyCodes::Layer1,
                combined_code: KeyCodes::Layer3,
            }),
            (17, 3) => Some(ScanCodeBehavior::Single(KeyCodes::KeyboardSpacebar)),
            (18, 3) => Some(ScanCodeBehavior::Single(KeyCodes::Keyboard6Caret)),
            (19, 3) => Some(ScanCodeBehavior::Single(KeyCodes::Keyboard7Ampersand)),
            (20, 3) => Some(ScanCodeBehavior::Single(KeyCodes::Keyboard8Asterisk)),
            (21, 3) => Some(ScanCodeBehavior::Single(KeyCodes::Keyboard9OpenParens)),
            (22, 3) => Some(ScanCodeBehavior::Single(KeyCodes::Keyboard0CloseParens)),
            (23, 3) => Some(ScanCodeBehavior::Single(KeyCodes::KeyboardF12)),
            (24, 3) => Some(ScanCodeBehavior::Single(KeyCodes::KeyboardRightShift)),
            (25, 3) => Some(ScanCodeBehavior::Single(KeyCodes::KeyboardRightControl)),
            (26, 3) => Some(ScanCodeBehavior::Single(KeyCodes::KeyboardRightAlt)),
            (27, 3) => Some(ScanCodeBehavior::Single(KeyCodes::KeyboardRightGUI)),
            (28, 3) => Some(ScanCodeBehavior::Single(KeyCodes::KeyboardF6)),
            (29, 3) => Some(ScanCodeBehavior::Single(KeyCodes::KeyboardF7)),
            (30, 3) => Some(ScanCodeBehavior::Single(KeyCodes::KeyboardF8)),
            (31, 3) => Some(ScanCodeBehavior::Single(KeyCodes::KeyboardF9)),
            (32, 3) => Some(ScanCodeBehavior::Single(KeyCodes::KeyboardF10)),
            (33, 3) => Some(ScanCodeBehavior::Single(KeyCodes::KeyboardLeftShift)),
            (34, 3) => Some(ScanCodeBehavior::CombinedKey {
                other_index: 16,
                normal_code: KeyCodes::Layer2,
                combined_code: KeyCodes::Layer4,
            }),
            (35, 3) => Some(ScanCodeBehavior::Single(KeyCodes::Layer5)),
            _ => None,
    }
}

/// Looks up the built-in key map.
pub fn keymap_entry(index: usize, layer: usize) -> (cell: Option<ScanCodeBehavior>)
    ensures
        cell == keymap_cell(index, layer),
        cell matches Some(ScanCodeBehavior::CombinedKey { other_index, .. }) ==> other_index
            < NUM_KEYS,
{
    proof {
        reveal(keymap_cell);
    }
    match (index, layer) {
        (0, 0) => Some(ScanCodeBehavior::Single(KeyCodes::KeyboardQq)),
        (1, 0) => Some(ScanCodeBehavior::Single(KeyCodes::KeyboardWw)),
        (2, 0) => Some(ScanCodeBehavior::Single(KeyCodes::KeyboardEe)),
        (3, 0) => Some(ScanCodeBehavior::Single(KeyCodes::KeyboardRr)),
        (4, 0) => Some(ScanCodeBehavior::Single(KeyCodes::KeyboardTt)),
        (5, 0) => Some(ScanCodeBehavior::Single(KeyCodes::KeyboardAa)),
        (6, 0) => Some(ScanCodeBehavior::Single(KeyCodes::KeyboardSs)),
        (7, 0) => Some(ScanCodeBehavior::Single(KeyCodes::KeyboardDd)),
        (8, 0) => Some(ScanCodeBehavior::Single(KeyCodes::KeyboardFf)),
        (9, 0) => Some(ScanCodeBehavior::Single(KeyCodes::KeyboardGg)),
        (10, 0) => Some(ScanCodeBehavior::Single(KeyCodes::KeyboardZz)),
        (11, 0) => Some(ScanCodeBehavior::Single(KeyCodes::KeyboardXx)),
        (12, 0) => Some(ScanCodeBehavior::Single(KeyCodes::KeyboardCc)),
        (13, 0) => Some(ScanCodeBehavior::Single(KeyCodes::KeyboardVv)),
        (14, 0) => Some(ScanCodeBehavior::Single(KeyCodes::KeyboardBb)),
        (15, 0) => Some(ScanCodeBehavior::Single(KeyCodes::Layer4)),
        (16, 0) => Some(ScanCodeBehavior::CombinedKey {
            other_index: 34,
            normal_code: KeyCodes::Layer1,
            combined_code: KeyCodes::Layer3,
        }),
        (17, 0) => Some(ScanCodeBehavior::Single(KeyCodes::KeyboardSpacebar)),
        (18, 0) => Some(ScanCodeBehavior::Single(KeyCodes::KeyboardYy)),
        (19, 0) => Some(ScanCodeBehavior::Single(KeyCodes::KeyboardUu)),
        (20, 0) => Some(ScanCodeBehavior::Single(KeyCodes::KeyboardIi)),
        (21, 0) => Some(ScanCodeBehavior::Single(KeyCodes::KeyboardOo)),
        (22, 0) => Some(ScanCodeBehavior::Single(KeyCodes::KeyboardPp)),
        (23, 0) => Some(ScanCodeBehavior::Single(KeyCodes::KeyboardHh)),
        (24, 0) => Some(ScanCodeBehavior::Single(KeyCodes::KeyboardJj)),
        (25, 0) => Some(ScanCodeBehavior::Single(KeyCodes::KeyboardKk)),
        (26, 0) => Some(ScanCodeBehavior::Single(KeyCodes::KeyboardLl)),
        (27, 0) => Some(ScanCodeBehavior::Single(KeyCodes::KeyboardSemiColon)),
        (28, 0) => Some(ScanCodeBehavior::Single(KeyCodes::KeyboardNn)),
        (29, 0) => Some(ScanCodeBehavior::Single(KeyCodes::KeyboardMm)),
        (30, 0) => Some(ScanCodeBehavior::Single(KeyCodes::KeyboardCommaLess)),
        (31, 0) => Some(ScanCodeBehavior::Single(KeyCodes::KeyboardPeriodGreater)),
        (32, 0) => Some(ScanCodeBehavior::Single(KeyCodes::KeyboardSlashQuestion)),
        (33, 0) => Some(ScanCodeBehavior::Single(KeyCodes::KeyboardLeftShift)),
        (34, 0) => Some(ScanCodeBehavior::CombinedKey {
            other_index: 16,
            normal_code: KeyCodes::Layer2,
            combined_code: KeyCodes::Layer4,
        }),
        (35, 0) => Some(ScanCodeBehavior::Single(KeyCodes::Layer5)),
        (0, 1) => Some(ScanCodeBehavior::Single(KeyCodes::KeyboardTab)),
        (1, 1) => Some(ScanCodeBehavior::Single(KeyCodes::KeyboardCommaLess)),
        (2, 1) => Some(ScanCodeBehavior::Single(KeyCodes::KeyboardPeriodGreater)),
        (3, 1) => Some(ScanCodeBehavior::Single(KeyCodes::KeyboardSlashQuestion)),
        (4, 1) => Some(ScanCodeBehavior::Single(KeyCodes::KeyboardVolumeUp)),
        (5, 1) => Some(ScanCodeBehavior::Single(KeyCodes::KeyboardLeftGUI)),
        (6, 1) => Some(ScanCodeBehavior::Single(KeyCodes::KeyboardLeftAlt)),
        (7, 1) => Some(ScanCodeBehavior::Single(KeyCodes::KeyboardLeftControl)),
        (8, 1) => Some(ScanCodeBehavior::Single(KeyCodes::KeyboardLeftShift)),
        (9, 1) => Some(ScanCodeBehavior::Single(KeyCodes::KeyboardVolumeDown)),
        (10, 1) => Some(ScanCodeBehavior::Single(KeyCodes::MouseScrollNeg)),
        (11, 1) => Some(ScanCodeBehavior::Single(KeyCodes::MouseScrollPos)),
        (12, 1) => Some(ScanCodeBehavior::Single(KeyCodes::MouseLeftClick)),
        (13, 1) => Some(ScanCodeBehavior::Single(KeyCodes::MouseMiddleClick)),
        (14, 1) => Some(ScanCodeBehavior::Single(KeyCodes::MouseRightClick)),
        (15, 1) => Some(ScanCodeBehavior::Single(KeyCodes::Layer4)),
        (16, 1) => Some(ScanCodeBehavior::CombinedKey {
            other_index: 34,
            normal_code: KeyCodes::Layer1,
            combined_code: KeyCodes::Layer3,
        }),
        (17, 1) => Some(ScanCodeBehavior::Single(KeyCodes::KeyboardSpacebar)),
        (18, 1) => Some(ScanCodeBehavior::Single(KeyCodes::KeyboardCapsLock)),
        (22, 1) => Some(ScanCodeBehavior::Single(KeyCodes::KeyboardDelete)),
        (23, 1) => Some(ScanCodeBehavior::Single(KeyCodes::KeyboardLeftArrow)),
        (24, 1) => Some(ScanCodeBehavior::Single(KeyCodes::KeyboardDownArrow)),
        (25, 1) => Some(ScanCodeBehavior::Single(KeyCodes::KeyboardUpArrow)),
        (26, 1) => Some(ScanCodeBehavior::Single(KeyCodes::KeyboardRightArrow)),
        (27, 1) => Some(ScanCodeBehavior::Single(KeyCodes::KeyboardBackspace)),
        (28, 1) => Some(ScanCodeBehavior::Single(KeyCodes::MouseXNeg)),
        (29, 1) => Some(ScanCodeBehavior::Single(KeyCodes::MouseYPos)),
        (30, 1) => Some(ScanCodeBehavior::Single(KeyCodes::MouseYNeg)),
        (31, 1) => Some(ScanCodeBehavior::Single(KeyCodes::MouseXPos)),
        (32, 1) => Some(ScanCodeBehavior::Single(KeyCodes::KeyboardEnter)),
        (33, 1) => Some(ScanCodeBehavior::Single(KeyCodes::KeyboardLeftShift)),
        (34, 1) => Some(ScanCodeBehavior::CombinedKey {
            other_index: 16,
            normal_code: KeyCodes::Layer2,
            combined_code: KeyCodes::Layer4,
        }),
        (35, 1) => Some(ScanCodeBehavior::Single(KeyCodes::Layer5)),
        (0, 2) => Some(ScanCodeBehavior::Single(KeyCodes::KeyboardEscape)),
        (1, 2) => Some(ScanCodeBehavior::Single(KeyCodes::KeyboardOpenBracketBrace)),
        (2, 2) => Some(ScanCodeBehavior::Double(KeyCodes::KeyboardLeftShift, KeyCodes::KeyboardOpenBracketBrace)),
        (3, 2) => Some(ScanCodeBehavior::Double(KeyCodes::KeyboardLeftShift, KeyCodes::Keyboard9OpenParens)),
        (4, 2) => Some(ScanCodeBehavior::Double(KeyCodes::KeyboardLeftShift, KeyCodes::KeyboardBacktickTilde)),
        (5, 2) => Some(ScanCodeBehavior::Single(KeyCodes::KeyboardDashUnderscore)),
        (6, 2) => Some(ScanCodeBehavior::Double(KeyCodes::KeyboardLeftShift, KeyCodes::Keyboard8Asterisk)),
        (7, 2) => Some(ScanCodeBehavior::Single(KeyCodes::KeyboardEqualPlus)),
        (8, 2) => Some(ScanCodeBehavior::Double(KeyCodes::KeyboardLeftShift, KeyCodes::KeyboardDashUnderscore)),
        (9, 2) => Some(ScanCodeBehavior::Double(KeyCodes::KeyboardLeftShift, KeyCodes::Keyboard4Dollar)),
        (10, 2) => Some(ScanCodeBehavior::Double(KeyCodes::KeyboardLeftShift, KeyCodes::KeyboardEqualPlus)),
        (11, 2) => Some(ScanCodeBehavior::Double(KeyCodes::KeyboardLeftShift, KeyCodes::KeyboardBackslashBar)),
        (12, 2) => Some(ScanCodeBehavior::Double(KeyCodes::KeyboardLeftShift, KeyCodes::Keyboard2At)),
        (13, 2) => Some(ScanCodeBehavior::Single(KeyCodes::KeyboardSingleDoubleQuote)),
        (14, 2) => Some(ScanCodeBehavior::Double(KeyCodes::KeyboardLeftShift, KeyCodes::Keyboard5Percent)),
        (15, 2) => Some(ScanCodeBehavior::Single(KeyCodes::Layer4)),
        (16, 2) => Some(ScanCodeBehavior::CombinedKey {
            other_index: 34,
            normal_code: KeyCodes::Layer1,
            combined_code: KeyCodes::Layer3,
        }),
        (17, 2) => Some(ScanCodeBehavior::Single(KeyCodes::KeyboardSpacebar)),
        (18, 2) => Some(ScanCodeBehavior::Double(KeyCodes::KeyboardLeftShift, KeyCodes::Keyboard6Caret)),
        (19, 2) => Some(ScanCodeBehavior::Double(KeyCodes::KeyboardLeftShift, KeyCodes::Keyboard0CloseParens)),
        (20, 2) => Some(ScanCodeBehavior::Double(KeyCodes::KeyboardLeftShift, KeyCodes::KeyboardCloseBracketBrace)),
        (21, 2) => Some(ScanCodeBehavior::Single(KeyCodes::KeyboardCloseBracketBrace)),
        (22, 2) => Some(ScanCodeBehavior::Single(KeyCodes::KeyboardBacktickTilde)),
        (23, 2) => Some(ScanCodeBehavior::Double(KeyCodes::KeyboardLeftShift, KeyCodes::Keyboard3Hash)),
        (24, 2) => Some(ScanCodeBehavior::Single(KeyCodes::KeyboardRightShift)),
        (25, 2) => Some(ScanCodeBehavior::Single(KeyCodes::KeyboardRightControl)),
        (26, 2) => Some(ScanCodeBehavior::Single(KeyCodes::KeyboardRightAlt)),
        (27, 2) => Some(ScanCodeBehavior::Single(KeyCodes::KeyboardRightGUI)),
        (29, 2) => Some(ScanCodeBehavior::Single(KeyCodes::KeyboardBackslashBar)),
        (30, 2) => Some(ScanCodeBehavior::Double(KeyCodes::KeyboardLeftShift, KeyCodes::Keyboard7Ampersand)),
        (31, 2) => Some(ScanCodeBehavior::Double(KeyCodes::KeyboardLeftShift, KeyCodes::KeyboardSingleDoubleQuote)),
        (32, 2) => Some(ScanCodeBehavior::Double(KeyCodes::KeyboardLeftShift, KeyCodes::Keyboard1Exclamation)),
        (33, 2) => Some(ScanCodeBehavior::Single(KeyCodes::KeyboardLeftShift)),
        (34, 2) => Some(ScanCodeBehavior::CombinedKey {
            other_index: 16,
            normal_code: KeyCodes::Layer2,
            combined_code: KeyCodes::Layer4,
        }),
        (35, 2) => Some(ScanCodeBehavior::Single(KeyCodes::Layer5)),
        (0, 3) => Some(ScanCodeBehavior::Single(KeyCodes::Keyboard1Exclamation)),
        (1, 3) => Some(ScanCodeBehavior::Single(KeyCodes::Keyboard2At)),
        (2, 3) => Some(ScanCodeBehavior::Single(KeyCodes::Keyboard3Hash)),
        (3, 3) => Some(ScanCodeBehavior::Single(KeyCodes::Keyboard4Dollar)),
        (4, 3) => Some(ScanCodeBehavior::Single(KeyCodes::Keyboard5Percent)),
        (5, 3) => Some(ScanCodeBehavior::Single(KeyCodes::KeyboardLeftGUI)),
        (6, 3) => Some(ScanCodeBehavior::Single(KeyCodes::KeyboardLeftAlt)),
        (7, 3) => Some(ScanCodeBehavior::Single(KeyCodes::KeyboardLeftControl)),
        (8, 3) => Some(ScanCodeBehavior::Single(KeyCodes::KeyboardLeftShift)),
        (9, 3) => Some(ScanCodeBehavior::Single(KeyCodes::KeyboardF11)),
        (10, 3) => Some(ScanCodeBehavior::Single(KeyCodes::KeyboardF1)),
        (11, 3) => Some(ScanCodeBehavior::Single(KeyCodes::KeyboardF2)),
        (12, 3) => Some(ScanCodeBehavior::Single(KeyCodes::KeyboardF3)),
        (13, 3) => Some(ScanCodeBehavior::Single(KeyCodes::KeyboardF4)),
        (14, 3) => Some(ScanCodeBehavior::Single(KeyCodes::KeyboardF5)),
        (15, 3) => Some(ScanCodeBehavior::Single(KeyCodes::Layer4)),
        (16, 3) => Some(ScanCodeBehavior::CombinedKey {
            other_index: 34,
            normal_code: KeyCodes::Layer1,
            combined_code: KeyCodes::Layer3,
        }),
        (17, 3) => Some(ScanCodeBehavior::Single(KeyCodes::KeyboardSpacebar)),
        (18, 3) => Some(ScanCodeBehavior::Single(KeyCodes::Keyboard6Caret)),
        (19, 3) => Some(ScanCodeBehavior::Single(KeyCodes::Keyboard7Ampersand)),
        (20, 3) => Some(ScanCodeBehavior::Single(KeyCodes::Keyboard8Asterisk)),
        (21, 3) => Some(ScanCodeBehavior::Single(KeyCodes::Keyboard9OpenParens)),
        (22, 3) => Some(ScanCodeBehavior::Single(KeyCodes::Keyboard0CloseParens)),
        (23, 3) => Some(ScanCodeBehavior::Single(KeyCodes::KeyboardF12)),
        (24, 3) => Some(ScanCodeBehavior::Single(KeyCodes::KeyboardRightShift)),
        (25, 3) => Some(ScanCodeBehavior::Single(KeyCodes::KeyboardRightControl)),
        (26, 3) => Some(ScanCodeBehavior::Single(KeyCodes::KeyboardRightAlt)),
        (27, 3) => Some(ScanCodeBehavior::Single(KeyCodes::KeyboardRightGUI)),
        (28, 3) => Some(ScanCodeBehavior::Single(KeyCodes::KeyboardF6)),
        (29, 3) => Some(ScanCodeBehavior::Single(KeyCodes::KeyboardF7)),
        (30, 3) => Some(ScanCodeBehavior::Single(KeyCodes::KeyboardF8)),
        (31, 3) => Some(ScanCodeBehavior::Single(KeyCodes::KeyboardF9)),
        (32, 3) => Some(ScanCodeBehavior::Single(KeyCodes::KeyboardF10)),
        (33, 3) => Some(ScanCodeBehavior::Single(KeyCodes::KeyboardLeftShift)),
        (34, 3) => Some(ScanCodeBehavior::CombinedKey {
            other_index: 16,
            normal_code: KeyCodes::Layer2,
            combined_code: KeyCodes::Layer4,
        }),
        (35, 3) => Some(ScanCodeBehavior::Single(KeyCodes::Layer5)),
        _ => None,
    }
}

/// Writes the built-in key map into `keys`: every cell that the map assigns
/// is set, every other cell stays as it is.
pub fn set_keys<K: KeyState, I: ConfigIndicator>(keys: &mut Keys<K, I>)
    ensures
        forall|i: int, l: int|
            0 <= i < NUM_KEYS && 0 <= l < NUM_LAYERS ==> #[trigger] final(keys).code_at(i, l)
                == match keymap_cell(i as usize, l as usize) {
                Some(cell) => cell,
                None => old(keys).code_at(i, l),
            },
        final(keys).same_states(old(keys)),
        final(keys).same_holds(old(keys)),
        final(keys).has_indicator() == old(keys).has_indicator(),
        old(keys).codes_in_range() ==> final(keys).codes_in_range(),
{
    let mut layer: usize = 0;
    while layer < NUM_LAYERS
        invariant
            layer <= NUM_LAYERS,
            forall|i: int, l: int|
                0 <= i < NUM_KEYS && 0 <= l < NUM_LAYERS ==> #[trigger] keys.code_at(i, l) == if l
                    < layer {
                    match keymap_cell(i as usize, l as usize) {
                        Some(cell) => cell,
                        None => old(keys).code_at(i, l),
                    }
                } else {
                    old(keys).code_at(i, l)
                },
            keys.same_states(old(keys)),
            keys.same_holds(old(keys)),
            keys.has_indicator() == old(keys).has_indicator(),
            old(keys).codes_in_range() ==> keys.codes_in_range(),
        decreases NUM_LAYERS - layer,
    {
        let mut index: usize = 0;
        while index < NUM_KEYS
            invariant
                index <= NUM_KEYS,
                layer < NUM_LAYERS,
                forall|i: int, l: int|
                    0 <= i < NUM_KEYS && 0 <= l < NUM_LAYERS ==> #[trigger] keys.code_at(i, l)
                        == if l < layer || (l == layer && i < index) {
                        match keymap_cell(i as usize, l as usize) {
                            Some(cell) => cell,
                            None => old(keys).code_at(i, l),
                        }
                    } else {
                        old(keys).code_at(i, l)
                    },
                keys.same_states(old(keys)),
                keys.same_holds(old(keys)),
                keys.has_indicator() == old(keys).has_indicator(),
                old(keys).codes_in_range() ==> keys.codes_in_range(),
            decreases NUM_KEYS - index,
        {
            match keymap_entry(index, layer) {
                Some(cell) => {
                    keys.set_code(cell, index, layer);
                },
                None => {},
            }
            index += 1;
        }
        layer += 1;
    }
}

} // verus!
