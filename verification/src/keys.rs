use crate::code_set::{
    clear_codes, codes_as_slice, key_indexes, new_index_set, push_code, push_index, report_codes,
    CODE_CAPACITY,
};
use crate::codes::{
    decode_front, encode_cells, lemma_encode_cells_push, ScanCodeBehavior, ScanCodeLayerStorage,
    SerializationError,
};
use crate::com::{frames_bytes, ContiniousWriter, BUFFER_SIZE};
use crate::storage::{StorageItem, StorageKey};
use crate::position::KeyState;
use crate::sensors::{apply_readings, apply_setup, setup_complete, KeySensors, HALF_KEYS};
use crate::slave_com::SlaveState;
use crate::scan_codes::{KeyCodes, ReportCodes};
use crate::{NUM_CELLS, NUM_KEYS, NUM_LAYERS};
use vstd::prelude::*;

verus! {

/// Milliseconds that scanning has to pause after a key switched the key map,
/// so that the press that did it cannot do it again.
pub const SETTLE_DELAY_MS: u64 = 500;

/// The same pause in microseconds.
pub const SETTLE_DELAY_US: u64 = 500_000;

/// What the indicator of the keyboard is asked to show.
#[derive(Clone, Copy, Debug, PartialEq, Eq, Structural)]
pub enum Indicate {
    Config(usize),
    Enable,
    Disable,
}

/// Shows the user which key map is active.
pub trait ConfigIndicator {
    fn indicate_config(&self, config_num: Indicate);
}

/// The indicator of a keyboard that has nothing to show a profile with.
#[derive(Clone, Copy, Debug)]
pub struct NoIndicator {}

impl ConfigIndicator for NoIndicator {
    fn indicate_config(&self, config_num: Indicate) {
    }
}

/// What resolving one key came to.
#[derive(Clone, Copy, Debug, PartialEq, Eq, Structural)]
pub enum PressResult {
    /// The key is pressed and its codes were added to the set.
    Pressed,
    /// The key is pressed and asks for the key map with this number.
    Function(u8),
    /// The key is not pressed.
    Released,
}

/// How a scan of all keys ended.
#[derive(Clone, Copy, Debug, PartialEq, Eq, Structural)]
pub enum KeysOutcome {
    /// Every key was resolved and the set holds the codes of the pressed ones.
    Resolved,
    /// A key asked for another key map. The set is empty and all press state
    /// is dropped; the caller loads key map `config_num` and lets `settle_ms`
    /// milliseconds pass before it scans again.
    ConfigChange { config_num: usize, settle_ms: u64 },
}

/// The key map of the active profile together with the state of every key.
#[derive(Copy, Clone, Debug)]
pub struct Keys<K: KeyState, I: ConfigIndicator> {
    codes: [[ScanCodeBehavior; NUM_LAYERS]; NUM_KEYS],
    key_states: [K; NUM_KEYS],
    indicator: Option<I>,
    /// The layer each key was resolved on when it was last found pressed, kept
    /// for as long as the key stays pressed.
    pub current_layer: [Option<usize>; NUM_KEYS],
    /// Number of the active profile.
    pub config_num: usize,
}

impl<K: KeyState, I: ConfigIndicator> Keys<K, I> {
    /// The key map: for each key its cells, layer by layer.
    pub closed spec fn table(&self) -> Seq<Seq<ScanCodeBehavior>> {
        Seq::new(NUM_KEYS as nat, |i: int| self.codes[i]@)
    }

    /// The layers that the keys hold, in key order.
    pub closed spec fn held(&self) -> Seq<Option<usize>> {
        self.current_layer@
    }

    /// The behavior of key `index` on `layer`.
    #[verifier::inline]
    pub open spec fn code_at(&self, index: int, layer: int) -> ScanCodeBehavior {
        self.table()[index][layer]
    }

    /// The state of key `index`.
    #[verifier::inline]
    pub open spec fn state_at(&self, index: int) -> K {
        self.states()[index]
    }

    /// The layer that key `index` holds, if it holds one.
    #[verifier::inline]
    pub open spec fn held_layer(&self, index: int) -> Option<usize> {
        self.held()[index]
    }

    /// Number of the active profile.
    pub closed spec fn profile(&self) -> usize {
        self.config_num
    }

    /// The states of all keys, in key order.
    pub closed spec fn states(&self) -> Seq<K> {
        self.key_states@
    }

    /// The indicator that is told the active profile, if one is set.
    pub closed spec fn indicator(&self) -> Option<I> {
        self.indicator
    }

    pub open spec fn has_indicator(&self) -> bool {
        self.indicator() is Some
    }

    /// Whether both hold the same key map and indicator.
    pub open spec fn same_table(&self, other: &Self) -> bool {
        &&& self.table() == other.table()
        &&& self.indicator() == other.indicator()
    }

    /// Whether the keys of both are in the same states.
    pub open spec fn same_states(&self, other: &Self) -> bool {
        self.states() == other.states()
    }

    /// Whether both hold the same layers and have the same profile active.
    pub open spec fn same_holds(&self, other: &Self) -> bool {
        &&& self.held() == other.held()
        &&& self.profile() == other.profile()
    }

    /// The key map has a row of cells for each key and a cell for each
    /// layer, and there is a state and a held layer for each key.
    pub proof fn lemma_sizes(&self)
        ensures
            self.table().len() == NUM_KEYS,
            forall|i: int| 0 <= i < NUM_KEYS ==> (#[trigger] self.table()[i]).len() == NUM_LAYERS,
            self.states().len() == NUM_KEYS,
            self.held().len() == NUM_KEYS,
    {
    }

    /// Every key state is well formed and every held layer exists.
    pub open spec fn wf(&self) -> bool {
        &&& forall|i: int| 0 <= i < NUM_KEYS ==> (#[trigger] self.state_at(i)).wf()
        &&& forall|i: int|
            0 <= i < NUM_KEYS ==> (#[trigger] self.held_layer(i) matches Some(held) ==> held
                < NUM_LAYERS)
    }

    /// Every combined key names a key that exists.
    pub open spec fn codes_in_range(&self) -> bool {
        forall|i: int, l: int|
            0 <= i < NUM_KEYS && 0 <= l < NUM_LAYERS ==> (#[trigger] self.code_at(i, l)
                matches ScanCodeBehavior::CombinedKey { other_index, .. } ==> other_index
                < NUM_KEYS)
    }

    /// The layer key `index` is resolved on: the one it holds, or else `base`.
    pub open spec fn effective_layer(&self, index: int, base: usize) -> usize {
        match self.held_layer(index) {
            Some(held) => held,
            None => base,
        }
    }

    /// Whether the combined key `index` finds its partner `other` pressed.
    /// The keys are resolved in index order, and a key is known to be down
    /// from the moment it is resolved. So of a partner with a higher index
    /// the combined key sees what the scan before found: whether the partner
    /// holds a layer. Of a partner that does not come after it, it sees the
    /// press state of this scan.
    pub open spec fn partner_pressed(&self, index: int, other: int) -> bool {
        if other > index {
            self.held_layer(other) is Some
        } else {
            self.state_at(other).pressed()
        }
    }

    /// The codes that key `index` adds to a scan when it is resolved on
    /// `layer`, `self` being the keys as they are when the scan begins. A
    /// combined key sends a marker and then its combined code if it finds its
    /// partner pressed, see `partner_pressed`, and its normal code if not.
    pub open spec fn emitted_at(&self, index: int, layer: int) -> Seq<ReportCodes> {
        if !self.state_at(index).pressed() {
            Seq::empty()
        } else {
            match self.code_at(index, layer) {
                ScanCodeBehavior::Single(code) => seq![code.report_code()],
                ScanCodeBehavior::Double(code0, code1) => seq![
                    code0.report_code(),
                    code1.report_code(),
                ],
                ScanCodeBehavior::Triple(code0, code1, code2) => seq![
                    code0.report_code(),
                    code1.report_code(),
                    code2.report_code(),
                ],
                ScanCodeBehavior::CombinedKey { other_index, normal_code, combined_code } => seq![
                    ReportCodes::Sticky,
                    if self.partner_pressed(index, other_index as int) {
                        combined_code.report_code()
                    } else {
                        normal_code.report_code()
                    },
                ],
                ScanCodeBehavior::ChangeConfig(_) => Seq::empty(),
            }
        }
    }

    /// What resolving key `index` on `layer` comes to.
    pub open spec fn press_result_at(&self, index: int, layer: int) -> PressResult {
        if !self.state_at(index).pressed() {
            PressResult::Released
        } else {
            match self.code_at(index, layer) {
                ScanCodeBehavior::ChangeConfig(config_num) => PressResult::Function(config_num),
                _ => PressResult::Pressed,
            }
        }
    }

    /// The codes that the keys below `upto` add to a scan with base layer
    /// `base`, in key order.
    pub open spec fn emitted_upto(&self, base: usize, upto: int) -> Seq<ReportCodes>
        decreases upto,
    {
        if upto <= 0 {
            Seq::empty()
        } else {
            self.emitted_upto(base, upto - 1) + self.emitted_at(
                upto - 1,
                self.effective_layer(upto - 1, base) as int,
            )
        }
    }

    /// The first key from `from` on that is pressed on a cell that switches
    /// the key map, and `NUM_KEYS` when there is none: where a scan stops.
    pub open spec fn scan_stop(&self, base: usize, from: int) -> int
        decreases NUM_KEYS - from,
    {
        if from >= NUM_KEYS {
            NUM_KEYS as int
        } else if self.press_result_at(from, self.effective_layer(from, base) as int)
            is Function {
            from
        } else {
            self.scan_stop(base, from + 1)
        }
    }

    /// Whether a scan with base layer `base` can add its codes to a set that
    /// already holds `held` codes.
    pub open spec fn scan_fits(&self, base: usize, held: nat) -> bool {
        held + self.emitted_upto(base, self.scan_stop(base, 0)).len() <= CODE_CAPACITY
    }

    /// The indexes below `upto` of the keys that are pressed, in key order.
    pub open spec fn pressed_upto(&self, upto: int) -> Seq<usize>
        decreases upto,
    {
        if upto <= 0 {
            Seq::empty()
        } else if self.state_at(upto - 1).pressed() {
            self.pressed_upto(upto - 1).push((upto - 1) as usize)
        } else {
            self.pressed_upto(upto - 1)
        }
    }

    /// A key map in which no cell is assigned, no key pressed or held, no
    /// indicator set, and profile 0 active.
    pub fn default() -> (keys: Self)
        ensures
            keys.wf(),
            keys.codes_in_range(),
            keys.profile() == 0,
            !keys.has_indicator(),
            forall|i: int, l: int|
                0 <= i < NUM_KEYS && 0 <= l < NUM_LAYERS ==> #[trigger] keys.code_at(i, l)
                    == ScanCodeBehavior::spec_default(),
            forall|i: int| 0 <= i < NUM_KEYS ==> #[trigger] keys.state_at(i) == K::initial(),
            forall|i: int| 0 <= i < NUM_KEYS ==> !(#[trigger] keys.state_at(i)).pressed(),
            forall|i: int| 0 <= i < NUM_KEYS ==> (#[trigger] keys.held_layer(i)) is None,
    {
        Keys {
            codes: [[ScanCodeBehavior::Single(KeyCodes::Undefined);NUM_LAYERS];NUM_KEYS],
            key_states: [K::default_state();NUM_KEYS],
            indicator: None,
            current_layer: [None;NUM_KEYS],
            config_num: 0,
        }
    }

    pub fn set_indicator(&mut self, indicator: I)
        ensures
            final(self).indicator() == Some(indicator),
            final(self).same_states(old(self)),
            final(self).same_holds(old(self)),
            forall|i: int, l: int| #[trigger] final(self).code_at(i, l) == old(self).code_at(i, l),
    {
        self.indicator = Some(indicator);
    }

    /// Gives every key in `range` the state `switch_type`.
    pub fn set_position_type_ranged(&mut self, range: core::ops::Range<usize>, switch_type: K)
        requires
            range.start <= range.end <= NUM_KEYS,
        ensures
            forall|i: int|
                0 <= i < NUM_KEYS ==> #[trigger] final(self).state_at(i) == if range.start <= i
                    < range.end {
                    switch_type
                } else {
                    old(self).state_at(i)
                },
            final(self).same_table(old(self)),
            final(self).same_holds(old(self)),
    {
        let mut i: usize = range.start;
        while i < range.end
            invariant
                range.start <= i <= range.end <= NUM_KEYS,
                forall|j: int|
                    0 <= j < NUM_KEYS ==> #[trigger] self.key_states[j] == if range.start <= j < i {
                        switch_type
                    } else {
                        old(self).key_states[j]
                    },
                self.codes == old(self).codes,
                self.indicator == old(self).indicator,
                self.current_layer == old(self).current_layer,
                self.config_num == old(self).config_num,
            decreases range.end - i,
        {
            self.key_states[i] = switch_type;
            i += 1;
        }
    }

    pub fn get_pressed(&self, index: usize) -> (pressed: bool)
        requires
            index < NUM_KEYS,
        ensures
            pressed == self.state_at(index as int).pressed(),
    {
        self.key_states[index].is_pressed()
    }

    pub fn set_code(&mut self, code: ScanCodeBehavior, index: usize, layer: usize)
        requires
            index < NUM_KEYS,
            layer < NUM_LAYERS,
        ensures
            final(self).code_at(index as int, layer as int) == code,
            forall|i: int, l: int|
                0 <= i < NUM_KEYS && 0 <= l < NUM_LAYERS && (i != index || l != layer)
                    ==> #[trigger] final(self).code_at(i, l) == old(self).code_at(i, l),
            final(self).same_states(old(self)),
            final(self).has_indicator() == old(self).has_indicator(),
            final(self).same_holds(old(self)),
    {
        let mut row = self.codes[index];
        row[layer] = code;
        self.codes[index] = row;
    }

    /// Gives the keys the readings that `sensors` hold for them, in the
    /// order the sensors give them.
    pub fn update_positions<S: KeySensors<Item = K::Item>>(&mut self, sensors: &mut S)
        requires
            old(self).wf(),
        ensures
            final(self).wf(),
            final(self).states() == apply_readings(
                old(self).states(),
                old(sensors).pending_readings(),
            ),
            final(self).same_table(old(self)),
            final(self).same_holds(old(self)),
    {
        let readings = sensors.take_readings();
        let mut j: usize = 0;
        proof {
            assert(readings@.take(0) =~= Seq::<(usize, K::Item)>::empty());
            assert forall|i: int| 0 <= i < NUM_KEYS implies (#[trigger] self.key_states[i]).wf() by {
                assert(self.state_at(i).wf());
            }
        }
        while j < readings.len()
            invariant
                j <= readings@.len(),
                self.key_states@ == apply_readings(old(self).key_states@, readings@.take(j as int)),
                forall|i: int| 0 <= i < NUM_KEYS ==> (#[trigger] self.key_states[i]).wf(),
                self.codes == old(self).codes,
                self.indicator == old(self).indicator,
                self.current_layer == old(self).current_layer,
                self.config_num == old(self).config_num,
            decreases readings@.len() - j,
        {
            let (index, buf) = readings[j];
            let ghost before = self.key_states@;
            proof {
                assert(readings@.take(j + 1).drop_last() =~= readings@.take(j as int));
                assert(readings@.take(j + 1).last() == readings@[j as int]);
            }
            if index < NUM_KEYS {
                self.key_states[index].update_buf(buf);
                assert(self.key_states@ =~= before.update(
                    index as int,
                    before[index as int].after_update(buf),
                ));
            }
            j += 1;
        }
        proof {
            assert(readings@.take(j as int) =~= readings@);
            assert forall|i: int| 0 <= i < NUM_KEYS implies (#[trigger] self.state_at(i)).wf() by {
                assert(self.key_states[i].wf());
            }
            assert forall|i: int| 0 <= i < NUM_KEYS implies (#[trigger] self.held_layer(i)
                matches Some(held) ==> held < NUM_LAYERS) by {
                assert(self.held_layer(i) == old(self).held_layer(i));
            }
        }
    }

    /// Makes one pass of the calibration phase with the readings that
    /// `sensors` hold. Returns whether every key that got a reading is
    /// ready; the caller repeats the pass with fresh readings until it is.
    pub fn setup_positions<S: KeySensors<Item = K::Item>>(&mut self, sensors: &mut S) -> (done: bool)
        requires
            old(self).wf(),
        ensures
            final(self).wf(),
            final(self).states() == apply_setup(old(self).states(), old(sensors).pending_readings()),
            done == setup_complete(old(self).states(), old(sensors).pending_readings()),
            final(self).same_table(old(self)),
            final(self).same_holds(old(self)),
    {
        let readings = sensors.take_readings();
        let mut setup = true;
        let mut j: usize = 0;
        proof {
            assert(readings@.take(0) =~= Seq::<(usize, K::Item)>::empty());
            assert forall|i: int| 0 <= i < NUM_KEYS implies (#[trigger] self.key_states[i]).wf() by {
                assert(self.state_at(i).wf());
            }
        }
        while j < readings.len()
            invariant
                j <= readings@.len(),
                self.key_states@ == apply_setup(old(self).key_states@, readings@.take(j as int)),
                setup == setup_complete(old(self).key_states@, readings@.take(j as int)),
                forall|i: int| 0 <= i < NUM_KEYS ==> (#[trigger] self.key_states[i]).wf(),
                self.codes == old(self).codes,
                self.indicator == old(self).indicator,
                self.current_layer == old(self).current_layer,
                self.config_num == old(self).config_num,
            decreases readings@.len() - j,
        {
            let (index, buf) = readings[j];
            let ghost before = self.key_states@;
            proof {
                assert(readings@.take(j + 1).drop_last() =~= readings@.take(j as int));
                assert(readings@.take(j + 1).last() == readings@[j as int]);
            }
            if index < NUM_KEYS {
                let res = self.key_states[index].setup(buf);
                assert(self.key_states@ =~= before.update(
                    index as int,
                    before[index as int].after_setup(buf),
                ));
                setup = setup && res;
            }
            j += 1;
        }
        proof {
            assert(readings@.take(j as int) =~= readings@);
            assert forall|i: int| 0 <= i < NUM_KEYS implies (#[trigger] self.state_at(i)).wf() by {
                assert(self.key_states[i].wf());
            }
            assert forall|i: int| 0 <= i < NUM_KEYS implies (#[trigger] self.held_layer(i)
                matches Some(held) ==> held < NUM_LAYERS) by {
                assert(self.held_layer(i) == old(self).held_layer(i));
            }
        }
        setup
    }

    /// Adds the indexes of all pressed keys to `vec`, in key order. The set
    /// has to have room for them.
    pub fn is_pressed(&self, vec: &mut heapless::Vec<usize, NUM_KEYS>)
        requires
            key_indexes(*old(vec)).len() + self.pressed_upto(NUM_KEYS as int).len() <= NUM_KEYS,
        ensures
            key_indexes(*final(vec)) == key_indexes(*old(vec)) + self.pressed_upto(
                NUM_KEYS as int,
            ),
    {
        let mut i: usize = 0;
        assert(key_indexes(*vec) + self.pressed_upto(0) == key_indexes(*vec));
        while i < NUM_KEYS
            invariant
                i <= NUM_KEYS,
                key_indexes(*vec) == key_indexes(*old(vec)) + self.pressed_upto(i as int),
                key_indexes(*old(vec)).len() + self.pressed_upto(NUM_KEYS as int).len()
                    <= NUM_KEYS,
            decreases NUM_KEYS - i,
        {
            proof {
                self.lemma_pressed_upto_grows(i + 1, NUM_KEYS as int);
            }
            if self.key_states[i].is_pressed() {
                let _ = push_index(vec, i);
                assert(key_indexes(*vec) == key_indexes(*old(vec)) + self.pressed_upto(i + 1));
            }
            i += 1;
        }
    }

    /// The indexes of all pressed keys, in key order.
    pub fn pressed_keys(&self) -> (pressed: heapless::Vec<usize, NUM_KEYS>)
        ensures
            key_indexes(pressed) == self.pressed_upto(NUM_KEYS as int),
    {
        let mut pressed = new_index_set();
        proof {
            self.lemma_pressed_upto_len(NUM_KEYS as int);
            assert(Seq::<usize>::empty() + self.pressed_upto(NUM_KEYS as int)
                =~= self.pressed_upto(NUM_KEYS as int));
        }
        self.is_pressed(&mut pressed);
        pressed
    }

    /// No more keys are pressed than there are keys.
    pub proof fn lemma_pressed_upto_len(&self, upto: int)
        requires
            0 <= upto,
        ensures
            self.pressed_upto(upto).len() <= upto,
        decreases upto,
    {
        if upto > 0 {
            self.lemma_pressed_upto_len(upto - 1);
        }
    }

    proof fn lemma_pressed_upto_grows(&self, a: int, b: int)
        requires
            0 <= a <= b,
        ensures
            self.pressed_upto(a).len() <= self.pressed_upto(b).len(),
        decreases b - a,
    {
        if a < b {
            self.lemma_pressed_upto_grows(a, b - 1);
        }
    }

    /// A scan that stops at a key holds at least the codes of every shorter
    /// scan.
    pub proof fn lemma_emitted_upto_grows(&self, base: usize, a: int, b: int)
        requires
            0 <= a <= b,
        ensures
            self.emitted_upto(base, a).len() <= self.emitted_upto(base, b).len(),
        decreases b - a,
    {
        if a < b {
            self.lemma_emitted_upto_grows(base, a, b - 1);
        }
    }

    /// A scan stops at a key or at the end, and at no key before the one it
    /// starts from.
    pub proof fn lemma_scan_stop_bounds(&self, base: usize, from: int)
        requires
            0 <= from <= NUM_KEYS,
        ensures
            from <= self.scan_stop(base, from) <= NUM_KEYS,
            self.scan_stop(base, from) < NUM_KEYS ==> self.press_result_at(
                self.scan_stop(base, from),
                self.effective_layer(self.scan_stop(base, from), base) as int,
            ) is Function,
            forall|j: int|
                from <= j < self.scan_stop(base, from) ==> !(#[trigger] self.press_result_at(
                    j,
                    self.effective_layer(j, base) as int,
                ) is Function),
        decreases NUM_KEYS - from,
    {
        if from < NUM_KEYS && !(self.press_result_at(
            from,
            self.effective_layer(from, base) as int,
        ) is Function) {
            self.lemma_scan_stop_bounds(base, from + 1);
        }
    }

    /// Resolves key `index` on `layer`: adds the codes of its cell to `set`
    /// if the key is pressed, and tells whether it is pressed and whether it
    /// asks for another key map.
    pub fn get_pressed_code(
        &self,
        index: usize,
        layer: usize,
        set: &mut heapless::Vec<ReportCodes, 64>,
    ) -> (result: PressResult)
        requires
            index < NUM_KEYS,
            layer < NUM_LAYERS,
            self.code_at(index as int, layer as int) matches ScanCodeBehavior::CombinedKey {
                other_index,
                ..
            } ==> other_index < NUM_KEYS,
            report_codes(*old(set)).len() + self.emitted_at(index as int, layer as int).len()
                <= CODE_CAPACITY,
        ensures
            result == self.press_result_at(index as int, layer as int),
            report_codes(*final(set)) == report_codes(*old(set)) + self.emitted_at(
                index as int,
                layer as int,
            ),
    {
        let pressed = self.key_states[index].is_pressed();
        let row = self.codes[index];
        let result = match row[layer] {
            ScanCodeBehavior::Single(code) => {
                if pressed {
                    let _ = push_code(set, code.to_report_code());
                    PressResult::Pressed
                } else {
                    PressResult::Released
                }
            },
            ScanCodeBehavior::Double(code0, code1) => {
                if pressed {
                    let _ = push_code(set, code0.to_report_code());
                    let _ = push_code(set, code1.to_report_code());
                    PressResult::Pressed
                } else {
                    PressResult::Released
                }
            },
            ScanCodeBehavior::Triple(code0, code1, code2) => {
                if pressed {
                    let _ = push_code(set, code0.to_report_code());
                    let _ = push_code(set, code1.to_report_code());
                    let _ = push_code(set, code2.to_report_code());
                    PressResult::Pressed
                } else {
                    PressResult::Released
                }
            },
            ScanCodeBehavior::CombinedKey { other_index, normal_code, combined_code } => {
                if pressed {
                    let _ = push_code(set, ReportCodes::Sticky);
                    let other_pressed = if other_index > index {
                        self.current_layer[other_index].is_some()
                    } else {
                        self.key_states[other_index].is_pressed()
                    };
                    if other_pressed {
                        let _ = push_code(set, combined_code.to_report_code());
                        PressResult::Pressed
                    } else {
                        let _ = push_code(set, normal_code.to_report_code());
                        PressResult::Pressed
                    }
                } else {
                    PressResult::Released
                }
            },
            ScanCodeBehavior::ChangeConfig(config_num) => {
                if pressed {
                    PressResult::Function(config_num)
                } else {
                    PressResult::Released
                }
            },
        };
        assert(report_codes(*set) =~= report_codes(*old(set)) + self.emitted_at(
            index as int,
            layer as int,
        ));
        result
    }

    /// Drops the press state of every key and every held layer.
    fn release_all(&mut self)
        requires
            old(self).wf(),
        ensures
            final(self).wf(),
            forall|i: int|
                0 <= i < NUM_KEYS ==> #[trigger] final(self).state_at(i) == old(self).state_at(
                    i,
                ).after_reset(),
            forall|i: int| 0 <= i < NUM_KEYS ==> !(#[trigger] final(self).state_at(i)).pressed(),
            forall|i: int| 0 <= i < NUM_KEYS ==> (#[trigger] final(self).held_layer(i)) is None,
            final(self).same_table(old(self)),
            final(self).profile() == old(self).profile(),
    {
        let mut i: usize = 0;
        assert forall|j: int| 0 <= j < NUM_KEYS implies (#[trigger] self.key_states[j]).wf() by {
            assert(self.state_at(j).wf());
        }
        while i < NUM_KEYS
            invariant
                i <= NUM_KEYS,
                forall|j: int| 0 <= j < i ==> #[trigger] self.key_states[j] == old(self).key_states[j].after_reset(),
                forall|j: int| 0 <= j < i ==> !(#[trigger] self.key_states[j]).pressed(),
                forall|j: int| i <= j < NUM_KEYS ==> #[trigger] self.key_states[j] == old(self).key_states[j],
                forall|j: int| 0 <= j < NUM_KEYS ==> (#[trigger] self.key_states[j]).wf(),
                self.codes == old(self).codes,
                self.indicator == old(self).indicator,
                self.config_num == old(self).config_num,
            decreases NUM_KEYS - i,
        {
            self.key_states[i].reset();
            i += 1;
        }
        self.current_layer = [None;NUM_KEYS];
        assert forall|j: int| 0 <= j < NUM_KEYS implies (#[trigger] self.state_at(j)).wf() by {
            assert(self.key_states[j].wf());
        }
    }

    /// Whether a scan with base layer `layer` turns `self` into `after` and
    /// the codes `held` into `codes`, and ends with `outcome`.
    ///
    /// Where no pressed key switches the key map, the codes of the pressed
    /// keys are added in key order, each pressed key holds the layer it was
    /// resolved on, and each other key holds none. Else the first such key
    /// ends the scan: no code is left, every key state is reset and every
    /// held layer dropped, and the outcome names the key map to load and the
    /// time to wait. The key map, the indicator and the profile stay.
    pub open spec fn scanned(
        &self,
        after: &Self,
        layer: usize,
        held: Seq<ReportCodes>,
        codes: Seq<ReportCodes>,
        outcome: KeysOutcome,
    ) -> bool {
        &&& after.same_table(self)
        &&& after.profile() == self.profile()
        &&& 0 <= self.scan_stop(layer, 0) <= NUM_KEYS
        &&& self.scan_stop(layer, 0) == NUM_KEYS ==> {
            &&& outcome == KeysOutcome::Resolved
            &&& codes == held + self.emitted_upto(layer, NUM_KEYS as int)
            &&& after.same_states(self)
            &&& forall|i: int|
                0 <= i < NUM_KEYS ==> #[trigger] after.held_layer(i) == if self.state_at(
                    i,
                ).pressed() {
                    Some(self.effective_layer(i, layer))
                } else {
                    None
                }
        }
        &&& self.scan_stop(layer, 0) < NUM_KEYS ==> {
            &&& self.press_result_at(
                self.scan_stop(layer, 0),
                self.effective_layer(self.scan_stop(layer, 0), layer) as int,
            ) matches PressResult::Function(number)
            &&& outcome == (KeysOutcome::ConfigChange {
                config_num: number as usize,
                settle_ms: SETTLE_DELAY_MS,
            })
            &&& codes == Seq::<ReportCodes>::empty()
            &&& forall|i: int|
                0 <= i < NUM_KEYS ==> #[trigger] after.state_at(i) == self.state_at(
                    i,
                ).after_reset()
            &&& forall|i: int| 0 <= i < NUM_KEYS ==> !(#[trigger] after.state_at(i)).pressed()
            &&& forall|i: int| 0 <= i < NUM_KEYS ==> (#[trigger] after.held_layer(i)) is None
        }
    }

    /// Makes a scan like `get_keys` if one can be made, and else leaves
    /// everything as it is: when the layer does not exist, a combined key
    /// names a key that does not exist, or the set has no room for the codes.
    pub fn try_get_keys(&mut self, layer: usize, set: &mut heapless::Vec<ReportCodes, 64>) -> (outcome:
        Option<KeysOutcome>)
        requires
            old(self).wf(),
        ensures
            final(self).wf(),
            outcome is Some <==> layer < NUM_LAYERS && old(self).codes_in_range() && old(
                self,
            ).scan_fits(layer, report_codes(*old(set)).len()),
            outcome matches Some(how) ==> old(self).scanned(
                final(self),
                layer,
                report_codes(*old(set)),
                report_codes(*final(set)),
                how,
            ),
            outcome is None ==> *final(self) == *old(self) && report_codes(*final(set))
                == report_codes(*old(set)),
    {
        if self.can_scan(layer, set) {
            Some(self.get_keys(layer, set))
        } else {
            None
        }
    }

    /// Resolves every key once, in index order, into `set`. A pressed key is
    /// resolved on the layer it holds, or on `layer` if it holds none, and
    /// from then on holds that layer; a key that is not pressed holds none.
    /// The first pressed key whose cell switches the key map ends the scan:
    /// the set is emptied, every key state reset, every held layer dropped,
    /// and the caller told which key map to load and how long to wait.
    pub fn get_keys(&mut self, layer: usize, set: &mut heapless::Vec<ReportCodes, 64>) -> (outcome:
        KeysOutcome)
        requires
            old(self).wf(),
            old(self).codes_in_range(),
            layer < NUM_LAYERS,
            old(self).scan_fits(layer, report_codes(*old(set)).len()),
        ensures
            final(self).wf(),
            old(self).scanned(
                final(self),
                layer,
                report_codes(*old(set)),
                report_codes(*final(set)),
                outcome,
            ),
    {
        let mut i: usize = 0;
        proof {
            assert(report_codes(*set) + old(self).emitted_upto(layer, 0) == report_codes(*set));
            old(self).lemma_scan_stop_bounds(layer, 0);
            assert forall|j: int| 0 <= j < NUM_KEYS implies (#[trigger] self.key_states[j]).wf() by {
                assert(self.state_at(j).wf());
            }
            assert forall|j: int| 0 <= j < NUM_KEYS implies (#[trigger] self.current_layer[j]
                matches Some(h) ==> h < NUM_LAYERS) by {
                assert(self.held_layer(j) == self.current_layer[j]);
            }
        }
        while i < NUM_KEYS
            invariant
                i <= NUM_KEYS,
                layer < NUM_LAYERS,
                old(self).wf(),
                old(self).codes_in_range(),
                old(self).scan_fits(layer, report_codes(*old(set)).len()),
                self.codes == old(self).codes,
                self.key_states == old(self).key_states,
                self.indicator == old(self).indicator,
                self.config_num == old(self).config_num,
                i <= old(self).scan_stop(layer, 0) <= NUM_KEYS,
                old(self).scan_stop(layer, 0) == old(self).scan_stop(layer, i as int),
                report_codes(*set) == report_codes(*old(set)) + old(self).emitted_upto(
                    layer,
                    i as int,
                ),
                forall|j: int|
                    0 <= j < i ==> #[trigger] self.current_layer[j] == if old(self).state_at(
                        j,
                    ).pressed() {
                        Some(old(self).effective_layer(j, layer))
                    } else {
                        None
                    },
                forall|j: int|
                    i <= j < NUM_KEYS ==> #[trigger] self.current_layer[j] == old(
                        self,
                    ).current_layer[j],
                forall|j: int| 0 <= j < NUM_KEYS ==> (#[trigger] self.key_states[j]).wf(),
                forall|j: int|
                    0 <= j < NUM_KEYS ==> (#[trigger] self.current_layer[j] matches Some(h) ==> h
                        < NUM_LAYERS),
            decreases NUM_KEYS - i,
        {
            let key_layer = match self.current_layer[i] {
                Some(num) => num,
                None => layer,
            };
            proof {
                assert(old(self).held_layer(i as int) == self.current_layer[i as int]);
                assert(key_layer == old(self).effective_layer(i as int, layer));
                assert(old(self).code_at(i as int, key_layer as int) == self.code_at(
                    i as int,
                    key_layer as int,
                ));
                old(self).lemma_scan_stop_bounds(layer, i as int);
                if i < old(self).scan_stop(layer, 0) {
                    old(self).lemma_emitted_upto_grows(
                        layer,
                        i + 1,
                        old(self).scan_stop(layer, 0),
                    );
                    assert(old(self).emitted_upto(layer, i + 1) == old(self).emitted_upto(
                        layer,
                        i as int,
                    ) + old(self).emitted_at(i as int, key_layer as int));
                }
                assert(self.emitted_at(i as int, key_layer as int) == old(self).emitted_at(
                    i as int,
                    key_layer as int,
                ));
                assert(self.press_result_at(i as int, key_layer as int) == old(
                    self,
                ).press_result_at(i as int, key_layer as int));
                assert(forall|j: int| 0 <= j < NUM_KEYS ==> (#[trigger] self.state_at(j)).wf());
                assert(forall|j: int|
                    0 <= j < NUM_KEYS ==> (#[trigger] self.held_layer(j) matches Some(h) ==> h
                        < NUM_LAYERS));
            }
            match self.get_pressed_code(i, key_layer, set) {
                PressResult::Function(number) => {
                    clear_codes(set);
                    self.release_all();
                    return KeysOutcome::ConfigChange {
                        config_num: number as usize,
                        settle_ms: SETTLE_DELAY_MS,
                    };
                },
                PressResult::Pressed => {
                    self.current_layer[i] = Some(key_layer);
                },
                PressResult::Released => {
                    self.current_layer[i] = None;
                },
            }
            i += 1;
        }
        proof {
            assert(forall|j: int| 0 <= j < NUM_KEYS ==> (#[trigger] self.state_at(j)).wf());
            assert(forall|j: int|
                0 <= j < NUM_KEYS ==> (#[trigger] self.held_layer(j) matches Some(h) ==> h
                    < NUM_LAYERS));
        }
        KeysOutcome::Resolved
    }

    /// The cells of all keys on `layer`, in key order.
    pub open spec fn layer_cells(&self, layer: int) -> Seq<ScanCodeBehavior> {
        Seq::new(NUM_KEYS as nat, |i: int| self.code_at(i, layer))
    }

    /// The cells of the whole key map in the order they travel in: key by
    /// key, and for each key layer by layer.
    pub open spec fn table_cells(&self) -> Seq<ScanCodeBehavior> {
        Seq::new(
            (NUM_KEYS * NUM_LAYERS) as nat,
            |c: int| self.code_at(c / (NUM_LAYERS as int), c % (NUM_LAYERS as int)),
        )
    }

    /// Whether `layer` has to be written to the store that holds `stored`
    /// for it: when the store has no record, or one with other cells.
    pub open spec fn needs_write(&self, layer: int, stored: Option<StorageItem>) -> bool {
        match stored {
            None => true,
            Some(item) => stored_cells(item) != self.layer_cells(layer),
        }
    }

    /// The layers below `upto` that have to be written, in rising order.
    pub open spec fn pending_layers(&self, stored: Seq<Option<StorageItem>>, upto: int) -> Seq<
        usize,
    >
        decreases upto,
    {
        if upto <= 0 {
            Seq::empty()
        } else if self.needs_write(upto - 1, stored[upto - 1]) {
            self.pending_layers(stored, upto - 1).push((upto - 1) as usize)
        } else {
            self.pending_layers(stored, upto - 1)
        }
    }

    /// Whether a scan with base layer `layer` can be made into `set`: the
    /// layer exists, every combined key names a key that exists, and the set
    /// has room for the codes.
    pub fn can_scan(&self, layer: usize, set: &heapless::Vec<ReportCodes, 64>) -> (ok: bool)
        requires
            self.wf(),
        ensures
            ok == (layer < NUM_LAYERS && self.codes_in_range() && self.scan_fits(
                layer,
                report_codes(*set).len(),
            )),
    {
        if layer >= NUM_LAYERS {
            return false;
        }
        let mut i: usize = 0;
        while i < NUM_KEYS
            invariant
                i <= NUM_KEYS,
                forall|a: int, l: int|
                    0 <= a < i && 0 <= l < NUM_LAYERS ==> (#[trigger] self.code_at(a, l)
                        matches ScanCodeBehavior::CombinedKey { other_index, .. } ==> other_index
                        < NUM_KEYS),
            decreases NUM_KEYS - i,
        {
            let row = self.codes[i];
            let mut l: usize = 0;
            while l < NUM_LAYERS
                invariant
                    i < NUM_KEYS,
                    l <= NUM_LAYERS,
                    row == self.codes[i as int],
                    forall|b: int|
                        0 <= b < l ==> (#[trigger] self.code_at(i as int, b)
                            matches ScanCodeBehavior::CombinedKey { other_index, .. }
                            ==> other_index < NUM_KEYS),
                decreases NUM_LAYERS - l,
            {
                match row[l] {
                    ScanCodeBehavior::CombinedKey { other_index, .. } => {
                        if other_index >= NUM_KEYS {
                            assert(self.code_at(i as int, l as int) is CombinedKey);
                            return false;
                        }
                    },
                    _ => {},
                }
                l += 1;
            }
            i += 1;
        }
        assert(self.codes_in_range());
        let held = codes_as_slice(set).len();
        let mut total: usize = held;
        let mut i: usize = 0;
        proof {
            self.lemma_scan_stop_bounds(layer, 0);
        }
        while i < NUM_KEYS
            invariant
                i <= NUM_KEYS,
                layer < NUM_LAYERS,
                self.wf(),
                held == report_codes(*set).len(),
                total == held + self.emitted_upto(layer, i as int).len(),
                total <= CODE_CAPACITY,
                self.codes_in_range(),
                i <= self.scan_stop(layer, 0) <= NUM_KEYS,
                self.scan_stop(layer, 0) == self.scan_stop(layer, i as int),
            decreases NUM_KEYS - i,
        {
            let key_layer = match self.current_layer[i] {
                Some(num) => num,
                None => layer,
            };
            proof {
                assert(self.held_layer(i as int) == self.current_layer[i as int]);
                assert(key_layer == self.effective_layer(i as int, layer));
                self.lemma_scan_stop_bounds(layer, i as int);
                self.lemma_scan_stop_bounds(layer, i + 1);
                assert(self.emitted_upto(layer, i + 1) == self.emitted_upto(layer, i as int)
                    + self.emitted_at(i as int, key_layer as int));
            }
            if self.key_states[i].is_pressed() {
                let row = self.codes[i];
                let count: usize = match row[key_layer] {
                    ScanCodeBehavior::Single(_) => 1,
                    ScanCodeBehavior::Double(_, _) => 2,
                    ScanCodeBehavior::Triple(_, _, _) => 3,
                    ScanCodeBehavior::CombinedKey { .. } => 2,
                    ScanCodeBehavior::ChangeConfig(_) => {
                        assert(self.scan_stop(layer, 0) == i);
                        return true;
                    },
                };
                assert(count == self.emitted_at(i as int, key_layer as int).len());
                if count > CODE_CAPACITY - total {
                    proof {
                        self.lemma_emitted_upto_grows(layer, i + 1, self.scan_stop(layer, 0));
                    }
                    return false;
                }
                total += count;
            }
            i += 1;
        }
        true
    }

    /// The cells of all keys on `layer`, as they are stored.
    pub fn layer_storage(&self, layer: usize) -> (storage: ScanCodeLayerStorage<NUM_KEYS>)
        requires
            layer < NUM_LAYERS,
        ensures
            storage.codes@ == self.layer_cells(layer as int),
    {
        let mut storage = ScanCodeLayerStorage::<NUM_KEYS>::default();
        let mut i: usize = 0;
        while i < NUM_KEYS
            invariant
                i <= NUM_KEYS,
                layer < NUM_LAYERS,
                forall|j: int| 0 <= j < i ==> storage.codes[j] == self.code_at(j, layer as int),
            decreases NUM_KEYS - i,
        {
            let row = self.codes[i];
            storage.codes[i] = row[layer];
            i += 1;
        }
        assert(storage.codes@ =~= self.layer_cells(layer as int));
        storage
    }

    /// Makes profile `config_num` the active one. `stored` holds, for each
    /// layer, the record of that layer of the profile as the store gave it.
    /// If every layer has a record, the records become the key map, and the
    /// indicator, if one is set, is told the profile. If one is missing, the
    /// load fails and leaves a key map in which no cell is assigned, with
    /// profile 0 active, no layer held and no indicator set. The states of
    /// the keys stay as they are either way: what a switch has learned of its
    /// travel, and which kind of switch it is, does not depend on the
    /// profile.
    pub fn load_keys_from_storage(&mut self, config_num: usize, stored: &[Option<StorageItem>]) -> (r:
        Result<(), ()>)
        requires
            stored@.len() == NUM_LAYERS,
        ensures
            r is Ok <==> forall|l: int| 0 <= l < NUM_LAYERS ==> (#[trigger] stored@[l]) is Some,
            r is Ok ==> {
                &&& final(self).profile() == config_num
                &&& forall|i: int, l: int|
                    0 <= i < NUM_KEYS && 0 <= l < NUM_LAYERS ==> #[trigger] final(self).code_at(
                        i,
                        l,
                    ) == stored_cells(stored@[l]->Some_0)[i]
                &&& final(self).same_states(old(self))
                &&& final(self).has_indicator() == old(self).has_indicator()
                &&& forall|i: int|
                    0 <= i < NUM_KEYS ==> #[trigger] final(self).held_layer(i) == old(
                        self,
                    ).held_layer(i)
                &&& final(self).wf() == old(self).wf()
            },
            r is Err ==> {
                &&& final(self).profile() == 0
                &&& !final(self).has_indicator()
                &&& old(self).wf() ==> final(self).wf()
                &&& final(self).codes_in_range()
                &&& forall|i: int, l: int|
                    0 <= i < NUM_KEYS && 0 <= l < NUM_LAYERS ==> #[trigger] final(self).code_at(
                        i,
                        l,
                    ) == ScanCodeBehavior::spec_default()
                &&& final(self).same_states(old(self))
                &&& forall|i: int| 0 <= i < NUM_KEYS ==> (#[trigger] final(self).held_layer(i)) is None
            },
    {
        self.config_num = config_num;
        let mut layer: usize = 0;
        while layer < NUM_LAYERS
            invariant
                layer <= NUM_LAYERS,
                stored@.len() == NUM_LAYERS,
                self.config_num == config_num,
                self.key_states == old(self).key_states,
                self.indicator == old(self).indicator,
                self.current_layer == old(self).current_layer,
                forall|l: int| 0 <= l < layer ==> (#[trigger] stored@[l]) is Some,
                forall|i: int, l: int|
                    0 <= i < NUM_KEYS && 0 <= l < layer ==> #[trigger] self.codes[i][l]
                        == stored_cells(stored@[l]->Some_0)[i],
            decreases NUM_LAYERS - layer,
        {
            match stored[layer] {
                Some(StorageItem::Key(codes)) => {
                    let mut i: usize = 0;
                    while i < NUM_KEYS
                        invariant
                            i <= NUM_KEYS,
                            layer < NUM_LAYERS,
                            stored@.len() == NUM_LAYERS,
                            stored@[layer as int] == Some(StorageItem::Key(codes)),
                            self.config_num == config_num,
                            self.key_states == old(self).key_states,
                            self.indicator == old(self).indicator,
                            self.current_layer == old(self).current_layer,
                            forall|a: int, l: int|
                                0 <= a < NUM_KEYS && 0 <= l < layer ==> #[trigger] self.codes[a][l]
                                    == stored_cells(stored@[l]->Some_0)[a],
                            forall|a: int| 0 <= a < i ==> #[trigger] self.codes[a][layer as int] == codes.codes[a],
                        decreases NUM_KEYS - i,
                    {
                        let mut row = self.codes[i];
                        row[layer] = codes.codes[i];
                        self.codes[i] = row;
                        i += 1;
                    }
                },
                None => {
                    self.codes = [[ScanCodeBehavior::Single(KeyCodes::Undefined);NUM_LAYERS];NUM_KEYS];
                    self.indicator = None;
                    self.current_layer = [None;NUM_KEYS];
                    self.config_num = 0;
                    proof {
                        assert(stored@[layer as int] is None);
                        assert(self.states() == old(self).states());
                        assert forall|i: int, l: int|
                            0 <= i < NUM_KEYS && 0 <= l < NUM_LAYERS implies #[trigger] self.code_at(
                            i,
                            l,
                        ) == ScanCodeBehavior::spec_default() by {
                            assert(self.codes[i][l] == ScanCodeBehavior::spec_default());
                        }
                        assert forall|i: int| 0 <= i < NUM_KEYS implies (#[trigger] self.held_layer(
                            i,
                        )) is None by {
                            assert(self.current_layer[i] is None);
                        }
                    }
                    return Err(());
                },
            }
            layer += 1;
        }
        match &self.indicator {
            Some(indicator) => {
                indicator.indicate_config(Indicate::Config(self.config_num));
            },
            None => {},
        }
        proof {
            assert(forall|i: int|
                0 <= i < NUM_KEYS ==> #[trigger] self.state_at(i) == old(self).state_at(i));
            assert(forall|i: int|
                0 <= i < NUM_KEYS ==> #[trigger] self.held_layer(i) == old(self).held_layer(i));
            assert forall|i: int, l: int| 0 <= i < NUM_KEYS && 0 <= l < NUM_LAYERS implies #[trigger] self.code_at(
                i,
                l,
            ) == stored_cells(stored@[l]->Some_0)[i] by {
                assert(self.codes[i][l] == stored_cells(stored@[l]->Some_0)[i]);
            }
            if old(self).wf() {
                assert(forall|i: int| 0 <= i < NUM_KEYS ==> (#[trigger] self.state_at(i)).wf());
            }
            if self.wf() {
                assert(forall|i: int|
                    0 <= i < NUM_KEYS ==> (#[trigger] old(self).state_at(i)) == self.state_at(i));
                assert(forall|i: int|
                    0 <= i < NUM_KEYS ==> (#[trigger] old(self).held_layer(i)) == self.held_layer(
                        i,
                    ));
            }
        }
        Ok(())
    }

    /// Tells which layers of the key map have to be written to the store as
    /// profile `config_num`. `stored` holds, for each layer, the record of
    /// that layer as the store gave it. A layer is written when the store has
    /// no record of it or one with other cells; the writes come back in
    /// rising order of the layers.
    pub fn write_keys_to_storage(&self, config_num: usize, stored: &[Option<StorageItem>]) -> (writes:
        Vec<(StorageKey, StorageItem)>)
        requires
            stored@.len() == NUM_LAYERS,
        ensures
            writes@.len() == self.pending_layers(stored@, NUM_LAYERS as int).len(),
            forall|k: int|
                0 <= k < writes@.len() ==> {
                    &&& (#[trigger] writes@[k]).0 == (StorageKey::KeyScanCode {
                        config_num,
                        layer: self.pending_layers(stored@, NUM_LAYERS as int)[k],
                    })
                    &&& stored_cells(writes@[k].1) == self.layer_cells(
                        self.pending_layers(stored@, NUM_LAYERS as int)[k] as int,
                    )
                },
    {
        let mut writes: Vec<(StorageKey, StorageItem)> = Vec::new();
        let mut layer: usize = 0;
        while layer < NUM_LAYERS
            invariant
                layer <= NUM_LAYERS,
                stored@.len() == NUM_LAYERS,
                writes@.len() == self.pending_layers(stored@, layer as int).len(),
                forall|k: int|
                    0 <= k < writes@.len() ==> {
                        &&& (#[trigger] writes@[k]).0 == (StorageKey::KeyScanCode {
                            config_num,
                            layer: self.pending_layers(stored@, layer as int)[k],
                        })
                        &&& stored_cells(writes@[k].1) == self.layer_cells(
                            self.pending_layers(stored@, layer as int)[k] as int,
                        )
                    },
            decreases NUM_LAYERS - layer,
        {
            let keys = self.layer_storage(layer);
            let storage_key = StorageKey::KeyScanCode { config_num, layer };
            let differs = match &stored[layer] {
                Some(StorageItem::Key(stored_keys)) => !stored_keys.same_codes(&keys),
                None => true,
            };
            assert(differs == self.needs_write(layer as int, stored@[layer as int]));
            if differs {
                writes.push((storage_key, StorageItem::Key(keys)));
            }
            layer += 1;
        }
        writes
    }

    /// Writes the whole key map to the stream of `writer`: the encoding of
    /// each cell, key by key and for each key layer by layer. Frames that
    /// fill up are added to `frames`.
    pub fn write_keys_to_com(&self, writer: &mut ContiniousWriter, frames: &mut Vec<[u8; BUFFER_SIZE]>)
        requires
            old(writer).wf(),
        ensures
            final(writer).wf(),
            final(frames)@.len() >= old(frames)@.len(),
            final(frames)@.take(old(frames)@.len() as int) == old(frames)@,
            frames_bytes(final(frames)@) + final(writer).pending() == frames_bytes(old(frames)@)
                + old(writer).pending() + encode_cells(self.table_cells()),
    {
        let mut buf = [0u8;4];
        let mut i: usize = 0;
        proof {
            assert(self.table_cells().take(0) =~= Seq::<ScanCodeBehavior>::empty());
            assert(frames_bytes(frames@) + writer.pending() + Seq::<u8>::empty() =~= frames_bytes(
                frames@,
            ) + writer.pending());
        }
        while i < NUM_KEYS
            invariant
                i <= NUM_KEYS,
                writer.wf(),
                frames@.len() >= old(frames)@.len(),
                frames@.take(old(frames)@.len() as int) == old(frames)@,
                frames_bytes(frames@) + writer.pending() == frames_bytes(old(frames)@) + old(
                    writer,
                ).pending() + encode_cells(self.table_cells().take(i * NUM_LAYERS)),
            decreases NUM_KEYS - i,
        {
            let row = self.codes[i];
            let mut l: usize = 0;
            while l < NUM_LAYERS
                invariant
                    i < NUM_KEYS,
                    l <= NUM_LAYERS,
                    row == self.codes[i as int],
                    writer.wf(),
                    frames@.len() >= old(frames)@.len(),
                    frames@.take(old(frames)@.len() as int) == old(frames)@,
                    frames_bytes(frames@) + writer.pending() == frames_bytes(old(frames)@) + old(
                        writer,
                    ).pending() + encode_cells(self.table_cells().take(i * NUM_LAYERS + l)),
                decreases NUM_LAYERS - l,
            {
                let code = row[l];
                let len = code.into_buffer_len();
                let ghost sent = frames@;
                let ghost waiting = writer.pending();
                let ghost cells = self.table_cells().take(i * NUM_LAYERS + l);
                code.write_at(&mut buf, 0);
                let bytes = vstd::slice::slice_subrange(buf.as_slice(), 0, len);
                assert(bytes@ =~= code.encoding());
                writer.write(bytes, frames);
                proof {
                    let c = i * NUM_LAYERS + l;
                    assert(c / (NUM_LAYERS as int) == i && c % (NUM_LAYERS as int) == l) by (nonlinear_arith)
                        requires
                            c == i * NUM_LAYERS + l,
                            0 <= l < NUM_LAYERS,
                            NUM_LAYERS == 6,
                    ;
                    assert(self.table_cells()[c] == code);
                    assert(self.table_cells().take(c + 1) =~= cells.push(code));
                    lemma_encode_cells_push(cells, code);
                    assert(frames_bytes(old(frames)@) + old(writer).pending() + (encode_cells(cells)
                        + code.encoding()) =~= frames_bytes(old(frames)@) + old(writer).pending()
                        + encode_cells(cells) + code.encoding());
                    assert(frames@.take(old(frames)@.len() as int) =~= old(frames)@) by {
                        assert(frames@.take(sent.len() as int) == sent);
                        assert(frames@.take(old(frames)@.len() as int) =~= sent.take(
                            old(frames)@.len() as int,
                        ));
                    }
                }
                l += 1;
            }
            assert(i * NUM_LAYERS + NUM_LAYERS == (i + 1) * NUM_LAYERS) by (nonlinear_arith);
            i += 1;
        }
        assert(self.table_cells().take(NUM_KEYS * NUM_LAYERS) =~= self.table_cells());
    }

    /// Makes the key map that the front of `bytes` encodes the key map of
    /// profile `config_num`: one cell for each key and layer is read, key by
    /// key and for each key layer by layer, as `write_keys_to_com` writes
    /// them; what follows the cells is not read. If a cell does not decode,
    /// or the bytes end early, nothing is changed. On success the indicator,
    /// if one is set, is told the profile.
    pub fn load_keys_from_com(&mut self, bytes: &[u8], config_num: usize) -> (r: Result<
        (),
        SerializationError,
    >)
        ensures
            match decode_front(bytes@, NUM_CELLS as nat) {
                Ok(cells) => {
                    &&& r is Ok
                    &&& final(self).table_cells() == cells
                    &&& final(self).profile() == config_num
                    &&& final(self).same_states(old(self))
                    &&& final(self).indicator() == old(self).indicator()
                    &&& final(self).held() == old(self).held()
                },
                Err(e) => r == Err::<(), SerializationError>(e) && *final(self) == *old(self),
            },
    {
        let mut table = [ScanCodeBehavior::Single(KeyCodes::Undefined);NUM_CELLS];
        let mut count: usize = 0;
        let mut at: usize = 0;
        proof {
            assert(bytes@.skip(0) == bytes@);
            assert(table@.take(0) =~= Seq::<ScanCodeBehavior>::empty());
            let all = decode_front(bytes@, NUM_CELLS as nat);
            if all is Ok {
                assert(Seq::<ScanCodeBehavior>::empty() + all->Ok_0 =~= all->Ok_0);
            }
        }
        while count < NUM_CELLS
            invariant
                at <= bytes@.len(),
                count <= NUM_CELLS,
                decode_front(bytes@, NUM_CELLS as nat) == crate::codes::prepend_cells(
                    table@.take(count as int),
                    decode_front(bytes@.skip(at as int), (NUM_CELLS - count) as nat),
                ),
            decreases NUM_CELLS - count,
        {
            if at >= bytes.len() {
                return Err(SerializationError::BufferTooSmall);
            }
            let rest = vstd::slice::slice_subrange(bytes, at, bytes.len());
            let code = match ScanCodeBehavior::deserialize_from(rest) {
                Ok(code) => code,
                Err(e) => {
                    return Err(e);
                },
            };
            let ghost before = table@;
            table[count] = code;
            proof {
                let tail = decode_front(
                    rest@.skip(code.encoded_len() as int),
                    (NUM_CELLS - count - 1) as nat,
                );
                assert(rest@.skip(code.encoded_len() as int) =~= bytes@.skip(
                    at + code.encoded_len(),
                ));
                assert(table@.take(count + 1) =~= before.take(count as int).push(code));
                if tail is Ok {
                    assert(before.take(count as int) + (seq![code] + tail->Ok_0) =~= before.take(
                        count as int,
                    ).push(code) + tail->Ok_0);
                }
            }
            at += code.into_buffer_len();
            count += 1;
        }
        let ghost cells = table@;
        proof {
            assert(table@.take(NUM_CELLS as int) =~= table@);
            assert(cells + Seq::<ScanCodeBehavior>::empty() =~= cells);
            assert(decode_front(bytes@, NUM_CELLS as nat) == Ok::<
                Seq<ScanCodeBehavior>,
                SerializationError,
            >(cells));
        }
        self.config_num = config_num;
        let mut i: usize = 0;
        while i < NUM_KEYS
            invariant
                i <= NUM_KEYS,
                cells == table@,
                self.config_num == config_num,
                self.key_states == old(self).key_states,
                self.indicator == old(self).indicator,
                self.current_layer == old(self).current_layer,
                forall|a: int, l: int|
                    0 <= a < i && 0 <= l < NUM_LAYERS ==> #[trigger] self.codes[a][l] == cells[a
                        * NUM_LAYERS + l],
            decreases NUM_KEYS - i,
        {
            let mut row = self.codes[i];
            let mut l: usize = 0;
            while l < NUM_LAYERS
                invariant
                    i < NUM_KEYS,
                    l <= NUM_LAYERS,
                    cells == table@,
                    forall|b: int| 0 <= b < l ==> #[trigger] row[b] == cells[i * NUM_LAYERS + b],
                decreases NUM_LAYERS - l,
            {
                assert(i * NUM_LAYERS + l < NUM_CELLS) by (nonlinear_arith)
                    requires
                        i < NUM_KEYS,
                        l < NUM_LAYERS,
                        NUM_KEYS == 36,
                        NUM_LAYERS == 6,
                        NUM_CELLS == 216,
                ;
                row[l] = table[i * NUM_LAYERS + l];
                l += 1;
            }
            self.codes[i] = row;
            i += 1;
        }
        match &self.indicator {
            Some(indicator) => {
                indicator.indicate_config(Indicate::Config(self.config_num));
            },
            None => {},
        }
        proof {
            assert forall|c: int| 0 <= c < NUM_KEYS * NUM_LAYERS implies self.table_cells()[c]
                == cells[c] by {
                let a = c / (NUM_LAYERS as int);
                let l = c % (NUM_LAYERS as int);
                assert(self.codes[a][l] == cells[a * NUM_LAYERS + l]);
            }
            assert(self.table_cells() =~= cells);
        }
        Ok(())
    }
}

/// The cells that a stored record holds.
pub open spec fn stored_cells(item: StorageItem) -> Seq<ScanCodeBehavior> {
    match item {
        StorageItem::Key(storage) => storage.codes@,
    }
}

/// What became of a scan that was asked for while a pause may be on.
#[derive(Clone, Copy, Debug, PartialEq, Eq, Structural)]
pub enum SettleOutcome {
    /// The pause after a switch of the key map is not over: nothing was
    /// scanned.
    Settling,
    /// The scan cannot be made, see `Keys::try_get_keys`: nothing was
    /// scanned.
    Refused,
    /// The scan was made and ended like this.
    Scanned(KeysOutcome),
}

/// Keeps the keys from being scanned during the pause that follows a switch
/// of the key map. Times are in microseconds.
#[derive(Clone, Copy, Debug, PartialEq, Eq, Structural)]
pub struct Settle {
    /// The time from which keys are scanned again.
    pub resume_at: u64,
}

impl Settle {
    /// Whether a scan is made at `now`.
    pub open spec fn is_open(&self, now: u64) -> bool {
        now >= self.resume_at
    }

    /// No pause is on.
    pub fn new() -> (settle: Self)
        ensures
            settle.resume_at == 0,
    {
        Settle { resume_at: 0 }
    }

    /// Scans the keys at `now` unless the pause after a switch of the key
    /// map is still on. A scan that ends with a switch of the key map starts
    /// the pause: for the next `SETTLE_DELAY_US` microseconds every scan is
    /// passed over and leaves the keys and the set as they are.
    pub fn scan<K: KeyState, I: ConfigIndicator>(
        &mut self,
        keys: &mut Keys<K, I>,
        layer: usize,
        set: &mut heapless::Vec<ReportCodes, 64>,
        now: u64,
    ) -> (outcome: SettleOutcome)
        requires
            old(keys).wf(),
            now + SETTLE_DELAY_US <= u64::MAX,
        ensures
            final(keys).wf(),
            !old(self).is_open(now) ==> {
                &&& outcome == SettleOutcome::Settling
                &&& *final(self) == *old(self)
                &&& *final(keys) == *old(keys)
                &&& report_codes(*final(set)) == report_codes(*old(set))
            },
            old(self).is_open(now) ==> {
                &&& outcome is Refused <==> !(layer < NUM_LAYERS && old(keys).codes_in_range()
                    && old(keys).scan_fits(layer, report_codes(*old(set)).len()))
                &&& outcome is Refused ==> *final(self) == *old(self) && *final(keys) == *old(keys)
                    && report_codes(*final(set)) == report_codes(*old(set))
                &&& outcome matches SettleOutcome::Scanned(how) ==> {
                    &&& old(keys).scanned(
                        final(keys),
                        layer,
                        report_codes(*old(set)),
                        report_codes(*final(set)),
                        how,
                    )
                    &&& final(self).resume_at == if how is ConfigChange {
                        (now + SETTLE_DELAY_US) as u64
                    } else {
                        old(self).resume_at
                    }
                }
                &&& outcome !is Settling
            },
    {
        if now < self.resume_at {
            return SettleOutcome::Settling;
        }
        match keys.try_get_keys(layer, set) {
            Some(how) => {
                match how {
                    KeysOutcome::ConfigChange { .. } => {
                        self.resume_at = now + SETTLE_DELAY_US;
                    },
                    KeysOutcome::Resolved => {},
                }
                SettleOutcome::Scanned(how)
            },
            None => SettleOutcome::Refused,
        }
    }
}

/// After a switch of the key map at `now` no scan is made for the whole
/// pause, and scans are made from its end on.
pub proof fn lemma_settle_pause(settle: Settle, now: u64, later: u64)
    requires
        settle.resume_at == now + SETTLE_DELAY_US,
        now <= later,
    ensures
        later < now + SETTLE_DELAY_US ==> !settle.is_open(later),
        later >= now + SETTLE_DELAY_US ==> settle.is_open(later),
        SETTLE_DELAY_US == 1000 * SETTLE_DELAY_MS,
{
}

/// Keys that are not pressed add nothing to a scan: while no key below
/// `upto` is pressed, a scan of these keys holds no code.
pub proof fn lemma_released_keys_add_nothing<K: KeyState, I: ConfigIndicator>(
    keys: Keys<K, I>,
    base: usize,
    upto: int,
)
    requires
        0 <= upto <= NUM_KEYS,
        forall|i: int| 0 <= i < upto ==> !(#[trigger] keys.state_at(i)).pressed(),
    ensures
        keys.emitted_upto(base, upto) == Seq::<ReportCodes>::empty(),
    decreases upto,
{
    if upto > 0 {
        lemma_released_keys_add_nothing(keys, base, upto - 1);
        assert(!keys.state_at(upto - 1).pressed());
        assert(keys.emitted_upto(base, upto) =~= Seq::<ReportCodes>::empty());
    }
}

/// A scan stops at the first pressed key whose cell switches the key map:
/// if such a key is at `stop` and none is before it, the scan stops there,
/// and if there is none at all, the scan goes through all keys.
pub proof fn lemma_scan_stops_at<K: KeyState, I: ConfigIndicator>(
    keys: Keys<K, I>,
    base: usize,
    from: int,
    stop: int,
)
    requires
        0 <= from <= stop <= NUM_KEYS,
        forall|j: int|
            from <= j < stop ==> !(#[trigger] keys.press_result_at(
                j,
                keys.effective_layer(j, base) as int,
            ) is Function),
        stop < NUM_KEYS ==> keys.press_result_at(stop, keys.effective_layer(stop, base) as int)
            is Function,
    ensures
        keys.scan_stop(base, from) == stop,
    decreases stop - from,
{
    if from < stop {
        assert(!(keys.press_result_at(from, keys.effective_layer(from, base) as int)
            is Function));
        lemma_scan_stops_at(keys, base, from + 1, stop);
    }
}

/// Where exactly one key is pressed, and its cell does not switch the key
/// map, a scan holds the codes of that key and nothing else.
pub proof fn lemma_single_press<K: KeyState, I: ConfigIndicator>(
    keys: Keys<K, I>,
    base: usize,
    pressed: int,
)
    requires
        0 <= pressed < NUM_KEYS,
        forall|i: int|
            0 <= i < NUM_KEYS ==> (#[trigger] keys.state_at(i)).pressed() == (i == pressed),
        !(keys.code_at(pressed, keys.effective_layer(pressed, base) as int) is ChangeConfig),
    ensures
        keys.scan_stop(base, 0) == NUM_KEYS,
        keys.emitted_upto(base, NUM_KEYS as int) == keys.emitted_at(
            pressed,
            keys.effective_layer(pressed, base) as int,
        ),
{
    assert forall|j: int| 0 <= j < NUM_KEYS implies !(#[trigger] keys.press_result_at(
        j,
        keys.effective_layer(j, base) as int,
    ) is Function) by {
        assert(keys.state_at(j).pressed() == (j == pressed));
    }
    lemma_scan_stops_at(keys, base, 0, NUM_KEYS as int);
    lemma_released_keys_add_nothing(keys, base, pressed);
    lemma_only_released_after(keys, base, pressed, NUM_KEYS as int);
    assert(keys.emitted_upto(base, pressed + 1) =~= keys.emitted_at(
        pressed,
        keys.effective_layer(pressed, base) as int,
    ));
}

proof fn lemma_only_released_after<K: KeyState, I: ConfigIndicator>(
    keys: Keys<K, I>,
    base: usize,
    pressed: int,
    upto: int,
)
    requires
        0 <= pressed < upto <= NUM_KEYS,
        forall|i: int| pressed < i < upto ==> !(#[trigger] keys.state_at(i)).pressed(),
    ensures
        keys.emitted_upto(base, upto) == keys.emitted_upto(base, pressed + 1),
    decreases upto,
{
    if upto > pressed + 1 {
        lemma_only_released_after(keys, base, pressed, upto - 1);
        assert(!keys.state_at(upto - 1).pressed());
        assert(keys.emitted_upto(base, upto) =~= keys.emitted_upto(base, upto - 1));
    }
}

/// A pressed combined key sends a marker and then one of its two codes. If
/// its partner has a lower index, or is the key itself, it sends the combined
/// code exactly when the partner is pressed in this scan. If its partner has
/// a higher index, it sends the combined code exactly when the partner holds
/// a layer, which is the press state that the scan before found.
pub proof fn lemma_combined_key_reads_partner<K: KeyState, I: ConfigIndicator>(
    keys: Keys<K, I>,
    index: int,
    layer: int,
)
    requires
        keys.state_at(index).pressed(),
        keys.code_at(index, layer) is CombinedKey,
    ensures
        keys.press_result_at(index, layer) == PressResult::Pressed,
        keys.code_at(index, layer) matches ScanCodeBehavior::CombinedKey {
            other_index,
            normal_code,
            combined_code,
        } && keys.emitted_at(index, layer) == seq![
            ReportCodes::Sticky,
            if (other_index <= index && keys.state_at(other_index as int).pressed()) || (
            other_index > index && keys.held_layer(other_index as int) is Some) {
                combined_code.report_code()
            } else {
                normal_code.report_code()
            },
        ],
{
}

/// What a combined key sees of a partner with a higher index is the press
/// state of the scan before. `before` are the keys as that scan found them,
/// `after` as it left them, and `now` the keys at this scan, with the layers
/// held as that scan left them: readings change no held layer.
pub proof fn lemma_later_partner_is_seen_a_scan_late<K: KeyState, I: ConfigIndicator>(
    before: Keys<K, I>,
    after: Keys<K, I>,
    now: Keys<K, I>,
    base: usize,
    held: Seq<ReportCodes>,
    codes: Seq<ReportCodes>,
    index: int,
    other: int,
)
    requires
        before.scanned(&after, base, held, codes, KeysOutcome::Resolved),
        now.held() == after.held(),
        0 <= index < other < NUM_KEYS,
    ensures
        now.partner_pressed(index, other) == before.state_at(other).pressed(),
        now.partner_pressed(other, index) == now.state_at(index).pressed(),
{
    assert(before.scan_stop(base, 0) == NUM_KEYS);
    assert(after.held_layer(other) == if before.state_at(other).pressed() {
        Some(before.effective_layer(other, base))
    } else {
        None
    });
}

/// The packed state of a row of keys: key `i` below `upto` is pressed in it
/// exactly when it is pressed in the row.
pub open spec fn pack_states<K: KeyState, SL: SlaveState>(states: Seq<K>, upto: int) -> SL
    decreases upto,
{
    if upto <= 0 {
        SL::initial()
    } else {
        pack_states::<K, SL>(states, upto - 1).after_update(upto - 1, states[upto - 1].pressed())
    }
}

/// The keys of the half that has no connection to the host: their states,
/// their sensors, and the packed press state that was sent last.
pub struct SlaveKeys<K: KeyState, KS: KeySensors<Item = K::Item>, SL: SlaveState> {
    states: [K; HALF_KEYS],
    sensors: KS,
    slave_state: SL,
}

impl<K: KeyState, KS: KeySensors<Item = K::Item>, SL: SlaveState> SlaveKeys<K, KS, SL> {
    pub closed spec fn states(&self) -> Seq<K> {
        self.states@
    }

    pub closed spec fn sensors(&self) -> KS {
        self.sensors
    }

    /// The packed state that was sent last.
    pub closed spec fn slave_state(&self) -> SL {
        self.slave_state
    }

    pub open spec fn wf(&self) -> bool {
        &&& SL::key_limit() >= HALF_KEYS
        &&& self.states().len() == HALF_KEYS
        &&& forall|i: int| 0 <= i < HALF_KEYS ==> (#[trigger] self.states()[i]).wf()
    }

    pub fn new(sensors: KS) -> (keys: Self)
        requires
            SL::key_limit() >= HALF_KEYS,
        ensures
            keys.wf(),
            keys.sensors() == sensors,
            keys.slave_state() == SL::initial(),
            forall|i: int| 0 <= i < HALF_KEYS ==> #[trigger] keys.states()[i] == K::initial(),
    {
        SlaveKeys {
            states: [K::default_state();HALF_KEYS],
            sensors,
            slave_state: SL::default_state(),
        }
    }

    /// The sensors, to hand them the readings of the next scan.
    pub fn sensors_mut(&mut self) -> (sensors: &mut KS)
        ensures
            *sensors == old(self).sensors(),
            final(self).sensors() == *final(sensors),
            final(self).states() == old(self).states(),
            final(self).slave_state() == old(self).slave_state(),
    {
        &mut self.sensors
    }

    /// Makes one pass of the calibration phase; see `Keys::setup_positions`.
    pub fn setup_keys(&mut self) -> (done: bool)
        requires
            old(self).wf(),
        ensures
            final(self).wf(),
            final(self).states() == apply_setup(
                old(self).states(),
                old(self).sensors().pending_readings(),
            ),
            done == setup_complete(old(self).states(), old(self).sensors().pending_readings()),
            final(self).slave_state() == old(self).slave_state(),
    {
        let readings = self.sensors.take_readings();
        let mut setup = true;
        let mut j: usize = 0;
        proof {
            assert(readings@.take(0) =~= Seq::<(usize, K::Item)>::empty());
            assert forall|i: int| 0 <= i < HALF_KEYS implies (#[trigger] self.states[i]).wf() by {
                assert(self.states()[i].wf());
            }
        }
        while j < readings.len()
            invariant
                j <= readings@.len(),
                SL::key_limit() >= HALF_KEYS,
                self.states@ == apply_setup(old(self).states@, readings@.take(j as int)),
                setup == setup_complete(old(self).states@, readings@.take(j as int)),
                forall|i: int| 0 <= i < HALF_KEYS ==> (#[trigger] self.states[i]).wf(),
                self.slave_state == old(self).slave_state,
            decreases readings@.len() - j,
        {
            let (index, buf) = readings[j];
            let ghost before = self.states@;
            proof {
                assert(readings@.take(j + 1).drop_last() =~= readings@.take(j as int));
                assert(readings@.take(j + 1).last() == readings@[j as int]);
            }
            if index < HALF_KEYS {
                let res = self.states[index].setup(buf);
                assert(self.states@ =~= before.update(
                    index as int,
                    before[index as int].after_setup(buf),
                ));
                setup = setup && res;
            }
            j += 1;
        }
        proof {
            assert(readings@.take(j as int) =~= readings@);
            assert forall|i: int| 0 <= i < HALF_KEYS implies (#[trigger] self.states()[i]).wf() by {
                assert(self.states[i].wf());
            }
        }
        setup
    }

    /// Takes the readings of one scan and packs the press states of the
    /// keys. Returns the packed state if it is not the one sent last, for
    /// the caller to send, and keeps it as the one sent last.
    pub fn send_report(&mut self) -> (report: Option<SL>)
        requires
            old(self).wf(),
        ensures
            final(self).wf(),
            final(self).states() == apply_readings(
                old(self).states(),
                old(self).sensors().pending_readings(),
            ),
            final(self).slave_state() == pack_states::<K, SL>(
                final(self).states(),
                HALF_KEYS as int,
            ),
            report == if final(self).slave_state() != old(self).slave_state() {
                Some(final(self).slave_state())
            } else {
                None
            },
    {
        let readings = self.sensors.take_readings();
        let mut j: usize = 0;
        proof {
            assert(readings@.take(0) =~= Seq::<(usize, K::Item)>::empty());
            assert forall|i: int| 0 <= i < HALF_KEYS implies (#[trigger] self.states[i]).wf() by {
                assert(self.states()[i].wf());
            }
        }
        while j < readings.len()
            invariant
                j <= readings@.len(),
                SL::key_limit() >= HALF_KEYS,
                self.states@ == apply_readings(old(self).states@, readings@.take(j as int)),
                forall|i: int| 0 <= i < HALF_KEYS ==> (#[trigger] self.states[i]).wf(),
                self.slave_state == old(self).slave_state,
            decreases readings@.len() - j,
        {
            let (index, buf) = readings[j];
            let ghost before = self.states@;
            proof {
                assert(readings@.take(j + 1).drop_last() =~= readings@.take(j as int));
                assert(readings@.take(j + 1).last() == readings@[j as int]);
            }
            if index < HALF_KEYS {
                self.states[index].update_buf(buf);
                assert(self.states@ =~= before.update(
                    index as int,
                    before[index as int].after_update(buf),
                ));
            }
            j += 1;
        }
        assert(readings@.take(j as int) =~= readings@);
        let mut new_state = SL::default_state();
        let mut i: usize = 0;
        while i < HALF_KEYS
            invariant
                i <= HALF_KEYS,
                SL::key_limit() >= HALF_KEYS,
                new_state == pack_states::<K, SL>(self.states@, i as int),
                self.states@ == apply_readings(old(self).states@, readings@),
                forall|a: int| 0 <= a < HALF_KEYS ==> (#[trigger] self.states[a]).wf(),
                self.slave_state == old(self).slave_state,
            decreases HALF_KEYS - i,
        {
            new_state.update_state(i, self.states[i].is_pressed());
            i += 1;
        }
        proof {
            assert forall|i: int| 0 <= i < HALF_KEYS implies (#[trigger] self.states()[i]).wf() by {
                assert(self.states[i].wf());
            }
        }
        if new_state.differs(&self.slave_state) {
            self.slave_state = new_state;
            Some(new_state)
        } else {
            None
        }
    }
}

} // verus!
