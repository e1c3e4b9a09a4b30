use vstd::prelude::*;

verus! {

/// Reading that an analog switch is taken to give at rest before calibration.
pub const DEFAULT_HIGH: u32 = 1700;

/// Reading that an analog switch is taken to give fully pressed before
/// calibration.
pub const DEFAULT_LOW: u32 = 1400;

/// Hundredths of the observed travel, measured down from the rest reading,
/// above which a pressed switch is released.
pub const RELEASE_PERCENT: u32 = 30;

/// Hundredths of the observed travel, measured down from the rest reading, at
/// which a switch is pressed.
pub const ACTUATE_PERCENT: u32 = 35;

/// Tenths of the observed travel by which a rapid-trigger switch has to move
/// before its direction of travel counts.
pub const TOLERANCE_DIVISOR: u32 = 10;

/// Number of readings that are averaged into one position.
pub const BUFFER_SIZE: usize = 1;

/// The state of one key switch: what it has seen of its sensor, and whether
/// that makes the key pressed.
pub trait KeyState: Copy {
    /// What the sensor of the switch delivers.
    type Item: Copy;

    /// The state of a switch that has seen nothing yet.
    spec fn initial() -> Self;

    /// What holds of every state that the operations below produce.
    spec fn wf(&self) -> bool;

    spec fn pressed(&self) -> bool;

    /// Whether the switch is read as a position rather than as a contact.
    spec fn analog(&self) -> bool;

    /// The position that the stored readings average to.
    spec fn reading(&self) -> Self::Item;

    /// The state after one more reading.
    spec fn after_update(&self, buf: Self::Item) -> Self;

    /// The state after the press state is dropped; calibration stays.
    spec fn after_reset(&self) -> Self;

    /// The state after the extremes are widened to take in `buf`.
    spec fn after_calibrate(&self, buf: Self::Item) -> Self;

    /// Whether a call of `setup` with this reading finds the switch ready.
    spec fn setup_done(&self, buf: Self::Item) -> bool;

    /// The state after one call of `setup`.
    spec fn after_setup(&self, buf: Self::Item) -> Self;

    /// The state of a switch that has seen nothing yet.
    fn default_state() -> (state: Self)
        ensures
            state == Self::initial(),
            state.wf(),
            !state.pressed(),
    ;

    fn update_buf(&mut self, buf: Self::Item)
        requires
            old(self).wf(),
        ensures
            *final(self) == old(self).after_update(buf),
            final(self).wf(),
    ;

    fn is_pressed(&self) -> (pressed: bool)
        ensures
            pressed == self.pressed(),
    ;

    fn reset(&mut self)
        requires
            old(self).wf(),
        ensures
            *final(self) == old(self).after_reset(),
            final(self).wf(),
            !final(self).pressed(),
    ;

    fn is_analog(&self) -> (analog: bool)
        ensures
            analog == self.analog(),
    ;

    fn get_buf(&self) -> (reading: Self::Item)
        requires
            self.wf(),
        ensures
            reading == self.reading(),
    ;

    fn calibrate(&mut self, buf: Self::Item)
        requires
            old(self).wf(),
        ensures
            *final(self) == old(self).after_calibrate(buf),
            final(self).wf(),
    ;

    /// Takes one reading of the calibration phase. The caller repeats the call
    /// until it returns true.
    fn setup(&mut self, buf: Self::Item) -> (done: bool)
        requires
            old(self).wf(),
        ensures
            done == old(self).setup_done(buf),
            *final(self) == old(self).after_setup(buf),
            final(self).wf(),
    ;
}

/// The state a switch reaches from `state` by taking the readings in order.
pub open spec fn after_updates<K: KeyState>(state: K, samples: Seq<K::Item>) -> K
    decreases samples.len(),
{
    if samples.len() == 0 {
        state
    } else {
        after_updates(state, samples.drop_last()).after_update(samples.last())
    }
}

/// Sum of the readings in a buffer.
pub open spec fn buffer_sum(readings: Seq<u16>) -> int
    decreases readings.len(),
{
    if readings.len() == 0 {
        0
    } else {
        buffer_sum(readings.drop_last()) + readings.last()
    }
}

/// The rounded-down mean of the readings in a buffer.
pub open spec fn buffer_average(readings: Seq<u16>) -> int {
    buffer_sum(readings) / (readings.len() as int)
}

fn average(buffer: &[u16; BUFFER_SIZE]) -> (avg: u16)
    ensures
        avg == buffer_average(buffer@),
{
    let mut sum: u32 = 0;
    let mut i: usize = 0;
    while i < BUFFER_SIZE
        invariant
            i <= BUFFER_SIZE,
            sum == buffer_sum(buffer@.take(i as int)),
            sum <= 65535 * i,
        decreases BUFFER_SIZE - i,
    {
        assert(buffer@.take(i + 1).drop_last() == buffer@.take(i as int));
        sum += buffer[i] as u32;
        i += 1;
    }
    assert(buffer@.take(BUFFER_SIZE as int) == buffer@);
    (sum / BUFFER_SIZE as u32) as u16
}

/// The reading above which a pressed switch is released, for a switch that
/// rests at `highest` and bottoms out at `lowest`.
pub open spec fn release_point_for(lowest: u16, highest: u16) -> int {
    highest - ((highest - lowest) * RELEASE_PERCENT) / 100
}

/// The reading at which a switch is pressed, for a switch that rests at
/// `highest` and bottoms out at `lowest`.
pub open spec fn actuation_point_for(lowest: u16, highest: u16) -> int {
    highest - ((highest - lowest) * ACTUATE_PERCENT) / 100
}

/// The travel that a rapid-trigger switch ignores, for a switch that rests
/// at `highest` and bottoms out at `lowest`.
pub open spec fn tolerance_for(lowest: u16, highest: u16) -> int {
    (highest - lowest) / (TOLERANCE_DIVISOR as int)
}

fn release_point_of(lowest: u16, highest: u16) -> (point: u16)
    requires
        lowest <= highest,
    ensures
        point == release_point_for(lowest, highest),
{
    let dif: u32 = (highest - lowest) as u32;
    highest - (dif * RELEASE_PERCENT / 100) as u16
}

fn actuation_point_of(lowest: u16, highest: u16) -> (point: u16)
    requires
        lowest <= highest,
    ensures
        point == actuation_point_for(lowest, highest),
{
    let dif: u32 = (highest - lowest) as u32;
    highest - (dif * ACTUATE_PERCENT / 100) as u16
}

fn tolerance_of(lowest: u16, highest: u16) -> (tolerance: u16)
    requires
        lowest <= highest,
    ensures
        tolerance == tolerance_for(lowest, highest),
{
    let dif: u32 = (highest - lowest) as u32;
    (dif / TOLERANCE_DIVISOR) as u16
}

/// The release point never lies below the actuation point, and neither lies
/// outside the observed travel. The two differ exactly when the fractions of
/// the travel that they are made of differ after rounding down, which they do
/// as soon as the travel spans twenty counts; with a shorter travel they can
/// coincide.
pub proof fn lemma_threshold_order(lowest: u16, highest: u16)
    requires
        lowest <= highest,
    ensures
        lowest <= actuation_point_for(lowest, highest) <= release_point_for(lowest, highest)
            <= highest,
        actuation_point_for(lowest, highest) < release_point_for(lowest, highest) <==> ((highest
            - lowest) * ACTUATE_PERCENT) / 100 > ((highest - lowest) * RELEASE_PERCENT) / 100,
        highest - lowest >= 20 ==> actuation_point_for(lowest, highest) < release_point_for(
            lowest,
            highest,
        ),
        0 <= tolerance_for(lowest, highest) <= highest - lowest,
{
}

/// A mechanical switch: pressed exactly while its contact is closed.
#[derive(Copy, Clone, Debug)]
pub struct DefaultSwitch {
    state: bool,
}

impl KeyState for DefaultSwitch {
    type Item = bool;

    closed spec fn initial() -> Self {
        DefaultSwitch { state: false }
    }

    open spec fn wf(&self) -> bool {
        true
    }

    open spec fn analog(&self) -> bool {
        false
    }

    closed spec fn pressed(&self) -> bool {
        self.state
    }

    closed spec fn reading(&self) -> bool {
        self.state
    }

    closed spec fn after_update(&self, buf: bool) -> Self {
        DefaultSwitch { state: buf }
    }

    closed spec fn after_reset(&self) -> Self {
        DefaultSwitch { state: false }
    }

    open spec fn after_calibrate(&self, buf: bool) -> Self {
        *self
    }

    open spec fn setup_done(&self, buf: bool) -> bool {
        true
    }

    open spec fn after_setup(&self, buf: bool) -> Self {
        *self
    }

    fn default_state() -> (state: Self) {
        DefaultSwitch { state: false }
    }

    fn update_buf(&mut self, buf: bool)
        ensures
            final(self).pressed() == buf,
    {
        self.state = buf;
    }

    fn is_pressed(&self) -> (pressed: bool) {
        self.state
    }

    fn reset(&mut self) {
        self.state = false;
    }

    fn is_analog(&self) -> (analog: bool) {
        false
    }

    fn get_buf(&self) -> (reading: bool) {
        self.state
    }

    fn calibrate(&mut self, buf: bool) {
    }

    fn setup(&mut self, buf: bool) -> (done: bool) {
        true
    }
}

/// A mechanical switch is pressed exactly when its last reading was a closed
/// contact, and released by a reset.
pub proof fn lemma_default_switch(switch: DefaultSwitch, buf: bool)
    ensures
        switch.after_update(buf).pressed() == buf,
        switch.after_update(buf).reading() == buf,
        !switch.after_reset().pressed(),
{
}

/// An analog switch that acts like a mechanical one: pressed at the actuation
/// point, released above the release point, unchanged between the two.
#[derive(Copy, Clone, Debug)]
pub struct DigitalPosition {
    buffer: [u16; BUFFER_SIZE],
    buffer_pos: usize,
    release_point: u16,
    actuation_point: u16,
    lowest_point: u16,
    highest_point: u16,
    pressed: bool,
}

impl DigitalPosition {
    pub closed spec fn release_point(&self) -> u16 {
        self.release_point
    }

    pub closed spec fn actuation_point(&self) -> u16 {
        self.actuation_point
    }

    pub closed spec fn lowest_point(&self) -> u16 {
        self.lowest_point
    }

    pub closed spec fn highest_point(&self) -> u16 {
        self.highest_point
    }

    /// The state with one more reading in the averaging buffer.
    pub closed spec fn stored(&self, reading: u16) -> Self {
        DigitalPosition {
            buffer: vstd::array::spec_array_update(self.buffer, self.buffer_pos as int, reading),
            buffer_pos: ((self.buffer_pos + 1) % (BUFFER_SIZE as int)) as usize,
            ..*self
        }
    }

    /// Whether `setup` still collects readings.
    pub closed spec fn collecting(&self) -> bool {
        self.buffer[0] == 0 || self.buffer_pos != 0
    }
}

impl KeyState for DigitalPosition {
    type Item = u16;

    closed spec fn initial() -> Self {
        DigitalPosition {
            buffer: [0;BUFFER_SIZE],
            buffer_pos: 0,
            release_point: 1610,
            actuation_point: 1595,
            pressed: false,
            lowest_point: 1400,
            highest_point: 1700,
        }
    }

    closed spec fn wf(&self) -> bool {
        &&& self.buffer_pos < BUFFER_SIZE
        &&& self.lowest_point <= DEFAULT_LOW
        &&& self.highest_point >= DEFAULT_HIGH
        &&& self.release_point == release_point_for(self.lowest_point, self.highest_point)
        &&& self.actuation_point == actuation_point_for(self.lowest_point, self.highest_point)
    }

    open spec fn analog(&self) -> bool {
        true
    }

    closed spec fn pressed(&self) -> bool {
        self.pressed
    }

    closed spec fn reading(&self) -> u16 {
        buffer_average(self.buffer@) as u16
    }

    closed spec fn after_calibrate(&self, buf: u16) -> Self {
        if self.highest_point < buf {
            DigitalPosition {
                highest_point: buf,
                release_point: release_point_for(self.lowest_point, buf) as u16,
                actuation_point: actuation_point_for(self.lowest_point, buf) as u16,
                ..*self
            }
        } else if self.lowest_point > buf {
            DigitalPosition {
                lowest_point: buf,
                release_point: release_point_for(buf, self.highest_point) as u16,
                actuation_point: actuation_point_for(buf, self.highest_point) as u16,
                ..*self
            }
        } else {
            *self
        }
    }

    closed spec fn after_update(&self, buf: u16) -> Self {
        let stored = self.stored(buf);
        let avg = stored.reading();
        let calibrated = stored.after_calibrate(avg);
        if avg <= calibrated.actuation_point {
            DigitalPosition { pressed: true, ..calibrated }
        } else if avg > calibrated.release_point {
            DigitalPosition { pressed: false, ..calibrated }
        } else {
            calibrated
        }
    }

    closed spec fn after_reset(&self) -> Self {
        DigitalPosition {
            buffer: [self.highest_point;BUFFER_SIZE],
            buffer_pos: 0,
            pressed: false,
            ..*self
        }
    }

    closed spec fn setup_done(&self, buf: u16) -> bool {
        !self.collecting()
    }

    closed spec fn after_setup(&self, buf: u16) -> Self {
        if self.collecting() {
            self.stored(buf)
        } else {
            self.after_calibrate(self.reading())
        }
    }

    fn default_state() -> (state: Self)
        ensures
            state.lowest_point() == DEFAULT_LOW,
            state.highest_point() == DEFAULT_HIGH,
            state.release_point() == 1610,
            state.actuation_point() == 1595,
    {
        DigitalPosition {
            buffer: [0;BUFFER_SIZE],
            buffer_pos: 0,
            release_point: 1610,
            actuation_point: 1595,
            pressed: false,
            lowest_point: 1400,
            highest_point: 1700,
        }
    }

    fn update_buf(&mut self, pos: u16) {
        self.buffer[self.buffer_pos] = pos;
        self.buffer_pos = (self.buffer_pos + 1) % BUFFER_SIZE;
        let avg = average(&self.buffer);
        self.calibrate(avg);
        if avg <= self.actuation_point {
            self.pressed = true;
        } else if avg > self.release_point {
            self.pressed = false;
        }
    }

    fn is_pressed(&self) -> (pressed: bool) {
        self.pressed
    }

    fn reset(&mut self) {
        self.buffer = [self.highest_point;BUFFER_SIZE];
        self.buffer_pos = 0;
        self.pressed = false;
    }

    fn is_analog(&self) -> (analog: bool) {
        true
    }

    fn get_buf(&self) -> (reading: u16) {
        average(&self.buffer)
    }

    fn calibrate(&mut self, buf: u16) {
        let mut changed = false;
        if self.highest_point < buf {
            self.highest_point = buf;
            changed = true;
        } else if self.lowest_point > buf {
            self.lowest_point = buf;
            changed = true;
        }
        if changed {
            self.release_point = release_point_of(self.lowest_point, self.highest_point);
            self.actuation_point = actuation_point_of(self.lowest_point, self.highest_point);
        }
    }

    fn setup(&mut self, reading: u16) -> (done: bool) {
        if self.buffer[0] == 0 || self.buffer_pos != 0 {
            self.buffer[self.buffer_pos] = reading;
            self.buffer_pos = (self.buffer_pos + 1) % BUFFER_SIZE;
            false
        } else {
            let avg = average(&self.buffer);
            self.calibrate(avg);
            true
        }
    }
}

/// With one reading per position, the position of a switch is its last
/// reading.
pub proof fn lemma_digital_reading(switch: DigitalPosition, buf: u16)
    requires
        switch.wf(),
    ensures
        switch.stored(buf).reading() == buf,
        switch.after_update(buf).reading() == buf,
{
    let stored = switch.stored(buf);
    assert(stored.buffer@ =~= seq![buf]);
    assert(stored.buffer@.drop_last() =~= Seq::<u16>::empty());
    assert(buffer_sum(stored.buffer@.drop_last()) == 0);
    assert(buffer_sum(stored.buffer@) == buf);
}

/// The mean of one reading is that reading.
proof fn lemma_one_reading(buffer: [u16; BUFFER_SIZE])
    ensures
        buffer_average(buffer@) == buffer[0],
{
    assert(buffer@.drop_last() =~= Seq::<u16>::empty());
    assert(buffer_sum(buffer@.drop_last()) == 0);
    assert(buffer_sum(buffer@) == buffer[0]);
}

/// How the calibration phase goes. A switch collects readings while its
/// position is 0, which it is before the first reading: `setup` then stores
/// the reading, changes nothing else, and returns false. Once a reading
/// other than 0 is stored, `setup` returns true and widens the travel to
/// hold the stored position; the reading it is called with plays no part
/// any more. A switch that was reset has its rest position stored and does
/// not collect.
pub proof fn lemma_digital_setup(switch: DigitalPosition, buf: u16)
    requires
        switch.wf(),
    ensures
        switch.collecting() == (switch.reading() == 0),
        switch.setup_done(buf) == !switch.collecting(),
        switch.after_setup(buf).wf(),
        switch.collecting() ==> {
            &&& switch.after_setup(buf) == switch.stored(buf)
            &&& switch.after_setup(buf).reading() == buf
            &&& switch.after_setup(buf).collecting() == (buf == 0)
            &&& switch.after_setup(buf).lowest_point() == switch.lowest_point()
            &&& switch.after_setup(buf).highest_point() == switch.highest_point()
            &&& switch.after_setup(buf).release_point() == switch.release_point()
            &&& switch.after_setup(buf).actuation_point() == switch.actuation_point()
            &&& switch.after_setup(buf).pressed() == switch.pressed()
        },
        !switch.collecting() ==> {
            &&& switch.after_setup(buf) == switch.after_calibrate(switch.reading())
            &&& switch.after_setup(buf).reading() == switch.reading()
            &&& !switch.after_setup(buf).collecting()
        },
        DigitalPosition::initial().collecting(),
        DigitalPosition::initial().reading() == 0,
        !switch.after_reset().collecting(),
        switch.after_reset().reading() == switch.highest_point(),
{
    lemma_one_reading(switch.buffer);
    lemma_one_reading(switch.stored(buf).buffer);
    lemma_one_reading(switch.after_calibrate(switch.reading()).buffer);
    lemma_one_reading(switch.after_reset().buffer);
    lemma_one_reading(DigitalPosition::initial().buffer);
    assert(switch.stored(buf).buffer@ =~= seq![buf]);
}

/// The observed travel of a switch takes in the travel it starts with, and
/// its thresholds are the fixed fractions of the observed travel. So in
/// every state that a switch can reach the actuation point lies below the
/// release point, and both lie within the travel.
pub proof fn lemma_digital_thresholds(switch: DigitalPosition)
    requires
        switch.wf(),
    ensures
        switch.lowest_point() <= DEFAULT_LOW,
        switch.highest_point() >= DEFAULT_HIGH,
        switch.release_point() == release_point_for(switch.lowest_point(), switch.highest_point()),
        switch.actuation_point() == actuation_point_for(
            switch.lowest_point(),
            switch.highest_point(),
        ),
        switch.lowest_point() <= switch.actuation_point() < switch.release_point()
            <= switch.highest_point(),
{
}

/// Calibration only widens the observed travel, by exactly what it takes to
/// hold the reading. A reset keeps the travel as it is and puts the switch
/// at its rest position, released.
pub proof fn lemma_digital_calibration_widens(switch: DigitalPosition, buf: u16)
    requires
        switch.wf(),
    ensures
        switch.after_calibrate(buf).wf(),
        switch.after_calibrate(buf).lowest_point() == if buf < switch.lowest_point()
            && buf <= switch.highest_point() {
            buf
        } else {
            switch.lowest_point()
        },
        switch.after_calibrate(buf).highest_point() == if buf > switch.highest_point() {
            buf
        } else {
            switch.highest_point()
        },
        switch.after_calibrate(buf).pressed() == switch.pressed(),
        switch.after_calibrate(buf).reading() == switch.reading(),
        switch.after_update(buf).lowest_point() <= switch.lowest_point(),
        switch.after_update(buf).highest_point() >= switch.highest_point(),
        switch.after_reset().lowest_point() == switch.lowest_point(),
        switch.after_reset().highest_point() == switch.highest_point(),
        switch.after_reset().release_point() == switch.release_point(),
        switch.after_reset().actuation_point() == switch.actuation_point(),
        switch.after_reset().reading() == switch.highest_point(),
        switch.after_reset().wf(),
        !switch.after_reset().pressed(),
{
    lemma_digital_reading(switch, buf);
    lemma_one_reading(switch.after_reset().buffer);
}

/// What one reading does to the press state: at or below the actuation point
/// the switch is pressed, above the release point it is released, and between
/// the two it stays as it was. The thresholds are those of the travel widened
/// by the reading.
pub proof fn lemma_digital_update(switch: DigitalPosition, buf: u16)
    requires
        switch.wf(),
    ensures
        ({
            let next = switch.after_update(buf);
            &&& next.wf()
            &&& next.highest_point() == if buf > switch.highest_point() {
                buf
            } else {
                switch.highest_point()
            }
            &&& next.lowest_point() == if buf < switch.lowest_point() && buf
                <= switch.highest_point() {
                buf
            } else {
                switch.lowest_point()
            }
            &&& next.release_point() == release_point_for(next.lowest_point(), next.highest_point())
            &&& next.actuation_point() == actuation_point_for(
                next.lowest_point(),
                next.highest_point(),
            )
            &&& next.lowest_point() <= buf <= next.highest_point()
            &&& buf <= next.actuation_point() ==> next.pressed()
            &&& buf > next.release_point() ==> !next.pressed()
            &&& next.actuation_point() < buf <= next.release_point() ==> next.pressed()
                == switch.pressed()
        }),
{
    lemma_digital_reading(switch, buf);
}

/// A switch that is not pressed stays so while every reading lies above the
/// actuation point, and is pressed by the first reading that does not.
pub proof fn lemma_digital_first_press(switch: DigitalPosition, samples: Seq<u16>)
    requires
        switch.wf(),
        !switch.pressed(),
        samples.len() > 0,
        forall|k: int|
            0 <= k < samples.len() - 1 ==> samples[k] > (#[trigger] after_updates(
                switch,
                samples.take(k + 1),
            )).actuation_point(),
        samples.last() <= after_updates(switch, samples).actuation_point(),
    ensures
        forall|k: int|
            0 <= k < samples.len() ==> !(#[trigger] after_updates(switch, samples.take(k))).pressed(),
        after_updates(switch, samples).pressed(),
{
    let n = samples.len() as int;
    lemma_digital_stays_released(switch, samples, n - 1);
    assert(samples.take(n) == samples);
    assert(samples.drop_last() == samples.take(n - 1));
    lemma_digital_run_wf(switch, samples.take(n - 1));
    lemma_digital_update(after_updates(switch, samples.take(n - 1)), samples.last());
}

proof fn lemma_digital_run_wf(switch: DigitalPosition, samples: Seq<u16>)
    requires
        switch.wf(),
    ensures
        after_updates(switch, samples).wf(),
    decreases samples.len(),
{
    if samples.len() > 0 {
        lemma_digital_run_wf(switch, samples.drop_last());
        lemma_digital_update(after_updates(switch, samples.drop_last()), samples.last());
    }
}

proof fn lemma_digital_stays_released(switch: DigitalPosition, samples: Seq<u16>, upto: int)
    requires
        switch.wf(),
        !switch.pressed(),
        0 <= upto <= samples.len(),
        forall|k: int|
            0 <= k < upto ==> samples[k] > (#[trigger] after_updates(
                switch,
                samples.take(k + 1),
            )).actuation_point(),
    ensures
        forall|k: int|
            0 <= k <= upto ==> !(#[trigger] after_updates(switch, samples.take(k))).pressed(),
    decreases upto,
{
    if upto == 0 {
        assert(samples.take(0) == Seq::<u16>::empty());
    } else {
        lemma_digital_stays_released(switch, samples, upto - 1);
        let before = after_updates(switch, samples.take(upto - 1));
        lemma_digital_run_wf(switch, samples.take(upto - 1));
        assert(samples.take(upto).drop_last() == samples.take(upto - 1));
        assert(samples.take(upto).last() == samples[upto - 1]);
        lemma_digital_update(before, samples[upto - 1]);
        let after = after_updates(switch, samples.take(upto - 1 + 1));
        assert(after == before.after_update(samples[upto - 1]));
        lemma_digital_thresholds(after);
    }
}

/// A pressed switch stays pressed for as long as no reading lies above the
/// release point.
pub proof fn lemma_digital_press_holds(switch: DigitalPosition, samples: Seq<u16>)
    requires
        switch.wf(),
        switch.pressed(),
        forall|k: int|
            0 <= k < samples.len() ==> samples[k] <= (#[trigger] after_updates(
                switch,
                samples.take(k + 1),
            )).release_point(),
    ensures
        after_updates(switch, samples).pressed(),
    decreases samples.len(),
{
    if samples.len() > 0 {
        let n = samples.len() as int;
        let init = samples.drop_last();
        assert forall|k: int| 0 <= k < init.len() implies init[k] <= (#[trigger] after_updates(
            switch,
            init.take(k + 1),
        )).release_point() by {
            assert(init.take(k + 1) == samples.take(k + 1));
        }
        lemma_digital_press_holds(switch, init);
        lemma_digital_run_wf(switch, init);
        lemma_digital_update(after_updates(switch, init), samples.last());
        assert(samples.take(n - 1 + 1) == samples);
    }
}

/// An analog switch with rapid trigger: besides the thresholds of its travel,
/// a reversal of the direction of travel by more than a tolerance presses or
/// releases it.
#[derive(Copy, Clone, Debug)]
pub struct WootingPosition {
    buffer: [u16; BUFFER_SIZE],
    buffer_pos: usize,
    release_point: u16,
    actuation_point: u16,
    lowest_point: u16,
    highest_point: u16,
    pressed: bool,
    last_pos: u16,
    wooting: bool,
    tolerance: u16,
}

impl WootingPosition {
    pub closed spec fn release_point(&self) -> u16 {
        self.release_point
    }

    pub closed spec fn actuation_point(&self) -> u16 {
        self.actuation_point
    }

    pub closed spec fn lowest_point(&self) -> u16 {
        self.lowest_point
    }

    pub closed spec fn highest_point(&self) -> u16 {
        self.highest_point
    }

    /// The position at which the press state last changed or was confirmed.
    pub closed spec fn last_pos(&self) -> u16 {
        self.last_pos
    }

    /// Whether the switch has passed its actuation point since it last rose
    /// above the release point.
    pub closed spec fn triggered(&self) -> bool {
        self.wooting
    }

    pub closed spec fn tolerance(&self) -> u16 {
        self.tolerance
    }

    /// The state with one more reading in the averaging buffer.
    pub closed spec fn stored(&self, reading: u16) -> Self {
        WootingPosition {
            buffer: vstd::array::spec_array_update(self.buffer, self.buffer_pos as int, reading),
            buffer_pos: ((self.buffer_pos + 1) % (BUFFER_SIZE as int)) as usize,
            ..*self
        }
    }

    /// Whether `setup` still collects readings.
    pub closed spec fn collecting(&self) -> bool {
        self.buffer[0] == 0 || self.buffer_pos != 0
    }
}

impl KeyState for WootingPosition {
    type Item = u16;

    closed spec fn initial() -> Self {
        WootingPosition {
            buffer: [0;BUFFER_SIZE],
            last_pos: 0,
            buffer_pos: 0,
            release_point: 1610,
            actuation_point: 1595,
            lowest_point: 1400,
            highest_point: 1700,
            pressed: false,
            wooting: false,
            tolerance: 30,
        }
    }

    closed spec fn wf(&self) -> bool {
        &&& self.buffer_pos < BUFFER_SIZE
        &&& self.lowest_point <= DEFAULT_LOW
        &&& self.highest_point >= DEFAULT_HIGH
        &&& self.release_point == release_point_for(self.lowest_point, self.highest_point)
        &&& self.actuation_point == actuation_point_for(self.lowest_point, self.highest_point)
        &&& self.tolerance == tolerance_for(self.lowest_point, self.highest_point)
    }

    open spec fn analog(&self) -> bool {
        true
    }

    closed spec fn pressed(&self) -> bool {
        self.pressed
    }

    closed spec fn reading(&self) -> u16 {
        buffer_average(self.buffer@) as u16
    }

    closed spec fn after_calibrate(&self, buf: u16) -> Self {
        if self.highest_point < buf {
            WootingPosition {
                highest_point: buf,
                release_point: release_point_for(self.lowest_point, buf) as u16,
                actuation_point: actuation_point_for(self.lowest_point, buf) as u16,
                tolerance: tolerance_for(self.lowest_point, buf) as u16,
                ..*self
            }
        } else if self.lowest_point > buf {
            WootingPosition {
                lowest_point: buf,
                release_point: release_point_for(buf, self.highest_point) as u16,
                actuation_point: actuation_point_for(buf, self.highest_point) as u16,
                tolerance: tolerance_for(buf, self.highest_point) as u16,
                ..*self
            }
        } else {
            *self
        }
    }

    closed spec fn after_update(&self, buf: u16) -> Self {
        let stored = self.stored(buf);
        let avg = stored.reading();
        if avg > stored.release_point {
            WootingPosition {
                last_pos: avg,
                wooting: false,
                pressed: false,
                ..stored
            }.after_calibrate(avg)
        } else if avg < stored.lowest_point {
            WootingPosition {
                last_pos: avg,
                wooting: true,
                pressed: true,
                ..stored
            }.after_calibrate(avg)
        } else if avg < stored.last_pos - stored.tolerance || (avg <= stored.actuation_point
            && !stored.wooting) {
            WootingPosition { last_pos: avg, wooting: true, pressed: true, ..stored }
        } else if avg > stored.last_pos + stored.tolerance {
            WootingPosition { last_pos: avg, pressed: false, ..stored }
        } else {
            stored
        }
    }

    closed spec fn after_reset(&self) -> Self {
        WootingPosition {
            buffer: [self.highest_point;BUFFER_SIZE],
            buffer_pos: 0,
            pressed: false,
            wooting: false,
            ..*self
        }
    }

    closed spec fn setup_done(&self, buf: u16) -> bool {
        !self.collecting()
    }

    closed spec fn after_setup(&self, buf: u16) -> Self {
        if self.collecting() {
            self.stored(buf)
        } else {
            self.after_calibrate(self.reading())
        }
    }

    fn default_state() -> (state: Self)
        ensures
            state.lowest_point() == DEFAULT_LOW,
            state.highest_point() == DEFAULT_HIGH,
            state.release_point() == 1610,
            state.actuation_point() == 1595,
            state.tolerance() == 30,
            state.last_pos() == 0,
            !state.triggered(),
    {
        WootingPosition {
            buffer: [0;BUFFER_SIZE],
            last_pos: 0,
            buffer_pos: 0,
            release_point: 1610,
            actuation_point: 1595,
            lowest_point: 1400,
            highest_point: 1700,
            pressed: false,
            wooting: false,
            tolerance: 30,
        }
    }

    fn update_buf(&mut self, pos: u16) {
        self.buffer[self.buffer_pos] = pos;
        self.buffer_pos = (self.buffer_pos + 1) % BUFFER_SIZE;
        let avg = average(&self.buffer);
        if avg > self.release_point {
            self.last_pos = avg;
            self.wooting = false;
            self.pressed = false;
            self.calibrate(avg);
        } else if avg < self.lowest_point {
            self.last_pos = avg;
            self.wooting = true;
            self.pressed = true;
            self.calibrate(avg);
        } else if (avg as u32) + (self.tolerance as u32) < self.last_pos as u32 || (avg
            <= self.actuation_point && !self.wooting) {
            self.last_pos = avg;
            self.wooting = true;
            self.pressed = true;
        } else if avg as u32 > self.last_pos as u32 + self.tolerance as u32 {
            self.last_pos = avg;
            self.pressed = false;
        }
    }

    fn is_pressed(&self) -> (pressed: bool) {
        self.pressed
    }

    fn reset(&mut self) {
        self.buffer = [self.highest_point;BUFFER_SIZE];
        self.pressed = false;
        self.wooting = false;
        self.buffer_pos = 0;
    }

    fn is_analog(&self) -> (analog: bool) {
        true
    }

    fn get_buf(&self) -> (reading: u16) {
        average(&self.buffer)
    }

    fn calibrate(&mut self, buf: u16) {
        let mut changed = false;
        if self.highest_point < buf {
            self.highest_point = buf;
            changed = true;
        } else if self.lowest_point > buf {
            self.lowest_point = buf;
            changed = true;
        }
        if changed {
            self.release_point = release_point_of(self.lowest_point, self.highest_point);
            self.actuation_point = actuation_point_of(self.lowest_point, self.highest_point);
            self.tolerance = tolerance_of(self.lowest_point, self.highest_point);
        }
    }

    fn setup(&mut self, reading: u16) -> (done: bool) {
        if self.buffer[0] == 0 || self.buffer_pos != 0 {
            self.buffer[self.buffer_pos] = reading;
            self.buffer_pos = (self.buffer_pos + 1) % BUFFER_SIZE;
            false
        } else {
            let avg = average(&self.buffer);
            self.calibrate(avg);
            true
        }
    }
}

/// With one reading per position, the position of a switch is its last
/// reading.
pub proof fn lemma_wooting_reading(switch: WootingPosition, buf: u16)
    requires
        switch.wf(),
    ensures
        switch.stored(buf).reading() == buf,
        switch.after_update(buf).reading() == buf,
        switch.after_update(buf).wf(),
{
    let stored = switch.stored(buf);
    assert(stored.buffer@ =~= seq![buf]);
    assert(stored.buffer@.drop_last() =~= Seq::<u16>::empty());
    assert(buffer_sum(stored.buffer@.drop_last()) == 0);
    assert(buffer_sum(stored.buffer@) == buf);
}

/// The observed travel of a switch takes in the travel it starts with, and
/// its thresholds and its tolerance are the fixed fractions of the observed
/// travel. So in every state that a switch can reach the actuation point
/// lies below the release point, and both lie within the travel.
pub proof fn lemma_wooting_thresholds(switch: WootingPosition)
    requires
        switch.wf(),
    ensures
        switch.lowest_point() <= DEFAULT_LOW,
        switch.highest_point() >= DEFAULT_HIGH,
        switch.release_point() == release_point_for(switch.lowest_point(), switch.highest_point()),
        switch.actuation_point() == actuation_point_for(
            switch.lowest_point(),
            switch.highest_point(),
        ),
        switch.tolerance() == tolerance_for(switch.lowest_point(), switch.highest_point()),
        switch.tolerance() >= 30,
        switch.lowest_point() <= switch.actuation_point() < switch.release_point()
            <= switch.highest_point(),
{
}

/// What one reading does to a rapid-trigger switch. Above the release point
/// it is released and the trigger is cleared; below the lowest point seen it
/// is pressed; in both cases the travel is widened to hold the reading. Within
/// the travel it is pressed when the reading lies more than the tolerance
/// below the last position, or at or below the actuation point with the
/// trigger clear; else it is released when the reading lies more than the
/// tolerance above the last position; else nothing changes. The comparisons
/// are those of the integers: nothing wraps.
pub proof fn lemma_wooting_update(switch: WootingPosition, buf: u16)
    requires
        switch.wf(),
    ensures
        ({
            let next = switch.after_update(buf);
            &&& next.wf()
            &&& next.release_point() == release_point_for(next.lowest_point(), next.highest_point())
            &&& next.actuation_point() == actuation_point_for(
                next.lowest_point(),
                next.highest_point(),
            )
            &&& next.tolerance() == tolerance_for(next.lowest_point(), next.highest_point())
            &&& if buf > switch.release_point() {
                &&& !next.pressed()
                &&& !next.triggered()
                &&& next.last_pos() == buf
                &&& next.lowest_point() == switch.lowest_point()
                &&& next.highest_point() == if buf > switch.highest_point() {
                    buf
                } else {
                    switch.highest_point()
                }
            } else if buf < switch.lowest_point() {
                &&& next.pressed()
                &&& next.triggered()
                &&& next.last_pos() == buf
                &&& next.lowest_point() == buf
                &&& next.highest_point() == switch.highest_point()
            } else if buf < switch.last_pos() - switch.tolerance() || (buf
                <= switch.actuation_point() && !switch.triggered()) {
                &&& next.pressed()
                &&& next.triggered()
                &&& next.last_pos() == buf
                &&& next.lowest_point() == switch.lowest_point()
                &&& next.highest_point() == switch.highest_point()
            } else if buf > switch.last_pos() + switch.tolerance() {
                &&& !next.pressed()
                &&& next.triggered() == switch.triggered()
                &&& next.last_pos() == buf
                &&& next.lowest_point() == switch.lowest_point()
                &&& next.highest_point() == switch.highest_point()
            } else {
                &&& next.pressed() == switch.pressed()
                &&& next.triggered() == switch.triggered()
                &&& next.last_pos() == switch.last_pos()
                &&& next.lowest_point() == switch.lowest_point()
                &&& next.highest_point() == switch.highest_point()
            }
        }),
{
    lemma_wooting_reading(switch, buf);
}

/// How the calibration phase goes for a rapid-trigger switch: as for a
/// digital one. The switch collects readings while its position is 0:
/// `setup` then stores the reading, changes nothing else, and returns false.
/// Once a reading other than 0 is stored, `setup` returns true and widens
/// the travel to hold the stored position.
pub proof fn lemma_wooting_setup(switch: WootingPosition, buf: u16)
    requires
        switch.wf(),
    ensures
        switch.collecting() == (switch.reading() == 0),
        switch.setup_done(buf) == !switch.collecting(),
        switch.after_setup(buf).wf(),
        switch.collecting() ==> {
            &&& switch.after_setup(buf) == switch.stored(buf)
            &&& switch.after_setup(buf).reading() == buf
            &&& switch.after_setup(buf).collecting() == (buf == 0)
            &&& switch.after_setup(buf).lowest_point() == switch.lowest_point()
            &&& switch.after_setup(buf).highest_point() == switch.highest_point()
            &&& switch.after_setup(buf).release_point() == switch.release_point()
            &&& switch.after_setup(buf).actuation_point() == switch.actuation_point()
            &&& switch.after_setup(buf).tolerance() == switch.tolerance()
            &&& switch.after_setup(buf).last_pos() == switch.last_pos()
            &&& switch.after_setup(buf).triggered() == switch.triggered()
            &&& switch.after_setup(buf).pressed() == switch.pressed()
        },
        !switch.collecting() ==> {
            &&& switch.after_setup(buf) == switch.after_calibrate(switch.reading())
            &&& switch.after_setup(buf).reading() == switch.reading()
            &&& !switch.after_setup(buf).collecting()
        },
        WootingPosition::initial().collecting(),
        WootingPosition::initial().reading() == 0,
        !switch.after_reset().collecting(),
{
    lemma_one_reading(switch.buffer);
    lemma_one_reading(switch.stored(buf).buffer);
    lemma_one_reading(switch.after_calibrate(switch.reading()).buffer);
    lemma_one_reading(switch.after_reset().buffer);
    lemma_one_reading(WootingPosition::initial().buffer);
    assert(switch.stored(buf).buffer@ =~= seq![buf]);
}

/// What widening the travel of a rapid-trigger switch comes to: the extreme
/// that the reading lies beyond moves to it, and the press state stays.
pub proof fn lemma_wooting_calibrate(switch: WootingPosition, buf: u16)
    requires
        switch.wf(),
    ensures
        switch.after_calibrate(buf).wf(),
        switch.after_calibrate(buf).lowest_point() == if buf < switch.lowest_point()
            && buf <= switch.highest_point() {
            buf
        } else {
            switch.lowest_point()
        },
        switch.after_calibrate(buf).highest_point() == if buf > switch.highest_point() {
            buf
        } else {
            switch.highest_point()
        },
        switch.after_calibrate(buf).pressed() == switch.pressed(),
        switch.after_calibrate(buf).triggered() == switch.triggered(),
        switch.after_calibrate(buf).last_pos() == switch.last_pos(),
        switch.after_calibrate(buf).reading() == switch.reading(),
{
}

/// A reset releases a rapid-trigger switch, clears its trigger and puts it
/// at its rest position, and keeps what it has learned of its travel.
pub proof fn lemma_wooting_reset(switch: WootingPosition)
    requires
        switch.wf(),
    ensures
        switch.after_reset().wf(),
        !switch.after_reset().pressed(),
        !switch.after_reset().triggered(),
        switch.after_reset().last_pos() == switch.last_pos(),
        switch.after_reset().lowest_point() == switch.lowest_point(),
        switch.after_reset().highest_point() == switch.highest_point(),
        switch.after_reset().release_point() == switch.release_point(),
        switch.after_reset().actuation_point() == switch.actuation_point(),
        switch.after_reset().tolerance() == switch.tolerance(),
        switch.after_reset().reading() == switch.highest_point(),
{
    lemma_one_reading(switch.after_reset().buffer);
}

/// A switch that was released by a partial rise is pressed again by a fall of
/// more than the tolerance, wherever that fall ends within the travel: it
/// need not reach the actuation point, let alone the lowest point.
pub proof fn lemma_rapid_trigger_repress(switch: WootingPosition, rise: u16, fall: u16)
    requires
        switch.wf(),
        switch.pressed(),
        switch.triggered(),
        switch.lowest_point() <= switch.last_pos(),
        switch.last_pos() + switch.tolerance() < rise <= switch.release_point(),
        switch.lowest_point() <= fall < rise - switch.tolerance(),
    ensures
        !switch.after_update(rise).pressed(),
        switch.after_update(rise).after_update(fall).pressed(),
        switch.after_update(rise).after_update(fall).lowest_point() == switch.lowest_point(),
{
    lemma_wooting_update(switch, rise);
    lemma_wooting_update(switch.after_update(rise), fall);
    lemma_wooting_thresholds(switch);
    lemma_wooting_thresholds(switch.after_update(rise));
}

/// A pressed switch stays pressed through a rise of no more than the
/// tolerance, so a fall after it finds the switch still pressed.
pub proof fn lemma_rapid_trigger_small_rise(switch: WootingPosition, rise: u16)
    requires
        switch.wf(),
        switch.pressed(),
        switch.triggered(),
        switch.lowest_point() <= rise <= switch.release_point(),
        switch.last_pos() <= rise <= switch.last_pos() + switch.tolerance(),
    ensures
        switch.after_update(rise).pressed(),
        switch.after_update(rise).last_pos() == switch.last_pos(),
{
    lemma_wooting_update(switch, rise);
}

/// The key state of the other half as it arrives over the link: readings of
/// 0 and 1 are the press state, anything larger is an analog reading.
#[derive(Copy, Clone, Debug)]
pub struct SlavePosition {
    state: u16,
    analog_reading: u16,
}

impl KeyState for SlavePosition {
    type Item = u16;

    closed spec fn initial() -> Self {
        SlavePosition { state: 0, analog_reading: u16::MAX }
    }

    open spec fn wf(&self) -> bool {
        true
    }

    open spec fn analog(&self) -> bool {
        true
    }

    closed spec fn pressed(&self) -> bool {
        self.state != 0
    }

    closed spec fn reading(&self) -> u16 {
        self.analog_reading
    }

    closed spec fn after_update(&self, buf: u16) -> Self {
        if buf > 1 {
            SlavePosition { analog_reading: buf, ..*self }
        } else {
            SlavePosition { state: buf, ..*self }
        }
    }

    closed spec fn after_reset(&self) -> Self {
        SlavePosition { state: 0, analog_reading: u16::MAX }
    }

    open spec fn after_calibrate(&self, buf: u16) -> Self {
        *self
    }

    open spec fn setup_done(&self, buf: u16) -> bool {
        true
    }

    open spec fn after_setup(&self, buf: u16) -> Self {
        *self
    }

    fn default_state() -> (state: Self)
        ensures
            state.reading() == u16::MAX,
    {
        SlavePosition { state: 0, analog_reading: u16::MAX }
    }

    fn update_buf(&mut self, buf: u16) {
        if buf > 1 {
            self.analog_reading = buf;
        } else {
            self.state = buf;
        }
    }

    fn get_buf(&self) -> (reading: u16) {
        self.analog_reading
    }

    fn is_pressed(&self) -> (pressed: bool) {
        self.state != 0
    }

    fn is_analog(&self) -> (analog: bool) {
        true
    }

    fn reset(&mut self) {
        self.state = 0;
        self.analog_reading = u16::MAX;
    }

    fn calibrate(&mut self, buf: u16) {
    }

    fn setup(&mut self, buf: u16) -> (done: bool) {
        true
    }
}

/// A relayed switch takes its press state from readings of 0 and 1 and its
/// analog reading from everything else.
pub proof fn lemma_slave_position(switch: SlavePosition, buf: u16)
    ensures
        buf > 1 ==> switch.after_update(buf).pressed() == switch.pressed()
            && switch.after_update(buf).reading() == buf,
        buf <= 1 ==> switch.after_update(buf).pressed() == (buf == 1) && switch.after_update(
            buf,
        ).reading() == switch.reading(),
        !switch.after_reset().pressed(),
        switch.after_reset().reading() == u16::MAX,
{
}

/// The behavior of one hall-effect switch, chosen per key.
#[derive(Copy, Clone, Debug)]
pub enum HeSwitch {
    Wooting(WootingPosition),
    Digital(DigitalPosition),
    Slave(SlavePosition),
}

impl KeyState for HeSwitch {
    type Item = u16;

    open spec fn initial() -> Self {
        HeSwitch::Wooting(WootingPosition::initial())
    }

    open spec fn wf(&self) -> bool {
        match self {
            HeSwitch::Wooting(wp) => wp.wf(),
            HeSwitch::Digital(dp) => dp.wf(),
            HeSwitch::Slave(sp) => sp.wf(),
        }
    }

    open spec fn analog(&self) -> bool {
        true
    }

    open spec fn pressed(&self) -> bool {
        match self {
            HeSwitch::Wooting(wp) => wp.pressed(),
            HeSwitch::Digital(dp) => dp.pressed(),
            HeSwitch::Slave(sp) => sp.pressed(),
        }
    }

    open spec fn reading(&self) -> u16 {
        match self {
            HeSwitch::Wooting(wp) => wp.reading(),
            HeSwitch::Digital(dp) => dp.reading(),
            HeSwitch::Slave(sp) => sp.reading(),
        }
    }

    open spec fn after_update(&self, buf: u16) -> Self {
        match self {
            HeSwitch::Wooting(wp) => HeSwitch::Wooting(wp.after_update(buf)),
            HeSwitch::Digital(dp) => HeSwitch::Digital(dp.after_update(buf)),
            HeSwitch::Slave(sp) => HeSwitch::Slave(sp.after_update(buf)),
        }
    }

    open spec fn after_reset(&self) -> Self {
        match self {
            HeSwitch::Wooting(wp) => HeSwitch::Wooting(wp.after_reset()),
            HeSwitch::Digital(dp) => HeSwitch::Digital(dp.after_reset()),
            HeSwitch::Slave(sp) => HeSwitch::Slave(sp.after_reset()),
        }
    }

    open spec fn after_calibrate(&self, buf: u16) -> Self {
        match self {
            HeSwitch::Wooting(wp) => HeSwitch::Wooting(wp.after_calibrate(buf)),
            HeSwitch::Digital(dp) => HeSwitch::Digital(dp.after_calibrate(buf)),
            HeSwitch::Slave(sp) => HeSwitch::Slave(sp.after_calibrate(buf)),
        }
    }

    open spec fn setup_done(&self, buf: u16) -> bool {
        match self {
            HeSwitch::Wooting(wp) => wp.setup_done(buf),
            HeSwitch::Digital(dp) => dp.setup_done(buf),
            HeSwitch::Slave(sp) => sp.setup_done(buf),
        }
    }

    open spec fn after_setup(&self, buf: u16) -> Self {
        match self {
            HeSwitch::Wooting(wp) => HeSwitch::Wooting(wp.after_setup(buf)),
            HeSwitch::Digital(dp) => HeSwitch::Digital(dp.after_setup(buf)),
            HeSwitch::Slave(sp) => HeSwitch::Slave(sp.after_setup(buf)),
        }
    }

    fn default_state() -> (state: Self)
        ensures
            state is Wooting,
    {
        HeSwitch::Wooting(WootingPosition::default_state())
    }

    fn update_buf(&mut self, buf: u16) {
        match self {
            HeSwitch::Wooting(wp) => wp.update_buf(buf),
            HeSwitch::Digital(dp) => dp.update_buf(buf),
            HeSwitch::Slave(sp) => sp.update_buf(buf),
        }
    }

    fn get_buf(&self) -> (reading: u16) {
        match self {
            HeSwitch::Wooting(wp) => wp.get_buf(),
            HeSwitch::Digital(dp) => dp.get_buf(),
            HeSwitch::Slave(sp) => sp.get_buf(),
        }
    }

    fn is_pressed(&self) -> (pressed: bool) {
        match self {
            HeSwitch::Wooting(wp) => wp.is_pressed(),
            HeSwitch::Digital(dp) => dp.is_pressed(),
            HeSwitch::Slave(sp) => sp.is_pressed(),
        }
    }

    fn is_analog(&self) -> (analog: bool) {
        true
    }

    fn reset(&mut self) {
        match self {
            HeSwitch::Wooting(wp) => wp.reset(),
            HeSwitch::Digital(dp) => dp.reset(),
            HeSwitch::Slave(sp) => sp.reset(),
        }
    }

    fn calibrate(&mut self, buf: u16) {
        match self {
            HeSwitch::Wooting(wp) => wp.calibrate(buf),
            HeSwitch::Digital(dp) => dp.calibrate(buf),
            HeSwitch::Slave(sp) => sp.calibrate(buf),
        }
    }

    fn setup(&mut self, buf: u16) -> (done: bool) {
        match self {
            HeSwitch::Wooting(wp) => wp.setup(buf),
            HeSwitch::Digital(dp) => dp.setup(buf),
            HeSwitch::Slave(sp) => sp.setup(buf),
        }
    }
}

} // verus!
