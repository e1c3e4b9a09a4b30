use crate::position::KeyState;
use crate::slave_com::bit_of;
use vstd::prelude::*;

verus! {

/// Number of keys on one half.
pub const HALF_KEYS: usize = 18;

/// Supplies the readings of one scan: for each reading the index of the key
/// it belongs to.
pub trait KeySensors {
    /// What the sensors deliver for one key.
    type Item: Copy;

    /// The readings that the sensors hold, in the order in which the keys
    /// take them.
    spec fn pending_readings(&self) -> Seq<(usize, Self::Item)>;

    /// Hands over the readings that the sensors hold.
    fn take_readings(&mut self) -> (readings: Vec<(usize, Self::Item)>)
        ensures
            readings@ == old(self).pending_readings(),
    ;
}

/// The row of keys after the keys took `readings`, one after the other. A
/// reading for a key that the row does not have changes nothing.
pub open spec fn apply_readings<K: KeyState>(positions: Seq<K>, readings: Seq<(usize, K::Item)>) -> Seq<
    K,
>
    decreases readings.len(),
{
    if readings.len() == 0 {
        positions
    } else {
        let before = apply_readings(positions, readings.drop_last());
        let (index, buf) = readings.last();
        if index < before.len() {
            before.update(index as int, before[index as int].after_update(buf))
        } else {
            before
        }
    }
}

/// The row of keys after each key took its reading in a calibration pass.
pub open spec fn apply_setup<K: KeyState>(positions: Seq<K>, readings: Seq<(usize, K::Item)>) -> Seq<
    K,
>
    decreases readings.len(),
{
    if readings.len() == 0 {
        positions
    } else {
        let before = apply_setup(positions, readings.drop_last());
        let (index, buf) = readings.last();
        if index < before.len() {
            before.update(index as int, before[index as int].after_setup(buf))
        } else {
            before
        }
    }
}

/// Whether a calibration pass with `readings` finds every key it reaches
/// ready.
pub open spec fn setup_complete<K: KeyState>(positions: Seq<K>, readings: Seq<(usize, K::Item)>) -> bool
    decreases readings.len(),
{
    if readings.len() == 0 {
        true
    } else {
        let before = apply_setup(positions, readings.drop_last());
        let (index, buf) = readings.last();
        setup_complete(positions, readings.drop_last()) && (index < before.len()
            ==> before[index as int].setup_done(buf))
    }
}

/// The readings that a packed state gives the keys of one half, which
/// start at key `from`: bit `i` is the reading of key `from + i`.
pub open spec fn half_readings(from: usize, state: u32) -> Seq<(usize, bool)> {
    Seq::new(HALF_KEYS as nat, |i: int| ((from + i) as usize, bit_of(state, i)))
}

/// The same readings for analog key states, which take 1 for a pressed key
/// and 0 for a released one.
pub open spec fn half_levels(from: usize, state: u32) -> Seq<(usize, u16)> {
    Seq::new(
        HALF_KEYS as nat,
        |i: int|
            (
                (from + i) as usize,
                if bit_of(state, i) {
                    1u16
                } else {
                    0u16
                },
            ),
    )
}

/// The sensors of the dongle: the press states of a half, as they arrived
/// over the radio from the logical address of that half.
#[derive(Clone, Copy, Debug)]
pub struct DongleSensors {
    /// The address a packed state arrived from, and the state, if one
    /// arrived since the last scan.
    pub pending: Option<(u8, u32)>,
}

impl DongleSensors {
    pub fn new() -> (sensors: Self)
        ensures
            sensors.pending is None,
    {
        DongleSensors { pending: None }
    }

    /// Takes in the packed state that arrived from logical address `addr`.
    pub fn deliver(&mut self, addr: u8, key_states: u32)
        ensures
            final(self).pending == Some((addr, key_states)),
    {
        self.pending = Some((addr, key_states));
    }
}

impl KeySensors for DongleSensors {
    type Item = bool;

    /// A state from address 1 is for the first half of the keys, one from
    /// address 2 for the second half; any other gives no readings.
    open spec fn pending_readings(&self) -> Seq<(usize, bool)> {
        match self.pending {
            Some((addr, state)) => if addr == 1 {
                half_readings(0, state)
            } else if addr == 2 {
                half_readings(HALF_KEYS, state)
            } else {
                Seq::empty()
            },
            None => Seq::empty(),
        }
    }

    fn take_readings(&mut self) -> (readings: Vec<(usize, bool)>)
        ensures
            final(self).pending is None,
    {
        let pending = self.pending;
        self.pending = None;
        match pending {
            Some((addr, key_states)) => {
                if addr == 1 {
                    unpack_half(0, key_states)
                } else if addr == 2 {
                    unpack_half(HALF_KEYS, key_states)
                } else {
                    Vec::new()
                }
            },
            None => Vec::new(),
        }
    }
}

/// Unpacks the press states of one half, which starts at key `from`.
pub fn unpack_half(from: usize, state: u32) -> (readings: Vec<(usize, bool)>)
    requires
        from + HALF_KEYS <= usize::MAX,
    ensures
        readings@ == half_readings(from, state),
{
    let mut readings: Vec<(usize, bool)> = Vec::new();
    let mut i: usize = 0;
    while i < HALF_KEYS
        invariant
            i <= HALF_KEYS,
            from + HALF_KEYS <= usize::MAX,
            readings@.len() == i,
            forall|j: int| 0 <= j < i ==> readings@[j] == ((from + j) as usize, bit_of(state, j)),
        decreases HALF_KEYS - i,
    {
        let bit: u32 = (state >> (i as u32)) & 1;
        assert(bit == 0 || bit == 1) by (bit_vector)
            requires
                bit == (state >> (i as u32)) & 1,
        ;
        readings.push((from + i, bit != 0));
        i += 1;
    }
    assert(readings@ =~= half_readings(from, state));
    readings
}

/// The hall-effect sensors of one half: the reading of each sensor, and the
/// key that each sensor belongs to.
#[derive(Clone, Copy, Debug)]
pub struct HallEffectSensors {
    /// The key index of each sensor, in the order the sensors are read.
    pub order: [usize; HALF_KEYS],
    /// The last reading of each sensor, in the same order.
    pub readings: [u16; HALF_KEYS],
}

impl HallEffectSensors {
    pub fn new(order: [usize; HALF_KEYS]) -> (sensors: Self)
        ensures
            sensors.order == order,
            sensors.readings@ == Seq::new(HALF_KEYS as nat, |i: int| 0u16),
    {
        let sensors = HallEffectSensors { order, readings: [0u16;HALF_KEYS] };
        assert(sensors.readings@ =~= Seq::new(HALF_KEYS as nat, |i: int| 0u16));
        sensors
    }

    /// Stores the reading of sensor `sensor`.
    pub fn set_reading(&mut self, sensor: usize, reading: u16)
        requires
            sensor < HALF_KEYS,
        ensures
            final(self).order == old(self).order,
            final(self).readings@ == old(self).readings@.update(sensor as int, reading),
    {
        self.readings[sensor] = reading;
    }

    /// The readings of the sensors, each with the key it belongs to.
    pub open spec fn sensor_readings(&self) -> Seq<(usize, u16)> {
        Seq::new(HALF_KEYS as nat, |i: int| (self.order[i], self.readings[i]))
    }
}

impl KeySensors for HallEffectSensors {
    type Item = u16;

    open spec fn pending_readings(&self) -> Seq<(usize, u16)> {
        self.sensor_readings()
    }

    fn take_readings(&mut self) -> (readings: Vec<(usize, u16)>)
        ensures
            *final(self) == *old(self),
    {
        let mut readings: Vec<(usize, u16)> = Vec::new();
        let mut i: usize = 0;
        while i < HALF_KEYS
            invariant
                i <= HALF_KEYS,
                *self == *old(self),
                readings@.len() == i,
                forall|j: int| 0 <= j < i ==> readings@[j] == (self.order[j], self.readings[j]),
            decreases HALF_KEYS - i,
        {
            readings.push((self.order[i], self.readings[i]));
            i += 1;
        }
        assert(readings@ =~= self.sensor_readings());
        readings
    }
}

/// The sensors of the primary half: its own hall-effect sensors, and the
/// packed press states of the other half when they arrived.
#[derive(Clone, Copy, Debug)]
pub struct MasterSensors {
    pub sensors: HallEffectSensors,
    /// The packed state of the other half, if one arrived since the last
    /// scan.
    pub slave_state: Option<u32>,
}

impl MasterSensors {
    pub fn new(order: [usize; HALF_KEYS]) -> (sensors: Self)
        ensures
            sensors.sensors.order == order,
            sensors.sensors.readings@ == Seq::new(HALF_KEYS as nat, |i: int| 0u16),
            sensors.slave_state is None,
    {
        MasterSensors { sensors: HallEffectSensors::new(order), slave_state: None }
    }
}

impl KeySensors for MasterSensors {
    type Item = u16;

    /// The readings of the own sensors come first; the press states of the
    /// other half follow, for the keys of the second half.
    open spec fn pending_readings(&self) -> Seq<(usize, u16)> {
        self.sensors.sensor_readings() + match self.slave_state {
            Some(state) => half_levels(HALF_KEYS, state),
            None => Seq::empty(),
        }
    }

    fn take_readings(&mut self) -> (readings: Vec<(usize, u16)>)
        ensures
            final(self).sensors == old(self).sensors,
            final(self).slave_state is None,
    {
        let mut readings = self.sensors.take_readings();
        let slave_state = self.slave_state;
        self.slave_state = None;
        match slave_state {
            Some(slave_rep) => {
                let ghost own = readings@;
                let mut i: usize = 0;
                while i < HALF_KEYS
                    invariant
                        i <= HALF_KEYS,
                        readings@.len() == own.len() + i,
                        forall|j: int| 0 <= j < own.len() ==> readings@[j] == own[j],
                        forall|j: int|
                            0 <= j < i ==> readings@[own.len() + j] == half_levels(
                                HALF_KEYS,
                                slave_rep,
                            )[j],
                    decreases HALF_KEYS - i,
                {
                    let val: u32 = (slave_rep >> (i as u32)) & 1;
                    assert(val == 0 || val == 1) by (bit_vector)
                        requires
                            val == (slave_rep >> (i as u32)) & 1,
                    ;
                    readings.push((i + HALF_KEYS, val as u16));
                    i += 1;
                }
                assert(readings@ =~= own + half_levels(HALF_KEYS, slave_rep));
            },
            None => {
                assert(readings@ + Seq::<(usize, u16)>::empty() =~= readings@);
            },
        }
        readings
    }
}

/// Which sensor channel reading number `i` of a scan comes from, when the
/// sensors sit behind multiplexers with `channels` channels, and, if the
/// multiplexers have to be switched first, the input to select.
pub fn mux_step(i: usize, channels: usize) -> (step: (usize, Option<usize>))
    requires
        channels > 0,
    ensures
        step.0 == i % channels,
        step.1 == if i % channels == 0 {
            Some(i / channels)
        } else {
            None
        },
{
    let chan = i % channels;
    if chan == 0 {
        (chan, Some(i / channels))
    } else {
        (chan, None)
    }
}

/// Whether select line `line` of a multiplexer is driven high to select
/// input `sel`: when bit `line` of `sel` is set.
pub fn select_level(sel: usize, line: usize) -> (high: bool)
    requires
        line < 32,
    ensures
        high == (((sel >> line) & 1) == 1),
{
    ((sel >> line) & 1) == 1
}

} // verus!
