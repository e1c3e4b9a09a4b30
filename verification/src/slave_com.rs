use vstd::prelude::*;

verus! {

/// Whether bit `index` of `state` is set.
pub open spec fn bit_of(state: u32, index: int) -> bool {
    (state >> (index as u32)) & 1 == 1
}

/// Byte `k` of `state`, the lowest being byte 0.
pub open spec fn byte_of(state: u32, k: u32) -> u8 {
    ((state >> (8 * k) as u32) & 0xff) as u8
}

/// The number whose four bytes, lowest first, are the first four of `bytes`.
pub open spec fn state_of_bytes(bytes: Seq<u8>) -> u32 {
    (bytes[0] as u32) | ((bytes[1] as u32) << 8) | ((bytes[2] as u32) << 16) | ((bytes[3] as u32)
        << 24)
}

/// The press states of the keys of one half, packed for the trip to the
/// other half.
pub trait SlaveState: Copy {
    /// Number of keys the packed state has room for.
    spec fn key_limit() -> nat;

    /// The state in which no key is pressed.
    spec fn initial() -> Self;

    /// The state with the press state of key `index` set to `pressed`.
    spec fn after_update(&self, index: int, pressed: bool) -> Self;

    /// Whether key `index` is pressed in the packed state.
    spec fn key_pressed(&self, index: int) -> bool;

    /// The bytes the packed state travels as.
    spec fn wire_bytes(&self) -> Seq<u8>;

    /// The state in which no key is pressed.
    fn default_state() -> (state: Self)
        ensures
            state == Self::initial(),
            forall|i: int| 0 <= i < Self::key_limit() ==> !state.key_pressed(i),
    ;

    fn update_state(&mut self, index: usize, pressed: bool)
        requires
            index < Self::key_limit(),
        ensures
            *final(self) == old(self).after_update(index as int, pressed),
            final(self).key_pressed(index as int) == pressed,
            forall|i: int|
                0 <= i < Self::key_limit() && i != index ==> final(self).key_pressed(i) == old(
                    self,
                ).key_pressed(i),
    ;

    /// Writes the bytes of the state to the front of `buf`.
    fn into_buffer(self, buf: &mut [u8])
        requires
            old(buf)@.len() >= self.wire_bytes().len(),
        ensures
            final(buf)@ == self.wire_bytes() + old(buf)@.skip(self.wire_bytes().len() as int),
    ;

    /// Whether the two states are not the same.
    fn differs(&self, other: &Self) -> (differs: bool)
        ensures
            differs == (*self != *other),
    ;
}

proof fn lemma_set_bit(state: u32, index: u32, other: u32)
    requires
        index < 32,
        other < 32,
    ensures
        bit_of(state | (1u32 << index), other as int) == (other == index || bit_of(
            state,
            other as int,
        )),
        bit_of(state & !(1u32 << index), other as int) == (other != index && bit_of(
            state,
            other as int,
        )),
{
    assert(((state | (1u32 << index)) >> other) & 1 == 1 <==> (other == index || (state >> other)
        & 1 == 1)) by (bit_vector)
        requires
            index < 32,
            other < 32,
    ;
    assert(((state & !(1u32 << index)) >> other) & 1 == 1 <==> (other != index && (state >> other)
        & 1 == 1)) by (bit_vector)
        requires
            index < 32,
            other < 32,
    ;
}

proof fn lemma_zero_bits(other: u32)
    requires
        other < 32,
    ensures
        !bit_of(0, other as int),
{
    assert((0u32 >> other) & 1 == 0) by (bit_vector)
        requires
            other < 32,
    ;
}

/// A packed state that was written out reads back as itself.
pub proof fn lemma_state_bytes_round_trip(state: u32)
    ensures
        state_of_bytes(
            seq![byte_of(state, 0), byte_of(state, 1), byte_of(state, 2), byte_of(state, 3)],
        ) == state,
{
    let b0 = byte_of(state, 0);
    let b1 = byte_of(state, 1);
    let b2 = byte_of(state, 2);
    let b3 = byte_of(state, 3);
    assert((((state >> 0u32) & 0xff) as u8 as u32) | ((((state >> 8u32) & 0xff) as u8 as u32) << 8)
        | ((((state >> 16u32) & 0xff) as u8 as u32) << 16) | ((((state >> 24u32) & 0xff) as u8
        as u32) << 24) == state) by (bit_vector);
}

impl SlaveState for u32 {
    open spec fn key_limit() -> nat {
        32
    }

    open spec fn initial() -> Self {
        0
    }

    open spec fn after_update(&self, index: int, pressed: bool) -> Self {
        if pressed {
            *self | (1u32 << (index as u32))
        } else {
            *self & !(1u32 << (index as u32))
        }
    }

    open spec fn key_pressed(&self, index: int) -> bool {
        bit_of(*self, index)
    }

    open spec fn wire_bytes(&self) -> Seq<u8> {
        seq![byte_of(*self, 0), byte_of(*self, 1), byte_of(*self, 2), byte_of(*self, 3)]
    }

    fn default_state() -> (state: Self) {
        proof {
            assert forall|i: int| 0 <= i < 32 implies !#[trigger] bit_of(0, i) by {
                lemma_zero_bits(i as u32);
            }
        }
        0
    }

    fn update_state(&mut self, index: usize, pressed: bool) {
        proof {
            assert forall|i: int| 0 <= i < 32 implies bit_of(
                *old(self) | (1u32 << (index as u32)),
                i,
            ) == (i == index || #[trigger] bit_of(*old(self), i)) && bit_of(
                *old(self) & !(1u32 << (index as u32)),
                i,
            ) == (i != index && bit_of(*old(self), i)) by {
                lemma_set_bit(*old(self), index as u32, i as u32);
            }
            lemma_set_bit(*old(self), index as u32, index as u32);
        }
        if pressed {
            *self |= 1u32 << (index as u32);
        } else {
            *self &= !(1u32 << (index as u32));
        }
    }

    fn into_buffer(self, buf: &mut [u8]) {
        buf[0] = ((self >> 0u32) & 0xff) as u8;
        buf[1] = ((self >> 8u32) & 0xff) as u8;
        buf[2] = ((self >> 16u32) & 0xff) as u8;
        buf[3] = ((self >> 24u32) & 0xff) as u8;
        assert(buf@ =~= self.wire_bytes() + old(buf)@.skip(4));
    }

    fn differs(&self, other: &Self) -> (differs: bool) {
        *self != *other
    }
}

/// Reads the packed state that the first four bytes of `buf` hold.
pub fn slave_state_from_buffer(buf: &[u8]) -> (state: u32)
    requires
        buf@.len() >= 4,
    ensures
        state == state_of_bytes(buf@),
{
    (buf[0] as u32) | ((buf[1] as u32) << 8u32) | ((buf[2] as u32) << 16u32) | ((buf[3] as u32)
        << 24u32)
}

/// Whether key `index` is pressed in a packed state.
pub fn slave_key_pressed(state: u32, index: usize) -> (pressed: bool)
    requires
        index < 32,
    ensures
        pressed == bit_of(state, index as int),
{
    let bit: u32 = (state >> (index as u32)) & 1;
    assert(bit == 0 || bit == 1) by (bit_vector)
        requires
            bit == (state >> (index as u32)) & 1,
    ;
    bit != 0
}

/// What the primary half asks of the other half.
#[derive(Clone, Copy, Debug, PartialEq, Eq, Structural)]
pub enum HidRequest {
    /// Show the profile with this number.
    ConfigIndicate(u8),
    /// Send the analog reading of the key with this number.
    HallEffectReading(u8),
}

/// What the other half answers.
#[derive(Clone, Copy, Debug, PartialEq, Eq, Structural)]
pub enum HidResponse {
    /// The analog reading that was asked for.
    HallEffectReading(u16),
}

impl HidRequest {
    /// The two bytes a request travels as: its number, then its argument.
    pub open spec fn encoding(&self) -> Seq<u8> {
        match *self {
            HidRequest::ConfigIndicate(val) => seq![0u8, val],
            HidRequest::HallEffectReading(i) => seq![1u8, i],
        }
    }

    /// The request that the front of `bytes` holds, if it holds one.
    pub open spec fn decode(bytes: Seq<u8>) -> Option<HidRequest> {
        if bytes[0] == 0 {
            Some(HidRequest::ConfigIndicate(bytes[1]))
        } else if bytes[0] == 1 {
            Some(HidRequest::HallEffectReading(bytes[1]))
        } else {
            None
        }
    }

    /// Writes the request to the front of `buf` and returns its length.
    pub fn send_request(&self, buf: &mut [u8]) -> (len: usize)
        requires
            old(buf)@.len() >= 2,
        ensures
            len == 2,
            final(buf)@ == self.encoding() + old(buf)@.skip(2),
    {
        match *self {
            HidRequest::ConfigIndicate(val) => {
                buf[0] = self.index() as u8;
                buf[1] = val;
            },
            HidRequest::HallEffectReading(i) => {
                buf[0] = self.index() as u8;
                buf[1] = i;
            },
        }
        assert(buf@ =~= self.encoding() + old(buf)@.skip(2));
        2
    }

    /// The number of the kind of request.
    pub fn index(&self) -> (index: usize)
        ensures
            index == self.encoding()[0],
    {
        match self {
            HidRequest::ConfigIndicate(_) => 0,
            HidRequest::HallEffectReading(_) => 1,
        }
    }

    /// Reads the request at the front of `buf`.
    pub fn get_request(buf: &[u8]) -> (request: Option<HidRequest>)
        requires
            buf@.len() >= 1,
            buf@[0] <= 1 ==> buf@.len() >= 2,
        ensures
            request == HidRequest::decode(buf@),
    {
        match buf[0] {
            0 => Some(HidRequest::ConfigIndicate(buf[1])),
            1 => Some(HidRequest::HallEffectReading(buf[1])),
            _ => None,
        }
    }
}

/// The reading whose low byte is `low` and whose high byte is `high`.
pub open spec fn reading_of(low: u8, high: u8) -> u16 {
    (low as u16) | ((high as u16) << 8)
}

impl HidResponse {
    /// The three bytes a response travels as: its number, then the reading,
    /// low byte first.
    pub open spec fn encoding(&self) -> Seq<u8> {
        match *self {
            HidResponse::HallEffectReading(val) => seq![
                1u8,
                (val & 0xff) as u8,
                (val >> 8) as u8,
            ],
        }
    }

    /// The response that the front of `bytes` holds, if it holds one.
    pub open spec fn decode(bytes: Seq<u8>) -> Option<HidResponse> {
        if bytes[0] == 1 {
            Some(HidResponse::HallEffectReading(reading_of(bytes[1], bytes[2])))
        } else {
            None
        }
    }

    /// Reads the response at the front of `buf`; a first byte of 0 means
    /// that there is none.
    pub fn get_response(buf: &[u8]) -> (response: Option<HidResponse>)
        requires
            buf@.len() >= 1,
            buf@[0] == 1 ==> buf@.len() >= 3,
        ensures
            response == HidResponse::decode(buf@),
    {
        match buf[0] {
            0 => None,
            1 => {
                let reading = (buf[1] as u16) | ((buf[2] as u16) << 8u16);
                Some(HidResponse::HallEffectReading(reading))
            },
            _ => None,
        }
    }

    /// The number of the kind of response.
    pub fn index(&self) -> (index: usize)
        ensures
            index == 1,
    {
        match self {
            HidResponse::HallEffectReading(_) => 1,
        }
    }

    /// Writes the response to the front of `buf` and returns its length.
    pub fn send_response(&self, buf: &mut [u8]) -> (len: usize)
        requires
            old(buf)@.len() >= 3,
        ensures
            len == 3,
            final(buf)@ == self.encoding() + old(buf)@.skip(3),
    {
        match *self {
            HidResponse::HallEffectReading(val) => {
                buf[0] = self.index() as u8;
                buf[1] = (val & 0xff) as u8;
                buf[2] = (val >> 8u16) as u8;
            },
        }
        assert(buf@ =~= self.encoding() + old(buf)@.skip(3));
        3
    }
}

/// A request or a response that was written out reads back as itself,
/// whatever follows it in the buffer.
pub proof fn lemma_link_messages_round_trip(request: HidRequest, response: HidResponse, rest: Seq<u8>)
    ensures
        HidRequest::decode(request.encoding() + rest) == Some(request),
        HidResponse::decode(response.encoding() + rest) == Some(response),
{
    let bytes = request.encoding() + rest;
    assert(bytes[0] == request.encoding()[0] && bytes[1] == request.encoding()[1]);
    let answer = response.encoding() + rest;
    assert(answer[0] == 1 && answer[1] == response.encoding()[1] && answer[2]
        == response.encoding()[2]);
    let val = response->HallEffectReading_0;
    assert((((val & 0xff) as u8) as u16) | ((((val >> 8) as u8) as u16) << 8) == val)
        by (bit_vector);
}

} // verus!
