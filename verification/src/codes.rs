use crate::scan_codes::{lemma_usage_round_trip, KeyCodes};
use vstd::prelude::*;
use vstd::slice::slice_subrange;

verus! {

/// Why a key map could not be written to, or read from, a byte buffer.
#[derive(Clone, Copy, Debug, PartialEq, Eq, Structural)]
pub enum SerializationError {
    /// The buffer is shorter than the encoding it should hold.
    BufferTooSmall,
    /// The first byte of a cell is not the tag of any behavior.
    InvalidFormat,
}

/// What one cell of a key map does when its key is pressed.
#[derive(Clone, Copy, Debug, PartialEq, Eq, Structural)]
pub enum ScanCodeBehavior {
    Single(KeyCodes),
    Double(KeyCodes, KeyCodes),
    Triple(KeyCodes, KeyCodes, KeyCodes),
    /// Sends `combined_code` while the key at `other_index` is pressed and
    /// `normal_code` otherwise.
    CombinedKey { other_index: usize, normal_code: KeyCodes, combined_code: KeyCodes },
    /// Switches to another stored key map instead of sending a code.
    ChangeConfig(u8),
}

/// The tag byte that opens the encoding of a behavior.
#[derive(Clone, Copy, Debug, PartialEq, Eq, Structural)]
pub enum HidScanCodeType {
    Single,
    Double,
    Triple,
    CombinedKey,
    ChangeConfig,
}

pub const SINGLE_SERIAL_LENGTH: usize = 2;

pub const DOUBLE_SERIAL_LENGTH: usize = 3;

pub const TRIPLE_SERIAL_LENGTH: usize = 4;

pub const COMBINED_KEY_SERIAL_LENGTH: usize = 4;

pub const CHANGE_CONFIG_SERIAL_LENGTH: usize = 2;

/// Length of the longest encoding of a behavior.
pub const MAX_SERIAL_LENGTH: usize = 4;

impl HidScanCodeType {
    /// Number of bytes, tag included, that a behavior of this type encodes to.
    pub open spec fn len(self) -> nat {
        match self {
            HidScanCodeType::Single => 2,
            HidScanCodeType::Double => 3,
            HidScanCodeType::Triple => 4,
            HidScanCodeType::CombinedKey => 4,
            HidScanCodeType::ChangeConfig => 2,
        }
    }

    pub open spec fn tag(self) -> u8 {
        match self {
            HidScanCodeType::Single => 0,
            HidScanCodeType::Double => 1,
            HidScanCodeType::Triple => 2,
            HidScanCodeType::CombinedKey => 3,
            HidScanCodeType::ChangeConfig => 4,
        }
    }

    /// The type a tag byte names, if it names one.
    pub open spec fn of_tag(byte: u8) -> Option<HidScanCodeType> {
        if byte == 0 {
            Some(HidScanCodeType::Single)
        } else if byte == 1 {
            Some(HidScanCodeType::Double)
        } else if byte == 2 {
            Some(HidScanCodeType::Triple)
        } else if byte == 3 {
            Some(HidScanCodeType::CombinedKey)
        } else if byte == 4 {
            Some(HidScanCodeType::ChangeConfig)
        } else {
            None
        }
    }

    pub fn get_len(&self) -> (len: usize)
        ensures
            len == self.len(),
            2 <= len <= MAX_SERIAL_LENGTH,
    {
        match self {
            HidScanCodeType::Single => SINGLE_SERIAL_LENGTH,
            HidScanCodeType::Double => DOUBLE_SERIAL_LENGTH,
            HidScanCodeType::Triple => TRIPLE_SERIAL_LENGTH,
            HidScanCodeType::CombinedKey => COMBINED_KEY_SERIAL_LENGTH,
            HidScanCodeType::ChangeConfig => CHANGE_CONFIG_SERIAL_LENGTH,
        }
    }

    pub fn to_u8(self) -> (byte: u8)
        ensures
            byte == self.tag(),
    {
        match self {
            HidScanCodeType::Single => 0,
            HidScanCodeType::Double => 1,
            HidScanCodeType::Triple => 2,
            HidScanCodeType::CombinedKey => 3,
            HidScanCodeType::ChangeConfig => 4,
        }
    }

    /// Reads a tag byte, handing the byte back when it is no tag.
    pub fn try_from_primitive(number: u8) -> (r: Result<HidScanCodeType, u8>)
        ensures
            match HidScanCodeType::of_tag(number) {
                Some(t) => r == Ok::<HidScanCodeType, u8>(t),
                None => r == Err::<HidScanCodeType, u8>(number),
            },
    {
        match number {
            0 => Ok(HidScanCodeType::Single),
            1 => Ok(HidScanCodeType::Double),
            2 => Ok(HidScanCodeType::Triple),
            3 => Ok(HidScanCodeType::CombinedKey),
            4 => Ok(HidScanCodeType::ChangeConfig),
            _ => Err(number),
        }
    }
}

/// The largest entry of `arr`, and 0 when it has none.
pub open spec fn spec_max_len(arr: Seq<usize>) -> usize
    decreases arr.len(),
{
    if arr.len() == 0 {
        0
    } else {
        let rest = spec_max_len(arr.drop_last());
        if arr.last() > rest {
            arr.last()
        } else {
            rest
        }
    }
}

pub fn max_len(arr: &[usize]) -> (max: usize)
    ensures
        max == spec_max_len(arr@),
{
    let mut max: usize = 0;
    let mut i: usize = 0;
    while i < arr.len()
        invariant
            i <= arr.len(),
            max == spec_max_len(arr@.take(i as int)),
        decreases arr.len() - i,
    {
        assert(arr@.take(i + 1).drop_last() == arr@.take(i as int));
        if arr[i] > max {
            max = arr[i];
        }
        i += 1;
    }
    assert(arr@.take(i as int) == arr@);
    max
}

/// `spec_max_len` bounds every entry and, unless the sequence is empty, is one
/// of them.
pub proof fn lemma_max_len_is_max(arr: Seq<usize>)
    ensures
        forall|i: int| 0 <= i < arr.len() ==> arr[i] <= spec_max_len(arr),
        arr.len() > 0 ==> exists|i: int| 0 <= i < arr.len() && arr[i] == spec_max_len(arr),
        arr.len() == 0 ==> spec_max_len(arr) == 0,
    decreases arr.len(),
{
    if arr.len() > 0 {
        let init = arr.drop_last();
        lemma_max_len_is_max(init);
        assert forall|i: int| 0 <= i < arr.len() implies arr[i] <= spec_max_len(arr) by {
            if i < init.len() {
                assert(init[i] == arr[i]);
            }
        }
        if arr.last() > spec_max_len(init) {
            assert(arr[arr.len() - 1] == spec_max_len(arr));
        } else if init.len() > 0 {
            let j = choose|j: int| 0 <= j < init.len() && init[j] == spec_max_len(init);
            assert(arr[j] == spec_max_len(arr));
        } else {
            assert(arr[0] == spec_max_len(arr));
        }
    }
}

/// `MAX_SERIAL_LENGTH` is the largest of the five encoding lengths.
pub proof fn lemma_max_serial_length()
    ensures
        MAX_SERIAL_LENGTH == spec_max_len(
            seq![
                SINGLE_SERIAL_LENGTH,
                DOUBLE_SERIAL_LENGTH,
                TRIPLE_SERIAL_LENGTH,
                COMBINED_KEY_SERIAL_LENGTH,
                CHANGE_CONFIG_SERIAL_LENGTH,
            ],
        ),
{
    let s5 = seq![
        SINGLE_SERIAL_LENGTH,
        DOUBLE_SERIAL_LENGTH,
        TRIPLE_SERIAL_LENGTH,
        COMBINED_KEY_SERIAL_LENGTH,
        CHANGE_CONFIG_SERIAL_LENGTH,
    ];
    let s4 = s5.drop_last();
    let s3 = s4.drop_last();
    let s2 = s3.drop_last();
    let s1 = s2.drop_last();
    let s0 = s1.drop_last();
    assert(s0.len() == 0);
    assert(spec_max_len(s0) == 0);
    assert(spec_max_len(s1) == 2);
    assert(spec_max_len(s2) == 3);
    assert(spec_max_len(s3) == 4);
    assert(spec_max_len(s4) == 4);
    assert(spec_max_len(s5) == 4);
}

impl ScanCodeBehavior {
    /// The behavior of a cell that nothing was assigned to.
    pub open spec fn spec_default() -> ScanCodeBehavior {
        ScanCodeBehavior::Single(KeyCodes::Undefined)
    }

    pub open spec fn kind(self) -> HidScanCodeType {
        match self {
            ScanCodeBehavior::Single(_) => HidScanCodeType::Single,
            ScanCodeBehavior::Double(_, _) => HidScanCodeType::Double,
            ScanCodeBehavior::Triple(_, _, _) => HidScanCodeType::Triple,
            ScanCodeBehavior::CombinedKey { .. } => HidScanCodeType::CombinedKey,
            ScanCodeBehavior::ChangeConfig(_) => HidScanCodeType::ChangeConfig,
        }
    }

    /// Number of bytes this behavior encodes to.
    pub open spec fn encoded_len(self) -> nat {
        self.kind().len()
    }

    /// The bytes this behavior encodes to: its tag, then its payload. The index
    /// of a combined key is written as one byte, so only its low eight bits
    /// are kept.
    pub open spec fn encoding(self) -> Seq<u8> {
        match self {
            ScanCodeBehavior::Single(code) => seq![0u8, code.usage()],
            ScanCodeBehavior::Double(code0, code1) => seq![1u8, code0.usage(), code1.usage()],
            ScanCodeBehavior::Triple(code0, code1, code2) => seq![
                2u8,
                code0.usage(),
                code1.usage(),
                code2.usage(),
            ],
            ScanCodeBehavior::CombinedKey { other_index, normal_code, combined_code } => seq![
                3u8,
                normal_code.usage(),
                combined_code.usage(),
                (other_index % 256) as u8,
            ],
            ScanCodeBehavior::ChangeConfig(config_num) => seq![4u8, config_num],
        }
    }

    /// Whether the encoding keeps everything this behavior holds.
    pub open spec fn fits_encoding(self) -> bool {
        self matches ScanCodeBehavior::CombinedKey { other_index, .. } ==> other_index < 256
    }

    /// What the bytes at the front of `bytes` decode to. The tag is read first;
    /// an unknown tag is `InvalidFormat`, and a known one asks for all the bytes
    /// of its type before any payload is read. Bytes that do not even hold a
    /// tag are `BufferTooSmall`.
    pub open spec fn decode(bytes: Seq<u8>) -> Result<ScanCodeBehavior, SerializationError> {
        if bytes.len() == 0 {
            Err(SerializationError::BufferTooSmall)
        } else {
            ScanCodeBehavior::decode_tagged(bytes)
        }
    }

    /// What bytes that begin with a tag decode to.
    pub open spec fn decode_tagged(bytes: Seq<u8>) -> Result<ScanCodeBehavior, SerializationError>
        recommends
            bytes.len() > 0,
    {
        match HidScanCodeType::of_tag(bytes[0]) {
            None => Err(SerializationError::InvalidFormat),
            Some(kind) => if bytes.len() < kind.len() {
                Err(SerializationError::BufferTooSmall)
            } else {
                Ok(
                    match kind {
                        HidScanCodeType::Single => ScanCodeBehavior::Single(
                            KeyCodes::of_usage(bytes[1]),
                        ),
                        HidScanCodeType::Double => ScanCodeBehavior::Double(
                            KeyCodes::of_usage(bytes[1]),
                            KeyCodes::of_usage(bytes[2]),
                        ),
                        HidScanCodeType::Triple => ScanCodeBehavior::Triple(
                            KeyCodes::of_usage(bytes[1]),
                            KeyCodes::of_usage(bytes[2]),
                            KeyCodes::of_usage(bytes[3]),
                        ),
                        HidScanCodeType::CombinedKey => ScanCodeBehavior::CombinedKey {
                            other_index: bytes[3] as usize,
                            normal_code: KeyCodes::of_usage(bytes[1]),
                            combined_code: KeyCodes::of_usage(bytes[2]),
                        },
                        HidScanCodeType::ChangeConfig => ScanCodeBehavior::ChangeConfig(bytes[1]),
                    },
                )
            },
        }
    }

    pub fn default() -> (r: Self)
        ensures
            r == ScanCodeBehavior::spec_default(),
    {
        ScanCodeBehavior::Single(KeyCodes::Undefined)
    }

    pub fn hid_type(&self) -> (kind: HidScanCodeType)
        ensures
            kind == self.kind(),
    {
        match self {
            ScanCodeBehavior::Single(_) => HidScanCodeType::Single,
            ScanCodeBehavior::Double(_, _) => HidScanCodeType::Double,
            ScanCodeBehavior::Triple(_, _, _) => HidScanCodeType::Triple,
            ScanCodeBehavior::CombinedKey { .. } => HidScanCodeType::CombinedKey,
            ScanCodeBehavior::ChangeConfig(_) => HidScanCodeType::ChangeConfig,
        }
    }

    pub fn into_buffer_len(&self) -> (len: usize)
        ensures
            len == self.encoded_len(),
            len == self.encoding().len(),
            2 <= len <= MAX_SERIAL_LENGTH,
    {
        match self {
            ScanCodeBehavior::Single(_) => SINGLE_SERIAL_LENGTH,
            ScanCodeBehavior::Double(_, _) => DOUBLE_SERIAL_LENGTH,
            ScanCodeBehavior::Triple(_, _, _) => TRIPLE_SERIAL_LENGTH,
            ScanCodeBehavior::CombinedKey { .. } => COMBINED_KEY_SERIAL_LENGTH,
            ScanCodeBehavior::ChangeConfig(_) => CHANGE_CONFIG_SERIAL_LENGTH,
        }
    }

    /// Writes the encoding into `buffer` from `at` on and leaves every other
    /// byte as it was.
    pub fn write_at(&self, buffer: &mut [u8], at: usize)
        requires
            at + self.encoded_len() <= old(buffer)@.len(),
        ensures
            final(buffer)@ == old(buffer)@.take(at as int) + self.encoding() + old(buffer)@.skip(
                at + self.encoded_len(),
            ),
    {
        match *self {
            ScanCodeBehavior::Single(code) => {
                buffer[at] = HidScanCodeType::Single.to_u8();
                buffer[at + 1] = code.to_u8();
            },
            ScanCodeBehavior::Double(code0, code1) => {
                buffer[at] = HidScanCodeType::Double.to_u8();
                buffer[at + 1] = code0.to_u8();
                buffer[at + 2] = code1.to_u8();
            },
            ScanCodeBehavior::Triple(code0, code1, code2) => {
                buffer[at] = HidScanCodeType::Triple.to_u8();
                buffer[at + 1] = code0.to_u8();
                buffer[at + 2] = code1.to_u8();
                buffer[at + 3] = code2.to_u8();
            },
            ScanCodeBehavior::CombinedKey { other_index, normal_code, combined_code } => {
                buffer[at] = HidScanCodeType::CombinedKey.to_u8();
                buffer[at + 1] = normal_code.to_u8();
                buffer[at + 2] = combined_code.to_u8();
                buffer[at + 3] = (other_index % 256) as u8;
            },
            ScanCodeBehavior::ChangeConfig(config_num) => {
                buffer[at] = HidScanCodeType::ChangeConfig.to_u8();
                buffer[at + 1] = config_num;
            },
        }
        assert(buffer@ =~= old(buffer)@.take(at as int) + self.encoding() + old(buffer)@.skip(
            at + self.encoded_len(),
        ));
    }

    /// Writes the encoding to the front of `buffer`, or refuses a buffer that
    /// is too short for it without touching it.
    pub fn into_buffer(&self, buffer: &mut [u8]) -> (r: Result<(), SerializationError>)
        ensures
            r is Ok <==> old(buffer)@.len() >= self.encoded_len(),
            r is Ok ==> final(buffer)@ == self.encoding() + old(buffer)@.skip(
                self.encoded_len() as int,
            ),
            r is Err ==> r == Err::<(), SerializationError>(SerializationError::BufferTooSmall)
                && final(buffer)@ == old(buffer)@,
    {
        if buffer.len() < self.into_buffer_len() {
            Err(SerializationError::BufferTooSmall)
        } else {
            self.write_at(buffer, 0);
            assert(old(buffer)@.take(0) + self.encoding() =~= self.encoding());
            Ok(())
        }
    }

    /// Writes the encoding to the front of `buffer` and reports its length.
    pub fn serialize_into(&self, buffer: &mut [u8]) -> (r: Result<usize, SerializationError>)
        ensures
            r is Ok <==> old(buffer)@.len() >= self.encoded_len(),
            r matches Ok(n) ==> n == self.encoded_len() && final(buffer)@ == self.encoding()
                + old(buffer)@.skip(n as int),
            r is Err ==> r == Err::<usize, SerializationError>(SerializationError::BufferTooSmall)
                && final(buffer)@ == old(buffer)@,
    {
        if buffer.len() < self.into_buffer_len() {
            Err(SerializationError::BufferTooSmall)
        } else {
            self.write_at(buffer, 0);
            assert(old(buffer)@.take(0) + self.encoding() =~= self.encoding());
            Ok(self.into_buffer_len())
        }
    }

    /// Reads the behavior encoded at the front of `buffer`.
    pub fn deserialize_from(buffer: &[u8]) -> (r: Result<ScanCodeBehavior, SerializationError>)
        ensures
            r == ScanCodeBehavior::decode(buffer@),
    {
        if buffer.len() == 0 {
            return Err(SerializationError::BufferTooSmall);
        }
        let hid_type = match HidScanCodeType::try_from_primitive(buffer[0]) {
            Ok(hid_type) => hid_type,
            Err(_) => {
                return Err(SerializationError::InvalidFormat);
            },
        };
        if buffer.len() < hid_type.get_len() {
            return Err(SerializationError::BufferTooSmall);
        }
        match hid_type {
            HidScanCodeType::Single => {
                let code = KeyCodes::from_u8(buffer[1]);
                Ok(ScanCodeBehavior::Single(code))
            },
            HidScanCodeType::Double => {
                let code0 = KeyCodes::from_u8(buffer[1]);
                let code1 = KeyCodes::from_u8(buffer[2]);
                Ok(ScanCodeBehavior::Double(code0, code1))
            },
            HidScanCodeType::Triple => {
                let code0 = KeyCodes::from_u8(buffer[1]);
                let code1 = KeyCodes::from_u8(buffer[2]);
                let code2 = KeyCodes::from_u8(buffer[3]);
                Ok(ScanCodeBehavior::Triple(code0, code1, code2))
            },
            HidScanCodeType::CombinedKey => {
                let normal_code = KeyCodes::from_u8(buffer[1]);
                let combined_code = KeyCodes::from_u8(buffer[2]);
                let other_index = buffer[3] as usize;
                Ok(ScanCodeBehavior::CombinedKey { other_index, normal_code, combined_code })
            },
            HidScanCodeType::ChangeConfig => Ok(ScanCodeBehavior::ChangeConfig(buffer[1])),
        }
    }
}

/// Decoding what a behavior encodes to gives the behavior back, whatever
/// follows the encoding, as long as the index of a combined key fits its byte.
pub proof fn lemma_decode_encode(cell: ScanCodeBehavior, rest: Seq<u8>)
    requires
        cell.fits_encoding(),
    ensures
        ScanCodeBehavior::decode(cell.encoding() + rest) == Ok::<
            ScanCodeBehavior,
            SerializationError,
        >(cell),
        cell.encoding().len() == cell.encoded_len(),
{
    let bytes = cell.encoding() + rest;
    match cell {
        ScanCodeBehavior::Single(code) => {
            lemma_usage_round_trip(code);
            assert(bytes[0] == 0 && bytes[1] == code.usage());
        },
        ScanCodeBehavior::Double(code0, code1) => {
            lemma_usage_round_trip(code0);
            lemma_usage_round_trip(code1);
            assert(bytes[0] == 1 && bytes[1] == code0.usage() && bytes[2] == code1.usage());
        },
        ScanCodeBehavior::Triple(code0, code1, code2) => {
            lemma_usage_round_trip(code0);
            lemma_usage_round_trip(code1);
            lemma_usage_round_trip(code2);
            assert(bytes[0] == 2 && bytes[1] == code0.usage() && bytes[2] == code1.usage()
                && bytes[3] == code2.usage());
        },
        ScanCodeBehavior::CombinedKey { other_index, normal_code, combined_code } => {
            lemma_usage_round_trip(normal_code);
            lemma_usage_round_trip(combined_code);
            assert(bytes[0] == 3 && bytes[1] == normal_code.usage() && bytes[2]
                == combined_code.usage() && bytes[3] == other_index);
        },
        ScanCodeBehavior::ChangeConfig(config_num) => {
            assert(bytes[0] == 4 && bytes[1] == config_num);
        },
    }
}

/// The bytes a row of cells encodes to: the encodings of the cells, one after
/// the other, with nothing between them.
pub open spec fn encode_cells(cells: Seq<ScanCodeBehavior>) -> Seq<u8>
    decreases cells.len(),
{
    if cells.len() == 0 {
        Seq::empty()
    } else {
        cells[0].encoding() + encode_cells(cells.skip(1))
    }
}

/// Puts `cells` in front of what the rest of a buffer decoded to.
pub open spec fn prepend_cells(
    cells: Seq<ScanCodeBehavior>,
    rest: Result<Seq<ScanCodeBehavior>, SerializationError>,
) -> Result<Seq<ScanCodeBehavior>, SerializationError> {
    match rest {
        Ok(tail) => Ok(cells + tail),
        Err(e) => Err(e),
    }
}

/// The cells that `bytes` decodes to when it is read cell by cell until it is
/// used up, each cell telling by its own tag where the next one starts; the
/// error of the first cell that does not decode, if there is one.
pub open spec fn decode_cells(bytes: Seq<u8>) -> Result<Seq<ScanCodeBehavior>, SerializationError>
    decreases bytes.len(),
{
    if bytes.len() == 0 {
        Ok(Seq::empty())
    } else {
        match ScanCodeBehavior::decode(bytes) {
            Err(e) => Err(e),
            Ok(cell) => prepend_cells(seq![cell], decode_cells(bytes.skip(cell.encoded_len() as int))),
        }
    }
}

/// The first `count` cells that `bytes` decodes to when it is read cell by
/// cell from the front; what follows them is not read. The error of the
/// first cell that does not decode, or `BufferTooSmall` when the bytes end
/// before the cells are read.
pub open spec fn decode_front(bytes: Seq<u8>, count: nat) -> Result<
    Seq<ScanCodeBehavior>,
    SerializationError,
>
    decreases count,
{
    if count == 0 {
        Ok(Seq::empty())
    } else if bytes.len() == 0 {
        Err(SerializationError::BufferTooSmall)
    } else {
        match ScanCodeBehavior::decode(bytes) {
            Err(e) => Err(e),
            Ok(cell) => prepend_cells(
                seq![cell],
                decode_front(bytes.skip(cell.encoded_len() as int), (count - 1) as nat),
            ),
        }
    }
}

/// Number of cells that decode from the front of `bytes` before it ends or a
/// cell fails to decode.
pub open spec fn leading_cells(bytes: Seq<u8>) -> nat
    decreases bytes.len(),
{
    if bytes.len() == 0 {
        0
    } else {
        match ScanCodeBehavior::decode(bytes) {
            Err(_) => 0,
            Ok(cell) => 1 + leading_cells(bytes.skip(cell.encoded_len() as int)),
        }
    }
}

/// What `bytes` decodes to as the cells of `count` keys: the cells it holds,
/// followed by default cells for the keys it holds none for. The error of the
/// first cell that does not decode; `InvalidFormat` when the bytes hold more
/// cells than there are keys.
pub open spec fn decode_layer(bytes: Seq<u8>, count: nat) -> Result<
    Seq<ScanCodeBehavior>,
    SerializationError,
> {
    if leading_cells(bytes) > count {
        Err(SerializationError::InvalidFormat)
    } else {
        match decode_cells(bytes) {
            Ok(cells) => Ok(cells + default_cells((count - cells.len()) as nat)),
            Err(e) => Err(e),
        }
    }
}

/// `count` cells that nothing was assigned to.
pub open spec fn default_cells(count: nat) -> Seq<ScanCodeBehavior> {
    Seq::new(count, |i: int| ScanCodeBehavior::spec_default())
}

/// Appending a cell appends its encoding.
pub proof fn lemma_encode_cells_push(cells: Seq<ScanCodeBehavior>, cell: ScanCodeBehavior)
    ensures
        encode_cells(cells.push(cell)) == encode_cells(cells) + cell.encoding(),
    decreases cells.len(),
{
    if cells.len() == 0 {
        assert(cells.push(cell).skip(1) == Seq::<ScanCodeBehavior>::empty());
        assert(encode_cells(cells.push(cell).skip(1)) == Seq::<u8>::empty());
        assert(encode_cells(cells) == Seq::<u8>::empty());
        assert(cell.encoding() + Seq::<u8>::empty() == Seq::<u8>::empty() + cell.encoding());
    } else {
        lemma_encode_cells_push(cells.skip(1), cell);
        assert(cells.push(cell).skip(1) == cells.skip(1).push(cell));
        assert(cells.push(cell)[0] == cells[0]);
        assert(cells[0].encoding() + (encode_cells(cells.skip(1)) + cell.encoding()) == (
        cells[0].encoding() + encode_cells(cells.skip(1))) + cell.encoding());
    }
}

/// The encoding of a row is at least as long as that of any of its prefixes,
/// and each cell takes between two and four bytes of it.
pub proof fn lemma_encode_cells_len(cells: Seq<ScanCodeBehavior>, k: int)
    requires
        0 <= k <= cells.len(),
    ensures
        encode_cells(cells.take(k)).len() <= encode_cells(cells).len(),
        2 * cells.len() <= encode_cells(cells).len() <= MAX_SERIAL_LENGTH * cells.len(),
    decreases cells.len() - k,
{
    if k < cells.len() {
        lemma_encode_cells_len(cells, k + 1);
        assert(cells.take(k + 1) == cells.take(k).push(cells[k]));
        lemma_encode_cells_push(cells.take(k), cells[k]);
    } else {
        assert(cells.take(k) == cells);
        lemma_encode_cells_bounds(cells);
    }
}

proof fn lemma_encode_cells_bounds(cells: Seq<ScanCodeBehavior>)
    ensures
        2 * cells.len() <= encode_cells(cells).len() <= MAX_SERIAL_LENGTH * cells.len(),
    decreases cells.len(),
{
    if cells.len() > 0 {
        lemma_encode_cells_bounds(cells.skip(1));
    }
}

/// Decoding what a row of cells encodes to gives the row back, in its order,
/// as long as the index of each combined key fits its byte.
pub proof fn lemma_table_round_trip(cells: Seq<ScanCodeBehavior>)
    requires
        forall|i: int| 0 <= i < cells.len() ==> (#[trigger] cells[i]).fits_encoding(),
    ensures
        decode_cells(encode_cells(cells)) == Ok::<Seq<ScanCodeBehavior>, SerializationError>(cells),
        leading_cells(encode_cells(cells)) == cells.len(),
        decode_layer(encode_cells(cells), cells.len()) == Ok::<
            Seq<ScanCodeBehavior>,
            SerializationError,
        >(cells),
    decreases cells.len(),
{
    if cells.len() > 0 {
        let head = cells[0];
        let tail = cells.skip(1);
        let bytes = encode_cells(cells);
        assert forall|i: int| 0 <= i < tail.len() implies (#[trigger] tail[i]).fits_encoding() by {
            assert(tail[i] == cells[i + 1]);
        }
        lemma_table_round_trip(tail);
        lemma_decode_encode(head, encode_cells(tail));
        assert(bytes == head.encoding() + encode_cells(tail));
        assert(bytes.len() > 0);
        assert(bytes.skip(head.encoded_len() as int) == encode_cells(tail));
        assert(seq![head] + tail == cells);
        assert(decode_cells(bytes) == prepend_cells(seq![head], decode_cells(encode_cells(tail))));
        assert(leading_cells(bytes) == 1 + leading_cells(encode_cells(tail)));
    } else {
        assert(encode_cells(cells) == Seq::<u8>::empty());
        assert(cells == Seq::<ScanCodeBehavior>::empty());
    }
    assert(cells + default_cells(0) =~= cells);
}

/// Reading as many cells as a row has from the front of its encoding gives
/// the row back, whatever follows the encoding, as long as the index of each
/// combined key fits its byte.
pub proof fn lemma_front_round_trip(cells: Seq<ScanCodeBehavior>, rest: Seq<u8>)
    requires
        forall|i: int| 0 <= i < cells.len() ==> (#[trigger] cells[i]).fits_encoding(),
    ensures
        decode_front(encode_cells(cells) + rest, cells.len()) == Ok::<
            Seq<ScanCodeBehavior>,
            SerializationError,
        >(cells),
    decreases cells.len(),
{
    if cells.len() > 0 {
        let head = cells[0];
        let tail = cells.skip(1);
        let bytes = encode_cells(cells) + rest;
        assert forall|i: int| 0 <= i < tail.len() implies (#[trigger] tail[i]).fits_encoding() by {
            assert(tail[i] == cells[i + 1]);
        }
        lemma_front_round_trip(tail, rest);
        lemma_decode_encode(head, encode_cells(tail) + rest);
        assert(bytes =~= head.encoding() + (encode_cells(tail) + rest));
        assert(bytes.len() > 0);
        assert(bytes.skip(head.encoded_len() as int) =~= encode_cells(tail) + rest);
        assert(seq![head] + tail == cells);
        assert(decode_front(bytes, cells.len()) == prepend_cells(
            seq![head],
            decode_front(encode_cells(tail) + rest, tail.len()),
        ));
    } else {
        assert(cells == Seq::<ScanCodeBehavior>::empty());
    }
}

/// The key map cells of all keys on one layer, as they are stored.
#[derive(Copy, Clone, Debug, PartialEq, Eq)]
pub struct ScanCodeLayerStorage<const N: usize> {
    pub codes: [ScanCodeBehavior; N],
}

impl<const N: usize> ScanCodeLayerStorage<N> {
    pub fn default() -> (r: Self)
        ensures
            r.codes@ == default_cells(N as nat),
    {
        let r = ScanCodeLayerStorage { codes: [ScanCodeBehavior::Single(KeyCodes::Undefined);N] };
        assert(r.codes@ =~= default_cells(N as nat));
        r
    }

    /// Whether both hold the same cells.
    pub fn same_codes(&self, other: &Self) -> (same: bool)
        ensures
            same == (self.codes@ == other.codes@),
    {
        let mut i: usize = 0;
        while i < N
            invariant
                i <= N,
                forall|j: int| 0 <= j < i ==> self.codes[j] == other.codes[j],
            decreases N - i,
        {
            if self.codes[i] != other.codes[i] {
                return false;
            }
            i += 1;
        }
        assert(self.codes@ =~= other.codes@);
        true
    }

    /// Writes the cells, one encoding after the other, to the front of
    /// `buffer` and reports how many bytes that took. A buffer that cannot
    /// hold them all is refused before anything is written.
    pub fn serialize_into(&self, buffer: &mut [u8]) -> (r: Result<usize, SerializationError>)
        ensures
            r is Ok <==> old(buffer)@.len() >= encode_cells(self.codes@).len(),
            r matches Ok(n) ==> n == encode_cells(self.codes@).len() && final(buffer)@
                == encode_cells(self.codes@) + old(buffer)@.skip(n as int),
            r is Err ==> r == Err::<usize, SerializationError>(SerializationError::BufferTooSmall)
                && final(buffer)@ == old(buffer)@,
    {
        let mut storage_size: usize = 0;
        let mut k: usize = 0;
        while k < N
            invariant
                k <= N,
                storage_size == encode_cells(self.codes@.take(k as int)).len(),
                storage_size <= buffer@.len(),
                buffer@ == old(buffer)@,
            decreases N - k,
        {
            let code_len = self.codes[k].into_buffer_len();
            proof {
                assert(self.codes@.take(k + 1) == self.codes@.take(k as int).push(self.codes[k as int]));
                lemma_encode_cells_push(self.codes@.take(k as int), self.codes[k as int]);
                lemma_encode_cells_len(self.codes@, k + 1);
            }
            if code_len > buffer.len() - storage_size {
                return Err(SerializationError::BufferTooSmall);
            }
            storage_size += code_len;
            k += 1;
        }
        assert(self.codes@.take(N as int) == self.codes@);
        let mut i: usize = 0;
        let mut k: usize = 0;
        while k < N
            invariant
                k <= N,
                i == encode_cells(self.codes@.take(k as int)).len(),
                storage_size == encode_cells(self.codes@).len(),
                storage_size <= buffer@.len(),
                buffer@.len() == old(buffer)@.len(),
                buffer@ == encode_cells(self.codes@.take(k as int)) + old(buffer)@.skip(i as int),
            decreases N - k,
        {
            let code = self.codes[k];
            let code_len = code.into_buffer_len();
            proof {
                assert(self.codes@.take(k + 1) == self.codes@.take(k as int).push(self.codes[k as int]));
                lemma_encode_cells_push(self.codes@.take(k as int), self.codes[k as int]);
                lemma_encode_cells_len(self.codes@, k + 1);
            }
            let ghost before = buffer@;
            code.write_at(buffer, i);
            assert(buffer@ =~= encode_cells(self.codes@.take(k + 1)) + old(buffer)@.skip(
                i + code_len,
            )) by {
                assert(before.take(i as int) =~= encode_cells(self.codes@.take(k as int)));
                assert(before.skip(i + code_len) =~= old(buffer)@.skip(i + code_len));
            }
            i += code_len;
            k += 1;
        }
        Ok(storage_size)
    }

    /// Reads cells from `buffer` until it is used up and stores them in key
    /// order; keys that the buffer has no cell for keep the default behavior.
    /// The first cell that does not decode ends the reading with its error,
    /// and a buffer that holds more cells than there are keys is
    /// `InvalidFormat`.
    pub fn deserialize_from(buffer: &[u8]) -> (r: Result<Self, SerializationError>)
        ensures
            match decode_layer(buffer@, N as nat) {
                Ok(cells) => r matches Ok(storage) && storage.codes@ == cells,
                Err(e) => r matches Err(err) && err == e,
            },
    {
        let mut codes = Self::default();
        let mut buf_i: usize = 0;
        let mut code_i: usize = 0;
        proof {
            assert(buffer@.skip(0) == buffer@);
            let all = decode_cells(buffer@);
            if all is Ok {
                assert(codes.codes@.take(0) + all->Ok_0 == all->Ok_0);
            }
        }
        while buf_i < buffer.len()
            invariant
                buf_i <= buffer@.len(),
                code_i <= N,
                leading_cells(buffer@) == code_i + leading_cells(buffer@.skip(buf_i as int)),
                decode_cells(buffer@) == prepend_cells(
                    codes.codes@.take(code_i as int),
                    decode_cells(buffer@.skip(buf_i as int)),
                ),
                forall|j: int| code_i <= j < N ==> codes.codes[j] == ScanCodeBehavior::spec_default(),
            decreases buffer@.len() - buf_i,
        {
            let rest = slice_subrange(buffer, buf_i, buffer.len());
            let code = match ScanCodeBehavior::deserialize_from(rest) {
                Ok(code) => code,
                Err(e) => {
                    return Err(e);
                },
            };
            if code_i == N {
                return Err(SerializationError::InvalidFormat);
            }
            let ghost before = codes.codes@;
            codes.codes[code_i] = code;
            proof {
                let tail = decode_cells(rest@.skip(code.encoded_len() as int));
                assert(rest@.skip(code.encoded_len() as int) == buffer@.skip(
                    buf_i + code.encoded_len(),
                ));
                assert(codes.codes@.take(code_i + 1) == before.take(code_i as int).push(code));
                if tail is Ok {
                    assert(before.take(code_i as int) + (seq![code] + tail->Ok_0)
                        == before.take(code_i as int).push(code) + tail->Ok_0);
                }
            }
            buf_i += code.into_buffer_len();
            code_i += 1;
        }
        proof {
            assert(buffer@.skip(buf_i as int).len() == 0);
            let cells = codes.codes@.take(code_i as int);
            assert(cells + Seq::<ScanCodeBehavior>::empty() == cells);
            assert(codes.codes@ =~= cells + default_cells((N - cells.len()) as nat));
        }
        Ok(codes)
    }
}

} // verus!
