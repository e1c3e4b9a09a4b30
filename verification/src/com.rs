use crate::codes::{HidScanCodeType, SerializationError};
use crate::{IS_SPLIT, NUM_CONFIGS, NUM_KEYS, NUM_LAYERS};
use vstd::prelude::*;

verus! {

/// Number of bytes in one frame of the transport.
pub const BUFFER_SIZE: usize = 32;

/// The bytes of a row of frames, frame after frame.
pub open spec fn frames_bytes(frames: Seq<[u8; BUFFER_SIZE]>) -> Seq<u8>
    decreases frames.len(),
{
    if frames.len() == 0 {
        Seq::empty()
    } else {
        frames_bytes(frames.drop_last()) + frames.last()@
    }
}

/// Cuts a stream of bytes into the frames of the transport.
#[derive(Clone, Copy, Debug)]
pub struct ContiniousWriter {
    index: usize,
    buffer: [u8; BUFFER_SIZE],
}

impl ContiniousWriter {
    pub closed spec fn wf(&self) -> bool {
        self.index < BUFFER_SIZE
    }

    /// The bytes that were written but do not fill a frame yet.
    pub closed spec fn pending(&self) -> Seq<u8> {
        self.buffer@.take(self.index as int)
    }

    /// The frame that a flush sends: the pending bytes, then zeros.
    pub open spec fn padded(&self) -> Seq<u8> {
        self.pending() + Seq::new((BUFFER_SIZE - self.pending().len()) as nat, |i: int| 0u8)
    }

    pub fn new() -> (writer: Self)
        ensures
            writer.wf(),
            writer.pending() == Seq::<u8>::empty(),
    {
        let writer = ContiniousWriter { index: 0, buffer: [0;BUFFER_SIZE] };
        assert(writer.pending() =~= Seq::<u8>::empty());
        writer
    }

    /// Appends `buf` to the stream. Every frame that fills up is added to
    /// `frames`, to be sent in that order; what is left waits for more.
    pub fn write(&mut self, buf: &[u8], frames: &mut Vec<[u8; BUFFER_SIZE]>)
        requires
            old(self).wf(),
        ensures
            final(self).wf(),
            final(frames)@.len() >= old(frames)@.len(),
            final(frames)@.take(old(frames)@.len() as int) == old(frames)@,
            frames_bytes(final(frames)@) + final(self).pending() == frames_bytes(old(frames)@)
                + old(self).pending() + buf@,
    {
        let mut buf_index: usize = 0;
        assert(buf@.take(0) =~= Seq::<u8>::empty());
        assert(frames_bytes(frames@) + self.pending() + Seq::<u8>::empty() =~= frames_bytes(
            frames@,
        ) + self.pending());
        while buf_index < buf.len()
            invariant
                buf_index <= buf@.len(),
                self.wf(),
                frames@.len() >= old(frames)@.len(),
                frames@.take(old(frames)@.len() as int) == old(frames)@,
                frames_bytes(frames@) + self.pending() == frames_bytes(old(frames)@) + old(
                    self,
                ).pending() + buf@.take(buf_index as int),
            decreases buf@.len() - buf_index,
        {
            let ghost before = self.pending();
            let ghost sent = frames@;
            self.buffer[self.index] = buf[buf_index];
            self.index += 1;
            assert(self.buffer@.take(self.index as int) =~= before.push(buf@[buf_index as int]));
            assert(buf@.take(buf_index + 1) =~= buf@.take(buf_index as int).push(
                buf@[buf_index as int],
            ));
            if self.index == BUFFER_SIZE {
                frames.push(self.buffer);
                self.index = 0;
                proof {
                    assert(frames@.drop_last() == sent);
                    assert(frames@.last()@ =~= before.push(buf@[buf_index as int]));
                    assert(self.pending() =~= Seq::<u8>::empty());
                    assert(frames@.take(old(frames)@.len() as int) =~= old(frames)@);
                    assert(frames_bytes(frames@) + self.pending() =~= frames_bytes(sent) + (
                    before.push(buf@[buf_index as int])));
                }
            }
            assert(frames_bytes(frames@) + self.pending() =~= frames_bytes(old(frames)@) + old(
                self,
            ).pending() + buf@.take(buf_index + 1)) by {
                assert(frames_bytes(sent) + before.push(buf@[buf_index as int]) =~= (frames_bytes(
                    sent,
                ) + before).push(buf@[buf_index as int]));
            }
            buf_index += 1;
        }
        assert(buf@.take(buf_index as int) =~= buf@);
    }

    /// Sends what waits: if any bytes are pending, they are padded with zeros
    /// to a frame that is added to `frames`.
    pub fn flush(&mut self, frames: &mut Vec<[u8; BUFFER_SIZE]>)
        requires
            old(self).wf(),
        ensures
            final(self).wf(),
            final(self).pending() == Seq::<u8>::empty(),
            old(self).pending().len() == 0 ==> final(frames)@ == old(frames)@,
            old(self).pending().len() > 0 ==> final(frames)@.len() == old(frames)@.len() + 1
                && final(frames)@.drop_last() == old(frames)@ && final(frames)@.last()@ == old(
                self,
            ).padded(),
    {
        if self.index != 0 {
            let mut i: usize = self.index;
            while i < BUFFER_SIZE
                invariant
                    self.index <= i <= BUFFER_SIZE,
                    self.index == old(self).index,
                    self.buffer@.take(self.index as int) == old(self).buffer@.take(
                        self.index as int,
                    ),
                    forall|j: int| self.index <= j < i ==> self.buffer[j] == 0,
                decreases BUFFER_SIZE - i,
            {
                let ghost before = self.buffer@;
                self.buffer[i] = 0;
                assert(self.buffer@.take(self.index as int) =~= before.take(self.index as int));
                i += 1;
            }
            frames.push(self.buffer);
            self.index = 0;
            assert(frames@.drop_last() =~= old(frames)@);
            assert(frames@.last()@ =~= old(self).padded());
        }
        assert(self.pending() =~= Seq::<u8>::empty());
    }
}

/// Hands out the bytes of a stream that arrives in frames.
#[derive(Clone, Copy, Debug)]
pub struct ContiniousReader {
    index: usize,
    buffer_len: usize,
    buffer: [u8; BUFFER_SIZE],
}

impl ContiniousReader {
    pub closed spec fn wf(&self) -> bool {
        self.index <= self.buffer_len <= BUFFER_SIZE
    }

    /// The bytes of the current frame that were not handed out yet.
    pub closed spec fn remaining(&self) -> Seq<u8> {
        self.buffer@.subrange(self.index as int, self.buffer_len as int)
    }

    pub fn new() -> (reader: Self)
        ensures
            reader.wf(),
            reader.remaining() == Seq::<u8>::empty(),
    {
        let reader = ContiniousReader { index: 0, buffer_len: 0, buffer: [0u8;BUFFER_SIZE] };
        assert(reader.remaining() =~= Seq::<u8>::empty());
        reader
    }

    /// Drops what is left of the current frame.
    pub fn flush(&mut self)
        ensures
            final(self).wf(),
            final(self).remaining() == Seq::<u8>::empty(),
    {
        self.index = 0;
        self.buffer_len = 0;
        assert(self.remaining() =~= Seq::<u8>::empty());
    }

    /// Whether the next byte has to come from a frame that was not read yet.
    pub fn needs_frame(&self) -> (needed: bool)
        requires
            self.wf(),
        ensures
            needed == (self.remaining().len() == 0),
    {
        self.index == self.buffer_len
    }

    /// Takes in the next frame, of which the transport read `len` bytes.
    pub fn feed(&mut self, frame: [u8; BUFFER_SIZE], len: usize)
        requires
            old(self).wf(),
            old(self).remaining().len() == 0,
            len <= BUFFER_SIZE,
        ensures
            final(self).wf(),
            final(self).remaining() == frame@.take(len as int),
    {
        self.buffer = frame;
        self.buffer_len = len;
        self.index = 0;
        assert(self.remaining() =~= frame@.take(len as int));
    }

    /// The next byte of the stream.
    pub fn pop(&mut self) -> (byte: u8)
        requires
            old(self).wf(),
            old(self).remaining().len() > 0,
        ensures
            final(self).wf(),
            byte == old(self).remaining()[0],
            final(self).remaining() == old(self).remaining().skip(1),
    {
        let val = self.buffer[self.index];
        self.index += 1;
        assert(self.remaining() =~= old(self).remaining().skip(1));
        val
    }

    /// Moves bytes of the stream into `buf` from `from` on: as many as the
    /// current frame still holds and `buf` has room for. Returns where in
    /// `buf` the next byte goes; the caller feeds a frame and calls again
    /// until that is the end of `buf`.
    pub fn pop_slice(&mut self, buf: &mut [u8], from: usize) -> (filled: usize)
        requires
            old(self).wf(),
            from <= old(buf)@.len(),
        ensures
            final(self).wf(),
            from <= filled <= old(buf)@.len(),
            filled - from == if old(self).remaining().len() < old(buf)@.len() - from {
                old(self).remaining().len() as int
            } else {
                old(buf)@.len() - from
            },
            final(buf)@ == old(buf)@.take(from as int) + old(self).remaining().take(
                filled - from,
            ) + old(buf)@.skip(filled as int),
            final(self).remaining() == old(self).remaining().skip(filled - from),
    {
        let mut buf_index: usize = from;
        assert(buf@ =~= old(buf)@.take(from as int) + old(self).remaining().take(0) + old(
            buf,
        )@.skip(from as int));
        assert(self.remaining().skip(0) =~= self.remaining());
        while buf_index < buf.len() && self.index < self.buffer_len
            invariant
                self.wf(),
                from <= buf_index <= buf@.len(),
                buf@.len() == old(buf)@.len(),
                self.buffer == old(self).buffer,
                self.buffer_len == old(self).buffer_len,
                self.index - old(self).index == buf_index - from,
                buf@ == old(buf)@.take(from as int) + old(self).remaining().take(buf_index - from)
                    + old(buf)@.skip(buf_index as int),
                self.remaining() == old(self).remaining().skip(buf_index - from),
            decreases buf@.len() - buf_index,
        {
            let ghost before = buf@;
            buf[buf_index] = self.buffer[self.index];
            self.index += 1;
            assert(buf@ =~= old(buf)@.take(from as int) + old(self).remaining().take(
                buf_index + 1 - from,
            ) + old(buf)@.skip(buf_index + 1));
            assert(self.remaining() =~= old(self).remaining().skip(buf_index + 1 - from));
            buf_index += 1;
        }
        buf_index
    }
}

/// What the host asks of the keyboard over the byte stream.
#[derive(Clone, Copy, Debug, PartialEq, Eq, Structural)]
pub enum HidRequest {
    /// The host sends a profile number and the key map to make active.
    UpdateKeys,
    /// The keyboard sends the key maps of all profiles.
    KeyboardInfo,
    /// The host sends the key maps of all profiles, to be stored.
    WriteToFlash,
    /// The keyboard sends how many profiles, keys and layers it has.
    KeyboardMetaInfo,
}

impl HidRequest {
    /// The request a byte names, if it names one.
    pub open spec fn of_number(value: u8) -> Option<HidRequest> {
        if value == 0 {
            Some(HidRequest::UpdateKeys)
        } else if value == 1 {
            Some(HidRequest::KeyboardInfo)
        } else if value == 2 {
            Some(HidRequest::WriteToFlash)
        } else if value == 3 {
            Some(HidRequest::KeyboardMetaInfo)
        } else {
            None
        }
    }

    pub fn from_u8(value: u8) -> (request: Option<HidRequest>)
        ensures
            request == HidRequest::of_number(value),
    {
        match value {
            0 => Some(HidRequest::UpdateKeys),
            1 => Some(HidRequest::KeyboardInfo),
            2 => Some(HidRequest::WriteToFlash),
            3 => Some(HidRequest::KeyboardMetaInfo),
            _ => None,
        }
    }
}

/// The record that answers `KeyboardMetaInfo`: number of profiles, of keys,
/// of layers, and whether the keyboard is split.
pub fn keyboard_meta_info() -> (info: [u8; 4])
    ensures
        info@ == seq![NUM_CONFIGS as u8, NUM_KEYS as u8, NUM_LAYERS as u8, IS_SPLIT as u8],
{
    let info = [NUM_CONFIGS as u8, NUM_KEYS as u8, NUM_LAYERS as u8, IS_SPLIT as u8];
    assert(info@ =~= seq![NUM_CONFIGS as u8, NUM_KEYS as u8, NUM_LAYERS as u8, IS_SPLIT as u8]);
    info
}

/// The profile that is loaded from the store when a key map sent by the host
/// did not decode.
pub const FALLBACK_PROFILE: usize = 0;

/// What follows an `UpdateKeys` request: nothing more when the key map was
/// taken, and a load of the fallback profile from the store when it did not
/// decode.
pub fn upload_fallback(loaded: Result<(), SerializationError>) -> (reload: Option<usize>)
    ensures
        reload == match loaded {
            Ok(_) => None::<usize>,
            Err(_) => Some(FALLBACK_PROFILE),
        },
{
    match loaded {
        Ok(_) => None,
        Err(_) => Some(FALLBACK_PROFILE),
    }
}

/// Where the key map of a profile is taken from, or put, when the host
/// asks for all profiles.
#[derive(Clone, Copy, Debug, PartialEq, Eq, Structural)]
pub enum KeySource {
    /// The key map in use: the profile is the active one.
    Live,
    /// The record of the profile in the store.
    Stored,
}

/// The active profile is served from the key map in use, every other one
/// from the store.
pub fn key_source(active: usize, config_num: usize) -> (source: KeySource)
    ensures
        source == if active == config_num {
            KeySource::Live
        } else {
            KeySource::Stored
        },
{
    if active == config_num {
        KeySource::Live
    } else {
        KeySource::Stored
    }
}

/// How many more bytes of the stream belong to the cell of which `cell`
/// holds the bytes read so far: the tag if nothing was read, else what the
/// tag asks for. A tag that names no behavior ends the reading.
pub fn cell_bytes_wanted(cell: &[u8]) -> (wanted: Result<usize, SerializationError>)
    ensures
        cell@.len() == 0 ==> wanted == Ok::<usize, SerializationError>(1),
        cell@.len() > 0 ==> match HidScanCodeType::of_tag(cell@[0]) {
            Some(kind) => wanted == Ok::<usize, SerializationError>(
                if kind.len() >= cell@.len() {
                    (kind.len() - cell@.len()) as usize
                } else {
                    0
                },
            ),
            None => wanted == Err::<usize, SerializationError>(SerializationError::InvalidFormat),
        },
{
    if cell.len() == 0 {
        return Ok(1);
    }
    match HidScanCodeType::try_from_primitive(cell[0]) {
        Ok(kind) => {
            let len = kind.get_len();
            if len >= cell.len() {
                Ok(len - cell.len())
            } else {
                Ok(0)
            }
        },
        Err(_) => Err(SerializationError::InvalidFormat),
    }
}

} // verus!
