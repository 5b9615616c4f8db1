//! The song-memory container: a fixed 32768-byte image and its structural
//! validity check.

use vstd::prelude::*;
use vstd::slice::slice_to_vec;

use crate::instrument::Instruments;

verus! {

/// The number of bytes taken up by a single song image.
pub const SONG_MEMORY_LEN: usize = 0x8000;

/// The offset of the format-version byte inside the image.
pub const FORMAT_VERSION_OFFSET: usize = 0x7FFF;

/// A contiguous block of memory that represents unparsed song data.
#[derive(Debug, PartialEq, Eq)]
pub struct SongMemory {
    /// The bytes that make up the song.
    bytes: Vec<u8>,
}

/// Errors that might be returned from [`SongMemory::from_bytes`].
#[derive(Debug, PartialEq, Eq, Structural)]
pub enum FromBytesError {
    /// The passed-in number of bytes isn't correct.
    IncorrectSize,
    /// Correctly initialized song memory has certain bytes set for
    /// verification against memory corruption; they were faulty.
    InitializationCheckIncorrect,
}

/// Whether a two-byte initialization marker stands at `offset` of `bytes`.
pub open spec fn spec_check_marker(bytes: Seq<u8>, offset: int) -> bool {
    bytes[offset] == 0x72 && bytes[offset + 1] == 0x62
}

/// Whether `bytes` form a structurally valid song image: exactly
/// `SONG_MEMORY_LEN` bytes with at least one initialization marker in place.
pub open spec fn spec_valid_image(bytes: Seq<u8>) -> bool {
    &&& bytes.len() == SONG_MEMORY_LEN
    &&& {
        ||| spec_check_marker(bytes, 0x1E78)
        ||| spec_check_marker(bytes, 0x3E80)
        ||| spec_check_marker(bytes, 0x7FF0)
    }
}

/// The format-version byte of an image.
pub open spec fn spec_format_version(bytes: Seq<u8>) -> u8 {
    bytes[FORMAT_VERSION_OFFSET as int]
}

/// The blank image of [`SongMemory::new`]: all zero, except one
/// initialization marker and the current format version.
pub open spec fn spec_blank_image() -> Seq<u8> {
    Seq::new(SONG_MEMORY_LEN as nat, |i: int| 0u8).update(0x7FF0, 0x72).update(
        0x7FF1,
        0x62,
    ).update(FORMAT_VERSION_OFFSET as int, 0x16)
}

impl View for SongMemory {
    type V = Seq<u8>;

    closed spec fn view(&self) -> Seq<u8> {
        self.bytes@
    }
}

impl SongMemory {
    /// A song memory is well-formed when it holds exactly `SONG_MEMORY_LEN`
    /// bytes.
    pub open spec fn wf(&self) -> bool {
        self@.len() == SONG_MEMORY_LEN
    }

    /// Construct a blank song, ready for use: a zeroed image with the
    /// initialization marker and the current format version set, and no
    /// instrument slot allocated.
    pub fn new() -> (r: Self)
        ensures
            r@ == spec_blank_image(),
            r.wf(),
            spec_valid_image(r@),
            spec_format_version(r@) == 0x16,
            forall|i: int|
                0 <= i < crate::instrument::INSTRUMENT_COUNT ==> !crate::instrument::spec_allocated(
                    r@,
                    i,
                ),
    {
        let mut bytes: Vec<u8> = Vec::new();
        let mut i: usize = 0;
        while i < SONG_MEMORY_LEN
            invariant
                i <= SONG_MEMORY_LEN,
                bytes@.len() == i,
                forall|k: int| 0 <= k < i ==> bytes@[k] == 0u8,
            decreases SONG_MEMORY_LEN - i,
        {
            bytes.push(0);
            i += 1;
        }
        bytes.set(0x7FF0, 0x72);
        bytes.set(0x7FF1, 0x62);
        bytes.set(FORMAT_VERSION_OFFSET, 0x16);
        proof {
            assert(bytes@ =~= spec_blank_image());
        }
        Self { bytes }
    }

    /// Deserialize a `SongMemory` from bytes, checking the length and the
    /// initialization markers.
    pub fn from_bytes(bytes: &[u8]) -> (r: Result<Self, FromBytesError>)
        ensures
            r is Ok <==> spec_valid_image(bytes@),
            r matches Ok(song) ==> song@ == bytes@ && song.wf(),
            r matches Err(e) ==> e == (if bytes@.len() != SONG_MEMORY_LEN {
                FromBytesError::IncorrectSize
            } else {
                FromBytesError::InitializationCheckIncorrect
            }),
    {
        if bytes.len() != SONG_MEMORY_LEN {
            return Err(FromBytesError::IncorrectSize);
        }

        if Self::check_marker(bytes, 0x1E78) || Self::check_marker(bytes, 0x3E80)
            || Self::check_marker(bytes, 0x7FF0) {
            Ok(Self { bytes: slice_to_vec(bytes) })
        } else {
            Err(FromBytesError::InitializationCheckIncorrect)
        }
    }

    /// Whether the two-byte initialization marker stands at `offset`.
    fn check_marker(bytes: &[u8], offset: usize) -> (r: bool)
        requires
            offset + 1 < bytes@.len(),
        ensures
            r == spec_check_marker(bytes@, offset as int),
    {
        bytes[offset] == 0x72 && bytes[offset + 1] == 0x62
    }

    /// The version of the format the song is encoded in.
    pub fn format_version(&self) -> (r: u8)
        requires
            self.wf(),
        ensures
            r == spec_format_version(self@),
    {
        self.bytes[FORMAT_VERSION_OFFSET]
    }

    /// Access the bytes that make up the song.
    pub fn as_slice(&self) -> (r: &[u8])
        ensures
            r@ == self@,
    {
        self.bytes.as_slice()
    }

    /// Read one byte of the song.
    pub fn byte(&self, index: usize) -> (r: u8)
        requires
            index < self@.len(),
        ensures
            r == self@[index as int],
    {
        self.bytes[index]
    }

    /// Overwrite one byte of the song in place.
    pub fn set_byte(&mut self, index: usize, value: u8)
        requires
            index < old(self)@.len(),
        ensures
            final(self)@ == old(self)@.update(index as int, value),
            final(self).wf() == old(self).wf(),
    {
        self.bytes.set(index, value);
    }

    /// Enumerate the allocated instruments of this song, in ascending slot
    /// order.
    pub fn instruments<'a>(&'a self) -> (r: Instruments<'a>)
        requires
            self.wf(),
        ensures
            r.wf(),
            r.spec_song() == self,
            r.spec_index() == 0,
    {
        Instruments::new(self)
    }
}

impl Default for SongMemory {
    /// The default song is the blank song of [`SongMemory::new`].
    fn default() -> (r: Self)
        ensures
            r@ == spec_blank_image(),
            r.wf(),
            spec_valid_image(r@),
            spec_format_version(r@) == 0x16,
    {
        Self::new()
    }
}

} // verus!
