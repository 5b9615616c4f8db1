//! Instrument decoding: the bit-field accessor, the allocation table, the
//! per-slot decoder and the enumeration of all allocated instruments.

use vstd::prelude::*;

use crate::name::Name;
use crate::song::SongMemory;

verus! {

/// The beginning address within a song of the first instrument name.
pub const INSTRUMENT_NAMES_OFFSET: usize = 0x1E7A;

/// The beginning address within a song of the instrument allocation table.
pub const INSTRUMENT_ALLOCATION_TABLE_OFFSET: usize = 0x2040;

/// The beginning address within a song of the first instrument parameter set.
pub const INSTRUMENT_PARAMS_OFFSET: usize = 0x3080;

/// The number of instrument slots in a song.
pub const INSTRUMENT_COUNT: usize = 0x40;

/// The number of parameter bytes an instrument takes.
pub const INSTRUMENT_BYTE_COUNT: usize = 16;

/// The number of bytes an instrument name takes.
pub const INSTRUMENT_NAME_LENGTH: usize = 5;

/// A mask of `count` contiguous one-bits, right-aligned.
pub open spec fn spec_mask(count: u8) -> u8 {
    (((1u16 << (count as u16)) - 1) as u8)
}

/// The raw byte `byte` with everything but the `count` bits starting at
/// `position` masked away, still in place.
pub open spec fn spec_bits_in_place(byte: u8, position: u8, count: u8) -> u8 {
    byte & (spec_mask(count) << position)
}

/// The value of the `count`-bit field of `byte` starting at bit `position`,
/// right-aligned.
pub open spec fn spec_field(byte: u8, position: u8, count: u8) -> u8 {
    spec_bits_in_place(byte, position, count) >> position
}

/// The parameter byte `byte_idx` of instrument `instrument_idx` in image
/// `img`.
pub open spec fn spec_param_byte(img: Seq<u8>, instrument_idx: int, byte_idx: int) -> u8 {
    img[INSTRUMENT_PARAMS_OFFSET + instrument_idx * INSTRUMENT_BYTE_COUNT + byte_idx]
}

/// The right-aligned bit-field of one parameter byte of one instrument: the
/// single primitive every kind decoder composes.
pub open spec fn spec_instrument_bits(
    img: Seq<u8>,
    instrument_idx: int,
    byte_idx: int,
    position: u8,
    count: u8,
) -> u8 {
    spec_field(spec_param_byte(img, instrument_idx, byte_idx), position, count)
}

/// Whether instrument slot `instrument_idx` is allocated in image `img`.
pub open spec fn spec_allocated(img: Seq<u8>, instrument_idx: int) -> bool {
    img[INSTRUMENT_ALLOCATION_TABLE_OFFSET + instrument_idx] != 0
}

/// Build a mask of `count` contiguous one-bits, right-aligned.
fn create_mask(count: u8) -> (r: u8)
    requires
        count <= 8,
    ensures
        r == spec_mask(count),
{
    assert((1u16 << (count as u16)) >= 1) by (bit_vector)
        requires
            (count as u16) <= 8u16,
    ;
    ((1u16 << (count as u16)) - 1) as u8
}

/// Mask `byte` down to the `count` bits starting at `position`, in place.
fn get_bits(byte: u8, position: u8, count: u8) -> (r: u8)
    requires
        position < 8,
        count <= 8,
    ensures
        r == spec_bits_in_place(byte, position, count),
{
    byte & (create_mask(count) << position)
}

/// Address the parameter byte `byte_idx` of instrument `instrument_idx` and
/// extract the `count`-bit field starting at bit `position`, right-aligned.
///
/// The result always lies below `2^count`.
pub fn get_instrument_bits(
    song: &SongMemory,
    instrument_idx: usize,
    byte_idx: usize,
    position: u8,
    count: u8,
) -> (r: u8)
    requires
        song.wf(),
        instrument_idx < INSTRUMENT_COUNT,
        byte_idx < INSTRUMENT_BYTE_COUNT,
        position < 8,
        1 <= count,
        position + count <= 8,
    ensures
        r == spec_instrument_bits(song@, instrument_idx as int, byte_idx as int, position, count),
        (r as u16) < (1u16 << (count as u16)),
{
    let index: usize = instrument_idx * INSTRUMENT_BYTE_COUNT + byte_idx;
    assert(index < 1024);
    let offset: usize = INSTRUMENT_PARAMS_OFFSET + index;

    let byte = song.byte(offset);
    let r = get_bits(byte, position, count) >> position;
    proof {
        let m = spec_mask(count);
        assert((((byte & (m << position)) >> position) as u16) < (1u16 << (count as u16)))
            by (bit_vector)
            requires
                m == (((1u16 << (count as u16)) - 1) as u8),
                position < 8,
                1 <= count,
                position + count <= 8,
        ;
    }
    r
}

/// The five name bytes of instrument `i` in image `img`.
pub open spec fn spec_name_bytes(img: Seq<u8>, i: int) -> Seq<u8> {
    img.subrange(
        INSTRUMENT_NAMES_OFFSET + i * INSTRUMENT_NAME_LENGTH,
        INSTRUMENT_NAMES_OFFSET + i * INSTRUMENT_NAME_LENGTH + INSTRUMENT_NAME_LENGTH,
    )
}

/// The kind discriminant of instrument `i`: the full byte 0 of its record.
pub open spec fn spec_kind_raw(img: Seq<u8>, i: int) -> u8 {
    spec_instrument_bits(img, i, 0, 0, 8)
}

/// The kind payload of instrument `i`, meaningful when the discriminant
/// lies in the closed set {0, 1, 2, 3}.
pub open spec fn spec_kind(img: Seq<u8>, i: int) -> Kind {
    let raw = spec_kind_raw(img, i);
    if raw == 0 {
        Kind::Pulse(crate::pulse::spec_pulse(img, i))
    } else if raw == 1 {
        Kind::Wave(crate::wave::spec_wave(img, i))
    } else if raw == 2 {
        Kind::Kit
    } else {
        Kind::Noise(crate::noise::spec_noise(img, i))
    }
}

/// Whether decoding instrument `i` succeeds: its name bytes are valid and
/// its kind discriminant lies in the closed set.
pub open spec fn spec_decode_ok(img: Seq<u8>, i: int) -> bool {
    &&& crate::name::spec_valid_name(spec_name_bytes(img, i))
    &&& spec_kind_raw(img, i) <= 3
}

/// Whether `inst` is the instrument that decoding slot `i` of `img` yields.
pub open spec fn spec_instrument_matches(img: Seq<u8>, i: int, inst: Instrument) -> bool {
    &&& inst.spec_index() == i
    &&& inst.spec_name()@ == spec_name_bytes(img, i)
    &&& inst.spec_kind() == spec_kind(img, i)
}

/// Whether `e` is the failure that decoding slot `i` of `img` yields: a
/// name failure carrying the slot index and the raw bytes, or else an
/// unknown-kind failure carrying the slot index and the raw discriminant.
pub open spec fn spec_error_matches(img: Seq<u8>, i: int, e: FromBytesError) -> bool {
    if !crate::name::spec_valid_name(spec_name_bytes(img, i)) {
        e matches FromBytesError::Name { error, index, bytes }
            && index == i
            && bytes@ == spec_name_bytes(img, i)
            && crate::name::spec_name_error_matches(spec_name_bytes(img, i), error)
    } else {
        e matches FromBytesError::InstrumentKind { index, kind }
            && index == i
            && kind == spec_kind_raw(img, i)
            && kind > 3
    }
}

/// Whether `r` is the exact outcome of decoding slot `i` of `img`.
pub open spec fn spec_decode_result_matches(
    img: Seq<u8>,
    i: int,
    r: Result<Instrument, FromBytesError>,
) -> bool {
    &&& r is Ok <==> spec_decode_ok(img, i)
    &&& (r matches Ok(inst) ==> spec_instrument_matches(img, i, inst))
    &&& (r matches Err(e) ==> spec_error_matches(img, i, e))
}

/// Errors that might be returned when decoding one instrument.
#[derive(Debug, PartialEq, Eq)]
pub enum FromBytesError {
    /// The instrument's name bytes did not decode; carries the slot index
    /// and the raw bytes.
    Name { error: crate::name::FromBytesError, index: usize, bytes: Vec<u8> },
    /// The kind discriminant lay outside the closed set; carries the slot
    /// index and the raw value.
    InstrumentKind { index: usize, kind: u8 },
    /// The slot is a Pulse instrument whose inner data was invalid.
    Pulse { error: crate::pulse::FromBytesError, index: usize },
    /// The slot is a Wave instrument whose inner data was invalid.
    Wave { error: crate::wave::FromBytesError, index: usize },
    /// The slot is a Noise instrument whose inner data was invalid.
    Noise { error: crate::noise::FromBytesError, index: usize },
}

/// One decoded instrument: a validated name, a kind payload and the slot
/// index it was read from.
#[derive(Debug)]
pub struct Instrument {
    name: Name,
    kind: Kind,
    index: usize,
}

/// The sound-generation category of an instrument, with its decoded
/// payload.  Kit configuration lives outside the instrument record, so the
/// Kit variant carries none.
#[derive(Debug, Clone, Copy, PartialEq, Eq)]
pub enum Kind {
    Pulse(crate::pulse::Pulse),
    Wave(crate::wave::Wave),
    Kit,
    Noise(crate::noise::Noise),
}

impl Instrument {
    /// The validated name of this instrument.
    pub closed spec fn spec_name(&self) -> Name {
        self.name
    }

    /// The slot index this instrument was decoded from.
    pub closed spec fn spec_index(&self) -> usize {
        self.index
    }

    /// The kind payload of this instrument.
    pub closed spec fn spec_kind(&self) -> Kind {
        self.kind
    }

    /// Decode the instrument at slot `index`: its name, then its kind
    /// discriminant, then the matching kind payload.
    pub fn from_bytes(song: &SongMemory, index: usize) -> (r: Result<
        Instrument,
        FromBytesError,
    >)
        requires
            song.wf(),
            index < INSTRUMENT_COUNT,
        ensures
            spec_decode_result_matches(song@, index as int, r),
    {
        let name_offset: usize = index * INSTRUMENT_NAME_LENGTH + INSTRUMENT_NAMES_OFFSET;
        let mut name_bytes: Vec<u8> = Vec::new();
        let mut k: usize = 0;
        while k < INSTRUMENT_NAME_LENGTH
            invariant
                k <= INSTRUMENT_NAME_LENGTH,
                song.wf(),
                index < INSTRUMENT_COUNT,
                name_offset == index * INSTRUMENT_NAME_LENGTH + INSTRUMENT_NAMES_OFFSET,
                name_bytes@ == song@.subrange(name_offset as int, name_offset + k),
            decreases INSTRUMENT_NAME_LENGTH - k,
        {
            name_bytes.push(song.byte(name_offset + k));
            proof {
                assert(name_bytes@ =~= song@.subrange(
                    name_offset as int,
                    name_offset + (k + 1),
                ));
            }
            k += 1;
        }
        assert(name_bytes@ == spec_name_bytes(song@, index as int));

        let name = match Name::from_bytes(&name_bytes) {
            Ok(name) => name,
            Err(error) => {
                return Err(FromBytesError::Name { error, index, bytes: name_bytes });
            },
        };
        let kind = match get_instrument_kind(song, index) {
            Ok(kind) => kind,
            Err(e) => { return Err(e) },
        };

        Ok(Instrument { name, kind, index })
    }

    /// The name of this instrument.
    pub fn name(&self) -> (r: &Name)
        ensures
            *r == self.spec_name(),
    {
        &self.name
    }

    /// The slot index of this instrument.
    pub fn index(&self) -> (r: usize)
        ensures
            r == self.spec_index(),
    {
        self.index
    }

    /// The kind payload of this instrument.
    pub fn kind(&self) -> (r: &Kind)
        ensures
            *r == self.spec_kind(),
    {
        &self.kind
    }
}

/// Read the kind discriminant of instrument `index` and decode the matching
/// payload; a discriminant outside the closed set fails, carrying the slot
/// index and the raw value.
fn get_instrument_kind(song: &SongMemory, index: usize) -> (r: Result<Kind, FromBytesError>)
    requires
        song.wf(),
        index < INSTRUMENT_COUNT,
    ensures
        r is Ok <==> spec_kind_raw(song@, index as int) <= 3,
        r matches Ok(kind) ==> kind == spec_kind(song@, index as int),
        r matches Err(e) ==> e == (FromBytesError::InstrumentKind {
            index,
            kind: spec_kind_raw(song@, index as int),
        }),
{
    let data = get_instrument_bits(song, index, 0, 0, 8);

    match data {
        0 => match crate::pulse::Pulse::from_bytes(song, index) {
            Ok(pulse) => Ok(Kind::Pulse(pulse)),
            Err(error) => Err(FromBytesError::Pulse { error, index }),
        },
        1 => match crate::wave::Wave::from_bytes(song, index) {
            Ok(wave) => Ok(Kind::Wave(wave)),
            Err(error) => Err(FromBytesError::Wave { error, index }),
        },
        2 => Ok(Kind::Kit),
        3 => match crate::noise::Noise::from_bytes(song, index) {
            Ok(noise) => Ok(Kind::Noise(noise)),
            Err(error) => Err(FromBytesError::Noise { error, index }),
        },
        kind => Err(FromBytesError::InstrumentKind { index, kind }),
    }
}

/// A cursor over the allocated instruments of one song, yielding one decode
/// outcome per allocated slot in ascending index order.
pub struct Instruments<'a> {
    index: usize,
    song: &'a SongMemory,
}

impl<'a> Instruments<'a> {
    /// The song this cursor walks.
    pub closed spec fn spec_song(&self) -> &'a SongMemory {
        self.song
    }

    /// The next slot index the cursor will look at.
    pub closed spec fn spec_index(&self) -> usize {
        self.index
    }

    /// The cursor stays within the instrument table of a well-formed song.
    pub open spec fn wf(&self) -> bool {
        self.spec_song().wf() && self.spec_index() <= INSTRUMENT_COUNT
    }

    /// Start a fresh pass over the allocated instruments of `song`.
    pub fn new(song: &'a SongMemory) -> (r: Self)
        requires
            song.wf(),
        ensures
            r.wf(),
            r.spec_song() == song,
            r.spec_index() == 0,
    {
        Self { song, index: 0 }
    }

    /// Yield the decode outcome of the next allocated slot at or after the
    /// cursor, advancing the cursor past it; `None` once no allocated slot
    /// is left.  Unallocated slots are skipped entirely.
    pub fn next(&mut self) -> (r: Option<Result<Instrument, FromBytesError>>)
        requires
            old(self).wf(),
        ensures
            final(self).wf(),
            final(self).spec_song() == old(self).spec_song(),
            match spec_next_allocated(old(self).spec_song()@, old(self).spec_index() as int) {
                None => r is None && final(self).spec_index() == INSTRUMENT_COUNT,
                Some(j) => {
                    &&& final(self).spec_index() == j + 1
                    &&& r matches Some(outcome) && spec_decode_result_matches(
                        old(self).spec_song()@,
                        j,
                        outcome,
                    )
                },
            },
    {
        while self.index < INSTRUMENT_COUNT
            invariant
                self.wf(),
                self.spec_song() == old(self).spec_song(),
                old(self).spec_index() <= self.spec_index(),
                spec_next_allocated(self.spec_song()@, old(self).spec_index() as int)
                    == spec_next_allocated(self.spec_song()@, self.spec_index() as int),
            decreases INSTRUMENT_COUNT - self.spec_index(),
        {
            if !is_instrument_allocated(self.song, self.index) {
                self.index += 1;
                continue;
            }

            let maybe_instrument = Instrument::from_bytes(self.song, self.index);

            self.index += 1;

            return Some(maybe_instrument);
        }

        None
    }
}

/// The smallest allocated slot index at or after `from`, if any.
pub open spec fn spec_next_allocated(img: Seq<u8>, from: int) -> Option<int>
    decreases INSTRUMENT_COUNT - from,
{
    if from >= INSTRUMENT_COUNT {
        None
    } else if spec_allocated(img, from) {
        Some(from)
    } else {
        spec_next_allocated(img, from + 1)
    }
}

/// The cursor yields the least allocated slot at or after its position:
/// every slot it skips is unallocated, and the slot it yields is allocated.
/// With the cursor advancing past each yielded slot, every allocated slot
/// is yielded exactly once, in ascending index order.
pub proof fn lemma_next_allocated_least(img: Seq<u8>, from: int)
    ensures
        match spec_next_allocated(img, from) {
            None => forall|k: int|
                from <= k < INSTRUMENT_COUNT ==> !spec_allocated(img, k),
            Some(j) => {
                &&& from <= j < INSTRUMENT_COUNT
                &&& spec_allocated(img, j)
                &&& forall|k: int| from <= k < j ==> !spec_allocated(img, k)
            },
        },
    decreases INSTRUMENT_COUNT - from,
{
    if from < INSTRUMENT_COUNT && !spec_allocated(img, from) {
        lemma_next_allocated_least(img, from + 1);
    }
}

/// An unallocated slot is never yielded: whatever the cursor position, the
/// next yielded slot index is never one whose allocation byte is zero.
pub proof fn lemma_unallocated_never_yielded(img: Seq<u8>, from: int, i: int)
    requires
        img[INSTRUMENT_ALLOCATION_TABLE_OFFSET + i] == 0,
    ensures
        spec_next_allocated(img, from) != Some(i),
{
    lemma_next_allocated_least(img, from);
}

/// An allocated slot at or after the cursor is always reached: the next
/// yielded slot index exists and lies no later than it.  Together with
/// [`lemma_next_allocated_least`] this pins the full pass: from cursor 0
/// each allocated slot is yielded exactly once, in ascending order.
pub proof fn lemma_allocated_is_yielded(img: Seq<u8>, from: int, i: int)
    requires
        from <= i < INSTRUMENT_COUNT,
        spec_allocated(img, i),
    ensures
        spec_next_allocated(img, from) matches Some(j) && from <= j <= i,
{
    lemma_next_allocated_least(img, from);
}

/// Decoding is deterministic: two decode outcomes of the same image at the
/// same slot agree structurally — both succeed or both fail, two decoded
/// instruments carry the same index, name and kind, and two failures are
/// the same failure.
pub proof fn lemma_decode_deterministic(
    img: Seq<u8>,
    i: int,
    r1: Result<Instrument, FromBytesError>,
    r2: Result<Instrument, FromBytesError>,
)
    requires
        spec_decode_result_matches(img, i, r1),
        spec_decode_result_matches(img, i, r2),
    ensures
        r1 is Ok <==> r2 is Ok,
        r1 matches Ok(a) ==> r2 matches Ok(b) ==> {
            &&& a.spec_index() == b.spec_index()
            &&& a.spec_name()@ == b.spec_name()@
            &&& a.spec_kind() == b.spec_kind()
        },
        r1 matches Err(a) ==> r2 matches Err(b) ==> spec_errors_agree(a, b),
{
}

/// Whether two decode failures are structurally identical (the raw bytes of
/// a name failure compared by contents).
pub open spec fn spec_errors_agree(a: FromBytesError, b: FromBytesError) -> bool {
    match (a, b) {
        (
            FromBytesError::Name { error: e1, index: i1, bytes: b1 },
            FromBytesError::Name { error: e2, index: i2, bytes: b2 },
        ) => e1 == e2 && i1 == i2 && b1@ == b2@,
        (
            FromBytesError::InstrumentKind { index: i1, kind: k1 },
            FromBytesError::InstrumentKind { index: i2, kind: k2 },
        ) => i1 == i2 && k1 == k2,
        _ => a == b,
    }
}

/// Whether instrument slot `instrument_idx` holds live data: its allocation
/// table byte is nonzero.
pub fn is_instrument_allocated(song: &SongMemory, instrument_idx: usize) -> (r: bool)
    requires
        song.wf(),
        instrument_idx < INSTRUMENT_COUNT,
    ensures
        r == spec_allocated(song@, instrument_idx as int),
{
    let index: usize = INSTRUMENT_ALLOCATION_TABLE_OFFSET + instrument_idx;
    song.byte(index) != 0
}

} // verus!
