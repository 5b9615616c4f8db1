//! The Noise instrument decoder: length, shape, stability and envelope,
//! all version-independent bit layouts.

use vstd::prelude::*;

use crate::instrument::{get_instrument_bits, spec_instrument_bits, INSTRUMENT_COUNT};
use crate::song::SongMemory;

verus! {

/// A decoded Noise instrument.
#[derive(Debug, Clone, Copy, PartialEq, Eq)]
pub struct Noise {
    pub length: NoiseLength,
    pub shape: u8,
    pub stability: NoiseStability,
    pub envelope: (u8, u8, u8),
}

/// How long a noise instrument plays.
#[derive(Debug, Clone, Copy, PartialEq, Eq, Structural)]
pub enum NoiseLength {
    Infinite,
    Finite(u8),
}

/// Whether the noise shape stays stable while playing.
#[derive(Debug, Clone, Copy, PartialEq, Eq, Structural)]
pub enum NoiseStability {
    Free,
    Stable,
}

/// Errors that might be returned from [`Noise::from_bytes`].
#[derive(Debug, PartialEq, Eq, Structural)]
pub enum FromBytesError {
    UnknownNoiseStability(u8),
}

/// The stability variant a raw discriminant decodes to, if any.
pub open spec fn spec_noise_stability(raw: u8) -> Option<NoiseStability> {
    if raw == 0 {
        Some(NoiseStability::Free)
    } else if raw == 1 {
        Some(NoiseStability::Stable)
    } else {
        None
    }
}

/// The raw stability discriminant of instrument `i`: byte 2, bit 0.
pub open spec fn spec_noise_stability_raw(img: Seq<u8>, i: int) -> u8 {
    spec_instrument_bits(img, i, 2, 0, 1)
}

/// The length setting of instrument `i`: byte 3 bit 6 selects infinite
/// (bit clear) against finite; a finite length is the complement of byte 3
/// bits [0..6), masked to 6 bits.
pub open spec fn spec_noise_length(img: Seq<u8>, i: int) -> NoiseLength {
    if spec_instrument_bits(img, i, 3, 6, 1) == 0 {
        NoiseLength::Infinite
    } else {
        NoiseLength::Finite(!spec_instrument_bits(img, i, 3, 0, 6) & 0x3F)
    }
}

/// The full Noise payload of instrument `i`.  The stability discriminant is
/// a one-bit field, so it always decodes.
pub open spec fn spec_noise(img: Seq<u8>, i: int) -> Noise {
    Noise {
        length: spec_noise_length(img, i),
        shape: spec_instrument_bits(img, i, 4, 0, 8),
        stability: spec_noise_stability(spec_noise_stability_raw(img, i))->Some_0,
        envelope: (
            spec_instrument_bits(img, i, 1, 0, 8),
            spec_instrument_bits(img, i, 9, 0, 8),
            spec_instrument_bits(img, i, 10, 0, 8),
        ),
    }
}

impl NoiseStability {
    /// Map a raw stability discriminant to its variant; values outside the
    /// closed set fail, carrying the offending value.
    pub fn from_raw(raw: u8) -> (r: Result<Self, FromBytesError>)
        ensures
            r is Ok <==> raw <= 1,
            r matches Ok(stability) ==> spec_noise_stability(raw) == Some(stability),
            r matches Err(e) ==> e == FromBytesError::UnknownNoiseStability(raw),
    {
        match raw {
            0 => Ok(NoiseStability::Free),
            1 => Ok(NoiseStability::Stable),
            _ => Err(FromBytesError::UnknownNoiseStability(raw)),
        }
    }

    /// Decode the stability of instrument `index`.  The stored discriminant
    /// is a one-bit field, so this never fails.
    pub fn from_bytes(song: &SongMemory, index: usize) -> (r: Result<Self, FromBytesError>)
        requires
            song.wf(),
            index < INSTRUMENT_COUNT,
        ensures
            r matches Ok(stability) && spec_noise_stability(
                spec_noise_stability_raw(song@, index as int)) == Some(stability),
    {
        let raw = get_instrument_bits(song, index, 2, 0, 1);
        assert(raw <= 1) by (bit_vector)
            requires
                (raw as u16) < (1u16 << 1u16),
        ;
        Self::from_raw(raw)
    }
}

impl Noise {
    /// Decode the Noise payload of instrument `index`.  Every field of the
    /// record decodes, so this never fails.
    pub fn from_bytes(song: &SongMemory, index: usize) -> (r: Result<Self, FromBytesError>)
        requires
            song.wf(),
            index < INSTRUMENT_COUNT,
        ensures
            r matches Ok(noise) && noise == spec_noise(song@, index as int),
    {
        let length = if get_instrument_bits(song, index, 3, 6, 1) == 0 {
            NoiseLength::Infinite
        } else {
            NoiseLength::Finite(!get_instrument_bits(song, index, 3, 0, 6) & 0x3F)
        };

        let shape = get_instrument_bits(song, index, 4, 0, 8);
        let stability = match NoiseStability::from_bytes(song, index) {
            Ok(stability) => stability,
            Err(e) => { return Err(e) },
        };
        let envelope = (
            get_instrument_bits(song, index, 1, 0, 8),
            get_instrument_bits(song, index, 9, 0, 8),
            get_instrument_bits(song, index, 10, 0, 8),
        );

        Ok(Self { length, shape, stability, envelope })
    }
}

} // verus!
