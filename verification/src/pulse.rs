//! The Pulse instrument decoder: duty-cycle width, length, sweep, tune,
//! finetune and envelope, all version-independent bit layouts.

use vstd::prelude::*;

use crate::instrument::{get_instrument_bits, spec_instrument_bits, INSTRUMENT_COUNT};
use crate::song::SongMemory;

verus! {

/// A decoded Pulse instrument.
#[derive(Debug, Clone, Copy, PartialEq, Eq)]
pub struct Pulse {
    pub width: PulseWidth,
    pub length: PulseLength,
    pub sweep: u8,
    pub tune: u8,
    pub finetune: u8,
    pub envelope: (u8, u8, u8),
}

/// How long a pulse instrument plays.
#[derive(Debug, Clone, Copy, PartialEq, Eq, Structural)]
pub enum PulseLength {
    Infinite,
    Finite(u8),
}

/// The duty cycle of a pulse instrument.
#[derive(Debug, Clone, Copy, PartialEq, Eq, Structural)]
pub enum PulseWidth {
    Width125,
    Width25,
    Width50,
    Width75,
}

/// Errors that might be returned from [`Pulse::from_bytes`].
#[derive(Debug, PartialEq, Eq, Structural)]
pub enum FromBytesError {
    UnknownPulseWidth(u8),
}

/// The width variant a raw discriminant decodes to, if any.
pub open spec fn spec_pulse_width(raw: u8) -> Option<PulseWidth> {
    if raw == 0 {
        Some(PulseWidth::Width125)
    } else if raw == 1 {
        Some(PulseWidth::Width25)
    } else if raw == 2 {
        Some(PulseWidth::Width50)
    } else if raw == 3 {
        Some(PulseWidth::Width75)
    } else {
        None
    }
}

/// The raw width discriminant of instrument `i`: byte 7, bits [6..8).
pub open spec fn spec_pulse_width_raw(img: Seq<u8>, i: int) -> u8 {
    spec_instrument_bits(img, i, 7, 6, 2)
}

/// The length setting of instrument `i`: byte 3 bit 6 selects infinite
/// (bit clear) against finite; a finite length is the complement of byte 3
/// bits [0..6), masked to 6 bits.
pub open spec fn spec_pulse_length(img: Seq<u8>, i: int) -> PulseLength {
    if spec_instrument_bits(img, i, 3, 6, 1) == 0 {
        PulseLength::Infinite
    } else {
        PulseLength::Finite(!spec_instrument_bits(img, i, 3, 0, 6) & 0x3F)
    }
}

/// The full Pulse payload of instrument `i`.  The width discriminant is a
/// two-bit field, so it always decodes.
pub open spec fn spec_pulse(img: Seq<u8>, i: int) -> Pulse {
    Pulse {
        width: spec_pulse_width(spec_pulse_width_raw(img, i))->Some_0,
        length: spec_pulse_length(img, i),
        sweep: spec_instrument_bits(img, i, 4, 0, 8),
        tune: spec_instrument_bits(img, i, 2, 0, 8),
        finetune: spec_instrument_bits(img, i, 7, 2, 4),
        envelope: (
            spec_instrument_bits(img, i, 1, 0, 8),
            spec_instrument_bits(img, i, 9, 0, 8),
            spec_instrument_bits(img, i, 10, 0, 8),
        ),
    }
}

impl PulseWidth {
    /// Map a raw width discriminant to its variant; values outside the
    /// closed set fail, carrying the offending value.
    pub fn from_raw(raw: u8) -> (r: Result<Self, FromBytesError>)
        ensures
            r is Ok <==> raw <= 3,
            r matches Ok(width) ==> spec_pulse_width(raw) == Some(width),
            r matches Err(e) ==> e == FromBytesError::UnknownPulseWidth(raw),
    {
        match raw {
            0 => Ok(PulseWidth::Width125),
            1 => Ok(PulseWidth::Width25),
            2 => Ok(PulseWidth::Width50),
            3 => Ok(PulseWidth::Width75),
            _ => Err(FromBytesError::UnknownPulseWidth(raw)),
        }
    }

    /// Decode the width of instrument `index`.  The stored discriminant is a
    /// two-bit field, so this never fails.
    pub fn from_bytes(song: &SongMemory, index: usize) -> (r: Result<Self, FromBytesError>)
        requires
            song.wf(),
            index < INSTRUMENT_COUNT,
        ensures
            r matches Ok(width) && spec_pulse_width(spec_pulse_width_raw(song@, index as int))
                == Some(width),
    {
        let raw = get_instrument_bits(song, index, 7, 6, 2);
        assert(raw <= 3) by (bit_vector)
            requires
                (raw as u16) < (1u16 << 2u16),
        ;
        Self::from_raw(raw)
    }
}

impl Pulse {
    /// Decode the Pulse payload of instrument `index`.  Every field of the
    /// record decodes, so this never fails.
    pub fn from_bytes(song: &SongMemory, index: usize) -> (r: Result<Self, FromBytesError>)
        requires
            song.wf(),
            index < INSTRUMENT_COUNT,
        ensures
            r matches Ok(pulse) && pulse == spec_pulse(song@, index as int),
    {
        let width = match PulseWidth::from_bytes(song, index) {
            Ok(width) => width,
            Err(e) => { return Err(e) },
        };
        let sweep = get_instrument_bits(song, index, 4, 0, 8);
        let tune = get_instrument_bits(song, index, 2, 0, 8);
        let finetune = get_instrument_bits(song, index, 7, 2, 4);
        let length = if get_instrument_bits(song, index, 3, 6, 1) == 0 {
            PulseLength::Infinite
        } else {
            PulseLength::Finite(!get_instrument_bits(song, index, 3, 0, 6) & 0x3F)
        };

        let envelope = (
            get_instrument_bits(song, index, 1, 0, 8),
            get_instrument_bits(song, index, 9, 0, 8),
            get_instrument_bits(song, index, 10, 0, 8),
        );

        Ok(Self { width, length, sweep, tune, finetune, envelope })
    }
}

} // verus!
