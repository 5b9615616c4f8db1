//! The Wave instrument decoder: the one component whose bit layout depends
//! on the format version of the image, re-read at decode time.  Every
//! historical interpretation is reproduced bit-exactly.

use vstd::prelude::*;

use crate::instrument::{get_instrument_bits, spec_instrument_bits, INSTRUMENT_COUNT};
use crate::song::{spec_format_version, SongMemory};

verus! {

/// A decoded Wave instrument.
#[derive(Debug, Clone, Copy, PartialEq, Eq, Structural)]
pub struct Wave {
    pub volume: u8,
    pub synth: u8,
    pub wave: u8,
    pub play_mode: WavePlayMode,
    pub length: u8,
    pub loop_pos: u8,
    pub repeat: u8,
    pub speed: u8,
}

/// How a wave instrument walks its wave frames.
#[derive(Debug, Clone, Copy, PartialEq, Eq, Structural)]
pub enum WavePlayMode {
    Once,
    Loop,
    PingPong,
    Manual,
}

/// Errors that might be returned from [`Wave::from_bytes`].
#[derive(Debug, PartialEq, Eq, Structural)]
pub enum FromBytesError {
    UnknownWavePlayMode(u8),
}

/// Addition on bytes that wraps around past 255.
pub open spec fn spec_wrapping_add(x: u8, y: u8) -> u8 {
    if x + y > 255 {
        (x + y - 256) as u8
    } else {
        (x + y) as u8
    }
}

/// Subtraction on bytes that wraps around below 0.
pub open spec fn spec_wrapping_sub(x: u8, y: u8) -> u8 {
    if x - y < 0 {
        (x - y + 256) as u8
    } else {
        (x - y) as u8
    }
}

/// The play-mode variant a raw value decodes to, if any.
pub open spec fn spec_wave_play_mode(raw: u8) -> Option<WavePlayMode> {
    if raw == 0 {
        Some(WavePlayMode::Once)
    } else if raw == 1 {
        Some(WavePlayMode::Loop)
    } else if raw == 2 {
        Some(WavePlayMode::PingPong)
    } else if raw == 3 {
        Some(WavePlayMode::Manual)
    } else {
        None
    }
}

/// The raw play mode of instrument `i`: byte 9 bits [0..2), decremented by
/// one and wrapped modulo 4 from format version 10 on, taken verbatim
/// before.
pub open spec fn spec_wave_play_mode_raw(img: Seq<u8>, i: int) -> u8 {
    let bits = spec_instrument_bits(img, i, 9, 0, 2);
    if spec_format_version(img) >= 10 {
        spec_wrapping_sub(bits, 1) & 0x3
    } else {
        bits
    }
}

/// The synth index of instrument `i`: the high nibble of byte 3 from format
/// version 16 on, of byte 2 before.
pub open spec fn spec_wave_synth(img: Seq<u8>, i: int) -> u8 {
    if spec_format_version(img) >= 16 {
        spec_instrument_bits(img, i, 3, 4, 4)
    } else {
        spec_instrument_bits(img, i, 2, 4, 4)
    }
}

/// The length of instrument `i`: `0xF` minus the low nibble of byte 10 from
/// format version 7 on, that nibble verbatim on version 6, the high nibble
/// of byte 14 before.
pub open spec fn spec_wave_length(img: Seq<u8>, i: int) -> u8 {
    if spec_format_version(img) >= 7 {
        (0xF - spec_instrument_bits(img, i, 10, 0, 4)) as u8
    } else if spec_format_version(img) == 6 {
        spec_instrument_bits(img, i, 10, 0, 4)
    } else {
        spec_instrument_bits(img, i, 14, 4, 4)
    }
}

/// The loop position of instrument `i`: the low nibble of byte 2, verbatim
/// from format version 9 on, complemented before.
pub open spec fn spec_wave_loop_pos(img: Seq<u8>, i: int) -> u8 {
    let nibble = spec_instrument_bits(img, i, 2, 0, 4);
    if spec_format_version(img) >= 9 {
        nibble & 0xF
    } else {
        (nibble & 0xF) ^ 0xF
    }
}

/// The repeat count of instrument `i`: the low nibble of byte 2,
/// complemented from format version 9 on, verbatim before — the exact
/// inverse of the loop-position rule.
pub open spec fn spec_wave_repeat(img: Seq<u8>, i: int) -> u8 {
    let nibble = spec_instrument_bits(img, i, 2, 0, 4);
    if spec_format_version(img) >= 9 {
        (nibble & 0xF) ^ 0xF
    } else {
        nibble & 0xF
    }
}

/// The raw speed of instrument `i`: byte 11 plus 3 (wrapping) from format
/// version 7 on, byte 11 verbatim on version 6, the low nibble of byte 14
/// before.
pub open spec fn spec_wave_speed_raw(img: Seq<u8>, i: int) -> u8 {
    if spec_format_version(img) >= 7 {
        spec_wrapping_add(spec_instrument_bits(img, i, 11, 0, 8), 3)
    } else if spec_format_version(img) == 6 {
        spec_instrument_bits(img, i, 11, 0, 8)
    } else {
        spec_instrument_bits(img, i, 14, 0, 4)
    }
}

/// The displayed speed of instrument `i`: the raw speed plus one, since
/// storage starts at 0 while the user-facing value starts at 1.
pub open spec fn spec_wave_speed(img: Seq<u8>, i: int) -> u8 {
    spec_wrapping_add(spec_wave_speed_raw(img, i), 1)
}

/// The full Wave payload of instrument `i`.  The raw play mode always lands
/// in the closed set, so the decode always succeeds.
pub open spec fn spec_wave(img: Seq<u8>, i: int) -> Wave {
    Wave {
        volume: spec_instrument_bits(img, i, 1, 0, 8),
        synth: spec_wave_synth(img, i),
        wave: spec_instrument_bits(img, i, 3, 0, 8),
        play_mode: spec_wave_play_mode(spec_wave_play_mode_raw(img, i))->Some_0,
        length: spec_wave_length(img, i),
        loop_pos: spec_wave_loop_pos(img, i),
        repeat: spec_wave_repeat(img, i),
        speed: spec_wave_speed(img, i),
    }
}

impl WavePlayMode {
    /// Map a raw play-mode value to its variant; values outside the closed
    /// set fail, carrying the offending value.
    pub fn from_raw(raw: u8) -> (r: Result<Self, FromBytesError>)
        ensures
            r is Ok <==> raw <= 3,
            r matches Ok(mode) ==> spec_wave_play_mode(raw) == Some(mode),
            r matches Err(e) ==> e == FromBytesError::UnknownWavePlayMode(raw),
    {
        match raw {
            0 => Ok(WavePlayMode::Once),
            1 => Ok(WavePlayMode::Loop),
            2 => Ok(WavePlayMode::PingPong),
            3 => Ok(WavePlayMode::Manual),
            _ => Err(FromBytesError::UnknownWavePlayMode(raw)),
        }
    }

    /// Decode the play mode of instrument `index`.  The raw value is a
    /// two-bit field, wrapped modulo 4 on newer versions, so this never
    /// fails.
    pub fn from_bytes(song: &SongMemory, index: usize) -> (r: Result<Self, FromBytesError>)
        requires
            song.wf(),
            index < INSTRUMENT_COUNT,
        ensures
            r matches Ok(mode) && spec_wave_play_mode(spec_wave_play_mode_raw(song@, index as int))
                == Some(mode),
    {
        let bits = get_instrument_bits(song, index, 9, 0, 2);
        assert(bits <= 3) by (bit_vector)
            requires
                (bits as u16) < (1u16 << 2u16),
        ;
        let raw = if song.format_version() >= 10 {
            let wrapped = bits.wrapping_sub(1);
            assert(wrapped & 0x3 <= 3) by (bit_vector);
            wrapped & 0x3
        } else {
            bits
        };
        Self::from_raw(raw)
    }
}

impl Wave {
    /// Decode the Wave payload of instrument `index`, under the layout of
    /// the image's format version.  Every field of the record decodes, so
    /// this never fails.
    pub fn from_bytes(song: &SongMemory, index: usize) -> (r: Result<Self, FromBytesError>)
        requires
            song.wf(),
            index < INSTRUMENT_COUNT,
        ensures
            r matches Ok(wave) && wave == spec_wave(song@, index as int),
    {
        let format_version = song.format_version();

        let volume = get_instrument_bits(song, index, 1, 0, 8);
        let synth = if format_version >= 16 {
            get_instrument_bits(song, index, 3, 4, 4)
        } else {
            get_instrument_bits(song, index, 2, 4, 4)
        };
        let wave = get_instrument_bits(song, index, 3, 0, 8);
        let play_mode = match WavePlayMode::from_bytes(song, index) {
            Ok(mode) => mode,
            Err(e) => { return Err(e) },
        };

        let length = if format_version >= 7 {
            let nibble = get_instrument_bits(song, index, 10, 0, 4);
            assert(nibble <= 15) by (bit_vector)
                requires
                    (nibble as u16) < (1u16 << 4u16),
            ;
            0xF - nibble
        } else if format_version == 6 {
            get_instrument_bits(song, index, 10, 0, 4)
        } else {
            get_instrument_bits(song, index, 14, 4, 4)
        };

        let loop_pos = {
            let byte = get_instrument_bits(song, index, 2, 0, 4);
            if format_version >= 9 {
                byte & 0xF
            } else {
                (byte & 0xF) ^ 0x0F
            }
        };

        let repeat = {
            let byte = get_instrument_bits(song, index, 2, 0, 4);
            if format_version >= 9 {
                (byte & 0xF) ^ 0xF
            } else {
                byte & 0xF
            }
        };

        // Speed is stored starting at 0 but displayed starting at 1.
        let speed = {
            let raw_speed = if format_version >= 7 {
                get_instrument_bits(song, index, 11, 0, 8).wrapping_add(3)
            } else if format_version == 6 {
                get_instrument_bits(song, index, 11, 0, 8)
            } else {
                get_instrument_bits(song, index, 14, 0, 4)
            };
            raw_speed.wrapping_add(1)
        };

        Ok(Self { volume, synth, wave, play_mode, length, loop_pos, repeat, speed })
    }
}

} // verus!
