//! Decoder for the instrument section of a Game Boy music tracker's
//! 32768-byte song-memory image.
//!
//! The image is a fixed-size binary blob with a rigid, version-dependent
//! layout: an allocation bitmap telling which of the 64 instrument slots are
//! live, a name table, and a parameter table of one 16-byte record per
//! instrument.  The decoders here turn those records into strongly typed
//! instrument definitions, reproducing every historical layout revision
//! bit-exactly.

pub mod instrument;
pub mod name;
pub mod noise;
pub mod pulse;
pub mod song;
pub mod wave;
