use lsdj::instrument::{
    get_instrument_bits, is_instrument_allocated, FromBytesError, Instrument, Kind,
    INSTRUMENT_ALLOCATION_TABLE_OFFSET, INSTRUMENT_BYTE_COUNT, INSTRUMENT_NAMES_OFFSET,
    INSTRUMENT_NAME_LENGTH, INSTRUMENT_PARAMS_OFFSET,
};
use lsdj::name;
use lsdj::song::{SongMemory, FORMAT_VERSION_OFFSET, SONG_MEMORY_LEN};

/// The canonical default 16-byte instrument record.
const DEFAULT_INSTRUMENT: [u8; 16] = [
    0xA8, 0x0, 0x0, 0xFF, 0x0, 0x0, 0x3, 0x0, 0x0, 0xD0, 0x0, 0x0, 0x0, 0xF3, 0x0, 0x0,
];

fn blank_image() -> Vec<u8> {
    let mut bytes = vec![0u8; SONG_MEMORY_LEN];
    bytes[0x7FF0] = 0x72;
    bytes[0x7FF1] = 0x62;
    bytes[FORMAT_VERSION_OFFSET] = 0x16;
    bytes
}

fn write_record(bytes: &mut Vec<u8>, index: usize, record: &[u8; 16]) {
    let base = INSTRUMENT_PARAMS_OFFSET + index * INSTRUMENT_BYTE_COUNT;
    bytes[base..base + 16].copy_from_slice(record);
}

fn allocate(bytes: &mut Vec<u8>, index: usize) {
    bytes[INSTRUMENT_ALLOCATION_TABLE_OFFSET + index] = 1;
}

fn write_name(bytes: &mut Vec<u8>, index: usize, name: &[u8; 5]) {
    let base = INSTRUMENT_NAMES_OFFSET + index * INSTRUMENT_NAME_LENGTH;
    bytes[base..base + 5].copy_from_slice(name);
}

fn song_from(bytes: &[u8]) -> SongMemory {
    SongMemory::from_bytes(bytes).expect("test image should be structurally valid")
}

#[test]
fn bit_accessor_extracts_fields() {
    let mut bytes = blank_image();
    // Instrument 1, byte 2 = 0b1011_0110.
    bytes[INSTRUMENT_PARAMS_OFFSET + 1 * INSTRUMENT_BYTE_COUNT + 2] = 0xB6;
    let song = song_from(&bytes);

    assert_eq!(get_instrument_bits(&song, 1, 2, 0, 8), 0xB6);
    assert_eq!(get_instrument_bits(&song, 1, 2, 0, 4), 0x6);
    assert_eq!(get_instrument_bits(&song, 1, 2, 4, 4), 0xB);
    assert_eq!(get_instrument_bits(&song, 1, 2, 1, 3), 0b011);
    assert_eq!(get_instrument_bits(&song, 1, 2, 7, 1), 1);
}

#[test]
fn bit_accessor_stays_below_field_bound() {
    let mut bytes = blank_image();
    for (k, slot) in bytes[INSTRUMENT_PARAMS_OFFSET..INSTRUMENT_PARAMS_OFFSET + 64]
        .iter_mut()
        .enumerate()
    {
        *slot = (k as u8).wrapping_mul(37).wrapping_add(11);
    }
    let song = song_from(&bytes);

    for position in 0u8..8 {
        for count in 1u8..=(8 - position) {
            for index in 0usize..4 {
                for byte in 0usize..16 {
                    let value = get_instrument_bits(&song, index, byte, position, count);
                    assert!((value as u16) < (1u16 << count));
                }
            }
        }
    }
}

#[test]
fn allocation_table_drives_is_allocated() {
    let mut bytes = blank_image();
    allocate(&mut bytes, 0);
    bytes[INSTRUMENT_ALLOCATION_TABLE_OFFSET + 63] = 0xFF;
    let song = song_from(&bytes);

    assert!(is_instrument_allocated(&song, 0));
    assert!(!is_instrument_allocated(&song, 1));
    assert!(is_instrument_allocated(&song, 63));
}

#[test]
fn sequence_skips_unallocated_and_ascends() {
    let mut bytes = blank_image();
    for index in [3usize, 5, 60] {
        allocate(&mut bytes, index);
        let mut record = DEFAULT_INSTRUMENT;
        record[0] = 0; // Pulse
        write_record(&mut bytes, index, &record);
    }
    let song = song_from(&bytes);

    let mut yielded = Vec::new();
    let mut it = song.instruments();
    while let Some(outcome) = it.next() {
        yielded.push(outcome.expect("all allocated slots decode").index());
    }

    assert_eq!(yielded, vec![3, 5, 60]);
}

#[test]
fn sequence_on_blank_song_is_empty() {
    let song = song_from(&blank_image());
    let mut it = song.instruments();
    assert!(it.next().is_none());
    assert!(it.next().is_none());
}

#[test]
fn default_record_decodes_as_the_canonical_pulse() {
    let mut bytes = blank_image();
    let mut record = DEFAULT_INSTRUMENT;
    record[0] = 0; // kind byte: Pulse
    allocate(&mut bytes, 0);
    write_record(&mut bytes, 0, &record);
    let song = song_from(&bytes);

    let instrument = Instrument::from_bytes(&song, 0).expect("default record decodes");
    assert_eq!(instrument.index(), 0);
    assert_eq!(instrument.name().as_bytes().as_slice(), &[0, 0, 0, 0, 0]);

    let pulse = match instrument.kind() {
        Kind::Pulse(pulse) => *pulse,
        other => panic!("expected a pulse instrument, got {other:?}"),
    };
    assert_eq!(pulse.width, lsdj::pulse::PulseWidth::Width125);
    // byte 3 = 0xFF: bit 6 set means finite, !0x3F & 0x3F == 0.
    assert_eq!(pulse.length, lsdj::pulse::PulseLength::Finite(0));
    assert_eq!(pulse.sweep, 0x00);
    assert_eq!(pulse.tune, 0x00);
    assert_eq!(pulse.finetune, 0x00);
    assert_eq!(pulse.envelope, (0x00, 0xD0, 0x00));
}

#[test]
fn unknown_kind_byte_fails_with_index_and_value() {
    let mut bytes = blank_image();
    allocate(&mut bytes, 2);
    let mut record = [0u8; 16];
    record[0] = 4;
    write_record(&mut bytes, 2, &record);
    let song = song_from(&bytes);

    let outcome = Instrument::from_bytes(&song, 2);
    assert_eq!(outcome.unwrap_err(), FromBytesError::InstrumentKind { index: 2, kind: 4 });

    // The sequence yields the same failure for the slot.
    let mut it = song.instruments();
    let yielded = it.next().expect("slot 2 is allocated");
    assert_eq!(yielded.unwrap_err(), FromBytesError::InstrumentKind { index: 2, kind: 4 });
}

#[test]
fn invalid_name_fails_with_index_and_bytes() {
    let mut bytes = blank_image();
    allocate(&mut bytes, 7);
    write_name(&mut bytes, 7, &[0x41, 0x01, 0x42, 0, 0]);
    let song = song_from(&bytes);

    match Instrument::from_bytes(&song, 7) {
        Err(FromBytesError::Name { error, index, bytes }) => {
            assert_eq!(index, 7);
            assert_eq!(bytes, vec![0x41, 0x01, 0x42, 0, 0]);
            assert_eq!(error, name::FromBytesError::InvalidByte { position: 1, value: 0x01 });
        },
        other => panic!("expected a name failure, got {other:?}"),
    }
}

#[test]
fn kit_kind_decodes_without_payload() {
    let mut bytes = blank_image();
    allocate(&mut bytes, 9);
    let mut record = [0u8; 16];
    record[0] = 2;
    write_record(&mut bytes, 9, &record);
    write_name(&mut bytes, 9, b"KIT01");
    let song = song_from(&bytes);

    let instrument = Instrument::from_bytes(&song, 9).expect("kit record decodes");
    assert_eq!(instrument.name().as_bytes().as_slice(), b"KIT01");
    assert!(matches!(instrument.kind(), Kind::Kit));
}

#[test]
fn decoding_twice_yields_identical_results() {
    let mut bytes = blank_image();
    for index in [0usize, 1, 3] {
        allocate(&mut bytes, index);
    }
    let mut pulse_record = DEFAULT_INSTRUMENT;
    pulse_record[0] = 0;
    write_record(&mut bytes, 0, &pulse_record);
    let mut wave_record = [0u8; 16];
    wave_record[0] = 1;
    wave_record[2] = 0xB7;
    write_record(&mut bytes, 1, &wave_record);
    let mut noise_record = [0u8; 16];
    noise_record[0] = 3;
    write_record(&mut bytes, 3, &noise_record);
    let song = song_from(&bytes);

    for index in [0usize, 1, 3] {
        let first = Instrument::from_bytes(&song, index).expect("record decodes");
        let second = Instrument::from_bytes(&song, index).expect("record decodes");
        assert_eq!(first.index(), second.index());
        assert_eq!(first.name().as_bytes(), second.name().as_bytes());
        assert_eq!(first.kind(), second.kind());
    }
}
