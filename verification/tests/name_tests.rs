use lsdj::name::{FromBytesError, Name};

#[test]
fn valid_names_round_trip() {
    for name in [*b"PIANO", *b"AB\0\0\0", [0u8; 5], *b"X 1-2"] {
        let bytes = name.to_vec();
        let decoded = Name::from_bytes(&bytes).expect("valid name decodes");
        assert_eq!(decoded.as_bytes(), &bytes);
    }
}

#[test]
fn wrong_length_is_rejected() {
    assert_eq!(
        Name::from_bytes(&vec![0x41, 0x42, 0x43]),
        Err(FromBytesError::WrongLength { length: 3 })
    );
    assert_eq!(
        Name::from_bytes(&vec![0x41; 6]),
        Err(FromBytesError::WrongLength { length: 6 })
    );
}

#[test]
fn unprintable_byte_is_rejected_at_its_position() {
    assert_eq!(
        Name::from_bytes(&vec![0x41, 0x01, 0x42, 0, 0]),
        Err(FromBytesError::InvalidByte { position: 1, value: 0x01 })
    );
    assert_eq!(
        Name::from_bytes(&vec![0xFF, 0, 0, 0, 0]),
        Err(FromBytesError::InvalidByte { position: 0, value: 0xFF })
    );
}

#[test]
fn nonzero_byte_after_padding_is_rejected() {
    assert_eq!(
        Name::from_bytes(&vec![0x41, 0, 0x42, 0, 0]),
        Err(FromBytesError::InvalidByte { position: 2, value: 0x42 })
    );
}
