//! Fixed-length instrument names: five bytes, printable ASCII, padded with
//! trailing zero bytes.

use vstd::prelude::*;

verus! {

/// The exact number of bytes a name occupies.
pub const NAME_LENGTH: usize = 5;

/// Errors that might be returned from [`Name::from_bytes`].
#[derive(Debug, PartialEq, Eq, Structural)]
pub enum FromBytesError {
    /// The slice did not hold exactly `NAME_LENGTH` bytes.
    WrongLength { length: usize },
    /// A byte was neither printable ASCII nor zero padding, or a nonzero
    /// byte followed the zero padding.
    InvalidByte { position: usize, value: u8 },
}

/// Whether one byte may appear in a name: zero padding or printable ASCII.
pub open spec fn spec_valid_name_byte(b: u8) -> bool {
    b == 0 || (0x20 <= b && b <= 0x7E)
}

/// Whether the byte at position `p` of `s` offends the name rules: an
/// invalid byte, or a nonzero byte after the zero padding began.
pub open spec fn spec_bad_at(s: Seq<u8>, p: int) -> bool {
    ||| !spec_valid_name_byte(s[p])
    ||| (s[p] != 0 && exists|q: int| 0 <= q < p && s[q] == 0)
}

/// Whether `s` is a valid name image: exactly `NAME_LENGTH` bytes, each
/// either printable ASCII or part of the trailing zero padding.
pub open spec fn spec_valid_name(s: Seq<u8>) -> bool {
    &&& s.len() == NAME_LENGTH
    &&& forall|p: int| 0 <= p < s.len() ==> !spec_bad_at(s, p)
}

/// Whether `e` is the exact error that decoding the name image `s` yields:
/// the wrong length, or else the first offending byte position.
pub open spec fn spec_name_error_matches(s: Seq<u8>, e: FromBytesError) -> bool {
    if s.len() != NAME_LENGTH {
        e matches FromBytesError::WrongLength { length } && length == s.len()
    } else {
        e matches FromBytesError::InvalidByte { position, value }
            && 0 <= position < s.len()
            && value == s[position as int]
            && spec_bad_at(s, position as int)
            && (forall|q: int| 0 <= q < position ==> !spec_bad_at(s, q))
    }
}

/// A validated fixed-length instrument name.
#[derive(Debug, Clone, PartialEq, Eq)]
pub struct Name {
    bytes: Vec<u8>,
}

impl View for Name {
    type V = Seq<u8>;

    closed spec fn view(&self) -> Seq<u8> {
        self.bytes@
    }
}

impl Name {
    /// Every constructed name holds a valid name image.
    pub open spec fn wf(&self) -> bool {
        spec_valid_name(self@)
    }

    /// Validate `bytes` as a name: exactly `NAME_LENGTH` bytes, printable
    /// ASCII up to the first zero byte, zero from there on.
    pub fn from_bytes(bytes: &Vec<u8>) -> (r: Result<Name, FromBytesError>)
        ensures
            r is Ok <==> spec_valid_name(bytes@),
            r matches Ok(name) ==> name@ == bytes@ && name.wf(),
            r matches Err(e) ==> spec_name_error_matches(bytes@, e),
    {
        if bytes.len() != NAME_LENGTH {
            return Err(FromBytesError::WrongLength { length: bytes.len() });
        }

        let mut seen_zero: bool = false;
        let mut p: usize = 0;
        while p < NAME_LENGTH
            invariant
                p <= NAME_LENGTH,
                bytes@.len() == NAME_LENGTH,
                seen_zero == (exists|q: int| 0 <= q < p && bytes@[q] == 0),
                forall|q: int| 0 <= q < p ==> !spec_bad_at(bytes@, q),
            decreases NAME_LENGTH - p,
        {
            let b = bytes[p];
            let bad = if b == 0 {
                false
            } else if seen_zero {
                true
            } else {
                !(0x20 <= b && b <= 0x7E)
            };
            if bad {
                assert(spec_bad_at(bytes@, p as int));
                return Err(FromBytesError::InvalidByte { position: p, value: b });
            }
            if b == 0 {
                seen_zero = true;
            }
            p += 1;
        }

        let mut copy: Vec<u8> = Vec::new();
        let mut i: usize = 0;
        while i < NAME_LENGTH
            invariant
                i <= NAME_LENGTH,
                bytes@.len() == NAME_LENGTH,
                copy@ == bytes@.subrange(0, i as int),
            decreases NAME_LENGTH - i,
        {
            copy.push(bytes[i]);
            i += 1;
        }
        assert(copy@ == bytes@);

        Ok(Name { bytes: copy })
    }

    /// The bytes of the name.
    pub fn as_bytes(&self) -> (r: &Vec<u8>)
        ensures
            r@ == self@,
    {
        &self.bytes
    }
}

} // verus!
