use vstd::prelude::*;
use crate::text::{decimal, decimal_text, debug_char, char_debug_text};
use vstd::string::StringSliceAdditionalSpecFns;
use vstd::utf8::{encode_utf8, is_ascii_chars, is_ascii_chars_encode_utf8};

verus! {

/// Why a text is not a hexadecimal encoding of bytes.
#[derive(Clone, Copy, Debug, PartialEq, Eq, Structural)]
pub enum HexError {
    /// A byte at `index` that is no hexadecimal digit; `c` is that byte as a character.
    InvalidHexCharacter { c: char, index: usize },
    /// An odd number of digits.
    OddLength,
    /// A length that does not fit a fixed-size destination.
    InvalidStringLength,
}

/// The lowercase hexadecimal digit for `n < 16`.
pub open spec fn lower_hex_digit(n: int) -> char {
    if n < 10 {
        (n + 48) as char
    } else {
        (n + 87) as char
    }
}

/// The lowercase hexadecimal encoding of `b`: two digits per byte, the high
/// half first.
pub open spec fn hex_encoding(b: Seq<u8>) -> Seq<char> {
    Seq::new(
        2 * b.len(),
        |i: int|
            if i % 2 == 0 {
                lower_hex_digit((b[i / 2] / 16) as int)
            } else {
                lower_hex_digit((b[i / 2] % 16) as int)
            },
    )
}

/// The value of a hexadecimal digit byte, upper or lower case.
pub open spec fn hex_value(c: u8) -> Option<u8> {
    if 48 <= c <= 57 {
        Some((c - 48) as u8)
    } else if 97 <= c <= 102 {
        Some((c - 87) as u8)
    } else if 65 <= c <= 70 {
        Some((c - 55) as u8)
    } else {
        None
    }
}

/// `i` is the first position of `s` that holds no hexadecimal digit.
pub open spec fn is_first_non_hex(s: Seq<u8>, i: int) -> bool {
    &&& 0 <= i < s.len()
    &&& hex_value(s[i]) is None
    &&& forall|j: int| 0 <= j < i ==> hex_value(#[trigger] s[j]) is Some
}

/// The bytes that the hexadecimal text `s` (given by its bytes) encodes, or
/// why it encodes none: an odd length is reported first, else the first
/// byte that is no digit.
pub open spec fn hex_decoding(s: Seq<u8>) -> Result<Seq<u8>, HexError> {
    if s.len() % 2 != 0 {
        Err(HexError::OddLength)
    } else if exists|i: int| is_first_non_hex(s, i) {
        let i = choose|i: int| is_first_non_hex(s, i);
        Err(HexError::InvalidHexCharacter { c: s[i] as char, index: i as usize })
    } else {
        Ok(
            Seq::new(
                s.len() / 2,
                |k: int| (hex_value(s[2 * k]).unwrap() * 16 + hex_value(s[2 * k + 1]).unwrap()) as u8,
            ),
        )
    }
}

/// `hex::encode`: the lowercase hexadecimal text of `data`.  The `hex` crate
/// writes, per byte, the digit of the high half and then that of the low
/// half from the table "0123456789abcdef"; the contract states exactly that.
#[verifier::external_body]
pub(crate) fn hex_encode(data: &[u8]) -> (r: String)
    ensures
        r@ == hex_encoding(data@),
{
    hex::encode(data)
}

/// `hex::decode` on the bytes of `s`.  The `hex` crate fails with `OddLength` for
/// an odd byte count, else with `InvalidHexCharacter` for the first byte that
/// is not in `0-9`, `a-f` or `A-F` (that byte as a `char`, and its index), and
/// otherwise returns one byte per pair of digits, the first digit being the
/// high half.  The contract states exactly that; the error is mapped variant
/// by variant onto `HexError`.
#[verifier::external_body]
pub(crate) fn hex_decode(s: &str) -> (r: Result<Vec<u8>, HexError>)
    ensures
        match r {
            Ok(v) => hex_decoding(s.spec_bytes()) == Ok::<Seq<u8>, HexError>(v@),
            Err(e) => hex_decoding(s.spec_bytes()) == Err::<Seq<u8>, HexError>(e),
        },
{
    match hex::decode(s) {
        Ok(v) => Ok(v),
        Err(hex::FromHexError::InvalidHexCharacter { c, index }) => Err(
            HexError::InvalidHexCharacter { c, index },
        ),
        Err(hex::FromHexError::OddLength) => Err(HexError::OddLength),
        Err(hex::FromHexError::InvalidStringLength) => Err(HexError::InvalidStringLength),
    }
}

/// The `Debug` notation of a `HexError`, as the derived implementation of
/// the `hex` crate's error writes it.
pub open spec fn hex_error_debug(e: HexError) -> Seq<char> {
    match e {
        HexError::InvalidHexCharacter { c, index } => "InvalidHexCharacter { c: "@ + char_debug_text(c)
            + ", index: "@ + decimal(index as nat) + " }"@,
        HexError::OddLength => "OddLength"@,
        HexError::InvalidStringLength => "InvalidStringLength"@,
    }
}

impl HexError {
    /// The `Debug` notation of this error.
    pub fn debug_text(&self) -> (r: String)
        ensures
            r@ == hex_error_debug(*self),
    {
        match self {
            HexError::InvalidHexCharacter { c, index } => {
                let mut s = String::new();
                s.append("InvalidHexCharacter { c: ");
                let cd = debug_char(*c);
                s.append(cd.as_str());
                s.append(", index: ");
                let n = decimal_text(*index as u64);
                s.append(n.as_str());
                s.append(" }");
                s
            },
            HexError::OddLength => "OddLength".to_owned(),
            HexError::InvalidStringLength => "InvalidStringLength".to_owned(),
        }
    }
}

/// Decoding the hexadecimal text of some bytes gives those bytes back: what a
/// characteristic read reports, written back as a characteristic value,
/// writes the same bytes.
pub proof fn lemma_hex_roundtrip(data: Seq<u8>)
    ensures
        hex_decoding(encode_utf8(hex_encoding(data))) == Ok::<Seq<u8>, HexError>(data),
{
    let chars = hex_encoding(data);
    assert(is_ascii_chars(chars)) by {
        assert forall|i: int| 0 <= i < chars.len() implies '\0' <= #[trigger] chars[i] <= '\u{7f}' by {
            let b = data[i / 2];
            if i % 2 == 0 {
                assert(0 <= b / 16 < 16);
            } else {
                assert(0 <= b % 16 < 16);
            }
        }
    }
    is_ascii_chars_encode_utf8(chars);
    let s = encode_utf8(chars);
    assert(s.len() == 2 * data.len());
    assert forall|i: int| 0 <= i < s.len() implies hex_value(#[trigger] s[i]) is Some && (if i % 2
        == 0 {
        hex_value(s[i]).unwrap() == data[i / 2] / 16
    } else {
        hex_value(s[i]).unwrap() == data[i / 2] % 16
    }) by {
        assert(chars[i] as u8 == s[i]);
        let b = data[i / 2];
        if i % 2 == 0 {
            assert(0 <= b / 16 < 16);
        } else {
            assert(0 <= b % 16 < 16);
        }
    }
    assert(!exists|i: int| is_first_non_hex(s, i));
    let decoded = Seq::new(
        s.len() / 2,
        |k: int| (hex_value(s[2 * k]).unwrap() * 16 + hex_value(s[2 * k + 1]).unwrap()) as u8,
    );
    assert forall|k: int| 0 <= k < data.len() implies #[trigger] decoded[k] == data[k] by {
        assert((2 * k) / 2 == k);
        assert((2 * k + 1) / 2 == k);
        assert((2 * k) % 2 == 0);
        assert((2 * k + 1) % 2 == 1);
        let b = data[k];
        assert(hex_value(s[2 * k]).unwrap() == b / 16);
        assert(hex_value(s[2 * k + 1]).unwrap() == b % 16);
    }
    assert(decoded =~= data);
}

} // verus!
