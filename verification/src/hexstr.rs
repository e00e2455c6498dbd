//! Hex text: the reversible byte-to-text transform used by the key store and
//! the signature records.  The mathematical model is spelled out in full, the
//! encoding itself is delegated to the `hex` crate behind trusted wrappers,
//! and the round trip is proved at the model level.
use vstd::prelude::*;

verus! {

/// The lowercase hex digit standing for a value below 16.
pub open spec fn nibble_char(n: u8) -> char
    recommends
        n < 16,
{
    if n == 0 {
        '0'
    } else if n == 1 {
        '1'
    } else if n == 2 {
        '2'
    } else if n == 3 {
        '3'
    } else if n == 4 {
        '4'
    } else if n == 5 {
        '5'
    } else if n == 6 {
        '6'
    } else if n == 7 {
        '7'
    } else if n == 8 {
        '8'
    } else if n == 9 {
        '9'
    } else if n == 10 {
        'a'
    } else if n == 11 {
        'b'
    } else if n == 12 {
        'c'
    } else if n == 13 {
        'd'
    } else if n == 14 {
        'e'
    } else {
        'f'
    }
}

/// A character accepted by the decoder: either case is allowed.
pub open spec fn is_hex_digit(c: char) -> bool {
    let v = c as u32;
    (48 <= v && v <= 57) || (97 <= v && v <= 102) || (65 <= v && v <= 70)
}

/// The value of one hex digit.
pub open spec fn hex_digit_val(c: char) -> u8
    recommends
        is_hex_digit(c),
{
    let v = c as u32;
    if 48 <= v && v <= 57 {
        (v - 48) as u8
    } else if 97 <= v && v <= 102 {
        (v - 87) as u8
    } else {
        (v - 55) as u8
    }
}

/// The two lowercase digits encoding one byte.
pub open spec fn hex_of_byte(b: u8) -> Seq<char> {
    seq![nibble_char(b / 16), nibble_char(b % 16)]
}

/// The lowercase hex text encoding a byte string, two digits per byte.
pub open spec fn hex_of(bytes: Seq<u8>) -> Seq<char>
    decreases bytes.len(),
{
    if bytes.len() == 0 {
        Seq::empty()
    } else {
        hex_of_byte(bytes[0]) + hex_of(bytes.skip(1))
    }
}

/// Text the decoder accepts: an even count of hex digits.
pub open spec fn hex_text_valid(s: Seq<char>) -> bool {
    s.len() % 2 == 0 && (forall|i: int| 0 <= i < s.len() ==> is_hex_digit(#[trigger] s[i]))
}

/// The byte string a valid hex text decodes to.
pub open spec fn hex_bytes(s: Seq<char>) -> Seq<u8>
    recommends
        hex_text_valid(s),
    decreases s.len(),
{
    if s.len() < 2 {
        Seq::empty()
    } else {
        seq![((hex_digit_val(s[0]) * 16 + hex_digit_val(s[1])) as u8)] + hex_bytes(s.skip(2))
    }
}

/// Relies on `hex::encode`: each byte becomes two lowercase hex digits, in
/// order.
#[verifier::external_body]
pub fn hex_encode(bytes: &[u8]) -> (r: String)
    ensures
        r@ == hex_of(bytes@),
{
    hex::encode(bytes)
}

/// Relies on `hex::decode`: it accepts exactly an even count of hex digits of
/// either case, and maps each pair of digits back to one byte.
#[verifier::external_body]
pub fn hex_decode(text: &str) -> (r: Option<Vec<u8>>)
    ensures
        r matches Some(v) ==> hex_text_valid(text@) && v@ == hex_bytes(text@),
        r is None ==> !hex_text_valid(text@),
{
    match hex::decode(text) {
        Ok(v) => Some(v),
        Err(_) => None,
    }
}

/// Digits produced by the encoder decode back to the value they encode.
pub proof fn lemma_nibble_char_val(n: u8)
    requires
        n < 16,
    ensures
        is_hex_digit(nibble_char(n)),
        hex_digit_val(nibble_char(n)) == n,
{
}

/// The encoding of a byte string is twice its length.
pub proof fn lemma_hex_of_len(bytes: Seq<u8>)
    ensures
        hex_of(bytes).len() == 2 * bytes.len(),
    decreases bytes.len(),
{
    if bytes.len() > 0 {
        lemma_hex_of_len(bytes.skip(1));
    }
}

/// Round trip: the encoding of any byte string is valid hex text, and
/// decoding it returns the byte string unchanged.
pub proof fn lemma_hex_round_trip(bytes: Seq<u8>)
    ensures
        hex_text_valid(hex_of(bytes)),
        hex_bytes(hex_of(bytes)) == bytes,
    decreases bytes.len(),
{
    lemma_hex_of_len(bytes);
    if bytes.len() == 0 {
        assert(hex_bytes(hex_of(bytes)) =~= bytes);
    } else {
        let b = bytes[0];
        let rest = bytes.skip(1);
        lemma_hex_round_trip(rest);
        lemma_hex_of_len(rest);
        lemma_nibble_char_val(b / 16);
        lemma_nibble_char_val(b % 16);
        let s = hex_of(bytes);
        assert(s == hex_of_byte(b) + hex_of(rest));
        assert(s.len() == 2 + hex_of(rest).len());
        assert(s[0] == nibble_char(b / 16));
        assert(s[1] == nibble_char(b % 16));
        assert(s.skip(2) =~= hex_of(rest));
        assert forall|i: int| 0 <= i < s.len() implies is_hex_digit(#[trigger] s[i]) by {
            if i >= 2 {
                assert(s[i] == hex_of(rest)[i - 2]);
            }
        }
        assert(hex_digit_val(s[0]) * 16 + hex_digit_val(s[1]) == b) by {
            assert((b / 16) * 16 + b % 16 == b) by (nonlinear_arith);
        }
        assert(hex_bytes(s) == seq![b] + hex_bytes(hex_of(rest)));
        assert(hex_bytes(s) =~= bytes);
    }
}

} // verus!
