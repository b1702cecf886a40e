//! Hexadecimal key and IV text.
//!
//! A key or IV is given as 32 hexadecimal digits naming 16 bytes.  Malformed
//! text is a configuration error carrying the offending byte and its
//! position, or the bad length.

use vstd::prelude::*;
use vstd::string::StringSliceAdditionalSpecFns;

verus! {

/// `b` is the ASCII code of a hexadecimal digit.
pub open spec fn is_hex_digit(b: u8) -> bool {
    (48 <= b && b <= 57) || (65 <= b && b <= 70) || (97 <= b && b <= 102)
}

/// The value of the hexadecimal digit with ASCII code `b`.
pub open spec fn hex_val(b: u8) -> u8
    recommends
        is_hex_digit(b),
{
    if 48 <= b && b <= 57 {
        (b - 48) as u8
    } else if 65 <= b && b <= 70 {
        (b - 55) as u8
    } else {
        (b - 87) as u8
    }
}

/// The byte named by the digits `hi` and `lo`.
pub open spec fn hex_pair(hi: u8, lo: u8) -> u8
    recommends
        is_hex_digit(hi) && is_hex_digit(lo),
{
    (hex_val(hi) * 16 + hex_val(lo)) as u8
}

/// Every byte of `s` is a hexadecimal digit.
pub open spec fn all_hex(s: Seq<u8>) -> bool {
    forall|i: int| 0 <= i < s.len() ==> is_hex_digit(s[i])
}

/// The bytes named by the digit string `s`, two digits per byte.
pub open spec fn hex_decoded(s: Seq<u8>) -> Seq<u8> {
    Seq::new((s.len() / 2) as nat, |i: int| hex_pair(s[2 * i], s[2 * i + 1]))
}

/// The position of the first byte of `s` at or after `i` that is not a
/// hexadecimal digit, or `s.len()` if every one is.
pub open spec fn first_bad_index(s: Seq<u8>, i: int) -> int
    recommends
        0 <= i <= s.len(),
    decreases s.len() - i,
{
    if i < 0 || i >= s.len() {
        i
    } else if !is_hex_digit(s[i]) {
        i
    } else {
        first_bad_index(s, i + 1)
    }
}

/// Malformed hexadecimal key or IV text.
#[derive(Debug, Clone, Copy, PartialEq, Eq, Structural)]
pub enum HexError {
    /// A byte that is no hexadecimal digit, and its position.
    InvalidHexCharacter(u8, usize),
    /// The text holds an odd number of digits.
    OddLength,
    /// The text has even length but does not hold exactly 32 digits.
    InvalidStringLength,
}

/// What decoding a 16-byte key from the digit string `s` yields: the named
/// bytes, or the error for a wrong length or the first non-digit byte.
pub open spec fn spec_decode_key(s: Seq<u8>) -> Result<Seq<u8>, HexError> {
    if s.len() % 2 != 0 {
        Err(HexError::OddLength)
    } else if s.len() != 32 {
        Err(HexError::InvalidStringLength)
    } else if all_hex(s) {
        Ok(hex_decoded(s))
    } else {
        Err(HexError::InvalidHexCharacter(s[first_bad_index(s, 0)], first_bad_index(s, 0) as usize))
    }
}

proof fn lemma_first_bad_index(s: Seq<u8>, k: int, i: int)
    requires
        0 <= i <= k < s.len(),
        forall|j: int| i <= j < k ==> is_hex_digit(s[j]),
        !is_hex_digit(s[k]),
    ensures
        first_bad_index(s, i) == k,
    decreases k - i,
{
    if i < k {
        lemma_first_bad_index(s, k, i + 1);
    }
}

/// The value of one hexadecimal digit byte, or `None` for any other byte.
fn hex_val_of(b: u8) -> (r: Option<u8>)
    ensures
        is_hex_digit(b) ==> (r matches Some(v) && v == hex_val(b) && v <= 15),
        !is_hex_digit(b) ==> r is None,
{
    if 48 <= b && b <= 57 {
        Some(b - 48)
    } else if 65 <= b && b <= 70 {
        Some(b - 55)
    } else if 97 <= b && b <= 102 {
        Some(b - 87)
    } else {
        None
    }
}

/// Decodes a 16-byte key or IV from 32 hexadecimal digits, rejecting any
/// other length and the first byte that is no digit.
pub fn decode_key_hex(s: &str) -> (r: Result<[u8; 16], HexError>)
    ensures
        ({
            let d = spec_decode_key(s.spec_bytes());
            &&& (r matches Ok(k) ==> (d matches Ok(v) && k@ == v))
            &&& (r matches Err(e) ==> d == Err::<Seq<u8>, HexError>(e))
        }),
{
    let bytes = s.as_bytes();
    if bytes.len() % 2 != 0 {
        return Err(HexError::OddLength);
    }
    if bytes.len() != 32 {
        return Err(HexError::InvalidStringLength);
    }
    let mut out: [u8; 16] = [0u8; 16];
    let mut i: usize = 0;
    while i < 16
        invariant
            bytes@ == s.spec_bytes(),
            bytes@.len() == 32,
            i <= 16,
            forall|j: int| 0 <= j < 2 * i ==> is_hex_digit(bytes@[j]),
            forall|j: int| 0 <= j < i ==> out@[j] == hex_pair(bytes@[2 * j], bytes@[2 * j + 1]),
        decreases 16 - i,
    {
        let hi = bytes[2 * i];
        let lo = bytes[2 * i + 1];
        let hv = match hex_val_of(hi) {
            Some(v) => v,
            None => {
                proof {
                    lemma_first_bad_index(bytes@, 2 * i as int, 0);
                }
                return Err(HexError::InvalidHexCharacter(hi, 2 * i));
            },
        };
        let lv = match hex_val_of(lo) {
            Some(v) => v,
            None => {
                proof {
                    lemma_first_bad_index(bytes@, 2 * i + 1, 0);
                }
                return Err(HexError::InvalidHexCharacter(lo, 2 * i + 1));
            },
        };
        out[i] = hv * 16 + lv;
        i += 1;
    }
    proof {
        assert(out@ =~= hex_decoded(s.spec_bytes()));
    }
    Ok(out)
}

} // verus!
