use vstd::prelude::*;
use vstd::string::{StringExecFns, StringSliceAdditionalSpecFns};
use vstd::utf8::{valid_utf8, encode_utf8, is_ascii_chars, is_ascii_chars_encode_utf8};
use vstd::slice::slice_subrange;
use core::str::Utf8Error;
use core::num::ParseIntError;
use crate::error::ByteDecodeError;

verus! {

/// The lowercase hex digit of `n`, for `n < 16`.
pub open spec fn digit_char(n: u8) -> char {
    if n < 10 {
        (48 + n) as u8 as char
    } else {
        (87 + n) as u8 as char
    }
}

/// `c` is the code of a hex digit in either case.
pub open spec fn is_hex_byte(c: u8) -> bool {
    (48 <= c <= 57) || (97 <= c <= 102) || (65 <= c <= 70)
}

/// The value of the hex digit with code `c`.
pub open spec fn hex_value(c: u8) -> int {
    if 48 <= c <= 57 {
        c - 48
    } else if 97 <= c <= 102 {
        c - 87
    } else {
        c - 55
    }
}

/// Two lowercase hex digits for each byte, high digit first.
pub open spec fn hex_chars(b: Seq<u8>) -> Seq<char> {
    Seq::new(
        2 * b.len(),
        |k: int|
            if k % 2 == 0 {
                digit_char(b[k / 2] / 16)
            } else {
                digit_char(b[k / 2] % 16)
            },
    )
}

/// Every byte of `t` is a hex digit.
pub open spec fn all_hex(t: Seq<u8>) -> bool {
    forall|i: int| 0 <= i < t.len() ==> is_hex_byte(#[trigger] t[i])
}

/// The bytes that hex text stands for, read in pairs; a lone last digit is a
/// byte of its own.
pub open spec fn hex_decoded(t: Seq<u8>) -> Seq<u8> {
    Seq::new(
        ((t.len() + 1) / 2) as nat,
        |k: int|
            if 2 * k + 1 < t.len() {
                (hex_value(t[2 * k]) * 16 + hex_value(t[2 * k + 1])) as u8
            } else {
                hex_value(t[2 * k]) as u8
            },
    )
}

/// Piece `k` of hex text: bytes `2k` and `2k + 1`, or the lone last byte.
pub open spec fn hex_piece(t: Seq<u8>, k: int) -> Seq<u8> {
    t.subrange(2 * k, if 2 * k + 2 <= t.len() { 2 * k + 2 } else { t.len() as int })
}

/// Piece `k` is the first piece of `t` that is not made of hex digits.
pub open spec fn first_bad_piece(t: Seq<u8>, k: int) -> bool {
    0 <= 2 * k < t.len() && !all_hex(hex_piece(t, k)) && forall|j: int|
        0 <= j < k ==> all_hex(#[trigger] hex_piece(t, j))
}

/// Relies on `format!` with `{:02x}`: two lowercase hex digits, zero padded.
#[verifier::external_body]
fn hex_pair(b: u8) -> (r: String)
    ensures
        r@ == seq![digit_char(b / 16), digit_char(b % 16)],
{
    format!("{:02x}", b)
}

/// Relies on `std::str::from_utf8`: the same bytes as text exactly when they are UTF-8.
#[verifier::external_body]
fn utf8_text(chunk: &[u8]) -> (r: Result<&str, Utf8Error>)
    ensures
        r is Ok <==> valid_utf8(chunk@),
        r matches Ok(t) ==> encode_utf8(t@) == chunk@,
{
    core::str::from_utf8(chunk)
}

/// Relies on `u8::from_str_radix` in base 16, for a piece that is not two hex digits.
#[verifier::external_body]
fn parse_hex_u8(t: &str) -> Result<u8, ParseIntError> {
    u8::from_str_radix(t, 16)
}

/// The value of a hex digit.
fn hex_digit(c: u8) -> (r: u8)
    requires
        is_hex_byte(c),
    ensures
        r as int == hex_value(c),
        r < 16,
{
    if c <= 57 {
        c - 48
    } else if c >= 97 {
        c - 87
    } else {
        c - 55
    }
}

/// Renders bytes as lowercase hex text, two digits per byte.
pub fn bytes_to_hex_str(bytes: &[u8]) -> (r: String)
    ensures
        r@ == hex_chars(bytes@),
{
    let mut r = String::new();
    let mut i: usize = 0;
    while i < bytes.len()
        invariant
            i <= bytes.len(),
            r@.len() == 2 * i,
            forall|k: int| 0 <= k < 2 * i ==> r@[k] == #[trigger] hex_chars(bytes@)[k],
        decreases bytes.len() - i,
    {
        r.append(hex_pair(bytes[i]).as_str());
        assert forall|k: int| 0 <= k < 2 * (i + 1) implies r@[k] == #[trigger] hex_chars(bytes@)[k] by {
            if k >= 2 * i {
                assert(k / 2 == i as int && (k % 2 == 0 <==> k == 2 * i)) by (nonlinear_arith)
                    requires 2 * i <= k < 2 * i + 2;
            }
        }
        i = i + 1;
    }
    assert(r@ =~= hex_chars(bytes@));
    r
}

/// Reads hex text as bytes, two digits per byte. Each piece is first read as
/// UTF-8, and then as a number in base 16; the first piece that fails says
/// which of the two stages failed. Text of hex digits alone always succeeds.
pub fn hex_str_to_bytes(s: &str) -> (r: Result<Vec<u8>, ByteDecodeError>)
    ensures
        all_hex(s.spec_bytes()) ==> (r matches Ok(v) && v@ == hex_decoded(s.spec_bytes())),
        r matches Ok(v) ==> v@.len() == (s.spec_bytes().len() + 1) / 2,
        forall|k: int| #[trigger]
            first_bad_piece(s.spec_bytes(), k) && !valid_utf8(hex_piece(s.spec_bytes(), k)) ==> (r matches Err(
                ByteDecodeError::DecodeError(_),
            )),
        r matches Err(ByteDecodeError::DecodeError(_)) ==> exists|k: int| 0 <= 2 * k < s.spec_bytes().len()
            && !valid_utf8(#[trigger] hex_piece(s.spec_bytes(), k)),
        r matches Err(ByteDecodeError::ParseError(_)) ==> exists|k: int| 0 <= 2 * k < s.spec_bytes().len()
            && !all_hex(#[trigger] hex_piece(s.spec_bytes(), k)) && valid_utf8(hex_piece(s.spec_bytes(), k)),
{
    let bytes = s.as_bytes();
    let n = bytes.len();
    let mut out: Vec<u8> = Vec::new();
    let mut i: usize = 0;
    while i < n
        invariant
            n == bytes@.len(),
            bytes@ == s.spec_bytes(),
            i <= n,
            i % 2 == 0 || i == n,
            out@.len() == (i + 1) / 2,
            forall|j: int| 0 <= j < out@.len() ==> all_hex(#[trigger] hex_piece(bytes@, j)) || valid_utf8(hex_piece(bytes@, j)),
            all_hex(bytes@) ==> forall|k: int| 0 <= k < out@.len() ==> out@[k] == #[trigger] hex_decoded(bytes@)[k],
        decreases n - i,
    {
        let end: usize = if n - i >= 2 { i + 2 } else { n };
        let ghost k: int = i as int / 2;
        proof {
            assert(2 * k == i) by (nonlinear_arith) requires i % 2 == 0, k == i / 2;
            assert(hex_piece(bytes@, k) == bytes@.subrange(i as int, end as int));
        }
        if is_hex(bytes[i]) && (end == i + 1 || is_hex(bytes[i + 1])) {
            let hi = hex_digit(bytes[i]);
            if end - i == 2 {
                let lo = hex_digit(bytes[i + 1]);
                out.push(hi * 16 + lo);
            } else {
                out.push(hi);
            }
            assert(all_hex(hex_piece(bytes@, k)));
        } else {
            let chunk = slice_subrange(bytes, i, end);
            proof {
                let piece = hex_piece(bytes@, k);
                if !is_hex_byte(bytes@[i as int]) {
                    assert(piece[0] == bytes@[i as int]);
                } else {
                    assert(piece[1] == bytes@[i + 1]);
                }
            }
            match utf8_text(chunk) {
                Err(e) => {
                    return Err(ByteDecodeError::DecodeError(e));
                },
                Ok(t) => match parse_hex_u8(t) {
                    Err(e) => {
                        proof {
                            assert forall|m: int| #[trigger]
                                first_bad_piece(bytes@, m) implies valid_utf8(hex_piece(bytes@, m)) by {
                                if m > k {
                                    assert(all_hex(hex_piece(bytes@, k)));
                                }
                            }
                        }
                        return Err(ByteDecodeError::ParseError(e));
                    },
                    Ok(v) => {
                        out.push(v);
                    },
                },
            }
        }
        proof {
            assert((i + 2) / 2 == i / 2 + 1 && (i + 1) / 2 == i / 2 && (i + 2) % 2 == 0) by (nonlinear_arith)
                requires i % 2 == 0;
            if all_hex(bytes@) {
                assert(is_hex_byte(bytes@[i as int]));
                let k = i / 2;
                assert(2 * k == i) by (nonlinear_arith) requires i % 2 == 0, k == i / 2;
            }
        }
        i = end;
    }
    proof {
        if all_hex(bytes@) {
            assert(out@ =~= hex_decoded(bytes@));
        }
        assert forall|m: int| #[trigger]
            first_bad_piece(bytes@, m) implies valid_utf8(hex_piece(bytes@, m)) by {
            assert(0 <= m < out@.len()) by (nonlinear_arith)
                requires 0 <= 2 * m < n, out@.len() == (n + 1) / 2;
        }
    }
    Ok(out)
}

/// Whether `c` is the code of a hex digit.
fn is_hex(c: u8) -> (r: bool)
    ensures
        r == is_hex_byte(c),
{
    (48 <= c && c <= 57) || (97 <= c && c <= 102) || (65 <= c && c <= 70)
}

/// The code of a digit from `digit_char` is a hex digit of the same value.
proof fn lemma_digit_value(n: u8)
    requires
        n < 16,
    ensures
        is_hex_byte(digit_char(n) as u8),
        hex_value(digit_char(n) as u8) == n,
        '\0' <= digit_char(n) <= '\u{7f}',
{
}

/// Decoding the hex text of any bytes gives those bytes back: the text is made
/// of hex digits alone, so decoding succeeds, and each pair of digits reads
/// back as its byte.
pub proof fn lemma_hex_round_trip(b: Seq<u8>)
    ensures
        all_hex(encode_utf8(hex_chars(b))),
        hex_decoded(encode_utf8(hex_chars(b))) == b,
{
    let c = hex_chars(b);
    assert forall|k: int| 0 <= k < c.len() implies '\0' <= #[trigger] c[k] <= '\u{7f}'
        && is_hex_byte(c[k] as u8) && hex_value(c[k] as u8) == (if k % 2 == 0 {
        b[k / 2] / 16
    } else {
        b[k / 2] % 16
    }) by {
        assert(0 <= k / 2 < b.len()) by (nonlinear_arith)
            requires 0 <= k < 2 * b.len();
        lemma_digit_value(b[k / 2] / 16);
        lemma_digit_value(b[k / 2] % 16);
    }
    assert(is_ascii_chars(c));
    is_ascii_chars_encode_utf8(c);
    let t = encode_utf8(c);
    assert(forall|k: int| 0 <= k < c.len() ==> t[k] == c[k] as u8);
    assert forall|k: int| 0 <= k < b.len() implies #[trigger] hex_decoded(t)[k] == b[k] by {
        assert((2 * k) % 2 == 0 && (2 * k) / 2 == k && (2 * k + 1) % 2 == 1 && (2 * k + 1) / 2 == k)
            by (nonlinear_arith);
        assert(2 * k + 1 < t.len());
        assert(hex_value(t[2 * k]) == b[k] / 16);
        assert(hex_value(t[2 * k + 1]) == b[k] % 16);
    }
    assert(((t.len() + 1) / 2) as nat == b.len());
    assert(hex_decoded(t) =~= b);
}

} // verus!
