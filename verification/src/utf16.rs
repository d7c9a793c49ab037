//! Decoding the engine's wide-character strings into host strings.
//!
//! The engine hands text over as sequences of UTF-16 code units. Decoding is
//! total: a well-formed surrogate pair becomes one supplementary character,
//! any unpaired surrogate becomes the Unicode replacement character, and the
//! decode never fails.

use vstd::prelude::*;

verus! {

/// The Unicode replacement character substituted for unpaired surrogates.
pub const REPLACEMENT_CHAR: char = '\u{FFFD}';

/// True of any code unit in the surrogate range, which never stands for a
/// character on its own.
pub open spec fn is_surrogate(u: u16) -> bool {
    0xD800 <= u < 0xE000
}

/// True of a leading (high) surrogate.
pub open spec fn is_high_surrogate(u: u16) -> bool {
    0xD800 <= u < 0xDC00
}

/// True of a trailing (low) surrogate.
pub open spec fn is_low_surrogate(u: u16) -> bool {
    0xDC00 <= u < 0xE000
}

/// The supplementary character encoded by a surrogate pair.
pub open spec fn combined_char(hi: u16, lo: u16) -> char {
    (((0x10000 + (hi - 0xD800) * 0x400 + (lo - 0xDC00))) as u32) as char
}

/// A code unit outside the surrogate range stands for itself.
pub open spec fn bmp_char(u: u16) -> char {
    (u as u32) as char
}

/// The replacement-character decoding of a UTF-16 code-unit sequence: each
/// non-surrogate unit stands for itself, a high surrogate followed by a low
/// surrogate forms one supplementary character, and any other surrogate is
/// replaced. The decode consumes every unit and never fails.
pub open spec fn decode_utf16_replace(s: Seq<u16>) -> Seq<char>
    decreases s.len(),
{
    if s.len() == 0 {
        Seq::<char>::empty()
    } else if !is_surrogate(s[0]) {
        seq![bmp_char(s[0])] + decode_utf16_replace(s.drop_first())
    } else if is_high_surrogate(s[0]) && s.len() >= 2 && is_low_surrogate(s[1]) {
        seq![combined_char(s[0], s[1])] + decode_utf16_replace(s.skip(2))
    } else {
        seq![REPLACEMENT_CHAR] + decode_utf16_replace(s.drop_first())
    }
}

/// Robustness of the decode: a sequence that starts with an unpaired
/// surrogate decodes to the replacement character followed by the decode of
/// the rest, rather than failing.
pub proof fn lemma_unpaired_surrogate_replaced(s: Seq<u16>)
    requires
        s.len() > 0,
        is_surrogate(s[0]),
        !(is_high_surrogate(s[0]) && s.len() >= 2 && is_low_surrogate(s[1])),
    ensures
        decode_utf16_replace(s) == seq![REPLACEMENT_CHAR] + decode_utf16_replace(s.drop_first()),
        decode_utf16_replace(s)[0] == REPLACEMENT_CHAR,
{
    assert(decode_utf16_replace(s)[0] == REPLACEMENT_CHAR);
}

/// Relies on char::from_u32: for every value outside the surrogate range and
/// below 0x110000 it returns the character with exactly that scalar value.
#[verifier::external_body]
fn char_from_u32(u: u32) -> (r: char)
    requires
        u < 0xD800 || (0xE000 <= u && u < 0x110000),
    ensures
        r == u as char,
{
    char::from_u32(u).unwrap_or(REPLACEMENT_CHAR)
}

/// Relies on String's FromIterator over char: collecting characters yields
/// the string of exactly those characters, in order.
#[verifier::external_body]
fn chars_to_string(v: &Vec<char>) -> (r: String)
    ensures
        r@ == v@,
{
    v.iter().collect()
}

/// Decodes a wide string from the engine into a host string, substituting
/// the replacement character for unpaired surrogates.
pub fn decode_utf16_lossy(units: &Vec<u16>) -> (r: String)
    ensures
        r@ == decode_utf16_replace(units@),
{
    let chars = decode_utf16_chars(units);
    chars_to_string(&chars)
}

/// The character-level decode behind [`decode_utf16_lossy`].
pub fn decode_utf16_chars(units: &Vec<u16>) -> (r: Vec<char>)
    ensures
        r@ == decode_utf16_replace(units@),
{
    let n = units.len();
    let mut out: Vec<char> = Vec::new();
    let mut i: usize = 0;
    proof {
        assert(units@.skip(0) =~= units@);
        assert(Seq::<char>::empty() + decode_utf16_replace(units@) =~= decode_utf16_replace(
            units@,
        ));
    }
    while i < n
        invariant
            i <= n,
            n == units@.len(),
            out@ + decode_utf16_replace(units@.skip(i as int)) == decode_utf16_replace(units@),
        decreases n - i,
    {
        let u = units[i];
        let ghost rest = units@.skip(i as int);
        proof {
            assert(rest[0] == units@[i as int]);
        }
        if u < 0xD800 || u >= 0xE000 {
            let c = char_from_u32(u as u32);
            out.push(c);
            proof {
                assert(rest.drop_first() =~= units@.skip(i + 1));
            }
            i = i + 1;
        } else if u < 0xDC00 && i + 1 < n && 0xDC00 <= units[i + 1] && units[i + 1] < 0xE000 {
            let lo = units[i + 1];
            let code: u32 = 0x10000 + ((u as u32) - 0xD800) * 0x400 + ((lo as u32) - 0xDC00);
            let c = char_from_u32(code);
            out.push(c);
            proof {
                assert(rest.len() >= 2);
                assert(rest[1] == units@[i + 1]);
                assert(rest.skip(2) =~= units@.skip(i + 2));
                assert(c == combined_char(u, lo));
            }
            i = i + 2;
        } else {
            out.push(REPLACEMENT_CHAR);
            proof {
                assert(rest.drop_first() =~= units@.skip(i + 1));
            }
            i = i + 1;
        }
    }
    proof {
        assert(units@.skip(n as int) =~= Seq::<u16>::empty());
        assert(out@ + Seq::<char>::empty() =~= out@);
    }
    out
}

} // verus!
