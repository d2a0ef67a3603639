//! UTF-16 encoding and decoding for the managed-object bridge.
//!
//! The managed runtime hosted inside the guest stores its strings as UTF-16
//! code units in the guest's linear memory. Encoding turns a host character
//! sequence into code units (one unit for a character in the basic
//! multilingual plane, a surrogate pair for one above it); decoding is
//! lossy and never fails — an unpaired surrogate decodes to the
//! replacement character.

use vstd::prelude::*;
use vstd::string::StrSliceExecFns;
use vstd::utf8::{char_is_scalar, char_u32_cast};

verus! {

/// True for the first unit of a surrogate pair.
pub open spec fn is_high_surrogate(u: u16) -> bool {
    0xD800 <= u <= 0xDBFF
}

/// True for the second unit of a surrogate pair.
pub open spec fn is_low_surrogate(u: u16) -> bool {
    0xDC00 <= u <= 0xDFFF
}

/// The scalar value a surrogate pair stands for.
pub open spec fn combine_surrogates(h: u16, l: u16) -> u32
    recommends
        is_high_surrogate(h),
        is_low_surrogate(l),
{
    (0x10000 + (h - 0xD800) * 0x400 + (l - 0xDC00)) as u32
}

/// The UTF-16 encoding of one character: the character's own scalar value
/// as a single unit when it lies in the basic multilingual plane, and a
/// surrogate pair above it.
pub open spec fn encode_utf16_char(c: char) -> Seq<u16> {
    let u = c as u32;
    if u < 0x10000 {
        seq![u as u16]
    } else {
        seq![
            (0xD800 + (u - 0x10000) / 0x400) as u16,
            (0xDC00 + (u - 0x10000) % 0x400) as u16,
        ]
    }
}

/// The UTF-16 encoding of a character sequence: each character's encoding,
/// concatenated in order.
pub open spec fn encode_utf16(s: Seq<char>) -> Seq<u16>
    decreases s.len(),
{
    if s.len() == 0 {
        Seq::empty()
    } else {
        encode_utf16_char(s[0]) + encode_utf16(s.skip(1))
    }
}

/// Lossy UTF-16 decoding: a well-placed surrogate pair decodes to the
/// scalar it stands for, an unpaired surrogate decodes to the replacement
/// character, and any other unit decodes to itself. Decoding never fails.
pub open spec fn decode_utf16_lossy(units: Seq<u16>) -> Seq<char>
    decreases units.len(),
{
    if units.len() == 0 {
        Seq::empty()
    } else if is_high_surrogate(units[0]) && units.len() >= 2 && is_low_surrogate(units[1]) {
        seq![combine_surrogates(units[0], units[1]) as char] + decode_utf16_lossy(units.skip(2))
    } else if is_high_surrogate(units[0]) || is_low_surrogate(units[0]) {
        seq!['\u{fffd}'] + decode_utf16_lossy(units.skip(1))
    } else {
        seq![(units[0] as u32) as char] + decode_utf16_lossy(units.skip(1))
    }
}

/// Appending one character to a sequence appends that character's encoding.
pub proof fn lemma_encode_utf16_push(s: Seq<char>, c: char)
    ensures
        encode_utf16(s.push(c)) == encode_utf16(s) + encode_utf16_char(c),
    decreases s.len(),
{
    let e = s.push(c);
    assert(e.len() == s.len() + 1);
    if s.len() == 0 {
        assert(e[0] == c);
        assert(e.skip(1) =~= Seq::<char>::empty());
        assert(encode_utf16(e) == encode_utf16_char(c) + encode_utf16(e.skip(1)));
        assert(encode_utf16(e.skip(1)) == Seq::<u16>::empty());
        assert(encode_utf16(s) == Seq::<u16>::empty());
        assert(encode_utf16_char(c) + Seq::<u16>::empty() =~= encode_utf16_char(c));
        assert(Seq::<u16>::empty() + encode_utf16_char(c) =~= encode_utf16_char(c));
    } else {
        assert(e[0] == s[0]);
        assert(e.skip(1) =~= s.skip(1).push(c));
        lemma_encode_utf16_push(s.skip(1), c);
        assert(encode_utf16(e) == encode_utf16_char(s[0]) + (encode_utf16(s.skip(1))
            + encode_utf16_char(c)));
        assert(encode_utf16(s) == encode_utf16_char(s[0]) + encode_utf16(s.skip(1)));
        assert(encode_utf16_char(s[0]) + (encode_utf16(s.skip(1)) + encode_utf16_char(c)) =~= (
        encode_utf16_char(s[0]) + encode_utf16(s.skip(1))) + encode_utf16_char(c));
    }
}

/// Decoding the encoding of any host character sequence gives the sequence
/// back exactly: encoding emits no unpaired surrogate, so the lossy decoder
/// reconstructs every character, in and above the basic multilingual plane.
pub proof fn lemma_utf16_round_trip(s: Seq<char>)
    ensures
        decode_utf16_lossy(encode_utf16(s)) == s,
    decreases s.len(),
{
    if s.len() == 0 {
        assert(decode_utf16_lossy(encode_utf16(s)) =~= s);
    } else {
        let c = s[0];
        let u = c as u32;
        char_is_scalar(c);
        let e = encode_utf16(s);
        let rest = encode_utf16(s.skip(1));
        lemma_utf16_round_trip(s.skip(1));
        if u < 0x10000 {
            assert(e == seq![u as u16] + rest);
            assert(e[0] == u as u16);
            assert(e.skip(1) =~= rest);
            assert(!(0xD800 <= u <= 0xDFFF));
            assert(!is_high_surrogate(e[0]) && !is_low_surrogate(e[0]));
            char_u32_cast(c, u);
            assert((e[0] as u32) == u);
            assert(decode_utf16_lossy(e) == seq![c] + decode_utf16_lossy(e.skip(1)));
            assert(decode_utf16_lossy(e) =~= s);
        } else {
            let d = u - 0x10000;
            assert(0 <= d <= 0xFFFFF);
            assert(0 <= d / 0x400 <= 0x3FF && 0 <= d % 0x400 <= 0x3FF && d == (d / 0x400) * 0x400
                + d % 0x400) by (nonlinear_arith)
                requires
                    0 <= d <= 0xFFFFF,
            ;
            let h = (0xD800 + d / 0x400) as u16;
            let l = (0xDC00 + d % 0x400) as u16;
            assert(e == seq![h, l] + rest);
            assert(e[0] == h && e[1] == l);
            assert(is_high_surrogate(h) && is_low_surrogate(l));
            assert(combine_surrogates(h, l) == u);
            assert(e.skip(2) =~= rest);
            char_u32_cast(c, u);
            assert(decode_utf16_lossy(e) == seq![c] + decode_utf16_lossy(e.skip(2)));
            assert(decode_utf16_lossy(e) =~= s);
        }
    }
}

/// A character sequence never takes more UTF-16 code units than UTF-8
/// bytes: a character in the basic multilingual plane is one unit and at
/// least one byte, one above it is two units and four bytes.
pub proof fn lemma_utf16_no_longer_than_utf8(s: Seq<char>)
    ensures
        encode_utf16(s).len() <= vstd::utf8::encode_utf8(s).len(),
    decreases s.len(),
{
    if s.len() > 0 {
        char_is_scalar(s[0]);
        assert(s.drop_first() =~= s.skip(1));
        lemma_utf16_no_longer_than_utf8(s.skip(1));
        let u = s[0] as u32;
        if u < 0x10000 {
            assert(encode_utf16_char(s[0]).len() == 1);
            assert(vstd::utf8::encode_scalar(u).len() >= 1);
        } else {
            assert(encode_utf16_char(s[0]).len() == 2);
            assert(vstd::utf8::encode_scalar(u).len() == 4);
        }
    }
}

/// Relies on `char::from_u32`: `Some` exactly for Unicode scalar values
/// (below the surrogate range, or above it and at most `0x10FFFF`), and the
/// returned character has the given scalar value.
#[verifier::external_body]
fn char_from_u32(u: u32) -> (r: Option<char>)
    ensures
        r matches Some(c) ==> c as u32 == u,
        r is Some <==> (u < 0xD800 || (0xE000 <= u && u <= 0x10FFFF)),
{
    char::from_u32(u)
}

/// Relies on `String::push`: appends exactly the given character.
#[verifier::external_body]
fn push_char(s: &mut String, c: char)
    ensures
        final(s)@ == old(s)@.push(c),
{
    s.push(c);
}

/// Encodes a host string as UTF-16 code units.
pub fn encode_units(s: &str) -> (r: Vec<u16>)
    ensures
        r@ == encode_utf16(s@),
{
    let n = s.unicode_len();
    let mut out: Vec<u16> = Vec::new();
    let mut i: usize = 0;
    while i < n
        invariant
            n == s@.len(),
            0 <= i <= n,
            out@ == encode_utf16(s@.take(i as int)),
        decreases n - i,
    {
        let c = s.get_char(i);
        proof {
            char_is_scalar(c);
            assert(s@.take(i + 1) =~= s@.take(i as int).push(s@[i as int]));
            lemma_encode_utf16_push(s@.take(i as int), s@[i as int]);
        }
        let u = c as u32;
        if u < 0x10000 {
            out.push(u as u16);
        } else {
            let d = u - 0x10000;
            proof {
                assert(0 <= d / 0x400 <= 0x3FF && 0 <= d % 0x400 <= 0x3FF) by (nonlinear_arith)
                    requires
                        0 <= d <= 0xFFFFF,
                ;
            }
            out.push((0xD800 + d / 0x400) as u16);
            out.push((0xDC00 + d % 0x400) as u16);
        }
        proof {
            assert(out@ =~= encode_utf16(s@.take(i + 1)));
        }
        i = i + 1;
    }
    proof {
        assert(s@.take(n as int) =~= s@);
    }
    out
}

/// Decodes UTF-16 code units into a host string, lossily: an unpaired
/// surrogate becomes the replacement character, and decoding never fails.
pub fn decode_units(units: &Vec<u16>) -> (r: String)
    ensures
        r@ == decode_utf16_lossy(units@),
{
    let n = units.len();
    let mut out = String::new();
    let mut i: usize = 0;
    proof {
        assert(units@.skip(0) =~= units@);
        assert(out@ + decode_utf16_lossy(units@) =~= decode_utf16_lossy(units@));
    }
    while i < n
        invariant
            n == units@.len(),
            0 <= i <= n,
            decode_utf16_lossy(units@) == out@ + decode_utf16_lossy(units@.skip(i as int)),
        decreases n - i,
    {
        let ghost pre = units@.skip(i as int);
        let ghost out0 = out@;
        proof {
            assert(pre[0] == units@[i as int]);
            assert(pre.len() == n - i);
        }
        let u = units[i];
        if 0xD800 <= u && u <= 0xDBFF && i + 1 < n && 0xDC00 <= units[i + 1] && units[i + 1]
            <= 0xDFFF {
            let l = units[i + 1];
            let scalar = 0x10000u32 + (u as u32 - 0xD800) * 0x400 + (l as u32 - 0xDC00);
            proof {
                assert(pre[1] == units@[i + 1]);
                assert(scalar == combine_surrogates(u, l));
                assert(pre.skip(2) =~= units@.skip(i + 2));
                assert(decode_utf16_lossy(pre) == seq![(scalar as char)] + decode_utf16_lossy(
                    units@.skip(i + 2),
                ));
            }
            match char_from_u32(scalar) {
                Some(c) => {
                    proof {
                        char_u32_cast(c, scalar);
                    }
                    push_char(&mut out, c);
                },
                None => {
                    push_char(&mut out, '\u{fffd}');
                },
            }
            proof {
                assert(out@ =~= out0.push((scalar as char)));
                assert(out@ + decode_utf16_lossy(units@.skip(i + 2)) =~= out0
                    + decode_utf16_lossy(pre));
            }
            i = i + 2;
        } else if (0xD800 <= u && u <= 0xDBFF) || (0xDC00 <= u && u <= 0xDFFF) {
            proof {
                assert(pre.skip(1) =~= units@.skip(i + 1));
                assert(decode_utf16_lossy(pre) == seq!['\u{fffd}'] + decode_utf16_lossy(
                    units@.skip(i + 1),
                ));
            }
            push_char(&mut out, '\u{fffd}');
            proof {
                assert(out@ + decode_utf16_lossy(units@.skip(i + 1)) =~= out0
                    + decode_utf16_lossy(pre));
            }
            i = i + 1;
        } else {
            proof {
                assert(pre.skip(1) =~= units@.skip(i + 1));
                assert(decode_utf16_lossy(pre) == seq![((u as u32) as char)] + decode_utf16_lossy(
                    units@.skip(i + 1),
                ));
            }
            match char_from_u32(u as u32) {
                Some(c) => {
                    proof {
                        char_u32_cast(c, u as u32);
                    }
                    push_char(&mut out, c);
                },
                None => {
                    push_char(&mut out, '\u{fffd}');
                },
            }
            proof {
                assert(out@ =~= out0.push(((u as u32) as char)));
                assert(out@ + decode_utf16_lossy(units@.skip(i + 1)) =~= out0
                    + decode_utf16_lossy(pre));
            }
            i = i + 1;
        }
    }
    proof {
        assert(units@.skip(n as int) =~= Seq::<u16>::empty());
        assert(out@ =~= decode_utf16_lossy(units@));
    }
    out
}

} // verus!
