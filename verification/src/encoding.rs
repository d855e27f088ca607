//! The conversion capability: a codec between application text (Unicode
//! scalar values, i.e. `char`s) and the native wide encoding (16-bit code
//! units, surrogate pairs for supplementary characters).
//!
//! The spec functions [`encode_utf16`] and [`decode_utf16`] are the
//! mathematical model; every conversion in this crate states its result in
//! terms of them. [`lemma_utf16_round_trip`] proves that decoding an encoded
//! text yields the original text, for all texts.

use vstd::prelude::*;

verus! {

/// First half of a surrogate pair.
pub open spec fn is_high_surrogate(u: u16) -> bool {
    0xD800 <= u && u <= 0xDBFF
}

/// Second half of a surrogate pair.
pub open spec fn is_low_surrogate(u: u16) -> bool {
    0xDC00 <= u && u <= 0xDFFF
}

/// A code unit that cannot stand alone for a character.
pub open spec fn is_surrogate(u: u16) -> bool {
    0xD800 <= u && u <= 0xDFFF
}

/// The code units a single character contributes to the native encoding:
/// one unit for a basic-plane character, a surrogate pair otherwise.
pub open spec fn encode_char_utf16(c: char) -> Seq<u16> {
    let u = c as u32;
    if u < 0x10000 {
        seq![u as u16]
    } else {
        seq![
            (0xD800 + (u - 0x10000) / 0x400) as u16,
            (0xDC00 + (u - 0x10000) % 0x400) as u16,
        ]
    }
}

/// The native encoding of a text: the concatenation of each character's
/// code units, without a terminator.
pub open spec fn encode_utf16(s: Seq<char>) -> Seq<u16>
    decreases s.len(),
{
    if s.len() == 0 {
        Seq::empty()
    } else {
        encode_char_utf16(s[0]) + encode_utf16(s.drop_first())
    }
}

/// The character a well-formed surrogate pair stands for.
pub open spec fn combine_surrogates(hi: u16, lo: u16) -> u32 {
    (0x10000 + (hi - 0xD800) * 0x400 + (lo - 0xDC00)) as u32
}

/// Decoding a sequence of code units back into text. `None` exactly when the
/// units are malformed: a lone or misordered surrogate. Malformed input is
/// rejected, never silently replaced or truncated.
pub open spec fn decode_utf16(units: Seq<u16>) -> Option<Seq<char>>
    decreases units.len(),
{
    if units.len() == 0 {
        Some(Seq::empty())
    } else if !is_surrogate(units[0]) {
        match decode_utf16(units.drop_first()) {
            Some(rest) => Some(seq![(units[0] as u32) as char] + rest),
            None => None,
        }
    } else if is_high_surrogate(units[0]) && units.len() >= 2 && is_low_surrogate(units[1]) {
        match decode_utf16(units.skip(2)) {
            Some(rest) => Some(seq![(combine_surrogates(units[0], units[1])) as char] + rest),
            None => None,
        }
    } else {
        None
    }
}

/// Law (round trip): decoding the native encoding of any text yields exactly
/// that text. Together with the conversions' own contracts, this carries the
/// round trip from every input representation through the native encoding
/// and back.
pub proof fn lemma_utf16_round_trip(s: Seq<char>)
    ensures
        decode_utf16(encode_utf16(s)) == Some(s),
    decreases s.len(),
{
    if s.len() == 0 {
        assert(s =~= Seq::<char>::empty());
    } else {
        let c = s[0];
        let u = c as u32;
        let rest = s.drop_first();
        lemma_utf16_round_trip(rest);
        vstd::utf8::char_is_scalar(c);
        let enc = encode_utf16(s);
        if u < 0x10000 {
            let unit = u as u16;
            assert(encode_char_utf16(c) =~= seq![unit]);
            assert(!is_surrogate(unit));
            assert(enc[0] == unit);
            assert(enc.drop_first() =~= encode_utf16(rest));
            assert((unit as u32) == u);
            vstd::utf8::char_u32_cast(c, u);
            assert(decode_utf16(enc) == Some(seq![c] + rest));
            assert(seq![c] + rest =~= s);
        } else {
            let v = u - 0x10000;
            assert(0 <= v < 0x100000);
            let q = v / 0x400;
            let r = v % 0x400;
            assert(0 <= q < 0x400 && 0 <= r < 0x400 && v == q * 0x400 + r) by {
                vstd::arithmetic::div_mod::lemma_fundamental_div_mod(v, 0x400);
                vstd::arithmetic::div_mod::lemma_mod_bound(v, 0x400);
                assert(0 <= v / 0x400 < 0x400) by (nonlinear_arith)
                    requires 0 <= v < 0x100000;
            }
            let hi = (0xD800 + q) as u16;
            let lo = (0xDC00 + r) as u16;
            assert(encode_char_utf16(c) =~= seq![hi, lo]);
            assert(is_high_surrogate(hi) && is_low_surrogate(lo));
            assert(enc[0] == hi && enc[1] == lo);
            assert(enc.skip(2) =~= encode_utf16(rest));
            assert(combine_surrogates(hi, lo) == u);
            vstd::utf8::char_u32_cast(c, u);
            assert(decode_utf16(enc) == Some(seq![c] + rest));
            assert(seq![c] + rest =~= s);
        }
    }
}

/// Law (decoding is exact): a unit sequence that decodes at all re-encodes
/// to exactly itself, so nothing is lost or altered in either direction.
pub proof fn lemma_utf16_decode_exact(units: Seq<u16>)
    requires
        decode_utf16(units) is Some,
    ensures
        encode_utf16(decode_utf16(units)->0) == units,
    decreases units.len(),
{
    let t = decode_utf16(units)->0;
    if units.len() == 0 {
        assert(encode_utf16(t) =~= units);
    } else if !is_surrogate(units[0]) {
        let u0 = units[0];
        let rest = units.drop_first();
        lemma_utf16_decode_exact(rest);
        let c = (u0 as u32) as char;
        assert((c as u32) == u0 as u32);
        assert(t == seq![c] + decode_utf16(rest)->0);
        assert(t[0] == c);
        assert(t.drop_first() =~= decode_utf16(rest)->0);
        assert(encode_char_utf16(c) =~= seq![u0]);
        assert(encode_utf16(t) =~= units);
    } else {
        let hi = units[0];
        let lo = units[1];
        let rest = units.skip(2);
        lemma_utf16_decode_exact(rest);
        let u = combine_surrogates(hi, lo);
        assert(0x10000 <= u && u <= 0x10FFFF);
        let c = u as char;
        assert((c as u32) == u);
        assert(t == seq![c] + decode_utf16(rest)->0);
        assert(t[0] == c);
        assert(t.drop_first() =~= decode_utf16(rest)->0);
        let v = u - 0x10000;
        vstd::arithmetic::div_mod::lemma_fundamental_div_mod_converse(
            v as int,
            0x400,
            hi - 0xD800,
            lo - 0xDC00,
        );
        assert(encode_char_utf16(c) =~= seq![hi, lo]);
        assert(encode_utf16(t) =~= units);
    }
}

/// Appending one character to a text appends exactly its code units to the
/// encoding.
pub proof fn lemma_encode_utf16_push(s: Seq<char>, c: char)
    ensures
        encode_utf16(s.push(c)) == encode_utf16(s) + encode_char_utf16(c),
    decreases s.len(),
{
    if s.len() == 0 {
        assert(s.push(c)[0] == c);
        assert(s.push(c).drop_first() =~= Seq::<char>::empty());
        assert(encode_utf16(Seq::<char>::empty()) == Seq::<u16>::empty());
        assert(s =~= Seq::<char>::empty());
        assert(encode_utf16(s.push(c)) == encode_char_utf16(c) + Seq::<u16>::empty());
        assert(encode_utf16(s.push(c)) =~= encode_utf16(s) + encode_char_utf16(c));
    } else {
        lemma_encode_utf16_push(s.drop_first(), c);
        assert(s.push(c)[0] == s[0]);
        assert(s.push(c).drop_first() =~= s.drop_first().push(c));
        assert(encode_utf16(s.push(c)) == encode_char_utf16(s[0]) + encode_utf16(
            s.drop_first().push(c),
        ));
        assert(encode_char_utf16(s[0]) + (encode_utf16(s.drop_first()) + encode_char_utf16(c))
            =~= encode_utf16(s) + encode_char_utf16(c));
    }
}

/// Encodes application text into native code units and appends the
/// terminator. Every input, the empty text included, yields a buffer that
/// ends in the terminator, so the result is never empty.
pub fn encode_utf16z(s: &str) -> (r: Vec<u16>)
    ensures
        r@ == encode_utf16(s@) + seq![0u16],
{
    broadcast use vstd::string::axiom_spec_iter;

    let mut v: Vec<u16> = Vec::new();
    for c in it: s.chars()
        invariant
            it.seq() == s@,
            v@ == encode_utf16(it.seq().take(it.index())),
    {
        proof {
            assert(it.seq().take(it.index() + 1) =~= it.seq().take(it.index()).push(c));
            lemma_encode_utf16_push(it.seq().take(it.index()), c);
        }
        let u = c as u32;
        if u < 0x10000 {
            v.push(u as u16);
        } else {
            let w = u - 0x10000;
            proof {
                vstd::utf8::char_is_scalar(c);
                vstd::arithmetic::div_mod::lemma_mod_bound(w as int, 0x400);
                assert(0 <= (w as int) / 0x400 < 0x400) by (nonlinear_arith)
                    requires 0 <= (w as int) < 0x100000;
            }
            let hi: u32 = 0xD800 + w / 0x400;
            let lo: u32 = 0xDC00 + w % 0x400;
            v.push(hi as u16);
            v.push(lo as u16);
        }
        proof {
            assert(v@ =~= encode_utf16(it.seq().take(it.index() + 1)));
        }
    }
    proof {
        assert(s@.take(s@.len() as int) =~= s@);
    }
    v.push(0);
    proof {
        assert(v@ =~= encode_utf16(s@) + seq![0u16]);
    }
    v
}

/// Relies on `char::from_u32`: returns `Some` exactly for Unicode scalar
/// values, and the returned character has the given value.
#[verifier::external_body]
fn char_from_u32(u: u32) -> (r: Option<char>)
    ensures
        r is Some <==> vstd::utf8::is_scalar(u),
        r matches Some(c) ==> c as u32 == u,
{
    char::from_u32(u)
}

/// Relies on `String::push`: appends one character to the string.
#[verifier::external_body]
fn push_char(s: &mut String, c: char)
    ensures
        final(s)@ == old(s)@.push(c),
{
    s.push(c)
}

/// Decodes native code units (without a terminator) back into application
/// text. Fails, rather than substituting or truncating, exactly on malformed
/// input: a lone or misordered surrogate.
pub fn utf16_to_string(units: &[u16]) -> (r: Option<String>)
    ensures
        r is Some <==> decode_utf16(units@) is Some,
        r matches Some(s) ==> Some(s@) == decode_utf16(units@),
{
    let mut out = String::new();
    let mut i: usize = 0;
    proof {
        assert(units@.skip(0) =~= units@);
        if decode_utf16(units@) is Some {
            assert(out@ + decode_utf16(units@)->0 =~= decode_utf16(units@)->0);
        }
    }
    while i < units.len()
        invariant
            0 <= i <= units@.len(),
            decode_utf16(units@) == (match decode_utf16(units@.skip(i as int)) {
                Some(rest) => Some(out@ + rest),
                None => None::<Seq<char>>,
            }),
        decreases units@.len() - i,
    {
        let ghost pending = units@.skip(i as int);
        let u0 = units[i];
        if !(0xD800 <= u0 && u0 <= 0xDFFF) {
            proof {
                assert(pending.drop_first() =~= units@.skip(i as int + 1));
            }
            match char_from_u32(u0 as u32) {
                Some(c) => {
                    proof {
                        vstd::utf8::char_u32_cast(c, u0 as u32);
                        let rest = decode_utf16(units@.skip(i as int + 1))->0;
                        assert(out@ + (seq![c] + rest) =~= out@.push(c) + rest);
                    }
                    push_char(&mut out, c);
                    i = i + 1;
                },
                None => {
                    return unreached();
                },
            }
        } else if u0 <= 0xDBFF && i + 1 < units.len() && 0xDC00 <= units[i + 1]
            && units[i + 1] <= 0xDFFF {
            let u1 = units[i + 1];
            let w: u32 = 0x10000 + ((u0 as u32) - 0xD800) * 0x400 + ((u1 as u32) - 0xDC00);
            proof {
                assert(pending[1] == u1);
                assert(pending.skip(2) =~= units@.skip(i as int + 2));
                assert(w == combine_surrogates(u0, u1));
            }
            match char_from_u32(w) {
                Some(c) => {
                    proof {
                        vstd::utf8::char_u32_cast(c, w);
                        let rest = decode_utf16(units@.skip(i as int + 2))->0;
                        assert(out@ + (seq![c] + rest) =~= out@.push(c) + rest);
                    }
                    push_char(&mut out, c);
                    i = i + 2;
                },
                None => {
                    return unreached();
                },
            }
        } else {
            // A lone high surrogate without its pair, or a leading low
            // surrogate: malformed.
            assert(decode_utf16(units@) is None);
            return None;
        }
    }
    proof {
        assert(units@.skip(i as int) =~= Seq::<u16>::empty());
        assert(out@ + Seq::<char>::empty() =~= out@);
    }
    Some(out)
}

} // verus!

