//! Hex-encoded field constants.
//!
//! Every constant of the permutation is stored as a string with a
//! two-character prefix (conventionally "0x") followed by hex digits giving
//! an unsigned big integer.  This module decodes such an entry, working on
//! the string's bytes; the digits are read big-endian and the value is
//! reduced into the field.

use vstd::prelude::*;

use vstd::utf8::encode_utf8;

use crate::field::Fe;
use crate::field::field_prime;
use crate::field::le_bytes_value;
use crate::field::lemma_le_bytes_value_first;
use crate::field::lemma_le_bytes_value_push;
use crate::field::pow256;

verus! {

/// The byte is the ASCII code of a hex digit.
pub open spec fn is_hex_digit(b: u8) -> bool {
    (48 <= b && b <= 57) || (97 <= b && b <= 102) || (65 <= b && b <= 70)
}

/// The numeric value of an ASCII hex digit, with both letter cases accepted.
pub open spec fn hex_digit_value(b: u8) -> nat {
    if 48 <= b && b <= 57 {
        (b - 48) as nat
    } else if 97 <= b && b <= 102 {
        (b - 87) as nat
    } else if 65 <= b && b <= 70 {
        (b - 55) as nat
    } else {
        0
    }
}

/// 16 raised to the power `k`.
pub open spec fn pow16(k: nat) -> nat
    decreases k,
{
    if k == 0 {
        1
    } else {
        16 * pow16((k - 1) as nat)
    }
}

/// The value of a byte sequence read as big-endian hex digits.
pub open spec fn hex_value(s: Seq<u8>) -> nat
    decreases s.len(),
{
    if s.len() == 0 {
        0
    } else {
        hex_value(s.drop_last()) * 16 + hex_digit_value(s.last())
    }
}

/// Digits written before others weigh by the power of 16 of the count that
/// follows them.
pub proof fn lemma_hex_value_prepend(x: Seq<u8>, y: Seq<u8>)
    ensures
        hex_value(x + y) == hex_value(x) * pow16(y.len()) + hex_value(y),
    decreases y.len(),
{
    if y.len() == 0 {
        assert(x + y =~= x);
        assert(pow16(0) == 1);
    } else {
        assert((x + y).drop_last() =~= x + y.drop_last());
        lemma_hex_value_prepend(x, y.drop_last());
        assert((x + y).last() == y.last());
        assert(pow16(y.len()) == 16 * pow16((y.len() - 1) as nat));
        assert((hex_value(x) * pow16((y.len() - 1) as nat) + hex_value(y.drop_last())) * 16
            == hex_value(x) * (16 * pow16((y.len() - 1) as nat)) + hex_value(y.drop_last())
            * 16) by (nonlinear_arith);
    }
}

/// An even power of 16 is the matching power of 256.
pub proof fn lemma_pow16_even(k: nat)
    ensures
        pow16(2 * k) == pow256(k),
    decreases k,
{
    if k > 0 {
        lemma_pow16_even((k - 1) as nat);
        assert(2 * k - 1 >= 1);
        assert(pow16(2 * k) == 16 * pow16((2 * k - 1) as nat));
        assert(pow16((2 * k - 1) as nat) == 16 * pow16((2 * (k - 1)) as nat));
    }
}

/// Every byte of the sequence is an ASCII hex digit.
pub open spec fn all_hex_digits(s: Seq<u8>) -> bool {
    forall|i: int| 0 <= i < s.len() ==> is_hex_digit(#[trigger] s[i])
}

/// The bytes form a well-formed constant entry: a two-byte prefix followed
/// by at least one hex digit.
pub open spec fn hex_entry_valid(s: Seq<u8>) -> bool {
    s.len() >= 3 && all_hex_digits(s.skip(2))
}

/// The field value of a well-formed constant entry: its digits read as a
/// base-16 unsigned integer, reduced into the field.
pub open spec fn hex_entry_value(s: Seq<u8>) -> nat {
    hex_value(s.skip(2)) % field_prime()
}

/// The byte is an ASCII hex digit.
fn is_hex_digit_exec(b: u8) -> (r: bool)
    ensures
        r == is_hex_digit(b),
{
    (48 <= b && b <= 57) || (97 <= b && b <= 102) || (65 <= b && b <= 70)
}

/// The value of an ASCII hex digit.
fn hex_digit_val(b: u8) -> (r: u8)
    requires
        is_hex_digit(b),
    ensures
        r as nat == hex_digit_value(b),
        r < 16,
{
    if b <= 57 {
        b - 48
    } else if b >= 97 {
        b - 87
    } else {
        b - 55
    }
}

/// Decodes one prefixed hex constant entry into the little-endian bytes of
/// its value, reading the digits big-endian; `None` exactly when the entry
/// is not a two-byte prefix followed by at least one hex digit.
pub fn parse_hex_entry(s: &[u8]) -> (r: Option<Vec<u8>>)
    ensures
        match r {
            Some(v) => hex_entry_valid(s@) && le_bytes_value(v@) == hex_value(s@.skip(2)),
            None => !hex_entry_valid(s@),
        },
{
    if s.len() < 3 {
        return None;
    }
    let mut out: Vec<u8> = Vec::new();
    let mut pos: usize = s.len();
    proof {
        assert(s@.skip(pos as int) =~= Seq::<u8>::empty());
    }
    while pos >= 4
        invariant
            2 <= pos <= s@.len(),
            s@.len() >= 3,
            (s@.len() - pos) % 2 == 0,
            out@.len() * 2 == s@.len() - pos,
            forall|j: int| pos <= j < s@.len() ==> is_hex_digit(#[trigger] s@[j]),
            le_bytes_value(out@) == hex_value(s@.skip(pos as int)),
        decreases pos,
    {
        let d1 = s[pos - 2];
        let d0 = s[pos - 1];
        if !is_hex_digit_exec(d1) {
            proof {
                assert(s@.skip(2)[pos - 4] == s@[pos - 2]);
            }
            return None;
        }
        if !is_hex_digit_exec(d0) {
            proof {
                assert(s@.skip(2)[pos - 3] == s@[pos - 1]);
            }
            return None;
        }
        let b: u8 = hex_digit_val(d1) * 16 + hex_digit_val(d0);
        proof {
            lemma_le_bytes_value_push(out@, b);
            let x = seq![s@[pos - 2], s@[pos - 1]];
            let y = s@.skip(pos as int);
            assert(s@.skip(pos - 2) =~= x + y);
            lemma_hex_value_prepend(x, y);
            assert(hex_value(x) == 16 * hex_digit_value(s@[pos - 2]) + hex_digit_value(
            s@[pos - 1])) by {
                let x1 = seq![s@[pos - 2]];
                assert(x.drop_last() =~= x1);
                assert(x1.drop_last() =~= Seq::<u8>::empty());
                assert(hex_value(Seq::<u8>::empty()) == 0);
                assert(hex_value(x1) == hex_value(x1.drop_last()) * 16 + hex_digit_value(
                x1.last()));
                assert(x1.last() == s@[pos - 2]);
                assert(hex_value(x) == hex_value(x.drop_last()) * 16 + hex_digit_value(x.last()));
                assert(x.last() == s@[pos - 1]);
            }
            lemma_pow16_even(out@.len());
            assert((16 * hex_digit_value(s@[pos - 2]) + hex_digit_value(s@[pos - 1])) * pow16(
            y.len()) == (b as nat) * pow256(out@.len())) by (nonlinear_arith)
                requires
                    b as nat == 16 * hex_digit_value(s@[pos - 2]) + hex_digit_value(s@[pos - 1]),
                    pow16(y.len()) == pow256(out@.len()),
            ;
        }
        out.push(b);
        pos = pos - 2;
    }
    if pos == 3 {
        let d = s[2];
        if !is_hex_digit_exec(d) {
            proof {
                assert(s@.skip(2)[0] == s@[2]);
            }
            return None;
        }
        let b: u8 = hex_digit_val(d);
        proof {
            lemma_le_bytes_value_push(out@, b);
            let x = seq![s@[2]];
            let y = s@.skip(3);
            assert(s@.skip(2) =~= x + y);
            lemma_hex_value_prepend(x, y);
            assert(hex_value(x) == hex_digit_value(s@[2])) by {
                assert(x.drop_last() =~= Seq::<u8>::empty());
                assert(hex_value(Seq::<u8>::empty()) == 0);
                assert(hex_value(x) == hex_value(x.drop_last()) * 16 + hex_digit_value(x.last()));
                assert(x.last() == s@[2]);
            }
            lemma_pow16_even(out@.len());
            assert(hex_digit_value(s@[2]) * pow16(y.len()) == (b as nat) * pow256(out@.len()))
                by (nonlinear_arith)
                requires
                    b as nat == hex_digit_value(s@[2]),
                    pow16(y.len()) == pow256(out@.len()),
            ;
        }
        out.push(b);
        Some(out)
    } else {
        Some(out)
    }
}

/// Bytes beyond a point that are all zero add nothing to the value.
proof fn lemma_le_bytes_value_zero_suffix(s: Seq<u8>, m: int)
    requires
        0 <= m <= s.len(),
        forall|j: int| m <= j < s.len() ==> s[j] == 0,
    ensures
        le_bytes_value(s) == le_bytes_value(s.take(m)),
    decreases s.len() - m,
{
    if m < s.len() {
        lemma_le_bytes_value_zero_suffix(s.drop_last(), m);
        assert(s.drop_last().take(m) =~= s.take(m));
    } else {
        assert(s.take(m) =~= s);
    }
}

/// The lowercase ASCII hex digit of a value below 16.
fn lower_hex_digit(d: u8) -> (r: u8)
    requires
        d < 16,
    ensures
        is_hex_digit(r),
        hex_digit_value(r) == d,
        r < 128,
        (r == 48) == (d == 0),
{
    if d < 10 {
        48 + d
    } else {
        87 + d
    }
}

/// Relies on `String::from_utf8`: bytes that are all ASCII are valid UTF-8,
/// and the string it returns has exactly the given bytes as its UTF-8 form.
#[verifier::external_body]
fn ascii_to_string(bytes: Vec<u8>) -> (r: String)
    requires
        forall|i: int| 0 <= i < bytes@.len() ==> bytes@[i] < 128,
    ensures
        encode_utf8(r@) == bytes@,
{
    String::from_utf8(bytes).unwrap_or_default()
}

/// Appending the two digits of a byte multiplies the value by 256 and adds
/// the byte.
proof fn lemma_hex_value_push_byte(s: Seq<u8>, h: u8, l: u8)
    ensures
        hex_value(s.push(h).push(l)) == hex_value(s) * 256 + hex_digit_value(h) * 16
            + hex_digit_value(l),
{
    let t1 = s.push(h);
    let t2 = t1.push(l);
    assert(t2.drop_last() =~= t1);
    assert(t2.last() == l);
    assert(t1.drop_last() =~= s);
    assert(t1.last() == h);
    assert(hex_value(t2) == hex_value(t1) * 16 + hex_digit_value(l));
    assert(hex_value(t1) == hex_value(s) * 16 + hex_digit_value(h));
}

/// The canonical lowercase hex form of a field element's value: no prefix,
/// no leading zero, and the single digit `0` for the zero element.
pub fn fe_to_hex(fe: &Fe) -> (r: String)
    requires
        fe.wf(),
    ensures
        all_hex_digits(encode_utf8(r@)),
        encode_utf8(r@).len() >= 1,
        encode_utf8(r@).len() > 1 ==> encode_utf8(r@)[0] != 48,
        hex_value(encode_utf8(r@)) == fe@,
{
    let bytes = fe.to_le_bytes();
    let mut top: usize = 32;
    while top > 0 && bytes[top - 1] == 0
        invariant
            top <= 32,
            bytes@.len() == 32,
            forall|j: int| top <= j < 32 ==> bytes@[j] == 0,
        decreases top,
    {
        top = top - 1;
    }
    proof {
        lemma_le_bytes_value_zero_suffix(bytes@, top as int);
    }
    if top == 0 {
        let mut v: Vec<u8> = Vec::new();
        v.push(48);
        proof {
            assert(bytes@.take(0) =~= Seq::<u8>::empty());
            assert(v@.drop_last() =~= Seq::<u8>::empty());
            assert(hex_value(Seq::<u8>::empty()) == 0);
            assert(v@.last() == 48);
            assert(hex_value(v@) == hex_value(v@.drop_last()) * 16 + hex_digit_value(v@.last()));
        }
        return ascii_to_string(v);
    }
    let mut out: Vec<u8> = Vec::new();
    let b0 = bytes[top - 1];
    let h0 = b0 / 16;
    let l0 = b0 % 16;
    proof {
        let w = bytes@.subrange(top - 1, top as int);
        assert(w.len() == 1);
        assert(w.drop_last() =~= Seq::<u8>::empty());
        assert(le_bytes_value(Seq::<u8>::empty()) == 0);
        assert(le_bytes_value(w.drop_last()) == 0);
        assert(pow256(0) == 1);
        assert(w.last() == bytes@[top - 1]);
        assert(le_bytes_value(w) == le_bytes_value(w.drop_last()) + (w.last() as nat) * pow256(
            (w.len() - 1) as nat,
        ));
        assert(b0 == bytes@[top - 1]);
        assert(le_bytes_value(w) == b0) by (nonlinear_arith)
            requires
                le_bytes_value(w) == le_bytes_value(w.drop_last()) + (w.last() as nat) * pow256(
                    (w.len() - 1) as nat,
                ),
                le_bytes_value(w.drop_last()) == 0,
                pow256((w.len() - 1) as nat) == 1,
                w.last() == b0,
        ;
    }
    if h0 != 0 {
        let d1 = lower_hex_digit(h0);
        let d0 = lower_hex_digit(l0);
        out.push(d1);
        out.push(d0);
        proof {
            lemma_hex_value_push_byte(Seq::<u8>::empty(), d1, d0);
            assert(out@ =~= Seq::<u8>::empty().push(d1).push(d0));
            assert(hex_value(out@) == b0);
        }
    } else {
        let d0 = lower_hex_digit(l0);
        out.push(d0);
        proof {
            assert(out@.drop_last() =~= Seq::<u8>::empty());
            assert(hex_value(out@) == b0);
        }
    }
    let mut i: usize = top - 1;
    while i > 0
        invariant
            i < top,
            top <= 32,
            bytes@.len() == 32,
            out@.len() >= 1,
            out@[0] != 48,
            forall|k: int| 0 <= k < out@.len() ==> is_hex_digit(#[trigger] out@[k]),
            forall|k: int| 0 <= k < out@.len() ==> out@[k] < 128,
            hex_value(out@) == le_bytes_value(bytes@.subrange(i as int, top as int)),
        decreases i,
    {
        let b = bytes[i - 1];
        let d1 = lower_hex_digit(b / 16);
        let d0 = lower_hex_digit(b % 16);
        proof {
            lemma_hex_value_push_byte(out@, d1, d0);
            lemma_le_bytes_value_first(bytes@.subrange(i - 1, top as int));
            assert(bytes@.subrange(i - 1, top as int).drop_first() =~= bytes@.subrange(
                i as int,
                top as int,
            ));
            assert(bytes@.subrange(i - 1, top as int)[0] == bytes@[i - 1]);
        }
        out.push(d1);
        out.push(d0);
        i = i - 1;
    }
    proof {
        assert(bytes@.subrange(0, top as int) =~= bytes@.take(top as int));
    }
    ascii_to_string(out)
}

/// Decodes one prefixed hex constant entry into a field element; `None`
/// exactly when the entry is not a two-byte prefix followed by at least one
/// hex digit.
pub fn fe_from_hex_entry(s: &[u8]) -> (r: Option<Fe>)
    ensures
        match r {
            Some(fe) => hex_entry_valid(s@) && fe.wf() && fe@ == hex_entry_value(s@),
            None => !hex_entry_valid(s@),
        },
{
    match parse_hex_entry(s) {
        Some(v) => Some(Fe::from_le_bytes(v.as_slice())),
        None => None,
    }
}

} // verus!
