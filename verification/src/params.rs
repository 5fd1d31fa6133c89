//! The constant-table provider: per-arity round constants, mixing matrix and
//! round counts, decoded from hex-encoded records.

use vstd::prelude::*;
use vstd::utf8::encode_utf8;

use crate::constants::mix_matrix_hex;
use crate::constants::round_constants_hex;
use crate::constants::spec_mix_matrix_hex;
use crate::constants::spec_round_constants_hex;
use crate::field::Fe;
use crate::hex::fe_from_hex_entry;
use crate::hex::hex_entry_valid;
use crate::hex::hex_entry_value;

verus! {

/// What can go wrong when loading constants or hashing.
#[derive(Debug)]
pub enum PoseidonError {
    /// The requested arity is outside the supported range 1 through 16.
    InvalidArity { arity: u8 },
    /// The input vector's length disagrees with the declared arity.
    ArityMismatch { expected: usize, actual: usize },
    /// A constant record's shape disagrees with the arity it claims to
    /// serve; the counts are in bytes for the embedded tables and in
    /// entries for a serialized record.
    MalformedConstants { expected: usize, actual: usize },
    /// A constant entry is not a two-character prefix followed by hex
    /// digits; carries the offending entry.
    EncodingError { entry: String },
    /// The backing constant resource could not be read; never produced by
    /// the embedded tables, kept for hosts that load records from storage.
    ResourceUnavailable,
}

/// A constant record as it is serialized: hex-string round constants and a
/// hex-string matrix.
#[derive(Debug)]
#[allow(non_snake_case)]
pub struct PoseidonParamsSerialized {
    pub C: Vec<String>,
    pub M: Vec<Vec<String>>,
}

/// Decoded constants for one arity.
#[derive(Debug)]
pub struct PoseidonParams {
    pub c: Vec<Fe>,
    pub m: Vec<Vec<Fe>>,
    pub num_full_rounds: usize,
    pub num_partial_rounds: usize,
}

/// The mathematical content of a `PoseidonParams`: the values of the round
/// constants and matrix entries, and the round counts.
pub ghost struct ParamsModel {
    pub c: Seq<nat>,
    pub m: Seq<Seq<nat>>,
    pub num_full_rounds: nat,
    pub num_partial_rounds: nat,
}

impl View for PoseidonParams {
    type V = ParamsModel;

    open spec fn view(&self) -> ParamsModel {
        ParamsModel {
            c: self.c@.map_values(|fe: Fe| fe@),
            m: self.m@.map_values(|row: Vec<Fe>| row@.map_values(|fe: Fe| fe@)),
            num_full_rounds: self.num_full_rounds as nat,
            num_partial_rounds: self.num_partial_rounds as nat,
        }
    }
}

impl PoseidonParams {
    /// The constants fit a state of width `t`: eight full rounds, a full
    /// round-constant table, a square matrix, and every element canonical.
    pub open spec fn wf_for(&self, t: nat) -> bool {
        &&& self.num_full_rounds == 8
        &&& self.c@.len() == t * (self.num_full_rounds + self.num_partial_rounds)
        &&& self.m@.len() == t
        &&& forall|i: int| 0 <= i < t ==> (#[trigger] self.m@[i])@.len() == t
        &&& forall|i: int| 0 <= i < self.c@.len() ==> (#[trigger] self.c@[i]).wf()
        &&& forall|i: int, j: int|
            0 <= i < t && 0 <= j < t ==> (#[trigger] self.m@[i]@[j]).wf()
    }
}

/// The number of partial rounds for each supported arity.
pub open spec fn spec_partial_rounds(arity: int) -> nat {
    if arity == 1 {
        56
    } else if arity == 2 {
        57
    } else if arity == 3 {
        56
    } else if arity == 4 {
        60
    } else if arity == 5 {
        60
    } else if arity == 6 {
        63
    } else if arity == 7 {
        64
    } else if arity == 8 {
        63
    } else if arity == 9 {
        60
    } else if arity == 10 {
        66
    } else if arity == 11 {
        60
    } else if arity == 12 {
        65
    } else if arity == 13 {
        70
    } else if arity == 14 {
        60
    } else if arity == 15 {
        64
    } else if arity == 16 {
        68
    } else {
        0
    }
}

/// The number of partial rounds for the arity.
pub fn partial_rounds(arity: u8) -> (r: usize)
    requires
        1 <= arity <= 16,
    ensures
        r == spec_partial_rounds(arity as int),
{
    if arity == 1 {
        56
    } else if arity == 2 {
        57
    } else if arity == 3 {
        56
    } else if arity == 4 {
        60
    } else if arity == 5 {
        60
    } else if arity == 6 {
        63
    } else if arity == 7 {
        64
    } else if arity == 8 {
        63
    } else if arity == 9 {
        60
    } else if arity == 10 {
        66
    } else if arity == 11 {
        60
    } else if arity == 12 {
        65
    } else if arity == 13 {
        70
    } else if arity == 14 {
        60
    } else if arity == 15 {
        64
    } else {
        68
    }
}

/// The bytes of the embedded round-constant table for the arity.
pub open spec fn embedded_c_bytes(arity: int) -> Seq<u8> {
    encode_utf8(spec_round_constants_hex(arity))
}

/// The bytes of the embedded mixing-matrix table for the arity.
pub open spec fn embedded_m_bytes(arity: int) -> Seq<u8> {
    encode_utf8(spec_mix_matrix_hex(arity))
}

/// The bytes of embedded round constant `k` for the arity.
pub open spec fn embedded_c_entry(arity: int, k: int) -> Seq<u8> {
    embedded_c_bytes(arity).subrange(66 * k, 66 * k + 66)
}

/// The bytes of embedded matrix entry `(i, j)` for the arity, row-major in
/// a square of side `arity + 1`.
pub open spec fn embedded_m_entry(arity: int, i: int, j: int) -> Seq<u8> {
    embedded_m_bytes(arity).subrange(
        66 * (i * (arity + 1) + j),
        66 * (i * (arity + 1) + j) + 66,
    )
}

/// The embedded tables for the arity have the right byte lengths and every
/// entry is well-formed hex.
pub open spec fn embedded_tables_ok(arity: int) -> bool {
    let t = arity + 1;
    let rounds = 8 + spec_partial_rounds(arity);
    &&& embedded_c_bytes(arity).len() == 66 * (t * rounds)
    &&& embedded_m_bytes(arity).len() == 66 * (t * t)
    &&& forall|k: int| 0 <= k < t * rounds ==> hex_entry_valid(#[trigger] embedded_c_entry(arity, k))
    &&& forall|i: int, j: int|
        0 <= i < t && 0 <= j < t ==> hex_entry_valid(#[trigger] embedded_m_entry(arity, i, j))
}

/// The value of embedded round constant `k` for the arity.
pub open spec fn embedded_c_value(arity: int, k: int) -> nat {
    hex_entry_value(embedded_c_entry(arity, k))
}

/// The value of embedded matrix entry `(i, j)` for the arity.
pub open spec fn embedded_m_value(arity: int, i: int, j: int) -> nat {
    hex_entry_value(embedded_m_entry(arity, i, j))
}

/// The bytes of round-constant entry `k` of a serialized record.
pub open spec fn record_c_bytes(r: &PoseidonParamsSerialized, k: int) -> Seq<u8> {
    encode_utf8(r.C@[k]@)
}

/// The bytes of matrix entry `(i, j)` of a serialized record.
pub open spec fn record_m_bytes(r: &PoseidonParamsSerialized, i: int, j: int) -> Seq<u8> {
    encode_utf8(r.M@[i]@[j]@)
}

/// The record's shape fits the arity: `t * (8 + partial rounds)` round
/// constants and a square matrix of side `t`, for `t` the arity plus one.
pub open spec fn record_shape_ok(r: &PoseidonParamsSerialized, arity: int) -> bool {
    let t = arity + 1;
    let rounds = 8 + spec_partial_rounds(arity);
    &&& r.C@.len() == t * rounds
    &&& r.M@.len() == t
    &&& forall|i: int| 0 <= i < t ==> (#[trigger] r.M@[i])@.len() == t
}

/// Every entry of the record is a two-byte prefix followed by hex digits.
pub open spec fn record_entries_ok(r: &PoseidonParamsSerialized, arity: int) -> bool {
    let t = arity + 1;
    let rounds = 8 + spec_partial_rounds(arity);
    &&& forall|k: int| 0 <= k < t * rounds ==> hex_entry_valid(#[trigger] record_c_bytes(r, k))
    &&& forall|i: int, j: int|
        0 <= i < t && 0 <= j < t ==> hex_entry_valid(#[trigger] record_m_bytes(r, i, j))
}

/// Relies on `String::from_utf8_lossy`: bytes that are all ASCII are valid
/// UTF-8 and decode to one char per byte, unchanged.
#[verifier::external_body]
fn bytes_to_string_lossy(bytes: &[u8]) -> (r: String)
    ensures
        (forall|i: int| 0 <= i < bytes@.len() ==> bytes@[i] < 128) ==> r@ == bytes@.map_values(
            |b: u8| b as char,
        ),
{
    String::from_utf8_lossy(bytes).into_owned()
}

/// Decodes `count` fixed-width constant entries laid end to end.  Fails with
/// `EncodingError` exactly when some entry is not a two-byte prefix followed
/// by hex digits.
fn decode_entries(bytes: &[u8], count: usize) -> (r: Result<Vec<Fe>, PoseidonError>)
    requires
        bytes@.len() == 66 * count,
        count <= 2000,
    ensures
        match r {
            Ok(v) => {
                &&& v@.len() == count
                &&& forall|k: int| 0 <= k < count ==> (#[trigger] v@[k]).wf()
                &&& forall|k: int|
                    0 <= k < count ==> v@[k]@ == hex_entry_value(
                        bytes@.subrange(66 * k, 66 * k + 66),
                    )
                &&& forall|k: int|
                    0 <= k < count ==> hex_entry_valid(#[trigger] bytes@.subrange(
                        66 * k,
                        66 * k + 66,
                    ))
            },
            Err(e) => {
                &&& e matches PoseidonError::EncodingError { .. }
                &&& exists|k: int|
                    0 <= k < count && !hex_entry_valid(#[trigger] bytes@.subrange(
                        66 * k,
                        66 * k + 66,
                    ))
            },
        },
{
    let mut out: Vec<Fe> = Vec::new();
    let mut k: usize = 0;
    while k < count
        invariant
            k <= count,
            count <= 2000,
            bytes@.len() == 66 * count,
            out@.len() == k,
            forall|i: int| 0 <= i < k ==> (#[trigger] out@[i]).wf(),
            forall|i: int|
                0 <= i < k ==> out@[i]@ == hex_entry_value(bytes@.subrange(66 * i, 66 * i + 66)),
            forall|i: int|
                0 <= i < k ==> hex_entry_valid(#[trigger] bytes@.subrange(66 * i, 66 * i + 66)),
        decreases count - k,
    {
        proof {
            assert(k < 2000);
            assert(66 * k + 66 <= 66 * count);
            assert(66 * count <= 132000);
        }
        let window = vstd::slice::slice_subrange(bytes, 66 * k, 66 * k + 66);
        match fe_from_hex_entry(window) {
            Some(fe) => {
                out.push(fe);
            },
            None => {
                return Err(
                    PoseidonError::EncodingError { entry: bytes_to_string_lossy(window) },
                );
            },
        }
        k = k + 1;
    }
    Ok(out)
}

/// Loads the decoded constant set for one arity from the embedded tables.
///
/// Fails with `InvalidArity` exactly when the arity is outside 1 through 16;
/// with `MalformedConstants` exactly when an embedded table's byte length
/// disagrees with the arity; with `EncodingError` exactly when an embedded
/// entry is not well-formed hex.  On success the decoded values are exactly
/// the values of the embedded entries, eight full rounds, and the fixed
/// per-arity partial round count.
pub fn read_constants(input_count: u8) -> (r: Result<PoseidonParams, PoseidonError>)
    ensures
        match r {
            Ok(p) => {
                let arity = input_count as int;
                let t = arity + 1;
                let rounds = 8 + spec_partial_rounds(arity);
                &&& 1 <= input_count <= 16
                &&& embedded_tables_ok(arity)
                &&& p.wf_for(t as nat)
                &&& p@.num_full_rounds == 8
                &&& p@.num_partial_rounds == spec_partial_rounds(arity)
                &&& p@.c.len() == t * rounds
                &&& forall|k: int| 0 <= k < t * rounds ==> p@.c[k] == embedded_c_value(arity, k)
                &&& p@.m.len() == t
                &&& forall|i: int| 0 <= i < t ==> (#[trigger] p@.m[i]).len() == t
                &&& forall|i: int, j: int|
                    0 <= i < t && 0 <= j < t ==> p@.m[i][j] == embedded_m_value(arity, i, j)
            },
            Err(PoseidonError::InvalidArity { arity }) => {
                &&& arity == input_count
                &&& !(1 <= input_count <= 16)
            },
            Err(PoseidonError::MalformedConstants { expected, actual }) => {
                let arity = input_count as int;
                let t = arity + 1;
                let rounds = 8 + spec_partial_rounds(arity);
                &&& 1 <= input_count <= 16
                &&& {
                    ||| {
                        &&& embedded_c_bytes(arity).len() != 66 * (t * rounds)
                        &&& expected == 66 * (t * rounds)
                        &&& actual == embedded_c_bytes(arity).len()
                    }
                    ||| {
                        &&& embedded_c_bytes(arity).len() == 66 * (t * rounds)
                        &&& embedded_m_bytes(arity).len() != 66 * (t * t)
                        &&& expected == 66 * (t * t)
                        &&& actual == embedded_m_bytes(arity).len()
                    }
                }
            },
            Err(PoseidonError::EncodingError { .. }) => {
                let arity = input_count as int;
                let t = arity + 1;
                let rounds = 8 + spec_partial_rounds(arity);
                &&& 1 <= input_count <= 16
                &&& embedded_c_bytes(arity).len() == 66 * (t * rounds)
                &&& embedded_m_bytes(arity).len() == 66 * (t * t)
                &&& !embedded_tables_ok(arity)
            },
            _ => false,
        },
{
    if input_count < 1 || input_count > 16 {
        return Err(PoseidonError::InvalidArity { arity: input_count });
    }
    let t: usize = input_count as usize + 1;
    let np: usize = partial_rounds(input_count);
    let rounds: usize = 8 + np;
    proof {
        assert(np <= 70);
        assert(t * rounds <= 17 * 78 && t * t <= 17 * 17) by (nonlinear_arith)
            requires
                0 <= t <= 17,
                0 <= rounds <= 78,
        ;
    }
    let count_c: usize = t * rounds;
    let count_m: usize = t * t;
    let c_text = round_constants_hex(input_count);
    let c_bytes = c_text.as_str().as_bytes();
    if c_bytes.len() != 66 * count_c {
        return Err(
            PoseidonError::MalformedConstants { expected: 66 * count_c, actual: c_bytes.len() },
        );
    }
    let m_text = mix_matrix_hex(input_count);
    let m_bytes = m_text.as_str().as_bytes();
    if m_bytes.len() != 66 * count_m {
        return Err(
            PoseidonError::MalformedConstants { expected: 66 * count_m, actual: m_bytes.len() },
        );
    }
    proof {
        assert(c_bytes@ == embedded_c_bytes(input_count as int));
        assert(m_bytes@ == embedded_m_bytes(input_count as int));
    }
    let c = match decode_entries(c_bytes, count_c) {
        Ok(v) => v,
        Err(e) => {
            proof {
                let arity = input_count as int;
                let kk = choose|k: int|
                    0 <= k < count_c && !hex_entry_valid(
                        #[trigger] c_bytes@.subrange(66 * k, 66 * k + 66),
                    );
                assert(embedded_c_entry(arity, kk) == c_bytes@.subrange(66 * kk, 66 * kk + 66));
                assert(!embedded_tables_ok(arity));
            }
            return Err(e);
        },
    };
    let m_flat = match decode_entries(m_bytes, count_m) {
        Ok(v) => v,
        Err(e) => {
            proof {
                let arity = input_count as int;
                let ti = t as int;
                let kk = choose|k: int|
                    0 <= k < count_m && !hex_entry_valid(
                        #[trigger] m_bytes@.subrange(66 * k, 66 * k + 66),
                    );
                let ii = kk / ti;
                let jj = kk % ti;
                assert(0 <= ii < ti && 0 <= jj < ti && ii * ti + jj == kk) by (nonlinear_arith)
                    requires
                        0 <= kk < ti * ti,
                        ti > 0,
                        ii == kk / ti,
                        jj == kk % ti,
                ;
                assert(embedded_m_entry(arity, ii, jj) == m_bytes@.subrange(66 * kk, 66 * kk
                    + 66));
                assert(!embedded_tables_ok(arity));
            }
            return Err(e);
        },
    };
    proof {
        let arity = input_count as int;
        let ti = t as int;
        assert forall|k: int| 0 <= k < ti * ti implies m_flat@[k].wf() && m_flat@[k]@
            == embedded_m_value(arity, k / ti, k % ti) by {
            let ii = k / ti;
            let jj = k % ti;
            assert(0 <= ii < ti && 0 <= jj < ti && ii * ti + jj == k) by (nonlinear_arith)
                requires
                    0 <= k < ti * ti,
                    ti > 0,
                    ii == k / ti,
                    jj == k % ti,
            ;
            assert(embedded_m_entry(arity, ii, jj) == m_bytes@.subrange(66 * k, 66 * k + 66));
        }
        assert forall|i: int, j: int| 0 <= i < ti && 0 <= j < ti implies hex_entry_valid(
            #[trigger] embedded_m_entry(arity, i, j),
        ) by {
            let k = i * ti + j;
            assert(0 <= k < ti * ti && k / ti == i && k % ti == j) by (nonlinear_arith)
                requires
                    0 <= i < ti,
                    0 <= j < ti,
                    k == i * ti + j,
            ;
            assert(hex_entry_valid(m_bytes@.subrange(66 * k, 66 * k + 66)));
            assert(embedded_m_entry(arity, i, j) == m_bytes@.subrange(66 * k, 66 * k + 66));
        }
        assert forall|k: int| 0 <= k < ti * (8 + spec_partial_rounds(arity))
            implies hex_entry_valid(#[trigger] embedded_c_entry(arity, k)) && c@[k].wf() && c@[k]@
            == embedded_c_value(arity, k) by {
            assert(embedded_c_entry(arity, k) == c_bytes@.subrange(66 * k, 66 * k + 66));
        }
        assert(embedded_tables_ok(arity));
    }
    let mut m: Vec<Vec<Fe>> = Vec::new();
    let mut i: usize = 0;
    while i < t
        invariant
            i <= t,
            t == input_count as int + 1,
            t <= 17,
            m_flat@.len() == t * t,
            forall|k: int| 0 <= k < t * t ==> (#[trigger] m_flat@[k]).wf(),
            forall|k: int|
                0 <= k < t * t ==> m_flat@[k]@ == embedded_m_value(input_count as int, k / (
                t as int), k % (t as int)),
            m@.len() == i,
            forall|a: int| 0 <= a < i ==> (#[trigger] m@[a])@.len() == t,
            forall|a: int, b: int|
                0 <= a < i && 0 <= b < t ==> (#[trigger] m@[a]@[b]).wf() && m@[a]@[b]@
                    == embedded_m_value(input_count as int, a, b),
        decreases t - i,
    {
        let mut row: Vec<Fe> = Vec::new();
        let mut j: usize = 0;
        while j < t
            invariant
                j <= t,
                i < t,
                t == input_count as int + 1,
                t <= 17,
                m_flat@.len() == t * t,
                forall|k: int| 0 <= k < t * t ==> (#[trigger] m_flat@[k]).wf(),
                forall|k: int|
                    0 <= k < t * t ==> m_flat@[k]@ == embedded_m_value(input_count as int, k / (
                    t as int), k % (t as int)),
                row@.len() == j,
                forall|b: int|
                    0 <= b < j ==> (#[trigger] row@[b]).wf() && row@[b]@ == embedded_m_value(
                        input_count as int,
                        i as int,
                        b,
                    ),
            decreases t - j,
        {
            proof {
                assert(i * t + j < t * t && t * t <= 17 * 17) by (nonlinear_arith)
                    requires
                        0 <= i < t,
                        0 <= j < t,
                        t <= 17,
                ;
                assert((i * t + j) / (t as int) == i as int && (i * t + j) % (t as int)
                    == j as int) by (nonlinear_arith)
                    requires
                        0 <= i,
                        0 <= j < t,
                        t > 0,
                ;
            }
            let fe = m_flat[i * t + j].dup();
            row.push(fe);
            j = j + 1;
        }
        m.push(row);
        i = i + 1;
    }
    let p = PoseidonParams { c, m, num_full_rounds: 8, num_partial_rounds: np };
    proof {
        let arity = input_count as int;
        let ti = t as int;
        let rounds = 8 + spec_partial_rounds(arity);
        assert(p@.c.len() == ti * rounds);
        assert forall|k: int| 0 <= k < ti * rounds implies p@.c[k] == embedded_c_value(arity, k)
            && p.c@[k].wf() by {
            assert(p@.c[k] == p.c@[k]@);
        }
        assert(p@.m.len() == ti);
        assert forall|a: int, b: int| 0 <= a < ti && 0 <= b < ti implies p@.m[a][b]
            == embedded_m_value(arity, a, b) && p.m@[a]@[b].wf() by {
            assert(p@.m[a] == p.m@[a]@.map_values(|fe: Fe| fe@));
            assert(p@.m[a][b] == p.m@[a]@[b]@);
        }
        assert forall|a: int| 0 <= a < ti implies (#[trigger] p@.m[a]).len() == ti by {
            assert(p@.m[a] == p.m@[a]@.map_values(|fe: Fe| fe@));
        }
    }
    Ok(p)
}

/// Decodes a serialized constant record claiming to serve the given arity.
///
/// Fails with `InvalidArity` exactly when the arity is outside 1 through 16;
/// with `MalformedConstants` exactly when the record's shape disagrees with
/// the arity (round-constant count first, then matrix height, then each
/// row's width); with `EncodingError` exactly when the shape fits and some
/// entry is not a two-byte prefix followed by hex digits.  On success the
/// decoded values are exactly the values of the record's entries.
pub fn decode_params(record: &PoseidonParamsSerialized, input_count: u8) -> (r: Result<
    PoseidonParams,
    PoseidonError,
>)
    ensures
        match r {
            Ok(p) => {
                let arity = input_count as int;
                let t = arity + 1;
                let rounds = 8 + spec_partial_rounds(arity);
                &&& 1 <= input_count <= 16
                &&& record_shape_ok(record, arity)
                &&& record_entries_ok(record, arity)
                &&& p.wf_for(t as nat)
                &&& p@.num_full_rounds == 8
                &&& p@.num_partial_rounds == spec_partial_rounds(arity)
                &&& p@.c.len() == t * rounds
                &&& forall|k: int|
                    0 <= k < t * rounds ==> p@.c[k] == hex_entry_value(
                        #[trigger] record_c_bytes(record, k),
                    )
                &&& p@.m.len() == t
                &&& forall|i: int| 0 <= i < t ==> (#[trigger] p@.m[i]).len() == t
                &&& forall|i: int, j: int|
                    0 <= i < t && 0 <= j < t ==> p@.m[i][j] == hex_entry_value(
                        #[trigger] record_m_bytes(record, i, j),
                    )
            },
            Err(PoseidonError::InvalidArity { arity }) => {
                &&& arity == input_count
                &&& !(1 <= input_count <= 16)
            },
            Err(PoseidonError::MalformedConstants { expected, actual }) => {
                let arity = input_count as int;
                let t = arity + 1;
                let rounds = 8 + spec_partial_rounds(arity);
                &&& 1 <= input_count <= 16
                &&& !record_shape_ok(record, arity)
                &&& {
                    ||| {
                        &&& record.C@.len() != t * rounds
                        &&& expected == t * rounds
                        &&& actual == record.C@.len()
                    }
                    ||| {
                        &&& record.C@.len() == t * rounds
                        &&& record.M@.len() != t
                        &&& expected == t
                        &&& actual == record.M@.len()
                    }
                    ||| {
                        &&& record.C@.len() == t * rounds
                        &&& record.M@.len() == t
                        &&& expected == t
                        &&& exists|i: int|
                            0 <= i < t && actual == (#[trigger] record.M@[i])@.len() && actual
                                != t
                    }
                }
            },
            Err(PoseidonError::EncodingError { .. }) => {
                let arity = input_count as int;
                &&& 1 <= input_count <= 16
                &&& record_shape_ok(record, arity)
                &&& !record_entries_ok(record, arity)
            },
            _ => false,
        },
{
    if input_count < 1 || input_count > 16 {
        return Err(PoseidonError::InvalidArity { arity: input_count });
    }
    let t: usize = input_count as usize + 1;
    let np: usize = partial_rounds(input_count);
    let rounds: usize = 8 + np;
    proof {
        assert(np <= 70);
        assert(t * rounds <= 17 * 78) by (nonlinear_arith)
            requires
                0 <= t <= 17,
                0 <= rounds <= 78,
        ;
    }
    let count_c: usize = t * rounds;
    if record.C.len() != count_c {
        return Err(PoseidonError::MalformedConstants { expected: count_c, actual: record.C.len() });
    }
    if record.M.len() != t {
        return Err(PoseidonError::MalformedConstants { expected: t, actual: record.M.len() });
    }
    let mut i: usize = 0;
    while i < t
        invariant
            1 <= input_count <= 16,
            t == input_count as int + 1,
            np == spec_partial_rounds(input_count as int),
            rounds == 8 + np,
            count_c == t * rounds,
            record.C@.len() == count_c,
            i <= t,
            record.M@.len() == t,
            forall|a: int| 0 <= a < i ==> (#[trigger] record.M@[a])@.len() == t,
        decreases t - i,
    {
        let row: &Vec<String> = &record.M[i];
        if row.len() != t {
            proof {
                assert(record.M@[i as int]@.len() != t);
            }
            return Err(PoseidonError::MalformedConstants { expected: t, actual: row.len() });
        }
        i = i + 1;
    }
    let mut c: Vec<Fe> = Vec::new();
    let mut k: usize = 0;
    while k < count_c
        invariant
            1 <= input_count <= 16,
            t == input_count as int + 1,
            np == spec_partial_rounds(input_count as int),
            rounds == 8 + np,
            count_c == t * rounds,
            record.C@.len() == count_c,
            record.M@.len() == t,
            forall|a: int| 0 <= a < t ==> (#[trigger] record.M@[a])@.len() == t,
            k <= count_c,
            c@.len() == k,
            forall|a: int| 0 <= a < k ==> (#[trigger] c@[a]).wf(),
            forall|a: int| 0 <= a < k ==> c@[a]@ == hex_entry_value(record_c_bytes(record, a)),
            forall|a: int| 0 <= a < k ==> hex_entry_valid(#[trigger] record_c_bytes(record, a)),
        decreases count_c - k,
    {
        let entry: &String = &record.C[k];
        match fe_from_hex_entry(entry.as_str().as_bytes()) {
            Some(fe) => {
                c.push(fe);
            },
            None => {
                proof {
                    assert(!hex_entry_valid(record_c_bytes(record, k as int)));
                }
                return Err(PoseidonError::EncodingError { entry: entry.clone() });
            },
        }
        k = k + 1;
    }
    let mut m: Vec<Vec<Fe>> = Vec::new();
    let mut i: usize = 0;
    while i < t
        invariant
            1 <= input_count <= 16,
            t == input_count as int + 1,
            np == spec_partial_rounds(input_count as int),
            rounds == 8 + np,
            count_c == t * rounds,
            record.C@.len() == count_c,
            i <= t,
            record.M@.len() == t,
            forall|a: int| 0 <= a < t ==> (#[trigger] record.M@[a])@.len() == t,
            m@.len() == i,
            forall|a: int| 0 <= a < i ==> (#[trigger] m@[a])@.len() == t,
            forall|a: int, b: int|
                0 <= a < i && 0 <= b < t ==> (#[trigger] m@[a]@[b]).wf() && m@[a]@[b]@
                    == hex_entry_value(record_m_bytes(record, a, b)),
            forall|a: int, b: int|
                0 <= a < i && 0 <= b < t ==> hex_entry_valid(
                    #[trigger] record_m_bytes(record, a, b),
                ),
        decreases t - i,
    {
        let row: &Vec<String> = &record.M[i];
        let mut out_row: Vec<Fe> = Vec::new();
        let mut j: usize = 0;
        while j < t
            invariant
                1 <= input_count <= 16,
                t == input_count as int + 1,
                np == spec_partial_rounds(input_count as int),
                rounds == 8 + np,
                count_c == t * rounds,
                record.C@.len() == count_c,
                j <= t,
                i < t,
                record.M@.len() == t,
                forall|a: int| 0 <= a < t ==> (#[trigger] record.M@[a])@.len() == t,
                row == record.M@[i as int],
                out_row@.len() == j,
                forall|b: int|
                    0 <= b < j ==> (#[trigger] out_row@[b]).wf() && out_row@[b]@
                        == hex_entry_value(record_m_bytes(record, i as int, b)),
                forall|b: int|
                    0 <= b < j ==> hex_entry_valid(
                        #[trigger] record_m_bytes(record, i as int, b),
                    ),
            decreases t - j,
        {
            let entry: &String = &row[j];
            match fe_from_hex_entry(entry.as_str().as_bytes()) {
                Some(fe) => {
                    out_row.push(fe);
                },
                None => {
                    proof {
                        assert(!hex_entry_valid(record_m_bytes(record, i as int, j as int)));
                    }
                    return Err(PoseidonError::EncodingError { entry: entry.clone() });
                },
            }
            j = j + 1;
        }
        m.push(out_row);
        i = i + 1;
    }
    let p = PoseidonParams { c, m, num_full_rounds: 8, num_partial_rounds: np };
    proof {
        let arity = input_count as int;
        let ti = t as int;
        let rnds = 8 + spec_partial_rounds(arity);
        assert(p@.c.len() == ti * rnds);
        assert forall|a: int| 0 <= a < ti * rnds implies p@.c[a] == hex_entry_value(
            #[trigger] record_c_bytes(record, a),
        ) && p.c@[a].wf() by {
            assert(p@.c[a] == p.c@[a]@);
        }
        assert(p@.m.len() == ti);
        assert forall|a: int, b: int| 0 <= a < ti && 0 <= b < ti implies p@.m[a][b]
            == hex_entry_value(#[trigger] record_m_bytes(record, a, b)) && p.m@[a]@[b].wf() by {
            assert(p@.m[a] == p.m@[a]@.map_values(|fe: Fe| fe@));
            assert(p@.m[a][b] == p.m@[a]@[b]@);
        }
        assert forall|a: int| 0 <= a < ti implies (#[trigger] p@.m[a]).len() == ti by {
            assert(p@.m[a] == p.m@[a]@.map_values(|fe: Fe| fe@));
        }
    }
    Ok(p)
}

} // verus!
