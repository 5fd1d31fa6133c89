//! The permutation engine: the fixed-round Poseidon permutation over a state
//! of `arity + 1` field elements, and the public hash entry point.
//!
//! Each round adds one round constant to every state position, applies the
//! S-box (`v` to the fifth power) to every position in a full round and only
//! to position 0 in a partial round, and replaces the state with its product
//! by the mixing matrix.  The eight full rounds are split half before and
//! half after the block of partial rounds.

use vstd::prelude::*;

use vstd::arithmetic::div_mod::lemma_mul_mod_noop_general;
use vstd::arithmetic::power::lemma_pow1;
use vstd::arithmetic::power::lemma_pow_adds;
use vstd::arithmetic::power::pow;

use crate::field::Fe;
use crate::field::all_wf;
use crate::field::field_prime;
use crate::field::fadd;
use crate::field::fe_views;
use crate::field::fmul;
use crate::params::ParamsModel;
use crate::params::PoseidonError;
use crate::params::PoseidonParams;
use crate::params::embedded_c_value;
use crate::params::embedded_m_value;
use crate::params::embedded_tables_ok;
use crate::params::read_constants;
use crate::params::spec_partial_rounds;

verus! {

/// The S-box: the fifth power in the field, written as square, square,
/// multiply.
pub open spec fn spec_pow5(v: nat) -> nat {
    fmul(fmul(fmul(v, v), fmul(v, v)), v)
}

/// The S-box computes the fifth power: the three multiplications it is
/// written with give exactly `v` to the fifth, reduced into the field.
pub proof fn lemma_pow5_is_fifth_power(v: nat)
    ensures
        spec_pow5(v) == (pow(v as int, 5) as nat) % field_prime(),
{
    let p = field_prime() as int;
    let vi = v as int;
    lemma_pow1(vi);
    lemma_pow_adds(vi, 1, 1);
    lemma_pow_adds(vi, 2, 2);
    lemma_pow_adds(vi, 4, 1);
    let s = fmul(v, v);
    assert(s == pow(vi, 2) % p);
    lemma_mul_mod_noop_general(pow(vi, 2), pow(vi, 2), p);
    assert(fmul(s, s) == (pow(vi, 2) * pow(vi, 2)) % p);
    lemma_mul_mod_noop_general(pow(vi, 4), vi, p);
    assert(fmul(fmul(s, s), v) == (pow(vi, 4) * vi) % p);
}

/// The S-box is applied at round `x`, position `y`: always at position 0,
/// and at every position during the leading and trailing full rounds.
pub open spec fn sbox_applies(nf: nat, np: nat, x: int, y: int) -> bool {
    y == 0 || x < nf / 2 || x >= nf / 2 + np
}

/// The first `n` terms of one output position of the mixing step: the
/// running sum of row entry times state entry.
pub open spec fn spec_mix_entry(row: Seq<nat>, s: Seq<nat>, n: int) -> nat
    decreases n,
{
    if n <= 0 {
        0
    } else {
        fadd(spec_mix_entry(row, s, n - 1), fmul(row[n - 1], s[n - 1]))
    }
}

/// The mixing step: the matrix applied to the state, position `i` being the
/// sum over `j` of `m[i][j] * s[j]`.
pub open spec fn spec_mix(m: Seq<Seq<nat>>, s: Seq<nat>) -> Seq<nat> {
    Seq::new(s.len(), |i: int| spec_mix_entry(m[i], s, s.len() as int))
}

/// One round of the permutation at round index `x`: round-constant
/// addition, the S-box where it applies, then mixing.
pub open spec fn spec_round(p: ParamsModel, x: int, s: Seq<nat>) -> Seq<nat> {
    spec_mix(
        p.m,
        Seq::new(
            s.len(),
            |y: int|
                {
                    let v = fadd(s[y], p.c[x * (s.len() as int) + y]);
                    if sbox_applies(p.num_full_rounds, p.num_partial_rounds, x, y) {
                        spec_pow5(v)
                    } else {
                        v
                    }
                },
        ),
    )
}

/// The first `x` rounds of the permutation applied to a state.
pub open spec fn spec_rounds(p: ParamsModel, s: Seq<nat>, x: int) -> Seq<nat>
    decreases x,
{
    if x <= 0 {
        s
    } else {
        spec_round(p, x - 1, spec_rounds(p, s, x - 1))
    }
}

/// The full permutation on the given inputs: a zero capacity element is
/// prepended, every round is applied, and position 0 is the result.
pub open spec fn spec_permute(p: ParamsModel, inputs: Seq<nat>) -> nat {
    spec_rounds(
        p,
        seq![0nat] + inputs,
        (p.num_full_rounds + p.num_partial_rounds) as int,
    )[0]
}

/// The decoded values of the embedded constant tables for the arity.
pub open spec fn embedded_params_model(arity: int) -> ParamsModel {
    let t = arity + 1;
    let rounds = 8 + spec_partial_rounds(arity) as int;
    ParamsModel {
        c: Seq::new((t * rounds) as nat, |k: int| embedded_c_value(arity, k)),
        m: Seq::new(
            t as nat,
            |i: int| Seq::new(t as nat, |j: int| embedded_m_value(arity, i, j)),
        ),
        num_full_rounds: 8,
        num_partial_rounds: spec_partial_rounds(arity),
    }
}

/// The hash of the inputs under the embedded constants for the arity.
pub open spec fn spec_poseidon(arity: int, inputs: Seq<nat>) -> nat {
    spec_permute(embedded_params_model(arity), inputs)
}

/// The S-box: the fifth power in the field, computed as square, square,
/// multiply.
pub fn pow5(v: &Fe) -> (r: Fe)
    ensures
        r.wf(),
        r@ == spec_pow5(v@),
{
    let square = v.mul(v);
    let quad = square.mul(&square);
    quad.mul(v)
}

/// The mixing step: replaces the state with the mixing matrix applied to it.
pub fn mix(state: &Vec<Fe>, params: &PoseidonParams) -> (out: Vec<Fe>)
    requires
        params.m@.len() >= state@.len(),
        forall|i: int|
            0 <= i < state@.len() ==> (#[trigger] params.m@[i])@.len() >= state@.len(),
    ensures
        out@.len() == state@.len(),
        all_wf(out@),
        fe_views(out@) == spec_mix(params@.m, fe_views(state@)),
{
    let n = state.len();
    let mut out: Vec<Fe> = Vec::new();
    let mut i: usize = 0;
    while i < n
        invariant
            n == state@.len(),
            i <= n,
            params.m@.len() >= n,
            forall|a: int| 0 <= a < n ==> (#[trigger] params.m@[a])@.len() >= n,
            out@.len() == i,
            forall|a: int| 0 <= a < i ==> (#[trigger] out@[a]).wf(),
            forall|a: int|
                0 <= a < i ==> (#[trigger] out@[a])@ == spec_mix_entry(
                    params@.m[a],
                    fe_views(state@),
                    n as int,
                ),
        decreases n - i,
    {
        let mut o = Fe::zero();
        let mut j: usize = 0;
        while j < n
            invariant
                n == state@.len(),
                i < n,
                j <= n,
                params.m@.len() >= n,
                forall|a: int| 0 <= a < n ==> (#[trigger] params.m@[a])@.len() >= n,
                o.wf(),
                o@ == spec_mix_entry(params@.m[i as int], fe_views(state@), j as int),
            decreases n - j,
        {
            proof {
                assert(params@.m[i as int] == params.m@[i as int]@.map_values(|fe: Fe| fe@));
                assert(params@.m[i as int][j as int] == params.m@[i as int]@[j as int]@);
                assert(fe_views(state@)[j as int] == state@[j as int]@);
            }
            let row: &Vec<Fe> = &params.m[i];
            let prod = row[j].mul(&state[j]);
            o = o.add(&prod);
            j = j + 1;
        }
        out.push(o);
        i = i + 1;
    }
    proof {
        assert(fe_views(out@) =~= spec_mix(params@.m, fe_views(state@)));
    }
    out
}

/// The Poseidon hash on the BN128 scalar field, instantiated with the same
/// constants as the circomlib reference implementation.  The first argument
/// is the declared number of inputs, so that wrongly sized input vectors are
/// caught; it must equal `input.len()` and lie in 1 through 16.
///
/// Fails with `ArityMismatch` exactly when the input length disagrees with
/// the declared count, before any constant lookup; with `InvalidArity`
/// exactly when the declared count is outside 1 through 16; otherwise
/// returns the hash of the inputs under the embedded constants.
pub fn poseidon(input_count: u8, input: &[Fe]) -> (r: Result<Fe, PoseidonError>)
    ensures
        match r {
            Ok(out) => {
                &&& input@.len() == input_count as int
                &&& 1 <= input_count <= 16
                &&& embedded_tables_ok(input_count as int)
                &&& out.wf()
                &&& out@ == spec_poseidon(input_count as int, fe_views(input@))
            },
            Err(PoseidonError::ArityMismatch { expected, actual }) => {
                &&& input@.len() != input_count as int
                &&& expected == input_count as int
                &&& actual == input@.len()
            },
            Err(PoseidonError::InvalidArity { arity }) => {
                &&& input@.len() == input_count as int
                &&& !(1 <= input_count <= 16)
                &&& arity == input_count
            },
            Err(PoseidonError::MalformedConstants { .. }) => {
                &&& input@.len() == input_count as int
                &&& 1 <= input_count <= 16
                &&& !embedded_tables_ok(input_count as int)
            },
            Err(PoseidonError::EncodingError { .. }) => {
                &&& input@.len() == input_count as int
                &&& 1 <= input_count <= 16
                &&& !embedded_tables_ok(input_count as int)
            },
            _ => false,
        },
{
    if input.len() != input_count as usize {
        return Err(
            PoseidonError::ArityMismatch { expected: input_count as usize, actual: input.len() },
        );
    }
    let params = match read_constants(input_count) {
        Ok(p) => p,
        Err(e) => {
            return Err(e);
        },
    };
    let ghost arity = input_count as int;
    let ghost model = embedded_params_model(arity);
    let t: usize = input_count as usize + 1;
    let rounds: usize = 8 + params.num_partial_rounds;
    proof {
        assert(params.num_partial_rounds <= 70);
        assert(params@.c =~= model.c);
        assert forall|i: int| 0 <= i < t implies params@.m[i] =~= model.m[i] by {
            assert(params@.m[i] == params.m@[i]@.map_values(|fe: Fe| fe@));
        }
        assert(params@.m =~= model.m);
        assert(params@ == model);
        assert(model.c.len() == t * rounds);
    }
    let mut state: Vec<Fe> = Vec::new();
    state.push(Fe::zero());
    let mut i: usize = 0;
    while i < input.len()
        invariant
            i <= input@.len(),
            state@.len() == i + 1,
            fe_views(state@) == seq![0nat] + fe_views(input@).take(i as int),
        decreases input@.len() - i,
    {
        let fe = input[i].dup();
        proof {
            let snew = state@.push(fe);
            let rhs = seq![0nat] + fe_views(input@).take(i + 1);
            assert forall|k: int| 0 <= k < snew.len() implies fe_views(snew)[k] == rhs[k] by {
                assert(fe_views(snew)[k] == snew[k]@);
                if k < i + 1 {
                    assert(snew[k] == state@[k]);
                    assert(fe_views(state@)[k] == state@[k]@);
                    assert((seq![0nat] + fe_views(input@).take(i as int))[k] == state@[k]@);
                    if k >= 1 {
                        assert(fe_views(input@).take(i as int)[k - 1] == fe_views(input@)[k - 1]);
                        assert(fe_views(input@).take(i + 1)[k - 1] == fe_views(input@)[k - 1]);
                    }
                } else {
                    assert(snew[k] == fe);
                    assert(fe_views(input@)[i as int] == input@[i as int]@);
                    assert(rhs[k] == fe_views(input@).take(i + 1)[i as int]);
                }
            }
            assert(fe_views(snew) =~= rhs);
        }
        state.push(fe);
        i = i + 1;
    }
    let ghost s0 = seq![0nat] + fe_views(input@);
    proof {
        assert(fe_views(input@).take(input@.len() as int) =~= fe_views(input@));
        assert(fe_views(state@) == s0);
    }
    let mut x: usize = 0;
    while x < rounds
        invariant
            x <= rounds,
            t == input_count as int + 1,
            t <= 17,
            rounds <= 78,
            model == embedded_params_model(input_count as int),
            params@ == model,
            rounds == model.num_full_rounds + model.num_partial_rounds,
            rounds == 8 + params.num_partial_rounds,
            params.num_full_rounds == 8,
            params.c@.len() == t * rounds,
            params.m@.len() == t,
            forall|a: int| 0 <= a < t ==> (#[trigger] params.m@[a])@.len() == t,
            forall|a: int| 0 <= a < params.c@.len() ==> (#[trigger] params.c@[a]).wf(),
            state@.len() == t,
            fe_views(state@) == spec_rounds(model, s0, x as int),
            x >= 1 ==> all_wf(state@),
            s0 == seq![0nat] + fe_views(input@),
            s0.len() == t,
        decreases rounds - x,
    {
        let mut pre: Vec<Fe> = Vec::new();
        let mut y: usize = 0;
        while y < t
            invariant
                y <= t,
                x < rounds,
                t <= 17,
                rounds <= 78,
                params@ == model,
                rounds == 8 + params.num_partial_rounds,
                params.num_full_rounds == 8,
                params.c@.len() == t * rounds,
                state@.len() == t,
                pre@.len() == y,
                all_wf(pre@),
                forall|b: int|
                    0 <= b < y ==> (#[trigger] pre@[b])@ == {
                        let v = fadd(
                            fe_views(state@)[b],
                            model.c[x as int * (t as int) + b],
                        );
                        if sbox_applies(
                            model.num_full_rounds,
                            model.num_partial_rounds,
                            x as int,
                            b,
                        ) {
                            spec_pow5(v)
                        } else {
                            v
                        }
                    },
            decreases t - y,
        {
            proof {
                assert(x * t + y < t * rounds && x * t + y < 17 * 78) by (nonlinear_arith)
                    requires
                        0 <= x < rounds,
                        0 <= y < t,
                        t <= 17,
                        rounds <= 78,
                ;
                assert(params@.c[x as int * (t as int) + y as int] == params.c@[x as int * (
                t as int) + y as int]@);
                assert(fe_views(state@)[y as int] == state@[y as int]@);
            }
            let mut v = state[y].add(&params.c[x * t + y]);
            if y == 0 || x < params.num_full_rounds / 2 || x >= params.num_full_rounds / 2
                + params.num_partial_rounds {
                v = pow5(&v);
                proof {
                    assert(sbox_applies(
                        model.num_full_rounds,
                        model.num_partial_rounds,
                        x as int,
                        y as int,
                    ));
                }
            } else {
                proof {
                    assert(!sbox_applies(
                        model.num_full_rounds,
                        model.num_partial_rounds,
                        x as int,
                        y as int,
                    ));
                }
            }
            pre.push(v);
            y = y + 1;
        }
        proof {
            assert(fe_views(pre@) =~= Seq::new(
                fe_views(state@).len(),
                |b: int|
                    {
                        let v = fadd(
                            fe_views(state@)[b],
                            model.c[x as int * (fe_views(state@).len() as int) + b],
                        );
                        if sbox_applies(
                            model.num_full_rounds,
                            model.num_partial_rounds,
                            x as int,
                            b,
                        ) {
                            spec_pow5(v)
                        } else {
                            v
                        }
                    },
            ));
        }
        let mixed = mix(&pre, &params);
        proof {
            assert(fe_views(mixed@) == spec_round(model, x as int, fe_views(state@)));
            assert(spec_rounds(model, s0, x as int + 1) == spec_round(
                model,
                x as int,
                spec_rounds(model, s0, x as int),
            ));
        }
        state = mixed;
        x = x + 1;
    }
    let out = state[0].dup();
    proof {
        assert(out@ == spec_permute(model, fe_views(input@)));
    }
    Ok(out)
}

/// Determinism: the hash is a function of the arity and the input values
/// alone, so two results computed for the same arity and the same values
/// are equal.
pub proof fn lemma_poseidon_deterministic(arity: int, inputs: Seq<nat>, r1: nat, r2: nat)
    requires
        r1 == spec_poseidon(arity, inputs),
        r2 == spec_poseidon(arity, inputs),
    ensures
        r1 == r2,
{
}

/// The two formulations of the S-box placement rule agree for every round
/// index and position: the three-way disjunction used here, and the split
/// that applies the S-box at every position of a full round and otherwise
/// only at position 0.
pub proof fn lemma_sbox_forms_agree(nf: nat, np: nat, x: int, y: int)
    ensures
        sbox_applies(nf, np, x, y) == (if x < nf / 2 || x >= nf / 2 + np {
            true
        } else {
            y == 0
        }),
{
}

} // verus!
