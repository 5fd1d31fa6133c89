//! Field elements of the BN128 (alt_bn128 / BN254) scalar field.
//!
//! An element is kept as its canonical value, the 32 little-endian bytes of
//! the unique representative below the field prime.  The modular arithmetic
//! itself is done by `scalarff`'s `Bn128FieldElement` behind trusted wrappers;
//! everything else about an element is verified against the integer model
//! given by [`le_bytes_value`].

use vstd::prelude::*;

use scalarff::Bn128FieldElement;
use scalarff::FieldElement;

verus! {

/// The prime modulus of the BN128 scalar field.
pub open spec fn field_prime() -> nat {
    21888242871839275222246405745257275088548364400416034343698204186575808495617nat
}

/// The value of a byte sequence read as a little-endian unsigned integer:
/// the last byte is the most significant.
pub open spec fn le_bytes_value(s: Seq<u8>) -> nat
    decreases s.len(),
{
    if s.len() == 0 {
        0
    } else {
        le_bytes_value(s.drop_last()) + (s.last() as nat) * pow256((s.len() - 1) as nat)
    }
}

/// 256 raised to the power `k`.
pub open spec fn pow256(k: nat) -> nat
    decreases k,
{
    if k == 0 {
        1
    } else {
        256 * pow256((k - 1) as nat)
    }
}

/// Addition in the field.
pub open spec fn fadd(a: nat, b: nat) -> nat {
    (a + b) % field_prime()
}

/// Multiplication in the field.
pub open spec fn fmul(a: nat, b: nat) -> nat {
    (a * b) % field_prime()
}

/// Appending a byte raises the value by that byte times the weight of the
/// new position.
pub proof fn lemma_le_bytes_value_push(s: Seq<u8>, b: u8)
    ensures
        le_bytes_value(s.push(b)) == le_bytes_value(s) + (b as nat) * pow256(s.len()),
{
    let t = s.push(b);
    assert(t.drop_last() =~= s);
    assert(t.last() == b);
}

/// A sequence of `k` bytes holds a value below `256^k`.
pub proof fn lemma_le_bytes_value_bound(s: Seq<u8>)
    ensures
        le_bytes_value(s) < pow256(s.len()),
    decreases s.len(),
{
    if s.len() > 0 {
        lemma_le_bytes_value_bound(s.drop_last());
        let n = (s.len() - 1) as nat;
        assert((s.last() as nat) * pow256(n) <= 255 * pow256(n)) by (nonlinear_arith)
            requires
                s.last() as nat <= 255,
                pow256(n) >= 0,
        ;
        assert(pow256(n) + 255 * pow256(n) == 256 * pow256(n));
    }
}

/// The first byte is the least significant.
pub proof fn lemma_le_bytes_value_first(s: Seq<u8>)
    requires
        s.len() > 0,
    ensures
        le_bytes_value(s) == s[0] + 256 * le_bytes_value(s.drop_first()),
    decreases s.len(),
{
    if s.len() == 1 {
        assert(s.drop_last() =~= Seq::<u8>::empty());
        assert(s.drop_first() =~= Seq::<u8>::empty());
        assert(le_bytes_value(Seq::<u8>::empty()) == 0);
        assert(s.last() == s[0]);
        assert(pow256((s.len() - 1) as nat) == 1);
        assert(le_bytes_value(s) == le_bytes_value(s.drop_last()) + (s.last() as nat) * pow256(
            (s.len() - 1) as nat,
        ));
        assert((s.last() as nat) * pow256((s.len() - 1) as nat) == s.last() as nat)
            by (nonlinear_arith)
            requires
                pow256((s.len() - 1) as nat) == 1,
        ;
    } else {
        let n = s.len();
        lemma_le_bytes_value_first(s.drop_last());
        assert(s.drop_last().drop_first() =~= s.drop_first().drop_last());
        assert(s.drop_last()[0] == s[0]);
        assert(s.drop_first().last() == s.last());
        assert(le_bytes_value(s) == le_bytes_value(s.drop_last()) + (s.last() as nat) * pow256(
            (n - 1) as nat,
        ));
        assert(le_bytes_value(s.drop_first()) == le_bytes_value(s.drop_first().drop_last()) + (
        s.last() as nat) * pow256((n - 2) as nat));
        assert(pow256((n - 1) as nat) == 256 * pow256((n - 2) as nat));
        assert((s.last() as nat) * pow256((n - 1) as nat) == 256 * ((s.last() as nat) * pow256(
            (n - 2) as nat,
        ))) by (nonlinear_arith)
            requires
                pow256((n - 1) as nat) == 256 * pow256((n - 2) as nat),
        ;
    }
}

/// A value below `256^k` has exactly one `k`-byte little-endian form, so
/// comparing canonical byte encodings is comparing values.
pub proof fn lemma_le_bytes_value_injective(s1: Seq<u8>, s2: Seq<u8>)
    requires
        s1.len() == s2.len(),
        le_bytes_value(s1) == le_bytes_value(s2),
    ensures
        s1 == s2,
    decreases s1.len(),
{
    if s1.len() == 0 {
        assert(s1 =~= s2);
    } else {
        let n = (s1.len() - 1) as nat;
        lemma_le_bytes_value_bound(s1.drop_last());
        lemma_le_bytes_value_bound(s2.drop_last());
        assert(s1.last() == s2.last()) by (nonlinear_arith)
            requires
                le_bytes_value(s1.drop_last()) + (s1.last() as nat) * pow256(n)
                    == le_bytes_value(s2.drop_last()) + (s2.last() as nat) * pow256(n),
                le_bytes_value(s1.drop_last()) < pow256(n),
                le_bytes_value(s2.drop_last()) < pow256(n),
                pow256(n) > 0,
        ;
        assert((s1.last() as nat) * pow256(n) == (s2.last() as nat) * pow256(n));
        lemma_le_bytes_value_injective(s1.drop_last(), s2.drop_last());
        assert forall|i: int| 0 <= i < s1.len() implies s1[i] == s2[i] by {
            if i < s1.len() - 1 {
                assert(s1.drop_last()[i] == s1[i]);
                assert(s2.drop_last()[i] == s2[i]);
            }
        }
        assert(s1 =~= s2);
    }
}

/// The values of a sequence of field elements.
pub open spec fn fe_views(s: Seq<Fe>) -> Seq<nat> {
    s.map_values(|fe: Fe| fe@)
}

/// Every element of the sequence is canonical.
pub open spec fn all_wf(s: Seq<Fe>) -> bool {
    forall|i: int| 0 <= i < s.len() ==> (#[trigger] s[i]).wf()
}

/// A field element: the canonical 32 little-endian bytes of a value below
/// the field prime.
#[derive(Debug, Clone)]
pub struct Fe {
    bytes: Vec<u8>,
}

impl View for Fe {
    type V = nat;

    closed spec fn view(&self) -> nat {
        le_bytes_value(self.bytes@)
    }
}

impl Fe {
    /// The element is kept as exactly 32 bytes.
    pub closed spec fn canonical_len(&self) -> bool {
        self.bytes@.len() == 32
    }

    /// The element is in canonical form: 32 bytes holding a value below the
    /// field prime.
    pub open spec fn wf(&self) -> bool {
        self.canonical_len() && self@ < field_prime()
    }

    /// The additive identity.
    pub fn zero() -> (r: Fe)
        ensures
            r.wf(),
            r@ == 0,
    {
        let mut bytes: Vec<u8> = Vec::new();
        let mut i: usize = 0;
        while i < 32
            invariant
                i <= 32,
                bytes@.len() == i,
                le_bytes_value(bytes@) == 0,
            decreases 32 - i,
        {
            proof {
                lemma_le_bytes_value_push(bytes@, 0);
            }
            bytes.push(0);
            i += 1;
        }
        Fe { bytes }
    }

    /// The multiplicative identity.
    pub fn one() -> (r: Fe)
        ensures
            r.wf(),
            r@ == 1,
    {
        Fe::from_u64(1)
    }

    /// The element standing for a small unsigned integer.
    pub fn from_u64(v: u64) -> (r: Fe)
        ensures
            r.wf(),
            r@ == v,
    {
        let mut bytes: Vec<u8> = Vec::new();
        let mut x: u64 = v;
        let mut i: usize = 0;
        proof {
            reveal_with_fuel(pow256, 10);
            assert(pow256(8) == 18446744073709551616);
            assert(bytes@ =~= Seq::<u8>::empty());
            assert(le_bytes_value(bytes@) == 0);
            assert(pow256(0) == 1);
            assert((x as nat) * 1 == x as nat);
        }
        while i < 32
            invariant
                i <= 32,
                bytes@.len() == i,
                i >= 8 ==> x == 0,
                v as nat == le_bytes_value(bytes@) + (x as nat) * pow256(i as nat),
            decreases 32 - i,
        {
            let b: u8 = (x % 256) as u8;
            let q: u64 = x / 256;
            proof {
                lemma_le_bytes_value_push(bytes@, b);
                assert(x as nat == (b as nat) + 256 * (q as nat));
                assert((x as nat) * pow256(i as nat) == (b as nat) * pow256(i as nat) + (
                q as nat) * (256 * pow256(i as nat))) by (nonlinear_arith)
                    requires
                        x as nat == (b as nat) + 256 * (q as nat),
                ;
                assert(pow256((i + 1) as nat) == 256 * pow256(i as nat));
                if i == 7 {
                    reveal_with_fuel(pow256, 10);
                    assert((x as nat) * pow256(7) <= v as nat);
                    assert((v as nat) < pow256(8));
                    assert(x < 256) by (nonlinear_arith)
                        requires
                            (x as nat) * pow256(7) < pow256(8),
                            pow256(8) == 256 * pow256(7),
                            pow256(7) > 0,
                    ;
                    assert(q == 0);
                }
            }
            bytes.push(b);
            x = q;
            i += 1;
        }
        proof {
            assert((x as nat) * pow256(32) == 0);
            assert((v as nat) < field_prime());
        }
        Fe { bytes }
    }

    /// The element whose value is the little-endian reading of the bytes,
    /// reduced into the field.
    pub fn from_le_bytes(bytes: &[u8]) -> (r: Fe)
        ensures
            r.wf(),
            r@ == le_bytes_value(bytes@) % field_prime(),
    {
        let reduced = fe_reduce_bytes(bytes);
        Fe { bytes: reduced }
    }

    /// The canonical little-endian bytes of the element.
    pub fn to_le_bytes(&self) -> (r: Vec<u8>)
        ensures
            le_bytes_value(r@) == self@,
            self.wf() ==> r@.len() == 32,
    {
        self.bytes.clone()
    }

    /// A copy of the element.
    pub fn dup(&self) -> (r: Fe)
        ensures
            r@ == self@,
            r.wf() == self.wf(),
    {
        let bytes = self.bytes.clone();
        proof {
            assert(bytes@ =~= self.bytes@);
        }
        Fe { bytes }
    }

    /// Field addition.
    pub fn add(&self, other: &Fe) -> (r: Fe)
        ensures
            r.wf(),
            r@ == fadd(self@, other@),
    {
        let bytes = fe_add_bytes(self.bytes.as_slice(), other.bytes.as_slice());
        Fe { bytes }
    }

    /// Field multiplication.
    pub fn mul(&self, other: &Fe) -> (r: Fe)
        ensures
            r.wf(),
            r@ == fmul(self@, other@),
    {
        let bytes = fe_mul_bytes(self.bytes.as_slice(), other.bytes.as_slice());
        Fe { bytes }
    }
}

/// Relies on scalarff's `Bn128FieldElement::from_bytes_le`, which reads the
/// bytes as a little-endian unsigned integer and reduces it modulo the field
/// prime, and `to_bytes_le`, which returns the canonical value as exactly 32
/// little-endian bytes.
#[verifier::external_body]
fn fe_reduce_bytes(bytes: &[u8]) -> (r: Vec<u8>)
    ensures
        r@.len() == 32,
        le_bytes_value(r@) == le_bytes_value(bytes@) % field_prime(),
{
    Bn128FieldElement::from_bytes_le(bytes).to_bytes_le()
}

/// Relies on scalarff's `Add` for `Bn128FieldElement`: addition modulo the
/// field prime, with `from_bytes_le` reducing each argument and `to_bytes_le`
/// returning the canonical 32 little-endian bytes of the sum.
#[verifier::external_body]
fn fe_add_bytes(a: &[u8], b: &[u8]) -> (r: Vec<u8>)
    ensures
        r@.len() == 32,
        le_bytes_value(r@) == (le_bytes_value(a@) + le_bytes_value(b@)) % field_prime(),
{
    let x = Bn128FieldElement::from_bytes_le(a);
    let y = Bn128FieldElement::from_bytes_le(b);
    (x + y).to_bytes_le()
}

/// Relies on scalarff's `Mul` for `Bn128FieldElement`: multiplication modulo
/// the field prime, with `from_bytes_le` reducing each argument and
/// `to_bytes_le` returning the canonical 32 little-endian bytes of the
/// product.
#[verifier::external_body]
fn fe_mul_bytes(a: &[u8], b: &[u8]) -> (r: Vec<u8>)
    ensures
        r@.len() == 32,
        le_bytes_value(r@) == (le_bytes_value(a@) * le_bytes_value(b@)) % field_prime(),
{
    let x = Bn128FieldElement::from_bytes_le(a);
    let y = Bn128FieldElement::from_bytes_le(b);
    (x * y).to_bytes_le()
}

} // verus!
