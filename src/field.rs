use ark_bls12_381::Fr;
use ark_ff::{BigInteger256, PrimeField};
use vstd::prelude::*;

verus! {

/// The order of the BLS12-381 scalar field, which is also the base field of
/// the Jubjub curve.
pub open spec fn modulus() -> nat {
    limbs_value(seq![
        0xffff_ffff_0000_0001u64,
        0x53bd_a402_fffe_5bfeu64,
        0x3339_d808_09a1_d805u64,
        0x73ed_a753_299d_7d48u64,
    ])
}

/// The base of a limb.
pub open spec fn limb_base() -> nat {
    0x1_0000_0000_0000_0000
}

/// The integer that four little-endian 64-bit limbs spell.
pub open spec fn limbs_value(l: Seq<u64>) -> nat
    recommends
        l.len() == 4,
{
    (l[0] as nat) + limb_base() * ((l[1] as nat) + limb_base() * ((l[2] as nat) + limb_base()
        * (l[3] as nat)))
}

/// A field element, held as the little-endian limbs of its canonical
/// representative.
#[derive(Clone, Copy, Debug)]
pub struct FieldElement {
    pub limbs: [u64; 4],
}

impl FieldElement {
    /// The residue this element stands for.
    pub open spec fn val(self) -> nat {
        limbs_value(self.limbs@)
    }

    /// The representative is canonical: below the modulus.
    pub open spec fn wf(self) -> bool {
        self.val() < modulus()
    }
}

/// The field element that an integer of absolute value below the modulus
/// maps to.
pub open spec fn int_to_field(x: int) -> nat {
    if x >= 0 {
        x as nat
    } else {
        (modulus() + x) as nat
    }
}

pub open spec fn field_add(a: nat, b: nat) -> nat {
    (a + b) % modulus()
}

pub open spec fn field_mul(a: nat, b: nat) -> nat {
    (a * b) % modulus()
}

pub open spec fn field_neg(a: nat) -> nat {
    ((modulus() - a) % (modulus() as int)) as nat
}

/// Relies on `From<u64>` and `PrimeField::into_repr` of ark-ff's `Fp256`:
/// a `u64` embeds as itself, and `into_repr` gives the canonical limbs.
#[verifier::external_body]
fn fr_from_u64(v: u64) -> (r: FieldElement)
    ensures
        r.val() == v,
        r.wf(),
{
    FieldElement { limbs: Fr::from(v).into_repr().0 }
}

/// Relies on `Neg` of ark-ff's `Fp256`, through `from_repr` and `into_repr`.
#[verifier::external_body]
fn fr_neg(a: &FieldElement) -> (r: FieldElement)
    requires
        a.wf(),
    ensures
        r.val() == field_neg(a.val()),
        r.wf(),
{
    FieldElement { limbs: (-Fr::from_repr(BigInteger256::new(a.limbs)).unwrap()).into_repr().0 }
}

/// Relies on `Add` of ark-ff's `Fp256`, through `from_repr` and `into_repr`.
#[verifier::external_body]
fn fr_add(a: &FieldElement, b: &FieldElement) -> (r: FieldElement)
    requires
        a.wf(),
        b.wf(),
    ensures
        r.val() == field_add(a.val(), b.val()),
        r.wf(),
{
    let x = Fr::from_repr(BigInteger256::new(a.limbs)).unwrap();
    let y = Fr::from_repr(BigInteger256::new(b.limbs)).unwrap();
    FieldElement { limbs: (x + y).into_repr().0 }
}

/// Relies on `Mul` of ark-ff's `Fp256`, through `from_repr` and `into_repr`.
#[verifier::external_body]
fn fr_mul(a: &FieldElement, b: &FieldElement) -> (r: FieldElement)
    requires
        a.wf(),
        b.wf(),
    ensures
        r.val() == field_mul(a.val(), b.val()),
        r.wf(),
{
    let x = Fr::from_repr(BigInteger256::new(a.limbs)).unwrap();
    let y = Fr::from_repr(BigInteger256::new(b.limbs)).unwrap();
    FieldElement { limbs: (x * y).into_repr().0 }
}

/// Relies on `PrimeField::from_repr` of ark-ff's `Fp256`, which returns
/// `Some` exactly for limbs below the modulus.
#[verifier::external_body]
fn fr_is_canonical(a: &FieldElement) -> (r: bool)
    ensures
        r == a.wf(),
{
    Fr::from_repr(BigInteger256::new(a.limbs)).is_some()
}

impl FieldElement {
    /// Whether the limbs hold a canonical representative.
    pub fn is_canonical(&self) -> (r: bool)
        ensures
            r == self.wf(),
    {
        fr_is_canonical(self)
    }

    /// The sum of two elements.
    pub fn add(&self, other: &FieldElement) -> (r: FieldElement)
        requires
            self.wf(),
            other.wf(),
        ensures
            r.wf(),
            r.val() == field_add(self.val(), other.val()),
    {
        fr_add(self, other)
    }

    /// The product of two elements.
    pub fn mul(&self, other: &FieldElement) -> (r: FieldElement)
        requires
            self.wf(),
            other.wf(),
        ensures
            r.wf(),
            r.val() == field_mul(self.val(), other.val()),
    {
        fr_mul(self, other)
    }

    /// Whether two elements are the same residue.
    pub fn equals(&self, other: &FieldElement) -> (r: bool)
        ensures
            r == (self.val() == other.val()),
    {
        let mut i: usize = 0;
        while i < 4
            invariant
                0 <= i <= 4,
                forall|j: int| 0 <= j < i ==> self.limbs[j] == other.limbs[j],
            decreases 4 - i,
        {
            if self.limbs[i] != other.limbs[i] {
                proof {
                    if self.val() == other.val() {
                        lemma_limbs_injective(self.limbs@, other.limbs@);
                        assert(self.limbs@[i as int] == other.limbs@[i as int]);
                    }
                }
                return false;
            }
            i = i + 1;
        }
        proof {
            assert(self.limbs@ =~= other.limbs@);
        }
        true
    }
}

/// Distinct limb sequences spell distinct integers.
proof fn lemma_limbs_injective(a: Seq<u64>, b: Seq<u64>)
    requires
        a.len() == 4,
        b.len() == 4,
        limbs_value(a) == limbs_value(b),
    ensures
        a =~= b,
{
    let base: int = limb_base() as int;
    lemma_digit_split(a[0] as int, a[1] + base * (a[2] + base * a[3]), b[0] as int, b[1] + base * (b[2] + base * b[3]), base);
    lemma_digit_split(a[1] as int, a[2] + base * a[3], b[1] as int, b[2] + base * b[3], base);
    lemma_digit_split(a[2] as int, a[3] as int, b[2] as int, b[3] as int, base);
}

proof fn lemma_digit_split(d1: int, h1: int, d2: int, h2: int, p: int)
    requires
        0 <= d1 < p,
        0 <= d2 < p,
        0 <= h1,
        0 <= h2,
        d1 + p * h1 == d2 + p * h2,
    ensures
        d1 == d2,
        h1 == h2,
{
    if h1 < h2 {
        assert(p * h1 + p <= p * h2) by (nonlinear_arith)
            requires h1 < h2, p > 0;
    } else if h2 < h1 {
        assert(p * h2 + p <= p * h1) by (nonlinear_arith)
            requires h2 < h1, p > 0;
    }
}

/// Maps a signed integer into the field: its absolute value is embedded and
/// negated when the integer is negative.
pub fn to_fq(x: i64) -> (r: FieldElement)
    ensures
        r.wf(),
        r.val() == int_to_field(x as int),
{
    let mag: u64 = if x >= 0 {
        x as u64
    } else if x == i64::MIN {
        0x8000_0000_0000_0000u64
    } else {
        (-x) as u64
    };
    let e = fr_from_u64(mag);
    if x < 0 {
        let n = fr_neg(&e);
        proof {
            lemma_modulus_bounds();
            vstd::arithmetic::div_mod::lemma_small_mod((modulus() - mag) as nat, modulus());
        }
        n
    } else {
        e
    }
}

/// An integer and its negation map to elements that sum to zero, and zero maps
/// to zero.
pub proof fn lemma_to_fq_negation(x: i64)
    requires
        x > i64::MIN,
    ensures
        field_add(int_to_field(x as int), int_to_field(-x)) == 0,
        int_to_field(0) == 0,
{
    lemma_modulus_bounds();
    vstd::arithmetic::div_mod::lemma_mod_self_0(modulus() as int);
    vstd::arithmetic::div_mod::lemma_small_mod(0, modulus());
}

/// The modulus is larger than every `i64` magnitude.
pub proof fn lemma_modulus_bounds()
    ensures
        modulus() > limb_base(),
        limb_base() > 0x8000_0000_0000_0000,
{
    let l = seq![
        0xffff_ffff_0000_0001u64,
        0x53bd_a402_fffe_5bfeu64,
        0x3339_d808_09a1_d805u64,
        0x73ed_a753_299d_7d48u64,
    ];
    assert(l[1] == 0x53bd_a402_fffe_5bfeu64);
    assert(limb_base() * l[1] >= limb_base()) by (nonlinear_arith)
        requires l[1] >= 1;
    assert(limb_base() * ((l[1] as nat) + limb_base() * ((l[2] as nat) + limb_base() * (l[3] as nat))) >= limb_base() * l[1]) by (nonlinear_arith);
}

} // verus!
