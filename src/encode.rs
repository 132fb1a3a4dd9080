use crate::hex::{artifact_text, hex_artifact};
use vstd::prelude::*;

verus! {

/// A serialized Groth16 proof, one byte string per group element.
pub struct Proof {
    pub pi_a: Vec<u8>,
    pub pi_b: Vec<u8>,
    pub pi_c: Vec<u8>,
}

/// A serialized verifying key, one byte string per group element.
pub struct VerifyKey {
    pub alpha_1: Vec<u8>,
    pub beta_1: Vec<u8>,
    pub beta_2: Vec<u8>,
    pub gamma_2: Vec<u8>,
    pub delta_1: Vec<u8>,
    pub delta_2: Vec<u8>,
    pub ic: Vec<Vec<u8>>,
}

/// What an artifact holds.
#[derive(Clone, Copy, Debug, PartialEq, Eq, Structural)]
pub enum Subject {
    Proof,
    VerifyKey,
    PublicInput,
}

/// Which element of its subject an artifact holds.
#[derive(Clone, Copy, Debug, PartialEq, Eq, Structural)]
pub enum Part {
    /// The whole serialized subject.
    Whole,
    A,
    B,
    C,
    Alpha,
    Beta1,
    Beta2,
    Gamma,
    Delta1,
    Delta2,
    /// The `ic` entry at this position, counted from zero.
    Ic(usize),
}

/// One text record to be stored: `0x` and the hex of some bytes, keyed by
/// subject, batch index and part.
#[derive(Debug)]
pub struct Artifact {
    pub subject: Subject,
    pub index: Option<u32>,
    pub part: Part,
    pub content: String,
}

impl View for Artifact {
    type V = (Subject, Option<u32>, Part, Seq<char>);

    open spec fn view(&self) -> Self::V {
        (self.subject, self.index, self.part, self.content@)
    }
}

/// Why a record could not be encoded.
#[derive(Clone, Copy, Debug, PartialEq, Eq, Structural)]
pub enum EncodingError {
    /// A record that the encoding needs is absent or malformed.
    DeserializationError,
    /// The verifying key has fewer `ic` entries than the encoding takes.
    IndexError,
}

/// The views of a sequence of artifacts.
pub open spec fn views(s: Seq<Artifact>) -> Seq<(Subject, Option<u32>, Part, Seq<char>)> {
    s.map_values(|a: Artifact| a@)
}

/// The artifact for one part, as a view.
pub open spec fn record(s: Subject, i: Option<u32>, p: Part, b: Seq<u8>) -> (
    Subject,
    Option<u32>,
    Part,
    Seq<char>,
) {
    (s, i, p, artifact_text(b))
}

/// The three records of a proof.
pub open spec fn proof_records(i: Option<u32>, p: Proof) -> Seq<
    (Subject, Option<u32>, Part, Seq<char>),
> {
    seq![
        record(Subject::Proof, i, Part::A, p.pi_a@),
        record(Subject::Proof, i, Part::B, p.pi_b@),
        record(Subject::Proof, i, Part::C, p.pi_c@),
    ]
}

/// The records of the first `n` entries of `ic`.
pub open spec fn ic_records(i: Option<u32>, ic: Seq<Vec<u8>>, n: nat) -> Seq<
    (Subject, Option<u32>, Part, Seq<char>),
>
    decreases n,
{
    if n == 0 {
        Seq::empty()
    } else {
        ic_records(i, ic, (n - 1) as nat) + seq![
            record(Subject::VerifyKey, i, Part::Ic((n - 1) as usize), ic[n - 1]@),
        ]
    }
}

/// The records of a verifying key: its six fixed elements, then the first
/// `n` entries of `ic`.
pub open spec fn vkey_records(i: Option<u32>, k: VerifyKey, n: nat) -> Seq<
    (Subject, Option<u32>, Part, Seq<char>),
> {
    seq![
        record(Subject::VerifyKey, i, Part::Alpha, k.alpha_1@),
        record(Subject::VerifyKey, i, Part::Beta1, k.beta_1@),
        record(Subject::VerifyKey, i, Part::Beta2, k.beta_2@),
        record(Subject::VerifyKey, i, Part::Gamma, k.gamma_2@),
        record(Subject::VerifyKey, i, Part::Delta1, k.delta_1@),
        record(Subject::VerifyKey, i, Part::Delta2, k.delta_2@),
    ] + ic_records(i, k.ic@, n)
}

/// A proof has three records, and a verifying key six and one per `ic`
/// entry taken: so the shared key of a batch has one record fewer than the
/// key of a single proof.
pub proof fn lemma_record_counts(i: Option<u32>, p: Proof, k: VerifyKey, n: nat)
    ensures
        proof_records(i, p).len() == 3,
        vkey_records(i, k, n).len() == 6 + n,
        vkey_records(i, k, BATCH_IC_ENTRIES as nat).len() + 1 == vkey_records(
            i,
            k,
            SINGLE_IC_ENTRIES as nat,
        ).len(),
{
    lemma_ic_count(i, k.ic@, n);
    lemma_ic_count(i, k.ic@, BATCH_IC_ENTRIES as nat);
    lemma_ic_count(i, k.ic@, SINGLE_IC_ENTRIES as nat);
}

proof fn lemma_ic_count(i: Option<u32>, ic: Seq<Vec<u8>>, n: nat)
    ensures
        ic_records(i, ic, n).len() == n,
    decreases n,
{
    if n > 0 {
        lemma_ic_count(i, ic, (n - 1) as nat);
    }
}

/// Number of `ic` entries written for a single proof and key.
pub const SINGLE_IC_ENTRIES: usize = 3;

/// Number of `ic` entries written for the shared key of a batch. This is one
/// fewer than for a single proof, and is kept as is on purpose.
pub const BATCH_IC_ENTRIES: usize = 2;

fn make_artifact(subject: Subject, index: Option<u32>, part: Part, bytes: &[u8]) -> (r: Artifact)
    ensures
        r@ == record(subject, index, part, bytes@),
{
    Artifact { subject, index, part, content: hex_artifact(bytes) }
}

/// Appends the records of a proof.
fn push_proof(out: &mut Vec<Artifact>, index: Option<u32>, p: &Proof)
    ensures
        views(final(out)@) == views(old(out)@) + proof_records(index, *p),
{
    out.push(make_artifact(Subject::Proof, index, Part::A, p.pi_a.as_slice()));
    out.push(make_artifact(Subject::Proof, index, Part::B, p.pi_b.as_slice()));
    out.push(make_artifact(Subject::Proof, index, Part::C, p.pi_c.as_slice()));
    assert(views(out@) =~= views(old(out)@) + proof_records(index, *p));
}

/// Appends the records of a verifying key with its first `n` `ic` entries.
fn push_vkey(out: &mut Vec<Artifact>, index: Option<u32>, k: &VerifyKey, n: usize)
    requires
        n <= k.ic@.len(),
    ensures
        views(final(out)@) == views(old(out)@) + vkey_records(index, *k, n as nat),
{
    out.push(make_artifact(Subject::VerifyKey, index, Part::Alpha, k.alpha_1.as_slice()));
    out.push(make_artifact(Subject::VerifyKey, index, Part::Beta1, k.beta_1.as_slice()));
    out.push(make_artifact(Subject::VerifyKey, index, Part::Beta2, k.beta_2.as_slice()));
    out.push(make_artifact(Subject::VerifyKey, index, Part::Gamma, k.gamma_2.as_slice()));
    out.push(make_artifact(Subject::VerifyKey, index, Part::Delta1, k.delta_1.as_slice()));
    out.push(make_artifact(Subject::VerifyKey, index, Part::Delta2, k.delta_2.as_slice()));
    let ghost fixed = views(out@);
    let mut j: usize = 0;
    while j < n
        invariant
            j <= n,
            n <= k.ic@.len(),
            fixed == views(old(out)@) + vkey_records(index, *k, 0),
            views(out@) == fixed + ic_records(index, k.ic@, j as nat),
        decreases n - j,
    {
        let ghost before = out@;
        let a = make_artifact(Subject::VerifyKey, index, Part::Ic(j), k.ic[j].as_slice());
        out.push(a);
        assert(views(out@) =~= views(before) + seq![a@]);
        assert(ic_records(index, k.ic@, (j + 1) as nat) == ic_records(index, k.ic@, j as nat)
            + seq![record(Subject::VerifyKey, index, Part::Ic(j), k.ic@[j as int]@)]);
        assert(views(out@) =~= fixed + ic_records(index, k.ic@, (j + 1) as nat));
        j = j + 1;
    }
    assert(fixed + ic_records(index, k.ic@, n as nat) =~= views(old(out)@) + vkey_records(
        index,
        *k,
        n as nat,
    ));
}

/// The three artifacts of one proving session: the serialized proof, the
/// serialized verifying key and the public input, in that order.
pub fn encode_parameters(
    proof_serialized: &[u8],
    vkey_serialized: &[u8],
    public_input: &[u8],
) -> (r: Vec<Artifact>)
    ensures
        views(r@) == seq![
            record(Subject::Proof, None, Part::Whole, proof_serialized@),
            record(Subject::VerifyKey, None, Part::Whole, vkey_serialized@),
            record(Subject::PublicInput, None, Part::Whole, public_input@),
        ],
{
    let mut out: Vec<Artifact> = Vec::new();
    out.push(make_artifact(Subject::Proof, None, Part::Whole, proof_serialized));
    out.push(make_artifact(Subject::VerifyKey, None, Part::Whole, vkey_serialized));
    out.push(make_artifact(Subject::PublicInput, None, Part::Whole, public_input));
    assert(views(out@) =~= seq![
        record(Subject::Proof, None, Part::Whole, proof_serialized@),
        record(Subject::VerifyKey, None, Part::Whole, vkey_serialized@),
        record(Subject::PublicInput, None, Part::Whole, public_input@),
    ]);
    out
}

/// One artifact per element of a proof and of its verifying key, with the
/// first three `ic` entries. Fails, before producing anything, when the key
/// has fewer than three `ic` entries.
pub fn encode_uncompressed_2inputs(proof: &Proof, vkey: &VerifyKey) -> (r: Result<
    Vec<Artifact>,
    EncodingError,
>)
    ensures
        vkey.ic@.len() < SINGLE_IC_ENTRIES ==> r == Err::<Vec<Artifact>, EncodingError>(
            EncodingError::IndexError,
        ),
        vkey.ic@.len() >= SINGLE_IC_ENTRIES ==> r is Ok && views(r->Ok_0@) == proof_records(
            None,
            *proof,
        ) + vkey_records(None, *vkey, SINGLE_IC_ENTRIES as nat),
{
    if vkey.ic.len() < SINGLE_IC_ENTRIES {
        return Err(EncodingError::IndexError);
    }
    let mut out: Vec<Artifact> = Vec::new();
    push_proof(&mut out, None, proof);
    push_vkey(&mut out, None, vkey, SINGLE_IC_ENTRIES);
    assert(views(Seq::<Artifact>::empty()) =~= Seq::empty());
    Ok(out)
}

/// The artifacts of proof `count` of a batch whose last index is `max_count`.
/// Every proof gets its three records; the last one also carries the shared
/// verifying key with its first two `ic` entries. The key is needed only
/// then: its absence fails with `DeserializationError`, too few `ic` entries
/// with `IndexError`, both before producing anything.
pub fn encode_multi_uncompressed(
    count: u32,
    max_count: u32,
    proof: &Proof,
    vkey: Option<&VerifyKey>,
) -> (r: Result<Vec<Artifact>, EncodingError>)
    ensures
        count != max_count ==> r is Ok && views(r->Ok_0@) == proof_records(Some(count), *proof),
        count == max_count && vkey is None ==> r == Err::<Vec<Artifact>, EncodingError>(
            EncodingError::DeserializationError,
        ),
        count == max_count && vkey is Some && vkey->Some_0.ic@.len() < BATCH_IC_ENTRIES ==> r
            == Err::<Vec<Artifact>, EncodingError>(EncodingError::IndexError),
        count == max_count && vkey is Some && vkey->Some_0.ic@.len() >= BATCH_IC_ENTRIES ==> r is Ok
            && views(r->Ok_0@) == proof_records(Some(count), *proof) + vkey_records(
            Some(count),
            *vkey->Some_0,
            BATCH_IC_ENTRIES as nat,
        ),
{
    let mut out: Vec<Artifact> = Vec::new();
    assert(views(out@) =~= Seq::empty());
    if count == max_count {
        match vkey {
            None => {
                return Err(EncodingError::DeserializationError);
            },
            Some(k) => {
                if k.ic.len() < BATCH_IC_ENTRIES {
                    return Err(EncodingError::IndexError);
                }
                push_proof(&mut out, Some(count), proof);
                push_vkey(&mut out, Some(count), k, BATCH_IC_ENTRIES);
            },
        }
    } else {
        push_proof(&mut out, Some(count), proof);
    }
    Ok(out)
}

} // verus!
