//! Mirage: a Groth16-style zkSNARK whose prover also emits commitments to
//! blocks of the witness, with in-circuit randomness drawn by Fiat-Shamir
//! from those commitments.
use crate::curve::{g1_decodes, g1_views, g2_decodes, g2_views, G1, G2};
use crate::curve_io::{
    be_u64, encodings, from_be_u64, lemma_read_groups_of_encoding, groups_encoding, lemma_be_u64_round_trip, lemma_encodings_index, lemma_encodings_len,
    lemma_from_be_u64_round_trip, read_group_ok, read_group_uncompressed, read_groups_ok, read_groups_uncompressed,
    read_u64_be, write_group_uncompressed, write_groups_uncompressed, write_u64_be, IoError,
};
use crate::field::{fadd, fmul, le_int, modulus, Fr};
use crate::transcript::{challenge_bytes, transcript_challenge, transcript_domain, transcript_log};
use crate::SynthesisError;
use vstd::prelude::*;

pub mod generator;
pub mod prover;
pub mod verifying;

verus! {

/// The domain-separation label of every Mirage transcript.
pub const TRANSCRIPT_DOMAIN: &'static str = "mirage_aozdemir_1";

/// What happens to the transcript at each public slot, in synthesis order.
#[derive(Clone, Copy, Debug, PartialEq, Eq, Structural)]
pub enum TranscriptEntry {
    /// A public input is appended.
    PublicInput,
    /// A coin is drawn from the transcript and appended as an input.
    Coin,
    /// A block commitment is appended.
    AuxCommit,
}

/// A variable's position: among the public inputs or the auxiliary variables.
#[derive(Clone, Copy, Debug, PartialEq, Eq, Structural)]
pub enum Index {
    Input(usize),
    Aux(usize),
}

/// A variable of a constraint system.
#[derive(Clone, Copy, Debug, PartialEq, Eq, Structural)]
pub struct Variable(pub Index);

/// A sum of variables with coefficients.
pub struct LinearCombination(pub Vec<(Variable, Fr)>);

impl LinearCombination {
    /// The empty combination.
    pub fn zero() -> (r: LinearCombination)
        ensures
            r.0@.len() == 0,
    {
        LinearCombination(Vec::new())
    }

    /// Adds the term `coeff * var`.
    pub fn add_term(self, var: Variable, coeff: Fr) -> (r: LinearCombination)
        ensures
            r.0@ == self.0@.push((var, coeff)),
    {
        let mut terms = self.0;
        terms.push((var, coeff));
        LinearCombination(terms)
    }

    /// Adds `var` with coefficient one.
    pub fn add_var(self, var: Variable) -> (r: LinearCombination)
        ensures
            r.0@.len() == self.0@.len() + 1,
            r.0@.drop_last() == self.0@,
            r.0@.last().0 == var,
            r.0@.last().1.val() == 1,
    {
        self.add_term(var, Fr::one())
    }

    /// Subtracts `var`: adds it with coefficient minus one.
    pub fn sub_var(self, var: Variable) -> (r: LinearCombination)
        ensures
            r.0@.len() == self.0@.len() + 1,
            r.0@.drop_last() == self.0@,
            r.0@.last().0 == var,
            r.0@.last().1.val() == modulus() - 1,
    {
        let m = Fr::one().neg();
        proof {
            vstd::arithmetic::div_mod::lemma_fundamental_div_mod_converse(-1, modulus(), -1, modulus() - 1);
        }
        self.add_term(var, m)
    }
}

/// The value a variable takes under an assignment.
pub open spec fn var_value(v: Variable, inputs: Seq<int>, aux: Seq<int>) -> int {
    match v.0 {
        Index::Input(i) => inputs[i as int],
        Index::Aux(i) => aux[i as int],
    }
}

/// Whether a variable exists under an assignment with these lengths.
pub open spec fn var_in_range(v: Variable, n_inputs: nat, n_aux: nat) -> bool {
    match v.0 {
        Index::Input(i) => i < n_inputs,
        Index::Aux(i) => i < n_aux,
    }
}

/// Whether every term with a nonzero coefficient names an existing variable.
pub open spec fn lc_in_range(terms: Seq<(Variable, Fr)>, n_inputs: nat, n_aux: nat) -> bool {
    forall|t: int| 0 <= t < terms.len() && (#[trigger] terms[t]).1.val() != 0 ==> var_in_range(terms[t].0, n_inputs, n_aux)
}

/// The value of the first `n` terms, summed in order; terms with a zero
/// coefficient are skipped.
pub open spec fn lc_value(terms: Seq<(Variable, Fr)>, inputs: Seq<int>, aux: Seq<int>, n: nat) -> int
    decreases n,
{
    if n == 0 {
        0
    } else {
        let (v, c) = terms[n - 1];
        let prev = lc_value(terms, inputs, aux, (n - 1) as nat);
        if c.val() == 0 {
            prev
        } else {
            fadd(prev, fmul(var_value(v, inputs, aux), c.val()))
        }
    }
}

/// The coin drawn from a transcript with this domain and log: its 64
/// challenge bytes under the label "random", reduced into the field.
pub open spec fn coin_value(domain: Seq<char>, log: Seq<(Seq<char>, Seq<u8>)>) -> int {
    le_int(transcript_challenge(domain, log, "random"@)) % modulus()
}

/// Draws a coin from the transcript without changing it.
pub fn draw_coin(t: &merlin::Transcript) -> (r: Fr)
    ensures
        r.val() == coin_value(transcript_domain(*t), transcript_log(*t)),
{
    proof {
        reveal_strlit("random");
    }
    let bytes = challenge_bytes(t, "random");
    Fr::from_bytes_wide(&bytes)
}

/// A constraint-system builder for a commit-carrying circuit.
pub trait CcConstraintSystem {
    /// The variable fixed to one: input 0.
    fn one() -> Variable;

    /// Allocates an auxiliary variable; its value is needed when proving.
    fn alloc_aux(&mut self, value: Option<Fr>) -> Result<Variable, SynthesisError>;

    /// Allocates a public input; its value is needed when proving.
    fn alloc_input(&mut self, value: Option<Fr>) -> Result<Variable, SynthesisError>;

    /// Adds the constraint `a * b = c`.
    fn enforce(&mut self, a: LinearCombination, b: LinearCombination, c: LinearCombination) -> Result<(), SynthesisError>;

    /// Ends the current block of auxiliary variables.
    fn end_aux_block(&mut self) -> Result<(), SynthesisError>;

    /// Allocates a public input whose value is a coin drawn from the
    /// transcript; returns the variable and (when proving) its value.
    fn alloc_random(&mut self) -> Result<(Variable, Option<Fr>), SynthesisError>;
}

/// A circuit for the commit-carrying zkSNARK.
pub trait CcCircuit {
    /// Declares the circuit's variables, constraints, blocks and coins.
    fn synthesize<CS: CcConstraintSystem>(&self, cs: &mut CS) -> Result<(), SynthesisError>;

    /// How many auxiliary blocks the circuit ends.
    fn num_aux_blocks(&self) -> usize;
}

/// The verifying key.
pub struct VerifyingKey {
    pub alpha_g1: G1,
    pub beta_g1: G1,
    pub beta_g2: G2,
    pub gamma_g2: G2,
    /// `delta_0 .. delta_k` in G1: one per aux block, then the final one.
    pub deltas_g1: Vec<G1>,
    /// `delta_0 .. delta_k` in G2.
    pub deltas_g2: Vec<G2>,
    /// The public-input query: the constant, then one per public input or coin.
    pub ic: Vec<G1>,
    /// The order of public inputs, coins and block commitments.
    pub transcript: Vec<TranscriptEntry>,
}

/// The proving parameters.
pub struct Parameters {
    pub vk: VerifyingKey,
    /// `tau^i t(tau) / delta_k` for `i` below the domain size minus one.
    pub h: Vec<G1>,
    /// Per block (the last one included), the aux query under its delta.
    pub ls: Vec<Vec<G1>>,
    /// `u_j(tau)` for every variable, inputs first.
    pub a: Vec<G1>,
    /// `v_j(tau)` in G1 for every variable, inputs first.
    pub b_g1: Vec<G1>,
    /// `v_j(tau)` in G2 for every variable, inputs first.
    pub b_g2: Vec<G2>,
}

/// A proof: `A`, `B`, `C` and one commitment per ended aux block.
pub struct Proof {
    pub a: G1,
    pub b: G2,
    pub c: G1,
    pub ds: Vec<G1>,
}

/// The verifying key made ready for the pairing check.
pub struct PreparedVerifyingKey {
    pub alpha_g1: G1,
    pub neg_beta_g2: G2,
    pub neg_gamma_g2: G2,
    pub neg_deltas_g2: Vec<G2>,
    pub ic: Vec<G1>,
    pub transcript: Vec<TranscriptEntry>,
}

impl Proof {
    /// The bytes `write` produces: `A`, `B`, `C`, then the block commitments
    /// behind their count.
    pub open spec fn encoding(&self) -> Seq<u8> {
        self.a@ + self.b@ + self.c@ + groups_encoding(self.ds@)
    }

    /// Every point decodes (as any point built by the group operations does).
    pub open spec fn valid(&self) -> bool {
        &&& g1_decodes(self.a@, false)
        &&& g2_decodes(self.b@, false)
        &&& g1_decodes(self.c@, false)
        &&& forall|i: int| 0 <= i < self.ds@.len() ==> g1_decodes(#[trigger] self.ds@[i]@, false)
    }

    /// Appends the encoding of the proof, its fields in order.
    pub fn write(&self, out: &mut Vec<u8>)
        ensures
            final(out)@ == old(out)@ + self.encoding(),
    {
        write_group_uncompressed(out, &self.a);
        write_group_uncompressed(out, &self.b);
        write_group_uncompressed(out, &self.c);
        write_groups_uncompressed(out, self.ds.as_slice());
        assert(final(out)@ =~= old(out)@ + self.encoding());
    }

    /// What reading `input` may give: the points encoded at its start in the
    /// order `write` puts them, present exactly when all of them decode.
    pub open spec fn read_post(input: Seq<u8>, r: Result<Proof, IoError>) -> bool {
        let n = from_be_u64(input.subrange(384, 392)) as int;
        &&& (r is Ok) == (read_group_ok::<G1>(input, 0, false, true) && read_group_ok::<G2>(input, 96, false, true)
            && read_group_ok::<G1>(input, 288, false, true) && 392 <= input.len()
            && read_groups_ok::<G1>(input, 392, n as nat, false, true))
        &&& r matches Ok(y) ==> {
            &&& y.a@ == input.subrange(0, 96)
            &&& y.b@ == input.subrange(96, 288)
            &&& y.c@ == input.subrange(288, 384)
            &&& y.ds@.len() == n
            &&& forall|i: int| 0 <= i < n ==> (#[trigger] y.ds@[i])@ == input.subrange(392 + i * 96, 392 + i * 96 + 96)
        }
    }

    /// Reads a proof written by `write` from the start of `input`, without
    /// subgroup checks and allowing the identity.
    pub fn read(input: &[u8]) -> (r: Result<Proof, IoError>)
        ensures
            Proof::read_post(input@, r),
    {
        let (a, at_b) = match read_group_uncompressed::<G1>(input, 0, false, true) {
            Ok(x) => x,
            Err(e) => return Err(e),
        };
        let (b, at_c) = match read_group_uncompressed::<G2>(input, at_b, false, true) {
            Ok(x) => x,
            Err(e) => return Err(e),
        };
        let (c, at_ds) = match read_group_uncompressed::<G1>(input, at_c, false, true) {
            Ok(x) => x,
            Err(e) => return Err(e),
        };
        let (ds, _) = match read_groups_uncompressed::<G1>(input, at_ds, false, true) {
            Ok(x) => x,
            Err(e) => return Err(e),
        };
        Ok(Proof { a, b, c, ds })
    }
}

/// Reading back a written proof gives its points again.
pub proof fn lemma_proof_round_trip(x: Proof, r: Result<Proof, IoError>)
    requires
        x.valid(),
        x.ds@.len() <= u64::MAX,
        Proof::read_post(x.encoding(), r),
    ensures
        r matches Ok(y) && y.a@ == x.a@ && y.b@ == x.b@ && y.c@ == x.c@ && g1_views(y.ds@) == g1_views(x.ds@),
{
    let input = x.encoding();
    let n = x.ds@.len() as int;
    x.a.lemma_len();
    x.b.lemma_len();
    x.c.lemma_len();
    lemma_encodings_len(x.ds@);
    assert(input.subrange(0, 96) =~= x.a@);
    assert(input.subrange(96, 288) =~= x.b@);
    assert(input.subrange(288, 384) =~= x.c@);
    assert(input.subrange(384, 392) =~= be_u64(n as u64));
    lemma_be_u64_round_trip(n as u64);
    assert forall|i: int| 0 <= i < n implies #[trigger] read_group_ok::<G1>(input, 392 + i * 96, false, true) by {
        lemma_encodings_index(x.ds@, i);
        assert(392 + i * 96 + 96 <= 392 + n * 96) by (nonlinear_arith)
            requires
                i < n,
        ;
        assert(input.subrange(392 + i * 96, 392 + i * 96 + 96) =~= encodings(x.ds@).subrange(i * 96, i * 96 + 96));
    }
    assert(read_groups_ok::<G1>(input, 392, n as nat, false, true));
    let y = r->Ok_0;
    assert forall|i: int| 0 <= i < n implies #[trigger] g1_views(y.ds@)[i] == g1_views(x.ds@)[i] by {
        lemma_encodings_index(x.ds@, i);
        assert(input.subrange(392 + i * 96, 392 + i * 96 + 96) =~= encodings(x.ds@).subrange(i * 96, i * 96 + 96));
    }
    assert(g1_views(y.ds@) =~= g1_views(x.ds@));
}

/// The byte that stands for a schedule entry.
pub open spec fn entry_tag(e: TranscriptEntry) -> u8 {
    match e {
        TranscriptEntry::PublicInput => 0,
        TranscriptEntry::Coin => 1,
        TranscriptEntry::AuxCommit => 2,
    }
}

/// The bytes of a schedule: its length, then one tag per entry.
pub open spec fn schedule_encoding(s: Seq<TranscriptEntry>) -> Seq<u8> {
    be_u64(s.len() as u64) + s.map_values(|e: TranscriptEntry| entry_tag(e))
}

/// Appends the encoding of a schedule.
pub fn write_schedule(out: &mut Vec<u8>, s: &Vec<TranscriptEntry>)
    ensures
        final(out)@ == old(out)@ + schedule_encoding(s@),
{
    write_u64_be(out, s.len() as u64);
    let ghost start = out@;
    let mut i: usize = 0;
    while i < s.len()
        invariant
            i <= s@.len(),
            start == old(out)@ + be_u64(s@.len() as u64),
            out@ == start + s@.subrange(0, i as int).map_values(|e: TranscriptEntry| entry_tag(e)),
        decreases s@.len() - i,
    {
        let tag: u8 = match s[i] {
            TranscriptEntry::PublicInput => 0,
            TranscriptEntry::Coin => 1,
            TranscriptEntry::AuxCommit => 2,
        };
        out.push(tag);
        assert(s@.subrange(0, (i + 1) as int).map_values(|e: TranscriptEntry| entry_tag(e))
            =~= s@.subrange(0, i as int).map_values(|e: TranscriptEntry| entry_tag(e)).push(tag));
        i = i + 1;
    }
    assert(s@.subrange(0, s@.len() as int) =~= s@);
    assert(final(out)@ =~= old(out)@ + schedule_encoding(s@));
}

/// Reads a schedule at `pos`; returns it and the position after it. Fails on
/// a short input or a byte that is no tag.
pub fn read_schedule(input: &[u8], pos: usize) -> (r: Result<(Vec<TranscriptEntry>, usize), IoError>)
    ensures
        (r is Ok) == (pos + 8 <= input@.len() && ({
            let n = from_be_u64(input@.subrange(pos as int, pos + 8)) as int;
            &&& pos + 8 + n <= input@.len()
            &&& forall|i: int| 0 <= i < n ==> #[trigger] input@[pos + 8 + i] <= 2
        })),
        r matches Ok((s, end)) ==> {
            &&& s@.len() == from_be_u64(input@.subrange(pos as int, pos + 8))
            &&& end == pos + 8 + s@.len()
            &&& forall|i: int| 0 <= i < s@.len() ==> entry_tag(#[trigger] s@[i]) == input@[pos + 8 + i]
        },
{
    let (n, start) = match read_u64_be(input, pos) {
        Ok(x) => x,
        Err(e) => return Err(e),
    };
    let mut s: Vec<TranscriptEntry> = Vec::new();
    let mut cur = start;
    let mut i: u64 = 0;
    while i < n
        invariant
            start == pos + 8,
            n == from_be_u64(input@.subrange(pos as int, pos + 8)),
            i <= n,
            s@.len() == i,
            cur == start + i,
            cur <= input@.len(),
            forall|t: int| 0 <= t < i ==> #[trigger] input@[start + t] <= 2,
            forall|t: int| 0 <= t < i ==> entry_tag(#[trigger] s@[t]) == input@[start + t],
        decreases n - i,
    {
        if cur >= input.len() {
            return Err(IoError::UnexpectedEof);
        }
        let e = match input[cur] {
            0 => TranscriptEntry::PublicInput,
            1 => TranscriptEntry::Coin,
            2 => TranscriptEntry::AuxCommit,
            _ => return Err(IoError::InvalidTag),
        };
        s.push(e);
        cur = cur + 1;
        i = i + 1;
    }
    Ok((s, cur))
}

/// Where the parts of a verifying key's encoding start, read from `input`:
/// the three point vectors and the schedule, each behind its count.
pub open spec fn vk_offsets(input: Seq<u8>) -> (int, int, int, int) {
    let q0 = 576int;
    let q1 = q0 + 8 + from_be_u64(input.subrange(q0, q0 + 8)) * 96;
    let q2 = q1 + 8 + from_be_u64(input.subrange(q1, q1 + 8)) * 192;
    let q3 = q2 + 8 + from_be_u64(input.subrange(q2, q2 + 8)) * 96;
    (q0, q1, q2, q3)
}

/// Whether a verifying key can be read from the start of `input`.
pub open spec fn vk_readable(input: Seq<u8>) -> bool {
    let (q0, q1, q2, q3) = vk_offsets(input);
    &&& read_group_ok::<G1>(input, 0, false, true)
    &&& read_group_ok::<G1>(input, 96, false, true)
    &&& read_group_ok::<G2>(input, 192, false, true)
    &&& read_group_ok::<G2>(input, 384, false, true)
    &&& q0 + 8 <= input.len()
    &&& read_groups_ok::<G1>(input, q0 + 8, from_be_u64(input.subrange(q0, q0 + 8)) as nat, false, true)
    &&& q1 + 8 <= input.len()
    &&& read_groups_ok::<G2>(input, q1 + 8, from_be_u64(input.subrange(q1, q1 + 8)) as nat, false, true)
    &&& q2 + 8 <= input.len()
    &&& read_groups_ok::<G1>(input, q2 + 8, from_be_u64(input.subrange(q2, q2 + 8)) as nat, false, true)
    &&& q3 + 8 <= input.len()
    &&& q3 + 8 + from_be_u64(input.subrange(q3, q3 + 8)) <= input.len()
    &&& forall|i: int| 0 <= i < from_be_u64(input.subrange(q3, q3 + 8)) ==> #[trigger] input[q3 + 8 + i] <= 2
}

/// The key that reading `input` yields: each field is the encoding found at
/// its place.
pub open spec fn vk_fields_from(input: Seq<u8>, y: VerifyingKey) -> bool {
    let (q0, q1, q2, q3) = vk_offsets(input);
    &&& y.alpha_g1@ == input.subrange(0, 96)
    &&& y.beta_g1@ == input.subrange(96, 192)
    &&& y.beta_g2@ == input.subrange(192, 384)
    &&& y.gamma_g2@ == input.subrange(384, 576)
    &&& y.deltas_g1@.len() == from_be_u64(input.subrange(q0, q0 + 8))
    &&& forall|i: int| 0 <= i < y.deltas_g1@.len() ==> (#[trigger] y.deltas_g1@[i])@
        == input.subrange(q0 + 8 + i * 96, q0 + 8 + i * 96 + 96)
    &&& y.deltas_g2@.len() == from_be_u64(input.subrange(q1, q1 + 8))
    &&& forall|i: int| 0 <= i < y.deltas_g2@.len() ==> (#[trigger] y.deltas_g2@[i])@
        == input.subrange(q1 + 8 + i * 192, q1 + 8 + i * 192 + 192)
    &&& y.ic@.len() == from_be_u64(input.subrange(q2, q2 + 8))
    &&& forall|i: int| 0 <= i < y.ic@.len() ==> (#[trigger] y.ic@[i])@
        == input.subrange(q2 + 8 + i * 96, q2 + 8 + i * 96 + 96)
    &&& y.transcript@.len() == from_be_u64(input.subrange(q3, q3 + 8))
    &&& forall|i: int| 0 <= i < y.transcript@.len() ==> entry_tag(#[trigger] y.transcript@[i]) == input[q3 + 8 + i]
}

impl VerifyingKey {
    /// The bytes `write` produces: its fields in order.
    pub open spec fn encoding(&self) -> Seq<u8> {
        self.alpha_g1@ + self.beta_g1@ + self.beta_g2@ + self.gamma_g2@ + groups_encoding(self.deltas_g1@)
            + groups_encoding(self.deltas_g2@) + groups_encoding(self.ic@) + schedule_encoding(self.transcript@)
    }

    /// Appends the encoding of the key, its fields in order.
    pub fn write(&self, out: &mut Vec<u8>)
        ensures
            final(out)@ == old(out)@ + self.encoding(),
    {
        write_group_uncompressed(out, &self.alpha_g1);
        write_group_uncompressed(out, &self.beta_g1);
        write_group_uncompressed(out, &self.beta_g2);
        write_group_uncompressed(out, &self.gamma_g2);
        write_groups_uncompressed(out, self.deltas_g1.as_slice());
        write_groups_uncompressed(out, self.deltas_g2.as_slice());
        write_groups_uncompressed(out, self.ic.as_slice());
        write_schedule(out, &self.transcript);
        assert(final(out)@ =~= old(out)@ + self.encoding());
    }

    /// Reads a key written by `write` from the start of `input`, without
    /// subgroup checks and allowing the identity. On success each field is
    /// the run of encodings at its place.
    pub fn read(input: &[u8]) -> (r: Result<VerifyingKey, IoError>)
        ensures
            (r is Ok) == vk_readable(input@),
            r matches Ok(y) ==> y.encoding().len() <= input@.len()
                && y.encoding() == input@.subrange(0, y.encoding().len() as int),
            r matches Ok(y) ==> vk_fields_from(input@, y),
    {
        let (alpha_g1, p) = match read_group_uncompressed::<G1>(input, 0, false, true) {
            Ok(x) => x,
            Err(e) => return Err(e),
        };
        let (beta_g1, p) = match read_group_uncompressed::<G1>(input, p, false, true) {
            Ok(x) => x,
            Err(e) => return Err(e),
        };
        let (beta_g2, p) = match read_group_uncompressed::<G2>(input, p, false, true) {
            Ok(x) => x,
            Err(e) => return Err(e),
        };
        let (gamma_g2, p) = match read_group_uncompressed::<G2>(input, p, false, true) {
            Ok(x) => x,
            Err(e) => return Err(e),
        };
        let (deltas_g1, p) = match read_groups_uncompressed::<G1>(input, p, false, true) {
            Ok(x) => x,
            Err(e) => return Err(e),
        };
        let (deltas_g2, p) = match read_groups_uncompressed::<G2>(input, p, false, true) {
            Ok(x) => x,
            Err(e) => return Err(e),
        };
        let (ic, p) = match read_groups_uncompressed::<G1>(input, p, false, true) {
            Ok(x) => x,
            Err(e) => return Err(e),
        };
        let (transcript, p) = match read_schedule(input, p) {
            Ok(x) => x,
            Err(e) => return Err(e),
        };
        let vk = VerifyingKey { alpha_g1, beta_g1, beta_g2, gamma_g2, deltas_g1, deltas_g2, ic, transcript };
        proof {
            let q = p - 8 - transcript@.len();
            lemma_from_be_u64_round_trip(input@.subrange(q, q + 8));
            assert(input@.subrange(q, p as int) =~= schedule_encoding(transcript@));
            assert(vk.encoding() =~= input@.subrange(0, p as int));
        }
        Ok(vk)
    }
}

impl VerifyingKey {
    /// Every point decodes (as any point built by the group operations does).
    pub open spec fn valid(&self) -> bool {
        &&& g1_decodes(self.alpha_g1@, false)
        &&& g1_decodes(self.beta_g1@, false)
        &&& g2_decodes(self.beta_g2@, false)
        &&& g2_decodes(self.gamma_g2@, false)
        &&& forall|i: int| 0 <= i < self.deltas_g1@.len() ==> g1_decodes(#[trigger] self.deltas_g1@[i]@, false)
        &&& forall|i: int| 0 <= i < self.deltas_g2@.len() ==> g2_decodes(#[trigger] self.deltas_g2@[i]@, false)
        &&& forall|i: int| 0 <= i < self.ic@.len() ==> g1_decodes(#[trigger] self.ic@[i]@, false)
        &&& self.deltas_g1@.len() <= u64::MAX
        &&& self.deltas_g2@.len() <= u64::MAX
        &&& self.ic@.len() <= u64::MAX
        &&& self.transcript@.len() <= u64::MAX
    }
}

/// The tag of each schedule entry is the entry's own.
proof fn lemma_entry_tag_injective(a: TranscriptEntry, b: TranscriptEntry)
    requires
        entry_tag(a) == entry_tag(b),
    ensures
        a == b,
{
}

/// Reading back a written verifying key gives the same key.
pub proof fn lemma_verifying_key_round_trip(x: VerifyingKey, r: Result<VerifyingKey, IoError>, input: Seq<u8>)
    requires
        x.valid(),
        input == x.encoding(),
        (r is Ok) == vk_readable(input),
        r matches Ok(y) ==> vk_fields_from(input, y),
    ensures
        r matches Ok(y) && y.alpha_g1@ == x.alpha_g1@ && y.beta_g1@ == x.beta_g1@ && y.beta_g2@ == x.beta_g2@
            && y.gamma_g2@ == x.gamma_g2@ && g1_views(y.deltas_g1@) == g1_views(x.deltas_g1@)
            && g2_views(y.deltas_g2@) == g2_views(x.deltas_g2@) && g1_views(y.ic@) == g1_views(x.ic@)
            && y.transcript@ == x.transcript@,
{
    x.alpha_g1.lemma_len();
    x.beta_g1.lemma_len();
    x.beta_g2.lemma_len();
    x.gamma_g2.lemma_len();
    lemma_encodings_len(x.deltas_g1@);
    lemma_encodings_len(x.deltas_g2@);
    lemma_encodings_len(x.ic@);
    let e1 = groups_encoding(x.deltas_g1@);
    let e2 = groups_encoding(x.deltas_g2@);
    let e3 = groups_encoding(x.ic@);
    let sch = schedule_encoding(x.transcript@);
    let q0 = 576int;
    let q1 = q0 + e1.len();
    let q2 = q1 + e2.len();
    let q3 = q2 + e3.len();
    assert(input.len() == q3 + sch.len());
    assert(input.subrange(0, 96) =~= x.alpha_g1@);
    assert(input.subrange(96, 192) =~= x.beta_g1@);
    assert(input.subrange(192, 384) =~= x.beta_g2@);
    assert(input.subrange(384, 576) =~= x.gamma_g2@);
    assert(input.subrange(q0, q1) =~= e1);
    assert(input.subrange(q1, q2) =~= e2);
    assert(input.subrange(q2, q3) =~= e3);
    assert(input.subrange(q3, q3 + sch.len()) =~= sch);
    lemma_read_groups_of_encoding::<G1>(input, q0, x.deltas_g1@);
    lemma_read_groups_of_encoding::<G2>(input, q1, x.deltas_g2@);
    lemma_read_groups_of_encoding::<G1>(input, q2, x.ic@);
    assert(input.subrange(q3, q3 + 8) =~= be_u64(x.transcript@.len() as u64));
    lemma_be_u64_round_trip(x.transcript@.len() as u64);
    assert(vk_offsets(input) == (q0, q1, q2, q3));
    assert forall|i: int| 0 <= i < x.transcript@.len() implies #[trigger] input[q3 + 8 + i] == entry_tag(x.transcript@[i]) by {
        assert(input[q3 + 8 + i] == sch[8 + i]);
    }
    assert(vk_readable(input));
    let y = r->Ok_0;
    assert(g1_views(y.deltas_g1@) =~= g1_views(x.deltas_g1@));
    assert(g2_views(y.deltas_g2@) =~= g2_views(x.deltas_g2@));
    assert(g1_views(y.ic@) =~= g1_views(x.ic@));
    assert forall|i: int| 0 <= i < x.transcript@.len() implies #[trigger] y.transcript@[i] == x.transcript@[i] by {
        lemma_entry_tag_injective(y.transcript@[i], x.transcript@[i]);
    }
    assert(y.transcript@ =~= x.transcript@);
}

/// The bytes of a list of vectors of G1 points: the count, then each vector.
pub open spec fn nested_encoding(ls: Seq<Vec<G1>>) -> Seq<u8> {
    be_u64(ls.len() as u64) + nested_body(ls)
}

/// The vectors' encodings, one after another.
pub open spec fn nested_body(ls: Seq<Vec<G1>>) -> Seq<u8>
    decreases ls.len(),
{
    if ls.len() == 0 {
        Seq::empty()
    } else {
        nested_body(ls.drop_last()) + groups_encoding(ls.last()@)
    }
}

impl Parameters {
    /// The bytes `write` produces: its fields in order.
    pub open spec fn encoding(&self) -> Seq<u8> {
        self.vk.encoding() + groups_encoding(self.h@) + nested_encoding(self.ls@) + groups_encoding(self.a@)
            + groups_encoding(self.b_g1@) + groups_encoding(self.b_g2@)
    }

    /// Appends the encoding of the parameters, their fields in order.
    pub fn write(&self, out: &mut Vec<u8>)
        ensures
            final(out)@ == old(out)@ + self.encoding(),
    {
        self.vk.write(out);
        write_groups_uncompressed(out, self.h.as_slice());
        write_u64_be(out, self.ls.len() as u64);
        let ghost start = out@;
        let mut i: usize = 0;
        while i < self.ls.len()
            invariant
                i <= self.ls@.len(),
                out@ == start + nested_body(self.ls@.subrange(0, i as int)),
            decreases self.ls@.len() - i,
        {
            write_groups_uncompressed(out, self.ls[i].as_slice());
            assert(self.ls@.subrange(0, (i + 1) as int).drop_last() =~= self.ls@.subrange(0, i as int));
            i = i + 1;
        }
        assert(self.ls@.subrange(0, self.ls@.len() as int) =~= self.ls@);
        write_groups_uncompressed(out, self.a.as_slice());
        write_groups_uncompressed(out, self.b_g1.as_slice());
        write_groups_uncompressed(out, self.b_g2.as_slice());
        assert(final(out)@ =~= old(out)@ + self.encoding());
    }

    /// Reads parameters written by `write` from the start of `input`, without
    /// subgroup checks and allowing the identity. On success each field is
    /// the run of encodings at its place.
    #[verifier::rlimit(40)]
    pub fn read(input: &[u8]) -> (r: Result<Parameters, IoError>)
        ensures
            r matches Ok(y) ==> y.encoding().len() <= input@.len()
                && y.encoding() == input@.subrange(0, y.encoding().len() as int),
    {
        let total = input.len();
        let vk = match VerifyingKey::read(input) {
            Ok(x) => x,
            Err(e) => return Err(e),
        };
        let after_vk = vk_encoded_len(&vk);
        let (h, after_h) = match read_groups_uncompressed::<G1>(input, after_vk, false, true) {
            Ok(x) => x,
            Err(e) => return Err(e),
        };
        let (ls, cur) = match read_nested(input, after_h) {
            Ok(x) => x,
            Err(e) => return Err(e),
        };
        let (a, after_a) = match read_groups_uncompressed::<G1>(input, cur, false, true) {
            Ok(x) => x,
            Err(e) => return Err(e),
        };
        let (b_g1, after_b1) = match read_groups_uncompressed::<G1>(input, after_a, false, true) {
            Ok(x) => x,
            Err(e) => return Err(e),
        };
        let (b_g2, end) = match read_groups_uncompressed::<G2>(input, after_b1, false, true) {
            Ok(x) => x,
            Err(e) => return Err(e),
        };
        let params = Parameters { vk, h, ls, a, b_g1, b_g2 };
        proof {
            let inp = input@;
            assert(inp.subrange(0, after_h as int) =~= inp.subrange(0, after_vk as int) + inp.subrange(after_vk as int, after_h as int));
            assert(inp.subrange(0, cur as int) =~= inp.subrange(0, after_h as int) + inp.subrange(after_h as int, cur as int));
            assert(inp.subrange(0, after_a as int) =~= inp.subrange(0, cur as int) + inp.subrange(cur as int, after_a as int));
            assert(inp.subrange(0, after_b1 as int) =~= inp.subrange(0, after_a as int) + inp.subrange(after_a as int, after_b1 as int));
            assert(inp.subrange(0, end as int) =~= inp.subrange(0, after_b1 as int) + inp.subrange(after_b1 as int, end as int));
            assert(params.encoding() == inp.subrange(0, end as int));
        }
        Ok(params)
    }
}

/// Reads a count, then that many vectors of G1 points.
fn read_nested(input: &[u8], p: usize) -> (r: Result<(Vec<Vec<G1>>, usize), IoError>)
    ensures
    r matches Ok((ls, end)) ==> p <= end <= input@.len() && input@.subrange(p as int, end as int) == nested_encoding(ls@),
{
    let (n, start) = match read_u64_be(input, p) {
        Ok(x) => x,
        Err(e) => return Err(e),
    };
    proof {
        lemma_from_be_u64_round_trip(input@.subrange(p as int, p + 8));
    }
    let mut ls: Vec<Vec<G1>> = Vec::new();
    let mut cur = start;
    let mut i: u64 = 0;
    while i < n
        invariant
            start == p + 8,
            p + 8 <= input@.len(),
            n == from_be_u64(input@.subrange(p as int, p + 8)),
            i <= n,
            ls@.len() == i,
            start <= cur <= input@.len(),
            input@.subrange(start as int, cur as int) == nested_body(ls@),
        decreases n - i,
    {
        let (v, next) = match read_groups_uncompressed::<G1>(input, cur, false, true) {
            Ok(x) => x,
            Err(e) => return Err(e),
        };
        let ghost before = ls@;
        ls.push(v);
        assert(ls@.drop_last() =~= before);
        assert(input@.subrange(start as int, next as int) =~= input@.subrange(start as int, cur as int)
            + input@.subrange(cur as int, next as int));
        cur = next;
        i = i + 1;
    }
    proof {
        assert(input@.subrange(p as int, cur as int) =~= input@.subrange(p as int, start as int)
            + input@.subrange(start as int, cur as int));
        assert(input@.subrange(p as int, start as int) =~= be_u64(n));
    }
    Ok((ls, cur))
}

/// The length of a verifying key's encoding.
fn vk_encoded_len(vk: &VerifyingKey) -> (r: usize)
    requires
        vk.encoding().len() <= usize::MAX,
    ensures
        r == vk.encoding().len(),
{
    proof {
        lemma_encodings_len(vk.deltas_g1@);
        lemma_encodings_len(vk.deltas_g2@);
        lemma_encodings_len(vk.ic@);
        vk.alpha_g1.lemma_len();
        vk.beta_g1.lemma_len();
        vk.beta_g2.lemma_len();
        vk.gamma_g2.lemma_len();
    }
    let n1 = vk.deltas_g1.len();
    let n2 = vk.deltas_g2.len();
    let n3 = vk.ic.len();
    let n4 = vk.transcript.len();
    576 + (8 + n1 * 96) + (8 + n2 * 192) + (8 + n3 * 96) + (8 + n4)
}

} // verus!
