//! The Mirage prover: synthesis into a proving assignment, per-block
//! commitments with Fiat-Shamir coins, the quotient polynomial by FFTs, and
//! the assembly of `A`, `B`, `C`.
use crate::curve::{g2_msm, multiexp_g2, g1_add, g1_msm, g1_mul, g1_neg, g1_views, g2_add, g2_mul, g2_views, identity_encoding, multiexp, G1, G2};
use crate::domain::{
    coset_fft_on, coset_vanishing, domain_exp, domain_omega, icoset_fft_on, ifft_on,
    lemma_domain_exp_unique, scaled, EvaluationDomain, Worker,
};
use crate::field::{fmul, fsub, finv, repr_bytes, vals, Fr};
use crate::mirage::{
    coin_value, draw_coin, lc_in_range, lc_value, var_in_range, CcCircuit, CcConstraintSystem, Index,
    LinearCombination, Parameters, Proof, Variable, TRANSCRIPT_DOMAIN,
};
use crate::transcript::{append_message, new_transcript, transcript_domain, transcript_log};
use crate::SynthesisError;
use vstd::arithmetic::power2::pow2;
use vstd::prelude::*;

verus! {

/// `v` padded with zeros to `2^e` values.
pub open spec fn padded(v: Seq<int>, e: nat) -> Seq<int> {
    v + Seq::new((pow2(e) - v.len()) as nat, |i: int| 0int)
}

/// The quotient `(A B - C) / z` on the domain that holds the evaluations
/// `a`, `b`, `c`, in coefficients, by the FFT pipeline of a worker with
/// `2^lc` threads: inverse FFT, coset FFT, pointwise product and difference,
/// division by the vanishing polynomial on the coset, inverse coset FFT.
pub open spec fn quotient(a: Seq<int>, b: Seq<int>, c: Seq<int>, lc: nat) -> Seq<int> {
    let e = domain_exp(a.len());
    let ea = coset_fft_on(ifft_on(padded(a, e), e, lc), e, lc);
    let eb = coset_fft_on(ifft_on(padded(b, e), e, lc), e, lc);
    let ec = coset_fft_on(ifft_on(padded(c, e), e, lc), e, lc);
    let prod = Seq::new(pow2(e), |i: int| fmul(ea[i], eb[i]));
    let diff = Seq::new(pow2(e), |i: int| fsub(prod[i], ec[i]));
    icoset_fft_on(scaled(diff, finv(coset_vanishing(e))), e, lc)
}

/// Whether the quotient can be computed: the domain fits in the field's
/// 2-adic capacity.
pub open spec fn quotient_ok(len: nat) -> bool {
    len <= pow2(31)
}

/// Computes the coefficients of the quotient polynomial `h`, all but the
/// highest (which is zero when the constraints hold).
pub fn compute_h(a: Vec<Fr>, b: Vec<Fr>, c: Vec<Fr>, worker: &Worker) -> (r: Result<Vec<Fr>, SynthesisError>)
    requires
        a@.len() == b@.len(),
        a@.len() == c@.len(),
    ensures
        (r is Ok) == quotient_ok(a@.len()),
        r is Err ==> r == Err::<Vec<Fr>, SynthesisError>(SynthesisError::PolynomialDegreeTooLarge),
        r matches Ok(h) ==> vals(h@) == quotient(vals(a@), vals(b@), vals(c@), worker.log_num_threads as nat).drop_last()
            && h@.len() == pow2(domain_exp(a@.len())) - 1,
{
    let ghost (va, vb, vc) = (vals(a@), vals(b@), vals(c@));
    let ghost lc = worker.log_num_threads as nat;
    let mut da = match EvaluationDomain::from_coeffs(a) {
        Ok(d) => d,
        Err(e) => return Err(e),
    };
    let ghost e = da.exp();
    proof {
        lemma_domain_exp_unique(va.len(), e);
    }
    let mut db = match EvaluationDomain::from_coeffs(b) {
        Ok(d) => d,
        Err(e) => return Err(e),
    };
    let mut dc = match EvaluationDomain::from_coeffs(c) {
        Ok(d) => d,
        Err(e) => return Err(e),
    };
    proof {
        assert(da.values() =~= padded(va, e));
        assert(db.values() =~= padded(vb, e));
        assert(dc.values() =~= padded(vc, e));
    }
    da.ifft(worker);
    da.coset_fft(worker);
    db.ifft(worker);
    db.coset_fft(worker);
    dc.ifft(worker);
    dc.coset_fft(worker);
    proof {
        da.lemma_wf_len();
        db.lemma_wf_len();
        dc.lemma_wf_len();
    }
    let ghost ea = da.values();
    let ghost eb = db.values();
    let ghost ec = dc.values();
    da.mul_assign(&db);
    let ghost prod = da.values();
    assert(prod =~= Seq::new(pow2(e), |i: int| fmul(ea[i], eb[i])));
    da.sub_assign(&dc);
    let ghost diff = da.values();
    assert(diff =~= Seq::new(pow2(e), |i: int| fsub(prod[i], ec[i])));
    proof {
        da.lemma_wf_len();
        crate::domain::lemma_coset_vanishing(e);
    }
    match da.divide_by_z_on_coset() {
        Ok(()) => {},
        Err(e) => return Err(e),
    }
    da.icoset_fft(worker);
    proof {
        da.lemma_wf_len();
    }
    let mut h = da.into_coeffs();
    proof {
        assert(vals(h@) == quotient(va, vb, vc, lc));
        vstd::arithmetic::power2::lemma_pow2_pos(e);
    }
    let last = h.len() - 1;
    h.truncate(last);
    proof {
        assert(vals(h@) =~= quotient(va, vb, vc, lc).drop_last());
    }
    Ok(h)
}

/// Evaluates a linear combination under an assignment; absent when a term
/// with a nonzero coefficient names a variable that does not exist.
pub fn eval(lc: &LinearCombination, input_assignment: &Vec<Fr>, aux_assignment: &Vec<Fr>) -> (r: Option<Fr>)
    ensures
        r is Some <==> lc_in_range(lc.0@, input_assignment@.len(), aux_assignment@.len()),
        r matches Some(v) ==> v.val() == lc_value(lc.0@, vals(input_assignment@), vals(aux_assignment@), lc.0@.len()),
{
    let ghost (ins, auxs) = (vals(input_assignment@), vals(aux_assignment@));
    let mut acc = Fr::zero();
    let mut t: usize = 0;
    while t < lc.0.len()
        invariant
            t <= lc.0@.len(),
            ins == vals(input_assignment@),
            auxs == vals(aux_assignment@),
            lc_in_range(lc.0@.subrange(0, t as int), input_assignment@.len(), aux_assignment@.len()),
            acc.val() == lc_value(lc.0@, ins, auxs, t as nat),
        decreases lc.0@.len() - t,
    {
        let (var, coeff) = lc.0[t];
        if !coeff.is_zero() {
            let value = match var.0 {
                Index::Input(i) => {
                    if i >= input_assignment.len() {
                        proof {
                            assert(!lc_in_range(lc.0@, input_assignment@.len(), aux_assignment@.len())) by {
                                assert(lc.0@[t as int] == (var, coeff));
                            }
                        }
                        return None;
                    }
                    input_assignment[i]
                },
                Index::Aux(i) => {
                    if i >= aux_assignment.len() {
                        proof {
                            assert(!lc_in_range(lc.0@, input_assignment@.len(), aux_assignment@.len())) by {
                                assert(lc.0@[t as int] == (var, coeff));
                            }
                        }
                        return None;
                    }
                    aux_assignment[i]
                },
            };
            let term = value.mul(&coeff);
            acc = acc.add(&term);
        }
        proof {
            assert(lc.0@[t as int] == (var, coeff));
            assert forall|u: int| 0 <= u < t + 1 && (#[trigger] lc.0@.subrange(0, t + 1)[u]).1.val() != 0 implies var_in_range(
                lc.0@.subrange(0, t + 1)[u].0, input_assignment@.len(), aux_assignment@.len()) by {
                if u < t {
                    assert(lc.0@.subrange(0, t + 1)[u] == lc.0@.subrange(0, t as int)[u]);
                }
            }
        }
        t = t + 1;
    }
    assert(lc.0@.subrange(0, lc.0@.len() as int) =~= lc.0@);
    Some(acc)
}

/// The state of one proving session: the constraint evaluations, the
/// assignment, the block commitments made so far and the transcript.
pub struct ProvingAssignment<'p> {
    /// The evaluations of the A, B and C combinations, one per constraint.
    pub a: Vec<Fr>,
    pub b: Vec<Fr>,
    pub c: Vec<Fr>,
    pub input_assignment: Vec<Fr>,
    pub aux_assignment: Vec<Fr>,
    /// The blinding scalars of the block commitments, one per block.
    pub kappa_3s: Vec<Fr>,
    /// The block commitments, one per ended block.
    pub pi_ds: Vec<G1>,
    /// The values of each ended block.
    pub aux_blocks: Vec<Vec<Fr>>,
    pub params: &'p Parameters,
    /// For each ended block, the first aux index after it.
    pub aux_block_indices: Vec<usize>,
    pub transcript: merlin::Transcript,
}

/// Two proving states agree on the constraints recorded.
pub open spec fn same_constraints(x: &ProvingAssignment, y: &ProvingAssignment) -> bool {
    x.a@ == y.a@ && x.b@ == y.b@ && x.c@ == y.c@
}

/// Two proving states agree on the blocks ended and the setup.
pub open spec fn same_blocks(x: &ProvingAssignment, y: &ProvingAssignment) -> bool {
    &&& x.pi_ds@ == y.pi_ds@
    &&& x.aux_blocks@ == y.aux_blocks@
    &&& x.aux_block_indices@ == y.aux_block_indices@
    &&& x.kappa_3s@ == y.kappa_3s@
    &&& x.params == y.params
}

/// The start of the block that is open: the end of the last ended block.
pub open spec fn open_block_start(indices: Seq<usize>) -> int {
    if indices.len() == 0 {
        0
    } else {
        indices.last() as int
    }
}

/// Whether some delta, in G1 or G2, is the identity.
pub fn some_identity(d1: &Vec<G1>, d2: &Vec<G2>) -> (r: bool)
    requires
        d1@.len() == d2@.len(),
    ensures
        r == exists|i: int| 0 <= i < d1@.len() && ((#[trigger] d1@[i])@ == identity_encoding(96)
            || d2@[i]@ == identity_encoding(192)),
{
    let mut d: usize = 0;
    while d < d1.len()
        invariant
            d1@.len() == d2@.len(),
            d <= d1@.len(),
            forall|t: int| 0 <= t < d ==> (#[trigger] d1@[t])@ != identity_encoding(96)
                && d2@[t]@ != identity_encoding(192),
        decreases d1@.len() - d,
    {
        if d1[d].is_identity() || d2[d].is_identity() {
            assert(0 <= d < d1@.len() && ((d1@[d as int])@ == identity_encoding(96)
                || d2@[d as int]@ == identity_encoding(192)));
            return true;
        }
        assert forall|t: int| 0 <= t < d + 1 implies (#[trigger] d1@[t])@ != identity_encoding(96)
            && d2@[t]@ != identity_encoding(192) by {
            if t < d {
                assert(d1@[t]@ != identity_encoding(96));
            }
        }
        d = d + 1;
    }
    false
}

/// The evaluations after pinning every public input by a constraint
/// `x_i * 0 = 0`: the A side gains the inputs, B and C gain zeros.
pub open spec fn pinned_a(pa: &ProvingAssignment) -> Seq<int> {
    vals(pa.a@) + vals(pa.input_assignment@)
}

/// The B evaluations after pinning.
pub open spec fn pinned_b(pa: &ProvingAssignment) -> Seq<int> {
    vals(pa.b@) + Seq::new(pa.input_assignment@.len(), |i: int| 0int)
}

/// The C evaluations after pinning.
pub open spec fn pinned_c(pa: &ProvingAssignment) -> Seq<int> {
    vals(pa.c@) + Seq::new(pa.input_assignment@.len(), |i: int| 0int)
}

/// The session state is consistent: one evaluation of each kind per
/// constraint, and the open block starts inside the assignment.
pub open spec fn state_ok(pa: &ProvingAssignment) -> bool {
    &&& pa.a@.len() == pa.b@.len()
    &&& pa.a@.len() == pa.c@.len()
    &&& pa.a@.len() + pa.input_assignment@.len() <= usize::MAX
    &&& open_block_start(pa.aux_block_indices@) <= pa.aux_assignment@.len()
}

/// The number of quotient coefficients: the domain size minus one.
pub open spec fn h_len(pa: &ProvingAssignment) -> int {
    pow2(domain_exp(pinned_a(pa).len())) - 1
}

/// The parameters fit the session: enough `H`, `L`, `A` and `B` elements,
/// deltas in both groups, and more deltas than blinding scalars.
pub open spec fn params_ok(pa: &ProvingAssignment) -> bool {
    let p = pa.params;
    let nin = pa.input_assignment@.len();
    let naux = pa.aux_assignment@.len();
    let k = pa.aux_block_indices@.len();
    &&& p.h@.len() >= h_len(pa)
    &&& k < p.ls@.len()
    &&& p.ls@[k as int]@.len() >= naux - open_block_start(pa.aux_block_indices@)
    &&& p.a@.len() >= nin + naux
    &&& p.b_g1@.len() >= nin + naux
    &&& p.b_g2@.len() >= nin + naux
    &&& p.vk.deltas_g1@.len() == p.vk.deltas_g2@.len()
    &&& pa.kappa_3s@.len() < p.vk.deltas_g1@.len()
}

/// Some delta, in G1 or G2, is the identity.
pub open spec fn some_delta_identity(pa: &ProvingAssignment) -> bool {
    exists|i: int| 0 <= i < pa.params.vk.deltas_g1@.len() && (
        (#[trigger] pa.params.vk.deltas_g1@[i])@ == identity_encoding(96)
        || pa.params.vk.deltas_g2@[i]@ == identity_encoding(192))
}

/// The A query applied to the assignment: inputs, then auxiliary variables.
pub open spec fn a_answer(pa: &ProvingAssignment) -> Seq<u8> {
    let (nin, naux) = (pa.input_assignment@.len() as int, pa.aux_assignment@.len() as int);
    g1_add(
        g1_msm(g1_views(pa.params.a@.subrange(0, nin)), vals(pa.input_assignment@), nin as nat),
        g1_msm(g1_views(pa.params.a@.subrange(nin, nin + naux)), vals(pa.aux_assignment@), naux as nat),
    )
}

/// The B query in G1 applied to the assignment.
pub open spec fn b1_answer(pa: &ProvingAssignment) -> Seq<u8> {
    let (nin, naux) = (pa.input_assignment@.len() as int, pa.aux_assignment@.len() as int);
    g1_add(
        g1_msm(g1_views(pa.params.b_g1@.subrange(0, nin)), vals(pa.input_assignment@), nin as nat),
        g1_msm(g1_views(pa.params.b_g1@.subrange(nin, nin + naux)), vals(pa.aux_assignment@), naux as nat),
    )
}

/// The B query in G2 applied to the assignment.
pub open spec fn b2_answer(pa: &ProvingAssignment) -> Seq<u8> {
    let (nin, naux) = (pa.input_assignment@.len() as int, pa.aux_assignment@.len() as int);
    g2_add(
        g2_msm(g2_views(pa.params.b_g2@.subrange(0, nin)), vals(pa.input_assignment@), nin as nat),
        g2_msm(g2_views(pa.params.b_g2@.subrange(nin, nin + naux)), vals(pa.aux_assignment@), naux as nat),
    )
}

/// The `H` query applied to the quotient's coefficients.
pub open spec fn h_answer(pa: &ProvingAssignment, lc: nat) -> Seq<u8> {
    let q = quotient(pinned_a(pa), pinned_b(pa), pinned_c(pa), lc).drop_last();
    g1_msm(g1_views(pa.params.h@), q, q.len())
}

/// The last block's `L` query applied to the open block.
pub open spec fn l_answer(pa: &ProvingAssignment) -> Seq<u8> {
    let k = pa.aux_block_indices@.len() as int;
    let start = open_block_start(pa.aux_block_indices@);
    let naux = pa.aux_assignment@.len() as int;
    g1_msm(g1_views(pa.params.ls@[k]@), vals(pa.aux_assignment@.subrange(start, naux)), (naux - start) as nat)
}

/// `init - sum_{i<n} kappa_i delta_i`, subtracted in order.
pub open spec fn kappa_fold(deltas: Seq<G1>, kappas: Seq<Fr>, init: Seq<u8>, n: nat) -> Seq<u8>
    decreases n,
{
    if n == 0 {
        init
    } else {
        let i = n - 1;
        g1_add(kappa_fold(deltas, kappas, init, (n - 1) as nat), g1_mul(g1_neg(deltas[i]@), kappas[i].val()))
    }
}

/// The final delta in G1.
pub open spec fn delta_k_g1(pa: &ProvingAssignment) -> Seq<u8> {
    pa.params.vk.deltas_g1@.last()@
}

/// `A = delta_k r + alpha + A(tau)`.
pub open spec fn proof_a(pa: &ProvingAssignment, r: int) -> Seq<u8> {
    g1_add(g1_add(g1_mul(delta_k_g1(pa), r), pa.params.vk.alpha_g1@), a_answer(pa))
}

/// `B = delta_k s + beta + B(tau)` in G2.
pub open spec fn proof_b(pa: &ProvingAssignment, s: int) -> Seq<u8> {
    g2_add(g2_add(g2_mul(pa.params.vk.deltas_g2@.last()@, s), pa.params.vk.beta_g2@), b2_answer(pa))
}

/// `C = delta_k r s - sum_i kappa_i delta_i + alpha s + beta r + A(tau) s
/// + B(tau) r + h + L`.
pub open spec fn proof_c(pa: &ProvingAssignment, lc: nat, r: int, s: int) -> Seq<u8> {
    let c0 = g1_mul(delta_k_g1(pa), fmul(r, s));
    let c1 = kappa_fold(pa.params.vk.deltas_g1@, pa.kappa_3s@, c0, pa.kappa_3s@.len());
    let c2 = g1_add(c1, g1_mul(pa.params.vk.alpha_g1@, s));
    let c3 = g1_add(c2, g1_mul(pa.params.vk.beta_g1@, r));
    let c4 = g1_add(c3, g1_mul(a_answer(pa), s));
    let c5 = g1_add(c4, g1_mul(b1_answer(pa), r));
    let c6 = g1_add(c5, h_answer(pa, lc));
    g1_add(c6, l_answer(pa))
}

/// What a finished session yields: the proof of the session and the values
/// of its ended blocks.
pub open spec fn finished(pa: &ProvingAssignment, lc: nat, r: int, s: int, pf: &Proof, blocks: Seq<Vec<Fr>>) -> bool {
    &&& pf.a@ == proof_a(pa, r)
    &&& pf.b@ == proof_b(pa, s)
    &&& pf.c@ == proof_c(pa, lc, r, s)
    &&& pf.ds@ == pa.pi_ds@
    &&& blocks == pa.aux_blocks@
}

impl<'p> ProvingAssignment<'p> {
    /// A fresh session: input 0 is one, and its representation is the first
    /// message of the transcript.
    pub fn new(params: &'p Parameters, kappa_3s: Vec<Fr>) -> (r: ProvingAssignment<'p>)
        ensures
            r.params == params,
            r.kappa_3s@ == kappa_3s@,
            vals(r.input_assignment@) == seq![1int],
            r.aux_assignment@.len() == 0,
            r.a@.len() == 0 && r.b@.len() == 0 && r.c@.len() == 0,
            r.pi_ds@.len() == 0 && r.aux_blocks@.len() == 0 && r.aux_block_indices@.len() == 0,
            transcript_domain(r.transcript) == TRANSCRIPT_DOMAIN@,
            transcript_log(r.transcript) == seq![("input"@, repr_bytes(1))],
    {
        proof {
            reveal_strlit("input");
        }
        let mut transcript = new_transcript(TRANSCRIPT_DOMAIN);
        let one = Fr::one();
        let repr = one.to_repr();
        append_message(&mut transcript, "input", &repr);
        let mut input_assignment = Vec::new();
        input_assignment.push(one);
        assert(vals(input_assignment@) =~= seq![1int]);
        ProvingAssignment {
            a: Vec::new(),
            b: Vec::new(),
            c: Vec::new(),
            input_assignment,
            aux_assignment: Vec::new(),
            kappa_3s,
            pi_ds: Vec::new(),
            aux_blocks: Vec::new(),
            params,
            aux_block_indices: Vec::new(),
            transcript,
        }
    }

    /// Allocates an auxiliary variable with the given value.
    pub fn alloc_aux_value(&mut self, value: Option<Fr>) -> (r: Result<Variable, SynthesisError>)
        ensures
            same_constraints(final(self), old(self)),
            same_blocks(final(self), old(self)),
            final(self).input_assignment@ == old(self).input_assignment@,
            final(self).transcript == old(self).transcript,
            value is None ==> r == Err::<Variable, SynthesisError>(SynthesisError::AssignmentMissing)
                && final(self).aux_assignment@ == old(self).aux_assignment@,
            value matches Some(v) ==> r == Ok::<Variable, SynthesisError>(Variable(Index::Aux(old(self).aux_assignment@.len() as usize)))
                && final(self).aux_assignment@ == old(self).aux_assignment@.push(v),
    {
        match value {
            None => Err(SynthesisError::AssignmentMissing),
            Some(v) => {
                self.aux_assignment.push(v);
                Ok(Variable(Index::Aux(self.aux_assignment.len() - 1)))
            },
        }
    }

    /// Allocates a public input with the given value and appends its
    /// representation to the transcript.
    pub fn alloc_input_value(&mut self, value: Option<Fr>) -> (r: Result<Variable, SynthesisError>)
        ensures
            same_constraints(final(self), old(self)),
            same_blocks(final(self), old(self)),
            final(self).aux_assignment@ == old(self).aux_assignment@,
            transcript_domain(final(self).transcript) == transcript_domain(old(self).transcript),
            value is None ==> r == Err::<Variable, SynthesisError>(SynthesisError::AssignmentMissing)
                && final(self).input_assignment@ == old(self).input_assignment@
                && final(self).transcript == old(self).transcript,
            value matches Some(v) ==> r == Ok::<Variable, SynthesisError>(Variable(Index::Input(old(self).input_assignment@.len() as usize)))
                && final(self).input_assignment@ == old(self).input_assignment@.push(v)
                && transcript_log(final(self).transcript) == transcript_log(old(self).transcript).push(("input"@, repr_bytes(v.val()))),
    {
        proof {
            reveal_strlit("input");
        }
        match value {
            None => Err(SynthesisError::AssignmentMissing),
            Some(v) => {
                self.input_assignment.push(v);
                let repr = v.to_repr();
                append_message(&mut self.transcript, "input", &repr);
                Ok(Variable(Index::Input(self.input_assignment.len() - 1)))
            },
        }
    }

    /// Allocates a public input whose value is a coin drawn from the transcript.
    pub fn alloc_coin(&mut self) -> (r: Result<(Variable, Option<Fr>), SynthesisError>)
        ensures
            same_constraints(final(self), old(self)),
            same_blocks(final(self), old(self)),
            final(self).aux_assignment@ == old(self).aux_assignment@,
            transcript_domain(final(self).transcript) == transcript_domain(old(self).transcript),
            r matches Ok((var, Some(v))) && var == Variable(Index::Input(old(self).input_assignment@.len() as usize))
                && v.val() == coin_value(transcript_domain(old(self).transcript), transcript_log(old(self).transcript))
                && final(self).input_assignment@ == old(self).input_assignment@.push(v)
                && transcript_log(final(self).transcript) == transcript_log(old(self).transcript).push(("input"@, repr_bytes(v.val()))),
    {
        let value = draw_coin(&self.transcript);
        match self.alloc_input_value(Some(value)) {
            Ok(var) => Ok((var, Some(value))),
            Err(e) => Err(e),
        }
    }

    /// Records the constraint `a * b = c` by its three evaluations.
    pub fn enforce_lcs(&mut self, a: &LinearCombination, b: &LinearCombination, c: &LinearCombination) -> (r: Result<(), SynthesisError>)
        ensures
            same_blocks(final(self), old(self)),
            final(self).input_assignment@ == old(self).input_assignment@,
            final(self).aux_assignment@ == old(self).aux_assignment@,
            final(self).transcript == old(self).transcript,
            ({
                let (ni, na) = (old(self).input_assignment@.len(), old(self).aux_assignment@.len());
                let ok = lc_in_range(a.0@, ni, na) && lc_in_range(b.0@, ni, na) && lc_in_range(c.0@, ni, na);
                let (xs, ws) = (vals(old(self).input_assignment@), vals(old(self).aux_assignment@));
                &&& !ok <==> r == Err::<(), SynthesisError>(SynthesisError::UnknownVariable)
                &&& !ok ==> same_constraints(final(self), old(self))
                &&& ok ==> r is Ok
                    && vals(final(self).a@) == vals(old(self).a@).push(lc_value(a.0@, xs, ws, a.0@.len()))
                    && vals(final(self).b@) == vals(old(self).b@).push(lc_value(b.0@, xs, ws, b.0@.len()))
                    && vals(final(self).c@) == vals(old(self).c@).push(lc_value(c.0@, xs, ws, c.0@.len()))
            }),
    {
        let va = match eval(a, &self.input_assignment, &self.aux_assignment) {
            Some(v) => v,
            None => return Err(SynthesisError::UnknownVariable),
        };
        let vb = match eval(b, &self.input_assignment, &self.aux_assignment) {
            Some(v) => v,
            None => return Err(SynthesisError::UnknownVariable),
        };
        let vc = match eval(c, &self.input_assignment, &self.aux_assignment) {
            Some(v) => v,
            None => return Err(SynthesisError::UnknownVariable),
        };
        self.a.push(va);
        self.b.push(vb);
        self.c.push(vc);
        assert(vals(self.a@) =~= vals(old(self).a@).push(va.val()));
        assert(vals(self.b@) =~= vals(old(self).b@).push(vb.val()));
        assert(vals(self.c@) =~= vals(old(self).c@).push(vc.val()));
        Ok(())
    }
    /// Ends the open block of auxiliary variables: commits to its values as
    /// `L_i . block + kappa_i delta_k` and appends the commitment to the
    /// transcript.
    pub fn end_block(&mut self) -> (r: Result<(), SynthesisError>)
        ensures
            same_constraints(final(self), old(self)),
            final(self).input_assignment@ == old(self).input_assignment@,
            final(self).aux_assignment@ == old(self).aux_assignment@,
            final(self).kappa_3s@ == old(self).kappa_3s@,
            final(self).params == old(self).params,
            transcript_domain(final(self).transcript) == transcript_domain(old(self).transcript),
            ({
                let i = old(self).aux_block_indices@.len() as int;
                let start = open_block_start(old(self).aux_block_indices@);
                let end = old(self).aux_assignment@.len() as int;
                let p = old(self).params;
                let malformed = i >= old(self).kappa_3s@.len() || i >= p.ls@.len()
                    || p.ls@[i]@.len() < end - start || p.vk.deltas_g1@.len() == 0;
                let block = old(self).aux_assignment@.subrange(start, end);
                let pi_d = g1_add(
                    g1_msm(g1_views(p.ls@[i]@), vals(block), (end - start) as nat),
                    g1_mul(p.vk.deltas_g1@.last()@, old(self).kappa_3s@[i].val()),
                );
                &&& (end <= start) <==> r == Err::<(), SynthesisError>(SynthesisError::EmptyAuxBlock)
                &&& (end > start && malformed) <==> r == Err::<(), SynthesisError>(SynthesisError::MalformedParameters)
                &&& (end > start && !malformed) ==> r is Ok
                &&& r is Err ==> same_blocks(final(self), old(self)) && final(self).transcript == old(self).transcript
                &&& r is Ok ==> {
                    &&& final(self).pi_ds@ == old(self).pi_ds@.push(final(self).pi_ds@.last())
                    &&& final(self).pi_ds@.last()@ == pi_d
                    &&& final(self).aux_blocks@.len() == old(self).aux_blocks@.len() + 1
                    &&& final(self).aux_blocks@.drop_last() == old(self).aux_blocks@
                    &&& final(self).aux_blocks@.last()@ == block
                    &&& final(self).aux_block_indices@ == old(self).aux_block_indices@.push(end as usize)
                    &&& transcript_log(final(self).transcript) == transcript_log(old(self).transcript).push(("aux_commit"@, pi_d))
                }
            }),
    {
        proof {
            reveal_strlit("aux_commit");
        }
        let i = self.aux_block_indices.len();
        let start = if i == 0 { 0 } else { self.aux_block_indices[i - 1] };
        let end = self.aux_assignment.len();
        if end <= start {
            return Err(SynthesisError::EmptyAuxBlock);
        }
        if i >= self.kappa_3s.len() || i >= self.params.ls.len() || self.params.ls[i].len() < end - start
            || self.params.vk.deltas_g1.len() == 0 {
            return Err(SynthesisError::MalformedParameters);
        }
        let mut block: Vec<Fr> = Vec::new();
        let mut t: usize = start;
        while t < end
            invariant
                start <= t <= end,
                end == self.aux_assignment@.len(),
                block@ == self.aux_assignment@.subrange(start as int, t as int),
            decreases end - t,
        {
            block.push(self.aux_assignment[t]);
            assert(block@ =~= self.aux_assignment@.subrange(start as int, (t + 1) as int));
            t = t + 1;
        }
        let msm = multiexp(self.params.ls[i].as_slice(), block.as_slice());
        let last = self.params.vk.deltas_g1.len() - 1;
        let blind = self.params.vk.deltas_g1[last].mul(&self.kappa_3s[i]);
        let pi_d = msm.add(&blind);
        let enc = pi_d.to_uncompressed();
        append_message(&mut self.transcript, "aux_commit", &enc);
        self.pi_ds.push(pi_d);
        self.aux_blocks.push(block);
        self.aux_block_indices.push(end);
        proof {
            assert(self.aux_blocks@.drop_last() =~= old(self).aux_blocks@);
        }
        Ok(())
    }
    /// Completes the proof for this session with blinding scalars `r` and
    /// `s`: pins the public inputs, computes the quotient and the query
    /// answers, and assembles `A`, `B` and `C`.
    pub fn finish(self, worker: &Worker, r: &Fr, s: &Fr) -> (res: Result<(Proof, Vec<Vec<Fr>>), SynthesisError>)
        ensures
            !state_ok(&self) ==> res == Err::<(Proof, Vec<Vec<Fr>>), SynthesisError>(SynthesisError::MalformedParameters),
            state_ok(&self) ==> {
                let n = pinned_a(&self).len();
                &&& (n > pow2(31)) <==> res == Err::<(Proof, Vec<Vec<Fr>>), SynthesisError>(SynthesisError::PolynomialDegreeTooLarge)
                &&& quotient_ok(n) ==> {
                    &&& !params_ok(&self) <==> res == Err::<(Proof, Vec<Vec<Fr>>), SynthesisError>(SynthesisError::MalformedParameters)
                    &&& params_ok(&self) ==> {
                        &&& some_delta_identity(&self) <==> res == Err::<(Proof, Vec<Vec<Fr>>), SynthesisError>(SynthesisError::UnexpectedIdentity)
                        &&& !some_delta_identity(&self) ==> (res matches Ok((pf, blocks))
                            && finished(&self, worker.log_num_threads as nat, r.val(), s.val(), &pf, blocks@))
                    }
                }
            },
    {
        let ghost old_self = self;
        let ProvingAssignment {
            mut a, mut b, mut c, input_assignment, aux_assignment, kappa_3s, pi_ds, aux_blocks, params, aux_block_indices, transcript,
        } = self;
        let nin = input_assignment.len();
        let naux = aux_assignment.len();
        let k = aux_block_indices.len();
        let start = if k == 0 { 0 } else { aux_block_indices[k - 1] };
        if a.len() != b.len() || a.len() != c.len() || a.len() > usize::MAX - nin || start > naux {
            return Err(SynthesisError::MalformedParameters);
        }
        let mut i: usize = 0;
        while i < nin
            invariant
                i <= nin,
                nin == input_assignment@.len(),
                a@.len() == old_self.a@.len() + i,
                vals(a@) == vals(old_self.a@) + vals(input_assignment@).subrange(0, i as int),
                vals(b@) == vals(old_self.b@) + Seq::new(i as nat, |t: int| 0int),
                vals(c@) == vals(old_self.c@) + Seq::new(i as nat, |t: int| 0int),
                a@.len() == b@.len(),
                a@.len() == c@.len(),
            decreases nin - i,
        {
            let ghost (pa_, pb_, pc_) = (a@, b@, c@);
            let z = Fr::zero();
            a.push(input_assignment[i]);
            b.push(z);
            c.push(z);
            assert(a@ == pa_.push(input_assignment@[i as int]));
            assert(b@ == pb_.push(z));
            assert(c@ == pc_.push(z));
            assert(vals(a@) =~= vals(pa_).push(input_assignment@[i as int].val()));
            assert(vals(b@) =~= vals(pb_).push(0int));
            assert(vals(c@) =~= vals(pc_).push(0int));
            assert(vals(input_assignment@).subrange(0, (i + 1) as int) =~= vals(input_assignment@).subrange(0, i as int).push(input_assignment@[i as int].val()));
            assert(vals(a@) =~= vals(old_self.a@) + vals(input_assignment@).subrange(0, (i + 1) as int));
            assert(vals(b@) =~= vals(old_self.b@) + Seq::new((i + 1) as nat, |t: int| 0int));
            assert(vals(c@) =~= vals(old_self.c@) + Seq::new((i + 1) as nat, |t: int| 0int));
            i = i + 1;
        }
        proof {
            assert(vals(a@) =~= pinned_a(&old_self));
            assert(vals(b@) =~= pinned_b(&old_self));
            assert(vals(c@) =~= pinned_c(&old_self));
        }
        let ghost n = a@.len();
        let hco = match compute_h(a, b, c, worker) {
            Ok(h) => h,
            Err(e) => return Err(e),
        };
        proof {
            assert(hco@.len() == h_len(&old_self));
        }
        let p = params;
        if p.h.len() < hco.len() || k >= p.ls.len() || p.ls[k].len() < naux - start || p.a.len() < nin
            || p.a.len() - nin < naux || p.b_g1.len() < nin || p.b_g1.len() - nin < naux || p.b_g2.len() < nin
            || p.b_g2.len() - nin < naux || p.vk.deltas_g1.len() != p.vk.deltas_g2.len()
            || kappa_3s.len() >= p.vk.deltas_g1.len() {
            return Err(SynthesisError::MalformedParameters);
        }
        if some_identity(&p.vk.deltas_g1, &p.vk.deltas_g2) {
            return Err(SynthesisError::UnexpectedIdentity);
        }
        let h = multiexp(p.h.as_slice(), hco.as_slice());
        let mut final_block: Vec<Fr> = Vec::new();
        let mut t: usize = start;
        while t < naux
            invariant
                start <= t <= naux,
                naux == aux_assignment@.len(),
                final_block@ == aux_assignment@.subrange(start as int, t as int),
            decreases naux - t,
        {
            final_block.push(aux_assignment[t]);
            assert(final_block@ =~= aux_assignment@.subrange(start as int, (t + 1) as int));
            t = t + 1;
        }
        let l = multiexp(p.ls[k].as_slice(), final_block.as_slice());
        let a_inputs = multiexp(vstd::slice::slice_subrange(p.a.as_slice(), 0, nin), input_assignment.as_slice());
        let a_aux = multiexp(vstd::slice::slice_subrange(p.a.as_slice(), nin, nin + naux), aux_assignment.as_slice());
        let b_g1_inputs = multiexp(vstd::slice::slice_subrange(p.b_g1.as_slice(), 0, nin), input_assignment.as_slice());
        let b_g1_aux = multiexp(vstd::slice::slice_subrange(p.b_g1.as_slice(), nin, nin + naux), aux_assignment.as_slice());
        let b_g2_inputs = multiexp_g2(vstd::slice::slice_subrange(p.b_g2.as_slice(), 0, nin), input_assignment.as_slice());
        let b_g2_aux = multiexp_g2(vstd::slice::slice_subrange(p.b_g2.as_slice(), nin, nin + naux), aux_assignment.as_slice());

        let last = p.vk.deltas_g1.len() - 1;
        let mut g_a = p.vk.deltas_g1[last].mul(r);
        g_a = g_a.add(&p.vk.alpha_g1);
        let mut g_b = p.vk.deltas_g2[last].mul(s);
        g_b = g_b.add(&p.vk.beta_g2);
        let rs = r.mul(s);
        let mut g_c = p.vk.deltas_g1[last].mul(&rs);
        let ghost c0 = g_c@;
        let mut q: usize = 0;
        while q < kappa_3s.len()
            invariant
                q <= kappa_3s@.len(),
                kappa_3s@.len() < p.vk.deltas_g1@.len(),
                g_c@ == kappa_fold(p.vk.deltas_g1@, kappa_3s@, c0, q as nat),
            decreases kappa_3s@.len() - q,
        {
            let nd = p.vk.deltas_g1[q].neg();
            let term = nd.mul(&kappa_3s[q]);
            g_c = g_c.add(&term);
            q = q + 1;
        }
        g_c = g_c.add(&p.vk.alpha_g1.mul(s));
        g_c = g_c.add(&p.vk.beta_g1.mul(r));
        let a_answer = a_inputs.add(&a_aux);
        g_a = g_a.add(&a_answer);
        g_c = g_c.add(&a_answer.mul(s));
        let b1_answer = b_g1_inputs.add(&b_g1_aux);
        let b2_answer = b_g2_inputs.add(&b_g2_aux);
        g_b = g_b.add(&b2_answer);
        g_c = g_c.add(&b1_answer.mul(r));
        g_c = g_c.add(&h);
        g_c = g_c.add(&l);
        proof {
            assert(!some_delta_identity(&old_self));
        }
        Ok((Proof { a: g_a, b: g_b, c: g_c, ds: pi_ds }, aux_blocks))
    }
}

/// The same session state yields the same proof and the same block values:
/// proving is deterministic once `r`, `s` and the blinding scalars are fixed.
pub proof fn lemma_finished_deterministic(
    pa: ProvingAssignment,
    lc: nat,
    r: int,
    s: int,
    pf1: Proof,
    blocks1: Seq<Vec<Fr>>,
    pf2: Proof,
    blocks2: Seq<Vec<Fr>>,
)
    requires
        finished(&pa, lc, r, s, &pf1, blocks1),
        finished(&pa, lc, r, s, &pf2, blocks2),
    ensures
        pf1.a@ == pf2.a@,
        pf1.b@ == pf2.b@,
        pf1.c@ == pf2.c@,
        pf1.ds@ == pf2.ds@,
        blocks1 == blocks2,
{
}

impl<'p> CcConstraintSystem for ProvingAssignment<'p> {
    fn one() -> (r: Variable)
        ensures
            r == Variable(Index::Input(0)),
    {
        Variable(Index::Input(0))
    }

    fn alloc_aux(&mut self, value: Option<Fr>) -> (r: Result<Variable, SynthesisError>)
        ensures
            same_constraints(final(self), old(self)),
            same_blocks(final(self), old(self)),
            final(self).input_assignment@ == old(self).input_assignment@,
            final(self).transcript == old(self).transcript,
            value is None ==> r == Err::<Variable, SynthesisError>(SynthesisError::AssignmentMissing)
                && final(self).aux_assignment@ == old(self).aux_assignment@,
            value matches Some(v) ==> r == Ok::<Variable, SynthesisError>(Variable(Index::Aux(old(self).aux_assignment@.len() as usize)))
                && final(self).aux_assignment@ == old(self).aux_assignment@.push(v),
    {
        self.alloc_aux_value(value)
    }

    fn alloc_input(&mut self, value: Option<Fr>) -> (r: Result<Variable, SynthesisError>)
        ensures
            same_constraints(final(self), old(self)),
            same_blocks(final(self), old(self)),
            final(self).aux_assignment@ == old(self).aux_assignment@,
            transcript_domain(final(self).transcript) == transcript_domain(old(self).transcript),
            value is None ==> r == Err::<Variable, SynthesisError>(SynthesisError::AssignmentMissing)
                && final(self).input_assignment@ == old(self).input_assignment@
                && final(self).transcript == old(self).transcript,
            value matches Some(v) ==> r == Ok::<Variable, SynthesisError>(Variable(Index::Input(old(self).input_assignment@.len() as usize)))
                && final(self).input_assignment@ == old(self).input_assignment@.push(v)
                && transcript_log(final(self).transcript) == transcript_log(old(self).transcript).push(("input"@, repr_bytes(v.val()))),
    {
        self.alloc_input_value(value)
    }

    fn enforce(&mut self, a: LinearCombination, b: LinearCombination, c: LinearCombination) -> (r: Result<(), SynthesisError>)
        ensures
            same_blocks(final(self), old(self)),
            final(self).input_assignment@ == old(self).input_assignment@,
            final(self).aux_assignment@ == old(self).aux_assignment@,
            final(self).transcript == old(self).transcript,
            ({
                let (ni, na) = (old(self).input_assignment@.len(), old(self).aux_assignment@.len());
                let ok = lc_in_range(a.0@, ni, na) && lc_in_range(b.0@, ni, na) && lc_in_range(c.0@, ni, na);
                let (xs, ws) = (vals(old(self).input_assignment@), vals(old(self).aux_assignment@));
                &&& !ok <==> r == Err::<(), SynthesisError>(SynthesisError::UnknownVariable)
                &&& !ok ==> same_constraints(final(self), old(self))
                &&& ok ==> r is Ok
                    && vals(final(self).a@) == vals(old(self).a@).push(lc_value(a.0@, xs, ws, a.0@.len()))
                    && vals(final(self).b@) == vals(old(self).b@).push(lc_value(b.0@, xs, ws, b.0@.len()))
                    && vals(final(self).c@) == vals(old(self).c@).push(lc_value(c.0@, xs, ws, c.0@.len()))
            }),
    {
        self.enforce_lcs(&a, &b, &c)
    }

    fn end_aux_block(&mut self) -> (r: Result<(), SynthesisError>)
        ensures
            same_constraints(final(self), old(self)),
            final(self).input_assignment@ == old(self).input_assignment@,
            final(self).aux_assignment@ == old(self).aux_assignment@,
            final(self).kappa_3s@ == old(self).kappa_3s@,
            final(self).params == old(self).params,
            transcript_domain(final(self).transcript) == transcript_domain(old(self).transcript),
            ({
                let i = old(self).aux_block_indices@.len() as int;
                let start = open_block_start(old(self).aux_block_indices@);
                let end = old(self).aux_assignment@.len() as int;
                let p = old(self).params;
                let malformed = i >= old(self).kappa_3s@.len() || i >= p.ls@.len()
                    || p.ls@[i]@.len() < end - start || p.vk.deltas_g1@.len() == 0;
                let block = old(self).aux_assignment@.subrange(start, end);
                let pi_d = g1_add(
                    g1_msm(g1_views(p.ls@[i]@), vals(block), (end - start) as nat),
                    g1_mul(p.vk.deltas_g1@.last()@, old(self).kappa_3s@[i].val()),
                );
                &&& (end <= start) <==> r == Err::<(), SynthesisError>(SynthesisError::EmptyAuxBlock)
                &&& (end > start && malformed) <==> r == Err::<(), SynthesisError>(SynthesisError::MalformedParameters)
                &&& (end > start && !malformed) ==> r is Ok
                &&& r is Err ==> same_blocks(final(self), old(self)) && final(self).transcript == old(self).transcript
                &&& r is Ok ==> {
                    &&& final(self).pi_ds@ == old(self).pi_ds@.push(final(self).pi_ds@.last())
                    &&& final(self).pi_ds@.last()@ == pi_d
                    &&& final(self).aux_blocks@.len() == old(self).aux_blocks@.len() + 1
                    &&& final(self).aux_blocks@.drop_last() == old(self).aux_blocks@
                    &&& final(self).aux_blocks@.last()@ == block
                    &&& final(self).aux_block_indices@ == old(self).aux_block_indices@.push(end as usize)
                    &&& transcript_log(final(self).transcript) == transcript_log(old(self).transcript).push(("aux_commit"@, pi_d))
                }
            }),
    {
        self.end_block()
    }

    fn alloc_random(&mut self) -> (r: Result<(Variable, Option<Fr>), SynthesisError>)
        ensures
            same_constraints(final(self), old(self)),
            same_blocks(final(self), old(self)),
            final(self).aux_assignment@ == old(self).aux_assignment@,
            transcript_domain(final(self).transcript) == transcript_domain(old(self).transcript),
            r matches Ok((var, Some(v))) && var == Variable(Index::Input(old(self).input_assignment@.len() as usize))
                && v.val() == coin_value(transcript_domain(old(self).transcript), transcript_log(old(self).transcript))
                && final(self).input_assignment@ == old(self).input_assignment@.push(v)
                && transcript_log(final(self).transcript) == transcript_log(old(self).transcript).push(("input"@, repr_bytes(v.val()))),
    {
        self.alloc_coin()
    }
}

/// The commitment to block `b` with values `block`: `L_b . block + kappa_b delta_k`.
pub open spec fn block_commitment(p: &Parameters, kappas: Seq<Fr>, b: int, block: Seq<Fr>) -> Seq<u8> {
    g1_add(
        g1_msm(g1_views(p.ls@[b]@), vals(block), block.len()),
        g1_mul(p.vk.deltas_g1@.last()@, kappas[b].val()),
    )
}

/// Every commitment made in the session is the commitment to its block.
pub open spec fn commitments_match(pa: &ProvingAssignment) -> bool {
    &&& pa.pi_ds@.len() == pa.aux_blocks@.len()
    &&& pa.aux_blocks@.len() <= pa.kappa_3s@.len()
    &&& pa.aux_blocks@.len() <= pa.params.ls@.len()
    &&& (pa.aux_blocks@.len() > 0 ==> pa.params.vk.deltas_g1@.len() > 0)
    &&& forall|b: int| 0 <= b < pa.aux_blocks@.len() ==> (#[trigger] pa.aux_blocks@[b])@.len() <= pa.params.ls@[b]@.len()
        && pa.pi_ds@[b]@ == block_commitment(pa.params, pa.kappa_3s@, b, pa.aux_blocks@[b]@)
}

/// Checks every block commitment of the session against its block.
pub fn check_commitments(pa: &ProvingAssignment) -> (r: bool)
    ensures
        r == commitments_match(pa),
{
    let n = pa.aux_blocks.len();
    if pa.pi_ds.len() != n || n > pa.kappa_3s.len() || n > pa.params.ls.len() {
        return false;
    }
    if n == 0 {
        return true;
    }
    if pa.params.vk.deltas_g1.len() == 0 {
        return false;
    }
    let last = pa.params.vk.deltas_g1.len() - 1;
    let mut b: usize = 0;
    while b < n
        invariant
            n == pa.aux_blocks@.len(),
            pa.pi_ds@.len() == n,
            n <= pa.kappa_3s@.len(),
            n <= pa.params.ls@.len(),
            last == pa.params.vk.deltas_g1@.len() - 1,
            b <= n,
            forall|t: int| 0 <= t < b ==> (#[trigger] pa.aux_blocks@[t])@.len() <= pa.params.ls@[t]@.len()
                && pa.pi_ds@[t]@ == block_commitment(pa.params, pa.kappa_3s@, t, pa.aux_blocks@[t]@),
        decreases n - b,
    {
        let block = &pa.aux_blocks[b];
        if block.len() > pa.params.ls[b].len() {
            return false;
        }
        let msm = multiexp(pa.params.ls[b].as_slice(), block.as_slice());
        let blind = pa.params.vk.deltas_g1[last].mul(&pa.kappa_3s[b]);
        let c = msm.add(&blind);
        if !crate::kw15::g1_eq(&c, &pa.pi_ds[b]) {
            return false;
        }
        b = b + 1;
    }
    true
}

/// Proves `circuit` with parameters `params`, blinding scalars `r` and `s`,
/// and one commitment blinding scalar per aux block. Returns the proof and
/// the values of each block, which open the block commitments.
///
/// After the circuit has run, every block commitment is recomputed from its
/// block and compared (`check_commitments`): a second multi-scalar
/// multiplication per block, which lets the result state that each
/// commitment opens to the returned block values. A mismatch, which the
/// builder methods never produce, is reported as `Unsatisfiable`.
pub fn create_proof<C: CcCircuit>(
    circuit: &C,
    params: &Parameters,
    worker: &Worker,
    r: Fr,
    s: Fr,
    kappa_3s: Vec<Fr>,
) -> (res: Result<(Proof, Vec<Vec<Fr>>), SynthesisError>)
    ensures
        res matches Ok((pf, blocks)) ==> exists|pa: ProvingAssignment| {
            &&& pa.params == params
            &&& pa.kappa_3s@ == kappa_3s@
            &&& finished(&pa, worker.log_num_threads as nat, r.val(), s.val(), &pf, blocks@)
        },
        res matches Ok((pf, blocks)) ==> {
            &&& pf.ds@.len() == blocks@.len()
            &&& blocks@.len() <= kappa_3s@.len()
            &&& blocks@.len() <= params.ls@.len()
            &&& forall|b: int| 0 <= b < blocks@.len() ==> (#[trigger] pf.ds@[b])@
                == block_commitment(params, kappa_3s@, b, blocks@[b]@)
        },
{
    if kappa_3s.len() != circuit.num_aux_blocks() {
        return Err(SynthesisError::MalformedParameters);
    }
    let mut kappas: Vec<Fr> = Vec::new();
    let mut i: usize = 0;
    while i < kappa_3s.len()
        invariant
            i <= kappa_3s@.len(),
            kappas@ == kappa_3s@.subrange(0, i as int),
        decreases kappa_3s@.len() - i,
    {
        kappas.push(kappa_3s[i]);
        i = i + 1;
    }
    assert(kappas@ =~= kappa_3s@);
    let mut prover = ProvingAssignment::new(params, kappa_3s);
    match circuit.synthesize(&mut prover) {
        Ok(()) => {},
        Err(e) => return Err(e),
    }
    // The circuit reaches the session only through the builder methods,
    // none of which changes the parameters or the blinding scalars; they are
    // set again here so that the proof visibly uses the ones given.
    prover.params = params;
    prover.kappa_3s = kappas;
    if !check_commitments(&prover) {
        return Err(SynthesisError::Unsatisfiable);
    }
    prover.finish(worker, &r, &s)
}

} // verus!
