//! Parameter generation (the trusted setup): traces a circuit's shape and
//! evaluates its constraint polynomials at the trapdoor `tau`.
use crate::curve::{g1_mul, g2_mul, G1, G2};
use crate::domain::{domain_exp, ifft_on, is_domain_exp, lemma_domain_exp_unique, EvaluationDomain, Worker};
use crate::field::{fadd, finv, fmul, fpow, fsub, vals, Fr};
use crate::mirage::{
    CcCircuit, CcConstraintSystem, Index, LinearCombination, Parameters, TranscriptEntry, Variable, VerifyingKey,
};
use crate::SynthesisError;
use vstd::arithmetic::power2::pow2;
use vstd::prelude::*;

verus! {

/// The shape of a circuit as traced during setup: its constraints, its
/// variable counts, where its aux blocks end, and its transcript schedule.
pub struct KeypairAssembly {
    pub num_inputs: usize,
    pub num_aux: usize,
    pub constraints: Vec<(LinearCombination, LinearCombination, LinearCombination)>,
    pub aux_block_indices: Vec<usize>,
    pub transcript: Vec<TranscriptEntry>,
}

/// The position of a variable in a vector over all variables, inputs first.
pub open spec fn var_slot(v: Variable, num_inputs: nat) -> int {
    match v.0 {
        Index::Input(i) => i as int,
        Index::Aux(i) => num_inputs + i,
    }
}

/// Whether every term of a combination names an existing variable.
pub open spec fn terms_in_range(terms: Seq<(Variable, Fr)>, num_inputs: nat, num_aux: nat) -> bool {
    forall|t: int| 0 <= t < terms.len() ==> match (#[trigger] terms[t]).0.0 {
        Index::Input(i) => i < num_inputs,
        Index::Aux(i) => i < num_aux,
    }
}

/// `acc` with the first `n` terms added, each as `coeff * ell` at its
/// variable's slot.
pub open spec fn add_terms(acc: Seq<int>, terms: Seq<(Variable, Fr)>, ell: int, num_inputs: nat, n: nat) -> Seq<int>
    decreases n,
{
    if n == 0 {
        acc
    } else {
        let prev = add_terms(acc, terms, ell, num_inputs, (n - 1) as nat);
        let (v, c) = terms[n - 1];
        let slot = var_slot(v, num_inputs);
        prev.update(slot, fadd(prev[slot], fmul(c.val(), ell)))
    }
}

/// The evaluations at `tau` of the polynomials of one side (`side` 0, 1, 2
/// for A, B, C) over the first `q` constraints: for every variable, the sum
/// over constraints of its coefficient times the constraint's Lagrange value.
pub open spec fn side_at(
    cons: Seq<(LinearCombination, LinearCombination, LinearCombination)>,
    side: nat,
    ell: Seq<int>,
    num_inputs: nat,
    num_vars: nat,
    q: nat,
) -> Seq<int>
    decreases q,
{
    if q == 0 {
        Seq::new(num_vars, |i: int| 0int)
    } else {
        let prev = side_at(cons, side, ell, num_inputs, num_vars, (q - 1) as nat);
        let lc = if side == 0 {
            cons[q - 1].0
        } else if side == 1 {
            cons[q - 1].1
        } else {
            cons[q - 1].2
        };
        add_terms(prev, lc.0@, ell[q - 1], num_inputs, lc.0@.len())
    }
}

/// The powers `tau^0 .. tau^(m-1)`.
pub open spec fn powers_of(tau: int, m: nat) -> Seq<int> {
    Seq::new(m, |i: int| fpow(tau, i as nat))
}

impl KeypairAssembly {
    /// An empty trace with input 0 (the constant one) allocated.
    pub fn new() -> (r: KeypairAssembly)
        ensures
            r.num_inputs == 1,
            r.num_aux == 0,
            r.constraints@.len() == 0,
            r.aux_block_indices@.len() == 0,
            r.transcript@.len() == 0,
    {
        KeypairAssembly {
            num_inputs: 1,
            num_aux: 0,
            constraints: Vec::new(),
            aux_block_indices: Vec::new(),
            transcript: Vec::new(),
        }
    }
}

impl KeypairAssembly {
    /// Records an auxiliary variable (its value is not needed at setup).
    pub fn alloc_aux_var(&mut self) -> (r: Result<Variable, SynthesisError>)
        ensures
            final(self).num_inputs == old(self).num_inputs,
            final(self).constraints@ == old(self).constraints@,
            final(self).aux_block_indices@ == old(self).aux_block_indices@,
            final(self).transcript@ == old(self).transcript@,
            old(self).num_aux == usize::MAX ==> r == Err::<Variable, SynthesisError>(SynthesisError::MalformedParameters)
                && final(self).num_aux == old(self).num_aux,
            old(self).num_aux < usize::MAX ==> r == Ok::<Variable, SynthesisError>(Variable(Index::Aux(old(self).num_aux)))
                && final(self).num_aux == old(self).num_aux + 1,
    {
        if self.num_aux == usize::MAX {
            return Err(SynthesisError::MalformedParameters);
        }
        self.num_aux = self.num_aux + 1;
        Ok(Variable(Index::Aux(self.num_aux - 1)))
    }

    /// Records a public input, with a `PublicInput` schedule entry.
    pub fn alloc_input_var(&mut self) -> (r: Result<Variable, SynthesisError>)
        ensures
            final(self).num_aux == old(self).num_aux,
            final(self).constraints@ == old(self).constraints@,
            final(self).aux_block_indices@ == old(self).aux_block_indices@,
            old(self).num_inputs == usize::MAX ==> r == Err::<Variable, SynthesisError>(SynthesisError::MalformedParameters)
                && final(self).num_inputs == old(self).num_inputs && final(self).transcript@ == old(self).transcript@,
            old(self).num_inputs < usize::MAX ==> r == Ok::<Variable, SynthesisError>(Variable(Index::Input(old(self).num_inputs)))
                && final(self).num_inputs == old(self).num_inputs + 1
                && final(self).transcript@ == old(self).transcript@.push(TranscriptEntry::PublicInput),
    {
        if self.num_inputs == usize::MAX {
            return Err(SynthesisError::MalformedParameters);
        }
        self.num_inputs = self.num_inputs + 1;
        self.transcript.push(TranscriptEntry::PublicInput);
        Ok(Variable(Index::Input(self.num_inputs - 1)))
    }

    /// Records a coin: a public input with a `Coin` schedule entry; its value
    /// is unknown at setup.
    pub fn alloc_coin_var(&mut self) -> (r: Result<(Variable, Option<Fr>), SynthesisError>)
        ensures
            final(self).num_aux == old(self).num_aux,
            final(self).constraints@ == old(self).constraints@,
            final(self).aux_block_indices@ == old(self).aux_block_indices@,
            old(self).num_inputs == usize::MAX ==> r is Err && final(self).num_inputs == old(self).num_inputs
                && final(self).transcript@ == old(self).transcript@,
            old(self).num_inputs < usize::MAX ==> (r matches Ok((v, None)) && v == Variable(Index::Input(old(self).num_inputs))
                && final(self).num_inputs == old(self).num_inputs + 1
                && final(self).transcript@ == old(self).transcript@.push(TranscriptEntry::Coin)),
    {
        if self.num_inputs == usize::MAX {
            return Err(SynthesisError::MalformedParameters);
        }
        self.num_inputs = self.num_inputs + 1;
        self.transcript.push(TranscriptEntry::Coin);
        Ok((Variable(Index::Input(self.num_inputs - 1)), None))
    }

    /// Records the constraint `a * b = c`; fails if a term names a variable
    /// not yet allocated.
    pub fn enforce_lcs(&mut self, a: LinearCombination, b: LinearCombination, c: LinearCombination) -> (r: Result<(), SynthesisError>)
        ensures
            final(self).num_inputs == old(self).num_inputs,
            final(self).num_aux == old(self).num_aux,
            final(self).aux_block_indices@ == old(self).aux_block_indices@,
            final(self).transcript@ == old(self).transcript@,
            ({
                let ok = terms_in_range(a.0@, old(self).num_inputs as nat, old(self).num_aux as nat)
                    && terms_in_range(b.0@, old(self).num_inputs as nat, old(self).num_aux as nat)
                    && terms_in_range(c.0@, old(self).num_inputs as nat, old(self).num_aux as nat);
                &&& !ok ==> r == Err::<(), SynthesisError>(SynthesisError::UnknownVariable)
                    && final(self).constraints@ == old(self).constraints@
                &&& ok ==> r is Ok && final(self).constraints@ == old(self).constraints@.push((a, b, c))
            }),
    {
        if !lc_fits(&a, self.num_inputs, self.num_aux) || !lc_fits(&b, self.num_inputs, self.num_aux)
            || !lc_fits(&c, self.num_inputs, self.num_aux) {
            return Err(SynthesisError::UnknownVariable);
        }
        self.constraints.push((a, b, c));
        Ok(())
    }

    /// Ends the open aux block at the current aux count, with an
    /// `AuxCommit` schedule entry; fails if the block is empty.
    pub fn end_block(&mut self) -> (r: Result<(), SynthesisError>)
        ensures
            final(self).num_inputs == old(self).num_inputs,
            final(self).num_aux == old(self).num_aux,
            final(self).constraints@ == old(self).constraints@,
            ({
                let ends = old(self).aux_block_indices@;
                let start = if ends.len() == 0 { 0 } else { ends.last() as int };
                &&& old(self).num_aux <= start ==> r == Err::<(), SynthesisError>(SynthesisError::EmptyAuxBlock)
                    && final(self).aux_block_indices@ == ends && final(self).transcript@ == old(self).transcript@
                &&& old(self).num_aux > start ==> r is Ok
                    && final(self).aux_block_indices@ == ends.push(old(self).num_aux)
                    && final(self).transcript@ == old(self).transcript@.push(TranscriptEntry::AuxCommit)
            }),
    {
        let k = self.aux_block_indices.len();
        let start = if k == 0 { 0 } else { self.aux_block_indices[k - 1] };
        if self.num_aux <= start {
            return Err(SynthesisError::EmptyAuxBlock);
        }
        self.aux_block_indices.push(self.num_aux);
        self.transcript.push(TranscriptEntry::AuxCommit);
        Ok(())
    }
}

impl CcConstraintSystem for KeypairAssembly {
    fn one() -> (r: Variable)
        ensures
            r == Variable(Index::Input(0)),
    {
        Variable(Index::Input(0))
    }

    fn alloc_aux(&mut self, value: Option<Fr>) -> (r: Result<Variable, SynthesisError>)
        ensures
            final(self).num_inputs == old(self).num_inputs,
            final(self).constraints@ == old(self).constraints@,
            final(self).aux_block_indices@ == old(self).aux_block_indices@,
            final(self).transcript@ == old(self).transcript@,
            old(self).num_aux == usize::MAX ==> r == Err::<Variable, SynthesisError>(SynthesisError::MalformedParameters)
                && final(self).num_aux == old(self).num_aux,
            old(self).num_aux < usize::MAX ==> r == Ok::<Variable, SynthesisError>(Variable(Index::Aux(old(self).num_aux)))
                && final(self).num_aux == old(self).num_aux + 1,
    {
        self.alloc_aux_var()
    }

    fn alloc_input(&mut self, value: Option<Fr>) -> (r: Result<Variable, SynthesisError>)
        ensures
            final(self).num_aux == old(self).num_aux,
            final(self).constraints@ == old(self).constraints@,
            final(self).aux_block_indices@ == old(self).aux_block_indices@,
            old(self).num_inputs == usize::MAX ==> r == Err::<Variable, SynthesisError>(SynthesisError::MalformedParameters)
                && final(self).num_inputs == old(self).num_inputs && final(self).transcript@ == old(self).transcript@,
            old(self).num_inputs < usize::MAX ==> r == Ok::<Variable, SynthesisError>(Variable(Index::Input(old(self).num_inputs)))
                && final(self).num_inputs == old(self).num_inputs + 1
                && final(self).transcript@ == old(self).transcript@.push(TranscriptEntry::PublicInput),
    {
        self.alloc_input_var()
    }

    fn enforce(&mut self, a: LinearCombination, b: LinearCombination, c: LinearCombination) -> (r: Result<(), SynthesisError>)
        ensures
            final(self).num_inputs == old(self).num_inputs,
            final(self).num_aux == old(self).num_aux,
            final(self).aux_block_indices@ == old(self).aux_block_indices@,
            final(self).transcript@ == old(self).transcript@,
            ({
                let ok = terms_in_range(a.0@, old(self).num_inputs as nat, old(self).num_aux as nat)
                    && terms_in_range(b.0@, old(self).num_inputs as nat, old(self).num_aux as nat)
                    && terms_in_range(c.0@, old(self).num_inputs as nat, old(self).num_aux as nat);
                &&& !ok ==> r == Err::<(), SynthesisError>(SynthesisError::UnknownVariable)
                    && final(self).constraints@ == old(self).constraints@
                &&& ok ==> r is Ok && final(self).constraints@ == old(self).constraints@.push((a, b, c))
            }),
    {
        self.enforce_lcs(a, b, c)
    }

    fn end_aux_block(&mut self) -> (r: Result<(), SynthesisError>)
        ensures
            final(self).num_inputs == old(self).num_inputs,
            final(self).num_aux == old(self).num_aux,
            final(self).constraints@ == old(self).constraints@,
            ({
                let ends = old(self).aux_block_indices@;
                let start = if ends.len() == 0 { 0 } else { ends.last() as int };
                &&& old(self).num_aux <= start ==> r == Err::<(), SynthesisError>(SynthesisError::EmptyAuxBlock)
                    && final(self).aux_block_indices@ == ends && final(self).transcript@ == old(self).transcript@
                &&& old(self).num_aux > start ==> r is Ok
                    && final(self).aux_block_indices@ == ends.push(old(self).num_aux)
                    && final(self).transcript@ == old(self).transcript@.push(TranscriptEntry::AuxCommit)
            }),
    {
        self.end_block()
    }

    fn alloc_random(&mut self) -> (r: Result<(Variable, Option<Fr>), SynthesisError>)
        ensures
            final(self).num_aux == old(self).num_aux,
            final(self).constraints@ == old(self).constraints@,
            final(self).aux_block_indices@ == old(self).aux_block_indices@,
            old(self).num_inputs == usize::MAX ==> r is Err && final(self).num_inputs == old(self).num_inputs
                && final(self).transcript@ == old(self).transcript@,
            old(self).num_inputs < usize::MAX ==> (r matches Ok((v, None)) && v == Variable(Index::Input(old(self).num_inputs))
                && final(self).num_inputs == old(self).num_inputs + 1
                && final(self).transcript@ == old(self).transcript@.push(TranscriptEntry::Coin)),
    {
        self.alloc_coin_var()
    }
}

/// Whether every term of `lc` names an existing variable.
pub fn lc_fits(lc: &LinearCombination, num_inputs: usize, num_aux: usize) -> (r: bool)
    ensures
        r == terms_in_range(lc.0@, num_inputs as nat, num_aux as nat),
{
    let mut t: usize = 0;
    while t < lc.0.len()
        invariant
            t <= lc.0@.len(),
            terms_in_range(lc.0@.subrange(0, t as int), num_inputs as nat, num_aux as nat),
        decreases lc.0@.len() - t,
    {
        let ok = match lc.0[t].0.0 {
            Index::Input(i) => i < num_inputs,
            Index::Aux(i) => i < num_aux,
        };
        if !ok {
            assert(lc.0@[t as int] == lc.0[t as int]);
            return false;
        }
        assert forall|u: int| 0 <= u < t + 1 implies match (#[trigger] lc.0@.subrange(0, t + 1)[u]).0.0 {
            Index::Input(i) => i < num_inputs,
            Index::Aux(i) => i < num_aux,
        } by {
            if u < t {
                assert(lc.0@.subrange(0, t + 1)[u] == lc.0@.subrange(0, t as int)[u]);
            }
        }
        t = t + 1;
    }
    assert(lc.0@.subrange(0, lc.0@.len() as int) =~= lc.0@);
    true
}

/// `beta u + alpha v + w` for one variable.
pub open spec fn abc(u: int, v: int, w: int, alpha: int, beta: int) -> int {
    fadd(fadd(fmul(beta, u), fmul(alpha, v)), w)
}

/// The Lagrange basis of the domain for `n` constraints, evaluated at `tau`.
pub open spec fn lagrange_at(n: nat, tau: int, lc: nat) -> Seq<int> {
    let e = domain_exp(n);
    ifft_on(powers_of(tau, pow2(e)), e, lc)
}

/// Whether a trace can be turned into parameters: its combinations name
/// existing variables, its blocks end in increasing order inside the aux
/// variables, and its variable count fits.
pub open spec fn trace_ok(t: &KeypairAssembly) -> bool {
    &&& t.num_inputs + t.num_aux <= usize::MAX
    &&& forall|q: int| 0 <= q < t.constraints@.len() ==> {
        &&& terms_in_range((#[trigger] t.constraints@[q]).0.0@, t.num_inputs as nat, t.num_aux as nat)
        &&& terms_in_range(t.constraints@[q].1.0@, t.num_inputs as nat, t.num_aux as nat)
        &&& terms_in_range(t.constraints@[q].2.0@, t.num_inputs as nat, t.num_aux as nat)
    }
    &&& forall|b: int| 0 <= b < t.aux_block_indices@.len() ==> (#[trigger] t.aux_block_indices@[b]) <= t.num_aux
        && (b == 0 || t.aux_block_indices@[b - 1] < t.aux_block_indices@[b])
}

/// The first aux index of block `b`.
pub open spec fn block_start(ends: Seq<usize>, b: int) -> int {
    if b == 0 { 0 } else { ends[b - 1] as int }
}

/// The aux index just past block `b` (the last block runs to `num_aux`).
pub open spec fn block_end(ends: Seq<usize>, b: int, num_aux: int) -> int {
    if b < ends.len() { ends[b] as int } else { num_aux }
}

/// Checks `trace_ok` at run time.
#[verifier::rlimit(60)]
fn check_trace(t: &KeypairAssembly) -> (r: bool)
    ensures
        r == trace_ok(t),
{
    if t.num_inputs > usize::MAX - t.num_aux {
        return false;
    }
    let mut q: usize = 0;
    while q < t.constraints.len()
        invariant
            q <= t.constraints@.len(),
            forall|q2: int| 0 <= q2 < q ==> {
                &&& terms_in_range((#[trigger] t.constraints@[q2]).0.0@, t.num_inputs as nat, t.num_aux as nat)
                &&& terms_in_range(t.constraints@[q2].1.0@, t.num_inputs as nat, t.num_aux as nat)
                &&& terms_in_range(t.constraints@[q2].2.0@, t.num_inputs as nat, t.num_aux as nat)
            },
        decreases t.constraints@.len() - q,
    {
        let con = &t.constraints[q];
        if !lc_fits(&con.0, t.num_inputs, t.num_aux) || !lc_fits(&con.1, t.num_inputs, t.num_aux)
            || !lc_fits(&con.2, t.num_inputs, t.num_aux) {
            return false;
        }
        q = q + 1;
    }
    let mut b: usize = 0;
    while b < t.aux_block_indices.len()
        invariant
            b <= t.aux_block_indices@.len(),
            forall|q2: int| 0 <= q2 < t.constraints@.len() ==> {
                &&& terms_in_range((#[trigger] t.constraints@[q2]).0.0@, t.num_inputs as nat, t.num_aux as nat)
                &&& terms_in_range(t.constraints@[q2].1.0@, t.num_inputs as nat, t.num_aux as nat)
                &&& terms_in_range(t.constraints@[q2].2.0@, t.num_inputs as nat, t.num_aux as nat)
            },
            forall|b2: int| 0 <= b2 < b ==> (#[trigger] t.aux_block_indices@[b2]) <= t.num_aux
                && (b2 == 0 || t.aux_block_indices@[b2 - 1] < t.aux_block_indices@[b2]),
        decreases t.aux_block_indices@.len() - b,
    {
        if t.aux_block_indices[b] > t.num_aux || (b > 0 && t.aux_block_indices[b - 1] >= t.aux_block_indices[b]) {
            return false;
        }
        b = b + 1;
    }
    true
}

/// `pc` is the trace's constraints followed by one pinning constraint
/// `x_i * 0 = 0` per public input.
pub open spec fn pinned_from(t: &KeypairAssembly, pc: Seq<(LinearCombination, LinearCombination, LinearCombination)>) -> bool {
    &&& pc.len() == t.constraints@.len() + t.num_inputs
    &&& forall|q: int| 0 <= q < t.constraints@.len() ==> #[trigger] pc[q] == t.constraints@[q]
    &&& forall|i: int| 0 <= i < t.num_inputs ==> {
        let con = #[trigger] pc[t.constraints@.len() + i];
        &&& con.0.0@ == seq![(Variable(Index::Input(i as usize)), con.0.0@[0].1)]
        &&& con.0.0@[0].1.val() == 1
        &&& con.1.0@.len() == 0
        &&& con.2.0@.len() == 0
    }
}

/// What the parameters for a trace hold, with `pc` its pinned constraints,
/// group generators `g1`, `g2`, trapdoors `alpha`, `beta`, `gamma`,
/// `deltas` (one per block and a final one) and `tau`, and the FFTs run by a
/// worker with `2^lc` threads. With `u`, `v`, `w` the A, B, C polynomials
/// of every variable evaluated at `tau` (through the Lagrange basis of the
/// constraint domain of size `m`):
/// `IC[i] = (beta u_i + alpha v_i + w_i) / gamma` for each public input,
/// `L_b[j] = (beta u + alpha v + w) / delta_b` for aux `j` of block `b`,
/// `H[i] = tau^i (tau^m - 1) / delta_k` for `i < m - 1`,
/// `A[j] = u_j`, `B[j] = v_j` in both groups, each times its generator.
pub open spec fn params_from(
    t: &KeypairAssembly,
    pc: Seq<(LinearCombination, LinearCombination, LinearCombination)>,
    lc: nat,
    g1: Seq<u8>,
    g2: Seq<u8>,
    alpha: int,
    beta: int,
    gamma: int,
    deltas: Seq<int>,
    tau: int,
    p: &Parameters,
) -> bool {
    let nin = t.num_inputs as int;
    let naux = t.num_aux as int;
    let nv = (nin + naux) as nat;
    let n = pc.len();
    let m = pow2(domain_exp(n));
    let ell = lagrange_at(n, tau, lc);
    let u = side_at(pc, 0, ell, nin as nat, nv, n);
    let v = side_at(pc, 1, ell, nin as nat, nv, n);
    let w = side_at(pc, 2, ell, nin as nat, nv, n);
    let k = deltas.len() - 1;
    let ends = t.aux_block_indices@;
    &&& p.vk.alpha_g1@ == g1_mul(g1, alpha)
    &&& p.vk.beta_g1@ == g1_mul(g1, beta)
    &&& p.vk.beta_g2@ == g2_mul(g2, beta)
    &&& p.vk.gamma_g2@ == g2_mul(g2, gamma)
    &&& p.vk.deltas_g1@.len() == deltas.len() && p.vk.deltas_g2@.len() == deltas.len()
    &&& forall|i: int| 0 <= i < deltas.len() ==> (#[trigger] p.vk.deltas_g1@[i])@ == g1_mul(g1, deltas[i])
        && p.vk.deltas_g2@[i]@ == g2_mul(g2, deltas[i])
    &&& p.vk.ic@.len() == nin
    &&& forall|i: int| 0 <= i < nin ==> (#[trigger] p.vk.ic@[i])@ == g1_mul(g1, fmul(abc(u[i], v[i], w[i], alpha, beta), finv(gamma)))
    &&& p.vk.transcript@ == t.transcript@
    &&& p.h@.len() == m - 1
    &&& forall|i: int| 0 <= i < m - 1 ==> (#[trigger] p.h@[i])@
        == g1_mul(g1, fmul(fmul(fpow(tau, i as nat), fsub(fpow(tau, m), 1)), finv(deltas[k])))
    &&& p.ls@.len() == ends.len() + 1
    &&& forall|b: int| 0 <= b <= ends.len() ==> abc_points((#[trigger] p.ls@[b])@, g1, u, v, w, alpha, beta,
        finv(deltas[b]), nin + block_start(ends, b), block_end(ends, b, naux) - block_start(ends, b))
    &&& p.a@.len() == nv && p.b_g1@.len() == nv && p.b_g2@.len() == nv
    &&& forall|j: int| 0 <= j < nv ==> (#[trigger] p.a@[j])@ == g1_mul(g1, u[j])
        && p.b_g1@[j]@ == g1_mul(g1, v[j]) && p.b_g2@[j]@ == g2_mul(g2, v[j])
}

/// Adds to a trace one constraint per public input, `x_i * 0 = 0`.
fn pin_inputs(trace: &mut KeypairAssembly)
    ensures
        final(trace).num_inputs == old(trace).num_inputs,
        final(trace).num_aux == old(trace).num_aux,
        final(trace).aux_block_indices@ == old(trace).aux_block_indices@,
        final(trace).transcript@ == old(trace).transcript@,
        final(trace).constraints@.len() == old(trace).constraints@.len() + old(trace).num_inputs,
        forall|q: int| 0 <= q < old(trace).constraints@.len() ==> #[trigger] final(trace).constraints@[q] == old(trace).constraints@[q],
        forall|i: int| 0 <= i < old(trace).num_inputs ==> {
            let con = #[trigger] final(trace).constraints@[old(trace).constraints@.len() + i];
            &&& con.0.0@ == seq![(Variable(Index::Input(i as usize)), con.0.0@[0].1)]
            &&& con.0.0@[0].1.val() == 1
            &&& con.1.0@.len() == 0
            &&& con.2.0@.len() == 0
        },
{
    let n = trace.num_inputs;
    let mut i: usize = 0;
    while i < n
        invariant
            i <= n,
            n == old(trace).num_inputs,
            trace.num_inputs == old(trace).num_inputs,
            trace.num_aux == old(trace).num_aux,
            trace.aux_block_indices@ == old(trace).aux_block_indices@,
            trace.transcript@ == old(trace).transcript@,
            trace.constraints@.len() == old(trace).constraints@.len() + i,
            forall|q: int| 0 <= q < old(trace).constraints@.len() ==> #[trigger] trace.constraints@[q] == old(trace).constraints@[q],
            forall|t: int| 0 <= t < i ==> {
                let con = #[trigger] trace.constraints@[old(trace).constraints@.len() + t];
                &&& con.0.0@ == seq![(Variable(Index::Input(t as usize)), con.0.0@[0].1)]
                &&& con.0.0@[0].1.val() == 1
                &&& con.1.0@.len() == 0
                &&& con.2.0@.len() == 0
            },
        decreases n - i,
    {
        let a = LinearCombination::zero().add_var(Variable(Index::Input(i)));
        assert(a.0@ =~= seq![(Variable(Index::Input(i)), a.0@[0].1)]);
        trace.constraints.push((a, LinearCombination::zero(), LinearCombination::zero()));
        i = i + 1;
    }
}

/// Adds `coeff * ell` to the slot of each term's variable.
fn add_lc_terms(acc: &mut Vec<Fr>, lc: &LinearCombination, ell: &Fr, num_inputs: usize)
    requires
        terms_in_range(lc.0@, num_inputs as nat, (old(acc)@.len() - num_inputs) as nat),
        num_inputs <= old(acc)@.len(),
    ensures
        final(acc)@.len() == old(acc)@.len(),
        vals(final(acc)@) == add_terms(vals(old(acc)@), lc.0@, ell.val(), num_inputs as nat, lc.0@.len()),
{
    let alen = acc.len();
    let mut t: usize = 0;
    while t < lc.0.len()
        invariant
            t <= lc.0@.len(),
            alen == acc@.len(),
            num_inputs <= acc@.len(),
            acc@.len() == old(acc)@.len(),
            terms_in_range(lc.0@, num_inputs as nat, (old(acc)@.len() - num_inputs) as nat),
            vals(acc@) == add_terms(vals(old(acc)@), lc.0@, ell.val(), num_inputs as nat, t as nat),
        decreases lc.0@.len() - t,
    {
        let (var, coeff) = lc.0[t];
        assert(lc.0@[t as int] == (var, coeff));
        let slot = match var.0 {
            Index::Input(i) => i,
            Index::Aux(i) => {
                assert(match lc.0@[t as int].0.0 {
                    Index::Input(i) => i < num_inputs,
                    Index::Aux(i) => i < old(acc)@.len() - num_inputs,
                });
                num_inputs + i
            },
        };
        let term = coeff.mul(ell);
        let cur = acc[slot].add(&term);
        let ghost prev = acc@;
        acc.set(slot, cur);
        assert(vals(acc@) =~= vals(prev).update(slot as int, cur.val()));
        t = t + 1;
    }
}

/// The evaluations at `tau` of one side's polynomials, for every variable.
fn side_values(
    cons: &Vec<(LinearCombination, LinearCombination, LinearCombination)>,
    side: usize,
    ell: &Vec<Fr>,
    num_inputs: usize,
    num_aux: usize,
) -> (r: Vec<Fr>)
    requires
        num_inputs + num_aux <= usize::MAX,
        side < 3,
        ell@.len() >= cons@.len(),
        forall|q: int| 0 <= q < cons@.len() ==> {
            &&& terms_in_range((#[trigger] cons@[q]).0.0@, num_inputs as nat, num_aux as nat)
            &&& terms_in_range(cons@[q].1.0@, num_inputs as nat, num_aux as nat)
            &&& terms_in_range(cons@[q].2.0@, num_inputs as nat, num_aux as nat)
        },
    ensures
        r@.len() == num_inputs + num_aux,
        vals(r@) == side_at(cons@, side as nat, vals(ell@), num_inputs as nat, (num_inputs + num_aux) as nat, cons@.len()),
{
    let n = num_inputs + num_aux;
    let mut acc: Vec<Fr> = Vec::new();
    let mut i: usize = 0;
    while i < n
        invariant
            i <= n,
            acc@.len() == i,
            vals(acc@) == Seq::new(i as nat, |t: int| 0int),
        decreases n - i,
    {
        let z = Fr::zero();
        let ghost prev = acc@;
        acc.push(z);
        assert(acc@ == prev.push(z));
        assert(vals(acc@) =~= vals(prev).push(0int));
        assert(vals(acc@) =~= Seq::new((i + 1) as nat, |t: int| 0int));
        i = i + 1;
    }
    let mut q: usize = 0;
    while q < cons.len()
        invariant
            q <= cons@.len(),
            side < 3,
            n == num_inputs + num_aux,
            acc@.len() == n,
            ell@.len() >= cons@.len(),
            forall|q2: int| 0 <= q2 < cons@.len() ==> {
                &&& terms_in_range((#[trigger] cons@[q2]).0.0@, num_inputs as nat, num_aux as nat)
                &&& terms_in_range(cons@[q2].1.0@, num_inputs as nat, num_aux as nat)
                &&& terms_in_range(cons@[q2].2.0@, num_inputs as nat, num_aux as nat)
            },
            vals(acc@) == side_at(cons@, side as nat, vals(ell@), num_inputs as nat, n as nat, q as nat),
        decreases cons@.len() - q,
    {
        let con = &cons[q];
        let lc = if side == 0 {
            &con.0
        } else if side == 1 {
            &con.1
        } else {
            &con.2
        };
        add_lc_terms(&mut acc, lc, &ell[q], num_inputs);
        q = q + 1;
    }
    acc
}

/// `beta u + alpha v + w` for one variable, computed.
fn abc_value(u: &Fr, v: &Fr, w: &Fr, alpha: &Fr, beta: &Fr) -> (r: Fr)
    ensures
        r.val() == abc(u.val(), v.val(), w.val(), alpha.val(), beta.val()),
{
    beta.mul(u).add(&alpha.mul(v)).add(w)
}

/// `q` holds `g1 * ((beta u_j + alpha v_j + w_j) inv)` for the `count`
/// variables from slot `from`.
#[verifier::opaque]
pub open spec fn abc_points(q: Seq<G1>, g1: Seq<u8>, u: Seq<int>, v: Seq<int>, w: Seq<int>, alpha: int, beta: int,
    inv: int, from: int, count: int) -> bool {
    &&& q.len() == count
    &&& forall|t: int| 0 <= t < count ==> (#[trigger] q[t])@ == g1_mul(g1, fmul(
        abc(u[from + t], v[from + t], w[from + t], alpha, beta), inv))
}

/// `H[i] = g1 * (tau^i tm dinv)` for `i < count`.
fn h_query(g1: &G1, tau: &Fr, tm: &Fr, dinv: &Fr, count: usize) -> (h: Vec<G1>)
    ensures
        h@.len() == count,
        forall|t: int| 0 <= t < count ==> (#[trigger] h@[t])@
            == g1_mul(g1@, fmul(fmul(fpow(tau.val(), t as nat), tm.val()), dinv.val())),
{
    let mut h: Vec<G1> = Vec::new();
    let mut cur = Fr::one();
    let mut i: usize = 0;
    while i < count
        invariant
            i <= count,
            h@.len() == i,
            cur.val() == fpow(tau.val(), i as nat),
            forall|t: int| 0 <= t < i ==> (#[trigger] h@[t])@
                == g1_mul(g1@, fmul(fmul(fpow(tau.val(), t as nat), tm.val()), dinv.val())),
        decreases count - i,
    {
        let val = cur.mul(tm).mul(dinv);
        h.push(g1.mul(&val));
        cur = cur.mul(tau);
        i = i + 1;
    }
    h
}

/// `g1 * ((beta u_j + alpha v_j + w_j) inv)` for `j` in `[from, from + count)`.
fn abc_query(
    g1: &G1,
    u: &Vec<Fr>,
    v: &Vec<Fr>,
    w: &Vec<Fr>,
    alpha: &Fr,
    beta: &Fr,
    inv: &Fr,
    from: usize,
    count: usize,
) -> (q: Vec<G1>)
    requires
        from + count <= u@.len(),
        u@.len() == v@.len(),
        u@.len() == w@.len(),
    ensures
        abc_points(q@, g1@, vals(u@), vals(v@), vals(w@), alpha.val(), beta.val(), inv.val(), from as int, count as int),
{
    let ulen = u.len();
    let mut q: Vec<G1> = Vec::new();
    let mut i: usize = 0;
    while i < count
        invariant
            ulen == u@.len(),
            i <= count,
            from + count <= u@.len(),
            u@.len() == v@.len(),
            u@.len() == w@.len(),
            q@.len() == i,
            forall|t: int| 0 <= t < i ==> (#[trigger] q@[t])@ == g1_mul(g1@, fmul(
                abc(u@[from + t].val(), v@[from + t].val(), w@[from + t].val(), alpha.val(), beta.val()), inv.val())),
        decreases count - i,
    {
        let x = abc_value(&u[from + i], &v[from + i], &w[from + i], alpha, beta).mul(inv);
        q.push(g1.mul(&x));
        i = i + 1;
    }
    proof {
        reveal(abc_points);
    }
    q
}

/// The per-block `L` queries: block `b` runs over the aux variables from
/// `block_start` to `block_end`, each divided by `deltas[b]`.
#[verifier::rlimit(80)]
fn l_queries(
    g1: &G1,
    u: &Vec<Fr>,
    v: &Vec<Fr>,
    w: &Vec<Fr>,
    alpha: &Fr,
    beta: &Fr,
    delta_invs: &Vec<Fr>,
    ends: &Vec<usize>,
    nin: usize,
    naux: usize,
) -> (ls: Vec<Vec<G1>>)
    requires
        nin + naux <= usize::MAX,
        u@.len() == nin + naux,
        v@.len() == u@.len(),
        w@.len() == u@.len(),
        delta_invs@.len() == ends@.len() + 1,
        forall|b: int| 0 <= b < ends@.len() ==> (#[trigger] ends@[b]) <= naux
            && (b == 0 || ends@[b - 1] < ends@[b]),
    ensures
        ls@.len() == ends@.len() + 1,
        forall|b: int| 0 <= b <= ends@.len() ==> abc_points((#[trigger] ls@[b])@, g1@, vals(u@), vals(v@), vals(w@), alpha.val(), beta.val(),
            delta_invs@[b].val(), nin + block_start(ends@, b), block_end(ends@, b, naux as int) - block_start(ends@, b)),
{
    let dl = delta_invs.len();
    let mut ls: Vec<Vec<G1>> = Vec::new();
    let mut b: usize = 0;
    while b <= ends.len()
        invariant
            dl == delta_invs@.len(),
            b <= ends@.len() + 1,
            nin + naux <= usize::MAX,
            u@.len() == nin + naux,
            v@.len() == u@.len(),
            w@.len() == u@.len(),
            delta_invs@.len() == ends@.len() + 1,
            forall|b2: int| 0 <= b2 < ends@.len() ==> (#[trigger] ends@[b2]) <= naux
                && (b2 == 0 || ends@[b2 - 1] < ends@[b2]),
            ls@.len() == b,
            forall|bb: int| 0 <= bb < b ==> abc_points((#[trigger] ls@[bb])@, g1@, vals(u@), vals(v@), vals(w@), alpha.val(), beta.val(),
                delta_invs@[bb].val(), nin + block_start(ends@, bb), block_end(ends@, bb, naux as int) - block_start(ends@, bb)),
        decreases ends@.len() + 1 - b,
    {
        let s0 = if b == 0 { 0 } else { ends[b - 1] };
        let e0 = if b < ends.len() { ends[b] } else { naux };
        proof {
            if b > 0 {
                assert(ends@[b - 1] <= naux);
            }
            if b < ends@.len() {
                assert(ends@[b as int] <= naux);
                if b > 0 {
                    assert(ends@[b - 1] < ends@[b as int]);
                }
            } else if b > 0 {
                assert(ends@[b - 1] <= naux);
            }
        }
        let block = abc_query(g1, u, v, w, alpha, beta, &delta_invs[b], nin + s0, e0 - s0);
        let ghost prev = ls@;
        ls.push(block);
        proof {
            assert(ls@ == prev.push(block));
            assert forall|bb: int| 0 <= bb < b + 1 implies abc_points((#[trigger] ls@[bb])@, g1@, vals(u@), vals(v@), vals(w@), alpha.val(),
                beta.val(), delta_invs@[bb].val(), nin + block_start(ends@, bb),
                block_end(ends@, bb, naux as int) - block_start(ends@, bb)) by {
                if bb < b {
                    assert(ls@[bb] == prev[bb]);
                }
            }
        }
        b = b + 1;
    }
    ls
}

/// The points `g * x` for each scalar, in G1 and in G2.
fn scaled_points(g1: &G1, g2: &G2, xs: &Vec<Fr>) -> (r: (Vec<G1>, Vec<G2>))
    ensures
        r.0@.len() == xs@.len(),
        r.1@.len() == xs@.len(),
        forall|t: int| 0 <= t < xs@.len() ==> (#[trigger] r.0@[t])@ == g1_mul(g1@, xs@[t].val())
            && r.1@[t]@ == g2_mul(g2@, xs@[t].val()),
{
    let mut g1_pts: Vec<G1> = Vec::new();
    let mut g2_pts: Vec<G2> = Vec::new();
    let mut d: usize = 0;
    while d < xs.len()
        invariant
            d <= xs@.len(),
            g1_pts@.len() == d && g2_pts@.len() == d,
            forall|t: int| 0 <= t < d ==> (#[trigger] g1_pts@[t])@ == g1_mul(g1@, xs@[t].val()),
            forall|t: int| 0 <= t < d ==> (#[trigger] g2_pts@[t])@ == g2_mul(g2@, xs@[t].val()),
        decreases xs@.len() - d,
    {
        let a = g1.mul(&xs[d]);
        let b = g2.mul(&xs[d]);
        let ghost (q1, q2) = (g1_pts@, g2_pts@);
        g1_pts.push(a);
        g2_pts.push(b);
        assert(g1_pts@ == q1.push(a) && g2_pts@ == q2.push(b));
        assert forall|t: int| 0 <= t < d + 1 implies (#[trigger] g1_pts@[t])@ == g1_mul(g1@, xs@[t].val()) by {
            if t < d {
                assert(g1_pts@[t] == q1[t]);
            }
        }
        assert forall|t: int| 0 <= t < d + 1 implies (#[trigger] g2_pts@[t])@ == g2_mul(g2@, xs@[t].val()) by {
            if t < d {
                assert(g2_pts@[t] == q2[t]);
            }
        }
        d = d + 1;
    }
    (g1_pts, g2_pts)
}

/// The points `g1 * x` for each scalar.
fn scaled_g1(g1: &G1, xs: &Vec<Fr>) -> (r: Vec<G1>)
    ensures
        r@.len() == xs@.len(),
        forall|t: int| 0 <= t < xs@.len() ==> (#[trigger] r@[t])@ == g1_mul(g1@, xs@[t].val()),
{
    let mut g1_pts: Vec<G1> = Vec::new();
    let mut d: usize = 0;
    while d < xs.len()
        invariant
            d <= xs@.len(),
            g1_pts@.len() == d,
            forall|t: int| 0 <= t < d ==> (#[trigger] g1_pts@[t])@ == g1_mul(g1@, xs@[t].val()),
        decreases xs@.len() - d,
    {
        g1_pts.push(g1.mul(&xs[d]));
        d = d + 1;
    }
    g1_pts
}

/// The inverses of the scalars; fails if one is zero.
fn inverses(xs: &Vec<Fr>) -> (r: Result<Vec<Fr>, SynthesisError>)
    ensures
        (r is Err) == (exists|t: int| 0 <= t < xs@.len() && (#[trigger] xs@[t]).val() == 0),
        r is Err ==> r == Err::<Vec<Fr>, SynthesisError>(SynthesisError::DivisionByZero),
        r matches Ok(ys) ==> ys@.len() == xs@.len()
            && forall|t: int| 0 <= t < xs@.len() ==> (#[trigger] ys@[t]).val() == finv(xs@[t].val()),
{
    let mut ys: Vec<Fr> = Vec::new();
    let mut d: usize = 0;
    while d < xs.len()
        invariant
            d <= xs@.len(),
            ys@.len() == d,
            forall|t: int| 0 <= t < d ==> (#[trigger] ys@[t]).val() == finv(xs@[t].val()),
            forall|t: int| 0 <= t < d ==> (#[trigger] xs@[t]).val() != 0,
        decreases xs@.len() - d,
    {
        match xs[d].invert() {
            Some(x) => ys.push(x),
            None => return Err(SynthesisError::DivisionByZero),
        }
        d = d + 1;
    }
    Ok(ys)
}

/// The Lagrange basis of the domain for `n` constraints at `tau`.
fn lagrange_values(n: usize, tau: &Fr, worker: &Worker) -> (r: Result<Vec<Fr>, SynthesisError>)
    ensures
        (r is Ok) == (n <= pow2(31)),
        r is Err ==> r == Err::<Vec<Fr>, SynthesisError>(SynthesisError::PolynomialDegreeTooLarge),
        r matches Ok(ell) ==> vals(ell@) == lagrange_at(n as nat, tau.val(), worker.log_num_threads as nat)
            && ell@.len() == pow2(domain_exp(n as nat)) && ell@.len() >= n,
{
    let mut zeros: Vec<Fr> = Vec::new();
    let mut i: usize = 0;
    while i < n
        invariant
            i <= n,
            zeros@.len() == i,
        decreases n - i,
    {
        zeros.push(Fr::zero());
        i = i + 1;
    }
    let dz = match EvaluationDomain::from_coeffs(zeros) {
        Ok(d) => d,
        Err(e) => return Err(e),
    };
    proof {
        dz.lemma_wf_len();
    }
    let ghost e = dz.exp();
    let m = dz.into_coeffs().len();
    let mut powers: Vec<Fr> = Vec::new();
    let mut cur = Fr::one();
    let mut j: usize = 0;
    while j < m
        invariant
            j <= m,
            powers@.len() == j,
            cur.val() == fpow(tau.val(), j as nat),
            vals(powers@) == powers_of(tau.val(), j as nat),
        decreases m - j,
    {
        let ghost prev = powers@;
        powers.push(cur);
        assert(powers@ == prev.push(cur));
        assert(vals(powers@) =~= vals(prev).push(cur.val()));
        assert(vals(powers@) =~= powers_of(tau.val(), (j + 1) as nat));
        cur = cur.mul(tau);
        j = j + 1;
    }
    proof {
        vstd::arithmetic::power2::lemma_pow2_pos(e);
        if e < 31 {
            vstd::arithmetic::power2::lemma_pow2_strictly_increases(e, 31);
        }
        assert(is_domain_exp(m as nat, e)) by {
            if e > 0 {
                vstd::arithmetic::power2::lemma_pow2_unfold(e);
            }
        }
        lemma_domain_exp_unique(m as nat, e);
    }
    let mut dp = match EvaluationDomain::from_coeffs(powers) {
        Ok(d) => d,
        Err(e) => return Err(e),
    };
    proof {
        assert(dp.values() =~= powers_of(tau.val(), m as nat));
    }
    dp.ifft(worker);
    proof {
        dp.lemma_wf_len();
    }
    Ok(dp.into_coeffs())
}

/// A copy of the transcript schedule.
fn copy_schedule(s: &Vec<TranscriptEntry>) -> (r: Vec<TranscriptEntry>)
    ensures
        r@ == s@,
{
    let mut r: Vec<TranscriptEntry> = Vec::new();
    let mut t: usize = 0;
    while t < s.len()
        invariant
            t <= s@.len(),
            r@ == s@.subrange(0, t as int),
        decreases s@.len() - t,
    {
        r.push(s[t]);
        t = t + 1;
    }
    assert(r@ =~= s@);
    r
}

/// Turns a checked, pinned trace into parameters.
fn assemble_checked(
    trace: &KeypairAssembly,
    worker: &Worker,
    g1: &G1,
    g2: &G2,
    alpha: &Fr,
    beta: &Fr,
    gamma: &Fr,
    deltas: &Vec<Fr>,
    tau: &Fr,
) -> (r: Result<Parameters, SynthesisError>)
    requires
        trace_ok(trace),
        deltas@.len() == trace.aux_block_indices@.len() + 1,
    ensures
        (r is Ok) == (trace.constraints@.len() <= pow2(31) && gamma.val() != 0
            && forall|i: int| 0 <= i < deltas@.len() ==> (#[trigger] deltas@[i]).val() != 0),
        (trace.constraints@.len() > pow2(31)) == (r == Err::<Parameters, SynthesisError>(SynthesisError::PolynomialDegreeTooLarge)),
        r matches Err(e) ==> e == SynthesisError::PolynomialDegreeTooLarge || e == SynthesisError::DivisionByZero,
        r matches Ok(p) ==> params_from(trace, trace.constraints@, worker.log_num_threads as nat, g1@, g2@, alpha.val(),
            beta.val(), gamma.val(), vals(deltas@), tau.val(), &p),
{
    let nin = trace.num_inputs;
    let naux = trace.num_aux;
    let n = trace.constraints.len();
    let ell = match lagrange_values(n, tau, worker) {
        Ok(x) => x,
        Err(e) => return Err(e),
    };
    let m = ell.len();
    proof {
        vstd::arithmetic::power2::lemma_pow2_pos(domain_exp(n as nat));
    }
    let u = side_values(&trace.constraints, 0, &ell, nin, naux);
    let v = side_values(&trace.constraints, 1, &ell, nin, naux);
    let w = side_values(&trace.constraints, 2, &ell, nin, naux);
    let gamma_inv = match gamma.invert() {
        Some(x) => x,
        None => return Err(SynthesisError::DivisionByZero),
    };
    let delta_invs = match inverses(deltas) {
        Ok(x) => x,
        Err(e) => return Err(e),
    };
    let k = deltas.len() - 1;
    let tm = tau.pow_vartime(m as u64).sub(&Fr::one());
    let h = h_query(g1, tau, &tm, &delta_invs[k], m - 1);
    let ic = abc_query(g1, &u, &v, &w, alpha, beta, &gamma_inv, 0, nin);
    let ls = l_queries(g1, &u, &v, &w, alpha, beta, &delta_invs, &trace.aux_block_indices, nin, naux);
    let a_q = scaled_g1(g1, &u);
    let (b1_q, b2_q) = scaled_points(g1, g2, &v);
    let (deltas_g1, deltas_g2) = scaled_points(g1, g2, deltas);
    let vk = VerifyingKey {
        alpha_g1: g1.mul(alpha),
        beta_g1: g1.mul(beta),
        beta_g2: g2.mul(beta),
        gamma_g2: g2.mul(gamma),
        deltas_g1,
        deltas_g2,
        ic,
        transcript: copy_schedule(&trace.transcript),
    };
    let p = Parameters { vk, h, ls, a: a_q, b_g1: b1_q, b_g2: b2_q };
    proof {
        reveal(abc_points);
    }
    Ok(p)
}

/// Turns a traced circuit into parameters: pins the public inputs,
/// evaluates the constraint polynomials at `tau` through the Lagrange basis
/// of the constraint domain, and multiplies out the queries.
pub fn assemble(
    trace: KeypairAssembly,
    worker: &Worker,
    g1: &G1,
    g2: &G2,
    alpha: &Fr,
    beta: &Fr,
    gamma: &Fr,
    deltas: &Vec<Fr>,
    tau: &Fr,
) -> (r: Result<Parameters, SynthesisError>)
    ensures
        (!trace_ok(&trace) || deltas@.len() != trace.aux_block_indices@.len() + 1)
            <==> r == Err::<Parameters, SynthesisError>(SynthesisError::MalformedParameters),
        trace_ok(&trace) && deltas@.len() == trace.aux_block_indices@.len() + 1 ==> {
            let n = trace.constraints@.len() + trace.num_inputs;
            &&& (r is Ok) == (n <= pow2(31) && gamma.val() != 0
                && forall|i: int| 0 <= i < deltas@.len() ==> (#[trigger] deltas@[i]).val() != 0)
            &&& (n > pow2(31)) == (r == Err::<Parameters, SynthesisError>(SynthesisError::PolynomialDegreeTooLarge))
        },
        r matches Err(e) ==> e == SynthesisError::MalformedParameters || e == SynthesisError::PolynomialDegreeTooLarge
            || e == SynthesisError::DivisionByZero,
        r matches Ok(p) ==> exists|pc: Seq<(LinearCombination, LinearCombination, LinearCombination)>| pinned_from(&trace, pc)
            && #[trigger] params_from(&trace, pc, worker.log_num_threads as nat, g1@, g2@, alpha.val(), beta.val(), gamma.val(),
                vals(deltas@), tau.val(), &p),
{
    if !check_trace(&trace) || deltas.len() == 0 || deltas.len() - 1 != trace.aux_block_indices.len() {
        return Err(SynthesisError::MalformedParameters);
    }
    let ghost orig = trace;
    let mut trace = trace;
    pin_inputs(&mut trace);
    let ghost pc = trace.constraints@;
    proof {
        assert forall|q: int| 0 <= q < pc.len() implies {
            &&& terms_in_range((#[trigger] pc[q]).0.0@, trace.num_inputs as nat, trace.num_aux as nat)
            &&& terms_in_range(pc[q].1.0@, trace.num_inputs as nat, trace.num_aux as nat)
            &&& terms_in_range(pc[q].2.0@, trace.num_inputs as nat, trace.num_aux as nat)
        } by {
            if q >= orig.constraints@.len() {
                let i = q - orig.constraints@.len();
                assert(pc[orig.constraints@.len() + i] == pc[q]);
            } else {
                assert(pc[q] == orig.constraints@[q]);
            }
        }
        assert(trace_ok(&trace));
    }
    let r = assemble_checked(&trace, worker, g1, g2, alpha, beta, gamma, deltas, tau);
    proof {
        if r is Ok {
            assert(pinned_from(&orig, pc));
            let p = r->Ok_0;
            assert(params_from(&orig, pc, worker.log_num_threads as nat, g1@, g2@, alpha.val(), beta.val(), gamma.val(),
                vals(deltas@), tau.val(), &p));
        }
    }
    r
}

/// Generates parameters for `circuit` from group generators `g1`, `g2` and
/// the trapdoors `alpha`, `beta`, `gamma`, `deltas` (one per aux block and a
/// final one) and `tau`.
pub fn generate_parameters<C: CcCircuit>(
    circuit: &C,
    worker: &Worker,
    g1: &G1,
    g2: &G2,
    alpha: &Fr,
    beta: &Fr,
    gamma: &Fr,
    deltas: &Vec<Fr>,
    tau: &Fr,
) -> (r: Result<Parameters, SynthesisError>)
    ensures
        r matches Ok(p) ==> exists|t: KeypairAssembly, pc: Seq<(LinearCombination, LinearCombination, LinearCombination)>|
            pinned_from(&t, pc) && #[trigger] params_from(&t, pc, worker.log_num_threads as nat, g1@, g2@, alpha.val(),
                beta.val(), gamma.val(), vals(deltas@), tau.val(), &p),
{
    let mut trace = KeypairAssembly::new();
    match circuit.synthesize(&mut trace) {
        Ok(()) => {},
        Err(e) => return Err(e),
    }
    assemble(trace, worker, g1, g2, alpha, beta, gamma, deltas, tau)
}

} // verus!
