//! The linear-subspace argument of Kiltz and Wee (KW15), in the form of
//! Appendix D of LegoSNARK: a proof that a vector of G1 commitments is the
//! image of a witness vector under a public matrix over G1.
use crate::curve::{all_g1_checked, all_g2_checked, g1s_checked, g2s_checked, g2_neg, g1_add, g1_msm, g1_mul, g1_views, g2_generator_mul, g2_views, g1_decodes, g2_decodes,
    identity_encoding, multi_pairing_is_one, multiexp, pairing_product_is_one, G1, G2};
use crate::curve_io::{be_u64, encodings, lemma_be_u64_round_trip, lemma_encodings_index, lemma_encodings_len, from_be_u64, read_group_ok, read_groups_ok, groups_encoding, read_group_uncompressed, read_groups_uncompressed,
    write_group_uncompressed, write_groups_uncompressed, IoError};
use crate::field::{fmul, vals, Fr};
use vstd::prelude::*;

verus! {

/// A logical `num_cmts x num_wits` matrix over G1, kept as a list of entries
/// that add up where they share a position.
pub struct Matrix {
    num_cmts: usize,
    num_wits: usize,
    nonzero_entries: Vec<(usize, usize, G1)>,
}

/// Column `j` of `P = k^T M`, over the first `n` entries, added in order:
/// each entry `(i, j, v)` adds `k[i] * v`.
pub open spec fn column_acc(entries: Seq<(usize, usize, G1)>, k: Seq<int>, j: int, n: nat) -> Seq<u8>
    decreases n,
{
    if n == 0 {
        identity_encoding(96)
    } else {
        let e = entries[n - 1];
        let prev = column_acc(entries, k, j, (n - 1) as nat);
        if e.1 as int == j {
            g1_add(prev, g1_mul(e.2@, k[e.0 as int]))
        } else {
            prev
        }
    }
}

impl Matrix {
    /// The number of commitments (rows).
    pub closed spec fn num_cmts(&self) -> nat {
        self.num_cmts as nat
    }

    /// The number of witnesses (columns).
    pub closed spec fn num_wits(&self) -> nat {
        self.num_wits as nat
    }

    /// The entries `(row, column, value)` in the order they were added.
    pub closed spec fn entries(&self) -> Seq<(usize, usize, G1)> {
        self.nonzero_entries@
    }

    /// Every entry lies inside the matrix.
    pub open spec fn wf(&self) -> bool {
        forall|e: int| 0 <= e < self.entries().len() ==> {
            &&& (#[trigger] self.entries()[e]).0 < self.num_cmts()
            &&& self.entries()[e].1 < self.num_wits()
        }
    }

    /// The number of commitments and of witnesses.
    pub fn dims(&self) -> (r: (usize, usize))
        ensures
            r.0 == self.num_cmts(),
            r.1 == self.num_wits(),
    {
        (self.num_cmts, self.num_wits)
    }

    /// An all-zero matrix.
    pub fn new(num_cmts: usize, num_wits: usize) -> (m: Matrix)
        ensures
            m.wf(),
            m.num_cmts() == num_cmts,
            m.num_wits() == num_wits,
            m.entries().len() == 0,
    {
        Matrix { num_cmts, num_wits, nonzero_entries: Vec::new() }
    }

    /// Adds `value` to the entry at row `cmt_i` and column `wit_i`.
    pub fn add_entry(&mut self, cmt_i: usize, wit_i: usize, value: G1)
        requires
            old(self).wf(),
            cmt_i < old(self).num_cmts(),
            wit_i < old(self).num_wits(),
        ensures
            final(self).wf(),
            final(self).num_cmts() == old(self).num_cmts(),
            final(self).num_wits() == old(self).num_wits(),
            final(self).entries() == old(self).entries().push((cmt_i, wit_i, value)),
    {
        let ghost before = self.nonzero_entries@;
        self.nonzero_entries.push((cmt_i, wit_i, value));
        assert forall|e: int| 0 <= e < self.entries().len() implies {
            &&& (#[trigger] self.entries()[e]).0 < self.num_cmts()
            &&& self.entries()[e].1 < self.num_wits()
        } by {
            if e < before.len() {
                assert(self.entries()[e] == before[e]);
                assert(old(self).entries()[e] == before[e]);
            }
        }
    }
}

/// The proving key: `P` in G1, one element per witness.
pub struct ProvingKey {
    pub p_g1: Vec<G1>,
}

/// The verifying key: `C = [k a]_2`, one element per commitment, and `[a]_2`.
pub struct VerifyingKey {
    pub c_g2: Vec<G2>,
    pub a_g2: G2,
}

/// A proof: one G1 element.
pub struct Proof {
    pub pi_g1: G1,
}

/// The verifying key made ready for pairing: `C` and `-[a]_2`.
pub struct PreparedVerifyingKey {
    pub c_g2: Vec<G2>,
    pub neg_a_g2: G2,
}

impl ProvingKey {
    /// The bytes `write` produces.
    pub open spec fn encoding(&self) -> Seq<u8> {
        groups_encoding(self.p_g1@)
    }

    /// Every point decodes (as any point built by the group operations does).
    pub open spec fn valid(&self) -> bool {
        forall|i: int| 0 <= i < self.p_g1@.len() ==> g1_decodes(#[trigger] self.p_g1@[i]@, false)
    }

    /// Structural equality.
    pub fn eq(&self, other: &ProvingKey) -> (r: bool)
        ensures
            r == (g1_views(self.p_g1@) == g1_views(other.p_g1@)),
    {
        g1_vec_eq(&self.p_g1, &other.p_g1)
    }

    /// Appends the encoding: the vector `P`.
    pub fn write(&self, out: &mut Vec<u8>)
        ensures
            final(out)@ == old(out)@ + self.encoding(),
    {
        write_groups_uncompressed(out, self.p_g1.as_slice());
    }

    /// What reading `input` may give: a key whose points are the
    /// length-prefixed run of encodings at the start of `input`, present
    /// exactly when all of them decode.
    pub open spec fn read_post(input: Seq<u8>, r: Result<ProvingKey, IoError>) -> bool {
        &&& (r is Ok) == (8 <= input.len() && read_groups_ok::<G1>(input, 8, from_be_u64(input.subrange(0, 8)) as nat, false, true))
        &&& r matches Ok(y) ==> {
            &&& y.p_g1@.len() == from_be_u64(input.subrange(0, 8))
            &&& forall|i: int| 0 <= i < y.p_g1@.len() ==> (#[trigger] y.p_g1@[i])@ == input.subrange(8 + i * 96, 8 + i * 96 + 96)
        }
    }

    /// Reads a key written by `write` from the start of `input`, without
    /// subgroup checks and allowing the identity.
    pub fn read(input: &[u8]) -> (r: Result<ProvingKey, IoError>)
        ensures
            ProvingKey::read_post(input@, r),
    {
        match read_groups_uncompressed::<G1>(input, 0, false, true) {
            Ok((p_g1, _)) => Ok(ProvingKey { p_g1 }),
            Err(e) => Err(e),
        }
    }
}

impl VerifyingKey {
    /// The bytes `write` produces.
    pub open spec fn encoding(&self) -> Seq<u8> {
        groups_encoding(self.c_g2@) + self.a_g2@
    }

    /// Every point decodes (as any point built by the group operations does).
    pub open spec fn valid(&self) -> bool {
        &&& forall|i: int| 0 <= i < self.c_g2@.len() ==> g2_decodes(#[trigger] self.c_g2@[i]@, false)
        &&& g2_decodes(self.a_g2@, false)
    }

    /// Structural equality.
    pub fn eq(&self, other: &VerifyingKey) -> (r: bool)
        ensures
            r == (self.a_g2@ == other.a_g2@ && g2_views(self.c_g2@) == g2_views(other.c_g2@)),
    {
        g2_eq(&self.a_g2, &other.a_g2) && g2_vec_eq(&self.c_g2, &other.c_g2)
    }

    /// Appends the encoding: the vector `C`, then `[a]_2`.
    pub fn write(&self, out: &mut Vec<u8>)
        ensures
            final(out)@ == old(out)@ + self.encoding(),
    {
        write_groups_uncompressed(out, self.c_g2.as_slice());
        write_group_uncompressed(out, &self.a_g2);
        assert(final(out)@ =~= old(out)@ + self.encoding());
    }

    /// What reading `input` may give: a key whose points are the
    /// length-prefixed run of encodings at the start of `input` followed by
    /// one more, present exactly when all of them decode.
    pub open spec fn read_post(input: Seq<u8>, r: Result<VerifyingKey, IoError>) -> bool {
        let n = from_be_u64(input.subrange(0, 8)) as int;
        &&& (r is Ok) == (8 <= input.len()
            && read_groups_ok::<G2>(input, 8, n as nat, false, true)
            && read_group_ok::<G2>(input, 8 + n * 192, false, true))
        &&& r matches Ok(y) ==> {
            &&& y.c_g2@.len() == n
            &&& forall|i: int| 0 <= i < n ==> (#[trigger] y.c_g2@[i])@ == input.subrange(8 + i * 192, 8 + i * 192 + 192)
            &&& y.a_g2@ == input.subrange(8 + n * 192, 8 + n * 192 + 192)
        }
    }

    /// Reads a key written by `write` from the start of `input`, without
    /// subgroup checks and allowing the identity.
    pub fn read(input: &[u8]) -> (r: Result<VerifyingKey, IoError>)
        ensures
            VerifyingKey::read_post(input@, r),
    {
        match read_groups_uncompressed::<G2>(input, 0, false, true) {
            Ok((c_g2, end)) => match read_group_uncompressed::<G2>(input, end, false, true) {
                Ok((a_g2, _)) => Ok(VerifyingKey { c_g2, a_g2 }),
                Err(e) => Err(e),
            },
            Err(e) => Err(e),
        }
    }
}

impl Proof {
    /// The bytes `write` produces.
    pub open spec fn encoding(&self) -> Seq<u8> {
        self.pi_g1@
    }

    /// The point decodes (as any point built by the group operations does).
    pub open spec fn valid(&self) -> bool {
        g1_decodes(self.pi_g1@, false)
    }

    /// Equality of the proof element.
    pub fn eq(&self, other: &Proof) -> (r: bool)
        ensures
            r == (self.pi_g1@ == other.pi_g1@),
    {
        g1_eq(&self.pi_g1, &other.pi_g1)
    }

    /// Appends the encoding of the proof element.
    pub fn write(&self, out: &mut Vec<u8>)
        ensures
            final(out)@ == old(out)@ + self.encoding(),
    {
        write_group_uncompressed(out, &self.pi_g1);
    }

    /// What reading `input` may give: the point encoded at its start, present
    /// exactly when it decodes.
    pub open spec fn read_post(input: Seq<u8>, r: Result<Proof, IoError>) -> bool {
        &&& (r is Ok) == read_group_ok::<G1>(input, 0, false, true)
        &&& r matches Ok(y) ==> y.pi_g1@ == input.subrange(0, 96)
    }

    /// Reads a proof written by `write` from the start of `input`, without
    /// subgroup checks and allowing the identity.
    pub fn read(input: &[u8]) -> (r: Result<Proof, IoError>)
        ensures
            Proof::read_post(input@, r),
    {
        match read_group_uncompressed::<G1>(input, 0, false, true) {
            Ok((pi_g1, _)) => Ok(Proof { pi_g1 }),
            Err(e) => Err(e),
        }
    }
}

/// Sets up keys for `m` from the trapdoor `k` (one scalar per commitment)
/// and `a`: `P = k^T M` in G1, `C = [k a]_2` and `[a]_2`.
pub fn key_gen(m: &Matrix, k: &Vec<Fr>, a: &Fr) -> (r: (ProvingKey, VerifyingKey))
    requires
        m.wf(),
        k@.len() == m.num_cmts(),
    ensures
        r.0.p_g1@.len() == m.num_wits(),
        forall|j: int| 0 <= j < m.num_wits() ==> (#[trigger] r.0.p_g1@[j])@
            == column_acc(m.entries(), vals(k@), j, m.entries().len()),
        r.1.a_g2@ == g2_generator_mul(a.val()),
        r.1.c_g2@.len() == k@.len(),
        forall|i: int| 0 <= i < k@.len() ==> (#[trigger] r.1.c_g2@[i])@
            == g2_generator_mul(fmul(k@[i].val(), a.val())),
{
    let mut p_g1: Vec<G1> = Vec::new();
    let mut j: usize = 0;
    while j < m.num_wits
        invariant
            j <= m.num_wits(),
            p_g1@.len() == j,
            forall|t: int| 0 <= t < j ==> (#[trigger] p_g1@[t])@ == identity_encoding(96),
        decreases m.num_wits() - j,
    {
        p_g1.push(G1::identity());
        j = j + 1;
    }
    let ghost kv = vals(k@);
    let mut e: usize = 0;
    while e < m.nonzero_entries.len()
        invariant
            m.wf(),
            k@.len() == m.num_cmts(),
            kv == vals(k@),
            e <= m.entries().len(),
            p_g1@.len() == m.num_wits(),
            forall|t: int| 0 <= t < m.num_wits() ==> (#[trigger] p_g1@[t])@
                == column_acc(m.entries(), kv, t, e as nat),
        decreases m.entries().len() - e,
    {
        let (cmt_i, wit_i, val) = m.nonzero_entries[e];
        assert(m.entries()[e as int] == (cmt_i, wit_i, val));
        let add = val.mul(&k[cmt_i]);
        let cur = p_g1[wit_i].add(&add);
        p_g1.set(wit_i, cur);
        e = e + 1;
    }
    let a_g2 = G2::generator_mul(a);
    let mut c_g2: Vec<G2> = Vec::new();
    let mut i: usize = 0;
    while i < k.len()
        invariant
            i <= k@.len(),
            c_g2@.len() == i,
            forall|t: int| 0 <= t < i ==> (#[trigger] c_g2@[t])@ == g2_generator_mul(fmul(k@[t].val(), a.val())),
        decreases k@.len() - i,
    {
        let ka = k[i].mul(a);
        c_g2.push(G2::generator_mul(&ka));
        i = i + 1;
    }
    (ProvingKey { p_g1 }, VerifyingKey { c_g2, a_g2 })
}

/// Proves knowledge of `wits` for the commitments `M wits`: `pi = P . wits`.
pub fn prove(pk: &ProvingKey, wits: &Vec<Fr>) -> (r: Proof)
    requires
        wits@.len() == pk.p_g1@.len(),
    ensures
        r.pi_g1@ == g1_msm(g1_views(pk.p_g1@), vals(wits@), wits@.len()),
{
    Proof { pi_g1: multiexp(pk.p_g1.as_slice(), wits.as_slice()) }
}

impl PreparedVerifyingKey {
    /// Prepares `vk`: keeps `C` and negates `[a]_2`.
    pub fn from(vk: &VerifyingKey) -> (r: PreparedVerifyingKey)
        ensures
            g2_views(r.c_g2@) == g2_views(vk.c_g2@),
            r.neg_a_g2@ == g2_neg(vk.a_g2@),
    {
        let mut c_g2: Vec<G2> = Vec::new();
        let mut i: usize = 0;
        while i < vk.c_g2.len()
            invariant
                i <= vk.c_g2@.len(),
                c_g2@.len() == i,
                forall|t: int| 0 <= t < i ==> (#[trigger] c_g2@[t])@ == vk.c_g2@[t]@,
            decreases vk.c_g2@.len() - i,
        {
            c_g2.push(vk.c_g2[i]);
            i = i + 1;
        }
        assert(g2_views(c_g2@) =~= g2_views(vk.c_g2@));
        PreparedVerifyingKey { c_g2, neg_a_g2: vk.a_g2.neg() }
    }
}

/// Checks a proof against the commitments: that every point is on its
/// curve and in its subgroup, and that
/// `prod_i e(cmts[i], C[i]) * e(pi, -[a]_2)` is the identity of GT.
pub fn verify(pvk: &PreparedVerifyingKey, cmts: &Vec<G1>, pf: &Proof) -> (r: bool)
    requires
        cmts@.len() == pvk.c_g2@.len(),
    ensures
        r == (g1s_checked(cmts@.push(pf.pi_g1)) && g2s_checked(pvk.c_g2@.push(pvk.neg_a_g2))
            && pairing_product_is_one(
            g1_views(cmts@.push(pf.pi_g1)),
            g2_views(pvk.c_g2@.push(pvk.neg_a_g2)),
        )),
{
    let mut g1s: Vec<G1> = Vec::new();
    let mut g2s: Vec<G2> = Vec::new();
    let mut i: usize = 0;
    while i < cmts.len()
        invariant
            cmts@.len() == pvk.c_g2@.len(),
            i <= cmts@.len(),
            g1s@ == cmts@.subrange(0, i as int),
            g2s@ == pvk.c_g2@.subrange(0, i as int),
        decreases cmts@.len() - i,
    {
        g1s.push(cmts[i]);
        g2s.push(pvk.c_g2[i]);
        i = i + 1;
    }
    g1s.push(pf.pi_g1);
    g2s.push(pvk.neg_a_g2);
    assert(g1s@ =~= cmts@.push(pf.pi_g1));
    assert(g2s@ =~= pvk.c_g2@.push(pvk.neg_a_g2));
    if !all_g1_checked(&g1s) || !all_g2_checked(&g2s) {
        return false;
    }
    multi_pairing_is_one(&g1s, &g2s)
}

/// Reading back a written proving key gives its points again.
pub proof fn lemma_proving_key_round_trip(x: ProvingKey, r: Result<ProvingKey, IoError>)
    requires
        x.valid(),
        x.p_g1@.len() <= u64::MAX,
        ProvingKey::read_post(x.encoding(), r),
    ensures
        r matches Ok(y) && g1_views(y.p_g1@) == g1_views(x.p_g1@),
{
    let input = x.encoding();
    let n = x.p_g1@.len() as int;
    lemma_encodings_len(x.p_g1@);
    assert(input.subrange(0, 8) =~= be_u64(n as u64));
    lemma_be_u64_round_trip(n as u64);
    assert forall|i: int| 0 <= i < n implies #[trigger] read_group_ok::<G1>(input, 8 + i * 96, false, true) by {
        lemma_encodings_index(x.p_g1@, i);
        assert(8 + i * 96 + 96 <= 8 + n * 96) by (nonlinear_arith)
            requires
                i < n,
        ;
        assert(input.subrange(8 + i * 96, 8 + i * 96 + 96) =~= encodings(x.p_g1@).subrange(i * 96, i * 96 + 96));
    }
    assert(read_groups_ok::<G1>(input, 8, n as nat, false, true));
    let y = r->Ok_0;
    assert forall|i: int| 0 <= i < n implies #[trigger] g1_views(y.p_g1@)[i] == g1_views(x.p_g1@)[i] by {
        lemma_encodings_index(x.p_g1@, i);
        assert(input.subrange(8 + i * 96, 8 + i * 96 + 96) =~= encodings(x.p_g1@).subrange(i * 96, i * 96 + 96));
    }
    assert(g1_views(y.p_g1@) =~= g1_views(x.p_g1@));
}

/// Reading back a written verifying key gives its points again.
pub proof fn lemma_verifying_key_round_trip(x: VerifyingKey, r: Result<VerifyingKey, IoError>)
    requires
        x.valid(),
        x.c_g2@.len() <= u64::MAX,
        VerifyingKey::read_post(x.encoding(), r),
    ensures
        r matches Ok(y) && g2_views(y.c_g2@) == g2_views(x.c_g2@) && y.a_g2@ == x.a_g2@,
{
    let input = x.encoding();
    let n = x.c_g2@.len() as int;
    lemma_encodings_len(x.c_g2@);
    x.a_g2.lemma_len();
    assert(input.subrange(0, 8) =~= be_u64(n as u64));
    lemma_be_u64_round_trip(n as u64);
    assert forall|i: int| 0 <= i < n implies #[trigger] read_group_ok::<G2>(input, 8 + i * 192, false, true) by {
        lemma_encodings_index(x.c_g2@, i);
        assert(8 + i * 192 + 192 <= 8 + n * 192) by (nonlinear_arith)
            requires
                i < n,
        ;
        assert(input.subrange(8 + i * 192, 8 + i * 192 + 192) =~= encodings(x.c_g2@).subrange(i * 192, i * 192 + 192));
    }
    assert(input.subrange(8 + n * 192, 8 + n * 192 + 192) =~= x.a_g2@);
    assert(read_group_ok::<G2>(input, 8 + n * 192, false, true));
    let y = r->Ok_0;
    assert forall|i: int| 0 <= i < n implies #[trigger] g2_views(y.c_g2@)[i] == g2_views(x.c_g2@)[i] by {
        lemma_encodings_index(x.c_g2@, i);
        assert(input.subrange(8 + i * 192, 8 + i * 192 + 192) =~= encodings(x.c_g2@).subrange(i * 192, i * 192 + 192));
    }
    assert(g2_views(y.c_g2@) =~= g2_views(x.c_g2@));
}

/// Reading back a written proof gives its point again.
pub proof fn lemma_proof_round_trip(x: Proof, r: Result<Proof, IoError>)
    requires
        x.valid(),
        Proof::read_post(x.encoding(), r),
    ensures
        r matches Ok(y) && y.pi_g1@ == x.pi_g1@,
{
    x.pi_g1.lemma_len();
    assert(x.encoding().subrange(0, 96) =~= x.pi_g1@);
}

/// Elementwise equality of two vectors of G1 points.
pub fn g1_vec_eq(a: &Vec<G1>, b: &Vec<G1>) -> (r: bool)
    ensures
        r == (g1_views(a@) == g1_views(b@)),
{
    if a.len() != b.len() {
        proof {
            assert(g1_views(a@).len() != g1_views(b@).len());
        }
        return false;
    }
    let mut i: usize = 0;
    while i < a.len()
        invariant
            a@.len() == b@.len(),
            i <= a@.len(),
            forall|t: int| 0 <= t < i ==> a@[t]@ == b@[t]@,
        decreases a@.len() - i,
    {
        if !g1_eq(&a[i], &b[i]) {
            proof {
                assert(g1_views(a@)[i as int] != g1_views(b@)[i as int]);
            }
            return false;
        }
        i = i + 1;
    }
    assert(g1_views(a@) =~= g1_views(b@));
    true
}

/// Equality of two G1 points.
pub fn g1_eq(a: &G1, b: &G1) -> (r: bool)
    ensures
        r == (a@ == b@),
{
    let x = a.to_uncompressed();
    let y = b.to_uncompressed();
    let mut i: usize = 0;
    while i < 96
        invariant
            i <= 96,
            x@.len() == 96,
            y@.len() == 96,
            x@ == a@,
            y@ == b@,
            forall|t: int| 0 <= t < i ==> x@[t] == y@[t],
        decreases 96 - i,
    {
        if x[i] != y[i] {
            return false;
        }
        i = i + 1;
    }
    assert(x@ =~= y@);
    true
}

/// Equality of two G2 points.
pub fn g2_eq(a: &G2, b: &G2) -> (r: bool)
    ensures
        r == (a@ == b@),
{
    let x = a.to_uncompressed();
    let y = b.to_uncompressed();
    let mut i: usize = 0;
    while i < 192
        invariant
            i <= 192,
            x@.len() == 192,
            y@.len() == 192,
            x@ == a@,
            y@ == b@,
            forall|t: int| 0 <= t < i ==> x@[t] == y@[t],
        decreases 192 - i,
    {
        if x[i] != y[i] {
            return false;
        }
        i = i + 1;
    }
    assert(x@ =~= y@);
    true
}

/// Elementwise equality of two vectors of G2 points.
pub fn g2_vec_eq(a: &Vec<G2>, b: &Vec<G2>) -> (r: bool)
    ensures
        r == (g2_views(a@) == g2_views(b@)),
{
    if a.len() != b.len() {
        proof {
            assert(g2_views(a@).len() != g2_views(b@).len());
        }
        return false;
    }
    let mut i: usize = 0;
    while i < a.len()
        invariant
            a@.len() == b@.len(),
            i <= a@.len(),
            forall|t: int| 0 <= t < i ==> a@[t]@ == b@[t]@,
        decreases a@.len() - i,
    {
        if !g2_eq(&a[i], &b[i]) {
            proof {
                assert(g2_views(a@)[i as int] != g2_views(b@)[i as int]);
            }
            return false;
        }
        i = i + 1;
    }
    assert(g2_views(a@) =~= g2_views(b@));
    true
}

} // verus!
