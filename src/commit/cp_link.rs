//! cp_link: a KW15 proof that pairs of Pedersen commitments under two keys
//! open to the same vectors.
//!
//! Index: a key `K` for vectors of length `n` and keys `J_i`. Instance: pairs
//! `(C_i, D_i)`. Witness: vectors `X_i` and blinds `r_i1`, `r_i2`. Relation:
//! `C_i = Commit(K, X_i, r_i1)` and `D_i = Commit(J_i, X_i, r_i2)`.
use crate::commit::CommitKey;
use crate::curve::{g1s_checked, g2_decodes, g2s_checked, g2_neg, g1_msm, g1_views, g2_views, pairing_product_is_one, G1};
use crate::field::{vals, Fr};
use crate::kw15;
use crate::kw15::column_acc;
use vstd::prelude::*;

verus! {

/// The matrix entries for vector `vi` with key `jk`: row `2 vi` holds `K` on
/// the vector's columns and `K`'s blinding base on its first blind; row
/// `2 vi + 1` holds `J` on the same columns and `J`'s blinding base on its
/// second blind. The witness block of vector `vi` is `X_vi || r_1 || r_2`.
pub open spec fn block_entries(k: CommitKey, jk: CommitKey, vi: int, len: int) -> Seq<(usize, usize, G1)> {
    let w = (len + 2) * vi;
    Seq::new(
        (2 * len + 2) as nat,
        |t: int|
            if t < 2 * len {
                if t % 2 == 0 {
                    ((2 * vi) as usize, (w + t / 2) as usize, k.generators@[t / 2])
                } else {
                    ((2 * vi + 1) as usize, (w + t / 2) as usize, jk.generators@[t / 2])
                }
            } else if t == 2 * len {
                ((2 * vi) as usize, (w + len) as usize, k.blind_generator)
            } else {
                ((2 * vi + 1) as usize, (w + len + 1) as usize, jk.blind_generator)
            },
    )
}

/// The entries for the first `n` vectors.
pub open spec fn link_entries(k: CommitKey, js: Seq<CommitKey>, n: nat) -> Seq<(usize, usize, G1)>
    decreases n,
{
    if n == 0 {
        Seq::empty()
    } else {
        link_entries(k, js, (n - 1) as nat) + block_entries(k, js[n - 1], n - 1, k.generators@.len() as int)
    }
}

/// The witness `X_0 || r_10 || r_20 || X_1 || ...` for the first `n` vectors.
pub open spec fn link_witness(vectors: Seq<Seq<int>>, r1: Seq<int>, r2: Seq<int>, n: nat) -> Seq<int>
    decreases n,
{
    if n == 0 {
        Seq::empty()
    } else {
        let i = n - 1;
        link_witness(vectors, r1, r2, (n - 1) as nat) + vectors[i] + seq![r1[i], r2[i]]
    }
}

/// The commitments interleaved: `C_0, D_0, C_1, D_1, ...`.
pub open spec fn interleave(a: Seq<G1>, b: Seq<G1>) -> Seq<G1> {
    Seq::new(2 * a.len(), |t: int| if t % 2 == 0 { a[t / 2] } else { b[t / 2] })
}

/// The linking matrix for `k` and the keys `js`.
pub fn link_matrix(k: &CommitKey, js: &Vec<CommitKey>) -> (m: kw15::Matrix)
    requires
        (k.generators@.len() + 2) * js@.len() <= usize::MAX,
        forall|i: int| 0 <= i < js@.len() ==> (#[trigger] js@[i]).generators@.len() >= k.generators@.len(),
    ensures
        m.wf(),
        m.num_cmts() == 2 * js@.len(),
        m.num_wits() == (k.generators@.len() + 2) * js@.len(),
        m.entries() == link_entries(*k, js@, js@.len()),
{
    let len = k.generators.len();
    if js.len() == 0 {
        return kw15::Matrix::new(0, 0);
    }
    proof {
        assert(len + 2 <= (len + 2) * js@.len()) by (nonlinear_arith)
            requires
                js@.len() >= 1,
        ;
        assert(2 * js@.len() <= (len + 2) * js@.len()) by (nonlinear_arith);
    }
    let n_commits = 2 * js.len();
    let n_wits = (len + 2) * js.len();
    let mut matrix = kw15::Matrix::new(n_commits, n_wits);
    let mut vec_i: usize = 0;
    while vec_i < js.len()
        invariant
            len == k.generators@.len(),
            n_commits == 2 * js@.len(),
            n_wits == (len + 2) * js@.len(),
            (len + 2) * js@.len() <= usize::MAX,
            len + 2 <= usize::MAX,
            forall|i: int| 0 <= i < js@.len() ==> (#[trigger] js@[i]).generators@.len() >= len,
            vec_i <= js@.len(),
            matrix.wf(),
            matrix.num_cmts() == n_commits,
            matrix.num_wits() == n_wits,
            matrix.entries() == link_entries(*k, js@, vec_i as nat),
        decreases js@.len() - vec_i,
    {
        proof {
            assert((len + 2) * (vec_i + 1) <= (len + 2) * js@.len()) by (nonlinear_arith)
                requires
                    vec_i < js@.len(),
            ;
            assert((len + 2) * (vec_i + 1) == (len + 2) * vec_i + len + 2) by (nonlinear_arith);
        }
        let cmt_i_1 = 2 * vec_i;
        let cmt_i_2 = 2 * vec_i + 1;
        let wit_i_start = (len + 2) * vec_i;
        let rand_i_1 = (len + 2) * vec_i + len;
        let rand_i_2 = (len + 2) * vec_i + len + 1;
        let ghost before = matrix.entries();
        let ghost blk = block_entries(*k, js@[vec_i as int], vec_i as int, len as int);
        let mut j: usize = 0;
        while j < len
            invariant
                len == k.generators@.len(),
                js@[vec_i as int].generators@.len() >= len,
                vec_i < js@.len(),
                n_commits == 2 * js@.len(),
                n_wits == (len + 2) * js@.len(),
                (len + 2) * (vec_i + 1) <= n_wits,
                wit_i_start == (len + 2) * vec_i,
                cmt_i_1 == 2 * vec_i,
                cmt_i_2 == 2 * vec_i + 1,
                j <= len,
                matrix.wf(),
                matrix.num_cmts() == n_commits,
                matrix.num_wits() == n_wits,
                blk == block_entries(*k, js@[vec_i as int], vec_i as int, len as int),
                matrix.entries() == before + blk.subrange(0, 2 * j as int),
            decreases len - j,
        {
            assert(wit_i_start + j < (len + 2) * (vec_i + 1)) by (nonlinear_arith)
                requires
                    wit_i_start == (len + 2) * vec_i,
                    j < len,
            ;
            let wit_i = wit_i_start + j;
            matrix.add_entry(cmt_i_1, wit_i, k.generators[j]);
            matrix.add_entry(cmt_i_2, wit_i, js[vec_i].generators[j]);
            proof {
                assert((2 * j) as int % 2 == 0);
                assert(((2 * j) as int) / 2 == j);
                assert(((2 * j + 1) as int) % 2 == 1);
                assert(((2 * j + 1) as int) / 2 == j);
                assert(matrix.entries() =~= before + blk.subrange(0, 2 * (j + 1) as int));
            }
            j = j + 1;
        }
        matrix.add_entry(cmt_i_1, rand_i_1, k.blind_generator);
        matrix.add_entry(cmt_i_2, rand_i_2, js[vec_i].blind_generator);
        proof {
            assert(matrix.entries() =~= before + blk);
        }
        vec_i = vec_i + 1;
    }
    matrix
}

/// Sets up cp_link keys for `k` and the keys `js` from the KW15 trapdoor
/// (`trapdoor` has one scalar per commitment, `2 js.len()` in all, and `a`).
pub fn key_gen(k: &CommitKey, js: &Vec<CommitKey>, trapdoor: &Vec<Fr>, a: &Fr) -> (r: (
    kw15::ProvingKey,
    kw15::VerifyingKey,
))
    requires
        (k.generators@.len() + 2) * js@.len() <= usize::MAX,
        forall|i: int| 0 <= i < js@.len() ==> (#[trigger] js@[i]).generators@.len() >= k.generators@.len(),
        trapdoor@.len() == 2 * js@.len(),
    ensures
        r.0.p_g1@.len() == (k.generators@.len() + 2) * js@.len(),
        forall|j: int| 0 <= j < r.0.p_g1@.len() ==> (#[trigger] r.0.p_g1@[j])@
            == column_acc(link_entries(*k, js@, js@.len()), vals(trapdoor@), j,
                link_entries(*k, js@, js@.len()).len()),
        r.1.c_g2@.len() == 2 * js@.len(),
        forall|i: int| 0 <= i < 2 * js@.len() ==> (#[trigger] r.1.c_g2@[i])@
            == crate::curve::g2_generator_mul(crate::field::fmul(trapdoor@[i].val(), a.val())),
        r.1.a_g2@ == crate::curve::g2_generator_mul(a.val()),
{
    let matrix = link_matrix(k, js);
    kw15::key_gen(&matrix, trapdoor, a)
}

/// Proves that the vectors open both commitments of each pair: a KW15 proof
/// for the witness `X_0 || r_10 || r_20 || X_1 || ...`.
pub fn prove(pk: &kw15::ProvingKey, vectors: Vec<Vec<Fr>>, rands_1: Vec<Fr>, rands_2: Vec<Fr>) -> (r: kw15::Proof)
    requires
        vectors@.len() == rands_1@.len(),
        vectors@.len() == rands_2@.len(),
        link_witness(vectors@.map_values(|v: Vec<Fr>| vals(v@)), vals(rands_1@), vals(rands_2@), vectors@.len()).len()
            == pk.p_g1@.len(),
    ensures
        r.pi_g1@ == g1_msm(
            g1_views(pk.p_g1@),
            link_witness(vectors@.map_values(|v: Vec<Fr>| vals(v@)), vals(rands_1@), vals(rands_2@), vectors@.len()),
            pk.p_g1@.len(),
        ),
{
    let ghost vs = vectors@.map_values(|v: Vec<Fr>| vals(v@));
    let ghost r1 = vals(rands_1@);
    let ghost r2 = vals(rands_2@);
    let mut wit: Vec<Fr> = Vec::new();
    let mut i: usize = 0;
    while i < vectors.len()
        invariant
            vectors@.len() == rands_1@.len(),
            vectors@.len() == rands_2@.len(),
            vs == vectors@.map_values(|v: Vec<Fr>| vals(v@)),
            r1 == vals(rands_1@),
            r2 == vals(rands_2@),
            i <= vectors@.len(),
            vals(wit@) == link_witness(vs, r1, r2, i as nat),
        decreases vectors@.len() - i,
    {
        let v = &vectors[i];
        let ghost before = vals(wit@);
        let mut t: usize = 0;
        while t < v.len()
            invariant
                t <= v@.len(),
                vals(wit@) == before + vals(v@).subrange(0, t as int),
            decreases v@.len() - t,
        {
            let ghost prev = wit@;
            wit.push(v[t]);
            assert(wit@ == prev.push(v@[t as int]));
            assert(vals(wit@) =~= vals(prev).push(v@[t as int].val()));
            assert(vals(wit@) =~= before + vals(v@).subrange(0, (t + 1) as int));
            t = t + 1;
        }
        let ghost prev = wit@;
        wit.push(rands_1[i]);
        wit.push(rands_2[i]);
        assert(wit@ == prev.push(rands_1@[i as int]).push(rands_2@[i as int]));
        assert(vals(wit@) =~= vals(prev) + seq![r1[i as int], r2[i as int]]);
        assert(vals(v@).subrange(0, v@.len() as int) =~= vals(v@));
        assert(vs[i as int] == vals(v@));
        assert(vals(wit@) =~= link_witness(vs, r1, r2, (i + 1) as nat));
        i = i + 1;
    }
    kw15::prove(pk, &wit)
}

/// Checks a cp_link proof for the pairs `(cmts_1[i], cmts_2[i])`.
pub fn verify(vk: &kw15::VerifyingKey, cmts_1: &Vec<G1>, cmts_2: &Vec<G1>, pf: &kw15::Proof) -> (r: bool)
    requires
        cmts_1@.len() == cmts_2@.len(),
        2 * cmts_1@.len() == vk.c_g2@.len(),
    ensures
        r == (g1s_checked(interleave(cmts_1@, cmts_2@).push(pf.pi_g1))
            && g2_decodes(g2_neg(vk.a_g2@), true)
            && (forall|i: int| 0 <= i < vk.c_g2@.len() ==> g2_decodes(#[trigger] vk.c_g2@[i]@, true))
            && pairing_product_is_one(
            g1_views(interleave(cmts_1@, cmts_2@).push(pf.pi_g1)),
            g2_views(vk.c_g2@).push(g2_neg(vk.a_g2@)),
        )),
{
    let mut cmts: Vec<G1> = Vec::new();
    let mut i: usize = 0;
    while i < cmts_1.len()
        invariant
            cmts_1@.len() == cmts_2@.len(),
            i <= cmts_1@.len(),
            cmts@ == interleave(cmts_1@.subrange(0, i as int), cmts_2@.subrange(0, i as int)),
        decreases cmts_1@.len() - i,
    {
        cmts.push(cmts_1[i]);
        cmts.push(cmts_2[i]);
        assert(cmts@ =~= interleave(cmts_1@.subrange(0, (i + 1) as int), cmts_2@.subrange(0, (i + 1) as int)));
        i = i + 1;
    }
    assert(cmts_1@.subrange(0, cmts_1@.len() as int) =~= cmts_1@);
    assert(cmts_2@.subrange(0, cmts_2@.len() as int) =~= cmts_2@);
    let pvk = kw15::PreparedVerifyingKey::from(vk);
    assert(pvk.c_g2@.len() == g2_views(pvk.c_g2@).len());
    assert(vk.c_g2@.len() == g2_views(vk.c_g2@).len());
    let r = kw15::verify(&pvk, &cmts, pf);
    assert(g2_views(pvk.c_g2@.push(pvk.neg_a_g2)) =~= g2_views(pvk.c_g2@).push(pvk.neg_a_g2@));
    assert(g2s_checked(pvk.c_g2@.push(pvk.neg_a_g2)) == (g2_decodes(g2_neg(vk.a_g2@), true)
        && (forall|i: int| 0 <= i < vk.c_g2@.len() ==> g2_decodes(#[trigger] vk.c_g2@[i]@, true)))) by {
        assert(g2_views(pvk.c_g2@) == g2_views(vk.c_g2@));
        if g2s_checked(pvk.c_g2@.push(pvk.neg_a_g2)) {
            assert forall|i: int| 0 <= i < vk.c_g2@.len() implies g2_decodes(#[trigger] vk.c_g2@[i]@, true) by {
                assert(pvk.c_g2@.push(pvk.neg_a_g2)[i]@ == g2_views(pvk.c_g2@)[i]);
            }
            assert(pvk.c_g2@.push(pvk.neg_a_g2)[vk.c_g2@.len() as int] == pvk.neg_a_g2);
        }
        if g2_decodes(g2_neg(vk.a_g2@), true) && (forall|i: int| 0 <= i < vk.c_g2@.len() ==> g2_decodes(#[trigger] vk.c_g2@[i]@, true)) {
            assert forall|i: int| 0 <= i < pvk.c_g2@.push(pvk.neg_a_g2).len() implies g2_decodes(#[trigger] pvk.c_g2@.push(pvk.neg_a_g2)[i]@, true) by {
                if i < vk.c_g2@.len() {
                    assert(pvk.c_g2@.push(pvk.neg_a_g2)[i]@ == g2_views(vk.c_g2@)[i]);
                }
            }
        }
    }
    r
}

} // verus!
