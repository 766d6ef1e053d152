//! The Mirage verifier: transcript replay, the public-input accumulator and
//! one multi-pairing check.
use crate::curve::{all_g1_checked, all_g2_checked, g1_decodes, g1s_checked, g2_decodes, g2s_checked, g1_add, g1_mul, g1_views, g2_neg, g2_views, multi_pairing_is_one, pairing_product_is_one, G1, G2};
use crate::field::{repr_bytes, Fr};
use crate::mirage::{coin_value, draw_coin, PreparedVerifyingKey, Proof, TranscriptEntry, VerifyingKey, TRANSCRIPT_DOMAIN};
use crate::transcript::{append_message, new_transcript, transcript_domain, transcript_log};
use crate::VerificationError;
use vstd::prelude::*;

verus! {

/// Prepares a verifying key: keeps `alpha` and `IC` and negates `beta`,
/// `gamma` and the deltas in G2.
pub fn prepare_verifying_key(vk: &VerifyingKey) -> (r: PreparedVerifyingKey)
    ensures
        r.alpha_g1 == vk.alpha_g1,
        r.neg_beta_g2@ == g2_neg(vk.beta_g2@),
        r.neg_gamma_g2@ == g2_neg(vk.gamma_g2@),
        r.neg_deltas_g2@.len() == vk.deltas_g2@.len(),
        forall|i: int| 0 <= i < vk.deltas_g2@.len() ==> (#[trigger] r.neg_deltas_g2@[i])@ == g2_neg(vk.deltas_g2@[i]@),
        r.ic@ == vk.ic@,
        r.transcript@ == vk.transcript@,
{
    let mut neg_deltas_g2: Vec<G2> = Vec::new();
    let mut i: usize = 0;
    while i < vk.deltas_g2.len()
        invariant
            i <= vk.deltas_g2@.len(),
            neg_deltas_g2@.len() == i,
            forall|t: int| 0 <= t < i ==> (#[trigger] neg_deltas_g2@[t])@ == g2_neg(vk.deltas_g2@[t]@),
        decreases vk.deltas_g2@.len() - i,
    {
        neg_deltas_g2.push(vk.deltas_g2[i].neg());
        i = i + 1;
    }
    let mut ic: Vec<G1> = Vec::new();
    let mut j: usize = 0;
    while j < vk.ic.len()
        invariant
            j <= vk.ic@.len(),
            ic@ == vk.ic@.subrange(0, j as int),
        decreases vk.ic@.len() - j,
    {
        ic.push(vk.ic[j]);
        j = j + 1;
    }
    let mut transcript: Vec<TranscriptEntry> = Vec::new();
    let mut k: usize = 0;
    while k < vk.transcript.len()
        invariant
            k <= vk.transcript@.len(),
            transcript@ == vk.transcript@.subrange(0, k as int),
        decreases vk.transcript@.len() - k,
    {
        transcript.push(vk.transcript[k]);
        k = k + 1;
    }
    assert(ic@ =~= vk.ic@);
    assert(transcript@ =~= vk.transcript@);
    PreparedVerifyingKey {
        alpha_g1: vk.alpha_g1,
        neg_beta_g2: vk.beta_g2.neg(),
        neg_gamma_g2: vk.gamma_g2.neg(),
        neg_deltas_g2,
        ic,
        transcript,
    }
}

/// The verifier's state after replaying the first entries of the schedule:
/// the transcript log, the `IC` accumulator, the next `IC` slot, the public
/// inputs and block commitments consumed, and whether every access was in
/// range.
pub struct Replay {
    pub log: Seq<(Seq<char>, Seq<u8>)>,
    pub acc: Seq<u8>,
    pub ic_i: nat,
    pub inputs_i: nat,
    pub aux_i: nat,
    pub in_range: bool,
}

/// Replays the first `n` schedule entries.
pub open spec fn replay(pvk: PreparedVerifyingKey, proof: Proof, inputs: Seq<Fr>, n: nat) -> Replay
    decreases n,
{
    if n == 0 {
        Replay {
            log: seq![("input"@, repr_bytes(1))],
            acc: pvk.ic@[0]@,
            ic_i: 1,
            inputs_i: 0,
            aux_i: 0,
            in_range: true,
        }
    } else {
        let p = replay(pvk, proof, inputs, (n - 1) as nat);
        if !p.in_range {
            p
        } else {
            match pvk.transcript@[n - 1] {
                TranscriptEntry::Coin => {
                    if p.ic_i >= pvk.ic@.len() {
                        Replay { in_range: false, ..p }
                    } else {
                        let coin = coin_value(TRANSCRIPT_DOMAIN@, p.log);
                        Replay {
                            log: p.log.push(("input"@, repr_bytes(coin))),
                            acc: g1_add(p.acc, g1_mul(pvk.ic@[p.ic_i as int]@, coin)),
                            ic_i: p.ic_i + 1,
                            ..p
                        }
                    }
                },
                TranscriptEntry::PublicInput => {
                    if p.ic_i >= pvk.ic@.len() || p.inputs_i >= inputs.len() {
                        Replay { in_range: false, ..p }
                    } else {
                        let x = inputs[p.inputs_i as int].val();
                        Replay {
                            log: p.log.push(("input"@, repr_bytes(x))),
                            acc: g1_add(p.acc, g1_mul(pvk.ic@[p.ic_i as int]@, x)),
                            ic_i: p.ic_i + 1,
                            inputs_i: p.inputs_i + 1,
                            ..p
                        }
                    }
                },
                TranscriptEntry::AuxCommit => {
                    if p.aux_i >= proof.ds@.len() {
                        Replay { in_range: false, ..p }
                    } else {
                        Replay {
                            log: p.log.push(("aux_commit"@, proof.ds@[p.aux_i as int]@)),
                            aux_i: p.aux_i + 1,
                            ..p
                        }
                    }
                },
            }
        }
    }
}

/// Whether the key's shape fits the proof after the replay: every access in
/// range, every `IC` slot, every public input and every commitment used,
/// and one delta per commitment plus the final one.
pub open spec fn shape_ok(pvk: PreparedVerifyingKey, proof: Proof, inputs: Seq<Fr>) -> bool {
    let r = replay(pvk, proof, inputs, pvk.transcript@.len());
    &&& pvk.ic@.len() > 0
    &&& r.in_range
    &&& r.ic_i == pvk.ic@.len()
    &&& r.inputs_i == inputs.len()
    &&& r.aux_i == proof.ds@.len()
    &&& pvk.neg_deltas_g2@.len() == proof.ds@.len() + 1
}

/// The G1 side of the pairing check: `A`, the accumulator, `C`, the block
/// commitments, and `alpha`.
pub open spec fn check_g1s(pvk: PreparedVerifyingKey, proof: Proof, acc: Seq<u8>) -> Seq<Seq<u8>> {
    seq![proof.a@, acc, proof.c@] + g1_views(proof.ds@) + seq![pvk.alpha_g1@]
}

/// The G2 side of the pairing check: `B`, `-gamma`, `-delta_k`, `-delta_i`
/// for each block, and `-beta`.
pub open spec fn check_g2s(pvk: PreparedVerifyingKey, proof: Proof) -> Seq<Seq<u8>> {
    let k = pvk.neg_deltas_g2@.len() - 1;
    seq![proof.b@, pvk.neg_gamma_g2@, pvk.neg_deltas_g2@[k]@]
        + g2_views(pvk.neg_deltas_g2@.subrange(0, proof.ds@.len() as int)) + seq![pvk.neg_beta_g2@]
}

/// Every encoding decodes as a G1 point on the curve and in its subgroup.
pub open spec fn g1_encodings_checked(s: Seq<Seq<u8>>) -> bool {
    forall|i: int| 0 <= i < s.len() ==> g1_decodes(#[trigger] s[i], true)
}

/// Every encoding decodes as a G2 point on the curve and in its subgroup.
pub open spec fn g2_encodings_checked(s: Seq<Seq<u8>>) -> bool {
    forall|i: int| 0 <= i < s.len() ==> g2_decodes(#[trigger] s[i], true)
}

/// Verifies a proof against the public inputs: replays the transcript,
/// accumulates `IC`, checks that every point of the pairing check is on its
/// curve and in its subgroup, and checks
/// `e(A, B) e(acc, -gamma) e(C, -delta_k) prod_i e(D_i, -delta_i) = e(alpha, beta)`.
pub fn verify_proof(pvk: &PreparedVerifyingKey, proof: &Proof, public_inputs: &Vec<Fr>) -> (r: Result<(), VerificationError>)
    ensures
        !shape_ok(*pvk, *proof, public_inputs@) <==> r == Err::<(), VerificationError>(VerificationError::InvalidVerifyingKey),
        shape_ok(*pvk, *proof, public_inputs@) ==> (r is Ok <==> ({
            let g1s = check_g1s(*pvk, *proof, replay(*pvk, *proof, public_inputs@, pvk.transcript@.len()).acc);
            let g2s = check_g2s(*pvk, *proof);
            g1_encodings_checked(g1s) && g2_encodings_checked(g2s) && pairing_product_is_one(g1s, g2s)
        })),
        r is Err ==> r == Err::<(), VerificationError>(VerificationError::InvalidVerifyingKey)
            || r == Err::<(), VerificationError>(VerificationError::InvalidProof),
{
    proof {
        reveal_strlit("input");
        reveal_strlit("aux_commit");
        reveal_strlit("mirage_aozdemir_1");
    }
    if pvk.ic.len() == 0 {
        return Err(VerificationError::InvalidVerifyingKey);
    }
    let mut transcript = new_transcript(TRANSCRIPT_DOMAIN);
    let mut acc = pvk.ic[0];
    let one = Fr::one().to_repr();
    append_message(&mut transcript, "input", &one);
    let mut public_inputs_i: usize = 0;
    let mut aux_commits_i: usize = 0;
    let mut i: usize = 1;
    let mut t: usize = 0;
    assert(transcript_log(transcript) =~= replay(*pvk, *proof, public_inputs@, 0).log);
    while t < pvk.transcript.len()
        invariant
            pvk.ic@.len() > 0,
            t <= pvk.transcript@.len(),
            transcript_domain(transcript) == TRANSCRIPT_DOMAIN@,
            ({
                let p = replay(*pvk, *proof, public_inputs@, t as nat);
                &&& p.in_range
                &&& transcript_log(transcript) == p.log
                &&& acc@ == p.acc
                &&& i == p.ic_i
                &&& public_inputs_i == p.inputs_i
                &&& aux_commits_i == p.aux_i
            }),
        decreases pvk.transcript@.len() - t,
    {
        let ghost p = replay(*pvk, *proof, public_inputs@, t as nat);
        match pvk.transcript[t] {
            TranscriptEntry::Coin => {
                if i >= pvk.ic.len() {
                    proof {
                        lemma_replay_stays_out(*pvk, *proof, public_inputs@, (t + 1) as nat, pvk.transcript@.len());
                    }
                    return Err(VerificationError::InvalidVerifyingKey);
                }
                let coin = draw_coin(&transcript);
                let repr = coin.to_repr();
                append_message(&mut transcript, "input", &repr);
                let term = pvk.ic[i].mul(&coin);
                acc = acc.add(&term);
                i = i + 1;
            },
            TranscriptEntry::PublicInput => {
                if i >= pvk.ic.len() || public_inputs_i >= public_inputs.len() {
                    proof {
                        lemma_replay_stays_out(*pvk, *proof, public_inputs@, (t + 1) as nat, pvk.transcript@.len());
                    }
                    return Err(VerificationError::InvalidVerifyingKey);
                }
                let x = public_inputs[public_inputs_i];
                let term = pvk.ic[i].mul(&x);
                acc = acc.add(&term);
                let repr = x.to_repr();
                append_message(&mut transcript, "input", &repr);
                public_inputs_i = public_inputs_i + 1;
                i = i + 1;
            },
            TranscriptEntry::AuxCommit => {
                if aux_commits_i >= proof.ds.len() {
                    proof {
                        lemma_replay_stays_out(*pvk, *proof, public_inputs@, (t + 1) as nat, pvk.transcript@.len());
                    }
                    return Err(VerificationError::InvalidVerifyingKey);
                }
                let d = proof.ds[aux_commits_i].to_uncompressed();
                append_message(&mut transcript, "aux_commit", &d);
                aux_commits_i = aux_commits_i + 1;
            },
        }
        t = t + 1;
    }
    if i != pvk.ic.len() || public_inputs_i != public_inputs.len() || aux_commits_i != proof.ds.len()
        || pvk.neg_deltas_g2.len() == 0
        || pvk.neg_deltas_g2.len() - 1 != proof.ds.len() {
        return Err(VerificationError::InvalidVerifyingKey);
    }
    let last = pvk.neg_deltas_g2.len() - 1;
    let mut g1s: Vec<G1> = Vec::new();
    let mut g2s: Vec<G2> = Vec::new();
    g1s.push(proof.a);
    g2s.push(proof.b);
    g1s.push(acc);
    g2s.push(pvk.neg_gamma_g2);
    g1s.push(proof.c);
    g2s.push(pvk.neg_deltas_g2[last]);
    let mut d: usize = 0;
    assert(g1s@ =~= seq![proof.a, acc, proof.c] + proof.ds@.subrange(0, 0));
    assert(g2s@ =~= seq![proof.b, pvk.neg_gamma_g2, pvk.neg_deltas_g2@[last as int]]
        + pvk.neg_deltas_g2@.subrange(0, 0));
    while d < proof.ds.len()
        invariant
            d <= proof.ds@.len(),
            pvk.neg_deltas_g2@.len() == proof.ds@.len() + 1,
            g1s@ == seq![proof.a, acc, proof.c] + proof.ds@.subrange(0, d as int),
            g2s@ == seq![proof.b, pvk.neg_gamma_g2, pvk.neg_deltas_g2@[last as int]]
                + pvk.neg_deltas_g2@.subrange(0, d as int),
            last == pvk.neg_deltas_g2@.len() - 1,
        decreases proof.ds@.len() - d,
    {
        g1s.push(proof.ds[d]);
        g2s.push(pvk.neg_deltas_g2[d]);
        assert(g1s@ =~= seq![proof.a, acc, proof.c] + proof.ds@.subrange(0, (d + 1) as int));
        assert(g2s@ =~= seq![proof.b, pvk.neg_gamma_g2, pvk.neg_deltas_g2@[last as int]]
            + pvk.neg_deltas_g2@.subrange(0, (d + 1) as int));
        d = d + 1;
    }
    g1s.push(pvk.alpha_g1);
    g2s.push(pvk.neg_beta_g2);
    assert(proof.ds@.subrange(0, proof.ds@.len() as int) =~= proof.ds@);
    assert(g1_views(g1s@) =~= check_g1s(*pvk, *proof, acc@));
    assert(g2_views(g2s@) =~= check_g2s(*pvk, *proof));
    let ok1 = all_g1_checked(&g1s);
    let ok2 = all_g2_checked(&g2s);
    proof {
        let v1 = check_g1s(*pvk, *proof, acc@);
        let v2 = check_g2s(*pvk, *proof);
        assert(g1s_checked(g1s@) == g1_encodings_checked(v1)) by {
            assert(g1_views(g1s@).len() == g1s@.len());
            assert forall|t: int| 0 <= t < g1s@.len() implies g1s@[t]@ == v1[t] by {
                assert(g1_views(g1s@)[t] == g1s@[t]@);
            }
            if g1s_checked(g1s@) {
                assert forall|t: int| 0 <= t < v1.len() implies g1_decodes(#[trigger] v1[t], true) by {
                    assert(g1s@[t]@ == v1[t]);
                    assert(g1_decodes(g1s@[t]@, true));
                }
            }
            if g1_encodings_checked(v1) {
                assert forall|t: int| 0 <= t < g1s@.len() implies g1_decodes(#[trigger] g1s@[t]@, true) by {
                    assert(g1s@[t]@ == v1[t]);
                    assert(g1_decodes(v1[t], true));
                }
            }
        }
        assert(g2s_checked(g2s@) == g2_encodings_checked(v2)) by {
            assert(g2_views(g2s@).len() == g2s@.len());
            assert forall|t: int| 0 <= t < g2s@.len() implies g2s@[t]@ == v2[t] by {
                assert(g2_views(g2s@)[t] == g2s@[t]@);
            }
            if g2s_checked(g2s@) {
                assert forall|t: int| 0 <= t < v2.len() implies g2_decodes(#[trigger] v2[t], true) by {
                    assert(g2s@[t]@ == v2[t]);
                    assert(g2_decodes(g2s@[t]@, true));
                }
            }
            if g2_encodings_checked(v2) {
                assert forall|t: int| 0 <= t < g2s@.len() implies g2_decodes(#[trigger] g2s@[t]@, true) by {
                    assert(g2s@[t]@ == v2[t]);
                    assert(g2_decodes(v2[t], true));
                }
            }
        }
    }
    if !ok1 || !ok2 {
        return Err(VerificationError::InvalidProof);
    }
    if multi_pairing_is_one(&g1s, &g2s) {
        Ok(())
    } else {
        Err(VerificationError::InvalidProof)
    }
}

/// Once an access falls out of range, the replay stays out of range.
proof fn lemma_replay_stays_out(pvk: PreparedVerifyingKey, proof: Proof, inputs: Seq<Fr>, n: nat, m: nat)
    requires
        n <= m,
        !replay(pvk, proof, inputs, n).in_range,
    ensures
        !replay(pvk, proof, inputs, m).in_range,
    decreases m - n,
{
    if n < m {
        lemma_replay_stays_out(pvk, proof, inputs, n + 1, m);
    }
}

} // verus!
