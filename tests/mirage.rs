use mirage::curve::{G1, G2};
use mirage::domain::Worker;
use mirage::field::Fr;
use mirage::mirage::generator::generate_parameters;
use mirage::mirage::prover::create_proof;
use mirage::mirage::verifying::{prepare_verifying_key, verify_proof};
use mirage::mirage::{CcCircuit, CcConstraintSystem, LinearCombination, Parameters, TranscriptEntry, Variable};
use mirage::{SynthesisError, VerificationError};

fn g1() -> G1 {
    G1::from_uncompressed(&bls12_381::G1Affine::generator().to_uncompressed(), true).unwrap()
}

fn g2() -> G2 {
    G2::from_uncompressed(&bls12_381::G2Affine::generator().to_uncompressed(), true).unwrap()
}

fn fr(v: u64) -> Fr {
    Fr::from_u64(v)
}

fn worker() -> Worker {
    Worker::new(1)
}

fn lc() -> LinearCombination {
    LinearCombination::zero()
}

fn setup<C: CcCircuit>(c: &C, deltas: Vec<Fr>) -> Parameters {
    generate_parameters(c, &worker(), &g1(), &g2(), &fr(48577), &fr(22580), &fr(53332), &deltas, &fr(3673)).unwrap()
}

fn bit(v: Option<bool>) -> Option<Fr> {
    v.map(|b| if b { Fr::one() } else { Fr::zero() })
}

struct XorDemo {
    a: Option<bool>,
    b: Option<bool>,
}

impl CcCircuit for XorDemo {
    fn synthesize<CS: CcConstraintSystem>(&self, cs: &mut CS) -> Result<(), SynthesisError> {
        let a_var = cs.alloc_aux(bit(self.a))?;
        cs.enforce(lc().add_var(CS::one()).sub_var(a_var), lc().add_var(a_var), lc())?;
        let b_var = cs.alloc_aux(bit(self.b))?;
        cs.enforce(lc().add_var(CS::one()).sub_var(b_var), lc().add_var(b_var), lc())?;
        let c_val = match (self.a, self.b) {
            (Some(a), Some(b)) => bit(Some(a ^ b)),
            _ => None,
        };
        let c_var = cs.alloc_input(c_val)?;
        cs.enforce(
            lc().add_var(a_var).add_var(a_var),
            lc().add_var(b_var),
            lc().add_var(a_var).add_var(b_var).sub_var(c_var),
        )?;
        Ok(())
    }

    fn num_aux_blocks(&self) -> usize {
        0
    }
}

#[test]
fn test_xordemo() {
    let params = setup(&XorDemo { a: None, b: None }, vec![fr(5481)]);
    // Constraints: three from the circuit and two pinning the inputs; the
    // domain has 8 points and the H query 7 elements.
    assert_eq!(7, params.h.len());
    // IC: the constant and the one public input.
    assert_eq!(2, params.vk.ic.len());
    // L: the two aux variables.
    assert_eq!(2, params.ls[0].len());
    // A: every variable.
    assert_eq!(4, params.a.len());
    assert!(params.vk.alpha_g1 == g1().mul(&fr(48577)));
    assert!(params.vk.beta_g1 == g1().mul(&fr(22580)));
    assert!(params.vk.beta_g2 == g2().mul(&fr(22580)));
    assert!(params.vk.gamma_g2 == g2().mul(&fr(53332)));
    assert!(params.vk.deltas_g1[0] == g1().mul(&fr(5481)));
    assert!(params.vk.deltas_g2[0] == g2().mul(&fr(5481)));
    assert_eq!(params.vk.transcript, vec![TranscriptEntry::PublicInput]);

    let pvk = prepare_verifying_key(&params.vk);
    assert!(pvk.neg_deltas_g2[0] == g2().mul(&fr(5481)).neg());
    assert!(pvk.neg_gamma_g2 == g2().mul(&fr(53332)).neg());

    let (proof, blocks) =
        create_proof(&XorDemo { a: Some(true), b: Some(false) }, &params, &worker(), fr(27134), fr(17146), vec![]).unwrap();
    assert_eq!(proof.ds.len(), 0);
    assert_eq!(blocks.len(), 0);
    assert!(verify_proof(&pvk, &proof, &vec![Fr::one()]).is_ok());
}

#[test]
fn flipped_public_input_is_rejected() {
    let params = setup(&XorDemo { a: None, b: None }, vec![fr(5481)]);
    let pvk = prepare_verifying_key(&params.vk);
    let (proof, _) =
        create_proof(&XorDemo { a: Some(true), b: Some(false) }, &params, &worker(), fr(27134), fr(17146), vec![]).unwrap();
    assert_eq!(verify_proof(&pvk, &proof, &vec![Fr::zero()]), Err(VerificationError::InvalidProof));
    assert_eq!(verify_proof(&pvk, &proof, &vec![]), Err(VerificationError::InvalidVerifyingKey));
}

#[test]
fn proofs_are_deterministic() {
    let params = setup(&XorDemo { a: None, b: None }, vec![fr(5481)]);
    let c = XorDemo { a: Some(false), b: Some(true) };
    let (first, _) = create_proof(&c, &params, &worker(), fr(27134), fr(17146), vec![]).unwrap();
    let (second, _) = create_proof(&c, &params, &worker(), fr(27134), fr(17146), vec![]).unwrap();
    assert!(first.a == second.a && first.b == second.b && first.c == second.c);
    let (other, _) = create_proof(&c, &params, &worker(), fr(27135), fr(17146), vec![]).unwrap();
    assert!(first.a != other.a);
}

#[test]
fn missing_assignment_is_reported() {
    let params = setup(&XorDemo { a: None, b: None }, vec![fr(5481)]);
    let r = create_proof(&XorDemo { a: None, b: Some(true) }, &params, &worker(), fr(1), fr(2), vec![]);
    assert_eq!(r.err(), Some(SynthesisError::AssignmentMissing));
}

#[test]
fn identity_delta_is_reported() {
    let mut params = setup(&XorDemo { a: None, b: None }, vec![fr(5481)]);
    params.vk.deltas_g1[0] = G1::identity();
    let r = create_proof(&XorDemo { a: Some(true), b: Some(true) }, &params, &worker(), fr(1), fr(2), vec![]);
    assert_eq!(r.err(), Some(SynthesisError::UnexpectedIdentity));
}

struct MultWithZeroCoeffs {
    a: Option<Fr>,
    b: Option<Fr>,
    c: Option<Fr>,
    one_var: bool,
}

impl CcCircuit for MultWithZeroCoeffs {
    fn synthesize<CS: CcConstraintSystem>(&self, cs: &mut CS) -> Result<(), SynthesisError> {
        let a = cs.alloc_aux(self.a)?;
        let b = cs.alloc_aux(self.b)?;
        let c = cs.alloc_aux(self.c)?;
        let zero_on = if self.one_var { CS::one() } else { a };
        cs.enforce(lc().add_var(a), lc().add_term(zero_on, fr(0)).add_var(b), lc().add_var(c))?;
        Ok(())
    }

    fn num_aux_blocks(&self) -> usize {
        0
    }
}

fn zero_coeff_test(one_var: bool) {
    let m = MultWithZeroCoeffs { a: Some(fr(5)), b: Some(fr(6)), c: Some(fr(30)), one_var };
    let pk = setup(&m, vec![fr(5481)]);
    let (pf, _) = create_proof(&m, &pk, &worker(), fr(27134), fr(17146), vec![]).unwrap();
    let pvk = prepare_verifying_key(&pk.vk);
    verify_proof(&pvk, &pf, &vec![]).unwrap();
}

#[test]
fn zero_coeff_one_var() {
    zero_coeff_test(true);
}

#[test]
fn zero_coeff_non_one_var() {
    zero_coeff_test(false);
}

type Num = (Variable, Option<Fr>);

fn alloc_num<CS: CcConstraintSystem>(cs: &mut CS, v: Option<Fr>) -> Result<Num, SynthesisError> {
    Ok((cs.alloc_aux(v)?, v))
}

fn mul<CS: CcConstraintSystem>(cs: &mut CS, x: &Num, y: &Num) -> Result<Num, SynthesisError> {
    let v = match (x.1, y.1) {
        (Some(a), Some(b)) => Some(a.mul(&b)),
        _ => None,
    };
    let z = cs.alloc_aux(v)?;
    cs.enforce(lc().add_var(x.0), lc().add_var(y.0), lc().add_var(z))?;
    Ok((z, v))
}

struct Coin1 {
    a: Vec<Option<Fr>>,
    b: Vec<Option<Fr>>,
}

impl CcCircuit for Coin1 {
    fn synthesize<CS: CcConstraintSystem>(&self, cs: &mut CS) -> Result<(), SynthesisError> {
        let mut as_ = Vec::new();
        for a in &self.a {
            as_.push(alloc_num(cs, *a)?);
        }
        let mut bs_ = Vec::new();
        for b in &self.b {
            bs_.push(alloc_num(cs, *b)?);
        }
        cs.end_aux_block()?;
        let k = cs.alloc_random()?;
        let mut ak = k;
        for a in &as_ {
            ak = mul(cs, &ak, a)?;
        }
        let mut bk = k;
        for b in &bs_ {
            bk = mul(cs, &bk, b)?;
        }
        cs.enforce(lc(), lc(), lc().add_var(ak.0).sub_var(bk.0))?;
        Ok(())
    }

    fn num_aux_blocks(&self) -> usize {
        1
    }
}

#[test]
fn coin1() {
    let m = Coin1 { a: vec![Some(fr(5)), Some(fr(6))], b: vec![Some(fr(10)), Some(fr(3))] };
    let pk = setup(&m, vec![fr(5481), fr(5482)]);
    assert_eq!(pk.vk.transcript, vec![TranscriptEntry::AuxCommit, TranscriptEntry::Coin]);
    let (pf, blocks) = create_proof(&m, &pk, &worker(), fr(27134), fr(17146), vec![fr(1)]).unwrap();
    assert_eq!(pf.ds.len(), 1);
    assert_eq!(blocks.len(), 1);
    let expected = [fr(5), fr(6), fr(10), fr(3)];
    assert_eq!(blocks[0].len(), 4);
    assert!(blocks[0].iter().zip(expected.iter()).all(|(x, y)| x.equals(y)));
    let pvk = prepare_verifying_key(&pk.vk);
    verify_proof(&pvk, &pf, &vec![]).unwrap();
}

struct ThreeBlocks {
    v: [Option<Fr>; 5],
}

impl CcCircuit for ThreeBlocks {
    fn synthesize<CS: CcConstraintSystem>(&self, cs: &mut CS) -> Result<(), SynthesisError> {
        let a = alloc_num(cs, self.v[0])?;
        let a_in = cs.alloc_input(a.1)?;
        cs.enforce(lc().add_var(a.0), lc().add_var(CS::one()), lc().add_var(a_in))?;
        let b = alloc_num(cs, self.v[1])?;
        cs.end_aux_block()?;
        let c = alloc_num(cs, self.v[2])?;
        cs.end_aux_block()?;
        let j = cs.alloc_random()?;
        let d = alloc_num(cs, self.v[3])?;
        let e = alloc_num(cs, self.v[4])?;
        cs.end_aux_block()?;
        let k = cs.alloc_random()?;
        let p = mul(cs, &a, &b)?;
        let p = mul(cs, &p, &c)?;
        let p = mul(cs, &p, &d)?;
        let p = mul(cs, &p, &e)?;
        let p = mul(cs, &p, &j)?;
        let p = mul(cs, &p, &k)?;
        let jk = mul(cs, &j, &k)?;
        cs.enforce(lc(), lc(), lc().add_var(p.0).sub_var(jk.0))?;
        Ok(())
    }

    fn num_aux_blocks(&self) -> usize {
        3
    }
}

#[test]
fn test_3blocks_2coins() {
    let m = ThreeBlocks { v: [Some(fr(1)); 5] };
    let pk = setup(&m, vec![fr(5481), fr(5482), fr(5483), fr(5483)]);
    let k = vec![fr(1), fr(15), fr(5)];
    let (pf, _) = create_proof(&m, &pk, &worker(), fr(27134), fr(17146), k).unwrap();
    assert_eq!(pf.ds.len(), 3);
    let pvk = prepare_verifying_key(&pk.vk);
    verify_proof(&pvk, &pf, &vec![fr(1)]).unwrap();
}

#[test]
fn wrong_number_of_blinds_is_reported() {
    let m = Coin1 { a: vec![Some(fr(5))], b: vec![Some(fr(5))] };
    let pk = setup(&m, vec![fr(5481), fr(5482)]);
    let r = create_proof(&m, &pk, &worker(), fr(1), fr(2), vec![]);
    assert_eq!(r.err(), Some(SynthesisError::MalformedParameters));
}

#[test]
fn proof_round_trip() {
    let m = Coin1 { a: vec![Some(fr(2))], b: vec![Some(fr(2))] };
    let pk = setup(&m, vec![fr(5481), fr(5482)]);
    let (pf, _) = create_proof(&m, &pk, &worker(), fr(3), fr(4), vec![fr(9)]).unwrap();
    let mut bytes = Vec::new();
    pf.write(&mut bytes);
    assert_eq!(bytes.len(), 96 + 192 + 96 + 8 + 96);
    let back = mirage::mirage::Proof::read(&bytes).unwrap();
    assert!(back.a == pf.a && back.b == pf.b && back.c == pf.c && back.ds == pf.ds);
    let pvk = prepare_verifying_key(&pk.vk);
    verify_proof(&pvk, &back, &vec![]).unwrap();
}

#[test]
fn tampered_block_commitment_is_rejected() {
    let m = Coin1 { a: vec![Some(fr(2))], b: vec![Some(fr(2))] };
    let pk = setup(&m, vec![fr(5481), fr(5482)]);
    let (mut pf, _) = create_proof(&m, &pk, &worker(), fr(3), fr(4), vec![fr(9)]).unwrap();
    pf.ds[0] = pf.ds[0].add(&g1());
    let pvk = prepare_verifying_key(&pk.vk);
    assert_eq!(verify_proof(&pvk, &pf, &vec![]), Err(VerificationError::InvalidProof));
}

#[test]
fn keys_round_trip() {
    let m = Coin1 { a: vec![Some(fr(2))], b: vec![Some(fr(2))] };
    let pk = setup(&m, vec![fr(5481), fr(5482)]);
    let mut vk_bytes = Vec::new();
    pk.vk.write(&mut vk_bytes);
    let vk = mirage::mirage::VerifyingKey::read(&vk_bytes).unwrap();
    assert!(vk.alpha_g1 == pk.vk.alpha_g1 && vk.beta_g1 == pk.vk.beta_g1);
    assert!(vk.beta_g2 == pk.vk.beta_g2 && vk.gamma_g2 == pk.vk.gamma_g2);
    assert!(vk.deltas_g1 == pk.vk.deltas_g1 && vk.deltas_g2 == pk.vk.deltas_g2 && vk.ic == pk.vk.ic);
    assert_eq!(vk.transcript, pk.vk.transcript);

    let mut bytes = Vec::new();
    pk.write(&mut bytes);
    let back = Parameters::read(&bytes).unwrap();
    assert!(back.h == pk.h && back.ls == pk.ls && back.a == pk.a && back.b_g1 == pk.b_g1 && back.b_g2 == pk.b_g2);
    let mut again = Vec::new();
    back.write(&mut again);
    assert_eq!(again, bytes);

    // The round-tripped parameters still prove and verify.
    let (pf, _) = create_proof(&m, &back, &worker(), fr(3), fr(4), vec![fr(9)]).unwrap();
    let pvk = prepare_verifying_key(&vk);
    verify_proof(&pvk, &pf, &vec![]).unwrap();

    let mut bad = vk_bytes.clone();
    let last = bad.len() - 1;
    bad[last] = 7;
    assert_eq!(mirage::mirage::VerifyingKey::read(&bad).err(), Some(mirage::curve_io::IoError::InvalidTag));
}

#[test]
fn surplus_public_input_is_a_key_mismatch() {
    let params = setup(&XorDemo { a: None, b: None }, vec![fr(5481)]);
    let pvk = prepare_verifying_key(&params.vk);
    let (proof, _) =
        create_proof(&XorDemo { a: Some(true), b: Some(false) }, &params, &worker(), fr(27134), fr(17146), vec![]).unwrap();
    assert_eq!(verify_proof(&pvk, &proof, &vec![Fr::one(), fr(5)]), Err(VerificationError::InvalidVerifyingKey));
}

#[test]
fn off_curve_point_is_rejected_without_panic() {
    let params = setup(&XorDemo { a: None, b: None }, vec![fr(5481)]);
    let pvk = prepare_verifying_key(&params.vk);
    let (proof, _) =
        create_proof(&XorDemo { a: Some(true), b: Some(false) }, &params, &worker(), fr(27134), fr(17146), vec![]).unwrap();
    let mut bytes = Vec::new();
    proof.write(&mut bytes);
    for x in &mut bytes[96..288] {
        *x = 0;
    }
    let bad = mirage::mirage::Proof::read(&bytes).unwrap();
    assert_eq!(verify_proof(&pvk, &bad, &vec![Fr::one()]), Err(VerificationError::InvalidProof));
}

#[test]
fn zero_trapdoor_is_reported() {
    let r = generate_parameters(
        &XorDemo { a: None, b: None },
        &worker(),
        &g1(),
        &g2(),
        &fr(48577),
        &fr(22580),
        &fr(0),
        &vec![fr(5481)],
        &fr(3673),
    );
    assert_eq!(r.err(), Some(SynthesisError::DivisionByZero));
    let r = generate_parameters(&XorDemo { a: None, b: None }, &worker(), &g1(), &g2(), &fr(1), &fr(2), &fr(3), &vec![], &fr(4));
    assert_eq!(r.err(), Some(SynthesisError::MalformedParameters));
}
