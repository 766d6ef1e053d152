use ff::Field;
use group::{Curve, Group};
use mirage::commit::cp_link;
use mirage::commit::CommitKey;
use mirage::curve::G1;
use mirage::field::Fr;
use mirage::kw15::{key_gen, prove, verify, Matrix, PreparedVerifyingKey, Proof, ProvingKey, VerifyingKey};
use rand_chacha::ChaChaRng;
use rand_core::SeedableRng;

fn test_rng() -> ChaChaRng {
    ChaChaRng::from_seed([0u8; 32])
}

fn random_scalar(rng: &mut ChaChaRng) -> Fr {
    let s = bls12_381::Scalar::random(&mut *rng);
    let mut wide = [0u8; 64];
    wide[..32].copy_from_slice(&s.to_bytes());
    Fr::from_bytes_wide(&wide)
}

fn random_point(rng: &mut ChaChaRng) -> G1 {
    let p = bls12_381::G1Projective::random(&mut *rng).to_affine();
    G1::from_uncompressed(&p.to_uncompressed(), true).unwrap()
}

fn random_statement(num_cmts: usize, num_wits: usize, rng: &mut ChaChaRng) -> (Matrix, Vec<G1>, Vec<Fr>) {
    let mut matrix = Matrix::new(num_cmts, num_wits);
    let mut entries = Vec::new();
    for i in 0..num_cmts {
        for j in 0..num_wits {
            let v = random_point(rng);
            matrix.add_entry(i, j, v);
            entries.push((i, j, v));
        }
    }
    let wits: Vec<Fr> = (0..num_wits).map(|_| random_scalar(rng)).collect();
    let mut cmts = vec![G1::identity(); num_cmts];
    for (i, j, v) in entries {
        cmts[i] = cmts[i].add(&v.mul(&wits[j]));
    }
    (matrix, cmts, wits)
}

fn random_test(num_cmts: usize, num_wits: usize) {
    let rng = &mut test_rng();
    let (matrix, cmts, wits) = random_statement(num_cmts, num_wits, rng);
    let k: Vec<Fr> = (0..num_cmts).map(|_| random_scalar(rng)).collect();
    let a = random_scalar(rng);
    let (pk, vk) = key_gen(&matrix, &k, &a);
    let pf = prove(&pk, &wits);
    let pvk = PreparedVerifyingKey::from(&vk);
    assert!(verify(&pvk, &cmts, &pf));
}

#[test]
fn dummy_one_by_one() {
    random_test(1, 1);
}

#[test]
fn dummy_two_by_ten() {
    random_test(2, 10);
}

#[test]
fn bls12_381_two_by_ten() {
    random_test(2, 10);
}

fn random_serde_test(num_cmts: usize, num_wits: usize) {
    let rng = &mut test_rng();
    let (matrix, _, wits) = random_statement(num_cmts, num_wits, rng);
    let k: Vec<Fr> = (0..num_cmts).map(|_| random_scalar(rng)).collect();
    let a = random_scalar(rng);
    let (pk, vk) = key_gen(&matrix, &k, &a);
    let pf = prove(&pk, &wits);
    let mut ser_pk: Vec<u8> = Vec::new();
    let mut ser_vk: Vec<u8> = Vec::new();
    let mut ser_pf: Vec<u8> = Vec::new();
    pk.write(&mut ser_pk);
    vk.write(&mut ser_vk);
    pf.write(&mut ser_pf);
    let pk2 = ProvingKey::read(&ser_pk[..]).unwrap();
    let vk2 = VerifyingKey::read(&ser_vk[..]).unwrap();
    let pf2 = Proof::read(&ser_pf[..]).unwrap();
    assert!(pk.eq(&pk2));
    assert!(pf.eq(&pf2));
    assert!(vk.eq(&vk2));
}

#[test]
fn bls12_381_two_by_ten_serde() {
    random_serde_test(2, 10);
}

#[test]
fn kw15_rejects_wrong_commitment() {
    let rng = &mut test_rng();
    let (matrix, mut cmts, wits) = random_statement(2, 3, rng);
    let k: Vec<Fr> = (0..2).map(|_| random_scalar(rng)).collect();
    let a = random_scalar(rng);
    let (pk, vk) = key_gen(&matrix, &k, &a);
    let pf = prove(&pk, &wits);
    cmts[0] = cmts[0].add(&random_point(rng));
    let pvk = PreparedVerifyingKey::from(&vk);
    assert!(!verify(&pvk, &cmts, &pf));
}

#[test]
fn kw15_key_lengths_and_read_errors() {
    let rng = &mut test_rng();
    let (matrix, _, _) = random_statement(2, 3, rng);
    let k: Vec<Fr> = (0..2).map(|_| random_scalar(rng)).collect();
    let a = random_scalar(rng);
    let (pk, vk) = key_gen(&matrix, &k, &a);
    assert_eq!(pk.p_g1.len(), 3);
    assert_eq!(vk.c_g2.len(), 2);
    let mut bytes = Vec::new();
    pk.write(&mut bytes);
    assert_eq!(bytes.len(), 8 + 3 * 96);
    assert_eq!(&bytes[..8], &[0, 0, 0, 0, 0, 0, 0, 3]);
    let short = &bytes[..bytes.len() - 1];
    assert_eq!(ProvingKey::read(short).err(), Some(mirage::curve_io::IoError::UnexpectedEof));
    let mut bad = bytes.clone();
    bad[8] |= 0x80;
    assert_eq!(ProvingKey::read(&bad).err(), Some(mirage::curve_io::IoError::InvalidGroup));
}

fn rand_ck(len: usize, rng: &mut ChaChaRng) -> CommitKey {
    CommitKey::new((0..len).map(|_| random_point(rng)).collect(), random_point(rng))
}

fn cp_statement(
    num_cmts: usize,
    len: usize,
    rng: &mut ChaChaRng,
) -> (Vec<Vec<Fr>>, Vec<Fr>, Vec<Fr>, CommitKey, Vec<CommitKey>, Vec<G1>, Vec<G1>) {
    let ck1 = rand_ck(len, rng);
    let cks2: Vec<CommitKey> = (0..num_cmts).map(|_| rand_ck(len, rng)).collect();
    let vecs: Vec<Vec<Fr>> = (0..num_cmts).map(|_| (0..len).map(|_| random_scalar(rng)).collect()).collect();
    let rands1: Vec<Fr> = (0..num_cmts).map(|_| random_scalar(rng)).collect();
    let rands2: Vec<Fr> = (0..num_cmts).map(|_| random_scalar(rng)).collect();
    let cmts1 = vecs.iter().zip(&rands1).map(|(v, r)| ck1.commit(v, r)).collect();
    let cmts2 = vecs.iter().zip(&rands2).zip(&cks2).map(|((v, r), ck)| ck.commit(v, r)).collect();
    (vecs, rands1, rands2, ck1, cks2, cmts1, cmts2)
}

fn cp_random_test(num_cmts: usize, len: usize) {
    let rng = &mut test_rng();
    let (vecs, rands1, rands2, ck1, cks2, cmts1, cmts2) = cp_statement(num_cmts, len, rng);
    let trapdoor: Vec<Fr> = (0..2 * num_cmts).map(|_| random_scalar(rng)).collect();
    let a = random_scalar(rng);
    let (pk, vk) = cp_link::key_gen(&ck1, &cks2, &trapdoor, &a);
    let pf = cp_link::prove(&pk, vecs, rands1, rands2);
    assert!(cp_link::verify(&vk, &cmts1, &cmts2, &pf));
}

#[test]
fn test_dummy_one_by_one() {
    cp_random_test(1, 1);
}

#[test]
fn test_dummy_two_by_ten() {
    cp_random_test(2, 10);
}

#[test]
fn test_bls12_381_two_by_ten() {
    cp_random_test(2, 10);
}

#[test]
fn test_bls12_381_two_by_ten_serde() {
    let rng = &mut test_rng();
    let (vecs, rands1, rands2, ck1, cks2, _, _) = cp_statement(2, 10, rng);
    let trapdoor: Vec<Fr> = (0..4).map(|_| random_scalar(rng)).collect();
    let a = random_scalar(rng);
    let (pk, vk) = cp_link::key_gen(&ck1, &cks2, &trapdoor, &a);
    let pf = cp_link::prove(&pk, vecs, rands1, rands2);
    let mut ser_pk: Vec<u8> = Vec::new();
    let mut ser_vk: Vec<u8> = Vec::new();
    let mut ser_pf: Vec<u8> = Vec::new();
    pk.write(&mut ser_pk);
    vk.write(&mut ser_vk);
    pf.write(&mut ser_pf);
    let pk2 = ProvingKey::read(&ser_pk[..]).unwrap();
    let vk2 = VerifyingKey::read(&ser_vk[..]).unwrap();
    let pf2 = Proof::read(&ser_pf[..]).unwrap();
    assert!(pk.eq(&pk2));
    assert!(pf.eq(&pf2));
    assert!(vk.eq(&vk2));
}

#[test]
fn cp_link_rejects_different_vectors() {
    let rng = &mut test_rng();
    let (vecs, rands1, rands2, ck1, cks2, cmts1, _) = cp_statement(1, 3, rng);
    let other: Vec<Fr> = (0..3).map(|_| random_scalar(rng)).collect();
    let cmts2 = vec![cks2[0].commit(&other, &rands2[0])];
    let trapdoor: Vec<Fr> = (0..2).map(|_| random_scalar(rng)).collect();
    let a = random_scalar(rng);
    let (pk, vk) = cp_link::key_gen(&ck1, &cks2, &trapdoor, &a);
    let pf = cp_link::prove(&pk, vecs, rands1, rands2);
    assert!(!cp_link::verify(&vk, &cmts1, &cmts2, &pf));
}

#[test]
fn pedersen_commit_of_unit_vector() {
    // Committing to (1, 0) with blind 0 gives the first base.
    let rng = &mut test_rng();
    let ck = rand_ck(2, rng);
    let c = ck.commit(&vec![Fr::one(), Fr::zero()], &Fr::zero());
    assert!(c == ck.generators[0]);
    let d = ck.commit(&vec![], &Fr::one());
    assert!(d == ck.blind_generator);
}

#[test]
fn kw15_rejects_off_curve_key_without_panic() {
    let rng = &mut test_rng();
    let (matrix, cmts, wits) = random_statement(1, 2, rng);
    let k: Vec<Fr> = (0..1).map(|_| random_scalar(rng)).collect();
    let a = random_scalar(rng);
    let (pk, vk) = key_gen(&matrix, &k, &a);
    let pf = prove(&pk, &wits);
    let mut bytes = Vec::new();
    vk.write(&mut bytes);
    for x in &mut bytes[8..8 + 192] {
        *x = 0;
    }
    let bad = VerifyingKey::read(&bytes).unwrap();
    assert!(!verify(&PreparedVerifyingKey::from(&bad), &cmts, &pf));
}
