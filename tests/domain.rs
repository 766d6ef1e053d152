use ff::Field;
use mirage::domain::{parallel_fft, serial_fft, EvaluationDomain, Worker};
use mirage::field::Fr;
use rand_chacha::ChaChaRng;
use rand_core::SeedableRng;

fn random_scalar(rng: &mut ChaChaRng) -> Fr {
    let s = bls12_381::Scalar::random(&mut *rng);
    let mut wide = [0u8; 64];
    wide[..32].copy_from_slice(&s.to_bytes());
    Fr::from_bytes_wide(&wide)
}

fn rng() -> ChaChaRng {
    ChaChaRng::from_seed([0u8; 32])
}

fn worker() -> Worker {
    Worker::new(16)
}

fn same(a: &[Fr], b: &[Fr]) -> bool {
    a.len() == b.len() && a.iter().zip(b.iter()).all(|(x, y)| x.equals(y))
}

#[test]
fn polynomial_arith() {
    let rng = &mut rng();
    let worker = worker();
    for coeffs_a in 0..70usize {
        for coeffs_b in 0..70usize {
            let mut a: Vec<Fr> = (0..coeffs_a).map(|_| random_scalar(rng)).collect();
            let mut b: Vec<Fr> = (0..coeffs_b).map(|_| random_scalar(rng)).collect();

            let mut naive = vec![Fr::zero(); coeffs_a + coeffs_b];
            for (i1, x) in a.iter().enumerate() {
                for (i2, y) in b.iter().enumerate() {
                    let prod = x.mul(y);
                    naive[i1 + i2] = naive[i1 + i2].add(&prod);
                }
            }

            a.resize(coeffs_a + coeffs_b, Fr::zero());
            b.resize(coeffs_a + coeffs_b, Fr::zero());

            let mut a = EvaluationDomain::from_coeffs(a).unwrap();
            let mut b = EvaluationDomain::from_coeffs(b).unwrap();

            a.fft(&worker);
            b.fft(&worker);
            a.mul_assign(&b);
            a.ifft(&worker);

            for (n, f) in naive.iter().zip(a.as_ref().iter()) {
                assert!(n.equals(f));
            }
        }
    }
}

#[test]
fn fft_composition() {
    let rng = &mut rng();
    let worker = worker();
    for coeffs in 0..10u32 {
        let coeffs = 1usize << coeffs;
        let mut v = vec![];
        for _ in 0..coeffs {
            v.push(random_scalar(rng));
        }
        let mut domain = EvaluationDomain::from_coeffs(v.clone()).unwrap();
        domain.ifft(&worker);
        domain.fft(&worker);
        assert!(same(&v, domain.as_ref()));
        domain.fft(&worker);
        domain.ifft(&worker);
        assert!(same(&v, domain.as_ref()));
        domain.icoset_fft(&worker);
        domain.coset_fft(&worker);
        assert!(same(&v, domain.as_ref()));
        domain.coset_fft(&worker);
        domain.icoset_fft(&worker);
        assert!(same(&v, domain.as_ref()));
    }
}

#[test]
fn parallel_fft_consistency() {
    let rng = &mut rng();
    for _ in 0..5 {
        for log_d in 0..10u32 {
            let d = 1usize << log_d;
            let v1: Vec<Fr> = (0..d).map(|_| random_scalar(rng)).collect();
            let v1 = EvaluationDomain::from_coeffs(v1).unwrap();
            let omega = v1.root();
            let mut c1 = v1.into_coeffs();
            let mut c2 = c1.clone();
            for log_cpus in log_d..std::cmp::min(log_d + 1, 3) {
                parallel_fft(&mut c1, &omega, log_d, log_cpus);
                serial_fft(&mut c2, &omega, log_d);
                assert!(same(&c1, &c2));
            }
        }
    }
}

#[test]
fn parallel_fft_splits_agree_with_serial() {
    let rng = &mut rng();
    let v: Vec<Fr> = (0..64).map(|_| random_scalar(rng)).collect();
    let d = EvaluationDomain::from_coeffs(v).unwrap();
    let omega = d.root();
    let base = d.into_coeffs();
    let mut serial = base.clone();
    serial_fft(&mut serial, &omega, 6);
    for log_cpus in 0..=6u32 {
        let mut par = base.clone();
        parallel_fft(&mut par, &omega, 6, log_cpus);
        assert!(same(&par, &serial));
    }
}

#[test]
fn from_coeffs_pads_to_a_power_of_two() {
    let d = EvaluationDomain::from_coeffs(vec![Fr::one(); 5]).unwrap();
    assert_eq!(d.log_size(), 3);
    assert_eq!(d.as_ref().len(), 8);
    assert!(d.as_ref()[5].equals(&Fr::zero()));
    assert_eq!(d.len(), 8);
    let e = EvaluationDomain::from_coeffs(vec![]).unwrap();
    assert_eq!(e.log_size(), 0);
    assert_eq!(e.as_ref().len(), 1);
}

#[test]
fn vanishing_polynomial_value() {
    // z(tau) = tau^4 - 1 on a domain of four points.
    let d = EvaluationDomain::from_coeffs(vec![Fr::one(); 4]).unwrap();
    let z = d.z(&Fr::from_u64(3));
    assert!(z.equals(&Fr::from_u64(80)));
}

#[test]
fn fft_of_constant_is_constant_then_zero() {
    // The FFT of [c, 0, 0, 0] is [c, c, c, c]; of [1, 1, 1, 1] is [4, 0, 0, 0].
    let worker = worker();
    let mut d = EvaluationDomain::from_coeffs(vec![Fr::from_u64(5)]).unwrap();
    d.fft(&worker);
    assert!(d.as_ref()[0].equals(&Fr::from_u64(5)));
    let mut d = EvaluationDomain::from_coeffs(vec![Fr::one(); 4]).unwrap();
    d.fft(&worker);
    assert!(d.as_ref()[0].equals(&Fr::from_u64(4)));
    for x in &d.as_ref()[1..] {
        assert!(x.equals(&Fr::zero()));
    }
}

#[test]
fn pointwise_sub_and_divide() {
    let mut a = EvaluationDomain::from_coeffs(vec![Fr::from_u64(7), Fr::from_u64(9)]).unwrap();
    let b = EvaluationDomain::from_coeffs(vec![Fr::from_u64(2), Fr::from_u64(4)]).unwrap();
    a.sub_assign(&b);
    assert!(a.as_ref()[0].equals(&Fr::from_u64(5)));
    assert!(a.as_ref()[1].equals(&Fr::from_u64(5)));
    // z(g) = 7^2 - 1 = 48; dividing 48 * x by it gives x back.
    let mut c = EvaluationDomain::from_coeffs(vec![Fr::from_u64(48), Fr::from_u64(96)]).unwrap();
    c.divide_by_z_on_coset().unwrap();
    assert!(c.as_ref()[0].equals(&Fr::from_u64(1)));
    assert!(c.as_ref()[1].equals(&Fr::from_u64(2)));
}

#[test]
fn from_coeffs_pads_three_values() {
    let d = EvaluationDomain::from_coeffs(vec![Fr::from_u64(1), Fr::from_u64(2), Fr::from_u64(3)]).unwrap();
    let expected = vec![Fr::from_u64(1), Fr::from_u64(2), Fr::from_u64(3), Fr::zero()];
    assert!(same(&d.into_coeffs(), &expected));
}
