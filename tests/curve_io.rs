use group::{Curve, Group};
use mirage::curve::{G1, G2};
use mirage::curve_io::{
    read_group, read_group_uncompressed, read_groups, read_groups_uncompressed, write_group, write_group_uncompressed,
    write_groups, write_groups_uncompressed, IoError,
};
use rand_chacha::ChaChaRng;
use rand_core::SeedableRng;

fn points(n: usize) -> Vec<G1> {
    let mut rng = ChaChaRng::from_seed([7u8; 32]);
    (0..n)
        .map(|_| {
            let p = bls12_381::G1Projective::random(&mut rng).to_affine();
            G1::from_uncompressed(&p.to_uncompressed(), true).unwrap()
        })
        .collect()
}

#[test]
fn uncompressed_vector_round_trip() {
    let ps = points(3);
    let mut out = Vec::new();
    write_groups_uncompressed(&mut out, &ps);
    assert_eq!(out.len(), 8 + 3 * 96);
    assert_eq!(&out[..8], &[0, 0, 0, 0, 0, 0, 0, 3]);
    let (back, end) = read_groups_uncompressed::<G1>(&out, 0, true, false).unwrap();
    assert_eq!(end, out.len());
    assert_eq!(back, ps);
}

#[test]
fn compressed_vector_round_trip() {
    let ps = points(4);
    let mut out = Vec::new();
    write_groups(&mut out, &ps);
    assert_eq!(out.len(), 8 + 4 * 48);
    let (back, end) = read_groups::<G1>(&out, 0, true, false).unwrap();
    assert_eq!(end, out.len());
    assert_eq!(back, ps);
}

#[test]
fn identity_is_refused_unless_allowed() {
    let mut out = Vec::new();
    write_group_uncompressed(&mut out, &G1::identity());
    assert_eq!(out[0], 0x40);
    assert_eq!(read_group_uncompressed::<G1>(&out, 0, true, false).err(), Some(IoError::PointAtInfinity));
    assert!(read_group_uncompressed::<G1>(&out, 0, true, true).is_ok());
    let mut c = Vec::new();
    write_group(&mut c, &G2::identity());
    assert_eq!(c.len(), 96);
    assert_eq!(read_group::<G2>(&c, 0, true, false).err(), Some(IoError::PointAtInfinity));
    assert!(read_group::<G2>(&c, 0, true, true).unwrap().0.is_identity());
}

#[test]
fn short_and_invalid_inputs() {
    let ps = points(1);
    let mut out = Vec::new();
    write_group_uncompressed(&mut out, &ps[0]);
    assert_eq!(read_group_uncompressed::<G1>(&out[..95], 0, true, true).err(), Some(IoError::UnexpectedEof));
    let mut bad = out.clone();
    bad[0] |= 0x80;
    assert_eq!(read_group_uncompressed::<G1>(&bad, 0, false, true).err(), Some(IoError::InvalidGroup));
    assert_eq!(read_groups::<G1>(&[0, 0, 0], 0, true, true).err(), Some(IoError::UnexpectedEof));
}
