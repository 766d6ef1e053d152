//! The scalar field of BLS12-381: elements of `bls12_381::Scalar`, each
//! paired with the canonical value it stands for, and arithmetic carried out
//! by the `bls12_381` crate.
use ff::Field;
use ff::PrimeField;
use vstd::prelude::*;

verus! {

/// 2^64, the base of a limb.
pub open spec fn limb_base() -> int {
    0x1_0000_0000_0000_0000int
}

/// The integer written by four little-endian 64-bit limbs.
pub open spec fn limbs_int(l: Seq<u64>) -> int {
    l[0] + limb_base() * (l[1] + limb_base() * (l[2] + limb_base() * l[3]))
}

/// The order of the scalar field:
/// 0x73eda753299d7d483339d80809a1d80553bda402fffe5bfeffffffff00000001.
pub open spec fn modulus() -> int {
    limbs_int(seq![0xffff_ffff_0000_0001u64, 0x53bd_a402_fffe_5bfeu64,
        0x3339_d808_09a1_d805u64, 0x73ed_a753_299d_7d48u64])
}

/// The 2-adicity of the field: 2^32 divides the order of its multiplicative group.
pub const TWO_ADICITY: u32 = 32;

/// The fixed multiplicative generator of the field.
pub open spec fn generator_value() -> int {
    7
}

/// The fixed primitive 2^32-th root of unity: the generator raised to
/// (modulus - 1) / 2^32.
pub open spec fn root_of_unity_value() -> int {
    limbs_int(seq![0x3829_971f_439f_0d2bu64, 0xb636_8350_8c22_80b9u64,
        0xd09b_6819_22c8_13b4u64, 0x16a2_a19e_dfe8_1f20u64])
}

/// Field addition on canonical values.
pub open spec fn fadd(a: int, b: int) -> int {
    (a + b) % modulus()
}

/// Field subtraction on canonical values.
pub open spec fn fsub(a: int, b: int) -> int {
    (a - b) % modulus()
}

/// Field multiplication on canonical values.
pub open spec fn fmul(a: int, b: int) -> int {
    (a * b) % modulus()
}

/// `a` raised to the `n`-th power in the field.
pub open spec fn fpow(a: int, n: nat) -> int
    decreases n,
{
    if n == 0 {
        1
    } else {
        fmul(fpow(a, (n - 1) as nat), a)
    }
}

/// The multiplicative inverse of a nonzero field value: the canonical value
/// whose product with it is one (unique, the modulus being prime).
pub open spec fn finv(a: int) -> int {
    choose|y: int| 0 <= y < modulus() && fmul(y, a) == 1
}

/// The integer written by little-endian bytes.
pub open spec fn le_int(b: Seq<u8>) -> int
    decreases b.len(),
{
    if b.len() == 0 {
        0
    } else {
        b[0] + 256 * le_int(b.drop_first())
    }
}

/// The 32 little-endian bytes of a canonical field value.
pub open spec fn repr_bytes(v: int) -> Seq<u8> {
    Seq::new(32, |i: int| ((v / vstd::arithmetic::power::pow(256, i as nat)) % 256) as u8)
}

/// Field values stay below the modulus.
pub proof fn lemma_fpow_bound(a: int, n: nat)
    ensures
        0 <= fpow(a, n) < modulus(),
{
    if n > 0 {
        vstd::arithmetic::div_mod::lemma_mod_bound(fpow(a, (n - 1) as nat) * a, modulus());
    }
}

/// Powers add their exponents: `a^(m+n) == a^m * a^n`.
pub proof fn lemma_fpow_add(a: int, m: nat, n: nat)
    ensures
        fpow(a, m + n) == fmul(fpow(a, m), fpow(a, n)),
    decreases n,
{
    lemma_fpow_bound(a, m);
    if n == 0 {
        vstd::arithmetic::div_mod::lemma_small_mod(fpow(a, m) as nat, modulus() as nat);
        assert(fpow(a, m) * 1 == fpow(a, m));
    } else {
        let x = fpow(a, m);
        let y = fpow(a, (n - 1) as nat);
        lemma_fpow_add(a, m, (n - 1) as nat);
        assert((m + n - 1) as nat == m + (n - 1) as nat);
        // a^(m+n) = ((x*y)%q * a) % q = (x * (y*a)) % q = (x * ((y*a)%q)) % q
        vstd::arithmetic::div_mod::lemma_mul_mod_noop_left(x * y, a, modulus());
        vstd::arithmetic::mul::lemma_mul_is_associative(x, y, a);
        vstd::arithmetic::div_mod::lemma_mul_mod_noop_right(x, y * a, modulus());
    }
}

/// Squaring `k` times raises to the power `2^k`.
pub proof fn lemma_fpow_double(a: int, n: nat)
    ensures
        fpow(a, 2 * n) == fmul(fpow(a, n), fpow(a, n)),
{
    lemma_fpow_add(a, n, n);
    assert(n + n == 2 * n);
}

/// The field values of a sequence of scalars.
pub open spec fn vals(s: Seq<Fr>) -> Seq<int> {
    s.map_values(|x: Fr| x.val())
}

#[verifier::external_type_specification]
#[verifier::external_body]
pub struct ExScalar(bls12_381::Scalar);

/// A stretch of the square-and-multiply computation of the root of unity.
proof fn lemma_root_chain_0()
    requires
        fpow(generator_value(), 0x1nat) == 0x7int,
    ensures
        fpow(generator_value(), 0xe7nat) == 0x5f2f2162559dfa1f2f4cccb53f5d652363d25eb7518208f7024f35e1d2594d2aint,
{
    let g = generator_value();
    assert(modulus() == 0x73eda753299d7d483339d80809a1d80553bda402fffe5bfeffffffff00000001int);
    lemma_fpow_double(g, 0x1nat);
    assert(0x2nat == 2 * 0x1nat);
    vstd::arithmetic::div_mod::lemma_fundamental_div_mod_converse(0x7int * 0x7int, modulus(), 0x0int, 0x31int);
    assert(fpow(g, 0x2nat) == 0x31int);
    assert(fpow(g, 0x3nat) == fmul(fpow(g, 0x2nat), g));
    vstd::arithmetic::div_mod::lemma_fundamental_div_mod_converse(0x31int * 7, modulus(), 0x0int, 0x157int);
    assert(fpow(g, 0x3nat) == 0x157int);
    lemma_fpow_double(g, 0x3nat);
    assert(0x6nat == 2 * 0x3nat);
    vstd::arithmetic::div_mod::lemma_fundamental_div_mod_converse(0x157int * 0x157int, modulus(), 0x0int, 0x1cb91int);
    assert(fpow(g, 0x6nat) == 0x1cb91int);
    assert(fpow(g, 0x7nat) == fmul(fpow(g, 0x6nat), g));
    vstd::arithmetic::div_mod::lemma_fundamental_div_mod_converse(0x1cb91int * 7, modulus(), 0x0int, 0xc90f7int);
    assert(fpow(g, 0x7nat) == 0xc90f7int);
    lemma_fpow_double(g, 0x7nat);
    assert(0xenat == 2 * 0x7nat);
    vstd::arithmetic::div_mod::lemma_fundamental_div_mod_converse(0xc90f7int * 0xc90f7int, modulus(), 0x0int, 0x9de93ece51int);
    assert(fpow(g, 0xenat) == 0x9de93ece51int);
    lemma_fpow_double(g, 0xenat);
    assert(0x1cnat == 2 * 0xenat);
    vstd::arithmetic::div_mod::lemma_fundamental_div_mod_converse(0x9de93ece51int * 0x9de93ece51int, modulus(), 0x0int, 0x6167eb8c7252078275a1int);
    assert(fpow(g, 0x1cnat) == 0x6167eb8c7252078275a1int);
    lemma_fpow_double(g, 0x1cnat);
    assert(0x38nat == 2 * 0x1cnat);
    vstd::arithmetic::div_mod::lemma_fundamental_div_mod_converse(0x6167eb8c7252078275a1int * 0x6167eb8c7252078275a1int, modulus(), 0x0int, 0x250feaafd2614ea2bead8d2d3ea7240e7b908f41int);
    assert(fpow(g, 0x38nat) == 0x250feaafd2614ea2bead8d2d3ea7240e7b908f41int);
    assert(fpow(g, 0x39nat) == fmul(fpow(g, 0x38nat), g));
    vstd::arithmetic::div_mod::lemma_fundamental_div_mod_converse(0x250feaafd2614ea2bead8d2d3ea7240e7b908f41int * 7, modulus(), 0x0int, 0x1036f6acec0a9267336bedc3cb691fc6560f3eac7int);
    assert(fpow(g, 0x39nat) == 0x1036f6acec0a9267336bedc3cb691fc6560f3eac7int);
    lemma_fpow_double(g, 0x39nat);
    assert(0x72nat == 2 * 0x39nat);
    vstd::arithmetic::div_mod::lemma_fundamental_div_mod_converse(0x1036f6acec0a9267336bedc3cb691fc6560f3eac7int * 0x1036f6acec0a9267336bedc3cb691fc6560f3eac7int, modulus(), 0x244969b2982f7b785int, 0x62dac4e6d8fb21a5cff2c62545f1e1e0efe6a3aa5b6f011d0335fdde4a22af2cint);
    assert(fpow(g, 0x72nat) == 0x62dac4e6d8fb21a5cff2c62545f1e1e0efe6a3aa5b6f011d0335fdde4a22af2cint);
    assert(fpow(g, 0x73nat) == fmul(fpow(g, 0x72nat), g));
    vstd::arithmetic::div_mod::lemma_fundamental_div_mod_converse(0x62dac4e6d8fb21a5cff2c62545f1e1e0efe6a3aa5b6f011d0335fdde4a22af2cint * 7, modulus(), 0x5int, 0x70571db01eca791faf8232dcb973f50bec9a459980113bd01679f11906f2ca2fint);
    assert(fpow(g, 0x73nat) == 0x70571db01eca791faf8232dcb973f50bec9a459980113bd01679f11906f2ca2fint);
    lemma_fpow_double(g, 0x73nat);
    assert(0xe6nat == 2 * 0x73nat);
    vstd::arithmetic::div_mod::lemma_fundamental_div_mod_converse(0x70571db01eca791faf8232dcb973f50bec9a459980113bd01679f11906f2ca2fint * 0x70571db01eca791faf8232dcb973f50bec9a459980113bd01679f11906f2ca2fint, modulus(), 0x6cdd01ebec2152e6bcb53639b8a71c6aa20abfe9d30158bf14961baef67d72bfint, 0x4fd7ad86b64bfd9b6d2c0667a0d789e3874146ae303635d9929d99fb1e0cc1e2int);
    assert(fpow(g, 0xe6nat) == 0x4fd7ad86b64bfd9b6d2c0667a0d789e3874146ae303635d9929d99fb1e0cc1e2int);
    assert(fpow(g, 0xe7nat) == fmul(fpow(g, 0xe6nat), g));
    vstd::arithmetic::div_mod::lemma_fundamental_div_mod_converse(0x4fd7ad86b64bfd9b6d2c0667a0d789e3874146ae303635d9929d99fb1e0cc1e2int * 7, modulus(), 0x4int, 0x5f2f2162559dfa1f2f4cccb53f5d652363d25eb7518208f7024f35e1d2594d2aint);
    assert(fpow(g, 0xe7nat) == 0x5f2f2162559dfa1f2f4cccb53f5d652363d25eb7518208f7024f35e1d2594d2aint);
}

/// A stretch of the square-and-multiply computation of the root of unity.
proof fn lemma_root_chain_1()
    requires
        fpow(generator_value(), 0xe7nat) == 0x5f2f2162559dfa1f2f4cccb53f5d652363d25eb7518208f7024f35e1d2594d2aint,
    ensures
        fpow(generator_value(), 0x73ednat) == 0x1fb89640b9e3900d41e6b43f56ba90aeda6ae9c819f8cd16b6fe98bd0c99944aint,
{
    let g = generator_value();
    assert(modulus() == 0x73eda753299d7d483339d80809a1d80553bda402fffe5bfeffffffff00000001int);
    lemma_fpow_double(g, 0xe7nat);
    assert(0x1cenat == 2 * 0xe7nat);
    vstd::arithmetic::div_mod::lemma_fundamental_div_mod_converse(0x5f2f2162559dfa1f2f4cccb53f5d652363d25eb7518208f7024f35e1d2594d2aint * 0x5f2f2162559dfa1f2f4cccb53f5d652363d25eb7518208f7024f35e1d2594d2aint, modulus(), 0x4e26df7762d39acc5952487e8203b231e25f66462658c45eb69d03ec3f460bc5int, 0x720a8559c309d3b21c2e8425f0dbb865d62b5e5afea786fd3858b16c67303f1fint);
    assert(fpow(g, 0x1cenat) == 0x720a8559c309d3b21c2e8425f0dbb865d62b5e5afea786fd3858b16c67303f1fint);
    assert(fpow(g, 0x1cfnat) == fmul(fpow(g, 0x1cenat), g));
    vstd::arithmetic::div_mod::lemma_fundamental_div_mod_converse(0x720a8559c309d3b21c2e8425f0dbb865d62b5e5afea786fd3858b16c67303f1fint * 7, modulus(), 0x6int, 0x66b7b9815b93da2d91ea8cd95c36faa8e4bdbc6af69e88f28a6cd9fcd251b9d3int);
    assert(fpow(g, 0x1cfnat) == 0x66b7b9815b93da2d91ea8cd95c36faa8e4bdbc6af69e88f28a6cd9fcd251b9d3int);
    lemma_fpow_double(g, 0x1cfnat);
    assert(0x39enat == 2 * 0x1cfnat);
    vstd::arithmetic::div_mod::lemma_fundamental_div_mod_converse(0x66b7b9815b93da2d91ea8cd95c36faa8e4bdbc6af69e88f28a6cd9fcd251b9d3int * 0x66b7b9815b93da2d91ea8cd95c36faa8e4bdbc6af69e88f28a6cd9fcd251b9d3int, modulus(), 0x5b032f4a58ac9c28bd2ff02804f653f0cef24c18c0987152be7b69a40a1e7b6dint, 0x3805d480da8bfb1ccc98c2c0b2dabffe1c412cb1a097f233dc62ce26404a287cint);
    assert(fpow(g, 0x39enat) == 0x3805d480da8bfb1ccc98c2c0b2dabffe1c412cb1a097f233dc62ce26404a287cint);
    assert(fpow(g, 0x39fnat) == fmul(fpow(g, 0x39enat), g));
    vstd::arithmetic::div_mod::lemma_fundamental_div_mod_converse(0x3805d480da8bfb1ccc98c2c0b2dabffe1c412cb1a097f233dc62ce26404a287cint * 7, modulus(), 0x3int, 0x2c5fd98c7cfb65f0fe7fcb2cc715b7e2ca8f4cd2642c8b6e06b3a30ec2071b61int);
    assert(fpow(g, 0x39fnat) == 0x2c5fd98c7cfb65f0fe7fcb2cc715b7e2ca8f4cd2642c8b6e06b3a30ec2071b61int);
    lemma_fpow_double(g, 0x39fnat);
    assert(0x73enat == 2 * 0x39fnat);
    vstd::arithmetic::div_mod::lemma_fundamental_div_mod_converse(0x2c5fd98c7cfb65f0fe7fcb2cc715b7e2ca8f4cd2642c8b6e06b3a30ec2071b61int * 0x2c5fd98c7cfb65f0fe7fcb2cc715b7e2ca8f4cd2642c8b6e06b3a30ec2071b61int, modulus(), 0x10fc42d911c87b1b95eb791d120f2bab8d8452121bf94c4e23d7dcf04aebce4dint, 0x666300da558eb4b4f041747e5294f2c04291273df8070772d56d3baa3b4fcc74int);
    assert(fpow(g, 0x73enat) == 0x666300da558eb4b4f041747e5294f2c04291273df8070772d56d3baa3b4fcc74int);
    lemma_fpow_double(g, 0x73enat);
    assert(0xe7cnat == 2 * 0x73enat);
    vstd::arithmetic::div_mod::lemma_fundamental_div_mod_converse(0x666300da558eb4b4f041747e5294f2c04291273df8070772d56d3baa3b4fcc74int * 0x666300da558eb4b4f041747e5294f2c04291273df8070772d56d3baa3b4fcc74int, modulus(), 0x5a6d4afa90c57126861eb619db589658af3b6630e22241e4414965b1eae9827bint, 0x66967b76143f570b8aee3f9c2ca054f12755dbe1a64c164f685efff65ff79215int);
    assert(fpow(g, 0xe7cnat) == 0x66967b76143f570b8aee3f9c2ca054f12755dbe1a64c164f685efff65ff79215int);
    assert(fpow(g, 0xe7dnat) == fmul(fpow(g, 0xe7cnat), g));
    vstd::arithmetic::div_mod::lemma_fundamental_div_mod_converse(0x66967b76143f570b8aee3f9c2ca054f12755dbe1a64c164f685efff65ff79215int * 7, modulus(), 0x6int, 0x168b7447940a719f9928ad14fe9742781ce72b198c1e7431da98ffc29fc4fe8dint);
    assert(fpow(g, 0xe7dnat) == 0x168b7447940a719f9928ad14fe9742781ce72b198c1e7431da98ffc29fc4fe8dint);
    lemma_fpow_double(g, 0xe7dnat);
    assert(0x1cfanat == 2 * 0xe7dnat);
    vstd::arithmetic::div_mod::lemma_fundamental_div_mod_converse(0x168b7447940a719f9928ad14fe9742781ce72b198c1e7431da98ffc29fc4fe8dint * 0x168b7447940a719f9928ad14fe9742781ce72b198c1e7431da98ffc29fc4fe8dint, modulus(), 0x46261f5f45ed9f2e4f8932c0a11467bd5d269d43ea309be98e57f79d79b6fb5int, 0x570c502e9d32651eabbedaa7c3d1c05ac2a9f873f5069d21a78aefb91368a9f4int);
    assert(fpow(g, 0x1cfanat) == 0x570c502e9d32651eabbedaa7c3d1c05ac2a9f873f5069d21a78aefb91368a9f4int);
    assert(fpow(g, 0x1cfbnat) == fmul(fpow(g, 0x1cfanat), g));
    vstd::arithmetic::div_mod::lemma_fundamental_div_mod_converse(0x570c502e9d32651eabbedaa7c3d1c05ac2a9f873f5069d21a78aefb91368a9f4int * 7, modulus(), 0x5int, 0x1db1eca67c4d516db216c26e2a930a60aff1971cb3367ff094cc8e1487dca5a7int);
    assert(fpow(g, 0x1cfbnat) == 0x1db1eca67c4d516db216c26e2a930a60aff1971cb3367ff094cc8e1487dca5a7int);
    lemma_fpow_double(g, 0x1cfbnat);
    assert(0x39f6nat == 2 * 0x1cfbnat);
    vstd::arithmetic::div_mod::lemma_fundamental_div_mod_converse(0x1db1eca67c4d516db216c26e2a930a60aff1971cb3367ff094cc8e1487dca5a7int * 0x1db1eca67c4d516db216c26e2a930a60aff1971cb3367ff094cc8e1487dca5a7int, modulus(), 0x79b3b33cf03914b907194473fa60b63ba6f6b1e324cf93398c3b9e10acf3e19int, 0x53c5a21b548247a0cffb860ddc3ea50481b0cbb30657bd75d68d1f33396974d8int);
    assert(fpow(g, 0x39f6nat) == 0x53c5a21b548247a0cffb860ddc3ea50481b0cbb30657bd75d68d1f33396974d8int);
    lemma_fpow_double(g, 0x39f6nat);
    assert(0x73ecnat == 2 * 0x39f6nat);
    vstd::arithmetic::div_mod::lemma_fundamental_div_mod_converse(0x53c5a21b548247a0cffb860ddc3ea50481b0cbb30657bd75d68d1f33396974d8int * 0x53c5a21b548247a0cffb860ddc3ea50481b0cbb30657bd75d68d1f33396974d8int, modulus(), 0x3c89050f51d6f2ac45a82c6745ba6be22c0e4ccc5031aa836fb44ac83cb7aa35int, 0x3637140850f64a456882e40c7e3b713fd5608c42716bfb951a245ef601cccc0bint);
    assert(fpow(g, 0x73ecnat) == 0x3637140850f64a456882e40c7e3b713fd5608c42716bfb951a245ef601cccc0bint);
    assert(fpow(g, 0x73ednat) == fmul(fpow(g, 0x73ecnat), g));
    vstd::arithmetic::div_mod::lemma_fundamental_div_mod_converse(0x3637140850f64a456882e40c7e3b713fd5608c42716bfb951a245ef601cccc0bint * 7, modulus(), 0x3int, 0x1fb89640b9e3900d41e6b43f56ba90aeda6ae9c819f8cd16b6fe98bd0c99944aint);
    assert(fpow(g, 0x73ednat) == 0x1fb89640b9e3900d41e6b43f56ba90aeda6ae9c819f8cd16b6fe98bd0c99944aint);
}

/// A stretch of the square-and-multiply computation of the root of unity.
proof fn lemma_root_chain_2()
    requires
        fpow(generator_value(), 0x73ednat) == 0x1fb89640b9e3900d41e6b43f56ba90aeda6ae9c819f8cd16b6fe98bd0c99944aint,
    ensures
        fpow(generator_value(), 0x73eda6nat) == 0x6336e556bfe87ad1953d92024d7675933b4ceed5e1e4b1e16baa10ca99337dc0int,
{
    let g = generator_value();
    assert(modulus() == 0x73eda753299d7d483339d80809a1d80553bda402fffe5bfeffffffff00000001int);
    lemma_fpow_double(g, 0x73ednat);
    assert(0xe7danat == 2 * 0x73ednat);
    vstd::arithmetic::div_mod::lemma_fundamental_div_mod_converse(0x1fb89640b9e3900d41e6b43f56ba90aeda6ae9c819f8cd16b6fe98bd0c99944aint * 0x1fb89640b9e3900d41e6b43f56ba90aeda6ae9c819f8cd16b6fe98bd0c99944aint, modulus(), 0x8ae019a08692cf5c6e8a796416905a088a11f927b27374b538e4edd6c49f31dint, 0x59f02f2e5c3f903a227149c7e48b433bde8f141abd0109948f0f3b8d1a0fb247int);
    assert(fpow(g, 0xe7danat) == 0x59f02f2e5c3f903a227149c7e48b433bde8f141abd0109948f0f3b8d1a0fb247int);
    assert(fpow(g, 0xe7dbnat) == fmul(fpow(g, 0xe7danat), g));
    vstd::arithmetic::div_mod::lemma_fundamental_div_mod_converse(0x59f02f2e5c3f903a227149c7e48b433bde8f141abd0109948f0f3b8d1a0fb247int * 7, modulus(), 0x5int, 0x31ed05a4b5a97f2df0f7cc4f0fa59e88733558ac2b0f7714e96aa0e0b66ddfecint);
    assert(fpow(g, 0xe7dbnat) == 0x31ed05a4b5a97f2df0f7cc4f0fa59e88733558ac2b0f7714e96aa0e0b66ddfecint);
    lemma_fpow_double(g, 0xe7dbnat);
    assert(0x1cfb6nat == 2 * 0xe7dbnat);
    vstd::arithmetic::div_mod::lemma_fundamental_div_mod_converse(0x31ed05a4b5a97f2df0f7cc4f0fa59e88733558ac2b0f7714e96aa0e0b66ddfecint * 0x31ed05a4b5a97f2df0f7cc4f0fa59e88733558ac2b0f7714e96aa0e0b66ddfecint, modulus(), 0x15804b35ddc08e5de41c093c7aa3a19eacd099d29b8bda28075c066008b9c146int, 0x3271b44618cc89a0264fb2d7e0782a9aa7db7a670de5e84022fd0171fa1b404aint);
    assert(fpow(g, 0x1cfb6nat) == 0x3271b44618cc89a0264fb2d7e0782a9aa7db7a670de5e84022fd0171fa1b404aint);
    lemma_fpow_double(g, 0x1cfb6nat);
    assert(0x39f6cnat == 2 * 0x1cfb6nat);
    vstd::arithmetic::div_mod::lemma_fundamental_div_mod_converse(0x3271b44618cc89a0264fb2d7e0782a9aa7db7a670de5e84022fd0171fa1b404aint * 0x3271b44618cc89a0264fb2d7e0782a9aa7db7a670de5e84022fd0171fa1b404aint, modulus(), 0x15f32b4e4c836c3afbd11b684cf26c8dd430c79bd00e0aa2f718e8037deb9f51int, 0x6b4436d43c621039c177bff9bdff7e1787041d3f529b535537ff4918a9d57613int);
    assert(fpow(g, 0x39f6cnat) == 0x6b4436d43c621039c177bff9bdff7e1787041d3f529b535537ff4918a9d57613int);
    assert(fpow(g, 0x39f6dnat) == fmul(fpow(g, 0x39f6cnat), g));
    vstd::arithmetic::div_mod::lemma_fundamental_div_mod_converse(0x6b4436d43c621039c177bff9bdff7e1787041d3f529b535537ff4918a9d57613int * 7, modulus(), 0x6int, 0x374b93daacfd81e316eb2fa3f8316284baaaf4a942491f5a87faffb2a4d63a7fint);
    assert(fpow(g, 0x39f6dnat) == 0x374b93daacfd81e316eb2fa3f8316284baaaf4a942491f5a87faffb2a4d63a7fint);
    lemma_fpow_double(g, 0x39f6dnat);
    assert(0x73edanat == 2 * 0x39f6dnat);
    vstd::arithmetic::div_mod::lemma_fundamental_div_mod_converse(0x374b93daacfd81e316eb2fa3f8316284baaaf4a942491f5a87faffb2a4d63a7fint * 0x374b93daacfd81e316eb2fa3f8316284baaaf4a942491f5a87faffb2a4d63a7fint, modulus(), 0x1a5fe4e7451e0e8ddce70b815925954197c65123e0397955d6db6910a5a9e537int, 0x45b8645018d4d6fe73a58e8bee40d1181fc97ebbcbbd39666d7004faec07e5caint);
    assert(fpow(g, 0x73edanat) == 0x45b8645018d4d6fe73a58e8bee40d1181fc97ebbcbbd39666d7004faec07e5caint);
    lemma_fpow_double(g, 0x73edanat);
    assert(0xe7db4nat == 2 * 0x73edanat);
    vstd::arithmetic::div_mod::lemma_fundamental_div_mod_converse(0x45b8645018d4d6fe73a58e8bee40d1181fc97ebbcbbd39666d7004faec07e5caint * 0x45b8645018d4d6fe73a58e8bee40d1181fc97ebbcbbd39666d7004faec07e5caint, modulus(), 0x29ee2c7d70bc3155cc59586b84ab99aa6f3b4f35f5fa84d5ac01510e0111b941int, 0x1b44b008abe0ffe35c2931988169a12e15e592311690485a820a16a5ce3d4a23int);
    assert(fpow(g, 0xe7db4nat) == 0x1b44b008abe0ffe35c2931988169a12e15e592311690485a820a16a5ce3d4a23int);
    lemma_fpow_double(g, 0xe7db4nat);
    assert(0x1cfb68nat == 2 * 0xe7db4nat);
    vstd::arithmetic::div_mod::lemma_fundamental_div_mod_converse(0x1b44b008abe0ffe35c2931988169a12e15e592311690485a820a16a5ce3d4a23int * 0x1b44b008abe0ffe35c2931988169a12e15e592311690485a820a16a5ce3d4a23int, modulus(), 0x669f9e5d97b7d3df1a1c84945fc0d6a5b7053f6ce35510edb2e1fedec5a3fdbint, 0x3fdbd7ac6df8d3649b13bd8a3fc5f0e1d331b44e1ead724171ce6707d1cc00eeint);
    assert(fpow(g, 0x1cfb68nat) == 0x3fdbd7ac6df8d3649b13bd8a3fc5f0e1d331b44e1ead724171ce6707d1cc00eeint);
    assert(fpow(g, 0x1cfb69nat) == fmul(fpow(g, 0x1cfb68nat), g));
    vstd::arithmetic::div_mod::lemma_fundamental_div_mod_converse(0x3fdbd7ac6df8d3649b13bd8a3fc5f0e1d331b44e1ead724171ce6707d1cc00eeint * 7, modulus(), 0x3int, 0x6339efbd84f54fe7a3dca6afa1840e1ccb230219d6c30bcd1ca4d139bc94067fint);
    assert(fpow(g, 0x1cfb69nat) == 0x6339efbd84f54fe7a3dca6afa1840e1ccb230219d6c30bcd1ca4d139bc94067fint);
    lemma_fpow_double(g, 0x1cfb69nat);
    assert(0x39f6d2nat == 2 * 0x1cfb69nat);
    vstd::arithmetic::div_mod::lemma_fundamental_div_mod_converse(0x6339efbd84f54fe7a3dca6afa1840e1ccb230219d6c30bcd1ca4d139bc94067fint * 0x6339efbd84f54fe7a3dca6afa1840e1ccb230219d6c30bcd1ca4d139bc94067fint, modulus(), 0x54ee3aefa7cf5e465f63e32fbca15fdc107830284a3b2c67488aa15673f73696int, 0xcdab1a16ac5667b020f551a2c94a0bdf18441cf5d2966ee7d9496ef970afc6bint);
    assert(fpow(g, 0x39f6d2nat) == 0xcdab1a16ac5667b020f551a2c94a0bdf18441cf5d2966ee7d9496ef970afc6bint);
    assert(fpow(g, 0x39f6d3nat) == fmul(fpow(g, 0x39f6d2nat), g));
    vstd::arithmetic::div_mod::lemma_fundamental_div_mod_converse(0xcdab1a16ac5667b020f551a2c94a0bdf18441cf5d2966ee7d9496ef970afc6bint * 7, modulus(), 0x0int, 0x59fadb69eb65cd5d0e6b53b7381065319a9dccab8c21d0856f10208d214ce6edint);
    assert(fpow(g, 0x39f6d3nat) == 0x59fadb69eb65cd5d0e6b53b7381065319a9dccab8c21d0856f10208d214ce6edint);
    lemma_fpow_double(g, 0x39f6d3nat);
    assert(0x73eda6nat == 2 * 0x39f6d3nat);
    vstd::arithmetic::div_mod::lemma_fundamental_div_mod_converse(0x59fadb69eb65cd5d0e6b53b7381065319a9dccab8c21d0856f10208d214ce6edint * 0x59fadb69eb65cd5d0e6b53b7381065319a9dccab8c21d0856f10208d214ce6edint, modulus(), 0x45d6eda4c853969c5c2662af5a0284521475c8923403029c528fb4936dd339a9int, 0x6336e556bfe87ad1953d92024d7675933b4ceed5e1e4b1e16baa10ca99337dc0int);
    assert(fpow(g, 0x73eda6nat) == 0x6336e556bfe87ad1953d92024d7675933b4ceed5e1e4b1e16baa10ca99337dc0int);
}

/// A stretch of the square-and-multiply computation of the root of unity.
proof fn lemma_root_chain_3()
    requires
        fpow(generator_value(), 0x73eda6nat) == 0x6336e556bfe87ad1953d92024d7675933b4ceed5e1e4b1e16baa10ca99337dc0int,
    ensures
        fpow(generator_value(), 0x73eda752nat) == 0x327b4c3689c0f9d8335597e304bf25adcfb7ba433fedaef399becf7ed33901f0int,
{
    let g = generator_value();
    assert(modulus() == 0x73eda753299d7d483339d80809a1d80553bda402fffe5bfeffffffff00000001int);
    assert(fpow(g, 0x73eda7nat) == fmul(fpow(g, 0x73eda6nat), g));
    vstd::arithmetic::div_mod::lemma_fundamental_div_mod_converse(0x6336e556bfe87ad1953d92024d7675933b4ceed5e1e4b1e16baa10ca99337dc0int * 7, modulus(), 0x5int, 0x72dc00bf6f47e952148dc5e7ee13feebfc6653ca2d49112ef1a6758f3068703bint);
    assert(fpow(g, 0x73eda7nat) == 0x72dc00bf6f47e952148dc5e7ee13feebfc6653ca2d49112ef1a6758f3068703bint);
    lemma_fpow_double(g, 0x73eda7nat);
    assert(0xe7db4enat == 2 * 0x73eda7nat);
    vstd::arithmetic::div_mod::lemma_fundamental_div_mod_converse(0x72dc00bf6f47e952148dc5e7ee13feebfc6653ca2d49112ef1a6758f3068703bint * 0x72dc00bf6f47e952148dc5e7ee13feebfc6653ca2d49112ef1a6758f3068703bint, modulus(), 0x71cce020a8ad7402e8cb856309bb2d11810c58e0ce5d0d91058b77d16ab78a0aint, 0x3d42c015b9731b6b006b65b3b9697406164c8511094824959c1ab6d4166c238fint);
    assert(fpow(g, 0xe7db4enat) == 0x3d42c015b9731b6b006b65b3b9697406164c8511094824959c1ab6d4166c238fint);
    lemma_fpow_double(g, 0xe7db4enat);
    assert(0x1cfb69cnat == 2 * 0xe7db4enat);
    vstd::arithmetic::div_mod::lemma_fundamental_div_mod_converse(0x3d42c015b9731b6b006b65b3b9697406164c8511094824959c1ab6d4166c238fint * 0x3d42c015b9731b6b006b65b3b9697406164c8511094824959c1ab6d4166c238fint, modulus(), 0x205f55c391e1d52410ee6bd8c83b3fd3ada1a274aa8a460f7f4f352980a0098aint, 0x30378429021e6b2a722de7bd99d95270015dfc4b985795fe69fdd10318f86057int);
    assert(fpow(g, 0x1cfb69cnat) == 0x30378429021e6b2a722de7bd99d95270015dfc4b985795fe69fdd10318f86057int);
    assert(fpow(g, 0x1cfb69dnat) == fmul(fpow(g, 0x1cfb69cnat), g));
    vstd::arithmetic::div_mod::lemma_fundamental_div_mod_converse(0x30378429021e6b2a722de7bd99d95270015dfc4b985795fe69fdd10318f86057int * 7, modulus(), 0x2int, 0x69a94e78bb99f398b8cda61f21ad910562169e0b2a6861f6e5f0b717aecaa25fint);
    assert(fpow(g, 0x1cfb69dnat) == 0x69a94e78bb99f398b8cda61f21ad910562169e0b2a6861f6e5f0b717aecaa25fint);
    lemma_fpow_double(g, 0x1cfb69dnat);
    assert(0x39f6d3anat == 2 * 0x1cfb69dnat);
    vstd::arithmetic::div_mod::lemma_fundamental_div_mod_converse(0x69a94e78bb99f398b8cda61f21ad910562169e0b2a6861f6e5f0b717aecaa25fint * 0x69a94e78bb99f398b8cda61f21ad910562169e0b2a6861f6e5f0b717aecaa25fint, modulus(), 0x604dbbf44b1038391a9160597ed1f94cfbd00ad4a0254a3ddd6e67f36d6c4d5eint, 0x3b8abac0a0508976400f55dc64b9ece7d8bffebf1d60d02c8c02f99a5b7c11e3int);
    assert(fpow(g, 0x39f6d3anat) == 0x3b8abac0a0508976400f55dc64b9ece7d8bffebf1d60d02c8c02f99a5b7c11e3int);
    lemma_fpow_double(g, 0x39f6d3anat);
    assert(0x73eda74nat == 2 * 0x39f6d3anat);
    vstd::arithmetic::div_mod::lemma_fundamental_div_mod_converse(0x3b8abac0a0508976400f55dc64b9ece7d8bffebf1d60d02c8c02f99a5b7c11e3int * 0x3b8abac0a0508976400f55dc64b9ece7d8bffebf1d60d02c8c02f99a5b7c11e3int, modulus(), 0x1e94d025bceb7ef31e875cbb6d266203ea82842be520075bfecdb184581ce4ccint, 0x38a8db92e47de752da64a189bd15c3f6be30b7776ef70986759dbf3c5f0b0a7dint);
    assert(fpow(g, 0x73eda74nat) == 0x38a8db92e47de752da64a189bd15c3f6be30b7776ef70986759dbf3c5f0b0a7dint);
    assert(fpow(g, 0x73eda75nat) == fmul(fpow(g, 0x73eda74nat), g));
    vstd::arithmetic::div_mod::lemma_fundamental_div_mod_converse(0x38a8db92e47de752da64a189bd15c3f6be30b7776ef70986759dbf3c5f0b0a7dint * 7, modulus(), 0x3int, 0x30d50b0ac298db6b5f12e2ac0eb2d3af381c183b08c62eb037503aa9994d4968int);
    assert(fpow(g, 0x73eda75nat) == 0x30d50b0ac298db6b5f12e2ac0eb2d3af381c183b08c62eb037503aa9994d4968int);
    lemma_fpow_double(g, 0x73eda75nat);
    assert(0xe7db4eanat == 2 * 0x73eda75nat);
    vstd::arithmetic::div_mod::lemma_fundamental_div_mod_converse(0x30d50b0ac298db6b5f12e2ac0eb2d3af381c183b08c62eb037503aa9994d4968int * 0x30d50b0ac298db6b5f12e2ac0eb2d3af381c183b08c62eb037503aa9994d4968int, modulus(), 0x1491c868d59bb602e023df3dac6422d86de12d18d79cb1fe8e50b443471b5ac4int, 0x48bccb4f9cc5affa1fdc0c6b419701037309763e138f8bb412e62ae446811f7cint);
    assert(fpow(g, 0xe7db4eanat) == 0x48bccb4f9cc5affa1fdc0c6b419701037309763e138f8bb412e62ae446811f7cint);
    lemma_fpow_double(g, 0xe7db4eanat);
    assert(0x1cfb69d4nat == 2 * 0xe7db4eanat);
    vstd::arithmetic::div_mod::lemma_fundamental_div_mod_converse(0x48bccb4f9cc5affa1fdc0c6b419701037309763e138f8bb412e62ae446811f7cint * 0x48bccb4f9cc5affa1fdc0c6b419701037309763e138f8bb412e62ae446811f7cint, modulus(), 0x2da355d1b24941619f23067f31045f4d184984464153f1b55f04cf8bb349a430int, 0xe0353987b259882a40b624ae6e7fd138181a419c7eebb885ed477dcdb8d9fe0int);
    assert(fpow(g, 0x1cfb69d4nat) == 0xe0353987b259882a40b624ae6e7fd138181a419c7eebb885ed477dcdb8d9fe0int);
    lemma_fpow_double(g, 0x1cfb69d4nat);
    assert(0x39f6d3a8nat == 2 * 0x1cfb69d4nat);
    vstd::arithmetic::div_mod::lemma_fundamental_div_mod_converse(0xe0353987b259882a40b624ae6e7fd138181a419c7eebb885ed477dcdb8d9fe0int * 0xe0353987b259882a40b624ae6e7fd138181a419c7eebb885ed477dcdb8d9fe0int, modulus(), 0x1b19f79ba6f5cf09226da5cf13e1cf58f36b1c3f0841c3787c8471333bf7c25int, 0x46621cd38bda124870b068c9abc2c1354ed5696894622fa1b94fdbf48cd887dbint);
    assert(fpow(g, 0x39f6d3a8nat) == 0x46621cd38bda124870b068c9abc2c1354ed5696894622fa1b94fdbf48cd887dbint);
    assert(fpow(g, 0x39f6d3a9nat) == fmul(fpow(g, 0x39f6d3a8nat), g));
    vstd::arithmetic::div_mod::lemma_fundamental_div_mod_converse(0x46621cd38bda124870b068c9abc2c1354ed5696894622fa1b94fdbf48cd887dbint * 7, modulus(), 0x4int, 0x1cf82c7c2c808ada47eb7d638bcbe85fd8df51d00eb5dd70112f03b3d9ebb6f9int);
    assert(fpow(g, 0x39f6d3a9nat) == 0x1cf82c7c2c808ada47eb7d638bcbe85fd8df51d00eb5dd70112f03b3d9ebb6f9int);
    lemma_fpow_double(g, 0x39f6d3a9nat);
    assert(0x73eda752nat == 2 * 0x39f6d3a9nat);
    vstd::arithmetic::div_mod::lemma_fundamental_div_mod_converse(0x1cf82c7c2c808ada47eb7d638bcbe85fd8df51d00eb5dd70112f03b3d9ebb6f9int * 0x1cf82c7c2c808ada47eb7d638bcbe85fd8df51d00eb5dd70112f03b3d9ebb6f9int, modulus(), 0x73d3be010c1774852b0144e82e1bfcaf95120720dbe55b165d05833beb3fc41int, 0x327b4c3689c0f9d8335597e304bf25adcfb7ba433fedaef399becf7ed33901f0int);
    assert(fpow(g, 0x73eda752nat) == 0x327b4c3689c0f9d8335597e304bf25adcfb7ba433fedaef399becf7ed33901f0int);
}

/// A stretch of the square-and-multiply computation of the root of unity.
proof fn lemma_root_chain_4()
    requires
        fpow(generator_value(), 0x73eda752nat) == 0x327b4c3689c0f9d8335597e304bf25adcfb7ba433fedaef399becf7ed33901f0int,
    ensures
        fpow(generator_value(), 0x73eda75329nat) == 0x3787f5aa7c48fafd3699edb92f9a45e6fed43e93cedccab9e64b34940cde12b6int,
{
    let g = generator_value();
    assert(modulus() == 0x73eda753299d7d483339d80809a1d80553bda402fffe5bfeffffffff00000001int);
    assert(fpow(g, 0x73eda753nat) == fmul(fpow(g, 0x73eda752nat), g));
    vstd::arithmetic::div_mod::lemma_fundamental_div_mod_converse(0x327b4c3689c0f9d8335597e304bf25adcfb7ba433fedaef399becf7ed33901f0int * 7, modulus(), 0x3int, 0x5961f84476e5d10cda99f1d04547fb0b2cd2bcdbf84b4ac3437ac7ac68f0d8dint);
    assert(fpow(g, 0x73eda753nat) == 0x5961f84476e5d10cda99f1d04547fb0b2cd2bcdbf84b4ac3437ac7ac68f0d8dint);
    lemma_fpow_double(g, 0x73eda753nat);
    assert(0xe7db4ea6nat == 2 * 0x73eda753nat);
    vstd::arithmetic::div_mod::lemma_fundamental_div_mod_converse(0x5961f84476e5d10cda99f1d04547fb0b2cd2bcdbf84b4ac3437ac7ac68f0d8dint * 0x5961f84476e5d10cda99f1d04547fb0b2cd2bcdbf84b4ac3437ac7ac68f0d8dint, modulus(), 0x44ea62229bfb4a529295213f1bca8de865982ae4904dc0926034b29f25b85cint, 0x4a4342be41db382d13bf9d685b748943d7ec403ffbbdb1713beb7ef3a117e74dint);
    assert(fpow(g, 0xe7db4ea6nat) == 0x4a4342be41db382d13bf9d685b748943d7ec403ffbbdb1713beb7ef3a117e74dint);
    lemma_fpow_double(g, 0xe7db4ea6nat);
    assert(0x1cfb69d4cnat == 2 * 0xe7db4ea6nat);
    vstd::arithmetic::div_mod::lemma_fundamental_div_mod_converse(0x4a4342be41db382d13bf9d685b748943d7ec403ffbbdb1713beb7ef3a117e74dint * 0x4a4342be41db382d13bf9d685b748943d7ec403ffbbdb1713beb7ef3a117e74dint, modulus(), 0x2f92750a58da90db301a8a104eaf8576066cbd8c64497423ce12774078d3cdfcint, 0x167109fc5abcb85e11b87d78477830096a948bdfc9b26e01908f5213c1fe3f2dint);
    assert(fpow(g, 0x1cfb69d4cnat) == 0x167109fc5abcb85e11b87d78477830096a948bdfc9b26e01908f5213c1fe3f2dint);
    lemma_fpow_double(g, 0x1cfb69d4cnat);
    assert(0x39f6d3a98nat == 2 * 0x1cfb69d4cnat);
    vstd::arithmetic::div_mod::lemma_fundamental_div_mod_converse(0x167109fc5abcb85e11b87d78477830096a948bdfc9b26e01908f5213c1fe3f2dint * 0x167109fc5abcb85e11b87d78477830096a948bdfc9b26e01908f5213c1fe3f2dint, modulus(), 0x45821d59f7dbfb578a3ed251d9ecc819ad98a51f6fc1ac35b893b7ffb320bb8int, 0x199b2c692a3ed38cd99bf57f39688ff6b652df830875a1b913265ca94bb12231int);
    assert(fpow(g, 0x39f6d3a98nat) == 0x199b2c692a3ed38cd99bf57f39688ff6b652df830875a1b913265ca94bb12231int);
    assert(fpow(g, 0x39f6d3a99nat) == fmul(fpow(g, 0x39f6d3a98nat), g));
    vstd::arithmetic::div_mod::lemma_fundamental_div_mod_converse(0x199b2c692a3ed38cd99bf57f39688ff6b652df830875a1b913265ca94bb12231int * 7, modulus(), 0x1int, 0x3f508f8cfe1a4b91c009de72883a17b9a88678923b391010860c88a211d7ef56int);
    assert(fpow(g, 0x39f6d3a99nat) == 0x3f508f8cfe1a4b91c009de72883a17b9a88678923b391010860c88a211d7ef56int);
    lemma_fpow_double(g, 0x39f6d3a99nat);
    assert(0x73eda7532nat == 2 * 0x39f6d3a99nat);
    vstd::arithmetic::div_mod::lemma_fundamental_div_mod_converse(0x3f508f8cfe1a4b91c009de72883a17b9a88678923b391010860c88a211d7ef56int * 0x3f508f8cfe1a4b91c009de72883a17b9a88678923b391010860c88a211d7ef56int, modulus(), 0x22945d9b45562c50479b22ab51548814ef43d1fd72ab026b356d8c068be047d8int, 0x52063d998d888fe4570c21922b4181a86c61d11e7882308fd3576896c255690cint);
    assert(fpow(g, 0x73eda7532nat) == 0x52063d998d888fe4570c21922b4181a86c61d11e7882308fd3576896c255690cint);
    lemma_fpow_double(g, 0x73eda7532nat);
    assert(0xe7db4ea64nat == 2 * 0x73eda7532nat);
    vstd::arithmetic::div_mod::lemma_fundamental_div_mod_converse(0x52063d998d888fe4570c21922b4181a86c61d11e7882308fd3576896c255690cint * 0x52063d998d888fe4570c21922b4181a86c61d11e7882308fd3576896c255690cint, modulus(), 0x3a092cf022d7f152aedd8f0738da37a3e25fc447ab118b10f1ac1d7a6f9aaf3aint, 0x5916396883473a3fe3ea512d0ce104c2651fcb47563bfcf0610cfb84ad782956int);
    assert(fpow(g, 0xe7db4ea64nat) == 0x5916396883473a3fe3ea512d0ce104c2651fcb47563bfcf0610cfb84ad782956int);
    assert(fpow(g, 0xe7db4ea65nat) == fmul(fpow(g, 0xe7db4ea64nat), g));
    vstd::arithmetic::div_mod::lemma_fundamental_div_mod_converse(0x5916396883473a3fe3ea512d0ce104c2651fcb47563bfcf0610cfb84ad782956int * 7, modulus(), 0x5int, 0x2bf74d3bc6df25563b47001329fde936212a5ae45bac1e97a75ae0a5be492155int);
    assert(fpow(g, 0xe7db4ea65nat) == 0x2bf74d3bc6df25563b47001329fde936212a5ae45bac1e97a75ae0a5be492155int);
    lemma_fpow_double(g, 0xe7db4ea65nat);
    assert(0x1cfb69d4canat == 2 * 0xe7db4ea65nat);
    vstd::arithmetic::div_mod::lemma_fundamental_div_mod_converse(0x2bf74d3bc6df25563b47001329fde936212a5ae45bac1e97a75ae0a5be492155int * 0x2bf74d3bc6df25563b47001329fde936212a5ae45bac1e97a75ae0a5be492155int, modulus(), 0x10ac97bc9c42a6269028d776506545f0dfeb184d7e85dfb215e6454b64dc7646int, 0x6f3343f3ce9d0da67009785b5fb299602302e4317c849f5c76c48aeacdf48ff3int);
    assert(fpow(g, 0x1cfb69d4canat) == 0x6f3343f3ce9d0da67009785b5fb299602302e4317c849f5c76c48aeacdf48ff3int);
    lemma_fpow_double(g, 0x1cfb69d4canat);
    assert(0x39f6d3a994nat == 2 * 0x1cfb69d4canat);
    vstd::arithmetic::div_mod::lemma_fundamental_div_mod_converse(0x6f3343f3ce9d0da67009785b5fb299602302e4317c849f5c76c48aeacdf48ff3int * 0x6f3343f3ce9d0da67009785b5fb299602302e4317c849f5c76c48aeacdf48ff3int, modulus(), 0x6aaa3e09dcdcb1415d41aa968c7295adcb1e30340ebb764f92e2a25a5e3ee53fint, 0x36ef7333dd7b7307eceafaad0cfc05c2332aad95387b8e8b0f6eff4e87ea7b6aint);
    assert(fpow(g, 0x39f6d3a994nat) == 0x36ef7333dd7b7307eceafaad0cfc05c2332aad95387b8e8b0f6eff4e87ea7b6aint);
    lemma_fpow_double(g, 0x39f6d3a994nat);
    assert(0x73eda75328nat == 2 * 0x39f6d3a994nat);
    vstd::arithmetic::div_mod::lemma_fundamental_div_mod_converse(0x36ef7333dd7b7307eceafaad0cfc05c2332aad95387b8e8b0f6eff4e87ea7b6aint * 0x36ef7333dd7b7307eceafaad0cfc05c2332aad95387b8e8b0f6eff4e87ea7b6aint, modulus(), 0x1a084b69bfadb7976c7027cbdf7c915d6b1a7e2d1ab6fa4a5f1e1585a37072eeint, 0x4a2d82b5973fd928dbede68cc32960dae68aafcdafd57619fc53e2f001d694f6int);
    assert(fpow(g, 0x73eda75328nat) == 0x4a2d82b5973fd928dbede68cc32960dae68aafcdafd57619fc53e2f001d694f6int);
    assert(fpow(g, 0x73eda75329nat) == fmul(fpow(g, 0x73eda75328nat), g));
    vstd::arithmetic::div_mod::lemma_fundamental_div_mod_converse(0x4a2d82b5973fd928dbede68cc32960dae68aafcdafd57619fc53e2f001d694f6int * 7, modulus(), 0x4int, 0x3787f5aa7c48fafd3699edb92f9a45e6fed43e93cedccab9e64b34940cde12b6int);
    assert(fpow(g, 0x73eda75329nat) == 0x3787f5aa7c48fafd3699edb92f9a45e6fed43e93cedccab9e64b34940cde12b6int);
}

/// A stretch of the square-and-multiply computation of the root of unity.
proof fn lemma_root_chain_5()
    requires
        fpow(generator_value(), 0x73eda75329nat) == 0x3787f5aa7c48fafd3699edb92f9a45e6fed43e93cedccab9e64b34940cde12b6int,
    ensures
        fpow(generator_value(), 0x73eda753299cnat) == 0xaddb282732522418e132649d8d4f3e44104e17c30d861a1536dc040b027da40int,
{
    let g = generator_value();
    assert(modulus() == 0x73eda753299d7d483339d80809a1d80553bda402fffe5bfeffffffff00000001int);
    lemma_fpow_double(g, 0x73eda75329nat);
    assert(0xe7db4ea652nat == 2 * 0x73eda75329nat);
    vstd::arithmetic::div_mod::lemma_fundamental_div_mod_converse(0x3787f5aa7c48fafd3699edb92f9a45e6fed43e93cedccab9e64b34940cde12b6int * 0x3787f5aa7c48fafd3699edb92f9a45e6fed43e93cedccab9e64b34940cde12b6int, modulus(), 0x1a999e6a54b485194f97dea9e2a3c9103203e3e279d59f7bfc0cad673050a418int, 0x4580e7fcab655c5f7bd2c456e0034bfd601e6ba8ffb863a64bed1b8654b5754cint);
    assert(fpow(g, 0xe7db4ea652nat) == 0x4580e7fcab655c5f7bd2c456e0034bfd601e6ba8ffb863a64bed1b8654b5754cint);
    assert(fpow(g, 0xe7db4ea653nat) == fmul(fpow(g, 0xe7db4ea652nat), g));
    vstd::arithmetic::div_mod::lemma_fundamental_div_mod_converse(0x4580e7fcab655c5f7bd2c456e0034bfd601e6ba8ffb863a64bed1b8654b5754cint * 7, modulus(), 0x4int, 0x16cfba9c094f917b95dbfe3ff98fb3d851de6192fe114990137bc0b050f63510int);
    assert(fpow(g, 0xe7db4ea653nat) == 0x16cfba9c094f917b95dbfe3ff98fb3d851de6192fe114990137bc0b050f63510int);
    lemma_fpow_double(g, 0xe7db4ea653nat);
    assert(0x1cfb69d4ca6nat == 2 * 0xe7db4ea653nat);
    vstd::arithmetic::div_mod::lemma_fundamental_div_mod_converse(0x16cfba9c094f917b95dbfe3ff98fb3d851de6192fe114990137bc0b050f63510int * 0x16cfba9c094f917b95dbfe3ff98fb3d851de6192fe114990137bc0b050f63510int, modulus(), 0x47d183d80f42b362716cf8fbe139d547711ea1493d1a7015dc941c9370363c8int, 0x42295551f3923d4c99f001d791934a52644fb8d2c2893be7f255e5f2cebc3d38int);
    assert(fpow(g, 0x1cfb69d4ca6nat) == 0x42295551f3923d4c99f001d791934a52644fb8d2c2893be7f255e5f2cebc3d38int);
    lemma_fpow_double(g, 0x1cfb69d4ca6nat);
    assert(0x39f6d3a994cnat == 2 * 0x1cfb69d4ca6nat);
    vstd::arithmetic::div_mod::lemma_fundamental_div_mod_converse(0x42295551f3923d4c99f001d791934a52644fb8d2c2893be7f255e5f2cebc3d38int * 0x42295551f3923d4c99f001d791934a52644fb8d2c2893be7f255e5f2cebc3d38int, modulus(), 0x25c24e245c6431fc7bcb9fe13af99628e95bc0d7b174bf7f8c98e9daba70d0acint, 0x4480af9b7b7ff903ff0f8b5207bebb452d650d8f7e72eefdfd6551a15e72eb94int);
    assert(fpow(g, 0x39f6d3a994cnat) == 0x4480af9b7b7ff903ff0f8b5207bebb452d650d8f7e72eefdfd6551a15e72eb94int);
    lemma_fpow_double(g, 0x39f6d3a994cnat);
    assert(0x73eda753298nat == 2 * 0x39f6d3a994cnat);
    vstd::arithmetic::div_mod::lemma_fundamental_div_mod_converse(0x4480af9b7b7ff903ff0f8b5207bebb452d650d8f7e72eefdfd6551a15e72eb94int * 0x4480af9b7b7ff903ff0f8b5207bebb452d650d8f7e72eefdfd6551a15e72eb94int, modulus(), 0x287a85c5954a6a76fb1c841ae60f52ac06822b01efb2dd4cb16d80a73ede4de7int, 0x34749ad53674f8e8bbcd2ee104e35a7f9348f5fe0d6fef96a0b15dff19babfa9int);
    assert(fpow(g, 0x73eda753298nat) == 0x34749ad53674f8e8bbcd2ee104e35a7f9348f5fe0d6fef96a0b15dff19babfa9int);
    assert(fpow(g, 0x73eda753299nat) == fmul(fpow(g, 0x73eda753298nat), g));
    vstd::arithmetic::div_mod::lemma_fundamental_div_mod_converse(0x34749ad53674f8e8bbcd2ee104e35a7f9348f5fe0d6fef96a0b15dff19babfa9int * 7, modulus(), 0x3int, 0x136745db005a568488eec00f0551f16d0bc5cde95e14792164d991fcb41b3d9cint);
    assert(fpow(g, 0x73eda753299nat) == 0x136745db005a568488eec00f0551f16d0bc5cde95e14792164d991fcb41b3d9cint);
    lemma_fpow_double(g, 0x73eda753299nat);
    assert(0xe7db4ea6532nat == 2 * 0x73eda753299nat);
    vstd::arithmetic::div_mod::lemma_fundamental_div_mod_converse(0x136745db005a568488eec00f0551f16d0bc5cde95e14792164d991fcb41b3d9cint * 0x136745db005a568488eec00f0551f16d0bc5cde95e14792164d991fcb41b3d9cint, modulus(), 0x33f64a99d17a0992866e3b270cc066ff5e2e960780733baaab1cf0b4c843f3eint, 0x26480b308f67bf73f0301e8230f20f9f679b890b14f2c890e46cc4dc213777d2int);
    assert(fpow(g, 0xe7db4ea6532nat) == 0x26480b308f67bf73f0301e8230f20f9f679b890b14f2c890e46cc4dc213777d2int);
    assert(fpow(g, 0xe7db4ea6533nat) == fmul(fpow(g, 0xe7db4ea6532nat), g));
    vstd::arithmetic::div_mod::lemma_fundamental_div_mod_converse(0x26480b308f67bf73f0301e8230f20f9f679b890b14f2c890e46cc4dc213777d2int * 7, modulus(), 0x2int, 0x241cffad989b419b2add257f435abd512dc5774792a6c3f83ef96206e88446bcint);
    assert(fpow(g, 0xe7db4ea6533nat) == 0x241cffad989b419b2add257f435abd512dc5774792a6c3f83ef96206e88446bcint);
    lemma_fpow_double(g, 0xe7db4ea6533nat);
    assert(0x1cfb69d4ca66nat == 2 * 0xe7db4ea6533nat);
    vstd::arithmetic::div_mod::lemma_fundamental_div_mod_converse(0x241cffad989b419b2add257f435abd512dc5774792a6c3f83ef96206e88446bcint * 0x241cffad989b419b2add257f435abd512dc5774792a6c3f83ef96206e88446bcint, modulus(), 0xb3ff1d902453dc913a4a9b548cf626c0e7d736c46b14cbc00e060a52fd07fdcint, 0x543351dac7ebc8c6624023ed4eb983c65856f5c5b39a5ced8336494959ada34int);
    assert(fpow(g, 0x1cfb69d4ca66nat) == 0x543351dac7ebc8c6624023ed4eb983c65856f5c5b39a5ced8336494959ada34int);
    assert(fpow(g, 0x1cfb69d4ca67nat) == fmul(fpow(g, 0x1cfb69d4ca66nat), g));
    vstd::arithmetic::div_mod::lemma_fundamental_div_mod_converse(0x543351dac7ebc8c6624023ed4eb983c65856f5c5b39a5ced8336494959ada34int * 7, modulus(), 0x0int, 0x24d673cfb77727d6cafc0fb7d27129a6c6a60b867e9388a7e967c010173bf76cint);
    assert(fpow(g, 0x1cfb69d4ca67nat) == 0x24d673cfb77727d6cafc0fb7d27129a6c6a60b867e9388a7e967c010173bf76cint);
    lemma_fpow_double(g, 0x1cfb69d4ca67nat);
    assert(0x39f6d3a994cenat == 2 * 0x1cfb69d4ca67nat);
    vstd::arithmetic::div_mod::lemma_fundamental_div_mod_converse(0x24d673cfb77727d6cafc0fb7d27129a6c6a60b867e9388a7e967c010173bf76cint * 0x24d673cfb77727d6cafc0fb7d27129a6c6a60b867e9388a7e967c010173bf76cint, modulus(), 0xbb4a576e93a717706365ed6c0bf03413c7a0d9c93dd5c55e089f2515c2028e1int, 0x1c46cd5ff042a3f2c1942cf619821375237cd460505b7045093af89106c96cafint);
    assert(fpow(g, 0x39f6d3a994cenat) == 0x1c46cd5ff042a3f2c1942cf619821375237cd460505b7045093af89106c96cafint);
    lemma_fpow_double(g, 0x39f6d3a994cenat);
    assert(0x73eda753299cnat == 2 * 0x39f6d3a994cenat);
    vstd::arithmetic::div_mod::lemma_fundamental_div_mod_converse(0x1c46cd5ff042a3f2c1942cf619821375237cd460505b7045093af89106c96cafint * 0x1c46cd5ff042a3f2c1942cf619821375237cd460505b7045093af89106c96cafint, modulus(), 0x6e5a59d1a1b94bc9d5432066c9c693ef089c45de0fe0d408996c2f25cca4561int, 0xaddb282732522418e132649d8d4f3e44104e17c30d861a1536dc040b027da40int);
    assert(fpow(g, 0x73eda753299cnat) == 0xaddb282732522418e132649d8d4f3e44104e17c30d861a1536dc040b027da40int);
}

/// A stretch of the square-and-multiply computation of the root of unity.
proof fn lemma_root_chain_6()
    requires
        fpow(generator_value(), 0x73eda753299cnat) == 0xaddb282732522418e132649d8d4f3e44104e17c30d861a1536dc040b027da40int,
    ensures
        fpow(generator_value(), 0x1cfb69d4ca675fnat) == 0x3cf0902b2f227b259e28f52a319f527e309921af4e07dce43b46db5cf558fa64int,
{
    let g = generator_value();
    assert(modulus() == 0x73eda753299d7d483339d80809a1d80553bda402fffe5bfeffffffff00000001int);
    assert(fpow(g, 0x73eda753299dnat) == fmul(fpow(g, 0x73eda753299cnat), g));
    vstd::arithmetic::div_mod::lemma_fundamental_div_mod_converse(0xaddb282732522418e132649d8d4f3e44104e17c30d861a1536dc040b027da40int * 7, modulus(), 0x0int, 0x4c0fe1912603efcae2860c04edd2ab3dc7222a6555eaab69480041c4d116f7c0int);
    assert(fpow(g, 0x73eda753299dnat) == 0x4c0fe1912603efcae2860c04edd2ab3dc7222a6555eaab69480041c4d116f7c0int);
    lemma_fpow_double(g, 0x73eda753299dnat);
    assert(0xe7db4ea6533anat == 2 * 0x73eda753299dnat);
    vstd::arithmetic::div_mod::lemma_fundamental_div_mod_converse(0x4c0fe1912603efcae2860c04edd2ab3dc7222a6555eaab69480041c4d116f7c0int * 0x4c0fe1912603efcae2860c04edd2ab3dc7222a6555eaab69480041c4d116f7c0int, modulus(), 0x31e7bee3af5a903871c03262da78a0fd3d081c0c2554de62e8298a86a23a120fint, 0x6ac06c2977cb2bd86ae9fc9d5d30c1feacd60a110038a8d39d1e81f6289fdf1int);
    assert(fpow(g, 0xe7db4ea6533anat) == 0x6ac06c2977cb2bd86ae9fc9d5d30c1feacd60a110038a8d39d1e81f6289fdf1int);
    lemma_fpow_double(g, 0xe7db4ea6533anat);
    assert(0x1cfb69d4ca674nat == 2 * 0xe7db4ea6533anat);
    vstd::arithmetic::div_mod::lemma_fundamental_div_mod_converse(0x6ac06c2977cb2bd86ae9fc9d5d30c1feacd60a110038a8d39d1e81f6289fdf1int * 0x6ac06c2977cb2bd86ae9fc9d5d30c1feacd60a110038a8d39d1e81f6289fdf1int, modulus(), 0x624d270548ef50e5ad88ad26702ded66c7986866c3d83e92385520f527b028int, 0x662536cf6444f6422a68b7fe16da9826cd9e5d1a72a69b5d780f9c3356b08cb9int);
    assert(fpow(g, 0x1cfb69d4ca674nat) == 0x662536cf6444f6422a68b7fe16da9826cd9e5d1a72a69b5d780f9c3356b08cb9int);
    assert(fpow(g, 0x1cfb69d4ca675nat) == fmul(fpow(g, 0x1cfb69d4ca674nat), g));
    vstd::arithmetic::div_mod::lemma_fundamental_div_mod_converse(0x662536cf6444f6422a68b7fe16da9826cd9e5d1a72a69b5d780f9c3356b08cb9int * 7, modulus(), 0x6int, 0x137293b8c431cc1df581f7c2662f18efa8e2b3a722981794486d456d5ed3d909int);
    assert(fpow(g, 0x1cfb69d4ca675nat) == 0x137293b8c431cc1df581f7c2662f18efa8e2b3a722981794486d456d5ed3d909int);
    lemma_fpow_double(g, 0x1cfb69d4ca675nat);
    assert(0x39f6d3a994ceanat == 2 * 0x1cfb69d4ca675nat);
    vstd::arithmetic::div_mod::lemma_fundamental_div_mod_converse(0x137293b8c431cc1df581f7c2662f18efa8e2b3a722981794486d456d5ed3d909int * 0x137293b8c431cc1df581f7c2662f18efa8e2b3a722981794486d456d5ed3d909int, modulus(), 0x3432e7b570b0b507f461652fbbbfe3f405f81b349ee13ea1038cc457bed9aa2int, 0x3c6b3b722d27419b3236d290df84692ce0a2fa0f9fdab9b963e4bcb89ce8a7afint);
    assert(fpow(g, 0x39f6d3a994ceanat) == 0x3c6b3b722d27419b3236d290df84692ce0a2fa0f9fdab9b963e4bcb89ce8a7afint);
    assert(fpow(g, 0x39f6d3a994cebnat) == fmul(fpow(g, 0x39f6d3a994ceanat), g));
    vstd::arithmetic::div_mod::lemma_fundamental_div_mod_converse(0x3c6b3b722d27419b3236d290df84692ce0a2fa0f9fdab9b963e4bcb89ce8a7afint * 7, modulus(), 0x3int, 0x4b25aa25bf3a5365c5d239ddffb9582a293bea645f000014bb41290f4a5c95c6int);
    assert(fpow(g, 0x39f6d3a994cebnat) == 0x4b25aa25bf3a5365c5d239ddffb9582a293bea645f000014bb41290f4a5c95c6int);
    lemma_fpow_double(g, 0x39f6d3a994cebnat);
    assert(0x73eda753299d6nat == 2 * 0x39f6d3a994cebnat);
    vstd::arithmetic::div_mod::lemma_fundamental_div_mod_converse(0x4b25aa25bf3a5365c5d239ddffb9582a293bea645f000014bb41290f4a5c95c6int * 0x4b25aa25bf3a5365c5d239ddffb9582a293bea645f000014bb41290f4a5c95c6int, modulus(), 0x30b63fd58dc8c154b2d05ac82d5f5ef2a39c4e88f3700d72eb6c9bb8a169971bint, 0x5cc1000b0767dd1211fd79da75dce3e5858090f19ec2c4df7cf59ca8d4867e09int);
    assert(fpow(g, 0x73eda753299d6nat) == 0x5cc1000b0767dd1211fd79da75dce3e5858090f19ec2c4df7cf59ca8d4867e09int);
    assert(fpow(g, 0x73eda753299d7nat) == fmul(fpow(g, 0x73eda753299d6nat), g));
    vstd::arithmetic::div_mod::lemma_fundamental_div_mod_converse(0x5cc1000b0767dd1211fd79da75dce3e5858090f19ec2c4df7cf59ca8d4867e09int * 7, modulus(), 0x5int, 0x45a2bbad63c399157dcd1cd108e1032c03cfc28c575b96216ab748a2cfad723aint);
    assert(fpow(g, 0x73eda753299d7nat) == 0x45a2bbad63c399157dcd1cd108e1032c03cfc28c575b96216ab748a2cfad723aint);
    lemma_fpow_double(g, 0x73eda753299d7nat);
    assert(0xe7db4ea6533aenat == 2 * 0x73eda753299d7nat);
    vstd::arithmetic::div_mod::lemma_fundamental_div_mod_converse(0x45a2bbad63c399157dcd1cd108e1032c03cfc28c575b96216ab748a2cfad723aint * 0x45a2bbad63c399157dcd1cd108e1032c03cfc28c575b96216ab748a2cfad723aint, modulus(), 0x29d4235ae320d148b45950a152384a00f558cd9da50aa1a52ee2acb1af4ebdb6int, 0x5443d89febb98c6fb0a6c5f3bc4c71a21379644f979154a4e79736a9b20cf76eint);
    assert(fpow(g, 0xe7db4ea6533aenat) == 0x5443d89febb98c6fb0a6c5f3bc4c71a21379644f979154a4e79736a9b20cf76eint);
    assert(fpow(g, 0xe7db4ea6533afnat) == fmul(fpow(g, 0xe7db4ea6533aenat), g));
    vstd::arithmetic::div_mod::lemma_fundamental_div_mod_converse(0x5443d89febb98c6fb0a6c5f3bc4c71a21379644f979154a4e79736a9b20cf76eint * 7, modulus(), 0x5int, 0xa36a7bfa1ff64a4d46e3181f5ede353e59d8a1e2501848755227ea8de5ac3fdint);
    assert(fpow(g, 0xe7db4ea6533afnat) == 0xa36a7bfa1ff64a4d46e3181f5ede353e59d8a1e2501848755227ea8de5ac3fdint);
    lemma_fpow_double(g, 0xe7db4ea6533afnat);
    assert(0x1cfb69d4ca675enat == 2 * 0xe7db4ea6533afnat);
    vstd::arithmetic::div_mod::lemma_fundamental_div_mod_converse(0xa36a7bfa1ff64a4d46e3181f5ede353e59d8a1e2501848755227ea8de5ac3fdint * 0xa36a7bfa1ff64a4d46e3181f5ede353e59d8a1e2501848755227ea8de5ac3fdint, modulus(), 0xe65b1b4b6fdb4133766f734c929fee3660e6e531417ce106ceaff20ce2b1faint, 0x5b82f9d3db50d8cb3b2f2b0bc4d381838be679f69d6daa690877d631230cb60fint);
    assert(fpow(g, 0x1cfb69d4ca675enat) == 0x5b82f9d3db50d8cb3b2f2b0bc4d381838be679f69d6daa690877d631230cb60fint);
    assert(fpow(g, 0x1cfb69d4ca675fnat) == fmul(fpow(g, 0x1cfb69d4ca675enat), g));
    vstd::arithmetic::div_mod::lemma_fundamental_div_mod_converse(0x5b82f9d3db50d8cb3b2f2b0bc4d381838be679f69d6daa690877d631230cb60fint * 7, modulus(), 0x5int, 0x3cf0902b2f227b259e28f52a319f527e309921af4e07dce43b46db5cf558fa64int);
    assert(fpow(g, 0x1cfb69d4ca675fnat) == 0x3cf0902b2f227b259e28f52a319f527e309921af4e07dce43b46db5cf558fa64int);
}

/// A stretch of the square-and-multiply computation of the root of unity.
proof fn lemma_root_chain_7()
    requires
        fpow(generator_value(), 0x1cfb69d4ca675fnat) == 0x3cf0902b2f227b259e28f52a319f527e309921af4e07dce43b46db5cf558fa64int,
    ensures
        fpow(generator_value(), 0x39f6d3a994cebea4nat) == 0x17fc8bd7563524fe3397dc3c76eb0776b63ad229d44a7a4a4782844bce28f377int,
{
    let g = generator_value();
    assert(modulus() == 0x73eda753299d7d483339d80809a1d80553bda402fffe5bfeffffffff00000001int);
    lemma_fpow_double(g, 0x1cfb69d4ca675fnat);
    assert(0x39f6d3a994cebenat == 2 * 0x1cfb69d4ca675fnat);
    vstd::arithmetic::div_mod::lemma_fundamental_div_mod_converse(0x3cf0902b2f227b259e28f52a319f527e309921af4e07dce43b46db5cf558fa64int * 0x3cf0902b2f227b259e28f52a319f527e309921af4e07dce43b46db5cf558fa64int, modulus(), 0x2008b384ac0f9a185d4673765bcc8df5fb9d15aa5f1124cce34fd52b2f9d4929int, 0x62bd49d6a967036cb4d14c43f3d105baddcf9f1ae21a7d41d27bf20e520a2de7int);
    assert(fpow(g, 0x39f6d3a994cebenat) == 0x62bd49d6a967036cb4d14c43f3d105baddcf9f1ae21a7d41d27bf20e520a2de7int);
    lemma_fpow_double(g, 0x39f6d3a994cebenat);
    assert(0x73eda753299d7cnat == 2 * 0x39f6d3a994cebenat);
    vstd::arithmetic::div_mod::lemma_fundamental_div_mod_converse(0x62bd49d6a967036cb4d14c43f3d105baddcf9f1ae21a7d41d27bf20e520a2de7int * 0x62bd49d6a967036cb4d14c43f3d105baddcf9f1ae21a7d41d27bf20e520a2de7int, modulus(), 0x54195fcc934ee4e0b9df71ba9bf8e5a9f9b105e34ea82feebae6a131ad150603int, 0x4eff012f1e5f27de1aade90f719ae408f6d0b1b95d55e5935c58abe4ed32006eint);
    assert(fpow(g, 0x73eda753299d7cnat) == 0x4eff012f1e5f27de1aade90f719ae408f6d0b1b95d55e5935c58abe4ed32006eint);
    assert(fpow(g, 0x73eda753299d7dnat) == fmul(fpow(g, 0x73eda753299d7cnat), g));
    vstd::arithmetic::div_mod::lemma_fundamental_div_mod_converse(0x4eff012f1e5f27de1aade90f719ae408f6d0b1b95d55e5935c58abe4ed32006eint * 7, modulus(), 0x4int, 0x59426afd2e2421f1edd9ff4bf4b4dc2970be4c058d5fd70b866cb3467c5e02feint);
    assert(fpow(g, 0x73eda753299d7dnat) == 0x59426afd2e2421f1edd9ff4bf4b4dc2970be4c058d5fd70b866cb3467c5e02feint);
    lemma_fpow_double(g, 0x73eda753299d7dnat);
    assert(0xe7db4ea6533afanat == 2 * 0x73eda753299d7dnat);
    vstd::arithmetic::div_mod::lemma_fundamental_div_mod_converse(0x59426afd2e2421f1edd9ff4bf4b4dc2970be4c058d5fd70b866cb3467c5e02feint * 0x59426afd2e2421f1edd9ff4bf4b4dc2970be4c058d5fd70b866cb3467c5e02feint, modulus(), 0x44b9c349a356b9668646f9d15c3c8e89581f3c0f214ad5c75e61a5cbdf03f8f5int, 0x1370e4a40f16dccf4d6ff9033b5ea60b71fe6c4fc962a295a6f65f7d638cfb0fint);
    assert(fpow(g, 0xe7db4ea6533afanat) == 0x1370e4a40f16dccf4d6ff9033b5ea60b71fe6c4fc962a295a6f65f7d638cfb0fint);
    lemma_fpow_double(g, 0xe7db4ea6533afanat);
    assert(0x1cfb69d4ca675f4nat == 2 * 0xe7db4ea6533afanat);
    vstd::arithmetic::div_mod::lemma_fundamental_div_mod_converse(0x1370e4a40f16dccf4d6ff9033b5ea60b71fe6c4fc962a295a6f65f7d638cfb0fint * 0x1370e4a40f16dccf4d6ff9033b5ea60b71fe6c4fc962a295a6f65f7d638cfb0fint, modulus(), 0x3429ddfce532e84e811f0af4cf667067f5ace46956d916024ec8e07b77e77fbint, 0x3a1e5384602af88e57fc98f54be3b9d5a2d646921ee0f1ef881e906a711ff2e6int);
    assert(fpow(g, 0x1cfb69d4ca675f4nat) == 0x3a1e5384602af88e57fc98f54be3b9d5a2d646921ee0f1ef881e906a711ff2e6int);
    assert(fpow(g, 0x1cfb69d4ca675f5nat) == fmul(fpow(g, 0x1cfb69d4ca675f4nat), g));
    vstd::arithmetic::div_mod::lemma_fundamental_div_mod_converse(0x3a1e5384602af88e57fc98f54be3b9d5a2d646921ee0f1ef881e906a711ff2e6int * 7, modulus(), 0x3int, 0x3b0b52a52454540bce3aa69cf6548cc778a301f5d82b898fb8d5f2ec17dfa447int);
    assert(fpow(g, 0x1cfb69d4ca675f5nat) == 0x3b0b52a52454540bce3aa69cf6548cc778a301f5d82b898fb8d5f2ec17dfa447int);
    lemma_fpow_double(g, 0x1cfb69d4ca675f5nat);
    assert(0x39f6d3a994cebeanat == 2 * 0x1cfb69d4ca675f5nat);
    vstd::arithmetic::div_mod::lemma_fundamental_div_mod_converse(0x3b0b52a52454540bce3aa69cf6548cc778a301f5d82b898fb8d5f2ec17dfa447int * 0x3b0b52a52454540bce3aa69cf6548cc778a301f5d82b898fb8d5f2ec17dfa447int, modulus(), 0x1e127c4601e78d6ae1a5107829e22c34804aba3e2865cbb794b8e24cb2954dbeint, 0x2cadab13ccd053f73c2c2ea980e0e0e60d1ce519a1b00ed165297d3dac87bdf3int);
    assert(fpow(g, 0x39f6d3a994cebeanat) == 0x2cadab13ccd053f73c2c2ea980e0e0e60d1ce519a1b00ed165297d3dac87bdf3int);
    lemma_fpow_double(g, 0x39f6d3a994cebeanat);
    assert(0x73eda753299d7d4nat == 2 * 0x39f6d3a994cebeanat);
    vstd::arithmetic::div_mod::lemma_fundamental_div_mod_converse(0x2cadab13ccd053f73c2c2ea980e0e0e60d1ce519a1b00ed165297d3dac87bdf3int * 0x2cadab13ccd053f73c2c2ea980e0e0e60d1ce519a1b00ed165297d3dac87bdf3int, modulus(), 0x113809fdf039f188f13f732eea527be6a456bb13a0c778fab79d7b72a2515a1dint, 0x313d0ea087372c856b177ec32500797b8e39797598b3540fbd0061b0c8e95a8cint);
    assert(fpow(g, 0x73eda753299d7d4nat) == 0x313d0ea087372c856b177ec32500797b8e39797598b3540fbd0061b0c8e95a8cint);
    lemma_fpow_double(g, 0x73eda753299d7d4nat);
    assert(0xe7db4ea6533afa8nat == 2 * 0x73eda753299d7d4nat);
    vstd::arithmetic::div_mod::lemma_fundamental_div_mod_converse(0x313d0ea087372c856b177ec32500797b8e39797598b3540fbd0061b0c8e95a8cint * 0x313d0ea087372c856b177ec32500797b8e39797598b3540fbd0061b0c8e95a8cint, modulus(), 0x14e9c64648570ad6b74412d6344f79a3a3b5c7816657139dd35808421bc36e06int, 0x181ee7b840e6ae85dca6bdeaab8fff8aae0ddc7be5c2b91ab5937074971b4e8aint);
    assert(fpow(g, 0xe7db4ea6533afa8nat) == 0x181ee7b840e6ae85dca6bdeaab8fff8aae0ddc7be5c2b91ab5937074971b4e8aint);
    assert(fpow(g, 0xe7db4ea6533afa9nat) == fmul(fpow(g, 0xe7db4ea6533afa8nat), g));
    vstd::arithmetic::div_mod::lemma_fundamental_div_mod_converse(0x181ee7b840e6ae85dca6bdeaab8fff8aae0ddc7be5c2b91ab5937074971b4e8aint * 7, modulus(), 0x1int, 0x34eaaeb69cb14860d5555962a74e24c56ea363604854b3bbf708133121bf25c5int);
    assert(fpow(g, 0xe7db4ea6533afa9nat) == 0x34eaaeb69cb14860d5555962a74e24c56ea363604854b3bbf708133121bf25c5int);
    lemma_fpow_double(g, 0xe7db4ea6533afa9nat);
    assert(0x1cfb69d4ca675f52nat == 2 * 0xe7db4ea6533afa9nat);
    vstd::arithmetic::div_mod::lemma_fundamental_div_mod_converse(0x34eaaeb69cb14860d5555962a74e24c56ea363604854b3bbf708133121bf25c5int * 0x34eaaeb69cb14860d5555962a74e24c56ea363604854b3bbf708133121bf25c5int, modulus(), 0x18278733c1650c60a94f18584c03a8006c9887f1732bc7284dbcb8ae67ffee25int, 0x2594478bbe4eecdc5b1b5110bf1c7aaadc1b4cc85e418abdebcdbf56c3889b74int);
    assert(fpow(g, 0x1cfb69d4ca675f52nat) == 0x2594478bbe4eecdc5b1b5110bf1c7aaadc1b4cc85e418abdebcdbf56c3889b74int);
    lemma_fpow_double(g, 0x1cfb69d4ca675f52nat);
    assert(0x39f6d3a994cebea4nat == 2 * 0x1cfb69d4ca675f52nat);
    vstd::arithmetic::div_mod::lemma_fundamental_div_mod_converse(0x2594478bbe4eecdc5b1b5110bf1c7aaadc1b4cc85e418abdebcdbf56c3889b74int * 0x2594478bbe4eecdc5b1b5110bf1c7aaadc1b4cc85e418abdebcdbf56c3889b74int, modulus(), 0xc2e801fd020d81a39951247f15a1b1fd10036bc92e58be9e8db2475737cb919int, 0x17fc8bd7563524fe3397dc3c76eb0776b63ad229d44a7a4a4782844bce28f377int);
    assert(fpow(g, 0x39f6d3a994cebea4nat) == 0x17fc8bd7563524fe3397dc3c76eb0776b63ad229d44a7a4a4782844bce28f377int);
}

/// A stretch of the square-and-multiply computation of the root of unity.
proof fn lemma_root_chain_8()
    requires
        fpow(generator_value(), 0x39f6d3a994cebea4nat) == 0x17fc8bd7563524fe3397dc3c76eb0776b63ad229d44a7a4a4782844bce28f377int,
    ensures
        fpow(generator_value(), 0x73eda753299d7d4832nat) == 0x28e2127f9a7b4dcd3558988e39f8ae7b36c895da695f150c5029b1324f526aa4int,
{
    let g = generator_value();
    assert(modulus() == 0x73eda753299d7d483339d80809a1d80553bda402fffe5bfeffffffff00000001int);
    lemma_fpow_double(g, 0x39f6d3a994cebea4nat);
    assert(0x73eda753299d7d48nat == 2 * 0x39f6d3a994cebea4nat);
    vstd::arithmetic::div_mod::lemma_fundamental_div_mod_converse(0x17fc8bd7563524fe3397dc3c76eb0776b63ad229d44a7a4a4782844bce28f377int * 0x17fc8bd7563524fe3397dc3c76eb0776b63ad229d44a7a4a4782844bce28f377int, modulus(), 0x4f68753ac2d789fd90349cf5bd37136fca22484667952c4a7ba0002d3a71d5aint, 0x13ff117bd563bf1b524ab85f839a1336fa770b9ff4bfb141fe06b71ad1403f7int);
    assert(fpow(g, 0x73eda753299d7d48nat) == 0x13ff117bd563bf1b524ab85f839a1336fa770b9ff4bfb141fe06b71ad1403f7int);
    lemma_fpow_double(g, 0x73eda753299d7d48nat);
    assert(0xe7db4ea6533afa90nat == 2 * 0x73eda753299d7d48nat);
    vstd::arithmetic::div_mod::lemma_fundamental_div_mod_converse(0x13ff117bd563bf1b524ab85f839a1336fa770b9ff4bfb141fe06b71ad1403f7int * 0x13ff117bd563bf1b524ab85f839a1336fa770b9ff4bfb141fe06b71ad1403f7int, modulus(), 0x372fb9e5fa61b604f1bb7fe7f01696be154ae774aea86b6c7cf2f48e8ab3eint, 0xf606151c11b1949d8abf1ef9615093ea8b23573acea35a45060e5092bbf0d13int);
    assert(fpow(g, 0xe7db4ea6533afa90nat) == 0xf606151c11b1949d8abf1ef9615093ea8b23573acea35a45060e5092bbf0d13int);
    lemma_fpow_double(g, 0xe7db4ea6533afa90nat);
    assert(0x1cfb69d4ca675f520nat == 2 * 0xe7db4ea6533afa90nat);
    vstd::arithmetic::div_mod::lemma_fundamental_div_mod_converse(0xf606151c11b1949d8abf1ef9615093ea8b23573acea35a45060e5092bbf0d13int * 0xf606151c11b1949d8abf1ef9615093ea8b23573acea35a45060e5092bbf0d13int, modulus(), 0x20a1ced775c2778d5fe4a5b658b266680d88d043d6f5161cfdfab193a1b418fint, 0xa4c1891e9c0d2ad620380c62e0cc6655c87b5b56a2a75ac00c83cc4aae9addaint);
    assert(fpow(g, 0x1cfb69d4ca675f520nat) == 0xa4c1891e9c0d2ad620380c62e0cc6655c87b5b56a2a75ac00c83cc4aae9addaint);
    lemma_fpow_double(g, 0x1cfb69d4ca675f520nat);
    assert(0x39f6d3a994cebea40nat == 2 * 0x1cfb69d4ca675f520nat);
    vstd::arithmetic::div_mod::lemma_fundamental_div_mod_converse(0xa4c1891e9c0d2ad620380c62e0cc6655c87b5b56a2a75ac00c83cc4aae9addaint * 0xa4c1891e9c0d2ad620380c62e0cc6655c87b5b56a2a75ac00c83cc4aae9addaint, modulus(), 0xea2638eafea9c37064e0b7540fbc5d9288e25c4e34b98c8d18d4ded6d22164int, 0x6817f4192a7e20b8d9824fb9035edb67de358c5baca901f99fc4e2889e123c40int);
    assert(fpow(g, 0x39f6d3a994cebea40nat) == 0x6817f4192a7e20b8d9824fb9035edb67de358c5baca901f99fc4e2889e123c40int);
    assert(fpow(g, 0x39f6d3a994cebea41nat) == fmul(fpow(g, 0x39f6d3a994cebea40nat), g));
    vstd::arithmetic::div_mod::lemma_fundamental_div_mod_converse(0x6817f4192a7e20b8d9824fb9035edb67de358c5baca901f99fc4e2889e123c40int * 7, modulus(), 0x6int, 0x2115c0bd2fc1f55cbf351ddeddccefb71d04fe6fb8a8e5d95e6231c2527fa5baint);
    assert(fpow(g, 0x39f6d3a994cebea41nat) == 0x2115c0bd2fc1f55cbf351ddeddccefb71d04fe6fb8a8e5d95e6231c2527fa5baint);
    lemma_fpow_double(g, 0x39f6d3a994cebea41nat);
    assert(0x73eda753299d7d482nat == 2 * 0x39f6d3a994cebea41nat);
    vstd::arithmetic::div_mod::lemma_fundamental_div_mod_converse(0x2115c0bd2fc1f55cbf351ddeddccefb71d04fe6fb8a8e5d95e6231c2527fa5baint * 0x2115c0bd2fc1f55cbf351ddeddccefb71d04fe6fb8a8e5d95e6231c2527fa5baint, modulus(), 0x971323f84c53276b5b3038399ef06f2a5fffc350e654d0ea4c60ffb510489ddint, 0x17f5bb5399c15af405a327401c7dc7f356285a774fa278a32824e19ab0d0c147int);
    assert(fpow(g, 0x73eda753299d7d482nat) == 0x17f5bb5399c15af405a327401c7dc7f356285a774fa278a32824e19ab0d0c147int);
    assert(fpow(g, 0x73eda753299d7d483nat) == fmul(fpow(g, 0x73eda753299d7d482nat), g));
    vstd::arithmetic::div_mod::lemma_fundamental_div_mod_converse(0x17f5bb5399c15af405a327401c7dc7f356285a774fa278a32824e19ab0d0c147int * 7, modulus(), 0x1int, 0x33ca77f60aabff63f43c3ab8bdce9fa2075cd5402d72f07719022b3bd5b548f0int);
    assert(fpow(g, 0x73eda753299d7d483nat) == 0x33ca77f60aabff63f43c3ab8bdce9fa2075cd5402d72f07719022b3bd5b548f0int);
    lemma_fpow_double(g, 0x73eda753299d7d483nat);
    assert(0xe7db4ea6533afa906nat == 2 * 0x73eda753299d7d483nat);
    vstd::arithmetic::div_mod::lemma_fundamental_div_mod_converse(0x33ca77f60aabff63f43c3ab8bdce9fa2075cd5402d72f07719022b3bd5b548f0int * 0x33ca77f60aabff63f43c3ab8bdce9fa2075cd5402d72f07719022b3bd5b548f0int, modulus(), 0x172335e37c4123706641a22226e4950104089807a3e979cb9c63dfa9db5d88b7int, 0xb2c1f4810dad0ec7f2f231db85f71ee45e44f129929e0905d31136cbcca5849int);
    assert(fpow(g, 0xe7db4ea6533afa906nat) == 0xb2c1f4810dad0ec7f2f231db85f71ee45e44f129929e0905d31136cbcca5849int);
    lemma_fpow_double(g, 0xe7db4ea6533afa906nat);
    assert(0x1cfb69d4ca675f520cnat == 2 * 0xe7db4ea6533afa906nat);
    vstd::arithmetic::div_mod::lemma_fundamental_div_mod_converse(0xb2c1f4810dad0ec7f2f231db85f71ee45e44f129929e0905d31136cbcca5849int * 0xb2c1f4810dad0ec7f2f231db85f71ee45e44f129929e0905d31136cbcca5849int, modulus(), 0x113a369c611bf256ed92c4eb105748a863c8095f06bee86e782eb904d6027d1int, 0x584ef1ba41beddf2d5817c498850f3268ad461d77f93b6cb1ade61735c461d00int);
    assert(fpow(g, 0x1cfb69d4ca675f520cnat) == 0x584ef1ba41beddf2d5817c498850f3268ad461d77f93b6cb1ade61735c461d00int);
    lemma_fpow_double(g, 0x1cfb69d4ca675f520cnat);
    assert(0x39f6d3a994cebea418nat == 2 * 0x1cfb69d4ca675f520cnat);
    vstd::arithmetic::div_mod::lemma_fundamental_div_mod_converse(0x584ef1ba41beddf2d5817c498850f3268ad461d77f93b6cb1ade61735c461d00int * 0x584ef1ba41beddf2d5817c498850f3268ad461d77f93b6cb1ade61735c461d00int, modulus(), 0x4344d558fe13419b6a313105ab3e6b8dd0f20e897c7ef1f99ffcf20aaeb4b797int, 0x383e3125f30b527f64cd99ca2c77ef02514639c23dbf590f84f24b9830944869int);
    assert(fpow(g, 0x39f6d3a994cebea418nat) == 0x383e3125f30b527f64cd99ca2c77ef02514639c23dbf590f84f24b9830944869int);
    assert(fpow(g, 0x39f6d3a994cebea419nat) == fmul(fpow(g, 0x39f6d3a994cebea418nat), g));
    vstd::arithmetic::div_mod::lemma_fundamental_div_mod_converse(0x383e3125f30b527f64cd99ca2c77ef02514639c23dbf590f84f24b9830944869int * 7, modulus(), 0x3int, 0x2dea62102876c9a327f1ac6f1a6201003db2a846b0405b6fa2a0112c540dfadcint);
    assert(fpow(g, 0x39f6d3a994cebea419nat) == 0x2dea62102876c9a327f1ac6f1a6201003db2a846b0405b6fa2a0112c540dfadcint);
    lemma_fpow_double(g, 0x39f6d3a994cebea419nat);
    assert(0x73eda753299d7d4832nat == 2 * 0x39f6d3a994cebea419nat);
    vstd::arithmetic::div_mod::lemma_fundamental_div_mod_converse(0x2dea62102876c9a327f1ac6f1a6201003db2a846b0405b6fa2a0112c540dfadcint * 0x2dea62102876c9a327f1ac6f1a6201003db2a846b0405b6fa2a0112c540dfadcint, modulus(), 0x122f8a644d83e245332fab2efd43f5d1b3634ef5e042b0340f66f23d80d8026cint, 0x28e2127f9a7b4dcd3558988e39f8ae7b36c895da695f150c5029b1324f526aa4int);
    assert(fpow(g, 0x73eda753299d7d4832nat) == 0x28e2127f9a7b4dcd3558988e39f8ae7b36c895da695f150c5029b1324f526aa4int);
}

/// A stretch of the square-and-multiply computation of the root of unity.
proof fn lemma_root_chain_9()
    requires
        fpow(generator_value(), 0x73eda753299d7d4832nat) == 0x28e2127f9a7b4dcd3558988e39f8ae7b36c895da695f150c5029b1324f526aa4int,
    ensures
        fpow(generator_value(), 0x73eda753299d7d483338nat) == 0x471e7f84688e36cd5f1adac79af3a6aa76f644e3ca4c6a5af9ce4dc7b206b8a5int,
{
    let g = generator_value();
    assert(modulus() == 0x73eda753299d7d483339d80809a1d80553bda402fffe5bfeffffffff00000001int);
    assert(fpow(g, 0x73eda753299d7d4833nat) == fmul(fpow(g, 0x73eda753299d7d4832nat), g));
    vstd::arithmetic::div_mod::lemma_fundamental_div_mod_converse(0x28e2127f9a7b4dcd3558988e39f8ae7b36c895da695f150c5029b1324f526aa4int * 7, modulus(), 0x2int, 0x365332d6e624260c0ef87bd382891553d800d0f2e19cdb583123d8622b40ea7aint);
    assert(fpow(g, 0x73eda753299d7d4833nat) == 0x365332d6e624260c0ef87bd382891553d800d0f2e19cdb583123d8622b40ea7aint);
    lemma_fpow_double(g, 0x73eda753299d7d4833nat);
    assert(0xe7db4ea6533afa9066nat == 2 * 0x73eda753299d7d4833nat);
    vstd::arithmetic::div_mod::lemma_fundamental_div_mod_converse(0x365332d6e624260c0ef87bd382891553d800d0f2e19cdb583123d8622b40ea7aint * 0x365332d6e624260c0ef87bd382891553d800d0f2e19cdb583123d8622b40ea7aint, modulus(), 0x197507cc6d53c4402ed0092f77de84ae3a76cbb4fc403bc9d92a2bb4a674c37eint, 0x43f48c5708a33201f9fb3f00cf5af7b6dc0d3b090e3d76e4f56dc6c694e7ea6int);
    assert(fpow(g, 0xe7db4ea6533afa9066nat) == 0x43f48c5708a33201f9fb3f00cf5af7b6dc0d3b090e3d76e4f56dc6c694e7ea6int);
    lemma_fpow_double(g, 0xe7db4ea6533afa9066nat);
    assert(0x1cfb69d4ca675f520ccnat == 2 * 0xe7db4ea6533afa9066nat);
    vstd::arithmetic::div_mod::lemma_fundamental_div_mod_converse(0x43f48c5708a33201f9fb3f00cf5af7b6dc0d3b090e3d76e4f56dc6c694e7ea6int * 0x43f48c5708a33201f9fb3f00cf5af7b6dc0d3b090e3d76e4f56dc6c694e7ea6int, modulus(), 0x27d59165525b4844434cc6d8229cc59986f25a39b4d3807934042e124260f0int, 0x2caf0b9d4f82ca6bcaec9044b16b1f26e415aff8aafeb21513d004c7858d72b4int);
    assert(fpow(g, 0x1cfb69d4ca675f520ccnat) == 0x2caf0b9d4f82ca6bcaec9044b16b1f26e415aff8aafeb21513d004c7858d72b4int);
    lemma_fpow_double(g, 0x1cfb69d4ca675f520ccnat);
    assert(0x39f6d3a994cebea4198nat == 2 * 0x1cfb69d4ca675f520ccnat);
    vstd::arithmetic::div_mod::lemma_fundamental_div_mod_converse(0x2caf0b9d4f82ca6bcaec9044b16b1f26e415aff8aafeb21513d004c7858d72b4int * 0x2caf0b9d4f82ca6bcaec9044b16b1f26e415aff8aafeb21513d004c7858d72b4int, modulus(), 0x113919bdd8178c43cbf9dc1bd161c97b90c6e381e303eea4e877a5a94d7a99d8int, 0x7040d3260e7ab39c8b22e05bcb471600f0c445a235eaef2d4ad2f5d483234b8int);
    assert(fpow(g, 0x39f6d3a994cebea4198nat) == 0x7040d3260e7ab39c8b22e05bcb471600f0c445a235eaef2d4ad2f5d483234b8int);
    assert(fpow(g, 0x39f6d3a994cebea4199nat) == fmul(fpow(g, 0x39f6d3a994cebea4198nat), g));
    vstd::arithmetic::div_mod::lemma_fundamental_div_mod_converse(0x7040d3260e7ab39c8b22e05bcb471600f0c445a235eaef2d4ad2f5d483234b8int * 7, modulus(), 0x0int, 0x311c5c60a655ae947cdf422828ef19a06955de76f796c8a3d0bc4b8cf95f7108int);
    assert(fpow(g, 0x39f6d3a994cebea4199nat) == 0x311c5c60a655ae947cdf422828ef19a06955de76f796c8a3d0bc4b8cf95f7108int);
    lemma_fpow_double(g, 0x39f6d3a994cebea4199nat);
    assert(0x73eda753299d7d48332nat == 2 * 0x39f6d3a994cebea4199nat);
    vstd::arithmetic::div_mod::lemma_fundamental_div_mod_converse(0x311c5c60a655ae947cdf422828ef19a06955de76f796c8a3d0bc4b8cf95f7108int * 0x311c5c60a655ae947cdf422828ef19a06955de76f796c8a3d0bc4b8cf95f7108int, modulus(), 0x14ce09441a6f836816c2993f5d2ab5892348b0a2c139caf0637bddfd235d2915int, 0x2496dac7093e66fe8e6ebc7c91b6c91d4b7dd2d5552163ec632a694e827ae72bint);
    assert(fpow(g, 0x73eda753299d7d48332nat) == 0x2496dac7093e66fe8e6ebc7c91b6c91d4b7dd2d5552163ec632a694e827ae72bint);
    assert(fpow(g, 0x73eda753299d7d48333nat) == fmul(fpow(g, 0x73eda753299d7d48332nat), g));
    vstd::arithmetic::div_mod::lemma_fundamental_div_mod_converse(0x2496dac7093e66fe8e6ebc7c91b6c91d4b7dd2d5552163ec632a694e827ae72bint * 7, modulus(), 0x2int, 0x1844accaed79d6657e937757e8bbcfc268f57bcf53ed0378b628e127915c522bint);
    assert(fpow(g, 0x73eda753299d7d48333nat) == 0x1844accaed79d6657e937757e8bbcfc268f57bcf53ed0378b628e127915c522bint);
    lemma_fpow_double(g, 0x73eda753299d7d48333nat);
    assert(0xe7db4ea6533afa90666nat == 2 * 0x73eda753299d7d48333nat);
    vstd::arithmetic::div_mod::lemma_fundamental_div_mod_converse(0x1844accaed79d6657e937757e8bbcfc268f57bcf53ed0378b628e127915c522bint * 0x1844accaed79d6657e937757e8bbcfc268f57bcf53ed0378b628e127915c522bint, modulus(), 0x5148d4ca57c66d79e00c1eb58aa4b8494f607ed8a57f90908c4b19f2e713dfbint, 0x6fc5f43a4212ba4f6e7170a343c8c5cd4085a3e951b91231dc36e1d5b0d6553eint);
    assert(fpow(g, 0xe7db4ea6533afa90666nat) == 0x6fc5f43a4212ba4f6e7170a343c8c5cd4085a3e951b91231dc36e1d5b0d6553eint);
    assert(fpow(g, 0xe7db4ea6533afa90667nat) == fmul(fpow(g, 0xe7db4ea6533afa90666nat), g));
    vstd::arithmetic::div_mod::lemma_fundamental_div_mod_converse(0x6fc5f43a4212ba4f6e7170a343c8c5cd4085a3e951b91231dc36e1d5b0d6553eint * 7, modulus(), 0x6int, 0x56d7c1a4d4d2287ad1bf0446a0b2587ccd35a34f3c19576305802cddd5dc54acint);
    assert(fpow(g, 0xe7db4ea6533afa90667nat) == 0x56d7c1a4d4d2287ad1bf0446a0b2587ccd35a34f3c19576305802cddd5dc54acint);
    lemma_fpow_double(g, 0xe7db4ea6533afa90667nat);
    assert(0x1cfb69d4ca675f520ccenat == 2 * 0xe7db4ea6533afa90667nat);
    vstd::arithmetic::div_mod::lemma_fundamental_div_mod_converse(0x56d7c1a4d4d2287ad1bf0446a0b2587ccd35a34f3c19576305802cddd5dc54acint * 0x56d7c1a4d4d2287ad1bf0446a0b2587ccd35a34f3c19576305802cddd5dc54acint, modulus(), 0x410dfa6552894948a56905cae4e25713b02ad50fb594557378e4d457b5fd72d4int, 0x522be02fc3a0e5867c8878170e9e707f20fc26912d4da0224f4651fc25a3e0bcint);
    assert(fpow(g, 0x1cfb69d4ca675f520ccenat) == 0x522be02fc3a0e5867c8878170e9e707f20fc26912d4da0224f4651fc25a3e0bcint);
    lemma_fpow_double(g, 0x1cfb69d4ca675f520ccenat);
    assert(0x39f6d3a994cebea4199cnat == 2 * 0x1cfb69d4ca675f520ccenat);
    vstd::arithmetic::div_mod::lemma_fundamental_div_mod_converse(0x522be02fc3a0e5867c8878170e9e707f20fc26912d4da0224f4651fc25a3e0bcint * 0x522be02fc3a0e5867c8878170e9e707f20fc26912d4da0224f4651fc25a3e0bcint, modulus(), 0x3a3e7af0d3147ce0b095ee751667b74e62d978d38128c953f164b54926ee48ddint, 0x512a68a8850b2d9ecb62ff2806a4fb337c9ab19237a0bd40f8bbc59225c34133int);
    assert(fpow(g, 0x39f6d3a994cebea4199cnat) == 0x512a68a8850b2d9ecb62ff2806a4fb337c9ab19237a0bd40f8bbc59225c34133int);
    lemma_fpow_double(g, 0x39f6d3a994cebea4199cnat);
    assert(0x73eda753299d7d483338nat == 2 * 0x39f6d3a994cebea4199cnat);
    vstd::arithmetic::div_mod::lemma_fundamental_div_mod_converse(0x512a68a8850b2d9ecb62ff2806a4fb337c9ab19237a0bd40f8bbc59225c34133int * 0x512a68a8850b2d9ecb62ff2806a4fb337c9ab19237a0bd40f8bbc59225c34133int, modulus(), 0x38d3b8fe7648def60398023b6affd1c3c5d99384f976cb78219acbad70463784int, 0x471e7f84688e36cd5f1adac79af3a6aa76f644e3ca4c6a5af9ce4dc7b206b8a5int);
    assert(fpow(g, 0x73eda753299d7d483338nat) == 0x471e7f84688e36cd5f1adac79af3a6aa76f644e3ca4c6a5af9ce4dc7b206b8a5int);
}

/// A stretch of the square-and-multiply computation of the root of unity.
proof fn lemma_root_chain_10()
    requires
        fpow(generator_value(), 0x73eda753299d7d483338nat) == 0x471e7f84688e36cd5f1adac79af3a6aa76f644e3ca4c6a5af9ce4dc7b206b8a5int,
    ensures
        fpow(generator_value(), 0x39f6d3a994cebea4199cecnat) == 0x4ba4f0606cbc7659db4ce9317c17b20ba7309d83ec5320de1d5bb7e3378f6c3cint,
{
    let g = generator_value();
    assert(modulus() == 0x73eda753299d7d483339d80809a1d80553bda402fffe5bfeffffffff00000001int);
    assert(fpow(g, 0x73eda753299d7d483339nat) == fmul(fpow(g, 0x73eda753299d7d483338nat), g));
    vstd::arithmetic::div_mod::lemma_fundamental_div_mod_converse(0x471e7f84688e36cd5f1adac79af3a6aa76f644e3ca4c6a5af9ce4dc7b206b8a5int * 7, modulus(), 0x4int, 0x221edf52356d8a7cccd49b5516222e93f1c5522e881d7880d4a42079de2f0c7fint);
    assert(fpow(g, 0x73eda753299d7d483339nat) == 0x221edf52356d8a7cccd49b5516222e93f1c5522e881d7880d4a42079de2f0c7fint);
    lemma_fpow_double(g, 0x73eda753299d7d483339nat);
    assert(0xe7db4ea6533afa906672nat == 2 * 0x73eda753299d7d483339nat);
    vstd::arithmetic::div_mod::lemma_fundamental_div_mod_converse(0x221edf52356d8a7cccd49b5516222e93f1c5522e881d7880d4a42079de2f0c7fint * 0x221edf52356d8a7cccd49b5516222e93f1c5522e881d7880d4a42079de2f0c7fint, modulus(), 0xa0ae3f1a1ddce0dad23396546d4cd9a211f20e40edb25ead622a5575d18fd48int, 0x61cd4286a0852de362705ab540a62eae8cae0e04abb5763e6e1d8a507e2529b9int);
    assert(fpow(g, 0xe7db4ea6533afa906672nat) == 0x61cd4286a0852de362705ab540a62eae8cae0e04abb5763e6e1d8a507e2529b9int);
    assert(fpow(g, 0xe7db4ea6533afa906673nat) == fmul(fpow(g, 0xe7db4ea6533afa906672nat), g));
    vstd::arithmetic::div_mod::lemma_fundamental_div_mod_converse(0x61cd4286a0852de362705ab540a62eae8cae0e04abb5763e6e1d8a507e2529b9int * 7, modulus(), 0x5int, 0x68f88d0e9390ceceb0f142cc94620eab360e2e11b1fe6fba02cec8387304240aint);
    assert(fpow(g, 0xe7db4ea6533afa906673nat) == 0x68f88d0e9390ceceb0f142cc94620eab360e2e11b1fe6fba02cec8387304240aint);
    lemma_fpow_double(g, 0xe7db4ea6533afa906673nat);
    assert(0x1cfb69d4ca675f520cce6nat == 2 * 0xe7db4ea6533afa906673nat);
    vstd::arithmetic::div_mod::lemma_fundamental_div_mod_converse(0x68f88d0e9390ceceb0f142cc94620eab360e2e11b1fe6fba02cec8387304240aint * 0x68f88d0e9390ceceb0f142cc94620eab360e2e11b1fe6fba02cec8387304240aint, modulus(), 0x5f0c957c9633f5978916739e4a166a571d56340b8533cd260a86df6a22493311int, 0x709d75b3701d64f82888f4b015a3cb9fe89b3adf89be9f403da67078ff199d53int);
    assert(fpow(g, 0x1cfb69d4ca675f520cce6nat) == 0x709d75b3701d64f82888f4b015a3cb9fe89b3adf89be9f403da67078ff199d53int);
    assert(fpow(g, 0x1cfb69d4ca675f520cce7nat) == fmul(fpow(g, 0x1cfb69d4ca675f520cce6nat), g));
    vstd::arithmetic::div_mod::lemma_fundamental_div_mod_converse(0x709d75b3701d64f82888f4b015a3cb9fe89b3adf89be9f403da67078ff199d53int * 7, modulus(), 0x6int, 0x5cbc4bf5171cd317e863a0a05daf813f65ccc40ac44032c7af8d1354f9b34d3fint);
    assert(fpow(g, 0x1cfb69d4ca675f520cce7nat) == 0x5cbc4bf5171cd317e863a0a05daf813f65ccc40ac44032c7af8d1354f9b34d3fint);
    lemma_fpow_double(g, 0x1cfb69d4ca675f520cce7nat);
    assert(0x39f6d3a994cebea4199cenat == 2 * 0x1cfb69d4ca675f520cce7nat);
    vstd::arithmetic::div_mod::lemma_fundamental_div_mod_converse(0x5cbc4bf5171cd317e863a0a05daf813f65ccc40ac44032c7af8d1354f9b34d3fint * 0x5cbc4bf5171cd317e863a0a05daf813f65ccc40ac44032c7af8d1354f9b34d3fint, modulus(), 0x4a2ec6caecc1c5a70978532d2d48336f1bd44d571c328c570fbcb5ed44852d8eint, 0x2e6144b3cf2479966e8a710f168bdfb60ccd0f5b87aeef7adcdeccd266e3c7f3int);
    assert(fpow(g, 0x39f6d3a994cebea4199cenat) == 0x2e6144b3cf2479966e8a710f168bdfb60ccd0f5b87aeef7adcdeccd266e3c7f3int);
    lemma_fpow_double(g, 0x39f6d3a994cebea4199cenat);
    assert(0x73eda753299d7d483339cnat == 2 * 0x39f6d3a994cebea4199cenat);
    vstd::arithmetic::div_mod::lemma_fundamental_div_mod_converse(0x2e6144b3cf2479966e8a710f168bdfb60ccd0f5b87aeef7adcdeccd266e3c7f3int * 0x2e6144b3cf2479966e8a710f168bdfb60ccd0f5b87aeef7adcdeccd266e3c7f3int, modulus(), 0x128e30b641b530bc3f13ed2cfb805f150f91a4f543492e591fec4fb94534aeb4int, 0x225f52a39ebbb02591c8ef88a3cf86029672f46c8adf61509475ffa893e901f5int);
    assert(fpow(g, 0x73eda753299d7d483339cnat) == 0x225f52a39ebbb02591c8ef88a3cf86029672f46c8adf61509475ffa893e901f5int);
    assert(fpow(g, 0x73eda753299d7d483339dnat) == fmul(fpow(g, 0x73eda753299d7d483339cnat), g));
    vstd::arithmetic::div_mod::lemma_fundamental_div_mod_converse(0x225f52a39ebbb02591c8ef88a3cf86029672f46c8adf61509475ffa893e901f5int * 7, modulus(), 0x2int, 0x8bff3d303e6d676960adcac6768fa0775a966f1cc1ef1360f39fd9e0b5f0db1int);
    assert(fpow(g, 0x73eda753299d7d483339dnat) == 0x8bff3d303e6d676960adcac6768fa0775a966f1cc1ef1360f39fd9e0b5f0db1int);
    lemma_fpow_double(g, 0x73eda753299d7d483339dnat);
    assert(0xe7db4ea6533afa906673anat == 2 * 0x73eda753299d7d483339dnat);
    vstd::arithmetic::div_mod::lemma_fundamental_div_mod_converse(0x8bff3d303e6d676960adcac6768fa0775a966f1cc1ef1360f39fd9e0b5f0db1int * 0x8bff3d303e6d676960adcac6768fa0775a966f1cc1ef1360f39fd9e0b5f0db1int, modulus(), 0xa910130530228443ce4e0caaf25b1a755597a9c58c4c437e2d19bf1ce96f0fint, 0x311ee843cb429062e19890aa1a2e4da2054bd4e75213d9316074644443300552int);
    assert(fpow(g, 0xe7db4ea6533afa906673anat) == 0x311ee843cb429062e19890aa1a2e4da2054bd4e75213d9316074644443300552int);
    assert(fpow(g, 0xe7db4ea6533afa906673bnat) == fmul(fpow(g, 0xe7db4ea6533afa906673anat), g));
    vstd::arithmetic::div_mod::lemma_fundamental_div_mod_converse(0x311ee843cb429062e19890aa1a2e4da2054bd4e75213d9316074644443300552int * 7, modulus(), 0x2int, 0x6ffd0b343b96f823c4b84496a4006f637d978a4d3e8e385ba32ebddfd650253cint);
    assert(fpow(g, 0xe7db4ea6533afa906673bnat) == 0x6ffd0b343b96f823c4b84496a4006f637d978a4d3e8e385ba32ebddfd650253cint);
    lemma_fpow_double(g, 0xe7db4ea6533afa906673bnat);
    assert(0x1cfb69d4ca675f520cce76nat == 2 * 0xe7db4ea6533afa906673bnat);
    vstd::arithmetic::div_mod::lemma_fundamental_div_mod_converse(0x6ffd0b343b96f823c4b84496a4006f637d978a4d3e8e385ba32ebddfd650253cint * 0x6ffd0b343b96f823c4b84496a4006f637d978a4d3e8e385ba32ebddfd650253cint, modulus(), 0x6c2eb64767df6610324d9404b6f31446592682e8e49fe6b8cbac6fd3b1a3fd66int, 0x43febc17ae3df8717017adb843369d0cbca2f526446ff18a198d1b71e94668aaint);
    assert(fpow(g, 0x1cfb69d4ca675f520cce76nat) == 0x43febc17ae3df8717017adb843369d0cbca2f526446ff18a198d1b71e94668aaint);
    lemma_fpow_double(g, 0x1cfb69d4ca675f520cce76nat);
    assert(0x39f6d3a994cebea4199cecnat == 2 * 0x1cfb69d4ca675f520cce76nat);
    vstd::arithmetic::div_mod::lemma_fundamental_div_mod_converse(0x43febc17ae3df8717017adb843369d0cbca2f526446ff18a198d1b71e94668aaint * 0x43febc17ae3df8717017adb843369d0cbca2f526446ff18a198d1b71e94668aaint, modulus(), 0x27e183888d84ab059aeea175b656c62b8ac19ea0e74d6db2a4e8ecbba43324a8int, 0x4ba4f0606cbc7659db4ce9317c17b20ba7309d83ec5320de1d5bb7e3378f6c3cint);
    assert(fpow(g, 0x39f6d3a994cebea4199cecnat) == 0x4ba4f0606cbc7659db4ce9317c17b20ba7309d83ec5320de1d5bb7e3378f6c3cint);
}

/// A stretch of the square-and-multiply computation of the root of unity.
proof fn lemma_root_chain_11()
    requires
        fpow(generator_value(), 0x39f6d3a994cebea4199cecnat) == 0x4ba4f0606cbc7659db4ce9317c17b20ba7309d83ec5320de1d5bb7e3378f6c3cint,
    ensures
        fpow(generator_value(), 0x1cfb69d4ca675f520cce76020nat) == 0x2bcb270c33ad9ad060b04076be35c54259ddaa350777094f2b93ff9ecad662b8int,
{
    let g = generator_value();
    assert(modulus() == 0x73eda753299d7d483339d80809a1d80553bda402fffe5bfeffffffff00000001int);
    lemma_fpow_double(g, 0x39f6d3a994cebea4199cecnat);
    assert(0x73eda753299d7d483339d8nat == 2 * 0x39f6d3a994cebea4199cecnat);
    vstd::arithmetic::div_mod::lemma_fundamental_div_mod_converse(0x4ba4f0606cbc7659db4ce9317c17b20ba7309d83ec5320de1d5bb7e3378f6c3cint * 0x4ba4f0606cbc7659db4ce9317c17b20ba7309d83ec5320de1d5bb7e3378f6c3cint, modulus(), 0x315bcc815fb7373747c6b333733c1d1739340267aa0715a8ed48633f085bb9bfint, 0x540e0e48163fb7764ebf48c8b554e6e9e414cf6e8947bcfc46e201c3d86ef451int);
    assert(fpow(g, 0x73eda753299d7d483339d8nat) == 0x540e0e48163fb7764ebf48c8b554e6e9e414cf6e8947bcfc46e201c3d86ef451int);
    lemma_fpow_double(g, 0x73eda753299d7d483339d8nat);
    assert(0xe7db4ea6533afa906673b0nat == 2 * 0x73eda753299d7d483339d8nat);
    vstd::arithmetic::div_mod::lemma_fundamental_div_mod_converse(0x540e0e48163fb7764ebf48c8b554e6e9e414cf6e8947bcfc46e201c3d86ef451int * 0x540e0e48163fb7764ebf48c8b554e6e9e414cf6e8947bcfc46e201c3d86ef451int, modulus(), 0x3cf1dd43ca4247bb4ab3c62eea75c3e7a5cfbd8dc5e4fad12d6b3b9c45f3d422int, 0x40bb189fa7853177be1b717cb5c37c23a102d9d735e1c36d1178da4b48d2ad7fint);
    assert(fpow(g, 0xe7db4ea6533afa906673b0nat) == 0x40bb189fa7853177be1b717cb5c37c23a102d9d735e1c36d1178da4b48d2ad7fint);
    lemma_fpow_double(g, 0xe7db4ea6533afa906673b0nat);
    assert(0x1cfb69d4ca675f520cce760nat == 2 * 0xe7db4ea6533afa906673b0nat);
    vstd::arithmetic::div_mod::lemma_fundamental_div_mod_converse(0x40bb189fa7853177be1b717cb5c37c23a102d9d735e1c36d1178da4b48d2ad7fint * 0x40bb189fa7853177be1b717cb5c37c23a102d9d735e1c36d1178da4b48d2ad7fint, modulus(), 0x2424cb61753f5f1a21ab6f3139b0bdc4e7449f890857c1a355550aabb215ce7aint, 0x53debe734c0b6632fc816854250df6f1c2741c19ad2d06607175e730d7db1687int);
    assert(fpow(g, 0x1cfb69d4ca675f520cce760nat) == 0x53debe734c0b6632fc816854250df6f1c2741c19ad2d06607175e730d7db1687int);
    lemma_fpow_double(g, 0x1cfb69d4ca675f520cce760nat);
    assert(0x39f6d3a994cebea4199cec0nat == 2 * 0x1cfb69d4ca675f520cce760nat);
    vstd::arithmetic::div_mod::lemma_fundamental_div_mod_converse(0x53debe734c0b6632fc816854250df6f1c2741c19ad2d06607175e730d7db1687int * 0x53debe734c0b6632fc816854250df6f1c2741c19ad2d06607175e730d7db1687int, modulus(), 0x3cad54fbec7e3ad35d64d85d6770c8d947193e18c1a697aaef64f1796e24c73dint, 0x171d26dbaea5c2256ccd3f5f12a78df2858a0305bf9655504ef7a5b9e0d0b3f4int);
    assert(fpow(g, 0x39f6d3a994cebea4199cec0nat) == 0x171d26dbaea5c2256ccd3f5f12a78df2858a0305bf9655504ef7a5b9e0d0b3f4int);
    lemma_fpow_double(g, 0x39f6d3a994cebea4199cec0nat);
    assert(0x73eda753299d7d483339d80nat == 2 * 0x39f6d3a994cebea4199cec0nat);
    vstd::arithmetic::div_mod::lemma_fundamental_div_mod_converse(0x171d26dbaea5c2256ccd3f5f12a78df2858a0305bf9655504ef7a5b9e0d0b3f4int * 0x171d26dbaea5c2256ccd3f5f12a78df2858a0305bf9655504ef7a5b9e0d0b3f4int, modulus(), 0x49bc41581108ebdfd203a4c6133c887ac4c0697dfa6615588c8175ad1a84064int, 0x69eeed735d3bf637f277747c40ae1a5a80511d8b1546aa10f4c2acc11956e02cint);
    assert(fpow(g, 0x73eda753299d7d483339d80nat) == 0x69eeed735d3bf637f277747c40ae1a5a80511d8b1546aa10f4c2acc11956e02cint);
    lemma_fpow_double(g, 0x73eda753299d7d483339d80nat);
    assert(0xe7db4ea6533afa906673b00nat == 2 * 0x73eda753299d7d483339d80nat);
    vstd::arithmetic::div_mod::lemma_fundamental_div_mod_converse(0x69eeed735d3bf637f277747c40ae1a5a80511d8b1546aa10f4c2acc11956e02cint * 0x69eeed735d3bf637f277747c40ae1a5a80511d8b1546aa10f4c2acc11956e02cint, modulus(), 0x60cccecde8c1fd525412aa14316ed1877ffbd13e6a62900791e6d3d2177325afint, 0x3078fae2a47ac1ac92a89e6e9ff00180dca6f33de6fd09ad1cf78978e269e1e1int);
    assert(fpow(g, 0xe7db4ea6533afa906673b00nat) == 0x3078fae2a47ac1ac92a89e6e9ff00180dca6f33de6fd09ad1cf78978e269e1e1int);
    assert(fpow(g, 0xe7db4ea6533afa906673b01nat) == fmul(fpow(g, 0xe7db4ea6533afa906673b00nat), g));
    vstd::arithmetic::div_mod::lemma_fundamental_div_mod_converse(0x3078fae2a47ac1ac92a89e6e9ff00180dca6f33de6fd09ad1cf78978e269e1e1int * 7, modulus(), 0x2int, 0x6b738d8c2c2051279c28a4f64c4c5a7b61155eab50ee8bbdcac4c25030e52d25int);
    assert(fpow(g, 0xe7db4ea6533afa906673b01nat) == 0x6b738d8c2c2051279c28a4f64c4c5a7b61155eab50ee8bbdcac4c25030e52d25int);
    lemma_fpow_double(g, 0xe7db4ea6533afa906673b01nat);
    assert(0x1cfb69d4ca675f520cce7602nat == 2 * 0xe7db4ea6533afa906673b01nat);
    vstd::arithmetic::div_mod::lemma_fundamental_div_mod_converse(0x6b738d8c2c2051279c28a4f64c4c5a7b61155eab50ee8bbdcac4c25030e52d25int * 0x6b738d8c2c2051279c28a4f64c4c5a7b61155eab50ee8bbdcac4c25030e52d25int, modulus(), 0x63982299a6691f12bdd658464d36b75c5c899107b291f7e4966141b91e4afa25int, 0x48e2cda6e30fd497e9393eb6d5abed1f9bfe7700d227fc00fd90c1a38ddd0d34int);
    assert(fpow(g, 0x1cfb69d4ca675f520cce7602nat) == 0x48e2cda6e30fd497e9393eb6d5abed1f9bfe7700d227fc00fd90c1a38ddd0d34int);
    lemma_fpow_double(g, 0x1cfb69d4ca675f520cce7602nat);
    assert(0x39f6d3a994cebea4199cec04nat == 2 * 0x1cfb69d4ca675f520cce7602nat);
    vstd::arithmetic::div_mod::lemma_fundamental_div_mod_converse(0x48e2cda6e30fd497e9393eb6d5abed1f9bfe7700d227fc00fd90c1a38ddd0d34int * 0x48e2cda6e30fd497e9393eb6d5abed1f9bfe7700d227fc00fd90c1a38ddd0d34int, modulus(), 0x2dd3149752c2cdb700dcb7a336ffea20243bccf4524548cf951000b779f1a622int, 0x65fba48248cfa07b0089eec1083c4d1e155571236a010f36cb661d0d9a84ac6eint);
    assert(fpow(g, 0x39f6d3a994cebea4199cec04nat) == 0x65fba48248cfa07b0089eec1083c4d1e155571236a010f36cb661d0d9a84ac6eint);
    lemma_fpow_double(g, 0x39f6d3a994cebea4199cec04nat);
    assert(0x73eda753299d7d483339d808nat == 2 * 0x39f6d3a994cebea4199cec04nat);
    vstd::arithmetic::div_mod::lemma_fundamental_div_mod_converse(0x65fba48248cfa07b0089eec1083c4d1e155571236a010f36cb661d0d9a84ac6eint * 0x65fba48248cfa07b0089eec1083c4d1e155571236a010f36cb661d0d9a84ac6eint, modulus(), 0x59b7141e4aa8e9de9f5e2b05c2b25703e292c53f9f164b1095f5d3ff562a3e44int, 0x304648eccdac34fe76394be16bf682285f6642f1856c9a85b9aabda74769c100int);
    assert(fpow(g, 0x73eda753299d7d483339d808nat) == 0x304648eccdac34fe76394be16bf682285f6642f1856c9a85b9aabda74769c100int);
    lemma_fpow_double(g, 0x73eda753299d7d483339d808nat);
    assert(0xe7db4ea6533afa906673b010nat == 2 * 0x73eda753299d7d483339d808nat);
    vstd::arithmetic::div_mod::lemma_fundamental_div_mod_converse(0x304648eccdac34fe76394be16bf682285f6642f1856c9a85b9aabda74769c100int * 0x304648eccdac34fe76394be16bf682285f6642f1856c9a85b9aabda74769c100int, modulus(), 0x141a33bff53f72edeb07f0d9505ebc2b89ce6ac4d165057e1c8bbf84462c8d74int, 0x32a7a6c8e4b8c1f494e63188df95010cbec7747f255e3fa0e48070ad9d54728cint);
    assert(fpow(g, 0xe7db4ea6533afa906673b010nat) == 0x32a7a6c8e4b8c1f494e63188df95010cbec7747f255e3fa0e48070ad9d54728cint);
    lemma_fpow_double(g, 0xe7db4ea6533afa906673b010nat);
    assert(0x1cfb69d4ca675f520cce76020nat == 2 * 0xe7db4ea6533afa906673b010nat);
    vstd::arithmetic::div_mod::lemma_fundamental_div_mod_converse(0x32a7a6c8e4b8c1f494e63188df95010cbec7747f255e3fa0e48070ad9d54728cint * 0x32a7a6c8e4b8c1f494e63188df95010cbec7747f255e3fa0e48070ad9d54728cint, modulus(), 0x16223735287dee9ff76f37c9b74cec94890084158f32c338f5c49bcc4c4a99d8int, 0x2bcb270c33ad9ad060b04076be35c54259ddaa350777094f2b93ff9ecad662b8int);
    assert(fpow(g, 0x1cfb69d4ca675f520cce76020nat) == 0x2bcb270c33ad9ad060b04076be35c54259ddaa350777094f2b93ff9ecad662b8int);
}

/// A stretch of the square-and-multiply computation of the root of unity.
proof fn lemma_root_chain_12()
    requires
        fpow(generator_value(), 0x1cfb69d4ca675f520cce76020nat) == 0x2bcb270c33ad9ad060b04076be35c54259ddaa350777094f2b93ff9ecad662b8int,
    ensures
        fpow(generator_value(), 0x39f6d3a994cebea4199cec0404cnat) == 0x714f8aadda8c4502f2248b245ffe0786dff362e01cf11861eea19a016fcd2d2int,
{
    let g = generator_value();
    assert(modulus() == 0x73eda753299d7d483339d80809a1d80553bda402fffe5bfeffffffff00000001int);
    lemma_fpow_double(g, 0x1cfb69d4ca675f520cce76020nat);
    assert(0x39f6d3a994cebea4199cec040nat == 2 * 0x1cfb69d4ca675f520cce76020nat);
    vstd::arithmetic::div_mod::lemma_fundamental_div_mod_converse(0x2bcb270c33ad9ad060b04076be35c54259ddaa350777094f2b93ff9ecad662b8int * 0x2bcb270c33ad9ad060b04076be35c54259ddaa350777094f2b93ff9ecad662b8int, modulus(), 0x108b2bcd8c389b1cc028265d9fb71bbf90671e8b01f4db6b8e947c08884cac53int, 0x21eef18e4a3f1d15aa70186cc5cfe68c85139026e1b50875430ba2be0964b7edint);
    assert(fpow(g, 0x39f6d3a994cebea4199cec040nat) == 0x21eef18e4a3f1d15aa70186cc5cfe68c85139026e1b50875430ba2be0964b7edint);
    lemma_fpow_double(g, 0x39f6d3a994cebea4199cec040nat);
    assert(0x73eda753299d7d483339d8080nat == 2 * 0x39f6d3a994cebea4199cec040nat);
    vstd::arithmetic::div_mod::lemma_fundamental_div_mod_converse(0x21eef18e4a3f1d15aa70186cc5cfe68c85139026e1b50875430ba2be0964b7edint * 0x21eef18e4a3f1d15aa70186cc5cfe68c85139026e1b50875430ba2be0964b7edint, modulus(), 0x9eec12a19e35a2412447be247c246e8ba7a32cefb2de0f2799fb11a34758bd2int, 0x337711816f607e29261046475a4ff7f2677e79f0f9b16a7f01d50f12aad72597int);
    assert(fpow(g, 0x73eda753299d7d483339d8080nat) == 0x337711816f607e29261046475a4ff7f2677e79f0f9b16a7f01d50f12aad72597int);
    lemma_fpow_double(g, 0x73eda753299d7d483339d8080nat);
    assert(0xe7db4ea6533afa906673b0100nat == 2 * 0x73eda753299d7d483339d8080nat);
    vstd::arithmetic::div_mod::lemma_fundamental_div_mod_converse(0x337711816f607e29261046475a4ff7f2677e79f0f9b16a7f01d50f12aad72597int * 0x337711816f607e29261046475a4ff7f2677e79f0f9b16a7f01d50f12aad72597int, modulus(), 0x16d8ed49ff076c8a6cbbad12f341e4cd29f73720f937762191b7693865b779f7int, 0x16332495cf7d6135793794ed904d345d0f924866a3002a913df17eb74f6f851aint);
    assert(fpow(g, 0xe7db4ea6533afa906673b0100nat) == 0x16332495cf7d6135793794ed904d345d0f924866a3002a913df17eb74f6f851aint);
    assert(fpow(g, 0xe7db4ea6533afa906673b0101nat) == fmul(fpow(g, 0xe7db4ea6533afa906673b0100nat), g));
    vstd::arithmetic::div_mod::lemma_fundamental_div_mod_converse(0x16332495cf7d6135793794ed904d345d0f924866a3002a913df17eb74f6f851aint * 7, modulus(), 0x1int, 0x277858c582d02b2e1d4b3a76e87a9686194256cb7502cdf9b19a77042c0ca3b5int);
    assert(fpow(g, 0xe7db4ea6533afa906673b0101nat) == 0x277858c582d02b2e1d4b3a76e87a9686194256cb7502cdf9b19a77042c0ca3b5int);
    lemma_fpow_double(g, 0xe7db4ea6533afa906673b0101nat);
    assert(0x1cfb69d4ca675f520cce760202nat == 2 * 0xe7db4ea6533afa906673b0101nat);
    vstd::arithmetic::div_mod::lemma_fundamental_div_mod_converse(0x277858c582d02b2e1d4b3a76e87a9686194256cb7502cdf9b19a77042c0ca3b5int * 0x277858c582d02b2e1d4b3a76e87a9686194256cb7502cdf9b19a77042c0ca3b5int, modulus(), 0xd7039c0841567b370d6a0089af6d6777f30a4f6e6fa9344a7f2133fc84c891dint, 0x31f460e8b78fed3313843004f87224165b2c1c2937154fcc884a326b315b74dcint);
    assert(fpow(g, 0x1cfb69d4ca675f520cce760202nat) == 0x31f460e8b78fed3313843004f87224165b2c1c2937154fcc884a326b315b74dcint);
    lemma_fpow_double(g, 0x1cfb69d4ca675f520cce760202nat);
    assert(0x39f6d3a994cebea4199cec0404nat == 2 * 0x1cfb69d4ca675f520cce760202nat);
    vstd::arithmetic::div_mod::lemma_fundamental_div_mod_converse(0x31f460e8b78fed3313843004f87224165b2c1c2937154fcc884a326b315b74dcint * 0x31f460e8b78fed3313843004f87224165b2c1c2937154fcc884a326b315b74dcint, modulus(), 0x1586a1c6f433c550f8241b0af65a36bb8735ba38210fa8206fdbcf95293eaec3int, 0x26575417f0f423ec4f3976f136a1570acad2deef33148a0b0e30a27e58816e4dint);
    assert(fpow(g, 0x39f6d3a994cebea4199cec0404nat) == 0x26575417f0f423ec4f3976f136a1570acad2deef33148a0b0e30a27e58816e4dint);
    lemma_fpow_double(g, 0x39f6d3a994cebea4199cec0404nat);
    assert(0x73eda753299d7d483339d80808nat == 2 * 0x39f6d3a994cebea4199cec0404nat);
    vstd::arithmetic::div_mod::lemma_fundamental_div_mod_converse(0x26575417f0f423ec4f3976f136a1570acad2deef33148a0b0e30a27e58816e4dint * 0x26575417f0f423ec4f3976f136a1570acad2deef33148a0b0e30a27e58816e4dint, modulus(), 0xcae3c7758ead3c1cf68a820789e4d61fc672aa4424623dfe06d4cd9bc745dfaint, 0x2d5db79b1495e728253fef864f1abfc0e1b4ac927d0fac8ab28256318cabe52fint);
    assert(fpow(g, 0x73eda753299d7d483339d80808nat) == 0x2d5db79b1495e728253fef864f1abfc0e1b4ac927d0fac8ab28256318cabe52fint);
    assert(fpow(g, 0x73eda753299d7d483339d80809nat) == fmul(fpow(g, 0x73eda753299d7d483339d80808nat), g));
    vstd::arithmetic::div_mod::lemma_fundamental_div_mod_converse(0x2d5db79b1495e728253fef864f1abfc0e1b4ac927d0fac8ab28256318cabe52fint * 7, modulus(), 0x2int, 0x55b4b6973cde57889e4bdc9c16778e3b84756ffb6b70ffcce1905b5cd8b34447int);
    assert(fpow(g, 0x73eda753299d7d483339d80809nat) == 0x55b4b6973cde57889e4bdc9c16778e3b84756ffb6b70ffcce1905b5cd8b34447int);
    lemma_fpow_double(g, 0x73eda753299d7d483339d80809nat);
    assert(0xe7db4ea6533afa906673b01012nat == 2 * 0x73eda753299d7d483339d80809nat);
    vstd::arithmetic::div_mod::lemma_fundamental_div_mod_converse(0x55b4b6973cde57889e4bdc9c16778e3b84756ffb6b70ffcce1905b5cd8b34447int * 0x55b4b6973cde57889e4bdc9c16778e3b84756ffb6b70ffcce1905b5cd8b34447int, modulus(), 0x3f5cc978621afa72bbf42ec64a755fb0263981576c3ede81e1b49883cf0d225cint, 0x5108fbbd024cab8c16982bb5132624a4d7b6712386b61af3760b17a08e72a955int);
    assert(fpow(g, 0xe7db4ea6533afa906673b01012nat) == 0x5108fbbd024cab8c16982bb5132624a4d7b6712386b61af3760b17a08e72a955int);
    assert(fpow(g, 0xe7db4ea6533afa906673b01013nat) == fmul(fpow(g, 0xe7db4ea6533afa906673b01012nat), g));
    vstd::arithmetic::div_mod::lemma_fundamental_div_mod_converse(0x5108fbbd024cab8c16982bb5132624a4d7b6712386b61af3760b17a08e72a955int * 7, modulus(), 0x4int, 0x678844de69a2bbb3d141d1d35f83a06c970687ecaf014cac3a4da567e522a14fint);
    assert(fpow(g, 0xe7db4ea6533afa906673b01013nat) == 0x678844de69a2bbb3d141d1d35f83a06c970687ecaf014cac3a4da567e522a14fint);
    lemma_fpow_double(g, 0xe7db4ea6533afa906673b01013nat);
    assert(0x1cfb69d4ca675f520cce7602026nat == 2 * 0xe7db4ea6533afa906673b01013nat);
    vstd::arithmetic::div_mod::lemma_fundamental_div_mod_converse(0x678844de69a2bbb3d141d1d35f83a06c970687ecaf014cac3a4da567e522a14fint * 0x678844de69a2bbb3d141d1d35f83a06c970687ecaf014cac3a4da567e522a14fint, modulus(), 0x5c76359ccb5e4338cd8a8b12b2374aa07627bcade197cf3777d703fb618fc66bint, 0x29ffc6047fdeba51cf3c31078f34afe5cd9bbbf39376d0cc92235f483310aff6int);
    assert(fpow(g, 0x1cfb69d4ca675f520cce7602026nat) == 0x29ffc6047fdeba51cf3c31078f34afe5cd9bbbf39376d0cc92235f483310aff6int);
    lemma_fpow_double(g, 0x1cfb69d4ca675f520cce7602026nat);
    assert(0x39f6d3a994cebea4199cec0404cnat == 2 * 0x1cfb69d4ca675f520cce7602026nat);
    vstd::arithmetic::div_mod::lemma_fundamental_div_mod_converse(0x29ffc6047fdeba51cf3c31078f34afe5cd9bbbf39376d0cc92235f483310aff6int * 0x29ffc6047fdeba51cf3c31078f34afe5cd9bbbf39376d0cc92235f483310aff6int, modulus(), 0xf37353ef1fed87628a0489deced01b2e6de391af2a84728213a898464b56d92int, 0x714f8aadda8c4502f2248b245ffe0786dff362e01cf11861eea19a016fcd2d2int);
    assert(fpow(g, 0x39f6d3a994cebea4199cec0404cnat) == 0x714f8aadda8c4502f2248b245ffe0786dff362e01cf11861eea19a016fcd2d2int);
}

/// A stretch of the square-and-multiply computation of the root of unity.
proof fn lemma_root_chain_13()
    requires
        fpow(generator_value(), 0x39f6d3a994cebea4199cec0404cnat) == 0x714f8aadda8c4502f2248b245ffe0786dff362e01cf11861eea19a016fcd2d2int,
    ensures
        fpow(generator_value(), 0x39f6d3a994cebea4199cec0404d0enat) == 0x62154442b39cb29156740224fbe1bd3283ef2dad2921d943ca05e70f05fd787dint,
{
    let g = generator_value();
    assert(modulus() == 0x73eda753299d7d483339d80809a1d80553bda402fffe5bfeffffffff00000001int);
    assert(fpow(g, 0x39f6d3a994cebea4199cec0404dnat) == fmul(fpow(g, 0x39f6d3a994cebea4199cec0404cnat), g));
    vstd::arithmetic::div_mod::lemma_fundamental_div_mod_converse(0x714f8aadda8c4502f2248b245ffe0786dff362e01cf11861eea19a016fcd2d2int * 7, modulus(), 0x0int, 0x3192ccac0f9d5e3149effcdfe9ff234b01fa7b420ca97aaad866b360a0e9c3beint);
    assert(fpow(g, 0x39f6d3a994cebea4199cec0404dnat) == 0x3192ccac0f9d5e3149effcdfe9ff234b01fa7b420ca97aaad866b360a0e9c3beint);
    lemma_fpow_double(g, 0x39f6d3a994cebea4199cec0404dnat);
    assert(0x73eda753299d7d483339d80809anat == 2 * 0x39f6d3a994cebea4199cec0404dnat);
    vstd::arithmetic::div_mod::lemma_fundamental_div_mod_converse(0x3192ccac0f9d5e3149effcdfe9ff234b01fa7b420ca97aaad866b360a0e9c3beint * 0x3192ccac0f9d5e3149effcdfe9ff234b01fa7b420ca97aaad866b360a0e9c3beint, modulus(), 0x1532db79ca983502833c4c1b17c7041c207cfe0473ca7656bca3b79b7f6bde10int, 0x37eecbdaaaa6909ab0017869776ad1e73b86215c04b769c55a63b317e61b22f4int);
    assert(fpow(g, 0x73eda753299d7d483339d80809anat) == 0x37eecbdaaaa6909ab0017869776ad1e73b86215c04b769c55a63b317e61b22f4int);
    lemma_fpow_double(g, 0x73eda753299d7d483339d80809anat);
    assert(0xe7db4ea6533afa906673b010134nat == 2 * 0x73eda753299d7d483339d80809anat);
    vstd::arithmetic::div_mod::lemma_fundamental_div_mod_converse(0x37eecbdaaaa6909ab0017869776ad1e73b86215c04b769c55a63b317e61b22f4int * 0x37eecbdaaaa6909ab0017869776ad1e73b86215c04b769c55a63b317e61b22f4int, modulus(), 0x1afc7ec5a7a2c59b669a318b88289ba2d0d945a5304948923ed0089a5f3b0b09int, 0x6eb79e28cdee77b50e862e3875d23a432e8ac4381cb5fe2ed3b947f57502ad87int);
    assert(fpow(g, 0xe7db4ea6533afa906673b010134nat) == 0x6eb79e28cdee77b50e862e3875d23a432e8ac4381cb5fe2ed3b947f57502ad87int);
    lemma_fpow_double(g, 0xe7db4ea6533afa906673b010134nat);
    assert(0x1cfb69d4ca675f520cce76020268nat == 2 * 0xe7db4ea6533afa906673b010134nat);
    vstd::arithmetic::div_mod::lemma_fundamental_div_mod_converse(0x6eb79e28cdee77b50e862e3875d23a432e8ac4381cb5fe2ed3b947f57502ad87int * 0x6eb79e28cdee77b50e862e3875d23a432e8ac4381cb5fe2ed3b947f57502ad87int, modulus(), 0x69bd8c4d31d67c8579a0473edaf25973a65092198dee8384953cbdb7c4f51d76int, 0x37e1a2e8a5cf5c4898344ddc5bca9dc693d9cfd0eaacca592fb2d8c8ccc69fbbint);
    assert(fpow(g, 0x1cfb69d4ca675f520cce76020268nat) == 0x37e1a2e8a5cf5c4898344ddc5bca9dc693d9cfd0eaacca592fb2d8c8ccc69fbbint);
    lemma_fpow_double(g, 0x1cfb69d4ca675f520cce76020268nat);
    assert(0x39f6d3a994cebea4199cec0404d0nat == 2 * 0x1cfb69d4ca675f520cce76020268nat);
    vstd::arithmetic::div_mod::lemma_fundamental_div_mod_converse(0x37e1a2e8a5cf5c4898344ddc5bca9dc693d9cfd0eaacca592fb2d8c8ccc69fbbint * 0x37e1a2e8a5cf5c4898344ddc5bca9dc693d9cfd0eaacca592fb2d8c8ccc69fbbint, modulus(), 0x1aefcd62dab0932a44c16bca79bfd6b1938c94098fe1e56fa89b16c76e736ae9int, 0x588655b593b1713b6407350d57b4cac1bd161cc4220a36335796a0ff127a67b0int);
    assert(fpow(g, 0x39f6d3a994cebea4199cec0404d0nat) == 0x588655b593b1713b6407350d57b4cac1bd161cc4220a36335796a0ff127a67b0int);
    lemma_fpow_double(g, 0x39f6d3a994cebea4199cec0404d0nat);
    assert(0x73eda753299d7d483339d80809a0nat == 2 * 0x39f6d3a994cebea4199cec0404d0nat);
    vstd::arithmetic::div_mod::lemma_fundamental_div_mod_converse(0x588655b593b1713b6407350d57b4cac1bd161cc4220a36335796a0ff127a67b0int * 0x588655b593b1713b6407350d57b4cac1bd161cc4220a36335796a0ff127a67b0int, modulus(), 0x43995301e2756f52b52e98c953a7bf688b2afed6216cd5bcecac2f7766b57868int, 0x6ef88c7997946c0482647cc9529f1b2197dd97be347bb16c6f154aac5709a098int);
    assert(fpow(g, 0x73eda753299d7d483339d80809a0nat) == 0x6ef88c7997946c0482647cc9529f1b2197dd97be347bb16c6f154aac5709a098int);
    assert(fpow(g, 0x73eda753299d7d483339d80809a1nat) == fmul(fpow(g, 0x73eda753299d7d483339d80809a0nat), g));
    vstd::arithmetic::div_mod::lemma_fundamental_div_mod_converse(0x6ef88c7997946c0482647cc9529f1b2197dd97be347bb16c6f154aac5709a098int * 7, modulus(), 0x6int, 0x5139eb602b5e046e5d645951088eadcb309d4e216f6bb1fd09950abc61436422int);
    assert(fpow(g, 0x73eda753299d7d483339d80809a1nat) == 0x5139eb602b5e046e5d645951088eadcb309d4e216f6bb1fd09950abc61436422int);
    lemma_fpow_double(g, 0x73eda753299d7d483339d80809a1nat);
    assert(0xe7db4ea6533afa906673b0101342nat == 2 * 0x73eda753299d7d483339d80809a1nat);
    vstd::arithmetic::div_mod::lemma_fundamental_div_mod_converse(0x5139eb602b5e046e5d645951088eadcb309d4e216f6bb1fd09950abc61436422int * 0x5139eb602b5e046e5d645951088eadcb309d4e216f6bb1fd09950abc61436422int, modulus(), 0x38e973285bd6a5451d32f6271858244fb8d65e5c79079746c8961f9277ff2286int, 0x1f8f65769c03ba7e61da7098c50b9e121403616badba9bae6bee082dcf771feint);
    assert(fpow(g, 0xe7db4ea6533afa906673b0101342nat) == 0x1f8f65769c03ba7e61da7098c50b9e121403616badba9bae6bee082dcf771feint);
    assert(fpow(g, 0xe7db4ea6533afa906673b0101343nat) == fmul(fpow(g, 0xe7db4ea6533afa906673b0101342nat), g));
    vstd::arithmetic::div_mod::lemma_fundamental_div_mod_converse(0x1f8f65769c03ba7e61da7098c50b9e121403616badba9bae6bee082dcf771feint * 7, modulus(), 0x0int, 0xdcebc63e441a1974acf9142d6351527e8c17a9f1c01a41c4f3823940ac41df2int);
    assert(fpow(g, 0xe7db4ea6533afa906673b0101343nat) == 0xdcebc63e441a1974acf9142d6351527e8c17a9f1c01a41c4f3823940ac41df2int);
    lemma_fpow_double(g, 0xe7db4ea6533afa906673b0101343nat);
    assert(0x1cfb69d4ca675f520cce760202686nat == 2 * 0xe7db4ea6533afa906673b0101343nat);
    vstd::arithmetic::div_mod::lemma_fundamental_div_mod_converse(0xdcebc63e441a1974acf9142d6351527e8c17a9f1c01a41c4f3823940ac41df2int * 0xdcebc63e441a1974acf9142d6351527e8c17a9f1c01a41c4f3823940ac41df2int, modulus(), 0x1a5009118c0fc452dc3edbdab49ee36f93d2049a06afb0e73b4f126ac618c3aint, 0x31a98bb32d84891ea33b9439ea83b83035aa71314b3ed818c1f34f7819af2c8aint);
    assert(fpow(g, 0x1cfb69d4ca675f520cce760202686nat) == 0x31a98bb32d84891ea33b9439ea83b83035aa71314b3ed818c1f34f7819af2c8aint);
    assert(fpow(g, 0x1cfb69d4ca675f520cce760202687nat) == fmul(fpow(g, 0x1cfb69d4ca675f520cce760202686nat), g));
    vstd::arithmetic::div_mod::lemma_fundamental_div_mod_converse(0x31a98bb32d84891ea33b9439ea83b83035aa71314b3ed818c1f34f7819af2c8aint * 7, modulus(), 0x2int, 0x73c7833feb64c546102d5d8556565946d02dd0530ebb30af4da72c4ab3ca37c4int);
    assert(fpow(g, 0x1cfb69d4ca675f520cce760202687nat) == 0x73c7833feb64c546102d5d8556565946d02dd0530ebb30af4da72c4ab3ca37c4int);
    lemma_fpow_double(g, 0x1cfb69d4ca675f520cce760202687nat);
    assert(0x39f6d3a994cebea4199cec0404d0enat == 2 * 0x1cfb69d4ca675f520cce760202687nat);
    vstd::arithmetic::div_mod::lemma_fundamental_div_mod_converse(0x73c7833feb64c546102d5d8556565946d02dd0530ebb30af4da72c4ab3ca37c4int * 0x73c7833feb64c546102d5d8556565946d02dd0530ebb30af4da72c4ab3ca37c4int, modulus(), 0x73a16bb91958b71e8ca86161ef165ae0ea16d591a13fd6cdf182758c1f785593int, 0x62154442b39cb29156740224fbe1bd3283ef2dad2921d943ca05e70f05fd787dint);
    assert(fpow(g, 0x39f6d3a994cebea4199cec0404d0enat) == 0x62154442b39cb29156740224fbe1bd3283ef2dad2921d943ca05e70f05fd787dint);
}

/// A stretch of the square-and-multiply computation of the root of unity.
proof fn lemma_root_chain_14()
    requires
        fpow(generator_value(), 0x39f6d3a994cebea4199cec0404d0enat) == 0x62154442b39cb29156740224fbe1bd3283ef2dad2921d943ca05e70f05fd787dint,
    ensures
        fpow(generator_value(), 0xe7db4ea6533afa906673b0101343b00nat) == 0x49458f22b49a4020e2f5002ce05a683e570713539fed464d54cd8d1379a1c05fint,
{
    let g = generator_value();
    assert(modulus() == 0x73eda753299d7d483339d80809a1d80553bda402fffe5bfeffffffff00000001int);
    lemma_fpow_double(g, 0x39f6d3a994cebea4199cec0404d0enat);
    assert(0x73eda753299d7d483339d80809a1cnat == 2 * 0x39f6d3a994cebea4199cec0404d0enat);
    vstd::arithmetic::div_mod::lemma_fundamental_div_mod_converse(0x62154442b39cb29156740224fbe1bd3283ef2dad2921d943ca05e70f05fd787dint * 0x62154442b39cb29156740224fbe1bd3283ef2dad2921d943ca05e70f05fd787dint, modulus(), 0x52fc1b95ff0c78437a47a8f433c0f5e328a3bc117626bb96e1920db364c3b40eint, 0x4fee84d0391bb34cd3bc0fd48c448fdca5f28c0e635755559f5d3cacdd03b8fbint);
    assert(fpow(g, 0x73eda753299d7d483339d80809a1cnat) == 0x4fee84d0391bb34cd3bc0fd48c448fdca5f28c0e635755559f5d3cacdd03b8fbint);
    assert(fpow(g, 0x73eda753299d7d483339d80809a1dnat) == fmul(fpow(g, 0x73eda753299d7d483339d80809a1cnat), g));
    vstd::arithmetic::div_mod::lemma_fundamental_div_mod_converse(0x4fee84d0391bb34cd3bc0fd48c448fdca5f28c0e635755559f5d3cacdd03b8fbint * 7, modulus(), 0x4int, 0x5fcf0464e94bf1f8fd3d0eafaf588ef33aab4458b769e55b5b8ca8be0b1a0ed9int);
    assert(fpow(g, 0x73eda753299d7d483339d80809a1dnat) == 0x5fcf0464e94bf1f8fd3d0eafaf588ef33aab4458b769e55b5b8ca8be0b1a0ed9int);
    lemma_fpow_double(g, 0x73eda753299d7d483339d80809a1dnat);
    assert(0xe7db4ea6533afa906673b0101343anat == 2 * 0x73eda753299d7d483339d80809a1dnat);
    vstd::arithmetic::div_mod::lemma_fundamental_div_mod_converse(0x5fcf0464e94bf1f8fd3d0eafaf588ef33aab4458b769e55b5b8ca8be0b1a0ed9int * 0x5fcf0464e94bf1f8fd3d0eafaf588ef33aab4458b769e55b5b8ca8be0b1a0ed9int, modulus(), 0x4f2e49997b67bdc2ed29a5951eab22fbe2e66f61a81b4868002e9431a1d988fbint, 0x6925634a3f887db786cc7556cd8e7fff0d0191d2e8bc0fbfd3a90ed30916eaf6int);
    assert(fpow(g, 0xe7db4ea6533afa906673b0101343anat) == 0x6925634a3f887db786cc7556cd8e7fff0d0191d2e8bc0fbfd3a90ed30916eaf6int);
    assert(fpow(g, 0xe7db4ea6533afa906673b0101343bnat) == fmul(fpow(g, 0xe7db4ea6533afa906673b0101343anat), g));
    vstd::arithmetic::div_mod::lemma_fundamental_div_mod_converse(0x6925634a3f887db786cc7556cd8e7fff0d0191d2e8bc0fbfd3a90ed30916eaf6int * 7, modulus(), 0x6int, 0x2873cb14c30a80537c3c252f651a6fd9649924b25d2e4644c99f67cb3fa06cb4int);
    assert(fpow(g, 0xe7db4ea6533afa906673b0101343bnat) == 0x2873cb14c30a80537c3c252f651a6fd9649924b25d2e4644c99f67cb3fa06cb4int);
    lemma_fpow_double(g, 0xe7db4ea6533afa906673b0101343bnat);
    assert(0x1cfb69d4ca675f520cce7602026876nat == 2 * 0xe7db4ea6533afa906673b0101343bnat);
    vstd::arithmetic::div_mod::lemma_fundamental_div_mod_converse(0x2873cb14c30a80537c3c252f651a6fd9649924b25d2e4644c99f67cb3fa06cb4int * 0x2873cb14c30a80537c3c252f651a6fd9649924b25d2e4644c99f67cb3fa06cb4int, modulus(), 0xe1d936fbfdbbb270eebcd5b1dd8c0a2e1c5a9a9a1ed7a48960e0c5152f344fcint, 0x2497baff2f4d409e9d42370023dc6154f9a9400a0815992f7c32d02b54351994int);
    assert(fpow(g, 0x1cfb69d4ca675f520cce7602026876nat) == 0x2497baff2f4d409e9d42370023dc6154f9a9400a0815992f7c32d02b54351994int);
    lemma_fpow_double(g, 0x1cfb69d4ca675f520cce7602026876nat);
    assert(0x39f6d3a994cebea4199cec0404d0ecnat == 2 * 0x1cfb69d4ca675f520cce7602026876nat);
    vstd::arithmetic::div_mod::lemma_fundamental_div_mod_converse(0x2497baff2f4d409e9d42370023dc6154f9a9400a0815992f7c32d02b54351994int * 0x2497baff2f4d409e9d42370023dc6154f9a9400a0815992f7c32d02b54351994int, modulus(), 0xb8ceae28d25f2c7a761b69d7c6eae506caeb6b1b70357c9b7796880656d6141int, 0x50dfe55262f7e3ee52b477a95910713c4d22886ca3932800baddf4455468dc4fint);
    assert(fpow(g, 0x39f6d3a994cebea4199cec0404d0ecnat) == 0x50dfe55262f7e3ee52b477a95910713c4d22886ca3932800baddf4455468dc4fint);
    lemma_fpow_double(g, 0x39f6d3a994cebea4199cec0404d0ecnat);
    assert(0x73eda753299d7d483339d80809a1d8nat == 2 * 0x39f6d3a994cebea4199cec0404d0ecnat);
    vstd::arithmetic::div_mod::lemma_fundamental_div_mod_converse(0x50dfe55262f7e3ee52b477a95910713c4d22886ca3932800baddf4455468dc4fint * 0x50dfe55262f7e3ee52b477a95910713c4d22886ca3932800baddf4455468dc4fint, modulus(), 0x386b9235549ee5f81b6c01b9c02ae3189753c2c9e741ddb561f40dfaec1f82caint, 0x5513a5fb540be56cf4626d52ab1aa23e7aeb2152e26823ed36e3caeca9a85d97int);
    assert(fpow(g, 0x73eda753299d7d483339d80809a1d8nat) == 0x5513a5fb540be56cf4626d52ab1aa23e7aeb2152e26823ed36e3caeca9a85d97int);
    lemma_fpow_double(g, 0x73eda753299d7d483339d80809a1d8nat);
    assert(0xe7db4ea6533afa906673b0101343b0nat == 2 * 0x73eda753299d7d483339d80809a1d8nat);
    vstd::arithmetic::div_mod::lemma_fundamental_div_mod_converse(0x5513a5fb540be56cf4626d52ab1aa23e7aeb2152e26823ed36e3caeca9a85d97int * 0x5513a5fb540be56cf4626d52ab1aa23e7aeb2152e26823ed36e3caeca9a85d97int, modulus(), 0x3e6f82a4b180f22201c9591200dff2921fbc9bfd9fad21df8fcd4836483cd9e7int, 0x68732d0388e373c65da15272d471a835cb72a8913802ce6c58c826650e2a352aint);
    assert(fpow(g, 0xe7db4ea6533afa906673b0101343b0nat) == 0x68732d0388e373c65da15272d471a835cb72a8913802ce6c58c826650e2a352aint);
    lemma_fpow_double(g, 0xe7db4ea6533afa906673b0101343b0nat);
    assert(0x1cfb69d4ca675f520cce76020268760nat == 2 * 0xe7db4ea6533afa906673b0101343b0nat);
    vstd::arithmetic::div_mod::lemma_fundamental_div_mod_converse(0x68732d0388e373c65da15272d471a835cb72a8913802ce6c58c826650e2a352aint * 0x68732d0388e373c65da15272d471a835cb72a8913802ce6c58c826650e2a352aint, modulus(), 0x5e1ba55eec9e4ed15153ba532e6e3d0dda8396bfb4d407f7abc2e9f20e87eccaint, 0x5af4f04cfd1aab6889f04442f1d55f461bb49513992bf8cd0a4412c2064a7e1aint);
    assert(fpow(g, 0x1cfb69d4ca675f520cce76020268760nat) == 0x5af4f04cfd1aab6889f04442f1d55f461bb49513992bf8cd0a4412c2064a7e1aint);
    lemma_fpow_double(g, 0x1cfb69d4ca675f520cce76020268760nat);
    assert(0x39f6d3a994cebea4199cec0404d0ec0nat == 2 * 0x1cfb69d4ca675f520cce76020268760nat);
    vstd::arithmetic::div_mod::lemma_fundamental_div_mod_converse(0x5af4f04cfd1aab6889f04442f1d55f461bb49513992bf8cd0a4412c2064a7e1aint * 0x5af4f04cfd1aab6889f04442f1d55f461bb49513992bf8cd0a4412c2064a7e1aint, modulus(), 0x475d3f19f33cb362fe36159d6dfa478f2d1a9031668d74ce8180991d3a139465int, 0x1328337bf6ca49047c61efbf7adddceb342e7df06dc9c7b4c12d56462312063fint);
    assert(fpow(g, 0x39f6d3a994cebea4199cec0404d0ec0nat) == 0x1328337bf6ca49047c61efbf7adddceb342e7df06dc9c7b4c12d56462312063fint);
    lemma_fpow_double(g, 0x39f6d3a994cebea4199cec0404d0ec0nat);
    assert(0x73eda753299d7d483339d80809a1d80nat == 2 * 0x39f6d3a994cebea4199cec0404d0ec0nat);
    vstd::arithmetic::div_mod::lemma_fundamental_div_mod_converse(0x1328337bf6ca49047c61efbf7adddceb342e7df06dc9c7b4c12d56462312063fint * 0x1328337bf6ca49047c61efbf7adddceb342e7df06dc9c7b4c12d56462312063fint, modulus(), 0x32a6a018bf7455589f625893caa09e9926c9ce54e661c7fa3be6424a92a40d6int, 0x23b754d9338b9f5f0517859e83f26afa8b2f97ca4f7b0f9b846d8a1f71d8c2abint);
    assert(fpow(g, 0x73eda753299d7d483339d80809a1d80nat) == 0x23b754d9338b9f5f0517859e83f26afa8b2f97ca4f7b0f9b846d8a1f71d8c2abint);
    lemma_fpow_double(g, 0x73eda753299d7d483339d80809a1d80nat);
    assert(0xe7db4ea6533afa906673b0101343b00nat == 2 * 0x73eda753299d7d483339d80809a1d80nat);
    vstd::arithmetic::div_mod::lemma_fundamental_div_mod_converse(0x23b754d9338b9f5f0517859e83f26afa8b2f97ca4f7b0f9b846d8a1f71d8c2abint * 0x23b754d9338b9f5f0517859e83f26afa8b2f97ca4f7b0f9b846d8a1f71d8c2abint, modulus(), 0xb00f3932da274bc27e69f90d8ec283499e3d3b1561b5023d0c6e59490f5dddaint, 0x49458f22b49a4020e2f5002ce05a683e570713539fed464d54cd8d1379a1c05fint);
    assert(fpow(g, 0xe7db4ea6533afa906673b0101343b00nat) == 0x49458f22b49a4020e2f5002ce05a683e570713539fed464d54cd8d1379a1c05fint);
}

/// A stretch of the square-and-multiply computation of the root of unity.
proof fn lemma_root_chain_15()
    requires
        fpow(generator_value(), 0xe7db4ea6533afa906673b0101343b00nat) == 0x49458f22b49a4020e2f5002ce05a683e570713539fed464d54cd8d1379a1c05fint,
    ensures
        fpow(generator_value(), 0xe7db4ea6533afa906673b0101343b00aanat) == 0x4483ad9886a88ec9b0f6de4025828ff09617ba50cba53c867e67ae22799e043fint,
{
    let g = generator_value();
    assert(modulus() == 0x73eda753299d7d483339d80809a1d80553bda402fffe5bfeffffffff00000001int);
    lemma_fpow_double(g, 0xe7db4ea6533afa906673b0101343b00nat);
    assert(0x1cfb69d4ca675f520cce760202687600nat == 2 * 0xe7db4ea6533afa906673b0101343b00nat);
    vstd::arithmetic::div_mod::lemma_fundamental_div_mod_converse(0x49458f22b49a4020e2f5002ce05a683e570713539fed464d54cd8d1379a1c05fint * 0x49458f22b49a4020e2f5002ce05a683e570713539fed464d54cd8d1379a1c05fint, modulus(), 0x2e4f96719565bb5a257c5aa2f587bbce9ec5b960ca888fa8afddd83216ea0110int, 0x6578fef8125a3a12202e9db2f3ab6ff194c4a0cbbf269f834ce7ab053f22a231int);
    assert(fpow(g, 0x1cfb69d4ca675f520cce760202687600nat) == 0x6578fef8125a3a12202e9db2f3ab6ff194c4a0cbbf269f834ce7ab053f22a231int);
    assert(fpow(g, 0x1cfb69d4ca675f520cce760202687601nat) == fmul(fpow(g, 0x1cfb69d4ca675f520cce760202687600nat), g));
    vstd::arithmetic::div_mod::lemma_fundamental_div_mod_converse(0x6578fef8125a3a12202e9db2f3ab6ff194c4a0cbbf269f834ce7ab053f22a231int * 7, modulus(), 0x6int, 0xebd0cd586c6a6cdadeb3fb46fe4ff7b1aee8d803a18349d1a55ad2ab9f26f51int);
    assert(fpow(g, 0x1cfb69d4ca675f520cce760202687601nat) == 0xebd0cd586c6a6cdadeb3fb46fe4ff7b1aee8d803a18349d1a55ad2ab9f26f51int);
    lemma_fpow_double(g, 0x1cfb69d4ca675f520cce760202687601nat);
    assert(0x39f6d3a994cebea4199cec0404d0ec02nat == 2 * 0x1cfb69d4ca675f520cce760202687601nat);
    vstd::arithmetic::div_mod::lemma_fundamental_div_mod_converse(0xebd0cd586c6a6cdadeb3fb46fe4ff7b1aee8d803a18349d1a55ad2ab9f26f51int * 0xebd0cd586c6a6cdadeb3fb46fe4ff7b1aee8d803a18349d1a55ad2ab9f26f51int, modulus(), 0x1dfaf347c90ed8257843c547b8eb9329d7f48e01d34c09c36a7f61a3d70e442int, 0x466e972d0f77d066ac885813adc75112b2ee0e8ed26d53279ba339357a1a735fint);
    assert(fpow(g, 0x39f6d3a994cebea4199cec0404d0ec02nat) == 0x466e972d0f77d066ac885813adc75112b2ee0e8ed26d53279ba339357a1a735fint);
    lemma_fpow_double(g, 0x39f6d3a994cebea4199cec0404d0ec02nat);
    assert(0x73eda753299d7d483339d80809a1d804nat == 2 * 0x39f6d3a994cebea4199cec0404d0ec02nat);
    vstd::arithmetic::div_mod::lemma_fundamental_div_mod_converse(0x466e972d0f77d066ac885813adc75112b2ee0e8ed26d53279ba339357a1a735fint * 0x466e972d0f77d066ac885813adc75112b2ee0e8ed26d53279ba339357a1a735fint, modulus(), 0x2aca71aac545d5ef419923bc3aba77e816c1d4378622c7e0f9b026311aeee320int, 0x10fe872c8001ea8fd1c31f98543811f00eb76cad999fe351a6ca08f7145b9a21int);
    assert(fpow(g, 0x73eda753299d7d483339d80809a1d804nat) == 0x10fe872c8001ea8fd1c31f98543811f00eb76cad999fe351a6ca08f7145b9a21int);
    assert(fpow(g, 0x73eda753299d7d483339d80809a1d805nat) == fmul(fpow(g, 0x73eda753299d7d483339d80809a1d804nat), g));
    vstd::arithmetic::div_mod::lemma_fundamental_div_mod_converse(0x10fe872c8001ea8fd1c31f98543811f00eb76cad999fe351a6ca08f7145b9a21int * 7, modulus(), 0x1int, 0x3080ae4566feca6891c052243e6a58b134654bc3360db3c8f863ec28e8136e6int);
    assert(fpow(g, 0x73eda753299d7d483339d80809a1d805nat) == 0x3080ae4566feca6891c052243e6a58b134654bc3360db3c8f863ec28e8136e6int);
    lemma_fpow_double(g, 0x73eda753299d7d483339d80809a1d805nat);
    assert(0xe7db4ea6533afa906673b0101343b00anat == 2 * 0x73eda753299d7d483339d80809a1d805nat);
    vstd::arithmetic::div_mod::lemma_fundamental_div_mod_converse(0x3080ae4566feca6891c052243e6a58b134654bc3360db3c8f863ec28e8136e6int * 0x3080ae4566feca6891c052243e6a58b134654bc3360db3c8f863ec28e8136e6int, modulus(), 0x144af37e8e974863bd5d24b7c396f0d71665ccdc768d4bc8354ae242aab80fint, 0x4afa712d075402ec0609d66677e9eaaf77835db413a5acf2c8ffa3e444e71e95int);
    assert(fpow(g, 0xe7db4ea6533afa906673b0101343b00anat) == 0x4afa712d075402ec0609d66677e9eaaf77835db413a5acf2c8ffa3e444e71e95int);
    lemma_fpow_double(g, 0xe7db4ea6533afa906673b0101343b00anat);
    assert(0x1cfb69d4ca675f520cce7602026876014nat == 2 * 0xe7db4ea6533afa906673b0101343b00anat);
    vstd::arithmetic::div_mod::lemma_fundamental_div_mod_converse(0x4afa712d075402ec0609d66677e9eaaf77835db413a5acf2c8ffa3e444e71e95int * 0x4afa712d075402ec0609d66677e9eaaf77835db413a5acf2c8ffa3e444e71e95int, modulus(), 0x307e46dd9535505fd75c0375da6a5a3cbefd702fbe68bdc4290bd63357ab0779int, 0x3db8cfd96b99fa8c45383d4458e4f0312c5530b650078d1d0aa1019504e23b40int);
    assert(fpow(g, 0x1cfb69d4ca675f520cce7602026876014nat) == 0x3db8cfd96b99fa8c45383d4458e4f0312c5530b650078d1d0aa1019504e23b40int);
    assert(fpow(g, 0x1cfb69d4ca675f520cce7602026876015nat) == fmul(fpow(g, 0x1cfb69d4ca675f520cce7602026876014nat), g));
    vstd::arithmetic::div_mod::lemma_fundamental_div_mod_converse(0x3db8cfd96b99fa8c45383d4458e4f0312c5530b650078d1d0aa1019504e23b40int * 7, modulus(), 0x3int, 0x5444b8f8745d61fd4adc24c6515d09483b1b68f33039c7ce4a670b16222f9ebdint);
    assert(fpow(g, 0x1cfb69d4ca675f520cce7602026876015nat) == 0x5444b8f8745d61fd4adc24c6515d09483b1b68f33039c7ce4a670b16222f9ebdint);
    lemma_fpow_double(g, 0x1cfb69d4ca675f520cce7602026876015nat);
    assert(0x39f6d3a994cebea4199cec0404d0ec02anat == 2 * 0x1cfb69d4ca675f520cce7602026876015nat);
    vstd::arithmetic::div_mod::lemma_fundamental_div_mod_converse(0x5444b8f8745d61fd4adc24c6515d09483b1b68f33039c7ce4a670b16222f9ebdint * 0x5444b8f8745d61fd4adc24c6515d09483b1b68f33039c7ce4a670b16222f9ebdint, modulus(), 0x3d413cffcb3a7eac322f33f7fcbfb84020b6c73b0fb3a36eeb377c2ce062a762int, 0x58f30768c66fca0b139f170806f6c74c28cf368dec28893cf1a560b6ff713027int);
    assert(fpow(g, 0x39f6d3a994cebea4199cec0404d0ec02anat) == 0x58f30768c66fca0b139f170806f6c74c28cf368dec28893cf1a560b6ff713027int);
    lemma_fpow_double(g, 0x39f6d3a994cebea4199cec0404d0ec02anat);
    assert(0x73eda753299d7d483339d80809a1d8054nat == 2 * 0x39f6d3a994cebea4199cec0404d0ec02anat);
    vstd::arithmetic::div_mod::lemma_fundamental_div_mod_converse(0x58f30768c66fca0b139f170806f6c74c28cf368dec28893cf1a560b6ff713027int * 0x58f30768c66fca0b139f170806f6c74c28cf368dec28893cf1a560b6ff713027int, modulus(), 0x443fb9399d37dbdc595fc9fbdfa0eeef89d20aedf15128ab14f664acfe9c9df9int, 0x6a3ed5c773b8b2f9cba4d3fc218c28f30a1ef7724998d53981dca0b93ee007f8int);
    assert(fpow(g, 0x73eda753299d7d483339d80809a1d8054nat) == 0x6a3ed5c773b8b2f9cba4d3fc218c28f30a1ef7724998d53981dca0b93ee007f8int);
    assert(fpow(g, 0x73eda753299d7d483339d80809a1d8055nat) == fmul(fpow(g, 0x73eda753299d7d483339d80809a1d8054nat), g));
    vstd::arithmetic::div_mod::lemma_fundamental_div_mod_converse(0x6a3ed5c773b8b2f9cba4d3fc218c28f30a1ef7724998d53981dca0b93ee007f8int * 7, modulus(), 0x6int, 0x3025ec81305bf5235e26bbb4b10a0e855066ec0e0337ac988d086516b82037c2int);
    assert(fpow(g, 0x73eda753299d7d483339d80809a1d8055nat) == 0x3025ec81305bf5235e26bbb4b10a0e855066ec0e0337ac988d086516b82037c2int);
    lemma_fpow_double(g, 0x73eda753299d7d483339d80809a1d8055nat);
    assert(0xe7db4ea6533afa906673b0101343b00aanat == 2 * 0x73eda753299d7d483339d80809a1d8055nat);
    vstd::arithmetic::div_mod::lemma_fundamental_div_mod_converse(0x3025ec81305bf5235e26bbb4b10a0e855066ec0e0337ac988d086516b82037c2int * 0x3025ec81305bf5235e26bbb4b10a0e855066ec0e0337ac988d086516b82037c2int, modulus(), 0x13ff493bbcf09ef34b80edf62a2e800a10a0b5f78df7f18aaab63a2f6306eac5int, 0x4483ad9886a88ec9b0f6de4025828ff09617ba50cba53c867e67ae22799e043fint);
    assert(fpow(g, 0xe7db4ea6533afa906673b0101343b00aanat) == 0x4483ad9886a88ec9b0f6de4025828ff09617ba50cba53c867e67ae22799e043fint);
}

/// A stretch of the square-and-multiply computation of the root of unity.
proof fn lemma_root_chain_16()
    requires
        fpow(generator_value(), 0xe7db4ea6533afa906673b0101343b00aanat) == 0x4483ad9886a88ec9b0f6de4025828ff09617ba50cba53c867e67ae22799e043fint,
    ensures
        fpow(generator_value(), 0x73eda753299d7d483339d80809a1d80553bnat) == 0x2a1d8f0bb640b2e2bc85c4d70334e71307807a50ae9d1a1a76b3a9a0204b08b3int,
{
    let g = generator_value();
    assert(modulus() == 0x73eda753299d7d483339d80809a1d80553bda402fffe5bfeffffffff00000001int);
    lemma_fpow_double(g, 0xe7db4ea6533afa906673b0101343b00aanat);
    assert(0x1cfb69d4ca675f520cce76020268760154nat == 2 * 0xe7db4ea6533afa906673b0101343b00aanat);
    vstd::arithmetic::div_mod::lemma_fundamental_div_mod_converse(0x4483ad9886a88ec9b0f6de4025828ff09617ba50cba53c867e67ae22799e043fint * 0x4483ad9886a88ec9b0f6de4025828ff09617ba50cba53c867e67ae22799e043fint, modulus(), 0x287e0f1a3b9440b88b9c07d4212fbdc9c67f4a9a6d54a098f0d3cd66c29e341eint, 0x4b3d6eba02527bc7052bf73725df8cd9c96828a52026de2c9601ed000937d363int);
    assert(fpow(g, 0x1cfb69d4ca675f520cce76020268760154nat) == 0x4b3d6eba02527bc7052bf73725df8cd9c96828a52026de2c9601ed000937d363int);
    lemma_fpow_double(g, 0x1cfb69d4ca675f520cce76020268760154nat);
    assert(0x39f6d3a994cebea4199cec0404d0ec02a8nat == 2 * 0x1cfb69d4ca675f520cce76020268760154nat);
    vstd::arithmetic::div_mod::lemma_fundamental_div_mod_converse(0x4b3d6eba02527bc7052bf73725df8cd9c96828a52026de2c9601ed000937d363int * 0x4b3d6eba02527bc7052bf73725df8cd9c96828a52026de2c9601ed000937d363int, modulus(), 0x30d515016855538c76da3c05bc9a5d81eefaff659147d91d790da5b9b356438aint, 0x29a8d11fb63834e9e5ed1f3854c27f15af77dfd66155656742c8e4d9c5c014bfint);
    assert(fpow(g, 0x39f6d3a994cebea4199cec0404d0ec02a8nat) == 0x29a8d11fb63834e9e5ed1f3854c27f15af77dfd66155656742c8e4d9c5c014bfint);
    assert(fpow(g, 0x39f6d3a994cebea4199cec0404d0ec02a9nat) == fmul(fpow(g, 0x39f6d3a994cebea4199cec0404d0ec02a8nat), g));
    vstd::arithmetic::div_mod::lemma_fundamental_div_mod_converse(0x29a8d11fb63834e9e5ed1f3854c27f15af77dfd66155656742c8e4d9c5c014bfint * 7, modulus(), 0x2int, 0x3bc26937a84e77d4e3082a7a3e0dc98d24cbd6d6a9590dd4d37e41f668409137int);
    assert(fpow(g, 0x39f6d3a994cebea4199cec0404d0ec02a9nat) == 0x3bc26937a84e77d4e3082a7a3e0dc98d24cbd6d6a9590dd4d37e41f668409137int);
    lemma_fpow_double(g, 0x39f6d3a994cebea4199cec0404d0ec02a9nat);
    assert(0x73eda753299d7d483339d80809a1d80552nat == 2 * 0x39f6d3a994cebea4199cec0404d0ec02a9nat);
    vstd::arithmetic::div_mod::lemma_fundamental_div_mod_converse(0x3bc26937a84e77d4e3082a7a3e0dc98d24cbd6d6a9590dd4d37e41f668409137int * 0x3bc26937a84e77d4e3082a7a3e0dc98d24cbd6d6a9590dd4d37e41f668409137int, modulus(), 0x1ece1d5a7fcf4cd4067e6653d316bc697321893913a7b5020db91da674cad9baint, 0x352fb4bec8b334a7b4f20f852947d6f5062eca263b67a083537f460d29148017int);
    assert(fpow(g, 0x73eda753299d7d483339d80809a1d80552nat) == 0x352fb4bec8b334a7b4f20f852947d6f5062eca263b67a083537f460d29148017int);
    assert(fpow(g, 0x73eda753299d7d483339d80809a1d80553nat) == fmul(fpow(g, 0x73eda753299d7d483339d80809a1d80552nat), g));
    vstd::arithmetic::div_mod::lemma_fundamental_div_mod_converse(0x352fb4bec8b334a7b4f20f852947d6f5062eca263b67a083537f460d29148017int * 7, modulus(), 0x3int, 0x1884fb3e000df8bd58f0e48c041158a3300e9b029fda4f9a487aea5f1f8f809eint);
    assert(fpow(g, 0x73eda753299d7d483339d80809a1d80553nat) == 0x1884fb3e000df8bd58f0e48c041158a3300e9b029fda4f9a487aea5f1f8f809eint);
    lemma_fpow_double(g, 0x73eda753299d7d483339d80809a1d80553nat);
    assert(0xe7db4ea6533afa906673b0101343b00aa6nat == 2 * 0x73eda753299d7d483339d80809a1d80553nat);
    vstd::arithmetic::div_mod::lemma_fundamental_div_mod_converse(0x1884fb3e000df8bd58f0e48c041158a3300e9b029fda4f9a487aea5f1f8f809eint * 0x1884fb3e000df8bd58f0e48c041158a3300e9b029fda4f9a487aea5f1f8f809eint, modulus(), 0x52f9d6b4c2a30476f042028c47b0556c4d6fff3095a99445cb9c143bd764f39int, 0x3ca6eddab3ddd7bdca812f9b0f686fb774a17329c0ec137a9edaecd077ac124bint);
    assert(fpow(g, 0xe7db4ea6533afa906673b0101343b00aa6nat) == 0x3ca6eddab3ddd7bdca812f9b0f686fb774a17329c0ec137a9edaecd077ac124bint);
    assert(fpow(g, 0xe7db4ea6533afa906673b0101343b00aa7nat) == fmul(fpow(g, 0xe7db4ea6533afa906673b0101343b00aa6nat), g));
    vstd::arithmetic::div_mod::lemma_fundamental_div_mod_converse(0x3ca6eddab3ddd7bdca812f9b0f686fb774a17329c0ec137a9edaecd077ac124bint * 7, modulus(), 0x3int, 0x4cc78b016e386e57efdac5254ef585f435313a1b4679745d57fc79b645b4800aint);
    assert(fpow(g, 0xe7db4ea6533afa906673b0101343b00aa7nat) == 0x4cc78b016e386e57efdac5254ef585f435313a1b4679745d57fc79b645b4800aint);
    lemma_fpow_double(g, 0xe7db4ea6533afa906673b0101343b00aa7nat);
    assert(0x1cfb69d4ca675f520cce76020268760154enat == 2 * 0xe7db4ea6533afa906673b0101343b00aa7nat);
    vstd::arithmetic::div_mod::lemma_fundamental_div_mod_converse(0x4cc78b016e386e57efdac5254ef585f435313a1b4679745d57fc79b645b4800aint * 0x4cc78b016e386e57efdac5254ef585f435313a1b4679745d57fc79b645b4800aint, modulus(), 0x32d9e352b0baf254d19c4955f0b49181bfdce36c20a1305db8624ce5192bf042int, 0x219b15afd09efb7206f584b318e584906379b4733dd3261c1123f1de98ee1022int);
    assert(fpow(g, 0x1cfb69d4ca675f520cce76020268760154enat) == 0x219b15afd09efb7206f584b318e584906379b4733dd3261c1123f1de98ee1022int);
    lemma_fpow_double(g, 0x1cfb69d4ca675f520cce76020268760154enat);
    assert(0x39f6d3a994cebea4199cec0404d0ec02a9cnat == 2 * 0x1cfb69d4ca675f520cce76020268760154enat);
    vstd::arithmetic::div_mod::lemma_fundamental_div_mod_converse(0x219b15afd09efb7206f584b318e584906379b4733dd3261c1123f1de98ee1022int * 0x219b15afd09efb7206f584b318e584906379b4733dd3261c1123f1de98ee1022int, modulus(), 0x9bde61bdf9fa1777d0648a7222e0afa7f6cfb8e5892148beda63b7fd46d42bbint, 0x56f95f227c6a197af1d242f49ab1a0fc0eab1cbe2f9821d9a6b296bd8bcf01c9int);
    assert(fpow(g, 0x39f6d3a994cebea4199cec0404d0ec02a9cnat) == 0x56f95f227c6a197af1d242f49ab1a0fc0eab1cbe2f9821d9a6b296bd8bcf01c9int);
    assert(fpow(g, 0x39f6d3a994cebea4199cec0404d0ec02a9dnat) == fmul(fpow(g, 0x39f6d3a994cebea4199cec0404d0ec02a9cnat), g));
    vstd::arithmetic::div_mod::lemma_fundamental_div_mod_converse(0x56f95f227c6a197af1d242f49ab1a0fc0eab1cbe2f9821d9a6b296bd8bcf01c9int * 7, modulus(), 0x5int, 0x1d2d555196d33ff39c9e9c880ab22ec9c3f995244d3120f88ee21f33d2a90c7aint);
    assert(fpow(g, 0x39f6d3a994cebea4199cec0404d0ec02a9dnat) == 0x1d2d555196d33ff39c9e9c880ab22ec9c3f995244d3120f88ee21f33d2a90c7aint);
    lemma_fpow_double(g, 0x39f6d3a994cebea4199cec0404d0ec02a9dnat);
    assert(0x73eda753299d7d483339d80809a1d80553anat == 2 * 0x39f6d3a994cebea4199cec0404d0ec02a9dnat);
    vstd::arithmetic::div_mod::lemma_fundamental_div_mod_converse(0x1d2d555196d33ff39c9e9c880ab22ec9c3f995244d3120f88ee21f33d2a90c7aint * 0x1d2d555196d33ff39c9e9c880ab22ec9c3f995244d3120f88ee21f33d2a90c7aint, modulus(), 0x757e5b291ad12ddec214fa81c979f1bd5fe6907ed67cc760b8901f253ee169cint, 0x58d28bf3ee9e4e7888aa2424750d722b1850ab323d82fc4c3587615f4dc19388int);
    assert(fpow(g, 0x73eda753299d7d483339d80809a1d80553anat) == 0x58d28bf3ee9e4e7888aa2424750d722b1850ab323d82fc4c3587615f4dc19388int);
    assert(fpow(g, 0x73eda753299d7d483339d80809a1d80553bnat) == fmul(fpow(g, 0x73eda753299d7d483339d80809a1d80553anat), g));
    vstd::arithmetic::div_mod::lemma_fundamental_div_mod_converse(0x58d28bf3ee9e4e7888aa2424750d722b1850ab323d82fc4c3587615f4dc19388int * 7, modulus(), 0x5int, 0x2a1d8f0bb640b2e2bc85c4d70334e71307807a50ae9d1a1a76b3a9a0204b08b3int);
    assert(fpow(g, 0x73eda753299d7d483339d80809a1d80553bnat) == 0x2a1d8f0bb640b2e2bc85c4d70334e71307807a50ae9d1a1a76b3a9a0204b08b3int);
}

/// A stretch of the square-and-multiply computation of the root of unity.
proof fn lemma_root_chain_17()
    requires
        fpow(generator_value(), 0x73eda753299d7d483339d80809a1d80553bnat) == 0x2a1d8f0bb640b2e2bc85c4d70334e71307807a50ae9d1a1a76b3a9a0204b08b3int,
    ensures
        fpow(generator_value(), 0x39f6d3a994cebea4199cec0404d0ec02a9dednat) == 0x2e5f07f080c2b4042c76875cc351e90bb279e253a7a256d8170bf4dbf4ed2443int,
{
    let g = generator_value();
    assert(modulus() == 0x73eda753299d7d483339d80809a1d80553bda402fffe5bfeffffffff00000001int);
    lemma_fpow_double(g, 0x73eda753299d7d483339d80809a1d80553bnat);
    assert(0xe7db4ea6533afa906673b0101343b00aa76nat == 2 * 0x73eda753299d7d483339d80809a1d80553bnat);
    vstd::arithmetic::div_mod::lemma_fundamental_div_mod_converse(0x2a1d8f0bb640b2e2bc85c4d70334e71307807a50ae9d1a1a76b3a9a0204b08b3int * 0x2a1d8f0bb640b2e2bc85c4d70334e71307807a50ae9d1a1a76b3a9a0204b08b3int, modulus(), 0xf4cd1c4860a36f807d1164e7cd88bd452c52dd78ccdc98efd5fc78c9e925505int, 0x5a733d34aeafe4b59027a5294d60c5121966a5a53347cb1d42de9b633a9b5824int);
    assert(fpow(g, 0xe7db4ea6533afa906673b0101343b00aa76nat) == 0x5a733d34aeafe4b59027a5294d60c5121966a5a53347cb1d42de9b633a9b5824int);
    assert(fpow(g, 0xe7db4ea6533afa906673b0101343b00aa77nat) == fmul(fpow(g, 0xe7db4ea6533afa906673b0101343b00aa76nat), g));
    vstd::arithmetic::div_mod::lemma_fundamental_div_mod_converse(0x5a733d34aeafe4b59027a5294d60c5121966a5a53347cb1d42de9b633a9b5824int * 7, modulus(), 0x5int, 0x358267d0f6bbce8df0f44bf8ed7c2b640f1a537566fec1d1d4163fbb9a3f68f7int);
    assert(fpow(g, 0xe7db4ea6533afa906673b0101343b00aa77nat) == 0x358267d0f6bbce8df0f44bf8ed7c2b640f1a537566fec1d1d4163fbb9a3f68f7int);
    lemma_fpow_double(g, 0xe7db4ea6533afa906673b0101343b00aa77nat);
    assert(0x1cfb69d4ca675f520cce76020268760154eenat == 2 * 0xe7db4ea6533afa906673b0101343b00aa77nat);
    vstd::arithmetic::div_mod::lemma_fundamental_div_mod_converse(0x358267d0f6bbce8df0f44bf8ed7c2b640f1a537566fec1d1d4163fbb9a3f68f7int * 0x358267d0f6bbce8df0f44bf8ed7c2b640f1a537566fec1d1d4163fbb9a3f68f7int, modulus(), 0x18b2d0a562941f837b8a1d002ec952e3ad61ef7517b3dfeaa47cdc9118e78e01int, 0x73846198470dc101c03839eb20ca1f09fcc50f81dc31681a821bf647e7b41050int);
    assert(fpow(g, 0x1cfb69d4ca675f520cce76020268760154eenat) == 0x73846198470dc101c03839eb20ca1f09fcc50f81dc31681a821bf647e7b41050int);
    assert(fpow(g, 0x1cfb69d4ca675f520cce76020268760154efnat) == fmul(fpow(g, 0x1cfb69d4ca675f520cce76020268760154eenat), g));
    vstd::arithmetic::div_mod::lemma_fundamental_div_mod_converse(0x73846198470dc101c03839eb20ca1f09fcc50f81dc31681a821bf647e7b41050int * 7, modulus(), 0x6int, 0x710cbf36f7af575b0e2e853dabbbc925f2f1947b0563b0bf8ec3bbfd55ec722aint);
    assert(fpow(g, 0x1cfb69d4ca675f520cce76020268760154efnat) == 0x710cbf36f7af575b0e2e853dabbbc925f2f1947b0563b0bf8ec3bbfd55ec722aint);
    lemma_fpow_double(g, 0x1cfb69d4ca675f520cce76020268760154efnat);
    assert(0x39f6d3a994cebea4199cec0404d0ec02a9denat == 2 * 0x1cfb69d4ca675f520cce76020268760154efnat);
    vstd::arithmetic::div_mod::lemma_fundamental_div_mod_converse(0x710cbf36f7af575b0e2e853dabbbc925f2f1947b0563b0bf8ec3bbfd55ec722aint * 0x710cbf36f7af575b0e2e853dabbbc925f2f1947b0563b0bf8ec3bbfd55ec722aint, modulus(), 0x6e3e234ddd6469fadc9af50794f1cd13e55922ffca5a1383a3d63c34f1ee0f3aint, 0x178ea7307287f758ff30b98f02d2131fb6033e0799fcc5ae330db43ba26b5faaint);
    assert(fpow(g, 0x39f6d3a994cebea4199cec0404d0ec02a9denat) == 0x178ea7307287f758ff30b98f02d2131fb6033e0799fcc5ae330db43ba26b5faaint);
    lemma_fpow_double(g, 0x39f6d3a994cebea4199cec0404d0ec02a9denat);
    assert(0x73eda753299d7d483339d80809a1d80553bcnat == 2 * 0x39f6d3a994cebea4199cec0404d0ec02a9denat);
    vstd::arithmetic::div_mod::lemma_fundamental_div_mod_converse(0x178ea7307287f758ff30b98f02d2131fb6033e0799fcc5ae330db43ba26b5faaint * 0x178ea7307287f758ff30b98f02d2131fb6033e0799fcc5ae330db43ba26b5faaint, modulus(), 0x4c975c0d177698d8e70a2cade5c11c9d1cdda8c84ded0c341ae52edab66b932int, 0x2f49d42755f98e99c84cf67e61062500b3fbf162159723c5200da0bc9874e3b2int);
    assert(fpow(g, 0x73eda753299d7d483339d80809a1d80553bcnat) == 0x2f49d42755f98e99c84cf67e61062500b3fbf162159723c5200da0bc9874e3b2int);
    assert(fpow(g, 0x73eda753299d7d483339d80809a1d80553bdnat) == fmul(fpow(g, 0x73eda753299d7d483339d80809a1d80553bcnat), g));
    vstd::arithmetic::div_mod::lemma_fundamental_div_mod_converse(0x2f49d42755f98e99c84cf67e61062500b3fbf162159723c5200da0bc9874e3b2int * 7, modulus(), 0x2int, 0x63297e6d0697eba413a70d6493e752fa446851a897254265e05f652a2b3239dcint);
    assert(fpow(g, 0x73eda753299d7d483339d80809a1d80553bdnat) == 0x63297e6d0697eba413a70d6493e752fa446851a897254265e05f652a2b3239dcint);
    lemma_fpow_double(g, 0x73eda753299d7d483339d80809a1d80553bdnat);
    assert(0xe7db4ea6533afa906673b0101343b00aa77anat == 2 * 0x73eda753299d7d483339d80809a1d80553bdnat);
    vstd::arithmetic::div_mod::lemma_fundamental_div_mod_converse(0x63297e6d0697eba413a70d6493e752fa446851a897254265e05f652a2b3239dcint * 0x63297e6d0697eba413a70d6493e752fa446851a897254265e05f652a2b3239dcint, modulus(), 0x54d217871229b32180286f77f4d6a7e586c5d12ea76abe3f73fa5c9bd30b850bint, 0x15f0bf04e08148c080ab67b25356f0ff0a97e072cbce888f25c5a5e9bbf83005int);
    assert(fpow(g, 0xe7db4ea6533afa906673b0101343b00aa77anat) == 0x15f0bf04e08148c080ab67b25356f0ff0a97e072cbce888f25c5a5e9bbf83005int);
    assert(fpow(g, 0xe7db4ea6533afa906673b0101343b00aa77bnat) == fmul(fpow(g, 0xe7db4ea6533afa906673b0101343b00aa77anat), g));
    vstd::arithmetic::div_mod::lemma_fundamental_div_mod_converse(0x15f0bf04e08148c080ab67b25356f0ff0a97e072cbce888f25c5a5e9bbf83005int * 7, modulus(), 0x1int, 0x25a791cef9eb7ffb5175fdd83dbebef3f6697f2092a75feb0867896523c95022int);
    assert(fpow(g, 0xe7db4ea6533afa906673b0101343b00aa77bnat) == 0x25a791cef9eb7ffb5175fdd83dbebef3f6697f2092a75feb0867896523c95022int);
    lemma_fpow_double(g, 0xe7db4ea6533afa906673b0101343b00aa77bnat);
    assert(0x1cfb69d4ca675f520cce76020268760154ef6nat == 2 * 0xe7db4ea6533afa906673b0101343b00aa77bnat);
    vstd::arithmetic::div_mod::lemma_fundamental_div_mod_converse(0x25a791cef9eb7ffb5175fdd83dbebef3f6697f2092a75feb0867896523c95022int * 0x25a791cef9eb7ffb5175fdd83dbebef3f6697f2092a75feb0867896523c95022int, modulus(), 0xc3b04e6214d566039dfeb5df1db476fbdcbb060f37e40ace5944fa05a5baa42int, 0x22b99c6539c12023d4aef1e317df1ca535e0b4a74c9124e4c9c1a3ade01d9a42int);
    assert(fpow(g, 0x1cfb69d4ca675f520cce76020268760154ef6nat) == 0x22b99c6539c12023d4aef1e317df1ca535e0b4a74c9124e4c9c1a3ade01d9a42int);
    lemma_fpow_double(g, 0x1cfb69d4ca675f520cce76020268760154ef6nat);
    assert(0x39f6d3a994cebea4199cec0404d0ec02a9decnat == 2 * 0x1cfb69d4ca675f520cce76020268760154ef6nat);
    vstd::arithmetic::div_mod::lemma_fundamental_div_mod_converse(0x22b99c6539c12023d4aef1e317df1ca535e0b4a74c9124e4c9c1a3ade01d9a42int * 0x22b99c6539c12023d4aef1e317df1ca535e0b4a74c9124e4c9c1a3ade01d9a42int, modulus(), 0xa66c8b6a97b1ad694555618e950253d02c2781e97dc6a36faa51925acea2ab1int, 0x27bf30f0f9b686a782b3bec667cc3a70e8479855f35fdd8c4c6f6c1f22fd4e53int);
    assert(fpow(g, 0x39f6d3a994cebea4199cec0404d0ec02a9decnat) == 0x27bf30f0f9b686a782b3bec667cc3a70e8479855f35fdd8c4c6f6c1f22fd4e53int);
    assert(fpow(g, 0x39f6d3a994cebea4199cec0404d0ec02a9dednat) == fmul(fpow(g, 0x39f6d3a994cebea4199cec0404d0ec02a9decnat), g));
    vstd::arithmetic::div_mod::lemma_fundamental_div_mod_converse(0x27bf30f0f9b686a782b3bec667cc3a70e8479855f35fdd8c4c6f6c1f22fd4e53int * 7, modulus(), 0x2int, 0x2e5f07f080c2b4042c76875cc351e90bb279e253a7a256d8170bf4dbf4ed2443int);
    assert(fpow(g, 0x39f6d3a994cebea4199cec0404d0ec02a9dednat) == 0x2e5f07f080c2b4042c76875cc351e90bb279e253a7a256d8170bf4dbf4ed2443int);
}

/// A stretch of the square-and-multiply computation of the root of unity.
proof fn lemma_root_chain_18()
    requires
        fpow(generator_value(), 0x39f6d3a994cebea4199cec0404d0ec02a9dednat) == 0x2e5f07f080c2b4042c76875cc351e90bb279e253a7a256d8170bf4dbf4ed2443int,
    ensures
        fpow(generator_value(), 0x1cfb69d4ca675f520cce76020268760154ef6900nat) == 0x1d531305e1e47ddd14ebdf51098546ff107bd8010a37fada8dbdd3cedded2372int,
{
    let g = generator_value();
    assert(modulus() == 0x73eda753299d7d483339d80809a1d80553bda402fffe5bfeffffffff00000001int);
    lemma_fpow_double(g, 0x39f6d3a994cebea4199cec0404d0ec02a9dednat);
    assert(0x73eda753299d7d483339d80809a1d80553bdanat == 2 * 0x39f6d3a994cebea4199cec0404d0ec02a9dednat);
    vstd::arithmetic::div_mod::lemma_fundamental_div_mod_converse(0x2e5f07f080c2b4042c76875cc351e90bb279e253a7a256d8170bf4dbf4ed2443int * 0x2e5f07f080c2b4042c76875cc351e90bb279e253a7a256d8170bf4dbf4ed2443int, modulus(), 0x128c6675a88db4fc449a75975d475aa0fd40524efdc83b252e0aa057481fb6faint, 0x1f45a8d64e0d3e2a109ad847294e8c6e174dc1c1ef082a024707c2109911328fint);
    assert(fpow(g, 0x73eda753299d7d483339d80809a1d80553bdanat) == 0x1f45a8d64e0d3e2a109ad847294e8c6e174dc1c1ef082a024707c2109911328fint);
    lemma_fpow_double(g, 0x73eda753299d7d483339d80809a1d80553bdanat);
    assert(0xe7db4ea6533afa906673b0101343b00aa77b4nat == 2 * 0x73eda753299d7d483339d80809a1d80553bdanat);
    vstd::arithmetic::div_mod::lemma_fundamental_div_mod_converse(0x1f45a8d64e0d3e2a109ad847294e8c6e174dc1c1ef082a024707c2109911328fint * 0x1f45a8d64e0d3e2a109ad847294e8c6e174dc1c1ef082a024707c2109911328fint, modulus(), 0x86f8e96febc6b0e9f8d02cc06754daab9756cfd10f946168a6ff70ccf277ba9int, 0x27e0f33565d37759db9996f2280cdd71745a6c7da83838e8e8d62212dfd2b038int);
    assert(fpow(g, 0xe7db4ea6533afa906673b0101343b00aa77b4nat) == 0x27e0f33565d37759db9996f2280cdd71745a6c7da83838e8e8d62212dfd2b038int);
    lemma_fpow_double(g, 0xe7db4ea6533afa906673b0101343b00aa77b4nat);
    assert(0x1cfb69d4ca675f520cce76020268760154ef68nat == 2 * 0xe7db4ea6533afa906673b0101343b00aa77b4nat);
    vstd::arithmetic::div_mod::lemma_fundamental_div_mod_converse(0x27e0f33565d37759db9996f2280cdd71745a6c7da83838e8e8d62212dfd2b038int * 0x27e0f33565d37759db9996f2280cdd71745a6c7da83838e8e8d62212dfd2b038int, modulus(), 0xdb7d2a36adaea7dc5a77ddb68eb1403ca532fbcedc4a266ad6166a07a225734int, 0x58344e37023fe968c0336e3ecb52b78b262a6b36360d696a1e8154daab0ab50cint);
    assert(fpow(g, 0x1cfb69d4ca675f520cce76020268760154ef68nat) == 0x58344e37023fe968c0336e3ecb52b78b262a6b36360d696a1e8154daab0ab50cint);
    assert(fpow(g, 0x1cfb69d4ca675f520cce76020268760154ef69nat) == fmul(fpow(g, 0x1cfb69d4ca675f520cce76020268760154ef68nat), g));
    vstd::arithmetic::div_mod::lemma_fundamental_div_mod_converse(0x58344e37023fe968c0336e3ecb52b78b262a6b36360d696a1e8154daab0ab50cint * 7, modulus(), 0x5int, 0x25c9dee13fabef744146cb8f5f19ccb36874ba6c7a6615ebd58951ffad4af34fint);
    assert(fpow(g, 0x1cfb69d4ca675f520cce76020268760154ef69nat) == 0x25c9dee13fabef744146cb8f5f19ccb36874ba6c7a6615ebd58951ffad4af34fint);
    lemma_fpow_double(g, 0x1cfb69d4ca675f520cce76020268760154ef69nat);
    assert(0x39f6d3a994cebea4199cec0404d0ec02a9ded2nat == 2 * 0x1cfb69d4ca675f520cce76020268760154ef69nat);
    vstd::arithmetic::div_mod::lemma_fundamental_div_mod_converse(0x25c9dee13fabef744146cb8f5f19ccb36874ba6c7a6615ebd58951ffad4af34fint * 0x25c9dee13fabef744146cb8f5f19ccb36874ba6c7a6615ebd58951ffad4af34fint, modulus(), 0xc515763eec5fecbcf631cd1146dfe03596571213186945a2899ca0ca939e489int, 0x7205e8da58b947b854fb19df41301b8336f92989920185637fc532a8adb12dd8int);
    assert(fpow(g, 0x39f6d3a994cebea4199cec0404d0ec02a9ded2nat) == 0x7205e8da58b947b854fb19df41301b8336f92989920185637fc532a8adb12dd8int);
    lemma_fpow_double(g, 0x39f6d3a994cebea4199cec0404d0ec02a9ded2nat);
    assert(0x73eda753299d7d483339d80809a1d80553bda4nat == 2 * 0x39f6d3a994cebea4199cec0404d0ec02a9ded2nat);
    vstd::arithmetic::div_mod::lemma_fundamental_div_mod_converse(0x7205e8da58b947b854fb19df41301b8336f92989920185637fc532a8adb12dd8int * 0x7205e8da58b947b854fb19df41301b8336f92989920185637fc532a8adb12dd8int, modulus(), 0x70262e760fdec988701a813f9d65b170975b5435ae338c1ff882d7c2934c54c2int, 0x70f148e52541b6f9d3423cce289872585aca6b07a2fd3e9f1d86fb15c999517eint);
    assert(fpow(g, 0x73eda753299d7d483339d80809a1d80553bda4nat) == 0x70f148e52541b6f9d3423cce289872585aca6b07a2fd3e9f1d86fb15c999517eint);
    lemma_fpow_double(g, 0x73eda753299d7d483339d80809a1d80553bda4nat);
    assert(0xe7db4ea6533afa906673b0101343b00aa77b48nat == 2 * 0x73eda753299d7d483339d80809a1d80553bda4nat);
    vstd::arithmetic::div_mod::lemma_fundamental_div_mod_converse(0x70f148e52541b6f9d3423cce289872585aca6b07a2fd3e9f1d86fb15c999517eint * 0x70f148e52541b6f9d3423cce289872585aca6b07a2fd3e9f1d86fb15c999517eint, modulus(), 0x6e089a4d14433d7205582accb59b0863d49874dab2345cafcd10fcde3794d395int, 0xdbac8c795a2afb28b99897c440e8b5d598124fc7949ae6c9e22672d26f8266fint);
    assert(fpow(g, 0xe7db4ea6533afa906673b0101343b00aa77b48nat) == 0xdbac8c795a2afb28b99897c440e8b5d598124fc7949ae6c9e22672d26f8266fint);
    lemma_fpow_double(g, 0xe7db4ea6533afa906673b0101343b00aa77b48nat);
    assert(0x1cfb69d4ca675f520cce76020268760154ef690nat == 2 * 0xe7db4ea6533afa906673b0101343b00aa77b48nat);
    vstd::arithmetic::div_mod::lemma_fundamental_div_mod_converse(0xdbac8c795a2afb28b99897c440e8b5d598124fc7949ae6c9e22672d26f8266fint * 0xdbac8c795a2afb28b99897c440e8b5d598124fc7949ae6c9e22672d26f8266fint, modulus(), 0x1a04352e70f6f10c716b9d263461507f95bbb506d5fde82fd45537ec4a4f067int, 0x1016ae690a2870ba44e2ac2a50d49fa5dc103f8b4b8eb9b868f50de1ac3033baint);
    assert(fpow(g, 0x1cfb69d4ca675f520cce76020268760154ef690nat) == 0x1016ae690a2870ba44e2ac2a50d49fa5dc103f8b4b8eb9b868f50de1ac3033baint);
    lemma_fpow_double(g, 0x1cfb69d4ca675f520cce76020268760154ef690nat);
    assert(0x39f6d3a994cebea4199cec0404d0ec02a9ded20nat == 2 * 0x1cfb69d4ca675f520cce76020268760154ef690nat);
    vstd::arithmetic::div_mod::lemma_fundamental_div_mod_converse(0x1016ae690a2870ba44e2ac2a50d49fa5dc103f8b4b8eb9b868f50de1ac3033baint * 0x1016ae690a2870ba44e2ac2a50d49fa5dc103f8b4b8eb9b868f50de1ac3033baint, modulus(), 0x23b97c723d27f512c187ed800830e4614710ce3f7d99ff24656974d354e73acint, 0x44633f1c72e20230f2968c9799080229e5a16bb0b6923b1e16c87be82ae52f78int);
    assert(fpow(g, 0x39f6d3a994cebea4199cec0404d0ec02a9ded20nat) == 0x44633f1c72e20230f2968c9799080229e5a16bb0b6923b1e16c87be82ae52f78int);
    lemma_fpow_double(g, 0x39f6d3a994cebea4199cec0404d0ec02a9ded20nat);
    assert(0x73eda753299d7d483339d80809a1d80553bda40nat == 2 * 0x39f6d3a994cebea4199cec0404d0ec02a9ded20nat);
    vstd::arithmetic::div_mod::lemma_fundamental_div_mod_converse(0x44633f1c72e20230f2968c9799080229e5a16bb0b6923b1e16c87be82ae52f78int * 0x44633f1c72e20230f2968c9799080229e5a16bb0b6923b1e16c87be82ae52f78int, modulus(), 0x2857c288fb3e6854adebb8e303e0787d0a508ad27b275e09b5443dcc3c41e30aint, 0x2d1d0806a50217f188a447c5a10d86ef7e939527c36ef0f554b0ff7f193b6536int);
    assert(fpow(g, 0x73eda753299d7d483339d80809a1d80553bda40nat) == 0x2d1d0806a50217f188a447c5a10d86ef7e939527c36ef0f554b0ff7f193b6536int);
    lemma_fpow_double(g, 0x73eda753299d7d483339d80809a1d80553bda40nat);
    assert(0xe7db4ea6533afa906673b0101343b00aa77b480nat == 2 * 0x73eda753299d7d483339d80809a1d80553bda40nat);
    vstd::arithmetic::div_mod::lemma_fundamental_div_mod_converse(0x2d1d0806a50217f188a447c5a10d86ef7e939527c36ef0f554b0ff7f193b6536int * 0x2d1d0806a50217f188a447c5a10d86ef7e939527c36ef0f554b0ff7f193b6536int, modulus(), 0x118e4b79e26736e950377d89cdd650ebb9cfa049298634a2ff14d6f07f9aec91int, 0x684594ecbac2d167caca9e34c14f0907b6772b421f748baf79d2bcc0db4cbad3int);
    assert(fpow(g, 0xe7db4ea6533afa906673b0101343b00aa77b480nat) == 0x684594ecbac2d167caca9e34c14f0907b6772b421f748baf79d2bcc0db4cbad3int);
    lemma_fpow_double(g, 0xe7db4ea6533afa906673b0101343b00aa77b480nat);
    assert(0x1cfb69d4ca675f520cce76020268760154ef6900nat == 2 * 0xe7db4ea6533afa906673b0101343b00aa77b480nat);
    vstd::arithmetic::div_mod::lemma_fundamental_div_mod_converse(0x684594ecbac2d167caca9e34c14f0907b6772b421f748baf79d2bcc0db4cbad3int * 0x684594ecbac2d167caca9e34c14f0907b6772b421f748baf79d2bcc0db4cbad3int, modulus(), 0x5dc98e814b199321aeb13698df10ba993890d7a051f2f1c3657ad5cc99b22677int, 0x1d531305e1e47ddd14ebdf51098546ff107bd8010a37fada8dbdd3cedded2372int);
    assert(fpow(g, 0x1cfb69d4ca675f520cce76020268760154ef6900nat) == 0x1d531305e1e47ddd14ebdf51098546ff107bd8010a37fada8dbdd3cedded2372int);
}

/// A stretch of the square-and-multiply computation of the root of unity.
proof fn lemma_root_chain_19()
    requires
        fpow(generator_value(), 0x1cfb69d4ca675f520cce76020268760154ef6900nat) == 0x1d531305e1e47ddd14ebdf51098546ff107bd8010a37fada8dbdd3cedded2372int,
    ensures
        fpow(generator_value(), 0xe7db4ea6533afa906673b0101343b00aa77b4805enat) == 0x705f01a87f2bfffc9904755e648a65272d3da1d0b5410d9b5d1b0b91f36ff5ccint,
{
    let g = generator_value();
    assert(modulus() == 0x73eda753299d7d483339d80809a1d80553bda402fffe5bfeffffffff00000001int);
    lemma_fpow_double(g, 0x1cfb69d4ca675f520cce76020268760154ef6900nat);
    assert(0x39f6d3a994cebea4199cec0404d0ec02a9ded200nat == 2 * 0x1cfb69d4ca675f520cce76020268760154ef6900nat);
    vstd::arithmetic::div_mod::lemma_fundamental_div_mod_converse(0x1d531305e1e47ddd14ebdf51098546ff107bd8010a37fada8dbdd3cedded2372int * 0x1d531305e1e47ddd14ebdf51098546ff107bd8010a37fada8dbdd3cedded2372int, modulus(), 0x76af156fa96279e453bf741ead6d269dfffd6b42d3f252ed6a5df5bd9136972int, 0x351f909222ab5ee5a3a195dea3a2abd0574e910beeb9c3f7bf37cc6ba0e8f552int);
    assert(fpow(g, 0x39f6d3a994cebea4199cec0404d0ec02a9ded200nat) == 0x351f909222ab5ee5a3a195dea3a2abd0574e910beeb9c3f7bf37cc6ba0e8f552int);
    assert(fpow(g, 0x39f6d3a994cebea4199cec0404d0ec02a9ded201nat) == fmul(fpow(g, 0x39f6d3a994cebea4199cec0404d0ec02a9ded200nat), g));
    vstd::arithmetic::div_mod::lemma_fundamental_div_mod_converse(0x351f909222ab5ee5a3a195dea3a2abd0574e910beeb9c3f7bf37cc6ba0e8f552int * 7, modulus(), 0x3int, 0x1813fe0575d7206edfbd90fe5c8d2aa267ed0b4a871947c93a8696f4665eb53bint);
    assert(fpow(g, 0x39f6d3a994cebea4199cec0404d0ec02a9ded201nat) == 0x1813fe0575d7206edfbd90fe5c8d2aa267ed0b4a871947c93a8696f4665eb53bint);
    lemma_fpow_double(g, 0x39f6d3a994cebea4199cec0404d0ec02a9ded201nat);
    assert(0x73eda753299d7d483339d80809a1d80553bda402nat == 2 * 0x39f6d3a994cebea4199cec0404d0ec02a9ded201nat);
    vstd::arithmetic::div_mod::lemma_fundamental_div_mod_converse(0x1813fe0575d7206edfbd90fe5c8d2aa267ed0b4a871947c93a8696f4665eb53bint * 0x1813fe0575d7206edfbd90fe5c8d2aa267ed0b4a871947c93a8696f4665eb53bint, modulus(), 0x5003fde29b2c703a718640a96f026c649188879c9b2968fe8c0710cc768c6cfint, 0x642204ee4ca6c65eeea92f8fd64b347601251f57d4a8f4809e468daed437b4caint);
    assert(fpow(g, 0x73eda753299d7d483339d80809a1d80553bda402nat) == 0x642204ee4ca6c65eeea92f8fd64b347601251f57d4a8f4809e468daed437b4caint);
    lemma_fpow_double(g, 0x73eda753299d7d483339d80809a1d80553bda402nat);
    assert(0xe7db4ea6533afa906673b0101343b00aa77b4804nat == 2 * 0x73eda753299d7d483339d80809a1d80553bda402nat);
    vstd::arithmetic::div_mod::lemma_fundamental_div_mod_converse(0x642204ee4ca6c65eeea92f8fd64b347601251f57d4a8f4809e468daed437b4caint * 0x642204ee4ca6c65eeea92f8fd64b347601251f57d4a8f4809e468daed437b4caint, modulus(), 0x567d5663626eacae1e9414d6bac675a476ea757073fb772884752b2f167e61d8int, 0x6dae68bde5a1f2294d33e5ca88c0b19d7b389fd258ef2ea9514dcccea7fa4d8cint);
    assert(fpow(g, 0xe7db4ea6533afa906673b0101343b00aa77b4804nat) == 0x6dae68bde5a1f2294d33e5ca88c0b19d7b389fd258ef2ea9514dcccea7fa4d8cint);
    assert(fpow(g, 0xe7db4ea6533afa906673b0101343b00aa77b4805nat) == fmul(fpow(g, 0xe7db4ea6533afa906673b0101343b00aa77b4804nat), g));
    vstd::arithmetic::div_mod::lemma_fundamental_div_mod_converse(0x6dae68bde5a1f2294d33e5ca88c0b19d7b389fd258ef2ea9514dcccea7fa4d8cint * 7, modulus(), 0x6int, 0x4832f13e4dbcaf6fe91038598379cb2e681a86ae6e941ea7392099ac97d81eceint);
    assert(fpow(g, 0xe7db4ea6533afa906673b0101343b00aa77b4805nat) == 0x4832f13e4dbcaf6fe91038598379cb2e681a86ae6e941ea7392099ac97d81eceint);
    lemma_fpow_double(g, 0xe7db4ea6533afa906673b0101343b00aa77b4805nat);
    assert(0x1cfb69d4ca675f520cce76020268760154ef6900anat == 2 * 0xe7db4ea6533afa906673b0101343b00aa77b4805nat);
    vstd::arithmetic::div_mod::lemma_fundamental_div_mod_converse(0x4832f13e4dbcaf6fe91038598379cb2e681a86ae6e941ea7392099ac97d81eceint * 0x4832f13e4dbcaf6fe91038598379cb2e681a86ae6e941ea7392099ac97d81eceint, modulus(), 0x2cf6fd4dc59db1880629ff7047b36d15d42aed94e6a81aed1be7f2400c48d040int, 0x4b55604a306c2faa575dbb087cbc7cfaf58e12bec39615f3192d299af70c1d84int);
    assert(fpow(g, 0x1cfb69d4ca675f520cce76020268760154ef6900anat) == 0x4b55604a306c2faa575dbb087cbc7cfaf58e12bec39615f3192d299af70c1d84int);
    assert(fpow(g, 0x1cfb69d4ca675f520cce76020268760154ef6900bnat) == fmul(fpow(g, 0x1cfb69d4ca675f520cce76020268760154ef6900anat), g));
    vstd::arithmetic::div_mod::lemma_fundamental_div_mod_converse(0x4b55604a306c2faa575dbb087cbc7cfaf58e12bec39615f3192d299af70c1d84int * 7, modulus(), 0x4int, 0x3f9f04baac7f588796a8bd1b42a00ac767ebf32b592129a9b03c2340c154ce98int);
    assert(fpow(g, 0x1cfb69d4ca675f520cce76020268760154ef6900bnat) == 0x3f9f04baac7f588796a8bd1b42a00ac767ebf32b592129a9b03c2340c154ce98int);
    lemma_fpow_double(g, 0x1cfb69d4ca675f520cce76020268760154ef6900bnat);
    assert(0x39f6d3a994cebea4199cec0404d0ec02a9ded2016nat == 2 * 0x1cfb69d4ca675f520cce76020268760154ef6900bnat);
    vstd::arithmetic::div_mod::lemma_fundamental_div_mod_converse(0x3f9f04baac7f588796a8bd1b42a00ac767ebf32b592129a9b03c2340c154ce98int * 0x3f9f04baac7f588796a8bd1b42a00ac767ebf32b592129a9b03c2340c154ce98int, modulus(), 0x22ea45e503a010bad9b5d3f4bc50911d5b09ebc2a5a05fcbe149322219731a98int, 0x5544762ff4a885837d9cc46bdd79fac26569b6bd211cc2ae7c4fc00f5105dfa8int);
    assert(fpow(g, 0x39f6d3a994cebea4199cec0404d0ec02a9ded2016nat) == 0x5544762ff4a885837d9cc46bdd79fac26569b6bd211cc2ae7c4fc00f5105dfa8int);
    assert(fpow(g, 0x39f6d3a994cebea4199cec0404d0ec02a9ded2017nat) == fmul(fpow(g, 0x39f6d3a994cebea4199cec0404d0ec02a9ded2016nat), g));
    vstd::arithmetic::div_mod::lemma_fundamental_div_mod_converse(0x5544762ff4a885837d9cc46bdd79fac26569b6bd211cc2ae7c4fc00f5105dfa8int * 7, modulus(), 0x5int, 0x113af6afe088342f6f2826cade2ca336232fcb1ce7d186ca662e407037291d93int);
    assert(fpow(g, 0x39f6d3a994cebea4199cec0404d0ec02a9ded2017nat) == 0x113af6afe088342f6f2826cade2ca336232fcb1ce7d186ca662e407037291d93int);
    lemma_fpow_double(g, 0x39f6d3a994cebea4199cec0404d0ec02a9ded2017nat);
    assert(0x73eda753299d7d483339d80809a1d80553bda402enat == 2 * 0x39f6d3a994cebea4199cec0404d0ec02a9ded2017nat);
    vstd::arithmetic::div_mod::lemma_fundamental_div_mod_converse(0x113af6afe088342f6f2826cade2ca336232fcb1ce7d186ca662e407037291d93int * 0x113af6afe088342f6f2826cade2ca336232fcb1ce7d186ca662e407037291d93int, modulus(), 0x28f98ffd0671ec4ffe0e35e42b4c804c7d8d57edbbeb0e65f3a1b7f4b3843dcint, 0x980c0bcb2fec42dc197323764ba281f5190ffef6e68118d8f783a4c5b485e8dint);
    assert(fpow(g, 0x73eda753299d7d483339d80809a1d80553bda402enat) == 0x980c0bcb2fec42dc197323764ba281f5190ffef6e68118d8f783a4c5b485e8dint);
    assert(fpow(g, 0x73eda753299d7d483339d80809a1d80553bda402fnat) == fmul(fpow(g, 0x73eda753299d7d483339d80809a1d80553bda402enat), g));
    vstd::arithmetic::div_mod::lemma_fundamental_div_mod_converse(0x980c0bcb2fec42dc197323764ba281f5190ffef6e68118d8f783a4c5b485e8dint * 7, modulus(), 0x0int, 0x42854528e4f75d404b225f83c11718db3af6ff8c04d87adeec4998167efa95dbint);
    assert(fpow(g, 0x73eda753299d7d483339d80809a1d80553bda402fnat) == 0x42854528e4f75d404b225f83c11718db3af6ff8c04d87adeec4998167efa95dbint);
    lemma_fpow_double(g, 0x73eda753299d7d483339d80809a1d80553bda402fnat);
    assert(0xe7db4ea6533afa906673b0101343b00aa77b4805enat == 2 * 0x73eda753299d7d483339d80809a1d80553bda402fnat);
    vstd::arithmetic::div_mod::lemma_fundamental_div_mod_converse(0x42854528e4f75d404b225f83c11718db3af6ff8c04d87adeec4998167efa95dbint * 0x42854528e4f75d404b225f83c11718db3af6ff8c04d87adeec4998167efa95dbint, modulus(), 0x262b875474c1b26ca63858bf2068a8578055d4763375e02a2dd11a6ba804b38dint, 0x705f01a87f2bfffc9904755e648a65272d3da1d0b5410d9b5d1b0b91f36ff5ccint);
    assert(fpow(g, 0xe7db4ea6533afa906673b0101343b00aa77b4805enat) == 0x705f01a87f2bfffc9904755e648a65272d3da1d0b5410d9b5d1b0b91f36ff5ccint);
}

/// A stretch of the square-and-multiply computation of the root of unity.
proof fn lemma_root_chain_20()
    requires
        fpow(generator_value(), 0xe7db4ea6533afa906673b0101343b00aa77b4805enat) == 0x705f01a87f2bfffc9904755e648a65272d3da1d0b5410d9b5d1b0b91f36ff5ccint,
    ensures
        fpow(generator_value(), 0x39f6d3a994cebea4199cec0404d0ec02a9ded2017fenat) == 0x25c77522b11e28cf29321a3451e1a1904b1368c2f1aba8153e637b22f466f1fbint,
{
    let g = generator_value();
    assert(modulus() == 0x73eda753299d7d483339d80809a1d80553bda402fffe5bfeffffffff00000001int);
    assert(fpow(g, 0xe7db4ea6533afa906673b0101343b00aa77b4805fnat) == fmul(fpow(g, 0xe7db4ea6533afa906673b0101343b00aa77b4805enat), g));
    vstd::arithmetic::div_mod::lemma_fundamental_div_mod_converse(0x705f01a87f2bfffc9904755e648a65272d3da1d0b5410d9b5d1b0b91f36ff5ccint * 7, modulus(), 0x6int, 0x5b071fa880831036fbc4256485fdb3f2463d94a2f4d137458bbd5103a80fb88eint);
    assert(fpow(g, 0xe7db4ea6533afa906673b0101343b00aa77b4805fnat) == 0x5b071fa880831036fbc4256485fdb3f2463d94a2f4d137458bbd5103a80fb88eint);
    lemma_fpow_double(g, 0xe7db4ea6533afa906673b0101343b00aa77b4805fnat);
    assert(0x1cfb69d4ca675f520cce76020268760154ef6900benat == 2 * 0xe7db4ea6533afa906673b0101343b00aa77b4805fnat);
    vstd::arithmetic::div_mod::lemma_fundamental_div_mod_converse(0x5b071fa880831036fbc4256485fdb3f2463d94a2f4d137458bbd5103a80fb88eint * 0x5b071fa880831036fbc4256485fdb3f2463d94a2f4d137458bbd5103a80fb88eint, modulus(), 0x4779cb18270b9f18a0fa0d2b069f77825539484b0720b3039c4b28d7f19bba26int, 0x62dc8733bd52f86670f953db99e4052afb83dade1759928e5c7963d39414b49eint);
    assert(fpow(g, 0x1cfb69d4ca675f520cce76020268760154ef6900benat) == 0x62dc8733bd52f86670f953db99e4052afb83dade1759928e5c7963d39414b49eint);
    assert(fpow(g, 0x1cfb69d4ca675f520cce76020268760154ef6900bfnat) == fmul(fpow(g, 0x1cfb69d4ca675f520cce76020268760154ef6900benat), g));
    vstd::arithmetic::div_mod::lemma_fundamental_div_mod_converse(0x62dc8733bd52f86670f953db99e4052afb83dade1759928e5c7963d39414b49eint * 7, modulus(), 0x5int, 0x70636dca5d31586416b012d90512ec123de6c803a37b35e98751bace0c90f04dint);
    assert(fpow(g, 0x1cfb69d4ca675f520cce76020268760154ef6900bfnat) == 0x70636dca5d31586416b012d90512ec123de6c803a37b35e98751bace0c90f04dint);
    lemma_fpow_double(g, 0x1cfb69d4ca675f520cce76020268760154ef6900bfnat);
    assert(0x39f6d3a994cebea4199cec0404d0ec02a9ded2017enat == 2 * 0x1cfb69d4ca675f520cce76020268760154ef6900bfnat);
    vstd::arithmetic::div_mod::lemma_fundamental_div_mod_converse(0x70636dca5d31586416b012d90512ec123de6c803a37b35e98751bace0c90f04dint * 0x70636dca5d31586416b012d90512ec123de6c803a37b35e98751bace0c90f04dint, modulus(), 0x6cf4e050f221fafe70334a2c505244fdb2aff086b0246746a829b6f3bf625a03int, 0x246b5c5909f4b06142a78a8055de9c1dff9f5a22fe5cc51e35032b91b0ce1d26int);
    assert(fpow(g, 0x39f6d3a994cebea4199cec0404d0ec02a9ded2017enat) == 0x246b5c5909f4b06142a78a8055de9c1dff9f5a22fe5cc51e35032b91b0ce1d26int);
    assert(fpow(g, 0x39f6d3a994cebea4199cec0404d0ec02a9ded2017fnat) == fmul(fpow(g, 0x39f6d3a994cebea4199cec0404d0ec02a9ded2017enat), g));
    vstd::arithmetic::div_mod::lemma_fundamental_div_mod_converse(0x246b5c5909f4b06142a78a8055de9c1dff9f5a22fe5cc51e35032b91b0ce1d26int * 7, modulus(), 0x2int, 0x171437c8f275d8186c21197245d294c755e02eeef48cabd5731630fdd5a2cc08int);
    assert(fpow(g, 0x39f6d3a994cebea4199cec0404d0ec02a9ded2017fnat) == 0x171437c8f275d8186c21197245d294c755e02eeef48cabd5731630fdd5a2cc08int);
    lemma_fpow_double(g, 0x39f6d3a994cebea4199cec0404d0ec02a9ded2017fnat);
    assert(0x73eda753299d7d483339d80809a1d80553bda402fenat == 2 * 0x39f6d3a994cebea4199cec0404d0ec02a9ded2017fnat);
    vstd::arithmetic::div_mod::lemma_fundamental_div_mod_converse(0x171437c8f275d8186c21197245d294c755e02eeef48cabd5731630fdd5a2cc08int * 0x171437c8f275d8186c21197245d294c755e02eeef48cabd5731630fdd5a2cc08int, modulus(), 0x49834c6a1dacbd785fd43b2109c90dfd5d0be7dce9e3addfc20d79baf920427int, 0x43de8fd36d342f8760ea9a52e06928e07283892e550ff94bf763c3677d2abc19int);
    assert(fpow(g, 0x73eda753299d7d483339d80809a1d80553bda402fenat) == 0x43de8fd36d342f8760ea9a52e06928e07283892e550ff94bf763c3677d2abc19int);
    assert(fpow(g, 0x73eda753299d7d483339d80809a1d80553bda402ffnat) == fmul(fpow(g, 0x73eda753299d7d483339d80809a1d80553bda402fenat), g));
    vstd::arithmetic::div_mod::lemma_fundamental_div_mod_converse(0x43de8fd36d342f8760ea9a52e06928e07283892e550ff94bf763c3677d2abc19int * 7, modulus(), 0x4int, 0xb5f517b55f75792d982d823fc58be0dd2a2303853766117c3ba57d86c2b24abint);
    assert(fpow(g, 0x73eda753299d7d483339d80809a1d80553bda402ffnat) == 0xb5f517b55f75792d982d823fc58be0dd2a2303853766117c3ba57d86c2b24abint);
    lemma_fpow_double(g, 0x73eda753299d7d483339d80809a1d80553bda402ffnat);
    assert(0xe7db4ea6533afa906673b0101343b00aa77b4805fenat == 2 * 0x73eda753299d7d483339d80809a1d80553bda402ffnat);
    vstd::arithmetic::div_mod::lemma_fundamental_div_mod_converse(0xb5f517b55f75792d982d823fc58be0dd2a2303853766117c3ba57d86c2b24abint * 0xb5f517b55f75792d982d823fc58be0dd2a2303853766117c3ba57d86c2b24abint, modulus(), 0x11d98301d853d891d8ce9c965c5317783f8f07d63f36323f0bea8f7a02f1358int, 0x19faca9ebee8eccc88c5958a6cda7186836cd513b3509eef835af325fe8376e1int);
    assert(fpow(g, 0xe7db4ea6533afa906673b0101343b00aa77b4805fenat) == 0x19faca9ebee8eccc88c5958a6cda7186836cd513b3509eef835af325fe8376e1int);
    assert(fpow(g, 0xe7db4ea6533afa906673b0101343b00aa77b4805ffnat) == fmul(fpow(g, 0xe7db4ea6533afa906673b0101343b00aa77b4805fenat), g));
    vstd::arithmetic::div_mod::lemma_fundamental_div_mod_converse(0x19faca9ebee8eccc88c5958a6cda7186836cd513b3509eef835af325fe8376e1int * 7, modulus(), 0x1int, 0x41ede3040ec0fc4f8a2d3ec0f05742a8443c2f86e735fc8d977ca60af5984026int);
    assert(fpow(g, 0xe7db4ea6533afa906673b0101343b00aa77b4805ffnat) == 0x41ede3040ec0fc4f8a2d3ec0f05742a8443c2f86e735fc8d977ca60af5984026int);
    lemma_fpow_double(g, 0xe7db4ea6533afa906673b0101343b00aa77b4805ffnat);
    assert(0x1cfb69d4ca675f520cce76020268760154ef6900bfenat == 2 * 0xe7db4ea6533afa906673b0101343b00aa77b4805ffnat);
    vstd::arithmetic::div_mod::lemma_fundamental_div_mod_converse(0x41ede3040ec0fc4f8a2d3ec0f05742a8443c2f86e735fc8d977ca60af5984026int * 0x41ede3040ec0fc4f8a2d3ec0f05742a8443c2f86e735fc8d977ca60af5984026int, modulus(), 0x257e9226229957b8188597ea070a9aa9f6d3d6940c98354dfeb6662f73b5feb0int, 0x54f84b927df1b9bcd9b7ff13a58548d7b642376f9b742791fc82a8cd857d06f4int);
    assert(fpow(g, 0x1cfb69d4ca675f520cce76020268760154ef6900bfenat) == 0x54f84b927df1b9bcd9b7ff13a58548d7b642376f9b742791fc82a8cd857d06f4int);
    assert(fpow(g, 0x1cfb69d4ca675f520cce76020268760154ef6900bffnat) == fmul(fpow(g, 0x1cfb69d4ca675f520cce76020268760154ef6900bfenat), g));
    vstd::arithmetic::div_mod::lemma_fundamental_div_mod_converse(0x54f84b927df1b9bcd9b7ff13a58548d7b642376f9b742791fc82a8cd857d06f4int * 7, modulus(), 0x5int, 0xf25cc61a188a1c0f3e6c161567bc5cb591b4ffe40354902e7929da3a66b30a7int);
    assert(fpow(g, 0x1cfb69d4ca675f520cce76020268760154ef6900bffnat) == 0xf25cc61a188a1c0f3e6c161567bc5cb591b4ffe40354902e7929da3a66b30a7int);
    lemma_fpow_double(g, 0x1cfb69d4ca675f520cce76020268760154ef6900bffnat);
    assert(0x39f6d3a994cebea4199cec0404d0ec02a9ded2017fenat == 2 * 0x1cfb69d4ca675f520cce76020268760154ef6900bffnat);
    vstd::arithmetic::div_mod::lemma_fundamental_div_mod_converse(0xf25cc61a188a1c0f3e6c161567bc5cb591b4ffe40354902e7929da3a66b30a7int * 0xf25cc61a188a1c0f3e6c161567bc5cb591b4ffe40354902e7929da3a66b30a7int, modulus(), 0x1fab03517a5ae05ad45c32c55921809462af226468c0cc1c8e69a7754721af6int, 0x25c77522b11e28cf29321a3451e1a1904b1368c2f1aba8153e637b22f466f1fbint);
    assert(fpow(g, 0x39f6d3a994cebea4199cec0404d0ec02a9ded2017fenat) == 0x25c77522b11e28cf29321a3451e1a1904b1368c2f1aba8153e637b22f466f1fbint);
}

/// A stretch of the square-and-multiply computation of the root of unity.
proof fn lemma_root_chain_21()
    requires
        fpow(generator_value(), 0x39f6d3a994cebea4199cec0404d0ec02a9ded2017fenat) == 0x25c77522b11e28cf29321a3451e1a1904b1368c2f1aba8153e637b22f466f1fbint,
    ensures
        fpow(generator_value(), 0x1cfb69d4ca675f520cce76020268760154ef6900bfff8nat) == 0x348df8982ee3ae2ad7c258f4e202a9180a872072fb406dd97bc67a7af0707eaaint,
{
    let g = generator_value();
    assert(modulus() == 0x73eda753299d7d483339d80809a1d80553bda402fffe5bfeffffffff00000001int);
    assert(fpow(g, 0x39f6d3a994cebea4199cec0404d0ec02a9ded2017ffnat) == fmul(fpow(g, 0x39f6d3a994cebea4199cec0404d0ec02a9ded2017fenat), g));
    vstd::arithmetic::div_mod::lemma_fundamental_div_mod_converse(0x25c77522b11e28cf29321a3451e1a1904b1368c2f1aba8153e637b22f466f1fbint * 7, modulus(), 0x2int, 0x2098e54c84982319b9eb075e29e7bae7660c954e9bb4e096b4b85df6aed09ddbint);
    assert(fpow(g, 0x39f6d3a994cebea4199cec0404d0ec02a9ded2017ffnat) == 0x2098e54c84982319b9eb075e29e7bae7660c954e9bb4e096b4b85df6aed09ddbint);
    lemma_fpow_double(g, 0x39f6d3a994cebea4199cec0404d0ec02a9ded2017ffnat);
    assert(0x73eda753299d7d483339d80809a1d80553bda402ffenat == 2 * 0x39f6d3a994cebea4199cec0404d0ec02a9ded2017ffnat);
    vstd::arithmetic::div_mod::lemma_fundamental_div_mod_converse(0x2098e54c84982319b9eb075e29e7bae7660c954e9bb4e096b4b85df6aed09ddbint * 0x2098e54c84982319b9eb075e29e7bae7660c954e9bb4e096b4b85df6aed09ddbint, modulus(), 0x92a74870fc753fb848bc23e1ec748ddd8d140f8ae362ea55167747aedf2586dint, 0x25f143129a74fea8ea1bb54e8735f422ae015f2763d4817d825ba36cab4400ecint);
    assert(fpow(g, 0x73eda753299d7d483339d80809a1d80553bda402ffenat) == 0x25f143129a74fea8ea1bb54e8735f422ae015f2763d4817d825ba36cab4400ecint);
    assert(fpow(g, 0x73eda753299d7d483339d80809a1d80553bda402fffnat) == fmul(fpow(g, 0x73eda753299d7d483339d80809a1d80553bda402ffenat), g));
    vstd::arithmetic::div_mod::lemma_fundamental_div_mod_converse(0x25f143129a74fea8ea1bb54e8735f422ae015f2763d4817d825ba36cab4400ecint * 7, modulus(), 0x2int, 0x21bd86dbe5f7fc0e004e45159f35fce81a8e520dbad2d270908177faaedc0672int);
    assert(fpow(g, 0x73eda753299d7d483339d80809a1d80553bda402fffnat) == 0x21bd86dbe5f7fc0e004e45159f35fce81a8e520dbad2d270908177faaedc0672int);
    lemma_fpow_double(g, 0x73eda753299d7d483339d80809a1d80553bda402fffnat);
    assert(0xe7db4ea6533afa906673b0101343b00aa77b4805ffenat == 2 * 0x73eda753299d7d483339d80809a1d80553bda402fffnat);
    vstd::arithmetic::div_mod::lemma_fundamental_div_mod_converse(0x21bd86dbe5f7fc0e004e45159f35fce81a8e520dbad2d270908177faaedc0672int * 0x21bd86dbe5f7fc0e004e45159f35fce81a8e520dbad2d270908177faaedc0672int, modulus(), 0x9d1e842adebe45ecd0d7bd0cb31a7580f3ec8aea26670cb0dc266634e81ea66int, 0x17a12c55bc4d5e92a7911945da5ed32d99ea58b53c24a8c78acdec88bd97a05eint);
    assert(fpow(g, 0xe7db4ea6533afa906673b0101343b00aa77b4805ffenat) == 0x17a12c55bc4d5e92a7911945da5ed32d99ea58b53c24a8c78acdec88bd97a05eint);
    assert(fpow(g, 0xe7db4ea6533afa906673b0101343b00aa77b4805fffnat) == fmul(fpow(g, 0xe7db4ea6533afa906673b0101343b00aa77b4805ffenat), g));
    vstd::arithmetic::div_mod::lemma_fundamental_div_mod_converse(0x17a12c55bc4d5e92a7911945da5ed32d99ea58b53c24a8c78acdec88bd97a05eint * 7, modulus(), 0x1int, 0x317a8f04fc8018ba61bdd8e0eef5ee39e1aac8f1a5024175cba177be2f256291int);
    assert(fpow(g, 0xe7db4ea6533afa906673b0101343b00aa77b4805fffnat) == 0x317a8f04fc8018ba61bdd8e0eef5ee39e1aac8f1a5024175cba177be2f256291int);
    lemma_fpow_double(g, 0xe7db4ea6533afa906673b0101343b00aa77b4805fffnat);
    assert(0x1cfb69d4ca675f520cce76020268760154ef6900bffenat == 2 * 0xe7db4ea6533afa906673b0101343b00aa77b4805fffnat);
    vstd::arithmetic::div_mod::lemma_fundamental_div_mod_converse(0x317a8f04fc8018ba61bdd8e0eef5ee39e1aac8f1a5024175cba177be2f256291int * 0x317a8f04fc8018ba61bdd8e0eef5ee39e1aac8f1a5024175cba177be2f256291int, modulus(), 0x151e25347693ca16604251c0d3c5054a557961adcc691931e2d34b5282fbf3f6int, 0x5642808399eee650ce33dba5e0f7a5a4f4938207f2226d17565a85865ee1622bint);
    assert(fpow(g, 0x1cfb69d4ca675f520cce76020268760154ef6900bffenat) == 0x5642808399eee650ce33dba5e0f7a5a4f4938207f2226d17565a85865ee1622bint);
    assert(fpow(g, 0x1cfb69d4ca675f520cce76020268760154ef6900bfffnat) == fmul(fpow(g, 0x1cfb69d4ca675f520cce76020268760154ef6900bffenat), g));
    vstd::arithmetic::div_mod::lemma_fundamental_div_mod_converse(0x5642808399eee650ce33dba5e0f7a5a4f4938207f2226d17565a85865ee1622bint * 7, modulus(), 0x5int, 0x182d3ef96574d9cca349c960f69c4f680d545a289ef92fa85c79a6b19829af28int);
    assert(fpow(g, 0x1cfb69d4ca675f520cce76020268760154ef6900bfffnat) == 0x182d3ef96574d9cca349c960f69c4f680d545a289ef92fa85c79a6b19829af28int);
    lemma_fpow_double(g, 0x1cfb69d4ca675f520cce76020268760154ef6900bfffnat);
    assert(0x39f6d3a994cebea4199cec0404d0ec02a9ded2017ffenat == 2 * 0x1cfb69d4ca675f520cce76020268760154ef6900bfffnat);
    vstd::arithmetic::div_mod::lemma_fundamental_div_mod_converse(0x182d3ef96574d9cca349c960f69c4f680d545a289ef92fa85c79a6b19829af28int * 0x182d3ef96574d9cca349c960f69c4f680d545a289ef92fa85c79a6b19829af28int, modulus(), 0x50ac2e2cc52d4046956a027159925f97d48ef2e696287f74ce7ca7b8da0d785int, 0x2aa3291f54b48672455a6893f86cbf2c1a135773195d7c5f67c6a9228506debbint);
    assert(fpow(g, 0x39f6d3a994cebea4199cec0404d0ec02a9ded2017ffenat) == 0x2aa3291f54b48672455a6893f86cbf2c1a135773195d7c5f67c6a9228506debbint);
    assert(fpow(g, 0x39f6d3a994cebea4199cec0404d0ec02a9ded2017fffnat) == fmul(fpow(g, 0x39f6d3a994cebea4199cec0404d0ec02a9ded2017ffenat), g));
    vstd::arithmetic::div_mod::lemma_fundamental_div_mod_converse(0x2aa3291f54b48672455a6893f86cbf2c1a135773195d7c5f67c6a9228506debbint * 7, modulus(), 0x2int, 0x429ad134fdb4b28f7f052bfbb7b58a2a0f0c1c1fb191ae9dd66e9ff3a330171bint);
    assert(fpow(g, 0x39f6d3a994cebea4199cec0404d0ec02a9ded2017fffnat) == 0x429ad134fdb4b28f7f052bfbb7b58a2a0f0c1c1fb191ae9dd66e9ff3a330171bint);
    lemma_fpow_double(g, 0x39f6d3a994cebea4199cec0404d0ec02a9ded2017fffnat);
    assert(0x73eda753299d7d483339d80809a1d80553bda402fffenat == 2 * 0x39f6d3a994cebea4199cec0404d0ec02a9ded2017fffnat);
    vstd::arithmetic::div_mod::lemma_fundamental_div_mod_converse(0x429ad134fdb4b28f7f052bfbb7b58a2a0f0c1c1fb191ae9dd66e9ff3a330171bint * 0x429ad134fdb4b28f7f052bfbb7b58a2a0f0c1c1fb191ae9dd66e9ff3a330171bint, modulus(), 0x264445a3138d3b2542099357babe96d633dc82d04aa0e6960dd8fe418c1d4633int, 0x30ebca57f0c936b36127e7fb1af82e78f568d02a8fa145866f7df5a8821896a6int);
    assert(fpow(g, 0x73eda753299d7d483339d80809a1d80553bda402fffenat) == 0x30ebca57f0c936b36127e7fb1af82e78f568d02a8fa145866f7df5a8821896a6int);
    lemma_fpow_double(g, 0x73eda753299d7d483339d80809a1d80553bda402fffenat);
    assert(0xe7db4ea6533afa906673b0101343b00aa77b4805fffcnat == 2 * 0x73eda753299d7d483339d80809a1d80553bda402fffenat);
    vstd::arithmetic::div_mod::lemma_fundamental_div_mod_converse(0x30ebca57f0c936b36127e7fb1af82e78f568d02a8fa145866f7df5a8821896a6int * 0x30ebca57f0c936b36127e7fb1af82e78f568d02a8fa145866f7df5a8821896a6int, modulus(), 0x14a4f6bdfb8b1ed77a03dafb2c2b41d11150073b404fb74bfa539a7613f0ca54int, 0x23bbcc9da65d400f76ea7acde128db770f2b998030c205db3e75a11b1bd62950int);
    assert(fpow(g, 0xe7db4ea6533afa906673b0101343b00aa77b4805fffcnat) == 0x23bbcc9da65d400f76ea7acde128db770f2b998030c205db3e75a11b1bd62950int);
    lemma_fpow_double(g, 0xe7db4ea6533afa906673b0101343b00aa77b4805fffcnat);
    assert(0x1cfb69d4ca675f520cce76020268760154ef6900bfff8nat == 2 * 0xe7db4ea6533afa906673b0101343b00aa77b4805fffcnat);
    vstd::arithmetic::div_mod::lemma_fundamental_div_mod_converse(0x23bbcc9da65d400f76ea7acde128db770f2b998030c205db3e75a11b1bd62950int * 0x23bbcc9da65d400f76ea7acde128db770f2b998030c205db3e75a11b1bd62950int, modulus(), 0xb03b48261ba733d05bda567c2621ae5d257af7d4adaf39e517df69b07fa3a56int, 0x348df8982ee3ae2ad7c258f4e202a9180a872072fb406dd97bc67a7af0707eaaint);
    assert(fpow(g, 0x1cfb69d4ca675f520cce76020268760154ef6900bfff8nat) == 0x348df8982ee3ae2ad7c258f4e202a9180a872072fb406dd97bc67a7af0707eaaint);
}

/// A stretch of the square-and-multiply computation of the root of unity.
proof fn lemma_root_chain_22()
    requires
        fpow(generator_value(), 0x1cfb69d4ca675f520cce76020268760154ef6900bfff8nat) == 0x348df8982ee3ae2ad7c258f4e202a9180a872072fb406dd97bc67a7af0707eaaint,
    ensures
        fpow(generator_value(), 0xe7db4ea6533afa906673b0101343b00aa77b4805fffcb6nat) == 0x1fbf40078863dc1838a45b419fc439efe4d674ea23caa935f64bc432d20ae1c2int,
{
    let g = generator_value();
    assert(modulus() == 0x73eda753299d7d483339d80809a1d80553bda402fffe5bfeffffffff00000001int);
    assert(fpow(g, 0x1cfb69d4ca675f520cce76020268760154ef6900bfff9nat) == fmul(fpow(g, 0x1cfb69d4ca675f520cce76020268760154ef6900bfff8nat), g));
    vstd::arithmetic::div_mod::lemma_fundamental_div_mod_converse(0x348df8982ee3ae2ad7c258f4e202a9180a872072fb406dd97bc67a7af0707eaaint * 7, modulus(), 0x3int, 0x1418d62fcb614b534ca2e69a112d17984e78f71bdec7ecf5626d595f931376a3int);
    assert(fpow(g, 0x1cfb69d4ca675f520cce76020268760154ef6900bfff9nat) == 0x1418d62fcb614b534ca2e69a112d17984e78f71bdec7ecf5626d595f931376a3int);
    lemma_fpow_double(g, 0x1cfb69d4ca675f520cce76020268760154ef6900bfff9nat);
    assert(0x39f6d3a994cebea4199cec0404d0ec02a9ded2017fff2nat == 2 * 0x1cfb69d4ca675f520cce76020268760154ef6900bfff9nat);
    vstd::arithmetic::div_mod::lemma_fundamental_div_mod_converse(0x1418d62fcb614b534ca2e69a112d17984e78f71bdec7ecf5626d595f931376a3int * 0x1418d62fcb614b534ca2e69a112d17984e78f71bdec7ecf5626d595f931376a3int, modulus(), 0x37be51046977ee847b189ad36a674b8e04283ed54c5564deb0c13151c379b4cint, 0x37b070aaf746e9933a4a8dd7aafcaeb0ef112f81dfe0616b096846eae8f5107dint);
    assert(fpow(g, 0x39f6d3a994cebea4199cec0404d0ec02a9ded2017fff2nat) == 0x37b070aaf746e9933a4a8dd7aafcaeb0ef112f81dfe0616b096846eae8f5107dint);
    lemma_fpow_double(g, 0x39f6d3a994cebea4199cec0404d0ec02a9ded2017fff2nat);
    assert(0x73eda753299d7d483339d80809a1d80553bda402fffe4nat == 2 * 0x39f6d3a994cebea4199cec0404d0ec02a9ded2017fff2nat);
    vstd::arithmetic::div_mod::lemma_fundamental_div_mod_converse(0x37b070aaf746e9933a4a8dd7aafcaeb0ef112f81dfe0616b096846eae8f5107dint * 0x37b070aaf746e9933a4a8dd7aafcaeb0ef112f81dfe0616b096846eae8f5107dint, modulus(), 0x1ac0748f6ba53e296cb154a55939c48b4c600578f8e14006303bf22fd373cfa1int, 0x130159a2fe1d402e6a882869f432e283a7af00b35670f9838bcb76704cde0d68int);
    assert(fpow(g, 0x73eda753299d7d483339d80809a1d80553bda402fffe4nat) == 0x130159a2fe1d402e6a882869f432e283a7af00b35670f9838bcb76704cde0d68int);
    assert(fpow(g, 0x73eda753299d7d483339d80809a1d80553bda402fffe5nat) == fmul(fpow(g, 0x73eda753299d7d483339d80809a1d80553bda402fffe4nat), g));
    vstd::arithmetic::div_mod::lemma_fundamental_div_mod_converse(0x130159a2fe1d402e6a882869f432e283a7af00b35670f9838bcb76704cde0d68int * 7, modulus(), 0x1int, 0x111bcc21c92f43fcb67f42dda3c25994420b60e45d187699d2903d131a125dd7int);
    assert(fpow(g, 0x73eda753299d7d483339d80809a1d80553bda402fffe5nat) == 0x111bcc21c92f43fcb67f42dda3c25994420b60e45d187699d2903d131a125dd7int);
    lemma_fpow_double(g, 0x73eda753299d7d483339d80809a1d80553bda402fffe5nat);
    assert(0xe7db4ea6533afa906673b0101343b00aa77b4805fffcanat == 2 * 0x73eda753299d7d483339d80809a1d80553bda402fffe5nat);
    vstd::arithmetic::div_mod::lemma_fundamental_div_mod_converse(0x111bcc21c92f43fcb67f42dda3c25994420b60e45d187699d2903d131a125dd7int * 0x111bcc21c92f43fcb67f42dda3c25994420b60e45d187699d2903d131a125dd7int, modulus(), 0x2865dafce83e8e13e6df5ee00b00b46ecd6f5d4606de4b1fe4d940684e606f2int, 0x30d8349b9267e21b489ff67572882a8b04f04d0587c6afbc769293367bbbe39fint);
    assert(fpow(g, 0xe7db4ea6533afa906673b0101343b00aa77b4805fffcanat) == 0x30d8349b9267e21b489ff67572882a8b04f04d0587c6afbc769293367bbbe39fint);
    assert(fpow(g, 0xe7db4ea6533afa906673b0101343b00aa77b4805fffcbnat) == fmul(fpow(g, 0xe7db4ea6533afa906673b0101343b00aa77b4805fffcanat), g));
    vstd::arithmetic::div_mod::lemma_fundamental_div_mod_converse(0x30d8349b9267e21b489ff67572882a8b04f04d0587c6afbc769293367bbbe39fint * 7, modulus(), 0x2int, 0x6e0e219aad9c342e95ec0d260e7579c27b16d320b67216293e02067f62233957int);
    assert(fpow(g, 0xe7db4ea6533afa906673b0101343b00aa77b4805fffcbnat) == 0x6e0e219aad9c342e95ec0d260e7579c27b16d320b67216293e02067f62233957int);
    lemma_fpow_double(g, 0xe7db4ea6533afa906673b0101343b00aa77b4805fffcbnat);
    assert(0x1cfb69d4ca675f520cce76020268760154ef6900bfff96nat == 2 * 0xe7db4ea6533afa906673b0101343b00aa77b4805fffcbnat);
    vstd::arithmetic::div_mod::lemma_fundamental_div_mod_converse(0x6e0e219aad9c342e95ec0d260e7579c27b16d320b67216293e02067f62233957int * 0x6e0e219aad9c342e95ec0d260e7579c27b16d320b67216293e02067f62233957int, modulus(), 0x687ac7af3ca3410f9c133ca9bc09591c52901dfd421cab8efad12e97488d9dc6int, 0x7314bc6a15c6a81c7bb432a41d869f1616f26f5b686b1afb825a64400e143dcbint);
    assert(fpow(g, 0x1cfb69d4ca675f520cce76020268760154ef6900bfff96nat) == 0x7314bc6a15c6a81c7bb432a41d869f1616f26f5b686b1afb825a64400e143dcbint);
    lemma_fpow_double(g, 0x1cfb69d4ca675f520cce76020268760154ef6900bfff96nat);
    assert(0x39f6d3a994cebea4199cec0404d0ec02a9ded2017fff2cnat == 2 * 0x1cfb69d4ca675f520cce76020268760154ef6900bfff96nat);
    vstd::arithmetic::div_mod::lemma_fundamental_div_mod_converse(0x7314bc6a15c6a81c7bb432a41d869f1616f26f5b686b1afb825a64400e143dcbint * 0x7314bc6a15c6a81c7bb432a41d869f1616f26f5b686b1afb825a64400e143dcbint, modulus(), 0x723d6762dd30e5eb726565634e9cad09a6de8caf056ae407736b10376902cb89int, 0x2bd3a581a0630c12ece7818164b7768020c0dee36f78b3cf6f7f712d819f9370int);
    assert(fpow(g, 0x39f6d3a994cebea4199cec0404d0ec02a9ded2017fff2cnat) == 0x2bd3a581a0630c12ece7818164b7768020c0dee36f78b3cf6f7f712d819f9370int);
    assert(fpow(g, 0x39f6d3a994cebea4199cec0404d0ec02a9ded2017fff2dnat) == fmul(fpow(g, 0x39f6d3a994cebea4199cec0404d0ec02a9ded2017fff2cnat), g));
    vstd::arithmetic::div_mod::lemma_fundamental_div_mod_converse(0x2bd3a581a0630c12ece7818164b7768020c0dee36f78b3cf6f7f712d819f9370int * 7, modulus(), 0x2int, 0x4aee37e50f7a59f413e0da79adc08d763dcad0320c5032ae0c7c18408b5d080eint);
    assert(fpow(g, 0x39f6d3a994cebea4199cec0404d0ec02a9ded2017fff2dnat) == 0x4aee37e50f7a59f413e0da79adc08d763dcad0320c5032ae0c7c18408b5d080eint);
    lemma_fpow_double(g, 0x39f6d3a994cebea4199cec0404d0ec02a9ded2017fff2dnat);
    assert(0x73eda753299d7d483339d80809a1d80553bda402fffe5anat == 2 * 0x39f6d3a994cebea4199cec0404d0ec02a9ded2017fff2dnat);
    vstd::arithmetic::div_mod::lemma_fundamental_div_mod_converse(0x4aee37e50f7a59f413e0da79adc08d763dcad0320c5032ae0c7c18408b5d080eint * 0x4aee37e50f7a59f413e0da79adc08d763dcad0320c5032ae0c7c18408b5d080eint, modulus(), 0x306e785740c27a00fd6da0739ae4d751b801567148e9b6c72749477c53191024int, 0x639346b27f4cc8f03ec36363b68aa880faf724b500340129b5449835bb53d0a0int);
    assert(fpow(g, 0x73eda753299d7d483339d80809a1d80553bda402fffe5anat) == 0x639346b27f4cc8f03ec36363b68aa880faf724b500340129b5449835bb53d0a0int);
    assert(fpow(g, 0x73eda753299d7d483339d80809a1d80553bda402fffe5bnat) == fmul(fpow(g, 0x73eda753299d7d483339d80809a1d80553bda402fffe5anat), g));
    vstd::arithmetic::div_mod::lemma_fundamental_div_mod_converse(0x639346b27f4cc8f03ec36363b68aa880faf724b500340129b5449835bb53d0a0int * 7, modulus(), 0x6int, 0x17502ee81688ee083fca789c3ff8b66e65028e10175e029f4e0297e1f4ab45aint);
    assert(fpow(g, 0x73eda753299d7d483339d80809a1d80553bda402fffe5bnat) == 0x17502ee81688ee083fca789c3ff8b66e65028e10175e029f4e0297e1f4ab45aint);
    lemma_fpow_double(g, 0x73eda753299d7d483339d80809a1d80553bda402fffe5bnat);
    assert(0xe7db4ea6533afa906673b0101343b00aa77b4805fffcb6nat == 2 * 0x73eda753299d7d483339d80809a1d80553bda402fffe5bnat);
    vstd::arithmetic::div_mod::lemma_fundamental_div_mod_converse(0x17502ee81688ee083fca789c3ff8b66e65028e10175e029f4e0297e1f4ab45aint * 0x17502ee81688ee083fca789c3ff8b66e65028e10175e029f4e0297e1f4ab45aint, modulus(), 0x4b033fc90dc9438db4bc01bd5575c377cc5ba094f93f1b36193c1bd0bcde2int, 0x1fbf40078863dc1838a45b419fc439efe4d674ea23caa935f64bc432d20ae1c2int);
    assert(fpow(g, 0xe7db4ea6533afa906673b0101343b00aa77b4805fffcb6nat) == 0x1fbf40078863dc1838a45b419fc439efe4d674ea23caa935f64bc432d20ae1c2int);
}

/// A stretch of the square-and-multiply computation of the root of unity.
proof fn lemma_root_chain_23()
    requires
        fpow(generator_value(), 0xe7db4ea6533afa906673b0101343b00aa77b4805fffcb6nat) == 0x1fbf40078863dc1838a45b419fc439efe4d674ea23caa935f64bc432d20ae1c2int,
    ensures
        fpow(generator_value(), 0x39f6d3a994cebea4199cec0404d0ec02a9ded2017fff2dfenat) == 0x122e034831bb780590014889eaa0741d3c40409a4a4dd48d1ac16a66294c7968int,
{
    let g = generator_value();
    assert(modulus() == 0x73eda753299d7d483339d80809a1d80553bda402fffe5bfeffffffff00000001int);
    assert(fpow(g, 0xe7db4ea6533afa906673b0101343b00aa77b4805fffcb7nat) == fmul(fpow(g, 0xe7db4ea6533afa906673b0101343b00aa77b4805fffcb6nat), g));
    vstd::arithmetic::div_mod::lemma_fundamental_div_mod_converse(0x1fbf40078863dc1838a45b419fc439efe4d674ea23caa935f64bc432d20ae1c2int * 7, modulus(), 0x1int, 0x6a4d18e1911d87615944a6c354bbbd89ee1f8e63fa8c447abc125d64be4c2c4dint);
    assert(fpow(g, 0xe7db4ea6533afa906673b0101343b00aa77b4805fffcb7nat) == 0x6a4d18e1911d87615944a6c354bbbd89ee1f8e63fa8c447abc125d64be4c2c4dint);
    lemma_fpow_double(g, 0xe7db4ea6533afa906673b0101343b00aa77b4805fffcb7nat);
    assert(0x1cfb69d4ca675f520cce76020268760154ef6900bfff96enat == 2 * 0xe7db4ea6533afa906673b0101343b00aa77b4805fffcb7nat);
    vstd::arithmetic::div_mod::lemma_fundamental_div_mod_converse(0x6a4d18e1911d87615944a6c354bbbd89ee1f8e63fa8c447abc125d64be4c2c4dint * 0x6a4d18e1911d87615944a6c354bbbd89ee1f8e63fa8c447abc125d64be4c2c4dint, modulus(), 0x61793534f1598750c8e841e14ea985d8953c770badf395609263c0c28e6aa4f2int, 0x6abe1b6cc1d24df50bc36bb36f0bc5cf27a136e8558ff767e0029ac412f7ea37int);
    assert(fpow(g, 0x1cfb69d4ca675f520cce76020268760154ef6900bfff96enat) == 0x6abe1b6cc1d24df50bc36bb36f0bc5cf27a136e8558ff767e0029ac412f7ea37int);
    assert(fpow(g, 0x1cfb69d4ca675f520cce76020268760154ef6900bfff96fnat) == fmul(fpow(g, 0x1cfb69d4ca675f520cce76020268760154ef6900bfff96enat), g));
    vstd::arithmetic::div_mod::lemma_fundamental_div_mod_converse(0x6abe1b6cc1d24df50bc36bb36f0bc5cf27a136e8558ff767e0029ac412f7ea37int * 7, modulus(), 0x6int, 0x33a0d406530f32021efce1b7cf87588a1ef6a84856f99bdd20123b6284c7677bint);
    assert(fpow(g, 0x1cfb69d4ca675f520cce76020268760154ef6900bfff96fnat) == 0x33a0d406530f32021efce1b7cf87588a1ef6a84856f99bdd20123b6284c7677bint);
    lemma_fpow_double(g, 0x1cfb69d4ca675f520cce76020268760154ef6900bfff96fnat);
    assert(0x39f6d3a994cebea4199cec0404d0ec02a9ded2017fff2denat == 2 * 0x1cfb69d4ca675f520cce76020268760154ef6900bfff96fnat);
    vstd::arithmetic::div_mod::lemma_fundamental_div_mod_converse(0x33a0d406530f32021efce1b7cf87588a1ef6a84856f99bdd20123b6284c7677bint * 0x33a0d406530f32021efce1b7cf87588a1ef6a84856f99bdd20123b6284c7677bint, modulus(), 0x16fe10357b573d0910a04fcbde8b1f2d7ca6d2adab5022b39019f5248b41e50cint, 0x4a94896b5910f37549d1688472e548d1c93a2a243d8418e21fb01a1c57cc500dint);
    assert(fpow(g, 0x39f6d3a994cebea4199cec0404d0ec02a9ded2017fff2denat) == 0x4a94896b5910f37549d1688472e548d1c93a2a243d8418e21fb01a1c57cc500dint);
    assert(fpow(g, 0x39f6d3a994cebea4199cec0404d0ec02a9ded2017fff2dfnat) == fmul(fpow(g, 0x39f6d3a994cebea4199cec0404d0ec02a9ded2017fff2denat), g));
    vstd::arithmetic::div_mod::lemma_fundamental_div_mod_converse(0x4a94896b5910f37549d1688472e548d1c93a2a243d8418e21fb01a1c57cc500dint * 7, modulus(), 0x4int, 0x3a5924a2c900b31437d27b7efdbd9da731a096f1aea33e32ddd0b6ca66963057int);
    assert(fpow(g, 0x39f6d3a994cebea4199cec0404d0ec02a9ded2017fff2dfnat) == 0x3a5924a2c900b31437d27b7efdbd9da731a096f1aea33e32ddd0b6ca66963057int);
    lemma_fpow_double(g, 0x39f6d3a994cebea4199cec0404d0ec02a9ded2017fff2dfnat);
    assert(0x73eda753299d7d483339d80809a1d80553bda402fffe5benat == 2 * 0x39f6d3a994cebea4199cec0404d0ec02a9ded2017fff2dfnat);
    vstd::arithmetic::div_mod::lemma_fundamental_div_mod_converse(0x3a5924a2c900b31437d27b7efdbd9da731a096f1aea33e32ddd0b6ca66963057int * 0x3a5924a2c900b31437d27b7efdbd9da731a096f1aea33e32ddd0b6ca66963057int, modulus(), 0x1d5e0e2f411742dab03361813425698d76b55dafe882980c6f3be9fb5acb62a9int, 0x57b4c76b472be77a3820959821fd68fc7931549c34cb6bfc49cb7c9ba8495ae8int);
    assert(fpow(g, 0x73eda753299d7d483339d80809a1d80553bda402fffe5benat) == 0x57b4c76b472be77a3820959821fd68fc7931549c34cb6bfc49cb7c9ba8495ae8int);
    assert(fpow(g, 0x73eda753299d7d483339d80809a1d80553bda402fffe5bfnat) == fmul(fpow(g, 0x73eda753299d7d483339d80809a1d80553bda402fffe5benat), g));
    vstd::arithmetic::div_mod::lemma_fundamental_div_mod_converse(0x57b4c76b472be77a3820959821fd68fc7931549c34cb6bfc49cb7c9ba8495ae8int * 7, modulus(), 0x5int, 0x224d2f4f221fe1ee88c2df00bdc4a6ccada51c36719827eb049068469a017c53int);
    assert(fpow(g, 0x73eda753299d7d483339d80809a1d80553bda402fffe5bfnat) == 0x224d2f4f221fe1ee88c2df00bdc4a6ccada51c36719827eb049068469a017c53int);
    lemma_fpow_double(g, 0x73eda753299d7d483339d80809a1d80553bda402fffe5bfnat);
    assert(0xe7db4ea6533afa906673b0101343b00aa77b4805fffcb7enat == 2 * 0x73eda753299d7d483339d80809a1d80553bda402fffe5bfnat);
    vstd::arithmetic::div_mod::lemma_fundamental_div_mod_converse(0x224d2f4f221fe1ee88c2df00bdc4a6ccada51c36719827eb049068469a017c53int * 0x224d2f4f221fe1ee88c2df00bdc4a6ccada51c36719827eb049068469a017c53int, modulus(), 0xa26397860b01babc33438b966bbf7ae964de9c7f3ce0027b5643731a19340e1int, 0x3c5bca64ac227a114b9c97f662de9d00afa169cfc37ce4752c0840a96f734208int);
    assert(fpow(g, 0xe7db4ea6533afa906673b0101343b00aa77b4805fffcb7enat) == 0x3c5bca64ac227a114b9c97f662de9d00afa169cfc37ce4752c0840a96f734208int);
    assert(fpow(g, 0xe7db4ea6533afa906673b0101343b00aa77b4805fffcb7fnat) == fmul(fpow(g, 0xe7db4ea6533afa906673b0101343b00aa77b4805fffcb7enat), g));
    vstd::arithmetic::div_mod::lemma_fundamental_div_mod_converse(0x3c5bca64ac227a114b9c97f662de9d00afa169cfc37ce4752c0840a96f734208int * 7, modulus(), 0x3int, 0x4ab992c73818dea0779a9fa49730c2f4d230f8a5586f2b373439c4a50c26ce35int);
    assert(fpow(g, 0xe7db4ea6533afa906673b0101343b00aa77b4805fffcb7fnat) == 0x4ab992c73818dea0779a9fa49730c2f4d230f8a5586f2b373439c4a50c26ce35int);
    lemma_fpow_double(g, 0xe7db4ea6533afa906673b0101343b00aa77b4805fffcb7fnat);
    assert(0x1cfb69d4ca675f520cce76020268760154ef6900bfff96fenat == 2 * 0xe7db4ea6533afa906673b0101343b00aa77b4805fffcb7fnat);
    vstd::arithmetic::div_mod::lemma_fundamental_div_mod_converse(0x4ab992c73818dea0779a9fa49730c2f4d230f8a5586f2b373439c4a50c26ce35int * 0x4ab992c73818dea0779a9fa49730c2f4d230f8a5586f2b373439c4a50c26ce35int, modulus(), 0x302a8251844b93efbc55ca3736e940577177edb402bd46b835bf5bf698458d0eint, 0x5667d61e03a856f8c7fde394e74f1465b9d2d54ca0175523d47ad2a03d8fc9ebint);
    assert(fpow(g, 0x1cfb69d4ca675f520cce76020268760154ef6900bfff96fenat) == 0x5667d61e03a856f8c7fde394e74f1465b9d2d54ca0175523d47ad2a03d8fc9ebint);
    assert(fpow(g, 0x1cfb69d4ca675f520cce76020268760154ef6900bfff96ffnat) == fmul(fpow(g, 0x1cfb69d4ca675f520cce76020268760154ef6900bfff96fenat), g));
    vstd::arithmetic::div_mod::lemma_fundamental_div_mod_converse(0x5667d61e03a856f8c7fde394e74f1465b9d2d54ca0175523d47ad2a03d8fc9ebint * 7, modulus(), 0x5int, 0x193296324986ee6477d000ea230056ad720fa10960ab87ffcf5bc266aeee8568int);
    assert(fpow(g, 0x1cfb69d4ca675f520cce76020268760154ef6900bfff96ffnat) == 0x193296324986ee6477d000ea230056ad720fa10960ab87ffcf5bc266aeee8568int);
    lemma_fpow_double(g, 0x1cfb69d4ca675f520cce76020268760154ef6900bfff96ffnat);
    assert(0x39f6d3a994cebea4199cec0404d0ec02a9ded2017fff2dfenat == 2 * 0x1cfb69d4ca675f520cce76020268760154ef6900bfff96ffnat);
    vstd::arithmetic::div_mod::lemma_fundamental_div_mod_converse(0x193296324986ee6477d000ea230056ad720fa10960ab87ffcf5bc266aeee8568int * 0x193296324986ee6477d000ea230056ad720fa10960ab87ffcf5bc266aeee8568int, modulus(), 0x57a113d2568a8eefe060572524dc1bdcf0a43e2d2990604d69460e78998c0d8int, 0x122e034831bb780590014889eaa0741d3c40409a4a4dd48d1ac16a66294c7968int);
    assert(fpow(g, 0x39f6d3a994cebea4199cec0404d0ec02a9ded2017fff2dfenat) == 0x122e034831bb780590014889eaa0741d3c40409a4a4dd48d1ac16a66294c7968int);
}

/// A stretch of the square-and-multiply computation of the root of unity.
proof fn lemma_root_chain_24()
    requires
        fpow(generator_value(), 0x39f6d3a994cebea4199cec0404d0ec02a9ded2017fff2dfenat) == 0x122e034831bb780590014889eaa0741d3c40409a4a4dd48d1ac16a66294c7968int,
    ensures
        fpow(generator_value(), 0xe7db4ea6533afa906673b0101343b00aa77b4805fffcb7fdfnat) == 0x2830313b75fb6057eb50cf70fbbb281510f762084d0d7348c6c4887333b6088eint,
{
    let g = generator_value();
    assert(modulus() == 0x73eda753299d7d483339d80809a1d80553bda402fffe5bfeffffffff00000001int);
    assert(fpow(g, 0x39f6d3a994cebea4199cec0404d0ec02a9ded2017fff2dffnat) == fmul(fpow(g, 0x39f6d3a994cebea4199cec0404d0ec02a9ded2017fff2dfenat), g));
    vstd::arithmetic::div_mod::lemma_fundamental_div_mod_converse(0x122e034831bb780590014889eaa0741d3c40409a4a4dd48d1ac16a66294c7968int * 7, modulus(), 0x1int, 0xb546fa63282cadebccf23bd60c154c752042035082273dcbb49e8cc211751d7int);
    assert(fpow(g, 0x39f6d3a994cebea4199cec0404d0ec02a9ded2017fff2dffnat) == 0xb546fa63282cadebccf23bd60c154c752042035082273dcbb49e8cc211751d7int);
    lemma_fpow_double(g, 0x39f6d3a994cebea4199cec0404d0ec02a9ded2017fff2dffnat);
    assert(0x73eda753299d7d483339d80809a1d80553bda402fffe5bfenat == 2 * 0x39f6d3a994cebea4199cec0404d0ec02a9ded2017fff2dffnat);
    vstd::arithmetic::div_mod::lemma_fundamental_div_mod_converse(0xb546fa63282cadebccf23bd60c154c752042035082273dcbb49e8cc211751d7int * 0xb546fa63282cadebccf23bd60c154c752042035082273dcbb49e8cc211751d7int, modulus(), 0x11b76a3e976b4da0aae289648e967bbe521e9d969d46eebb3b4d11b12953c35int, 0x13d6133ca5939efe4f733b3ab030ffe4ad598e650469f5882b458efb2a36865cint);
    assert(fpow(g, 0x73eda753299d7d483339d80809a1d80553bda402fffe5bfenat) == 0x13d6133ca5939efe4f733b3ab030ffe4ad598e650469f5882b458efb2a36865cint);
    lemma_fpow_double(g, 0x73eda753299d7d483339d80809a1d80553bda402fffe5bfenat);
    assert(0xe7db4ea6533afa906673b0101343b00aa77b4805fffcb7fcnat == 2 * 0x73eda753299d7d483339d80809a1d80553bda402fffe5bfenat);
    vstd::arithmetic::div_mod::lemma_fundamental_div_mod_converse(0x13d6133ca5939efe4f733b3ab030ffe4ad598e650469f5882b458efb2a36865cint * 0x13d6133ca5939efe4f733b3ab030ffe4ad598e650469f5882b458efb2a36865cint, modulus(), 0x364e5d488d2d9596deed7a91f0d123a9e5460d9b792cf2611ab1062ec718f56int, 0x4582250bbd49f8a2b8427b99fc4cf750707188b4a7b46e1a7b4df70e38e2e1baint);
    assert(fpow(g, 0xe7db4ea6533afa906673b0101343b00aa77b4805fffcb7fcnat) == 0x4582250bbd49f8a2b8427b99fc4cf750707188b4a7b46e1a7b4df70e38e2e1baint);
    assert(fpow(g, 0xe7db4ea6533afa906673b0101343b00aa77b4805fffcb7fdnat) == fmul(fpow(g, 0xe7db4ea6533afa906673b0101343b00aa77b4805fffcb7fcnat), g));
    vstd::arithmetic::div_mod::lemma_fundamental_div_mod_converse(0x4582250bbd49f8a2b8427b99fc4cf750707188b4a7b46e1a7b4df70e38e2e1baint * 7, modulus(), 0x4int, 0x16d86605868fd7523cea0115bf93631dc4242ce495f592bd5f21c1678e342c12int);
    assert(fpow(g, 0xe7db4ea6533afa906673b0101343b00aa77b4805fffcb7fdnat) == 0x16d86605868fd7523cea0115bf93631dc4242ce495f592bd5f21c1678e342c12int);
    lemma_fpow_double(g, 0xe7db4ea6533afa906673b0101343b00aa77b4805fffcb7fdnat);
    assert(0x1cfb69d4ca675f520cce76020268760154ef6900bfff96ffanat == 2 * 0xe7db4ea6533afa906673b0101343b00aa77b4805fffcb7fdnat);
    vstd::arithmetic::div_mod::lemma_fundamental_div_mod_converse(0x16d86605868fd7523cea0115bf93631dc4242ce495f592bd5f21c1678e342c12int * 0x16d86605868fd7523cea0115bf93631dc4242ce495f592bd5f21c1678e342c12int, modulus(), 0x480825315c46fc348bb87a9c7a892a02779df958d8b579800ebb24560956d97int, 0x4e78eabf3b46e60adbf51451ed9a027d66b6564b0fddcf4f7fba41538650c3adint);
    assert(fpow(g, 0x1cfb69d4ca675f520cce76020268760154ef6900bfff96ffanat) == 0x4e78eabf3b46e60adbf51451ed9a027d66b6564b0fddcf4f7fba41538650c3adint);
    assert(fpow(g, 0x1cfb69d4ca675f520cce76020268760154ef6900bfff96ffbnat) == fmul(fpow(g, 0x1cfb69d4ca675f520cce76020268760154ef6900bfff96ffanat), g));
    vstd::arithmetic::div_mod::lemma_fundamental_div_mod_converse(0x4e78eabf3b46e60adbf51451ed9a027d66b6564b0fddcf4f7fba41538650c3adint * 7, modulus(), 0x4int, 0x5597cdedf87a552b36cc2e1d58aeb1588005cc016f173b307e17c94cac3559b7int);
    assert(fpow(g, 0x1cfb69d4ca675f520cce76020268760154ef6900bfff96ffbnat) == 0x5597cdedf87a552b36cc2e1d58aeb1588005cc016f173b307e17c94cac3559b7int);
    lemma_fpow_double(g, 0x1cfb69d4ca675f520cce76020268760154ef6900bfff96ffbnat);
    assert(0x39f6d3a994cebea4199cec0404d0ec02a9ded2017fff2dff6nat == 2 * 0x1cfb69d4ca675f520cce76020268760154ef6900bfff96ffbnat);
    vstd::arithmetic::div_mod::lemma_fundamental_div_mod_converse(0x5597cdedf87a552b36cc2e1d58aeb1588005cc016f173b307e17c94cac3559b7int * 0x5597cdedf87a552b36cc2e1d58aeb1588005cc016f173b307e17c94cac3559b7int, modulus(), 0x3f32120cb2de0069d1d84e1d7180a16d018bbb0f0d37b15e35f4a357cd0b7223int, 0xe8ad3bd1fed79c00351564d015d98cf4bfeb4f3fcdcc205545f2d1f602b4eaeint);
    assert(fpow(g, 0x39f6d3a994cebea4199cec0404d0ec02a9ded2017fff2dff6nat) == 0xe8ad3bd1fed79c00351564d015d98cf4bfeb4f3fcdcc205545f2d1f602b4eaeint);
    assert(fpow(g, 0x39f6d3a994cebea4199cec0404d0ec02a9ded2017fff2dff7nat) == fmul(fpow(g, 0x39f6d3a994cebea4199cec0404d0ec02a9ded2017fff2dff6nat), g));
    vstd::arithmetic::div_mod::lemma_fundamental_div_mod_converse(0xe8ad3bd1fed79c00351564d015d98cf4bfeb4f3fcdcc205545f2d1f602b4eaeint * 7, modulus(), 0x0int, 0x65cbca2bdf7e544017395c1b098f2dab13f6f2abea094e254e9a3bdba12f26c2int);
    assert(fpow(g, 0x39f6d3a994cebea4199cec0404d0ec02a9ded2017fff2dff7nat) == 0x65cbca2bdf7e544017395c1b098f2dab13f6f2abea094e254e9a3bdba12f26c2int);
    lemma_fpow_double(g, 0x39f6d3a994cebea4199cec0404d0ec02a9ded2017fff2dff7nat);
    assert(0x73eda753299d7d483339d80809a1d80553bda402fffe5bfeenat == 2 * 0x39f6d3a994cebea4199cec0404d0ec02a9ded2017fff2dff7nat);
    vstd::arithmetic::div_mod::lemma_fundamental_div_mod_converse(0x65cbca2bdf7e544017395c1b098f2dab13f6f2abea094e254e9a3bdba12f26c2int * 0x65cbca2bdf7e544017395c1b098f2dab13f6f2abea094e254e9a3bdba12f26c2int, modulus(), 0x5962f674040095faac9881ede574d1688f93407dcaae43132caa26bb5d1d0dc2int, 0x5e0a644509d1141b774144c9911ac0311558b1410704468ff1e0fa61e7fd1d42int);
    assert(fpow(g, 0x73eda753299d7d483339d80809a1d80553bda402fffe5bfeenat) == 0x5e0a644509d1141b774144c9911ac0311558b1410704468ff1e0fa61e7fd1d42int);
    assert(fpow(g, 0x73eda753299d7d483339d80809a1d80553bda402fffe5bfefnat) == fmul(fpow(g, 0x73eda753299d7d483339d80809a1d80553bda402fffe5bfeenat), g));
    vstd::arithmetic::div_mod::lemma_fundamental_div_mod_converse(0x5e0a644509d1141b774144c9911ac0311558b1410704468ff1e0fa61e7fd1d42int * 7, modulus(), 0x5int, 0x4ea4794374a41a5742a7a95ac792093cf2b8a4b8312621f49d26d8b257ebccc9int);
    assert(fpow(g, 0x73eda753299d7d483339d80809a1d80553bda402fffe5bfefnat) == 0x4ea4794374a41a5742a7a95ac792093cf2b8a4b8312621f49d26d8b257ebccc9int);
    lemma_fpow_double(g, 0x73eda753299d7d483339d80809a1d80553bda402fffe5bfefnat);
    assert(0xe7db4ea6533afa906673b0101343b00aa77b4805fffcb7fdenat == 2 * 0x73eda753299d7d483339d80809a1d80553bda402fffe5bfefnat);
    vstd::arithmetic::div_mod::lemma_fundamental_div_mod_converse(0x4ea4794374a41a5742a7a95ac792093cf2b8a4b8312621f49d26d8b257ebccc9int * 0x4ea4794374a41a5742a7a95ac792093cf2b8a4b8312621f49d26d8b257ebccc9int, modulus(), 0x35594bbf6c65048f1e4b4847873196c4bddd7a80f4e36c13dcfaf7003373d005int, 0x691bbb06a23d30014d864484be80e3754a339a960b0083e4f7d2eeeb076325ccint);
    assert(fpow(g, 0xe7db4ea6533afa906673b0101343b00aa77b4805fffcb7fdenat) == 0x691bbb06a23d30014d864484be80e3754a339a960b0083e4f7d2eeeb076325ccint);
    assert(fpow(g, 0xe7db4ea6533afa906673b0101343b00aa77b4805fffcb7fdfnat) == fmul(fpow(g, 0xe7db4ea6533afa906673b0101343b00aa77b4805fffcb7fdenat), g));
    vstd::arithmetic::div_mod::lemma_fundamental_div_mod_converse(0x691bbb06a23d30014d864484be80e3754a339a960b0083e4f7d2eeeb076325ccint * 7, modulus(), 0x6int, 0x2830313b75fb6057eb50cf70fbbb281510f762084d0d7348c6c4887333b6088eint);
    assert(fpow(g, 0xe7db4ea6533afa906673b0101343b00aa77b4805fffcb7fdfnat) == 0x2830313b75fb6057eb50cf70fbbb281510f762084d0d7348c6c4887333b6088eint);
}

/// A stretch of the square-and-multiply computation of the root of unity.
proof fn lemma_root_chain_25()
    requires
        fpow(generator_value(), 0xe7db4ea6533afa906673b0101343b00aa77b4805fffcb7fdfnat) == 0x2830313b75fb6057eb50cf70fbbb281510f762084d0d7348c6c4887333b6088eint,
    ensures
        fpow(generator_value(), 0x39f6d3a994cebea4199cec0404d0ec02a9ded2017fff2dff7ffnat) == 0x699271a8ff31e42afda22624ea54deb43360d73e80598c79af69f88a96a7ae9dint,
{
    let g = generator_value();
    assert(modulus() == 0x73eda753299d7d483339d80809a1d80553bda402fffe5bfeffffffff00000001int);
    lemma_fpow_double(g, 0xe7db4ea6533afa906673b0101343b00aa77b4805fffcb7fdfnat);
    assert(0x1cfb69d4ca675f520cce76020268760154ef6900bfff96ffbenat == 2 * 0xe7db4ea6533afa906673b0101343b00aa77b4805fffcb7fdfnat);
    vstd::arithmetic::div_mod::lemma_fundamental_div_mod_converse(0x2830313b75fb6057eb50cf70fbbb281510f762084d0d7348c6c4887333b6088eint * 0x2830313b75fb6057eb50cf70fbbb281510f762084d0d7348c6c4887333b6088eint, modulus(), 0xdee8d5da2c6a0a31662a5b5c78ce81b760dff1b9a50f3a726e2069caeb4610eint, 0x71e6c8a6ddf24185e66b6327a28894845296cc5684202ea53256f2de0f7ccdb6int);
    assert(fpow(g, 0x1cfb69d4ca675f520cce76020268760154ef6900bfff96ffbenat) == 0x71e6c8a6ddf24185e66b6327a28894845296cc5684202ea53256f2de0f7ccdb6int);
    assert(fpow(g, 0x1cfb69d4ca675f520cce76020268760154ef6900bfff96ffbfnat) == fmul(fpow(g, 0x1cfb69d4ca675f520cce76020268760154ef6900bfff96ffbenat), g));
    vstd::arithmetic::div_mod::lemma_fundamental_div_mod_converse(0x71e6c8a6ddf24185e66b6327a28894845296cc5684202ea53256f2de0f7ccdb6int * 7, modulus(), 0x6int, 0x65bd909d17eedaf81994a5e537f0ff7e4badbe4b9ceb1e8a6060a4186c699ff4int);
    assert(fpow(g, 0x1cfb69d4ca675f520cce76020268760154ef6900bfff96ffbfnat) == 0x65bd909d17eedaf81994a5e537f0ff7e4badbe4b9ceb1e8a6060a4186c699ff4int);
    lemma_fpow_double(g, 0x1cfb69d4ca675f520cce76020268760154ef6900bfff96ffbfnat);
    assert(0x39f6d3a994cebea4199cec0404d0ec02a9ded2017fff2dff7enat == 2 * 0x1cfb69d4ca675f520cce76020268760154ef6900bfff96ffbfnat);
    vstd::arithmetic::div_mod::lemma_fundamental_div_mod_converse(0x65bd909d17eedaf81994a5e537f0ff7e4badbe4b9ceb1e8a6060a4186c699ff4int * 0x65bd909d17eedaf81994a5e537f0ff7e4badbe4b9ceb1e8a6060a4186c699ff4int, modulus(), 0x5949fcef061e256d6cb236549a87754baf17216811ba38365bfe5e3791eb5263int, 0x5024167eb6235a1f589b7dc0027d0572e1952e63697f5bdf0394dc75e82dae2dint);
    assert(fpow(g, 0x39f6d3a994cebea4199cec0404d0ec02a9ded2017fff2dff7enat) == 0x5024167eb6235a1f589b7dc0027d0572e1952e63697f5bdf0394dc75e82dae2dint);
    assert(fpow(g, 0x39f6d3a994cebea4199cec0404d0ec02a9ded2017fff2dff7fnat) == fmul(fpow(g, 0x39f6d3a994cebea4199cec0404d0ec02a9ded2017fff2dff7enat), g));
    vstd::arithmetic::div_mod::lemma_fundamental_div_mod_converse(0x5024167eb6235a1f589b7dc0027d0572e1952e63697f5bdf0394dc75e82dae2dint * 7, modulus(), 0x4int, 0x6146002a548181ba9f59101feae3c60edc1db4abe282131d1912073d593fc337int);
    assert(fpow(g, 0x39f6d3a994cebea4199cec0404d0ec02a9ded2017fff2dff7fnat) == 0x6146002a548181ba9f59101feae3c60edc1db4abe282131d1912073d593fc337int);
    lemma_fpow_double(g, 0x39f6d3a994cebea4199cec0404d0ec02a9ded2017fff2dff7fnat);
    assert(0x73eda753299d7d483339d80809a1d80553bda402fffe5bfefenat == 2 * 0x39f6d3a994cebea4199cec0404d0ec02a9ded2017fff2dff7fnat);
    vstd::arithmetic::div_mod::lemma_fundamental_div_mod_converse(0x6146002a548181ba9f59101feae3c60edc1db4abe282131d1912073d593fc337int * 0x6146002a548181ba9f59101feae3c60edc1db4abe282131d1912073d593fc337int, modulus(), 0x519ed56bdf59eb3faeba5a8e4df494765b000b0e37c282b11d73d836ed4b5e21int, 0x671b1629de67f2e1034ec961ac8255b6790ed18488f6a6ca25c0f5bdfaa377b0int);
    assert(fpow(g, 0x73eda753299d7d483339d80809a1d80553bda402fffe5bfefenat) == 0x671b1629de67f2e1034ec961ac8255b6790ed18488f6a6ca25c0f5bdfaa377b0int);
    assert(fpow(g, 0x73eda753299d7d483339d80809a1d80553bda402fffe5bfeffnat) == fmul(fpow(g, 0x73eda753299d7d483339d80809a1d80553bda402fffe5bfefenat), g));
    vstd::arithmetic::div_mod::lemma_fundamental_div_mod_converse(0x671b1629de67f2e1034ec961ac8255b6790ed18488f6a6ca25c0f5bdfaa377b0int * 7, modulus(), 0x6int, 0x1a2baf321b26b475e3cc717b7dc547dd58f5e28dbec8678d0846b837da7845caint);
    assert(fpow(g, 0x73eda753299d7d483339d80809a1d80553bda402fffe5bfeffnat) == 0x1a2baf321b26b475e3cc717b7dc547dd58f5e28dbec8678d0846b837da7845caint);
    lemma_fpow_double(g, 0x73eda753299d7d483339d80809a1d80553bda402fffe5bfeffnat);
    assert(0xe7db4ea6533afa906673b0101343b00aa77b4805fffcb7fdfenat == 2 * 0x73eda753299d7d483339d80809a1d80553bda402fffe5bfeffnat);
    vstd::arithmetic::div_mod::lemma_fundamental_div_mod_converse(0x1a2baf321b26b475e3cc717b7dc547dd58f5e28dbec8678d0846b837da7845caint * 0x1a2baf321b26b475e3cc717b7dc547dd58f5e28dbec8678d0846b837da7845caint, modulus(), 0x5e87180d29fe9316fa14e2b18e4dd4f0ef55ef8cc454492ca18431761042e79int, 0x3dcf9e47465a671b90b37975b877d6038a53eda501e71e0dfd5578b276254ebint);
    assert(fpow(g, 0xe7db4ea6533afa906673b0101343b00aa77b4805fffcb7fdfenat) == 0x3dcf9e47465a671b90b37975b877d6038a53eda501e71e0dfd5578b276254ebint);
    assert(fpow(g, 0xe7db4ea6533afa906673b0101343b00aa77b4805fffcb7fdffnat) == fmul(fpow(g, 0xe7db4ea6533afa906673b0101343b00aa77b4805fffcb7fdfenat), g));
    vstd::arithmetic::div_mod::lemma_fundamental_div_mod_converse(0x3dcf9e47465a671b90b37975b877d6038a53eda501e71e0dfd5578b276254ebint * 7, modulus(), 0x0int, 0x1b0ad53f2ec78d1c0f4e852380b46da18c84b7f830d51d261ed564ce13b0526dint);
    assert(fpow(g, 0xe7db4ea6533afa906673b0101343b00aa77b4805fffcb7fdffnat) == 0x1b0ad53f2ec78d1c0f4e852380b46da18c84b7f830d51d261ed564ce13b0526dint);
    lemma_fpow_double(g, 0xe7db4ea6533afa906673b0101343b00aa77b4805fffcb7fdffnat);
    assert(0x1cfb69d4ca675f520cce76020268760154ef6900bfff96ffbfenat == 2 * 0xe7db4ea6533afa906673b0101343b00aa77b4805fffcb7fdffnat);
    vstd::arithmetic::div_mod::lemma_fundamental_div_mod_converse(0x1b0ad53f2ec78d1c0f4e852380b46da18c84b7f830d51d261ed564ce13b0526dint * 0x1b0ad53f2ec78d1c0f4e852380b46da18c84b7f830d51d261ed564ce13b0526dint, modulus(), 0x64edf461283c5a63e671afa9c071f327fc22931600dd78f00bd5e1807c70216int, 0x4002fbee9cba6ece1c7d58580f61b58c4c95199d2f8586fb2e19191796a30053int);
    assert(fpow(g, 0x1cfb69d4ca675f520cce76020268760154ef6900bfff96ffbfenat) == 0x4002fbee9cba6ece1c7d58580f61b58c4c95199d2f8586fb2e19191796a30053int);
    assert(fpow(g, 0x1cfb69d4ca675f520cce76020268760154ef6900bfff96ffbffnat) == fmul(fpow(g, 0x1cfb69d4ca675f520cce76020268760154ef6900bfff96ffbfenat), g));
    vstd::arithmetic::div_mod::lemma_fundamental_div_mod_converse(0x4002fbee9cba6ece1c7d58580f61b58c4c95199d2f8586fb2e19191796a30053int * 7, modulus(), 0x3int, 0x644bed8ccc408fca2dbfe2504ec66ec61cdac7434cab9ce142afafa81e750242int);
    assert(fpow(g, 0x1cfb69d4ca675f520cce76020268760154ef6900bfff96ffbffnat) == 0x644bed8ccc408fca2dbfe2504ec66ec61cdac7434cab9ce142afafa81e750242int);
    lemma_fpow_double(g, 0x1cfb69d4ca675f520cce76020268760154ef6900bfff96ffbffnat);
    assert(0x39f6d3a994cebea4199cec0404d0ec02a9ded2017fff2dff7fenat == 2 * 0x1cfb69d4ca675f520cce76020268760154ef6900bfff96ffbffnat);
    vstd::arithmetic::div_mod::lemma_fundamental_div_mod_converse(0x644bed8ccc408fca2dbfe2504ec66ec61cdac7434cab9ce142afafa81e750242int * 0x644bed8ccc408fca2dbfe2504ec66ec61cdac7434cab9ce142afafa81e750242int, modulus(), 0x56c5cb305b289b3fabcb04fdbc857378ba28c0280e6f781ddbfffa57bbf80012int, 0x1fa495dae142327e2b8d244f9090f58837dfc8771255b37ef47cda5ccc6118f2int);
    assert(fpow(g, 0x39f6d3a994cebea4199cec0404d0ec02a9ded2017fff2dff7fenat) == 0x1fa495dae142327e2b8d244f9090f58837dfc8771255b37ef47cda5ccc6118f2int);
    assert(fpow(g, 0x39f6d3a994cebea4199cec0404d0ec02a9ded2017fff2dff7ffnat) == fmul(fpow(g, 0x39f6d3a994cebea4199cec0404d0ec02a9ded2017fff2dff7fenat), g));
    vstd::arithmetic::div_mod::lemma_fundamental_div_mod_converse(0x1fa495dae142327e2b8d244f9090f58837dfc8771255b37ef47cda5ccc6118f2int * 7, modulus(), 0x1int, 0x699271a8ff31e42afda22624ea54deb43360d73e80598c79af69f88a96a7ae9dint);
    assert(fpow(g, 0x39f6d3a994cebea4199cec0404d0ec02a9ded2017fff2dff7ffnat) == 0x699271a8ff31e42afda22624ea54deb43360d73e80598c79af69f88a96a7ae9dint);
}

/// A stretch of the square-and-multiply computation of the root of unity.
proof fn lemma_root_chain_26()
    requires
        fpow(generator_value(), 0x39f6d3a994cebea4199cec0404d0ec02a9ded2017fff2dff7ffnat) == 0x699271a8ff31e42afda22624ea54deb43360d73e80598c79af69f88a96a7ae9dint,
    ensures
        fpow(generator_value(), 0xe7db4ea6533afa906673b0101343b00aa77b4805fffcb7fdffffnat) == 0x3881f4546dc97958d0f1ef613a4c08d8b4c3c5e33e3e8adbe406daa23dbabc1int,
{
    let g = generator_value();
    assert(modulus() == 0x73eda753299d7d483339d80809a1d80553bda402fffe5bfeffffffff00000001int);
    lemma_fpow_double(g, 0x39f6d3a994cebea4199cec0404d0ec02a9ded2017fff2dff7ffnat);
    assert(0x73eda753299d7d483339d80809a1d80553bda402fffe5bfeffenat == 2 * 0x39f6d3a994cebea4199cec0404d0ec02a9ded2017fff2dff7ffnat);
    vstd::arithmetic::div_mod::lemma_fundamental_div_mod_converse(0x699271a8ff31e42afda22624ea54deb43360d73e80598c79af69f88a96a7ae9dint * 0x699271a8ff31e42afda22624ea54deb43360d73e80598c79af69f88a96a7ae9dint, modulus(), 0x60241386f61bd281e6d3041cc0ed95013ee98523625b1bab9edf13b787c89100int, 0x1f1770b677b36abfc49fee9dfc43c7735aeb60ba59cef6a97374dd01bc273b49int);
    assert(fpow(g, 0x73eda753299d7d483339d80809a1d80553bda402fffe5bfeffenat) == 0x1f1770b677b36abfc49fee9dfc43c7735aeb60ba59cef6a97374dd01bc273b49int);
    assert(fpow(g, 0x73eda753299d7d483339d80809a1d80553bda402fffe5bfefffnat) == fmul(fpow(g, 0x73eda753299d7d483339d80809a1d80553bda402fffe5bfeffenat), g));
    vstd::arithmetic::div_mod::lemma_fundamental_div_mod_converse(0x1f1770b677b36abfc49fee9dfc43c7735aeb60ba59cef6a97374dd01bc273b49int * 7, modulus(), 0x1int, 0x65b66daa1c4a6df62d25ae49dc389c2228b2011574aa62a328320b0d25129efeint);
    assert(fpow(g, 0x73eda753299d7d483339d80809a1d80553bda402fffe5bfefffnat) == 0x65b66daa1c4a6df62d25ae49dc389c2228b2011574aa62a328320b0d25129efeint);
    lemma_fpow_double(g, 0x73eda753299d7d483339d80809a1d80553bda402fffe5bfefffnat);
    assert(0xe7db4ea6533afa906673b0101343b00aa77b4805fffcb7fdffenat == 2 * 0x73eda753299d7d483339d80809a1d80553bda402fffe5bfefffnat);
    vstd::arithmetic::div_mod::lemma_fundamental_div_mod_converse(0x65b66daa1c4a6df62d25ae49dc389c2228b2011574aa62a328320b0d25129efeint * 0x65b66daa1c4a6df62d25ae49dc389c2228b2011574aa62a328320b0d25129efeint, modulus(), 0x593d76a7dc3d8aa68f4df78a1b676041e758ae2ba2384938751dfc28efb00bc1int, 0x6f3ed13f7ff156028dcfd71e7edc126e5badf808d3d9c0f758b66cb43ac67843int);
    assert(fpow(g, 0xe7db4ea6533afa906673b0101343b00aa77b4805fffcb7fdffenat) == 0x6f3ed13f7ff156028dcfd71e7edc126e5badf808d3d9c0f758b66cb43ac67843int);
    assert(fpow(g, 0xe7db4ea6533afa906673b0101343b00aa77b4805fffcb7fdfffnat) == fmul(fpow(g, 0xe7db4ea6533afa906673b0101343b00aa77b4805fffcb7fdffenat), g));
    vstd::arithmetic::div_mod::lemma_fundamental_div_mod_converse(0x6f3ed13f7ff156028dcfd71e7edc126e5badf808d3d9c0f758b66cb43ac67843int * 7, modulus(), 0x6int, 0x5325ccc985e86a60ad53d1a53e3970e48b4ff02bcafe1ec96cfcf8f39b6d49cfint);
    assert(fpow(g, 0xe7db4ea6533afa906673b0101343b00aa77b4805fffcb7fdfffnat) == 0x5325ccc985e86a60ad53d1a53e3970e48b4ff02bcafe1ec96cfcf8f39b6d49cfint);
    lemma_fpow_double(g, 0xe7db4ea6533afa906673b0101343b00aa77b4805fffcb7fdfffnat);
    assert(0x1cfb69d4ca675f520cce76020268760154ef6900bfff96ffbffenat == 2 * 0xe7db4ea6533afa906673b0101343b00aa77b4805fffcb7fdfffnat);
    vstd::arithmetic::div_mod::lemma_fundamental_div_mod_converse(0x5325ccc985e86a60ad53d1a53e3970e48b4ff02bcafe1ec96cfcf8f39b6d49cfint * 0x5325ccc985e86a60ad53d1a53e3970e48b4ff02bcafe1ec96cfcf8f39b6d49cfint, modulus(), 0x3ba2e22b67e6a180888329a67e0775f320ea48bcecbc3e7b14b7586b374b9523int, 0x577b2c947c0b7fc0b6f54d9582ab6d38b3e14d5bce79a08548f4f1ba6242203eint);
    assert(fpow(g, 0x1cfb69d4ca675f520cce76020268760154ef6900bfff96ffbffenat) == 0x577b2c947c0b7fc0b6f54d9582ab6d38b3e14d5bce79a08548f4f1ba6242203eint);
    assert(fpow(g, 0x1cfb69d4ca675f520cce76020268760154ef6900bfff96ffbfffnat) == fmul(fpow(g, 0x1cfb69d4ca675f520cce76020268760154ef6900bfff96ffbffenat), g));
    vstd::arithmetic::div_mod::lemma_fundamental_div_mod_converse(0x577b2c947c0b7fc0b6f54d9582ab6d38b3e14d5bce79a08548f4f1ba6242203eint * 7, modulus(), 0x5int, 0x20b9f36f943d0bdc0093e6ee6286c4724874e973a55b97a9feb29c1dafcee1adint);
    assert(fpow(g, 0x1cfb69d4ca675f520cce76020268760154ef6900bfff96ffbfffnat) == 0x20b9f36f943d0bdc0093e6ee6286c4724874e973a55b97a9feb29c1dafcee1adint);
    lemma_fpow_double(g, 0x1cfb69d4ca675f520cce76020268760154ef6900bfff96ffbfffnat);
    assert(0x39f6d3a994cebea4199cec0404d0ec02a9ded2017fff2dff7ffenat == 2 * 0x1cfb69d4ca675f520cce76020268760154ef6900bfff96ffbfffnat);
    vstd::arithmetic::div_mod::lemma_fundamental_div_mod_converse(0x20b9f36f943d0bdc0093e6ee6286c4724874e973a55b97a9feb29c1dafcee1adint * 0x20b9f36f943d0bdc0093e6ee6286c4724874e973a55b97a9feb29c1dafcee1adint, modulus(), 0x93d14cbc6c4b8f2deed4f44ba061a917e3325ddda402fdafd11a9d46251f420int, 0x24921c59462184c54420403531f4b95dab582f2bfb612fbdf67ac3381d0b9ac9int);
    assert(fpow(g, 0x39f6d3a994cebea4199cec0404d0ec02a9ded2017fff2dff7ffenat) == 0x24921c59462184c54420403531f4b95dab582f2bfb612fbdf67ac3381d0b9ac9int);
    assert(fpow(g, 0x39f6d3a994cebea4199cec0404d0ec02a9ded2017fff2dff7fffnat) == fmul(fpow(g, 0x39f6d3a994cebea4199cec0404d0ec02a9ded2017fff2dff7ffenat), g));
    vstd::arithmetic::div_mod::lemma_fundamental_div_mod_converse(0x24921c59462184c54420403531f4b95dab582f2bfb612fbdf67ac3381d0b9ac9int * 7, modulus(), 0x2int, 0x182377ca97afa6d4766e11644a6d618507ee022ddfab9633bd5b568acb513b7dint);
    assert(fpow(g, 0x39f6d3a994cebea4199cec0404d0ec02a9ded2017fff2dff7fffnat) == 0x182377ca97afa6d4766e11644a6d618507ee022ddfab9633bd5b568acb513b7dint);
    lemma_fpow_double(g, 0x39f6d3a994cebea4199cec0404d0ec02a9ded2017fff2dff7fffnat);
    assert(0x73eda753299d7d483339d80809a1d80553bda402fffe5bfefffenat == 2 * 0x39f6d3a994cebea4199cec0404d0ec02a9ded2017fff2dff7fffnat);
    vstd::arithmetic::div_mod::lemma_fundamental_div_mod_converse(0x182377ca97afa6d4766e11644a6d618507ee022ddfab9633bd5b568acb513b7dint * 0x182377ca97afa6d4766e11644a6d618507ee022ddfab9633bd5b568acb513b7dint, modulus(), 0x506afa350721eeb79978efd5720076ce7aa9e6218446fef50e23d97398f7ef2int, 0x3cd3df763bfa42418c4c7f2366a7c16c8b47c6c8e5a88dd92e914e3db75d5c17int);
    assert(fpow(g, 0x73eda753299d7d483339d80809a1d80553bda402fffe5bfefffenat) == 0x3cd3df763bfa42418c4c7f2366a7c16c8b47c6c8e5a88dd92e914e3db75d5c17int);
    assert(fpow(g, 0x73eda753299d7d483339d80809a1d80553bda402fffe5bfeffffnat) == fmul(fpow(g, 0x73eda753299d7d483339d80809a1d80553bda402fffe5bfefffenat), g));
    vstd::arithmetic::div_mod::lemma_fundamental_div_mod_converse(0x3cd3df763bfa42418c4c7f2366a7c16c8b47c6c8e5a88dd92e914e3db75d5c17int * 7, modulus(), 0x3int, 0x4e02264226ff57f23c69f1dfb1b0c1e7d3bd837547a0ccf345f923b3038d849eint);
    assert(fpow(g, 0x73eda753299d7d483339d80809a1d80553bda402fffe5bfeffffnat) == 0x4e02264226ff57f23c69f1dfb1b0c1e7d3bd837547a0ccf345f923b3038d849eint);
    lemma_fpow_double(g, 0x73eda753299d7d483339d80809a1d80553bda402fffe5bfeffffnat);
    assert(0xe7db4ea6533afa906673b0101343b00aa77b4805fffcb7fdfffenat == 2 * 0x73eda753299d7d483339d80809a1d80553bda402fffe5bfeffffnat);
    vstd::arithmetic::div_mod::lemma_fundamental_div_mod_converse(0x4e02264226ff57f23c69f1dfb1b0c1e7d3bd837547a0ccf345f923b3038d849eint * 0x4e02264226ff57f23c69f1dfb1b0c1e7d3bd837547a0ccf345f923b3038d849eint, modulus(), 0x347df39368259fb78e924b75b97b1266535f219864a75d60e497babfc07b5d8dint, 0x812909e58d3a39ef9472232760adcb13e651c4508e45cfad76eb184e43f3f7int);
    assert(fpow(g, 0xe7db4ea6533afa906673b0101343b00aa77b4805fffcb7fdfffenat) == 0x812909e58d3a39ef9472232760adcb13e651c4508e45cfad76eb184e43f3f7int);
    assert(fpow(g, 0xe7db4ea6533afa906673b0101343b00aa77b4805fffcb7fdffffnat) == fmul(fpow(g, 0xe7db4ea6533afa906673b0101343b00aa77b4805fffcb7fdfffenat), g));
    vstd::arithmetic::div_mod::lemma_fundamental_div_mod_converse(0x812909e58d3a39ef9472232760adcb13e651c4508e45cfad76eb184e43f3f7int * 7, modulus(), 0x0int, 0x3881f4546dc97958d0f1ef613a4c08d8b4c3c5e33e3e8adbe406daa23dbabc1int);
    assert(fpow(g, 0xe7db4ea6533afa906673b0101343b00aa77b4805fffcb7fdffffnat) == 0x3881f4546dc97958d0f1ef613a4c08d8b4c3c5e33e3e8adbe406daa23dbabc1int);
}

/// A stretch of the square-and-multiply computation of the root of unity.
proof fn lemma_root_chain_27()
    requires
        fpow(generator_value(), 0xe7db4ea6533afa906673b0101343b00aa77b4805fffcb7fdffffnat) == 0x3881f4546dc97958d0f1ef613a4c08d8b4c3c5e33e3e8adbe406daa23dbabc1int,
    ensures
        fpow(generator_value(), 0x39f6d3a994cebea4199cec0404d0ec02a9ded2017fff2dff7fffffnat) == 0x3440cbe64c2f8a8f37adad9722881a4aad7ad4813c1497a67535d143b5ea6a3bint,
{
    let g = generator_value();
    assert(modulus() == 0x73eda753299d7d483339d80809a1d80553bda402fffe5bfeffffffff00000001int);
    lemma_fpow_double(g, 0xe7db4ea6533afa906673b0101343b00aa77b4805fffcb7fdffffnat);
    assert(0x1cfb69d4ca675f520cce76020268760154ef6900bfff96ffbfffenat == 2 * 0xe7db4ea6533afa906673b0101343b00aa77b4805fffcb7fdffffnat);
    vstd::arithmetic::div_mod::lemma_fundamental_div_mod_converse(0x3881f4546dc97958d0f1ef613a4c08d8b4c3c5e33e3e8adbe406daa23dbabc1int * 0x3881f4546dc97958d0f1ef613a4c08d8b4c3c5e33e3e8adbe406daa23dbabc1int, modulus(), 0x1b8b39ce948fb6fd6584f20c969b19559e29501a5b0b2f6e1bbd477492da5cint, 0x281c3452e5586b1beb98aee73d9e1e84d5885f036452c3b317ff60dea0de8d25int);
    assert(fpow(g, 0x1cfb69d4ca675f520cce76020268760154ef6900bfff96ffbfffenat) == 0x281c3452e5586b1beb98aee73d9e1e84d5885f036452c3b317ff60dea0de8d25int);
    assert(fpow(g, 0x1cfb69d4ca675f520cce76020268760154ef6900bfff96ffbffffnat) == fmul(fpow(g, 0x1cfb69d4ca675f520cce76020268760154ef6900bfff96ffbfffenat), g));
    vstd::arithmetic::div_mod::lemma_fundamental_div_mod_converse(0x281c3452e5586b1beb98aee73d9e1e84d5885f036452c3b317ff60dea0de8d25int * 7, modulus(), 0x2int, 0x30ea1f9df22ff3330ab918429c0f25972f3f5111be46a1e7a7fba6186615dc01int);
    assert(fpow(g, 0x1cfb69d4ca675f520cce76020268760154ef6900bfff96ffbffffnat) == 0x30ea1f9df22ff3330ab918429c0f25972f3f5111be46a1e7a7fba6186615dc01int);
    lemma_fpow_double(g, 0x1cfb69d4ca675f520cce76020268760154ef6900bfff96ffbffffnat);
    assert(0x39f6d3a994cebea4199cec0404d0ec02a9ded2017fff2dff7fffenat == 2 * 0x1cfb69d4ca675f520cce76020268760154ef6900bfff96ffbffffnat);
    vstd::arithmetic::div_mod::lemma_fundamental_div_mod_converse(0x30ea1f9df22ff3330ab918429c0f25972f3f5111be46a1e7a7fba6186615dc01int * 0x30ea1f9df22ff3330ab918429c0f25972f3f5111be46a1e7a7fba6186615dc01int, modulus(), 0x14a38e9d32243691fecebe9492d9952a7201f3f7ed9d142df09bbc40df2d858eint, 0x26bc03aeafd7ab9c0172b897f8464ef6b6ec9d1e0ccdcc0d4ca7c2abc20e3273int);
    assert(fpow(g, 0x39f6d3a994cebea4199cec0404d0ec02a9ded2017fff2dff7fffenat) == 0x26bc03aeafd7ab9c0172b897f8464ef6b6ec9d1e0ccdcc0d4ca7c2abc20e3273int);
    assert(fpow(g, 0x39f6d3a994cebea4199cec0404d0ec02a9ded2017fff2dff7ffffnat) == fmul(fpow(g, 0x39f6d3a994cebea4199cec0404d0ec02a9ded2017fff2dff7fffenat), g));
    vstd::arithmetic::div_mod::lemma_fundamental_div_mod_converse(0x26bc03aeafd7ab9c0172b897f8464ef6b6ec9d1e0ccdcc0d4ca7c2abc20e3273int * 7, modulus(), 0x2int, 0x2748cb207baab6b3a3af5c17b6a878b458fd03cc59a3dc5f189652b44e636123int);
    assert(fpow(g, 0x39f6d3a994cebea4199cec0404d0ec02a9ded2017fff2dff7ffffnat) == 0x2748cb207baab6b3a3af5c17b6a878b458fd03cc59a3dc5f189652b44e636123int);
    lemma_fpow_double(g, 0x39f6d3a994cebea4199cec0404d0ec02a9ded2017fff2dff7ffffnat);
    assert(0x73eda753299d7d483339d80809a1d80553bda402fffe5bfeffffenat == 2 * 0x39f6d3a994cebea4199cec0404d0ec02a9ded2017fff2dff7ffffnat);
    vstd::arithmetic::div_mod::lemma_fundamental_div_mod_converse(0x2748cb207baab6b3a3af5c17b6a878b458fd03cc59a3dc5f189652b44e636123int * 0x2748cb207baab6b3a3af5c17b6a878b458fd03cc59a3dc5f189652b44e636123int, modulus(), 0xd4febbd663af93f18e6d128055c93f354a5bd379d32b77ad40fb52178ca9c13int, 0xf1dcb386f27ece5e76c595729430179ea6cf78bf1b5859607baa1ef2122eeb6int);
    assert(fpow(g, 0x73eda753299d7d483339d80809a1d80553bda402fffe5bfeffffenat) == 0xf1dcb386f27ece5e76c595729430179ea6cf78bf1b5859607baa1ef2122eeb6int);
    assert(fpow(g, 0x73eda753299d7d483339d80809a1d80553bda402fffe5bfefffffnat) == fmul(fpow(g, 0x73eda753299d7d483339d80809a1d80553bda402fffe5bfeffffenat), g));
    vstd::arithmetic::div_mod::lemma_fundamental_div_mod_converse(0xf1dcb386f27ece5e76c595729430179ea6cf78bf1b5859607baa1ef2122eeb6int * 7, modulus(), 0x0int, 0x69d08e8b0a177a4953f6716220d50a5568fac4d39bf6a71a361a6d89e7f486faint);
    assert(fpow(g, 0x73eda753299d7d483339d80809a1d80553bda402fffe5bfefffffnat) == 0x69d08e8b0a177a4953f6716220d50a5568fac4d39bf6a71a361a6d89e7f486faint);
    lemma_fpow_double(g, 0x73eda753299d7d483339d80809a1d80553bda402fffe5bfefffffnat);
    assert(0xe7db4ea6533afa906673b0101343b00aa77b4805fffcb7fdffffenat == 2 * 0x73eda753299d7d483339d80809a1d80553bda402fffe5bfefffffnat);
    vstd::arithmetic::div_mod::lemma_fundamental_div_mod_converse(0x69d08e8b0a177a4953f6716220d50a5568fac4d39bf6a71a361a6d89e7f486faint * 0x69d08e8b0a177a4953f6716220d50a5568fac4d39bf6a71a361a6d89e7f486faint, modulus(), 0x6095559bb791fe431267fa54942d562f0cacb1e699e0755f08faa7bb7726de7bint, 0x6657f96f06b2aab911a7c506deb1c88df7441e55923d740ca1c8c77c4893cda9int);
    assert(fpow(g, 0xe7db4ea6533afa906673b0101343b00aa77b4805fffcb7fdffffenat) == 0x6657f96f06b2aab911a7c506deb1c88df7441e55923d740ca1c8c77c4893cda9int);
    assert(fpow(g, 0xe7db4ea6533afa906673b0101343b00aa77b4805fffcb7fdfffffnat) == fmul(fpow(g, 0xe7db4ea6533afa906673b0101343b00aa77b4805fffcb7fdffffenat), g));
    vstd::arithmetic::div_mod::lemma_fundamental_div_mod_converse(0x6657f96f06b2aab911a7c506deb1c88df7441e55923d740ca1c8c77c4893cda9int * 7, modulus(), 0x6int, 0x14d5e6163531bb5e483b52ffdd116bc1cc6afc44ffb8045e6c7d746bfc0a9f99int);
    assert(fpow(g, 0xe7db4ea6533afa906673b0101343b00aa77b4805fffcb7fdfffffnat) == 0x14d5e6163531bb5e483b52ffdd116bc1cc6afc44ffb8045e6c7d746bfc0a9f99int);
    lemma_fpow_double(g, 0xe7db4ea6533afa906673b0101343b00aa77b4805fffcb7fdfffffnat);
    assert(0x1cfb69d4ca675f520cce76020268760154ef6900bfff96ffbffffenat == 2 * 0xe7db4ea6533afa906673b0101343b00aa77b4805fffcb7fdfffffnat);
    vstd::arithmetic::div_mod::lemma_fundamental_div_mod_converse(0x14d5e6163531bb5e483b52ffdd116bc1cc6afc44ffb8045e6c7d746bfc0a9f99int * 0x14d5e6163531bb5e483b52ffdd116bc1cc6afc44ffb8045e6c7d746bfc0a9f99int, modulus(), 0x3bea658178a66a000464ee9e553455e4cfd81cc4c61af714e590573dc367f74int, 0x1ecb00d804c2d520433e08fb68486133b65eb69f11144d1caf0768c373ce9fdint);
    assert(fpow(g, 0x1cfb69d4ca675f520cce76020268760154ef6900bfff96ffbffffenat) == 0x1ecb00d804c2d520433e08fb68486133b65eb69f11144d1caf0768c373ce9fdint);
    assert(fpow(g, 0x1cfb69d4ca675f520cce76020268760154ef6900bfff96ffbfffffnat) == fmul(fpow(g, 0x1cfb69d4ca675f520cce76020268760154ef6900bfff96ffbffffenat), g));
    vstd::arithmetic::div_mod::lemma_fundamental_div_mod_converse(0x1ecb00d804c2d520433e08fb68486133b65eb69f11144d1caf0768c373ce9fdint * 7, modulus(), 0x0int, 0xd78d05e82153d3e1d6b23edfd9faa869fc96fe59778e1bc8c933dd582aa65ebint);
    assert(fpow(g, 0x1cfb69d4ca675f520cce76020268760154ef6900bfff96ffbfffffnat) == 0xd78d05e82153d3e1d6b23edfd9faa869fc96fe59778e1bc8c933dd582aa65ebint);
    lemma_fpow_double(g, 0x1cfb69d4ca675f520cce76020268760154ef6900bfff96ffbfffffnat);
    assert(0x39f6d3a994cebea4199cec0404d0ec02a9ded2017fff2dff7ffffenat == 2 * 0x1cfb69d4ca675f520cce76020268760154ef6900bfff96ffbfffffnat);
    vstd::arithmetic::div_mod::lemma_fundamental_div_mod_converse(0xd78d05e82153d3e1d6b23edfd9faa869fc96fe59778e1bc8c933dd582aa65ebint * 0xd78d05e82153d3e1d6b23edfd9faa869fc96fe59778e1bc8c933dd582aa65ebint, modulus(), 0x190c89babedfd3f673fe8e9d527d30940bfb25a0f55859cb78255355fd6ed67int, 0x3925f71ff825b733670d07ab52343bc3cef51b81764b61a9a307b02dd0d85852int);
    assert(fpow(g, 0x39f6d3a994cebea4199cec0404d0ec02a9ded2017fff2dff7ffffenat) == 0x3925f71ff825b733670d07ab52343bc3cef51b81764b61a9a307b02dd0d85852int);
    assert(fpow(g, 0x39f6d3a994cebea4199cec0404d0ec02a9ded2017fff2dff7fffffnat) == fmul(fpow(g, 0x39f6d3a994cebea4199cec0404d0ec02a9ded2017fff2dff7ffffenat), g));
    vstd::arithmetic::div_mod::lemma_fundamental_div_mod_converse(0x3925f71ff825b733670d07ab52343bc3cef51b81764b61a9a307b02dd0d85852int * 7, modulus(), 0x3int, 0x3440cbe64c2f8a8f37adad9722881a4aad7ad4813c1497a67535d143b5ea6a3bint);
    assert(fpow(g, 0x39f6d3a994cebea4199cec0404d0ec02a9ded2017fff2dff7fffffnat) == 0x3440cbe64c2f8a8f37adad9722881a4aad7ad4813c1497a67535d143b5ea6a3bint);
}

/// A stretch of the square-and-multiply computation of the root of unity.
proof fn lemma_root_chain_28()
    requires
        fpow(generator_value(), 0x39f6d3a994cebea4199cec0404d0ec02a9ded2017fff2dff7fffffnat) == 0x3440cbe64c2f8a8f37adad9722881a4aad7ad4813c1497a67535d143b5ea6a3bint,
    ensures
        fpow(generator_value(), 0xe7db4ea6533afa906673b0101343b00aa77b4805fffcb7fdfffffffnat) == 0xde76ce74e31c711c81d3b6b82efd355014853ed0e31ecf89b710c57e417dae6int,
{
    let g = generator_value();
    assert(modulus() == 0x73eda753299d7d483339d80809a1d80553bda402fffe5bfeffffffff00000001int);
    lemma_fpow_double(g, 0x39f6d3a994cebea4199cec0404d0ec02a9ded2017fff2dff7fffffnat);
    assert(0x73eda753299d7d483339d80809a1d80553bda402fffe5bfefffffenat == 2 * 0x39f6d3a994cebea4199cec0404d0ec02a9ded2017fff2dff7fffffnat);
    vstd::arithmetic::div_mod::lemma_fundamental_div_mod_converse(0x3440cbe64c2f8a8f37adad9722881a4aad7ad4813c1497a67535d143b5ea6a3bint * 0x3440cbe64c2f8a8f37adad9722881a4aad7ad4813c1497a67535d143b5ea6a3bint, modulus(), 0x178d68772b15dc9acd6f7d2787b5196ab9f4739a18420921aff3aca3e547caa9int, 0xad0f365172a085ef6c0f7340dd386d576a8193f316349ca9b2f5fc4e8a91ef0int);
    assert(fpow(g, 0x73eda753299d7d483339d80809a1d80553bda402fffe5bfefffffenat) == 0xad0f365172a085ef6c0f7340dd386d576a8193f316349ca9b2f5fc4e8a91ef0int);
    assert(fpow(g, 0x73eda753299d7d483339d80809a1d80553bda402fffe5bfeffffffnat) == fmul(fpow(g, 0x73eda753299d7d483339d80809a1d80553bda402fffe5bfefffffenat), g));
    vstd::arithmetic::div_mod::lemma_fundamental_div_mod_converse(0xad0f365172a085ef6c0f7340dd386d576a8193f316349ca9b2f5fc4e8a91ef0int * 7, modulus(), 0x0int, 0x4bb6a7c3a2263a98bf46c26c60c8afd63e98b0ba59b7048a3e4b9e625c9fd890int);
    assert(fpow(g, 0x73eda753299d7d483339d80809a1d80553bda402fffe5bfeffffffnat) == 0x4bb6a7c3a2263a98bf46c26c60c8afd63e98b0ba59b7048a3e4b9e625c9fd890int);
    lemma_fpow_double(g, 0x73eda753299d7d483339d80809a1d80553bda402fffe5bfeffffffnat);
    assert(0xe7db4ea6533afa906673b0101343b00aa77b4805fffcb7fdfffffenat == 2 * 0x73eda753299d7d483339d80809a1d80553bda402fffe5bfeffffffnat);
    vstd::arithmetic::div_mod::lemma_fundamental_div_mod_converse(0x4bb6a7c3a2263a98bf46c26c60c8afd63e98b0ba59b7048a3e4b9e625c9fd890int * 0x4bb6a7c3a2263a98bf46c26c60c8afd63e98b0ba59b7048a3e4b9e625c9fd890int, modulus(), 0x3172edf9df2883047dc455ec40bf1982ceee657b6284df2aee1767f58d5528c0int, 0x2d3a5cb637742a84ba91a67867c156191419119f3d39ef799ed49680acbe2840int);
    assert(fpow(g, 0xe7db4ea6533afa906673b0101343b00aa77b4805fffcb7fdfffffenat) == 0x2d3a5cb637742a84ba91a67867c156191419119f3d39ef799ed49680acbe2840int);
    assert(fpow(g, 0xe7db4ea6533afa906673b0101343b00aa77b4805fffcb7fdffffffnat) == fmul(fpow(g, 0xe7db4ea6533afa906673b0101343b00aa77b4805fffcb7fdfffffenat), g));
    vstd::arithmetic::div_mod::lemma_fundamental_div_mod_converse(0x2d3a5cb637742a84ba91a67867c156191419119f3d39ef799ed49680acbe2840int * 7, modulus(), 0x2int, 0x54bd3a5530f22f10b387dd3ac305aaa4e5343354ac98d45557d01d86b93319beint);
    assert(fpow(g, 0xe7db4ea6533afa906673b0101343b00aa77b4805fffcb7fdffffffnat) == 0x54bd3a5530f22f10b387dd3ac305aaa4e5343354ac98d45557d01d86b93319beint);
    lemma_fpow_double(g, 0xe7db4ea6533afa906673b0101343b00aa77b4805fffcb7fdffffffnat);
    assert(0x1cfb69d4ca675f520cce76020268760154ef6900bfff96ffbfffffenat == 2 * 0xe7db4ea6533afa906673b0101343b00aa77b4805fffcb7fdffffffnat);
    vstd::arithmetic::div_mod::lemma_fundamental_div_mod_converse(0x54bd3a5530f22f10b387dd3ac305aaa4e5343354ac98d45557d01d86b93319beint * 0x54bd3a5530f22f10b387dd3ac305aaa4e5343354ac98d45557d01d86b93319beint, modulus(), 0x3df0eb23e1c0bf53bd494ac377a6706464c4ad9294753e0bd1961f0ef2ae6efbint, 0x31858c58c85bc094e25801c59d0ab1ede3d528286e4a5f8f1527343bed9c3a09int);
    assert(fpow(g, 0x1cfb69d4ca675f520cce76020268760154ef6900bfff96ffbfffffenat) == 0x31858c58c85bc094e25801c59d0ab1ede3d528286e4a5f8f1527343bed9c3a09int);
    assert(fpow(g, 0x1cfb69d4ca675f520cce76020268760154ef6900bfff96ffbffffffnat) == fmul(fpow(g, 0x1cfb69d4ca675f520cce76020268760154ef6900bfff96ffbfffffenat), g));
    vstd::arithmetic::div_mod::lemma_fundamental_div_mod_converse(0x31858c58c85bc094e25801c59d0ab1ede3d528286e4a5f8f1527343bed9c3a09int * 7, modulus(), 0x2int, 0x72cb87c727474981c9f45c5738072d769358d115040be4eb94126da57f45963dint);
    assert(fpow(g, 0x1cfb69d4ca675f520cce76020268760154ef6900bfff96ffbffffffnat) == 0x72cb87c727474981c9f45c5738072d769358d115040be4eb94126da57f45963dint);
    lemma_fpow_double(g, 0x1cfb69d4ca675f520cce76020268760154ef6900bfff96ffbffffffnat);
    assert(0x39f6d3a994cebea4199cec0404d0ec02a9ded2017fff2dff7fffffenat == 2 * 0x1cfb69d4ca675f520cce76020268760154ef6900bfff96ffbffffffnat);
    vstd::arithmetic::div_mod::lemma_fundamental_div_mod_converse(0x72cb87c727474981c9f45c5738072d769358d115040be4eb94126da57f45963dint * 0x72cb87c727474981c9f45c5738072d769358d115040be4eb94126da57f45963dint, modulus(), 0x71ac3e4bbee690e89b6ec54f5d026c487369cd59bc8be50bded8a66bcde09c7cint, 0x4869057d2f2ed2c802ccb36e2ab695b6033d1bc3d4e9feb82885b0ad0d2cee0dint);
    assert(fpow(g, 0x39f6d3a994cebea4199cec0404d0ec02a9ded2017fff2dff7fffffenat) == 0x4869057d2f2ed2c802ccb36e2ab695b6033d1bc3d4e9feb82885b0ad0d2cee0dint);
    assert(fpow(g, 0x39f6d3a994cebea4199cec0404d0ec02a9ded2017fff2dff7ffffffnat) == fmul(fpow(g, 0x39f6d3a994cebea4199cec0404d0ec02a9ded2017fff2dff7fffffenat), g));
    vstd::arithmetic::div_mod::lemma_fundamental_div_mod_converse(0x4869057d2f2ed2c802ccb36e2ab695b6033d1bc3d4e9feb82885b0ad0d2cee0dint * 7, modulus(), 0x4int, 0x2b28891fa3d1ce5746b187e30476b7e4c7b5324ed26c870d1ba7d4bf5c3a8257int);
    assert(fpow(g, 0x39f6d3a994cebea4199cec0404d0ec02a9ded2017fff2dff7ffffffnat) == 0x2b28891fa3d1ce5746b187e30476b7e4c7b5324ed26c870d1ba7d4bf5c3a8257int);
    lemma_fpow_double(g, 0x39f6d3a994cebea4199cec0404d0ec02a9ded2017fff2dff7ffffffnat);
    assert(0x73eda753299d7d483339d80809a1d80553bda402fffe5bfeffffffenat == 2 * 0x39f6d3a994cebea4199cec0404d0ec02a9ded2017fff2dff7ffffffnat);
    vstd::arithmetic::div_mod::lemma_fundamental_div_mod_converse(0x2b28891fa3d1ce5746b187e30476b7e4c7b5324ed26c870d1ba7d4bf5c3a8257int * 0x2b28891fa3d1ce5746b187e30476b7e4c7b5324ed26c870d1ba7d4bf5c3a8257int, modulus(), 0x1011335429ce4960d505a0859afe760feb6f61380a46f6c6e887e4be9fa0b89eint, 0x29747cc2a77e75b243efa862397e5fcc87a2522c9582090bc70384bf3a27c0f3int);
    assert(fpow(g, 0x73eda753299d7d483339d80809a1d80553bda402fffe5bfeffffffenat) == 0x29747cc2a77e75b243efa862397e5fcc87a2522c9582090bc70384bf3a27c0f3int);
    assert(fpow(g, 0x73eda753299d7d483339d80809a1d80553bda402fffe5bfefffffffnat) == fmul(fpow(g, 0x73eda753299d7d483339d80809a1d80553bda402fffe5bfeffffffenat), g));
    vstd::arithmetic::div_mod::lemma_fundamental_div_mod_converse(0x29747cc2a77e75b243efa862397e5fcc87a2522c9582090bc70384bf3a27c0f3int * 7, modulus(), 0x2int, 0x3a541aac413a3d4f7519ea9f7f30ee8d0df4f732169187547118a13c971646a3int);
    assert(fpow(g, 0x73eda753299d7d483339d80809a1d80553bda402fffe5bfefffffffnat) == 0x3a541aac413a3d4f7519ea9f7f30ee8d0df4f732169187547118a13c971646a3int);
    lemma_fpow_double(g, 0x73eda753299d7d483339d80809a1d80553bda402fffe5bfefffffffnat);
    assert(0xe7db4ea6533afa906673b0101343b00aa77b4805fffcb7fdffffffenat == 2 * 0x73eda753299d7d483339d80809a1d80553bda402fffe5bfefffffffnat);
    vstd::arithmetic::div_mod::lemma_fundamental_div_mod_converse(0x3a541aac413a3d4f7519ea9f7f30ee8d0df4f732169187547118a13c971646a3int * 0x3a541aac413a3d4f7519ea9f7f30ee8d0df4f732169187547118a13c971646a3int, modulus(), 0x1d58fbe4d05e97cd171bc5adb24b143939e02e50e14af2af0d7368b5cea2b5a8int, 0x128c2776111d9c0cdac34bebef82863179dc47fdb8e253911634b89eb2ded621int);
    assert(fpow(g, 0xe7db4ea6533afa906673b0101343b00aa77b4805fffcb7fdffffffenat) == 0x128c2776111d9c0cdac34bebef82863179dc47fdb8e253911634b89eb2ded621int);
    assert(fpow(g, 0xe7db4ea6533afa906673b0101343b00aa77b4805fffcb7fdfffffffnat) == fmul(fpow(g, 0xe7db4ea6533afa906673b0101343b00aa77b4805fffcb7fdffffffenat), g));
    vstd::arithmetic::div_mod::lemma_fundamental_div_mod_converse(0x128c2776111d9c0cdac34bebef82863179dc47fdb8e253911634b89eb2ded621int * 7, modulus(), 0x1int, 0xde76ce74e31c711c81d3b6b82efd355014853ed0e31ecf89b710c57e417dae6int);
    assert(fpow(g, 0xe7db4ea6533afa906673b0101343b00aa77b4805fffcb7fdfffffffnat) == 0xde76ce74e31c711c81d3b6b82efd355014853ed0e31ecf89b710c57e417dae6int);
}

/// A stretch of the square-and-multiply computation of the root of unity.
proof fn lemma_root_chain_29()
    requires
        fpow(generator_value(), 0xe7db4ea6533afa906673b0101343b00aa77b4805fffcb7fdfffffffnat) == 0xde76ce74e31c711c81d3b6b82efd355014853ed0e31ecf89b710c57e417dae6int,
    ensures
        fpow(generator_value(), 0x73eda753299d7d483339d80809a1d80553bda402fffe5bfeffffffffnat) == 0x16a2a19edfe81f20d09b681922c813b4b63683508c2280b93829971f439f0d2bint,
{
    let g = generator_value();
    assert(modulus() == 0x73eda753299d7d483339d80809a1d80553bda402fffe5bfeffffffff00000001int);
    lemma_fpow_double(g, 0xe7db4ea6533afa906673b0101343b00aa77b4805fffcb7fdfffffffnat);
    assert(0x1cfb69d4ca675f520cce76020268760154ef6900bfff96ffbffffffenat == 2 * 0xe7db4ea6533afa906673b0101343b00aa77b4805fffcb7fdfffffffnat);
    vstd::arithmetic::div_mod::lemma_fundamental_div_mod_converse(0xde76ce74e31c711c81d3b6b82efd355014853ed0e31ecf89b710c57e417dae6int * 0xde76ce74e31c711c81d3b6b82efd355014853ed0e31ecf89b710c57e417dae6int, modulus(), 0x1aae76cec7106f99d7a8d62975fa6aec45d15f6bd47646259f62c0818aa5024int, 0x178efdcf44160c400927fe7eb832216ff742f225314f11a91b6fc92a7d63680int);
    assert(fpow(g, 0x1cfb69d4ca675f520cce76020268760154ef6900bfff96ffbffffffenat) == 0x178efdcf44160c400927fe7eb832216ff742f225314f11a91b6fc92a7d63680int);
    assert(fpow(g, 0x1cfb69d4ca675f520cce76020268760154ef6900bfff96ffbfffffffnat) == fmul(fpow(g, 0x1cfb69d4ca675f520cce76020268760154ef6900bfff96ffbffffffenat), g));
    vstd::arithmetic::div_mod::lemma_fundamental_div_mod_converse(0x178efdcf44160c400927fe7eb832216ff742f225314f11a91b6fc92a7d63680int * 7, modulus(), 0x0int, 0xa4e8f0aadc9a55c04017f577095eea0fc2d49f0459297b9fc00e80296db7d80int);
    assert(fpow(g, 0x1cfb69d4ca675f520cce76020268760154ef6900bfff96ffbfffffffnat) == 0xa4e8f0aadc9a55c04017f577095eea0fc2d49f0459297b9fc00e80296db7d80int);
    lemma_fpow_double(g, 0x1cfb69d4ca675f520cce76020268760154ef6900bfff96ffbfffffffnat);
    assert(0x39f6d3a994cebea4199cec0404d0ec02a9ded2017fff2dff7ffffffenat == 2 * 0x1cfb69d4ca675f520cce76020268760154ef6900bfff96ffbfffffffnat);
    vstd::arithmetic::div_mod::lemma_fundamental_div_mod_converse(0xa4e8f0aadc9a55c04017f577095eea0fc2d49f0459297b9fc00e80296db7d80int * 0xa4e8f0aadc9a55c04017f577095eea0fc2d49f0459297b9fc00e80296db7d80int, modulus(), 0xea9646ec3729f840541e9607c436804e7dbb4abb430ad20252b26fbacc3b51int, 0x6fcc938cf64892279e47b40a0bfb337d7b1e98f81bb9fa77404572233bba04afint);
    assert(fpow(g, 0x39f6d3a994cebea4199cec0404d0ec02a9ded2017fff2dff7ffffffenat) == 0x6fcc938cf64892279e47b40a0bfb337d7b1e98f81bb9fa77404572233bba04afint);
    assert(fpow(g, 0x39f6d3a994cebea4199cec0404d0ec02a9ded2017fff2dff7fffffffnat) == fmul(fpow(g, 0x39f6d3a994cebea4199cec0404d0ec02a9ded2017fff2dff7ffffffenat), g));
    vstd::arithmetic::div_mod::lemma_fundamental_div_mod_converse(0x6fcc938cf64892279e47b40a0bfb337d7b1e98f81bb9fa77404572233bba04afint * 7, modulus(), 0x6int, 0x57061ce7c24b0f64209adc161a13584e676456b6c21fb148c1e61efca21620c3int);
    assert(fpow(g, 0x39f6d3a994cebea4199cec0404d0ec02a9ded2017fff2dff7fffffffnat) == 0x57061ce7c24b0f64209adc161a13584e676456b6c21fb148c1e61efca21620c3int);
    lemma_fpow_double(g, 0x39f6d3a994cebea4199cec0404d0ec02a9ded2017fff2dff7fffffffnat);
    assert(0x73eda753299d7d483339d80809a1d80553bda402fffe5bfefffffffenat == 2 * 0x39f6d3a994cebea4199cec0404d0ec02a9ded2017fff2dff7fffffffnat);
    vstd::arithmetic::div_mod::lemma_fundamental_div_mod_converse(0x57061ce7c24b0f64209adc161a13584e676456b6c21fb148c1e61efca21620c3int * 0x57061ce7c24b0f64209adc161a13584e676456b6c21fb148c1e61efca21620c3int, modulus(), 0x415380a4f48f427bc8675ad5b4364147e219bb7a3c6b44c28891bd7db130e4f0int, 0x457a76b3ee9fb9c03b12aee39cc2351cdc2b02c41403fdd0bee15ebac0846f99int);
    assert(fpow(g, 0x73eda753299d7d483339d80809a1d80553bda402fffe5bfefffffffenat) == 0x457a76b3ee9fb9c03b12aee39cc2351cdc2b02c41403fdd0bee15ebac0846f99int);
    assert(fpow(g, 0x73eda753299d7d483339d80809a1d80553bda402fffe5bfeffffffffnat) == fmul(fpow(g, 0x73eda753299d7d483339d80809a1d80553bda402fffe5bfefffffffenat), g));
    vstd::arithmetic::div_mod::lemma_fundamental_div_mod_converse(0x457a76b3ee9fb9c03b12aee39cc2351cdc2b02c41403fdd0bee15ebac0846f99int * 7, modulus(), 0x4int, 0x16a2a19edfe81f20d09b681922c813b4b63683508c2280b93829971f439f0d2bint);
    assert(fpow(g, 0x73eda753299d7d483339d80809a1d80553bda402fffe5bfeffffffffnat) == 0x16a2a19edfe81f20d09b681922c813b4b63683508c2280b93829971f439f0d2bint);
}

/// The fixed root of unity is the generator raised to `(modulus - 1) / 2^32`,
/// by computation: square-and-multiply along the exponent's bits.
pub proof fn lemma_root_of_unity_value()
    ensures
        root_of_unity_value() == fpow(generator_value(), ((modulus() - 1) / 0x1_0000_0000int) as nat),
{
    assert(modulus() == 0x73eda753299d7d483339d80809a1d80553bda402fffe5bfeffffffff00000001int);
    vstd::arithmetic::div_mod::lemma_fundamental_div_mod_converse(modulus() - 1, 0x1_0000_0000int, 0x73eda753299d7d483339d80809a1d80553bda402fffe5bfeffffffffint, 0);
    reveal_with_fuel(fpow, 2);
    assert(fpow(generator_value(), 1) == 7) by {
        vstd::arithmetic::div_mod::lemma_small_mod(7, modulus() as nat);
    }
    lemma_root_chain_0();
    lemma_root_chain_1();
    lemma_root_chain_2();
    lemma_root_chain_3();
    lemma_root_chain_4();
    lemma_root_chain_5();
    lemma_root_chain_6();
    lemma_root_chain_7();
    lemma_root_chain_8();
    lemma_root_chain_9();
    lemma_root_chain_10();
    lemma_root_chain_11();
    lemma_root_chain_12();
    lemma_root_chain_13();
    lemma_root_chain_14();
    lemma_root_chain_15();
    lemma_root_chain_16();
    lemma_root_chain_17();
    lemma_root_chain_18();
    lemma_root_chain_19();
    lemma_root_chain_20();
    lemma_root_chain_21();
    lemma_root_chain_22();
    lemma_root_chain_23();
    lemma_root_chain_24();
    lemma_root_chain_25();
    lemma_root_chain_26();
    lemma_root_chain_27();
    lemma_root_chain_28();
    lemma_root_chain_29();
    assert(root_of_unity_value() == 0x16a2a19edfe81f20d09b681922c813b4b63683508c2280b93829971f439f0d2bint);
}

/// An element of the scalar field.
#[derive(Clone, Copy)]
pub struct Fr {
    pub(crate) inner: bls12_381::Scalar,
    value: Ghost<int>,
}

impl Fr {
    /// The canonical value of this element, in `[0, modulus)`.
    pub closed spec fn val(self) -> int {
        self.value@
    }

    /// Values are canonical.
    #[verifier::type_invariant]
    spec fn canonical(self) -> bool {
        0 <= self.value@ < modulus()
    }

    /// Every element's value lies in `[0, modulus)`; this call only makes
    /// that fact available to a proof.
    pub fn note_canonical(&self)
        ensures
            0 <= self.val() < modulus(),
    {
        proof {
            use_type_invariant(self);
        }
    }

    /// Relies on `bls12_381::Scalar::zero`: the additive identity.
    #[verifier::external_body]
    pub fn zero() -> (r: Fr)
        ensures
            r.val() == 0,
    {
        Fr { inner: bls12_381::Scalar::zero(), value: Ghost(0) }
    }

    /// Relies on `bls12_381::Scalar::one`: the multiplicative identity.
    #[verifier::external_body]
    pub fn one() -> (r: Fr)
        ensures
            r.val() == 1,
    {
        Fr { inner: bls12_381::Scalar::one(), value: Ghost(1) }
    }

    /// Relies on `From<u64> for bls12_381::Scalar`: the element that an
    /// integer stands for.
    #[verifier::external_body]
    pub fn from_u64(v: u64) -> (r: Fr)
        ensures
            r.val() == v as int,
    {
        Fr { inner: bls12_381::Scalar::from(v), value: Ghost(v as int) }
    }

    /// The fixed multiplicative generator.
    pub fn multiplicative_generator() -> (r: Fr)
        ensures
            r.val() == generator_value(),
    {
        Fr::from_u64(7)
    }

    /// Relies on `PrimeField::root_of_unity` of `bls12_381::Scalar`: the
    /// constant documented as `GENERATOR^t` with `t * 2^32 + 1 = q` and
    /// `GENERATOR = 7`.
    #[verifier::external_body]
    pub fn root_of_unity() -> (r: Fr)
        ensures
            r.val() == fpow(generator_value(), ((modulus() - 1) / 0x1_0000_0000int) as nat),
    {
        Fr {
            inner: bls12_381::Scalar::root_of_unity(),
            value: Ghost(fpow(generator_value(), ((modulus() - 1) / 0x1_0000_0000int) as nat)),
        }
    }

    /// Relies on the field addition of `bls12_381::Scalar`.
    #[verifier::external_body]
    pub fn add(&self, o: &Fr) -> (r: Fr)
        ensures
            r.val() == fadd(self.val(), o.val()),
    {
        Fr { inner: self.inner + o.inner, value: Ghost(fadd(self.value@, o.value@)) }
    }

    /// Relies on the field subtraction of `bls12_381::Scalar`.
    #[verifier::external_body]
    pub fn sub(&self, o: &Fr) -> (r: Fr)
        ensures
            r.val() == fsub(self.val(), o.val()),
    {
        Fr { inner: self.inner - o.inner, value: Ghost(fsub(self.value@, o.value@)) }
    }

    /// Relies on the field multiplication of `bls12_381::Scalar`.
    #[verifier::external_body]
    pub fn mul(&self, o: &Fr) -> (r: Fr)
        ensures
            r.val() == fmul(self.val(), o.val()),
    {
        Fr { inner: self.inner * o.inner, value: Ghost(fmul(self.value@, o.value@)) }
    }

    /// Relies on `bls12_381::Scalar::neg`: the additive inverse.
    #[verifier::external_body]
    pub fn neg(&self) -> (r: Fr)
        ensures
            r.val() == fsub(0, self.val()),
    {
        Fr { inner: -self.inner, value: Ghost(fsub(0, self.value@)) }
    }

    /// Relies on `bls12_381::Scalar::pow_vartime`: the power by a
    /// little-endian exponent, here one of 64 bits.
    #[verifier::external_body]
    pub fn pow_vartime(&self, e: u64) -> (r: Fr)
        ensures
            r.val() == fpow(self.val(), e as nat),
    {
        Fr { inner: self.inner.pow_vartime(&[e, 0, 0, 0]), value: Ghost(fpow(self.value@, e as nat)) }
    }

    /// Relies on `bls12_381::Scalar::invert`: the inverse, absent for zero.
    #[verifier::external_body]
    pub fn invert(&self) -> (r: Option<Fr>)
        ensures
            r.is_some() <==> self.val() != 0,
            r.is_some() ==> fmul(r.unwrap().val(), self.val()) == 1,
            r.is_some() ==> r.unwrap().val() == finv(self.val()),
    {
        let v = Ghost(finv(self.value@));
        Option::from(self.inner.invert()).map(|x: bls12_381::Scalar| Fr { inner: x, value: v })
    }

    /// Relies on `bls12_381::Scalar::from_bytes_wide`: a 512-bit
    /// little-endian integer reduced modulo the field order.
    #[verifier::external_body]
    pub fn from_bytes_wide(b: &[u8; 64]) -> (r: Fr)
        ensures
            r.val() == le_int(b@) % modulus(),
    {
        Fr { inner: bls12_381::Scalar::from_bytes_wide(b), value: Ghost(le_int(b@) % modulus()) }
    }

    /// Relies on `bls12_381::Scalar::to_bytes` (the field's `to_repr`): the
    /// canonical little-endian representation.
    #[verifier::external_body]
    pub fn to_repr(&self) -> (r: [u8; 32])
        ensures
            r@ == repr_bytes(self.val()),
    {
        self.inner.to_bytes()
    }

    /// The square of this element.
    pub fn square(&self) -> (r: Fr)
        ensures
            r.val() == fmul(self.val(), self.val()),
    {
        self.mul(self)
    }

    /// Relies on `Field::is_zero` of `bls12_381::Scalar`.
    #[verifier::external_body]
    pub fn is_zero(&self) -> (r: bool)
        ensures
            r == (self.val() == 0),
    {
        bool::from(self.inner.is_zero())
    }

    /// Relies on `PartialEq for bls12_381::Scalar`: equality of field elements.
    #[verifier::external_body]
    pub fn equals(&self, o: &Fr) -> (r: bool)
        ensures
            r == (self.val() == o.val()),
    {
        self.inner == o.inner
    }
}

} // verus!
