//! The groups G1 and G2 of BLS12-381, with each point held as its
//! uncompressed affine encoding, and the multi-pairing check.
use crate::field::{vals, Fr};
use group::Curve;
use group::Group;
use pairing::{MillerLoopResult, MultiMillerLoop};
use vstd::prelude::*;

verus! {

/// The sum of two G1 points, on their encodings.
pub uninterp spec fn g1_add(a: Seq<u8>, b: Seq<u8>) -> Seq<u8>;

/// The negation of a G1 point, on its encoding.
pub uninterp spec fn g1_neg(a: Seq<u8>) -> Seq<u8>;

/// A G1 point multiplied by a scalar (given by its canonical value).
pub uninterp spec fn g1_mul(a: Seq<u8>, s: int) -> Seq<u8>;

/// Whether 96 bytes decode as a G1 point; with `checked`, also that the
/// point is on the curve and in the prime-order subgroup.
pub uninterp spec fn g1_decodes(b: Seq<u8>, checked: bool) -> bool;

/// The sum of two G2 points, on their encodings.
pub uninterp spec fn g2_add(a: Seq<u8>, b: Seq<u8>) -> Seq<u8>;

/// The negation of a G2 point, on its encoding.
pub uninterp spec fn g2_neg(a: Seq<u8>) -> Seq<u8>;

/// A G2 point multiplied by a scalar (given by its canonical value).
pub uninterp spec fn g2_mul(a: Seq<u8>, s: int) -> Seq<u8>;

/// The fixed generator of G2 multiplied by a scalar (given by its canonical value).
pub uninterp spec fn g2_generator_mul(s: int) -> Seq<u8>;

/// Whether 192 bytes decode as a G2 point; with `checked`, also that the
/// point is on the curve and in the prime-order subgroup.
pub uninterp spec fn g2_decodes(b: Seq<u8>, checked: bool) -> bool;

/// Whether the product of the pairings of the pairs `(g1s[i], g2s[i])` is
/// the identity of GT.
pub uninterp spec fn pairing_product_is_one(g1s: Seq<Seq<u8>>, g2s: Seq<Seq<u8>>) -> bool;

/// The compressed encoding of a G1 point given by its uncompressed encoding.
pub uninterp spec fn g1_compress(a: Seq<u8>) -> Seq<u8>;

/// Whether 48 bytes decode as a compressed G1 point; with `checked`, also
/// that it is in the prime-order subgroup.
pub uninterp spec fn g1_decompresses(b: Seq<u8>, checked: bool) -> bool;

/// The uncompressed encoding of the G1 point that 48 compressed bytes decode to.
pub uninterp spec fn g1_decompress(b: Seq<u8>) -> Seq<u8>;

/// The compressed encoding of a G2 point given by its uncompressed encoding.
pub uninterp spec fn g2_compress(a: Seq<u8>) -> Seq<u8>;

/// Whether 96 bytes decode as a compressed G2 point; with `checked`, also
/// that it is in the prime-order subgroup.
pub uninterp spec fn g2_decompresses(b: Seq<u8>, checked: bool) -> bool;

/// The uncompressed encoding of the G2 point that 96 compressed bytes decode to.
pub uninterp spec fn g2_decompress(b: Seq<u8>) -> Seq<u8>;

/// The uncompressed encoding of the identity in a group whose encodings
/// take `len` bytes: the infinity flag, then zeros.
pub open spec fn identity_encoding(len: nat) -> Seq<u8> {
    Seq::new(len, |i: int| if i == 0 { 0x40u8 } else { 0u8 })
}

/// A point of G1, held as its 96-byte uncompressed encoding.
#[derive(Clone, Copy, Debug, PartialEq, Eq)]
pub struct G1 {
    bytes: [u8; 96],
}

/// A point of G2, held as its 192-byte uncompressed encoding.
#[derive(Clone, Copy, Debug, PartialEq, Eq)]
pub struct G2 {
    bytes: [u8; 192],
}

impl View for G1 {
    type V = Seq<u8>;

    closed spec fn view(&self) -> Seq<u8> {
        self.bytes@
    }
}

impl View for G2 {
    type V = Seq<u8>;

    closed spec fn view(&self) -> Seq<u8> {
        self.bytes@
    }
}

/// The encodings of a sequence of G1 points.
pub open spec fn g1_views(s: Seq<G1>) -> Seq<Seq<u8>> {
    s.map_values(|p: G1| p@)
}

/// The encodings of a sequence of G2 points.
pub open spec fn g2_views(s: Seq<G2>) -> Seq<Seq<u8>> {
    s.map_values(|p: G2| p@)
}

impl G1 {
    /// Relies on `G1Affine::to_compressed`: the compressed encoding.
    #[verifier::external_body]
    pub fn to_compressed(&self) -> (r: [u8; 48])
        ensures
            r@ == g1_compress(self@),
    {
        bls12_381::G1Affine::from_uncompressed_unchecked(&self.bytes).unwrap_or(bls12_381::G1Affine::identity()).to_compressed()
    }

    /// Relies on `G1Affine::from_compressed` (with `checked`) and
    /// `G1Affine::from_compressed_unchecked`: a point is accepted exactly
    /// when the bytes decode.
    #[verifier::external_body]
    pub fn from_compressed(b: &[u8], checked: bool) -> (r: Option<G1>)
        requires
            b@.len() == 48,
        ensures
            r is Some <==> g1_decompresses(b@, checked),
            r matches Some(p) ==> p@ == g1_decompress(b@),
    {
        let b: &[u8; 48] = b.try_into().unwrap();
        let p = if checked {
            bls12_381::G1Affine::from_compressed(b)
        } else {
            bls12_381::G1Affine::from_compressed_unchecked(b)
        };
        Option::from(p).map(|p: bls12_381::G1Affine| G1 { bytes: p.to_uncompressed() })
    }

    /// The encoding has its fixed length.
    pub proof fn lemma_len(&self)
        ensures
            self@.len() == 96,
    {
    }

    /// The uncompressed encoding.
    pub fn to_uncompressed(&self) -> (r: [u8; 96])
        ensures
            r@ == self@,
    {
        self.bytes
    }

    /// Relies on `G1Affine::identity` and `G1Affine::to_uncompressed`: the
    /// point at infinity is encoded as the infinity flag and zeros.
    #[verifier::external_body]
    pub fn identity() -> (r: G1)
        ensures
            r@ == identity_encoding(96),
    {
        G1 { bytes: bls12_381::G1Affine::identity().to_uncompressed() }
    }

    /// Relies on `G1Affine::from_uncompressed` (with `checked`) and
    /// `G1Affine::from_uncompressed_unchecked`: a point is accepted exactly
    /// when the bytes decode, and an accepted encoding is canonical, so it is
    /// kept as it is.
    #[verifier::external_body]
    pub fn from_uncompressed(b: &[u8], checked: bool) -> (r: Option<G1>)
        requires
            b@.len() == 96,
        ensures
            r is Some <==> g1_decodes(b@, checked),
            r matches Some(p) ==> p@ == b@,
    {
        let b: &[u8; 96] = b.try_into().unwrap();
        let p = if checked {
            bls12_381::G1Affine::from_uncompressed(b)
        } else {
            bls12_381::G1Affine::from_uncompressed_unchecked(b)
        };
        Option::from(p).map(|p: bls12_381::G1Affine| G1 { bytes: p.to_uncompressed() })
    }

    /// Relies on the point addition of `bls12_381::G1Affine`.
    #[verifier::external_body]
    pub fn add(&self, o: &G1) -> (r: G1)
        ensures
            r@ == g1_add(self@, o@),
            g1_decodes(r@, false),
    {
        let a = bls12_381::G1Affine::from_uncompressed_unchecked(&self.bytes).unwrap_or(bls12_381::G1Affine::identity());
        let b = bls12_381::G1Affine::from_uncompressed_unchecked(&o.bytes).unwrap_or(bls12_381::G1Affine::identity());
        G1 { bytes: (bls12_381::G1Projective::from(a) + b).to_affine().to_uncompressed() }
    }

    /// Relies on the point negation of `bls12_381::G1Affine`.
    #[verifier::external_body]
    pub fn neg(&self) -> (r: G1)
        ensures
            r@ == g1_neg(self@),
            g1_decodes(r@, false),
    {
        let a = bls12_381::G1Affine::from_uncompressed_unchecked(&self.bytes).unwrap_or(bls12_381::G1Affine::identity());
        G1 { bytes: (-a).to_uncompressed() }
    }

    /// Relies on the scalar multiplication of `bls12_381::G1Affine`.
    #[verifier::external_body]
    pub fn mul(&self, s: &Fr) -> (r: G1)
        ensures
            r@ == g1_mul(self@, s.val()),
            g1_decodes(r@, false),
    {
        let a = bls12_381::G1Affine::from_uncompressed_unchecked(&self.bytes).unwrap_or(bls12_381::G1Affine::identity());
        G1 { bytes: (a * s.inner).to_affine().to_uncompressed() }
    }

    /// Whether this is the point at infinity.
    pub fn is_identity(&self) -> (r: bool)
        ensures
            r == (self@ == identity_encoding(96)),
    {
        let mut i: usize = 0;
        while i < 96
            invariant
                i <= 96,
                self.bytes@.len() == 96,
                forall|t: int| 0 <= t < i ==> self.bytes@[t] == identity_encoding(96)[t],
            decreases 96 - i,
        {
            let expected: u8 = if i == 0 { 0x40 } else { 0 };
            if self.bytes[i] != expected {
                return false;
            }
            i = i + 1;
        }
        assert(self.bytes@ =~= identity_encoding(96));
        true
    }
}

impl G2 {
    /// Relies on `G2Affine::to_compressed`: the compressed encoding.
    #[verifier::external_body]
    pub fn to_compressed(&self) -> (r: [u8; 96])
        ensures
            r@ == g2_compress(self@),
    {
        bls12_381::G2Affine::from_uncompressed_unchecked(&self.bytes).unwrap_or(bls12_381::G2Affine::identity()).to_compressed()
    }

    /// Relies on `G2Affine::from_compressed` (with `checked`) and
    /// `G2Affine::from_compressed_unchecked`: a point is accepted exactly
    /// when the bytes decode.
    #[verifier::external_body]
    pub fn from_compressed(b: &[u8], checked: bool) -> (r: Option<G2>)
        requires
            b@.len() == 96,
        ensures
            r is Some <==> g2_decompresses(b@, checked),
            r matches Some(p) ==> p@ == g2_decompress(b@),
    {
        let b: &[u8; 96] = b.try_into().unwrap();
        let p = if checked {
            bls12_381::G2Affine::from_compressed(b)
        } else {
            bls12_381::G2Affine::from_compressed_unchecked(b)
        };
        Option::from(p).map(|p: bls12_381::G2Affine| G2 { bytes: p.to_uncompressed() })
    }

    /// The encoding has its fixed length.
    pub proof fn lemma_len(&self)
        ensures
            self@.len() == 192,
    {
    }

    /// The uncompressed encoding.
    pub fn to_uncompressed(&self) -> (r: [u8; 192])
        ensures
            r@ == self@,
    {
        self.bytes
    }

    /// Relies on `G2Affine::identity` and `G2Affine::to_uncompressed`: the
    /// point at infinity is encoded as the infinity flag and zeros.
    #[verifier::external_body]
    pub fn identity() -> (r: G2)
        ensures
            r@ == identity_encoding(192),
    {
        G2 { bytes: bls12_381::G2Affine::identity().to_uncompressed() }
    }

    /// Relies on `G2Affine::from_uncompressed` (with `checked`) and
    /// `G2Affine::from_uncompressed_unchecked`: a point is accepted exactly
    /// when the bytes decode, and an accepted encoding is canonical, so it is
    /// kept as it is.
    #[verifier::external_body]
    pub fn from_uncompressed(b: &[u8], checked: bool) -> (r: Option<G2>)
        requires
            b@.len() == 192,
        ensures
            r is Some <==> g2_decodes(b@, checked),
            r matches Some(p) ==> p@ == b@,
    {
        let b: &[u8; 192] = b.try_into().unwrap();
        let p = if checked {
            bls12_381::G2Affine::from_uncompressed(b)
        } else {
            bls12_381::G2Affine::from_uncompressed_unchecked(b)
        };
        Option::from(p).map(|p: bls12_381::G2Affine| G2 { bytes: p.to_uncompressed() })
    }

    /// Relies on `G2Affine::generator` and the scalar multiplication of
    /// `bls12_381::G2Affine`: the fixed generator times `s`.
    #[verifier::external_body]
    pub fn generator_mul(s: &Fr) -> (r: G2)
        ensures
            r@ == g2_generator_mul(s.val()),
            g2_decodes(r@, false),
    {
        let g = bls12_381::G2Affine::generator();
        G2 { bytes: (g * s.inner).to_affine().to_uncompressed() }
    }

    /// Relies on the point addition of `bls12_381::G2Affine`.
    #[verifier::external_body]
    pub fn add(&self, o: &G2) -> (r: G2)
        ensures
            r@ == g2_add(self@, o@),
            g2_decodes(r@, false),
    {
        let a = bls12_381::G2Affine::from_uncompressed_unchecked(&self.bytes).unwrap_or(bls12_381::G2Affine::identity());
        let b = bls12_381::G2Affine::from_uncompressed_unchecked(&o.bytes).unwrap_or(bls12_381::G2Affine::identity());
        G2 { bytes: (bls12_381::G2Projective::from(a) + b).to_affine().to_uncompressed() }
    }

    /// Relies on the point negation of `bls12_381::G2Affine`.
    #[verifier::external_body]
    pub fn neg(&self) -> (r: G2)
        ensures
            r@ == g2_neg(self@),
            g2_decodes(r@, false),
    {
        let a = bls12_381::G2Affine::from_uncompressed_unchecked(&self.bytes).unwrap_or(bls12_381::G2Affine::identity());
        G2 { bytes: (-a).to_uncompressed() }
    }

    /// Relies on the scalar multiplication of `bls12_381::G2Affine`.
    #[verifier::external_body]
    pub fn mul(&self, s: &Fr) -> (r: G2)
        ensures
            r@ == g2_mul(self@, s.val()),
            g2_decodes(r@, false),
    {
        let a = bls12_381::G2Affine::from_uncompressed_unchecked(&self.bytes).unwrap_or(bls12_381::G2Affine::identity());
        G2 { bytes: (a * s.inner).to_affine().to_uncompressed() }
    }

    /// Whether this is the point at infinity.
    pub fn is_identity(&self) -> (r: bool)
        ensures
            r == (self@ == identity_encoding(192)),
    {
        let mut i: usize = 0;
        while i < 192
            invariant
                i <= 192,
                self.bytes@.len() == 192,
                forall|t: int| 0 <= t < i ==> self.bytes@[t] == identity_encoding(192)[t],
            decreases 192 - i,
        {
            let expected: u8 = if i == 0 { 0x40 } else { 0 };
            if self.bytes[i] != expected {
                return false;
            }
            i = i + 1;
        }
        assert(self.bytes@ =~= identity_encoding(192));
        true
    }
}

/// A group whose points have a fixed-length uncompressed encoding.
pub trait UncompressedEncoding: Sized {
    /// The encoding of this point.
    spec fn enc(&self) -> Seq<u8>;

    /// The length of every encoding.
    spec fn enc_len() -> nat;

    /// Whether bytes decode as a point (and, with `checked`, one in the
    /// prime-order subgroup).
    spec fn decodes(b: Seq<u8>, checked: bool) -> bool;

    /// Every encoding has the fixed length.
    proof fn lemma_enc_len(&self)
        ensures
            self.enc().len() == Self::enc_len(),
    ;

    /// The length of every encoding.
    fn encoded_len() -> (r: usize)
        ensures
            r == Self::enc_len(),
    ;

    /// Appends the encoding of this point to `out`.
    fn write_to(&self, out: &mut Vec<u8>)
        ensures
            final(out)@ == old(out)@ + self.enc(),
    ;

    /// Decodes a point from exactly `enc_len` bytes.
    fn decode(b: &[u8], checked: bool) -> (r: Option<Self>)
        requires
            b@.len() == Self::enc_len(),
        ensures
            r is Some <==> Self::decodes(b@, checked),
            r matches Some(p) ==> p.enc() == b@,
    ;

    /// Whether this is the point at infinity.
    fn is_zero(&self) -> (r: bool)
        ensures
            r == (self.enc() == identity_encoding(Self::enc_len())),
    ;
}

/// Appends `b` to `out`.
pub fn append_bytes(out: &mut Vec<u8>, b: &[u8])
    ensures
        final(out)@ == old(out)@ + b@,
{
    let mut i: usize = 0;
    while i < b.len()
        invariant
            i <= b@.len(),
            out@ == old(out)@ + b@.subrange(0, i as int),
        decreases b@.len() - i,
    {
        out.push(b[i]);
        assert(b@.subrange(0, (i + 1) as int) =~= b@.subrange(0, i as int).push(b@[i as int]));
        i = i + 1;
    }
    assert(b@.subrange(0, b@.len() as int) =~= b@);
}

impl UncompressedEncoding for G1 {
    open spec fn enc(&self) -> Seq<u8> {
        self@
    }

    open spec fn enc_len() -> nat {
        96
    }

    open spec fn decodes(b: Seq<u8>, checked: bool) -> bool {
        g1_decodes(b, checked)
    }

    proof fn lemma_enc_len(&self) {
        self.lemma_len();
    }

    fn encoded_len() -> (r: usize) {
        96
    }

    fn write_to(&self, out: &mut Vec<u8>) {
        let b = self.to_uncompressed();
        append_bytes(out, &b);
    }

    fn decode(b: &[u8], checked: bool) -> (r: Option<G1>) {
        G1::from_uncompressed(b, checked)
    }

    fn is_zero(&self) -> (r: bool) {
        self.is_identity()
    }
}

impl UncompressedEncoding for G2 {
    open spec fn enc(&self) -> Seq<u8> {
        self@
    }

    open spec fn enc_len() -> nat {
        192
    }

    open spec fn decodes(b: Seq<u8>, checked: bool) -> bool {
        g2_decodes(b, checked)
    }

    proof fn lemma_enc_len(&self) {
        self.lemma_len();
    }

    fn encoded_len() -> (r: usize) {
        192
    }

    fn write_to(&self, out: &mut Vec<u8>) {
        let b = self.to_uncompressed();
        append_bytes(out, &b);
    }

    fn decode(b: &[u8], checked: bool) -> (r: Option<G2>) {
        G2::from_uncompressed(b, checked)
    }

    fn is_zero(&self) -> (r: bool) {
        self.is_identity()
    }
}

/// The sum of `scalars[i] * bases[i]` over `i < n`, added left to right
/// starting from the identity.
pub open spec fn g1_msm(bases: Seq<Seq<u8>>, scalars: Seq<int>, n: nat) -> Seq<u8>
    decreases n,
{
    if n == 0 {
        identity_encoding(96)
    } else {
        let i = n - 1;
        g1_add(g1_msm(bases, scalars, (n - 1) as nat), g1_mul(bases[i], scalars[i]))
    }
}

/// The sum of `scalars[i] * bases[i]` in G2 over `i < n`, added left to
/// right starting from the identity.
pub open spec fn g2_msm(bases: Seq<Seq<u8>>, scalars: Seq<int>, n: nat) -> Seq<u8>
    decreases n,
{
    if n == 0 {
        identity_encoding(192)
    } else {
        let i = n - 1;
        g2_add(g2_msm(bases, scalars, (n - 1) as nat), g2_mul(bases[i], scalars[i]))
    }
}

/// The multi-scalar multiplication in G2 over the first `exps.len()` bases.
pub fn multiexp_g2(bases: &[G2], exps: &[Fr]) -> (r: G2)
    requires
        exps@.len() <= bases@.len(),
    ensures
        r@ == g2_msm(g2_views(bases@), vals(exps@), exps@.len()),
{
    let mut acc = G2::identity();
    let mut i: usize = 0;
    while i < exps.len()
        invariant
            i <= exps@.len() <= bases@.len(),
            acc@ == g2_msm(g2_views(bases@), vals(exps@), i as nat),
        decreases exps@.len() - i,
    {
        let t = bases[i].mul(&exps[i]);
        acc = acc.add(&t);
        i = i + 1;
    }
    acc
}

/// The multi-scalar multiplication `sum_i exps[i] * bases[i]` over the first
/// `exps.len()` bases.
pub fn multiexp(bases: &[G1], exps: &[Fr]) -> (r: G1)
    requires
        exps@.len() <= bases@.len(),
    ensures
        r@ == g1_msm(g1_views(bases@), vals(exps@), exps@.len()),
{
    let mut acc = G1::identity();
    let mut i: usize = 0;
    while i < exps.len()
        invariant
            i <= exps@.len() <= bases@.len(),
            acc@ == g1_msm(g1_views(bases@), vals(exps@), i as nat),
        decreases exps@.len() - i,
    {
        let t = bases[i].mul(&exps[i]);
        acc = acc.add(&t);
        i = i + 1;
    }
    acc
}

/// A group whose points also have a fixed-length compressed encoding.
pub trait CompressedEncoding: UncompressedEncoding {
    /// The compressed encoding of this point.
    spec fn cenc(&self) -> Seq<u8>;

    /// The length of every compressed encoding.
    spec fn cenc_len() -> nat;

    /// Whether bytes decode as a compressed point (and, with `checked`, one
    /// in the prime-order subgroup).
    spec fn cdecodes(b: Seq<u8>, checked: bool) -> bool;

    /// The uncompressed encoding of the point that compressed bytes decode to.
    spec fn cdecoded(b: Seq<u8>) -> Seq<u8>;

    /// The length of every compressed encoding.
    fn compressed_len() -> (r: usize)
        ensures
            r == Self::cenc_len(),
    ;

    /// Appends the compressed encoding of this point to `out`.
    fn write_compressed_to(&self, out: &mut Vec<u8>)
        ensures
            final(out)@ == old(out)@ + self.cenc(),
    ;

    /// Decodes a point from exactly `cenc_len` compressed bytes.
    fn decode_compressed(b: &[u8], checked: bool) -> (r: Option<Self>)
        requires
            b@.len() == Self::cenc_len(),
        ensures
            r is Some <==> Self::cdecodes(b@, checked),
            r matches Some(p) ==> p.enc() == Self::cdecoded(b@),
    ;
}

impl CompressedEncoding for G1 {
    open spec fn cenc(&self) -> Seq<u8> {
        g1_compress(self@)
    }

    open spec fn cenc_len() -> nat {
        48
    }

    open spec fn cdecodes(b: Seq<u8>, checked: bool) -> bool {
        g1_decompresses(b, checked)
    }

    open spec fn cdecoded(b: Seq<u8>) -> Seq<u8> {
        g1_decompress(b)
    }

    fn compressed_len() -> (r: usize) {
        48
    }

    fn write_compressed_to(&self, out: &mut Vec<u8>) {
        let b = self.to_compressed();
        append_bytes(out, &b);
    }

    fn decode_compressed(b: &[u8], checked: bool) -> (r: Option<G1>) {
        G1::from_compressed(b, checked)
    }
}

impl CompressedEncoding for G2 {
    open spec fn cenc(&self) -> Seq<u8> {
        g2_compress(self@)
    }

    open spec fn cenc_len() -> nat {
        96
    }

    open spec fn cdecodes(b: Seq<u8>, checked: bool) -> bool {
        g2_decompresses(b, checked)
    }

    open spec fn cdecoded(b: Seq<u8>) -> Seq<u8> {
        g2_decompress(b)
    }

    fn compressed_len() -> (r: usize) {
        96
    }

    fn write_compressed_to(&self, out: &mut Vec<u8>) {
        let b = self.to_compressed();
        append_bytes(out, &b);
    }

    fn decode_compressed(b: &[u8], checked: bool) -> (r: Option<G2>) {
        G2::from_compressed(b, checked)
    }
}

/// Every point decodes checked: on the curve and in the prime-order subgroup.
pub open spec fn g1s_checked(s: Seq<G1>) -> bool {
    forall|i: int| 0 <= i < s.len() ==> g1_decodes(#[trigger] s[i]@, true)
}

/// Every point decodes checked: on the curve and in the prime-order subgroup.
pub open spec fn g2s_checked(s: Seq<G2>) -> bool {
    forall|i: int| 0 <= i < s.len() ==> g2_decodes(#[trigger] s[i]@, true)
}

/// Whether every point is on the curve and in the prime-order subgroup.
pub fn all_g1_checked(s: &Vec<G1>) -> (r: bool)
    ensures
        r == g1s_checked(s@),
{
    let mut i: usize = 0;
    while i < s.len()
        invariant
            i <= s@.len(),
            forall|t: int| 0 <= t < i ==> g1_decodes(#[trigger] s@[t]@, true),
        decreases s@.len() - i,
    {
        let b = s[i].to_uncompressed();
        if G1::from_uncompressed(&b, true).is_none() {
            return false;
        }
        i = i + 1;
    }
    true
}

/// Whether every point is on the curve and in the prime-order subgroup.
pub fn all_g2_checked(s: &Vec<G2>) -> (r: bool)
    ensures
        r == g2s_checked(s@),
{
    let mut i: usize = 0;
    while i < s.len()
        invariant
            i <= s@.len(),
            forall|t: int| 0 <= t < i ==> g2_decodes(#[trigger] s@[t]@, true),
        decreases s@.len() - i,
    {
        let b = s[i].to_uncompressed();
        if G2::from_uncompressed(&b, true).is_none() {
            return false;
        }
        i = i + 1;
    }
    true
}

/// Relies on `Bls12::multi_miller_loop` followed by the final
/// exponentiation: whether the product of the pairings of the pairs is the
/// identity of GT. The final exponentiation inverts the Miller-loop value,
/// which is nonzero for points on the curve and in their subgroups; the
/// `requires` asks for exactly those.
#[verifier::external_body]
pub fn multi_pairing_is_one(g1s: &Vec<G1>, g2s: &Vec<G2>) -> (r: bool)
    requires
        g1s.len() == g2s.len(),
        g1s_checked(g1s@),
        g2s_checked(g2s@),
    ensures
        r == pairing_product_is_one(g1_views(g1s@), g2_views(g2s@)),
{
    let ps: Vec<bls12_381::G1Affine> = g1s.iter().map(|p| bls12_381::G1Affine::from_uncompressed_unchecked(&p.bytes).unwrap_or(bls12_381::G1Affine::identity())).collect();
    let qs: Vec<bls12_381::G2Prepared> = g2s.iter().map(|q| bls12_381::G2Prepared::from(bls12_381::G2Affine::from_uncompressed_unchecked(&q.bytes).unwrap_or(bls12_381::G2Affine::identity()))).collect();
    let terms: Vec<(&bls12_381::G1Affine, &bls12_381::G2Prepared)> = ps.iter().zip(qs.iter()).collect();
    bool::from(bls12_381::Bls12::multi_miller_loop(&terms).final_exponentiation().is_identity())
}

} // verus!
