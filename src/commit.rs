//! Pedersen commitments to vectors of scalars in G1.
use crate::curve::{g1_add, g1_msm, g1_mul, g1_views, multiexp, G1};
use crate::field::{vals, Fr};
use vstd::prelude::*;

pub mod cp_link;

verus! {

/// A commitment key: one base per vector position and a blinding base.
pub struct CommitKey {
    pub generators: Vec<G1>,
    pub blind_generator: G1,
}

/// The Pedersen commitment `sum_i x[i] g[i] + r h` under bases `g` and `h`.
pub open spec fn pedersen(g: Seq<Seq<u8>>, h: Seq<u8>, x: Seq<int>, r: int) -> Seq<u8> {
    g1_add(g1_msm(g, x, x.len()), g1_mul(h, r))
}

impl CommitKey {
    /// A key with the given bases.
    pub fn new(generators: Vec<G1>, blind_generator: G1) -> (r: CommitKey)
        ensures
            r.generators@ == generators@,
            r.blind_generator == blind_generator,
    {
        CommitKey { generators, blind_generator }
    }

    /// Commits to `values` with blinding factor `blind`.
    pub fn commit(&self, values: &Vec<Fr>, blind: &Fr) -> (r: G1)
        requires
            values@.len() <= self.generators@.len(),
        ensures
            r@ == pedersen(g1_views(self.generators@), self.blind_generator@, vals(values@), blind.val()),
    {
        let commitment = multiexp(self.generators.as_slice(), values.as_slice());
        let b = self.blind_generator.mul(blind);
        commitment.add(&b)
    }
}

} // verus!
