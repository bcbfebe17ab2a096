//! Sphere primitives.

use vstd::prelude::*;
use crate::layout::Packed;
use crate::scalar::Scalar;

verus! {

/// Words to a sphere record.
pub const SPHERE_WORDS: usize = 4;

/// A sphere: its centre and its radius.
#[derive(Clone, Copy, Debug, PartialEq, Eq)]
pub struct Sphere {
    pub position: [Scalar; 3],
    pub radius: Scalar,
}

impl Sphere {
    /// The sphere with the given centre and radius. Any values are taken as
    /// they are, a radius of zero or less included.
    pub fn new(position: [Scalar; 3], radius: Scalar) -> (s: Sphere)
        ensures
            s.position == position,
            s.radius == radius,
    {
        Sphere { position, radius }
    }
}

impl Packed for Sphere {
    open spec fn words(&self) -> Seq<u32> {
        seq![
            self.position[0].bits,
            self.position[1].bits,
            self.position[2].bits,
            self.radius.bits,
        ]
    }

    open spec fn stride() -> nat {
        SPHERE_WORDS as nat
    }

    proof fn lemma_stride(&self) {
    }

    fn pack(&self, out: &mut Vec<u32>) {
        out.push(self.position[0].bits);
        out.push(self.position[1].bits);
        out.push(self.position[2].bits);
        out.push(self.radius.bits);
        assert(out@ =~= old(out)@ + self.words());
    }
}

} // verus!
