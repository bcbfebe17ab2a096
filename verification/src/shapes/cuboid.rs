//! Cuboid primitives.

use vstd::prelude::*;
use crate::layout::Packed;
use crate::scalar::{Scalar, ZERO_BITS};

verus! {

/// Words to a cuboid record.
pub const CUBOID_WORDS: usize = 20;

/// A cuboid: its centre, its half-extents along its own axes, and the
/// rotation that turns those axes, as three rows of four numbers.
#[derive(Clone, Copy, Debug, PartialEq, Eq)]
pub struct Cuboid {
    pub position: [Scalar; 3],
    pub scaling: [Scalar; 3],
    pub rotation: [[Scalar; 4]; 3],
}

impl Cuboid {
    /// The cuboid with the given centre, half-extents and rotation rows.
    pub fn new(position: [Scalar; 3], scaling: [Scalar; 3], rotation: [[Scalar; 4]; 3]) -> (c:
        Cuboid)
        ensures
            c.position == position,
            c.scaling == scaling,
            c.rotation == rotation,
    {
        Cuboid { position, scaling, rotation }
    }

    /// The four words of one rotation row.
    pub open spec fn row_words(&self, r: int) -> Seq<u32> {
        seq![
            self.rotation[r][0].bits,
            self.rotation[r][1].bits,
            self.rotation[r][2].bits,
            self.rotation[r][3].bits,
        ]
    }
}

impl Packed for Cuboid {
    /// Centre and half-extents are each followed by one word of padding, so
    /// that every group of the record starts on a 16-byte boundary.
    open spec fn words(&self) -> Seq<u32> {
        seq![
            self.position[0].bits,
            self.position[1].bits,
            self.position[2].bits,
            ZERO_BITS,
            self.scaling[0].bits,
            self.scaling[1].bits,
            self.scaling[2].bits,
            ZERO_BITS,
        ] + self.row_words(0) + self.row_words(1) + self.row_words(2)
    }

    open spec fn stride() -> nat {
        CUBOID_WORDS as nat
    }

    proof fn lemma_stride(&self) {
    }

    fn pack(&self, out: &mut Vec<u32>) {
        out.push(self.position[0].bits);
        out.push(self.position[1].bits);
        out.push(self.position[2].bits);
        out.push(ZERO_BITS);
        out.push(self.scaling[0].bits);
        out.push(self.scaling[1].bits);
        out.push(self.scaling[2].bits);
        out.push(ZERO_BITS);
        let r0 = self.rotation[0];
        out.push(r0[0].bits);
        out.push(r0[1].bits);
        out.push(r0[2].bits);
        out.push(r0[3].bits);
        let r1 = self.rotation[1];
        out.push(r1[0].bits);
        out.push(r1[1].bits);
        out.push(r1[2].bits);
        out.push(r1[3].bits);
        let r2 = self.rotation[2];
        out.push(r2[0].bits);
        out.push(r2[1].bits);
        out.push(r2[2].bits);
        out.push(r2[3].bits);
        assert(out@ =~= old(out)@ + self.words());
    }
}

} // verus!
