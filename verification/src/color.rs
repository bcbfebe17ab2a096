//! Surface colour of a shape.

use vstd::prelude::*;
use crate::scalar::Scalar;

verus! {

/// A colour as red, green and blue intensities.
#[derive(Clone, Copy, Debug, PartialEq, Eq, Structural)]
pub struct Color(pub Scalar, pub Scalar, pub Scalar);

impl Color {
    /// The three intensities as words, red first.
    pub open spec fn words(&self) -> Seq<u32> {
        seq![self.0.bits, self.1.bits, self.2.bits]
    }
}

} // verus!
