//! Composite shapes: the records that combine two shapes, and the trees that
//! describe such combinations before they are flattened.

use vstd::prelude::*;
use crate::layout::Packed;
use crate::scalar::{Scalar, ONE_BITS};
use crate::shapes::cuboid::Cuboid;
use crate::shapes::sphere::Sphere;
use crate::shapes::{ShapeProperties, CUBOID_KIND, SPHERE_KIND};

verus! {

/// Words to a composite record.
pub const COMPOSIT_WORDS: usize = 4;

/// Operator tag of a union.
pub const UNION_OP: u32 = 0;

/// Operator tag of an intersection.
pub const INTERSECTION_OP: u32 = 1;

/// Operator tag of a difference.
pub const DIFFERENCE_OP: u32 = 2;

/// Operator tag of a smooth blend.
pub const BLEND_OP: u32 = 3;

/// One binary operation: the directory indices of its two operands, the
/// operator tag, and the blend factor (one for the boolean operators).
#[derive(Clone, Copy, Debug, PartialEq, Eq, Structural)]
pub struct Composit {
    pub a: u32,
    pub b: u32,
    pub comp_type: u32,
    pub alpha: Scalar,
}

impl Composit {
    /// The record that applies operator `comp_type` to the shapes at
    /// directory indices `a` and `b`.
    pub fn new(a: u32, b: u32, comp_type: u32, alpha: Scalar) -> (c: Composit)
        ensures
            c == (Composit { a, b, comp_type, alpha }),
    {
        Composit { a, b, comp_type, alpha }
    }
}

impl Packed for Composit {
    open spec fn words(&self) -> Seq<u32> {
        seq![self.a, self.b, self.comp_type, self.alpha.bits]
    }

    open spec fn stride() -> nat {
        COMPOSIT_WORDS as nat
    }

    proof fn lemma_stride(&self) {
    }

    fn pack(&self, out: &mut Vec<u32>) {
        out.push(self.a);
        out.push(self.b);
        out.push(self.comp_type);
        out.push(self.alpha.bits);
        assert(out@ =~= old(out)@ + self.words());
    }
}

/// A shape described as a tree: primitives at the leaves, a binary operator
/// at every inner node. These six variants are all there is, so a tree
/// cannot be malformed.
#[allow(non_camel_case_types)]
pub enum CompositDescriptor {
    CUBOID(Cuboid, ShapeProperties),
    SPHERE(Sphere, ShapeProperties),
    UNION(Box<CompositDescriptor>, Box<CompositDescriptor>),
    BLEND(Box<CompositDescriptor>, Box<CompositDescriptor>, Scalar),
    INTERSECTION(Box<CompositDescriptor>, Box<CompositDescriptor>),
    DIFFERENCE(Box<CompositDescriptor>, Box<CompositDescriptor>),
}

impl CompositDescriptor {
    /// The two subtrees of an operator node, left first; `None` at a leaf.
    pub open spec fn children(&self) -> Option<(CompositDescriptor, CompositDescriptor)> {
        match self {
            CompositDescriptor::CUBOID(_, _) => None,
            CompositDescriptor::SPHERE(_, _) => None,
            CompositDescriptor::UNION(l, r) => Some((**l, **r)),
            CompositDescriptor::BLEND(l, r, _) => Some((**l, **r)),
            CompositDescriptor::INTERSECTION(l, r) => Some((**l, **r)),
            CompositDescriptor::DIFFERENCE(l, r) => Some((**l, **r)),
        }
    }

    /// Whether the tree is a single primitive.
    pub open spec fn is_leaf(&self) -> bool {
        self.children().is_none()
    }

    /// The kind tag of a leaf.
    pub open spec fn leaf_kind(&self) -> u32 {
        match self {
            CompositDescriptor::CUBOID(_, _) => CUBOID_KIND,
            _ => SPHERE_KIND,
        }
    }

    /// The operator tag of an operator node.
    pub open spec fn operator(&self) -> u32 {
        match self {
            CompositDescriptor::UNION(_, _) => UNION_OP,
            CompositDescriptor::INTERSECTION(_, _) => INTERSECTION_OP,
            CompositDescriptor::DIFFERENCE(_, _) => DIFFERENCE_OP,
            _ => BLEND_OP,
        }
    }

    /// The blend factor of an operator node: the one given for a blend, one
    /// for the boolean operators.
    pub open spec fn blend(&self) -> Scalar {
        match self {
            CompositDescriptor::BLEND(_, _, alpha) => *alpha,
            _ => Scalar { bits: ONE_BITS },
        }
    }

    /// Number of operator nodes in the tree.
    pub open spec fn operators(&self) -> nat
        decreases self,
    {
        match self.children() {
            Some((l, r)) => l.operators() + r.operators() + 1,
            None => 0,
        }
    }

    /// Number of leaves in the tree.
    pub open spec fn leaves(&self) -> nat
        decreases self,
    {
        match self.children() {
            Some((l, r)) => l.leaves() + r.leaves(),
            None => 1,
        }
    }

    /// Number of nodes in the tree, leaves and operators together.
    pub open spec fn nodes(&self) -> nat {
        self.leaves() + self.operators()
    }

    /// The two subtrees of an operator node, left first; `None` at a leaf.
    pub fn operands(&self) -> (pair: Option<(&CompositDescriptor, &CompositDescriptor)>)
        ensures
            match pair {
                Some((l, r)) => self.children() == Some((*l, *r)),
                None => self.children().is_none(),
            },
    {
        match self {
            CompositDescriptor::CUBOID(_, _) => None,
            CompositDescriptor::SPHERE(_, _) => None,
            CompositDescriptor::UNION(l, r) => Some((&**l, &**r)),
            CompositDescriptor::BLEND(l, r, _) => Some((&**l, &**r)),
            CompositDescriptor::INTERSECTION(l, r) => Some((&**l, &**r)),
            CompositDescriptor::DIFFERENCE(l, r) => Some((&**l, &**r)),
        }
    }

    /// The operator tag of an operator node.
    pub fn op_code(&self) -> (tag: u32)
        ensures
            tag == self.operator(),
    {
        match self {
            CompositDescriptor::UNION(_, _) => UNION_OP,
            CompositDescriptor::INTERSECTION(_, _) => INTERSECTION_OP,
            CompositDescriptor::DIFFERENCE(_, _) => DIFFERENCE_OP,
            _ => BLEND_OP,
        }
    }

    /// The blend factor of an operator node.
    pub fn blend_factor(&self) -> (alpha: Scalar)
        ensures
            alpha == self.blend(),
    {
        match self {
            CompositDescriptor::BLEND(_, _, alpha) => *alpha,
            _ => Scalar::one(),
        }
    }

    /// Counts the nodes of the tree, giving up as soon as there are more
    /// than `limit`: `Some` of the count if it is at most `limit`, `None` if
    /// it is greater.
    pub fn nodes_within(&self, limit: u32) -> (count: Option<u32>)
        ensures
            match count {
                Some(n) => n == self.nodes() && n <= limit,
                None => self.nodes() > limit,
            },
        decreases self,
    {
        match self.operands() {
            None => if limit >= 1 {
                Some(1)
            } else {
                None
            },
            Some((l, r)) => {
                let left: u32 = match l.nodes_within(limit) {
                    Some(n) => n,
                    None => {
                        return None;
                    },
                };
                let right: u32 = match r.nodes_within(limit - left) {
                    Some(n) => n,
                    None => {
                        return None;
                    },
                };
                if left + right < limit {
                    Some(left + right + 1)
                } else {
                    None
                }
            },
        }
    }
}

} // verus!
