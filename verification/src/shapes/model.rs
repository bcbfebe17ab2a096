//! The registry as a mathematical value: four sequences, a flag and a limit,
//! with the steps that extend them.

use vstd::prelude::*;
use crate::color::Color;
use crate::scalar::{Scalar, ONE_BITS, ZERO_BITS};
use crate::shapes::composit::{Composit, CompositDescriptor};
use crate::shapes::cuboid::Cuboid;
use crate::shapes::sphere::Sphere;
use crate::shapes::{Shape, ShapeProperties, COMPOSITE_KIND, CUBOID_KIND, SPHERE_KIND};

verus! {

/// The root flag as it is stored in a shape record.
pub open spec fn flag(root: bool) -> u32 {
    if root {
        1
    } else {
        0
    }
}

/// The directory entry of a primitive: its material, its kind, and its place
/// in the table of that kind.
pub open spec fn primitive_shape(props: ShapeProperties, kind: u32, index: u32, root: bool)
    -> Shape {
    Shape {
        color: props.color,
        index,
        shape_type: kind,
        reflectivity: props.reflectivity,
        visible: flag(root),
    }
}

/// The directory entry of a composite. It carries no material of its own: a
/// renderer finds the material at the leaves.
pub open spec fn composite_shape(index: u32, root: bool) -> Shape {
    Shape {
        color: Color(
            Scalar { bits: ZERO_BITS },
            Scalar { bits: ZERO_BITS },
            Scalar { bits: ONE_BITS },
        ),
        index,
        shape_type: COMPOSITE_KIND,
        reflectivity: Scalar { bits: ZERO_BITS },
        visible: flag(root),
    }
}

/// How many of `shapes` are of kind `kind`.
pub open spec fn kind_count(shapes: Seq<Shape>, kind: u32) -> nat
    decreases shapes.len(),
{
    if shapes.len() == 0 {
        0
    } else {
        kind_count(shapes.drop_last(), kind) + if shapes.last().shape_type == kind {
            1nat
        } else {
            0nat
        }
    }
}

/// What a registry holds.
pub struct SceneView {
    /// The shape directory, in order of creation.
    pub shapes: Seq<Shape>,
    /// The sphere table.
    pub spheres: Seq<Sphere>,
    /// The cuboid table.
    pub cuboids: Seq<Cuboid>,
    /// The composite table.
    pub composits: Seq<Composit>,
    /// Whether a table has changed since the tables were last handed out.
    pub dirty: bool,
    /// The most entries that any one table may hold.
    pub capacity: nat,
}

impl SceneView {
    /// The registry with nothing in it.
    pub open spec fn empty(capacity: nat) -> SceneView {
        SceneView {
            shapes: Seq::empty(),
            spheres: Seq::empty(),
            cuboids: Seq::empty(),
            composits: Seq::empty(),
            dirty: false,
            capacity,
        }
    }

    /// How many more entries the directory can take. The directory holds one
    /// entry for each entry of the other tables, so it is the first to fill.
    pub open spec fn room(self) -> int {
        self.capacity - self.shapes.len()
    }

    /// Index of the newest directory entry.
    pub open spec fn top(self) -> u32 {
        (self.shapes.len() - 1) as u32
    }

    /// Entry `j` of the directory is of a known kind; its table index is its
    /// rank among the entries of that kind; and if it is a composite, both
    /// operands stand before it in the directory.
    pub open spec fn entry_linked(self, j: int) -> bool {
        let s = self.shapes[j];
        &&& s.shape_type == SPHERE_KIND || s.shape_type == CUBOID_KIND || s.shape_type
            == COMPOSITE_KIND
        &&& s.index == kind_count(self.shapes.take(j), s.shape_type)
        &&& s.visible <= 1
        &&& s.shape_type == COMPOSITE_KIND ==> {
            &&& self.composits[s.index as int].a < j
            &&& self.composits[s.index as int].b < j
        }
    }

    /// The invariant of the registry: no table is over the limit, each table
    /// has one entry for each directory entry of its kind, and every
    /// directory entry is linked as `entry_linked` says.
    pub open spec fn wf(self) -> bool {
        &&& self.capacity <= u32::MAX
        &&& self.shapes.len() <= self.capacity
        &&& self.spheres.len() == kind_count(self.shapes, SPHERE_KIND)
        &&& self.cuboids.len() == kind_count(self.shapes, CUBOID_KIND)
        &&& self.composits.len() == kind_count(self.shapes, COMPOSITE_KIND)
        &&& forall|j: int| 0 <= j < self.shapes.len() ==> #[trigger] self.entry_linked(j)
    }

    /// The registry marked as changed.
    pub open spec fn touched(self) -> SceneView {
        SceneView { dirty: true, ..self }
    }

    /// The registry marked as handed out.
    pub open spec fn synced(self) -> SceneView {
        SceneView { dirty: false, ..self }
    }

    /// A sphere appended to its table, with its directory entry.
    pub open spec fn push_sphere(self, sphere: Sphere, props: ShapeProperties, root: bool)
        -> SceneView {
        SceneView {
            shapes: self.shapes.push(
                primitive_shape(props, SPHERE_KIND, self.spheres.len() as u32, root),
            ),
            spheres: self.spheres.push(sphere),
            ..self
        }
    }

    /// A cuboid appended to its table, with its directory entry.
    pub open spec fn push_cuboid(self, cuboid: Cuboid, props: ShapeProperties, root: bool)
        -> SceneView {
        SceneView {
            shapes: self.shapes.push(
                primitive_shape(props, CUBOID_KIND, self.cuboids.len() as u32, root),
            ),
            cuboids: self.cuboids.push(cuboid),
            ..self
        }
    }

    /// A composite record appended to its table, with its directory entry.
    pub open spec fn push_composit(self, record: Composit, root: bool) -> SceneView {
        SceneView {
            shapes: self.shapes.push(composite_shape(self.composits.len() as u32, root)),
            composits: self.composits.push(record),
            ..self
        }
    }

    /// The leaf `leaf` appended as a primitive.
    pub open spec fn push_leaf(self, leaf: CompositDescriptor, root: bool) -> SceneView {
        match leaf {
            CompositDescriptor::CUBOID(cuboid, props) => self.push_cuboid(cuboid, props, root),
            CompositDescriptor::SPHERE(sphere, props) => self.push_sphere(sphere, props, root),
            _ => self,
        }
    }

    /// The primitive `leaf` added to the scene as a shape of its own: with
    /// room it is appended as a root and the registry is marked as changed;
    /// without room nothing happens.
    pub open spec fn insert(self, leaf: CompositDescriptor) -> SceneView {
        if self.room() > 0 {
            self.push_leaf(leaf, true).touched()
        } else {
            self
        }
    }

    /// The primitives `leaves` added one after another.
    pub open spec fn inserted(self, leaves: Seq<CompositDescriptor>) -> SceneView
        decreases leaves.len(),
    {
        if leaves.len() == 0 {
            self
        } else {
            self.inserted(leaves.drop_last()).insert(leaves.last())
        }
    }

    /// The tree `tree` flattened onto the tables, children before parents:
    /// first all of the left subtree, then all of the right one, then the
    /// record that joins the two newest entries those produced. Only the
    /// entry of the outermost node can carry the root flag.
    pub open spec fn flattened(self, tree: CompositDescriptor, root: bool) -> SceneView
        decreases tree,
    {
        match tree.children() {
            None => self.push_leaf(tree, root),
            Some((l, r)) => {
                let left = self.flattened(l, false);
                let right = left.flattened(r, false);
                right.push_composit(
                    Composit {
                        a: left.top(),
                        b: right.top(),
                        comp_type: tree.operator(),
                        alpha: tree.blend(),
                    },
                    root,
                )
            },
        }
    }
}

} // verus!
