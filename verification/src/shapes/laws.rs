//! What holds of every registry, and of every step that extends one.

use vstd::prelude::*;
use crate::shapes::composit::{Composit, CompositDescriptor};
use crate::shapes::cuboid::Cuboid;
use crate::shapes::model::{flag, kind_count, SceneView};
use crate::shapes::sphere::Sphere;
use crate::shapes::{Shape, ShapeProperties, COMPOSITE_KIND, CUBOID_KIND, SPHERE_KIND};

verus! {

/// Appending an entry raises the count of its own kind by one and leaves
/// the other counts alone.
pub proof fn lemma_kind_count_push(shapes: Seq<Shape>, entry: Shape, kind: u32)
    ensures
        kind_count(shapes.push(entry), kind) == kind_count(shapes, kind) + if entry.shape_type
            == kind {
            1nat
        } else {
            0nat
        },
{
    assert(shapes.push(entry).drop_last() == shapes);
}

/// No kind has more entries than the directory.
pub proof fn lemma_kind_count_bound(shapes: Seq<Shape>, kind: u32)
    ensures
        kind_count(shapes, kind) <= shapes.len(),
    decreases shapes.len(),
{
    if shapes.len() > 0 {
        lemma_kind_count_bound(shapes.drop_last(), kind);
    }
}

/// The entries before position `j` hold no more of a kind than the whole
/// directory, and fewer if entry `j` is itself of that kind.
pub proof fn lemma_kind_count_take(shapes: Seq<Shape>, j: int, kind: u32)
    requires
        0 <= j < shapes.len(),
    ensures
        kind_count(shapes.take(j), kind) <= kind_count(shapes, kind),
        shapes[j].shape_type == kind ==> kind_count(shapes.take(j), kind) < kind_count(
            shapes,
            kind,
        ),
    decreases shapes.len(),
{
    if j == shapes.len() - 1 {
        assert(shapes.take(j) == shapes.drop_last());
    } else {
        lemma_kind_count_take(shapes.drop_last(), j, kind);
        assert(shapes.drop_last().take(j) == shapes.take(j));
    }
}

/// Every directory entry points into the table of its kind.
pub proof fn lemma_index_in_table(scene: SceneView, j: int)
    requires
        scene.wf(),
        0 <= j < scene.shapes.len(),
    ensures
        scene.shapes[j].shape_type == SPHERE_KIND ==> scene.shapes[j].index < scene.spheres.len(),
        scene.shapes[j].shape_type == CUBOID_KIND ==> scene.shapes[j].index < scene.cuboids.len(),
        scene.shapes[j].shape_type == COMPOSITE_KIND ==> scene.shapes[j].index
            < scene.composits.len(),
{
    assert(scene.entry_linked(j));
    lemma_kind_count_take(scene.shapes, j, scene.shapes[j].shape_type);
}

/// The operands of every composite record stand in the directory before the
/// entry that owns the record: no record refers forward.
pub proof fn lemma_no_forward_reference(scene: SceneView, j: int)
    requires
        scene.wf(),
        0 <= j < scene.shapes.len(),
        scene.shapes[j].shape_type == COMPOSITE_KIND,
    ensures
        scene.shapes[j].index < scene.composits.len(),
        scene.composits[scene.shapes[j].index as int].a < j,
        scene.composits[scene.shapes[j].index as int].b < j,
{
    lemma_index_in_table(scene, j);
    assert(scene.entry_linked(j));
}

/// The directory has one entry for each entry of the three tables.
pub proof fn lemma_directory_is_sum(scene: SceneView)
    requires
        scene.wf(),
    ensures
        scene.shapes.len() == scene.spheres.len() + scene.cuboids.len() + scene.composits.len(),
{
    assert forall|j: int| 0 <= j < scene.shapes.len() implies {
        let k = #[trigger] scene.shapes[j].shape_type;
        k == SPHERE_KIND || k == CUBOID_KIND || k == COMPOSITE_KIND
    } by {
        assert(scene.entry_linked(j));
    }
    lemma_kinds_partition(scene.shapes);
}

/// Where every entry is a sphere, a cuboid or a composite, the three counts
/// add up to the length.
proof fn lemma_kinds_partition(shapes: Seq<Shape>)
    requires
        forall|j: int|
            0 <= j < shapes.len() ==> {
                let k = #[trigger] shapes[j].shape_type;
                k == SPHERE_KIND || k == CUBOID_KIND || k == COMPOSITE_KIND
            },
    ensures
        shapes.len() == kind_count(shapes, SPHERE_KIND) + kind_count(shapes, CUBOID_KIND)
            + kind_count(shapes, COMPOSITE_KIND),
    decreases shapes.len(),
{
    if shapes.len() > 0 {
        let rest = shapes.drop_last();
        assert forall|j: int| 0 <= j < rest.len() implies {
            let k = #[trigger] rest[j].shape_type;
            k == SPHERE_KIND || k == CUBOID_KIND || k == COMPOSITE_KIND
        } by {
            assert(rest[j] == shapes[j]);
        }
        lemma_kinds_partition(rest);
    }
}

/// What appending one entry does to a well-formed registry, given that the
/// entry is itself linked and its table grew with it.
proof fn lemma_push_linked(before: SceneView, after: SceneView, entry: Shape)
    requires
        before.wf(),
        before.room() > 0,
        after.shapes == before.shapes.push(entry),
        after.capacity == before.capacity,
        before.composits.is_prefix_of(after.composits),
        after.entry_linked(before.shapes.len() as int),
        after.spheres.len() == kind_count(after.shapes, SPHERE_KIND),
        after.cuboids.len() == kind_count(after.shapes, CUBOID_KIND),
        after.composits.len() == kind_count(after.shapes, COMPOSITE_KIND),
    ensures
        after.wf(),
{
    let n = before.shapes.len() as int;
    assert forall|j: int| 0 <= j < after.shapes.len() implies #[trigger] after.entry_linked(
        j,
    ) by {
        if j < n {
            assert(before.entry_linked(j));
            assert(after.shapes.take(j) == before.shapes.take(j));
            lemma_index_in_table(before, j);
        }
    }
}

/// The dirty flag has no part in the invariant: a well-formed registry
/// stays so whichever way the flag is set.
pub proof fn lemma_flag_keeps_wf(scene: SceneView)
    requires
        scene.wf(),
    ensures
        scene.touched().wf(),
        scene.synced().wf(),
{
    assert forall|j: int| 0 <= j < scene.shapes.len() implies #[trigger] scene.touched().entry_linked(
        j,
    ) by {
        assert(scene.entry_linked(j));
    }
    assert forall|j: int| 0 <= j < scene.shapes.len() implies #[trigger] scene.synced().entry_linked(
        j,
    ) by {
        assert(scene.entry_linked(j));
    }
}

/// A sphere goes into any registry that has room, and leaves it well-formed.
pub proof fn lemma_push_sphere(scene: SceneView, sphere: Sphere, props: ShapeProperties, root: bool)
    requires
        scene.wf(),
        scene.room() > 0,
    ensures
        scene.push_sphere(sphere, props, root).wf(),
{
    let after = scene.push_sphere(sphere, props, root);
    let entry = after.shapes.last();
    lemma_kind_count_push(scene.shapes, entry, SPHERE_KIND);
    lemma_kind_count_push(scene.shapes, entry, CUBOID_KIND);
    lemma_kind_count_push(scene.shapes, entry, COMPOSITE_KIND);
    lemma_kind_count_bound(scene.shapes, SPHERE_KIND);
    assert(after.shapes.take(scene.shapes.len() as int) == scene.shapes);
    lemma_push_linked(scene, after, entry);
}

/// A cuboid goes into any registry that has room, and leaves it well-formed.
pub proof fn lemma_push_cuboid(scene: SceneView, cuboid: Cuboid, props: ShapeProperties, root: bool)
    requires
        scene.wf(),
        scene.room() > 0,
    ensures
        scene.push_cuboid(cuboid, props, root).wf(),
{
    let after = scene.push_cuboid(cuboid, props, root);
    let entry = after.shapes.last();
    lemma_kind_count_push(scene.shapes, entry, SPHERE_KIND);
    lemma_kind_count_push(scene.shapes, entry, CUBOID_KIND);
    lemma_kind_count_push(scene.shapes, entry, COMPOSITE_KIND);
    lemma_kind_count_bound(scene.shapes, CUBOID_KIND);
    assert(after.shapes.take(scene.shapes.len() as int) == scene.shapes);
    lemma_push_linked(scene, after, entry);
}

/// A composite record whose operands are already in the directory goes into
/// any registry that has room, and leaves it well-formed.
pub proof fn lemma_push_composit(scene: SceneView, record: Composit, root: bool)
    requires
        scene.wf(),
        scene.room() > 0,
        record.a < scene.shapes.len(),
        record.b < scene.shapes.len(),
    ensures
        scene.push_composit(record, root).wf(),
{
    let after = scene.push_composit(record, root);
    let entry = after.shapes.last();
    lemma_kind_count_push(scene.shapes, entry, SPHERE_KIND);
    lemma_kind_count_push(scene.shapes, entry, CUBOID_KIND);
    lemma_kind_count_push(scene.shapes, entry, COMPOSITE_KIND);
    lemma_kind_count_bound(scene.shapes, COMPOSITE_KIND);
    assert(after.shapes.take(scene.shapes.len() as int) == scene.shapes);
    lemma_push_linked(scene, after, entry);
}

/// Flattening a tree that fits: the registry stays well-formed; what was
/// in the tables stays where it was; the directory gains one entry for each
/// node and the composite table one record for each operator; the newest
/// entry is that of the outermost node and carries the root flag as asked;
/// no other new entry carries it.
pub proof fn lemma_flattened(scene: SceneView, tree: CompositDescriptor, root: bool)
    requires
        scene.wf(),
        tree.nodes() <= scene.room(),
    ensures
        ({
            let after = scene.flattened(tree, root);
            &&& after.wf()
            &&& after.capacity == scene.capacity
            &&& after.dirty == scene.dirty
            &&& scene.shapes.is_prefix_of(after.shapes)
            &&& scene.spheres.is_prefix_of(after.spheres)
            &&& scene.cuboids.is_prefix_of(after.cuboids)
            &&& scene.composits.is_prefix_of(after.composits)
            &&& after.shapes.len() == scene.shapes.len() + tree.nodes()
            &&& after.spheres.len() + after.cuboids.len() == scene.spheres.len()
                + scene.cuboids.len() + tree.leaves()
            &&& after.composits.len() == scene.composits.len() + tree.operators()
            &&& after.shapes.last().visible == flag(root)
            &&& forall|j: int|
                scene.shapes.len() <= j < after.shapes.len() - 1
                    ==> (#[trigger] after.shapes[j]).visible == 0
        }),
    decreases tree,
{
    match tree.children() {
        None => {
            match tree {
                CompositDescriptor::CUBOID(cuboid, props) => {
                    lemma_push_cuboid(scene, cuboid, props, root);
                },
                CompositDescriptor::SPHERE(sphere, props) => {
                    lemma_push_sphere(scene, sphere, props, root);
                },
                _ => {},
            }
        },
        Some((l, r)) => {
            let left = scene.flattened(l, false);
            lemma_flattened(scene, l, false);
            let right = left.flattened(r, false);
            lemma_flattened(left, r, false);
            let record = Composit {
                a: left.top(),
                b: right.top(),
                comp_type: tree.operator(),
                alpha: tree.blend(),
            };
            lemma_push_composit(right, record, root);
            let after = right.push_composit(record, root);
            assert(after == scene.flattened(tree, root));
            assert forall|j: int|
                scene.shapes.len() <= j < after.shapes.len() - 1 implies (
            #[trigger] after.shapes[j]).visible == 0 by {
                assert(after.shapes[j] == right.shapes[j]);
                if j < left.shapes.len() {
                    assert(right.shapes[j] == left.shapes[j]);
                }
            }
        },
    }
}

/// Among the entries that flattening a whole tree adds, exactly one is a
/// root: the newest, which is the entry of the outermost node, however
/// deep the tree.
pub proof fn lemma_one_root_per_tree(scene: SceneView, tree: CompositDescriptor, j: int)
    requires
        scene.wf(),
        tree.nodes() <= scene.room(),
        scene.shapes.len() <= j < scene.shapes.len() + tree.nodes(),
    ensures
        (scene.flattened(tree, true).shapes[j].visible == 1) == (j == scene.shapes.len()
            + tree.nodes() - 1),
        scene.flattened(tree, true).shapes[j].visible <= 1,
{
    lemma_flattened(scene, tree, true);
}

/// Every composite record belongs to one directory entry, and both its
/// operands are smaller than the index of that entry, which is the length
/// that the directory had when the record was made. The result is that
/// index.
pub proof fn lemma_owner_of_record(scene: SceneView, k: int) -> (j: int)
    requires
        scene.wf(),
        0 <= k < scene.composits.len(),
    ensures
        0 <= j < scene.shapes.len(),
        scene.shapes[j].shape_type == COMPOSITE_KIND,
        scene.shapes[j].index == k,
        scene.composits[k].a < j,
        scene.composits[k].b < j,
{
    let j = lemma_entry_of_rank(scene.shapes, COMPOSITE_KIND, k);
    assert(scene.entry_linked(j));
    j
}

/// The entry of a kind that has exactly `k` entries of that kind before it.
proof fn lemma_entry_of_rank(shapes: Seq<Shape>, kind: u32, k: int) -> (j: int)
    requires
        0 <= k < kind_count(shapes, kind),
    ensures
        0 <= j < shapes.len(),
        shapes[j].shape_type == kind,
        kind_count(shapes.take(j), kind) == k,
    decreases shapes.len(),
{
    let rest = shapes.drop_last();
    if k < kind_count(rest, kind) {
        let j = lemma_entry_of_rank(rest, kind, k);
        assert(rest.take(j) == shapes.take(j));
        j
    } else {
        assert(shapes.take(shapes.len() - 1) == rest);
        shapes.len() - 1
    }
}

/// Primitives added one by one to a registry with room for them all: the
/// directory grows by exactly one entry for each, in order, every new entry
/// a root of the kind that was added, and no composite record is made.
pub proof fn lemma_primitives_only(scene: SceneView, leaves: Seq<CompositDescriptor>)
    requires
        scene.wf(),
        leaves.len() <= scene.room(),
        forall|i: int| 0 <= i < leaves.len() ==> (#[trigger] leaves[i]).is_leaf(),
    ensures
        ({
            let after = scene.inserted(leaves);
            &&& after.wf()
            &&& after.capacity == scene.capacity
            &&& scene.shapes.is_prefix_of(after.shapes)
            &&& after.shapes.len() == scene.shapes.len() + leaves.len()
            &&& after.composits == scene.composits
            &&& leaves.len() > 0 ==> after.dirty
            &&& forall|i: int|
                0 <= i < leaves.len() ==> {
                    let entry = #[trigger] after.shapes[scene.shapes.len() + i];
                    entry.visible == 1 && entry.shape_type == leaves[i].leaf_kind()
                }
        }),
    decreases leaves.len(),
{
    if leaves.len() > 0 {
        let before = scene.inserted(leaves.drop_last());
        lemma_primitives_only(scene, leaves.drop_last());
        let leaf = leaves.last();
        assert(leaf.is_leaf());
        lemma_flattened(before, leaf, true);
        assert(before.flattened(leaf, true) == before.push_leaf(leaf, true));
        lemma_flag_keeps_wf(before.push_leaf(leaf, true));
        let after = scene.inserted(leaves);
        assert forall|i: int| 0 <= i < leaves.len() implies {
            let entry = #[trigger] after.shapes[scene.shapes.len() + i];
            entry.visible == 1 && entry.shape_type == leaves[i].leaf_kind()
        } by {
            if i < leaves.len() - 1 {
                assert(after.shapes[scene.shapes.len() + i] == before.shapes[scene.shapes.len()
                    + i]);
                assert(leaves.drop_last()[i] == leaves[i]);
            }
        }
    }
}

/// A registry takes primitives up to its capacity and no further: while
/// fewer than `capacity` have gone into an empty registry the next one is
/// taken; once `capacity` have, the directory is full, and one more changes
/// nothing.
pub proof fn lemma_capacity_boundary(
    capacity: nat,
    leaves: Seq<CompositDescriptor>,
    extra: CompositDescriptor,
)
    requires
        capacity <= u32::MAX,
        leaves.len() <= capacity,
        forall|i: int| 0 <= i < leaves.len() ==> (#[trigger] leaves[i]).is_leaf(),
    ensures
        ({
            let filled = SceneView::empty(capacity).inserted(leaves);
            &&& filled.shapes.len() == leaves.len()
            &&& leaves.len() < capacity ==> filled.room() > 0
            &&& leaves.len() == capacity ==> filled.room() == 0 && filled.insert(extra) == filled
        }),
{
    lemma_primitives_only(SceneView::empty(capacity), leaves);
}

/// Handing the tables out clears the dirty flag and changes nothing else,
/// so a second hand-out straight after the first finds nothing to do; any
/// step that adds to the tables sets the flag again.
pub proof fn lemma_dirty_flag(scene: SceneView, leaf: CompositDescriptor, tree: CompositDescriptor)
    ensures
        !scene.synced().dirty,
        scene.synced().synced() == scene.synced(),
        scene.synced().touched() == scene.touched(),
        scene.room() > 0 ==> scene.synced().insert(leaf).dirty,
        scene.synced().flattened(tree, true).touched().dirty,
{
}

} // verus!
