use csg_scene::color::Color;
use csg_scene::scalar::Scalar;
use csg_scene::shapes::composit::{
    CompositDescriptor, BLEND_OP, DIFFERENCE_OP, INTERSECTION_OP, UNION_OP,
};
use csg_scene::shapes::cuboid::Cuboid;
use csg_scene::shapes::sphere::Sphere;
use csg_scene::shapes::{
    SceneError, Shape, ShapeCollection, ShapeProperties, COMPOSITE_KIND, CUBOID_KIND,
    SHAPE_CAPACITY, SPHERE_KIND,
};

fn num(x: f32) -> Scalar {
    Scalar::from_bits(x.to_bits())
}

fn grey() -> ShapeProperties {
    ShapeProperties {
        color: Color(num(0.2), num(0.2), num(0.2)),
        reflectivity: num(0.9),
        visible: true,
    }
}

fn ball(z: f32) -> Sphere {
    Sphere::new([num(0.0), num(0.0), num(z)], num(1.0))
}

fn brick(z: f32) -> Cuboid {
    let rows = [
        [num(1.0), num(0.0), num(0.0), num(0.0)],
        [num(0.0), num(1.0), num(0.0), num(0.0)],
        [num(0.0), num(0.0), num(1.0), num(0.0)],
    ];
    Cuboid::new([num(0.0), num(0.0), num(z)], [num(1.0), num(2.0), num(3.0)], rows)
}

fn sphere_leaf(z: f32) -> Box<CompositDescriptor> {
    Box::new(CompositDescriptor::SPHERE(ball(z), grey()))
}

fn cuboid_leaf(z: f32) -> Box<CompositDescriptor> {
    Box::new(CompositDescriptor::CUBOID(brick(z), grey()))
}

fn count_nodes(tree: &CompositDescriptor) -> (usize, usize) {
    match tree {
        CompositDescriptor::CUBOID(_, _) | CompositDescriptor::SPHERE(_, _) => (1, 0),
        CompositDescriptor::UNION(l, r)
        | CompositDescriptor::INTERSECTION(l, r)
        | CompositDescriptor::DIFFERENCE(l, r)
        | CompositDescriptor::BLEND(l, r, _) => {
            let (ll, lo) = count_nodes(l);
            let (rl, ro) = count_nodes(r);
            (ll + rl, lo + ro + 1)
        }
    }
}

fn grow(seed: &mut u32, depth: u32) -> CompositDescriptor {
    *seed = seed.wrapping_mul(1664525).wrapping_add(1013904223);
    let pick = (*seed >> 24) % 6;
    if depth == 0 || pick == 0 {
        return CompositDescriptor::SPHERE(ball(depth as f32), grey());
    }
    if pick == 1 {
        return CompositDescriptor::CUBOID(brick(depth as f32), grey());
    }
    let l = Box::new(grow(seed, depth - 1));
    let r = Box::new(grow(seed, depth - 1));
    match pick {
        2 => CompositDescriptor::UNION(l, r),
        3 => CompositDescriptor::INTERSECTION(l, r),
        4 => CompositDescriptor::DIFFERENCE(l, r),
        _ => CompositDescriptor::BLEND(l, r, num(0.5)),
    }
}

#[test]
fn new_registry_is_empty_and_clean() {
    let scene = ShapeCollection::new(SHAPE_CAPACITY);
    assert_eq!(scene.capacity(), 64);
    assert_eq!(scene.shape_count(), 0);
    assert_eq!(scene.sphere_count(), 0);
    assert_eq!(scene.cuboid_count(), 0);
    assert_eq!(scene.composit_count(), 0);
    assert!(!scene.is_dirty());
    assert_eq!(scene.shape(0), None);
}

#[test]
fn primitives_only_are_all_roots() {
    let mut scene = ShapeCollection::new(64);
    let mut kinds = Vec::new();
    for i in 0..10u32 {
        if i % 3 == 0 {
            assert_eq!(scene.add_cube(brick(i as f32), grey()), Ok(i));
            kinds.push(CUBOID_KIND);
        } else {
            assert_eq!(scene.add_sphere(ball(i as f32), grey()), Ok(i));
            kinds.push(SPHERE_KIND);
        }
    }
    assert_eq!(scene.shape_count(), 10);
    assert_eq!(scene.cuboid_count(), 4);
    assert_eq!(scene.sphere_count(), 6);
    assert_eq!(scene.composit_count(), 0);
    let mut spheres = 0;
    let mut cuboids = 0;
    for i in 0..10usize {
        let entry = scene.shape(i).unwrap();
        assert_eq!(entry.visible, 1);
        assert_eq!(entry.shape_type, kinds[i]);
        if entry.shape_type == SPHERE_KIND {
            assert_eq!(entry.index, spheres);
            assert_eq!(scene.sphere(entry.index as usize), Some(ball(i as f32)));
            spheres += 1;
        } else {
            assert_eq!(entry.index, cuboids);
            assert_eq!(scene.cuboid(entry.index as usize), Some(brick(i as f32)));
            cuboids += 1;
        }
    }
}

#[test]
fn direct_primitive_is_a_root_whatever_its_properties_ask() {
    let mut scene = ShapeCollection::new(4);
    let hidden = ShapeProperties { visible: false, ..grey() };
    assert_eq!(scene.add_sphere(ball(1.0), hidden), Ok(0));
    let entry = scene.shape(0).unwrap();
    assert_eq!(entry.visible, 1);
    assert_eq!(entry.color, grey().color);
    assert_eq!(entry.reflectivity, num(0.9));
}

#[test]
fn union_of_two_fresh_leaves() {
    let mut scene = ShapeCollection::new(64);
    let a = Sphere::new([num(0.0), num(0.0), num(30.0)], num(3.0));
    let b = Sphere::new([num(0.0), num(4.0), num(25.0)], num(1.0));
    assert_eq!(scene.add_sphere(a, grey()), Ok(0));
    assert_eq!(scene.add_sphere(b, grey()), Ok(1));
    let tree = CompositDescriptor::UNION(
        Box::new(CompositDescriptor::SPHERE(a, grey())),
        Box::new(CompositDescriptor::SPHERE(b, grey())),
    );
    assert_eq!(scene.create_composite(&tree), Ok(4));
    assert_eq!(scene.shape_count(), 5);
    assert_eq!(scene.composit_count(), 1);
    assert_eq!(scene.sphere_count(), 4);
    let record = scene.composit(0).unwrap();
    assert_eq!((record.a, record.b, record.comp_type), (2, 3, UNION_OP));
    assert_eq!(record.alpha, num(1.0));
    let flags: Vec<u32> = (0..5).map(|i| scene.shape(i).unwrap().visible).collect();
    assert_eq!(flags, vec![1, 1, 0, 0, 1]);
    let top = scene.shape(4).unwrap();
    assert_eq!(top.shape_type, COMPOSITE_KIND);
    assert_eq!(top.index, 0);
    assert_eq!(scene.shape(2).unwrap().shape_type, SPHERE_KIND);
    assert_eq!(scene.shape(2).unwrap().index, 2);
    assert_eq!(scene.shape(3).unwrap().index, 3);
    assert_eq!(scene.sphere(2), Some(a));
    assert_eq!(scene.sphere(3), Some(b));
}

#[test]
fn composite_entry_carries_the_neutral_material() {
    let mut scene = ShapeCollection::new(8);
    let tree = CompositDescriptor::INTERSECTION(sphere_leaf(1.0), cuboid_leaf(2.0));
    assert_eq!(scene.create_composite(&tree), Ok(2));
    let want = Shape::new(Color(num(0.0), num(0.0), num(1.0)), 9, 0, num(0.0), 1);
    assert_eq!(scene.shape(2), Some(want));
}

#[test]
fn nested_tree_is_flattened_children_first() {
    // DIFFERENCE(UNION(s, c), BLEND(s, INTERSECTION(c, s), 0.25))
    let inner = CompositDescriptor::INTERSECTION(cuboid_leaf(4.0), sphere_leaf(5.0));
    let right = CompositDescriptor::BLEND(sphere_leaf(3.0), Box::new(inner), num(0.25));
    let left = CompositDescriptor::UNION(sphere_leaf(1.0), cuboid_leaf(2.0));
    let tree = CompositDescriptor::DIFFERENCE(Box::new(left), Box::new(right));
    assert_eq!(count_nodes(&tree), (5, 4));

    let mut scene = ShapeCollection::new(64);
    assert_eq!(scene.add_cube(brick(0.0), grey()), Ok(0));
    assert_eq!(scene.create_composite(&tree), Ok(9));
    assert_eq!(scene.shape_count(), 10);
    assert_eq!(scene.composit_count(), 4);
    assert_eq!(scene.sphere_count(), 3);
    assert_eq!(scene.cuboid_count(), 3);

    let kinds: Vec<u32> = (0..10).map(|i| scene.shape(i).unwrap().shape_type).collect();
    assert_eq!(kinds, vec![1, 0, 1, 9, 0, 1, 0, 9, 9, 9]);
    let indices: Vec<u32> = (0..10).map(|i| scene.shape(i).unwrap().index).collect();
    assert_eq!(indices, vec![0, 0, 1, 0, 1, 2, 2, 1, 2, 3]);
    let flags: Vec<u32> = (0..10).map(|i| scene.shape(i).unwrap().visible).collect();
    assert_eq!(flags, vec![1, 0, 0, 0, 0, 0, 0, 0, 0, 1]);

    let records: Vec<(u32, u32, u32, Scalar)> = (0..4)
        .map(|i| scene.composit(i).unwrap())
        .map(|c| (c.a, c.b, c.comp_type, c.alpha))
        .collect();
    assert_eq!(
        records,
        vec![
            (1, 2, UNION_OP, num(1.0)),
            (5, 6, INTERSECTION_OP, num(1.0)),
            (4, 7, BLEND_OP, num(0.25)),
            (3, 8, DIFFERENCE_OP, num(1.0)),
        ]
    );
}

#[test]
fn single_leaf_tree_is_its_own_root() {
    let mut scene = ShapeCollection::new(4);
    let tree = CompositDescriptor::CUBOID(brick(1.0), grey());
    assert_eq!(scene.create_composite(&tree), Ok(0));
    assert_eq!(scene.shape_count(), 1);
    assert_eq!(scene.composit_count(), 0);
    let entry = scene.shape(0).unwrap();
    assert_eq!((entry.shape_type, entry.index, entry.visible), (CUBOID_KIND, 0, 1));
}

#[test]
fn generated_trees_never_refer_forward() {
    let mut seed = 7u32;
    let mut scene = ShapeCollection::new(4096);
    for _ in 0..12 {
        let tree = grow(&mut seed, 5);
        let (leaves, operators) = count_nodes(&tree);
        let shapes_before = scene.shape_count();
        let composits_before = scene.composit_count();
        let top = scene.create_composite(&tree).unwrap();
        assert_eq!(scene.shape_count(), shapes_before + leaves + operators);
        assert_eq!(scene.composit_count(), composits_before + operators);
        assert_eq!(top as usize, scene.shape_count() - 1);
        let roots = (shapes_before..scene.shape_count())
            .filter(|&i| scene.shape(i).unwrap().visible == 1)
            .count();
        assert_eq!(roots, 1);
        assert_eq!(scene.shape(top as usize).unwrap().visible, 1);
    }
    let mut owners = 0;
    for j in 0..scene.shape_count() {
        let entry = scene.shape(j).unwrap();
        if entry.shape_type == COMPOSITE_KIND {
            assert_eq!(entry.index, owners);
            let record = scene.composit(entry.index as usize).unwrap();
            assert!((record.a as usize) < j);
            assert!((record.b as usize) < j);
            assert!(record.a < record.b);
            owners += 1;
        }
    }
    assert_eq!(owners as usize, scene.composit_count());
    assert_eq!(
        scene.shape_count(),
        scene.sphere_count() + scene.cuboid_count() + scene.composit_count()
    );
}

#[test]
fn capacity_is_a_hard_limit_for_primitives() {
    let mut scene = ShapeCollection::new(3);
    assert_eq!(scene.add_sphere(ball(1.0), grey()), Ok(0));
    assert_eq!(scene.add_cube(brick(2.0), grey()), Ok(1));
    assert_eq!(scene.add_sphere(ball(3.0), grey()), Ok(2));
    assert_eq!(scene.update_buffers(true).map(|image| image.is_some()), Ok(true));
    assert_eq!(scene.add_sphere(ball(4.0), grey()), Err(SceneError::CapacityExceeded));
    assert_eq!(scene.add_cube(brick(5.0), grey()), Err(SceneError::CapacityExceeded));
    assert_eq!(scene.shape_count(), 3);
    assert_eq!(scene.sphere_count(), 2);
    assert_eq!(scene.cuboid_count(), 1);
    assert!(!scene.is_dirty());
}

#[test]
fn usual_capacity_takes_sixty_four() {
    let mut scene = ShapeCollection::new(SHAPE_CAPACITY);
    for i in 0..64u32 {
        assert_eq!(scene.add_sphere(ball(i as f32), grey()), Ok(i));
    }
    assert_eq!(scene.add_sphere(ball(64.0), grey()), Err(SceneError::CapacityExceeded));
    assert_eq!(scene.shape_count(), 64);
}

#[test]
fn zero_capacity_takes_nothing() {
    let mut scene = ShapeCollection::new(0);
    assert_eq!(scene.add_sphere(ball(1.0), grey()), Err(SceneError::CapacityExceeded));
    let tree = CompositDescriptor::SPHERE(ball(1.0), grey());
    assert_eq!(scene.create_composite(&tree), Err(SceneError::CapacityExceeded));
    assert_eq!(scene.shape_count(), 0);
    assert!(!scene.is_dirty());
}

#[test]
fn tree_that_does_not_fit_changes_nothing() {
    let mut scene = ShapeCollection::new(4);
    assert_eq!(scene.add_sphere(ball(0.0), grey()), Ok(0));
    assert_eq!(scene.add_sphere(ball(1.0), grey()), Ok(1));
    assert_eq!(scene.update_buffers(true).map(|image| image.is_some()), Ok(true));
    let tree = CompositDescriptor::UNION(sphere_leaf(1.0), sphere_leaf(2.0));
    assert_eq!(scene.create_composite(&tree), Err(SceneError::CapacityExceeded));
    assert_eq!(scene.shape_count(), 2);
    assert_eq!(scene.sphere_count(), 2);
    assert_eq!(scene.composit_count(), 0);
    assert!(!scene.is_dirty());
}

#[test]
fn tree_that_fits_exactly_is_taken() {
    let mut scene = ShapeCollection::new(4);
    assert_eq!(scene.add_sphere(ball(0.0), grey()), Ok(0));
    let tree = CompositDescriptor::UNION(sphere_leaf(1.0), sphere_leaf(2.0));
    assert_eq!(scene.create_composite(&tree), Ok(3));
    assert_eq!(scene.shape_count(), 4);
    assert_eq!(scene.add_cube(brick(1.0), grey()), Err(SceneError::CapacityExceeded));
}

#[test]
fn node_count_stops_at_the_limit() {
    let tree = CompositDescriptor::UNION(
        Box::new(CompositDescriptor::BLEND(sphere_leaf(1.0), cuboid_leaf(2.0), num(0.5))),
        sphere_leaf(3.0),
    );
    assert_eq!(tree.nodes_within(5), Some(5));
    assert_eq!(tree.nodes_within(100), Some(5));
    assert_eq!(tree.nodes_within(4), None);
    assert_eq!(tree.nodes_within(0), None);
    assert_eq!(sphere_leaf(1.0).nodes_within(1), Some(1));
    assert_eq!(sphere_leaf(1.0).nodes_within(0), None);
}

#[test]
fn operators_have_their_tags_and_blend_factors() {
    let union = CompositDescriptor::UNION(sphere_leaf(1.0), sphere_leaf(2.0));
    let inter = CompositDescriptor::INTERSECTION(sphere_leaf(1.0), sphere_leaf(2.0));
    let diff = CompositDescriptor::DIFFERENCE(sphere_leaf(1.0), sphere_leaf(2.0));
    let blend = CompositDescriptor::BLEND(sphere_leaf(1.0), sphere_leaf(2.0), num(0.75));
    assert_eq!((union.op_code(), union.blend_factor()), (0, num(1.0)));
    assert_eq!((inter.op_code(), inter.blend_factor()), (1, num(1.0)));
    assert_eq!((diff.op_code(), diff.blend_factor()), (2, num(1.0)));
    assert_eq!((blend.op_code(), blend.blend_factor()), (3, num(0.75)));
    assert!(union.operands().is_some());
    assert!(sphere_leaf(1.0).operands().is_none());
}

#[test]
fn entry_from_properties_takes_their_flag() {
    let hidden = ShapeProperties { visible: false, ..grey() };
    assert_eq!(Shape::from_prop(hidden, SPHERE_KIND, 7).visible, 0);
    let shown = Shape::from_prop(grey(), CUBOID_KIND, 7);
    assert_eq!(shown, Shape::new(grey().color, 1, 7, num(0.9), 1));
}

#[test]
fn scalars_are_their_bit_patterns() {
    assert_eq!(Scalar::zero().to_bits(), 0.0f32.to_bits());
    assert_eq!(Scalar::one().to_bits(), 1.0f32.to_bits());
    assert_eq!(f32::from_bits(num(-2.5).to_bits()), -2.5);
}
