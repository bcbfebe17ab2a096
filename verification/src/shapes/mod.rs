//! The shape registry: primitive tables, composite table and shape directory.

pub mod composit;
pub mod cuboid;
pub mod laws;
pub mod model;
pub mod sphere;

use vstd::prelude::*;
use crate::color::Color;
use crate::layout::{
    is_memory_image, lemma_image_len, record_bytes, table_bytes, table_words, Packed,
};
use crate::scalar::{Scalar, ZERO_BITS};
use crate::shapes::composit::{Composit, CompositDescriptor, COMPOSIT_WORDS};
use crate::shapes::cuboid::{Cuboid, CUBOID_WORDS};
use crate::shapes::laws::{
    lemma_flag_keeps_wf, lemma_flattened, lemma_kind_count_bound, lemma_push_composit,
    lemma_push_cuboid, lemma_push_sphere,
};
use crate::shapes::model::SceneView;
use crate::shapes::sphere::{Sphere, SPHERE_WORDS};

verus! {

/// The most entries that each table of a registry of the usual size holds.
pub const SHAPE_CAPACITY: u32 = 64;

/// Words to a shape record.
pub const SHAPE_WORDS: usize = 8;

/// Kind tag of a sphere.
pub const SPHERE_KIND: u32 = 0;

/// Kind tag of a cuboid.
pub const CUBOID_KIND: u32 = 1;

/// Kind tag of a composite.
pub const COMPOSITE_KIND: u32 = 9;

/// Material of a shape, and whether it stands in the scene by itself.
#[derive(Clone, Copy, Debug, PartialEq, Eq, Structural)]
pub struct ShapeProperties {
    pub color: Color,
    pub reflectivity: Scalar,
    /// Whether the shape is a root of the scene. `Shape::from_prop` takes
    /// the flag as it is. A registry decides it by itself: what is added
    /// directly, and the outermost node of a tree, is a root, and every
    /// other node of a tree is not.
    pub visible: bool,
}

/// One entry of the shape directory.
#[derive(Clone, Copy, Debug, PartialEq, Eq, Structural)]
pub struct Shape {
    pub color: Color,
    /// Where the shape lies in the table of its kind.
    pub index: u32,
    /// The kind tag: `SPHERE_KIND`, `CUBOID_KIND` or `COMPOSITE_KIND`.
    pub shape_type: u32,
    pub reflectivity: Scalar,
    /// One if a renderer starts from this shape, zero if the shape is only
    /// reached as the operand of a composite.
    pub visible: u32,
}

impl Shape {
    /// The entry with the given fields.
    pub fn new(color: Color, shape_type: u32, index: u32, reflectivity: Scalar, visible: u32) -> (s:
        Shape)
        ensures
            s == (Shape { color, index, shape_type, reflectivity, visible }),
    {
        Shape { color, index, shape_type, reflectivity, visible }
    }

    /// The entry of kind `shape_type` at table index `index`, with the
    /// material and the flag of `properties`.
    pub fn from_prop(properties: ShapeProperties, shape_type: u32, index: u32) -> (s: Shape)
        ensures
            s == model::primitive_shape(properties, shape_type, index, properties.visible),
    {
        let visible: u32 = if properties.visible {
            1
        } else {
            0
        };
        Shape::new(properties.color, shape_type, index, properties.reflectivity, visible)
    }
}

impl Packed for Shape {
    /// The record ends in one word of padding, which brings it to 32 bytes.
    open spec fn words(&self) -> Seq<u32> {
        self.color.words() + seq![
            self.index,
            self.shape_type,
            self.reflectivity.bits,
            self.visible,
            ZERO_BITS,
        ]
    }

    open spec fn stride() -> nat {
        SHAPE_WORDS as nat
    }

    proof fn lemma_stride(&self) {
    }

    fn pack(&self, out: &mut Vec<u32>) {
        out.push(self.color.0.bits);
        out.push(self.color.1.bits);
        out.push(self.color.2.bits);
        out.push(self.index);
        out.push(self.shape_type);
        out.push(self.reflectivity.bits);
        out.push(self.visible);
        out.push(ZERO_BITS);
        assert(out@ =~= old(out)@ + self.words());
    }
}

/// The header a renderer reads first: how many directory entries are live.
#[derive(Clone, Copy, Debug, PartialEq, Eq, Structural)]
pub struct ShapeCount(pub u32);

impl Packed for ShapeCount {
    open spec fn words(&self) -> Seq<u32> {
        seq![self.0]
    }

    open spec fn stride() -> nat {
        1
    }

    proof fn lemma_stride(&self) {
    }

    fn pack(&self, out: &mut Vec<u32>) {
        out.push(self.0);
    }
}

/// Why the registry turned a request down.
#[derive(Clone, Copy, Debug, PartialEq, Eq, Structural)]
pub enum SceneError {
    /// The tables have no room for what was to be inserted.
    CapacityExceeded,
    /// There is nowhere to hand the tables to.
    SinkUnavailable,
}

/// The bytes of a registry as a renderer reads them: the count header and
/// the live part of each table.
#[derive(Debug, PartialEq, Eq)]
pub struct BufferImage {
    pub count: Vec<u8>,
    pub shapes: Vec<u8>,
    pub spheres: Vec<u8>,
    pub cuboids: Vec<u8>,
    pub composits: Vec<u8>,
}

impl BufferImage {
    /// The image holds exactly the count header and the four tables of
    /// `scene`, each as it lies in memory.
    pub open spec fn depicts(&self, scene: SceneView) -> bool {
        &&& is_memory_image(self.count@, (ShapeCount(scene.shapes.len() as u32)).words())
        &&& is_memory_image(self.shapes@, table_words(scene.shapes))
        &&& is_memory_image(self.spheres@, table_words(scene.spheres))
        &&& is_memory_image(self.cuboids@, table_words(scene.cuboids))
        &&& is_memory_image(self.composits@, table_words(scene.composits))
    }

    /// An image of a registry is never larger than the buffers sized for
    /// that registry: the header has four bytes, and each table has one
    /// record's worth of bytes for each live entry, of which there are at
    /// most `capacity`.
    pub proof fn lemma_fits(&self, scene: SceneView)
        requires
            scene.wf(),
            self.depicts(scene),
        ensures
            self.count@.len() == 4,
            self.shapes@.len() == 4 * SHAPE_WORDS * scene.shapes.len(),
            self.spheres@.len() == 4 * SPHERE_WORDS * scene.spheres.len(),
            self.cuboids@.len() == 4 * CUBOID_WORDS * scene.cuboids.len(),
            self.composits@.len() == 4 * COMPOSIT_WORDS * scene.composits.len(),
            scene.shapes.len() <= scene.capacity,
            scene.spheres.len() <= scene.capacity,
            scene.cuboids.len() <= scene.capacity,
            scene.composits.len() <= scene.capacity,
    {
        lemma_image_len(self.shapes@, scene.shapes);
        lemma_image_len(self.spheres@, scene.spheres);
        lemma_image_len(self.cuboids@, scene.cuboids);
        lemma_image_len(self.composits@, scene.composits);
        lemma_kind_count_bound(scene.shapes, SPHERE_KIND);
        lemma_kind_count_bound(scene.shapes, CUBOID_KIND);
        lemma_kind_count_bound(scene.shapes, COMPOSITE_KIND);
    }
}

/// The sizes in bytes of the buffers that back a registry: the header, and
/// each table at its full capacity.
#[derive(Clone, Copy, Debug, PartialEq, Eq, Structural)]
pub struct BufferSizes {
    pub count: u64,
    pub shapes: u64,
    pub spheres: u64,
    pub cuboids: u64,
    pub composits: u64,
}

/// The size in bytes of a table of `entries` records of `words` words each.
fn table_size(words: usize, entries: u32) -> (size: u64)
    requires
        words <= 0x1000_0000,
    ensures
        size == 4 * words * entries,
{
    let stride: u64 = 4 * (words as u64);
    assert(stride * entries <= 0x4000_0000 * 0x1_0000_0000) by (nonlinear_arith)
        requires
            stride <= 0x4000_0000,
            entries < 0x1_0000_0000,
    ;
    stride * (entries as u64)
}

/// The registry of a scene: the tables of spheres, cuboids and composites,
/// and the directory that lists every shape in order of creation. Entries
/// are only ever appended, so an index, once given out, stays valid.
pub struct ShapeCollection {
    shapes: Vec<Shape>,
    spheres: Vec<Sphere>,
    cuboids: Vec<Cuboid>,
    composits: Vec<Composit>,
    dirty: bool,
    capacity: u32,
}

impl View for ShapeCollection {
    type V = SceneView;

    closed spec fn view(&self) -> SceneView {
        SceneView {
            shapes: self.shapes@,
            spheres: self.spheres@,
            cuboids: self.cuboids@,
            composits: self.composits@,
            dirty: self.dirty,
            capacity: self.capacity as nat,
        }
    }
}

impl ShapeCollection {
    /// The invariant of the registry, which every operation keeps.
    pub open spec fn wf(&self) -> bool {
        self@.wf()
    }

    /// An empty registry whose tables hold up to `capacity` entries each.
    pub fn new(capacity: u32) -> (scene: ShapeCollection)
        ensures
            scene.wf(),
            scene@ == SceneView::empty(capacity as nat),
    {
        ShapeCollection {
            shapes: Vec::new(),
            spheres: Vec::new(),
            cuboids: Vec::new(),
            composits: Vec::new(),
            dirty: false,
            capacity,
        }
    }

    /// Whether the directory can take one more entry.
    fn has_room(&self) -> (yes: bool)
        requires
            self.wf(),
        ensures
            yes == (self@.room() > 0),
    {
        self.shapes.len() < self.capacity as usize
    }

    /// Appends a sphere and its directory entry; gives the entry's index.
    fn push_sphere(&mut self, sphere: Sphere, props: ShapeProperties, root: bool) -> (index: u32)
        requires
            old(self).wf(),
            old(self)@.room() > 0,
        ensures
            final(self).wf(),
            final(self)@ == old(self)@.push_sphere(sphere, props, root),
            index == final(self)@.top(),
    {
        proof {
            lemma_kind_count_bound(self@.shapes, SPHERE_KIND);
            lemma_push_sphere(self@, sphere, props, root);
        }
        let entry = Shape::from_prop(
            ShapeProperties { color: props.color, reflectivity: props.reflectivity, visible: root },
            SPHERE_KIND,
            self.spheres.len() as u32,
        );
        let index = self.shapes.len() as u32;
        self.spheres.push(sphere);
        self.shapes.push(entry);
        index
    }

    /// Appends a cuboid and its directory entry; gives the entry's index.
    fn push_cuboid(&mut self, cuboid: Cuboid, props: ShapeProperties, root: bool) -> (index: u32)
        requires
            old(self).wf(),
            old(self)@.room() > 0,
        ensures
            final(self).wf(),
            final(self)@ == old(self)@.push_cuboid(cuboid, props, root),
            index == final(self)@.top(),
    {
        proof {
            lemma_kind_count_bound(self@.shapes, CUBOID_KIND);
            lemma_push_cuboid(self@, cuboid, props, root);
        }
        let entry = Shape::from_prop(
            ShapeProperties { color: props.color, reflectivity: props.reflectivity, visible: root },
            CUBOID_KIND,
            self.cuboids.len() as u32,
        );
        let index = self.shapes.len() as u32;
        self.cuboids.push(cuboid);
        self.shapes.push(entry);
        index
    }

    /// Appends a composite record and its directory entry; gives the
    /// entry's index. Both operands must already be in the directory.
    fn push_composit(&mut self, record: Composit, root: bool) -> (index: u32)
        requires
            old(self).wf(),
            old(self)@.room() > 0,
            record.a < old(self)@.shapes.len(),
            record.b < old(self)@.shapes.len(),
        ensures
            final(self).wf(),
            final(self)@ == old(self)@.push_composit(record, root),
            index == final(self)@.top(),
    {
        proof {
            lemma_kind_count_bound(self@.shapes, COMPOSITE_KIND);
            lemma_push_composit(self@, record, root);
        }
        let flag: u32 = if root {
            1
        } else {
            0
        };
        let entry = Shape::new(
            Color(Scalar::zero(), Scalar::zero(), Scalar::one()),
            COMPOSITE_KIND,
            self.composits.len() as u32,
            Scalar::zero(),
            flag,
        );
        let index = self.shapes.len() as u32;
        self.composits.push(record);
        self.shapes.push(entry);
        index
    }

    /// Adds a sphere to the scene as a shape of its own.
    ///
    /// With room in the tables, the sphere is appended, its directory entry
    /// is a root, the registry is marked as changed, and the result is the
    /// index of that entry. Without room the registry stays as it is.
    pub fn add_sphere(&mut self, sphere: Sphere, props: ShapeProperties) -> (result: Result<
        u32,
        SceneError,
    >)
        requires
            old(self).wf(),
        ensures
            final(self).wf(),
            old(self)@.room() > 0 ==> result == Ok::<u32, SceneError>(old(self)@.shapes.len() as u32)
                && final(self)@ == old(self)@.push_sphere(sphere, props, true).touched(),
            old(self)@.room() <= 0 ==> result == Err::<u32, SceneError>(
                SceneError::CapacityExceeded,
            ) && final(self)@ == old(self)@,
    {
        if !self.has_room() {
            return Err(SceneError::CapacityExceeded);
        }
        let index = self.push_sphere(sphere, props, true);
        proof {
            lemma_flag_keeps_wf(self@);
        }
        self.dirty = true;
        Ok(index)
    }

    /// Adds a cuboid to the scene as a shape of its own.
    ///
    /// With room in the tables, the cuboid is appended, its directory entry
    /// is a root, the registry is marked as changed, and the result is the
    /// index of that entry. Without room the registry stays as it is.
    pub fn add_cube(&mut self, cuboid: Cuboid, props: ShapeProperties) -> (result: Result<
        u32,
        SceneError,
    >)
        requires
            old(self).wf(),
        ensures
            final(self).wf(),
            old(self)@.room() > 0 ==> result == Ok::<u32, SceneError>(old(self)@.shapes.len() as u32)
                && final(self)@ == old(self)@.push_cuboid(cuboid, props, true).touched(),
            old(self)@.room() <= 0 ==> result == Err::<u32, SceneError>(
                SceneError::CapacityExceeded,
            ) && final(self)@ == old(self)@,
    {
        if !self.has_room() {
            return Err(SceneError::CapacityExceeded);
        }
        let index = self.push_cuboid(cuboid, props, true);
        proof {
            lemma_flag_keeps_wf(self@);
        }
        self.dirty = true;
        Ok(index)
    }

    /// Adds the shape that `desc` describes to the scene.
    ///
    /// If the directory has room for every node of the tree, the tree is
    /// flattened onto the tables, the entry of its outermost node is the one
    /// root among the new entries, the registry is marked as changed, and
    /// the result is the index of that entry. Otherwise the registry stays
    /// as it is.
    pub fn create_composite(&mut self, desc: &CompositDescriptor) -> (result: Result<
        u32,
        SceneError,
    >)
        requires
            old(self).wf(),
        ensures
            final(self).wf(),
            desc.nodes() <= old(self)@.room() ==> result == Ok::<u32, SceneError>(
                (old(self)@.shapes.len() + desc.nodes() - 1) as u32,
            ) && final(self)@ == old(self)@.flattened(*desc, true).touched(),
            desc.nodes() > old(self)@.room() ==> result == Err::<u32, SceneError>(
                SceneError::CapacityExceeded,
            ) && final(self)@ == old(self)@,
    {
        let room: u32 = self.capacity - self.shapes.len() as u32;
        if desc.nodes_within(room).is_none() {
            return Err(SceneError::CapacityExceeded);
        }
        let index = self.generate_composite(desc, true);
        proof {
            lemma_flag_keeps_wf(self@);
        }
        self.dirty = true;
        Ok(index)
    }

    /// Flattens `desc` onto the tables, children before parents, and gives
    /// the directory index of the entry made for its outermost node.
    fn generate_composite(&mut self, desc: &CompositDescriptor, root: bool) -> (index: u32)
        requires
            old(self).wf(),
            desc.nodes() <= old(self)@.room(),
        ensures
            final(self).wf(),
            final(self)@ == old(self)@.flattened(*desc, root),
            index == final(self)@.top(),
            index == old(self)@.shapes.len() + desc.nodes() - 1,
        decreases desc,
    {
        proof {
            lemma_flattened(self@, *desc, root);
        }
        match desc {
            CompositDescriptor::CUBOID(cuboid, props) => self.push_cuboid(*cuboid, *props, root),
            CompositDescriptor::SPHERE(sphere, props) => self.push_sphere(*sphere, *props, root),
            _ => {
                let (left, right) = desc.operands().unwrap();
                proof {
                    lemma_flattened(self@, *left, false);
                }
                let a = self.generate_composite(left, false);
                proof {
                    lemma_flattened(self@, *right, false);
                }
                let b = self.generate_composite(right, false);
                let record = Composit::new(a, b, desc.op_code(), desc.blend_factor());
                self.push_composit(record, root)
            },
        }
    }

    /// The count header: the number of live directory entries, as bytes.
    pub fn count_bytes(&self) -> (bytes: Vec<u8>)
        requires
            self.wf(),
        ensures
            is_memory_image(bytes@, (ShapeCount(self@.shapes.len() as u32)).words()),
            bytes@.len() == 4,
    {
        let header = ShapeCount(self.shapes.len() as u32);
        record_bytes(&header)
    }

    /// The live part of the shape directory, as bytes.
    pub fn shapes_bytes(&self) -> (bytes: Vec<u8>)
        ensures
            is_memory_image(bytes@, table_words(self@.shapes)),
            bytes@.len() == 4 * SHAPE_WORDS * self@.shapes.len(),
    {
        table_bytes(&self.shapes)
    }

    /// The live part of the sphere table, as bytes.
    pub fn sphere_bytes(&self) -> (bytes: Vec<u8>)
        ensures
            is_memory_image(bytes@, table_words(self@.spheres)),
            bytes@.len() == 4 * SPHERE_WORDS * self@.spheres.len(),
    {
        table_bytes(&self.spheres)
    }

    /// The live part of the cuboid table, as bytes.
    pub fn cuboids_bytes(&self) -> (bytes: Vec<u8>)
        ensures
            is_memory_image(bytes@, table_words(self@.cuboids)),
            bytes@.len() == 4 * CUBOID_WORDS * self@.cuboids.len(),
    {
        table_bytes(&self.cuboids)
    }

    /// The live part of the composite table, as bytes.
    pub fn composit_bytes(&self) -> (bytes: Vec<u8>)
        ensures
            is_memory_image(bytes@, table_words(self@.composits)),
            bytes@.len() == 4 * COMPOSIT_WORDS * self@.composits.len(),
    {
        table_bytes(&self.composits)
    }

    /// Hands the tables out if anything changed since they were last handed
    /// out.
    ///
    /// With nowhere to send them (`sink_ready` is false) the call fails and
    /// the registry stays as it is, so that a later call can try again. With
    /// a sink and no change there is nothing to do. With a sink and a change
    /// the result is the image of the header and all four tables together,
    /// and the registry is marked as handed out.
    pub fn update_buffers(&mut self, sink_ready: bool) -> (result: Result<
        Option<BufferImage>,
        SceneError,
    >)
        requires
            old(self).wf(),
        ensures
            final(self).wf(),
            !sink_ready ==> result == Err::<Option<BufferImage>, SceneError>(
                SceneError::SinkUnavailable,
            ) && final(self)@ == old(self)@,
            sink_ready && !old(self)@.dirty ==> result == Ok::<Option<BufferImage>, SceneError>(
                None,
            ) && final(self)@ == old(self)@,
            sink_ready && old(self)@.dirty ==> final(self)@ == old(self)@.synced() && (match result {
                Ok(Some(image)) => image.depicts(old(self)@),
                _ => false,
            }),
    {
        if !sink_ready {
            return Err(SceneError::SinkUnavailable);
        }
        if !self.dirty {
            return Ok(None);
        }
        let image = BufferImage {
            count: self.count_bytes(),
            shapes: self.shapes_bytes(),
            spheres: self.sphere_bytes(),
            cuboids: self.cuboids_bytes(),
            composits: self.composit_bytes(),
        };
        proof {
            lemma_flag_keeps_wf(self@);
        }
        self.dirty = false;
        Ok(Some(image))
    }

    /// The sizes of the buffers that a renderer shares with this registry:
    /// four bytes for the header, and for each table its full capacity
    /// times the size of one record.
    pub fn buffer_sizes(&self) -> (sizes: BufferSizes)
        ensures
            sizes.count == 4,
            sizes.shapes == 4 * SHAPE_WORDS * self@.capacity,
            sizes.spheres == 4 * SPHERE_WORDS * self@.capacity,
            sizes.cuboids == 4 * CUBOID_WORDS * self@.capacity,
            sizes.composits == 4 * COMPOSIT_WORDS * self@.capacity,
    {
        BufferSizes {
            count: 4,
            shapes: table_size(SHAPE_WORDS, self.capacity),
            spheres: table_size(SPHERE_WORDS, self.capacity),
            cuboids: table_size(CUBOID_WORDS, self.capacity),
            composits: table_size(COMPOSIT_WORDS, self.capacity),
        }
    }

    /// The most entries that each table may hold.
    pub fn capacity(&self) -> (capacity: u32)
        ensures
            capacity == self@.capacity,
    {
        self.capacity
    }

    /// Whether a table has changed since the tables were last handed out.
    pub fn is_dirty(&self) -> (dirty: bool)
        ensures
            dirty == self@.dirty,
    {
        self.dirty
    }

    /// Number of entries in the shape directory.
    pub fn shape_count(&self) -> (count: usize)
        ensures
            count == self@.shapes.len(),
    {
        self.shapes.len()
    }

    /// Number of entries in the sphere table.
    pub fn sphere_count(&self) -> (count: usize)
        ensures
            count == self@.spheres.len(),
    {
        self.spheres.len()
    }

    /// Number of entries in the cuboid table.
    pub fn cuboid_count(&self) -> (count: usize)
        ensures
            count == self@.cuboids.len(),
    {
        self.cuboids.len()
    }

    /// Number of entries in the composite table.
    pub fn composit_count(&self) -> (count: usize)
        ensures
            count == self@.composits.len(),
    {
        self.composits.len()
    }

    /// The directory entry at `index`, if there is one.
    pub fn shape(&self, index: usize) -> (entry: Option<Shape>)
        ensures
            entry == if index < self@.shapes.len() {
                Some(self@.shapes[index as int])
            } else {
                None
            },
    {
        if index < self.shapes.len() {
            Some(self.shapes[index])
        } else {
            None
        }
    }

    /// The sphere at `index` of its table, if there is one.
    pub fn sphere(&self, index: usize) -> (entry: Option<Sphere>)
        ensures
            entry == if index < self@.spheres.len() {
                Some(self@.spheres[index as int])
            } else {
                None
            },
    {
        if index < self.spheres.len() {
            Some(self.spheres[index])
        } else {
            None
        }
    }

    /// The cuboid at `index` of its table, if there is one.
    pub fn cuboid(&self, index: usize) -> (entry: Option<Cuboid>)
        ensures
            entry == if index < self@.cuboids.len() {
                Some(self@.cuboids[index as int])
            } else {
                None
            },
    {
        if index < self.cuboids.len() {
            Some(self.cuboids[index])
        } else {
            None
        }
    }

    /// The composite record at `index` of its table, if there is one.
    pub fn composit(&self, index: usize) -> (entry: Option<Composit>)
        ensures
            entry == if index < self@.composits.len() {
                Some(self@.composits[index as int])
            } else {
                None
            },
    {
        if index < self.composits.len() {
            Some(self.composits[index])
        } else {
            None
        }
    }
}

} // verus!
