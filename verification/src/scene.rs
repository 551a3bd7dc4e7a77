//! Scene setup and the draw: the quad's geometry, the layout of its vertex
//! records, the transforms, and the commands that upload and draw them.
//!
//! Every number of the scene is a whole number and is kept as one; the host
//! turns them into 32-bit floats when it fills buffers and matrices.

use vstd::prelude::*;
use crate::builder::BoundProgram;
use crate::upload::{BufferId, BufferTarget};

verus! {

/// Components of a position.
pub const POSITION_COMPONENTS: i32 = 3;

/// Components of a color.
pub const COLOR_COMPONENTS: i32 = 4;

/// Bytes of one 32-bit float.
pub const FLOAT_BYTES: i32 = 4;

/// Corners of the quad.
pub const VERTEX_COUNT: usize = 4;

/// Half the side of the quad.
pub const HALF_EXTENT: i32 = 30;

/// A vertex attribute of the program.
#[derive(Clone, Copy, Debug, PartialEq, Eq, Structural)]
pub enum Attribute {
    Position,
    Color,
}

/// A matrix uniform of the program.
#[derive(Clone, Copy, Debug, PartialEq, Eq, Structural)]
pub enum Uniform {
    Model,
    View,
    Projection,
}

/// Where an attribute lies in a vertex record: how many floats it has, and
/// the stride and offset in bytes.
#[derive(Clone, Copy, Debug, PartialEq, Eq, Structural)]
pub struct AttributeLayout {
    pub components: i32,
    pub stride: i32,
    pub offset: i32,
}

/// The layout of an attribute in the interleaved records: a position of
/// three floats, then a color of four.
pub open spec fn layout_of(attribute: Attribute) -> AttributeLayout {
    match attribute {
        Attribute::Position => AttributeLayout {
            components: POSITION_COMPONENTS,
            stride: ((POSITION_COMPONENTS + COLOR_COMPONENTS) * FLOAT_BYTES) as i32,
            offset: 0,
        },
        Attribute::Color => AttributeLayout {
            components: COLOR_COMPONENTS,
            stride: ((POSITION_COMPONENTS + COLOR_COMPONENTS) * FLOAT_BYTES) as i32,
            offset: (POSITION_COMPONENTS * FLOAT_BYTES) as i32,
        },
    }
}

/// The layout of an attribute in the interleaved records.
pub fn layout(attribute: Attribute) -> (l: AttributeLayout)
    ensures
        l == layout_of(attribute),
        l.stride == 28,
        attribute == Attribute::Position ==> l.components == 3 && l.offset == 0,
        attribute == Attribute::Color ==> l.components == 4 && l.offset == 12,
{
    let stride: i32 = (POSITION_COMPONENTS + COLOR_COMPONENTS) * FLOAT_BYTES;
    match attribute {
        Attribute::Position => AttributeLayout { components: POSITION_COMPONENTS, stride, offset: 0 },
        Attribute::Color => AttributeLayout {
            components: COLOR_COMPONENTS,
            stride,
            offset: POSITION_COMPONENTS * FLOAT_BYTES,
        },
    }
}

/// The name by which the program knows an attribute.
pub fn attribute_name(attribute: Attribute) -> (name: &'static str)
    ensures
        name@ == match attribute {
            Attribute::Position => "vertex_position"@,
            Attribute::Color => "color"@,
        },
{
    match attribute {
        Attribute::Position => "vertex_position",
        Attribute::Color => "color",
    }
}

/// The name by which the program knows a uniform.
pub fn uniform_name(uniform: Uniform) -> (name: &'static str)
    ensures
        name@ == match uniform {
            Uniform::Model => "model"@,
            Uniform::View => "view"@,
            Uniform::Projection => "projection"@,
        },
{
    match uniform {
        Uniform::Model => "model",
        Uniform::View => "view",
        Uniform::Projection => "projection",
    }
}

/// The record of one corner: position x, y, z, then color r, g, b, a.
pub open spec fn corner_record(x: i32, y: i32, r: i32, g: i32, b: i32) -> Seq<i32> {
    seq![x, y, 0i32, r, g, b, 1i32]
}

/// The four records of the quad, interleaved: top left in green, bottom left
/// and top right in red, bottom right in blue.
pub open spec fn quad_records() -> Seq<i32> {
    corner_record((-HALF_EXTENT) as i32, HALF_EXTENT, 0, 1, 0) + corner_record(
        (-HALF_EXTENT) as i32,
        (-HALF_EXTENT) as i32,
        1,
        0,
        0,
    ) + corner_record(HALF_EXTENT, HALF_EXTENT, 1, 0, 0) + corner_record(
        HALF_EXTENT,
        (-HALF_EXTENT) as i32,
        0,
        0,
        1,
    )
}

/// The two triangles that cover the quad, as indices into its corners.
pub open spec fn quad_triangles() -> Seq<u16> {
    seq![0u16, 1u16, 2u16, 1u16, 3u16, 2u16]
}

/// The interleaved vertex records of the quad: four corners of seven values.
pub fn quad_vertices() -> (v: Vec<i32>)
    ensures
        v@ == quad_records(),
        v@.len() == VERTEX_COUNT * (POSITION_COMPONENTS + COLOR_COMPONENTS),
{
    let h: i32 = HALF_EXTENT;
    let corners: [(i32, i32, i32, i32, i32); 4] = [
        (-h, h, 0, 1, 0),
        (-h, -h, 1, 0, 0),
        (h, h, 1, 0, 0),
        (h, -h, 0, 0, 1),
    ];
    let mut v: Vec<i32> = Vec::new();
    let mut i: usize = 0;
    while i < 4
        invariant
            i <= 4,
            h == HALF_EXTENT,
            corners[0] == ((-h) as i32, h, 0i32, 1i32, 0i32),
            corners[1] == ((-h) as i32, (-h) as i32, 1i32, 0i32, 0i32),
            corners[2] == (h, h, 1i32, 0i32, 0i32),
            corners[3] == (h, (-h) as i32, 0i32, 0i32, 1i32),
            v@.len() == 7 * i,
            forall|k: int|
                0 <= k < i ==> #[trigger] v@.subrange(7 * k, 7 * k + 7) == corner_record(
                    corners[k].0,
                    corners[k].1,
                    corners[k].2,
                    corners[k].3,
                    corners[k].4,
                ),
        decreases 4 - i,
    {
        let ghost before = v@;
        let c = corners[i];
        v.push(c.0);
        v.push(c.1);
        v.push(0);
        v.push(c.2);
        v.push(c.3);
        v.push(c.4);
        v.push(1);
        proof {
            assert(v@.subrange(7 * i, 7 * i + 7) =~= corner_record(c.0, c.1, c.2, c.3, c.4));
            assert forall|k: int| 0 <= k < i implies #[trigger] v@.subrange(7 * k, 7 * k + 7)
                == corner_record(
                corners[k].0,
                corners[k].1,
                corners[k].2,
                corners[k].3,
                corners[k].4,
            ) by {
                assert(v@.subrange(7 * k, 7 * k + 7) =~= before.subrange(7 * k, 7 * k + 7));
            }
        }
        i = i + 1;
    }
    proof {
        assert(v@ =~= v@.subrange(0, 7) + v@.subrange(7, 14) + v@.subrange(14, 21) + v@.subrange(
            21,
            28,
        ));
        assert(v@.subrange(7 * 0int, 7 * 0int + 7) == v@.subrange(0, 7));
        assert(v@.subrange(7 * 1int, 7 * 1int + 7) == v@.subrange(7, 14));
        assert(v@.subrange(7 * 2int, 7 * 2int + 7) == v@.subrange(14, 21));
        assert(v@.subrange(7 * 3int, 7 * 3int + 7) == v@.subrange(21, 28));
    }
    v
}

/// The index list of the quad: two triangles, each index naming a corner.
pub fn quad_indices() -> (v: Vec<u16>)
    ensures
        v@ == quad_triangles(),
        v@.len() == 6,
        forall|i: int| 0 <= i < v@.len() ==> (#[trigger] v@[i]) < VERTEX_COUNT,
{
    let mut v: Vec<u16> = Vec::new();
    v.push(0);
    v.push(1);
    v.push(2);
    v.push(1);
    v.push(3);
    v.push(2);
    assert(v@ =~= quad_triangles());
    v
}

/// One factor of the model transform, applied to the identity matrix.
#[derive(Clone, Copy, Debug, PartialEq, Eq, Structural)]
pub enum Factor {
    /// Scaling by the given factors along x, y and z.
    Scale { x: i32, y: i32, z: i32 },
    /// Rotation about the z axis by `numerator / denominator` times pi radians.
    RotateZ { numerator: i32, denominator: i32 },
    /// Translation by the given vector.
    Translate { x: i32, y: i32, z: i32 },
}

/// The factors of the model transform in the order of multiplication, left
/// to right: translation times rotation times scale. Applied to a point, the
/// scale acts first and the translation last.
pub open spec fn model_product() -> Seq<Factor> {
    seq![
        Factor::Translate { x: 40, y: 0, z: -20i32 },
        Factor::RotateZ { numerator: 1, denominator: 8 },
        Factor::Scale { x: 1, y: 1, z: 1 },
    ]
}

/// The factors of the model transform, in the order of multiplication.
pub fn model_factors() -> (f: Vec<Factor>)
    ensures
        f@ == model_product(),
{
    let mut f: Vec<Factor> = Vec::new();
    f.push(Factor::Translate { x: 40, y: 0, z: -20 });
    f.push(Factor::RotateZ { numerator: 1, denominator: 8 });
    f.push(Factor::Scale { x: 1, y: 1, z: 1 });
    assert(f@ =~= model_product());
    f
}

/// A point or a direction in space.
#[derive(Clone, Copy, Debug, PartialEq, Eq, Structural)]
pub struct Vector {
    pub x: i32,
    pub y: i32,
    pub z: i32,
}

/// A look-at view: where the eye is, what it looks at, and which way is up.
#[derive(Clone, Copy, Debug, PartialEq, Eq, Structural)]
pub struct LookAt {
    pub eye: Vector,
    pub target: Vector,
    pub up: Vector,
}

/// A frustum projection by its six clipping planes.
#[derive(Clone, Copy, Debug, PartialEq, Eq, Structural)]
pub struct Frustum {
    pub left: i32,
    pub right: i32,
    pub bottom: i32,
    pub top: i32,
    pub near: i32,
    pub far: i32,
}

/// The view transform: from (0, 60, 90) toward the origin, y up.
pub fn view_transform() -> (v: LookAt)
    ensures
        v == (LookAt {
            eye: Vector { x: 0, y: 60, z: 90 },
            target: Vector { x: 0, y: 0, z: 0 },
            up: Vector { x: 0, y: 1, z: 0 },
        }),
{
    LookAt {
        eye: Vector { x: 0, y: 60, z: 90 },
        target: Vector { x: 0, y: 0, z: 0 },
        up: Vector { x: 0, y: 1, z: 0 },
    }
}

/// The projection: 40 units to each side, from depth 30 to depth 150.
pub fn projection_transform() -> (p: Frustum)
    ensures
        p == (Frustum { left: -40i32, right: 40, bottom: -40i32, top: 40, near: 30, far: 150 }),
        p.left < p.right,
        p.bottom < p.top,
        0 < p.near < p.far,
{
    Frustum { left: -40, right: 40, bottom: -40, top: 40, near: 30, far: 150 }
}

/// How the indices of a draw form primitives.
#[derive(Clone, Copy, Debug, PartialEq, Eq, Structural)]
pub enum Topology {
    /// Every three indices are one triangle.
    Triangles,
}

/// The type of the indices of a draw.
#[derive(Clone, Copy, Debug, PartialEq, Eq, Structural)]
pub enum IndexType {
    /// Unsigned integers of 16 bits.
    UnsignedShort,
}

/// What the host does on the graphics context to set up and draw the scene.
#[derive(Clone, Copy, Debug, PartialEq, Eq, Structural)]
pub enum SceneCommand {
    /// Resolve the uniform by its name and set it to its matrix, not
    /// transposed.
    SetUniform(Uniform),
    /// Bind the buffer to the target.
    BindBuffer { target: BufferTarget, buffer: BufferId },
    /// Resolve the attribute by its name and enable its array.
    EnableAttribute(Attribute),
    /// Point the attribute at its floats in the bound vertex buffer, not
    /// normalized.
    AttributePointer { attribute: Attribute, layout: AttributeLayout },
    /// Draw `count` indices of the bound index buffer, from byte `offset`.
    DrawIndexed { topology: Topology, count: i32, index_type: IndexType, offset: i32 },
    /// Flush the command stream.
    Flush,
}

/// The commands of scene setup and draw, in their order: the three
/// matrices, the vertex buffer with both attributes enabled and laid out,
/// then the index buffer, one draw of all six indices, and the flush.
pub open spec fn scene_script(vertex_buffer: BufferId, index_buffer: BufferId) -> Seq<
    SceneCommand,
> {
    seq![
        SceneCommand::SetUniform(Uniform::Model),
        SceneCommand::SetUniform(Uniform::View),
        SceneCommand::SetUniform(Uniform::Projection),
        SceneCommand::BindBuffer { target: BufferTarget::Array, buffer: vertex_buffer },
        SceneCommand::EnableAttribute(Attribute::Position),
        SceneCommand::EnableAttribute(Attribute::Color),
        SceneCommand::AttributePointer {
            attribute: Attribute::Position,
            layout: layout_of(Attribute::Position),
        },
        SceneCommand::AttributePointer {
            attribute: Attribute::Color,
            layout: layout_of(Attribute::Color),
        },
        SceneCommand::BindBuffer { target: BufferTarget::ElementArray, buffer: index_buffer },
        SceneCommand::DrawIndexed {
            topology: Topology::Triangles,
            count: 6,
            index_type: IndexType::UnsignedShort,
            offset: 0,
        },
        SceneCommand::Flush,
    ]
}

/// The commands that set up and draw the scene with the two uploaded
/// buffers. They are only to be had for a bound program.
pub fn scene_commands(program: &BoundProgram, vertex_buffer: BufferId, index_buffer: BufferId) -> (c:
    Vec<SceneCommand>)
    ensures
        c@ == scene_script(vertex_buffer, index_buffer),
{
    let indices = quad_indices();
    let count: i32 = 6;
    assert(count == indices@.len());
    let mut c: Vec<SceneCommand> = Vec::new();
    c.push(SceneCommand::SetUniform(Uniform::Model));
    c.push(SceneCommand::SetUniform(Uniform::View));
    c.push(SceneCommand::SetUniform(Uniform::Projection));
    c.push(SceneCommand::BindBuffer { target: BufferTarget::Array, buffer: vertex_buffer });
    c.push(SceneCommand::EnableAttribute(Attribute::Position));
    c.push(SceneCommand::EnableAttribute(Attribute::Color));
    c.push(
        SceneCommand::AttributePointer {
            attribute: Attribute::Position,
            layout: layout(Attribute::Position),
        },
    );
    c.push(
        SceneCommand::AttributePointer {
            attribute: Attribute::Color,
            layout: layout(Attribute::Color),
        },
    );
    c.push(SceneCommand::BindBuffer { target: BufferTarget::ElementArray, buffer: index_buffer });
    c.push(
        SceneCommand::DrawIndexed {
            topology: Topology::Triangles,
            count,
            index_type: IndexType::UnsignedShort,
            offset: 0,
        },
    );
    c.push(SceneCommand::Flush);
    assert(c@ =~= scene_script(vertex_buffer, index_buffer));
    c
}

/// The scene is drawn exactly once, over all indices of the quad, after both
/// attribute arrays are enabled; the flush is the last command.
pub proof fn lemma_single_draw(vertex_buffer: BufferId, index_buffer: BufferId)
    ensures
        ({
            let script = scene_script(vertex_buffer, index_buffer);
            &&& forall|i: int|
                0 <= i < script.len() ==> ((#[trigger] script[i]) is DrawIndexed <==> i == 9)
            &&& script[9] == (SceneCommand::DrawIndexed {
                topology: Topology::Triangles,
                count: quad_triangles().len() as i32,
                index_type: IndexType::UnsignedShort,
                offset: 0,
            })
            &&& script[4] == SceneCommand::EnableAttribute(Attribute::Position)
            &&& script[5] == SceneCommand::EnableAttribute(Attribute::Color)
            &&& script.last() == SceneCommand::Flush
        }),
{
}

} // verus!
