//! How the vertex stage reads the two vertex buffers.
//!
//! Every pipeline object is built with the same layout, whatever its shader:
//! the corners of the unit quad, one to a vertex, and the instance records,
//! one to an instance.

use vstd::prelude::*;
use crate::layer::{INSTANCE_STRIDE, INSTANCE_WORDS};

verus! {

/// The name of the vertex entry point that a shader declares.
pub const VERTEX_ENTRY_POINT: &'static str = "vs_main";

/// The name of the fragment entry point that a shader declares.
pub const FRAGMENT_ENTRY_POINT: &'static str = "fs_main";

/// The number of bytes of one vertex.
pub const VERTEX_STRIDE: u64 = 8;

/// What an attribute is made of.
#[derive(Clone, Copy, Debug, PartialEq, Eq, Structural)]
pub enum VertexFormat {
    /// Two 32-bit IEEE 754 numbers.
    Float32x2,
    /// Four 32-bit IEEE 754 numbers.
    Float32x4,
    /// One 32-bit IEEE 754 number.
    Float32,
    /// One unsigned 32-bit integer.
    Uint32,
}

impl VertexFormat {
    /// The number of 32-bit words of an attribute of this format.
    pub open spec fn words(self) -> nat {
        match self {
            VertexFormat::Float32x2 => 2,
            VertexFormat::Float32x4 => 4,
            VertexFormat::Float32 => 1,
            VertexFormat::Uint32 => 1,
        }
    }

    /// The number of bytes of an attribute of this format.
    pub fn size(self) -> (size: u64)
        ensures
            size == 4 * self.words(),
    {
        match self {
            VertexFormat::Float32x2 => 8,
            VertexFormat::Float32x4 => 16,
            VertexFormat::Float32 => 4,
            VertexFormat::Uint32 => 4,
        }
    }
}

/// One input of the vertex stage.
#[derive(Clone, Copy, Debug, PartialEq, Eq, Structural)]
pub struct VertexAttribute {
    /// The location at which the shader declares the input.
    pub shader_location: u32,
    /// What the input is made of.
    pub format: VertexFormat,
    /// Where the input starts in the vertex or in the instance record, in bytes.
    pub offset: u64,
}

/// How often the vertex stage moves on in a buffer.
#[derive(Clone, Copy, Debug, PartialEq, Eq, Structural)]
pub enum StepMode {
    /// Once for each vertex.
    Vertex,
    /// Once for each instance.
    Instance,
}

/// The layout of one vertex buffer.
#[derive(Debug)]
pub struct VertexBufferLayout {
    /// The number of bytes from one element to the next.
    pub array_stride: u64,
    /// How often the vertex stage moves on.
    pub step_mode: StepMode,
    /// The inputs that are read from one element.
    pub attributes: Vec<VertexAttribute>,
}

/// A factor of the blend equation.
#[derive(Clone, Copy, Debug, PartialEq, Eq, Structural)]
pub enum BlendFactor {
    /// 0.0
    Zero,
    /// 1.0
    One,
    /// The alpha of the color that the shader returns.
    SrcAlpha,
    /// One minus the alpha of the color that the shader returns.
    OneMinusSrcAlpha,
}

/// The operation of the blend equation.
#[derive(Clone, Copy, Debug, PartialEq, Eq, Structural)]
pub enum BlendOperation {
    /// Source plus destination.
    Add,
    /// Source minus destination.
    Subtract,
}

/// How the color or the alpha of a fragment is blended with what is there:
/// `source * src_factor`, `operation`, `destination * dst_factor`.
#[derive(Clone, Copy, Debug, PartialEq, Eq, Structural)]
pub struct BlendComponent {
    /// The factor of what the shader returns.
    pub src_factor: BlendFactor,
    /// The factor of what is there.
    pub dst_factor: BlendFactor,
    /// The operation between the two.
    pub operation: BlendOperation,
}

/// How vertices make triangles.
#[derive(Clone, Copy, Debug, PartialEq, Eq, Structural)]
pub enum PrimitiveTopology {
    /// Every three vertices make a triangle.
    TriangleList,
    /// Every vertex makes a triangle with the two before it.
    TriangleStrip,
}

/// The winding of a triangle that faces the viewer.
#[derive(Clone, Copy, Debug, PartialEq, Eq, Structural)]
pub enum FrontFace {
    /// Counter-clockwise.
    Ccw,
    /// Clockwise.
    Cw,
}

/// What differs between no two pipeline objects.
#[derive(Clone, Copy, Debug, PartialEq, Eq, Structural)]
pub struct FixedState {
    /// How the color is blended.
    pub color_blend: BlendComponent,
    /// How the alpha is blended.
    pub alpha_blend: BlendComponent,
    /// How vertices make triangles.
    pub topology: PrimitiveTopology,
    /// The winding of a triangle that faces the viewer.
    pub front_face: FrontFace,
    /// The number of samples of a pixel.
    pub sample_count: u32,
    /// The samples that are written.
    pub sample_mask: u64,
}

/// The fixed state: the alpha of the shader's color blends it over what is
/// there, triangles come in a list and are wound clockwise, and every pixel
/// has one sample.
pub open spec fn fixed_state() -> FixedState {
    FixedState {
        color_blend: BlendComponent {
            src_factor: BlendFactor::SrcAlpha,
            dst_factor: BlendFactor::OneMinusSrcAlpha,
            operation: BlendOperation::Add,
        },
        alpha_blend: BlendComponent {
            src_factor: BlendFactor::One,
            dst_factor: BlendFactor::OneMinusSrcAlpha,
            operation: BlendOperation::Add,
        },
        topology: PrimitiveTopology::TriangleList,
        front_face: FrontFace::Cw,
        sample_count: 1,
        sample_mask: u64::MAX,
    }
}

/// What a pipeline object is built from.
#[derive(Debug)]
pub struct PipelineDescription {
    /// The identity of the shader whose module holds both entry points;
    /// `None` for the built-in shader.
    pub shader: Option<u64>,
    /// The name of the vertex entry point.
    pub vertex_entry_point: &'static str,
    /// The name of the fragment entry point.
    pub fragment_entry_point: &'static str,
    /// The layout of the buffer of the quad's corners.
    pub vertices: VertexBufferLayout,
    /// The layout of the instance buffer.
    pub instances: VertexBufferLayout,
    /// Blending, topology and sampling.
    pub fixed: FixedState,
}

/// The one input of a vertex: the position of the corner.
pub open spec fn vertex_attributes() -> Seq<VertexAttribute> {
    seq![VertexAttribute { shader_location: 0, format: VertexFormat::Float32x2, offset: 0 }]
}

/// The inputs of an instance, in the order of the record: position, size,
/// color, mouse position, mouse state, time, frame number.
pub open spec fn instance_attributes() -> Seq<VertexAttribute> {
    seq![
        VertexAttribute { shader_location: 1, format: VertexFormat::Float32x2, offset: 0 },
        VertexAttribute { shader_location: 2, format: VertexFormat::Float32x2, offset: 8 },
        VertexAttribute { shader_location: 3, format: VertexFormat::Float32x4, offset: 16 },
        VertexAttribute { shader_location: 4, format: VertexFormat::Float32x2, offset: 32 },
        VertexAttribute { shader_location: 5, format: VertexFormat::Uint32, offset: 40 },
        VertexAttribute { shader_location: 6, format: VertexFormat::Float32, offset: 44 },
        VertexAttribute { shader_location: 7, format: VertexFormat::Uint32, offset: 48 },
    ]
}

/// The attributes lie one after the other from the byte 0 on and end at
/// `stride`, and their locations count up from `location`.
pub open spec fn tiles(attributes: Seq<VertexAttribute>, location: int, stride: int) -> bool {
    &&& attributes.len() > 0
    &&& attributes[0].offset == 0
    &&& forall|k: int|
        0 <= k < attributes.len() ==> (#[trigger] attributes[k]).shader_location == location + k
    &&& forall|j: int, k: int|
        0 <= j && k == j + 1 && k < attributes.len() ==> (#[trigger] attributes[k]).offset == (
        #[trigger] attributes[j]).offset + 4 * attributes[j].format.words()
    &&& attributes.last().offset + 4 * attributes.last().format.words() == stride
}

/// The description of a pipeline object is the same for every shader but for
/// the shader itself.
pub open spec fn describes(description: PipelineDescription, shader: Option<u64>) -> bool {
    &&& description.shader == shader
    &&& description.vertex_entry_point == VERTEX_ENTRY_POINT
    &&& description.fragment_entry_point == FRAGMENT_ENTRY_POINT
    &&& description.vertices.array_stride == VERTEX_STRIDE
    &&& description.vertices.step_mode == StepMode::Vertex
    &&& description.vertices.attributes@ == vertex_attributes()
    &&& description.instances.array_stride == INSTANCE_STRIDE
    &&& description.instances.step_mode == StepMode::Instance
    &&& description.instances.attributes@ == instance_attributes()
    &&& description.fixed == fixed_state()
}

/// Describes the pipeline object of a shader.
pub fn describe_pipeline(shader: Option<u64>) -> (description: PipelineDescription)
    ensures
        describes(description, shader),
{
    let mut vertex: Vec<VertexAttribute> = Vec::new();
    vertex.push(VertexAttribute { shader_location: 0, format: VertexFormat::Float32x2, offset: 0 });
    let formats = [
        VertexFormat::Float32x2,
        VertexFormat::Float32x2,
        VertexFormat::Float32x4,
        VertexFormat::Float32x2,
        VertexFormat::Uint32,
        VertexFormat::Float32,
        VertexFormat::Uint32,
    ];
    let mut instance: Vec<VertexAttribute> = Vec::new();
    let mut offset: u64 = 0;
    let mut k: usize = 0;
    while k < 7
        invariant
            k <= 7,
            formats@ == instance_attributes().map_values(|a: VertexAttribute| a.format),
            instance@ == instance_attributes().take(k as int),
            offset == if k < 7 {
                instance_attributes()[k as int].offset
            } else {
                INSTANCE_STRIDE
            },
        decreases 7 - k,
    {
        assert(formats@[k as int] == instance_attributes()[k as int].format);
        let format = formats[k];
        instance.push(VertexAttribute { shader_location: k as u32 + 1, format, offset });
        offset = offset + format.size();
        k += 1;
        assert(instance@ =~= instance_attributes().take(k as int));
    }
    assert(instance@ =~= instance_attributes());
    assert(vertex@ =~= vertex_attributes());
    PipelineDescription {
        shader,
        vertex_entry_point: VERTEX_ENTRY_POINT,
        fragment_entry_point: FRAGMENT_ENTRY_POINT,
        vertices: VertexBufferLayout {
            array_stride: VERTEX_STRIDE,
            step_mode: StepMode::Vertex,
            attributes: vertex,
        },
        instances: VertexBufferLayout {
            array_stride: INSTANCE_STRIDE,
            step_mode: StepMode::Instance,
            attributes: instance,
        },
        fixed: FixedState {
            color_blend: BlendComponent {
                src_factor: BlendFactor::SrcAlpha,
                dst_factor: BlendFactor::OneMinusSrcAlpha,
                operation: BlendOperation::Add,
            },
            alpha_blend: BlendComponent {
                src_factor: BlendFactor::One,
                dst_factor: BlendFactor::OneMinusSrcAlpha,
                operation: BlendOperation::Add,
            },
            topology: PrimitiveTopology::TriangleList,
            front_face: FrontFace::Cw,
            sample_count: 1,
            sample_mask: u64::MAX,
        },
    }
}

/// The layout fits the data: the inputs of a vertex fill the vertex, the
/// inputs of an instance fill the instance record word for word, and the
/// locations run from 0 to 7.
pub proof fn lemma_layout_fits()
    ensures
        tiles(vertex_attributes(), 0, VERTEX_STRIDE as int),
        tiles(instance_attributes(), 1, INSTANCE_STRIDE as int),
        INSTANCE_STRIDE == 4 * INSTANCE_WORDS,
{
}

/// Two pipeline objects differ in their shader and in nothing else.
pub proof fn lemma_same_layout_for_every_shader(
    a: PipelineDescription,
    b: PipelineDescription,
    shader_a: Option<u64>,
    shader_b: Option<u64>,
)
    requires
        describes(a, shader_a),
        describes(b, shader_b),
    ensures
        a.vertex_entry_point == b.vertex_entry_point,
        a.fragment_entry_point == b.fragment_entry_point,
        a.vertices.array_stride == b.vertices.array_stride,
        a.vertices.step_mode == b.vertices.step_mode,
        a.vertices.attributes@ == b.vertices.attributes@,
        a.instances.array_stride == b.instances.array_stride,
        a.instances.step_mode == b.instances.step_mode,
        a.instances.attributes@ == b.instances.attributes@,
        a.fixed == b.fixed,
        shader_a == shader_b ==> a.shader == b.shader,
{
}

} // verus!
