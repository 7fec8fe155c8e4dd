//! Plain data carried through the pipeline: stage kinds, draw topology,
//! handles to device objects, vertex-attribute layout descriptions, the
//! per-frame transform inputs, and the pipeline's error kinds.
//!
//! Scalar parameters that a real backend interprets as single-precision
//! floating-point values (clear colours, clip planes, camera offsets)
//! are carried as their IEEE-754 bit patterns in `u32` fields; the
//! pipeline never computes with them, it only routes them.

use vstd::prelude::*;

verus! {

/// One compilable unit of shader code.
#[derive(Clone, Copy, PartialEq, Eq, Structural, Debug)]
pub enum StageKind {
    Vertex,
    Fragment,
}

/// How a draw call assembles its vertex sequence into primitives.
#[derive(Clone, Copy, PartialEq, Eq, Structural, Debug)]
pub enum Topology {
    TriangleStrip,
    TriangleList,
}

/// Handle to a shader stage held by a device; created by `Device::compile`.
#[derive(Clone, Copy, PartialEq, Eq, Structural, Debug)]
pub struct ShaderStage {
    pub id: usize,
    pub kind: StageKind,
}

/// Handle to a linked program held by a device; created by `Device::link`.
#[derive(Clone, Copy, PartialEq, Eq, Structural, Debug)]
pub struct ProgramHandle {
    pub id: usize,
}

/// Handle to a vertex buffer held by a device; created by `Device::upload`.
#[derive(Clone, Copy, PartialEq, Eq, Structural, Debug)]
pub struct VertexBuffer {
    pub id: usize,
}

/// Handle to a named uniform of a linked program; created by
/// `Device::resolve_uniform`.
#[derive(Clone, Copy, PartialEq, Eq, Structural, Debug)]
pub struct UniformHandle {
    pub program: usize,
    pub index: usize,
}

/// How a vertex buffer's bytes map onto one named program attribute.
/// The component type is always 32-bit float and is therefore not a field.
#[derive(Clone, Copy, PartialEq, Eq, Structural, Debug)]
pub struct AttributeBinding {
    /// Components per vertex: 2, 3 or 4.
    pub component_count: u32,
    /// Whether fixed-point data is normalized; always false for floats.
    pub normalized: bool,
    /// Distance in bytes between consecutive vertices; 0 = tightly packed.
    pub stride_bytes: u32,
    /// Offset in bytes of the first component.
    pub offset_bytes: u32,
}

impl AttributeBinding {
    /// A binding is well formed when its component count is 2, 3 or 4 and,
    /// if a stride is given, one vertex's components fit inside it.
    pub open spec fn wf(self) -> bool {
        &&& 2 <= self.component_count <= 4
        &&& self.stride_bytes != 0 ==> self.component_count * 4 <= self.stride_bytes
    }

    /// Tightly packed float components, the layout every variant uses.
    pub fn packed(component_count: u32) -> (b: AttributeBinding)
        requires
            2 <= component_count <= 4,
        ensures
            b == (AttributeBinding {
                component_count,
                normalized: false,
                stride_bytes: 0,
                offset_bytes: 0,
            }),
            b.wf(),
    {
        AttributeBinding { component_count, normalized: false, stride_bytes: 0, offset_bytes: 0 }
    }
}

/// One per-vertex input of a draw: which buffer feeds which attribute
/// slot, and how its bytes are laid out.
#[derive(Clone, Copy, PartialEq, Eq, Structural, Debug)]
pub struct AttributeStream {
    pub slot: usize,
    pub buffer: VertexBuffer,
    pub binding: AttributeBinding,
}

/// Scalar inputs of the per-frame transforms, as IEEE-754 single-precision
/// bit patterns: a perspective projection from field of view, aspect ratio
/// and clip planes, and a model-view translation by a camera offset.
#[derive(Clone, Copy, PartialEq, Eq, Structural, Debug)]
pub struct TransformInputs {
    pub fov_y_bits: u32,
    pub aspect_bits: u32,
    pub z_near_bits: u32,
    pub z_far_bits: u32,
    pub offset_x_bits: u32,
    pub offset_y_bits: u32,
    pub offset_z_bits: u32,
}

/// The parameters of one draw call.
#[derive(Clone, Copy, PartialEq, Eq, Structural, Debug)]
pub struct DrawSpec {
    pub topology: Topology,
    pub first_vertex: u32,
    pub vertex_count: u32,
}

/// Everything that can go wrong in the pipeline. No error is recoverable
/// by retry; each is surfaced to the immediate caller.
#[derive(Debug)]
pub enum GlError {
    /// A device-side object allocation failed.
    ResourceExhausted,
    /// A shader stage failed to compile; the log is never empty.
    CompileError { stage: StageKind, log: String },
    /// A program failed to link; the log is never empty.
    LinkError { log: String },
    /// The named attribute is absent from the linked program.
    AttributeNotFound,
    /// The named uniform is absent from the linked program.
    UniformNotFound,
}

} // verus!
