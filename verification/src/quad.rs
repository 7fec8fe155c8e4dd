//! The fixed demo configuration: a four-vertex quad with optional
//! per-vertex colours, and the camera parameters every variant uses
//! (45 degree field of view, clip planes at 0.1 and 100.0, camera pulled
//! back six units). All scalars are IEEE-754 single-precision bit
//! patterns; the values are compile-time constants here, exposed as a
//! configuration a caller may replace.

use vstd::prelude::*;

use crate::device::Device;
use crate::device::attribute_active;
use crate::device::stage_well_formed;
use crate::device::uniform_active;
use crate::types::AttributeBinding;
use crate::types::AttributeStream;
use crate::types::DrawSpec;
use crate::types::GlError;
use crate::types::StageKind;
use crate::types::Topology;
use crate::types::TransformInputs;
use crate::types::VertexBuffer;

verus! {

/// Bit pattern of 1.0f32.
pub const F32_ONE_BITS: u32 = 0x3F80_0000;

/// Bit pattern of -1.0f32.
pub const F32_NEG_ONE_BITS: u32 = 0xBF80_0000;

/// Bit pattern of 0.0f32.
pub const F32_ZERO_BITS: u32 = 0x0000_0000;

/// Bit pattern of -0.0f32.
pub const F32_NEG_ZERO_BITS: u32 = 0x8000_0000;

/// Bit pattern of 45 degrees in radians (45 * pi / 180, in f32).
pub const FOV_45_DEG_BITS: u32 = 0x3F49_0FDB;

/// Bit pattern of the near clip plane, 0.1f32.
pub const Z_NEAR_BITS: u32 = 0x3DCC_CCCD;

/// Bit pattern of the far clip plane, 100.0f32.
pub const Z_FAR_BITS: u32 = 0x42C8_0000;

/// Bit pattern of the camera's z offset, -6.0f32.
pub const CAMERA_Z_BITS: u32 = 0xC0C0_0000;

/// The quad's positions: four corners of the unit square, two
/// components per vertex, in triangle-strip order.
pub open spec fn quad_position_data() -> Seq<u32> {
    seq![
        F32_NEG_ONE_BITS, F32_ONE_BITS,
        F32_ONE_BITS, F32_ONE_BITS,
        F32_NEG_ONE_BITS, F32_NEG_ONE_BITS,
        F32_ONE_BITS, F32_NEG_ONE_BITS,
    ]
}

/// The quad's colours: white, red, green, blue, four components per
/// vertex.
pub open spec fn quad_color_data() -> Seq<u32> {
    seq![
        F32_ONE_BITS, F32_ONE_BITS, F32_ONE_BITS, F32_ONE_BITS,
        F32_ONE_BITS, F32_ZERO_BITS, F32_ZERO_BITS, F32_ONE_BITS,
        F32_ZERO_BITS, F32_ONE_BITS, F32_ZERO_BITS, F32_ONE_BITS,
        F32_ZERO_BITS, F32_ZERO_BITS, F32_ONE_BITS, F32_ONE_BITS,
    ]
}

/// Builds the quad's position stream: eight floats, two per vertex.
pub fn quad_positions() -> (v: Vec<u32>)
    ensures
        v@ == quad_position_data(),
{
    let mut v: Vec<u32> = Vec::new();
    v.push(F32_NEG_ONE_BITS);
    v.push(F32_ONE_BITS);
    v.push(F32_ONE_BITS);
    v.push(F32_ONE_BITS);
    v.push(F32_NEG_ONE_BITS);
    v.push(F32_NEG_ONE_BITS);
    v.push(F32_ONE_BITS);
    v.push(F32_NEG_ONE_BITS);
    proof {
        assert(v@ =~= quad_position_data());
    }
    v
}

/// Builds the quad's colour stream: sixteen floats, four per vertex.
pub fn quad_colors() -> (v: Vec<u32>)
    ensures
        v@ == quad_color_data(),
{
    let mut v: Vec<u32> = Vec::new();
    v.push(F32_ONE_BITS);
    v.push(F32_ONE_BITS);
    v.push(F32_ONE_BITS);
    v.push(F32_ONE_BITS);
    v.push(F32_ONE_BITS);
    v.push(F32_ZERO_BITS);
    v.push(F32_ZERO_BITS);
    v.push(F32_ONE_BITS);
    v.push(F32_ZERO_BITS);
    v.push(F32_ONE_BITS);
    v.push(F32_ZERO_BITS);
    v.push(F32_ONE_BITS);
    v.push(F32_ZERO_BITS);
    v.push(F32_ZERO_BITS);
    v.push(F32_ONE_BITS);
    v.push(F32_ONE_BITS);
    proof {
        assert(v@ =~= quad_color_data());
    }
    v
}

/// The demo's transform inputs for a surface of the given aspect ratio:
/// 45 degree field of view, clip planes at 0.1 and 100.0, camera
/// translated six units back along z.
pub fn demo_transform(aspect_bits: u32) -> (t: TransformInputs)
    ensures
        t == (TransformInputs {
            fov_y_bits: FOV_45_DEG_BITS,
            aspect_bits,
            z_near_bits: Z_NEAR_BITS,
            z_far_bits: Z_FAR_BITS,
            offset_x_bits: F32_NEG_ZERO_BITS,
            offset_y_bits: F32_ZERO_BITS,
            offset_z_bits: CAMERA_Z_BITS,
        }),
{
    TransformInputs {
        fov_y_bits: FOV_45_DEG_BITS,
        aspect_bits,
        z_near_bits: Z_NEAR_BITS,
        z_far_bits: Z_FAR_BITS,
        offset_x_bits: F32_NEG_ZERO_BITS,
        offset_y_bits: F32_ZERO_BITS,
        offset_z_bits: CAMERA_Z_BITS,
    }
}

/// The demo's one draw call: a triangle strip over the quad's four
/// vertices, starting at the first.
pub fn demo_draw() -> (d: DrawSpec)
    ensures
        d == (DrawSpec { topology: Topology::TriangleStrip, first_vertex: 0, vertex_count: 4 }),
{
    DrawSpec { topology: Topology::TriangleStrip, first_vertex: 0, vertex_count: 4 }
}

/// The demo's attribute streams: positions as two tightly packed float
/// components per vertex, colours as four.
pub fn quad_streams(
    position_slot: usize,
    position_buffer: VertexBuffer,
    color_slot: usize,
    color_buffer: VertexBuffer,
) -> (streams: Vec<AttributeStream>)
    ensures
        streams@ == seq![
            AttributeStream {
                slot: position_slot,
                buffer: position_buffer,
                binding: AttributeBinding {
                    component_count: 2,
                    normalized: false,
                    stride_bytes: 0,
                    offset_bytes: 0,
                },
            },
            AttributeStream {
                slot: color_slot,
                buffer: color_buffer,
                binding: AttributeBinding {
                    component_count: 4,
                    normalized: false,
                    stride_bytes: 0,
                    offset_bytes: 0,
                },
            },
        ],
        forall|i: int| 0 <= i < streams@.len() ==> (#[trigger] streams@[i]).binding.wf(),
{
    let mut streams: Vec<AttributeStream> = Vec::new();
    streams.push(
        AttributeStream {
            slot: position_slot,
            buffer: position_buffer,
            binding: AttributeBinding::packed(2),
        },
    );
    streams.push(
        AttributeStream {
            slot: color_slot,
            buffer: color_buffer,
            binding: AttributeBinding::packed(4),
        },
    );
    proof {
        assert(streams@ =~= seq![
            AttributeStream {
                slot: position_slot,
                buffer: position_buffer,
                binding: AttributeBinding {
                    component_count: 2,
                    normalized: false,
                    stride_bytes: 0,
                    offset_bytes: 0,
                },
            },
            AttributeStream {
                slot: color_slot,
                buffer: color_buffer,
                binding: AttributeBinding {
                    component_count: 4,
                    normalized: false,
                    stride_bytes: 0,
                    offset_bytes: 0,
                },
            },
        ]);
    }
    streams
}

/// Runs the whole demo pipeline against a device: compile both stages,
/// link them, resolve the two attributes and the two matrix uniforms,
/// upload the quad's position and colour buffers, and render one
/// triangle-strip frame over the four vertices. The first failing step's
/// error is returned and nothing is drawn after a failure; the call
/// succeeds exactly when the device has room for every object, both
/// sources are well formed, and all four names are active.
pub fn draw_quad(
    device: &mut Device,
    vertex_source: &str,
    fragment_source: &str,
    aspect_bits: u32,
) -> (r: Result<(), GlError>)
    requires
        old(device).wf(),
        vertex_source@.len() > 0,
        fragment_source@.len() > 0,
    ensures
        final(device).wf(),
        r is Ok <==> ({
            &&& old(device).shaders@.len() + 2 <= old(device).capacity
            &&& old(device).programs@.len() + 1 <= old(device).capacity
            &&& old(device).buffers@.len() + 2 <= old(device).capacity
            &&& stage_well_formed(vertex_source@)
            &&& stage_well_formed(fragment_source@)
            &&& attribute_active(vertex_source@, "aVertexPosition"@)
            &&& attribute_active(vertex_source@, "aVertexColor"@)
            &&& uniform_active(vertex_source@, fragment_source@, "uProjectionMatrix"@)
            &&& uniform_active(vertex_source@, fragment_source@, "uModelViewMatrix"@)
        }),
        r is Ok ==> final(device).draws@ == old(device).draws@.push(
            DrawSpec { topology: Topology::TriangleStrip, first_vertex: 0, vertex_count: 4 },
        ),
        r is Ok ==> final(device).uniform_uploads@.len() == old(device).uniform_uploads@.len()
            + 2,
        r is Err ==> final(device).draws@ == old(device).draws@,
        // the first failing step determines the error
        match r {
            Ok(_) => true,
            Err(e) => {
                let cap = old(device).capacity;
                let shaders = old(device).shaders@.len();
                let programs = old(device).programs@.len();
                let buffers = old(device).buffers@.len();
                if shaders >= cap {
                    e is ResourceExhausted
                } else if !stage_well_formed(vertex_source@) {
                    e matches GlError::CompileError { stage, log } && stage == StageKind::Vertex
                        && log@.len() > 0
                } else if shaders + 1 >= cap {
                    e is ResourceExhausted
                } else if !stage_well_formed(fragment_source@) {
                    e matches GlError::CompileError { stage, log } && stage == StageKind::Fragment
                        && log@.len() > 0
                } else if programs >= cap {
                    e is ResourceExhausted
                } else if !attribute_active(vertex_source@, "aVertexPosition"@) {
                    e is AttributeNotFound
                } else if !attribute_active(vertex_source@, "aVertexColor"@) {
                    e is AttributeNotFound
                } else if !uniform_active(vertex_source@, fragment_source@, "uProjectionMatrix"@) {
                    e is UniformNotFound
                } else if !uniform_active(vertex_source@, fragment_source@, "uModelViewMatrix"@) {
                    e is UniformNotFound
                } else if buffers >= cap {
                    e is ResourceExhausted
                } else {
                    buffers + 1 >= cap && e is ResourceExhausted
                }
            },
        },
{
    let vs = match device.compile(StageKind::Vertex, vertex_source) {
        Ok(stage) => stage,
        Err(e) => {
            return Err(e);
        },
    };
    let fs = match device.compile(StageKind::Fragment, fragment_source) {
        Ok(stage) => stage,
        Err(e) => {
            return Err(e);
        },
    };
    let program = match device.link(vs, fs) {
        Ok(p) => p,
        Err(e) => {
            return Err(e);
        },
    };
    let position_slot = match device.resolve_attribute(program, "aVertexPosition") {
        Ok(slot) => slot,
        Err(e) => {
            return Err(e);
        },
    };
    let color_slot = match device.resolve_attribute(program, "aVertexColor") {
        Ok(slot) => slot,
        Err(e) => {
            return Err(e);
        },
    };
    let projection_uniform = match device.resolve_uniform(program, "uProjectionMatrix") {
        Ok(handle) => handle,
        Err(e) => {
            return Err(e);
        },
    };
    let model_view_uniform = match device.resolve_uniform(program, "uModelViewMatrix") {
        Ok(handle) => handle,
        Err(e) => {
            return Err(e);
        },
    };
    let positions = quad_positions();
    let colors = quad_colors();
    let position_buffer = match device.upload(&positions) {
        Ok(b) => b,
        Err(e) => {
            return Err(e);
        },
    };
    let color_buffer = match device.upload(&colors) {
        Ok(b) => b,
        Err(e) => {
            return Err(e);
        },
    };
    let streams = quad_streams(position_slot, position_buffer, color_slot, color_buffer);
    let transform = demo_transform(aspect_bits);
    let draw = demo_draw();
    device.render(program, projection_uniform, model_view_uniform, &streams, transform, draw);
    Ok(())
}

} // verus!
