use shader_pipeline::device::Device;
use shader_pipeline::quad;
use shader_pipeline::types::GlError;
use shader_pipeline::types::StageKind;
use shader_pipeline::types::Topology;

const DEMO_VERTEX: &str = "attribute vec4 aVertexPosition; attribute vec4 aVertexColor; uniform mat4 uModelViewMatrix; uniform mat4 uProjectionMatrix; varying lowp vec4 vColor; void main(){gl_Position=uProjectionMatrix*uModelViewMatrix*aVertexPosition; vColor=aVertexColor;}";
const DEMO_FRAGMENT: &str = "varying lowp vec4 vColor; void main(){gl_FragColor=vColor;}";

#[test]
fn draw_quad_renders_one_strip_frame() {
    let mut device = Device::new(8);
    let aspect = 1.0f32.to_bits();
    assert!(quad::draw_quad(&mut device, DEMO_VERTEX, DEMO_FRAGMENT, aspect).is_ok());
    assert_eq!(device.draws.len(), 1);
    assert_eq!(device.draws[0].topology, Topology::TriangleStrip);
    assert_eq!(device.draws[0].first_vertex, 0);
    assert_eq!(device.draws[0].vertex_count, 4);
    assert_eq!(device.uniform_uploads.len(), 2);
    assert_eq!(device.buffers.len(), 2);
    assert_eq!(device.buffer_byte_len(shader_pipeline::types::VertexBuffer { id: 0 }), 32);
    assert_eq!(device.buffer_byte_len(shader_pipeline::types::VertexBuffer { id: 1 }), 64);
}

#[test]
fn draw_quad_rejects_bad_vertex_source() {
    let mut device = Device::new(8);
    let r = quad::draw_quad(&mut device, "void mian(){}", DEMO_FRAGMENT, 0);
    match r {
        Err(GlError::CompileError { stage, log }) => {
            assert_eq!(stage, StageKind::Vertex);
            assert!(!log.is_empty());
        }
        other => panic!("expected a vertex compile error, got {:?}", other),
    }
    assert!(device.draws.is_empty());
}

#[test]
fn draw_quad_reports_eliminated_attribute() {
    let mut device = Device::new(8);
    // aVertexColor is absent: the resolution step must surface it
    let vertex = "attribute vec4 aVertexPosition; uniform mat4 uModelViewMatrix; uniform mat4 uProjectionMatrix; void main(){gl_Position=uProjectionMatrix*uModelViewMatrix*aVertexPosition;}";
    let r = quad::draw_quad(&mut device, vertex, DEMO_FRAGMENT, 0);
    match r {
        Err(GlError::AttributeNotFound) => {}
        other => panic!("expected AttributeNotFound, got {:?}", other),
    }
    assert!(device.draws.is_empty());
}

#[test]
fn draw_quad_reports_exhaustion() {
    let mut device = Device::new(0);
    let r = quad::draw_quad(&mut device, DEMO_VERTEX, DEMO_FRAGMENT, 0);
    match r {
        Err(GlError::ResourceExhausted) => {}
        other => panic!("expected ResourceExhausted, got {:?}", other),
    }
    assert!(device.shaders.is_empty());
    assert!(device.draws.is_empty());
}

#[test]
fn draw_quad_reports_missing_uniform() {
    let mut device = Device::new(8);
    // neither stage mentions uProjectionMatrix
    let vertex =
        "attribute vec4 aVertexPosition; attribute vec4 aVertexColor; uniform mat4 uModelViewMatrix; void main(){gl_Position=uModelViewMatrix*aVertexPosition;}";
    let fragment = "void main(){gl_FragColor=vec4(1.0);}";
    let r = quad::draw_quad(&mut device, vertex, fragment, 0);
    match r {
        Err(GlError::UniformNotFound) => {}
        other => panic!("expected UniformNotFound, got {:?}", other),
    }
    assert!(device.draws.is_empty());
}
