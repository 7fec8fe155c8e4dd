use shader_pipeline::device::Device;
use shader_pipeline::types::GlError;
use shader_pipeline::types::ProgramHandle;
use shader_pipeline::types::ShaderStage;
use shader_pipeline::types::StageKind;

const GOOD_VERTEX: &str =
    "attribute vec4 aVertexPosition; uniform mat4 uProjectionMatrix; uniform mat4 uModelViewMatrix; void main(){gl_Position=uProjectionMatrix*uModelViewMatrix*aVertexPosition;}";
const GOOD_FRAGMENT: &str = "void main(){gl_FragColor=vec4(1.0);}";

fn linked_program(device: &mut Device) -> ProgramHandle {
    let vs = device.compile(StageKind::Vertex, GOOD_VERTEX).unwrap();
    let fs = device.compile(StageKind::Fragment, GOOD_FRAGMENT).unwrap();
    device.link(vs, fs).unwrap()
}

#[test]
fn valid_pair_links() {
    let mut device = Device::new(8);
    let vs = device.compile(StageKind::Vertex, GOOD_VERTEX).unwrap();
    let fs = device.compile(StageKind::Fragment, GOOD_FRAGMENT).unwrap();
    assert_eq!(vs.kind, StageKind::Vertex);
    assert_eq!(fs.kind, StageKind::Fragment);
    let program = device.link(vs, fs).unwrap();
    assert!(device.programs[program.id].linked);
}

#[test]
fn invalid_source_fails_with_log() {
    let mut device = Device::new(8);
    let r = device.compile(StageKind::Vertex, "void mian(){gl_Position=vec4(0);}");
    match r {
        Err(GlError::CompileError { stage, log }) => {
            assert_eq!(stage, StageKind::Vertex);
            assert!(!log.is_empty());
        }
        other => panic!("expected a compile error, got {:?}", other.map(|s| s.id)),
    }
    // the failed stage object exists but is marked failed
    assert_eq!(device.shaders.len(), 1);
    assert!(!device.shaders[0].ok);
}

#[test]
fn failed_stage_never_links() {
    let mut device = Device::new(8);
    assert!(device.compile(StageKind::Vertex, "void mian(){}").is_err());
    let fs = device.compile(StageKind::Fragment, GOOD_FRAGMENT).unwrap();
    // the only way to name the failed stage is to forge its handle
    let bad_vs = ShaderStage { id: 0, kind: StageKind::Vertex };
    match device.link(bad_vs, fs) {
        Err(GlError::LinkError { log }) => assert!(!log.is_empty()),
        other => panic!("expected a link error, got {:?}", other.map(|p| p.id)),
    }
    assert!(!device.programs[0].linked);
}

#[test]
fn resolve_attribute_is_deterministic() {
    let mut device = Device::new(8);
    let program = linked_program(&mut device);
    let first = device.resolve_attribute(program, "aVertexPosition").unwrap();
    let again = device.resolve_attribute(program, "aVertexPosition").unwrap();
    assert_eq!(first, again);
    let other = device.resolve_attribute(program, "uProjectionMatrix").unwrap();
    assert_ne!(first, other);
    let third = device.resolve_attribute(program, "aVertexPosition").unwrap();
    assert_eq!(first, third);
}

#[test]
fn resolve_uniform_is_deterministic() {
    let mut device = Device::new(8);
    let program = linked_program(&mut device);
    let projection = device.resolve_uniform(program, "uProjectionMatrix").unwrap();
    let model_view = device.resolve_uniform(program, "uModelViewMatrix").unwrap();
    assert_ne!(projection, model_view);
    let projection_again = device.resolve_uniform(program, "uProjectionMatrix").unwrap();
    let model_view_again = device.resolve_uniform(program, "uModelViewMatrix").unwrap();
    assert_eq!(projection, projection_again);
    assert_eq!(model_view, model_view_again);
}

#[test]
fn eliminated_attribute_not_found() {
    let mut device = Device::new(8);
    // the vertex stage never mentions aVertexColor: the model treats it
    // as eliminated, so resolution must fail rather than return a slot
    let vs = device
        .compile(StageKind::Vertex, "attribute vec4 aVertexPosition; void main(){gl_Position=aVertexPosition;}")
        .unwrap();
    let fs = device.compile(StageKind::Fragment, GOOD_FRAGMENT).unwrap();
    let program = device.link(vs, fs).unwrap();
    match device.resolve_attribute(program, "aVertexColor") {
        Err(GlError::AttributeNotFound) => {}
        other => panic!("expected AttributeNotFound, got {:?}", other),
    }
}

#[test]
fn missing_uniform_not_found() {
    let mut device = Device::new(8);
    let program = linked_program(&mut device);
    match device.resolve_uniform(program, "uMissingMatrix") {
        Err(GlError::UniformNotFound) => {}
        other => panic!("expected UniformNotFound, got {:?}", other),
    }
}

#[test]
fn upload_byte_length() {
    let mut device = Device::new(8);
    let positions = shader_pipeline::quad::quad_positions();
    assert_eq!(positions.len(), 8);
    let buffer = device.upload(&positions).unwrap();
    assert_eq!(device.buffer_byte_len(buffer), 8 * 4);
    let colors = shader_pipeline::quad::quad_colors();
    assert_eq!(colors.len(), 16);
    let color_buffer = device.upload(&colors).unwrap();
    assert_eq!(device.buffer_byte_len(color_buffer), 16 * 4);
    let one = device.upload(&vec![0x3F80_0000]).unwrap();
    assert_eq!(device.buffer_byte_len(one), 4);
}

#[test]
fn upload_copies_the_contents() {
    let mut device = Device::new(8);
    let mut positions = shader_pipeline::quad::quad_positions();
    let buffer = device.upload(&positions).unwrap();
    let stored = device.buffer_data(buffer).clone();
    assert_eq!(stored, positions);
    // a value copy: changing the caller's data afterwards changes nothing
    positions[0] = 0;
    assert_eq!(device.buffer_data(buffer), &stored);
}

#[test]
fn compile_exhausts_allocation_budget() {
    let mut device = Device::new(0);
    match device.compile(StageKind::Vertex, GOOD_VERTEX) {
        Err(GlError::ResourceExhausted) => {}
        other => panic!("expected ResourceExhausted, got {:?}", other.map(|s| s.id)),
    }
    assert!(device.shaders.is_empty());
}

#[test]
fn upload_exhausts_allocation_budget() {
    let mut device = Device::new(1);
    let positions = shader_pipeline::quad::quad_positions();
    assert!(device.upload(&positions).is_ok());
    match device.upload(&positions) {
        Err(GlError::ResourceExhausted) => {}
        other => panic!("expected ResourceExhausted, got {:?}", other.map(|b| b.id)),
    }
}

#[test]
fn link_exhausts_allocation_budget() {
    let mut device = Device::new(2);
    let vs = device.compile(StageKind::Vertex, GOOD_VERTEX).unwrap();
    let fs = device.compile(StageKind::Fragment, GOOD_FRAGMENT).unwrap();
    assert!(device.link(vs, fs).is_ok());
    assert!(device.link(vs, fs).is_ok());
    match device.link(vs, fs) {
        Err(GlError::ResourceExhausted) => {}
        other => panic!("expected ResourceExhausted, got {:?}", other.map(|p| p.id)),
    }
}

#[test]
fn substring_search() {
    assert!(shader_pipeline::text::contains_str("void main(){}", "main"));
    assert!(shader_pipeline::text::contains_str("main", "main"));
    assert!(!shader_pipeline::text::contains_str("void mian(){}", "main"));
    assert!(!shader_pipeline::text::contains_str("mai", "main"));
    assert!(shader_pipeline::text::contains_str("aVertexColor", "aVertexColor"));
    assert!(!shader_pipeline::text::contains_str("", "main"));
    assert!(shader_pipeline::text::str_eq("aVertexPosition", "aVertexPosition"));
    assert!(!shader_pipeline::text::str_eq("aVertexPosition", "aVertexColor"));
    assert!(!shader_pipeline::text::str_eq("main", "mains"));
}
