use shader_pipeline::commands::Cmd;
use shader_pipeline::commands::render_commands;
use shader_pipeline::device::Device;
use shader_pipeline::quad;
use shader_pipeline::types::AttributeBinding;
use shader_pipeline::types::AttributeStream;
use shader_pipeline::types::DrawSpec;
use shader_pipeline::types::StageKind;
use shader_pipeline::types::Topology;
use shader_pipeline::types::UniformHandle;

#[test]
fn strip_render_issues_single_draw() {
    let mut device = Device::new(8);
    let vs = device.compile(StageKind::Vertex, "void main(){gl_Position=vec4(0);}").unwrap();
    let fs = device.compile(StageKind::Fragment, "void main(){}").unwrap();
    let program = device.link(vs, fs).unwrap();
    let positions = quad::quad_positions();
    let buffer = device.upload(&positions).unwrap();
    let streams = vec![AttributeStream {
        slot: 0,
        buffer,
        binding: AttributeBinding::packed(2),
    }];
    let projection = UniformHandle { program: program.id, index: 0 };
    let model_view = UniformHandle { program: program.id, index: 1 };
    let transform = quad::demo_transform(quad::F32_ONE_BITS);
    let draw = quad::demo_draw();
    device.render(program, projection, model_view, &streams, transform, draw);

    // exactly one draw call, with exactly the requested parameters
    assert_eq!(device.draws.len(), 1);
    assert_eq!(device.draws[0].topology, Topology::TriangleStrip);
    assert_eq!(device.draws[0].first_vertex, 0);
    assert_eq!(device.draws[0].vertex_count, 4);

    // both matrices were uploaded, each to its own uniform
    assert_eq!(device.uniform_uploads.len(), 2);
    match device.uniform_uploads[0] {
        Cmd::UploadProjectionMatrix { uniform, fov_y_bits, aspect_bits, z_near_bits, z_far_bits } => {
            assert_eq!(uniform, projection);
            assert_eq!(fov_y_bits, quad::FOV_45_DEG_BITS);
            assert_eq!(aspect_bits, quad::F32_ONE_BITS);
            assert_eq!(z_near_bits, quad::Z_NEAR_BITS);
            assert_eq!(z_far_bits, quad::Z_FAR_BITS);
        }
        other => panic!("expected the projection upload, got {:?}", other),
    }
    match device.uniform_uploads[1] {
        Cmd::UploadModelViewMatrix { uniform, offset_x_bits, offset_y_bits, offset_z_bits } => {
            assert_eq!(uniform, model_view);
            assert_eq!(offset_x_bits, quad::F32_NEG_ZERO_BITS);
            assert_eq!(offset_y_bits, quad::F32_ZERO_BITS);
            assert_eq!(offset_z_bits, quad::CAMERA_Z_BITS);
        }
        other => panic!("expected the model-view upload, got {:?}", other),
    }

    // the frame was set up before the draw
    assert!(device.render_state.depth_test_enabled);
    assert!(device.render_state.depth_less_equal);
    assert!(device.render_state.color_cleared);
    assert!(device.render_state.depth_cleared);
    assert_eq!(device.render_state.clear_a_bits, quad::F32_ONE_BITS);
    assert_eq!(device.render_state.clear_r_bits, 0);
    assert_eq!(device.render_state.clear_depth_bits, quad::F32_ONE_BITS);
    assert_eq!(device.render_state.active_program, Some(program));

    // position-only quad: one attribute configured against its buffer
    assert_eq!(device.attrib_configs.len(), 1);
    assert_eq!(device.attrib_configs[0].slot, 0);
    assert_eq!(device.attrib_configs[0].buffer, buffer);
    assert_eq!(device.attrib_configs[0].binding.component_count, 2);
    assert_eq!(device.enabled_slots, vec![0]);

    // rendering again replays the same frame: one more identical draw
    device.render(program, projection, model_view, &streams, transform, draw);
    assert_eq!(device.draws.len(), 2);
    assert_eq!(device.draws[0], device.draws[1]);
}

#[test]
fn render_plan_order() {
    let program = shader_pipeline::types::ProgramHandle { id: 3 };
    let projection = UniformHandle { program: 3, index: 0 };
    let model_view = UniformHandle { program: 3, index: 1 };
    let buffer = shader_pipeline::types::VertexBuffer { id: 7 };
    let streams = vec![AttributeStream {
        slot: 2,
        buffer,
        binding: AttributeBinding::packed(4),
    }];
    let transform = quad::demo_transform(quad::F32_ONE_BITS);
    let draw = DrawSpec { topology: Topology::TriangleList, first_vertex: 1, vertex_count: 3 };
    let cmds = render_commands(program, projection, model_view, &streams, transform, draw);
    let expected = vec![
        Cmd::SetClearColor { r_bits: 0, g_bits: 0, b_bits: 0, a_bits: quad::F32_ONE_BITS },
        Cmd::SetClearDepth { depth_bits: quad::F32_ONE_BITS },
        Cmd::Clear { color: true, depth: true },
        Cmd::EnableDepthTest,
        Cmd::DepthFuncLessEqual,
        Cmd::BindArrayBuffer { buffer },
        Cmd::ConfigureAttribute { slot: 2, binding: AttributeBinding::packed(4) },
        Cmd::EnableAttribute { slot: 2 },
        Cmd::UseProgram { program },
        Cmd::UploadProjectionMatrix {
            uniform: projection,
            fov_y_bits: quad::FOV_45_DEG_BITS,
            aspect_bits: quad::F32_ONE_BITS,
            z_near_bits: quad::Z_NEAR_BITS,
            z_far_bits: quad::Z_FAR_BITS,
        },
        Cmd::UploadModelViewMatrix {
            uniform: model_view,
            offset_x_bits: quad::F32_NEG_ZERO_BITS,
            offset_y_bits: quad::F32_ZERO_BITS,
            offset_z_bits: quad::CAMERA_Z_BITS,
        },
        Cmd::DrawArrays { topology: Topology::TriangleList, first_vertex: 1, vertex_count: 3 },
    ];
    assert_eq!(cmds, expected);
}

#[test]
fn bind_captures_bound_buffer() {
    let mut device = Device::new(4);
    let positions = quad::quad_positions();
    let buffer = device.upload(&positions).unwrap();
    device.bind(5, buffer, AttributeBinding::packed(2));
    assert_eq!(device.render_state.bound_array_buffer, Some(buffer));
    assert_eq!(device.attrib_configs.len(), 1);
    assert_eq!(device.attrib_configs[0].buffer, buffer);
    assert_eq!(device.attrib_configs[0].slot, 5);
    assert_eq!(device.enabled_slots, vec![5]);
}

#[test]
fn configure_without_bound_buffer_captures_nothing() {
    let mut device = Device::new(4);
    device.step(Cmd::ConfigureAttribute { slot: 0, binding: AttributeBinding::packed(2) });
    assert!(device.attrib_configs.is_empty());
}

#[test]
fn full_quad_scenario_with_colors() {
    let mut device = Device::new(8);
    let vs = device
        .compile(
            StageKind::Vertex,
            "attribute vec4 aVertexPosition; attribute vec4 aVertexColor; uniform mat4 uModelViewMatrix; uniform mat4 uProjectionMatrix; varying lowp vec4 vColor; void main(){gl_Position=uProjectionMatrix*uModelViewMatrix*aVertexPosition; vColor=aVertexColor;}",
        )
        .unwrap();
    let fs = device
        .compile(StageKind::Fragment, "varying lowp vec4 vColor; void main(){gl_FragColor=vColor;}")
        .unwrap();
    let program = device.link(vs, fs).unwrap();
    let position_slot = device.resolve_attribute(program, "aVertexPosition").unwrap();
    let color_slot = device.resolve_attribute(program, "aVertexColor").unwrap();
    let projection = device.resolve_uniform(program, "uProjectionMatrix").unwrap();
    let model_view = device.resolve_uniform(program, "uModelViewMatrix").unwrap();
    let positions = quad::quad_positions();
    let colors = quad::quad_colors();
    let position_buffer = device.upload(&positions).unwrap();
    let color_buffer = device.upload(&colors).unwrap();
    let streams = quad::quad_streams(position_slot, position_buffer, color_slot, color_buffer);
    let transform = quad::demo_transform(quad::F32_ONE_BITS);
    device.render(program, projection, model_view, &streams, transform, quad::demo_draw());

    assert_eq!(device.draws.len(), 1);
    assert_eq!(
        device.draws[0],
        DrawSpec { topology: Topology::TriangleStrip, first_vertex: 0, vertex_count: 4 }
    );
    assert_eq!(device.uniform_uploads.len(), 2);
    assert_eq!(device.attrib_configs.len(), 2);
    assert_eq!(device.attrib_configs[0].buffer, position_buffer);
    assert_eq!(device.attrib_configs[1].buffer, color_buffer);
    assert_eq!(device.enabled_slots, vec![position_slot, color_slot]);
}
