//! The per-frame command plan. A frame is rendered by issuing a fixed
//! sequence of backend commands; `render_commands` builds that sequence
//! and its contract pins it down exactly, command for command. The plan
//! contains exactly one draw call and exactly one upload of each of the
//! two transform matrices; both facts are proved here as laws.

use vstd::prelude::*;

use crate::types::AttributeBinding;
use crate::types::AttributeStream;
use crate::types::DrawSpec;
use crate::types::ProgramHandle;
use crate::types::TransformInputs;
use crate::types::UniformHandle;
use crate::types::VertexBuffer;

verus! {

/// IEEE-754 single-precision bit pattern of 1.0, the alpha of the clear
/// colour and the clear depth every frame uses.
pub const F32_ONE_BITS: u32 = 0x3F80_0000;

/// One backend command. Scalars a real backend reads as floats are
/// carried as IEEE-754 single-precision bit patterns.
#[derive(Clone, Copy, PartialEq, Eq, Structural, Debug)]
pub enum Cmd {
    /// Set the colour the colour buffer is cleared to.
    SetClearColor { r_bits: u32, g_bits: u32, b_bits: u32, a_bits: u32 },
    /// Set the value the depth buffer is cleared to.
    SetClearDepth { depth_bits: u32 },
    /// Clear the selected buffers.
    Clear { color: bool, depth: bool },
    /// Enable depth testing.
    EnableDepthTest,
    /// Compare depths with less-or-equal.
    DepthFuncLessEqual,
    /// Make `buffer` the active array buffer.
    BindArrayBuffer { buffer: VertexBuffer },
    /// Point attribute `slot` at the active array buffer, laid out per
    /// `binding`.
    ConfigureAttribute { slot: usize, binding: AttributeBinding },
    /// Enable attribute `slot` for the upcoming draw.
    EnableAttribute { slot: usize },
    /// Activate `program` for the upcoming draw.
    UseProgram { program: ProgramHandle },
    /// Compute the perspective projection matrix from the given scalars
    /// and upload it, column-major, to `uniform`.
    UploadProjectionMatrix {
        uniform: UniformHandle,
        fov_y_bits: u32,
        aspect_bits: u32,
        z_near_bits: u32,
        z_far_bits: u32,
    },
    /// Compute the model-view matrix as the identity translated by the
    /// given offset and upload it, column-major, to `uniform`.
    UploadModelViewMatrix {
        uniform: UniformHandle,
        offset_x_bits: u32,
        offset_y_bits: u32,
        offset_z_bits: u32,
    },
    /// Issue one draw call over `vertex_count` vertices starting at
    /// `first_vertex`.
    DrawArrays { topology: crate::types::Topology, first_vertex: u32, vertex_count: u32 },
}

/// The three commands that bind one attribute stream: bind its buffer,
/// describe the layout, enable the slot.
pub open spec fn attribute_cmds(s: AttributeStream) -> Seq<Cmd> {
    seq![
        Cmd::BindArrayBuffer { buffer: s.buffer },
        Cmd::ConfigureAttribute { slot: s.slot, binding: s.binding },
        Cmd::EnableAttribute { slot: s.slot },
    ]
}

/// The binding commands of a whole list of attribute streams, in order.
pub open spec fn stream_cmds(streams: Seq<AttributeStream>) -> Seq<Cmd>
    decreases streams.len(),
{
    if streams.len() == 0 {
        Seq::empty()
    } else {
        stream_cmds(streams.drop_last()) + attribute_cmds(streams.last())
    }
}

/// The fixed frame prologue: set clear values, clear colour and depth,
/// enable less-or-equal depth testing.
pub open spec fn prologue_cmds() -> Seq<Cmd> {
    seq![
        Cmd::SetClearColor { r_bits: 0, g_bits: 0, b_bits: 0, a_bits: F32_ONE_BITS },
        Cmd::SetClearDepth { depth_bits: F32_ONE_BITS },
        Cmd::Clear { color: true, depth: true },
        Cmd::EnableDepthTest,
        Cmd::DepthFuncLessEqual,
    ]
}

/// The frame epilogue: activate the program, upload both transform
/// matrices, and issue the one draw call.
pub open spec fn epilogue_cmds(
    program: ProgramHandle,
    projection_uniform: UniformHandle,
    model_view_uniform: UniformHandle,
    transform: TransformInputs,
    draw: DrawSpec,
) -> Seq<Cmd> {
    seq![
        Cmd::UseProgram { program },
        Cmd::UploadProjectionMatrix {
            uniform: projection_uniform,
            fov_y_bits: transform.fov_y_bits,
            aspect_bits: transform.aspect_bits,
            z_near_bits: transform.z_near_bits,
            z_far_bits: transform.z_far_bits,
        },
        Cmd::UploadModelViewMatrix {
            uniform: model_view_uniform,
            offset_x_bits: transform.offset_x_bits,
            offset_y_bits: transform.offset_y_bits,
            offset_z_bits: transform.offset_z_bits,
        },
        Cmd::DrawArrays {
            topology: draw.topology,
            first_vertex: draw.first_vertex,
            vertex_count: draw.vertex_count,
        },
    ]
}

/// The whole plan of one frame, in the order a correct frame requires:
/// clear state, clears, depth state, attribute bindings, program
/// activation, matrix uploads, draw.
pub open spec fn render_plan(
    program: ProgramHandle,
    projection_uniform: UniformHandle,
    model_view_uniform: UniformHandle,
    streams: Seq<AttributeStream>,
    transform: TransformInputs,
    draw: DrawSpec,
) -> Seq<Cmd> {
    prologue_cmds() + stream_cmds(streams) + epilogue_cmds(
        program,
        projection_uniform,
        model_view_uniform,
        transform,
        draw,
    )
}

/// Builds the command sequence of one frame; the result is exactly
/// `render_plan` of the inputs.
pub fn render_commands(
    program: ProgramHandle,
    projection_uniform: UniformHandle,
    model_view_uniform: UniformHandle,
    streams: &Vec<AttributeStream>,
    transform: TransformInputs,
    draw: DrawSpec,
) -> (cmds: Vec<Cmd>)
    ensures
        cmds@ == render_plan(
            program,
            projection_uniform,
            model_view_uniform,
            streams@,
            transform,
            draw,
        ),
{
    let mut cmds: Vec<Cmd> = Vec::new();
    cmds.push(Cmd::SetClearColor { r_bits: 0, g_bits: 0, b_bits: 0, a_bits: F32_ONE_BITS });
    cmds.push(Cmd::SetClearDepth { depth_bits: F32_ONE_BITS });
    cmds.push(Cmd::Clear { color: true, depth: true });
    cmds.push(Cmd::EnableDepthTest);
    cmds.push(Cmd::DepthFuncLessEqual);
    proof {
        assert(cmds@ =~= prologue_cmds() + stream_cmds(streams@.take(0)));
    }
    let mut i: usize = 0;
    while i < streams.len()
        invariant
            i <= streams@.len(),
            cmds@ == prologue_cmds() + stream_cmds(streams@.take(i as int)),
        decreases streams@.len() - i,
    {
        let s = streams[i];
        cmds.push(Cmd::BindArrayBuffer { buffer: s.buffer });
        cmds.push(Cmd::ConfigureAttribute { slot: s.slot, binding: s.binding });
        cmds.push(Cmd::EnableAttribute { slot: s.slot });
        proof {
            let pre = streams@.take(i as int);
            let post = streams@.take(i as int + 1);
            assert(post.drop_last() =~= pre);
            assert(post.last() == streams@[i as int]);
            assert(stream_cmds(post) == stream_cmds(pre) + attribute_cmds(streams@[i as int]));
            assert(cmds@ =~= prologue_cmds() + stream_cmds(post));
        }
        i = i + 1;
    }
    proof {
        assert(streams@.take(streams@.len() as int) =~= streams@);
    }
    cmds.push(Cmd::UseProgram { program });
    cmds.push(
        Cmd::UploadProjectionMatrix {
            uniform: projection_uniform,
            fov_y_bits: transform.fov_y_bits,
            aspect_bits: transform.aspect_bits,
            z_near_bits: transform.z_near_bits,
            z_far_bits: transform.z_far_bits,
        },
    );
    cmds.push(
        Cmd::UploadModelViewMatrix {
            uniform: model_view_uniform,
            offset_x_bits: transform.offset_x_bits,
            offset_y_bits: transform.offset_y_bits,
            offset_z_bits: transform.offset_z_bits,
        },
    );
    cmds.push(
        Cmd::DrawArrays {
            topology: draw.topology,
            first_vertex: draw.first_vertex,
            vertex_count: draw.vertex_count,
        },
    );
    proof {
        assert(cmds@ =~= render_plan(
            program,
            projection_uniform,
            model_view_uniform,
            streams@,
            transform,
            draw,
        ));
    }
    cmds
}

/// The draw calls a command performs: one for `DrawArrays`, none
/// otherwise.
pub open spec fn cmd_draws(c: Cmd) -> Seq<DrawSpec> {
    match c {
        Cmd::DrawArrays { topology, first_vertex, vertex_count } => seq![
            DrawSpec { topology, first_vertex, vertex_count },
        ],
        _ => Seq::empty(),
    }
}

/// The uniform-matrix uploads a command performs.
pub open spec fn cmd_uploads(c: Cmd) -> Seq<Cmd> {
    match c {
        Cmd::UploadProjectionMatrix { .. } => seq![c],
        Cmd::UploadModelViewMatrix { .. } => seq![c],
        _ => Seq::empty(),
    }
}

/// All draw calls a command sequence performs, in order.
pub open spec fn draws_of(cmds: Seq<Cmd>) -> Seq<DrawSpec>
    decreases cmds.len(),
{
    if cmds.len() == 0 {
        Seq::empty()
    } else {
        draws_of(cmds.drop_last()) + cmd_draws(cmds.last())
    }
}

/// All uniform-matrix uploads a command sequence performs, in order.
pub open spec fn uploads_of(cmds: Seq<Cmd>) -> Seq<Cmd>
    decreases cmds.len(),
{
    if cmds.len() == 0 {
        Seq::empty()
    } else {
        uploads_of(cmds.drop_last()) + cmd_uploads(cmds.last())
    }
}

/// Draw calls and uploads distribute over concatenation of command
/// sequences.
pub proof fn lemma_logs_of_add(a: Seq<Cmd>, b: Seq<Cmd>)
    ensures
        draws_of(a + b) == draws_of(a) + draws_of(b),
        uploads_of(a + b) == uploads_of(a) + uploads_of(b),
    decreases b.len(),
{
    if b.len() == 0 {
        assert(a + b =~= a);
        assert(draws_of(a) + draws_of(b) =~= draws_of(a));
        assert(uploads_of(a) + uploads_of(b) =~= uploads_of(a));
    } else {
        lemma_logs_of_add(a, b.drop_last());
        assert((a + b).drop_last() =~= a + b.drop_last());
        assert((a + b).last() == b.last());
        assert(draws_of(a + b) =~= draws_of(a) + draws_of(b));
        assert(uploads_of(a + b) =~= uploads_of(a) + uploads_of(b));
    }
}

/// Binding attribute streams performs no draw call and no matrix upload.
pub proof fn lemma_stream_cmds_quiet(streams: Seq<AttributeStream>)
    ensures
        draws_of(stream_cmds(streams)) == Seq::<DrawSpec>::empty(),
        uploads_of(stream_cmds(streams)) == Seq::<Cmd>::empty(),
    decreases streams.len(),
{
    reveal_with_fuel(draws_of, 4);
    reveal_with_fuel(uploads_of, 4);
    if streams.len() == 0 {
    } else {
        lemma_stream_cmds_quiet(streams.drop_last());
        lemma_logs_of_add(stream_cmds(streams.drop_last()), attribute_cmds(streams.last()));
        let a = attribute_cmds(streams.last());
        assert(a.drop_last() =~= seq![a[0], a[1]]);
        assert(a.drop_last().drop_last() =~= seq![a[0]]);
        assert(a.drop_last().drop_last().drop_last() =~= Seq::<Cmd>::empty());
        assert(draws_of(stream_cmds(streams)) =~= Seq::<DrawSpec>::empty());
        assert(uploads_of(stream_cmds(streams)) =~= Seq::<Cmd>::empty());
    }
}

/// A frame's plan issues exactly one draw call, with exactly the
/// requested topology, first vertex and vertex count.
pub proof fn lemma_render_plan_draws(
    program: ProgramHandle,
    projection_uniform: UniformHandle,
    model_view_uniform: UniformHandle,
    streams: Seq<AttributeStream>,
    transform: TransformInputs,
    draw: DrawSpec,
)
    ensures
        draws_of(
            render_plan(
                program,
                projection_uniform,
                model_view_uniform,
                streams,
                transform,
                draw,
            ),
        ) == seq![draw],
{
    reveal_with_fuel(draws_of, 6);
    let pro = prologue_cmds();
    let mid = stream_cmds(streams);
    let epi = epilogue_cmds(program, projection_uniform, model_view_uniform, transform, draw);
    lemma_stream_cmds_quiet(streams);
    lemma_logs_of_add(pro, mid);
    lemma_logs_of_add(pro + mid, epi);
    assert(pro.drop_last() =~= seq![pro[0], pro[1], pro[2], pro[3]]);
    assert(pro.drop_last().drop_last() =~= seq![pro[0], pro[1], pro[2]]);
    assert(pro.drop_last().drop_last().drop_last() =~= seq![pro[0], pro[1]]);
    assert(pro.drop_last().drop_last().drop_last().drop_last() =~= seq![pro[0]]);
    assert(pro.drop_last().drop_last().drop_last().drop_last().drop_last() =~= Seq::<Cmd>::empty());
    assert(draws_of(pro) =~= Seq::<DrawSpec>::empty());
    assert(epi.drop_last() =~= seq![epi[0], epi[1], epi[2]]);
    assert(epi.drop_last().drop_last() =~= seq![epi[0], epi[1]]);
    assert(epi.drop_last().drop_last().drop_last() =~= seq![epi[0]]);
    assert(epi.drop_last().drop_last().drop_last().drop_last() =~= Seq::<Cmd>::empty());
    assert(epi.last() == (Cmd::DrawArrays {
        topology: draw.topology,
        first_vertex: draw.first_vertex,
        vertex_count: draw.vertex_count,
    }));
    assert(cmd_draws(epi.last()) =~= seq![draw]);
    assert(draws_of(epi) =~= seq![draw]);
    assert(draws_of(render_plan(
        program,
        projection_uniform,
        model_view_uniform,
        streams,
        transform,
        draw,
    )) =~= seq![draw]);
}

/// A frame's plan uploads exactly two matrices: first the projection,
/// then the model-view, each to its resolved uniform and carrying
/// exactly the frame's transform inputs.
pub proof fn lemma_render_plan_uploads(
    program: ProgramHandle,
    projection_uniform: UniformHandle,
    model_view_uniform: UniformHandle,
    streams: Seq<AttributeStream>,
    transform: TransformInputs,
    draw: DrawSpec,
)
    ensures
        uploads_of(
            render_plan(
                program,
                projection_uniform,
                model_view_uniform,
                streams,
                transform,
                draw,
            ),
        ) == seq![
            Cmd::UploadProjectionMatrix {
                uniform: projection_uniform,
                fov_y_bits: transform.fov_y_bits,
                aspect_bits: transform.aspect_bits,
                z_near_bits: transform.z_near_bits,
                z_far_bits: transform.z_far_bits,
            },
            Cmd::UploadModelViewMatrix {
                uniform: model_view_uniform,
                offset_x_bits: transform.offset_x_bits,
                offset_y_bits: transform.offset_y_bits,
                offset_z_bits: transform.offset_z_bits,
            },
        ],
{
    reveal_with_fuel(uploads_of, 6);
    let pro = prologue_cmds();
    let mid = stream_cmds(streams);
    let epi = epilogue_cmds(program, projection_uniform, model_view_uniform, transform, draw);
    lemma_stream_cmds_quiet(streams);
    lemma_logs_of_add(pro, mid);
    lemma_logs_of_add(pro + mid, epi);
    assert(pro.drop_last() =~= seq![pro[0], pro[1], pro[2], pro[3]]);
    assert(pro.drop_last().drop_last() =~= seq![pro[0], pro[1], pro[2]]);
    assert(pro.drop_last().drop_last().drop_last() =~= seq![pro[0], pro[1]]);
    assert(pro.drop_last().drop_last().drop_last().drop_last() =~= seq![pro[0]]);
    assert(pro.drop_last().drop_last().drop_last().drop_last().drop_last() =~= Seq::<Cmd>::empty());
    assert(uploads_of(pro) =~= Seq::<Cmd>::empty());
    assert(epi.drop_last() =~= seq![epi[0], epi[1], epi[2]]);
    assert(epi.drop_last().drop_last() =~= seq![epi[0], epi[1]]);
    assert(epi.drop_last().drop_last().drop_last() =~= seq![epi[0]]);
    assert(epi.drop_last().drop_last().drop_last().drop_last() =~= Seq::<Cmd>::empty());
    assert(uploads_of(epi) =~= seq![epi[1], epi[2]]);
    assert(uploads_of(render_plan(
        program,
        projection_uniform,
        model_view_uniform,
        streams,
        transform,
        draw,
    )) =~= seq![epi[1], epi[2]]);
}

} // verus!
