//! The model graphics device. It stands in for a real backend: it owns
//! the shader, program and buffer objects the pipeline creates, and it
//! executes frame commands against a small, fully specified state
//! machine, recording every draw call and every matrix upload. Each
//! pipeline operation (compile, link, resolve, upload, bind, render) is
//! a method with an exact contract.

use vstd::prelude::*;
use vstd::string::StrSliceExecFns;
use vstd::string::StringExecFns;

use crate::commands::Cmd;
use crate::commands::attribute_cmds;
use crate::commands::cmd_draws;
use crate::commands::cmd_uploads;
use crate::text::contains_seq;
use crate::text::contains_str;
use crate::text::str_eq;
use crate::types::AttributeBinding;
use crate::types::AttributeStream;
use crate::types::DrawSpec;
use crate::types::GlError;
use crate::types::ProgramHandle;
use crate::types::ShaderStage;
use crate::types::StageKind;
use crate::types::UniformHandle;
use crate::types::VertexBuffer;

verus! {

/// The model compiler accepts a stage precisely when its source text
/// declares an entry point, i.e. contains the token `main`. Real
/// compilers are stricter, but every outcome the pipeline handles is
/// covered: acceptance, and rejection with a diagnostic log.
pub open spec fn stage_well_formed(source: Seq<char>) -> bool {
    contains_seq(source, "main"@)
}

/// An attribute is active on a linked program precisely when its name
/// occurs in the vertex stage's source. A name that does not occur there
/// behaves like one the compiler eliminated: resolution fails rather
/// than returning a stale slot.
pub open spec fn attribute_active(vertex_source: Seq<char>, name: Seq<char>) -> bool {
    contains_seq(vertex_source, name)
}

/// A uniform is addressable precisely when its name occurs in the source
/// of either stage.
pub open spec fn uniform_active(
    vertex_source: Seq<char>,
    fragment_source: Seq<char>,
    name: Seq<char>,
) -> bool {
    contains_seq(vertex_source, name) || contains_seq(fragment_source, name)
}

/// One shader object held by the device.
pub struct ShaderRec {
    pub kind: StageKind,
    pub source: String,
    /// Compile status: true on success.
    pub ok: bool,
    /// Compiler diagnostics; non-empty exactly when `ok` is false.
    pub log: String,
}

/// One vertex buffer held by the device: the 32-bit float contents (as
/// bit patterns), copied from the caller at upload time and immutable
/// afterwards. The usage hint is always static: the data never changes.
pub struct BufferRec {
    pub data: Vec<u32>,
}

/// One program object held by the device. The location caches start
/// empty; names are resolved lazily and remembered at the slot they were
/// first given.
pub struct ProgramRec {
    pub vertex_source: String,
    pub fragment_source: String,
    /// Link status: true on success.
    pub linked: bool,
    /// Linker diagnostics; non-empty exactly when `linked` is false.
    pub log: String,
    /// Attribute location cache: the slot of a name is its index here.
    pub attributes: Vec<String>,
    /// Uniform location cache: the handle index of a name is its index
    /// here.
    pub uniforms: Vec<String>,
}

/// The names in a location cache are pairwise distinct, so each name has
/// exactly one slot.
pub open spec fn distinct_names(cache: Seq<String>) -> bool {
    forall|i: int, j: int| 0 <= i < j < cache.len() ==> (#[trigger] cache[i])@ != (#[trigger] cache[j])@
}

/// A location cache holds `name`.
pub open spec fn cache_has(cache: Seq<String>, name: Seq<char>) -> bool {
    exists|k: int| 0 <= k < cache.len() && (#[trigger] cache[k])@ == name
}

/// The slot of `name` in a location cache that holds it; with distinct
/// names the slot is unique.
pub open spec fn cache_slot(cache: Seq<String>, name: Seq<char>) -> int {
    choose|k: int| 0 <= k < cache.len() && (#[trigger] cache[k])@ == name
}

/// In a cache of distinct names, a name sits at exactly one slot, and
/// `cache_slot` is that slot. Repeated resolutions of a cached name
/// therefore always return the same slot.
pub proof fn lemma_cache_slot_unique(cache: Seq<String>, name: Seq<char>, k: int)
    requires
        distinct_names(cache),
        0 <= k < cache.len(),
        cache[k]@ == name,
    ensures
        cache_has(cache, name),
        cache_slot(cache, name) == k,
{
    assert(cache_has(cache, name));
    let s = cache_slot(cache, name);
    assert(0 <= s < cache.len() && cache[s]@ == name);
    if s < k {
        assert(cache[s]@ != cache[k]@);
    } else if k < s {
        assert(cache[k]@ != cache[s]@);
    }
}

/// Caching a fresh name at the end of the cache gives it the next free
/// slot, keeps the names distinct, and later resolutions of that name
/// return exactly that slot.
pub proof fn lemma_cache_push(cache: Seq<String>, name: String)
    requires
        distinct_names(cache),
        !cache_has(cache, name@),
    ensures
        cache_has(cache.push(name), name@),
        cache_slot(cache.push(name), name@) == cache.len(),
        distinct_names(cache.push(name)),
{
    let post = cache.push(name);
    assert(post[cache.len() as int]@ == name@);
    assert(distinct_names(post)) by {
        assert forall|i: int, j: int| 0 <= i < j < post.len() implies (#[trigger] post[i])@ != (
        #[trigger] post[j])@ by {
            if j < cache.len() {
                assert(cache[i]@ != cache[j]@);
            } else {
                assert(post[j]@ == name@);
                assert(post[i] == cache[i]);
                if cache[i]@ == name@ {
                    assert(cache_has(cache, name@));
                }
            }
        }
    }
    lemma_cache_slot_unique(post, name@, cache.len() as int);
}

impl ProgramRec {
    /// A program's caches hold pairwise distinct names, and every cached
    /// name is active on the program, so a cached slot never stands for
    /// an eliminated name.
    pub open spec fn wf(&self) -> bool {
        &&& distinct_names(self.attributes@)
        &&& distinct_names(self.uniforms@)
        &&& forall|k: int|
            0 <= k < self.attributes@.len() ==> attribute_active(
                self.vertex_source@,
                (#[trigger] self.attributes@[k])@,
            )
        &&& forall|k: int|
            0 <= k < self.uniforms@.len() ==> uniform_active(
                self.vertex_source@,
                self.fragment_source@,
                (#[trigger] self.uniforms@[k])@,
            )
    }
}

/// The device state a frame's commands read and write.
#[derive(Clone, Copy, Debug)]
pub struct RenderState {
    pub clear_r_bits: u32,
    pub clear_g_bits: u32,
    pub clear_b_bits: u32,
    pub clear_a_bits: u32,
    pub clear_depth_bits: u32,
    /// Whether the colour buffer has been cleared.
    pub color_cleared: bool,
    /// Whether the depth buffer has been cleared.
    pub depth_cleared: bool,
    pub depth_test_enabled: bool,
    pub depth_less_equal: bool,
    pub bound_array_buffer: Option<VertexBuffer>,
    pub active_program: Option<ProgramHandle>,
}

/// The render state of a freshly acquired device.
pub open spec fn initial_render_state() -> RenderState {
    RenderState {
        clear_r_bits: 0,
        clear_g_bits: 0,
        clear_b_bits: 0,
        clear_a_bits: 0,
        clear_depth_bits: 0,
        color_cleared: false,
        depth_cleared: false,
        depth_test_enabled: false,
        depth_less_equal: false,
        bound_array_buffer: None,
        active_program: None,
    }
}

/// Everything a frame's commands can observe or change, as one value:
/// the scalar render state and the logs of attribute configurations,
/// enabled slots, matrix uploads and draw calls.
#[verifier::ext_equal]
pub struct FrameState {
    pub render_state: RenderState,
    /// Each attribute configuration, with the array buffer that was
    /// bound when it was made.
    pub attrib_configs: Seq<AttributeStream>,
    pub enabled_slots: Seq<usize>,
    pub uniform_uploads: Seq<Cmd>,
    pub draws: Seq<DrawSpec>,
}

/// What one command does to the frame state. Configuring an attribute
/// captures the array buffer bound at that moment; with no buffer bound
/// there is nothing to capture and the command changes nothing.
pub open spec fn step_state(s: FrameState, c: Cmd) -> FrameState {
    match c {
        Cmd::SetClearColor { r_bits, g_bits, b_bits, a_bits } => FrameState {
            render_state: RenderState {
                clear_r_bits: r_bits,
                clear_g_bits: g_bits,
                clear_b_bits: b_bits,
                clear_a_bits: a_bits,
                ..s.render_state
            },
            ..s
        },
        Cmd::SetClearDepth { depth_bits } => FrameState {
            render_state: RenderState { clear_depth_bits: depth_bits, ..s.render_state },
            ..s
        },
        Cmd::Clear { color, depth } => FrameState {
            render_state: RenderState {
                color_cleared: s.render_state.color_cleared || color,
                depth_cleared: s.render_state.depth_cleared || depth,
                ..s.render_state
            },
            ..s
        },
        Cmd::EnableDepthTest => FrameState {
            render_state: RenderState { depth_test_enabled: true, ..s.render_state },
            ..s
        },
        Cmd::DepthFuncLessEqual => FrameState {
            render_state: RenderState { depth_less_equal: true, ..s.render_state },
            ..s
        },
        Cmd::BindArrayBuffer { buffer } => FrameState {
            render_state: RenderState { bound_array_buffer: Some(buffer), ..s.render_state },
            ..s
        },
        Cmd::ConfigureAttribute { slot, binding } => match s.render_state.bound_array_buffer {
            Some(buffer) => FrameState {
                attrib_configs: s.attrib_configs.push(AttributeStream { slot, buffer, binding }),
                ..s
            },
            None => s,
        },
        Cmd::EnableAttribute { slot } => FrameState {
            enabled_slots: s.enabled_slots.push(slot),
            ..s
        },
        Cmd::UseProgram { program } => FrameState {
            render_state: RenderState { active_program: Some(program), ..s.render_state },
            ..s
        },
        Cmd::UploadProjectionMatrix { .. } => FrameState {
            uniform_uploads: s.uniform_uploads.push(c),
            ..s
        },
        Cmd::UploadModelViewMatrix { .. } => FrameState {
            uniform_uploads: s.uniform_uploads.push(c),
            ..s
        },
        Cmd::DrawArrays { topology, first_vertex, vertex_count } => FrameState {
            draws: s.draws.push(DrawSpec { topology, first_vertex, vertex_count }),
            ..s
        },
    }
}

/// What a whole command sequence does to the frame state, command by
/// command from the front.
pub open spec fn run_state(s: FrameState, cmds: Seq<Cmd>) -> FrameState
    decreases cmds.len(),
{
    if cmds.len() == 0 {
        s
    } else {
        step_state(run_state(s, cmds.drop_last()), cmds.last())
    }
}

/// One command appends to the draw and upload logs exactly the draws and
/// uploads of that command, and touches no other log entry.
pub proof fn lemma_step_state_logs(s: FrameState, c: Cmd)
    ensures
        step_state(s, c).draws == s.draws + cmd_draws(c),
        step_state(s, c).uniform_uploads == s.uniform_uploads + cmd_uploads(c),
{
    assert(step_state(s, c).draws =~= s.draws + cmd_draws(c));
    assert(step_state(s, c).uniform_uploads =~= s.uniform_uploads + cmd_uploads(c));
}

/// A command sequence appends to the draw and upload logs exactly its
/// draws and uploads, in order.
pub proof fn lemma_run_state_logs(s: FrameState, cmds: Seq<Cmd>)
    ensures
        run_state(s, cmds).draws == s.draws + crate::commands::draws_of(cmds),
        run_state(s, cmds).uniform_uploads == s.uniform_uploads + crate::commands::uploads_of(
            cmds,
        ),
    decreases cmds.len(),
{
    if cmds.len() == 0 {
        assert(s.draws + crate::commands::draws_of(cmds) =~= s.draws);
        assert(s.uniform_uploads + crate::commands::uploads_of(cmds) =~= s.uniform_uploads);
    } else {
        lemma_run_state_logs(s, cmds.drop_last());
        lemma_step_state_logs(run_state(s, cmds.drop_last()), cmds.last());
        assert(run_state(s, cmds).draws =~= s.draws + crate::commands::draws_of(cmds));
        assert(run_state(s, cmds).uniform_uploads =~= s.uniform_uploads
            + crate::commands::uploads_of(cmds));
    }
}

/// Running a concatenation of command sequences runs the parts in order.
pub proof fn lemma_run_state_add(s: FrameState, a: Seq<Cmd>, b: Seq<Cmd>)
    ensures
        run_state(s, a + b) == run_state(run_state(s, a), b),
    decreases b.len(),
{
    if b.len() == 0 {
        assert(a + b =~= a);
    } else {
        lemma_run_state_add(s, a, b.drop_last());
        assert((a + b).drop_last() =~= a + b.drop_last());
        assert((a + b).last() == b.last());
    }
}

/// The frame prologue sets the clear values, performs both clears and
/// enables less-or-equal depth testing; it touches nothing else.
pub proof fn lemma_run_prologue(s: FrameState)
    ensures
        run_state(s, crate::commands::prologue_cmds()).render_state == (RenderState {
            clear_r_bits: 0,
            clear_g_bits: 0,
            clear_b_bits: 0,
            clear_a_bits: crate::commands::F32_ONE_BITS,
            clear_depth_bits: crate::commands::F32_ONE_BITS,
            color_cleared: true,
            depth_cleared: true,
            depth_test_enabled: true,
            depth_less_equal: true,
            bound_array_buffer: s.render_state.bound_array_buffer,
            active_program: s.render_state.active_program,
        }),
{
    reveal_with_fuel(run_state, 7);
    let pro = crate::commands::prologue_cmds();
    assert(pro.drop_last() =~= seq![pro[0], pro[1], pro[2], pro[3]]);
    assert(pro.drop_last().drop_last() =~= seq![pro[0], pro[1], pro[2]]);
    assert(pro.drop_last().drop_last().drop_last() =~= seq![pro[0], pro[1]]);
    assert(pro.drop_last().drop_last().drop_last().drop_last() =~= seq![pro[0]]);
    assert(pro.drop_last().drop_last().drop_last().drop_last().drop_last() =~= Seq::<Cmd>::empty());
}

/// Binding a non-empty list of attribute streams leaves the last
/// stream's buffer bound and changes nothing else in the render state.
pub proof fn lemma_run_streams(s: FrameState, streams: Seq<AttributeStream>)
    requires
        streams.len() > 0,
    ensures
        run_state(s, crate::commands::stream_cmds(streams)).render_state == (RenderState {
            bound_array_buffer: Some(streams.last().buffer),
            ..s.render_state
        }),
    decreases streams.len(),
{
    reveal_with_fuel(run_state, 5);
    let head = streams.drop_last();
    let tail_cmds = attribute_cmds(streams.last());
    lemma_run_state_add(s, crate::commands::stream_cmds(head), tail_cmds);
    if head.len() > 0 {
        lemma_run_streams(s, head);
    }
    let mid = run_state(s, crate::commands::stream_cmds(head));
    assert(tail_cmds.drop_last() =~= seq![tail_cmds[0], tail_cmds[1]]);
    assert(tail_cmds.drop_last().drop_last() =~= seq![tail_cmds[0]]);
    assert(tail_cmds.drop_last().drop_last().drop_last() =~= Seq::<Cmd>::empty());
    assert(run_state(mid, tail_cmds).render_state == (RenderState {
        bound_array_buffer: Some(streams.last().buffer),
        ..mid.render_state
    }));
}

/// The frame epilogue activates the program (the uploads and the draw
/// only append to the logs); it changes nothing else in the render
/// state.
pub proof fn lemma_run_epilogue(
    s: FrameState,
    program: ProgramHandle,
    projection_uniform: UniformHandle,
    model_view_uniform: UniformHandle,
    transform: crate::types::TransformInputs,
    draw: DrawSpec,
)
    ensures
        run_state(
            s,
            crate::commands::epilogue_cmds(
                program,
                projection_uniform,
                model_view_uniform,
                transform,
                draw,
            ),
        ).render_state == (RenderState { active_program: Some(program), ..s.render_state }),
{
    reveal_with_fuel(run_state, 6);
    let epi = crate::commands::epilogue_cmds(
        program,
        projection_uniform,
        model_view_uniform,
        transform,
        draw,
    );
    assert(epi.drop_last() =~= seq![epi[0], epi[1], epi[2]]);
    assert(epi.drop_last().drop_last() =~= seq![epi[0], epi[1]]);
    assert(epi.drop_last().drop_last().drop_last() =~= seq![epi[0]]);
    assert(epi.drop_last().drop_last().drop_last().drop_last() =~= Seq::<Cmd>::empty());
}

/// The render state a frame leaves behind is determined by the plan
/// alone, whatever state the frame started from: the clear values are
/// set, both buffers cleared, depth testing at less-or-equal, the last
/// stream's buffer bound, the program active. Rendering the same frame
/// again is therefore idempotent on the render state — the repeated run
/// reproduces exactly this state.
pub proof fn lemma_render_plan_outcome(
    s: FrameState,
    program: ProgramHandle,
    projection_uniform: UniformHandle,
    model_view_uniform: UniformHandle,
    streams: Seq<AttributeStream>,
    transform: crate::types::TransformInputs,
    draw: DrawSpec,
)
    requires
        streams.len() > 0,
    ensures
        run_state(
            s,
            crate::commands::render_plan(
                program,
                projection_uniform,
                model_view_uniform,
                streams,
                transform,
                draw,
            ),
        ).render_state == (RenderState {
            clear_r_bits: 0,
            clear_g_bits: 0,
            clear_b_bits: 0,
            clear_a_bits: crate::commands::F32_ONE_BITS,
            clear_depth_bits: crate::commands::F32_ONE_BITS,
            color_cleared: true,
            depth_cleared: true,
            depth_test_enabled: true,
            depth_less_equal: true,
            bound_array_buffer: Some(streams.last().buffer),
            active_program: Some(program),
        }),
{
    let pro = crate::commands::prologue_cmds();
    let mid = crate::commands::stream_cmds(streams);
    let epi = crate::commands::epilogue_cmds(
        program,
        projection_uniform,
        model_view_uniform,
        transform,
        draw,
    );
    lemma_run_state_add(s, pro + mid, epi);
    lemma_run_state_add(s, pro, mid);
    lemma_run_prologue(s);
    lemma_run_streams(run_state(s, pro), streams);
    lemma_run_epilogue(
        run_state(run_state(s, pro), mid),
        program,
        projection_uniform,
        model_view_uniform,
        transform,
        draw,
    );
}

/// The model device: the object stores, a per-kind allocation budget,
/// and the frame state.
pub struct Device {
    /// How many objects of each kind the device can allocate; one more
    /// allocation fails with `ResourceExhausted`.
    pub capacity: usize,
    pub shaders: Vec<ShaderRec>,
    pub programs: Vec<ProgramRec>,
    pub buffers: Vec<BufferRec>,
    pub render_state: RenderState,
    pub attrib_configs: Vec<AttributeStream>,
    pub enabled_slots: Vec<usize>,
    pub uniform_uploads: Vec<Cmd>,
    pub draws: Vec<DrawSpec>,
}

impl Device {
    /// Device well-formedness: every program object is well formed, and
    /// every buffer is small enough for its byte length to be a `usize`.
    pub open spec fn wf(&self) -> bool {
        &&& forall|p: int| 0 <= p < self.programs@.len() ==> (#[trigger] self.programs@[p]).wf()
        &&& forall|b: int|
            0 <= b < self.buffers@.len() ==> (#[trigger] self.buffers@[b]).data@.len() * 4
                <= usize::MAX
    }

    /// The frame state as one value.
    pub open spec fn frame(&self) -> FrameState {
        FrameState {
            render_state: self.render_state,
            attrib_configs: self.attrib_configs@,
            enabled_slots: self.enabled_slots@,
            uniform_uploads: self.uniform_uploads@,
            draws: self.draws@,
        }
    }

    /// The stores and budget are unchanged between two device values.
    pub open spec fn objects_unchanged(pre: Device, post: Device) -> bool {
        &&& post.capacity == pre.capacity
        &&& post.shaders == pre.shaders
        &&& post.programs == pre.programs
        &&& post.buffers == pre.buffers
    }

    /// A stage handle points at a shader object of its own kind.
    pub open spec fn stage_valid(&self, s: ShaderStage) -> bool {
        &&& s.id < self.shaders@.len()
        &&& self.shaders@[s.id as int].kind == s.kind
    }

    /// A stage handle points at a successfully compiled shader object.
    pub open spec fn stage_ok(&self, s: ShaderStage) -> bool {
        &&& self.stage_valid(s)
        &&& self.shaders@[s.id as int].ok
    }

    /// A program handle points at a program object.
    pub open spec fn program_valid(&self, p: ProgramHandle) -> bool {
        p.id < self.programs@.len()
    }

    /// A program handle points at a successfully linked program object,
    /// the only kind usable for resolution and drawing.
    pub open spec fn program_linked(&self, p: ProgramHandle) -> bool {
        &&& self.program_valid(p)
        &&& self.programs@[p.id as int].linked
    }

    /// A buffer handle points at an allocated vertex buffer.
    pub open spec fn buffer_valid(&self, b: VertexBuffer) -> bool {
        b.id < self.buffers@.len()
    }

    /// A fresh device with the given allocation budget: empty stores,
    /// default render state, empty logs.
    pub fn new(capacity: usize) -> (d: Device)
        ensures
            d.wf(),
            d.capacity == capacity,
            d.shaders@.len() == 0,
            d.programs@.len() == 0,
            d.buffers@.len() == 0,
            d.frame() == (FrameState {
                render_state: initial_render_state(),
                attrib_configs: Seq::empty(),
                enabled_slots: Seq::empty(),
                uniform_uploads: Seq::empty(),
                draws: Seq::empty(),
            }),
    {
        let d = Device {
            capacity,
            shaders: Vec::new(),
            programs: Vec::new(),
            buffers: Vec::new(),
            render_state: RenderState {
                clear_r_bits: 0,
                clear_g_bits: 0,
                clear_b_bits: 0,
                clear_a_bits: 0,
                clear_depth_bits: 0,
                color_cleared: false,
                depth_cleared: false,
                depth_test_enabled: false,
                depth_less_equal: false,
                bound_array_buffer: None,
                active_program: None,
            },
            attrib_configs: Vec::new(),
            enabled_slots: Vec::new(),
            uniform_uploads: Vec::new(),
            draws: Vec::new(),
        };
        proof {
            assert(d.frame() =~= FrameState {
                render_state: initial_render_state(),
                attrib_configs: Seq::empty(),
                enabled_slots: Seq::empty(),
                uniform_uploads: Seq::empty(),
                draws: Seq::empty(),
            });
        }
        d
    }

    /// Executes one command against the frame state; the object stores
    /// are not touched.
    pub fn step(&mut self, c: Cmd)
        requires
            old(self).wf(),
        ensures
            final(self).wf(),
            Device::objects_unchanged(*old(self), *final(self)),
            final(self).frame() == step_state(old(self).frame(), c),
    {
        match c {
            Cmd::SetClearColor { r_bits, g_bits, b_bits, a_bits } => {
                self.render_state.clear_r_bits = r_bits;
                self.render_state.clear_g_bits = g_bits;
                self.render_state.clear_b_bits = b_bits;
                self.render_state.clear_a_bits = a_bits;
            },
            Cmd::SetClearDepth { depth_bits } => {
                self.render_state.clear_depth_bits = depth_bits;
            },
            Cmd::Clear { color, depth } => {
                self.render_state.color_cleared = self.render_state.color_cleared || color;
                self.render_state.depth_cleared = self.render_state.depth_cleared || depth;
            },
            Cmd::EnableDepthTest => {
                self.render_state.depth_test_enabled = true;
            },
            Cmd::DepthFuncLessEqual => {
                self.render_state.depth_less_equal = true;
            },
            Cmd::BindArrayBuffer { buffer } => {
                self.render_state.bound_array_buffer = Some(buffer);
            },
            Cmd::ConfigureAttribute { slot, binding } => {
                match self.render_state.bound_array_buffer {
                    Some(buffer) => {
                        self.attrib_configs.push(AttributeStream { slot, buffer, binding });
                    },
                    None => {},
                }
            },
            Cmd::EnableAttribute { slot } => {
                self.enabled_slots.push(slot);
            },
            Cmd::UseProgram { program } => {
                self.render_state.active_program = Some(program);
            },
            Cmd::UploadProjectionMatrix { .. } => {
                self.uniform_uploads.push(c);
            },
            Cmd::UploadModelViewMatrix { .. } => {
                self.uniform_uploads.push(c);
            },
            Cmd::DrawArrays { topology, first_vertex, vertex_count } => {
                self.draws.push(DrawSpec { topology, first_vertex, vertex_count });
            },
        }
        proof {
            assert(self.frame() =~= step_state(old(self).frame(), c));
        }
    }

    /// Executes a command sequence, front to back.
    pub fn run(&mut self, cmds: &Vec<Cmd>)
        requires
            old(self).wf(),
        ensures
            final(self).wf(),
            Device::objects_unchanged(*old(self), *final(self)),
            final(self).frame() == run_state(old(self).frame(), cmds@),
    {
        let mut i: usize = 0;
        while i < cmds.len()
            invariant
                old(self).wf(),
                self.wf(),
                i <= cmds@.len(),
                Device::objects_unchanged(*old(self), *self),
                self.frame() == run_state(old(self).frame(), cmds@.take(i as int)),
            decreases cmds@.len() - i,
        {
            self.step(cmds[i]);
            proof {
                let post = cmds@.take(i as int + 1);
                assert(post.drop_last() =~= cmds@.take(i as int));
                assert(post.last() == cmds@[i as int]);
            }
            i = i + 1;
        }
        proof {
            assert(cmds@.take(cmds@.len() as int) =~= cmds@);
        }
    }

    /// Binds one attribute stream for the upcoming draw: makes its buffer
    /// the active array buffer, configures the slot's layout against it,
    /// and enables the slot. Equivalent to executing the stream's three
    /// binding commands.
    pub fn bind(&mut self, slot: usize, buffer: VertexBuffer, binding: AttributeBinding)
        requires
            old(self).wf(),
            binding.wf(),
        ensures
            final(self).wf(),
            Device::objects_unchanged(*old(self), *final(self)),
            final(self).frame() == run_state(
                old(self).frame(),
                attribute_cmds(AttributeStream { slot, buffer, binding }),
            ),
            final(self).render_state.bound_array_buffer == Some(buffer),
            final(self).attrib_configs@ == old(self).attrib_configs@.push(
                AttributeStream { slot, buffer, binding },
            ),
            final(self).enabled_slots@ == old(self).enabled_slots@.push(slot),
    {
        self.step(Cmd::BindArrayBuffer { buffer });
        self.step(Cmd::ConfigureAttribute { slot, binding });
        self.step(Cmd::EnableAttribute { slot });
        proof {
            let cs = attribute_cmds(AttributeStream { slot, buffer, binding });
            assert(cs.drop_last() =~= seq![cs[0], cs[1]]);
            assert(cs.drop_last().drop_last() =~= seq![cs[0]]);
            assert(cs.drop_last().drop_last().drop_last() =~= Seq::<Cmd>::empty());
            reveal_with_fuel(run_state, 5);
            assert(self.frame() =~= run_state(old(self).frame(), cs));
        }
    }

    /// Compiles `source` as a stage of the given kind. The stage object
    /// is allocated first; with the budget exhausted the call fails with
    /// `ResourceExhausted` and changes nothing. Otherwise the object is
    /// stored, and the call returns its handle exactly when the source is
    /// well formed; a rejected source yields `CompileError` with a
    /// non-empty log, and the failed object is never handed out.
    pub fn compile(&mut self, kind: StageKind, source: &str) -> (r: Result<ShaderStage, GlError>)
        requires
            old(self).wf(),
            source@.len() > 0,
        ensures
            final(self).wf(),
            final(self).capacity == old(self).capacity,
            final(self).programs == old(self).programs,
            final(self).buffers == old(self).buffers,
            final(self).frame() == old(self).frame(),
            r is Ok <==> (old(self).shaders@.len() < old(self).capacity && stage_well_formed(
                source@,
            )),
            match r {
                Ok(stage) => {
                    &&& stage_well_formed(source@)
                    &&& old(self).shaders@.len() < old(self).capacity
                    &&& stage.id == old(self).shaders@.len()
                    &&& stage.kind == kind
                    &&& final(self).shaders@.len() == old(self).shaders@.len() + 1
                    &&& final(self).shaders@.drop_last() == old(self).shaders@
                    &&& final(self).shaders@.last().kind == kind
                    &&& final(self).shaders@.last().source@ == source@
                    &&& final(self).shaders@.last().ok
                    &&& final(self).shaders@.last().log@.len() == 0
                    &&& final(self).stage_ok(stage)
                },
                Err(GlError::ResourceExhausted) => {
                    &&& old(self).shaders@.len() >= old(self).capacity
                    &&& *final(self) == *old(self)
                },
                Err(GlError::CompileError { stage, log }) => {
                    &&& stage == kind
                    &&& !stage_well_formed(source@)
                    &&& old(self).shaders@.len() < old(self).capacity
                    &&& log@.len() > 0
                    &&& final(self).shaders@.len() == old(self).shaders@.len() + 1
                    &&& final(self).shaders@.drop_last() == old(self).shaders@
                    &&& final(self).shaders@.last().kind == kind
                    &&& final(self).shaders@.last().source@ == source@
                    &&& !final(self).shaders@.last().ok
                    &&& final(self).shaders@.last().log@ == log@
                },
                Err(_) => false,
            },
    {
        if self.shaders.len() >= self.capacity {
            return Err(GlError::ResourceExhausted);
        }
        let id = self.shaders.len();
        let src_copy = String::from_str(source);
        let ok = contains_str(source, "main");
        if ok {
            self.shaders.push(ShaderRec { kind, source: src_copy, ok: true, log: String::new() });
            proof {
                assert(self.shaders@.drop_last() =~= old(self).shaders@);
            }
            Ok(ShaderStage { id, kind })
        } else {
            let msg = "stage source does not declare a main entry point";
            proof {
                reveal_strlit("stage source does not declare a main entry point");
            }
            let stored = String::from_str(msg);
            let returned = String::from_str(msg);
            self.shaders.push(ShaderRec { kind, source: src_copy, ok: false, log: stored });
            proof {
                assert(self.shaders@.drop_last() =~= old(self).shaders@);
            }
            Err(GlError::CompileError { stage: kind, log: returned })
        }
    }

    /// Links one vertex and one fragment stage into a program. The
    /// program object is allocated first; with the budget exhausted the
    /// call fails with `ResourceExhausted` and changes nothing. The
    /// linked handle is returned exactly when both stages compiled
    /// successfully; otherwise the object stays unlinked and the call
    /// yields `LinkError` with a non-empty log. A fresh program's
    /// location caches are empty: locations are resolved lazily by name.
    pub fn link(&mut self, vertex: ShaderStage, fragment: ShaderStage) -> (r: Result<
        ProgramHandle,
        GlError,
    >)
        requires
            old(self).wf(),
            old(self).stage_valid(vertex),
            old(self).stage_valid(fragment),
            vertex.kind == StageKind::Vertex,
            fragment.kind == StageKind::Fragment,
        ensures
            final(self).wf(),
            final(self).capacity == old(self).capacity,
            final(self).shaders == old(self).shaders,
            final(self).buffers == old(self).buffers,
            final(self).frame() == old(self).frame(),
            r is Ok <==> (old(self).programs@.len() < old(self).capacity && old(self).stage_ok(
                vertex,
            ) && old(self).stage_ok(fragment)),
            match r {
                Ok(p) => {
                    &&& old(self).stage_ok(vertex)
                    &&& old(self).stage_ok(fragment)
                    &&& old(self).programs@.len() < old(self).capacity
                    &&& p.id == old(self).programs@.len()
                    &&& final(self).programs@.len() == old(self).programs@.len() + 1
                    &&& final(self).programs@.drop_last() == old(self).programs@
                    &&& final(self).programs@.last().linked
                    &&& final(self).programs@.last().log@.len() == 0
                    &&& final(self).programs@.last().vertex_source@ == old(self).shaders@[vertex.id as int].source@
                    &&& final(self).programs@.last().fragment_source@ == old(self).shaders@[fragment.id as int].source@
                    &&& final(self).programs@.last().attributes@.len() == 0
                    &&& final(self).programs@.last().uniforms@.len() == 0
                    &&& final(self).program_linked(p)
                },
                Err(GlError::ResourceExhausted) => {
                    &&& old(self).programs@.len() >= old(self).capacity
                    &&& *final(self) == *old(self)
                },
                Err(GlError::LinkError { log }) => {
                    &&& old(self).programs@.len() < old(self).capacity
                    &&& !(old(self).stage_ok(vertex) && old(self).stage_ok(fragment))
                    &&& log@.len() > 0
                    &&& final(self).programs@.len() == old(self).programs@.len() + 1
                    &&& final(self).programs@.drop_last() == old(self).programs@
                    &&& !final(self).programs@.last().linked
                    &&& final(self).programs@.last().log@ == log@
                },
                Err(_) => false,
            },
    {
        if self.programs.len() >= self.capacity {
            return Err(GlError::ResourceExhausted);
        }
        let id = self.programs.len();
        let vertex_source = String::from_str(self.shaders[vertex.id].source.as_str());
        let fragment_source = String::from_str(self.shaders[fragment.id].source.as_str());
        let both_ok = self.shaders[vertex.id].ok && self.shaders[fragment.id].ok;
        if both_ok {
            self.programs.push(
                ProgramRec {
                    vertex_source,
                    fragment_source,
                    linked: true,
                    log: String::new(),
                    attributes: Vec::new(),
                    uniforms: Vec::new(),
                },
            );
            proof {
                assert(self.programs@.drop_last() =~= old(self).programs@);
                assert(self.programs@.last().wf());
                assert forall|p: int| 0 <= p < self.programs@.len() implies (
                #[trigger] self.programs@[p]).wf() by {
                    if p < old(self).programs@.len() {
                        assert(self.programs@[p] == old(self).programs@[p]);
                    }
                }
            }
            Ok(ProgramHandle { id })
        } else {
            let msg = "program links only from two successfully compiled stages";
            proof {
                reveal_strlit("program links only from two successfully compiled stages");
            }
            let stored = String::from_str(msg);
            let returned = String::from_str(msg);
            self.programs.push(
                ProgramRec {
                    vertex_source,
                    fragment_source,
                    linked: false,
                    log: stored,
                    attributes: Vec::new(),
                    uniforms: Vec::new(),
                },
            );
            proof {
                assert(self.programs@.drop_last() =~= old(self).programs@);
                assert(self.programs@.last().wf());
                assert forall|p: int| 0 <= p < self.programs@.len() implies (
                #[trigger] self.programs@[p]).wf() by {
                    if p < old(self).programs@.len() {
                        assert(self.programs@[p] == old(self).programs@[p]);
                    }
                }
            }
            Err(GlError::LinkError { log: returned })
        }
    }

    /// Allocates a vertex buffer and uploads a non-empty flat sequence of
    /// 32-bit float values (as their bit patterns); the buffer's byte
    /// length is exactly four times the element count. Fails only with
    /// `ResourceExhausted`, changing nothing.
    pub fn upload(&mut self, float_data: &Vec<u32>) -> (r: Result<VertexBuffer, GlError>)
        requires
            old(self).wf(),
            float_data@.len() > 0,
            float_data@.len() * 4 <= usize::MAX,
        ensures
            final(self).wf(),
            final(self).capacity == old(self).capacity,
            final(self).shaders == old(self).shaders,
            final(self).programs == old(self).programs,
            final(self).frame() == old(self).frame(),
            r is Ok <==> old(self).buffers@.len() < old(self).capacity,
            match r {
                Ok(b) => {
                    &&& old(self).buffers@.len() < old(self).capacity
                    &&& b.id == old(self).buffers@.len()
                    &&& final(self).buffers@.len() == old(self).buffers@.len() + 1
                    &&& final(self).buffers@.drop_last() == old(self).buffers@
                    &&& final(self).buffers@.last().data@ == float_data@
                    &&& final(self).buffer_valid(b)
                },
                Err(GlError::ResourceExhausted) => {
                    &&& old(self).buffers@.len() >= old(self).capacity
                    &&& *final(self) == *old(self)
                },
                Err(_) => false,
            },
    {
        if self.buffers.len() >= self.capacity {
            return Err(GlError::ResourceExhausted);
        }
        let id = self.buffers.len();
        // the upload is a value copy: no aliasing with the caller's data
        let mut data: Vec<u32> = Vec::new();
        let mut i: usize = 0;
        while i < float_data.len()
            invariant
                i <= float_data@.len(),
                data@ == float_data@.take(i as int),
            decreases float_data@.len() - i,
        {
            data.push(float_data[i]);
            proof {
                assert(data@ =~= float_data@.take(i as int + 1));
            }
            i = i + 1;
        }
        proof {
            assert(float_data@.take(float_data@.len() as int) =~= float_data@);
        }
        self.buffers.push(BufferRec { data });
        proof {
            assert(self.buffers@.drop_last() =~= old(self).buffers@);
        }
        Ok(VertexBuffer { id })
    }

    /// Reads back the byte length of an allocated buffer: four bytes per
    /// uploaded float.
    pub fn buffer_byte_len(&self, buffer: VertexBuffer) -> (n: usize)
        requires
            self.wf(),
            self.buffer_valid(buffer),
        ensures
            n == self.buffers@[buffer.id as int].data@.len() * 4,
    {
        self.buffers[buffer.id].data.len() * 4
    }

    /// Reads back an allocated buffer's contents, exactly as uploaded.
    pub fn buffer_data(&self, buffer: VertexBuffer) -> (d: &Vec<u32>)
        requires
            self.buffer_valid(buffer),
        ensures
            d@ == self.buffers@[buffer.id as int].data@,
    {
        &self.buffers[buffer.id].data
    }

    /// `post` is `pre` with at most program `pid`'s attribute cache
    /// changed: budget, stores, frame state and every other part of every
    /// program are equal.
    pub open spec fn only_attr_cache_changed(pre: Device, post: Device, pid: int) -> bool {
        &&& post.capacity == pre.capacity
        &&& post.shaders == pre.shaders
        &&& post.buffers == pre.buffers
        &&& post.frame() == pre.frame()
        &&& post.programs@.len() == pre.programs@.len()
        &&& forall|q: int|
            0 <= q < pre.programs@.len() && q != pid ==> post.programs@[q] == #[trigger] pre.programs@[q]
        &&& post.programs@[pid].vertex_source == pre.programs@[pid].vertex_source
        &&& post.programs@[pid].fragment_source == pre.programs@[pid].fragment_source
        &&& post.programs@[pid].linked == pre.programs@[pid].linked
        &&& post.programs@[pid].log == pre.programs@[pid].log
        &&& post.programs@[pid].uniforms == pre.programs@[pid].uniforms
    }

    /// As `only_attr_cache_changed`, for the uniform cache.
    pub open spec fn only_uniform_cache_changed(pre: Device, post: Device, pid: int) -> bool {
        &&& post.capacity == pre.capacity
        &&& post.shaders == pre.shaders
        &&& post.buffers == pre.buffers
        &&& post.frame() == pre.frame()
        &&& post.programs@.len() == pre.programs@.len()
        &&& forall|q: int|
            0 <= q < pre.programs@.len() && q != pid ==> post.programs@[q] == #[trigger] pre.programs@[q]
        &&& post.programs@[pid].vertex_source == pre.programs@[pid].vertex_source
        &&& post.programs@[pid].fragment_source == pre.programs@[pid].fragment_source
        &&& post.programs@[pid].linked == pre.programs@[pid].linked
        &&& post.programs@[pid].log == pre.programs@[pid].log
        &&& post.programs@[pid].attributes == pre.programs@[pid].attributes
    }

    /// Resolves a named vertex attribute on a linked program to its slot.
    /// The slot of a name already in the cache is returned unchanged; an
    /// active name not yet cached is given the next free slot and
    /// remembered there; a name that is not active on the program fails
    /// with `AttributeNotFound`, never with a stale or default slot.
    /// Repeated calls with the same name therefore return the same slot.
    pub fn resolve_attribute(&mut self, program: ProgramHandle, name: &str) -> (r: Result<
        usize,
        GlError,
    >)
        requires
            old(self).wf(),
            old(self).program_linked(program),
        ensures
            final(self).wf(),
            final(self).program_linked(program),
            Device::only_attr_cache_changed(*old(self), *final(self), program.id as int),
            r is Ok <==> attribute_active(
                old(self).programs@[program.id as int].vertex_source@,
                name@,
            ),
            match r {
                Ok(slot) => {
                    &&& attribute_active(
                        old(self).programs@[program.id as int].vertex_source@,
                        name@,
                    )
                    &&& (if cache_has(old(self).programs@[program.id as int].attributes@, name@) {
                        &&& *final(self) == *old(self)
                        &&& slot == cache_slot(
                            old(self).programs@[program.id as int].attributes@,
                            name@,
                        )
                    } else {
                        &&& final(self).programs@[program.id as int].attributes@.len() == old(
                            self,
                        ).programs@[program.id as int].attributes@.len() + 1
                        &&& final(self).programs@[program.id as int].attributes@.drop_last()
                            == old(self).programs@[program.id as int].attributes@
                        &&& final(self).programs@[program.id as int].attributes@.last()@ == name@
                        &&& slot == old(self).programs@[program.id as int].attributes@.len()
                    })
                    &&& cache_has(final(self).programs@[program.id as int].attributes@, name@)
                    &&& slot == cache_slot(
                        final(self).programs@[program.id as int].attributes@,
                        name@,
                    )
                },
                Err(e) => {
                    &&& e is AttributeNotFound
                    &&& !attribute_active(
                        old(self).programs@[program.id as int].vertex_source@,
                        name@,
                    )
                    &&& !cache_has(old(self).programs@[program.id as int].attributes@, name@)
                    &&& *final(self) == *old(self)
                },
            },
    {
        let pid = program.id;
        proof {
            assert(old(self).programs@[pid as int].wf());
        }
        let hit = cache_lookup(&self.programs[pid].attributes, name);
        match hit {
            Some(slot) => {
                proof {
                    let cache = self.programs@[pid as int].attributes@;
                    assert(cache[cache_slot(cache, name@)]@ == name@);
                }
                Ok(slot)
            },
            None => {
                if contains_str(self.programs[pid].vertex_source.as_str(), name) {
                    let cached = String::from_str(name);
                    let mut rec = self.programs.remove(pid);
                    let slot = rec.attributes.len();
                    proof {
                        lemma_cache_push(rec.attributes@, cached);
                    }
                    rec.attributes.push(cached);
                    self.programs.insert(pid, rec);
                    proof {
                        assert(self.programs@ =~= old(self).programs@.update(
                            pid as int,
                            self.programs@[pid as int],
                        ));
                        assert(self.programs@[pid as int].wf());
                        assert forall|p: int| 0 <= p < self.programs@.len() implies (
                        #[trigger] self.programs@[p]).wf() by {
                            if p != pid {
                                assert(self.programs@[p] == old(self).programs@[p]);
                            }
                        }
                        assert(self.programs@[pid as int].attributes@.drop_last() =~= old(
                            self,
                        ).programs@[pid as int].attributes@);
                        assert(self.frame() =~= old(self).frame());
                    }
                    Ok(slot)
                } else {
                    Err(GlError::AttributeNotFound)
                }
            },
        }
    }

    /// Resolves a named uniform on a linked program to its handle, under
    /// the same caching discipline as `resolve_attribute`; a name active
    /// in neither stage's source fails with `UniformNotFound`.
    pub fn resolve_uniform(&mut self, program: ProgramHandle, name: &str) -> (r: Result<
        UniformHandle,
        GlError,
    >)
        requires
            old(self).wf(),
            old(self).program_linked(program),
        ensures
            final(self).wf(),
            final(self).program_linked(program),
            Device::only_uniform_cache_changed(*old(self), *final(self), program.id as int),
            r is Ok <==> uniform_active(
                old(self).programs@[program.id as int].vertex_source@,
                old(self).programs@[program.id as int].fragment_source@,
                name@,
            ),
            match r {
                Ok(handle) => {
                    &&& handle.program == program.id
                    &&& uniform_active(
                        old(self).programs@[program.id as int].vertex_source@,
                        old(self).programs@[program.id as int].fragment_source@,
                        name@,
                    )
                    &&& (if cache_has(old(self).programs@[program.id as int].uniforms@, name@) {
                        &&& *final(self) == *old(self)
                        &&& handle.index == cache_slot(
                            old(self).programs@[program.id as int].uniforms@,
                            name@,
                        )
                    } else {
                        &&& final(self).programs@[program.id as int].uniforms@.len() == old(
                            self,
                        ).programs@[program.id as int].uniforms@.len() + 1
                        &&& final(self).programs@[program.id as int].uniforms@.drop_last() == old(
                            self,
                        ).programs@[program.id as int].uniforms@
                        &&& final(self).programs@[program.id as int].uniforms@.last()@ == name@
                        &&& handle.index == old(self).programs@[program.id as int].uniforms@.len()
                    })
                    &&& cache_has(final(self).programs@[program.id as int].uniforms@, name@)
                    &&& handle.index == cache_slot(
                        final(self).programs@[program.id as int].uniforms@,
                        name@,
                    )
                },
                Err(e) => {
                    &&& e is UniformNotFound
                    &&& !uniform_active(
                        old(self).programs@[program.id as int].vertex_source@,
                        old(self).programs@[program.id as int].fragment_source@,
                        name@,
                    )
                    &&& !cache_has(old(self).programs@[program.id as int].uniforms@, name@)
                    &&& *final(self) == *old(self)
                },
            },
    {
        let pid = program.id;
        proof {
            assert(old(self).programs@[pid as int].wf());
        }
        let hit = cache_lookup(&self.programs[pid].uniforms, name);
        match hit {
            Some(index) => {
                proof {
                    let cache = self.programs@[pid as int].uniforms@;
                    assert(cache[cache_slot(cache, name@)]@ == name@);
                }
                Ok(UniformHandle { program: pid, index })
            },
            None => {
                let in_vertex = contains_str(self.programs[pid].vertex_source.as_str(), name);
                let in_fragment = contains_str(self.programs[pid].fragment_source.as_str(), name);
                if in_vertex || in_fragment {
                    let cached = String::from_str(name);
                    let mut rec = self.programs.remove(pid);
                    let index = rec.uniforms.len();
                    proof {
                        lemma_cache_push(rec.uniforms@, cached);
                    }
                    rec.uniforms.push(cached);
                    self.programs.insert(pid, rec);
                    proof {
                        assert(self.programs@ =~= old(self).programs@.update(
                            pid as int,
                            self.programs@[pid as int],
                        ));
                        assert(self.programs@[pid as int].wf());
                        assert forall|p: int| 0 <= p < self.programs@.len() implies (
                        #[trigger] self.programs@[p]).wf() by {
                            if p != pid {
                                assert(self.programs@[p] == old(self).programs@[p]);
                            }
                        }
                        assert(self.programs@[pid as int].uniforms@.drop_last() =~= old(
                            self,
                        ).programs@[pid as int].uniforms@);
                        assert(self.frame() =~= old(self).frame());
                    }
                    Ok(UniformHandle { program: pid, index })
                } else {
                    Err(GlError::UniformNotFound)
                }
            },
        }
    }

    /// Renders one frame against a linked program by building the frame's
    /// command plan and executing it: set and apply the clears, enable
    /// less-or-equal depth testing, bind every attribute stream, activate
    /// the program, upload the two transform matrices computed from the
    /// scalar inputs, and issue exactly one draw call — the one described
    /// by `draw`, which is appended to the draw log as its only change.
    /// Identical inputs replay an identical command sequence.
    pub fn render(
        &mut self,
        program: ProgramHandle,
        projection_uniform: UniformHandle,
        model_view_uniform: UniformHandle,
        streams: &Vec<AttributeStream>,
        transform: crate::types::TransformInputs,
        draw: DrawSpec,
    )
        requires
            old(self).wf(),
            old(self).program_linked(program),
            forall|i: int| 0 <= i < streams@.len() ==> (#[trigger] streams@[i]).binding.wf(),
        ensures
            final(self).wf(),
            Device::objects_unchanged(*old(self), *final(self)),
            final(self).frame() == run_state(
                old(self).frame(),
                crate::commands::render_plan(
                    program,
                    projection_uniform,
                    model_view_uniform,
                    streams@,
                    transform,
                    draw,
                ),
            ),
            final(self).draws@ == old(self).draws@.push(draw),
            final(self).uniform_uploads@ == old(self).uniform_uploads@ + seq![
                Cmd::UploadProjectionMatrix {
                    uniform: projection_uniform,
                    fov_y_bits: transform.fov_y_bits,
                    aspect_bits: transform.aspect_bits,
                    z_near_bits: transform.z_near_bits,
                    z_far_bits: transform.z_far_bits,
                },
                Cmd::UploadModelViewMatrix {
                    uniform: model_view_uniform,
                    offset_x_bits: transform.offset_x_bits,
                    offset_y_bits: transform.offset_y_bits,
                    offset_z_bits: transform.offset_z_bits,
                },
            ],
    {
        let cmds = crate::commands::render_commands(
            program,
            projection_uniform,
            model_view_uniform,
            streams,
            transform,
            draw,
        );
        self.run(&cmds);
        proof {
            let plan = crate::commands::render_plan(
                program,
                projection_uniform,
                model_view_uniform,
                streams@,
                transform,
                draw,
            );
            lemma_run_state_logs(old(self).frame(), plan);
            crate::commands::lemma_render_plan_draws(
                program,
                projection_uniform,
                model_view_uniform,
                streams@,
                transform,
                draw,
            );
            crate::commands::lemma_render_plan_uploads(
                program,
                projection_uniform,
                model_view_uniform,
                streams@,
                transform,
                draw,
            );
            assert(old(self).draws@ + seq![draw] =~= old(self).draws@.push(draw));
        }
    }
}

/// Finds a name in a location cache of distinct names.
fn cache_lookup(cache: &Vec<String>, name: &str) -> (r: Option<usize>)
    requires
        distinct_names(cache@),
    ensures
        match r {
            Some(k) => {
                &&& cache_has(cache@, name@)
                &&& k < cache@.len()
                &&& k == cache_slot(cache@, name@)
                &&& cache@[k as int]@ == name@
            },
            None => !cache_has(cache@, name@),
        },
{
    let n = cache.len();
    let mut k: usize = 0;
    while k < n
        invariant
            k <= n,
            n == cache@.len(),
            distinct_names(cache@),
            forall|t: int| 0 <= t < k ==> (#[trigger] cache@[t])@ != name@,
        decreases n - k,
    {
        if str_eq(cache[k].as_str(), name) {
            proof {
                lemma_cache_slot_unique(cache@, name@, k as int);
            }
            return Some(k);
        }
        k = k + 1;
    }
    None
}

} // verus!
