//! The frame engine's bookkeeping: frame slots and their fences, the
//! deferred resize, resource states, arena use per frame, and the plans of
//! the draw and composite passes. The device work each plan calls for is
//! done by the caller, which reports back what the GPU and the swapchain
//! answered.
use vstd::prelude::*;
use crate::arena::{
    FRAME_COUNT, VERTEX_SIZE, ContentClass, VertexBufferView, class_capacity, class_index,
    region_start, place_vertices,
};
use crate::atlas::{
    AtlasSize, AtlasUpload, TexturesDelta, atlas_after, delta_is_valid, delta_ok,
    plan_atlas_uploads, uploads_of,
};
use crate::error::EngineError;
use crate::viewport::{
    ScissorRect, Viewport, fit_16_9, full_viewport, full_window, scissor_of, viewport_16_9,
};

verus! {

/// Luminance in nits of scRGB 1.0, the SDR reference white.
pub const REFERENCE_WHITE_NITS: u32 = 80;

/// Vertices of the procedural full-window quad drawn by the composite pass.
pub const COMPOSITE_VERTEX_COUNT: u32 = 6;

#[derive(Clone, Copy, Debug, PartialEq, Eq, Structural)]
pub enum ResourceState {
    Present,
    RenderTarget,
    PixelShaderResource,
    CopyDest,
}

#[derive(Clone, Copy, Debug, PartialEq, Eq, Structural)]
pub enum GpuResource {
    BackBuffer(u32),
    SdrTarget,
    FontAtlas,
}

/// A resource barrier to record.
#[derive(Clone, Copy, Debug, PartialEq, Eq, Structural)]
pub struct Transition {
    pub resource: GpuResource,
    pub before: ResourceState,
    pub after: ResourceState,
}

/// The four fixed pipeline configurations.
#[derive(Clone, Copy, Debug, PartialEq, Eq, Structural)]
pub enum Pipeline {
    UntexturedHdr,
    TexturedSdr,
    TexturedHdr,
    Composite,
}

#[derive(Clone, Copy, Debug, PartialEq, Eq, Structural)]
pub enum DrawTarget {
    BackBuffer(u32),
    SdrTarget,
}

#[derive(Clone, Copy, Debug, PartialEq, Eq, Structural)]
pub enum TextureBinding {
    FontAtlas,
    SdrTarget,
}

/// Shader constants of the composite pass: SDR colour is scaled by
/// `paper_white_nits / reference_white_nits`; alpha is passed through.
#[derive(Clone, Copy, Debug, PartialEq, Eq, Structural)]
pub struct CompositeConstants {
    pub paper_white_nits: u32,
    pub reference_white_nits: u32,
}

/// One pass to record: barriers first, then the draw.
#[derive(Clone, Debug)]
pub struct DrawPlan {
    pub transitions: Vec<Transition>,
    pub pipeline: Pipeline,
    pub target: DrawTarget,
    pub viewport: Viewport,
    pub scissor: ScissorRect,
    pub texture: Option<TextureBinding>,
    /// `None` when the vertices are generated from the vertex index.
    pub vertex_buffer: Option<VertexBufferView>,
    pub vertex_count: u32,
    pub constants: Option<CompositeConstants>,
}

/// A `DrawPlan` as a mathematical value.
pub struct DrawModel {
    pub transitions: Seq<Transition>,
    pub pipeline: Pipeline,
    pub target: DrawTarget,
    pub viewport: Viewport,
    pub scissor: ScissorRect,
    pub texture: Option<TextureBinding>,
    pub vertex_buffer: Option<VertexBufferView>,
    pub vertex_count: u32,
    pub constants: Option<CompositeConstants>,
}

impl View for DrawPlan {
    type V = DrawModel;

    open spec fn view(&self) -> DrawModel {
        DrawModel {
            transitions: self.transitions@,
            pipeline: self.pipeline,
            target: self.target,
            viewport: self.viewport,
            scissor: self.scissor,
            texture: self.texture,
            vertex_buffer: self.vertex_buffer,
            vertex_count: self.vertex_count,
            constants: self.constants,
        }
    }
}

/// What a full drain of the GPU is for.
#[derive(Clone, Copy, Debug, PartialEq, Eq, Structural)]
pub enum DrainPurpose {
    Resize { width: u32, height: u32 },
    Release,
}

/// Where the frame lifecycle stands.
#[derive(Clone, Copy, Debug, PartialEq, Eq, Structural)]
pub enum FramePhase {
    /// Between frames.
    Idle,
    /// Signalling and waiting on every slot's fence in turn; `slot` is the current one.
    Draining { slot: u32, purpose: DrainPurpose },
    /// Drained; the swapchain buffers are to be resized.
    Resizing { width: u32, height: u32 },
    /// Commands of a frame are being recorded.
    Recording,
    /// The frame was submitted and presented; the new back-buffer index is awaited.
    Submitted,
    /// Drained for teardown; the GPU holds no resource any more.
    Released,
}

/// What the caller is to do next, and then report back.
#[derive(Clone, Copy, Debug, PartialEq, Eq, Structural)]
pub enum FrameAction {
    /// Signal the fence with `value` from the queue, then call again.
    Signal { slot: u32, value: u64 },
    /// Block until the fence's completed value reaches `value`, then call again.
    Wait { value: u64 },
    /// Release the back-buffers, resize the swapchain and rebuild the targets,
    /// then report the new back-buffer index.
    ResizeBuffers { width: u32, height: u32 },
    /// Reset the slot's command allocator and open recording.
    Record { slot: u32 },
    /// The drain for teardown is complete.
    Released,
}

/// What `end_frame` asks to record and submit.
#[derive(Clone, Copy, Debug, PartialEq, Eq, Structural)]
pub struct EndPlan {
    pub transition: Option<Transition>,
    /// Present interval: 1, synchronised to every vertical blank.
    pub sync_interval: u32,
    /// Value to signal the fence with after the submission.
    pub signal_value: u64,
}

/// The frame engine's state as a mathematical value.
pub struct EngineModel {
    pub width: u32,
    pub height: u32,
    pub frame_index: u32,
    /// Per slot, the fence value its last submission signals.
    pub fence_values: Seq<u64>,
    pub pending_resize: Option<(u32, u32)>,
    pub phase: FramePhase,
    /// State of the active back-buffer.
    pub back_buffer_state: ResourceState,
    pub sdr_state: ResourceState,
    pub font_atlas: Option<AtlasSize>,
    /// Per content class, bytes of the active slot's region written this frame.
    pub region_used: Seq<u64>,
}

impl EngineModel {
    pub open spec fn wf(self) -> bool {
        &&& self.fence_values.len() == FRAME_COUNT
        &&& self.region_used.len() == 3
        &&& self.frame_index < FRAME_COUNT
        &&& forall|c: ContentClass| #[trigger] self.region_used[class_index(c)] <= class_capacity(c)
        &&& (self.phase matches FramePhase::Draining { slot, .. } ==> slot < FRAME_COUNT)
        &&& (self.back_buffer_state == ResourceState::Present || self.back_buffer_state == ResourceState::RenderTarget)
        &&& (self.sdr_state == ResourceState::PixelShaderResource || self.sdr_state == ResourceState::RenderTarget)
    }
}

/// The barrier that brings `res` from state `cur` to `target`; none when it is there.
pub open spec fn bring_to(res: GpuResource, cur: ResourceState, target: ResourceState) -> Seq<Transition> {
    if cur == target {
        Seq::empty()
    } else {
        seq![Transition { resource: res, before: cur, after: target }]
    }
}

/// A resize request: ignored when a dimension is zero or the size is the
/// current one; otherwise it replaces any request not applied yet.
pub open spec fn resize_next(s: EngineModel, width: u32, height: u32) -> EngineModel {
    if width == 0 || height == 0 || (width == s.width && height == s.height) {
        s
    } else {
        EngineModel { pending_resize: Some((width, height)), ..s }
    }
}

/// Starts a drain: slot 0's fence value is raised by one and signalled.
pub open spec fn start_drain(s: EngineModel, purpose: DrainPurpose) -> (EngineModel, Result<FrameAction, EngineError>) {
    let v = s.fence_values[0];
    if v == u64::MAX {
        (s, Err(EngineError::FenceExhausted))
    } else {
        (
            EngineModel {
                fence_values: s.fence_values.update(0, (v + 1) as u64),
                phase: FramePhase::Draining { slot: 0, purpose },
                ..s
            },
            Ok(FrameAction::Signal { slot: 0, value: (v + 1) as u64 }),
        )
    }
}

/// One step of a drain at `slot`, with the fence's completed value observed:
/// wait until it reaches the slot's value, then go on to the next slot, and
/// after the last one to what the drain was for.
pub open spec fn drain_next(s: EngineModel, slot: u32, purpose: DrainPurpose, completed: u64) -> (EngineModel, Result<FrameAction, EngineError>) {
    let v = s.fence_values[slot as int];
    if completed < v {
        (s, Ok(FrameAction::Wait { value: v }))
    } else if slot + 1 < FRAME_COUNT {
        let n = (slot + 1) as u32;
        let w = s.fence_values[n as int];
        if w == u64::MAX {
            (s, Err(EngineError::FenceExhausted))
        } else {
            (
                EngineModel {
                    fence_values: s.fence_values.update(n as int, (w + 1) as u64),
                    phase: FramePhase::Draining { slot: n, purpose },
                    ..s
                },
                Ok(FrameAction::Signal { slot: n, value: (w + 1) as u64 }),
            )
        }
    } else {
        match purpose {
            DrainPurpose::Resize { width, height } => (
                EngineModel { phase: FramePhase::Resizing { width, height }, ..s },
                Ok(FrameAction::ResizeBuffers { width, height }),
            ),
            DrainPurpose::Release => (
                EngineModel { phase: FramePhase::Released, ..s },
                Ok(FrameAction::Released),
            ),
        }
    }
}

/// Opens a frame on the active slot once the fence's completed value has
/// reached what that slot's previous submission signalled.
pub open spec fn open_frame(s: EngineModel, completed: u64) -> (EngineModel, Result<FrameAction, EngineError>) {
    let v = s.fence_values[s.frame_index as int];
    if completed < v {
        (s, Ok(FrameAction::Wait { value: v }))
    } else {
        (
            EngineModel {
                phase: FramePhase::Recording,
                back_buffer_state: ResourceState::Present,
                region_used: seq![0u64, 0u64, 0u64],
                ..s
            },
            Ok(FrameAction::Record { slot: s.frame_index }),
        )
    }
}

/// `begin_frame` with the fence's completed value observed.
pub open spec fn begin_frame_next(s: EngineModel, completed: u64) -> (EngineModel, Result<FrameAction, EngineError>) {
    match s.phase {
        FramePhase::Idle => match s.pending_resize {
            Some(size) => if size.0 == s.width && size.1 == s.height {
                open_frame(EngineModel { pending_resize: None, ..s }, completed)
            } else {
                let t = EngineModel { pending_resize: None, ..s };
                let (u, r) = start_drain(t, DrainPurpose::Resize { width: size.0, height: size.1 });
                if r is Err { (s, r) } else { (u, r) }
            },
            None => open_frame(s, completed),
        },
        FramePhase::Draining { slot, purpose } => if purpose is Resize {
            drain_next(s, slot, purpose, completed)
        } else {
            (s, Err(EngineError::WrongPhase))
        },
        _ => (s, Err(EngineError::WrongPhase)),
    }
}

/// The swapchain was resized: the new size takes effect, the targets are new,
/// the fence values start again from zero, and the back-buffer index is the
/// one reported.
pub open spec fn resize_applied_next(s: EngineModel, back_buffer_index: u32) -> (EngineModel, Result<(), EngineError>) {
    match s.phase {
        FramePhase::Resizing { width, height } => if back_buffer_index >= FRAME_COUNT {
            (s, Err(EngineError::BadBackBufferIndex))
        } else {
            (
                EngineModel {
                    width,
                    height,
                    frame_index: back_buffer_index,
                    fence_values: seq![0u64, 0u64],
                    phase: FramePhase::Idle,
                    back_buffer_state: ResourceState::Present,
                    sdr_state: ResourceState::PixelShaderResource,
                    ..s
                },
                Ok(()),
            )
        },
        _ => (s, Err(EngineError::WrongPhase)),
    }
}

/// `end_frame`: the back-buffer goes back to the present state, and the slot's
/// fence value is raised by one and signalled after the submission.
pub open spec fn end_frame_next(s: EngineModel) -> (EngineModel, Result<EndPlan, EngineError>) {
    let v = s.fence_values[s.frame_index as int];
    if !(s.phase is Recording) {
        (s, Err(EngineError::WrongPhase))
    } else if v == u64::MAX {
        (s, Err(EngineError::FenceExhausted))
    } else {
        let t = if s.back_buffer_state == ResourceState::RenderTarget {
            Some(Transition {
                resource: GpuResource::BackBuffer(s.frame_index),
                before: ResourceState::RenderTarget,
                after: ResourceState::Present,
            })
        } else {
            None
        };
        (
            EngineModel {
                fence_values: s.fence_values.update(s.frame_index as int, (v + 1) as u64),
                phase: FramePhase::Submitted,
                back_buffer_state: ResourceState::Present,
                ..s
            },
            Ok(EndPlan { transition: t, sync_interval: 1, signal_value: (v + 1) as u64 }),
        )
    }
}

/// The frame was presented and the swapchain reports its next back-buffer.
pub open spec fn frame_submitted_next(s: EngineModel, back_buffer_index: u32) -> (EngineModel, Result<(), EngineError>) {
    if !(s.phase is Submitted) {
        (s, Err(EngineError::WrongPhase))
    } else if back_buffer_index >= FRAME_COUNT {
        (s, Err(EngineError::BadBackBufferIndex))
    } else {
        (EngineModel { frame_index: back_buffer_index, phase: FramePhase::Idle, ..s }, Ok(()))
    }
}

/// `wait_for_gpu` with the fence's completed value observed: drains every
/// slot before teardown, whatever the frame was doing.
pub open spec fn wait_for_gpu_next(s: EngineModel, completed: u64) -> (EngineModel, Result<FrameAction, EngineError>) {
    match s.phase {
        FramePhase::Draining { slot, purpose } => if purpose is Release {
            drain_next(s, slot, purpose, completed)
        } else {
            start_drain(s, DrainPurpose::Release)
        },
        FramePhase::Released => (s, Ok(FrameAction::Released)),
        _ => start_drain(s, DrainPurpose::Release),
    }
}

/// A draw plan as a mathematical value.
pub open spec fn plan_model(r: Result<Option<DrawPlan>, EngineError>) -> Result<Option<DrawModel>, EngineError> {
    match r {
        Ok(Some(p)) => Ok(Some(p@)),
        Ok(None) => Ok(None),
        Err(e) => Err(e),
    }
}

/// A quad pass of `count` vertices for content class `c`: the pattern pass
/// (untextured, into the back-buffer, 16:9 viewport), the HDR text pass
/// (font atlas, into the back-buffer, 16:9 viewport) or the UI pass (font
/// atlas, into the SDR target, whole window). It is skipped when there are
/// no vertices, or when it samples the atlas and there is none. The vertices
/// go after what the class's region of the active slot already holds this
/// frame, and must fit in it.
pub open spec fn quad_pass_next(s: EngineModel, c: ContentClass, count: nat) -> (EngineModel, Result<Option<DrawModel>, EngineError>) {
    let ci = class_index(c);
    let used = s.region_used[ci];
    let bytes = count * VERTEX_SIZE;
    let fi = s.frame_index;
    if !(s.phase is Recording) {
        (s, Err(EngineError::WrongPhase))
    } else if count == 0 || (c != ContentClass::PatternQuads && s.font_atlas is None) {
        (s, Ok(None))
    } else if used + bytes > class_capacity(c) {
        (s, Err(EngineError::RegionOverflow))
    } else {
        let vb = VertexBufferView {
            offset: (region_start(fi as nat, c) + used) as u64,
            size_in_bytes: bytes as u32,
            stride: VERTEX_SIZE as u32,
            vertex_count: count as u32,
        };
        let used2 = s.region_used.update(ci, (used + bytes) as u64);
        match c {
            ContentClass::UiQuads => (
                EngineModel { sdr_state: ResourceState::RenderTarget, region_used: used2, ..s },
                Ok(Some(DrawModel {
                    transitions: bring_to(GpuResource::SdrTarget, s.sdr_state, ResourceState::RenderTarget),
                    pipeline: Pipeline::TexturedSdr,
                    target: DrawTarget::SdrTarget,
                    viewport: full_window(s.width, s.height),
                    scissor: ScissorRect { left: 0, top: 0, right: s.width as u64, bottom: s.height as u64 },
                    texture: Some(TextureBinding::FontAtlas),
                    vertex_buffer: Some(vb),
                    vertex_count: count as u32,
                    constants: None,
                })),
            ),
            _ => (
                EngineModel { back_buffer_state: ResourceState::RenderTarget, region_used: used2, ..s },
                Ok(Some(DrawModel {
                    transitions: bring_to(GpuResource::BackBuffer(fi), s.back_buffer_state, ResourceState::RenderTarget),
                    pipeline: if c == ContentClass::PatternQuads { Pipeline::UntexturedHdr } else { Pipeline::TexturedHdr },
                    target: DrawTarget::BackBuffer(fi),
                    viewport: fit_16_9(s.width, s.height),
                    scissor: scissor_of(fit_16_9(s.width, s.height)),
                    texture: if c == ContentClass::PatternQuads { None } else { Some(TextureBinding::FontAtlas) },
                    vertex_buffer: Some(vb),
                    vertex_count: count as u32,
                    constants: None,
                })),
            ),
        }
    }
}

/// The composite pass: the SDR target becomes shader-readable, the
/// back-buffer a render target, and a full-window quad generated from the
/// vertex index samples the SDR target and blends it over the back-buffer,
/// colour scaled by paper white / 80, alpha kept.
pub open spec fn composite_next(s: EngineModel, paper_white_nits: u32) -> (EngineModel, Result<DrawModel, EngineError>) {
    if !(s.phase is Recording) {
        (s, Err(EngineError::WrongPhase))
    } else {
        (
            EngineModel {
                sdr_state: ResourceState::PixelShaderResource,
                back_buffer_state: ResourceState::RenderTarget,
                ..s
            },
            Ok(DrawModel {
                transitions: bring_to(GpuResource::SdrTarget, s.sdr_state, ResourceState::PixelShaderResource)
                    + bring_to(GpuResource::BackBuffer(s.frame_index), s.back_buffer_state, ResourceState::RenderTarget),
                pipeline: Pipeline::Composite,
                target: DrawTarget::BackBuffer(s.frame_index),
                viewport: full_window(s.width, s.height),
                scissor: ScissorRect { left: 0, top: 0, right: s.width as u64, bottom: s.height as u64 },
                texture: Some(TextureBinding::SdrTarget),
                vertex_buffer: None,
                vertex_count: COMPOSITE_VERTEX_COUNT,
                constants: Some(CompositeConstants { paper_white_nits, reference_white_nits: REFERENCE_WHITE_NITS }),
            }),
        )
    }
}

/// The barrier, if any, that brings `res` from `cur` to `target`.
fn transition_to(res: GpuResource, cur: ResourceState, target: ResourceState) -> (r: Option<Transition>)
    ensures
        r matches Some(t) ==> seq![t] == bring_to(res, cur, target),
        r is None ==> bring_to(res, cur, target) == Seq::<Transition>::empty(),
        r is None <==> cur == target,
{
    if cur == target {
        None
    } else {
        Some(Transition { resource: res, before: cur, after: target })
    }
}

fn push_transition(v: &mut Vec<Transition>, t: Option<Transition>)
    ensures
        t matches Some(x) ==> final(v)@ == old(v)@.push(x),
        t is None ==> final(v)@ == old(v)@,
{
    if let Some(x) = t {
        v.push(x);
    }
}

/// A slot is reused only after its previous submission completed. A frame
/// on slot `k` ends, signalling `v`; when the swapchain comes back to slot
/// `k`, directly or after one frame on the other slot, `begin_frame` opens
/// recording on `k` only with an observed completed value of at least `v`.
pub proof fn lemma_slot_reuse_waits_for_fence(s: EngineModel, other: u32, c1: u64, c2: u64)
    requires
        s.wf(),
        s.phase is Recording,
        other < FRAME_COUNT,
        other != s.frame_index,
    ensures
        ({
            let k = s.frame_index;
            let (s1, e) = end_frame_next(s);
            // straight back to slot k
            let (s2, _) = frame_submitted_next(s1, k);
            let (_, b) = begin_frame_next(s2, c1);
            e is Ok && b == Ok::<FrameAction, EngineError>(FrameAction::Record { slot: k })
                ==> c1 >= e->Ok_0.signal_value
        }),
        ({
            let k = s.frame_index;
            let (s1, e) = end_frame_next(s);
            // one frame on the other slot in between
            let (s2, _) = frame_submitted_next(s1, other);
            let (s3, b1) = begin_frame_next(s2, c1);
            let (s4, _) = end_frame_next(s3);
            let (s5, _) = frame_submitted_next(s4, k);
            let (_, b2) = begin_frame_next(s5, c2);
            e is Ok && b1 == Ok::<FrameAction, EngineError>(FrameAction::Record { slot: other })
                && b2 == Ok::<FrameAction, EngineError>(FrameAction::Record { slot: k })
                ==> c2 >= e->Ok_0.signal_value
        }),
{
    let k = s.frame_index;
    let (s1, e) = end_frame_next(s);
    if e is Ok {
        let (s2, _) = frame_submitted_next(s1, other);
        let (s3, b1) = begin_frame_next(s2, c1);
        if b1 == Ok::<FrameAction, EngineError>(FrameAction::Record { slot: other }) {
            assert(s3.fence_values[k as int] == s1.fence_values[k as int]);
            let (s4, _) = end_frame_next(s3);
            assert(s4.fence_values[k as int] == s1.fence_values[k as int]);
        }
    }
}

/// A resize to a size with a zero dimension, or to the current size, leaves
/// the engine exactly as it was.
pub proof fn lemma_degenerate_resize_is_noop(s: EngineModel, width: u32, height: u32)
    requires
        width == 0 || height == 0 || (width == s.width && height == s.height),
    ensures
        resize_next(s, width, height) == s,
{
}

/// Of two resize requests made between frames, only the second is applied:
/// the next frame drains every slot, resizes the swapchain to the second
/// size, and the engine takes that size. (A second request that is
/// ignored, being degenerate or the current size, leaves the first.)
pub proof fn lemma_resize_last_wins(s: EngineModel, w1: u32, h1: u32, w2: u32, h2: u32, completed: u64, index: u32)
    requires
        s.wf(),
        s.phase is Idle,
        w2 > 0,
        h2 > 0,
        !(w2 == s.width && h2 == s.height),
        s.fence_values[0] < u64::MAX,
        s.fence_values[1] < u64::MAX,
        completed > s.fence_values[0],
        completed > s.fence_values[1],
        index < FRAME_COUNT,
    ensures
        ({
            let t = resize_next(resize_next(s, w1, h1), w2, h2);
            let (t1, a1) = begin_frame_next(t, completed);
            let (t2, a2) = begin_frame_next(t1, completed);
            let (t3, a3) = begin_frame_next(t2, completed);
            let (t4, r) = resize_applied_next(t3, index);
            &&& t.pending_resize == Some((w2, h2))
            &&& a1 == Ok::<FrameAction, EngineError>(FrameAction::Signal { slot: 0, value: (s.fence_values[0] + 1) as u64 })
            &&& a2 == Ok::<FrameAction, EngineError>(FrameAction::Signal { slot: 1, value: (s.fence_values[1] + 1) as u64 })
            &&& a3 == Ok::<FrameAction, EngineError>(FrameAction::ResizeBuffers { width: w2, height: h2 })
            &&& r is Ok
            &&& t4.width == w2
            &&& t4.height == h2
            &&& t4.pending_resize is None
        }),
{
}

/// The composite pass scales SDR colour linearly in paper white / 80 nits:
/// its constants carry exactly the paper white asked for over the 80-nit
/// reference (160 nits gives twice the scale of 80).
pub proof fn lemma_composite_scale(s: EngineModel, paper_white_nits: u32)
    requires
        s.phase is Recording,
    ensures
        composite_next(s, paper_white_nits).1 matches Ok(m) && m.constants == Some(
            CompositeConstants { paper_white_nits, reference_white_nits: 80 },
        ),
{
}

/// Bookkeeping of the frame engine. Device objects live with the caller;
/// this holds what decides their use.
pub struct Dx12State {
    width: u32,
    height: u32,
    frame_index: u32,
    fence_values: Vec<u64>,
    pending_resize: Option<(u32, u32)>,
    phase: FramePhase,
    back_buffer_state: ResourceState,
    sdr_state: ResourceState,
    font_atlas: Option<AtlasSize>,
    region_used: Vec<u64>,
}

impl View for Dx12State {
    type V = EngineModel;

    closed spec fn view(&self) -> EngineModel {
        EngineModel {
            width: self.width,
            height: self.height,
            frame_index: self.frame_index,
            fence_values: self.fence_values@,
            pending_resize: self.pending_resize,
            phase: self.phase,
            back_buffer_state: self.back_buffer_state,
            sdr_state: self.sdr_state,
            font_atlas: self.font_atlas,
            region_used: self.region_used@,
        }
    }
}

impl Dx12State {
    /// The engine for a new `width` x `height` swapchain whose current
    /// back-buffer is `back_buffer_index`: idle, fences at zero, back-buffers
    /// presentable, SDR target shader-readable, no font atlas.
    pub fn new(width: u32, height: u32, back_buffer_index: u32) -> (r: Result<Dx12State, EngineError>)
        ensures
            back_buffer_index >= FRAME_COUNT <==> r is Err,
            r is Err ==> r == Err::<Dx12State, EngineError>(EngineError::BadBackBufferIndex),
            r matches Ok(e) ==> {
                &&& e@.wf()
                &&& e@ == (EngineModel {
                    width,
                    height,
                    frame_index: back_buffer_index,
                    fence_values: seq![0u64, 0u64],
                    pending_resize: None,
                    phase: FramePhase::Idle,
                    back_buffer_state: ResourceState::Present,
                    sdr_state: ResourceState::PixelShaderResource,
                    font_atlas: None,
                    region_used: seq![0u64, 0u64, 0u64],
                })
            },
    {
        if back_buffer_index >= FRAME_COUNT {
            return Err(EngineError::BadBackBufferIndex);
        }
        let e = Dx12State {
            width,
            height,
            frame_index: back_buffer_index,
            fence_values: vec![0u64, 0u64],
            pending_resize: None,
            phase: FramePhase::Idle,
            back_buffer_state: ResourceState::Present,
            sdr_state: ResourceState::PixelShaderResource,
            font_atlas: None,
            region_used: vec![0u64, 0u64, 0u64],
        };
        assert(e@.fence_values =~= seq![0u64, 0u64]);
        assert(e@.region_used =~= seq![0u64, 0u64, 0u64]);
        Ok(e)
    }

    pub fn width(&self) -> (r: u32)
        ensures
            r == self@.width,
    {
        self.width
    }

    pub fn height(&self) -> (r: u32)
        ensures
            r == self@.height,
    {
        self.height
    }

    /// Index of the active back-buffer, which is also the active frame slot.
    pub fn frame_index(&self) -> (r: u32)
        ensures
            r == self@.frame_index,
    {
        self.frame_index
    }

    pub fn phase(&self) -> (r: FramePhase)
        ensures
            r == self@.phase,
    {
        self.phase
    }

    /// The fence value the last submission of `slot` signals.
    pub fn fence_value(&self, slot: u32) -> (r: u64)
        requires
            self@.wf(),
            slot < FRAME_COUNT,
        ensures
            r == self@.fence_values[slot as int],
    {
        self.fence_values[slot as usize]
    }

    pub fn pending_resize(&self) -> (r: Option<(u32, u32)>)
        ensures
            r == self@.pending_resize,
    {
        self.pending_resize
    }

    pub fn font_atlas(&self) -> (r: Option<AtlasSize>)
        ensures
            r == self@.font_atlas,
    {
        self.font_atlas
    }

    /// Asks for a resize at the next frame boundary. A dimension of zero, or
    /// the current size, leaves everything as it is; otherwise the request
    /// replaces any earlier one not applied yet. Never fails.
    pub fn resize(&mut self, width: u32, height: u32) -> (r: Result<(), EngineError>)
        requires
            old(self)@.wf(),
        ensures
            final(self)@.wf(),
            r is Ok,
            final(self)@ == resize_next(old(self)@, width, height),
            width == 0 || height == 0 || (width == old(self)@.width && height == old(self)@.height)
                ==> final(self)@ == old(self)@,
    {
        if width == 0 || height == 0 {
            return Ok(());
        }
        if width == self.width && height == self.height {
            return Ok(());
        }
        self.pending_resize = Some((width, height));
        Ok(())
    }

    fn start_drain(&mut self, purpose: DrainPurpose) -> (r: Result<FrameAction, EngineError>)
        requires
            old(self)@.wf(),
        ensures
            final(self)@.wf(),
            (final(self)@, r) == start_drain(old(self)@, purpose),
    {
        let v = self.fence_values[0];
        if v == u64::MAX {
            return Err(EngineError::FenceExhausted);
        }
        self.fence_values.set(0, v + 1);
        self.phase = FramePhase::Draining { slot: 0, purpose };
        Ok(FrameAction::Signal { slot: 0, value: v + 1 })
    }

    fn drain_step(&mut self, slot: u32, purpose: DrainPurpose, completed: u64) -> (r: Result<FrameAction, EngineError>)
        requires
            old(self)@.wf(),
            old(self)@.phase == (FramePhase::Draining { slot, purpose }),
        ensures
            final(self)@.wf(),
            (final(self)@, r) == drain_next(old(self)@, slot, purpose, completed),
    {
        let v = self.fence_values[slot as usize];
        if completed < v {
            return Ok(FrameAction::Wait { value: v });
        }
        if slot + 1 < FRAME_COUNT {
            let n = slot + 1;
            let w = self.fence_values[n as usize];
            if w == u64::MAX {
                return Err(EngineError::FenceExhausted);
            }
            self.fence_values.set(n as usize, w + 1);
            self.phase = FramePhase::Draining { slot: n, purpose };
            return Ok(FrameAction::Signal { slot: n, value: w + 1 });
        }
        match purpose {
            DrainPurpose::Resize { width, height } => {
                self.phase = FramePhase::Resizing { width, height };
                Ok(FrameAction::ResizeBuffers { width, height })
            },
            DrainPurpose::Release => {
                self.phase = FramePhase::Released;
                Ok(FrameAction::Released)
            },
        }
    }

    fn open_frame(&mut self, completed: u64) -> (r: Result<FrameAction, EngineError>)
        requires
            old(self)@.wf(),
        ensures
            final(self)@.wf(),
            (final(self)@, r) == open_frame(old(self)@, completed),
    {
        let slot = self.frame_index;
        let v = self.fence_values[slot as usize];
        if completed < v {
            return Ok(FrameAction::Wait { value: v });
        }
        self.phase = FramePhase::Recording;
        self.back_buffer_state = ResourceState::Present;
        self.region_used = vec![0u64, 0u64, 0u64];
        assert(self.region_used@ =~= seq![0u64, 0u64, 0u64]);
        Ok(FrameAction::Record { slot })
    }

    /// Drives the start of a frame; `completed` is the fence's completed value
    /// as just observed. A resize request is applied first: every slot is
    /// drained (`Signal`, `Wait`) and then the swapchain is to be resized
    /// (`ResizeBuffers`, answered by `resize_applied`). Then the active slot
    /// is reused only once the fence has reached the value its previous
    /// submission signalled (`Wait` until then), and recording opens (`Record`).
    /// The caller performs each action and calls again until `Record`.
    pub fn begin_frame(&mut self, completed: u64) -> (r: Result<FrameAction, EngineError>)
        requires
            old(self)@.wf(),
        ensures
            final(self)@.wf(),
            (final(self)@, r) == begin_frame_next(old(self)@, completed),
            r matches Ok(FrameAction::Record { slot }) ==> {
                &&& slot == old(self)@.frame_index
                &&& completed >= old(self)@.fence_values[slot as int]
            },
    {
        match self.phase {
            FramePhase::Idle => {
                match self.pending_resize {
                    Some(size) => {
                        if size.0 == self.width && size.1 == self.height {
                            self.pending_resize = None;
                            self.open_frame(completed)
                        } else {
                            let ghost s0 = self@;
                            self.pending_resize = None;
                            let r = self.start_drain(DrainPurpose::Resize { width: size.0, height: size.1 });
                            if r.is_err() {
                                self.pending_resize = Some(size);
                                assert(self@ == s0);
                            }
                            r
                        }
                    },
                    None => self.open_frame(completed),
                }
            },
            FramePhase::Draining { slot, purpose } => {
                match purpose {
                    DrainPurpose::Resize { .. } => self.drain_step(slot, purpose, completed),
                    DrainPurpose::Release => Err(EngineError::WrongPhase),
                }
            },
            _ => Err(EngineError::WrongPhase),
        }
    }

    /// Reports that the swapchain was resized as `ResizeBuffers` asked, and
    /// its current back-buffer index.
    pub fn resize_applied(&mut self, back_buffer_index: u32) -> (r: Result<(), EngineError>)
        requires
            old(self)@.wf(),
        ensures
            final(self)@.wf(),
            (final(self)@, r) == resize_applied_next(old(self)@, back_buffer_index),
    {
        match self.phase {
            FramePhase::Resizing { width, height } => {
                if back_buffer_index >= FRAME_COUNT {
                    return Err(EngineError::BadBackBufferIndex);
                }
                self.width = width;
                self.height = height;
                self.frame_index = back_buffer_index;
                self.fence_values = vec![0u64, 0u64];
                self.phase = FramePhase::Idle;
                self.back_buffer_state = ResourceState::Present;
                self.sdr_state = ResourceState::PixelShaderResource;
                assert(self.fence_values@ =~= seq![0u64, 0u64]);
                Ok(())
            },
            _ => Err(EngineError::WrongPhase),
        }
    }

    /// Closes the frame: the barrier back to the present state, if the
    /// back-buffer is a render target, and the fence value to signal after
    /// submitting and presenting with an interval of 1. The value is one more
    /// than the slot's previous one, and is what the slot's next reuse waits for.
    pub fn end_frame(&mut self) -> (r: Result<EndPlan, EngineError>)
        requires
            old(self)@.wf(),
        ensures
            final(self)@.wf(),
            (final(self)@, r) == end_frame_next(old(self)@),
            r matches Ok(p) ==> final(self)@.fence_values[old(self)@.frame_index as int] == p.signal_value,
    {
        if !matches!(self.phase, FramePhase::Recording) {
            return Err(EngineError::WrongPhase);
        }
        let slot = self.frame_index;
        let v = self.fence_values[slot as usize];
        if v == u64::MAX {
            return Err(EngineError::FenceExhausted);
        }
        let t = if self.back_buffer_state == ResourceState::RenderTarget {
            Some(Transition {
                resource: GpuResource::BackBuffer(slot),
                before: ResourceState::RenderTarget,
                after: ResourceState::Present,
            })
        } else {
            None
        };
        self.fence_values.set(slot as usize, v + 1);
        self.phase = FramePhase::Submitted;
        self.back_buffer_state = ResourceState::Present;
        Ok(EndPlan { transition: t, sync_interval: 1, signal_value: v + 1 })
    }

    /// Reports the back-buffer index the swapchain gives after presenting.
    pub fn frame_submitted(&mut self, back_buffer_index: u32) -> (r: Result<(), EngineError>)
        requires
            old(self)@.wf(),
        ensures
            final(self)@.wf(),
            (final(self)@, r) == frame_submitted_next(old(self)@, back_buffer_index),
    {
        if !matches!(self.phase, FramePhase::Submitted) {
            return Err(EngineError::WrongPhase);
        }
        if back_buffer_index >= FRAME_COUNT {
            return Err(EngineError::BadBackBufferIndex);
        }
        self.frame_index = back_buffer_index;
        self.phase = FramePhase::Idle;
        Ok(())
    }

    /// Drains every slot before teardown: each slot's fence value is raised
    /// by one, signalled and waited for in turn. The caller performs each
    /// action and calls again until `Released`.
    pub fn wait_for_gpu(&mut self, completed: u64) -> (r: Result<FrameAction, EngineError>)
        requires
            old(self)@.wf(),
        ensures
            final(self)@.wf(),
            (final(self)@, r) == wait_for_gpu_next(old(self)@, completed),
    {
        match self.phase {
            FramePhase::Draining { slot, purpose } => {
                match purpose {
                    DrainPurpose::Release => self.drain_step(slot, purpose, completed),
                    DrainPurpose::Resize { .. } => self.start_drain(DrainPurpose::Release),
                }
            },
            FramePhase::Released => Ok(FrameAction::Released),
            _ => self.start_drain(DrainPurpose::Release),
        }
    }

    /// The 16:9 viewport of the current window size, and its scissor.
    pub fn get_16_9_viewport(&self) -> (r: (Viewport, ScissorRect))
        ensures
            r == (fit_16_9(self@.width, self@.height), scissor_of(fit_16_9(self@.width, self@.height))),
    {
        viewport_16_9(self.width, self.height)
    }

    /// Brings the back-buffer to the render-target state for clearing.
    pub fn clear_render_target(&mut self) -> (r: Result<Option<Transition>, EngineError>)
        requires
            old(self)@.wf(),
        ensures
            final(self)@.wf(),
            !(old(self)@.phase is Recording) ==> r == Err::<Option<Transition>, EngineError>(EngineError::WrongPhase)
                && final(self)@ == old(self)@,
            old(self)@.phase is Recording ==> {
                &&& final(self)@ == (EngineModel { back_buffer_state: ResourceState::RenderTarget, ..old(self)@ })
                &&& r matches Ok(t)
                &&& (t matches Some(x) ==> seq![x] == bring_to(GpuResource::BackBuffer(old(self)@.frame_index), old(self)@.back_buffer_state, ResourceState::RenderTarget))
                &&& (t is None ==> old(self)@.back_buffer_state == ResourceState::RenderTarget)
            },
    {
        if !matches!(self.phase, FramePhase::Recording) {
            return Err(EngineError::WrongPhase);
        }
        let t = transition_to(GpuResource::BackBuffer(self.frame_index), self.back_buffer_state, ResourceState::RenderTarget);
        self.back_buffer_state = ResourceState::RenderTarget;
        Ok(t)
    }

    /// Brings the SDR target to the render-target state, to be cleared to
    /// transparent black.
    pub fn clear_sdr_target(&mut self) -> (r: Result<Option<Transition>, EngineError>)
        requires
            old(self)@.wf(),
        ensures
            final(self)@.wf(),
            !(old(self)@.phase is Recording) ==> r == Err::<Option<Transition>, EngineError>(EngineError::WrongPhase)
                && final(self)@ == old(self)@,
            old(self)@.phase is Recording ==> {
                &&& final(self)@ == (EngineModel { sdr_state: ResourceState::RenderTarget, ..old(self)@ })
                &&& r matches Ok(t)
                &&& (t matches Some(x) ==> seq![x] == bring_to(GpuResource::SdrTarget, old(self)@.sdr_state, ResourceState::RenderTarget))
                &&& (t is None ==> old(self)@.sdr_state == ResourceState::RenderTarget)
            },
    {
        if !matches!(self.phase, FramePhase::Recording) {
            return Err(EngineError::WrongPhase);
        }
        let t = transition_to(GpuResource::SdrTarget, self.sdr_state, ResourceState::RenderTarget);
        self.sdr_state = ResourceState::RenderTarget;
        Ok(t)
    }

    fn quad_pass(&mut self, c: ContentClass, count: usize) -> (r: Result<Option<DrawPlan>, EngineError>)
        requires
            old(self)@.wf(),
        ensures
            final(self)@.wf(),
            (final(self)@, plan_model(r)) == quad_pass_next(old(self)@, c, count as nat),
    {
        if !matches!(self.phase, FramePhase::Recording) {
            return Err(EngineError::WrongPhase);
        }
        let uses_atlas = match c {
            ContentClass::PatternQuads => false,
            _ => true,
        };
        if count == 0 || (uses_atlas && self.font_atlas.is_none()) {
            return Ok(None);
        }
        let ci: usize = match c {
            ContentClass::PatternQuads => 0,
            ContentClass::UiQuads => 1,
            ContentClass::HdrText => 2,
        };
        let used = self.region_used[ci];
        assert(used <= class_capacity(c));
        let vb = match place_vertices(self.frame_index, c, used, count) {
            Ok(v) => v,
            Err(e) => {
                return Err(e);
            },
        };
        self.region_used.set(ci, used + vb.size_in_bytes as u64);
        let mut transitions: Vec<Transition> = Vec::new();
        let plan = match c {
            ContentClass::UiQuads => {
                let t = transition_to(GpuResource::SdrTarget, self.sdr_state, ResourceState::RenderTarget);
                push_transition(&mut transitions, t);
                self.sdr_state = ResourceState::RenderTarget;
                let (viewport, scissor) = full_viewport(self.width, self.height);
                DrawPlan {
                    transitions,
                    pipeline: Pipeline::TexturedSdr,
                    target: DrawTarget::SdrTarget,
                    viewport,
                    scissor,
                    texture: Some(TextureBinding::FontAtlas),
                    vertex_buffer: Some(vb),
                    vertex_count: vb.vertex_count,
                    constants: None,
                }
            },
            _ => {
                let t = transition_to(GpuResource::BackBuffer(self.frame_index), self.back_buffer_state, ResourceState::RenderTarget);
                push_transition(&mut transitions, t);
                self.back_buffer_state = ResourceState::RenderTarget;
                let (viewport, scissor) = viewport_16_9(self.width, self.height);
                DrawPlan {
                    transitions,
                    pipeline: if uses_atlas { Pipeline::TexturedHdr } else { Pipeline::UntexturedHdr },
                    target: DrawTarget::BackBuffer(self.frame_index),
                    viewport,
                    scissor,
                    texture: if uses_atlas { Some(TextureBinding::FontAtlas) } else { None },
                    vertex_buffer: Some(vb),
                    vertex_count: vb.vertex_count,
                    constants: None,
                }
            },
        };
        assert(plan.transitions@ =~= bring_to(
            if c == ContentClass::UiQuads { GpuResource::SdrTarget } else { GpuResource::BackBuffer(old(self)@.frame_index) },
            if c == ContentClass::UiQuads { old(self)@.sdr_state } else { old(self)@.back_buffer_state },
            ResourceState::RenderTarget));
        Ok(Some(plan))
    }

    /// The pattern pass: `vertex_count` untextured vertices, drawn into the
    /// back-buffer in the 16:9 viewport.
    pub fn render_quads(&mut self, vertex_count: usize) -> (r: Result<Option<DrawPlan>, EngineError>)
        requires
            old(self)@.wf(),
        ensures
            final(self)@.wf(),
            (final(self)@, plan_model(r)) == quad_pass_next(old(self)@, ContentClass::PatternQuads, vertex_count as nat),
    {
        self.quad_pass(ContentClass::PatternQuads, vertex_count)
    }

    /// The HDR text pass: `vertex_count` vertices sampling the font atlas,
    /// drawn into the back-buffer in the 16:9 viewport.
    pub fn render_hdr_text(&mut self, vertex_count: usize) -> (r: Result<Option<DrawPlan>, EngineError>)
        requires
            old(self)@.wf(),
        ensures
            final(self)@.wf(),
            (final(self)@, plan_model(r)) == quad_pass_next(old(self)@, ContentClass::HdrText, vertex_count as nat),
    {
        self.quad_pass(ContentClass::HdrText, vertex_count)
    }

    /// The UI pass: `vertex_count` vertices sampling the font atlas, drawn
    /// into the SDR target over the whole window.
    pub fn render_ui_quads(&mut self, vertex_count: usize) -> (r: Result<Option<DrawPlan>, EngineError>)
        requires
            old(self)@.wf(),
        ensures
            final(self)@.wf(),
            (final(self)@, plan_model(r)) == quad_pass_next(old(self)@, ContentClass::UiQuads, vertex_count as nat),
    {
        self.quad_pass(ContentClass::UiQuads, vertex_count)
    }

    /// The composite pass, with paper white at `paper_white_nits`.
    pub fn composite_ui(&mut self, paper_white_nits: u32) -> (r: Result<DrawPlan, EngineError>)
        requires
            old(self)@.wf(),
        ensures
            final(self)@.wf(),
            (final(self)@, match r { Ok(p) => Ok(p@), Err(e) => Err(e) }) == composite_next(old(self)@, paper_white_nits),
    {
        if !matches!(self.phase, FramePhase::Recording) {
            return Err(EngineError::WrongPhase);
        }
        let mut transitions: Vec<Transition> = Vec::new();
        let t1 = transition_to(GpuResource::SdrTarget, self.sdr_state, ResourceState::PixelShaderResource);
        push_transition(&mut transitions, t1);
        let t2 = transition_to(GpuResource::BackBuffer(self.frame_index), self.back_buffer_state, ResourceState::RenderTarget);
        push_transition(&mut transitions, t2);
        self.sdr_state = ResourceState::PixelShaderResource;
        self.back_buffer_state = ResourceState::RenderTarget;
        let (viewport, scissor) = full_viewport(self.width, self.height);
        let plan = DrawPlan {
            transitions,
            pipeline: Pipeline::Composite,
            target: DrawTarget::BackBuffer(self.frame_index),
            viewport,
            scissor,
            texture: Some(TextureBinding::SdrTarget),
            vertex_buffer: None,
            vertex_count: COMPOSITE_VERTEX_COUNT,
            constants: Some(CompositeConstants { paper_white_nits, reference_white_nits: REFERENCE_WHITE_NITS }),
        };
        assert(plan.transitions@ =~= bring_to(GpuResource::SdrTarget, old(self)@.sdr_state, ResourceState::PixelShaderResource)
            + bring_to(GpuResource::BackBuffer(old(self)@.frame_index), old(self)@.back_buffer_state, ResourceState::RenderTarget));
        Ok(plan)
    }

    /// Streams the font atlas: the uploads `delta` asks for, in order. Only
    /// managed texture 0 is honoured; a full update replaces the atlas, a
    /// patch while there is no atlas is dropped. Fails, changing nothing,
    /// outside recording or when an honoured image is malformed.
    pub fn update_font_texture(&mut self, delta: &TexturesDelta) -> (r: Result<Vec<AtlasUpload>, EngineError>)
        requires
            old(self)@.wf(),
        ensures
            final(self)@.wf(),
            !(old(self)@.phase is Recording) ==> r == Err::<Vec<AtlasUpload>, EngineError>(EngineError::WrongPhase),
            old(self)@.phase is Recording && !delta_ok(delta.set@)
                ==> r == Err::<Vec<AtlasUpload>, EngineError>(EngineError::MalformedImage),
            r is Err ==> final(self)@ == old(self)@,
            old(self)@.phase is Recording && delta_ok(delta.set@) ==> r is Ok,
            r matches Ok(ups) ==> {
                &&& ups@.map_values(|u: AtlasUpload| u@) == uploads_of(old(self)@.font_atlas, delta.set@)
                &&& final(self)@ == (EngineModel { font_atlas: atlas_after(old(self)@.font_atlas, delta.set@), ..old(self)@ })
            },
    {
        if !matches!(self.phase, FramePhase::Recording) {
            return Err(EngineError::WrongPhase);
        }
        if !delta_is_valid(delta) {
            return Err(EngineError::MalformedImage);
        }
        let (atlas, ups) = plan_atlas_uploads(self.font_atlas, delta);
        self.font_atlas = atlas;
        Ok(ups)
    }
}

} // verus!
