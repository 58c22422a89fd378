//! The render-state manager and the per-frame protocol.
//!
//! The state owns the axis frame, the current normalized path, the pipeline
//! registry and the stroke width. One call of [`render`] is one frame: it
//! decides from the drained event batch whether to quit, installs new
//! geometry when an update is supplied, and returns the plan the draw step
//! must follow. Everything the GPU does with that plan — clearing, binding,
//! uploading uniforms, the triangle-strip draw, presenting — happens
//! outside the library.

use vstd::prelude::*;

use crate::data::{MAX_PATH_POINTS, PathUpdate};
use crate::registry::{PipelineEntry, PipelineRegistry, ProgramKey};

verus! {

/// One input event, as the library models the windowing provider's stream:
/// a request to quit, or anything else.
#[derive(Clone, Copy, PartialEq, Eq, Debug, Structural)]
pub enum PlotEvent {
    Quit,
    Other,
}

/// Whether the batch holds a quit request.
pub open spec fn has_quit(events: Seq<PlotEvent>) -> bool {
    exists|i: int| 0 <= i < events.len() && events[i] is Quit
}

/// Scans a drained event batch for a quit request.
pub fn contains_quit(events: &Vec<PlotEvent>) -> (r: bool)
    ensures
        r == has_quit(events@),
{
    let n = events.len();
    let mut i: usize = 0;
    while i < n
        invariant
            i <= n,
            n == events@.len(),
            forall|j: int| 0 <= j < i ==> !((#[trigger] events@[j]) is Quit),
        decreases n - i,
    {
        match events[i] {
            PlotEvent::Quit => {
                return true;
            }
            PlotEvent::Other => {}
        }
        i += 1;
    }
    false
}

/// What the windowing provider is asked for at startup: the GL context
/// version and profile, multisampling, double buffering, the depth-buffer
/// bit depth, and the presentation interval.
#[derive(Clone, Copy, PartialEq, Eq, Debug, Structural)]
pub struct ContextRequest {
    pub version_major: u8,
    pub version_minor: u8,
    pub core_profile: bool,
    pub multisample_buffers: u8,
    pub multisample_samples: u8,
    pub double_buffer: bool,
    pub depth_size: u8,
    pub swap_interval: u8,
}

/// The fixed context request of this renderer: a core-profile GL 3.3
/// context with 4-sample multisampling, double buffering, a 24-bit depth
/// buffer, and frames presented once per refresh cycle.
pub fn context_request() -> (r: ContextRequest)
    ensures
        r == (ContextRequest {
            version_major: 3,
            version_minor: 3,
            core_profile: true,
            multisample_buffers: 1,
            multisample_samples: 4,
            double_buffer: true,
            depth_size: 24,
            swap_interval: 1,
        }),
{
    ContextRequest {
        version_major: 3,
        version_minor: 3,
        core_profile: true,
        multisample_buffers: 1,
        multisample_samples: 4,
        double_buffer: true,
        depth_size: 24,
        swap_interval: 1,
    }
}

/// Everything the draw step of one frame needs: the Line pipeline's handles
/// and locations, the stroke width (as a coordinate bit pattern), the
/// triangle-strip vertex count, and whether the mesh must be regenerated
/// from the freshly installed path before drawing.
#[derive(Clone, Copy, PartialEq, Eq, Debug, Structural)]
pub struct FramePlan {
    pub entry: PipelineEntry,
    pub line_width: u32,
    pub vertex_count: i32,
    pub regenerate: bool,
}

/// The render state: the current axis frame (origins and extents as
/// coordinate bit patterns), the current normalized path, the pipeline
/// registry and the configured stroke width. All mutation happens inside
/// [`render`]; the windowing handles, the GPU context and the fixed
/// orthographic projection live with the unverified driver that executes
/// the frame plans.
pub struct PlotRenderState {
    axis_ori_x: u32,
    axis_ori_y: u32,
    axis_len_x: u32,
    axis_len_y: u32,
    path: Vec<(u32, u32)>,
    registry: PipelineRegistry,
    line_width: u32,
}

impl PlotRenderState {
    /// The x-axis origin's bit pattern.
    pub closed spec fn spec_axis_ori_x(&self) -> u32 {
        self.axis_ori_x
    }

    /// The y-axis origin's bit pattern.
    pub closed spec fn spec_axis_ori_y(&self) -> u32 {
        self.axis_ori_y
    }

    /// The x-axis extent's bit pattern.
    pub closed spec fn spec_axis_len_x(&self) -> u32 {
        self.axis_len_x
    }

    /// The y-axis extent's bit pattern.
    pub closed spec fn spec_axis_len_y(&self) -> u32 {
        self.axis_len_y
    }

    /// The current normalized path.
    pub closed spec fn spec_path(&self) -> Seq<(u32, u32)> {
        self.path@
    }

    /// The entry registered under `Line`, if any.
    pub closed spec fn spec_line_entry(&self) -> Option<PipelineEntry> {
        self.registry.spec_entry(ProgramKey::Line)
    }

    /// The configured stroke width's bit pattern.
    pub closed spec fn spec_width(&self) -> u32 {
        self.line_width
    }

    /// A state is well formed when its path can be drawn (at least one
    /// segment, vertex count in `i32` range) and the Line pipeline is
    /// registered.
    pub open spec fn wf(&self) -> bool {
        &&& 2 <= self.spec_path().len() <= MAX_PATH_POINTS
        &&& self.spec_line_entry() is Some
    }

    /// The current normalized path.
    pub fn path(&self) -> (r: &Vec<(u32, u32)>)
        ensures
            r@ == self.spec_path(),
    {
        &self.path
    }

    /// The current axis frame, as
    /// `(origin_x, origin_y, extent_x, extent_y)` bit patterns.
    pub fn axis_frame(&self) -> (r: (u32, u32, u32, u32))
        ensures
            r.0 == self.spec_axis_ori_x(),
            r.1 == self.spec_axis_ori_y(),
            r.2 == self.spec_axis_len_x(),
            r.3 == self.spec_axis_len_y(),
    {
        (self.axis_ori_x, self.axis_ori_y, self.axis_len_x, self.axis_len_y)
    }

    /// The entry registered under `Line`.
    pub fn line_entry(&self) -> (r: PipelineEntry)
        requires
            self.wf(),
        ensures
            Some(r) == self.spec_line_entry(),
    {
        *self.registry.lookup(ProgramKey::Line)
    }

    /// The configured stroke width's bit pattern.
    pub fn width(&self) -> (r: u32)
        ensures
            r == self.spec_width(),
    {
        self.line_width
    }
}

/// Builds the render state at startup: registers the Line pipeline entry in
/// a fresh registry (only `Line` is realized) and installs the initial axis
/// frame and normalized path. Window and context acquisition, shader
/// linking and buffer allocation happen in the unverified driver, which
/// hands the resulting handles in as `line_entry` and the normalized seed
/// data as `initial`.
pub fn init(line_entry: PipelineEntry, line_width: u32, initial: PathUpdate) -> (s:
    PlotRenderState)
    requires
        initial.wf(),
    ensures
        s.wf(),
        s.spec_line_entry() == Some(line_entry),
        s.spec_width() == line_width,
        s.spec_path() == initial.path@,
        s.spec_axis_ori_x() == initial.axis_ori_x,
        s.spec_axis_ori_y() == initial.axis_ori_y,
        s.spec_axis_len_x() == initial.axis_len_x,
        s.spec_axis_len_y() == initial.axis_len_y,
{
    let mut registry = PipelineRegistry::new();
    registry.register(ProgramKey::Line, line_entry);
    PlotRenderState {
        axis_ori_x: initial.axis_ori_x,
        axis_ori_y: initial.axis_ori_y,
        axis_len_x: initial.axis_len_x,
        axis_len_y: initial.axis_len_y,
        path: initial.path,
        registry,
        line_width,
    }
}

/// The plan `render` must return for a frame drawn from state `s`: the Line
/// pipeline's entry, the stroke width, the triangle-strip vertex count
/// `4 * (points - 1)` — each consecutive pair of path points contributes
/// exactly four vertices — and the regeneration flag.
pub open spec fn frame_plan_for(s: PlotRenderState, regenerate: bool, plan: FramePlan) -> bool {
    &&& Some(plan.entry) == s.spec_line_entry()
    &&& plan.line_width == s.spec_width()
    &&& plan.vertex_count == 4 * (s.spec_path().len() - 1)
    &&& plan.regenerate == regenerate
}

/// The full per-frame contract of [`render`], relating the state before and
/// after the call, the drained event batch, the supplied update and the
/// result. A quit event makes the call return `true` and leave everything
/// untouched; otherwise the update (if any) is installed verbatim, nothing
/// else changes, and the returned plan matches the resulting state.
pub open spec fn render_ensures(
    pre: PlotRenderState,
    post: PlotRenderState,
    events: Seq<PlotEvent>,
    update: Option<PathUpdate>,
    r: (bool, Option<FramePlan>),
) -> bool {
    &&& r.0 == has_quit(events)
    &&& (r.0 ==> post == pre && r.1 is None)
    &&& (!r.0 ==> {
        &&& match update {
            Some(u) => {
                &&& post.spec_axis_ori_x() == u.axis_ori_x
                &&& post.spec_axis_ori_y() == u.axis_ori_y
                &&& post.spec_axis_len_x() == u.axis_len_x
                &&& post.spec_axis_len_y() == u.axis_len_y
                &&& post.spec_path() == u.path@
            },
            None => post == pre,
        }
        &&& post.spec_line_entry() == pre.spec_line_entry()
        &&& post.spec_width() == pre.spec_width()
        &&& r.1 matches Some(plan) && frame_plan_for(post, update is Some, plan)
    })
}

/// One frame. Drains nothing itself: the caller hands in the batch of
/// events it drained from the windowing provider. Returns whether a quit
/// event was present — in which case the state is left exactly as it was
/// and no frame plan is produced — and otherwise the plan for the draw
/// step, after installing the freshly normalized geometry if an update was
/// supplied. With no update, the previous path is reused unchanged, so a
/// steady redraw loop re-renders the last known geometry.
pub fn render(events: &Vec<PlotEvent>, update: Option<PathUpdate>, state: &mut PlotRenderState)
    -> (r: (bool, Option<FramePlan>))
    requires
        old(state).wf(),
        update matches Some(u) ==> u.wf(),
    ensures
        r.0 == has_quit(events@),
        final(state).wf(),
        render_ensures(*old(state), *final(state), events@, update, r),
{
    if contains_quit(events) {
        return (true, None);
    }
    let regenerate = update.is_some();
    match update {
        Some(u) => {
            state.axis_ori_x = u.axis_ori_x;
            state.axis_ori_y = u.axis_ori_y;
            state.axis_len_x = u.axis_len_x;
            state.axis_len_y = u.axis_len_y;
            state.path = u.path;
        }
        None => {}
    }
    let entry = *state.registry.lookup(ProgramKey::Line);
    let points = state.path.len();
    let vertex_count: i32 = (4 * (points - 1)) as i32;
    (
        false,
        Some(FramePlan { entry, line_width: state.line_width, vertex_count, regenerate }),
    )
}

/// Steady redraw: two successive frames with no new data and no quit event
/// leave the state exactly as it started and produce identical frame plans
/// — repeated rendering draws the same geometry, with no drift from
/// re-normalization (none takes place).
pub proof fn lemma_steady_redraw(
    s0: PlotRenderState,
    s1: PlotRenderState,
    s2: PlotRenderState,
    e1: Seq<PlotEvent>,
    e2: Seq<PlotEvent>,
    r1: (bool, Option<FramePlan>),
    r2: (bool, Option<FramePlan>),
)
    requires
        !has_quit(e1),
        !has_quit(e2),
        render_ensures(s0, s1, e1, None, r1),
        render_ensures(s1, s2, e2, None, r2),
    ensures
        s1 == s0,
        s2 == s0,
        r1.0 == false,
        r2.0 == false,
        r1.1 == r2.1,
{
}

} // verus!
