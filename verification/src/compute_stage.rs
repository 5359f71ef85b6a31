//! The compute stage: it builds the program and the render target at
//! start-up, and before every draw it tells the shader how large the
//! viewport is and how much time has passed.
//!
//! The stage is `Uninitialized` until `init` is asked for, `Initializing`
//! while the host works through the calls of start-up, and `Ready` once
//! every one of them was accepted. A rejected call leaves it `Failed` for
//! good. Frames can be planned only when it is `Ready`.

use vstd::prelude::*;
use crate::clock::{
    elapsed_between, lemma_elapsed_between, lemma_elapsed_monotonic, Elapsed, Timestamp,
};
use crate::draw_stage::{draw_init_plan, draw_render_plan, DrawStage, DrawStageView};
use crate::error::{StageError, StartupError};
use crate::geometry::quad_coordinates;
use crate::gl::{
    GlCall, GlReply, ShaderKind, Uniform, COLOR_ATTACHMENT1, FRAMEBUFFER, LINEAR, RGBA, TEXTURE0,
    TEXTURE_2D, TEXTURE_MAG_FILTER, TEXTURE_MIN_FILTER, UNSIGNED_BYTE,
};
use crate::session::{
    judge_spec, lemma_accepted_calls_follow_plan, lemma_step_keeps_plan, Session, SessionView,
};
use crate::shader::{compile_plan, compile_shader, link_plan, link_program};

verus! {

/// The size of the drawable surface in pixels, measured once at start-up.
#[derive(Clone, Copy, Debug, PartialEq, Eq)]
pub struct Viewport {
    pub width: u32,
    pub height: u32,
}

/// What the host found at start-up: the surface's size and the clock's
/// reading. Neither changes afterwards.
#[derive(Clone, Copy, Debug, PartialEq, Eq)]
pub struct AppContext {
    pub viewport: Viewport,
    pub boot_time: Timestamp,
}

/// The off-screen target: a framebuffer with a texture of this size.
#[derive(Clone, Copy, Debug, PartialEq, Eq)]
pub struct RenderTarget {
    pub width: u32,
    pub height: u32,
}

/// Where a stage stands between construction and drawing.
#[derive(Clone, Copy, Debug, PartialEq, Eq)]
pub enum StageState {
    Uninitialized,
    Initializing,
    Ready,
    Failed,
}

/// The calls that build the program and create the render target's
/// objects: compile the vertex shader, compile the fragment shader, link
/// them, create the framebuffer, create the texture.
pub open spec fn build_plan() -> Seq<GlCall> {
    compile_plan(ShaderKind::Vertex) + compile_plan(ShaderKind::Fragment) + link_plan(
        ShaderKind::Vertex,
        ShaderKind::Fragment,
    ) + seq![GlCall::CreateFramebuffer, GlCall::CreateTexture]
}

/// The calls that configure the context for `viewport`: select the program,
/// set the viewport, bind the texture on unit 0, filter it linearly both
/// ways (it has no mipmaps), give it storage of the viewport's size, and
/// attach it to the framebuffer.
pub open spec fn configure_plan(viewport: Viewport) -> Seq<GlCall> {
    seq![
        GlCall::UseProgram,
        GlCall::Viewport { x: 0, y: 0, width: viewport.width as i32, height: viewport.height as i32 },
        GlCall::ActiveTexture { unit: TEXTURE0 },
        GlCall::BindTexture { target: TEXTURE_2D },
        GlCall::TexParameteri {
            target: TEXTURE_2D,
            pname: TEXTURE_MAG_FILTER,
            param: LINEAR as i32,
        },
        GlCall::TexParameteri {
            target: TEXTURE_2D,
            pname: TEXTURE_MIN_FILTER,
            param: LINEAR as i32,
        },
        GlCall::TexImage2d {
            target: TEXTURE_2D,
            level: 0,
            internal_format: RGBA as i32,
            width: viewport.width as i32,
            height: viewport.height as i32,
            border: 0,
            format: RGBA,
            data_type: UNSIGNED_BYTE,
        },
        GlCall::FramebufferTexture2d {
            target: FRAMEBUFFER,
            attachment: COLOR_ATTACHMENT1,
            textarget: TEXTURE_2D,
            level: 0,
        },
    ]
}

/// All of start-up, in order: build, set up the draw stage, configure.
pub open spec fn startup_plan(viewport: Viewport) -> Seq<GlCall> {
    build_plan() + draw_init_plan() + configure_plan(viewport)
}

/// The calls of one frame at the reading `now`: look up both uniforms,
/// write the viewport's size and the time since start-up, then draw.
pub open spec fn render_plan(ctx: AppContext, now: Timestamp) -> Seq<GlCall> {
    seq![
        GlCall::GetUniformLocation { uniform: Uniform::Resolution },
        GlCall::GetUniformLocation { uniform: Uniform::Time },
        GlCall::Uniform2fv {
            uniform: Uniform::Resolution,
            v0: ctx.viewport.width,
            v1: ctx.viewport.height,
        },
        GlCall::Uniform1f { uniform: Uniform::Time, elapsed: elapsed_between(ctx.boot_time, now) },
    ] + draw_render_plan()
}

/// What a plan leaves in the resolution uniform: the value of its last
/// write to it, if it writes it at all.
pub open spec fn resolution_written(plan: Seq<GlCall>) -> Option<(u32, u32)>
    decreases plan.len(),
{
    if plan.len() == 0 {
        None
    } else {
        match plan.last() {
            GlCall::Uniform2fv { uniform: Uniform::Resolution, v0, v1 } => Some((v0, v1)),
            _ => resolution_written(plan.drop_last()),
        }
    }
}

/// What a plan leaves in the time uniform: the value of its last write to
/// it, if it writes it at all.
pub open spec fn time_written(plan: Seq<GlCall>) -> Option<Elapsed>
    decreases plan.len(),
{
    if plan.len() == 0 {
        None
    } else {
        match plan.last() {
            GlCall::Uniform1f { uniform: Uniform::Time, elapsed } => Some(elapsed),
            _ => time_written(plan.drop_last()),
        }
    }
}

/// The sizes of the texture storage that a plan allocates, in order.
pub open spec fn storage_allocated(plan: Seq<GlCall>) -> Seq<(i32, i32)>
    decreases plan.len(),
{
    if plan.len() == 0 {
        Seq::empty()
    } else {
        match plan.last() {
            GlCall::TexImage2d { width, height, .. } => storage_allocated(plan.drop_last()).push(
                (width, height),
            ),
            _ => storage_allocated(plan.drop_last()),
        }
    }
}

/// The model of a [`ComputeStage`].
pub struct ComputeStageView {
    pub ctx: AppContext,
    pub draw_stage: DrawStageView,
    /// The session that runs start-up; empty until `init` is asked for.
    pub startup: SessionView,
}

impl ComputeStageView {
    /// The draw stage holds the quad, and once `init` was asked for the
    /// session runs the start-up plan of this viewport.
    pub open spec fn wf(self) -> bool {
        &&& self.draw_stage.vertices == quad_coordinates()
        &&& self.draw_stage.vert_count == 6
        &&& self.startup.wf()
        &&& if self.draw_stage.initialized {
            self.startup.plan == startup_plan(self.ctx.viewport)
        } else {
            self.startup == SessionView::start(Seq::empty())
        }
    }

    pub open spec fn state(self) -> StageState {
        if !self.draw_stage.initialized {
            StageState::Uninitialized
        } else if self.startup.failure is Some {
            StageState::Failed
        } else if self.startup.complete() {
            StageState::Ready
        } else {
            StageState::Initializing
        }
    }

    /// The render target exists once the stage is ready, and has the size
    /// of the viewport.
    pub open spec fn render_target(self) -> Option<RenderTarget> {
        if self.state() == StageState::Ready {
            Some(RenderTarget { width: self.ctx.viewport.width, height: self.ctx.viewport.height })
        } else {
            None
        }
    }
}

/// The stage that owns the program, the render target and the draw stage.
pub struct ComputeStage {
    ctx: AppContext,
    draw_stage: DrawStage,
    startup: Session,
}

impl View for ComputeStage {
    type V = ComputeStageView;

    closed spec fn view(&self) -> ComputeStageView {
        ComputeStageView { ctx: self.ctx, draw_stage: self.draw_stage@, startup: self.startup@ }
    }
}

fn build_calls() -> (plan: Vec<GlCall>)
    ensures
        plan@ == build_plan(),
{
    let mut plan: Vec<GlCall> = compile_shader(ShaderKind::Vertex);
    let mut frag_shader: Vec<GlCall> = compile_shader(ShaderKind::Fragment);
    let mut program: Vec<GlCall> = link_program(ShaderKind::Vertex, ShaderKind::Fragment);
    let mut target: Vec<GlCall> = vec![GlCall::CreateFramebuffer, GlCall::CreateTexture];
    plan.append(&mut frag_shader);
    plan.append(&mut program);
    plan.append(&mut target);
    plan
}

fn configure_calls(viewport: Viewport) -> (plan: Vec<GlCall>)
    ensures
        plan@ == configure_plan(viewport),
{
    vec![
        GlCall::UseProgram,
        GlCall::Viewport { x: 0, y: 0, width: viewport.width as i32, height: viewport.height as i32 },
        GlCall::ActiveTexture { unit: TEXTURE0 },
        GlCall::BindTexture { target: TEXTURE_2D },
        GlCall::TexParameteri {
            target: TEXTURE_2D,
            pname: TEXTURE_MAG_FILTER,
            param: LINEAR as i32,
        },
        GlCall::TexParameteri {
            target: TEXTURE_2D,
            pname: TEXTURE_MIN_FILTER,
            param: LINEAR as i32,
        },
        GlCall::TexImage2d {
            target: TEXTURE_2D,
            level: 0,
            internal_format: RGBA as i32,
            width: viewport.width as i32,
            height: viewport.height as i32,
            border: 0,
            format: RGBA,
            data_type: UNSIGNED_BYTE,
        },
        GlCall::FramebufferTexture2d {
            target: FRAMEBUFFER,
            attachment: COLOR_ATTACHMENT1,
            textarget: TEXTURE_2D,
            level: 0,
        },
    ]
}

impl ComputeStage {
    /// A stage for `ctx` on which nothing has been asked of the device yet.
    pub fn new(ctx: AppContext) -> (stage: ComputeStage)
        ensures
            stage@ == (ComputeStageView {
                ctx,
                draw_stage: DrawStageView {
                    initialized: false,
                    vertices: quad_coordinates(),
                    vert_count: 6,
                },
                startup: SessionView::start(Seq::empty()),
            }),
            stage@.wf(),
            stage@.state() == StageState::Uninitialized,
    {
        ComputeStage { ctx, draw_stage: DrawStage::new(), startup: Session::new(Vec::new()) }
    }

    /// Begins start-up: from now on `pending` hands out the calls of the
    /// start-up plan. A second request is refused and changes nothing, so
    /// that nothing is allocated twice.
    pub fn init(&mut self) -> (r: Result<(), StageError>)
        ensures
            old(self)@.wf() ==> final(self)@.wf(),
            old(self)@.state() != StageState::Uninitialized ==> r == Err::<(), StageError>(
                StageError::AlreadyInitialized,
            ) && final(self)@ == old(self)@,
            old(self)@.state() == StageState::Uninitialized ==> r == Ok::<(), StageError>(())
                && final(self)@ == (ComputeStageView {
                ctx: old(self)@.ctx,
                draw_stage: DrawStageView { initialized: true, ..old(self)@.draw_stage },
                startup: SessionView::start(startup_plan(old(self)@.ctx.viewport)),
            }),
    {
        let mut draw_calls: Vec<GlCall> = match self.draw_stage.init() {
            Ok(calls) => calls,
            Err(refusal) => {
                return Err(refusal);
            },
        };
        let mut plan: Vec<GlCall> = build_calls();
        let mut configure: Vec<GlCall> = configure_calls(self.ctx.viewport);
        plan.append(&mut draw_calls);
        plan.append(&mut configure);
        self.startup = Session::new(plan);
        Ok(())
    }

    /// The call that the host has to perform now, if start-up is under way.
    pub fn pending(&self) -> (call: Option<GlCall>)
        ensures
            call == self@.startup.pending(),
    {
        self.startup.pending()
    }

    /// Takes the host's report of the pending call.
    pub fn resolve(&mut self, reply: GlReply)
        ensures
            old(self)@.wf() ==> final(self)@.wf(),
            final(self)@ == (ComputeStageView {
                startup: old(self)@.startup.step(reply),
                ..old(self)@
            }),
    {
        proof {
            if self@.wf() {
                lemma_step_keeps_plan(self@.startup, reply);
            }
        }
        self.startup.resolve(reply);
    }

    /// Where the stage stands.
    pub fn state(&self) -> (s: StageState)
        ensures
            s == self@.state(),
    {
        if !self.draw_stage.is_initialized() {
            StageState::Uninitialized
        } else if self.startup.failure().is_some() {
            StageState::Failed
        } else if self.startup.is_complete() {
            StageState::Ready
        } else {
            StageState::Initializing
        }
    }

    /// Why start-up failed, once it has.
    pub fn failure(&self) -> (error: Option<&StartupError>)
        ensures
            error is Some <==> self@.startup.failure is Some,
            error matches Some(e) ==> self@.startup.failure == Some(e@),
    {
        self.startup.failure()
    }

    /// The host's findings that the stage was made for.
    pub fn context(&self) -> (ctx: AppContext)
        ensures
            ctx == self@.ctx,
    {
        self.ctx
    }

    /// The nested draw stage, for the host to read the quad from.
    pub fn draw_stage(&self) -> (stage: &DrawStage)
        ensures
            stage@ == self@.draw_stage,
    {
        &self.draw_stage
    }

    /// The off-screen target, once start-up is through.
    pub fn render_target(&self) -> (target: Option<RenderTarget>)
        ensures
            target == self@.render_target(),
    {
        match self.state() {
            StageState::Ready => Some(
                RenderTarget { width: self.ctx.viewport.width, height: self.ctx.viewport.height },
            ),
            _ => None,
        }
    }

    /// Plans one frame at the clock reading `now`. The stage is left as it
    /// was: nothing carries over from one frame to the next.
    pub fn render(&mut self, now: Timestamp) -> (plan: Vec<GlCall>)
        requires
            old(self)@.state() == StageState::Ready,
            old(self)@.ctx.boot_time.as_nanos() <= now.as_nanos(),
        ensures
            plan@ == render_plan(old(self)@.ctx, now),
            final(self)@ == old(self)@,
    {
        let elapsed: Elapsed = now.duration_since(&self.ctx.boot_time).unwrap();
        let mut plan: Vec<GlCall> = vec![
            GlCall::GetUniformLocation { uniform: Uniform::Resolution },
            GlCall::GetUniformLocation { uniform: Uniform::Time },
            GlCall::Uniform2fv {
                uniform: Uniform::Resolution,
                v0: self.ctx.viewport.width,
                v1: self.ctx.viewport.height,
            },
            GlCall::Uniform1f { uniform: Uniform::Time, elapsed },
        ];
        let mut draw: Vec<GlCall> = self.draw_stage.render();
        plan.append(&mut draw);
        plan
    }
}

/// The uniforms of a frame: its plan leaves the viewport's size in the
/// resolution uniform and the time since start-up in the time uniform.
pub proof fn lemma_frame_uniforms(ctx: AppContext, now: Timestamp)
    ensures
        resolution_written(render_plan(ctx, now)) == Some(
            (ctx.viewport.width, ctx.viewport.height),
        ),
        time_written(render_plan(ctx, now)) == Some(elapsed_between(ctx.boot_time, now)),
{
    let plan = render_plan(ctx, now);
    let p6 = plan.drop_last();
    let p5 = p6.drop_last();
    let p4 = p5.drop_last();
    let p3 = p4.drop_last();
    assert(plan.len() == 7);
    assert(plan.last() is DrawArrays);
    assert(p6.last() is Clear);
    assert(p5.last() is ClearColor);
    assert(p4.last() == GlCall::Uniform1f {
        uniform: Uniform::Time,
        elapsed: elapsed_between(ctx.boot_time, now),
    });
    assert(p3.last() == GlCall::Uniform2fv {
        uniform: Uniform::Resolution,
        v0: ctx.viewport.width,
        v1: ctx.viewport.height,
    });
    reveal_with_fuel(resolution_written, 6);
    reveal_with_fuel(time_written, 6);
}

/// Start-up allocates the render target's texture once, with exactly the
/// viewport's width and height.
pub proof fn lemma_startup_allocates_viewport(viewport: Viewport)
    requires
        viewport.width <= i32::MAX,
        viewport.height <= i32::MAX,
    ensures
        storage_allocated(startup_plan(viewport)).len() == 1,
        storage_allocated(startup_plan(viewport))[0].0 == viewport.width,
        storage_allocated(startup_plan(viewport))[0].1 == viewport.height,
{
    let plan = startup_plan(viewport);
    let p31 = plan.drop_last();
    let p30 = p31.drop_last();
    assert(plan.len() == 32);
    assert(plan.last() == configure_plan(viewport)[7]);
    assert(p31.last() == configure_plan(viewport)[6]);
    assert(p30 =~= plan.take(30));
    lemma_no_storage_in_prefix(viewport, 30);
    assert(storage_allocated(p31) == storage_allocated(p30).push(
        (viewport.width as i32, viewport.height as i32),
    ));
    assert(storage_allocated(plan) == storage_allocated(p31));
}

/// Nothing before the configuring calls allocates texture storage.
proof fn lemma_no_storage_before_configure(viewport: Viewport, n: int)
    requires
        0 <= n <= 24,
    ensures
        storage_allocated(startup_plan(viewport).take(n)).len() == 0,
    decreases n,
{
    let plan = startup_plan(viewport);
    if n > 0 {
        lemma_no_storage_before_configure(viewport, n - 1);
        assert(plan.take(n).drop_last() =~= plan.take(n - 1));
        assert(plan.take(n).last() == plan[n - 1]);
        assert(!(plan[n - 1] is TexImage2d));
    }
}

/// Of the configuring calls, none before the allocation itself allocates
/// texture storage.
proof fn lemma_no_storage_in_prefix(viewport: Viewport, n: int)
    requires
        24 <= n <= 30,
    ensures
        storage_allocated(startup_plan(viewport).take(n)).len() == 0,
    decreases n,
{
    let plan = startup_plan(viewport);
    if n == 24 {
        lemma_no_storage_before_configure(viewport, 24);
    } else {
        lemma_no_storage_in_prefix(viewport, n - 1);
        assert(plan.take(n).drop_last() =~= plan.take(n - 1));
        assert(plan.take(n).last() == plan[n - 1]);
        assert(plan[n - 1] == configure_plan(viewport)[n - 1 - 24]);
        assert(!(plan[n - 1] is TexImage2d));
    }
}

/// Once the host has performed every call of start-up and each was
/// accepted, the stage is ready and its render target has the viewport's
/// size.
pub proof fn lemma_accepted_startup_is_ready(stage: ComputeStageView, replies: Seq<GlReply>)
    requires
        stage.draw_stage.initialized,
        stage.startup == SessionView::start(startup_plan(stage.ctx.viewport)),
        replies.len() == startup_plan(stage.ctx.viewport).len(),
        forall|i: int|
            0 <= i < replies.len() ==> judge_spec(
                startup_plan(stage.ctx.viewport)[i],
                #[trigger] replies[i],
            ) is Proceed,
    ensures
        (ComputeStageView { startup: stage.startup.run(replies), ..stage }).state()
            == StageState::Ready,
        (ComputeStageView { startup: stage.startup.run(replies), ..stage }).render_target()
            == Some(
            RenderTarget { width: stage.ctx.viewport.width, height: stage.ctx.viewport.height },
        ),
{
    lemma_accepted_calls_follow_plan(startup_plan(stage.ctx.viewport), replies);
}

/// From frame to frame the time uniform never decreases: a frame planned
/// at a later reading carries at least as much elapsed time.
pub proof fn lemma_frame_time_monotonic(ctx: AppContext, earlier: Timestamp, later: Timestamp)
    requires
        ctx.boot_time.wf(),
        earlier.wf(),
        later.wf(),
        ctx.boot_time.as_nanos() <= earlier.as_nanos() <= later.as_nanos(),
    ensures
        time_written(render_plan(ctx, earlier)) is Some,
        time_written(render_plan(ctx, later)) is Some,
        time_written(render_plan(ctx, earlier))->Some_0.as_nanos() <= time_written(
            render_plan(ctx, later),
        )->Some_0.as_nanos(),
{
    lemma_frame_uniforms(ctx, earlier);
    lemma_frame_uniforms(ctx, later);
    lemma_elapsed_monotonic(ctx.boot_time, earlier, later);
}

/// Two frames of one stage, the second at a later reading: both carry the
/// same resolution, that of the viewport; their time uniforms differ, and
/// the second holds the time from start-up to its reading.
pub proof fn lemma_frames_share_resolution(ctx: AppContext, first: Timestamp, second: Timestamp)
    requires
        ctx.boot_time.wf(),
        first.wf(),
        second.wf(),
        ctx.boot_time.as_nanos() <= first.as_nanos() < second.as_nanos(),
    ensures
        resolution_written(render_plan(ctx, first)) == resolution_written(
            render_plan(ctx, second),
        ),
        resolution_written(render_plan(ctx, second)) == Some(
            (ctx.viewport.width, ctx.viewport.height),
        ),
        time_written(render_plan(ctx, first)) != time_written(render_plan(ctx, second)),
        time_written(render_plan(ctx, second)) is Some,
        time_written(render_plan(ctx, second))->Some_0.as_nanos() == second.as_nanos()
            - ctx.boot_time.as_nanos(),
{
    lemma_frame_uniforms(ctx, first);
    lemma_frame_uniforms(ctx, second);
    lemma_elapsed_between(ctx.boot_time, first);
    lemma_elapsed_between(ctx.boot_time, second);
}

} // verus!
