//! The program builder. A program starts without any resource factory; the
//! factories are supplied one by one, and the builder's type records which
//! of them are there, so that a frame can only be asked of a program that
//! has its vertices and its draw settings.
use vstd::prelude::*;
use crate::config::{PhysicalSize, RunMode};
use crate::error::{construction_error, is_construction_error, ConstructionFailure, ErrorKind};
use crate::phase::{
    lemma_reachable_phases, Axis, Phase, WithDrawSettings, WithUniforms, WithVertices,
    WithoutDrawSettings, WithoutUniforms, WithoutVertices,
};
use crate::scheduler::{Scheduler, Stage};
use crate::utils::{App, UVec2};
use core::marker::PhantomData;

verus! {

/// A read-only view of what a program owns, handed to each resource factory
/// for the length of one call: the graphics and window context, and the
/// size the window had when the frame was asked for.
pub struct Handle<'a, C> {
    context: &'a C,
    window_size: PhysicalSize,
}

impl<'a, C> Handle<'a, C> {
    /// The context this handle gives access to.
    pub closed spec fn context(self) -> &'a C {
        self.context
    }

    /// The size of the window that this handle reports.
    pub closed spec fn window_size(self) -> PhysicalSize {
        self.window_size
    }

    /// The handle over `context` for a window of size `window_size`.
    pub closed spec fn over(context: &'a C, window_size: PhysicalSize) -> Handle<'a, C> {
        Handle { context, window_size }
    }

    /// Gives shared access to the graphics and window context.
    pub fn gl(&self) -> (context: &'a C)
        ensures
            context == self.context(),
    {
        self.context
    }

    /// The window's metrics as they were when the frame was asked for.
    pub fn app(&self) -> (app: App)
        ensures
            app.size.x == self.window_size().width,
            app.size.y == self.window_size().height,
    {
        App { size: UVec2 { x: self.window_size.width, y: self.window_size.height } }
    }

    /// A handle is known by its context and its window size.
    pub proof fn lemma_over(context: &'a C, window_size: PhysicalSize)
        ensures
            Handle::over(context, window_size).context() == context,
            Handle::over(context, window_size).window_size() == window_size,
    {
    }
}

/// The resource factories of a program: up to three callbacks that make the
/// vertices, the uniforms and the draw settings of a frame. A workflow
/// holds what it is given; the order in which a program may be given its
/// factories is kept by the program's type.
pub struct Workflow<V, U, S> {
    vertex_spec: Option<V>,
    uniforms: Option<U>,
    settings: Option<S>,
}

impl<V, U, S> Workflow<V, U, S> {
    pub closed spec fn vertex_factory(self) -> Option<V> {
        self.vertex_spec
    }

    pub closed spec fn uniform_factory(self) -> Option<U> {
        self.uniforms
    }

    pub closed spec fn settings_factory(self) -> Option<S> {
        self.settings
    }

    /// Which factories are there.
    pub open spec fn spec_phase(self) -> Phase {
        Phase {
            vertices: self.vertex_factory() is Some,
            uniforms: self.uniform_factory() is Some,
            settings: self.settings_factory() is Some,
        }
    }

    /// The workflow without any factory.
    pub fn new() -> (workflow: Workflow<V, U, S>)
        ensures
            workflow.vertex_factory() is None,
            workflow.uniform_factory() is None,
            workflow.settings_factory() is None,
            workflow.spec_phase() == Phase::initial(),
    {
        Workflow { vertex_spec: None, uniforms: None, settings: None }
    }

    /// Tells which factories are there.
    pub fn phase(&self) -> (phase: Phase)
        ensures
            phase == self.spec_phase(),
    {
        Phase {
            vertices: self.vertex_spec.is_some(),
            uniforms: self.uniforms.is_some(),
            settings: self.settings.is_some(),
        }
    }

    /// Supplies the vertex factory. Whatever uniform and draw-settings
    /// factories were there are dropped: new geometry restarts the rest of
    /// the configuration.
    pub fn with_vertices<V2>(self, vertices: V2) -> (workflow: Workflow<V2, U, S>)
        ensures
            workflow.vertex_factory() == Some(vertices),
            workflow.uniform_factory() is None,
            workflow.settings_factory() is None,
            workflow.spec_phase() == self.spec_phase().with_vertices(),
    {
        Workflow { vertex_spec: Some(vertices), uniforms: None, settings: None }
    }

    /// Supplies the uniform factory and keeps the other two.
    pub fn with_uniforms<U2>(self, uniforms: U2) -> (workflow: Workflow<V, U2, S>)
        ensures
            workflow.vertex_factory() == self.vertex_factory(),
            workflow.uniform_factory() == Some(uniforms),
            workflow.settings_factory() == self.settings_factory(),
            workflow.spec_phase() == self.spec_phase().with_uniforms(),
    {
        Workflow { vertex_spec: self.vertex_spec, uniforms: Some(uniforms), settings: self.settings }
    }

    /// Supplies the draw-settings factory and keeps the other two.
    pub fn with_draw_settings<S2>(self, settings: S2) -> (workflow: Workflow<V, U, S2>)
        ensures
            workflow.vertex_factory() == self.vertex_factory(),
            workflow.uniform_factory() == self.uniform_factory(),
            workflow.settings_factory() == Some(settings),
            workflow.spec_phase() == self.spec_phase().with_draw_settings(),
    {
        Workflow { vertex_spec: self.vertex_spec, uniforms: self.uniforms, settings: Some(settings) }
    }
}

/// What the factories made for one frame.
pub struct Frame<VR, UR, SR> {
    pub vertices: VR,
    pub uniforms: UR,
    pub settings: SR,
}

/// A program under construction or ready to draw. `C` is the context it
/// owns; `V`, `U` and `S` are its factories; the last three parameters
/// record which factories have been supplied.
pub struct Program<
    C,
    V,
    U,
    S,
    HasVertices: Axis = WithoutVertices,
    HasUniforms: Axis = WithoutUniforms,
    HasSettings: Axis = WithoutDrawSettings,
> {
    state: C,
    run_mode: RunMode,
    workflow: Workflow<V, U, S>,
    _marker: PhantomData<(HasVertices, HasUniforms, HasSettings)>,
}

impl<C, V, U, S, HasVertices: Axis, HasUniforms: Axis, HasSettings: Axis> Program<
    C,
    V,
    U,
    S,
    HasVertices,
    HasUniforms,
    HasSettings,
> {
    /// The phase that the program's type stands for.
    pub open spec fn type_phase() -> Phase {
        Phase {
            vertices: HasVertices::supplied(),
            uniforms: HasUniforms::supplied(),
            settings: HasSettings::supplied(),
        }
    }

    /// The factories that are there are those the type speaks of.
    #[verifier::type_invariant]
    spec fn coherent(self) -> bool {
        self.workflow.spec_phase() == Self::type_phase()
    }

    pub closed spec fn spec_state(self) -> C {
        self.state
    }

    pub closed spec fn spec_run_mode(self) -> RunMode {
        self.run_mode
    }

    pub closed spec fn spec_workflow(self) -> Workflow<V, U, S> {
        self.workflow
    }

    /// The handle that this program's factories are called with for a
    /// frame of a window of size `window_size`: the one over the program's
    /// own context.
    pub open spec fn handle(&self, window_size: PhysicalSize) -> Handle<'_, C> {
        Handle::over(&self.spec_state(), window_size)
    }

    /// The context the program owns.
    pub fn state(&self) -> (state: &C)
        ensures
            *state == self.spec_state(),
    {
        &self.state
    }

    /// The mode the program was constructed with.
    pub fn run_mode(&self) -> (run_mode: &RunMode)
        ensures
            *run_mode == self.spec_run_mode(),
    {
        &self.run_mode
    }

    /// The program's factories.
    pub fn workflow(&self) -> (workflow: &Workflow<V, U, S>)
        ensures
            *workflow == self.spec_workflow(),
            workflow.spec_phase() == Self::type_phase(),
    {
        proof {
            use_type_invariant(self);
        }
        &self.workflow
    }

    /// Tells which factories have been supplied: those the type speaks of.
    pub fn phase(&self) -> (phase: Phase)
        ensures
            phase == Self::type_phase(),
            phase == self.spec_workflow().spec_phase(),
    {
        proof {
            use_type_invariant(self);
        }
        self.workflow.phase()
    }
}

impl<C> Program<C, (), (), ()> {
    /// Makes a program of what the construction of its context came to.
    /// Where the context was constructed, the program owns it and is in the
    /// initial phase: no factory is there. Where a step of the construction
    /// failed, so does this, with the error of that step.
    pub fn new(constructed: Result<C, ConstructionFailure>, run_mode: RunMode) -> (result: Result<
        Self,
        ErrorKind,
    >)
        ensures
            match constructed {
                Ok(state) => result matches Ok(program) && program.spec_state() == state
                    && program.spec_run_mode() == run_mode
                    && program.spec_workflow().spec_phase() == Phase::initial(),
                Err(failure) => result matches Err(error) && is_construction_error(
                    failure.stage,
                    failure.detail@,
                    error,
                ),
            },
    {
        match constructed {
            Ok(state) => Ok(
                Program { state, run_mode, workflow: Workflow::new(), _marker: PhantomData },
            ),
            Err(failure) => Err(construction_error(failure.stage, failure.detail)),
        }
    }
}

impl<C, V, U, S> Program<C, V, U, S, WithoutVertices, WithoutUniforms, WithoutDrawSettings> {
    /// Supplies the vertex factory. This is the first step of every
    /// configuration; afterwards neither uniforms nor draw settings are
    /// there.
    pub fn with_vertices<V2, VR>(self, vertices: V2) -> (program: Program<
        C,
        V2,
        U,
        S,
        WithVertices,
        WithoutUniforms,
        WithoutDrawSettings,
    >) where V2: for <'a>Fn(Handle<'a, C>) -> VR
        ensures
            program.spec_state() == self.spec_state(),
            program.spec_run_mode() == self.spec_run_mode(),
            program.spec_workflow().vertex_factory() == Some(vertices),
            program.spec_workflow().uniform_factory() is None,
            program.spec_workflow().settings_factory() is None,
    {
        Program {
            workflow: self.workflow.with_vertices(vertices),
            state: self.state,
            run_mode: self.run_mode,
            _marker: PhantomData,
        }
    }
}

impl<C, V, U, S, HasSettings: Axis> Program<
    C,
    V,
    U,
    S,
    WithVertices,
    WithoutUniforms,
    HasSettings,
> {
    /// Supplies the uniform factory. The vertices and the draw settings
    /// stay as they are.
    pub fn with_uniforms<U2, UR>(self, uniforms: U2) -> (program: Program<
        C,
        V,
        U2,
        S,
        WithVertices,
        WithUniforms,
        HasSettings,
    >) where U2: for <'a>Fn(Handle<'a, C>) -> UR
        ensures
            program.spec_state() == self.spec_state(),
            program.spec_run_mode() == self.spec_run_mode(),
            program.spec_workflow().vertex_factory() == self.spec_workflow().vertex_factory(),
            program.spec_workflow().uniform_factory() == Some(uniforms),
            program.spec_workflow().settings_factory() == self.spec_workflow().settings_factory(),
    {
        proof {
            use_type_invariant(&self);
        }
        Program {
            workflow: self.workflow.with_uniforms(uniforms),
            state: self.state,
            run_mode: self.run_mode,
            _marker: PhantomData,
        }
    }
}

impl<C, V, U, S, HasUniforms: Axis> Program<
    C,
    V,
    U,
    S,
    WithVertices,
    HasUniforms,
    WithoutDrawSettings,
> {
    /// Supplies the draw-settings factory. The vertices and the uniforms
    /// stay as they are.
    pub fn with_draw_settings<S2, SR>(self, settings: S2) -> (program: Program<
        C,
        V,
        U,
        S2,
        WithVertices,
        HasUniforms,
        WithDrawSettings,
    >) where S2: for <'a>Fn(Handle<'a, C>) -> SR
        ensures
            program.spec_state() == self.spec_state(),
            program.spec_run_mode() == self.spec_run_mode(),
            program.spec_workflow().vertex_factory() == self.spec_workflow().vertex_factory(),
            program.spec_workflow().uniform_factory() == self.spec_workflow().uniform_factory(),
            program.spec_workflow().settings_factory() == Some(settings),
    {
        proof {
            use_type_invariant(&self);
        }
        Program {
            workflow: self.workflow.with_draw_settings(settings),
            state: self.state,
            run_mode: self.run_mode,
            _marker: PhantomData,
        }
    }
}

impl<C, V, U, S> Program<C, V, U, S, WithVertices, WithUniforms, WithDrawSettings> {
    /// Makes the resources of one frame: calls the draw-settings factory,
    /// the uniform factory and the vertex factory, each with a fresh handle
    /// over the program's context and the window's present size, and
    /// returns what they made. Every factory has to accept that handle.
    pub fn draw<VR, UR, SR>(&self, window_size: PhysicalSize) -> (frame: Frame<VR, UR, SR>) where
        V: for <'a>Fn(Handle<'a, C>) -> VR,
        U: for <'a>Fn(Handle<'a, C>) -> UR,
        S: for <'a>Fn(Handle<'a, C>) -> SR,

        requires
            self.spec_workflow().vertex_factory() matches Some(f) ==> call_requires(
                f,
                (self.handle(window_size),),
            ),
            self.spec_workflow().uniform_factory() matches Some(f) ==> call_requires(
                f,
                (self.handle(window_size),),
            ),
            self.spec_workflow().settings_factory() matches Some(f) ==> call_requires(
                f,
                (self.handle(window_size),),
            ),
        ensures
            self.spec_workflow().vertex_factory() matches Some(f) && call_ensures(
                f,
                (self.handle(window_size),),
                frame.vertices,
            ),
            self.spec_workflow().uniform_factory() matches Some(f) && call_ensures(
                f,
                (self.handle(window_size),),
                frame.uniforms,
            ),
            self.spec_workflow().settings_factory() matches Some(f) && call_ensures(
                f,
                (self.handle(window_size),),
                frame.settings,
            ),
    {
        proof {
            use_type_invariant(self);
        }
        match (&self.workflow.vertex_spec, &self.workflow.uniforms, &self.workflow.settings) {
            (Some(vertex), Some(uniforms), Some(settings)) => {
                let settings = settings(Handle { context: &self.state, window_size });
                let uniforms = uniforms(Handle { context: &self.state, window_size });
                let vertices = vertex(Handle { context: &self.state, window_size });
                Frame { vertices, uniforms, settings }
            },
            _ => {
                proof {
                    assert(false);
                }
                unreached()
            },
        }
    }
}

impl<C, V, U, S> Program<C, V, U, S, WithVertices, WithoutUniforms, WithDrawSettings> {
    /// Makes the resources of one frame of a program without uniforms:
    /// calls the draw-settings factory and the vertex factory, each with a
    /// fresh handle over the program's context and the window's present
    /// size, and returns what they made. Both factories have to accept that
    /// handle.
    pub fn draw<VR, SR>(&self, window_size: PhysicalSize) -> (frame: Frame<VR, (), SR>) where
        V: for <'a>Fn(Handle<'a, C>) -> VR,
        S: for <'a>Fn(Handle<'a, C>) -> SR,

        requires
            self.spec_workflow().vertex_factory() matches Some(f) ==> call_requires(
                f,
                (self.handle(window_size),),
            ),
            self.spec_workflow().settings_factory() matches Some(f) ==> call_requires(
                f,
                (self.handle(window_size),),
            ),
        ensures
            self.spec_workflow().vertex_factory() matches Some(f) && call_ensures(
                f,
                (self.handle(window_size),),
                frame.vertices,
            ),
            self.spec_workflow().uniform_factory() is None,
            self.spec_workflow().settings_factory() matches Some(f) && call_ensures(
                f,
                (self.handle(window_size),),
                frame.settings,
            ),
    {
        proof {
            use_type_invariant(self);
        }
        match (&self.workflow.vertex_spec, &self.workflow.uniforms, &self.workflow.settings) {
            (Some(vertex), None, Some(settings)) => {
                let settings = settings(Handle { context: &self.state, window_size });
                let vertices = vertex(Handle { context: &self.state, window_size });
                Frame { vertices, uniforms: (), settings }
            },
            _ => {
                proof {
                    assert(false);
                }
                unreached()
            },
        }
    }
}

impl<C, V, U, S, HasUniforms: Axis> Program<
    C,
    V,
    U,
    S,
    WithVertices,
    HasUniforms,
    WithDrawSettings,
> {
    /// A program that can be drawn and served is in a phase that a
    /// permitted configuration leads to and in which a frame can be drawn.
    pub proof fn lemma_ready_phase()
        ensures
            Self::type_phase().drawable(),
            Self::type_phase().reachable(),
    {
        lemma_reachable_phases(Self::type_phase());
    }

    /// A program can be served if it has a window and its cadence can be
    /// paced.
    pub open spec fn servable(self) -> bool {
        self.spec_run_mode().windowed() && self.spec_run_mode().cadence().paceable()
    }

    /// Tells whether the program can be served.
    pub fn can_serve(&self) -> (b: bool)
        ensures
            b == self.servable(),
    {
        self.run_mode.is_windowed() && self.run_mode.draw_mode().is_paceable()
    }

    /// Starts serving: hands the program back together with the scheduler
    /// that drives it, set to the program's cadence and about to draw the
    /// first frame.
    pub fn serve(self) -> (served: (Self, Scheduler))
        requires
            self.servable(),
        ensures
            served.0 == self,
            served.1.spec_mode() == self.spec_run_mode().cadence(),
            served.1.spec_stage() == Stage::FirstDraw,
    {
        let scheduler = Scheduler::new(self.run_mode.draw_mode());
        (self, scheduler)
    }
}

} // verus!
