//! The phases of a program's configuration. A phase says which of the three
//! resource factories have been supplied. The builder carries its phase in
//! its type, through the marker types below; `Phase` is the same thing as a
//! value, on which the rules of configuration are stated and proved.
use vstd::prelude::*;

verus! {

/// One axis of a phase: a factory that is supplied or is not.
pub trait Axis {
    /// Whether the marker stands for a supplied factory.
    spec fn supplied() -> bool;
}

pub struct WithVertices;

pub struct WithUniforms;

pub struct WithDrawSettings;

pub struct WithoutVertices;

pub struct WithoutUniforms;

pub struct WithoutDrawSettings;

impl Axis for WithVertices {
    open spec fn supplied() -> bool {
        true
    }
}

impl Axis for WithUniforms {
    open spec fn supplied() -> bool {
        true
    }
}

impl Axis for WithDrawSettings {
    open spec fn supplied() -> bool {
        true
    }
}

impl Axis for WithoutVertices {
    open spec fn supplied() -> bool {
        false
    }
}

impl Axis for WithoutUniforms {
    open spec fn supplied() -> bool {
        false
    }
}

impl Axis for WithoutDrawSettings {
    open spec fn supplied() -> bool {
        false
    }
}

/// A step of configuration: the supply of one factory.
#[derive(Debug, Clone, Copy, PartialEq, Eq, Structural)]
pub enum Step {
    Vertices,
    Uniforms,
    DrawSettings,
}

/// Which factories have been supplied.
#[derive(Debug, Clone, Copy, PartialEq, Eq, Structural)]
pub struct Phase {
    pub vertices: bool,
    pub uniforms: bool,
    pub settings: bool,
}

impl Phase {
    /// The phase every program starts in: nothing is supplied.
    pub open spec fn initial() -> Phase {
        Phase { vertices: false, uniforms: false, settings: false }
    }

    /// The phase after vertices are supplied: uniforms and draw settings
    /// are gone, whatever was there.
    pub open spec fn with_vertices(self) -> Phase {
        Phase { vertices: true, uniforms: false, settings: false }
    }

    pub open spec fn with_uniforms(self) -> Phase {
        Phase { uniforms: true, ..self }
    }

    pub open spec fn with_draw_settings(self) -> Phase {
        Phase { settings: true, ..self }
    }

    /// Whether `step` may be taken in this phase: vertices only at the
    /// start, uniforms and draw settings only once vertices are there, and
    /// nothing that is there already.
    pub open spec fn permits(self, step: Step) -> bool {
        match step {
            Step::Vertices => self == Phase::initial(),
            Step::Uniforms => self.vertices && !self.uniforms,
            Step::DrawSettings => self.vertices && !self.settings,
        }
    }

    /// The phase after `step`.
    pub open spec fn after(self, step: Step) -> Phase {
        match step {
            Step::Vertices => self.with_vertices(),
            Step::Uniforms => self.with_uniforms(),
            Step::DrawSettings => self.with_draw_settings(),
        }
    }

    /// A frame can be drawn, and the program served, in the phases that
    /// have vertices and draw settings; uniforms are optional.
    pub open spec fn drawable(self) -> bool {
        self.vertices && self.settings
    }

    /// The phase that a sequence of steps leads to from this one, if each
    /// step is permitted where it is taken.
    pub open spec fn follow(self, steps: Seq<Step>) -> Option<Phase>
        decreases steps.len(),
    {
        if steps.len() == 0 {
            Some(self)
        } else if self.permits(steps[0]) {
            self.after(steps[0]).follow(steps.drop_first())
        } else {
            None
        }
    }

    /// The phases that some permitted sequence of steps leads to from the
    /// initial one.
    pub open spec fn reachable(self) -> bool {
        exists|steps: Seq<Step>| Phase::initial().follow(steps) == Some(self)
    }

    /// The starting phase, as a value.
    pub fn start() -> (phase: Phase)
        ensures
            phase == Phase::initial(),
    {
        Phase { vertices: false, uniforms: false, settings: false }
    }

    /// Tells whether `step` may be taken in this phase.
    pub fn allows(&self, step: Step) -> (b: bool)
        ensures
            b == self.permits(step),
    {
        match step {
            Step::Vertices => !self.vertices && !self.uniforms && !self.settings,
            Step::Uniforms => self.vertices && !self.uniforms,
            Step::DrawSettings => self.vertices && !self.settings,
        }
    }

    /// Takes `step` if this phase permits it.
    pub fn advance(&self, step: Step) -> (next: Option<Phase>)
        ensures
            next == if self.permits(step) {
                Some(self.after(step))
            } else {
                None
            },
    {
        if !self.allows(step) {
            return None;
        }
        Some(
            match step {
                Step::Vertices => Phase { vertices: true, uniforms: false, settings: false },
                Step::Uniforms => Phase {
                    vertices: self.vertices,
                    uniforms: true,
                    settings: self.settings,
                },
                Step::DrawSettings => Phase {
                    vertices: self.vertices,
                    uniforms: self.uniforms,
                    settings: true,
                },
            },
        )
    }

    /// Tells whether a frame can be drawn in this phase.
    pub fn can_draw(&self) -> (b: bool)
        ensures
            b == self.drawable(),
    {
        self.vertices && self.settings
    }
}

/// Permitted steps keep a phase's shape: nothing is there without vertices,
/// and what a sequence of steps supplies is what the phase holds.
pub proof fn lemma_follow(from: Phase, steps: Seq<Step>)
    requires
        from.vertices || from == Phase::initial(),
    ensures
        from.follow(steps) matches Some(to) ==> {
            &&& to.vertices || to == Phase::initial()
            &&& to.vertices == (from.vertices || steps.contains(Step::Vertices))
            &&& to.uniforms == (from.uniforms || steps.contains(Step::Uniforms))
            &&& to.settings == (from.settings || steps.contains(Step::DrawSettings))
        },
    decreases steps.len(),
{
    if steps.len() > 0 && from.permits(steps[0]) {
        let rest = steps.drop_first();
        lemma_follow(from.after(steps[0]), rest);
        assert forall|s: Step| steps.contains(s) <==> (s == steps[0] || rest.contains(s)) by {
            if steps.contains(s) {
                let i = choose|i: int| 0 <= i < steps.len() && steps[i] == s;
                if i > 0 {
                    assert(rest[i - 1] == s);
                }
            }
            if rest.contains(s) {
                let i = choose|i: int| 0 <= i < rest.len() && rest[i] == s;
                assert(steps[i + 1] == s);
            }
            if s == steps[0] {
                assert(steps[0] == s);
            }
        }
    } else if steps.len() == 0 {
        assert(!steps.contains(Step::Vertices));
        assert(!steps.contains(Step::Uniforms));
        assert(!steps.contains(Step::DrawSettings));
    }
}

/// Phase soundness. In every phase that a permitted sequence of steps
/// reaches from the start, a frame can be drawn if and only if vertices and
/// draw settings were among the steps; whether uniforms were does not
/// matter.
pub proof fn lemma_phase_soundness(steps: Seq<Step>)
    ensures
        Phase::initial().follow(steps) matches Some(phase) ==> (phase.drawable() <==> (
            steps.contains(Step::Vertices) && steps.contains(Step::DrawSettings))),
{
    lemma_follow(Phase::initial(), steps);
}

/// The reachable phases are the start and the four phases with vertices:
/// uniforms or draw settings are never there without vertices.
pub proof fn lemma_reachable_phases(phase: Phase)
    ensures
        phase.reachable() <==> (phase.vertices || phase == Phase::initial()),
{
    if phase.reachable() {
        let steps = choose|steps: Seq<Step>| Phase::initial().follow(steps) == Some(phase);
        lemma_follow(Phase::initial(), steps);
    }
    if phase.vertices || phase == Phase::initial() {
        lemma_shortest_way(phase);
    }
}

/// The shortest way to a phase: vertices, then what else the phase holds.
pub open spec fn shortest_way(phase: Phase) -> Seq<Step> {
    let uniforms = if phase.uniforms {
        seq![Step::Uniforms]
    } else {
        Seq::<Step>::empty()
    };
    let settings = if phase.settings {
        seq![Step::DrawSettings]
    } else {
        Seq::<Step>::empty()
    };
    if phase.vertices {
        seq![Step::Vertices] + uniforms + settings
    } else {
        Seq::<Step>::empty()
    }
}

/// Every phase with vertices, and the initial one, is reached by its
/// shortest way.
pub proof fn lemma_shortest_way(phase: Phase)
    requires
        phase.vertices || phase == Phase::initial(),
    ensures
        Phase::initial().follow(shortest_way(phase)) == Some(phase),
        phase.reachable(),
{
    reveal_with_fuel(Phase::follow, 4);
    let steps = shortest_way(phase);
    if phase.vertices {
        let r1 = steps.drop_first();
        assert(steps[0] == Step::Vertices);
        if phase.uniforms {
            assert(r1[0] == Step::Uniforms);
            let r2 = r1.drop_first();
            if phase.settings {
                assert(r2[0] == Step::DrawSettings);
                assert(r2.drop_first().len() == 0);
            } else {
                assert(r2.len() == 0);
            }
        } else {
            if phase.settings {
                assert(r1[0] == Step::DrawSettings);
                assert(r1.drop_first().len() == 0);
            } else {
                assert(r1.len() == 0);
            }
        }
    }
    assert(Phase::initial().follow(steps) == Some(phase));
}

/// Reset on reconfiguration. Supplying vertices leaves a phase with
/// vertices alone, whatever was supplied before: a phase in which uniforms
/// or draw settings were supplied first is taken to where it would be had
/// they never been.
pub proof fn lemma_vertices_reset(phase: Phase)
    ensures
        phase.with_vertices() == Phase::initial().with_vertices(),
        phase.with_draw_settings().with_vertices() == phase.with_vertices(),
        phase.with_uniforms().with_vertices() == phase.with_vertices(),
        !phase.with_vertices().uniforms,
        !phase.with_vertices().settings,
        !phase.with_vertices().drawable(),
{
}

/// Configuration only ever adds. A permitted step supplies one factory
/// that was not there and keeps every factory that was, so that no
/// permitted step can be taken twice.
pub proof fn lemma_steps_are_monotone(phase: Phase, step: Step)
    requires
        phase.permits(step),
    ensures
        phase.vertices ==> phase.after(step).vertices,
        phase.uniforms ==> phase.after(step).uniforms,
        phase.settings ==> phase.after(step).settings,
        phase.after(step) != phase,
        !phase.after(step).permits(step),
{
}

} // verus!
