//! The frame scheduler. It decides what a served program does next: draw,
//! present, handle window events, or sleep out the rest of a frame
//! interval. It performs none of these itself. Its caller asks for the
//! next action, carries it out, and reports what happened together with
//! the reading of a monotonic clock, in nanoseconds.
use vstd::prelude::*;
use crate::config::DrawMode;

verus! {

pub const NANOS_PER_SECOND: u64 = 1_000_000_000;

/// The target interval between two frame starts, in whole nanoseconds: the
/// `framerate`-th part of a second, rounded down.
pub open spec fn spec_frame_interval(framerate: u64) -> u64
    recommends
        framerate > 0,
{
    NANOS_PER_SECOND / framerate
}

/// The target interval between two frame starts, in nanoseconds.
pub fn frame_interval(framerate: u64) -> (nanos: u64)
    requires
        framerate > 0,
    ensures
        nanos == spec_frame_interval(framerate),
{
    NANOS_PER_SECOND / framerate
}

/// The time to sleep after a frame's work took `elapsed` of an `interval`:
/// the remainder, and nothing once the interval is used up.
pub open spec fn spec_pacing_sleep(elapsed: u64, interval: u64) -> u64 {
    if elapsed < interval {
        (interval - elapsed) as u64
    } else {
        0
    }
}

/// The time to sleep after a frame's work took `elapsed` of an `interval`.
pub fn pacing_sleep(elapsed: u64, interval: u64) -> (nanos: u64)
    ensures
        nanos == spec_pacing_sleep(elapsed, interval),
{
    if elapsed < interval {
        interval - elapsed
    } else {
        0
    }
}

/// The time from `start` to `now`; none if the clock reads earlier than at
/// the start.
pub open spec fn spec_elapsed(start: u64, now: u64) -> u64 {
    if now >= start {
        (now - start) as u64
    } else {
        0
    }
}

/// What the scheduler is told.
#[derive(Debug, Clone, Copy, PartialEq, Eq, Structural)]
pub enum Event {
    /// The frame was drawn.
    Drawn,
    /// Drawing the frame failed.
    DrawFailed,
    /// The frame was presented.
    Presented,
    /// Presenting the frame failed.
    PresentFailed,
    /// The window was asked to close.
    CloseRequested,
    /// The window changed its size.
    Resized,
    /// The window asked to be redrawn.
    RedrawRequested,
    /// Any other event of the window system.
    Other,
    /// The window events that were queued have all been delivered.
    Drained,
    /// The sleep is over.
    Woke,
}

/// What the scheduler asks for.
#[derive(Debug, Clone, Copy, PartialEq, Eq, Structural)]
pub enum Action {
    /// Evaluate the factories and draw the frame; report `Drawn` or
    /// `DrawFailed`.
    Draw,
    /// Present the frame; report `Presented` or `PresentFailed`.
    Present,
    /// Request a redraw, deliver the queued window events without waiting,
    /// then report `Drained`.
    Poll,
    /// Wait for window events and deliver them, then report `Drained`.
    Wait,
    /// Sleep for this many nanoseconds, then report `Woke`.
    Sleep { nanos: u64 },
    /// The window was closed: stop, all is well.
    Stop,
    /// A frame could not be drawn: stop with the draw's error.
    Fail,
}

/// Where the scheduler stands.
#[derive(Debug, Clone, Copy, PartialEq, Eq, Structural)]
pub enum Stage {
    /// The first frame is to be drawn.
    FirstDraw,
    /// The first frame is to be presented.
    FirstPresent,
    /// The single frame is on screen; only window events are handled.
    Idle,
    /// The frame that started at `start` is to be drawn.
    Draw { start: u64 },
    /// The frame that started at `start` is to be presented.
    Present { start: u64 },
    /// The window events of the frame that started at `start` are handled.
    Events { start: u64 },
    /// The rest of the frame interval is slept out.
    Sleep { nanos: u64 },
    /// The window was closed.
    Stopped,
    /// A draw failed.
    Failed,
}

impl Stage {
    /// The stages that end the run. Nothing leads out of them.
    pub open spec fn is_final(self) -> bool {
        self is Stopped || self is Failed
    }

    /// The stages of the paced loop, which a program that draws once never
    /// enters.
    pub open spec fn in_loop(self) -> bool {
        self is Draw || self is Present || self is Events || self is Sleep
    }

    /// The stages that `mode` can be in.
    pub open spec fn fits(self, mode: DrawMode) -> bool {
        match mode {
            DrawMode::Once => !self.in_loop(),
            DrawMode::Loop { .. } => !(self is Idle),
        }
    }
}

/// What is to be done in `stage`.
pub open spec fn action_of(stage: Stage) -> Action {
    match stage {
        Stage::FirstDraw => Action::Draw,
        Stage::FirstPresent => Action::Present,
        Stage::Idle => Action::Wait,
        Stage::Draw { .. } => Action::Draw,
        Stage::Present { .. } => Action::Present,
        Stage::Events { .. } => Action::Poll,
        Stage::Sleep { nanos } => Action::Sleep { nanos },
        Stage::Stopped => Action::Stop,
        Stage::Failed => Action::Fail,
    }
}

/// The stage after the window events of a frame are handled, when the
/// frame started at `start` and the clock now reads `now`: asleep for the
/// rest of the interval if any of it is left, else at the next frame, which
/// starts now.
pub open spec fn paced(framerate: u64, start: u64, now: u64) -> Stage
    recommends
        framerate > 0,
{
    let pause = spec_pacing_sleep(spec_elapsed(start, now), spec_frame_interval(framerate));
    if pause > 0 {
        Stage::Sleep { nanos: pause }
    } else {
        Stage::Draw { start: now }
    }
}

/// The stage that `event`, reported when the clock reads `now`, leads to
/// from `stage`. An event that does not answer the stage's action leaves
/// the stage as it is. A request to close stops the run whenever it comes;
/// a failed draw fails the run; a failed presentation goes on as a
/// successful one does.
pub open spec fn next_stage(mode: DrawMode, stage: Stage, event: Event, now: u64) -> Stage {
    if stage.is_final() {
        stage
    } else if event is CloseRequested {
        Stage::Stopped
    } else {
        match stage {
            Stage::FirstDraw => match event {
                Event::Drawn => Stage::FirstPresent,
                Event::DrawFailed => Stage::Failed,
                _ => stage,
            },
            Stage::FirstPresent => match event {
                Event::Presented | Event::PresentFailed => match mode {
                    DrawMode::Once => Stage::Idle,
                    DrawMode::Loop { .. } => Stage::Draw { start: now },
                },
                _ => stage,
            },
            Stage::Draw { start } => match event {
                Event::Drawn => Stage::Present { start },
                Event::DrawFailed => Stage::Failed,
                _ => stage,
            },
            Stage::Present { start } => match event {
                Event::Presented | Event::PresentFailed => Stage::Events { start },
                _ => stage,
            },
            Stage::Events { start } => match event {
                Event::Drained => match mode {
                    DrawMode::Once => Stage::Idle,
                    DrawMode::Loop { framerate } => paced(framerate, start, now),
                },
                _ => stage,
            },
            Stage::Sleep { .. } => match event {
                Event::Woke => Stage::Draw { start: now },
                _ => stage,
            },
            _ => stage,
        }
    }
}

/// The scheduler of one served program.
pub struct Scheduler {
    mode: DrawMode,
    stage: Stage,
}

impl Scheduler {
    #[verifier::type_invariant]
    spec fn sound(self) -> bool {
        self.mode.paceable() && self.stage.fits(self.mode)
    }

    /// The cadence the scheduler was made for. It never changes.
    pub closed spec fn spec_mode(self) -> DrawMode {
        self.mode
    }

    pub closed spec fn spec_stage(self) -> Stage {
        self.stage
    }

    /// A scheduler for `mode`, about to draw the first frame.
    pub fn new(mode: DrawMode) -> (scheduler: Scheduler)
        requires
            mode.paceable(),
        ensures
            scheduler.spec_mode() == mode,
            scheduler.spec_stage() == Stage::FirstDraw,
    {
        Scheduler { mode, stage: Stage::FirstDraw }
    }

    /// A scheduler for `mode`, unless `mode` asks for zero frames per
    /// second.
    pub fn for_mode(mode: DrawMode) -> (scheduler: Option<Scheduler>)
        ensures
            scheduler is Some <==> mode.paceable(),
            scheduler matches Some(s) ==> s.spec_mode() == mode && s.spec_stage()
                == Stage::FirstDraw,
    {
        if mode.is_paceable() {
            Some(Scheduler::new(mode))
        } else {
            None
        }
    }

    pub fn mode(&self) -> (mode: DrawMode)
        ensures
            mode == self.spec_mode(),
            mode.paceable(),
    {
        proof {
            use_type_invariant(self);
        }
        self.mode
    }

    pub fn stage(&self) -> (stage: Stage)
        ensures
            stage == self.spec_stage(),
            stage.fits(self.spec_mode()),
    {
        proof {
            use_type_invariant(self);
        }
        self.stage
    }

    /// What the caller is to do next.
    pub fn action(&self) -> (action: Action)
        ensures
            action == action_of(self.spec_stage()),
    {
        match self.stage {
            Stage::FirstDraw => Action::Draw,
            Stage::FirstPresent => Action::Present,
            Stage::Idle => Action::Wait,
            Stage::Draw { .. } => Action::Draw,
            Stage::Present { .. } => Action::Present,
            Stage::Events { .. } => Action::Poll,
            Stage::Sleep { nanos } => Action::Sleep { nanos },
            Stage::Stopped => Action::Stop,
            Stage::Failed => Action::Fail,
        }
    }

    /// Tells whether the run is over.
    pub fn is_finished(&self) -> (b: bool)
        ensures
            b == self.spec_stage().is_final(),
    {
        match self.stage {
            Stage::Stopped | Stage::Failed => true,
            _ => false,
        }
    }

    /// Takes in what happened, at clock reading `now`, and returns what is
    /// to be done next.
    pub fn handle(&mut self, event: Event, now: u64) -> (action: Action)
        ensures
            final(self).spec_mode() == old(self).spec_mode(),
            final(self).spec_stage() == next_stage(
                old(self).spec_mode(),
                old(self).spec_stage(),
                event,
                now,
            ),
            action == action_of(final(self).spec_stage()),
    {
        proof {
            use_type_invariant(&*self);
        }
        let next = step(self.mode, self.stage, event, now);
        self.stage = next;
        self.action()
    }
}

impl Scheduler {
    /// Takes in a sequence of reports, one after the other, and returns
    /// what is to be done after the last.
    pub fn replay(&mut self, reports: &Vec<Report>) -> (action: Action)
        ensures
            final(self).spec_mode() == old(self).spec_mode(),
            final(self).spec_stage() == run(
                old(self).spec_mode(),
                old(self).spec_stage(),
                reports@,
            ),
            action == action_of(final(self).spec_stage()),
    {
        let mut i: usize = 0;
        assert(reports@.skip(0) =~= reports@);
        while i < reports.len()
            invariant
                i <= reports.len(),
                self.spec_mode() == old(self).spec_mode(),
                run(old(self).spec_mode(), old(self).spec_stage(), reports@) == run(
                    self.spec_mode(),
                    self.spec_stage(),
                    reports@.skip(i as int),
                ),
            decreases reports.len() - i,
        {
            let report = reports[i];
            proof {
                let rest = reports@.skip(i as int);
                assert(rest[0] == report);
                assert(rest.drop_first() =~= reports@.skip(i + 1));
            }
            self.handle(report.event, report.now);
            i += 1;
        }
        self.action()
    }
}

/// The stage that `event` leads to from `stage`.
pub fn step(mode: DrawMode, stage: Stage, event: Event, now: u64) -> (next: Stage)
    requires
        mode.paceable(),
    ensures
        next == next_stage(mode, stage, event, now),
        stage.fits(mode) ==> next.fits(mode),
{
    match stage {
        Stage::Stopped | Stage::Failed => stage,
        _ => match event {
            Event::CloseRequested => Stage::Stopped,
            _ => match stage {
                Stage::FirstDraw => match event {
                    Event::Drawn => Stage::FirstPresent,
                    Event::DrawFailed => Stage::Failed,
                    _ => stage,
                },
                Stage::FirstPresent => match event {
                    Event::Presented | Event::PresentFailed => match mode {
                        DrawMode::Once => Stage::Idle,
                        DrawMode::Loop { .. } => Stage::Draw { start: now },
                    },
                    _ => stage,
                },
                Stage::Draw { start } => match event {
                    Event::Drawn => Stage::Present { start },
                    Event::DrawFailed => Stage::Failed,
                    _ => stage,
                },
                Stage::Present { start } => match event {
                    Event::Presented | Event::PresentFailed => Stage::Events { start },
                    _ => stage,
                },
                Stage::Events { start } => match event {
                    Event::Drained => match mode {
                        DrawMode::Once => Stage::Idle,
                        DrawMode::Loop { framerate } => {
                            let elapsed: u64 = if now >= start {
                                now - start
                            } else {
                                0
                            };
                            let pause: u64 = pacing_sleep(elapsed, frame_interval(framerate));
                            if pause > 0 {
                                Stage::Sleep { nanos: pause }
                            } else {
                                Stage::Draw { start: now }
                            }
                        },
                    },
                    _ => stage,
                },
                Stage::Sleep { .. } => match event {
                    Event::Woke => Stage::Draw { start: now },
                    _ => stage,
                },
                _ => stage,
            },
        },
    }
}

/// One thing that happened, with the reading of the clock when it did.
#[derive(Debug, Clone, Copy, PartialEq, Eq, Structural)]
pub struct Report {
    pub event: Event,
    pub now: u64,
}

/// The stage that a sequence of reports leads to from `stage`.
pub open spec fn run(mode: DrawMode, stage: Stage, reports: Seq<Report>) -> Stage
    decreases reports.len(),
{
    if reports.len() == 0 {
        stage
    } else {
        run(
            mode,
            next_stage(mode, stage, reports[0].event, reports[0].now),
            reports.drop_first(),
        )
    }
}

} // verus!
