//! What holds along the runs of the scheduler: how often frames are drawn,
//! how far apart they start, and how a run ends.
use vstd::prelude::*;
use crate::config::DrawMode;
use crate::scheduler::{
    action_of, next_stage, paced, run, spec_elapsed, spec_frame_interval, spec_pacing_sleep,
    Event, Report, Stage, NANOS_PER_SECOND,
};

verus! {

/// `event` reports a frame drawn that `stage` asked for.
pub open spec fn draws_frame(stage: Stage, event: Event) -> bool {
    action_of(stage) is Draw && event is Drawn
}

/// `event` reports the end of a presentation that `stage` asked for.
pub open spec fn presents_frame(stage: Stage, event: Event) -> bool {
    action_of(stage) is Present && (event is Presented || event is PresentFailed)
}

/// `event` ends the handling of window events of a frame of the loop, and
/// with it the frame's work.
pub open spec fn ends_frame(stage: Stage, event: Event) -> bool {
    stage is Events && event is Drained
}

/// How many frames were drawn along a run.
pub open spec fn frames_drawn(mode: DrawMode, stage: Stage, reports: Seq<Report>) -> nat
    decreases reports.len(),
{
    if reports.len() == 0 {
        0
    } else {
        let report = reports[0];
        let rest = frames_drawn(
            mode,
            next_stage(mode, stage, report.event, report.now),
            reports.drop_first(),
        );
        if draws_frame(stage, report.event) {
            rest + 1
        } else {
            rest
        }
    }
}

/// How many presentations ended along a run.
pub open spec fn frames_presented(mode: DrawMode, stage: Stage, reports: Seq<Report>) -> nat
    decreases reports.len(),
{
    if reports.len() == 0 {
        0
    } else {
        let report = reports[0];
        let rest = frames_presented(
            mode,
            next_stage(mode, stage, report.event, report.now),
            reports.drop_first(),
        );
        if presents_frame(stage, report.event) {
            rest + 1
        } else {
            rest
        }
    }
}

/// How many frames of the loop had their work done along a run.
pub open spec fn frames_ended(mode: DrawMode, stage: Stage, reports: Seq<Report>) -> nat
    decreases reports.len(),
{
    if reports.len() == 0 {
        0
    } else {
        let report = reports[0];
        let rest = frames_ended(
            mode,
            next_stage(mode, stage, report.event, report.now),
            reports.drop_first(),
        );
        if ends_frame(stage, report.event) {
            rest + 1
        } else {
            rest
        }
    }
}

/// What the counts are in each stage of a run that began with the first
/// frame. With the first frame on screen one frame is drawn and presented;
/// in the loop, the frames drawn are the first one, one for each frame
/// whose work is done, and the one under way once it is drawn. When the
/// run is over, the counts are those of one of the stages before.
pub open spec fn tallied(
    mode: DrawMode,
    stage: Stage,
    drawn: int,
    presented: int,
    ended: int,
) -> bool {
    0 <= ended && match stage {
        Stage::FirstDraw => drawn == 0 && presented == 0 && ended == 0,
        Stage::FirstPresent => drawn == 1 && presented == 0 && ended == 0,
        Stage::Idle => drawn == 1 && presented == 1 && ended == 0,
        Stage::Draw { .. } | Stage::Sleep { .. } => drawn == ended + 1 && presented == ended + 1,
        Stage::Present { .. } => drawn == ended + 2 && presented == ended + 1,
        Stage::Events { .. } => drawn == ended + 2 && presented == ended + 2,
        Stage::Stopped | Stage::Failed => {
            &&& presented <= drawn <= presented + 1
            &&& drawn <= ended + 2
            &&& drawn == 0 ==> ended == 0
            &&& drawn > 0 ==> ended < drawn
            &&& mode is Once ==> drawn <= 1 && ended == 0
        },
    }
}

/// The counts stay what `tallied` says along every run.
pub proof fn lemma_tally_run(
    mode: DrawMode,
    stage: Stage,
    drawn: int,
    presented: int,
    ended: int,
    reports: Seq<Report>,
)
    requires
        stage.fits(mode),
        tallied(mode, stage, drawn, presented, ended),
    ensures
        run(mode, stage, reports).fits(mode),
        tallied(
            mode,
            run(mode, stage, reports),
            drawn + frames_drawn(mode, stage, reports),
            presented + frames_presented(mode, stage, reports),
            ended + frames_ended(mode, stage, reports),
        ),
    decreases reports.len(),
{
    if reports.len() > 0 {
        let event = reports[0].event;
        let next = next_stage(mode, stage, event, reports[0].now);
        let rest = reports.drop_first();
        let d: int = if draws_frame(stage, event) {
            1
        } else {
            0
        };
        let p: int = if presents_frame(stage, event) {
            1
        } else {
            0
        };
        let e: int = if ends_frame(stage, event) {
            1
        } else {
            0
        };
        assert(next.fits(mode));
        assert(tallied(mode, next, drawn + d, presented + p, ended + e));
        lemma_tally_run(mode, next, drawn + d, presented + p, ended + e, rest);
        assert(run(mode, stage, reports) == run(mode, next, rest));
        assert(frames_drawn(mode, stage, reports) == d + frames_drawn(mode, next, rest));
        assert(frames_presented(mode, stage, reports) == p + frames_presented(mode, next, rest));
        assert(frames_ended(mode, stage, reports) == e + frames_ended(mode, next, rest));
    } else {
        assert(run(mode, stage, reports) == stage);
    }
}

/// Every frame is drawn once. Along any run from the start, a program that
/// draws once draws at most one frame, and exactly one once the first frame
/// is past; a program that loops has drawn, whenever a frame is about to
/// start, the first frame and one frame for each turn of the loop; and
/// never is more than one frame drawn and not yet presented.
pub proof fn lemma_one_draw_per_frame(mode: DrawMode, reports: Seq<Report>)
    ensures
        ({
            let end = run(mode, Stage::FirstDraw, reports);
            let drawn = frames_drawn(mode, Stage::FirstDraw, reports);
            let presented = frames_presented(mode, Stage::FirstDraw, reports);
            let ended = frames_ended(mode, Stage::FirstDraw, reports);
            &&& end.fits(mode)
            &&& tallied(mode, end, drawn as int, presented as int, ended as int)
            &&& mode is Once ==> drawn <= 1 && (end is FirstPresent || end is Idle ==> drawn == 1)
            &&& end is Draw ==> drawn == ended + 1
            &&& presented <= drawn <= presented + 1
        }),
{
    lemma_tally_run(mode, Stage::FirstDraw, 0, 0, 0, reports);
}

/// A program that draws once never draws again: past the first draw, no
/// sequence of reports brings the scheduler to ask for a frame.
pub proof fn lemma_once_never_redraws(stage: Stage, reports: Seq<Report>)
    requires
        stage.fits(DrawMode::Once),
        !(stage is FirstDraw),
    ensures
        !(action_of(run(DrawMode::Once, stage, reports)) is Draw),
        !(run(DrawMode::Once, stage, reports) is FirstDraw),
        run(DrawMode::Once, stage, reports).fits(DrawMode::Once),
    decreases reports.len(),
{
    if reports.len() > 0 {
        lemma_once_never_redraws(
            next_stage(DrawMode::Once, stage, reports[0].event, reports[0].now),
            reports.drop_first(),
        );
    }
}

/// Nothing leads out of a stage that ends the run.
pub proof fn lemma_final_stages_absorb(mode: DrawMode, stage: Stage, reports: Seq<Report>)
    requires
        stage.is_final(),
    ensures
        run(mode, stage, reports) == stage,
    decreases reports.len(),
{
    if reports.len() > 0 {
        lemma_final_stages_absorb(mode, stage, reports.drop_first());
    }
}

/// Termination. A request to close ends the run in whatever stage it
/// comes: from then on, whatever is reported, the scheduler asks for no
/// draw and no presentation, only for the stop (or, where a draw had
/// failed before, for the failure).
pub proof fn lemma_close_ends_the_run(mode: DrawMode, stage: Stage, now: u64, later: Seq<Report>)
    ensures
        ({
            let closed = next_stage(mode, stage, Event::CloseRequested, now);
            let end = run(mode, closed, later);
            &&& closed.is_final()
            &&& !stage.is_final() ==> closed is Stopped
            &&& end == closed
            &&& action_of(end) is Stop || action_of(end) is Fail
        }),
{
    lemma_final_stages_absorb(mode, next_stage(mode, stage, Event::CloseRequested, now), later);
}

/// A failed draw ends the run with the failure, from either drawing stage.
pub proof fn lemma_draw_failure_ends_the_run(
    mode: DrawMode,
    stage: Stage,
    now: u64,
    later: Seq<Report>,
)
    requires
        action_of(stage) is Draw,
    ensures
        run(mode, next_stage(mode, stage, Event::DrawFailed, now), later) is Failed,
{
    lemma_final_stages_absorb(mode, Stage::Failed, later);
}

/// A failed presentation is not fatal: the run goes on from it exactly as
/// from a successful one.
pub proof fn lemma_present_failure_goes_on(mode: DrawMode, stage: Stage, now: u64)
    ensures
        next_stage(mode, stage, Event::PresentFailed, now) == next_stage(
            mode,
            stage,
            Event::Presented,
            now,
        ),
        action_of(stage) is Present ==> !next_stage(mode, stage, Event::PresentFailed, now).is_final(),
{
}

/// A resize, a request to redraw and every other event of the window
/// system but the request to close leave the scheduler where it is.
pub proof fn lemma_window_events_change_nothing(
    mode: DrawMode,
    stage: Stage,
    event: Event,
    now: u64,
)
    requires
        event is Resized || event is RedrawRequested || event is Other,
    ensures
        next_stage(mode, stage, event, now) == stage,
{
}

/// Within a frame of the loop the draw comes first, then the presentation,
/// then the window events, and only then the pacing.
pub proof fn lemma_frame_order(framerate: u64, start: u64, t1: u64, t2: u64, t3: u64)
    ensures
        ({
            let mode = DrawMode::Loop { framerate };
            let drawn = next_stage(mode, Stage::Draw { start }, Event::Drawn, t1);
            let presented = next_stage(mode, drawn, Event::Presented, t2);
            let drained = next_stage(mode, presented, Event::Drained, t3);
            &&& drawn == Stage::Present { start }
            &&& presented == Stage::Events { start }
            &&& drained == paced(framerate, start, t3)
            &&& drained is Sleep || drained == Stage::Draw { start: t3 }
        }),
{
}

/// The frame interval is the `framerate`-th part of a second to within a
/// nanosecond.
pub proof fn lemma_frame_interval_bounds(framerate: u64)
    requires
        framerate > 0,
    ensures
        spec_frame_interval(framerate) * framerate <= NANOS_PER_SECOND,
        NANOS_PER_SECOND < (spec_frame_interval(framerate) + 1) * framerate,
{
    let f = framerate as int;
    let n = NANOS_PER_SECOND as int;
    assert((n / f) * f <= n && n < (n / f + 1) * f) by (nonlinear_arith)
        requires
            f > 0,
            n >= 0,
    ;
}

/// Pacing lower bound, for one frame. When the work of a frame of the loop
/// took less than the frame interval, the scheduler asks for a sleep that
/// fills the interval exactly; if the sleep lasts at least as long as
/// asked, the next frame starts no earlier than one interval after this
/// one did.
pub proof fn lemma_pacing_lower_bound(framerate: u64, start: u64, drained: u64, woke: u64)
    requires
        framerate > 0,
        start <= drained,
        drained - start < spec_frame_interval(framerate),
        woke >= drained + spec_pacing_sleep(
            (drained - start) as u64,
            spec_frame_interval(framerate),
        ),
    ensures
        ({
            let mode = DrawMode::Loop { framerate };
            let interval = spec_frame_interval(framerate);
            let asleep = next_stage(mode, Stage::Events { start }, Event::Drained, drained);
            &&& asleep matches Stage::Sleep { nanos } && drained + nanos == start + interval
            &&& next_stage(mode, asleep, Event::Woke, woke) == Stage::Draw { start: woke }
            &&& woke - start >= interval
            &&& interval * framerate > NANOS_PER_SECOND - framerate
        }),
{
    lemma_frame_interval_bounds(framerate);
    let interval = spec_frame_interval(framerate) as int;
    let f = framerate as int;
    assert((interval + 1) * f == interval * f + f) by (nonlinear_arith);
}

/// The reports are such as a sound clock and a sound sleep give, after a
/// report at clock reading `last`: no reading is earlier than the one
/// before, and the end of a sleep is reported no sooner than the sleep's
/// length after the report before it.
pub open spec fn timely(mode: DrawMode, stage: Stage, last: u64, reports: Seq<Report>) -> bool
    decreases reports.len(),
{
    reports.len() == 0 || {
        let report = reports[0];
        &&& report.now >= last
        &&& match stage {
            Stage::Sleep { nanos } => report.event is Woke ==> report.now >= last + nanos,
            _ => true,
        }
        &&& timely(
            mode,
            next_stage(mode, stage, report.event, report.now),
            report.now,
            reports.drop_first(),
        )
    }
}

/// The clock reading of the last of the reports, or `last` if there is
/// none.
pub open spec fn last_reading(last: u64, reports: Seq<Report>) -> u64 {
    if reports.len() == 0 {
        last
    } else {
        reports.last().now
    }
}

/// No frame of the loop that is under way in `stage` started before
/// `bound`, and none that follows a sleep under way will.
pub open spec fn starts_not_before(stage: Stage, last: u64, bound: int) -> bool {
    match stage {
        Stage::Draw { start } | Stage::Present { start } | Stage::Events { start } => bound
            <= start <= last,
        Stage::Sleep { nanos } => bound <= last + nanos,
        _ => true,
    }
}

proof fn lemma_paced_run(
    framerate: u64,
    stage: Stage,
    last: u64,
    bound: int,
    reports: Seq<Report>,
)
    requires
        framerate > 0,
        stage.in_loop() || stage.is_final(),
        starts_not_before(stage, last, bound),
        timely(DrawMode::Loop { framerate }, stage, last, reports),
    ensures
        ({
            let mode = DrawMode::Loop { framerate };
            starts_not_before(
                run(mode, stage, reports),
                last_reading(last, reports),
                bound + frames_ended(mode, stage, reports) * spec_frame_interval(framerate),
            )
        }),
    decreases reports.len(),
{
    let mode = DrawMode::Loop { framerate };
    let interval = spec_frame_interval(framerate) as int;
    if reports.len() > 0 {
        let report = reports[0];
        let rest = reports.drop_first();
        let next = next_stage(mode, stage, report.event, report.now);
        let ended: int = if ends_frame(stage, report.event) {
            1
        } else {
            0
        };
        let later = frames_ended(mode, next, rest) as int;
        assert(starts_not_before(next, report.now, bound + ended * interval));
        lemma_paced_run(framerate, next, report.now, bound + ended * interval, rest);
        assert(last_reading(report.now, rest) == last_reading(last, reports)) by {
            if rest.len() > 0 {
                assert(rest.last() == reports.last());
            }
        }
        assert(run(mode, stage, reports) == run(mode, next, rest));
        assert(frames_ended(mode, stage, reports) == ended + later);
        assert((ended + later) * interval == ended * interval + later * interval)
            by (nonlinear_arith);
    } else {
        assert(frames_ended(mode, stage, reports) == 0);
        assert(run(mode, stage, reports) == stage);
    }
}

/// Pacing lower bound, for any number of frames. Take a run of the loop
/// from the start of a frame, under a clock that never goes back and
/// sleeps that last as long as asked. Whenever the run stands at the start
/// of a frame again, that frame starts at least one frame interval later
/// for each frame whose work was done in between.
pub proof fn lemma_frames_are_paced(framerate: u64, start: u64, reports: Seq<Report>)
    requires
        framerate > 0,
        timely(DrawMode::Loop { framerate }, Stage::Draw { start }, start, reports),
    ensures
        ({
            let mode = DrawMode::Loop { framerate };
            let frames = frames_ended(mode, Stage::Draw { start }, reports);
            run(mode, Stage::Draw { start }, reports) matches Stage::Draw { start: later }
                ==> later >= start + frames * spec_frame_interval(framerate)
        }),
{
    lemma_paced_run(framerate, Stage::Draw { start }, start, start as int, reports);
}

/// Under such a run, at a rate of no more than one frame in a nanosecond,
/// a frame that starts after the work of another was done starts at a
/// later clock reading than the run did.
pub proof fn lemma_frame_starts_increase(framerate: u64, start: u64, reports: Seq<Report>)
    requires
        0 < framerate <= NANOS_PER_SECOND,
        timely(DrawMode::Loop { framerate }, Stage::Draw { start }, start, reports),
    ensures
        ({
            let mode = DrawMode::Loop { framerate };
            run(mode, Stage::Draw { start }, reports) matches Stage::Draw { start: later }
                ==> frames_ended(mode, Stage::Draw { start }, reports) > 0 ==> later > start
        }),
{
    lemma_frames_are_paced(framerate, start, reports);
    lemma_frame_interval_bounds(framerate);
    let frames = frames_ended(DrawMode::Loop { framerate }, Stage::Draw { start }, reports) as int;
    let interval = spec_frame_interval(framerate) as int;
    let f = framerate as int;
    assert(interval >= 1) by (nonlinear_arith)
        requires
            0 < f <= 1_000_000_000,
            1_000_000_000 < (interval + 1) * f,
    ;
    assert(frames > 0 ==> frames * interval >= 1) by (nonlinear_arith)
        requires
            interval >= 1,
    ;
}

/// No negative sleep. When the work of a frame took the whole interval or
/// more, nothing is slept: the next frame starts at once.
pub proof fn lemma_no_sleep_on_overrun(framerate: u64, start: u64, drained: u64)
    requires
        framerate > 0,
        spec_elapsed(start, drained) >= spec_frame_interval(framerate),
    ensures
        spec_pacing_sleep(spec_elapsed(start, drained), spec_frame_interval(framerate)) == 0,
        next_stage(
            DrawMode::Loop { framerate },
            Stage::Events { start },
            Event::Drained,
            drained,
        ) == (Stage::Draw { start: drained }),
{
}

/// A pacing sleep never exceeds the interval, and with the time already
/// taken it never falls short of it.
pub proof fn lemma_pacing_sleep_bounds(elapsed: u64, interval: u64)
    ensures
        spec_pacing_sleep(elapsed, interval) <= interval,
        elapsed + spec_pacing_sleep(elapsed, interval) >= interval,
        elapsed < interval ==> elapsed + spec_pacing_sleep(elapsed, interval) == interval,
{
}

} // verus!
