use shimmer::config::{DrawMode, PhysicalSize, RunMode, WindowConfig};
use shimmer::program::Program;
use shimmer::scheduler::{
    frame_interval, pacing_sleep, step, Action, Event, Report, Scheduler, Stage, NANOS_PER_SECOND,
};

const MS: u64 = 1_000_000;

fn looping(framerate: u64) -> Scheduler {
    Scheduler::for_mode(DrawMode::Loop { framerate }).unwrap()
}

fn once() -> Scheduler {
    Scheduler::for_mode(DrawMode::Once).unwrap()
}

#[test]
fn frame_interval_is_the_part_of_a_second() {
    assert_eq!(NANOS_PER_SECOND, 1_000_000_000);
    assert_eq!(frame_interval(60), 16_666_666);
    assert_eq!(frame_interval(144), 6_944_444);
    assert_eq!(frame_interval(1), 1_000_000_000);
    assert_eq!(frame_interval(1_000_000_000), 1);
    assert_eq!(frame_interval(1_000_000_001), 0);
    assert_eq!(frame_interval(u64::MAX), 0);
}

#[test]
fn pacing_sleep_is_the_remainder() {
    assert_eq!(pacing_sleep(5 * MS, 16_666_666), 11_666_666);
    assert_eq!(pacing_sleep(0, 16_666_666), 16_666_666);
    assert_eq!(pacing_sleep(16_666_665, 16_666_666), 1);
}

#[test]
fn pacing_sleep_is_never_negative() {
    assert_eq!(pacing_sleep(16_666_666, 16_666_666), 0);
    assert_eq!(pacing_sleep(20 * MS, 16_666_666), 0);
    assert_eq!(pacing_sleep(u64::MAX, 16_666_666), 0);
    assert_eq!(pacing_sleep(0, 0), 0);
    assert_eq!(pacing_sleep(7, 0), 0);
}

#[test]
fn no_scheduler_for_zero_frames_per_second() {
    assert!(Scheduler::for_mode(DrawMode::Loop { framerate: 0 }).is_none());
    assert!(!DrawMode::Loop { framerate: 0 }.is_paceable());
    assert!(DrawMode::Loop { framerate: 1 }.is_paceable());
    assert!(DrawMode::Once.is_paceable());
}

#[test]
fn a_scheduler_starts_with_the_first_frame() {
    let scheduler = looping(60);
    assert_eq!(scheduler.mode(), DrawMode::Loop { framerate: 60 });
    assert_eq!(scheduler.stage(), Stage::FirstDraw);
    assert_eq!(scheduler.action(), Action::Draw);
    assert!(!scheduler.is_finished());
    let scheduler = once();
    assert_eq!(scheduler.mode(), DrawMode::Once);
    assert_eq!(scheduler.stage(), Stage::FirstDraw);
    assert_eq!(scheduler.action(), Action::Draw);
}

#[test]
fn once_draws_one_frame_and_then_waits() {
    let mut scheduler = once();
    assert_eq!(scheduler.handle(Event::Drawn, 10), Action::Present);
    assert_eq!(scheduler.handle(Event::Presented, 20), Action::Wait);
    assert_eq!(scheduler.stage(), Stage::Idle);
    for now in 30..60 {
        assert_eq!(scheduler.handle(Event::Resized, now), Action::Wait);
        assert_eq!(scheduler.handle(Event::RedrawRequested, now), Action::Wait);
        assert_eq!(scheduler.handle(Event::Other, now), Action::Wait);
        assert_eq!(scheduler.handle(Event::Drained, now), Action::Wait);
        assert_eq!(scheduler.handle(Event::Woke, now), Action::Wait);
        assert_eq!(scheduler.handle(Event::Drawn, now), Action::Wait);
        assert_eq!(scheduler.handle(Event::Presented, now), Action::Wait);
    }
    assert_eq!(scheduler.handle(Event::CloseRequested, 60), Action::Stop);
    assert!(scheduler.is_finished());
}

#[test]
fn loop_paces_a_fast_frame() {
    let mut scheduler = looping(60);
    assert_eq!(scheduler.handle(Event::Drawn, 0), Action::Present);
    assert_eq!(scheduler.handle(Event::Presented, MS), Action::Draw);
    assert_eq!(scheduler.stage(), Stage::Draw { start: MS });
    assert_eq!(scheduler.handle(Event::Drawn, 4 * MS), Action::Present);
    assert_eq!(scheduler.stage(), Stage::Present { start: MS });
    assert_eq!(scheduler.handle(Event::Presented, 6 * MS), Action::Poll);
    assert_eq!(scheduler.stage(), Stage::Events { start: MS });
    assert_eq!(scheduler.handle(Event::Drained, 6 * MS), Action::Sleep { nanos: 11_666_666 });
    assert_eq!(scheduler.stage(), Stage::Sleep { nanos: 11_666_666 });
    assert_eq!(scheduler.handle(Event::Woke, 6 * MS + 11_666_666), Action::Draw);
    assert_eq!(scheduler.stage(), Stage::Draw { start: MS + 16_666_666 });
}

#[test]
fn loop_does_not_sleep_after_a_slow_frame() {
    let mut scheduler = looping(60);
    scheduler.handle(Event::Drawn, 0);
    scheduler.handle(Event::Presented, 0);
    scheduler.handle(Event::Drawn, 10 * MS);
    scheduler.handle(Event::Presented, 20 * MS);
    assert_eq!(scheduler.handle(Event::Drained, 20 * MS), Action::Draw);
    assert_eq!(scheduler.stage(), Stage::Draw { start: 20 * MS });
    scheduler.handle(Event::Drawn, 30 * MS);
    scheduler.handle(Event::Presented, 36 * MS);
    assert_eq!(scheduler.handle(Event::Drained, 20 * MS + 16_666_666), Action::Draw);
    assert_eq!(scheduler.stage(), Stage::Draw { start: 20 * MS + 16_666_666 });
}

#[test]
fn a_clock_that_runs_backwards_counts_as_no_time() {
    let mut scheduler = looping(100);
    scheduler.handle(Event::Drawn, 0);
    scheduler.handle(Event::Presented, 50 * MS);
    scheduler.handle(Event::Drawn, 50 * MS);
    scheduler.handle(Event::Presented, 50 * MS);
    assert_eq!(scheduler.handle(Event::Drained, 40 * MS), Action::Sleep { nanos: 10 * MS });
}

#[test]
fn a_failed_present_is_not_fatal() {
    let mut scheduler = looping(60);
    scheduler.handle(Event::Drawn, 0);
    assert_eq!(scheduler.handle(Event::PresentFailed, 0), Action::Draw);
    scheduler.handle(Event::Drawn, 0);
    assert_eq!(scheduler.handle(Event::PresentFailed, 0), Action::Poll);
    assert!(!scheduler.is_finished());
    let mut scheduler = once();
    scheduler.handle(Event::Drawn, 0);
    assert_eq!(scheduler.handle(Event::PresentFailed, 0), Action::Wait);
}

#[test]
fn a_failed_draw_ends_the_run() {
    let mut scheduler = looping(60);
    assert_eq!(scheduler.handle(Event::DrawFailed, 0), Action::Fail);
    assert_eq!(scheduler.stage(), Stage::Failed);
    assert!(scheduler.is_finished());
    assert_eq!(scheduler.handle(Event::Drawn, 1), Action::Fail);
    assert_eq!(scheduler.handle(Event::CloseRequested, 2), Action::Fail);

    let mut scheduler = looping(60);
    scheduler.handle(Event::Drawn, 0);
    scheduler.handle(Event::Presented, 0);
    assert_eq!(scheduler.handle(Event::DrawFailed, 0), Action::Fail);
    assert_eq!(scheduler.handle(Event::Presented, 1), Action::Fail);
}

#[test]
fn close_stops_the_run_for_good() {
    let mut scheduler = looping(60);
    scheduler.handle(Event::Drawn, 0);
    scheduler.handle(Event::Presented, 0);
    scheduler.handle(Event::Drawn, 0);
    scheduler.handle(Event::Presented, 0);
    assert_eq!(scheduler.handle(Event::Resized, 0), Action::Poll);
    assert_eq!(scheduler.handle(Event::CloseRequested, 0), Action::Stop);
    assert_eq!(scheduler.stage(), Stage::Stopped);
    for event in [
        Event::Drawn,
        Event::DrawFailed,
        Event::Presented,
        Event::PresentFailed,
        Event::CloseRequested,
        Event::Resized,
        Event::RedrawRequested,
        Event::Other,
        Event::Drained,
        Event::Woke,
    ] {
        assert_eq!(scheduler.handle(event, 1), Action::Stop);
    }
}

#[test]
fn close_stops_the_run_in_every_stage() {
    for stage in [
        Stage::FirstDraw,
        Stage::FirstPresent,
        Stage::Draw { start: 3 },
        Stage::Present { start: 3 },
        Stage::Events { start: 3 },
        Stage::Sleep { nanos: 3 },
        Stage::Stopped,
    ] {
        assert_eq!(
            step(DrawMode::Loop { framerate: 60 }, stage, Event::CloseRequested, 9),
            Stage::Stopped
        );
    }
    assert_eq!(step(DrawMode::Once, Stage::Idle, Event::CloseRequested, 9), Stage::Stopped);
    assert_eq!(step(DrawMode::Once, Stage::Failed, Event::CloseRequested, 9), Stage::Failed);
}

#[test]
fn events_that_answer_nothing_change_nothing() {
    let mut scheduler = looping(60);
    for event in [Event::Presented, Event::Drained, Event::Woke, Event::Resized, Event::Other] {
        assert_eq!(scheduler.handle(event, 5), Action::Draw);
        assert_eq!(scheduler.stage(), Stage::FirstDraw);
    }
    scheduler.handle(Event::Drawn, 5);
    for event in [Event::Drawn, Event::DrawFailed, Event::Drained, Event::Woke] {
        assert_eq!(scheduler.handle(event, 5), Action::Present);
    }
    scheduler.handle(Event::Presented, 5);
    scheduler.handle(Event::Drawn, 5);
    scheduler.handle(Event::Presented, 5);
    for event in [Event::Drawn, Event::Presented, Event::Woke, Event::RedrawRequested] {
        assert_eq!(scheduler.handle(event, 6), Action::Poll);
    }
    assert_eq!(scheduler.handle(Event::Drained, 6), Action::Sleep { nanos: 16_666_665 });
    for event in [Event::Drawn, Event::Presented, Event::Drained, Event::Resized] {
        assert_eq!(scheduler.handle(event, 7), Action::Sleep { nanos: 16_666_665 });
    }
}

#[test]
fn replay_takes_reports_in_order() {
    let mut scheduler = looping(50);
    let reports = vec![
        Report { event: Event::Drawn, now: 0 },
        Report { event: Event::Presented, now: 1 },
        Report { event: Event::Drawn, now: 2 },
        Report { event: Event::Presented, now: 3 },
        Report { event: Event::Drained, now: 4 },
    ];
    assert_eq!(scheduler.replay(&reports), Action::Sleep { nanos: 20 * MS - 3 });
    assert_eq!(scheduler.replay(&Vec::new()), Action::Sleep { nanos: 20 * MS - 3 });
    let mut same = looping(50);
    for report in reports {
        same.handle(report.event, report.now);
    }
    assert_eq!(same.stage(), scheduler.stage());
}

#[test]
fn each_frame_is_drawn_once() {
    let mut scheduler = looping(1000);
    let mut draws = 0u32;
    let mut presents = 0u32;
    let mut turns = 0u32;
    let mut now = 0u64;
    while turns < 100 {
        now += 100_000;
        match scheduler.action() {
            Action::Draw => {
                draws += 1;
                scheduler.handle(Event::Drawn, now);
            }
            Action::Present => {
                presents += 1;
                scheduler.handle(Event::Presented, now);
            }
            Action::Poll => {
                scheduler.handle(Event::Resized, now);
                scheduler.handle(Event::Drained, now);
                turns += 1;
            }
            Action::Sleep { nanos } => {
                now += nanos;
                scheduler.handle(Event::Woke, now);
            }
            other => panic!("unexpected {:?}", other),
        }
    }
    assert_eq!(draws, 101);
    assert_eq!(presents, 101);
}

#[test]
fn frames_start_an_interval_apart() {
    let mut scheduler = looping(60);
    let mut now = 0u64;
    scheduler.handle(Event::Drawn, now);
    scheduler.handle(Event::Presented, now);
    let mut starts = Vec::new();
    for _ in 0..10 {
        match scheduler.stage() {
            Stage::Draw { start } => starts.push(start),
            other => panic!("unexpected {:?}", other),
        }
        now += 3 * MS;
        scheduler.handle(Event::Drawn, now);
        now += 2 * MS;
        scheduler.handle(Event::Presented, now);
        match scheduler.handle(Event::Drained, now) {
            Action::Sleep { nanos } => {
                assert_eq!(nanos, 11_666_666);
                now += nanos;
            }
            other => panic!("unexpected {:?}", other),
        }
        scheduler.handle(Event::Woke, now);
    }
    for pair in starts.windows(2) {
        assert_eq!(pair[1] - pair[0], 16_666_666);
    }
}

#[test]
fn serving_a_window_at_sixty_frames_per_second() {
    let config = WindowConfig {
        title: "t".to_string(),
        size: PhysicalSize::new(800, 600),
        draw_mode: DrawMode::Loop { framerate: 60 },
    };
    let program = Program::new(Ok(()), RunMode::Windowed(Some(config))).unwrap()
        .with_vertices(|_| ())
        .with_draw_settings(|_| ());
    assert!(program.can_serve());
    let (_program, mut scheduler) = program.serve();
    let mut log = Vec::new();
    let mut now = 0u64;
    let mut frames = 0u32;
    loop {
        let action = scheduler.action();
        log.push(action);
        match action {
            Action::Draw => {
                frames += 1;
                now += 3 * MS;
                scheduler.handle(Event::Drawn, now);
            }
            Action::Present => {
                now += 2 * MS;
                scheduler.handle(Event::Presented, now);
            }
            Action::Poll => {
                if frames == 4 {
                    scheduler.handle(Event::CloseRequested, now);
                }
                scheduler.handle(Event::Drained, now);
            }
            Action::Sleep { nanos } => {
                now += nanos;
                scheduler.handle(Event::Woke, now);
            }
            Action::Stop => break,
            other => panic!("unexpected {:?}", other),
        }
    }
    let pause = Action::Sleep { nanos: 11_666_666 };
    assert_eq!(
        log,
        vec![
            Action::Draw,
            Action::Present,
            Action::Draw,
            Action::Present,
            Action::Poll,
            pause,
            Action::Draw,
            Action::Present,
            Action::Poll,
            pause,
            Action::Draw,
            Action::Present,
            Action::Poll,
            Action::Stop,
        ]
    );
    assert_eq!(now, 5 * MS + 2 * 16_666_666 + 5 * MS);
    assert!(scheduler.is_finished());
    assert_eq!(scheduler.handle(Event::Woke, now), Action::Stop);
    assert_eq!(scheduler.handle(Event::Drawn, now), Action::Stop);
}
