use work::commands::pause::{pause, pause_at, PauseOutcome};
use work::commands::start::{start, start_at, StartOutcome};
use work::commands::status::{status, status_at, Status, Timer};
use work::commands::stop::{stop, stop_at, StopOutcome};
use work::commands::tasks::TaskOptions;
use work::format::{
    calculate_shift_length, measure_shift, read_file, update_last_block, FileFormat, PastTimeBlock,
    TimeBlock, TrackingState, CURRENT_VERSION,
};

const T: i64 = 1_700_000_000;

fn block(start: i64, end: i64) -> TimeBlock {
    TimeBlock { start, end, finished_tasks: vec![] }
}

#[test]
fn start_opens_a_block() {
    let mut data = FileFormat::new();
    let outcome = start_at(&mut data, T);
    assert_eq!(outcome, StartOutcome::Started { at: T });
    assert_eq!(data.state, TrackingState::Tracking);
    assert_eq!(data.times.len(), 1);
    assert_eq!(data.times[0].start, T);
    assert_eq!(data.times[0].end, T);
    assert!(data.times[0].finished_tasks.is_empty());
    assert!(data.past.is_empty());
    assert!(data.is_well_formed());
}

#[test]
fn new_record_is_the_empty_default() {
    let data = FileFormat::new();
    assert_eq!(data.version, CURRENT_VERSION);
    assert_eq!(data.state, TrackingState::Stopped);
    assert!(data.tasks.is_empty());
    assert!(data.times.is_empty());
    assert!(data.past.is_empty());
    assert!(data.is_well_formed());
}

#[test]
fn start_while_tracking_changes_nothing() {
    let mut data = FileFormat::new();
    start_at(&mut data, T);
    let outcome = start_at(&mut data, T + 50);
    assert_eq!(outcome, StartOutcome::AlreadyTracking);
    assert_eq!(data.state, TrackingState::Tracking);
    assert_eq!(data.times.len(), 1);
    assert_eq!(data.times[0].end, T);
    assert!(data.past.is_empty());
}

#[test]
fn pause_while_stopped_changes_nothing() {
    let mut data = FileFormat::new();
    let outcome = pause_at(&mut data, T);
    assert_eq!(outcome, PauseOutcome::NotTracking);
    assert_eq!(data.state, TrackingState::Stopped);
    assert!(data.times.is_empty());
    assert!(data.past.is_empty());
}

#[test]
fn stop_while_stopped_changes_nothing() {
    let mut data = FileFormat::new();
    let outcome = stop_at(&mut data, String::from("nothing"), T);
    assert_eq!(outcome, StopOutcome::NotTracking);
    assert_eq!(data.state, TrackingState::Stopped);
    assert!(data.times.is_empty());
    assert!(data.past.is_empty());
}

#[test]
fn pause_closes_the_running_block() {
    let mut data = FileFormat::new();
    start_at(&mut data, T);
    let outcome = pause_at(&mut data, T + 3600);
    assert_eq!(outcome, PauseOutcome::Paused);
    assert_eq!(data.state, TrackingState::Paused);
    assert_eq!(data.times.len(), 1);
    assert_eq!(data.times[0].start, T);
    assert_eq!(data.times[0].end, T + 3600);
    assert!(data.is_well_formed());
}

#[test]
fn pause_while_paused_moves_the_end_again() {
    let mut data = FileFormat::new();
    start_at(&mut data, T);
    pause_at(&mut data, T + 10);
    let outcome = pause_at(&mut data, T + 25);
    assert_eq!(outcome, PauseOutcome::Paused);
    assert_eq!(data.state, TrackingState::Paused);
    assert_eq!(data.times[0].end, T + 25);
}

#[test]
fn shift_with_a_break_is_recorded_with_the_sum_of_its_parts() {
    let mut data = FileFormat::new();
    assert_eq!(start_at(&mut data, T), StartOutcome::Started { at: T });
    assert_eq!(pause_at(&mut data, T + 3600), PauseOutcome::Paused);
    assert_eq!(start_at(&mut data, T + 4200), StartOutcome::Started { at: T + 4200 });
    let outcome = stop_at(&mut data, String::from("worked"), T + 4200 + 1800);
    assert_eq!(outcome, StopOutcome::Finished { seconds: 5400 });
    assert_eq!(data.past.len(), 1);
    assert_eq!(data.past[0].seconds, 5400);
    assert_eq!(data.past[0].comment, "worked");
    assert_eq!(data.past[0].date, T);
    assert!(data.past[0].finished_tasks.is_empty());
    assert!(data.times.is_empty());
    assert_eq!(data.state, TrackingState::Stopped);
    assert!(data.is_well_formed());
}

#[test]
fn three_stretches_add_up() {
    let mut data = FileFormat::new();
    start_at(&mut data, 100);
    pause_at(&mut data, 160);
    start_at(&mut data, 1000);
    pause_at(&mut data, 1007);
    start_at(&mut data, 5000);
    let outcome = stop_at(&mut data, String::new(), 5300);
    assert_eq!(outcome, StopOutcome::Finished { seconds: 60 + 7 + 300 });
    assert_eq!(data.past[0].date, 100);
    assert_eq!(data.past[0].comment, "");
}

#[test]
fn stop_while_paused_does_not_extend_the_last_block() {
    let mut data = FileFormat::new();
    start_at(&mut data, T);
    pause_at(&mut data, T + 100);
    let outcome = stop_at(&mut data, String::from("done"), T + 9999);
    assert_eq!(outcome, StopOutcome::Finished { seconds: 100 });
    assert_eq!(data.past[0].seconds, 100);
}

#[test]
fn stop_appends_after_the_shifts_that_are_there() {
    let mut data = FileFormat::new();
    data.past.push(PastTimeBlock {
        date: 5,
        seconds: 7,
        comment: String::from("old"),
        finished_tasks: vec![],
    });
    start_at(&mut data, T);
    stop_at(&mut data, String::from("new"), T + 1);
    assert_eq!(data.past.len(), 2);
    assert_eq!(data.past[0].comment, "old");
    assert_eq!(data.past[0].seconds, 7);
    assert_eq!(data.past[1].comment, "new");
    assert_eq!(data.past[1].seconds, 1);
}

#[test]
fn stop_with_a_length_beyond_i64_changes_nothing() {
    let mut data = FileFormat::new();
    start_at(&mut data, i64::MIN);
    let outcome = stop_at(&mut data, String::from("long"), i64::MAX);
    assert_eq!(outcome, StopOutcome::OutOfRange);
    assert_eq!(data.state, TrackingState::Tracking);
    assert_eq!(data.times.len(), 1);
    assert_eq!(data.times[0].start, i64::MIN);
    assert_eq!(data.times[0].end, i64::MIN);
    assert!(data.past.is_empty());
}

#[test]
fn clock_going_backwards_gives_a_negative_length() {
    let mut data = FileFormat::new();
    start_at(&mut data, T);
    let outcome = stop_at(&mut data, String::new(), T - 30);
    assert_eq!(outcome, StopOutcome::Finished { seconds: -30 });
}

#[test]
fn status_of_a_stopped_record_is_idle() {
    let mut data = FileFormat::new();
    let report = status_at(&mut data, T);
    assert_eq!(report, Status { state: TrackingState::Stopped, timer: Timer::Idle });
    assert!(data.times.is_empty());
}

#[test]
fn status_while_tracking_brings_the_block_up_to_now() {
    let mut data = FileFormat::new();
    start_at(&mut data, T);
    let report = status_at(&mut data, T + 42);
    assert_eq!(
        report,
        Status { state: TrackingState::Tracking, timer: Timer::Running { seconds: 42 } }
    );
    assert_eq!(data.times[0].end, T + 42);
    assert_eq!(data.state, TrackingState::Tracking);
    assert!(data.past.is_empty());
}

#[test]
fn status_while_paused_leaves_the_block_alone() {
    let mut data = FileFormat::new();
    start_at(&mut data, T);
    pause_at(&mut data, T + 10);
    let report = status_at(&mut data, T + 500);
    assert_eq!(
        report,
        Status { state: TrackingState::Paused, timer: Timer::Running { seconds: 10 } }
    );
    assert_eq!(data.times[0].end, T + 10);
}

#[test]
fn status_with_a_length_beyond_i64_changes_nothing() {
    let mut data = FileFormat::new();
    start_at(&mut data, i64::MIN);
    let report = status_at(&mut data, i64::MAX);
    assert_eq!(report, Status { state: TrackingState::Tracking, timer: Timer::OutOfRange });
    assert_eq!(data.times[0].end, i64::MIN);
}

#[test]
fn shift_length_is_the_sum_of_the_blocks() {
    assert_eq!(calculate_shift_length(&vec![]), Some(0));
    assert_eq!(calculate_shift_length(&vec![block(10, 25)]), Some(15));
    assert_eq!(calculate_shift_length(&vec![block(10, 25), block(100, 400)]), Some(315));
    assert_eq!(calculate_shift_length(&vec![block(10, 5), block(0, 3)]), Some(-2));
}

#[test]
fn lengths_that_cancel_on_the_way_do_no_harm() {
    let back = vec![block(0, i64::MAX), block(0, 1), block(1, 0)];
    assert_eq!(calculate_shift_length(&back), Some(i64::MAX));
    let down = vec![block(0, i64::MIN), block(0, -1), block(-1, 0)];
    assert_eq!(calculate_shift_length(&down), Some(i64::MIN));
    let wide = vec![block(i64::MIN, i64::MAX), block(i64::MAX, i64::MIN), block(3, 10)];
    assert_eq!(calculate_shift_length(&wide), Some(7));
    let fits = vec![block(0, i64::MAX), block(1, 0)];
    assert_eq!(calculate_shift_length(&fits), Some(i64::MAX - 1));
}

#[test]
fn a_shift_length_beyond_i64_is_none() {
    assert_eq!(calculate_shift_length(&vec![block(0, i64::MAX), block(0, 1)]), None);
    assert_eq!(calculate_shift_length(&vec![block(0, 1), block(0, i64::MAX)]), None);
    assert_eq!(calculate_shift_length(&vec![block(i64::MAX, i64::MIN)]), None);
    assert_eq!(calculate_shift_length(&vec![block(i64::MIN, i64::MAX)]), None);
    assert_eq!(calculate_shift_length(&vec![block(0, i64::MIN), block(1, 0)]), None);
    assert_eq!(calculate_shift_length(&vec![block(0, i64::MIN)]), Some(i64::MIN));
    assert_eq!(calculate_shift_length(&vec![block(0, i64::MAX)]), Some(i64::MAX));
}

#[test]
fn a_paused_shift_is_recorded_whatever_the_clock_says() {
    let mut data = FileFormat::new();
    start_at(&mut data, 100);
    pause_at(&mut data, 160);
    start_at(&mut data, 1000);
    pause_at(&mut data, 1007);
    for now in [i64::MIN, -1, 0, 1007, i64::MAX] {
        let mut copy = FileFormat::new();
        for b in &data.times {
            copy.times.push(block(b.start, b.end));
        }
        copy.state = TrackingState::Paused;
        assert_eq!(
            stop_at(&mut copy, String::from("p"), now),
            StopOutcome::Finished { seconds: 67 }
        );
        assert_eq!(copy.past.len(), 1);
        assert_eq!(copy.past[0].date, 100);
        assert_eq!(copy.past[0].seconds, 67);
        assert!(copy.times.is_empty());
        assert_eq!(copy.state, TrackingState::Stopped);
    }
    assert_eq!(stop(&mut data, String::from("by the clock")), StopOutcome::Finished { seconds: 67 });
    assert_eq!(data.past[0].date, 100);
}

#[test]
fn a_running_shift_ends_at_the_stop() {
    let mut data = FileFormat::new();
    start_at(&mut data, 100);
    pause_at(&mut data, 160);
    start_at(&mut data, 1000);
    data.times[1].end = 5000;
    assert_eq!(
        stop_at(&mut data, String::new(), 1300),
        StopOutcome::Finished { seconds: 60 + 300 }
    );
    assert_eq!(data.past[0].date, 100);
}

#[test]
fn update_last_block_touches_only_the_last_end() {
    let mut times = vec![block(1, 2), block(3, 4)];
    update_last_block(&mut times, 99);
    assert_eq!(times[0].start, 1);
    assert_eq!(times[0].end, 2);
    assert_eq!(times[1].start, 3);
    assert_eq!(times[1].end, 99);
    let mut none: Vec<TimeBlock> = vec![];
    update_last_block(&mut none, 99);
    assert!(none.is_empty());
}

#[test]
fn measure_shift_restores_the_end_where_the_length_does_not_fit() {
    let mut times = vec![block(i64::MIN, 0)];
    assert_eq!(measure_shift(&mut times, true, i64::MAX), None);
    assert_eq!(times[0].end, 0);
    assert_eq!(measure_shift(&mut times, true, i64::MIN + 5), Some(5));
    assert_eq!(times[0].end, i64::MIN + 5);
    assert_eq!(measure_shift(&mut times, false, 77), Some(5));
    assert_eq!(times[0].end, i64::MIN + 5);
}

#[test]
fn a_file_that_cannot_be_decoded_is_an_empty_history() {
    let data = read_file(None);
    assert_eq!(data.version, CURRENT_VERSION);
    assert_eq!(data.state, TrackingState::Stopped);
    assert!(data.tasks.is_empty());
    assert!(data.times.is_empty());
    assert!(data.past.is_empty());
}

#[test]
fn a_decoded_record_is_taken_as_it_is() {
    let mut stored = FileFormat::new();
    stored.version = String::from("9.9.9");
    start_at(&mut stored, T);
    stored.tasks.push(String::from("task"));
    let data = read_file(Some(stored));
    assert_eq!(data.version, "9.9.9");
    assert_eq!(data.state, TrackingState::Tracking);
    assert_eq!(data.tasks, vec![String::from("task")]);
    assert_eq!(data.times.len(), 1);
    assert_eq!(data.times[0].start, T);
}

#[test]
fn well_formedness_is_told_from_state_and_blocks() {
    let mut data = FileFormat::new();
    assert!(data.is_well_formed());
    data.state = TrackingState::Tracking;
    assert!(!data.is_well_formed());
    data.times.push(block(1, 2));
    assert!(data.is_well_formed());
    data.state = TrackingState::Paused;
    assert!(data.is_well_formed());
    data.state = TrackingState::Stopped;
    assert!(!data.is_well_formed());
}

#[test]
fn states_have_names_and_codes() {
    assert_eq!(TrackingState::Tracking.name(), "tracking");
    assert_eq!(TrackingState::Stopped.name(), "stopped");
    assert_eq!(TrackingState::Paused.name(), "paused");
    assert_eq!(TrackingState::Tracking.code(), 1);
    assert_eq!(TrackingState::Stopped.code(), 2);
    assert_eq!(TrackingState::Paused.code(), 3);
    assert_eq!(TrackingState::from_code(1), Some(TrackingState::Tracking));
    assert_eq!(TrackingState::from_code(2), Some(TrackingState::Stopped));
    assert_eq!(TrackingState::from_code(3), Some(TrackingState::Paused));
    assert_eq!(TrackingState::from_code(0), None);
    assert_eq!(TrackingState::from_code(4), None);
}

#[test]
fn task_options_have_their_command_names() {
    assert_eq!(TaskOptions::Add.name(), "add");
    assert_eq!(TaskOptions::Remove.name(), "rm");
    assert_eq!(TaskOptions::List.name(), "ls");
    assert_eq!(TaskOptions::Complete.name(), "finish");
}

#[test]
fn the_clock_is_read_for_a_whole_shift() {
    let before = chrono::Utc::now().timestamp();
    let mut data = FileFormat::new();
    let at = match start(&mut data) {
        StartOutcome::Started { at } => at,
        StartOutcome::AlreadyTracking => panic!("a new record was tracking already"),
    };
    assert!(before <= at);
    assert_eq!(data.times[0].start, at);
    assert_eq!(start(&mut data), StartOutcome::AlreadyTracking);
    let report = status(&mut data);
    assert_eq!(report.state, TrackingState::Tracking);
    assert!(matches!(report.timer, Timer::Running { seconds } if (0..60).contains(&seconds)));
    assert_eq!(pause(&mut data), PauseOutcome::Paused);
    assert!(data.times[0].end >= at);
    let outcome = stop(&mut data, String::from("by the clock"));
    let after = chrono::Utc::now().timestamp();
    match outcome {
        StopOutcome::Finished { seconds } => {
            assert!(0 <= seconds && seconds <= after - before);
            assert_eq!(data.past[0].seconds, seconds);
        }
        _ => panic!("the shift was not finished"),
    }
    assert_eq!(data.past[0].date, at);
    assert_eq!(data.past[0].comment, "by the clock");
    assert_eq!(pause(&mut data), PauseOutcome::NotTracking);
    assert_eq!(stop(&mut data, String::new()), StopOutcome::NotTracking);
    assert_eq!(status(&mut data), Status { state: TrackingState::Stopped, timer: Timer::Idle });
}
