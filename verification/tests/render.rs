use work::commands::edit::EditEvent;
use work::commands::pause::PauseOutcome;
use work::commands::start::StartOutcome;
use work::commands::status::{Status, Timer};
use work::commands::stop::StopOutcome;
use work::format::TrackingState;
use work::render::{
    push_blank, push_line, push_owned, push_span, push_time, render_event, render_pause,
    render_start, render_status, render_stop, Span, Tint,
};

fn text_of(line: &Vec<Span>) -> String {
    line.iter().map(|piece| piece.text.as_str()).collect()
}

fn tints_of(line: &Vec<Span>) -> Vec<Tint> {
    line.iter().map(|piece| piece.tint).collect()
}

#[test]
fn a_duration_is_shown_in_five_pieces() {
    let mut line: Vec<Span> = vec![Span { tint: Tint::Plain, text: String::from("took ") }];
    push_time(&mut line, 3 * 3600 + 4 * 60 + 5, Tint::Blue);
    assert_eq!(text_of(&line), "took 03:04:05");
    assert_eq!(
        tints_of(&line),
        vec![Tint::Plain, Tint::Green, Tint::Blue, Tint::Cyan, Tint::Blue, Tint::Magenta]
    );
    assert_eq!(line[1].text, "03");
    assert_eq!(line[2].text, ":");
    assert_eq!(line[3].text, "04");
    assert_eq!(line[4].text, ":");
    assert_eq!(line[5].text, "05");
}

#[test]
fn lines_and_pages_are_built_piece_by_piece() {
    let mut line: Vec<Span> = vec![];
    push_span(&mut line, Tint::Red, "a");
    push_owned(&mut line, Tint::Cyan, String::from("b"));
    assert_eq!(text_of(&line), "ab");
    assert_eq!(tints_of(&line), vec![Tint::Red, Tint::Cyan]);
    let mut page: Vec<Vec<Span>> = vec![];
    push_line(&mut page, line);
    push_blank(&mut page);
    assert_eq!(page.len(), 2);
    assert_eq!(text_of(&page[0]), "ab");
    assert!(page[1].is_empty());
}

#[test]
fn starting_is_reported_with_the_local_time() {
    let message = render_start(StartOutcome::Started { at: 1_700_000_000 }).expect("a message");
    assert!(!message.warning);
    let when = chrono::DateTime::from_timestamp(1_700_000_000, 0)
        .expect("an instant of the calendar")
        .with_timezone(&chrono::Local)
        .format("%a, %e %B %Y %T")
        .to_string();
    assert_eq!(text_of(&message.line), format!("Started timer at {}", when));
    assert_eq!(tints_of(&message.line), vec![Tint::Plain, Tint::Blue]);
    assert!(render_start(StartOutcome::Started { at: i64::MAX }).is_none());
}

#[test]
fn refused_requests_are_warnings_in_red() {
    let message = render_start(StartOutcome::AlreadyTracking).expect("a message");
    assert!(message.warning);
    assert_eq!(text_of(&message.line), "Already tracking time");
    assert_eq!(tints_of(&message.line), vec![Tint::Red]);
    let message = render_pause(PauseOutcome::NotTracking).expect("a message");
    assert!(message.warning);
    assert_eq!(text_of(&message.line), "Not tracking any time to pause");
    assert_eq!(tints_of(&message.line), vec![Tint::Red]);
    let message = render_stop(StopOutcome::NotTracking).expect("a message");
    assert!(message.warning);
    assert_eq!(text_of(&message.line), "Not tracking any time to stop");
    assert_eq!(tints_of(&message.line), vec![Tint::Red]);
}

#[test]
fn a_pause_that_goes_through_says_nothing() {
    assert!(render_pause(PauseOutcome::Paused).is_none());
}

#[test]
fn a_finished_shift_is_reported_with_its_length() {
    let message = render_stop(StopOutcome::Finished { seconds: 5400 }).expect("a message");
    assert!(!message.warning);
    assert_eq!(text_of(&message.line), "Finished shift after 01:30:00");
    assert_eq!(
        tints_of(&message.line),
        vec![Tint::Plain, Tint::Green, Tint::Blue, Tint::Cyan, Tint::Blue, Tint::Magenta]
    );
    assert!(render_stop(StopOutcome::OutOfRange).is_none());
}

#[test]
fn status_shows_the_state_and_the_timer() {
    let page = render_status(Status { state: TrackingState::Stopped, timer: Timer::Idle });
    assert_eq!(page.len(), 1);
    assert_eq!(text_of(&page[0]), "status: stopped");
    let page = render_status(Status {
        state: TrackingState::Tracking,
        timer: Timer::Running { seconds: 75 },
    });
    assert_eq!(page.len(), 2);
    assert_eq!(text_of(&page[0]), "status: tracking");
    assert_eq!(text_of(&page[1]), "timer: 00:01:15");
    assert_eq!(
        tints_of(&page[1]),
        vec![Tint::Plain, Tint::Green, Tint::Blue, Tint::Cyan, Tint::Blue, Tint::Magenta]
    );
    let page = render_status(Status {
        state: TrackingState::Paused,
        timer: Timer::Running { seconds: 360_000 },
    });
    assert_eq!(text_of(&page[0]), "status: paused");
    assert_eq!(text_of(&page[1]), "timer: 100:00:00");
    let page = render_status(Status { state: TrackingState::Paused, timer: Timer::OutOfRange });
    assert_eq!(page.len(), 1);
    assert_eq!(text_of(&page[0]), "status: paused");
}

#[test]
fn only_picking_and_deleting_are_announced() {
    assert!(render_event(EditEvent::Selected { display_index: 0 }).is_some());
    assert_eq!(
        text_of(&render_event(EditEvent::Selected { display_index: 0 }).expect("a line")),
        "Editing 0"
    );
    assert!(render_event(EditEvent::Deleted).is_some());
    assert!(render_event(EditEvent::Exited).is_none());
}
