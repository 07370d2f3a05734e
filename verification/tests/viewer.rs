use riff::viewer::{
    is_quit, poll_timeout, Action, Event, Key, Phase, Resource, Step, Viewer, TICK_MILLIS,
};

fn running(now: u64) -> (Viewer, Action) {
    let mut viewer = Viewer::new();
    let mut action = viewer.pending(now);
    for _ in 0..4 {
        action = viewer.step(Event::Done, now);
    }
    (viewer, action)
}

fn polling(now: u64) -> (Viewer, Action) {
    let (mut viewer, _) = running(now);
    let action = viewer.step(Event::Done, now);
    (viewer, action)
}

#[test]
fn tick_is_a_quarter_of_a_second() {
    assert_eq!(TICK_MILLIS, 250);
}

#[test]
fn new_viewer_is_about_to_enter_raw_mode() {
    let viewer = Viewer::new();
    assert_eq!(viewer.phase(), Phase::Initializing);
    assert_eq!(viewer.step, Step::Acquiring(Resource::RawMode));
    assert_eq!(viewer.pending(0), Action::Acquire(Resource::RawMode));
    assert!(!viewer.failed);
    assert!(!viewer.session.raw_mode);
    assert!(!viewer.session.alternate_screen);
    assert!(!viewer.session.mouse_capture);
    assert!(!viewer.session.cursor_hidden);
}

#[test]
fn start_up_takes_hold_of_the_terminal_in_order() {
    let mut viewer = Viewer::new();
    assert_eq!(viewer.step(Event::Done, 5), Action::Acquire(Resource::AlternateScreen));
    assert!(viewer.session.raw_mode && !viewer.session.alternate_screen);
    assert_eq!(viewer.step(Event::Done, 6), Action::Acquire(Resource::MouseCapture));
    assert!(viewer.session.alternate_screen && !viewer.session.mouse_capture);
    assert_eq!(viewer.step(Event::Done, 7), Action::Acquire(Resource::HiddenCursor));
    assert!(viewer.session.mouse_capture && !viewer.session.cursor_hidden);
    assert_eq!(viewer.phase(), Phase::Initializing);
    assert_eq!(viewer.step(Event::Done, 8), Action::Draw { requery_size: true });
    assert!(viewer.session.cursor_hidden);
    assert_eq!(viewer.phase(), Phase::Running);
    assert_eq!(viewer.session.last_tick, 8);
    assert!(!viewer.failed);
}

#[test]
fn quit_key_goes_straight_to_shut_down_and_restores_the_terminal() {
    let (mut viewer, action) = polling(1000);
    assert_eq!(action, Action::Poll { timeout_millis: 250 });
    assert_eq!(viewer.phase(), Phase::Running);
    assert_eq!(viewer.step(Event::Key(Key::Char('q')), 1100), Action::Release(Resource::HiddenCursor));
    assert_eq!(viewer.phase(), Phase::ShuttingDown);
    assert_eq!(viewer.step(Event::Done, 1100), Action::Release(Resource::MouseCapture));
    assert_eq!(viewer.step(Event::Done, 1100), Action::Release(Resource::AlternateScreen));
    assert_eq!(viewer.phase(), Phase::ShuttingDown);
    assert!(viewer.session.raw_mode);
    assert_eq!(viewer.step(Event::Done, 1100), Action::Release(Resource::RawMode));
    assert_eq!(viewer.step(Event::Done, 1100), Action::Exit { failed: false });
    assert_eq!(viewer.phase(), Phase::Terminated);
    assert!(!viewer.session.raw_mode);
    assert!(!viewer.session.alternate_screen);
    assert!(!viewer.session.mouse_capture);
    assert!(!viewer.session.cursor_hidden);
}

#[test]
fn escape_quits_as_q_does() {
    let (mut viewer, _) = polling(0);
    assert_eq!(viewer.step(Event::Key(Key::Esc), 10), Action::Release(Resource::HiddenCursor));
    assert_eq!(viewer.phase(), Phase::ShuttingDown);
    assert!(!viewer.failed);
}

#[test]
fn resize_causes_exactly_one_redraw_with_a_new_size() {
    let (mut viewer, _) = polling(1000);
    let before = viewer;
    assert_eq!(viewer.step(Event::Resize, 1010), Action::Draw { requery_size: true });
    assert_eq!(viewer.phase(), Phase::Running);
    assert_eq!(viewer.session, before.session);
    assert_eq!(viewer.step(Event::Done, 1020), Action::Poll { timeout_millis: 230 });
    assert_eq!(viewer.step, Step::Polling);
}

#[test]
fn other_input_redraws_without_a_new_size() {
    for event in [Event::Key(Key::Char('x')), Event::Key(Key::Other), Event::Tick, Event::Other] {
        let (mut viewer, _) = polling(0);
        assert_eq!(viewer.step(event, 10), Action::Draw { requery_size: false });
        assert_eq!(viewer.phase(), Phase::Running);
        assert_eq!(viewer.step(Event::Done, 10), Action::Poll { timeout_millis: 240 });
    }
}

#[test]
fn only_q_and_escape_quit() {
    assert!(is_quit(Key::Char('q')));
    assert!(is_quit(Key::Esc));
    assert!(!is_quit(Key::Char('Q')));
    assert!(!is_quit(Key::Char('x')));
    assert!(!is_quit(Key::Char('\u{1b}')));
    assert!(!is_quit(Key::Other));
}

#[test]
fn wait_lasts_until_the_next_tick_is_due() {
    assert_eq!(poll_timeout(1000, 1000), 250);
    assert_eq!(poll_timeout(1000, 1001), 249);
    assert_eq!(poll_timeout(1000, 1249), 1);
    assert_eq!(poll_timeout(1000, 1250), 0);
    assert_eq!(poll_timeout(1000, 5000), 0);
    assert_eq!(poll_timeout(1000, 999), 250);
    assert_eq!(poll_timeout(0, u64::MAX), 0);
    assert_eq!(poll_timeout(u64::MAX, 0), 250);
}

#[test]
fn tick_starts_anew_once_it_is_due() {
    let (mut viewer, _) = polling(1000);
    viewer.step(Event::Tick, 1200);
    assert_eq!(viewer.session.last_tick, 1000);
    assert_eq!(viewer.step(Event::Done, 1210), Action::Poll { timeout_millis: 40 });
    viewer.step(Event::Tick, 1250);
    assert_eq!(viewer.session.last_tick, 1250);
    assert_eq!(viewer.step(Event::Done, 1260), Action::Poll { timeout_millis: 240 });
    viewer.step(Event::Key(Key::Other), 2000);
    assert_eq!(viewer.session.last_tick, 2000);
}

#[test]
fn failure_at_the_first_step_leaves_nothing_to_give_back() {
    let mut viewer = Viewer::new();
    assert_eq!(viewer.step(Event::Failed, 0), Action::Exit { failed: true });
    assert_eq!(viewer.phase(), Phase::Terminated);
    assert!(viewer.failed);
    assert!(!viewer.session.raw_mode);
}

#[test]
fn failure_during_start_up_gives_back_what_was_acquired() {
    let mut viewer = Viewer::new();
    viewer.step(Event::Done, 0);
    assert_eq!(viewer.step(Event::Done, 0), Action::Acquire(Resource::MouseCapture));
    assert_eq!(viewer.step(Event::Failed, 0), Action::Release(Resource::AlternateScreen));
    assert_eq!(viewer.phase(), Phase::ShuttingDown);
    assert!(viewer.failed);
    assert!(!viewer.session.mouse_capture);
    assert_eq!(viewer.step(Event::Done, 0), Action::Release(Resource::RawMode));
    assert_eq!(viewer.step(Event::Done, 0), Action::Exit { failed: true });
    assert!(!viewer.session.raw_mode && !viewer.session.alternate_screen);
}

#[test]
fn failure_to_draw_shuts_down_with_an_error() {
    let (mut viewer, action) = running(0);
    assert_eq!(action, Action::Draw { requery_size: true });
    assert_eq!(viewer.step(Event::Failed, 1), Action::Release(Resource::HiddenCursor));
    viewer.step(Event::Done, 1);
    viewer.step(Event::Done, 1);
    viewer.step(Event::Done, 1);
    assert_eq!(viewer.step(Event::Done, 1), Action::Exit { failed: true });
    assert_eq!(viewer.phase(), Phase::Terminated);
}

#[test]
fn failure_to_read_input_shuts_down_with_an_error() {
    let (mut viewer, _) = polling(0);
    assert_eq!(viewer.step(Event::Failed, 1), Action::Release(Resource::HiddenCursor));
    assert!(viewer.failed);
    assert_eq!(viewer.phase(), Phase::ShuttingDown);
}

#[test]
fn failure_to_give_back_does_not_stop_the_shut_down() {
    let (mut viewer, _) = polling(0);
    viewer.step(Event::Key(Key::Char('q')), 1);
    assert_eq!(viewer.step(Event::Failed, 1), Action::Release(Resource::MouseCapture));
    assert!(viewer.failed);
    assert_eq!(viewer.step(Event::Done, 1), Action::Release(Resource::AlternateScreen));
    assert_eq!(viewer.step(Event::Failed, 1), Action::Release(Resource::RawMode));
    assert_eq!(viewer.step(Event::Failed, 1), Action::Exit { failed: true });
    assert_eq!(viewer.phase(), Phase::Terminated);
    assert!(!viewer.session.raw_mode);
    assert!(!viewer.session.alternate_screen);
    assert!(!viewer.session.mouse_capture);
    assert!(!viewer.session.cursor_hidden);
}

#[test]
fn event_that_answers_nothing_is_ignored() {
    let mut viewer = Viewer::new();
    for event in [Event::Key(Key::Char('q')), Event::Resize, Event::Tick, Event::Other] {
        assert_eq!(viewer.step(event, 3), Action::Acquire(Resource::RawMode));
        assert_eq!(viewer, Viewer::new());
    }
    let (mut drawing, _) = running(0);
    let before = drawing;
    assert_eq!(drawing.step(Event::Key(Key::Esc), 3), Action::Draw { requery_size: true });
    assert_eq!(drawing, before);
    let (mut waiting, _) = polling(0);
    let before = waiting;
    assert_eq!(waiting.step(Event::Done, 100), Action::Poll { timeout_millis: 150 });
    assert_eq!(waiting, before);
    waiting.step(Event::Key(Key::Esc), 100);
    let before = waiting;
    assert_eq!(waiting.step(Event::Resize, 100), Action::Release(Resource::HiddenCursor));
    assert_eq!(waiting, before);
}

#[test]
fn ended_viewer_stays_ended() {
    let mut viewer = Viewer::new();
    viewer.step(Event::Failed, 0);
    let ended = viewer;
    for event in [Event::Done, Event::Failed, Event::Key(Key::Char('q')), Event::Resize, Event::Tick] {
        assert_eq!(viewer.step(event, 9), Action::Exit { failed: true });
        assert_eq!(viewer, ended);
    }
}

#[test]
fn pending_action_is_what_the_last_step_gave() {
    let mut viewer = Viewer::new();
    let events = [
        Event::Done,
        Event::Done,
        Event::Done,
        Event::Done,
        Event::Done,
        Event::Resize,
        Event::Done,
        Event::Tick,
        Event::Done,
        Event::Key(Key::Char('q')),
        Event::Done,
        Event::Done,
        Event::Done,
        Event::Done,
    ];
    let mut now = 0;
    for event in events {
        now += 100;
        let action = viewer.step(event, now);
        assert_eq!(action, viewer.pending(now));
    }
    assert_eq!(viewer.pending(now), Action::Exit { failed: false });
}
