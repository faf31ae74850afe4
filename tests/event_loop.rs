use gauge_dashboard::app::{App, GaugeColor};
use gauge_dashboard::event::{Event, KeyCode, KeyEvent, KeyEventKind, PROGRESS_FULL};

fn press(c: char) -> Event {
    Event::Input(KeyEvent::new(KeyCode::Char(c), KeyEventKind::Press))
}

fn state(exit: bool, color: GaugeColor, progress: u8) -> App {
    App { exit, progress_bar_color: color, background_progress: progress }
}

#[test]
fn starts_running_green_empty() {
    let app = App::new();
    assert_eq!(app, state(false, GaugeColor::Green, 0));
    assert!(app.is_running());
}

#[test]
fn scenario_color_progress_quit_drops_trailing() {
    let mut app = App::new();
    let events = vec![press('c'), Event::Progress(37), press('c'), press('q'), Event::Progress(99)];
    let consumed = app.consume(&events);
    assert_eq!(consumed, 4);
    assert_eq!(app, state(true, GaugeColor::Blue, 37));
    assert!(!app.is_running());
}

#[test]
fn unrecognized_key_still_renders_once() {
    let mut app = state(false, GaugeColor::Red, 12);
    let before = app;
    let renders = app.consume(&vec![press('x')]);
    assert_eq!(renders, 1);
    assert_eq!(app, before);
}

#[test]
fn progress_is_latest_value() {
    let mut app = App::new();
    let values: Vec<u8> = vec![5, 40, 3, 100, 0, 64];
    for (k, v) in values.iter().enumerate() {
        app.handle_event(Event::Progress(*v));
        assert_eq!(app.background_progress, values[k]);
    }
    let mut other = App::new();
    let events: Vec<Event> = values.iter().map(|v| Event::Progress(*v)).collect();
    assert_eq!(other.consume(&events), values.len());
    assert_eq!(other, state(false, GaugeColor::Green, 64));
}

#[test]
fn color_cycles_with_length_three() {
    let mut app = App::new();
    app.handle_event(press('c'));
    assert_eq!(app.progress_bar_color, GaugeColor::Red);
    app.handle_event(press('c'));
    assert_eq!(app.progress_bar_color, GaugeColor::Blue);
    app.handle_event(press('c'));
    assert_eq!(app.progress_bar_color, GaugeColor::Green);
    for color in [GaugeColor::Green, GaugeColor::Red, GaugeColor::Blue] {
        assert_ne!(color.next(), color);
        assert_eq!(color.next().next().next(), color);
        let mut exited = state(true, color, 50);
        let start = exited;
        exited.handle_event(press('c'));
        exited.handle_event(press('c'));
        exited.handle_event(press('c'));
        assert_eq!(exited, start);
    }
}

#[test]
fn quit_consumes_nothing_after_it() {
    let mut app = state(false, GaugeColor::Blue, 20);
    let events = vec![press('q'), press('c'), Event::Progress(90), press('q')];
    assert_eq!(app.consume(&events), 1);
    assert_eq!(app, state(true, GaugeColor::Blue, 20));
}

#[test]
fn exited_state_consumes_nothing() {
    let mut app = state(true, GaugeColor::Green, 7);
    assert_eq!(app.consume(&vec![Event::Progress(8), press('c')]), 0);
    assert_eq!(app, state(true, GaugeColor::Green, 7));
}

#[test]
fn empty_queue_consumes_nothing() {
    let mut app = App::new();
    assert_eq!(app.consume(&Vec::new()), 0);
    assert_eq!(app, App::new());
}

#[test]
fn non_press_kinds_are_inert() {
    for kind in [KeyEventKind::Release, KeyEventKind::Repeat] {
        for code in [KeyCode::Char('q'), KeyCode::Char('c'), KeyCode::Char('x'), KeyCode::Other] {
            let mut app = state(false, GaugeColor::Red, 33);
            app.handle_key_event(KeyEvent::new(code, kind));
            assert_eq!(app, state(false, GaugeColor::Red, 33));
        }
    }
}

#[test]
fn quit_is_case_sensitive() {
    let mut app = App::new();
    app.handle_event(press('Q'));
    app.handle_event(press('C'));
    app.handle_event(Event::Input(KeyEvent::new(KeyCode::Other, KeyEventKind::Press)));
    assert_eq!(app, App::new());
    app.handle_event(press('q'));
    assert!(app.exit);
}

#[test]
fn full_progress_is_accepted() {
    let mut app = App::new();
    app.handle_event(Event::Progress(PROGRESS_FULL));
    assert_eq!(app.background_progress, 100);
}

#[test]
fn key_press_helper() {
    let key = KeyEvent::new(KeyCode::Char('c'), KeyEventKind::Press);
    assert!(key.pressed('c'));
    assert!(!key.pressed('q'));
    assert!(!KeyEvent::new(KeyCode::Char('c'), KeyEventKind::Repeat).pressed('c'));
}
