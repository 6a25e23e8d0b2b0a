use progress_gauge::events::{
    next_progress, CustomEvents, KeyCode, KeyEvent, KeyEventKind, PROGRESS_SCALE,
};
use progress_gauge::state::{AccentColor, App, QUIT_KEY, TOGGLE_KEY};

fn press(c: char) -> CustomEvents {
    CustomEvents::Input(KeyEvent { code: KeyCode::Char(c), kind: KeyEventKind::Press })
}

#[test]
fn initial_state_defaults() {
    let app = App::new();
    assert!(!app.should_exit);
    assert_eq!(app.accent_color, AccentColor::Primary);
    assert_eq!(app.progress, 0);
}

#[test]
fn progress_update_sets_value() {
    let mut app = App::new();
    app.handle_event(CustomEvents::Progress(5000));
    assert_eq!(app.progress, 5000);
    assert_eq!(app.accent_color, AccentColor::Primary);
    assert!(!app.should_exit);
}

#[test]
fn progress_update_out_of_range_is_clamped() {
    let mut app = App::new();
    app.handle_event(CustomEvents::Progress(15000));
    assert_eq!(app.progress, PROGRESS_SCALE);
}

#[test]
fn last_progress_update_wins() {
    let mut app = App::new();
    for v in [300, 100, 20000, 700] {
        app.handle_event(CustomEvents::Progress(v));
    }
    assert_eq!(app.progress, 700);
}

#[test]
fn quit_key_raises_exit_and_stops_the_loop() {
    let mut app = App::new();
    let events = vec![press(QUIT_KEY), CustomEvents::Progress(500), press(TOGGLE_KEY)];
    let drawn = app.run(&events);
    assert!(app.should_exit);
    assert_eq!(drawn, 1);
    assert_eq!(app.progress, 0);
    assert_eq!(app.accent_color, AccentColor::Primary);
}

#[test]
fn toggle_key_twice_restores_the_colour() {
    let mut app = App::new();
    app.handle_event(press(TOGGLE_KEY));
    assert_eq!(app.accent_color, AccentColor::Alternate);
    app.handle_event(press(TOGGLE_KEY));
    assert_eq!(app.accent_color, AccentColor::Primary);
}

#[test]
fn other_keys_and_kinds_are_ignored() {
    let mut app = App::new();
    app.handle_event(press('x'));
    app.handle_event(CustomEvents::Input(KeyEvent {
        code: KeyCode::Char(QUIT_KEY),
        kind: KeyEventKind::Release,
    }));
    app.handle_event(CustomEvents::Input(KeyEvent {
        code: KeyCode::Char(TOGGLE_KEY),
        kind: KeyEventKind::Repeat,
    }));
    app.handle_event(CustomEvents::Input(KeyEvent {
        code: KeyCode::Other,
        kind: KeyEventKind::Press,
    }));
    assert_eq!(app, App::new());
}

#[test]
fn exit_flag_is_monotonic() {
    let mut app = App::new();
    app.handle_event(press(QUIT_KEY));
    assert!(app.should_exit);
    app.handle_event(CustomEvents::Progress(400));
    app.handle_event(press(TOGGLE_KEY));
    app.handle_event(press(QUIT_KEY));
    assert!(app.should_exit);
    assert_eq!(app.progress, 400);
}

#[test]
fn hundred_ticks_fill_the_bar_without_overshoot() {
    let mut app = App::new();
    let mut produced: u32 = 0;
    for _ in 0..100 {
        produced = next_progress(produced);
        assert!(produced <= PROGRESS_SCALE);
        app.handle_event(CustomEvents::Progress(produced));
        assert!(app.progress <= PROGRESS_SCALE);
    }
    assert_eq!(app.progress, PROGRESS_SCALE);
}

#[test]
fn ticks_stay_full_once_the_bar_is_full() {
    assert_eq!(next_progress(0), 100);
    assert_eq!(next_progress(9900), PROGRESS_SCALE);
    assert_eq!(next_progress(9950), PROGRESS_SCALE);
    assert_eq!(next_progress(PROGRESS_SCALE), PROGRESS_SCALE);
}

#[test]
fn run_without_quit_consumes_everything() {
    let mut app = App::new();
    let events = vec![
        CustomEvents::Progress(100),
        press(TOGGLE_KEY),
        CustomEvents::Progress(200),
    ];
    let drawn = app.run(&events);
    assert_eq!(drawn, 3);
    assert!(!app.should_exit);
    assert_eq!(app.progress, 200);
    assert_eq!(app.accent_color, AccentColor::Alternate);
}

#[test]
fn run_after_exit_consumes_nothing() {
    let mut app = App::new();
    app.handle_event(press(QUIT_KEY));
    let events = vec![CustomEvents::Progress(100)];
    let drawn = app.run(&events);
    assert_eq!(drawn, 0);
    assert_eq!(app.progress, 0);
}
