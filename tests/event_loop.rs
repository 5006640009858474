use tuimer::event_loop::{test_notice, App, Key, KeyKind};
use tuimer::text::{push_decimal, push_seconds};
use tuimer::timer::TimerState;

#[test]
fn app_starts_with_running_default_timer() {
    let app: App<u32> = App::new(0);
    assert!(matches!(app.timer.state, TimerState::Running { completion: 5000 }));
    assert_eq!(app.frame_count, 0);
    assert!(app.should_continue());
}

#[test]
fn five_second_scenario_with_pause() {
    let mut app: App<u32> = App::new(0);
    assert!(app.handle_key(KeyKind::Press, Key::Char(' '), 2000).is_none());
    assert!(matches!(app.timer.state, TimerState::Paused { remaining: 3000 }));
    assert!(app.handle_key(KeyKind::Press, Key::Char(' '), 2000).is_none());
    assert!(matches!(app.timer.state, TimerState::Running { completion: 5000 }));

    let mut shown = 0;
    for now in [2100u64, 4999, 5000, 5100, 9000] {
        if let Some(n) = app.timer.check_completion(now) {
            assert!(n.body.contains("Placeholder"));
            shown += 1;
            app.timer.mark_finished(shown);
        }
    }
    assert_eq!(shown, 1);
    assert!(matches!(app.timer.state, TimerState::Finished { completed: 5000, notify_handle: 1 }));
}

#[test]
fn quit_key_stops_the_loop() {
    let events = [
        (KeyKind::Press, Key::Char('x')),
        (KeyKind::Press, Key::Char('q')),
        (KeyKind::Press, Key::Char(' ')),
        (KeyKind::Press, Key::Char('n')),
    ];
    let mut app: App<u32> = App::new(0);
    let mut renders = 0;
    let mut polls = 0;
    let mut now = 0;
    let mut it = events.into_iter();
    while app.should_continue() {
        let _ = app.timer.render_text(now);
        app.record_frame();
        renders += 1;
        polls += 1;
        if let Some((kind, key)) = it.next() {
            assert!(app.handle_key(kind, key, now).is_none());
        }
        now += 100;
    }
    assert_eq!(renders, 2);
    assert_eq!(polls, 2);
    assert_eq!(app.frame_count, 2);
    assert!(app.should_exit);
    assert!(matches!(app.timer.state, TimerState::Running { completion: 5000 }));
}

#[test]
fn only_presses_act() {
    let mut app: App<u32> = App::new(0);
    assert!(app.handle_key(KeyKind::Release, Key::Char('q'), 10).is_none());
    assert!(app.handle_key(KeyKind::Repeat, Key::Char(' '), 10).is_none());
    assert!(app.handle_key(KeyKind::Release, Key::Char('n'), 10).is_none());
    assert!(app.handle_key(KeyKind::Press, Key::Other, 10).is_none());
    assert!(app.handle_key(KeyKind::Press, Key::Char('Q'), 10).is_none());
    assert!(app.should_continue());
    assert!(matches!(app.timer.state, TimerState::Running { completion: 5000 }));
}

#[test]
fn n_key_asks_for_test_notice() {
    let mut app: App<u32> = App::new(0);
    let n = app.handle_key(KeyKind::Press, Key::Char('n'), 10).expect("notice");
    assert_eq!(n.summary, "Test event");
    assert_eq!(n.body, "");
    assert!(n.appname.is_none());
    assert!(!n.persistent);
    assert!(matches!(app.timer.state, TimerState::Running { completion: 5000 }));
    assert_eq!(test_notice().summary, "Test event");
}

#[test]
fn frame_counter_counts_and_wraps() {
    let mut app: App<u32> = App::new(0);
    assert_eq!(app.frame_text(), "0");
    for _ in 0..12 {
        app.record_frame();
    }
    assert_eq!(app.frame_text(), "12");
    app.frame_count = u64::MAX;
    assert_eq!(app.frame_text(), "18446744073709551615");
    app.record_frame();
    assert_eq!(app.frame_count, 0);
}

#[test]
fn decimal_and_seconds_append() {
    let mut s = "n=".to_string();
    push_decimal(&mut s, 907);
    assert_eq!(s, "n=907");
    let mut t = String::new();
    push_seconds(&mut t, 60_005);
    assert_eq!(t, "60.01");
}
