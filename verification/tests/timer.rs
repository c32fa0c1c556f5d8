use pmdr::format_secs;
use pmdr::PMDRApp;
use pmdr::DEFAULT_WORK_SECS;
use pmdr::LONG_BREAK_SECS;
use pmdr::SHORT_BREAK_SECS;

#[test]
fn format_zero() {
    assert_eq!(format_secs(0), "0:00:00");
}

#[test]
fn format_three_hours_and_change() {
    assert_eq!(format_secs(3 * 3600 + 3), "3:00:03");
}

#[test]
fn format_mixed() {
    assert_eq!(format_secs(3753), "1:02:33");
}

#[test]
fn format_edges() {
    assert_eq!(format_secs(59), "0:00:59");
    assert_eq!(format_secs(60), "0:01:00");
    assert_eq!(format_secs(3599), "0:59:59");
    assert_eq!(format_secs(3600), "1:00:00");
    assert_eq!(format_secs(u32::MAX), "1193046:28:15");
}

#[test]
fn fresh_app_is_working() {
    let app = PMDRApp::new();
    assert_eq!(app.tally(), 0);
    assert!(app.ticking());
    assert!(!app.on_break());
    assert_eq!(app.state_label(), "Keep Going!");
    assert_eq!(app.countdown_string(), "0:25:00");
}

#[test]
fn work_interval_crosses_one_boundary_into_short_break() {
    let mut app = PMDRApp::new();
    for _ in 0..DEFAULT_WORK_SECS - 1 {
        assert!(!app.tick());
        assert_eq!(app.tally(), 0);
        assert!(!app.on_break());
    }
    assert!(app.tick());
    assert_eq!(app.tally(), 1);
    assert!(app.on_break());
    assert_eq!(app.state_label(), "On Break");
    assert_eq!(app.countdown_string(), format_secs(SHORT_BREAK_SECS));
}

#[test]
fn fourth_break_is_long() {
    let mut app = PMDRApp::new();
    let mut crossings = 0u32;
    for _ in 0..3 * (DEFAULT_WORK_SECS + SHORT_BREAK_SECS) + DEFAULT_WORK_SECS {
        if app.tick() {
            crossings += 1;
        }
    }
    assert_eq!(crossings, 7);
    assert_eq!(app.tally(), 4);
    assert!(app.on_break());
    assert_eq!(app.countdown_string(), format_secs(LONG_BREAK_SECS));
    assert_eq!(LONG_BREAK_SECS, 900);
}

#[test]
fn toggle_twice_consumes_no_time() {
    let mut app = PMDRApp::new();
    for _ in 0..10 {
        app.tick();
    }
    let before = app.countdown_string();
    assert!(!app.toggle_timer());
    assert!(!app.ticking());
    assert_eq!(app.state_label(), "Paused (Keep Going!)");
    assert_eq!(app.countdown_string(), before);
    assert!(app.toggle_timer());
    assert!(app.ticking());
    assert_eq!(app.state_label(), "Keep Going!");
    assert_eq!(app.countdown_string(), before);
}

#[test]
fn paused_break_label_composes() {
    let mut app = PMDRApp::new();
    for _ in 0..DEFAULT_WORK_SECS {
        app.tick();
    }
    assert!(app.on_break());
    app.toggle_timer();
    assert_eq!(app.state_label(), "Paused (On Break)");
    assert!(!app.on_break());
}

#[test]
fn stop_keeps_tally_and_second_stop_resets_it() {
    let mut app = PMDRApp::new();
    for _ in 0..DEFAULT_WORK_SECS + SHORT_BREAK_SECS {
        app.tick();
    }
    assert_eq!(app.tally(), 1);
    app.stop();
    assert!(!app.ticking());
    assert_eq!(app.tally(), 1);
    assert_eq!(app.state_label(), "Stopped");
    assert_eq!(app.countdown_string(), "0:25:00");
    app.stop();
    assert_eq!(app.tally(), 0);
}

#[test]
fn tick_is_a_no_op_while_paused_or_stopped() {
    let mut app = PMDRApp::new();
    app.tick();
    app.toggle_timer();
    let remaining = app.countdown_string();
    let tally = app.tally();
    for _ in 0..5 {
        assert!(!app.tick());
    }
    assert_eq!(app.countdown_string(), remaining);
    assert_eq!(app.tally(), tally);
    app.stop();
    for _ in 0..5 {
        assert!(!app.tick());
    }
    assert_eq!(app.countdown_string(), "0:25:00");
    assert_eq!(app.tally(), tally);
}

#[test]
fn toggle_from_stopped_starts_fresh_work_interval() {
    let mut app = PMDRApp::new();
    for _ in 0..DEFAULT_WORK_SECS {
        app.tick();
    }
    assert_eq!(app.tally(), 1);
    app.stop();
    assert!(app.toggle_timer());
    assert!(app.ticking());
    assert!(!app.on_break());
    assert_eq!(app.tally(), 1);
    assert_eq!(app.countdown_string(), format_secs(DEFAULT_WORK_SECS));
    assert_eq!(app.state_label(), "Keep Going!");
}

#[test]
fn break_returns_to_standard_work_interval() {
    let mut app = PMDRApp::new();
    for _ in 0..DEFAULT_WORK_SECS {
        app.tick();
    }
    for _ in 0..SHORT_BREAK_SECS - 1 {
        assert!(!app.tick());
    }
    assert!(app.tick());
    assert!(!app.on_break());
    assert!(app.ticking());
    assert_eq!(app.tally(), 1);
    assert_eq!(app.countdown_string(), "0:25:00");
}
