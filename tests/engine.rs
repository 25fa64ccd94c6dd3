use autoclicker::config::{
    ClickStyle, EngineConfig, JitterDraw, MouseButton, Point, RepeatMode,
};
use autoclicker::engine::{Action, ClickEngine, HotkeyReaction, Phase};
use autoclicker::state::EngineState;

fn no_jitter() -> JitterDraw {
    JitterDraw { magnitude: 0, add: true }
}

fn config(repeat_mode: RepeatMode, click_style: ClickStyle) -> EngineConfig {
    EngineConfig {
        interval_ms: 100,
        jitter_enabled: false,
        jitter_ms: 0,
        button: MouseButton::Right,
        click_style,
        repeat_mode,
        lock_position_enabled: false,
        lock_position: Point { x: 0, y: 0 },
    }
}

#[test]
fn apply_config_reads_back_every_field() {
    let mut s = EngineState::new();
    let cfg = EngineConfig {
        interval_ms: 250,
        jitter_enabled: true,
        jitter_ms: 40,
        button: MouseButton::Middle,
        click_style: ClickStyle::Double,
        repeat_mode: RepeatMode::Count(7),
        lock_position_enabled: true,
        lock_position: Point { x: -5, y: 900 },
    };
    s.apply_config(cfg);
    assert_eq!(s.interval_ms(), 250);
    assert!(s.jitter_enabled());
    assert_eq!(s.jitter_ms(), 40);
    assert_eq!(s.button(), MouseButton::Middle);
    assert_eq!(s.click_style(), ClickStyle::Double);
    assert_eq!(s.repeat_mode(), RepeatMode::Count(7));
    assert!(s.lock_position_enabled());
    assert_eq!(s.lock_position(), Point { x: -5, y: 900 });
    assert!(!s.is_running());
}

#[test]
fn new_state_holds_the_defaults() {
    let s = EngineState::new();
    assert_eq!(s.interval_ms(), 5);
    assert_eq!(s.repeat_mode(), RepeatMode::Infinite);
    assert_eq!(s.button(), MouseButton::Left);
    assert_eq!(s.click_style(), ClickStyle::Single);
    assert!(!s.jitter_enabled());
    assert!(!s.lock_position_enabled());
    assert!(!s.is_running());
}

#[test]
fn set_running_is_plain_assignment() {
    let mut s = EngineState::new();
    s.set_running(true);
    s.set_running(true);
    assert!(s.is_running());
    s.set_running(false);
    assert!(!s.is_running());
}

#[test]
fn decrement_from_one_reaches_zero() {
    let mut s = EngineState::new();
    s.apply_config(config(RepeatMode::Count(1), ClickStyle::Single));
    assert!(s.decrement_repeat_count());
    assert_eq!(s.repeat_mode(), RepeatMode::Count(0));
}

#[test]
fn decrement_at_zero_is_a_no_op() {
    let mut s = EngineState::new();
    s.apply_config(config(RepeatMode::Count(0), ClickStyle::Single));
    let before = s;
    assert!(!s.decrement_repeat_count());
    assert_eq!(s, before);
}

#[test]
fn decrement_when_infinite_is_a_no_op() {
    let mut s = EngineState::new();
    let before = s;
    assert!(!s.decrement_repeat_count());
    assert!(!s.decrement_repeat_count());
    assert_eq!(s, before);
}

#[test]
fn decrement_from_five_counts_down() {
    let mut s = EngineState::new();
    s.apply_config(config(RepeatMode::Count(5), ClickStyle::Single));
    assert!(!s.decrement_repeat_count());
    assert_eq!(s.repeat_mode(), RepeatMode::Count(4));
}

#[test]
fn new_engine_is_parked_and_stays_parked() {
    let mut e = ClickEngine::new();
    assert_eq!(e.phase, Phase::Parked);
    assert_eq!(e.step(no_jitter()), Action::Park { notify_stopped: false });
    assert_eq!(e.phase, Phase::Parked);
}

#[test]
fn count_three_runs_three_cycles_then_stops_once() {
    let mut e = ClickEngine::new();
    e.apply_config(config(RepeatMode::Count(3), ClickStyle::Single));
    e.start();
    let mut clicks = 0;
    let mut notices = 0;
    for _ in 0..10 {
        match e.step(no_jitter()) {
            Action::ClickThenSleep { button, notify_stopped, delay_ms, move_to } => {
                assert_eq!(button, MouseButton::Right);
                assert_eq!(delay_ms, 100);
                assert_eq!(move_to, None);
                clicks += 1;
                if notify_stopped {
                    notices += 1;
                }
            }
            Action::Park { notify_stopped } => {
                if notify_stopped {
                    notices += 1;
                }
            }
            Action::ClickThenGap { .. } => panic!("single clicks only"),
        }
    }
    assert_eq!(clicks, 3);
    assert_eq!(notices, 1);
    assert!(!e.is_running());
    assert_eq!(e.phase, Phase::Parked);
}

#[test]
fn locked_position_precedes_every_click() {
    let mut e = ClickEngine::new();
    let mut cfg = config(RepeatMode::Infinite, ClickStyle::Single);
    cfg.lock_position_enabled = true;
    cfg.lock_position = Point { x: 100, y: 200 };
    e.apply_config(cfg);
    e.start();
    for _ in 0..5 {
        match e.step(no_jitter()) {
            Action::ClickThenSleep { move_to, .. } => {
                assert_eq!(move_to, Some(Point { x: 100, y: 200 }));
            }
            other => panic!("unexpected {:?}", other),
        }
    }
}

#[test]
fn locked_double_click_moves_only_before_the_first() {
    let mut e = ClickEngine::new();
    let mut cfg = config(RepeatMode::Infinite, ClickStyle::Double);
    cfg.lock_position_enabled = true;
    cfg.lock_position = Point { x: 100, y: 200 };
    e.apply_config(cfg);
    e.start();
    assert_eq!(
        e.step(no_jitter()),
        Action::ClickThenGap { move_to: Some(Point { x: 100, y: 200 }), button: MouseButton::Right }
    );
    assert_eq!(
        e.step(no_jitter()),
        Action::ClickThenSleep {
            move_to: None,
            button: MouseButton::Right,
            notify_stopped: false,
            delay_ms: 100
        }
    );
}

#[test]
fn stop_while_sleeping_parks_at_next_step() {
    let mut e = ClickEngine::new();
    let mut cfg = config(RepeatMode::Infinite, ClickStyle::Single);
    cfg.interval_ms = 60_000;
    e.apply_config(cfg);
    e.start();
    assert!(matches!(e.step(no_jitter()), Action::ClickThenSleep { delay_ms: 60_000, .. }));
    assert_eq!(e.phase, Phase::Sleeping);
    e.stop();
    assert_eq!(e.step(no_jitter()), Action::Park { notify_stopped: false });
    assert_eq!(e.phase, Phase::Parked);
}

#[test]
fn stop_during_gap_cancels_second_click() {
    let mut e = ClickEngine::new();
    e.apply_config(config(RepeatMode::Infinite, ClickStyle::Double));
    e.start();
    assert!(matches!(e.step(no_jitter()), Action::ClickThenGap { .. }));
    e.stop();
    assert_eq!(e.step(no_jitter()), Action::Park { notify_stopped: false });
}

#[test]
fn stop_twice_equals_stop_once() {
    let mut once = ClickEngine::new();
    once.start();
    let mut twice = once;
    once.stop();
    twice.stop();
    twice.stop();
    assert_eq!(once, twice);
    assert_eq!(once.step(no_jitter()), twice.step(no_jitter()));
}

#[test]
fn start_with_zero_count_stops_without_clicking() {
    let mut e = ClickEngine::new();
    e.apply_config(config(RepeatMode::Count(0), ClickStyle::Single));
    e.start();
    assert_eq!(e.step(no_jitter()), Action::Park { notify_stopped: true });
    assert!(!e.is_running());
}

#[test]
fn count_one_double_click_stops_after_second_click() {
    let mut e = ClickEngine::new();
    e.apply_config(config(RepeatMode::Count(1), ClickStyle::Double));
    e.start();
    assert!(matches!(e.step(no_jitter()), Action::ClickThenGap { .. }));
    assert!(e.is_running());
    assert!(matches!(e.step(no_jitter()), Action::ClickThenSleep { notify_stopped: true, .. }));
    assert!(!e.is_running());
    assert_eq!(e.step(no_jitter()), Action::Park { notify_stopped: false });
}

#[test]
fn jitter_moves_the_delay_both_ways() {
    let mut e = ClickEngine::new();
    let mut cfg = config(RepeatMode::Infinite, ClickStyle::Single);
    cfg.jitter_enabled = true;
    cfg.jitter_ms = 30;
    e.apply_config(cfg);
    e.start();
    assert!(matches!(
        e.step(JitterDraw { magnitude: 30, add: true }),
        Action::ClickThenSleep { delay_ms: 130, .. }
    ));
    assert!(matches!(
        e.step(JitterDraw { magnitude: 12, add: false }),
        Action::ClickThenSleep { delay_ms: 88, .. }
    ));
}

#[test]
fn hotkey_toggles_by_running_flag() {
    let mut e = ClickEngine::new();
    assert_eq!(e.on_hotkey(), HotkeyReaction::ConfigRequested);
    assert!(!e.is_running());
    e.start();
    assert_eq!(e.on_hotkey(), HotkeyReaction::Stopped);
    assert!(!e.is_running());
}

#[test]
fn config_update_applies_at_next_cycle() {
    let mut e = ClickEngine::new();
    e.apply_config(config(RepeatMode::Infinite, ClickStyle::Single));
    e.start();
    assert!(matches!(e.step(no_jitter()), Action::ClickThenSleep { button: MouseButton::Right, .. }));
    let mut cfg = config(RepeatMode::Infinite, ClickStyle::Single);
    cfg.button = MouseButton::Left;
    cfg.interval_ms = 7;
    e.apply_config(cfg);
    assert!(matches!(
        e.step(no_jitter()),
        Action::ClickThenSleep { button: MouseButton::Left, delay_ms: 7, .. }
    ));
}

#[test]
fn count_two_double_clicks_run_two_cycles() {
    let mut e = ClickEngine::new();
    e.apply_config(config(RepeatMode::Count(2), ClickStyle::Double));
    e.start();
    let mut first_clicks = 0;
    let mut second_clicks = 0;
    let mut notices = 0;
    for _ in 0..8 {
        match e.step(no_jitter()) {
            Action::ClickThenGap { .. } => first_clicks += 1,
            Action::ClickThenSleep { notify_stopped, .. } => {
                second_clicks += 1;
                if notify_stopped {
                    notices += 1;
                }
            }
            Action::Park { notify_stopped } => {
                if notify_stopped {
                    notices += 1;
                }
            }
        }
    }
    assert_eq!(first_clicks, 2);
    assert_eq!(second_clicks, 2);
    assert_eq!(notices, 1);
    assert!(!e.is_running());
}
