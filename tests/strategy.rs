use hot_reload::strategy::{HotReloadStrategy, StrategyState};
use hot_reload::system::{HotReloadSystem, HotReloadSystemDesc, Time};

fn tick(s: &mut HotReloadStrategy, frame: u64, ms: u64) {
    let mut system = HotReloadSystem::new();
    system.run(&Time::new(frame, ms), s);
}

#[test]
fn periodic_two_seconds_fires_one_frame_after_the_late_tick() {
    let mut s = HotReloadStrategy::every(2);
    tick(&mut s, 10, 0);
    assert!(!s.needs_reload(10));
    tick(&mut s, 11, 1000);
    assert!(!s.needs_reload(11));
    tick(&mut s, 12, 2100);
    assert!(!s.needs_reload(12));
    assert!(s.needs_reload(13));
    assert!(!s.needs_reload(14));
}

#[test]
fn triggered_during_frame_five_is_due_at_frame_seven_only() {
    let mut s = HotReloadStrategy::when_triggered();
    tick(&mut s, 5, 0);
    s.trigger();
    tick(&mut s, 6, 16);
    assert!(s.needs_reload(7));
    assert!(!s.needs_reload(6));
    assert!(!s.needs_reload(8));
}

#[test]
fn never_is_due_at_no_frame() {
    let mut s = HotReloadStrategy::never();
    s.trigger();
    for f in [0u64, 1, 2, 100, u64::MAX - 1, u64::MAX] {
        tick(&mut s, f.min(u64::MAX - 1), f);
        assert!(!s.needs_reload(f));
    }
    assert_eq!(s.state(), StrategyState::Never);
}

#[test]
fn many_triggers_coalesce_into_one_pulse() {
    let mut s = HotReloadStrategy::when_triggered();
    tick(&mut s, 1, 0);
    for _ in 0..5 {
        s.trigger();
    }
    tick(&mut s, 2, 10);
    let due: Vec<u64> = (0..10).filter(|f| s.needs_reload(*f)).collect();
    assert_eq!(due, vec![3]);
    tick(&mut s, 3, 20);
    let due: Vec<u64> = (0..10).filter(|f| s.needs_reload(*f)).collect();
    assert_eq!(due, vec![3]);
}

#[test]
fn no_trigger_means_no_pulse() {
    let mut s = HotReloadStrategy::when_triggered();
    for f in 0..10u64 {
        tick(&mut s, f, f * 16);
        assert!(!s.needs_reload(f + 1));
    }
}

#[test]
fn query_is_pure() {
    let mut s = HotReloadStrategy::every(0);
    tick(&mut s, 4, 0);
    let first = s.needs_reload(5);
    assert_eq!(s.needs_reload(5), first);
    assert_eq!(s.needs_reload(5), first);
    assert!(first);
    assert!(!s.needs_reload(4));
    assert!(!s.needs_reload(4));
}

#[test]
fn periodic_interval_boundary_in_whole_seconds() {
    let mut s = HotReloadStrategy::every(2);
    tick(&mut s, 1, 1999);
    assert!(!s.needs_reload(2));
    tick(&mut s, 2, 2000);
    assert!(s.needs_reload(3));
    tick(&mut s, 3, 3999);
    assert!(s.needs_reload(3));
    tick(&mut s, 4, 4000);
    assert!(s.needs_reload(5));
    assert!(!s.needs_reload(3));
    assert_eq!(
        s.state(),
        StrategyState::Every { interval: 2, last_ms: 4000, frame_number: 5 }
    );
}

#[test]
fn periodic_clock_going_back_does_not_fire() {
    let mut s = HotReloadStrategy::every(1);
    tick(&mut s, 1, 5000);
    assert!(s.needs_reload(2));
    tick(&mut s, 2, 1000);
    assert_eq!(
        s.state(),
        StrategyState::Every { interval: 1, last_ms: 5000, frame_number: 2 }
    );
}

#[test]
fn fresh_strategies_are_not_due() {
    let every = HotReloadStrategy::every(3);
    let triggered = HotReloadStrategy::when_triggered();
    for f in [0u64, 1, 1000] {
        assert!(!every.needs_reload(f));
        assert!(!triggered.needs_reload(f));
    }
    assert_eq!(
        every.state(),
        StrategyState::Every { interval: 3, last_ms: 0, frame_number: u64::MAX }
    );
}

#[test]
fn trigger_does_nothing_on_periodic() {
    let mut s = HotReloadStrategy::every(5);
    s.trigger();
    tick(&mut s, 1, 10);
    assert!(!s.needs_reload(2));
    assert_eq!(
        s.state(),
        StrategyState::Every { interval: 5, last_ms: 0, frame_number: u64::MAX }
    );
}

#[test]
fn default_reloads_every_second() {
    let mut s = HotReloadStrategy::default();
    assert_eq!(
        s.state(),
        StrategyState::Every { interval: 1, last_ms: 0, frame_number: u64::MAX }
    );
    tick(&mut s, 7, 1000);
    assert!(s.needs_reload(8));
}

#[test]
fn desc_hands_out_its_strategy() {
    let desc = HotReloadSystemDesc::new(HotReloadStrategy::when_triggered());
    let (mut system, mut s) = desc.build();
    s.trigger();
    system.run(&Time::new(41, 0), &mut s);
    assert!(s.needs_reload(42));
    assert_eq!(Time::new(41, 0).frame_number(), 41);
}

#[test]
fn fires_at_reports_the_next_tick() {
    let mut t = HotReloadStrategy::when_triggered();
    assert!(!t.fires_at(0));
    t.trigger();
    assert!(t.fires_at(0));
    let e = HotReloadStrategy::every(2);
    assert!(!e.fires_at(1999));
    assert!(e.fires_at(2000));
    assert!(!HotReloadStrategy::never().fires_at(u64::MAX));
}

#[test]
fn quiet_tick_at_last_frame_changes_nothing() {
    let mut s = HotReloadStrategy::every(10);
    s.tick(u64::MAX, 500);
    assert_eq!(
        s.state(),
        StrategyState::Every { interval: 10, last_ms: 0, frame_number: u64::MAX }
    );
    let mut t = HotReloadStrategy::when_triggered();
    t.tick(u64::MAX, 0);
    assert_eq!(t.state(), StrategyState::Trigger { triggered: false, frame_number: u64::MAX });
}
