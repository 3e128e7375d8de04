use life::clock::SimulationClock;

#[test]
fn fixed_interval_fires_twice_in_120ms() {
    // Interval 50ms, running, polled every 10ms while simulated time
    // advances to 120ms: exactly 2 generations fire, not 1 and not 3.
    let mut clock = SimulationClock::new(0, 50, true);
    let mut fires = 0;
    let mut now = 0u64;
    while now < 120 {
        now += 10;
        if clock.poll(now) {
            fires += 1;
        }
    }
    assert_eq!(fires, 2);
}

#[test]
fn stopped_clock_never_fires() {
    let mut clock = SimulationClock::new(0, 50, false);
    for t in 0..100u64 {
        assert!(!clock.poll(t * 10));
    }
}

#[test]
fn start_stop_toggles() {
    let mut clock = SimulationClock::new(0, 50, true);
    clock.start_stop();
    assert!(!clock.running);
    assert!(!clock.poll(1000));
    clock.start_stop();
    assert!(clock.running);
    assert!(clock.poll(1000));
}

#[test]
fn firing_pushes_due_time_one_interval_past_now() {
    let mut clock = SimulationClock::new(0, 50, true);
    assert!(!clock.poll(49));
    assert!(clock.poll(73));
    assert_eq!(clock.next_due_ms, 123);
    assert!(!clock.poll(122));
    assert!(clock.poll(123));
}

#[test]
fn speed_up_saturates_at_minimum() {
    let mut clock = SimulationClock::new(0, 50, true);
    for _ in 0..100 {
        clock.speed_up();
        assert!(clock.interval_ms >= 10);
    }
    assert_eq!(clock.interval_ms, 10);
}

#[test]
fn speed_down_saturates_at_maximum() {
    let mut clock = SimulationClock::new(0, 50, true);
    for _ in 0..100 {
        clock.speed_down();
        assert!(clock.interval_ms <= 400);
    }
    assert_eq!(clock.interval_ms, 400);
}

#[test]
fn speed_steps_are_10ms() {
    let mut clock = SimulationClock::new(0, 50, true);
    clock.speed_up();
    assert_eq!(clock.interval_ms, 40);
    clock.speed_down();
    clock.speed_down();
    assert_eq!(clock.interval_ms, 60);
}
