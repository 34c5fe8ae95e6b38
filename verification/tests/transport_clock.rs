use relm_bar::transport_clock::TransportClock;

#[test]
fn first_attempt_waits_a_full_interval() {
    let mut clock = TransportClock::new(0);
    assert!(!clock.tick(1000, "/dev/shm/jwm_0", false));
    assert!(!clock.tick(1999, "/dev/shm/jwm_0", false));
    assert!(clock.tick(2000, "/dev/shm/jwm_0", false));
}

#[test]
fn attempts_are_spaced_by_the_interval() {
    let mut clock = TransportClock::new(0);
    assert!(clock.tick(2500, "p_1", false));
    assert!(!clock.tick(3000, "p_1", false));
    assert!(!clock.tick(4499, "p_1", false));
    assert!(clock.tick(4500, "p_1", false));
    let mut attempts = Vec::new();
    for t in (4501..20000u64).step_by(137) {
        if clock.tick(t, "p_1", false) {
            attempts.push(t);
        }
    }
    for w in attempts.windows(2) {
        assert!(w[1] - w[0] >= 2000);
    }
    assert!(!attempts.is_empty());
}

#[test]
fn failure_restarts_the_interval() {
    let mut clock = TransportClock::new(0);
    assert!(clock.tick(2000, "p", false));
    clock.transport_failed(3900);
    assert!(!clock.tick(4000, "p", false));
    assert!(!clock.tick(5899, "p", false));
    assert!(clock.tick(5900, "p", false));
}

#[test]
fn no_attempt_without_path_or_while_connected() {
    let mut clock = TransportClock::new(0);
    assert!(!clock.tick(10_000, "", false));
    assert!(!clock.tick(10_000, "p", true));
    assert!(clock.tick(10_000, "p", false));
}

#[test]
fn clock_that_runs_behind_makes_no_attempt() {
    let mut clock = TransportClock::new(5000);
    assert!(!clock.tick(100, "p", false));
    assert!(clock.tick(7000, "p", false));
}
