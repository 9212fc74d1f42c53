use innocent_heart::timer::Timer;

#[test]
fn a_new_timer_has_counted_nothing() {
    let t = Timer::new(100);
    assert_eq!(t, Timer { duration: 100, elapsed: 0, finished: false });
    assert!(!t.finished());
}

#[test]
fn ticks_add_up_until_the_duration() {
    let mut t = Timer::new(100);
    t.tick(30);
    assert_eq!(t.elapsed, 30);
    assert!(!t.finished());
    t.tick(69);
    assert_eq!(t.elapsed, 99);
    assert!(!t.finished());
    t.tick(1);
    assert_eq!(t.elapsed, 100);
    assert!(t.finished());
}

#[test]
fn a_tick_past_the_duration_stops_at_the_duration() {
    let mut t = Timer::new(100);
    t.tick(1_000);
    assert_eq!(t, Timer { duration: 100, elapsed: 100, finished: true });
}

#[test]
fn a_finished_timer_stays_as_it_is() {
    let mut t = Timer::new(100);
    t.tick(100);
    let done = t;
    t.tick(5);
    t.tick(u64::MAX);
    assert_eq!(t, done);
}

#[test]
fn reset_starts_anew() {
    let mut t = Timer::new(100);
    t.tick(100);
    t.reset();
    assert_eq!(t, Timer::new(100));
    t.tick(99);
    assert!(!t.finished());
}

#[test]
fn a_timer_of_no_duration_finishes_with_its_first_tick() {
    let mut t = Timer::new(0);
    assert!(!t.finished());
    t.tick(0);
    assert!(t.finished());
}

#[test]
fn a_huge_tick_does_not_overflow() {
    let mut t = Timer::new(u64::MAX);
    t.tick(u64::MAX - 1);
    assert!(!t.finished());
    t.tick(u64::MAX);
    assert!(t.finished());
    assert_eq!(t.elapsed, u64::MAX);
}
