use kioto::timer::Timer;

#[test]
fn new_timer_stands_at_zero() {
    let timer = Timer::new(5);
    assert!(timer.has_time_passed());
}

#[test]
fn stopped_timer_ignores_ticks() {
    let mut timer = Timer::new(3);
    for _ in 0..10 {
        timer.dec();
        assert!(timer.has_time_passed());
    }
}

#[test]
fn time_has_passed_at_the_tick_numbered_as_the_threshold() {
    for threshold in 1..6usize {
        let mut timer = Timer::new(threshold);
        timer.unlock();
        for k in 0..=threshold {
            timer.dec();
            assert_eq!(timer.has_time_passed(), k == threshold, "threshold {} tick {}", threshold, k);
        }
    }
}

#[test]
fn threshold_of_three_passes_with_the_fourth_tick() {
    let mut timer = Timer::new(3);
    timer.unlock();
    timer.dec();
    assert!(!timer.has_time_passed());
    timer.dec();
    assert!(!timer.has_time_passed());
    timer.dec();
    assert!(!timer.has_time_passed());
    timer.dec();
    assert!(timer.has_time_passed());
}

#[test]
fn running_timer_reloads_and_cycles() {
    let mut timer = Timer::new(2);
    timer.unlock();
    let mut passed = Vec::new();
    for _ in 0..9 {
        timer.dec();
        passed.push(timer.has_time_passed());
    }
    assert_eq!(passed, vec![false, false, true, false, false, true, false, false, true]);
}

#[test]
fn lock_keeps_the_counter() {
    let mut timer = Timer::new(3);
    timer.unlock();
    timer.dec();
    timer.dec();
    timer.lock();
    for _ in 0..5 {
        timer.dec();
    }
    assert!(!timer.has_time_passed());
    timer.unlock();
    timer.dec();
    assert!(!timer.has_time_passed());
    timer.dec();
    assert!(timer.has_time_passed());
}

#[test]
fn threshold_of_one_passes_at_every_other_tick() {
    let mut timer = Timer::new(1);
    timer.unlock();
    let mut passed = Vec::new();
    for _ in 0..4 {
        timer.dec();
        passed.push(timer.has_time_passed());
    }
    assert_eq!(passed, vec![false, true, false, true]);
}

#[test]
fn threshold_of_zero_stays_at_zero() {
    let mut timer = Timer::new(0);
    timer.unlock();
    for _ in 0..4 {
        timer.dec();
        assert!(timer.has_time_passed());
    }
}
