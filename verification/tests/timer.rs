use multiplayer::timer::CountdownTimer;

#[test]
fn one_shot_timer_stops_at_its_duration() {
    let mut t = CountdownTimer::new(100, false);
    t.tick(40);
    assert_eq!((t.elapsed_nanos, t.finished, t.just_finished()), (40, false, false));
    t.tick(90);
    assert_eq!((t.elapsed_nanos, t.finished, t.times_finished_this_tick), (100, true, 1));
    t.tick(500);
    assert_eq!((t.elapsed_nanos, t.finished, t.times_finished_this_tick), (100, true, 0));
    t.reset();
    assert_eq!((t.elapsed_nanos, t.finished, t.is_finished()), (0, false, false));
}

#[test]
fn repeating_timer_wraps_and_counts() {
    let mut t = CountdownTimer::new(100, true);
    t.tick(250);
    assert_eq!((t.elapsed_nanos, t.finished, t.times_finished_this_tick), (50, true, 2));
    t.tick(10);
    assert_eq!((t.elapsed_nanos, t.finished, t.times_finished_this_tick), (60, false, 0));
    let mut z = CountdownTimer::new(0, true);
    z.tick(5);
    assert_eq!((z.elapsed_nanos, z.finished, z.times_finished_this_tick), (0, true, u32::MAX));
}

#[test]
fn huge_frame_on_one_shot_timer() {
    let mut t = CountdownTimer::new(u64::MAX, false);
    t.tick(u64::MAX);
    assert_eq!((t.elapsed_nanos, t.finished, t.times_finished_this_tick), (u64::MAX, true, 1));
}
