use particle_sim::timer::SpawnTimer;

#[test]
fn timer_fires_when_the_period_is_reached() {
    let mut t = SpawnTimer::new(100);
    assert_eq!(t.period_ticks(), 100);
    assert_eq!(t.elapsed_ticks(), 0);
    assert!(!t.tick(99));
    assert_eq!(t.elapsed_ticks(), 99);
    assert!(t.tick(1));
    assert_eq!(t.elapsed_ticks(), 0);
}

#[test]
fn timer_repeats() {
    let mut t = SpawnTimer::new(10);
    let mut fired = 0;
    for _ in 0..100 {
        if t.tick(1) {
            fired += 1;
        }
    }
    assert_eq!(fired, 10);
    assert_eq!(t.elapsed_ticks(), 0);
}

#[test]
fn timer_carries_what_went_beyond_the_period() {
    let mut t = SpawnTimer::new(10);
    assert!(t.tick(25));
    assert_eq!(t.elapsed_ticks(), 5);
    assert!(!t.tick(4));
    assert_eq!(t.elapsed_ticks(), 9);
    assert!(t.tick(1));
    assert_eq!(t.elapsed_ticks(), 0);
}

#[test]
fn timer_of_no_period_fires_on_every_tick() {
    let mut t = SpawnTimer::new(0);
    assert!(t.tick(0));
    assert!(t.tick(17));
    assert_eq!(t.elapsed_ticks(), 0);
}

#[test]
fn timer_without_time_does_not_fire() {
    let mut t = SpawnTimer::new(1);
    assert!(!t.tick(0));
    assert!(t.tick(1));
}

#[test]
fn timer_takes_the_longest_tick() {
    let mut t = SpawnTimer::new(u32::MAX);
    assert!(!t.tick(u32::MAX - 1));
    assert!(t.tick(u32::MAX));
    assert_eq!(t.elapsed_ticks(), u32::MAX - 1);
}
