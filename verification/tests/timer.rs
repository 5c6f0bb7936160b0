use glulands::timer::Cooldown;

#[test]
fn a_new_cooldown_has_not_finished() {
    assert!(!Cooldown::new(250).finished());
    assert!(!Cooldown::new(1).finished());
    assert!(!Cooldown::new(0).finished());
    assert!(!Cooldown::new(u64::MAX).finished());
}

#[test]
fn a_cooldown_finishes_when_its_duration_is_counted() {
    let mut cooldown = Cooldown::new(250);
    cooldown.tick(249_999);
    assert!(!cooldown.finished());
    cooldown.tick(1);
    assert!(cooldown.finished());
    let mut cooldown = Cooldown::new(250);
    cooldown.tick(250_000);
    assert!(cooldown.finished());
    let mut cooldown = Cooldown::new(250);
    cooldown.tick(u64::MAX);
    assert!(cooldown.finished());
}

#[test]
fn a_cooldown_adds_frame_times_up() {
    let mut cooldown = Cooldown::new(250);
    for _ in 0..24 {
        cooldown.tick(10_000);
        assert!(!cooldown.finished());
    }
    cooldown.tick(0);
    assert!(!cooldown.finished());
    cooldown.tick(9_999);
    assert!(!cooldown.finished());
    cooldown.tick(1);
    assert!(cooldown.finished());
}

#[test]
fn a_finished_cooldown_stays_finished() {
    let mut cooldown = Cooldown::new(250);
    cooldown.tick(300_000);
    for delta in [0, 1, 250_000, u64::MAX] {
        cooldown.tick(delta);
        assert!(cooldown.finished());
    }
}

#[test]
fn a_reset_cooldown_counts_from_the_start() {
    let mut cooldown = Cooldown::new(250);
    cooldown.tick(200_000);
    cooldown.reset();
    assert!(!cooldown.finished());
    cooldown.tick(200_000);
    assert!(!cooldown.finished());
    cooldown.tick(50_000);
    assert!(cooldown.finished());
    cooldown.reset();
    assert!(!cooldown.finished());
    cooldown.tick(249_999);
    assert!(!cooldown.finished());
    cooldown.tick(1);
    assert!(cooldown.finished());
}

#[test]
fn a_cooldown_of_no_length_finishes_with_the_first_frame() {
    let mut cooldown = Cooldown::new(0);
    assert!(!cooldown.finished());
    cooldown.tick(0);
    assert!(cooldown.finished());
    cooldown.reset();
    assert!(!cooldown.finished());
    cooldown.tick(5);
    assert!(cooldown.finished());
}

#[test]
fn the_longest_cooldown_can_be_counted() {
    let mut cooldown = Cooldown::new(u64::MAX);
    for _ in 0..999 {
        cooldown.tick(u64::MAX);
        assert!(!cooldown.finished());
    }
    cooldown.tick(u64::MAX - 1);
    assert!(!cooldown.finished());
    cooldown.tick(1);
    assert!(cooldown.finished());
}
