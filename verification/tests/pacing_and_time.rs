use spinrt::pacing::{next_pass_timeout, pause_after, PassPacer, MAX_PASS_TIMEOUT, MIN_PASS_TIMEOUT};
use spinrt::time::sleep;
use spinrt::Poll;

#[test]
fn pass_timeout_bounds() {
    assert_eq!(MIN_PASS_TIMEOUT, 500_000);
    assert_eq!(MAX_PASS_TIMEOUT, 25_000_000);
}

#[test]
fn progress_resets_timeout() {
    assert_eq!(next_pass_timeout(8_000_000, 1), MIN_PASS_TIMEOUT);
    assert_eq!(next_pass_timeout(MAX_PASS_TIMEOUT, 42), MIN_PASS_TIMEOUT);
}

#[test]
fn idle_pass_doubles_up_to_the_cap() {
    assert_eq!(next_pass_timeout(500_000, 0), 1_000_000);
    assert_eq!(next_pass_timeout(16_000_000, 0), 25_000_000);
    assert_eq!(next_pass_timeout(25_000_000, 0), 25_000_000);
    assert_eq!(next_pass_timeout(u64::MAX, 0), 25_000_000);
}

#[test]
fn idle_passes_reach_the_maximum_after_six() {
    let mut pacer = PassPacer::new();
    assert_eq!(pacer.pass_timeout(), MIN_PASS_TIMEOUT);
    let expected = [1_000_000u64, 2_000_000, 4_000_000, 8_000_000, 16_000_000, 25_000_000, 25_000_000];
    for want in expected {
        pacer.finish_pass(0, u64::MAX);
        assert_eq!(pacer.pass_timeout(), want);
    }
    pacer.finish_pass(3, 0);
    assert_eq!(pacer.pass_timeout(), MIN_PASS_TIMEOUT);
}

#[test]
fn pause_fills_the_rest_of_the_budget() {
    assert_eq!(pause_after(500_000, 200_000), Some(300_000));
    assert_eq!(pause_after(500_000, 500_000), None);
    assert_eq!(pause_after(500_000, 900_000), None);
}

#[test]
fn finish_pass_returns_the_pause_under_the_new_budget() {
    let mut pacer = PassPacer::new();
    // idle: budget doubles to 1 ms, the pass took 0.25 ms
    assert_eq!(pacer.finish_pass(0, 250_000), Some(750_000));
    // progress: budget back to 0.5 ms, the pass took 0.6 ms
    assert_eq!(pacer.finish_pass(2, 600_000), None);
    assert_eq!(pacer.pass_timeout(), 500_000);
}

#[test]
fn sleep_is_ready_only_after_its_deadline() {
    let timer = sleep(1_000, 500);
    assert_eq!(timer.deadline(), 1_500);
    assert_eq!(timer.poll(1_000), Poll::Pending);
    assert_eq!(timer.poll(1_500), Poll::Pending);
    assert_eq!(timer.poll(1_501), Poll::Ready(()));
    assert_eq!(timer.poll(u128::MAX), Poll::Ready(()));
}

#[test]
fn zero_sleep_is_ready_one_tick_later() {
    let timer = sleep(7, 0);
    assert_eq!(timer.poll(7), Poll::Pending);
    assert_eq!(timer.poll(8), Poll::Ready(()));
}
