use app_shell::progress::{progress_percent, DownloadProgress};

#[test]
fn unknown_total_is_zero_percent() {
    assert_eq!(progress_percent(0, None), 0);
    assert_eq!(progress_percent(1, None), 0);
    assert_eq!(progress_percent(u64::MAX, None), 0);
}

#[test]
fn percent_is_rounded_to_the_nearest() {
    assert_eq!(progress_percent(0, Some(10)), 0);
    assert_eq!(progress_percent(5, Some(10)), 50);
    assert_eq!(progress_percent(10, Some(10)), 100);
    assert_eq!(progress_percent(1, Some(3)), 33);
    assert_eq!(progress_percent(2, Some(3)), 67);
    assert_eq!(progress_percent(1, Some(8)), 13);
    assert_eq!(progress_percent(994, Some(1000)), 99);
    assert_eq!(progress_percent(996, Some(1000)), 100);
}

#[test]
fn half_a_percent_goes_up() {
    assert_eq!(progress_percent(1, Some(200)), 1);
    assert_eq!(progress_percent(3, Some(200)), 2);
    assert_eq!(progress_percent(995, Some(1000)), 100);
    assert_eq!(progress_percent(199, Some(40000)), 0);
    assert_eq!(progress_percent(200, Some(40000)), 1);
}

#[test]
fn more_than_announced_goes_past_a_hundred() {
    assert_eq!(progress_percent(15, Some(10)), 150);
    assert_eq!(progress_percent(u32::MAX as u64, Some(100)), u32::MAX);
    assert_eq!(progress_percent(42_949_672, Some(1)), 4_294_967_200);
}

#[test]
fn percent_is_held_at_the_largest_value() {
    assert_eq!(progress_percent(42_949_673, Some(1)), u32::MAX);
    assert_eq!(progress_percent(u64::MAX, Some(1)), u32::MAX);
    assert_eq!(progress_percent(u64::MAX, Some(u64::MAX)), 100);
    assert_eq!(progress_percent(u64::MAX / 2, Some(u64::MAX)), 50);
}

#[test]
fn total_of_zero_bounds_nothing() {
    assert_eq!(progress_percent(0, Some(0)), 0);
    assert_eq!(progress_percent(1, Some(0)), u32::MAX);
}

#[test]
fn percent_never_falls_as_bytes_arrive() {
    let total = Some(777);
    let mut last = 0;
    for received in 0..=1000 {
        let percent = progress_percent(received, total);
        assert!(percent >= last);
        last = percent;
    }
    assert_eq!(last, 129);
}

#[test]
fn chunks_add_up() {
    let mut progress = DownloadProgress::new();
    assert_eq!(progress.received, 0);
    assert_eq!(progress.record_chunk(50, Some(200)), 25);
    assert_eq!(progress.record_chunk(50, Some(200)), 50);
    assert_eq!(progress.record_chunk(0, Some(200)), 50);
    assert_eq!(progress.record_chunk(100, Some(200)), 100);
    assert_eq!(progress.received, 200);
}

#[test]
fn chunks_without_a_total_are_counted_and_reported_as_zero() {
    let mut progress = DownloadProgress::new();
    assert_eq!(progress.record_chunk(4096, None), 0);
    assert_eq!(progress.record_chunk(4096, None), 0);
    assert_eq!(progress.received, 8192);
}

#[test]
fn count_is_held_at_the_largest_value() {
    let mut progress = DownloadProgress { received: u64::MAX - 1 };
    assert_eq!(progress.record_chunk(5, Some(u64::MAX)), 100);
    assert_eq!(progress.received, u64::MAX);
    assert_eq!(progress.record_chunk(5, None), 0);
    assert_eq!(progress.received, u64::MAX);
}
