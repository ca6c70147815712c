use drop_downloader::progress_object::{ProgressObject, ProgressUpdate};

#[test]
fn new_tracker_is_at_zero() {
    let progress = ProgressObject::new(100, 4);
    assert_eq!(progress.get_max(), 100);
    assert_eq!(progress.get_size(), 4);
    assert_eq!(progress.sum(), 0);
    assert_eq!(progress.get_progress(), (0, 100));
}

#[test]
fn bounds_are_set_once() {
    let mut progress = ProgressObject::new(0, 0);
    progress.set_size(3);
    progress.set_max(300);
    assert_eq!(progress.get_size(), 3);
    assert_eq!(progress.get_max(), 300);
    progress.get(1).add(&mut progress, 50);
    progress.set_size(9);
    progress.set_max(900);
    assert_eq!(progress.get_size(), 3);
    assert_eq!(progress.get_max(), 300);
    assert_eq!(progress.get_count(1), 50);
}

#[test]
fn handle_touches_only_its_chunk() {
    let mut progress = ProgressObject::new(100, 3);
    let handle = progress.get(1);
    assert_eq!(handle.index(), 1);
    handle.add(&mut progress, 10);
    handle.add(&mut progress, 5);
    assert_eq!(
        (progress.get_count(0), progress.get_count(1), progress.get_count(2)),
        (0, 15, 0)
    );
    handle.set(&mut progress, 3);
    assert_eq!(
        (progress.get_count(0), progress.get_count(1), progress.get_count(2)),
        (0, 3, 0)
    );
}

#[test]
fn total_is_the_sum_of_the_counters() {
    let mut progress = ProgressObject::new(1000, 4);
    progress.apply(0, ProgressUpdate::Add(100));
    progress.apply(1, ProgressUpdate::Add(200));
    progress.apply(3, ProgressUpdate::Replace(50));
    progress.apply(2, ProgressUpdate::Keep);
    assert_eq!(progress.sum(), 350);
    assert_eq!(progress.get_progress(), (350, 1000));
}

#[test]
fn adding_never_lowers_the_total() {
    let mut progress = ProgressObject::new(1000, 2);
    let mut last = 0;
    for amount in [0usize, 1, 512, 7, 0, 300] {
        progress.apply(1, ProgressUpdate::Add(amount));
        let now = progress.sum();
        assert!(now >= last);
        last = now;
    }
    assert_eq!(last, 820);
}

#[test]
fn fraction_is_clamped_to_one() {
    let mut progress = ProgressObject::new(100, 2);
    progress.apply(0, ProgressUpdate::Add(80));
    progress.apply(1, ProgressUpdate::Add(80));
    assert_eq!(progress.sum(), 160);
    assert_eq!(progress.get_progress(), (100, 100));
}

#[test]
fn fraction_without_bounds_is_zero_over_zero() {
    let progress = ProgressObject::new(0, 0);
    assert_eq!(progress.get_progress(), (0, 0));
}

#[test]
fn counters_and_total_stop_at_the_largest_number() {
    let mut progress = ProgressObject::new(usize::MAX, 2);
    progress.apply(0, ProgressUpdate::Add(usize::MAX));
    progress.apply(0, ProgressUpdate::Add(1));
    assert_eq!(progress.get_count(0), usize::MAX);
    progress.apply(1, ProgressUpdate::Add(5));
    assert_eq!(progress.sum(), usize::MAX);
    assert_eq!(progress.get_progress(), (usize::MAX, usize::MAX));
}

#[test]
fn update_arithmetic() {
    assert_eq!(ProgressUpdate::Keep.apply_to(7), 7);
    assert_eq!(ProgressUpdate::Add(3).apply_to(7), 10);
    assert_eq!(ProgressUpdate::Replace(3).apply_to(7), 3);
    assert_eq!(ProgressUpdate::Add(usize::MAX).apply_to(7), usize::MAX);
}

#[test]
fn elapsed_time() {
    let mut progress = ProgressObject::new(0, 0);
    progress.set_time_now(1_000);
    assert_eq!(progress.elapsed(1_250), 250);
    assert_eq!(progress.elapsed(1_000), 0);
    assert_eq!(progress.elapsed(999), 0);
}
