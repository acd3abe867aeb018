use bazaar_watch::window::{Sample, SampleWindow, DEFAULT_CAPACITY};

fn sample(timestamp: u64, buy_price: u64, sell_price: u64) -> Sample {
    Sample { timestamp, buy_price, sell_price }
}

#[test]
fn new_window_is_empty() {
    let window = SampleWindow::new();
    assert_eq!(window.len(), 0);
    assert!(window.is_empty());
    assert_eq!(window.capacity(), 200);
    assert_eq!(DEFAULT_CAPACITY, 200);
    assert_eq!(window.time_min(), 0);
    assert_eq!(window.current_time(), 0);
    assert_eq!(window.time_bounds(), (0, 0));
    assert!(window.samples().is_empty());
    assert!(window.buy_series().is_empty());
    assert!(window.sell_series().is_empty());
}

#[test]
fn add_stamps_samples_from_zero() {
    let mut window = SampleWindow::with_capacity(4);
    window.add(80, 100);
    assert_eq!(window.samples(), &vec![sample(0, 80, 100)]);
    assert_eq!(window.time_bounds(), (0, 1));
    window.add(81, 101);
    window.add(82, 102);
    assert_eq!(
        window.samples(),
        &vec![sample(0, 80, 100), sample(1, 81, 101), sample(2, 82, 102)]
    );
    assert_eq!(window.len(), 3);
    assert!(!window.is_empty());
    assert_eq!(window.time_min(), 0);
    assert_eq!(window.current_time(), 3);
}

#[test]
fn add_evicts_the_oldest_when_full() {
    let mut window = SampleWindow::with_capacity(3);
    for i in 0..3u64 {
        window.add(10 + i, 20 + i);
    }
    assert_eq!(window.len(), 3);
    assert_eq!(window.time_min(), 0);
    window.add(13, 23);
    assert_eq!(window.len(), 3);
    assert_eq!(window.time_min(), 1);
    assert_eq!(window.current_time(), 4);
    assert_eq!(
        window.samples(),
        &vec![sample(1, 11, 21), sample(2, 12, 22), sample(3, 13, 23)]
    );
    window.add(14, 24);
    assert_eq!(window.time_min(), 2);
    assert_eq!(window.time_bounds(), (2, 5));
    assert_eq!(
        window.samples(),
        &vec![sample(2, 12, 22), sample(3, 13, 23), sample(4, 14, 24)]
    );
}

#[test]
fn length_never_exceeds_capacity() {
    let mut window = SampleWindow::new();
    for i in 0..450u64 {
        window.add(i, 2 * i);
        let added = i + 1;
        assert!(window.len() <= 200);
        assert_eq!(window.len() as u64, added.min(200));
        assert_eq!(window.current_time(), added);
        assert_eq!(window.time_min(), added.saturating_sub(200));
        assert_eq!(window.current_time() - window.time_min(), window.len() as u64);
    }
    assert_eq!(window.time_min(), 250);
    assert_eq!(window.samples()[0], sample(250, 250, 500));
    assert_eq!(window.samples()[199], sample(449, 449, 898));
}

#[test]
fn timestamps_are_contiguous_across_evictions() {
    let mut window = SampleWindow::with_capacity(5);
    for i in 0..23u64 {
        window.add(i, i);
        let samples = window.samples();
        assert_eq!(samples[0].timestamp, window.time_min());
        assert_eq!(samples[samples.len() - 1].timestamp, i);
        for pair in samples.windows(2) {
            assert_eq!(pair[0].timestamp + 1, pair[1].timestamp);
        }
    }
}

#[test]
fn window_of_capacity_one_keeps_the_latest() {
    let mut window = SampleWindow::with_capacity(1);
    window.add(5, 6);
    assert_eq!(window.samples(), &vec![sample(0, 5, 6)]);
    assert_eq!(window.time_min(), 0);
    window.add(7, 8);
    assert_eq!(window.samples(), &vec![sample(1, 7, 8)]);
    assert_eq!(window.time_min(), 1);
    assert_eq!(window.current_time(), 2);
}

#[test]
fn window_of_capacity_zero_keeps_nothing() {
    let mut window = SampleWindow::with_capacity(0);
    window.add(5, 6);
    window.add(7, 8);
    assert!(window.is_empty());
    assert_eq!(window.time_min(), 2);
    assert_eq!(window.current_time(), 2);
}

#[test]
fn reset_starts_over_and_keeps_the_capacity() {
    let mut window = SampleWindow::with_capacity(2);
    window.add(1, 2);
    window.add(3, 4);
    window.add(5, 6);
    assert_eq!(window.time_min(), 1);
    window.reset();
    assert!(window.is_empty());
    assert_eq!(window.capacity(), 2);
    assert_eq!(window.time_bounds(), (0, 0));
    window.add(9, 10);
    assert_eq!(window.samples(), &vec![sample(0, 9, 10)]);
}

#[test]
fn series_pair_each_price_with_its_timestamp() {
    let mut window = SampleWindow::with_capacity(2);
    window.add(1, 2);
    window.add(3, 4);
    window.add(5, 6);
    assert_eq!(window.buy_series(), vec![(1, 3), (2, 5)]);
    assert_eq!(window.sell_series(), vec![(1, 4), (2, 6)]);
}
