use ifs_render::histogram::IfsHistogram;

#[test]
fn new_histogram_is_zeroed() {
    let h = IfsHistogram::new([3, 2]);
    assert_eq!(h.frame, [3, 2]);
    assert_eq!(h.max, 0);
    assert_eq!(h.histogram.len(), 6);
    assert!(h.histogram.iter().all(|&c| c == 0));
}

#[test]
fn new_histogram_of_empty_frame() {
    let h = IfsHistogram::new([0, 5]);
    assert_eq!(h.histogram.len(), 0);
    assert_eq!(h.max, 0);
}

#[test]
fn index_is_column_plus_row_times_width() {
    let h = IfsHistogram::new([4, 3]);
    assert_eq!(h.index2d_to_index1d((1, 2)), 9);
    assert_eq!(h.index2d_to_index1d((0, 0)), 0);
    assert_eq!(h.index2d_to_index1d((3, 2)), 11);
}

#[test]
fn pixels_have_distinct_counters() {
    let (w, ht) = (5usize, 4usize);
    let h = IfsHistogram::new([w, ht]);
    let mut seen = vec![false; w * ht];
    for y in 0..ht {
        for x in 0..w {
            let i = h.index2d_to_index1d((x, y));
            assert!(i < w * ht);
            assert!(!seen[i]);
            seen[i] = true;
        }
    }
    assert!(seen.iter().all(|&s| s));
}

#[test]
fn load_counts_takes_counts_and_largest() {
    let mut h = IfsHistogram::new([3, 2]);
    h.load_counts(&[0, 5, 2, 7, 1, 0]);
    assert_eq!(h.histogram, vec![0, 5, 2, 7, 1, 0]);
    assert_eq!(h.max, 7);
    assert_eq!(h.count_at(1, 0), 5);
    assert_eq!(h.count_at(0, 1), 7);
    assert_eq!(h.count_at(2, 1), 0);
}

#[test]
fn load_counts_all_zero_has_zero_max() {
    let mut h = IfsHistogram::new([2, 2]);
    h.max = 9;
    h.load_counts(&[0, 0, 0, 0]);
    assert_eq!(h.max, 0);
}

#[test]
fn loaded_max_is_reached_by_a_pixel() {
    let mut h = IfsHistogram::new([2, 3]);
    h.load_counts(&[4, 9, 9, 1, 0, 3]);
    let mut best = 0;
    for y in 0..3 {
        for x in 0..2 {
            assert!(h.count_at(x, y) <= h.max);
            best = best.max(h.count_at(x, y));
        }
    }
    assert_eq!(best, h.max);
}

#[test]
fn reset_zeroes_counts_and_max() {
    let mut h = IfsHistogram::new([2, 2]);
    h.load_counts(&[1, 2, 3, 4]);
    h.reset();
    assert_eq!(h.histogram, vec![0, 0, 0, 0]);
    assert_eq!(h.max, 0);
    assert_eq!(h.frame, [2, 2]);
}

#[test]
fn reset_of_empty_frame_keeps_max() {
    let mut h = IfsHistogram::new([0, 0]);
    h.max = 3;
    h.reset();
    assert_eq!(h.max, 3);
    assert!(h.histogram.is_empty());
}
