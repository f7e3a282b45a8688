use kunquant_rs::BatchParams;

#[test]
fn test_batch_params_validation() {
    // Valid parameters
    assert!(BatchParams::new(8, 100, 0, 100).is_ok());
    assert!(BatchParams::new(16, 100, 10, 50).is_ok());
}

#[test]
fn test_full_range_params() {
    let params = BatchParams::full_range(24, 500).unwrap();
    assert_eq!(params.num_stocks, 24);
    assert_eq!(params.total_time, 500);
    assert_eq!(params.cur_time, 0);
    assert_eq!(params.length, 500);
}

#[test]
fn new_keeps_every_value_as_given() {
    let p = BatchParams::new(16, 252, 232, 20).unwrap();
    assert_eq!((p.num_stocks, p.total_time, p.cur_time, p.length), (16, 252, 232, 20));
}

#[test]
fn new_does_not_enforce_the_window() {
    // The window runs past the data; the engine's caller is responsible for it.
    let p = BatchParams::new(7, 10, 8, 5).unwrap();
    assert_eq!((p.num_stocks, p.cur_time, p.length), (7, 8, 5));
}

#[test]
fn full_range_equals_new_from_zero() {
    for (n, t) in [(8usize, 1usize), (16, 100), (24, 500), (0, 0)] {
        let a = BatchParams::full_range(n, t).unwrap();
        let b = BatchParams::new(n, t, 0, t).unwrap();
        assert_eq!(
            (a.num_stocks, a.total_time, a.cur_time, a.length),
            (b.num_stocks, b.total_time, b.cur_time, b.length)
        );
        assert!(a.cur_time + a.length <= a.total_time);
    }
}
