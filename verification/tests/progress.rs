use engine::progress::Progress;

#[test]
fn progress_adds_up_to_its_total() {
    let mut p = Progress::new(2, 10);
    assert_eq!(p.get(), 2);
    assert_eq!(p.max(), 10);
    assert!(!p.is_finished());
    p.add(5);
    assert_eq!(p.get(), 7);
    p.add(100);
    assert_eq!(p.get(), 10);
    assert!(p.is_finished());
    p += 3usize;
    assert_eq!(p.get(), 10);
}

#[test]
fn progress_add_never_overflows() {
    let mut p = Progress::new(5, usize::MAX);
    p.add(usize::MAX);
    assert_eq!(p.get(), usize::MAX);
}

#[test]
fn default_progress_counts_to_a_hundred() {
    let p = Progress::default();
    assert_eq!(p.get(), 0);
    assert_eq!(p.max(), 100);
}

#[test]
fn progresses_sum_and_finish_together() {
    let a = Progress::new(3, 4);
    let b = Progress::new(5, 5);
    let sum = &a + &b;
    assert_eq!(sum.get(), 8);
    assert_eq!(sum.max(), 9);
    let total = Progress::sum(&[Progress::new(1, 2), Progress::new(0, 3), Progress::new(4, 4)]);
    assert_eq!(total.get(), 5);
    assert_eq!(total.max(), 9);
    assert!(!total.is_finished());
    let done = Progress::sum(&[Progress::new(2, 2), Progress::new(3, 3)]);
    assert!(done.is_finished());
    let empty = Progress::sum(&[]);
    assert!(empty.is_finished());
    let mut acc = Progress::new(1, 1);
    acc += &Progress::new(0, 2);
    assert_eq!((acc.get(), acc.max()), (1, 3));
}
