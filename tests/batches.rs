use camera2d::batches::DrawBatches;

#[test]
fn batches_start_empty() {
    let mut b: DrawBatches<u32, u8> = DrawBatches::new();
    assert!(b.drain_draws().is_empty());
    assert!(b.drain_rects().is_empty());
}

#[test]
fn draws_and_rects_are_kept_apart() {
    let mut b = DrawBatches::new();
    b.push_draw("A");
    b.push_rect(1u8);
    b.push_draw("B");
    b.push_rect(2u8);
    b.push_draw("C");
    assert_eq!(b.drain_draws(), vec!["A", "B", "C"]);
    assert_eq!(b.drain_rects(), vec![1u8, 2u8]);
}

#[test]
fn draining_draws_leaves_rects() {
    let mut b = DrawBatches::new();
    b.push_draw(5i32);
    b.push_rect('r');
    assert_eq!(b.drain_draws(), vec![5i32]);
    assert_eq!(b.drain_draws(), Vec::<i32>::new());
    assert_eq!(b.drain_rects(), vec!['r']);
}

#[test]
fn draining_rects_twice_gives_all_then_nothing() {
    let mut b = DrawBatches::new();
    b.push_rect(3u64);
    b.push_rect(4u64);
    b.push_draw(0u8);
    assert_eq!(b.drain_rects(), vec![3u64, 4u64]);
    assert_eq!(b.drain_rects(), Vec::<u64>::new());
    assert_eq!(b.drain_draws(), vec![0u8]);
}
