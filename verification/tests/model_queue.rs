use flume_overwrite::OverwriteQueue;

#[test]
fn model_under_capacity_reports_nothing() {
    let mut q: OverwriteQueue<i32> = OverwriteQueue::new(Some(3));
    assert_eq!(q.send_overwrite(1), None);
    assert_eq!(q.send_overwrite(2), None);
    assert_eq!(q.len(), 2);
    assert_eq!(q.recv(), Some(1));
    assert_eq!(q.recv(), Some(2));
    assert_eq!(q.recv(), None);
}

#[test]
fn model_capacity_three_scenario() {
    let mut q: OverwriteQueue<i32> = OverwriteQueue::new(Some(3));
    assert_eq!(q.send_overwrite(1), None);
    assert_eq!(q.send_overwrite(2), None);
    assert_eq!(q.send_overwrite(3), None);
    assert_eq!(q.send_overwrite(4), Some(vec![1]));
    assert_eq!(q.recv(), Some(2));
    assert_eq!(q.recv(), Some(3));
    assert_eq!(q.recv(), Some(4));
    assert_eq!(q.recv(), None);
}

#[test]
fn model_capacity_two_slides_window() {
    let mut q: OverwriteQueue<i32> = OverwriteQueue::new(Some(2));
    assert_eq!(q.send_overwrite(1), None);
    assert_eq!(q.send_overwrite(2), None);
    assert_eq!(q.send_overwrite(3), Some(vec![1]));
    assert_eq!(q.send_overwrite(4), Some(vec![2]));
    assert_eq!(q.recv(), Some(3));
    assert_eq!(q.recv(), Some(4));
    assert_eq!(q.recv(), None);
}

#[test]
fn model_five_sends_evict_three() {
    let mut q: OverwriteQueue<i32> = OverwriteQueue::new(Some(2));
    let mut reported = Vec::new();
    for i in 0..5 {
        if let Some(mut drained) = q.send_overwrite(i) {
            reported.append(&mut drained);
        }
    }
    assert_eq!(reported, vec![0, 1, 2]);
    assert_eq!(q.recv(), Some(3));
    assert_eq!(q.recv(), Some(4));
    assert_eq!(q.recv(), None);
}

#[test]
fn model_zero_capacity_evicts_the_preceding_send() {
    let mut q: OverwriteQueue<i32> = OverwriteQueue::new(Some(0));
    assert_eq!(q.capacity(), Some(0));
    assert_eq!(q.send_overwrite(1), None);
    assert_eq!(q.send_overwrite(2), Some(vec![1]));
    assert_eq!(q.send_overwrite(3), Some(vec![2]));
    assert_eq!(q.recv(), Some(3));
    assert_eq!(q.recv(), None);
}

#[test]
fn model_unbounded_never_evicts() {
    let mut q: OverwriteQueue<i32> = OverwriteQueue::new(None);
    assert_eq!(q.capacity(), None);
    for i in 0..100 {
        assert_eq!(q.send_overwrite(i), None);
    }
    assert_eq!(q.len(), 100);
    assert_eq!(q.recv(), Some(0));
}

#[test]
fn model_eviction_list_is_oldest_first() {
    let mut q: OverwriteQueue<&str> = OverwriteQueue::new(Some(3));
    assert_eq!(q.send_overwrite("a"), None);
    assert_eq!(q.send_overwrite("b"), None);
    assert_eq!(q.send_overwrite("c"), None);
    // Reading nothing back, the fourth send evicts only "a"; the list never
    // holds the value just sent.
    let drained = q.send_overwrite("d").unwrap();
    assert_eq!(drained, vec!["a"]);
    assert!(!drained.contains(&"d"));
}
