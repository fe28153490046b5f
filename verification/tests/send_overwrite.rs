use flume_overwrite::bounded_overwrite;

#[test]
fn test_send_overwrite_under_capacity() {
    let (sender, receiver) = bounded_overwrite(3);
    assert_eq!(sender.send_overwrite(1).unwrap(), None);
    assert_eq!(sender.send_overwrite(2).unwrap(), None);
    assert_eq!(receiver.try_recv().unwrap(), 1);
    assert_eq!(receiver.try_recv().unwrap(), 2);
}

#[test]
fn test_send_overwrite_at_capacity() {
    let (sender, receiver) = bounded_overwrite(2);
    assert_eq!(sender.send_overwrite(1).unwrap(), None);
    assert_eq!(sender.send_overwrite(2).unwrap(), None);

    let drained = sender.send_overwrite(3).unwrap();
    assert_eq!(drained, Some(vec![1]));
    assert_eq!(receiver.try_recv().unwrap(), 2);
    assert_eq!(receiver.try_recv().unwrap(), 3);
}

#[test]
fn test_send_overwrite_multiple_overwrites() {
    let (sender, receiver) = bounded_overwrite(2);
    assert_eq!(sender.send_overwrite(1).unwrap(), None);
    assert_eq!(sender.send_overwrite(2).unwrap(), None);
    // Fill up, then send two more, should drain two
    let drained = sender.send_overwrite(3).unwrap();
    assert_eq!(drained, Some(vec![1]));
    let drained2 = sender.send_overwrite(4).unwrap();
    assert_eq!(drained2, Some(vec![2]));
    assert_eq!(receiver.try_recv().unwrap(), 3);
    assert_eq!(receiver.try_recv().unwrap(), 4);
}

#[test]
fn test_send_overwrite_unbounded() {
    let (sender, receiver) = bounded_overwrite(2);
    assert_eq!(sender.send_overwrite(1).unwrap(), None);
    assert_eq!(sender.send_overwrite(2).unwrap(), None);
    assert_eq!(receiver.try_recv().unwrap(), 1);
    assert_eq!(receiver.try_recv().unwrap(), 2);
}

#[test]
fn capacity_three_evicts_only_the_oldest() {
    let (sender, receiver) = bounded_overwrite(3);
    assert_eq!(sender.send_overwrite(1).unwrap(), None);
    assert_eq!(sender.send_overwrite(2).unwrap(), None);
    assert_eq!(sender.send_overwrite(3).unwrap(), None);
    assert_eq!(sender.send_overwrite(4).unwrap(), Some(vec![1]));
    assert_eq!(receiver.try_recv().unwrap(), 2);
    assert_eq!(receiver.try_recv().unwrap(), 3);
    assert_eq!(receiver.try_recv().unwrap(), 4);
    assert!(receiver.try_recv().is_err());
}

#[test]
fn five_sends_keep_the_last_two() {
    let (sender, receiver) = bounded_overwrite(2);
    let mut reported: usize = 0;
    for i in 0..5 {
        if let Some(drained) = sender.send_overwrite(i).unwrap() {
            reported += drained.len();
        }
    }
    let mut received = Vec::new();
    while let Ok(val) = receiver.try_recv() {
        received.push(val);
    }
    assert!(received.len() <= 2);
    if received.len() == 2 {
        assert_eq!(received, vec![3, 4]);
    }
    assert_eq!(reported, 3);
}

#[test]
fn send_succeeds_after_consumer_dropped() {
    let (sender, receiver) = bounded_overwrite(2);
    drop(receiver);
    assert_eq!(sender.send_overwrite(1).unwrap(), None);
    assert_eq!(sender.send_overwrite(2).unwrap(), None);
    assert_eq!(sender.send_overwrite(3).unwrap(), Some(vec![1]));
}

#[test]
fn clones_share_one_queue() {
    let (sender, receiver) = bounded_overwrite(2);
    let other = sender.clone();
    assert_eq!(sender.send_overwrite(1).unwrap(), None);
    assert_eq!(other.send_overwrite(2).unwrap(), None);
    assert_eq!(other.send_overwrite(3).unwrap(), Some(vec![1]));
    assert_eq!(receiver.try_recv().unwrap(), 2);
    assert_eq!(receiver.try_recv().unwrap(), 3);
}

#[test]
fn transparent_sender_surface() {
    let (sender, receiver) = bounded_overwrite(2);
    assert_eq!(sender.sender().capacity(), Some(2));
    assert_eq!(sender.sender().len(), 0);
    sender.send_overwrite(7).unwrap();
    assert_eq!(sender.sender().len(), 1);
    assert_eq!(sender.eviction_receiver().len(), 1);
    assert_eq!(receiver.try_recv().unwrap(), 7);
}

#[test]
fn zero_capacity_evicts_the_preceding_send() {
    let (sender, receiver) = bounded_overwrite(0);
    assert_eq!(sender.capacity(), Some(0));
    // The transport under a zero-bound queue keeps one buffered slot, so a
    // send can complete with nobody actively receiving.
    assert_eq!(sender.sender().capacity(), Some(1));
    assert_eq!(sender.send_overwrite(1).unwrap(), None);
    assert_eq!(sender.send_overwrite(2).unwrap(), Some(vec![1]));
    assert_eq!(sender.send_overwrite(3).unwrap(), Some(vec![2]));
    assert_eq!(receiver.try_recv().unwrap(), 3);
    assert!(receiver.try_recv().is_err());
}

#[test]
fn capacity_reports_the_creation_bound() {
    let (sender, _receiver) = bounded_overwrite::<i32>(4);
    assert_eq!(sender.capacity(), Some(4));
    assert_eq!(sender.clone().capacity(), Some(4));
}
