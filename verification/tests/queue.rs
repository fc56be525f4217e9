use esp32_cam_ov2640::{
    FrameFormat, FrameInfo, FrameQueue, FrameSize, QueueError,
};

fn info(sequence: u64) -> FrameInfo {
    FrameInfo::new(FrameSize::qvga(), FrameFormat::Jpeg, 100 + sequence as usize, sequence, None)
}

#[test]
fn queue_is_fifo() {
    let mut q: FrameQueue<3> = FrameQueue::new();
    assert!(q.is_empty());
    assert_eq!(q.capacity(), 3);
    assert_eq!(q.push(info(1)), Ok(()));
    assert_eq!(q.push(info(2)), Ok(()));
    assert_eq!(q.len(), 2);
    assert_eq!(q.pop(), Some(info(1)));
    assert_eq!(q.push(info(3)), Ok(()));
    assert_eq!(q.push(info(4)), Ok(()));
    assert!(q.is_full());
    assert_eq!(q.pop(), Some(info(2)));
    assert_eq!(q.pop(), Some(info(3)));
    assert_eq!(q.pop(), Some(info(4)));
    assert_eq!(q.pop(), None);
    assert_eq!(q.dropped(), 0);
}

#[test]
fn queue_full_hands_frame_back() {
    let mut q: FrameQueue<2> = FrameQueue::default();
    assert_eq!(q.push(info(1)), Ok(()));
    assert_eq!(q.push(info(2)), Ok(()));
    assert_eq!(q.push(info(3)), Err(QueueError::Full(info(3))));
    assert_eq!(q.len(), 2);
    assert_eq!(q.pop(), Some(info(1)));
}

#[test]
fn queue_zero_capacity() {
    let mut q: FrameQueue<0> = FrameQueue::new();
    assert_eq!(q.push(info(1)), Err(QueueError::ZeroCapacity(info(1))));
    q.push_overwrite_oldest(info(2));
    assert_eq!(q.dropped(), 1);
    assert_eq!(q.pop(), None);
    assert!(q.is_empty());
    assert!(q.is_full());
}

#[test]
fn queue_overwrite_keeps_latest() {
    let mut q: FrameQueue<2> = FrameQueue::new();
    q.push_overwrite_oldest(info(1));
    q.push_overwrite_oldest(info(2));
    assert_eq!(q.dropped(), 0);
    q.push_overwrite_oldest(info(3));
    assert_eq!(q.dropped(), 1);
    q.push_overwrite_oldest(info(4));
    assert_eq!(q.dropped(), 2);
    assert_eq!(q.pop(), Some(info(3)));
    assert_eq!(q.pop(), Some(info(4)));
    assert_eq!(q.pop(), None);
}

#[test]
fn queue_clear_keeps_drop_count() {
    let mut q: FrameQueue<1> = FrameQueue::new();
    q.push_overwrite_oldest(info(1));
    q.push_overwrite_oldest(info(2));
    q.clear();
    assert!(q.is_empty());
    assert_eq!(q.dropped(), 1);
    assert_eq!(q.push(info(5)), Ok(()));
    assert_eq!(q.pop(), Some(info(5)));
}
