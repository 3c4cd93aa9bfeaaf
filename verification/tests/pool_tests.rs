use v4l2_capture::errors::StreamStateError;
use v4l2_capture::ownership::BufState;
use v4l2_capture::pool::BufferPool;

#[test]
fn allocate_starts_free_and_zeroed() {
    let pool = BufferPool::allocate(3, 8);
    assert_eq!(pool.buffer_count(), 3);
    assert_eq!(pool.frame_size(), 8);
    assert!(!pool.streaming());
    for i in 0..3 {
        assert_eq!(pool.state_of(i), BufState::Free);
        assert_eq!(pool.buffer(i).as_slice(), &[0u8; 8][..]);
    }
}

#[test]
fn streaming_demands_a_nonempty_pool() {
    let mut empty = BufferPool::allocate(0, 8);
    empty.enqueue_all();
    assert_eq!(
        empty.start_streaming(),
        Err(StreamStateError::NoQueuedBuffers)
    );
    assert!(!empty.streaming());

    let mut pool = BufferPool::allocate(2, 8);
    pool.enqueue_all();
    assert_eq!(pool.start_streaming(), Ok(()));
    assert!(pool.streaming());
}

#[test]
fn buffer_conservation_over_pairs() {
    // Run acquire/release pairs and count the hand-offs: at every
    // pair boundary each index has been queued (initial enqueue plus
    // releases) exactly once more than it has been dequeued.
    let n = 3usize;
    let mut pool = BufferPool::allocate(n, 4);
    pool.enqueue_all();
    assert_eq!(pool.start_streaming(), Ok(()));
    let mut dequeues = vec![0usize; n];
    let mut releases = vec![0usize; n];
    for round in 0..4 {
        let index = (round * 2 + 1) % n;
        assert_eq!(pool.state_of(index), BufState::Queued);
        pool.dequeue(index);
        dequeues[index] += 1;
        assert_eq!(pool.state_of(index), BufState::Dequeued);
        // mid-pair: queued count equals dequeued count for this index
        assert_eq!(1 + releases[index], dequeues[index]);
        pool.requeue(index);
        releases[index] += 1;
        assert_eq!(pool.state_of(index), BufState::Queued);
        for i in 0..n {
            // pair boundary: queued exactly once more than dequeued
            assert_eq!(1 + releases[i], dequeues[i] + 1);
        }
    }
}

#[test]
fn stop_streaming_invalidates_all_buffers() {
    let mut pool = BufferPool::allocate(2, 4);
    pool.enqueue_all();
    assert_eq!(pool.start_streaming(), Ok(()));
    pool.stop_streaming();
    assert!(!pool.streaming());
    assert_eq!(pool.state_of(0), BufState::Free);
    assert_eq!(pool.state_of(1), BufState::Free);
    pool.teardown();
    assert_eq!(pool.buffer_count(), 0);
}

#[test]
fn frame_data_views_the_valid_prefix() {
    let mut pool = BufferPool::allocate(1, 6);
    pool.enqueue_all();
    assert_eq!(pool.start_streaming(), Ok(()));
    pool.dequeue(0);
    let data = pool.frame_data(0, 4);
    assert_eq!(data, &[0u8, 0, 0, 0]);
}
