use v4l2_capture::device::{
    classify_open_error, interpret_enum_result, interpret_wait, keep_newest, DequeueOutcome,
    EnumSignal, UiAction, V4l2VideoDevice, WaitOutcome, EACCES, EINVAL, ENOENT,
};
use v4l2_capture::errors::{
    CapabilityError, ControlCallError, DeviceOpenError, FormatError, NegotiationError,
    ResizeError, StreamStateError,
};
use v4l2_capture::format::{FormatInfo, CAP_STREAMING, CAP_VIDEO_CAPTURE, FIELD_NONE, PIX_FMT_NV12, PIX_FMT_YUYV};

fn good_caps() -> u32 {
    CAP_VIDEO_CAPTURE | CAP_STREAMING
}

fn good_format() -> FormatInfo {
    FormatInfo {
        width: 4,
        height: 2,
        pixelformat: PIX_FMT_YUYV,
        field: FIELD_NONE,
        sizeimage: 16,
    }
}

/// A device brought all the way to streaming, as construction leaves
/// it: buffers allocated, queued, capture started.
fn streaming_device(n: usize) -> V4l2VideoDevice {
    let mut dev = V4l2VideoDevice::negotiate(good_caps(), good_format()).unwrap();
    dev.allocate_buffers(n);
    dev.enqueue_all();
    dev.start_streaming().unwrap();
    dev
}

#[test]
fn negotiate_accepts_supported_device() {
    let dev = V4l2VideoDevice::negotiate(good_caps(), good_format()).unwrap();
    assert_eq!(dev.width(), 4);
    assert_eq!(dev.height(), 2);
    assert_eq!(dev.frame_size(), 16);
    assert!(!dev.streaming());
    assert!(dev.get_frame_sizes().is_empty());
}

#[test]
fn negotiate_rejects_missing_capabilities() {
    assert_eq!(
        V4l2VideoDevice::negotiate(CAP_STREAMING, good_format()).err(),
        Some(NegotiationError::Capability(CapabilityError::MissingCapture))
    );
    assert_eq!(
        V4l2VideoDevice::negotiate(CAP_VIDEO_CAPTURE, good_format()).err(),
        Some(NegotiationError::Capability(CapabilityError::MissingStreaming))
    );
}

#[test]
fn negotiate_rejects_unsupported_format() {
    let mut other = good_format();
    other.pixelformat = PIX_FMT_NV12;
    assert_eq!(
        V4l2VideoDevice::negotiate(good_caps(), other).err(),
        Some(NegotiationError::Format(FormatError::UnsupportedLayout))
    );
    let mut interlaced = good_format();
    interlaced.field = 4;
    assert_eq!(
        V4l2VideoDevice::negotiate(good_caps(), interlaced).err(),
        Some(NegotiationError::Format(FormatError::Interlaced))
    );
}

#[test]
fn acquire_before_streaming_is_refused() {
    let mut dev = V4l2VideoDevice::negotiate(good_caps(), good_format()).unwrap();
    let r = dev.acquire_frame(DequeueOutcome { index: 0, bytes_used: 4 });
    assert_eq!(r.err(), Some(StreamStateError::NotStreaming));
}

#[test]
fn acquire_binds_frame_to_buffer() {
    let mut dev = streaming_device(2);
    let frame = dev
        .acquire_frame(DequeueOutcome { index: 1, bytes_used: 12 })
        .unwrap();
    assert_eq!(frame.index(), 1);
    assert_eq!(frame.bytes_used(), 12);
    assert_eq!(frame.width(), 4);
    assert_eq!(frame.height(), 2);
    assert_eq!(dev.frame_data(&frame), &[0u8; 12][..]);
    assert_eq!(dev.release_frame(frame), Ok(()));
}

#[test]
fn acquire_rejects_bad_reports() {
    let mut dev = streaming_device(2);
    // an index outside the pool
    let r = dev.acquire_frame(DequeueOutcome { index: 9, bytes_used: 4 });
    assert_eq!(r.err(), Some(StreamStateError::UnknownBuffer));
    // a length above the buffer capacity
    let r = dev.acquire_frame(DequeueOutcome { index: 0, bytes_used: 17 });
    assert_eq!(r.err(), Some(StreamStateError::LengthExceedsCapacity));
}

#[test]
fn no_buffer_is_lent_twice() {
    let mut dev = streaming_device(2);
    let first = dev
        .acquire_frame(DequeueOutcome { index: 0, bytes_used: 8 })
        .unwrap();
    // while the first frame lives, the same index cannot be acquired
    let second = dev.acquire_frame(DequeueOutcome { index: 0, bytes_used: 8 });
    assert_eq!(second.err(), Some(StreamStateError::BufferNotQueued));
    // the other buffer is unaffected
    let other = dev
        .acquire_frame(DequeueOutcome { index: 1, bytes_used: 8 })
        .unwrap();
    assert_eq!(other.index(), 1);
    assert_eq!(dev.release_frame(first), Ok(()));
    // after the release, the index is queued and acquirable again
    let again = dev
        .acquire_frame(DequeueOutcome { index: 0, bytes_used: 8 })
        .unwrap();
    assert_eq!(again.index(), 0);
    assert_eq!(dev.release_frame(again), Ok(()));
    assert_eq!(dev.release_frame(other), Ok(()));
}

#[test]
fn release_demands_a_lent_buffer() {
    let mut dev = streaming_device(2);
    let frame = dev
        .acquire_frame(DequeueOutcome { index: 0, bytes_used: 8 })
        .unwrap();
    assert_eq!(dev.release_frame(frame), Ok(()));
    // a second release of the same slot finds it already queued
    let mut dev2 = streaming_device(2);
    let f1 = dev2
        .acquire_frame(DequeueOutcome { index: 1, bytes_used: 8 })
        .unwrap();
    assert_eq!(dev2.release_frame(f1), Ok(()));
    let f2 = dev2
        .acquire_frame(DequeueOutcome { index: 1, bytes_used: 8 })
        .unwrap();
    assert_eq!(dev2.release_frame(f2), Ok(()));
}

#[test]
fn release_after_stop_finds_no_lent_buffer() {
    let mut dev = streaming_device(1);
    let frame = dev
        .acquire_frame(DequeueOutcome { index: 0, bytes_used: 8 })
        .unwrap();
    // stopping the stream invalidates every slot, so the stale frame
    // no longer names a lent buffer
    dev.stop_streaming();
    assert_eq!(
        dev.release_frame(frame),
        Err(StreamStateError::BufferNotDequeued)
    );
    // and once the pool is torn down, its index is not even known
    let mut dev2 = streaming_device(1);
    let frame2 = dev2
        .acquire_frame(DequeueOutcome { index: 0, bytes_used: 8 })
        .unwrap();
    dev2.stop_streaming();
    dev2.teardown_buffers();
    assert_eq!(
        dev2.release_frame(frame2),
        Err(StreamStateError::UnknownBuffer)
    );
}

#[test]
fn resize_with_out_of_range_index_changes_nothing() {
    let mut dev = streaming_device(2);
    dev.record_frame_sizes(vec![(640, 480), (1280, 720)]);
    let r = dev.set_frame_size(2);
    assert_eq!(r, Err(ResizeError::IndexOutOfRange));
    // the pool is untouched: still streaming, still two buffers
    assert!(dev.streaming());
    assert_eq!(dev.width(), 4);
    assert_eq!(dev.height(), 2);
    assert_eq!(dev.get_frame_sizes().as_slice(), &[(640, 480), (1280, 720)]);
    // and capture still works
    let frame = dev
        .acquire_frame(DequeueOutcome { index: 0, bytes_used: 8 })
        .unwrap();
    assert_eq!(dev.release_frame(frame), Ok(()));
}

#[test]
fn resize_tears_down_and_renegotiates() {
    let mut dev = streaming_device(2);
    dev.record_frame_sizes(vec![(640, 480), (1280, 720)]);
    let chosen = dev.set_frame_size(1).unwrap();
    assert_eq!(chosen, (1280, 720));
    assert!(!dev.streaming());
    // the driver renegotiates with the device and reports the format
    let renegotiated = FormatInfo {
        width: 1280,
        height: 720,
        pixelformat: PIX_FMT_YUYV,
        field: FIELD_NONE,
        sizeimage: 1843200,
    };
    assert_eq!(dev.apply_format(renegotiated), Ok(()));
    assert_eq!(dev.width(), 1280);
    assert_eq!(dev.height(), 720);
    assert_eq!(dev.frame_size(), 1843200);
    dev.allocate_buffers(4);
    dev.enqueue_all();
    assert_eq!(dev.start_streaming(), Ok(()));
    assert!(dev.streaming());
}

#[test]
fn apply_format_rejects_other_layouts() {
    let mut dev = streaming_device(1);
    dev.record_frame_sizes(vec![(640, 480)]);
    dev.set_frame_size(0).unwrap();
    let mut other = good_format();
    other.pixelformat = PIX_FMT_NV12;
    assert_eq!(dev.apply_format(other), Err(FormatError::UnsupportedLayout));
    // nothing changed
    assert_eq!(dev.width(), 4);
    assert_eq!(dev.frame_size(), 16);
}

#[test]
fn open_errors_classify_by_code() {
    assert_eq!(classify_open_error(ENOENT), DeviceOpenError::NotFound);
    assert_eq!(classify_open_error(EACCES), DeviceOpenError::PermissionDenied);
    assert_eq!(classify_open_error(25), DeviceOpenError::NotACaptureDevice);
}

#[test]
fn wait_results_classify_by_return() {
    assert_eq!(interpret_wait(1, 0), Ok(WaitOutcome::Ready));
    assert_eq!(interpret_wait(0, 0), Ok(WaitOutcome::TimedOut));
    assert_eq!(interpret_wait(-1, 4), Err(ControlCallError { code: 4 }));
}

#[test]
fn enumeration_results_classify_by_code() {
    assert_eq!(interpret_enum_result(0, 0), Ok(EnumSignal::Entry));
    assert_eq!(interpret_enum_result(-1, EINVAL), Ok(EnumSignal::End));
    assert_eq!(
        interpret_enum_result(-1, 5),
        Err(ControlCallError { code: 5 })
    );
}

#[test]
fn ui_action_carries_the_chosen_index() {
    let action = UiAction::ChangeSize(3);
    match action {
        UiAction::ChangeSize(index) => assert_eq!(index, 3),
    }
}

#[test]
fn handoff_keeps_only_the_newest() {
    assert_eq!(keep_newest(Some(1), vec![2, 3, 4]), Some(4));
    assert_eq!(keep_newest(None::<u32>, vec![7]), Some(7));
    assert_eq!(keep_newest(Some(5), Vec::new()), Some(5));
    assert_eq!(keep_newest(None::<u32>, Vec::new()), None);
}

#[test]
fn empty_pool_cannot_start_streaming() {
    let mut dev = V4l2VideoDevice::negotiate(good_caps(), good_format()).unwrap();
    dev.allocate_buffers(0);
    dev.enqueue_all();
    assert_eq!(
        dev.start_streaming(),
        Err(StreamStateError::NoQueuedBuffers)
    );
    assert!(!dev.streaming());
}
