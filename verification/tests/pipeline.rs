use gifpipe::encoder::Encoder;
use gifpipe::errors::EncoderError;
use gifpipe::frame::Frame;
use gifpipe::queue::BoundedQueue;

fn rgba(width: u32, height: u32) -> Vec<u8> {
    vec![0u8; (width * height * 4) as usize]
}

#[test]
fn scenario_capacity_two_backpressure() {
    // Capacity 2: frames 0 and 1 are accepted, a third is rejected as full;
    // after the worker drains one slot the retry is accepted; the artifact
    // holds exactly frames 0, 1, 2 in that order.
    let mut enc = Encoder::new(30, 2);
    assert_eq!(enc.add_frame(rgba(2, 1), 2, 1), Ok(true));
    assert_eq!(enc.add_frame(rgba(2, 1), 2, 1), Ok(true));
    assert_eq!(enc.add_frame(rgba(2, 1), 2, 1), Ok(false));
    assert_eq!(enc.get_queue_size(), 2);

    let first = enc.take_frame().expect("one frame queued");
    assert_eq!(first.index, 0);
    assert_eq!(enc.get_queue_size(), 1);

    assert_eq!(enc.add_frame(rgba(2, 1), 2, 1), Ok(true));
    assert_eq!(enc.close(), Ok(()));

    let fed = enc.run_worker(Some(String::from("blob:artifact")));
    let order: Vec<usize> = fed.iter().map(|f| f.index).collect();
    assert_eq!(order, vec![1, 2]);

    assert_eq!(enc.poll_completion(), Ok(Some(String::from("blob:artifact"))));
    assert!(enc.is_closed());
    assert_eq!(enc.poll_completion(), Err(EncoderError::AlreadyRetrieved));
}

#[test]
fn scenario_close_without_frames() {
    // Closing with zero frames submitted resolves the completion with an
    // encoding failure, not with an empty-but-successful artifact.
    let mut enc = Encoder::new(30, 4);
    assert_eq!(enc.close(), Ok(()));
    let fed = enc.run_worker(Some(String::from("blob:artifact")));
    assert!(fed.is_empty());
    assert_eq!(enc.poll_completion(), Err(EncoderError::EncodingFailure));
    assert!(enc.is_closed());
    assert_eq!(enc.get_queue_size(), 0);
    assert_eq!(enc.poll_completion(), Err(EncoderError::AlreadyRetrieved));
}

#[test]
fn submit_after_close_rejected() {
    // After close, submission always fails with UsedAfterClose, whatever
    // the queue's occupancy.
    let mut enc = Encoder::new(30, 4);
    assert_eq!(enc.add_frame(rgba(1, 1), 1, 1), Ok(true));
    assert_eq!(enc.close(), Ok(()));
    assert_eq!(enc.add_frame(rgba(1, 1), 1, 1), Err(EncoderError::UsedAfterClose));
    assert_eq!(enc.get_queue_size(), 1);

    let _fed = enc.run_worker(Some(String::from("blob:a")));
    assert_eq!(enc.poll_completion(), Ok(Some(String::from("blob:a"))));
    assert_eq!(enc.add_frame(rgba(1, 1), 1, 1), Err(EncoderError::UsedAfterClose));
}

#[test]
fn submit_full_queue_keeps_frame_index() {
    // A rejected submission does not advance the frame counter: the next
    // accepted frame takes the next index.
    let mut enc = Encoder::new(30, 1);
    assert_eq!(enc.add_frame(rgba(1, 1), 1, 1), Ok(true));
    assert_eq!(enc.add_frame(rgba(1, 1), 1, 1), Ok(false));
    assert_eq!(enc.add_frame(rgba(1, 1), 1, 1), Ok(false));

    let f0 = enc.take_frame().expect("frame 0 queued");
    assert_eq!(f0.index, 0);

    assert_eq!(enc.add_frame(rgba(1, 1), 1, 1), Ok(true));
    let f1 = enc.take_frame().expect("frame 1 queued");
    assert_eq!(f1.index, 1);
}

#[test]
fn close_twice_reports_already_closed() {
    // The second close fails with AlreadyClosed and corrupts nothing: the
    // pipeline still drains and finishes normally afterwards.
    let mut enc = Encoder::new(30, 2);
    assert_eq!(enc.add_frame(rgba(1, 1), 1, 1), Ok(true));
    assert_eq!(enc.close(), Ok(()));
    assert_eq!(enc.close(), Err(EncoderError::AlreadyClosed));
    assert_eq!(enc.get_queue_size(), 1);

    let fed = enc.run_worker(Some(String::from("blob:ok")));
    assert_eq!(fed.len(), 1);
    assert_eq!(enc.poll_completion(), Ok(Some(String::from("blob:ok"))));
    assert_eq!(enc.close(), Err(EncoderError::AlreadyClosed));
}

#[test]
fn worker_abort_resolves_failure() {
    // An engine that delivers no artifact makes the worker abort; the
    // completion resolves with EncodingFailure instead of hanging.
    let mut enc = Encoder::new(30, 2);
    assert_eq!(enc.add_frame(rgba(1, 1), 1, 1), Ok(true));
    assert_eq!(enc.close(), Ok(()));
    assert_eq!(enc.poll_completion(), Ok(None));
    let fed = enc.run_worker(None);
    assert_eq!(fed.len(), 1);
    assert_eq!(enc.poll_completion(), Err(EncoderError::EncodingFailure));
    assert_eq!(enc.poll_completion(), Err(EncoderError::AlreadyRetrieved));
}

#[test]
fn completion_pending_before_worker_runs() {
    // The owner-side read is non-blocking: before the worker resolves it
    // reports "nothing yet" and the outcome stays takeable.
    let mut enc = Encoder::new(30, 2);
    assert_eq!(enc.close(), Ok(()));
    assert_eq!(enc.poll_completion(), Ok(None));
    assert_eq!(enc.poll_completion(), Ok(None));
    let _fed = enc.run_worker(None);
    assert_eq!(enc.poll_completion(), Err(EncoderError::EncodingFailure));
}

#[test]
fn frame_timestamp_is_index_over_rate() {
    // The timestamp of frame i is exactly the rational i / rate.
    let f = Frame::new(3, vec![0u8; 8], 2, 1, 30);
    assert_eq!(f.ts_num, 3);
    assert_eq!(f.ts_den, 30);

    let mut enc = Encoder::new(24, 4);
    assert_eq!(enc.add_frame(rgba(1, 1), 1, 1), Ok(true));
    assert_eq!(enc.add_frame(rgba(1, 1), 1, 1), Ok(true));
    let f0 = enc.take_frame().unwrap();
    let f1 = enc.take_frame().unwrap();
    assert_eq!((f0.ts_num, f0.ts_den), (0, 24));
    assert_eq!((f1.ts_num, f1.ts_den), (1, 24));
}

#[test]
fn bounded_queue_is_fifo() {
    // Frames leave the queue in exactly the order they were accepted, and a
    // closed queue accepts nothing while still draining.
    let mut q = BoundedQueue::new(3);
    for i in 0..3usize {
        let accepted = q.submit(Frame::new(i, vec![0u8; 4], 1, 1, 10));
        assert!(accepted);
    }
    assert!(q.is_full());
    assert!(!q.submit(Frame::new(3, vec![0u8; 4], 1, 1, 10)));
    assert_eq!(q.len(), 3);

    q.close();
    assert!(q.is_closed());
    assert!(!q.submit(Frame::new(3, vec![0u8; 4], 1, 1, 10)));

    let mut order = Vec::new();
    while let Some(f) = q.pop_front() {
        order.push(f.index);
    }
    assert_eq!(order, vec![0, 1, 2]);
    assert!(q.is_empty());
}
