use flowstt::transcribe_mode::{
    SegmentRingBuffer, TranscribeState, TranscriptionQueue, WorkerStep, MAX_QUEUE_SIZE,
    RING_BUFFER_CAPACITY,
};

#[test]
fn ring_buffer_wraps_and_extracts_segments() {
    let mut rb = SegmentRingBuffer::new(8, 0u32);
    assert_eq!(rb.capacity(), 8);
    rb.write(&[1, 2, 3, 4, 5, 6]);
    assert_eq!(rb.write_position(), 6);
    assert_eq!(rb.extract_segment(2), vec![3, 4, 5, 6]);
    rb.write(&[7, 8, 9, 10]);
    assert_eq!(rb.write_position(), 2);
    assert_eq!(rb.segment_length(6), 4);
    assert_eq!(rb.extract_segment(6), vec![7, 8, 9, 10]);
    assert_eq!(rb.index_from_lookback(3), 7);
    assert_eq!(rb.index_from_lookback(1), 1);
    assert_eq!(rb.index_from_lookback(100), 2);
}

#[test]
fn ring_buffer_overflow_threshold_is_ninety_percent() {
    let mut rb = SegmentRingBuffer::new(10, 0u8);
    rb.write(&[1; 8]);
    assert!(!rb.is_approaching_overflow(0));
    rb.write(&[1]);
    assert!(rb.is_approaching_overflow(0));
    rb.clear();
    assert_eq!(rb.write_position(), 0);
}

#[test]
fn queue_is_bounded_and_fifo() {
    let mut q: TranscriptionQueue<u32> = TranscriptionQueue::new();
    for i in 0..MAX_QUEUE_SIZE as u32 {
        assert!(q.enqueue(i));
    }
    assert!(!q.enqueue(99));
    assert_eq!(q.queue_depth(), MAX_QUEUE_SIZE);
    assert!(q.start_worker());
    assert!(!q.start_worker());
    match q.next_worker_step() {
        WorkerStep::Process(s) => assert_eq!(s, 0),
        _ => panic!("expected a segment"),
    }
    q.clear();
    assert!(matches!(q.next_worker_step(), WorkerStep::Idle));
    q.stop_worker();
    assert!(matches!(q.next_worker_step(), WorkerStep::Exit));
}

#[test]
fn stopped_worker_drains_queue_first() {
    let mut q: TranscriptionQueue<u8> = TranscriptionQueue::new();
    q.enqueue(5);
    q.stop_worker();
    assert!(matches!(q.next_worker_step(), WorkerStep::Process(5)));
    assert!(matches!(q.next_worker_step(), WorkerStep::Exit));
}

#[test]
fn speech_segment_cut_from_ring_buffer() {
    let mut st = TranscribeState::new(0i16);
    assert_eq!(st.ring_buffer.capacity(), RING_BUFFER_CAPACITY);
    assert!(st.process_samples(&[1, 2, 3]).is_none());
    st.activate();
    st.process_samples(&[1, 2, 3, 4]);
    st.on_speech_started(2);
    assert!(st.in_speech);
    st.process_samples(&[5, 6]);
    let seg = st.on_speech_ended().unwrap();
    assert_eq!(seg, vec![3, 4, 5, 6]);
    assert!(!st.in_speech);
    assert!(st.on_speech_ended().is_none());
    assert!(st.finalize().is_none());
}

#[test]
fn finalize_emits_open_segment() {
    let mut st = TranscribeState::new(0u8);
    st.init_for_capture(16000, 1);
    st.activate();
    st.on_speech_started(0);
    st.process_samples(&[9, 9]);
    assert_eq!(st.finalize().unwrap(), vec![9, 9]);
    st.deactivate();
    assert!(!st.is_active);
}
