use screenshare::channel::Frame;
use screenshare::channel::FrameChannel;
use screenshare::channel::RecvResult;

fn frame(width: u32, height: u32, fill: u8) -> Frame {
    let len = (width as usize) * (height as usize) * 4;
    Frame::new(width, height, vec![fill; len]).expect("well-sized frame")
}

#[test]
fn frame_requires_four_bytes_per_pixel() {
    assert!(Frame::new(2, 2, vec![0u8; 16]).is_some());
    assert!(Frame::new(2, 2, vec![0u8; 15]).is_none());
    assert!(Frame::new(2, 2, vec![0u8; 17]).is_none());
    assert!(Frame::new(0, 0, Vec::new()).is_some());
}

#[test]
fn frame_keeps_its_buffer_and_dimensions() {
    let f = Frame::new(1, 2, vec![9u8; 8]).unwrap();
    assert_eq!(f.width, 1);
    assert_eq!(f.height, 2);
    assert_eq!(f.data, vec![9u8; 8]);
}

#[test]
fn full_channel_drops_the_newest_and_keeps_the_buffer() {
    let mut ch = FrameChannel::new(3);
    assert!(ch.try_send(frame(1, 1, 1)));
    assert!(ch.try_send(frame(1, 1, 2)));
    assert!(ch.try_send(frame(1, 1, 3)));
    // Capacity reached: the newest frame loses.
    assert!(!ch.try_send(frame(1, 1, 4)));
    assert_eq!(ch.len(), 3);
    // The buffered frames are unchanged, in production order.
    ch.close();
    let drained = ch.drain();
    let fills: Vec<u8> = drained.iter().map(|f| f.data[0]).collect();
    assert_eq!(fills, vec![1, 2, 3]);
}

#[test]
fn draining_after_closure_yields_the_buffer_then_terminates() {
    let mut ch = FrameChannel::new(4);
    assert!(ch.try_send(frame(1, 1, 7)));
    assert!(ch.try_send(frame(1, 1, 8)));
    ch.close();
    match ch.try_recv() {
        RecvResult::Frame(f) => assert_eq!(f.data[0], 7),
        _ => panic!("expected the oldest frame"),
    }
    match ch.try_recv() {
        RecvResult::Frame(f) => assert_eq!(f.data[0], 8),
        _ => panic!("expected the second frame"),
    }
    assert!(matches!(ch.try_recv(), RecvResult::Closed));
    assert!(matches!(ch.try_recv(), RecvResult::Closed));
}

#[test]
fn empty_open_channel_asks_the_consumer_to_wait() {
    let mut ch = FrameChannel::new(2);
    assert!(matches!(ch.try_recv(), RecvResult::Empty));
    assert!(!ch.is_closed());
}

#[test]
fn send_into_a_closed_channel_is_dropped() {
    let mut ch = FrameChannel::new(2);
    ch.close();
    assert!(!ch.try_send(frame(1, 1, 1)));
    assert_eq!(ch.len(), 0);
}

#[test]
fn frames_leave_in_production_order() {
    let mut ch = FrameChannel::new(8);
    for fill in 1..=5u8 {
        assert!(ch.try_send(frame(1, 1, fill)));
    }
    for fill in 1..=5u8 {
        match ch.try_recv() {
            RecvResult::Frame(f) => assert_eq!(f.data[0], fill),
            _ => panic!("expected a frame"),
        }
    }
    assert!(matches!(ch.try_recv(), RecvResult::Empty));
}

#[test]
fn capacity_is_fixed() {
    let ch = FrameChannel::new(16);
    assert_eq!(ch.capacity(), 16);
}
