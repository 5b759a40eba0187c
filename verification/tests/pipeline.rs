use pixel_ingest::AcceptAction;
use pixel_ingest::AcceptEvent;
use pixel_ingest::ChannelClosedError;
use pixel_ingest::Color;
use pixel_ingest::LatestFrameChannel;
use pixel_ingest::PollOutcome;
use pixel_ingest::ReadEvent;
use pixel_ingest::accept_step;
use pixel_ingest::handler_step;

fn frame_of(byte: u8) -> Vec<Color> {
    vec![Color { r: byte, g: byte, b: byte }]
}

#[test]
fn latest_wins_after_many_sends() {
    let mut channel = LatestFrameChannel::new();
    for i in 1..=5u8 {
        assert!(channel.send(frame_of(i)).is_ok());
    }
    match channel.poll_latest() {
        PollOutcome::Ready(frame) => assert_eq!(frame, frame_of(5)),
        _ => panic!("a frame was delivered, so the poll must yield one"),
    }
}

#[test]
fn poll_without_any_send_blocks() {
    let channel = LatestFrameChannel::new();
    match channel.poll_latest() {
        PollOutcome::WouldBlock => {}
        PollOutcome::Ready(_) => panic!("no default frame may be invented"),
        PollOutcome::Disconnected => panic!("a producer handle is still live"),
    }
}

#[test]
fn repeated_polls_keep_the_buffered_frame() {
    let mut channel = LatestFrameChannel::new();
    assert!(channel.send(frame_of(42)).is_ok());
    for _ in 0..3 {
        match channel.poll_latest() {
            PollOutcome::Ready(frame) => assert_eq!(frame, frame_of(42)),
            _ => panic!("the buffered frame must stay observable"),
        }
    }
}

#[test]
fn send_after_consumer_closed_fails() {
    let mut channel = LatestFrameChannel::new();
    channel.close_consumer();
    assert_eq!(channel.send(frame_of(1)), Err(ChannelClosedError));
}

#[test]
fn poll_after_all_producers_gone_disconnects() {
    let mut channel = LatestFrameChannel::new();
    channel.drop_producer();
    assert_eq!(channel.producer_count(), 0);
    match channel.poll_latest() {
        PollOutcome::Disconnected => {}
        _ => panic!("no producer remains and nothing is buffered"),
    }
}

#[test]
fn producer_handle_bookkeeping() {
    let mut channel = LatestFrameChannel::new();
    assert_eq!(channel.producer_count(), 1);
    channel.clone_producer();
    channel.clone_producer();
    assert_eq!(channel.producer_count(), 3);
    channel.drop_producer();
    assert_eq!(channel.producer_count(), 2);
    assert!(channel.is_consumer_open());
}

#[test]
fn end_to_end_red_then_green() {
    let mut channel = LatestFrameChannel::new();
    match accept_step(&mut channel, &AcceptEvent::Connected) {
        AcceptAction::SpawnHandler => {}
        AcceptAction::Skip => panic!("an accepted connection gets a handler"),
    }
    let mut bytes: Vec<u8> = vec![0; 900];
    bytes[0] = 255;
    bytes[1] = 0;
    bytes[2] = 0;
    bytes[3] = 0;
    bytes[4] = 255;
    bytes[5] = 0;
    let keep_going = handler_step(&mut channel, ReadEvent::Bytes(bytes));
    assert!(keep_going);
    match channel.poll_latest() {
        PollOutcome::Ready(frame) => {
            assert_eq!(frame.len(), 300);
            assert_eq!(frame[0], Color { r: 255, g: 0, b: 0 });
            assert_eq!(frame[1], Color { r: 0, g: 255, b: 0 });
        }
        _ => panic!("one full frame was delivered"),
    }
}

#[test]
fn two_connections_deliver_whole_frames() {
    let mut channel = LatestFrameChannel::new();
    match accept_step(&mut channel, &AcceptEvent::Connected) {
        AcceptAction::SpawnHandler => {}
        AcceptAction::Skip => panic!("an accepted connection gets a handler"),
    }
    match accept_step(&mut channel, &AcceptEvent::Connected) {
        AcceptAction::SpawnHandler => {}
        AcceptAction::Skip => panic!("an accepted connection gets a handler"),
    }
    assert_eq!(channel.producer_count(), 3);
    let first: Vec<u8> = vec![11; 900];
    let second: Vec<u8> = vec![77; 900];
    assert!(handler_step(&mut channel, ReadEvent::Bytes(first)));
    assert!(handler_step(&mut channel, ReadEvent::Bytes(second)));
    match channel.poll_latest() {
        PollOutcome::Ready(frame) => {
            assert_eq!(frame.len(), 300);
            let all_first = frame.iter().all(|c| *c == Color { r: 11, g: 11, b: 11 });
            let all_second = frame.iter().all(|c| *c == Color { r: 77, g: 77, b: 77 });
            assert!(all_first || all_second, "the frame must be one delivery in full");
            assert!(all_second, "the later delivery is the latest");
        }
        _ => panic!("two full frames were delivered"),
    }
}

#[test]
fn short_read_delivers_nothing() {
    let mut channel = LatestFrameChannel::new();
    let keep_going = handler_step(&mut channel, ReadEvent::Failed);
    assert!(!keep_going);
    match channel.poll_latest() {
        PollOutcome::WouldBlock => {}
        PollOutcome::Ready(_) => panic!("an incomplete write delivers no frame"),
        PollOutcome::Disconnected => panic!("a producer handle is still live"),
    }
}

#[test]
fn handler_stops_when_consumer_gone() {
    let mut channel = LatestFrameChannel::new();
    channel.close_consumer();
    let keep_going = handler_step(&mut channel, ReadEvent::Bytes(vec![1, 2, 3]));
    assert!(!keep_going);
}

#[test]
fn failed_accept_keeps_the_loop_going() {
    let mut channel = LatestFrameChannel::new();
    match accept_step(&mut channel, &AcceptEvent::Failed) {
        AcceptAction::Skip => {}
        AcceptAction::SpawnHandler => panic!("a failed accept spawns nothing"),
    }
    assert_eq!(channel.producer_count(), 1);
}
