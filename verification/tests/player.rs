use yambot::player::{
    display_of, PlaybackScheduler, PlayerAction, PlayerEvent, PlayerState, TTSQueueItemUI,
    CHUNK_GAP_MS, IDLE_INTERVAL_MS, POLL_INTERVAL_MS,
};
use yambot::tts::queue::{TTSAudioChunk, TTSQueue, TTSQueueItem, TTSRequest};

fn item_with_chunks(id: &str, user: &str, chunks: usize) -> TTSQueueItem {
    let mut audio_chunks = Vec::new();
    for i in 0..chunks {
        audio_chunks.push(TTSAudioChunk { audio_data: vec![i as u8] });
    }
    TTSQueueItem {
        request: TTSRequest {
            id: id.to_string(),
            username: user.to_string(),
            language: "en".to_string(),
            text: format!("text of {}", id),
            timestamp: 5,
        },
        audio_chunks,
    }
}

fn shown(id: &str, user: &str) -> TTSQueueItemUI {
    TTSQueueItemUI {
        id: id.to_string(),
        username: user.to_string(),
        text: format!("text of {}", id),
        language: "en".to_string(),
    }
}

#[test]
fn scheduler_starts_idle() {
    assert_eq!(PlaybackScheduler::new().state(), PlayerState::Idle);
    assert_eq!(IDLE_INTERVAL_MS, 100);
    assert_eq!(POLL_INTERVAL_MS, 50);
    assert_eq!(CHUNK_GAP_MS, 100);
}

#[test]
fn empty_queue_makes_the_scheduler_sleep() {
    let mut queue = TTSQueue::new();
    let mut scheduler = PlaybackScheduler::new();
    assert_eq!(scheduler.step(&mut queue, PlayerEvent::Wake), PlayerAction::Sleep(100));
    assert_eq!(scheduler.state(), PlayerState::Idle);
}

#[test]
fn display_shows_the_playing_item_first() {
    let mut queue = TTSQueue::new();
    queue.add(item_with_chunks("A", "alice", 1));
    queue.set_currently_playing(Some(item_with_chunks("P", "bob", 1)));
    assert_eq!(display_of(&queue), vec![shown("P", "bob"), shown("A", "alice")]);
}

#[test]
fn item_with_one_chunk_plays_to_the_end() {
    let mut queue = TTSQueue::new();
    queue.add(item_with_chunks("A", "alice", 1));
    queue.add(item_with_chunks("B", "bob", 1));
    let mut scheduler = PlaybackScheduler::new();

    let action = scheduler.step(&mut queue, PlayerEvent::Wake);
    assert_eq!(
        action,
        PlayerAction::Open {
            item: item_with_chunks("A", "alice", 1),
            display: vec![shown("A", "alice"), shown("B", "bob")],
        }
    );
    assert_eq!(scheduler.state(), PlayerState::Opening);
    assert_eq!(queue.get_currently_playing(), Some(item_with_chunks("A", "alice", 1)));
    assert_eq!(queue.len(), 1);

    assert_eq!(scheduler.step(&mut queue, PlayerEvent::DeviceOpened), PlayerAction::StartChunk(0));
    assert_eq!(scheduler.state(), PlayerState::Starting(0));

    assert_eq!(scheduler.step(&mut queue, PlayerEvent::ChunkStarted), PlayerAction::Poll(0));
    assert_eq!(scheduler.state(), PlayerState::Playing(0));

    assert_eq!(
        scheduler.step(&mut queue, PlayerEvent::Polled { finished: false }),
        PlayerAction::Poll(50)
    );
    assert_eq!(scheduler.state(), PlayerState::Playing(0));

    assert_eq!(
        scheduler.step(&mut queue, PlayerEvent::Polled { finished: true }),
        PlayerAction::Finish { stop: false, display: vec![shown("B", "bob")] }
    );
    assert_eq!(scheduler.state(), PlayerState::Idle);
    assert_eq!(queue.get_currently_playing(), None);
    assert!(!queue.is_skip_requested());
}

#[test]
fn chunks_play_in_order_with_a_gap() {
    let mut queue = TTSQueue::new();
    queue.add(item_with_chunks("A", "alice", 3));
    let mut scheduler = PlaybackScheduler::new();
    assert!(matches!(scheduler.step(&mut queue, PlayerEvent::Wake), PlayerAction::Open { .. }));
    assert_eq!(scheduler.step(&mut queue, PlayerEvent::DeviceOpened), PlayerAction::StartChunk(0));
    assert_eq!(scheduler.step(&mut queue, PlayerEvent::ChunkStarted), PlayerAction::Poll(0));
    assert_eq!(
        scheduler.step(&mut queue, PlayerEvent::Polled { finished: true }),
        PlayerAction::Gap(100)
    );
    assert_eq!(scheduler.state(), PlayerState::Pausing(0));
    assert_eq!(scheduler.step(&mut queue, PlayerEvent::GapPassed), PlayerAction::StartChunk(1));
    assert_eq!(scheduler.step(&mut queue, PlayerEvent::ChunkStarted), PlayerAction::Poll(0));
    assert_eq!(
        scheduler.step(&mut queue, PlayerEvent::Polled { finished: true }),
        PlayerAction::Gap(100)
    );
    assert_eq!(scheduler.step(&mut queue, PlayerEvent::GapPassed), PlayerAction::StartChunk(2));
    assert_eq!(scheduler.step(&mut queue, PlayerEvent::ChunkStarted), PlayerAction::Poll(0));
    assert_eq!(
        scheduler.step(&mut queue, PlayerEvent::Polled { finished: true }),
        PlayerAction::Finish { stop: false, display: Vec::new() }
    );
    assert_eq!(scheduler.state(), PlayerState::Idle);
}

#[test]
fn item_of_an_ignored_user_is_discarded() {
    let mut queue = TTSQueue::new();
    queue.ignore_user("mallory");
    queue.add(item_with_chunks("A", "mallory", 1));
    queue.add(item_with_chunks("B", "bob", 1));
    let mut scheduler = PlaybackScheduler::new();

    assert_eq!(scheduler.step(&mut queue, PlayerEvent::Wake), PlayerAction::Retry);
    assert_eq!(scheduler.state(), PlayerState::Idle);
    assert_eq!(queue.get_currently_playing(), None);
    assert_eq!(queue.len(), 1);

    let action = scheduler.step(&mut queue, PlayerEvent::Wake);
    assert_eq!(
        action,
        PlayerAction::Open { item: item_with_chunks("B", "bob", 1), display: vec![shown("B", "bob")] }
    );
    assert_eq!(queue.get_currently_playing(), Some(item_with_chunks("B", "bob", 1)));
}

#[test]
fn skip_while_a_chunk_plays_stops_the_item() {
    let mut queue = TTSQueue::new();
    queue.add(item_with_chunks("A", "alice", 3));
    queue.add(item_with_chunks("B", "bob", 1));
    let mut scheduler = PlaybackScheduler::new();
    assert!(matches!(scheduler.step(&mut queue, PlayerEvent::Wake), PlayerAction::Open { .. }));
    assert_eq!(scheduler.step(&mut queue, PlayerEvent::DeviceOpened), PlayerAction::StartChunk(0));
    assert_eq!(scheduler.step(&mut queue, PlayerEvent::ChunkStarted), PlayerAction::Poll(0));
    assert_eq!(
        scheduler.step(&mut queue, PlayerEvent::Polled { finished: false }),
        PlayerAction::Poll(50)
    );

    queue.request_skip();
    assert_eq!(
        scheduler.step(&mut queue, PlayerEvent::Polled { finished: false }),
        PlayerAction::Finish { stop: true, display: vec![shown("B", "bob")] }
    );
    assert_eq!(scheduler.state(), PlayerState::Idle);
    assert!(!queue.is_skip_requested());
    assert_eq!(queue.get_currently_playing(), None);

    // The next item is not affected by the skip.
    assert!(matches!(scheduler.step(&mut queue, PlayerEvent::Wake), PlayerAction::Open { .. }));
    assert_eq!(scheduler.step(&mut queue, PlayerEvent::DeviceOpened), PlayerAction::StartChunk(0));
}

#[test]
fn skip_between_chunks_abandons_the_remaining_chunks() {
    let mut queue = TTSQueue::new();
    queue.add(item_with_chunks("A", "alice", 2));
    let mut scheduler = PlaybackScheduler::new();
    assert!(matches!(scheduler.step(&mut queue, PlayerEvent::Wake), PlayerAction::Open { .. }));
    assert_eq!(scheduler.step(&mut queue, PlayerEvent::DeviceOpened), PlayerAction::StartChunk(0));
    assert_eq!(scheduler.step(&mut queue, PlayerEvent::ChunkStarted), PlayerAction::Poll(0));
    assert_eq!(
        scheduler.step(&mut queue, PlayerEvent::Polled { finished: true }),
        PlayerAction::Gap(100)
    );
    queue.request_skip();
    assert_eq!(
        scheduler.step(&mut queue, PlayerEvent::GapPassed),
        PlayerAction::Finish { stop: false, display: Vec::new() }
    );
    assert!(!queue.is_skip_requested());
    assert_eq!(scheduler.state(), PlayerState::Idle);
}

#[test]
fn skip_before_the_first_chunk_ends_the_item() {
    let mut queue = TTSQueue::new();
    queue.add(item_with_chunks("A", "alice", 2));
    let mut scheduler = PlaybackScheduler::new();
    assert!(matches!(scheduler.step(&mut queue, PlayerEvent::Wake), PlayerAction::Open { .. }));
    queue.request_skip();
    assert_eq!(
        scheduler.step(&mut queue, PlayerEvent::DeviceOpened),
        PlayerAction::Finish { stop: false, display: Vec::new() }
    );
    assert!(!queue.is_skip_requested());
}

#[test]
fn device_that_does_not_open_abandons_the_item_only() {
    let mut queue = TTSQueue::new();
    queue.add(item_with_chunks("A", "alice", 2));
    queue.add(item_with_chunks("B", "bob", 1));
    let mut scheduler = PlaybackScheduler::new();
    assert!(matches!(scheduler.step(&mut queue, PlayerEvent::Wake), PlayerAction::Open { .. }));
    assert_eq!(
        scheduler.step(&mut queue, PlayerEvent::DeviceFailed),
        PlayerAction::Finish { stop: false, display: vec![shown("B", "bob")] }
    );
    assert_eq!(scheduler.state(), PlayerState::Idle);
    assert_eq!(queue.get_currently_playing(), None);
    assert!(matches!(scheduler.step(&mut queue, PlayerEvent::Wake), PlayerAction::Open { .. }));
}

#[test]
fn chunk_that_cannot_be_decoded_is_passed_over() {
    let mut queue = TTSQueue::new();
    queue.add(item_with_chunks("A", "alice", 2));
    let mut scheduler = PlaybackScheduler::new();
    assert!(matches!(scheduler.step(&mut queue, PlayerEvent::Wake), PlayerAction::Open { .. }));
    assert_eq!(scheduler.step(&mut queue, PlayerEvent::DeviceOpened), PlayerAction::StartChunk(0));
    assert_eq!(scheduler.step(&mut queue, PlayerEvent::ChunkUndecodable), PlayerAction::Gap(100));
    assert_eq!(scheduler.step(&mut queue, PlayerEvent::GapPassed), PlayerAction::StartChunk(1));
    assert_eq!(
        scheduler.step(&mut queue, PlayerEvent::ChunkUndecodable),
        PlayerAction::Finish { stop: false, display: Vec::new() }
    );
}

#[test]
fn item_without_chunks_ends_at_once() {
    let mut queue = TTSQueue::new();
    queue.add(item_with_chunks("A", "alice", 0));
    let mut scheduler = PlaybackScheduler::new();
    assert!(matches!(scheduler.step(&mut queue, PlayerEvent::Wake), PlayerAction::Open { .. }));
    assert_eq!(
        scheduler.step(&mut queue, PlayerEvent::DeviceOpened),
        PlayerAction::Finish { stop: false, display: Vec::new() }
    );
}

#[test]
fn event_that_is_not_expected_changes_nothing() {
    let mut queue = TTSQueue::new();
    queue.add(item_with_chunks("A", "alice", 1));
    let mut scheduler = PlaybackScheduler::new();
    assert_eq!(scheduler.step(&mut queue, PlayerEvent::DeviceOpened), PlayerAction::Nothing);
    assert_eq!(scheduler.step(&mut queue, PlayerEvent::Polled { finished: true }), PlayerAction::Nothing);
    assert_eq!(scheduler.state(), PlayerState::Idle);
    assert_eq!(queue.len(), 1);
    assert!(matches!(scheduler.step(&mut queue, PlayerEvent::Wake), PlayerAction::Open { .. }));
    assert_eq!(scheduler.step(&mut queue, PlayerEvent::Wake), PlayerAction::Nothing);
    assert_eq!(scheduler.state(), PlayerState::Opening);
}
