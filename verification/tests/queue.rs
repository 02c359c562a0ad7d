use yambot::tts::queue::{TTSAudioChunk, TTSQueue, TTSQueueItem, TTSRequest};

fn item(id: &str, user: &str) -> TTSQueueItem {
    TTSQueueItem {
        request: TTSRequest {
            id: id.to_string(),
            username: user.to_string(),
            language: "en".to_string(),
            text: format!("text of {}", id),
            timestamp: 1_700_000_000_000,
        },
        audio_chunks: vec![TTSAudioChunk { audio_data: vec![1, 2, 3] }],
    }
}

fn ids(items: &Vec<TTSQueueItem>) -> Vec<String> {
    items.iter().map(|i| i.request.id.clone()).collect()
}

#[test]
fn new_queue_is_empty() {
    let queue = TTSQueue::new();
    assert_eq!(queue.len(), 0);
    assert!(queue.is_empty());
    assert!(queue.peek().is_none());
    assert!(queue.get_currently_playing().is_none());
    assert!(!queue.is_skip_requested());
    assert!(queue.get_all().is_empty());
    assert!(queue.get_all_with_current().is_empty());
}

#[test]
fn queue_is_first_in_first_out() {
    let mut queue = TTSQueue::new();
    queue.add(item("A", "u"));
    queue.add(item("B", "u"));
    queue.add(item("C", "u"));
    assert_eq!(queue.len(), 3);
    assert_eq!(queue.pop(), Some(item("A", "u")));
    assert_eq!(queue.pop(), Some(item("B", "u")));
    assert_eq!(queue.pop(), Some(item("C", "u")));
    assert_eq!(queue.pop(), None);
    assert!(queue.is_empty());
}

#[test]
fn peek_leaves_the_item_in_the_queue() {
    let mut queue = TTSQueue::new();
    queue.add(item("A", "u"));
    queue.add(item("B", "u"));
    assert_eq!(queue.peek(), Some(item("A", "u")));
    assert_eq!(queue.len(), 2);
}

#[test]
fn clear_removes_the_waiting_items_only() {
    let mut queue = TTSQueue::new();
    queue.add(item("A", "u"));
    queue.set_currently_playing(Some(item("P", "u")));
    queue.ignore_user("bob");
    queue.clear();
    assert!(queue.is_empty());
    assert_eq!(queue.get_currently_playing(), Some(item("P", "u")));
    assert!(queue.is_user_ignored("bob"));
}

#[test]
fn remove_takes_out_the_item_with_the_id() {
    let mut queue = TTSQueue::new();
    queue.add(item("A", "u"));
    queue.add(item("B", "u"));
    queue.add(item("C", "u"));
    assert!(queue.remove("B"));
    assert_eq!(ids(&queue.get_all()), vec!["A", "C"]);
    assert!(!queue.remove("B"));
    assert!(!queue.remove("missing"));
    assert_eq!(queue.len(), 2);
}

#[test]
fn remove_takes_out_only_the_first_of_equal_ids() {
    let mut queue = TTSQueue::new();
    queue.add(item("A", "first"));
    queue.add(item("A", "second"));
    assert!(queue.remove("A"));
    assert_eq!(queue.get_all(), vec![item("A", "second")]);
}

#[test]
fn ignored_users_are_remembered_once() {
    let mut queue = TTSQueue::new();
    assert!(!queue.is_user_ignored("bob"));
    queue.ignore_user("bob");
    queue.ignore_user("bob");
    queue.ignore_user("carol");
    assert!(queue.is_user_ignored("bob"));
    assert!(queue.is_user_ignored("carol"));
    assert!(!queue.is_user_ignored("Bob"));
    queue.unignore_user("bob");
    assert!(!queue.is_user_ignored("bob"));
    assert!(queue.is_user_ignored("carol"));
    queue.unignore_user("nobody");
    assert!(queue.is_user_ignored("carol"));
}

#[test]
fn snapshot_shows_the_playing_item_first() {
    let mut queue = TTSQueue::new();
    queue.add(item("A", "u"));
    queue.add(item("B", "u"));
    queue.set_currently_playing(Some(item("P", "u")));
    assert_eq!(ids(&queue.get_all_with_current()), vec!["P", "A", "B"]);
    assert_eq!(ids(&queue.get_all()), vec!["A", "B"]);
    queue.set_currently_playing(None);
    assert_eq!(ids(&queue.get_all_with_current()), vec!["A", "B"]);
}

#[test]
fn skip_flag_is_set_and_cleared() {
    let mut queue = TTSQueue::new();
    queue.request_skip();
    assert!(queue.is_skip_requested());
    queue.request_skip();
    assert!(queue.is_skip_requested());
    queue.clear_skip();
    assert!(!queue.is_skip_requested());
}

#[test]
fn skip_current_asks_for_a_skip_of_the_playing_item() {
    let mut queue = TTSQueue::new();
    queue.add(item("A", "u"));
    assert_eq!(queue.skip_current(), None);
    assert!(!queue.is_skip_requested());
    assert_eq!(queue.len(), 1);
    queue.set_currently_playing(Some(item("P", "u")));
    assert_eq!(queue.skip_current(), Some(item("P", "u")));
    assert!(queue.is_skip_requested());
    assert_eq!(queue.get_currently_playing(), Some(item("P", "u")));
    assert_eq!(queue.len(), 1);
}

#[test]
fn chunk_count_of_the_playing_item() {
    let mut queue = TTSQueue::new();
    assert_eq!(queue.current_chunk_count(), 0);
    let mut playing = item("P", "u");
    playing.audio_chunks.push(TTSAudioChunk { audio_data: vec![9] });
    queue.set_currently_playing(Some(playing));
    assert_eq!(queue.current_chunk_count(), 2);
}

#[test]
fn default_queue_is_empty() {
    let queue = TTSQueue::default();
    assert!(queue.is_empty());
    assert!(!queue.is_skip_requested());
}

#[test]
fn clone_of_an_item_is_equal() {
    let first = item("A", "u");
    assert_eq!(first.clone(), first);
}

#[test]
fn playing_item_is_known_by_its_id() {
    let mut queue = TTSQueue::new();
    assert!(!queue.is_playing("P"));
    queue.add(item("A", "u"));
    queue.set_currently_playing(Some(item("P", "u")));
    assert!(queue.is_playing("P"));
    assert!(!queue.is_playing("A"));
}
