use music_queue::queue::Queue;
use music_queue::registry::QueueManager;
use music_queue::song::Song;

fn song(id: &str) -> Song {
    Song::new(id.to_string(), format!("title {}", id), "artist".to_string(), "album".to_string(), 200)
}

fn upcoming(q: &Queue) -> Vec<String> {
    q.snapshot().upcoming.iter().map(|x| x.id.clone()).collect()
}

#[test]
fn unknown_queue_is_created_on_reference() {
    let mut m = QueueManager::new();
    assert!(!m.queue_exists("room"));
    let q = m.get_queue("room");
    assert!(!q.has_current_song());
    assert!(m.queue_exists("room"));
    assert!(!m.queue_exists("other"));
}

#[test]
fn add_song_to_queue_creates_and_appends() {
    let mut m = QueueManager::new();
    m.add_song_to_queue("room", song("A"));
    m.add_song_to_queue("room", song("B"));
    m.add_song_to_queue("hall", song("C"));
    assert_eq!(upcoming(m.get_queue("room")), vec!["A".to_string(), "B".to_string()]);
    assert_eq!(upcoming(m.get_queue("hall")), vec!["C".to_string()]);
}

#[test]
fn two_adds_on_one_queue_both_land() {
    let mut m = QueueManager::new();
    m.add_song_to_queue("room", song("X"));
    m.add_song_to_queue("room", song("A"));
    m.add_song_to_queue("room", song("B"));
    assert_eq!(
        upcoming(m.get_queue("room")),
        vec!["X".to_string(), "A".to_string(), "B".to_string()]
    );
}

#[test]
fn create_queue_keeps_existing_queue() {
    let mut m = QueueManager::new();
    m.create_queue("hall");
    assert!(m.queue_exists("hall"));
    assert_eq!(upcoming(m.get_queue("hall")), Vec::<String>::new());
    m.add_song_to_queue("room", song("A"));
    m.create_queue("room");
    assert!(m.queue_exists("room"));
    assert_eq!(upcoming(m.get_queue("room")), vec!["A".to_string()]);
}

#[test]
fn remove_from_unknown_queue_changes_nothing() {
    let mut m = QueueManager::new();
    m.remove_song_from_queue("room", "A");
    assert!(!m.queue_exists("room"));
    m.add_song_to_queue("room", song("A"));
    m.add_song_to_queue("room", song("B"));
    m.remove_song_from_queue("room", "A");
    assert_eq!(upcoming(m.get_queue("room")), vec!["B".to_string()]);
}

#[test]
fn queues_are_independent() {
    let mut m = QueueManager::new();
    m.add_song_to_queue("one", song("A"));
    m.add_song_to_queue("two", song("B"));
    m.get_queue("one").next_song().unwrap();
    assert_eq!(m.get_queue("one").get_current_song(), Some(song("A")));
    assert_eq!(m.get_queue("two").get_current_song(), None);
    assert_eq!(upcoming(m.get_queue("two")), vec!["B".to_string()]);
}
