use music_queue::command::{decode, Command, Message, SongFields};
use music_queue::error::QueueError;
use music_queue::registry::QueueManager;
use music_queue::session::{apply_command, auto_advance, Session};
use music_queue::song::Song;

fn song(id: &str) -> Song {
    Song::new(id.to_string(), format!("title {}", id), "artist".to_string(), "album".to_string(), 90)
}

fn fields(id: Option<&str>, duration: Option<u64>) -> SongFields {
    SongFields {
        id: id.map(|s| s.to_string()),
        title: Some("t".to_string()),
        artist: Some("ar".to_string()),
        album: Some("al".to_string()),
        duration,
    }
}

fn message(command: Option<&str>, song: Option<SongFields>) -> Message {
    Message { command: command.map(|s| s.to_string()), song }
}

#[test]
fn decode_known_commands() {
    assert!(matches!(decode(message(Some("/next"), None)), Ok(Command::Next)));
    assert!(matches!(decode(message(Some("/previous"), None)), Ok(Command::Previous)));
    assert!(matches!(decode(message(Some("/get_queue"), None)), Ok(Command::GetQueue)));
    match decode(message(Some("/add"), Some(fields(Some("9"), Some(12))))) {
        Ok(Command::Add(s)) => {
            assert_eq!(s, Song::new("9".to_string(), "t".to_string(), "ar".to_string(), "al".to_string(), 12));
        }
        other => panic!("unexpected {:?}", other),
    }
    match decode(message(Some("/remove"), Some(fields(Some("9"), Some(4))))) {
        Ok(Command::Remove(id)) => assert_eq!(id, "9"),
        other => panic!("unexpected {:?}", other),
    }
}

#[test]
fn decode_rejects_bad_requests() {
    assert_eq!(decode(message(None, None)).unwrap_err(), QueueError::BadRequest);
    assert_eq!(decode(message(Some("/shuffle"), None)).unwrap_err(), QueueError::BadRequest);
    assert_eq!(decode(message(Some("next"), None)).unwrap_err(), QueueError::BadRequest);
    assert_eq!(decode(message(Some("/add"), None)).unwrap_err(), QueueError::BadRequest);
    assert_eq!(
        decode(message(Some("/add"), Some(fields(Some("1"), None)))).unwrap_err(),
        QueueError::BadRequest
    );
    assert_eq!(decode(message(Some("/remove"), None)).unwrap_err(), QueueError::BadRequest);
    assert_eq!(
        decode(message(Some("/remove"), Some(fields(Some("9"), None)))).unwrap_err(),
        QueueError::BadRequest
    );
    let no_title = SongFields { title: None, ..fields(Some("9"), Some(4)) };
    assert_eq!(decode(message(Some("/remove"), Some(no_title))).unwrap_err(), QueueError::BadRequest);
    assert_eq!(
        decode(message(Some("/remove"), Some(fields(None, Some(3))))).unwrap_err(),
        QueueError::BadRequest
    );
}

#[test]
fn apply_command_reports_new_state() {
    let mut m = QueueManager::new();
    apply_command(&mut m, "q", Command::Add(song("A"))).unwrap();
    apply_command(&mut m, "q", Command::Add(song("B"))).unwrap();
    let s = apply_command(&mut m, "q", Command::Next).unwrap();
    assert_eq!(s.current_song, Some(song("A")));
    assert_eq!(s.upcoming.len(), 1);
    assert_eq!(s.history.len(), 0);
    let s = apply_command(&mut m, "q", Command::Remove("B".to_string())).unwrap();
    assert_eq!(s.upcoming.len(), 0);
    assert_eq!(apply_command(&mut m, "q", Command::Next).unwrap_err(), QueueError::EmptyQueue);
    let s = apply_command(&mut m, "q", Command::GetQueue).unwrap();
    assert_eq!(s.current_song, Some(song("A")));
    let s = apply_command(&mut m, "q", Command::Previous).unwrap();
    assert_eq!(s.current_song, Some(song("A")));
}

#[test]
fn auto_advance_only_when_nothing_plays() {
    let mut m = QueueManager::new();
    assert!(!auto_advance(&mut m, "q"));
    m.add_song_to_queue("q", song("A"));
    m.add_song_to_queue("q", song("B"));
    assert!(auto_advance(&mut m, "q"));
    assert_eq!(m.get_queue("q").get_current_song(), Some(song("A")));
    assert!(!auto_advance(&mut m, "q"));
    assert_eq!(m.get_queue("q").get_current_song(), Some(song("A")));
}

#[test]
fn session_binds_to_default_or_named_queue() {
    let mut m = QueueManager::new();
    let a = Session::connect(7, None);
    let b = Session::connect(8, Some("room".to_string()));
    assert_eq!(a.id(), 7);
    assert!(a.is_open());
    a.handle_command(&mut m, Command::Add(song("A"))).unwrap();
    assert!(m.queue_exists("default"));
    assert!(!m.queue_exists("room"));
    b.handle_command(&mut m, Command::GetQueue).unwrap();
    assert!(m.queue_exists("room"));
}

#[test]
fn sessions_on_one_queue_share_it() {
    let mut m = QueueManager::new();
    let a = Session::connect(1, Some("room".to_string()));
    let b = Session::connect(2, Some("room".to_string()));
    let add_a = decode(message(Some("/add"), Some(fields(Some("A"), Some(1))))).unwrap();
    let add_b = decode(message(Some("/add"), Some(fields(Some("B"), Some(2))))).unwrap();
    a.handle_command(&mut m, add_a).unwrap();
    let s = b.handle_command(&mut m, add_b).unwrap();
    let ids: Vec<String> = s.upcoming.iter().map(|x| x.id.clone()).collect();
    assert_eq!(ids, vec!["A".to_string(), "B".to_string()]);
}

#[test]
fn closed_session_resolves_no_queue() {
    let mut m = QueueManager::new();
    let mut a = Session::connect(3, None);
    a.close();
    assert!(!a.is_open());
    assert_eq!(a.id(), 3);
    assert_eq!(a.handle_command(&mut m, Command::GetQueue).unwrap_err(), QueueError::NotFound);
    assert_eq!(a.handle_command(&mut m, Command::Next).unwrap_err(), QueueError::NotFound);
    assert!(!a.tick(&mut m));
    assert!(!m.queue_exists("default"));
}

#[test]
fn session_tick_advances_idle_queue() {
    let mut m = QueueManager::new();
    let a = Session::connect(4, None);
    a.handle_command(&mut m, Command::Add(song("A"))).unwrap();
    assert!(a.tick(&mut m));
    assert_eq!(m.get_queue("default").get_current_song(), Some(song("A")));
    assert!(!a.tick(&mut m));
}
