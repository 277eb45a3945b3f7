use vstd::prelude::*;
use crate::error::QueueError;
use crate::song::Song;

verus! {

/// A client command, decoded.
#[derive(Debug)]
pub enum Command {
    /// Append a track to the upcoming tracks.
    Add(Song),
    /// Drop the upcoming tracks with this id.
    Remove(String),
    /// Advance the playhead.
    Next,
    /// Rewind the playhead.
    Previous,
    /// Ask for the queue's state.
    GetQueue,
}

/// The fields of a track payload, as far as they are present and of the
/// right kind.
pub struct SongFields {
    pub id: Option<String>,
    pub title: Option<String>,
    pub artist: Option<String>,
    pub album: Option<String>,
    pub duration: Option<u64>,
}

/// An inbound message: its `command` string and its `song` payload, as far
/// as they are present and of the right kind.
pub struct Message {
    pub command: Option<String>,
    pub song: Option<SongFields>,
}

/// The track a payload describes, when every field is there.
pub open spec fn song_of(f: SongFields) -> Option<Song> {
    match (f.id, f.title, f.artist, f.album, f.duration) {
        (Some(id), Some(title), Some(artist), Some(album), Some(duration)) => Some(
            Song { id, title, artist, album, duration },
        ),
        _ => None,
    }
}

/// The command a message stands for. `/add` and `/remove` need a complete
/// track payload (`/remove` then uses its id); `/next`, `/previous` and
/// `/get_queue` need nothing more. Anything else is a bad request.
pub open spec fn decoded(m: Message) -> Result<Command, QueueError> {
    match m.command {
        None => Err(QueueError::BadRequest),
        Some(c) => if c@ == "/add"@ {
            match m.song {
                Some(f) => match song_of(f) {
                    Some(s) => Ok(Command::Add(s)),
                    None => Err(QueueError::BadRequest),
                },
                None => Err(QueueError::BadRequest),
            }
        } else if c@ == "/remove"@ {
            match m.song {
                Some(f) => match song_of(f) {
                    Some(s) => Ok(Command::Remove(s.id)),
                    None => Err(QueueError::BadRequest),
                },
                None => Err(QueueError::BadRequest),
            }
        } else if c@ == "/next"@ {
            Ok(Command::Next)
        } else if c@ == "/previous"@ {
            Ok(Command::Previous)
        } else if c@ == "/get_queue"@ {
            Ok(Command::GetQueue)
        } else {
            Err(QueueError::BadRequest)
        },
    }
}

fn is_word(c: &String, word: &str) -> (r: bool)
    ensures
        r == (c@ == word@),
{
    *c == word.to_owned()
}

/// Turns a message into a command, or rejects it as a bad request.
pub fn decode(m: Message) -> (r: Result<Command, QueueError>)
    ensures
        r == decoded(m),
{
    let Message { command, song } = m;
    let c = match command {
        None => {
            return Err(QueueError::BadRequest);
        },
        Some(c) => c,
    };
    if is_word(&c, "/add") {
        match song {
            Some(SongFields {
                id: Some(id),
                title: Some(title),
                artist: Some(artist),
                album: Some(album),
                duration: Some(duration),
            }) => Ok(Command::Add(Song::new(id, title, artist, album, duration))),
            _ => Err(QueueError::BadRequest),
        }
    } else if is_word(&c, "/remove") {
        match song {
            Some(SongFields {
                id: Some(id),
                title: Some(_),
                artist: Some(_),
                album: Some(_),
                duration: Some(_),
            }) => Ok(Command::Remove(id)),
            _ => Err(QueueError::BadRequest),
        }
    } else if is_word(&c, "/next") {
        Ok(Command::Next)
    } else if is_word(&c, "/previous") {
        Ok(Command::Previous)
    } else if is_word(&c, "/get_queue") {
        Ok(Command::GetQueue)
    } else {
        Err(QueueError::BadRequest)
    }
}

} // verus!
