use vstd::prelude::*;

verus! {

/// An immutable metadata record for one playable track.
#[derive(Debug)]
pub struct Song {
    pub id: String,
    pub title: String,
    pub artist: String,
    pub album: String,
    pub duration: u64,
}

impl Song {
    pub fn new(id: String, title: String, artist: String, album: String, duration: u64) -> (r: Song)
        ensures
            r == (Song { id, title, artist, album, duration }),
    {
        Song { id, title, artist, album, duration }
    }
}

impl Clone for Song {
    fn clone(&self) -> (r: Self)
        ensures
            r == *self,
    {
        Song {
            id: self.id.clone(),
            title: self.title.clone(),
            artist: self.artist.clone(),
            album: self.album.clone(),
            duration: self.duration,
        }
    }
}

impl PartialEq for Song {
    fn eq(&self, o: &Song) -> (r: bool) {
        self.id == o.id && self.title == o.title && self.artist == o.artist && self.album == o.album
            && self.duration == o.duration
    }
}

impl vstd::std_specs::cmp::PartialEqSpecImpl for Song {
    open spec fn obeys_eq_spec() -> bool {
        true
    }

    open spec fn eq_spec(&self, o: &Song) -> bool {
        &&& self.id@ == o.id@
        &&& self.title@ == o.title@
        &&& self.artist@ == o.artist@
        &&& self.album@ == o.album@
        &&& self.duration == o.duration
    }
}

} // verus!
