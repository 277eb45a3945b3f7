use vstd::prelude::*;
use std::collections::VecDeque;
use crate::error::QueueError;
use crate::song::Song;

verus! {

/// The tracks of `s` whose id is not `id`, in their order.
pub open spec fn without_id(s: Seq<Song>, id: Seq<char>) -> Seq<Song>
    decreases s.len(),
{
    if s.len() == 0 {
        s
    } else {
        let rest = without_id(s.drop_last(), id);
        if s.last().id@ == id {
            rest
        } else {
            rest.push(s.last())
        }
    }
}

/// The mathematical state of one playback timeline.
pub struct QueueView {
    pub id: Seq<char>,
    /// The track playing now, if any.
    pub current: Option<Song>,
    /// Tracks already played, the most recent first.
    pub history: Seq<Song>,
    /// Tracks still to play, the next one first.
    pub upcoming: Seq<Song>,
}

impl QueueView {
    /// A queue with nothing playing, nothing played and nothing queued.
    pub open spec fn empty(id: Seq<char>) -> QueueView {
        QueueView { id, current: None, history: Seq::empty(), upcoming: Seq::empty() }
    }

    /// `s` appended to the upcoming tracks.
    pub open spec fn add(self, s: Song) -> QueueView {
        QueueView { upcoming: self.upcoming.push(s), ..self }
    }

    /// Every upcoming track with the given id dropped.
    pub open spec fn remove(self, id: Seq<char>) -> QueueView {
        QueueView { upcoming: without_id(self.upcoming, id), ..self }
    }

    /// The current track moved to the front of the history and the first
    /// upcoming track made current; `None` when nothing is upcoming.
    pub open spec fn advance(self) -> Option<QueueView> {
        if self.upcoming.len() == 0 {
            None
        } else {
            Some(
                QueueView {
                    id: self.id,
                    current: Some(self.upcoming[0]),
                    history: match self.current {
                        Some(c) => seq![c] + self.history,
                        None => self.history,
                    },
                    upcoming: self.upcoming.subrange(1, self.upcoming.len() as int),
                },
            )
        }
    }

    /// The mirror of `advance`: the current track goes back to the front of
    /// the upcoming tracks and the most recent one of the history becomes
    /// current. Nothing changes when the history is empty.
    pub open spec fn rewind(self) -> QueueView {
        if self.history.len() == 0 {
            self
        } else {
            QueueView {
                id: self.id,
                current: Some(self.history[0]),
                history: self.history.subrange(1, self.history.len() as int),
                upcoming: match self.current {
                    Some(c) => seq![c] + self.upcoming,
                    None => self.upcoming,
                },
            }
        }
    }
}

/// A copy of a queue's state, handed out to be shown to clients.
#[derive(Debug)]
pub struct Snapshot {
    pub current_song: Option<Song>,
    pub history: VecDeque<Song>,
    pub upcoming: VecDeque<Song>,
}

/// One playback timeline: the track playing now, the tracks played before it
/// and the tracks queued after it.
pub struct Queue {
    id: String,
    current_song: Option<Song>,
    old: VecDeque<Song>,
    upcoming: VecDeque<Song>,
}

impl View for Queue {
    type V = QueueView;

    closed spec fn view(&self) -> QueueView {
        QueueView {
            id: self.id@,
            current: self.current_song,
            history: self.old@,
            upcoming: self.upcoming@,
        }
    }
}

impl Queue {
    pub fn new(id: String) -> (q: Queue)
        ensures
            q@ == QueueView::empty(id@),
    {
        Queue { id, current_song: None, old: VecDeque::new(), upcoming: VecDeque::new() }
    }

    pub fn has_current_song(&self) -> (r: bool)
        ensures
            r == self@.current is Some,
    {
        self.current_song.is_some()
    }

    pub fn add_song(&mut self, song: Song)
        ensures
            final(self)@ == old(self)@.add(song),
    {
        self.upcoming.push_back(song);
    }

    /// Drops every upcoming track whose id is `song_id`; the current track
    /// and the history are left as they are.
    pub fn remove_song(&mut self, song_id: &str)
        ensures
            final(self)@ == old(self)@.remove(song_id@),
            final(self)@.current == old(self)@.current,
            final(self)@.history == old(self)@.history,
    {
        let key = song_id.to_owned();
        let mut kept: VecDeque<Song> = VecDeque::new();
        let n = self.upcoming.len();
        let mut i: usize = 0;
        while i < n
            invariant
                n == self.upcoming@.len(),
                self.upcoming@ == old(self).upcoming@,
                key@ == song_id@,
                i <= n,
                kept@ == without_id(self.upcoming@.subrange(0, i as int), song_id@),
            decreases n - i,
        {
            proof {
                assert(self.upcoming@.subrange(0, i as int + 1).drop_last()
                    == self.upcoming@.subrange(0, i as int));
            }
            if self.upcoming[i].id != key {
                kept.push_back(self.upcoming[i].clone());
            }
            i = i + 1;
        }
        proof {
            assert(self.upcoming@.subrange(0, n as int) == self.upcoming@);
        }
        self.upcoming = kept;
    }

    /// Moves the playhead forward. Fails with `EmptyQueue`, and changes
    /// nothing, when no track is upcoming.
    pub fn next_song(&mut self) -> (r: Result<(), QueueError>)
        ensures
            match old(self)@.advance() {
                Some(q) => r is Ok && final(self)@ == q,
                None => r == Err::<(), QueueError>(QueueError::EmptyQueue) && final(self)@ == old(
                    self,
                )@,
            },
            r is Ok <==> old(self)@.upcoming.len() > 0,
    {
        match self.upcoming.pop_front() {
            None => Err(QueueError::EmptyQueue),
            Some(next) => {
                let previous = self.current_song.take();
                self.current_song = Some(next);
                if let Some(c) = previous {
                    self.old.push_front(c);
                }
                Ok(())
            },
        }
    }

    pub fn get_current_song(&self) -> (r: Option<Song>)
        ensures
            r == self@.current,
    {
        match &self.current_song {
            Some(s) => Some(s.clone()),
            None => None,
        }
    }

    /// Moves the playhead back; a no-op when the history is empty.
    pub fn previous_song(&mut self)
        ensures
            final(self)@ == old(self)@.rewind(),
    {
        match self.old.pop_front() {
            None => {},
            Some(prev) => {
                let previous = self.current_song.take();
                self.current_song = Some(prev);
                if let Some(c) = previous {
                    self.upcoming.push_front(c);
                }
            },
        }
    }

    /// A copy of the current track, the history and the upcoming tracks.
    pub fn snapshot(&self) -> (r: Snapshot)
        ensures
            r.current_song == self@.current,
            r.history@ == self@.history,
            r.upcoming@ == self@.upcoming,
    {
        let history = self.old.clone();
        let upcoming = self.upcoming.clone();
        proof {
            assert(history@ =~= self.old@);
            assert(upcoming@ =~= self.upcoming@);
        }
        Snapshot { current_song: self.get_current_song(), history, upcoming }
    }
}

} // verus!

verus! {

/// `k` advances in a row from `q`; `None` as soon as one of them finds
/// nothing upcoming.
pub open spec fn advance_times(q: QueueView, k: nat) -> Option<QueueView>
    decreases k,
{
    if k == 0 {
        Some(q)
    } else {
        match advance_times(q, (k - 1) as nat) {
            Some(p) => p.advance(),
            None => None,
        }
    }
}

/// The tracks of `t` added to `q` one after another.
pub open spec fn add_all(q: QueueView, t: Seq<Song>) -> QueueView
    decreases t.len(),
{
    if t.len() == 0 {
        q
    } else {
        add_all(q, t.drop_last()).add(t.last())
    }
}

proof fn lemma_add_all(q: QueueView, t: Seq<Song>)
    ensures
        add_all(q, t) == (QueueView { upcoming: q.upcoming + t, ..q }),
    decreases t.len(),
{
    if t.len() > 0 {
        lemma_add_all(q, t.drop_last());
        assert((q.upcoming + t.drop_last()).push(t.last()) =~= q.upcoming + t);
    } else {
        assert(q.upcoming + t =~= q.upcoming);
    }
}

proof fn lemma_advance_times(q: QueueView, k: nat)
    requires
        k <= q.upcoming.len(),
    ensures
        advance_times(q, k) is Some,
        advance_times(q, k).unwrap().upcoming == q.upcoming.subrange(k as int, q.upcoming.len() as int),
        k > 0 ==> advance_times(q, k).unwrap().current == Some(q.upcoming[k - 1]),
    decreases k,
{
    if k == 0 {
        assert(q.upcoming.subrange(0, q.upcoming.len() as int) =~= q.upcoming);
    } else {
        lemma_advance_times(q, (k - 1) as nat);
        let p = advance_times(q, (k - 1) as nat).unwrap();
        assert(p.upcoming[0] == q.upcoming[k - 1]);
        assert(p.upcoming.subrange(1, p.upcoming.len() as int) =~= q.upcoming.subrange(
            k as int,
            q.upcoming.len() as int,
        ));
    }
}

/// Tracks added to a queue with nothing upcoming come out in the order they
/// were added: after the `k`-th advance the `k`-th added track is current,
/// and after as many advances as tracks nothing is upcoming.
pub proof fn lemma_first_in_first_out(q: QueueView, t: Seq<Song>, k: nat)
    requires
        q.upcoming.len() == 0,
        1 <= k <= t.len(),
    ensures
        advance_times(add_all(q, t), k) is Some,
        advance_times(add_all(q, t), k).unwrap().current == Some(t[k - 1]),
        advance_times(add_all(q, t), t.len()) is Some,
        advance_times(add_all(q, t), t.len()).unwrap().upcoming.len() == 0,
{
    lemma_add_all(q, t);
    assert(q.upcoming + t =~= t);
    lemma_advance_times(add_all(q, t), k);
    lemma_advance_times(add_all(q, t), t.len());
}

/// Rewinding right after a successful advance from a queue with a current
/// track gives back the queue as it was.
pub proof fn lemma_rewind_undoes_advance(q: QueueView)
    requires
        q.upcoming.len() > 0,
        q.current is Some,
    ensures
        q.advance() is Some,
        q.advance().unwrap().rewind() == q,
{
    let p = q.advance().unwrap();
    assert(p.history.subrange(1, p.history.len() as int) =~= q.history);
    assert(seq![q.upcoming[0]] + p.upcoming =~= q.upcoming);
}

/// Rewinding a queue with no history changes nothing.
pub proof fn lemma_rewind_without_history(q: QueueView)
    requires
        q.history.len() == 0,
    ensures
        q.rewind() == q,
{
}

proof fn lemma_without_absent_id(s: Seq<Song>, id: Seq<char>)
    requires
        forall|i: int| 0 <= i < s.len() ==> s[i].id@ != id,
    ensures
        without_id(s, id) == s,
    decreases s.len(),
{
    if s.len() > 0 {
        lemma_without_absent_id(s.drop_last(), id);
        assert(s.drop_last().push(s.last()) =~= s);
    }
}

/// Removing an id that no upcoming track has changes nothing.
pub proof fn lemma_remove_absent_id(q: QueueView, id: Seq<char>)
    requires
        forall|i: int| 0 <= i < q.upcoming.len() ==> q.upcoming[i].id@ != id,
    ensures
        q.remove(id) == q,
{
    lemma_without_absent_id(q.upcoming, id);
}

} // verus!
