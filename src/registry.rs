use vstd::prelude::*;
use crate::queue::{Queue, QueueView};
use crate::song::Song;

verus! {

/// The state of queue `id` in `m`; a queue that does not exist yet reads as
/// an empty one, as it is created on first reference.
pub open spec fn entry(m: Map<Seq<char>, QueueView>, id: Seq<char>) -> QueueView {
    if m.contains_key(id) {
        m[id]
    } else {
        QueueView::empty(id)
    }
}

/// `m` after adding `s` to the upcoming tracks of queue `id`.
pub open spec fn add_to(m: Map<Seq<char>, QueueView>, id: Seq<char>, s: Song) -> Map<
    Seq<char>,
    QueueView,
> {
    m.insert(id, entry(m, id).add(s))
}

/// No two entries of `s` share a key.
pub open spec fn keys_unique(s: Seq<(String, Queue)>) -> bool {
    forall|i: int, j: int| 0 <= i < s.len() && 0 <= j < s.len() && i != j ==> s[i].0@ != s[j].0@
}

/// The map from key to queue state that the entries of `s` describe.
pub open spec fn map_of(s: Seq<(String, Queue)>) -> Map<Seq<char>, QueueView> {
    Map::new(
        |k: Seq<char>| exists|i: int| 0 <= i < s.len() && s[i].0@ == k,
        |k: Seq<char>| s[choose|i: int| 0 <= i < s.len() && s[i].0@ == k].1@,
    )
}

proof fn lemma_map_of_at(s: Seq<(String, Queue)>, i: int)
    requires
        keys_unique(s),
        0 <= i < s.len(),
    ensures
        map_of(s).contains_key(s[i].0@),
        map_of(s)[s[i].0@] == s[i].1@,
{
    let k = s[i].0@;
    assert(exists|j: int| 0 <= j < s.len() && s[j].0@ == k);
    let j = choose|j: int| 0 <= j < s.len() && s[j].0@ == k;
    assert(j == i);
}

proof fn lemma_map_of_update(s: Seq<(String, Queue)>, i: int, key: String, q: Queue)
    requires
        keys_unique(s),
        0 <= i < s.len(),
        key@ == s[i].0@,
    ensures
        keys_unique(s.update(i, (key, q))),
        map_of(s.update(i, (key, q))) == map_of(s).insert(key@, q@),
{
    let t = s.update(i, (key, q));
    assert forall|k: Seq<char>| #[trigger] map_of(t).contains_key(k) == map_of(s).insert(
        s[i].0@,
        q@,
    ).contains_key(k) by {
        if map_of(s).contains_key(k) {
            let j = choose|j: int| 0 <= j < s.len() && s[j].0@ == k;
            assert(t[j].0@ == k);
        }
        if map_of(t).contains_key(k) {
            let j = choose|j: int| 0 <= j < t.len() && t[j].0@ == k;
            assert(s[j].0@ == k);
        }
    }
    assert forall|k: Seq<char>| #[trigger] map_of(t).contains_key(k) implies map_of(t)[k]
        == map_of(s).insert(s[i].0@, q@)[k] by {
        let j = choose|j: int| 0 <= j < t.len() && t[j].0@ == k;
        lemma_map_of_at(t, j);
        if j != i {
            lemma_map_of_at(s, j);
        }
    }
    assert(map_of(t) =~= map_of(s).insert(s[i].0@, q@));
}

proof fn lemma_map_of_push(s: Seq<(String, Queue)>, key: String, q: Queue)
    requires
        keys_unique(s),
        !map_of(s).contains_key(key@),
    ensures
        keys_unique(s.push((key, q))),
        map_of(s.push((key, q))) == map_of(s).insert(key@, q@),
{
    let t = s.push((key, q));
    assert forall|i: int| 0 <= i < s.len() implies s[i].0@ != key@ by {
        if s[i].0@ == key@ {
            assert(map_of(s).contains_key(key@));
        }
    }
    assert forall|k: Seq<char>| #[trigger] map_of(t).contains_key(k) == map_of(s).insert(
        key@,
        q@,
    ).contains_key(k) by {
        if map_of(s).contains_key(k) {
            let j = choose|j: int| 0 <= j < s.len() && s[j].0@ == k;
            assert(t[j].0@ == k);
        }
        if map_of(t).contains_key(k) && k != key@ {
            let j = choose|j: int| 0 <= j < t.len() && t[j].0@ == k;
            assert(s[j].0@ == k);
        }
        if k == key@ {
            assert(t[s.len() as int].0@ == k);
        }
    }
    assert forall|k: Seq<char>| #[trigger] map_of(t).contains_key(k) implies map_of(t)[k]
        == map_of(s).insert(key@, q@)[k] by {
        let j = choose|j: int| 0 <= j < t.len() && t[j].0@ == k;
        lemma_map_of_at(t, j);
        if j < s.len() {
            lemma_map_of_at(s, j);
        }
    }
    assert(map_of(t) =~= map_of(s).insert(key@, q@));
}

/// The registry of queues, keyed by queue id. A queue id that is referenced
/// for the first time gets an empty queue.
pub struct QueueManager {
    queues: Vec<(String, Queue)>,
}

impl View for QueueManager {
    type V = Map<Seq<char>, QueueView>;

    closed spec fn view(&self) -> Map<Seq<char>, QueueView> {
        map_of(self.queues@)
    }
}

impl QueueManager {
    /// Every key names one queue only.
    pub closed spec fn wf(&self) -> bool {
        keys_unique(self.queues@)
    }

    pub fn new() -> (r: QueueManager)
        ensures
            r.wf(),
            r@ == Map::<Seq<char>, QueueView>::empty(),
    {
        let r = QueueManager { queues: Vec::new() };
        assert(r@ =~= Map::<Seq<char>, QueueView>::empty());
        r
    }

    /// The position of the entry keyed `key`, if there is one.
    fn find(&self, key: &String) -> (r: Option<usize>)
        requires
            self.wf(),
        ensures
            match r {
                Some(i) => i < self.queues@.len() && self.queues@[i as int].0@ == key@,
                None => !self@.contains_key(key@),
            },
    {
        let mut i: usize = 0;
        while i < self.queues.len()
            invariant
                i <= self.queues@.len(),
                forall|j: int| 0 <= j < i ==> self.queues@[j].0@ != key@,
            decreases self.queues@.len() - i,
        {
            if self.queues[i].0 == *key {
                return Some(i);
            }
            i = i + 1;
        }
        None
    }

    pub fn queue_exists(&self, id: &str) -> (r: bool)
        requires
            self.wf(),
        ensures
            r == self@.contains_key(id@),
    {
        let key = id.to_owned();
        match self.find(&key) {
            Some(i) => {
                proof {
                    lemma_map_of_at(self.queues@, i as int);
                }
                true
            },
            None => false,
        }
    }

    /// Puts an empty queue under `id` if there is none; a queue already
    /// there stays as it is.
    pub fn create_queue(&mut self, id: &str)
        requires
            old(self).wf(),
        ensures
            final(self).wf(),
            final(self)@ == if old(self)@.contains_key(id@) {
                old(self)@
            } else {
                old(self)@.insert(id@, QueueView::empty(id@))
            },
    {
        let key = id.to_owned();
        match self.find(&key) {
            Some(i) => {
                proof {
                    lemma_map_of_at(self.queues@, i as int);
                }
            },
            None => {
                let q = Queue::new(id.to_owned());
                proof {
                    lemma_map_of_push(self.queues@, key, q);
                }
                self.queues.push((key, q));
            },
        }
    }

    /// The queue under `id`, created empty first if there is none.
    pub fn get_queue(&mut self, id: &str) -> (r: &mut Queue)
        requires
            old(self).wf(),
        ensures
            final(self).wf(),
            (*r)@ == entry(old(self)@, id@),
            final(self)@ == old(self)@.insert(id@, final(r)@),
    {
        let key = id.to_owned();
        let i = match self.find(&key) {
            Some(i) => {
                proof {
                    lemma_map_of_at(self.queues@, i as int);
                    assert(self@.contains_key(id@));
                }
                i
            },
            None => {
                let q = Queue::new(id.to_owned());
                proof {
                    lemma_map_of_push(self.queues@, key, q);
                    lemma_map_of_at(self.queues@.push((key, q)), self.queues@.len() as int);
                }
                self.queues.push((key, q));
                self.queues.len() - 1
            },
        };
        let ghost s = self.queues@;
        let slot = &mut self.queues[i];
        let r = &mut slot.1;
        proof {
            lemma_map_of_update(s, i as int, s[i as int].0, *final(r));
            assert(map_of(s).insert(id@, final(r)@) =~= old(self)@.insert(id@, final(r)@));
        }
        r
    }

    /// Appends `song` to the upcoming tracks of queue `id`, which is created
    /// first if there is none.
    pub fn add_song_to_queue(&mut self, id: &str, song: Song)
        requires
            old(self).wf(),
        ensures
            final(self).wf(),
            final(self)@ == add_to(old(self)@, id@, song),
    {
        let q = self.get_queue(id);
        q.add_song(song);
    }

    /// Drops the upcoming tracks with id `song_id` from queue `id`; an
    /// unknown queue id changes nothing.
    pub fn remove_song_from_queue(&mut self, id: &str, song_id: &str)
        requires
            old(self).wf(),
        ensures
            final(self).wf(),
            final(self)@ == if old(self)@.contains_key(id@) {
                old(self)@.insert(id@, old(self)@[id@].remove(song_id@))
            } else {
                old(self)@
            },
    {
        if self.queue_exists(id) {
            let q = self.get_queue(id);
            q.remove_song(song_id);
        }
    }
}

/// Two adds to one queue id, whichever of them the registry's exclusive
/// access lets in first, both land in the upcoming tracks after what was
/// there; no other queue changes.
pub proof fn lemma_two_adds_both_land(m: Map<Seq<char>, QueueView>, id: Seq<char>, a: Song, b: Song)
    ensures
        entry(add_to(add_to(m, id, a), id, b), id).upcoming == entry(m, id).upcoming + seq![a, b],
        entry(add_to(add_to(m, id, b), id, a), id).upcoming == entry(m, id).upcoming + seq![b, a],
        add_to(add_to(m, id, a), id, b).remove(id) == m.remove(id),
        add_to(add_to(m, id, b), id, a).remove(id) == m.remove(id),
{
    assert(entry(m, id).upcoming.push(a).push(b) =~= entry(m, id).upcoming + seq![a, b]);
    assert(entry(m, id).upcoming.push(b).push(a) =~= entry(m, id).upcoming + seq![b, a]);
    assert(add_to(add_to(m, id, a), id, b).remove(id) =~= m.remove(id));
    assert(add_to(add_to(m, id, b), id, a).remove(id) =~= m.remove(id));
}

} // verus!
