use vstd::prelude::*;
use crate::command::Command;
use crate::error::QueueError;
use crate::queue::{QueueView, Snapshot};
use crate::registry::{QueueManager, entry};

verus! {

/// The queue state that command `c` leads to from `q`, or the error it
/// fails with.
pub open spec fn applied(q: QueueView, c: Command) -> Result<QueueView, QueueError> {
    match c {
        Command::Add(s) => Ok(q.add(s)),
        Command::Remove(id) => Ok(q.remove(id@)),
        Command::Next => match q.advance() {
            Some(p) => Ok(p),
            None => Err(QueueError::EmptyQueue),
        },
        Command::Previous => Ok(q.rewind()),
        Command::GetQueue => Ok(q),
    }
}

/// `s` is a copy of the state `q`.
pub open spec fn shows(s: Snapshot, q: QueueView) -> bool {
    &&& s.current_song == q.current
    &&& s.history@ == q.history
    &&& s.upcoming@ == q.upcoming
}

/// What `r` says of the outcome `a` of a command.
pub open spec fn reports(r: Result<Snapshot, QueueError>, a: Result<QueueView, QueueError>) -> bool {
    match a {
        Ok(q) => r matches Ok(s) && shows(s, q),
        Err(e) => r == Err::<Snapshot, QueueError>(e),
    }
}

/// What the auto-advance timer makes of `q`: an advance when nothing is
/// playing and something is upcoming, otherwise nothing.
pub open spec fn ticked(q: QueueView) -> QueueView {
    if q.current is None && q.upcoming.len() > 0 {
        q.advance().unwrap()
    } else {
        q
    }
}

/// Applies `cmd` to queue `queue_id`, creating the queue if needed, and
/// returns a copy of the queue's new state. The registry is borrowed
/// exclusively for the whole command, so commands on one queue never
/// interleave.
pub fn apply_command(registry: &mut QueueManager, queue_id: &str, cmd: Command) -> (r: Result<
    Snapshot,
    QueueError,
>)
    requires
        old(registry).wf(),
    ensures
        final(registry).wf(),
        reports(r, applied(entry(old(registry)@, queue_id@), cmd)),
        final(registry)@ == old(registry)@.insert(
            queue_id@,
            match applied(entry(old(registry)@, queue_id@), cmd) {
                Ok(q) => q,
                Err(_) => entry(old(registry)@, queue_id@),
            },
        ),
{
    let queue = registry.get_queue(queue_id);
    match cmd {
        Command::Add(s) => queue.add_song(s),
        Command::Remove(id) => queue.remove_song(id.as_str()),
        Command::Next => {
            if let Err(e) = queue.next_song() {
                return Err(e);
            }
        },
        Command::Previous => queue.previous_song(),
        Command::GetQueue => {},
    }
    Ok(queue.snapshot())
}

/// One tick of the auto-advance timer on queue `queue_id`: advances when
/// nothing is playing, and swallows the failure when nothing is upcoming.
/// Returns whether it advanced.
pub fn auto_advance(registry: &mut QueueManager, queue_id: &str) -> (r: bool)
    requires
        old(registry).wf(),
    ensures
        final(registry).wf(),
        r == (entry(old(registry)@, queue_id@).current is None && entry(
            old(registry)@,
            queue_id@,
        ).upcoming.len() > 0),
        final(registry)@ == old(registry)@.insert(
            queue_id@,
            ticked(entry(old(registry)@, queue_id@)),
        ),
{
    let queue = registry.get_queue(queue_id);
    if queue.has_current_song() {
        false
    } else {
        queue.next_song().is_ok()
    }
}

/// Where a connection stands: bound to a queue id, or closed for good.
pub enum SessionState {
    Bound(String),
    Closed,
}

/// The queue id a connection is bound to when it names none.
pub open spec fn default_queue_id() -> Seq<char> {
    "default"@
}

/// One live client connection.
pub struct Session {
    pub id: u16,
    pub state: SessionState,
}

impl Session {
    /// The queue id the session is bound to; `None` once it is closed.
    pub open spec fn bound(&self) -> Option<Seq<char>> {
        match self.state {
            SessionState::Bound(q) => Some(q@),
            SessionState::Closed => None,
        }
    }

    /// A new connection, bound to the queue id it asked for, or to the
    /// default one.
    pub fn connect(id: u16, queue_id: Option<String>) -> (r: Session)
        ensures
            r.id == id,
            r.bound() == Some(
                match queue_id {
                    Some(q) => q@,
                    None => default_queue_id(),
                },
            ),
    {
        let q = match queue_id {
            Some(q) => q,
            None => "default".to_owned(),
        };
        Session { id, state: SessionState::Bound(q) }
    }

    pub fn id(&self) -> (r: u16)
        ensures
            r == self.id,
    {
        self.id
    }

    pub fn is_open(&self) -> (r: bool)
        ensures
            r == self.bound() is Some,
    {
        match self.state {
            SessionState::Bound(_) => true,
            SessionState::Closed => false,
        }
    }

    /// Closes the session; a closed session stays closed.
    pub fn close(&mut self)
        ensures
            final(self).id == old(self).id,
            final(self).bound() is None,
    {
        self.state = SessionState::Closed;
    }

    /// Applies a decoded command to the session's queue. A closed session
    /// has no queue to resolve: `NotFound`, and the registry is untouched.
    pub fn handle_command(&self, registry: &mut QueueManager, cmd: Command) -> (r: Result<
        Snapshot,
        QueueError,
    >)
        requires
            old(registry).wf(),
        ensures
            final(registry).wf(),
            match self.bound() {
                None => r == Err::<Snapshot, QueueError>(QueueError::NotFound) && final(registry)@
                    == old(registry)@,
                Some(id) => {
                    &&& reports(r, applied(entry(old(registry)@, id), cmd))
                    &&& final(registry)@ == old(registry)@.insert(
                        id,
                        match applied(entry(old(registry)@, id), cmd) {
                            Ok(q) => q,
                            Err(_) => entry(old(registry)@, id),
                        },
                    )
                },
            },
    {
        match &self.state {
            SessionState::Bound(q) => apply_command(registry, q.as_str(), cmd),
            SessionState::Closed => Err(QueueError::NotFound),
        }
    }

    /// One tick of the session's auto-advance timer; a closed session's
    /// timer does nothing.
    pub fn tick(&self, registry: &mut QueueManager) -> (r: bool)
        requires
            old(registry).wf(),
        ensures
            final(registry).wf(),
            match self.bound() {
                None => !r && final(registry)@ == old(registry)@,
                Some(id) => {
                    &&& r == (entry(old(registry)@, id).current is None && entry(
                        old(registry)@,
                        id,
                    ).upcoming.len() > 0)
                    &&& final(registry)@ == old(registry)@.insert(id, ticked(entry(old(registry)@, id)))
                },
            },
    {
        match &self.state {
            SessionState::Bound(q) => auto_advance(registry, q.as_str()),
            SessionState::Closed => false,
        }
    }
}

} // verus!
