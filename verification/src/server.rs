//! Session Acceptor and Stream Dispatcher: the server's bookkeeping.
//!
//! The acceptor registers each established connection and hands it to an
//! independent dispatch loop, fire-and-forget: it never waits for connection
//! handling.  Each dispatch loop registers a fresh session per accepted stream
//! and stops — without retry — when its connection closes.  Sessions share no
//! mutable state: whatever one stream's session does, and whatever happens to
//! one connection, every sibling session is untouched.  The isolation laws at
//! the end state exactly that.

use vstd::prelude::*;
use crate::session::{Session, SessionAction, SessionEvent, SessionModel, session_init, session_step};

verus! {

/// One connection as the server sees it: whether its dispatch loop still
/// runs, and the sessions of the streams accepted on it, in acceptance order.
pub struct Connection {
    /// False once the peer closed or the transport failed this connection.
    pub open: bool,
    /// One session per accepted stream.
    pub sessions: Vec<Session>,
}

/// One connection at the specification level.
#[verifier::ext_equal]
pub struct ConnModel {
    /// Whether the dispatch loop still runs.
    pub open: bool,
    /// The sessions of this connection's streams, in acceptance order.
    pub sessions: Seq<SessionModel>,
}

/// A freshly established connection: open, with no streams yet.
pub open spec fn conn_init() -> ConnModel {
    ConnModel { open: true, sessions: Seq::empty() }
}

/// A newly accepted connection is appended; every existing connection is
/// untouched.
pub open spec fn accept_conn_step(s: Seq<ConnModel>) -> Seq<ConnModel> {
    s.push(conn_init())
}

/// A newly accepted stream appends a fresh session to its own connection;
/// every other connection is untouched.
pub open spec fn accept_stream_step(s: Seq<ConnModel>, c: int) -> Seq<ConnModel> {
    s.update(c, ConnModel { open: s[c].open, sessions: s[c].sessions.push(session_init()) })
}

/// A connection closing ends its own dispatch loop and nothing else: its
/// sessions run on (each will observe end of data on its own stream), and
/// every other connection is untouched.
pub open spec fn close_conn_step(s: Seq<ConnModel>, c: int) -> Seq<ConnModel> {
    s.update(c, ConnModel { open: false, sessions: s[c].sessions })
}

/// An event of one stream's session steps that session alone.
pub open spec fn session_event_step(s: Seq<ConnModel>, c: int, k: int, ev: SessionEvent) -> Seq<
    ConnModel,
> {
    s.update(
        c,
        ConnModel {
            open: s[c].open,
            sessions: s[c].sessions.update(k, session_step(s[c].sessions[k], ev).0),
        },
    )
}

impl Connection {
    /// The model this connection stands for.
    pub open spec fn model(&self) -> ConnModel {
        ConnModel {
            open: self.open,
            sessions: self.sessions@.map_values(|s: Session| s.model()),
        }
    }
}

/// The server's whole bookkeeping: every connection it has accepted, in
/// acceptance order, each with its sessions.
pub struct Server {
    /// All accepted connections.
    pub connections: Vec<Connection>,
}

impl Server {
    /// The model this server stands for.
    pub open spec fn model(&self) -> Seq<ConnModel> {
        self.connections@.map_values(|c: Connection| c.model())
    }

    /// A server that has not accepted anything yet.
    pub fn new() -> (s: Server)
        ensures
            s.model() == Seq::<ConnModel>::empty(),
    {
        let s = Server { connections: Vec::new() };
        proof {
            assert(s.model() =~= Seq::<ConnModel>::empty());
        }
        s
    }

    /// One accept outcome on the listener.  A peer that connected is
    /// registered and handed out for concurrent dispatch, fire-and-forget —
    /// the accept loop never waits for it.  A failed accept is an
    /// unrecoverable listener fault and stops the whole server.
    pub fn on_listener_accept(&mut self, connected: bool) -> (r: Option<usize>)
        ensures
            connected ==> final(self).model() == accept_conn_step(old(self).model()) && (r
                matches Some(c) && c == old(self).connections@.len()),
            !connected ==> final(self).model() == old(self).model() && r is None,
    {
        if connected {
            let c = self.connections.len();
            self.connections.push(Connection { open: true, sessions: Vec::new() });
            proof {
                assert(self.model() =~~= accept_conn_step(old(self).model()));
            }
            Some(c)
        } else {
            None
        }
    }

    /// One accept outcome on a connection's dispatch loop.  A stream that
    /// opened gets a fresh session, handed out for concurrent handling; the
    /// connection closing — gracefully or by error — ends this connection's
    /// dispatch loop only, and is not retried.
    pub fn on_stream_accept(&mut self, c: usize, opened: bool) -> (r: Option<usize>)
        requires
            c < old(self).connections@.len(),
        ensures
            opened ==> final(self).model() == accept_stream_step(old(self).model(), c as int) && (
            r matches Some(k) && k == old(self).model()[c as int].sessions.len()),
            !opened ==> final(self).model() == close_conn_step(old(self).model(), c as int) && r
                is None,
    {
        let conn = &mut self.connections[c];
        if opened {
            let k = conn.sessions.len();
            conn.sessions.push(Session::new());
            proof {
                assert(self.model() =~~= accept_stream_step(old(self).model(), c as int));
            }
            Some(k)
        } else {
            conn.open = false;
            proof {
                assert(self.model() =~~= close_conn_step(old(self).model(), c as int));
            }
            None
        }
    }

    /// Feeds one observed event to one stream's session and returns the
    /// driver's next duty for that session.  No sibling session, on this
    /// connection or any other, is touched.
    pub fn on_session_event(&mut self, c: usize, k: usize, ev: SessionEvent) -> (a: SessionAction)
        requires
            c < old(self).connections@.len(),
            k < old(self).model()[c as int].sessions.len(),
        ensures
            final(self).model() == session_event_step(old(self).model(), c as int, k as int, ev),
            a == session_step(old(self).model()[c as int].sessions[k as int], ev).1,
    {
        let conn = &mut self.connections[c];
        let session = &mut conn.sessions[k];
        let a = session.step(ev);
        proof {
            assert(self.model() =~~= session_event_step(old(self).model(), c as int, k as int, ev));
        }
        a
    }
}

/// How many of these connections are still open.
pub open spec fn count_open(s: Seq<ConnModel>) -> nat
    decreases s.len(),
{
    if s.len() == 0 {
        0
    } else {
        count_open(s.drop_last()) + if s.last().open {
            1nat
        } else {
            0nat
        }
    }
}

impl Server {
    /// How many accepted connections are still open: a diagnostic figure for
    /// logging only, never used for a control decision.
    pub fn open_connections(&self) -> (n: usize)
        ensures
            n == count_open(self.model()),
    {
        let mut n: usize = 0;
        let mut i: usize = 0;
        while i < self.connections.len()
            invariant
                i <= self.connections@.len(),
                n <= i,
                n == count_open(self.model().take(i as int)),
            decreases self.connections@.len() - i,
        {
            proof {
                assert(self.model().take(i as int + 1).drop_last() =~= self.model().take(i as int));
                assert(self.model().take(i as int + 1).last() == self.model()[i as int]);
            }
            if self.connections[i].open {
                n = n + 1;
            }
            i = i + 1;
        }
        proof {
            assert(self.model().take(self.connections@.len() as int) =~= self.model());
        }
        n
    }
}

/// A whole run of session events, each addressed to one stream's session.
pub open spec fn server_events_run(
    s: Seq<ConnModel>,
    evs: Seq<(int, int, SessionEvent)>,
) -> Seq<ConnModel>
    decreases evs.len(),
{
    if evs.len() == 0 {
        s
    } else {
        server_events_run(session_event_step(s, evs[0].0, evs[0].1, evs[0].2), evs.drop_first())
    }
}

/// One addressed session event keeps the server's shape: the number of
/// connections, each connection's openness, and each connection's number of
/// sessions.
pub proof fn lemma_session_event_step_shape(s: Seq<ConnModel>, c: int, k: int, ev: SessionEvent)
    requires
        0 <= c < s.len(),
        0 <= k < s[c].sessions.len(),
    ensures
        session_event_step(s, c, k, ev).len() == s.len(),
        forall|c2: int|
            0 <= c2 < s.len() ==> #[trigger] session_event_step(s, c, k, ev)[c2].open == s[c2].open
                && session_event_step(s, c, k, ev)[c2].sessions.len() == s[c2].sessions.len(),
{
}

/// Law (stream isolation): whatever one stream's session observes — progress,
/// end of data, or failure — every other session, on the same connection or
/// any other, is exactly as it was; so no session's failure or slow progress
/// can fail a sibling's relay.
pub proof fn lemma_stream_isolation(
    s: Seq<ConnModel>,
    c: int,
    k: int,
    ev: SessionEvent,
    c2: int,
    k2: int,
)
    requires
        0 <= c < s.len(),
        0 <= k < s[c].sessions.len(),
        0 <= c2 < s.len(),
        0 <= k2 < s[c2].sessions.len(),
        c2 != c || k2 != k,
    ensures
        session_event_step(s, c, k, ev)[c2].sessions[k2] == s[c2].sessions[k2],
        session_event_step(s, c, k, ev)[c2].open == s[c2].open,
{
}

/// Law (connection isolation): closing one connection leaves every other
/// connection — its dispatch loop and every one of its sessions — exactly as
/// it was.
pub proof fn lemma_connection_isolation(s: Seq<ConnModel>, c: int, c2: int)
    requires
        0 <= c < s.len(),
        0 <= c2 < s.len(),
        c2 != c,
    ensures
        close_conn_step(s, c)[c2] == s[c2],
{
}

/// Law (closing one connection does not disturb another's relay): a session on
/// connection `c2` steps to exactly the same state and duty after some other
/// connection `c` was torn down as it would have without that teardown.
pub proof fn lemma_close_does_not_disturb_siblings(
    s: Seq<ConnModel>,
    c: int,
    c2: int,
    k2: int,
    ev: SessionEvent,
)
    requires
        0 <= c < s.len(),
        0 <= c2 < s.len(),
        0 <= k2 < s[c2].sessions.len(),
        c2 != c,
    ensures
        session_event_step(close_conn_step(s, c), c2, k2, ev)[c2] == session_event_step(
            s,
            c2,
            k2,
            ev,
        )[c2],
{
}

/// Law (isolation under any interleaving): however many session events a whole
/// run delivers to however many concurrently handled streams — progress,
/// failures, slow or fast — a session that none of them addresses is exactly
/// as it was, and its connection is as open as it was.
pub proof fn lemma_concurrent_streams_isolated(
    s: Seq<ConnModel>,
    evs: Seq<(int, int, SessionEvent)>,
    c2: int,
    k2: int,
)
    requires
        0 <= c2 < s.len(),
        0 <= k2 < s[c2].sessions.len(),
        forall|j: int|
            0 <= j < evs.len() ==> 0 <= (#[trigger] evs[j]).0 < s.len() && 0 <= evs[j].1
                < s[evs[j].0].sessions.len(),
        forall|j: int|
            0 <= j < evs.len() ==> !((#[trigger] evs[j]).0 == c2 && evs[j].1 == k2),
    ensures
        server_events_run(s, evs).len() == s.len(),
        server_events_run(s, evs)[c2].sessions[k2] == s[c2].sessions[k2],
        server_events_run(s, evs)[c2].open == s[c2].open,
    decreases evs.len(),
{
    if evs.len() > 0 {
        let c = evs[0].0;
        let k = evs[0].1;
        let ev = evs[0].2;
        let s1 = session_event_step(s, c, k, ev);
        lemma_session_event_step_shape(s, c, k, ev);
        lemma_stream_isolation(s, c, k, ev, c2, k2);
        let rest = evs.drop_first();
        assert forall|j: int| 0 <= j < rest.len() implies 0 <= (#[trigger] rest[j]).0 < s1.len()
            && 0 <= rest[j].1 < s1[rest[j].0].sessions.len() by {
            assert(rest[j] == evs[j + 1]);
        }
        assert forall|j: int|
            0 <= j < rest.len() implies !((#[trigger] rest[j]).0 == c2 && rest[j].1 == k2) by {
            assert(rest[j] == evs[j + 1]);
        }
        lemma_concurrent_streams_isolated(s1, rest, c2, k2);
    }
}

} // verus!
