//! The session table: a mapping from client address to session identifier,
//! keys unique, grown lazily on the first datagram of a new client and
//! never shrunk. A session identifier indexes the backend pump that was
//! created for that client.

use vstd::prelude::*;

use crate::datagram::Addr;

verus! {

/// Client addresses by session identifier: the address at index `i` is the
/// one client that session `i` serves.
pub struct SessionTable {
    clients: Vec<Addr>,
}

impl SessionTable {
    /// The addresses this table maps, by session identifier.
    pub closed spec fn view(self) -> Seq<Addr> {
        self.clients@
    }

    /// Keys are unique: no two sessions serve the same client address.
    pub open spec fn wf(self) -> bool {
        forall|i: int, j: int|
            0 <= i < self@.len() && 0 <= j < self@.len() && i != j ==> self@[i] != self@[j]
    }

    /// Whether some session already serves this client address.
    pub open spec fn contains_client(self, a: Addr) -> bool {
        exists|i: int| 0 <= i < self@.len() && self@[i] == a
    }

    /// The session identifier of a client address that the table contains.
    pub open spec fn id_of(self, a: Addr) -> int {
        choose|i: int| 0 <= i < self@.len() && self@[i] == a
    }

    /// The client address a session serves.
    pub open spec fn client_of(self, i: int) -> Addr {
        self@[i]
    }

    pub fn new() -> (t: SessionTable)
        ensures
            t.wf(),
            t@.len() == 0,
    {
        SessionTable { clients: Vec::new() }
    }

    /// How many sessions exist.
    pub fn len(&self) -> (n: usize)
        ensures
            n == self@.len(),
    {
        self.clients.len()
    }

    /// Looks the client address up: its session identifier, or `None` when
    /// no session serves it yet.
    pub fn lookup(&self, a: Addr) -> (r: Option<usize>)
        requires
            self.wf(),
        ensures
            match r {
                Some(i) => self.contains_client(a) && i == self.id_of(a),
                None => !self.contains_client(a),
            },
    {
        let n = self.clients.len();
        let mut idx: usize = 0;
        while idx < n
            invariant
                n == self@.len(),
                idx <= n,
                self.wf(),
                forall|k: int| 0 <= k < idx ==> self@[k] != a,
            decreases n - idx,
        {
            if self.clients[idx] == a {
                proof {
                    let j = self.id_of(a);
                    assert(self@[j as int] == a);
                }
                return Some(idx);
            }
            idx += 1;
        }
        None
    }

    /// Installs a session for a client address not seen before; returns the
    /// fresh session identifier. Exactly one entry is added and every
    /// existing session is kept unchanged.
    pub fn insert(&mut self, a: Addr) -> (sid: usize)
        requires
            old(self).wf(),
            !old(self).contains_client(a),
        ensures
            final(self).wf(),
            final(self)@ == old(self)@.push(a),
            sid == old(self)@.len(),
            final(self).contains_client(a),
            final(self).id_of(a) == sid,
            final(self).client_of(sid as int) == a,
            forall|b: Addr| #[trigger]
                old(self).contains_client(b) ==> final(self).contains_client(b)
                    && final(self).id_of(b) == old(self).id_of(b),
            forall|b: Addr| #[trigger]
                final(self).contains_client(b) ==> b == a || old(self).contains_client(b),
    {
        let sid = self.clients.len();
        self.clients.push(a);
        proof {
            assert forall|i: int, j: int|
                0 <= i < self@.len() && 0 <= j < self@.len() && i != j implies self@[i]
                != self@[j] by {
                if i < old(self)@.len() && j < old(self)@.len() {
                } else if i == old(self)@.len() {
                    assert(self@[j] == old(self)@[j]);
                } else if j == old(self)@.len() {
                    assert(self@[i] == old(self)@[i]);
                }
            }
            assert(self@[sid as int] == a);
            let k = self.id_of(a);
            assert(self@[k] == a);
            assert forall|b: Addr| #[trigger]
                old(self).contains_client(b) implies self.contains_client(b) && self.id_of(b)
                == old(self).id_of(b) by {
                let i = old(self).id_of(b);
                assert(old(self)@[i] == b);
                assert(self@[i] == b);
                let j = self.id_of(b);
                assert(self@[j] == b);
            }
            assert forall|b: Addr| #[trigger]
                self.contains_client(b) implies b == a || old(self).contains_client(b) by {
                let i = choose|i: int| 0 <= i < self@.len() && self@[i] == b;
                if i < old(self)@.len() {
                    assert(old(self)@[i] == b);
                }
            }
        }
        sid
    }

    /// Hands the client address of an existing session back.
    pub fn client_addr(&self, sid: usize) -> (a: Addr)
        requires
            sid < self@.len(),
        ensures
            a == self.client_of(sid as int),
    {
        self.clients[sid]
    }
}

/// Session isolation: two distinct client addresses are never served by the
/// same session, so a datagram routed by its origin can only reach the
/// backend session of that origin.
pub proof fn lemma_session_isolation(t: SessionTable, a: Addr, b: Addr)
    requires
        t.wf(),
        t.contains_client(a),
        t.contains_client(b),
        a != b,
    ensures
        t.id_of(a) != t.id_of(b),
{
    let i = t.id_of(a);
    let j = t.id_of(b);
    assert(t@[i] == a);
    assert(t@[j] == b);
}

/// A reply always reaches the session's creator: the client address a
/// session serves is exactly the address whose first datagram created it.
pub proof fn lemma_reply_reaches_owner(t: SessionTable, c: Addr)
    requires
        t.wf(),
        t.contains_client(c),
    ensures
        0 <= t.id_of(c) < t@.len(),
        t.client_of(t.id_of(c)) == c,
{
    let i = t.id_of(c);
    assert(t@[i] == c);
}

} // verus!
