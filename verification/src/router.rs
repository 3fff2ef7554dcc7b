//! The router: owns the session table and decides, for every datagram, how
//! it is forwarded. Datagrams from clients are routed to the backend
//! session of their origin, after the optional drop filter; datagrams from
//! a backend session are stamped with the client address that session
//! serves. The network loops that carry the decisions out live outside
//! this crate and feed every datagram through these functions.

use vstd::prelude::*;

use crate::datagram::Addr;
use crate::datagram::Datagram;
use crate::filters::drop_chance::DropChance;
use crate::filters::Filter;
use crate::session::SessionTable;

verus! {

/// The router's verdict on one datagram received from a client.
#[derive(Debug)]
pub enum RouteDecision {
    /// No session serves the origin yet: the caller must open one (binding
    /// a fresh backend socket) and route the datagram again; the datagram
    /// is handed back untouched.
    NoSession(Datagram),
    /// The filter dropped the datagram: nothing is forwarded.
    Dropped,
    /// Forward the datagram, destination resolved to the server, on the
    /// backend session with this identifier.
    Forward(usize, Datagram),
}

/// The forwarding engine: the configured server address, the optional
/// drop filter for the client-to-server path, and the session table.
pub struct Router {
    pub server_addr: Addr,
    pub filter: Option<DropChance>,
    pub sessions: SessionTable,
}

/// What the router forwards for one client datagram that passed the
/// filter: the same payload and origin, destination resolved to the server.
pub open spec fn forward_of(server: Addr, d: Datagram) -> Datagram {
    Datagram { payload: d.payload, origin: d.origin, destination: Some(server) }
}

impl Router {
    pub open spec fn wf(self) -> bool {
        &&& self.sessions.wf()
        &&& (self.filter matches Some(f) ==> f.wf())
    }

    pub fn new(server_addr: Addr, filter: Option<DropChance>) -> (r: Router)
        requires
            filter matches Some(f) ==> f.wf(),
        ensures
            r.wf(),
            r.server_addr == server_addr,
            r.filter == filter,
            r.sessions@.len() == 0,
    {
        Router { server_addr, filter, sessions: SessionTable::new() }
    }

    /// How many sessions exist.
    pub fn session_count(&self) -> (n: usize)
        ensures
            n == self.sessions@.len(),
    {
        self.sessions.len()
    }

    /// The session serving a client address, if one exists.
    pub fn session_for(&self, client: Addr) -> (r: Option<usize>)
        requires
            self.wf(),
        ensures
            match r {
                Some(i) => self.sessions.contains_client(client) && i == self.sessions.id_of(
                    client,
                ),
                None => !self.sessions.contains_client(client),
            },
    {
        self.sessions.lookup(client)
    }

    /// Installs the session for a client seen for the first time: exactly
    /// one entry is added, every existing client keeps its session, and the
    /// fresh identifier is returned.
    pub fn open_session(&mut self, client: Addr) -> (sid: usize)
        requires
            old(self).wf(),
            !old(self).sessions.contains_client(client),
        ensures
            final(self).wf(),
            final(self).server_addr == old(self).server_addr,
            final(self).filter == old(self).filter,
            final(self).sessions@ == old(self).sessions@.push(client),
            final(self).sessions@.len() == old(self).sessions@.len() + 1,
            sid == old(self).sessions@.len(),
            final(self).sessions.contains_client(client),
            final(self).sessions.id_of(client) == sid,
            final(self).sessions.client_of(sid as int) == client,
            forall|b: Addr| #[trigger]
                old(self).sessions.contains_client(b) ==> final(self).sessions.contains_client(b)
                    && final(self).sessions.id_of(b) == old(self).sessions.id_of(b),
            forall|b: Addr| #[trigger]
                final(self).sessions.contains_client(b) ==> b == client
                    || old(self).sessions.contains_client(b),
    {
        self.sessions.insert(client)
    }

    /// Routes one datagram received from the client-facing pump. The origin
    /// must have a session (else the caller is told to open one first);
    /// the filter is then consulted once, and a passed datagram is handed
    /// to the origin's session with its destination resolved to the server.
    pub fn route_client_to_server(&self, d: Datagram) -> (r: RouteDecision)
        requires
            self.wf(),
        ensures
            !self.sessions.contains_client(d.origin) ==> r == RouteDecision::NoSession(d),
            r matches RouteDecision::NoSession(d2) ==> d2 == d && !self.sessions.contains_client(
                d.origin,
            ),
            r matches RouteDecision::Forward(sid, d2) ==> self.sessions.contains_client(d.origin)
                && sid as int == self.sessions.id_of(d.origin) && d2 == forward_of(
                self.server_addr,
                d,
            ),
            r is Dropped ==> self.sessions.contains_client(d.origin) && (self.filter matches Some(
                f,
            ) && !f.passes_all()),
            self.sessions.contains_client(d.origin) && (self.filter is None || (
            self.filter matches Some(f) && f.passes_all())) ==> r is Forward,
            self.sessions.contains_client(d.origin) && (self.filter matches Some(f)
                && f.drops_all()) ==> r is Dropped,
    {
        match self.sessions.lookup(d.origin) {
            None => RouteDecision::NoSession(d),
            Some(sid) => {
                let filtered = match &self.filter {
                    None => Some(d),
                    Some(f) => f.apply(d),
                };
                match filtered {
                    None => RouteDecision::Dropped,
                    Some(passed) => {
                        let out = passed.set_destination(self.server_addr);
                        proof {
                            assert(out == forward_of(self.server_addr, d));
                        }
                        RouteDecision::Forward(sid, out)
                    },
                }
            },
        }
    }

    /// Routes one datagram received from a backend session: the destination
    /// becomes the client address that session serves (the origin, the
    /// server's own address, is left as provenance), and the payload is
    /// kept byte for byte.
    pub fn route_server_to_client(&self, sid: usize, d: Datagram) -> (r: Datagram)
        requires
            sid < self.sessions@.len(),
        ensures
            r == (Datagram { destination: Some(self.sessions.client_of(sid as int)), ..d }),
            r.payload@ == d.payload@,
            r.origin == d.origin,
            r.destination == Some(self.sessions.client_of(sid as int)),
            d.wf() ==> r.wf(),
    {
        let client = self.sessions.client_addr(sid);
        d.set_destination(client)
    }
}

/// The datagrams one session is handed, in order, when the router processes
/// the client's datagrams `inputs` in order and the filter passes exactly
/// those marked true in `pass`.
pub open spec fn forwarded_seq(server: Addr, inputs: Seq<Datagram>, pass: Seq<bool>) -> Seq<
    Datagram,
>
    decreases inputs.len(),
{
    if inputs.len() == 0 {
        Seq::empty()
    } else {
        let rest = forwarded_seq(server, inputs.drop_last(), pass.drop_last());
        if pass.len() > 0 && pass.last() {
            rest.push(forward_of(server, inputs.last()))
        } else {
            rest
        }
    }
}

/// Per-session FIFO: when every datagram passes the filter, the session is
/// handed exactly the client's datagrams, in the order they were received,
/// each with its destination resolved to the server.
pub proof fn lemma_per_session_fifo(server: Addr, inputs: Seq<Datagram>, pass: Seq<bool>)
    requires
        pass.len() == inputs.len(),
        forall|i: int| 0 <= i < pass.len() ==> pass[i],
    ensures
        forwarded_seq(server, inputs, pass).len() == inputs.len(),
        forall|i: int|
            0 <= i < inputs.len() ==> forwarded_seq(server, inputs, pass)[i] == forward_of(
                server,
                inputs[i],
            ),
    decreases inputs.len(),
{
    if inputs.len() > 0 {
        lemma_per_session_fifo(server, inputs.drop_last(), pass.drop_last());
    }
}

/// Forwarding only appends: what a session was handed after the first `n`
/// client datagrams stands unchanged, as a prefix, after any number of
/// further datagrams; the relative order of forwarded datagrams is the
/// order in which the client sent them, whatever the filter dropped.
pub proof fn lemma_forwarding_appends(server: Addr, inputs: Seq<Datagram>, pass: Seq<bool>, n: int)
    requires
        pass.len() == inputs.len(),
        0 <= n <= inputs.len(),
    ensures
        forwarded_seq(server, inputs.take(n), pass.take(n)).is_prefix_of(
            forwarded_seq(server, inputs, pass),
        ),
    decreases inputs.len() - n,
{
    if n == inputs.len() {
        assert(inputs.take(n) =~= inputs);
        assert(pass.take(n) =~= pass);
    } else {
        lemma_forwarding_appends(server, inputs, pass, n + 1);
        assert(inputs.take(n + 1).drop_last() =~= inputs.take(n));
        assert(pass.take(n + 1).drop_last() =~= pass.take(n));
        let shorter = forwarded_seq(server, inputs.take(n), pass.take(n));
        let longer = forwarded_seq(server, inputs.take(n + 1), pass.take(n + 1));
        let whole = forwarded_seq(server, inputs, pass);
        assert(shorter.is_prefix_of(longer));
        assert(shorter =~= whole.subrange(0, shorter.len() as int));
    }
}

} // verus!
