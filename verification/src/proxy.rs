//! PROXY-mode support: the connection tuple carried by a PROXY protocol
//! header, the dispatch decision for an incoming connection, and the
//! switchboard that joins incoming data connections to waiting sessions.
//!
//! In PROXY mode the server binds one port. Every accepted connection
//! starts with a PROXY header naming the original source and destination;
//! the destination port decides whether the connection is a control
//! connection, a data connection for a reserved passive port, or stray.

use vstd::prelude::*;

verus! {

/// An IPv4 address as its four octets.
#[derive(Clone, Copy, Debug, PartialEq, Eq, Structural)]
pub struct Ipv4 {
    pub a: u8,
    pub b: u8,
    pub c: u8,
    pub d: u8,
}

/// The original endpoints of a proxied connection, extracted from a
/// PROXY protocol v1/v2 header.
#[derive(Clone, Copy, Debug, PartialEq, Eq, Structural)]
pub struct ConnectionTuple {
    pub from_ip: Ipv4,
    pub from_port: u16,
    pub to_ip: Ipv4,
    pub to_port: u16,
}

/// Whether the server runs behind a PROXY-protocol load balancer, and if
/// so which external port carries control connections.
#[derive(Clone, Copy, Debug, PartialEq, Eq, Structural)]
pub enum ProxyMode {
    Off,
    On { external_control_port: u16 },
}

/// What to do with one incoming proxied connection.
#[derive(Clone, Copy, Debug, PartialEq, Eq, Structural)]
pub enum ProxyDispatch {
    /// Destination is the external control port: start a control loop.
    Control,
    /// Destination is inside the passive range: join it to a waiting
    /// session through the switchboard.
    Data,
    /// Destination is neither: close the connection.
    Refuse,
}

/// The dispatch rule for one proxied connection, given the external
/// control port and the passive range `[lo, hi)`.
pub open spec fn dispatch_spec(
    conn: ConnectionTuple,
    external_control_port: u16,
    lo: u16,
    hi: u16,
) -> ProxyDispatch {
    if conn.to_port == external_control_port {
        ProxyDispatch::Control
    } else if lo <= conn.to_port && conn.to_port < hi {
        ProxyDispatch::Data
    } else {
        ProxyDispatch::Refuse
    }
}

/// Decides what one incoming proxied connection is: a control connection
/// if the original destination port is the external control port, a data
/// connection if it lies inside the passive range `[lo, hi)`, and stray
/// otherwise.
pub fn dispatch_connection(
    conn: &ConnectionTuple,
    external_control_port: u16,
    lo: u16,
    hi: u16,
) -> (d: ProxyDispatch)
    ensures
        d == dispatch_spec(*conn, external_control_port, lo, hi),
{
    if conn.to_port == external_control_port {
        ProxyDispatch::Control
    } else if lo <= conn.to_port && conn.to_port < hi {
        ProxyDispatch::Data
    } else {
        ProxyDispatch::Refuse
    }
}

/// One switchboard reservation: the session that reserved `port` for a
/// data connection expected from `from_ip`, and when the reservation
/// lapses.
#[derive(Clone, Copy, Debug, PartialEq, Eq, Structural)]
pub struct SwitchboardEntry {
    pub from_ip: Ipv4,
    pub port: u16,
    pub session_id: u64,
    pub expires_at: u64,
}

/// How long a reservation lives, in milliseconds.
pub const RESERVATION_TTL_MS: u64 = 30_000;

/// Whether `entries` holds a reservation of `port` that is still live
/// at `now`.
pub open spec fn live_port_reserved(entries: Seq<SwitchboardEntry>, now: u64, port: u16) -> bool {
    exists|i: int|
        0 <= i < entries.len() && (#[trigger] entries[i]).expires_at > now && entries[i].port
            == port
}

/// The table that joins an incoming PROXY-delivered data connection to
/// the session waiting for it. Ports are reserved out of `[lo, hi)`;
/// a port is reserved by at most one entry at a time. Expired
/// reservations are reclaimed lazily, on the next reservation.
#[derive(Debug)]
pub struct ProxyProtocolSwitchboard {
    entries: Vec<SwitchboardEntry>,
    lo: u16,
    hi: u16,
}

impl ProxyProtocolSwitchboard {
    /// The current reservations.
    pub closed spec fn entries_seq(&self) -> Seq<SwitchboardEntry> {
        self.entries@
    }

    /// The lower bound of the passive range.
    pub closed spec fn spec_lo(&self) -> u16 {
        self.lo
    }

    /// The exclusive upper bound of the passive range.
    pub closed spec fn spec_hi(&self) -> u16 {
        self.hi
    }

    /// Whether some entry reserves `port`.
    pub open spec fn port_reserved(&self, port: u16) -> bool {
        exists|i: int| 0 <= i < self.entries_seq().len() && #[trigger] self.entries_seq()[i].port == port
    }

    /// Well-formedness: every reservation lies inside the range, and no
    /// two reservations share a port.
    pub open spec fn wf(&self) -> bool {
        &&& forall|i: int|
            0 <= i < self.entries_seq().len() ==> self.spec_lo() <= #[trigger] self.entries_seq()[i].port
                < self.spec_hi()
        &&& forall|i: int, j: int|
            0 <= i < j < self.entries_seq().len() ==> #[trigger] self.entries_seq()[i].port
                != #[trigger] self.entries_seq()[j].port
    }

    /// The session, if any, waiting for a data connection whose original
    /// source address is `from_ip` and whose original destination port
    /// is `port`.
    pub open spec fn lookup_key(&self, from_ip: Ipv4, port: u16) -> Option<u64> {
        if exists|i: int|
            0 <= i < self.entries_seq().len() && (#[trigger] self.entries_seq()[i]).from_ip
                == from_ip && self.entries_seq()[i].port == port {
            Option::Some(
                self.entries_seq()[choose|i: int|
                    0 <= i < self.entries_seq().len() && (#[trigger] self.entries_seq()[i]).from_ip
                        == from_ip && self.entries_seq()[i].port == port].session_id,
            )
        } else {
            Option::None
        }
    }

    /// The session, if any, waiting for this incoming data connection.
    pub open spec fn lookup_spec(&self, conn: ConnectionTuple) -> Option<u64> {
        self.lookup_key(conn.from_ip, conn.to_port)
    }

    /// An empty switchboard over the passive range `[lo, hi)`.
    pub fn new(lo: u16, hi: u16) -> (sb: ProxyProtocolSwitchboard)
        ensures
            sb.wf(),
            sb.entries_seq() == Seq::<SwitchboardEntry>::empty(),
            sb.spec_lo() == lo,
            sb.spec_hi() == hi,
    {
        let sb = ProxyProtocolSwitchboard { entries: Vec::new(), lo, hi };
        proof {
            assert(sb.entries_seq() =~= Seq::<SwitchboardEntry>::empty());
        }
        sb
    }

    /// Finds the session that reserved the port an incoming data
    /// connection was addressed to, keyed by the connection's original
    /// source address and destination port.
    #[verifier::loop_isolation(false)]
    pub fn get_session_by_incoming_data_connection(&self, conn: &ConnectionTuple) -> (r: Option<
        u64,
    >)
        requires
            self.wf(),
        ensures
            r == self.lookup_spec(*conn),
    {
        let n = self.entries.len();
        let mut i: usize = 0;
        while i < n
            invariant
                n == self.entries_seq().len(),
                0 <= i <= n,
                forall|j: int|
                    0 <= j < i ==> !((#[trigger] self.entries_seq()[j]).from_ip == conn.from_ip
                        && self.entries_seq()[j].port == conn.to_port),
            decreases n - i,
        {
            let e = self.entries[i];
            if e.from_ip == conn.from_ip && e.port == conn.to_port {
                proof {
                    let es = self.entries_seq();
                    assert(es[i as int].from_ip == conn.from_ip && es[i as int].port
                        == conn.to_port);
                    let w = choose|k: int|
                        0 <= k < self.entries_seq().len() && (
                        #[trigger] self.entries_seq()[k]).from_ip == conn.from_ip
                            && self.entries_seq()[k].port == conn.to_port;
                    if w < i as int {
                        assert(es[w].port != es[i as int].port);
                    } else if w > i as int {
                        assert(es[i as int].port != es[w].port);
                    }
                }
                return Option::Some(e.session_id);
            }
            i = i + 1;
        }
        Option::None
    }

    /// Removes the reservation matching this connection, if there is one.
    /// Every other reservation is kept.
    #[verifier::loop_isolation(false)]
    pub fn unregister(&mut self, conn: &ConnectionTuple)
        requires
            old(self).wf(),
        ensures
            final(self).wf(),
            final(self).spec_lo() == old(self).spec_lo(),
            final(self).spec_hi() == old(self).spec_hi(),
            final(self).lookup_spec(*conn) is None,
            forall|i: int|
                0 <= i < final(self).entries_seq().len() ==> old(self).entries_seq().contains(
                    #[trigger] final(self).entries_seq()[i],
                ),
            forall|i: int|
                0 <= i < old(self).entries_seq().len() && !((
                #[trigger] old(self).entries_seq()[i]).from_ip == conn.from_ip && old(self).entries_seq()[i].port == conn.to_port) ==> final(self).entries_seq().contains(
                    old(self).entries_seq()[i],
                ),
    {
        let n = self.entries.len();
        let mut i: usize = 0;
        while i < n
            invariant
                old(self) == self,
                n == self.entries_seq().len(),
                0 <= i <= n,
                forall|j: int|
                    0 <= j < i ==> !((#[trigger] self.entries_seq()[j]).from_ip == conn.from_ip
                        && self.entries_seq()[j].port == conn.to_port),
            decreases n - i,
        {
            let e = self.entries[i];
            if e.from_ip == conn.from_ip && e.port == conn.to_port {
                self.entries.remove(i);
                proof {
                    let oldseq = old(self).entries_seq();
                    let newseq = self.entries_seq();
                    oldseq.remove_ensures(i as int);
                    assert forall|k: int| 0 <= k < newseq.len() implies oldseq.contains(
                        #[trigger] newseq[k],
                    ) by {
                        if k < i {
                            assert(newseq[k] == oldseq[k]);
                        } else {
                            assert(newseq[k] == oldseq[k + 1]);
                        }
                    }
                    assert forall|k: int|
                        0 <= k < oldseq.len() && !((#[trigger] oldseq[k]).from_ip == conn.from_ip
                            && oldseq[k].port == conn.to_port) implies newseq.contains(
                        oldseq[k],
                    ) by {
                        if k < i {
                            assert(newseq[k] == oldseq[k]);
                        } else if k > i {
                            assert(newseq[k - 1] == oldseq[k]);
                        }
                    }
                    assert forall|k: int|
                        0 <= k < newseq.len() implies !((#[trigger] newseq[k]).from_ip
                        == conn.from_ip && newseq[k].port == conn.to_port) by {
                        if k < i {
                            assert(newseq[k] == oldseq[k]);
                        } else {
                            assert(newseq[k] == oldseq[k + 1]);
                            assert(oldseq[i as int].port == conn.to_port);
                            if oldseq[k + 1].port == conn.to_port {
                                assert(oldseq[i as int].port != oldseq[k + 1].port);
                            }
                        }
                    }
                    assert forall|k1: int, k2: int|
                        0 <= k1 < k2 < newseq.len() implies #[trigger] newseq[k1].port
                        != #[trigger] newseq[k2].port by {
                        let m1: int = if k1 < i { k1 } else { k1 + 1 };
                        let m2: int = if k2 < i { k2 } else { k2 + 1 };
                        assert(newseq[k1] == oldseq[m1]);
                        assert(newseq[k2] == oldseq[m2]);
                        assert(oldseq[m1].port != oldseq[m2].port);
                    }
                    assert forall|k: int|
                        0 <= k < newseq.len() implies self.spec_lo() <= (
                    #[trigger] newseq[k].port) < self.spec_hi() by {
                        let m: int = if k < i { k } else { k + 1 };
                        assert(newseq[k] == oldseq[m]);
                    }
                }
                return ;
            }
            i = i + 1;
        }
    }

    /// Whether some current reservation holds `port`.
    #[verifier::loop_isolation(false)]
    fn contains_port(&self, port: u16) -> (r: bool)
        ensures
            r == self.port_reserved(port),
    {
        let n = self.entries.len();
        let mut i: usize = 0;
        while i < n
            invariant
                n == self.entries_seq().len(),
                0 <= i <= n,
                forall|j: int| 0 <= j < i ==> #[trigger] self.entries_seq()[j].port != port,
            decreases n - i,
        {
            if self.entries[i].port == port {
                return true;
            }
            i = i + 1;
        }
        false
    }

    /// Drops every reservation that has expired by `now`.
    #[verifier::loop_isolation(false)]
    fn reclaim_expired(&mut self, now: u64)
        requires
            old(self).wf(),
        ensures
            final(self).wf(),
            final(self).spec_lo() == old(self).spec_lo(),
            final(self).spec_hi() == old(self).spec_hi(),
            forall|i: int|
                0 <= i < final(self).entries_seq().len() ==> old(self).entries_seq().contains(
                    #[trigger] final(self).entries_seq()[i],
                ) && final(self).entries_seq()[i].expires_at > now,
            forall|i: int|
                0 <= i < old(self).entries_seq().len() && (
                #[trigger] old(self).entries_seq()[i]).expires_at > now ==> final(self).entries_seq().contains(old(self).entries_seq()[i]),
    {
        let n = self.entries.len();
        let mut kept: Vec<SwitchboardEntry> = Vec::new();
        let mut i: usize = 0;
        while i < n
            invariant
                old(self) == self,
                n == self.entries_seq().len(),
                0 <= i <= n,
                forall|k: int|
                    0 <= k < kept@.len() ==> old(self).entries_seq().contains(#[trigger] kept@[k])
                        && kept@[k].expires_at > now,
                forall|j: int|
                    0 <= j < i && (#[trigger] old(self).entries_seq()[j]).expires_at > now
                        ==> kept@.contains(old(self).entries_seq()[j]),
                forall|k1: int, k2: int|
                    0 <= k1 < k2 < kept@.len() ==> #[trigger] kept@[k1].port != #[trigger] kept@[k2].port,
                forall|k: int, j: int|
                    0 <= k < kept@.len() && i <= j < n ==> #[trigger] kept@[k].port != (
                    #[trigger] old(self).entries_seq()[j]).port,
                forall|k: int|
                    0 <= k < kept@.len() ==> old(self).spec_lo() <= #[trigger] kept@[k].port < old(self).spec_hi(),
            decreases n - i,
        {
            let e = self.entries[i];
            if e.expires_at > now {
                proof {
                    let es = old(self).entries_seq();
                    assert forall|k: int, j: int|
                        0 <= k < kept@.len() + 1 && i + 1 <= j < n implies (if k < kept@.len() {
                        kept@[k]
                    } else {
                        e
                    }).port != es[j].port by {
                        if k == kept@.len() {
                            assert(es[i as int].port != es[j].port);
                        }
                    }
                }
                let ghost kept_before = kept@;
                kept.push(e);
                proof {
                    assert(old(self).entries_seq().contains(e)) by {
                        assert(old(self).entries_seq()[i as int] == e);
                    }
                    assert(kept@.contains(e)) by {
                        assert(kept@[kept@.len() - 1] == e);
                    }
                    assert forall|j: int|
                        0 <= j < i + 1 && (#[trigger] old(self).entries_seq()[j]).expires_at > now
                            implies kept@.contains(old(self).entries_seq()[j]) by {
                        if j < i {
                            let w = choose|w: int|
                                0 <= w < kept_before.len() && kept_before[w]
                                    == old(self).entries_seq()[j];
                            assert(kept@[w] == old(self).entries_seq()[j]);
                        }
                    }
                }
            }
            i = i + 1;
        }
        self.entries = kept;
    }

    /// Reserves the lowest free passive port for `session_id`, expecting
    /// the data connection to come from `from_ip`. Expired reservations
    /// are reclaimed first. Returns `None` when every port in the range
    /// is taken; the client then gets a 425 reply.
    #[verifier::loop_isolation(false)]
    pub fn reserve_next_free_port(&mut self, from_ip: Ipv4, session_id: u64, now: u64) -> (r:
        Option<u16>)
        requires
            old(self).wf(),
            now <= u64::MAX - RESERVATION_TTL_MS,
        ensures
            final(self).wf(),
            final(self).spec_lo() == old(self).spec_lo(),
            final(self).spec_hi() == old(self).spec_hi(),
            match r {
                Option::Some(port) => {
                    &&& final(self).spec_lo() <= port < final(self).spec_hi()
                    &&& final(self).lookup_key(from_ip, port) == Option::Some(session_id)
                    &&& final(self).port_reserved(port)
                    // the port was free: no live reservation held it
                    &&& forall|i: int|
                        0 <= i < old(self).entries_seq().len() && (
                        #[trigger] old(self).entries_seq()[i]).expires_at > now ==> old(self).entries_seq()[i].port != port
                    // ascending draw: every lower port in the range was
                    // still reserved by a live entry
                    &&& forall|p: u16|
                        final(self).spec_lo() <= p < port ==> #[trigger] live_port_reserved(
                            old(self).entries_seq(),
                            now,
                            p,
                        )
                    // the reservation is recorded whole, with its deadline
                    &&& final(self).entries_seq().len() >= 1
                    &&& final(self).entries_seq().last() == (SwitchboardEntry {
                        from_ip,
                        port,
                        session_id,
                        expires_at: (now + RESERVATION_TTL_MS) as u64,
                    })
                    // every reservation still live survives, and nothing
                    // else stands in the table beside the new entry
                    &&& forall|i: int|
                        0 <= i < old(self).entries_seq().len() && (
                        #[trigger] old(self).entries_seq()[i]).expires_at > now ==> final(self).entries_seq().contains(old(self).entries_seq()[i])
                    &&& forall|i: int|
                        0 <= i < final(self).entries_seq().len() - 1 ==> old(self).entries_seq().contains(#[trigger] final(self).entries_seq()[i]) && final(self).entries_seq()[i].expires_at > now
                },
                Option::None => {
                    &&& forall|p: u16|
                        final(self).spec_lo() <= p < final(self).spec_hi()
                            ==> #[trigger] live_port_reserved(old(self).entries_seq(), now, p)
                    // nothing was added; the live reservations survive
                    &&& forall|i: int|
                        0 <= i < old(self).entries_seq().len() && (
                        #[trigger] old(self).entries_seq()[i]).expires_at > now ==> final(self).entries_seq().contains(old(self).entries_seq()[i])
                    &&& forall|i: int|
                        0 <= i < final(self).entries_seq().len() ==> old(self).entries_seq().contains(#[trigger] final(self).entries_seq()[i]) && final(self).entries_seq()[i].expires_at > now
                },
            },
    {
        self.reclaim_expired(now);
        let lo = self.lo;
        let hi = self.hi;
        let ghost reclaimed = *self;
        let mut p: u16 = lo;
        while p < hi
            invariant
                *self == reclaimed,
                self.wf(),
                lo == self.spec_lo(),
                hi == self.spec_hi(),
                lo <= p,
                forall|q: u16| lo <= q < p ==> self.port_reserved(q),
            decreases hi - p,
        {
            if !self.contains_port(p) {
                let entry = SwitchboardEntry {
                    from_ip,
                    port: p,
                    session_id,
                    expires_at: now + RESERVATION_TTL_MS,
                };
                self.entries.push(entry);
                proof {
                    let newseq = self.entries_seq();
                    let oldseq = reclaimed.entries_seq();
                    let last = newseq.len() - 1;
                    assert(newseq[last] == entry);
                    assert forall|i: int, j: int| 0 <= i < j < newseq.len() implies (
                    #[trigger] newseq[i].port) != (#[trigger] newseq[j].port) by {
                        if j == last {
                            assert(newseq[i] == oldseq[i]);
                            assert(!reclaimed.port_reserved(p));
                        }
                    }
                    // the looked-up entry for (from_ip, p) is the new one
                    assert(self.lookup_key(from_ip, p) == Option::Some(session_id)) by {
                        assert(newseq[last].from_ip == from_ip && newseq[last].port == p);
                        let w = choose|i: int|
                            0 <= i < newseq.len() && (#[trigger] newseq[i]).from_ip == from_ip
                                && newseq[i].port == p;
                        if w != last {
                            assert(newseq[w].port == newseq[last].port);
                        }
                    }
                    // live old reservations never held p, and every lower
                    // port was live-reserved
                    assert forall|i: int|
                        0 <= i < old(self).entries_seq().len() && (
                        #[trigger] old(self).entries_seq()[i]).expires_at > now implies old(self).entries_seq()[i].port != p by {
                        assert(oldseq.contains(old(self).entries_seq()[i]));
                        assert(!reclaimed.port_reserved(p));
                    }
                    assert forall|q: u16| lo <= q < p implies #[trigger] live_port_reserved(
                        old(self).entries_seq(),
                        now,
                        q,
                    ) by {
                        assert(reclaimed.port_reserved(q));
                        let k = choose|k: int|
                            0 <= k < oldseq.len() && #[trigger] oldseq[k].port == q;
                        assert(old(self).entries_seq().contains(oldseq[k]));
                        let m = choose|m: int|
                            0 <= m < old(self).entries_seq().len() && old(self).entries_seq()[m]
                                == oldseq[k];
                        assert(old(self).entries_seq()[m].expires_at > now);
                        assert(old(self).entries_seq()[m].port == q);
                    }
                    // live reservations survive the push, and all but the
                    // new last entry come from the reclaimed table
                    assert forall|i: int|
                        0 <= i < old(self).entries_seq().len() && (
                        #[trigger] old(self).entries_seq()[i]).expires_at > now implies newseq.contains(old(self).entries_seq()[i]) by {
                        assert(oldseq.contains(old(self).entries_seq()[i]));
                        let k = choose|k: int|
                            0 <= k < oldseq.len() && oldseq[k] == old(self).entries_seq()[i];
                        assert(newseq[k] == old(self).entries_seq()[i]);
                    }
                    assert forall|i: int| 0 <= i < newseq.len() - 1 implies old(self).entries_seq().contains(#[trigger] newseq[i]) && newseq[i].expires_at > now by {
                        assert(newseq[i] == oldseq[i]);
                    }
                }
                return Option::Some(p);
            }
            p = p + 1;
        }
        proof {
            assert forall|q: u16| lo <= q < hi implies #[trigger] live_port_reserved(
                old(self).entries_seq(),
                now,
                q,
            ) by {
                assert(reclaimed.port_reserved(q));
                let oldseq = reclaimed.entries_seq();
                let k = choose|k: int| 0 <= k < oldseq.len() && #[trigger] oldseq[k].port == q;
                assert(old(self).entries_seq().contains(oldseq[k]));
                let m = choose|m: int|
                    0 <= m < old(self).entries_seq().len() && old(self).entries_seq()[m]
                        == oldseq[k];
                assert(old(self).entries_seq()[m].expires_at > now);
                assert(old(self).entries_seq()[m].port == q);
            }
        }
        Option::None
    }
}

} // verus!
