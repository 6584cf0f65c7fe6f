//! Whether one port is free: the probes to make, in order, and the verdict.
use vstd::prelude::*;
use crate::port::{Family, Host, Port, Probe, Protocol, Requirement, bindable, free_for};

verus! {

/// The probes a check makes, in order: for each required protocol (stream
/// first) the IPv6 wildcard, then the IPv4 wildcard.
pub open spec fn plan(req: Requirement) -> Seq<(Protocol, Family)> {
    let stream = if req.stream {
        seq![(Protocol::Stream, Family::V6), (Protocol::Stream, Family::V4)]
    } else {
        Seq::empty()
    };
    let datagram = if req.datagram {
        seq![(Protocol::Datagram, Family::V6), (Protocol::Datagram, Family::V4)]
    } else {
        Seq::empty()
    };
    stream + datagram
}

/// What a check has seen: the requirement, the port, and for each probe made
/// so far, in plan order, whether it bound exactly that port (never so for
/// port 0, for which the system reports another port).
pub struct CheckView {
    pub req: Requirement,
    pub port: Port,
    pub answers: Seq<bool>,
}

impl CheckView {
    /// Every probe was made, or one failed: nothing is left to ask.
    pub open spec fn finished(self) -> bool {
        ||| self.answers.len() >= plan(self.req).len()
        ||| (self.answers.len() > 0 && !self.answers.last())
    }

    /// Every probe of the plan was made and bound the port.
    pub open spec fn passed(self) -> bool {
        &&& self.answers.len() == plan(self.req).len()
        &&& forall|i: int| 0 <= i < self.answers.len() ==> #[trigger] self.answers[i]
    }

    /// The probe at index `i` of the plan, on this check's port.
    pub open spec fn probe_at(self, i: int) -> Probe {
        Probe { protocol: plan(self.req)[i].0, family: plan(self.req)[i].1, port: self.port }
    }

    /// Each answer answers a probe of the plan, as `host` gives it; on port 0
    /// every answer is a failure.
    pub open spec fn agrees(self, host: Host) -> bool {
        &&& self.answers.len() <= plan(self.req).len()
        &&& forall|i: int|
            0 <= i < self.answers.len() ==> #[trigger] self.answers[i] == (self.port != 0
                && host(plan(self.req)[i].0, plan(self.req)[i].1, self.port))
    }
}

/// A check in progress: it asks for probes one at a time and stops at the
/// first one that fails.
pub struct FreeCheck {
    req: Requirement,
    port: Port,
    made: usize,
    failed: bool,
}

impl View for FreeCheck {
    type V = CheckView;

    closed spec fn view(&self) -> CheckView {
        CheckView {
            req: self.req,
            port: self.port,
            answers: Seq::new(self.made as nat, |i: int| !(self.failed && i == self.made - 1)),
        }
    }
}

impl FreeCheck {
    #[verifier::type_invariant]
    spec fn inv(self) -> bool {
        &&& self.made <= plan(self.req).len()
        &&& self.failed ==> self.made > 0
    }

    /// A check of `port` against `req` that has made no probe yet.
    pub fn new(req: Requirement, port: Port) -> (c: FreeCheck)
        ensures
            c@.req == req,
            c@.port == port,
            c@.answers == Seq::<bool>::empty(),
    {
        let c = FreeCheck { req, port, made: 0, failed: false };
        assert(c@.answers =~= Seq::<bool>::empty());
        c
    }

    pub fn port(&self) -> (r: Port)
        ensures
            r == self@.port,
    {
        self.port
    }

    pub fn requirement(&self) -> (r: Requirement)
        ensures
            r == self@.req,
    {
        self.req
    }

    pub fn is_finished(&self) -> (r: bool)
        ensures
            r == self@.finished(),
    {
        proof {
            use_type_invariant(self);
        }
        self.failed || self.made == self.plan_len()
    }

    fn plan_len(&self) -> (r: usize)
        ensures
            r == plan(self@.req).len(),
    {
        let s: usize = if self.req.stream { 2 } else { 0 };
        let d: usize = if self.req.datagram { 2 } else { 0 };
        s + d
    }

    /// The next probe to make, or `None` once the check is finished.
    pub fn next_probe(&self) -> (r: Option<Probe>)
        ensures
            r == if self@.finished() {
                None
            } else {
                Some(self@.probe_at(self@.answers.len() as int))
            },
    {
        proof {
            use_type_invariant(self);
        }
        if self.is_finished() {
            return None;
        }
        let i = self.made;
        let stream_probes: usize = if self.req.stream { 2 } else { 0 };
        let protocol = if i < stream_probes {
            Protocol::Stream
        } else {
            Protocol::Datagram
        };
        let family = if i % 2 == 0 {
            Family::V6
        } else {
            Family::V4
        };
        let r = Some(Probe { protocol, family, port: self.port });
        proof {
            let p = plan(self.req);
            if self.req.stream && self.req.datagram {
                assert(p =~= seq![
                    (Protocol::Stream, Family::V6),
                    (Protocol::Stream, Family::V4),
                    (Protocol::Datagram, Family::V6),
                    (Protocol::Datagram, Family::V4),
                ]);
            } else if self.req.stream {
                assert(p =~= seq![(Protocol::Stream, Family::V6), (Protocol::Stream, Family::V4)]);
            } else if self.req.datagram {
                assert(p =~= seq![(Protocol::Datagram, Family::V6), (Protocol::Datagram, Family::V4)]);
            }
        }
        r
    }

    /// Records what the probe returned by `next_probe` bound: it counts as
    /// bound only when the system reports exactly the probed port, and that
    /// port is not 0.
    pub fn feed(&mut self, bound: Option<Port>)
        requires
            !old(self)@.finished(),
        ensures
            final(self)@ == (CheckView {
                answers: old(self)@.answers.push(bound == Some(old(self)@.port) && old(self)@.port != 0),
                ..old(self)@
            }),
    {
        proof {
            use_type_invariant(&*self);
        }
        let ok = match bound {
            Some(p) => p == self.port && p != 0,
            None => false,
        };
        self.made = self.made + 1;
        self.failed = !ok;
        assert(self@.answers =~= old(self)@.answers.push(bound == Some(old(self)@.port) && old(self)@.port != 0));
    }

    /// Whether the finished check found the port free.
    pub fn verdict(&self) -> (r: bool)
        requires
            self@.finished(),
        ensures
            r == self@.passed(),
    {
        proof {
            use_type_invariant(self);
            if !self.failed && self.made == plan(self.req).len() {
                assert forall|i: int| 0 <= i < self@.answers.len() implies #[trigger] self@.answers[i] by {}
            }
            if self.failed {
                assert(!self@.answers[self.made - 1]);
            }
        }
        !self.failed && self.made == self.plan_len()
    }
}

/// A finished check answered by `host` passes exactly when the port is free
/// in `host` on the protocols it requires.
pub proof fn lemma_verdict_matches_host(c: CheckView, host: Host)
    requires
        c.finished(),
        c.agrees(host),
    ensures
        c.passed() == free_for(host, c.req, c.port),
{
    let p = plan(c.req);
    let n = c.answers.len() as int;
    if c.req.stream {
        assert(p[0] == (Protocol::Stream, Family::V6));
        assert(p[1] == (Protocol::Stream, Family::V4));
    }
    if c.req.datagram {
        let k: int = if c.req.stream { 2 } else { 0 };
        assert(p[k] == (Protocol::Datagram, Family::V6));
        assert(p[k + 1] == (Protocol::Datagram, Family::V4));
    }
    if c.passed() {
        if c.req.stream {
            assert(c.answers[0] && c.answers[1]);
        }
        if c.req.datagram {
            let k: int = if c.req.stream { 2 } else { 0 };
            assert(c.answers[k] && c.answers[k + 1]);
        }
    } else if n >= p.len() {
        let i = choose|i: int| 0 <= i < n && !#[trigger] c.answers[i];
        assert(!(c.port != 0 && host(p[i].0, p[i].1, c.port)));
    } else {
        assert(!c.answers[n - 1]);
        assert(!(c.port != 0 && host(p[n - 1].0, p[n - 1].1, c.port)));
    }
}

/// Checking a port twice, while the host does not change, gives the same
/// verdict both times.
pub proof fn lemma_check_repeatable(a: CheckView, b: CheckView, host: Host)
    requires
        a.req == b.req,
        a.port == b.port,
        a.finished(),
        b.finished(),
        a.agrees(host),
        b.agrees(host),
    ensures
        a.passed() == b.passed(),
{
    lemma_verdict_matches_host(a, host);
    lemma_verdict_matches_host(b, host);
}

/// A port found free on both protocols can be bound again, as it stands, on
/// both protocols and both address families.
pub proof fn lemma_free_port_rebinds(c: CheckView, host: Host)
    requires
        c.req.stream,
        c.req.datagram,
        c.finished(),
        c.agrees(host),
        c.passed(),
    ensures
        forall|protocol: Protocol, family: Family| #[trigger] host(protocol, family, c.port),
{
    lemma_verdict_matches_host(c, host);
    assert forall|protocol: Protocol, family: Family| #[trigger] host(protocol, family, c.port) by {
        match protocol {
            Protocol::Stream => assert(bindable(host, Protocol::Stream, c.port)),
            Protocol::Datagram => assert(bindable(host, Protocol::Datagram, c.port)),
        }
        match family {
            Family::V6 => {},
            Family::V4 => {},
        }
    }
}

/// A port held on one family of a protocol fails every check that requires
/// that protocol.
pub proof fn lemma_occupied_fails(c: CheckView, host: Host, protocol: Protocol, family: Family)
    requires
        c.req.requires_protocol(protocol),
        !host(protocol, family, c.port),
        c.finished(),
        c.agrees(host),
    ensures
        !c.passed(),
{
    lemma_verdict_matches_host(c, host);
    match family {
        Family::V6 => {},
        Family::V4 => {},
    }
}

/// A check on one protocol sees nothing of the other: two hosts that agree
/// on that protocol at the port give it the same verdict.
pub proof fn lemma_protocols_independent(
    a: CheckView,
    b: CheckView,
    h1: Host,
    h2: Host,
    protocol: Protocol,
)
    requires
        a.req.requires_protocol(protocol),
        a.req.stream != a.req.datagram,
        a.req == b.req,
        a.port == b.port,
        forall|family: Family| #[trigger] h1(protocol, family, a.port) == h2(protocol, family, a.port),
        a.finished(),
        b.finished(),
        a.agrees(h1),
        b.agrees(h2),
    ensures
        a.passed() == b.passed(),
{
    lemma_verdict_matches_host(a, h1);
    lemma_verdict_matches_host(b, h2);
    assert(h1(protocol, Family::V6, a.port) == h2(protocol, Family::V6, a.port));
    assert(h1(protocol, Family::V4, a.port) == h2(protocol, Family::V4, a.port));
}

} // verus!
