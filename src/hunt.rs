//! A port free on both protocols, found by taking a stream port from the
//! system and keeping it only if the same number is free for datagrams, and
//! for streams on both address families.
//!
//! The hunt has no bound on its rounds: it goes on until the system hands
//! out a port that is also free for datagrams. A caller who needs a bound
//! stops driving it.
use vstd::prelude::*;
use crate::assign::{AssignView, OsAssign};
use crate::check::{CheckView, FreeCheck};
use crate::port::{Host, Port, Protocol, Requirement, free};

verus! {

/// What the hunt asks for next.
#[derive(Clone, Copy, Debug, PartialEq, Eq, Structural)]
pub enum HuntStep {
    /// A stream port assigned by the system.
    AssignStream,
    /// A check of this candidate on both protocols.
    Check(Port),
    /// The hunt is over.
    Found(Port),
}

pub open spec fn both_protocols() -> Requirement {
    Requirement { stream: true, datagram: true }
}

pub struct HuntView {
    pub step: HuntStep,
    /// The stream assignment that gave the current candidate.
    pub source: AssignView,
    /// The check that accepted the port, once one has.
    pub accepted: CheckView,
}

impl HuntView {
    pub open spec fn wf(self) -> bool {
        &&& self.step matches HuntStep::Check(p) ==> self.assigned(p)
        &&& self.step matches HuntStep::Found(p) ==> {
            &&& self.assigned(p)
            &&& self.accepted.port == p
            &&& self.accepted.req == both_protocols()
            &&& self.accepted.finished()
            &&& self.accepted.passed()
        }
    }

    /// A finished stream bind of port 0 reported `p`.
    pub open spec fn assigned(self, p: Port) -> bool {
        &&& self.source.protocol == Protocol::Stream
        &&& self.source.finished()
        &&& self.source.outcome() == Some(p)
    }
}

pub struct Hunt {
    step: HuntStep,
    source: Ghost<AssignView>,
    accepted: Ghost<CheckView>,
}

impl View for Hunt {
    type V = HuntView;

    closed spec fn view(&self) -> HuntView {
        HuntView { step: self.step, source: self.source@, accepted: self.accepted@ }
    }
}

impl Hunt {
    pub fn new() -> (h: Hunt)
        ensures
            h@.step == HuntStep::AssignStream,
            h@.wf(),
    {
        Hunt {
            step: HuntStep::AssignStream,
            source: Ghost(AssignView { protocol: Protocol::Stream, answers: Seq::empty() }),
            accepted: Ghost(CheckView { req: both_protocols(), port: 0, answers: Seq::empty() }),
        }
    }

    pub fn next(&self) -> (r: HuntStep)
        ensures
            r == self@.step,
    {
        self.step
    }

    /// Takes the outcome of a finished stream assignment: a port becomes the
    /// candidate; no port means asking again.
    pub fn assigned(&mut self, a: &OsAssign)
        requires
            old(self)@.step == HuntStep::AssignStream,
            a@.protocol == Protocol::Stream,
            a@.finished(),
        ensures
            final(self)@.step == match a@.outcome() {
                Some(p) => HuntStep::Check(p),
                None => HuntStep::AssignStream,
            },
            final(self)@.source == a@,
            final(self)@.accepted == old(self)@.accepted,
            final(self)@.wf(),
    {
        self.source = Ghost(a@);
        self.step = match a.outcome() {
            Some(p) => HuntStep::Check(p),
            None => HuntStep::AssignStream,
        };
    }

    /// Takes the finished check of the candidate on both protocols: it ends the hunt
    /// if it passed, and sends it back to the system otherwise.
    pub fn checked(&mut self, c: &FreeCheck)
        requires
            old(self)@.wf(),
            old(self)@.step == HuntStep::Check(c@.port),
            c@.req == both_protocols(),
            c@.finished(),
        ensures
            c@.passed() ==> final(self)@.step == HuntStep::Found(c@.port) && final(self)@.accepted == c@,
            !c@.passed() ==> final(self)@.step == HuntStep::AssignStream && final(self)@.accepted == old(self)@.accepted,
            final(self)@.source == old(self)@.source,
            final(self)@.wf(),
    {
        if c.verdict() {
            self.step = HuntStep::Found(c.port());
            self.accepted = Ghost(c@);
        } else {
            self.step = HuntStep::AssignStream;
        }
    }
}

/// The port a hunt ends with was handed out by a stream bind, and is free on
/// both protocols and both address families as the host stood when it was
/// checked; in particular it is not 0.
pub proof fn lemma_hunt_port_free(h: HuntView, host: Host, p: Port)
    requires
        h.wf(),
        h.step == HuntStep::Found(p),
        h.accepted.agrees(host),
    ensures
        h.assigned(p),
        free(host, p),
        p != 0,
{
    crate::check::lemma_verdict_matches_host(h.accepted, host);
}

} // verus!
