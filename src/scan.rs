//! The first free port at or above a starting port, found by checking each
//! port in turn.
//!
//! The scan stops at the largest port: where 65535 is taken too, it reports
//! that it ran out rather than wrapping to 0. Below that it has no bound of
//! its own; a caller who needs one stops driving it.
use vstd::prelude::*;
use crate::check::{CheckView, FreeCheck, lemma_verdict_matches_host};
use crate::port::{Host, MAX_PORT, Port, Requirement, free};

verus! {

/// What the scan asks for next.
#[derive(Clone, Copy, Debug, PartialEq, Eq, Structural)]
pub enum ScanStep {
    /// A check of this port on both protocols.
    Check(Port),
    /// The first free port.
    Found(Port),
    /// Every port from the start up to the largest one is taken.
    Exhausted,
}

pub open spec fn both_protocols() -> Requirement {
    Requirement { stream: true, datagram: true }
}

pub struct ScanView {
    pub start: Port,
    pub step: ScanStep,
    /// The finished checks so far, one per port from `start` upward.
    pub seen: Seq<CheckView>,
}

impl ScanView {
    pub open spec fn wf(self) -> bool {
        let n = self.seen.len() as int;
        &&& forall|i: int|
            0 <= i < n ==> {
                &&& (#[trigger] self.seen[i]).port == self.start + i
                &&& self.seen[i].req == both_protocols()
                &&& self.seen[i].finished()
            }
        &&& match self.step {
            ScanStep::Check(p) => {
                &&& p == self.start + n
                &&& forall|i: int| 0 <= i < n ==> !(#[trigger] self.seen[i]).passed()
            },
            ScanStep::Found(p) => {
                &&& n > 0
                &&& p == self.start + n - 1
                &&& self.seen[n - 1].passed()
                &&& forall|i: int| 0 <= i < n - 1 ==> !(#[trigger] self.seen[i]).passed()
            },
            ScanStep::Exhausted => {
                &&& n > 0
                &&& self.start + n - 1 == MAX_PORT
                &&& forall|i: int| 0 <= i < n ==> !(#[trigger] self.seen[i]).passed()
            },
        }
    }

    /// Every check was answered by `host`.
    pub open spec fn agrees(self, host: Host) -> bool {
        forall|i: int| 0 <= i < self.seen.len() ==> (#[trigger] self.seen[i]).agrees(host)
    }
}

pub struct Scan {
    start: Port,
    step: ScanStep,
    seen: Ghost<Seq<CheckView>>,
}

impl View for Scan {
    type V = ScanView;

    closed spec fn view(&self) -> ScanView {
        ScanView { start: self.start, step: self.step, seen: self.seen@ }
    }
}

impl Scan {
    /// A scan that first checks `start`.
    pub fn new(start: Port) -> (s: Scan)
        ensures
            s@.start == start,
            s@.step == ScanStep::Check(start),
            s@.seen == Seq::<CheckView>::empty(),
            s@.wf(),
    {
        Scan { start, step: ScanStep::Check(start), seen: Ghost(Seq::empty()) }
    }

    pub fn next(&self) -> (r: ScanStep)
        ensures
            r == self@.step,
    {
        self.step
    }

    /// Takes the finished check of the current port: a pass ends the scan,
    /// a failure moves on to the next port, or ends it at the largest one.
    pub fn checked(&mut self, c: &FreeCheck)
        requires
            old(self)@.wf(),
            old(self)@.step == ScanStep::Check(c@.port),
            c@.req == both_protocols(),
            c@.finished(),
        ensures
            final(self)@.start == old(self)@.start,
            final(self)@.seen == old(self)@.seen.push(c@),
            final(self)@.step == if c@.passed() {
                ScanStep::Found(c@.port)
            } else if c@.port == MAX_PORT {
                ScanStep::Exhausted
            } else {
                ScanStep::Check((c@.port + 1) as Port)
            },
            final(self)@.wf(),
    {
        let port = c.port();
        let passed = c.verdict();
        self.seen = Ghost(self.seen@.push(c@));
        if passed {
            self.step = ScanStep::Found(port);
        } else if port == MAX_PORT {
            self.step = ScanStep::Exhausted;
        } else {
            self.step = ScanStep::Check(port + 1);
        }
        assert(self@.seen.last() == c@);
    }
}

/// Answered by an unchanging host, a scan from `start` ends with the smallest
/// port at or above `start` that is free on both protocols, or runs out only
/// where no such port exists.
pub proof fn lemma_scan_finds_least_free(s: ScanView, host: Host)
    requires
        s.wf(),
        s.agrees(host),
    ensures
        s.step matches ScanStep::Found(p) ==> {
            &&& s.start <= p
            &&& p != 0
            &&& free(host, p)
            &&& forall|x: Port| s.start <= x < p ==> !free(host, x)
        },
        s.step is Exhausted ==> forall|x: Port| s.start <= x ==> !free(host, x),
{
    let n = s.seen.len() as int;
    assert forall|i: int| 0 <= i < n implies (#[trigger] s.seen[i]).passed() == free(host, (s.start + i) as Port) by {
        lemma_verdict_matches_host(s.seen[i], host);
    }
    if s.step is Exhausted {
        assert forall|x: Port| s.start <= x implies !free(host, x) by {
            assert(s.seen[x - s.start].passed() == free(host, x));
        }
    }
    if let ScanStep::Found(p) = s.step {
        assert(s.seen[n - 1].passed() == free(host, p));
        assert forall|x: Port| s.start <= x < p implies !free(host, x) by {
            assert(s.seen[x - s.start].passed() == free(host, x));
        }
    }
}

} // verus!
