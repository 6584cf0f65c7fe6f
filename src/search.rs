//! A free port drawn at random from a range, with a budget of draws.
use vstd::prelude::*;
use rand::Rng;
use crate::check::{CheckView, FreeCheck, lemma_verdict_matches_host};
use crate::port::{Host, Port, Requirement, free_for};

verus! {

/// What a random search looks for, and how hard.
#[derive(Clone, Copy, Debug)]
pub struct Selector {
    /// The port has to be free for streams.
    pub check_tcp: bool,
    /// The port has to be free for datagrams.
    pub check_udp: bool,
    /// Candidates are drawn from `port_range.0` up to, not including,
    /// `port_range.1`.
    pub port_range: (u16, u16),
    /// How many candidates are drawn at most.
    pub max_random_times: u16,
}

impl Default for Selector {
    /// Both protocols, ports 0 to 65534, a hundred draws.
    fn default() -> (r: Selector)
        ensures
            r.check_tcp,
            r.check_udp,
            r.port_range == (0u16, 65535u16),
            r.max_random_times == 100,
    {
        Selector { check_tcp: true, check_udp: true, port_range: (0, 65535), max_random_times: 100 }
    }
}

impl Selector {
    pub open spec fn req(self) -> Requirement {
        Requirement { stream: self.check_tcp, datagram: self.check_udp }
    }

    pub open spec fn in_range(self, p: Port) -> bool {
        self.port_range.0 <= p < self.port_range.1
    }

    /// Some candidate can be drawn and then checked against something.
    pub open spec fn can_draw(self) -> bool {
        &&& self.check_tcp || self.check_udp
        &&& self.port_range.0 < self.port_range.1
        &&& self.max_random_times > 0
    }

    /// The protocols a candidate has to be free on.
    pub fn requirement(&self) -> (r: Requirement)
        ensures
            r == self.req(),
    {
        Requirement { stream: self.check_tcp, datagram: self.check_udp }
    }
}

/// Relies on rand's `thread_rng().gen_range(low..high)`: a uniform draw from
/// the half-open range, which panics only where the range is empty.
#[verifier::external_body]
fn draw_port(low: Port, high: Port) -> (r: Port)
    requires
        low < high,
    ensures
        low <= r < high,
{
    rand::thread_rng().gen_range(low..high)
}

/// What the search asks for next.
#[derive(Clone, Copy, Debug, PartialEq, Eq, Structural)]
pub enum SearchStep {
    /// A check of this candidate against the selector's protocols.
    Check(Port),
    /// The first candidate that passed.
    Found(Port),
    /// No candidate passed within the budget, or none could be drawn.
    GiveUp,
}

pub struct SearchView {
    pub selector: Selector,
    /// Candidates drawn so far.
    pub attempts: nat,
    pub step: SearchStep,
    /// The finished checks so far, one per candidate, in order.
    pub seen: Seq<CheckView>,
}

impl SearchView {
    pub open spec fn wf(self) -> bool {
        let n = self.seen.len() as int;
        let sel = self.selector;
        &&& self.attempts <= sel.max_random_times
        &&& forall|i: int|
            0 <= i < n ==> {
                &&& (#[trigger] self.seen[i]).req == sel.req()
                &&& self.seen[i].finished()
                &&& sel.in_range(self.seen[i].port)
            }
        &&& match self.step {
            SearchStep::Check(p) => {
                &&& sel.can_draw()
                &&& sel.in_range(p)
                &&& self.attempts == n + 1
                &&& forall|i: int| 0 <= i < n ==> !(#[trigger] self.seen[i]).passed()
            },
            SearchStep::Found(p) => {
                &&& sel.can_draw()
                &&& n > 0
                &&& self.attempts == n
                &&& self.seen[n - 1].port == p
                &&& self.seen[n - 1].passed()
                &&& forall|i: int| 0 <= i < n - 1 ==> !(#[trigger] self.seen[i]).passed()
            },
            SearchStep::GiveUp => {
                ||| !sel.can_draw() && self.attempts == 0 && n == 0
                ||| {
                    &&& sel.can_draw()
                    &&& self.attempts == sel.max_random_times
                    &&& self.attempts == n
                    &&& forall|i: int| 0 <= i < n ==> !(#[trigger] self.seen[i]).passed()
                }
            },
        }
    }

    /// Every check was answered by `host`.
    pub open spec fn agrees(self, host: Host) -> bool {
        forall|i: int| 0 <= i < self.seen.len() ==> (#[trigger] self.seen[i]).agrees(host)
    }
}

pub struct Search {
    selector: Selector,
    attempts: u16,
    step: SearchStep,
    seen: Ghost<Seq<CheckView>>,
}

impl View for Search {
    type V = SearchView;

    closed spec fn view(&self) -> SearchView {
        SearchView {
            selector: self.selector,
            attempts: self.attempts as nat,
            step: self.step,
            seen: self.seen@,
        }
    }
}

impl Search {
    /// Starts a search: draws the first candidate, or gives up at once where
    /// no protocol is named, the range is empty or the budget is zero.
    pub fn new(selector: Selector) -> (s: Search)
        ensures
            s@.selector == selector,
            s@.seen == Seq::<CheckView>::empty(),
            !selector.can_draw() ==> s@.step == SearchStep::GiveUp && s@.attempts == 0,
            selector.can_draw() ==> s@.step is Check && s@.attempts == 1,
            s@.wf(),
    {
        let (low, high) = selector.port_range;
        if !(selector.check_tcp || selector.check_udp) || low >= high || selector.max_random_times == 0 {
            return Search { selector, attempts: 0, step: SearchStep::GiveUp, seen: Ghost(Seq::empty()) };
        }
        let p = draw_port(low, high);
        Search { selector, attempts: 1, step: SearchStep::Check(p), seen: Ghost(Seq::empty()) }
    }

    pub fn next(&self) -> (r: SearchStep)
        ensures
            r == self@.step,
    {
        self.step
    }

    /// The protocols each candidate is checked on.
    pub fn requirement(&self) -> (r: Requirement)
        ensures
            r == self@.selector.req(),
    {
        self.selector.requirement()
    }

    /// Takes the finished check of the current candidate: a pass ends the
    /// search; a failure draws the next candidate while the budget lasts.
    pub fn checked(&mut self, c: &FreeCheck)
        requires
            old(self)@.wf(),
            old(self)@.step == SearchStep::Check(c@.port),
            c@.req == old(self)@.selector.req(),
            c@.finished(),
        ensures
            final(self)@.selector == old(self)@.selector,
            final(self)@.seen == old(self)@.seen.push(c@),
            c@.passed() ==> final(self)@.step == SearchStep::Found(c@.port)
                && final(self)@.attempts == old(self)@.attempts,
            !c@.passed() && old(self)@.attempts < old(self)@.selector.max_random_times
                ==> final(self)@.step is Check && final(self)@.attempts == old(self)@.attempts + 1,
            !c@.passed() && old(self)@.attempts == old(self)@.selector.max_random_times
                ==> final(self)@.step == SearchStep::GiveUp,
            final(self)@.wf(),
    {
        let port = c.port();
        let passed = c.verdict();
        self.seen = Ghost(self.seen@.push(c@));
        assert(self@.seen.last() == c@);
        if passed {
            self.step = SearchStep::Found(port);
        } else if self.attempts < self.selector.max_random_times {
            let p = draw_port(self.selector.port_range.0, self.selector.port_range.1);
            self.attempts = self.attempts + 1;
            self.step = SearchStep::Check(p);
        } else {
            self.step = SearchStep::GiveUp;
        }
    }
}

/// The port a search ends with lies in the selector's range and, answered
/// by an unchanging host, is free on the selector's protocols.
pub proof fn lemma_search_result(s: SearchView, host: Host, p: Port)
    requires
        s.wf(),
        s.agrees(host),
        s.step == SearchStep::Found(p),
    ensures
        s.selector.in_range(p),
        p != 0,
        free_for(host, s.selector.req(), p),
{
    let n = s.seen.len() as int;
    assert(s.seen[n - 1].agrees(host));
    lemma_verdict_matches_host(s.seen[n - 1], host);
}

/// A range of one port that is taken never yields a port: the search can
/// only give up.
pub proof fn lemma_search_single_taken(s: SearchView, host: Host)
    requires
        s.wf(),
        s.agrees(host),
        s.selector.port_range.1 == s.selector.port_range.0 + 1,
        !free_for(host, s.selector.req(), s.selector.port_range.0),
    ensures
        !(s.step is Found),
{
    if let SearchStep::Found(p) = s.step {
        lemma_search_result(s, host, p);
    }
}

/// Where every port of the range is free, a search that can draw and has
/// ended ends with a port of the range: its first candidate is accepted.
pub proof fn lemma_search_free_range(s: SearchView, host: Host)
    requires
        s.wf(),
        s.agrees(host),
        forall|x: Port| s.selector.in_range(x) ==> free_for(host, s.selector.req(), x),
        s.selector.can_draw(),
        !(s.step is Check),
    ensures
        s.step matches SearchStep::Found(p) && s.selector.in_range(p) && p != 0,
        s.attempts == 1,
{
    assert(s.seen[0].agrees(host));
    lemma_verdict_matches_host(s.seen[0], host);
    assert(s.seen[0].passed());
    if let SearchStep::Found(p) = s.step {
        lemma_search_result(s, host, p);
    }
}

} // verus!
