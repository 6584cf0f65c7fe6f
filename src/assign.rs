//! A port chosen by the system: bind port 0 on the IPv6 wildcard, and on the
//! IPv4 wildcard only where that fails.
use vstd::prelude::*;
use crate::port::{Family, Port, Probe, Protocol};

verus! {

/// What an assignment has seen: for each bind of port 0 made so far (IPv6
/// first), the port the system reported, if the bind succeeded.
pub struct AssignView {
    pub protocol: Protocol,
    pub answers: Seq<Option<Port>>,
}

impl AssignView {
    pub open spec fn finished(self) -> bool {
        ||| (self.answers.len() > 0 && self.answers[0] is Some)
        ||| self.answers.len() >= 2
    }

    /// The port the system handed out: IPv6's if that bind succeeded, else
    /// IPv4's.
    pub open spec fn outcome(self) -> Option<Port> {
        if self.answers.len() > 0 && self.answers[0] is Some {
            self.answers[0]
        } else if self.answers.len() >= 2 {
            self.answers[1]
        } else {
            None
        }
    }
}

pub struct OsAssign {
    protocol: Protocol,
    answers: Vec<Option<Port>>,
}

impl View for OsAssign {
    type V = AssignView;

    closed spec fn view(&self) -> AssignView {
        AssignView { protocol: self.protocol, answers: self.answers@ }
    }
}

impl OsAssign {
    pub fn new(protocol: Protocol) -> (a: OsAssign)
        ensures
            a@.protocol == protocol,
            a@.answers == Seq::<Option<Port>>::empty(),
    {
        OsAssign { protocol, answers: Vec::new() }
    }

    pub fn is_finished(&self) -> (r: bool)
        ensures
            r == self@.finished(),
    {
        let n = self.answers.len();
        (n > 0 && self.answers[0].is_some()) || n >= 2
    }

    /// The next bind to make, always of port 0, or `None` once finished.
    pub fn next_probe(&self) -> (r: Option<Probe>)
        ensures
            r == if self@.finished() {
                None
            } else {
                Some(
                    Probe {
                        protocol: self@.protocol,
                        family: if self@.answers.len() == 0 {
                            Family::V6
                        } else {
                            Family::V4
                        },
                        port: 0,
                    },
                )
            },
    {
        if self.is_finished() {
            return None;
        }
        let family = if self.answers.len() == 0 {
            Family::V6
        } else {
            Family::V4
        };
        Some(Probe { protocol: self.protocol, family, port: 0 })
    }

    /// Records the port reported by the bind of `next_probe`, `None` where
    /// the bind failed.
    pub fn feed(&mut self, bound: Option<Port>)
        requires
            !old(self)@.finished(),
        ensures
            final(self)@ == (AssignView { answers: old(self)@.answers.push(bound), ..old(self)@ }),
    {
        self.answers.push(bound);
    }

    /// The port handed out, once finished; `None` where both binds failed.
    pub fn outcome(&self) -> (r: Option<Port>)
        requires
            self@.finished(),
        ensures
            r == self@.outcome(),
    {
        if self.answers[0].is_some() {
            self.answers[0]
        } else {
            self.answers[1]
        }
    }
}

} // verus!
