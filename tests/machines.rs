use port_selector::assign::OsAssign;
use port_selector::check::FreeCheck;
use port_selector::hunt::{Hunt, HuntStep};
use port_selector::port::{Family, Port, Probe, Protocol, Requirement};
use port_selector::scan::{Scan, ScanStep};
use port_selector::search::{Search, SearchStep, Selector};

/// A host in memory: ports held per protocol and family, and the ports the
/// system hands out for binds of port 0, in turn.
struct Host {
    held: Vec<(Protocol, Family, Port)>,
    ephemeral: Vec<Port>,
    no_v6: bool,
    probes: Vec<Probe>,
}

impl Host {
    fn new() -> Host {
        Host { held: Vec::new(), ephemeral: vec![41000, 41001, 41002, 41003], no_v6: false, probes: Vec::new() }
    }

    fn take_up(&mut self, protocol: Protocol, port: Port) {
        self.held.push((protocol, Family::V6, port));
        self.held.push((protocol, Family::V4, port));
    }

    fn take_up_port(&mut self, port: Port) {
        self.take_up(Protocol::Stream, port);
        self.take_up(Protocol::Datagram, port);
    }

    fn bind(&mut self, probe: Probe) -> Option<Port> {
        self.probes.push(probe);
        if self.no_v6 && probe.family == Family::V6 {
            return None;
        }
        if probe.port == 0 {
            let p = self.ephemeral.remove(0);
            self.ephemeral.push(p);
            return Some(p);
        }
        if self.held.contains(&(probe.protocol, probe.family, probe.port)) {
            None
        } else {
            Some(probe.port)
        }
    }

    fn check(&mut self, req: Requirement, port: Port) -> FreeCheck {
        let mut c = FreeCheck::new(req, port);
        while let Some(p) = c.next_probe() {
            let r = self.bind(p);
            c.feed(r);
        }
        c
    }

    fn is_free_tcp(&mut self, port: Port) -> bool {
        self.check(Requirement::only(Protocol::Stream), port).verdict()
    }

    fn is_free_udp(&mut self, port: Port) -> bool {
        self.check(Requirement::only(Protocol::Datagram), port).verdict()
    }

    fn is_free(&mut self, port: Port) -> bool {
        self.check(Requirement::both(), port).verdict()
    }

    fn assign(&mut self, protocol: Protocol) -> OsAssign {
        let mut a = OsAssign::new(protocol);
        while let Some(p) = a.next_probe() {
            let r = self.bind(p);
            a.feed(r);
        }
        a
    }

    fn random_free_port(&mut self) -> Option<Port> {
        let mut h = Hunt::new();
        loop {
            match h.next() {
                HuntStep::AssignStream => {
                    let a = self.assign(Protocol::Stream);
                    h.assigned(&a);
                }
                HuntStep::Check(p) => {
                    let c = self.check(Requirement::both(), p);
                    h.checked(&c);
                }
                HuntStep::Found(p) => return Some(p),
            }
        }
    }

    fn select_from_given_port(&mut self, port: Port) -> Option<Port> {
        let mut s = Scan::new(port);
        loop {
            match s.next() {
                ScanStep::Check(p) => {
                    let c = self.check(Requirement::both(), p);
                    s.checked(&c);
                }
                ScanStep::Found(p) => return Some(p),
                ScanStep::Exhausted => return None,
            }
        }
    }

    fn search(&mut self, selector: Selector) -> (Option<Port>, Vec<Port>) {
        let mut s = Search::new(selector);
        let mut drawn = Vec::new();
        loop {
            match s.next() {
                SearchStep::Check(p) => {
                    drawn.push(p);
                    let c = self.check(s.requirement(), p);
                    s.checked(&c);
                }
                SearchStep::Found(p) => return (Some(p), drawn),
                SearchStep::GiveUp => return (None, drawn),
            }
        }
    }
}

#[test]
fn test_is_free() {
    let mut host = Host::new();
    host.take_up_port(41500);
    assert!(!host.is_free(41500));
    let free_port = host.random_free_port();
    assert!(host.is_free(free_port.unwrap()));
}

#[test]
fn test_is_free_tcp() {
    let mut host = Host::new();
    host.take_up(Protocol::Stream, 41500);
    assert!(!host.is_free_tcp(41500));
    let free_port = host.assign(Protocol::Stream).outcome();
    assert!(host.is_free_tcp(free_port.unwrap()));
}

#[test]
fn test_is_free_udp() {
    let mut host = Host::new();
    host.take_up(Protocol::Datagram, 41500);
    assert!(!host.is_free_udp(41500));
    let free_port = host.assign(Protocol::Datagram).outcome();
    assert!(host.is_free_udp(free_port.unwrap()));
}

#[test]
fn test_free_tcp_port() {
    let mut host = Host::new();
    let free_tcp_port = host.assign(Protocol::Stream).outcome();
    assert!(free_tcp_port.is_some());
    assert!(host.is_free_tcp(free_tcp_port.unwrap()));
}

#[test]
fn test_free_udp_port() {
    let mut host = Host::new();
    let free_udp_port = host.assign(Protocol::Datagram).outcome();
    assert!(free_udp_port.is_some());
    assert!(host.is_free_udp(free_udp_port.unwrap()));
}

#[test]
fn test_pick_unused_port() {
    let mut host = Host::new();
    let used_port = host.random_free_port().unwrap();
    host.take_up_port(used_port);
    let selector_fail: Selector = Selector { port_range: (used_port, used_port + 1), ..Default::default() };
    let (port, _) = host.search(selector_fail);
    assert!(!port.is_some());

    let selector: Selector = Selector { port_range: (50000, 60000), ..Default::default() };
    for _ in 0..100 {
        let (port, _) = host.search(selector);
        assert!(port.unwrap() >= 50000 && port.unwrap() <= 60000);
        assert!(port.is_some());
    }
}

#[test]
fn test_random_free_port() {
    let mut host = Host::new();
    let port = host.random_free_port().unwrap();
    assert!(host.is_free_tcp(port) && host.is_free_udp(port));
    assert!(host.random_free_port().is_some());
}

#[test]
fn test_select_from_given_port() {
    let mut host = Host::new();
    let port = host.select_from_given_port(30000).unwrap();
    assert!(host.is_free_tcp(port) && host.is_free_udp(port));
    let mut used_port = host.random_free_port().unwrap();
    host.take_up_port(used_port);
    let new_port = host.select_from_given_port(used_port).unwrap();
    let used_port = loop {
        if host.is_free(used_port) {
            break used_port;
        }
        used_port += 1;
    };
    assert_eq!(new_port, used_port);
}

#[test]
fn stream_only_occupancy_leaves_datagram_free() {
    let mut host = Host::new();
    host.take_up(Protocol::Stream, 54321);
    assert!(host.is_free_udp(54321));
    assert!(!host.is_free_tcp(54321));
    assert!(!host.is_free(54321));
}

#[test]
fn single_taken_port_range_gives_up() {
    let mut host = Host::new();
    host.take_up(Protocol::Stream, 50000);
    let selector = Selector { check_tcp: true, check_udp: false, port_range: (50000, 50001), max_random_times: 10 };
    let (port, drawn) = host.search(selector);
    assert_eq!(port, None);
    assert_eq!(drawn, vec![50000; 10]);
}

#[test]
fn free_range_accepts_first_candidate() {
    let mut host = Host::new();
    let selector = Selector { port_range: (50000, 60000), ..Default::default() };
    let (port, drawn) = host.search(selector);
    assert_eq!(drawn.len(), 1);
    assert_eq!(port, Some(drawn[0]));
    assert!((50000..60000).contains(&drawn[0]));
}

#[test]
fn candidates_are_drawn_across_the_range() {
    let mut host = Host::new();
    for p in 50000..50010 {
        host.take_up_port(p);
    }
    let selector = Selector { port_range: (50000, 50010), max_random_times: 200, ..Default::default() };
    let (port, drawn) = host.search(selector);
    assert_eq!(port, None);
    assert_eq!(drawn.len(), 200);
    assert!(drawn.iter().all(|p| (50000..50010).contains(p)));
    assert!(drawn.iter().any(|p| *p != 50000));
}

#[test]
fn search_without_protocols_gives_up_at_once() {
    let mut host = Host::new();
    let selector = Selector { check_tcp: false, check_udp: false, port_range: (50000, 60000), max_random_times: 10 };
    let (port, drawn) = host.search(selector);
    assert_eq!(port, None);
    assert!(drawn.is_empty());
    assert!(host.probes.is_empty());
}

#[test]
fn search_with_empty_range_or_budget_gives_up() {
    let mut host = Host::new();
    let empty = Selector { port_range: (50000, 50000), ..Default::default() };
    assert_eq!(host.search(empty), (None, vec![]));
    let no_budget = Selector { max_random_times: 0, ..Default::default() };
    assert_eq!(host.search(no_budget), (None, vec![]));
}

#[test]
fn search_on_one_protocol_checks_only_it() {
    let mut host = Host::new();
    host.take_up(Protocol::Datagram, 50000);
    let selector = Selector { check_tcp: true, check_udp: false, port_range: (50000, 50001), max_random_times: 1 };
    assert_eq!(host.search(selector).0, Some(50000));
    let selector = Selector { check_tcp: false, check_udp: true, ..selector };
    assert_eq!(host.search(selector).0, None);
}

#[test]
fn default_selector_values() {
    let s = Selector::default();
    assert!(s.check_tcp && s.check_udp);
    assert_eq!(s.port_range, (0, 65535));
    assert_eq!(s.max_random_times, 100);
    assert_eq!(s.requirement(), Requirement::both());
}

#[test]
fn check_probes_in_order_and_stops_at_first_failure() {
    let mut host = Host::new();
    assert!(host.is_free(42000));
    let order: Vec<(Protocol, Family)> = host.probes.iter().map(|p| (p.protocol, p.family)).collect();
    assert_eq!(
        order,
        vec![
            (Protocol::Stream, Family::V6),
            (Protocol::Stream, Family::V4),
            (Protocol::Datagram, Family::V6),
            (Protocol::Datagram, Family::V4),
        ]
    );
    host.probes.clear();
    host.held.push((Protocol::Stream, Family::V4, 42001));
    assert!(!host.is_free(42001));
    assert_eq!(host.probes.len(), 2);
}

#[test]
fn one_family_held_is_not_free() {
    let mut host = Host::new();
    host.held.push((Protocol::Datagram, Family::V6, 42002));
    assert!(!host.is_free_udp(42002));
    assert!(host.is_free_tcp(42002));
}

#[test]
fn port_zero_is_never_free() {
    let mut host = Host::new();
    assert!(!host.is_free(0));
    assert!(!host.is_free_tcp(0));
}

#[test]
fn free_port_rebinds_everywhere() {
    let mut host = Host::new();
    assert!(host.is_free(43000));
    for protocol in [Protocol::Stream, Protocol::Datagram] {
        for family in [Family::V6, Family::V4] {
            assert_eq!(host.bind(Probe { protocol, family, port: 43000 }), Some(43000));
        }
    }
}

#[test]
fn repeated_checks_agree() {
    let mut host = Host::new();
    host.take_up(Protocol::Stream, 43001);
    for _ in 0..3 {
        assert!(!host.is_free(43001));
        assert!(!host.is_free_tcp(43001));
        assert!(host.is_free_udp(43001));
        assert!(host.is_free(43002));
    }
}

#[test]
fn assignment_prefers_v6() {
    let mut host = Host::new();
    let a = host.assign(Protocol::Stream);
    assert_eq!(a.outcome(), Some(41000));
    assert_eq!(host.probes.len(), 1);
    assert_eq!(host.probes[0], Probe { protocol: Protocol::Stream, family: Family::V6, port: 0 });
}

#[test]
fn assignment_falls_back_to_v4() {
    let mut host = Host::new();
    host.no_v6 = true;
    let a = host.assign(Protocol::Datagram);
    assert_eq!(a.outcome(), Some(41000));
    assert_eq!(host.probes.len(), 2);
    assert_eq!(host.probes[1], Probe { protocol: Protocol::Datagram, family: Family::V4, port: 0 });
}

#[test]
fn assignment_without_any_family_fails() {
    let mut a = OsAssign::new(Protocol::Stream);
    a.feed(None);
    assert!(!a.is_finished());
    a.feed(None);
    assert!(a.is_finished());
    assert_eq!(a.next_probe(), None);
    assert_eq!(a.outcome(), None);
}

#[test]
fn hunt_skips_ports_taken_for_datagrams() {
    let mut host = Host::new();
    host.take_up(Protocol::Datagram, 41000);
    host.take_up(Protocol::Datagram, 41001);
    assert_eq!(host.random_free_port(), Some(41002));
}

#[test]
fn hunt_steps() {
    let mut h = Hunt::new();
    assert_eq!(h.next(), HuntStep::AssignStream);
    let mut a = OsAssign::new(Protocol::Stream);
    a.feed(Some(45000));
    h.assigned(&a);
    assert_eq!(h.next(), HuntStep::Check(45000));
    let mut c = FreeCheck::new(Requirement::both(), 45000);
    c.feed(Some(45000));
    c.feed(Some(45000));
    c.feed(Some(45000));
    c.feed(None);
    h.checked(&c);
    assert_eq!(h.next(), HuntStep::AssignStream);
}

#[test]
fn scan_skips_taken_ports() {
    let mut host = Host::new();
    host.take_up(Protocol::Stream, 30000);
    host.take_up(Protocol::Datagram, 30001);
    host.held.push((Protocol::Stream, Family::V4, 30002));
    assert_eq!(host.select_from_given_port(30000), Some(30003));
    assert_eq!(host.select_from_given_port(30003), Some(30003));
}

#[test]
fn scan_stops_at_largest_port() {
    let mut host = Host::new();
    host.take_up_port(65534);
    host.take_up_port(65535);
    assert_eq!(host.select_from_given_port(65534), None);
    assert_eq!(host.select_from_given_port(65535), None);
    assert_eq!(host.select_from_given_port(65533), Some(65533));
}

#[test]
fn hunt_skips_ports_taken_for_streams_on_one_family() {
    let mut host = Host::new();
    host.held.push((Protocol::Stream, Family::V4, 41000));
    host.take_up(Protocol::Datagram, 41001);
    let port = host.random_free_port();
    assert_eq!(port, Some(41002));
    assert!(host.is_free(port.unwrap()));
}

#[test]
fn bind_reported_as_port_zero_does_not_count() {
    let mut c = FreeCheck::new(Requirement::both(), 0);
    c.feed(Some(0));
    assert!(c.is_finished());
    assert!(!c.verdict());
    let mut d = FreeCheck::new(Requirement::only(Protocol::Stream), 7);
    d.feed(Some(7));
    d.feed(Some(7));
    assert!(d.verdict());
}

#[test]
fn scan_from_zero_skips_zero() {
    let mut host = Host::new();
    assert_eq!(host.select_from_given_port(0), Some(1));
}

#[test]
fn search_over_port_zero_alone_gives_up() {
    let mut host = Host::new();
    let selector = Selector { port_range: (0, 1), max_random_times: 5, ..Default::default() };
    let (port, drawn) = host.search(selector);
    assert_eq!(port, None);
    assert_eq!(drawn, vec![0; 5]);
}
