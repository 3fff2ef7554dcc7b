use udp_relay::Addr;
use udp_relay::ConfigError;
use udp_relay::Datagram;
use udp_relay::DropChance;
use udp_relay::Filter;
use udp_relay::RouteDecision;
use udp_relay::Router;
use udp_relay::SessionTable;
use udp_relay::BUFFER_SIZE;
use udp_relay::DROP_SCALE;

const LOCALHOST: u32 = 0x7f000001;

fn addr(port: u16) -> Addr {
    Addr { ip: LOCALHOST, port }
}

fn datagram_from(payload: &[u8], origin: Addr) -> Datagram {
    Datagram::from_receive(payload.to_vec(), origin)
}

#[test]
fn buffer_size_is_link_mtu() {
    assert_eq!(BUFFER_SIZE, 1500);
}

#[test]
fn from_receive_sets_origin_and_no_destination() {
    let d = datagram_from(b"hello", addr(9000));
    assert_eq!(d.payload, b"hello".to_vec());
    assert_eq!(d.origin, addr(9000));
    assert_eq!(d.destination, None);
}

#[test]
fn set_destination_keeps_payload_and_origin() {
    let d = datagram_from(b"hello", addr(9000)).set_destination(addr(7000));
    assert_eq!(d.payload, b"hello".to_vec());
    assert_eq!(d.origin, addr(9000));
    assert_eq!(d.destination, Some(addr(7000)));
}

#[test]
fn drop_chance_rejects_out_of_range() {
    assert!(matches!(
        DropChance::new(DROP_SCALE + 1),
        Err(ConfigError::DropChanceOutOfRange)
    ));
    assert!(DropChance::new(DROP_SCALE).is_ok());
    assert!(DropChance::new(0).is_ok());
}

#[test]
fn zero_chance_never_drops() {
    let f = DropChance::new(0).unwrap();
    for i in 0..200u16 {
        let d = datagram_from(b"payload", addr(9000 + i % 7));
        let out = f.apply(d);
        assert!(out.is_some());
        assert_eq!(out.unwrap().payload, b"payload".to_vec());
    }
}

#[test]
fn full_chance_always_drops() {
    let f = DropChance::new(DROP_SCALE).unwrap();
    for i in 0..200u16 {
        let d = datagram_from(b"payload", addr(9000 + i % 7));
        assert!(f.apply(d).is_none());
    }
}

#[test]
fn drop_decision_boundary() {
    let f = DropChance::new(DROP_SCALE / 2).unwrap();
    assert!(f.drops_roll(0));
    assert!(f.drops_roll(DROP_SCALE / 2 - 1));
    assert!(!f.drops_roll(DROP_SCALE / 2));
    assert!(!f.drops_roll(DROP_SCALE - 1));
}

#[test]
fn drop_rate_tracks_probability() {
    let f = DropChance::new(DROP_SCALE / 2).unwrap();
    let mut drops = 0;
    for _ in 0..10000 {
        if f.apply(datagram_from(b"x", addr(9000))).is_none() {
            drops += 1;
        }
    }
    // a generous tolerance around the configured half
    assert!(2500 < drops && drops < 7500);
}

#[test]
fn session_table_assigns_and_keeps_ids() {
    let mut t = SessionTable::new();
    assert_eq!(t.len(), 0);
    assert_eq!(t.lookup(addr(9000)), None);
    let a = t.insert(addr(9000));
    let b = t.insert(addr(9001));
    assert_eq!(a, 0);
    assert_eq!(b, 1);
    assert_eq!(t.len(), 2);
    assert_eq!(t.lookup(addr(9000)), Some(0));
    assert_eq!(t.lookup(addr(9001)), Some(1));
    assert_eq!(t.lookup(addr(9002)), None);
    assert_eq!(t.client_addr(0), addr(9000));
    assert_eq!(t.client_addr(1), addr(9001));
}

#[test]
fn session_isolation_between_clients() {
    let mut r = Router::new(addr(7000), None);
    let a = addr(9000);
    let b = addr(9100);
    let sid_a = r.open_session(a);
    let sid_b = r.open_session(b);
    assert_ne!(sid_a, sid_b);
    match r.route_client_to_server(datagram_from(b"from-a", a)) {
        RouteDecision::Forward(sid, d) => {
            assert_eq!(sid, sid_a);
            assert_eq!(d.payload, b"from-a".to_vec());
        }
        _ => panic!("datagram from a known client must be forwarded"),
    }
    match r.route_client_to_server(datagram_from(b"from-b", b)) {
        RouteDecision::Forward(sid, d) => {
            assert_eq!(sid, sid_b);
            assert_eq!(d.payload, b"from-b".to_vec());
        }
        _ => panic!("datagram from a known client must be forwarded"),
    }
}

#[test]
fn per_session_fifo_order_is_kept() {
    let mut r = Router::new(addr(7000), None);
    let c = addr(9000);
    r.open_session(c);
    let inputs: [&[u8]; 3] = [b"d1", b"d2", b"d3"];
    let mut forwarded = Vec::new();
    for payload in inputs {
        match r.route_client_to_server(datagram_from(payload, c)) {
            RouteDecision::Forward(_, d) => forwarded.push(d.payload),
            _ => panic!("unfiltered datagrams must be forwarded"),
        }
    }
    assert_eq!(
        forwarded,
        vec![b"d1".to_vec(), b"d2".to_vec(), b"d3".to_vec()]
    );
}

#[test]
fn reply_reaches_the_session_owner() {
    let server = addr(7000);
    let mut r = Router::new(server, None);
    let mut sids = Vec::new();
    for port in 9000..9050u16 {
        sids.push(r.open_session(addr(port)));
    }
    for (i, port) in (9000..9050u16).enumerate() {
        let reply = datagram_from(b"reply", server);
        let out = r.route_server_to_client(sids[i], reply);
        assert_eq!(out.destination, Some(addr(port)));
        assert_eq!(out.payload, b"reply".to_vec());
    }
}

#[test]
fn single_session_per_client() {
    let mut r = Router::new(addr(7000), None);
    let c = addr(9000);
    let first = r.route_client_to_server(datagram_from(b"one", c));
    let d = match first {
        RouteDecision::NoSession(d) => d,
        _ => panic!("an unseen client must be asked a session for"),
    };
    assert_eq!(r.session_count(), 0);
    let sid = r.open_session(d.origin);
    assert_eq!(r.session_count(), 1);
    assert!(matches!(
        r.route_client_to_server(d),
        RouteDecision::Forward(_, _)
    ));
    let second = r.route_client_to_server(datagram_from(b"two", c));
    match second {
        RouteDecision::Forward(s, _) => assert_eq!(s, sid),
        _ => panic!("the second datagram must reuse the session"),
    }
    assert_eq!(r.session_count(), 1);
}

#[test]
fn ping_pong_end_to_end_decisions() {
    let client = addr(9000);
    let server = addr(7000);
    let mut relay = Router::new(server, None);

    let ping = datagram_from(b"ping", client);
    let ping = match relay.route_client_to_server(ping) {
        RouteDecision::NoSession(d) => d,
        _ => panic!("the first datagram must ask for a session"),
    };
    let sid = relay.open_session(ping.origin);
    let to_server = match relay.route_client_to_server(ping) {
        RouteDecision::Forward(s, d) => {
            assert_eq!(s, sid);
            d
        }
        _ => panic!("with no filter the datagram must be forwarded"),
    };
    assert_eq!(to_server.payload, b"ping".to_vec());
    assert_eq!(to_server.destination, Some(server));

    let pong = datagram_from(b"pong", server);
    let to_client = relay.route_server_to_client(sid, pong);
    assert_eq!(to_client.payload, b"pong".to_vec());
    assert_eq!(to_client.destination, Some(client));
}

#[test]
fn full_drop_never_forwards() {
    let client = addr(9000);
    let server = addr(7000);
    let filter = DropChance::new(DROP_SCALE).unwrap();
    let mut relay = Router::new(server, Some(filter));
    relay.open_session(client);
    for _ in 0..100 {
        let d = datagram_from(b"ping", client);
        match relay.route_client_to_server(d) {
            RouteDecision::Dropped => {}
            _ => panic!("a full drop chance must drop every datagram"),
        }
    }
    assert_eq!(relay.session_count(), 1);
}
