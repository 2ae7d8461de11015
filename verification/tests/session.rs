use wsbridge::session::{
    handshake_accepts, session_step, Command, Event, Phase, Session, Variant, HEARTBEAT_PORT,
    HTTP_TIMEOUT_SECS, IDLE_TIMEOUT_SECS, PROXY_PORT,
};

#[test]
fn timeout_closes_gracefully_with_close_frame() {
    for v in [Variant::Proxy, Variant::Heartbeat] {
        let (c, p) = session_step(&v, Event::TimedOut, 0);
        assert!(matches!(c, Command::SendClose));
        assert_eq!(p, Phase::Closed);
    }
}

#[test]
fn terminal_events_close_without_writes() {
    for v in [Variant::Proxy, Variant::Heartbeat] {
        for e in [Event::CloseFrame, Event::StreamEnd, Event::ReadError] {
            let (c, p) = session_step(&v, e, 0);
            assert!(matches!(c, Command::Nothing));
            assert_eq!(p, Phase::Closed);
        }
    }
}

#[test]
fn control_ping_echoed_as_pong() {
    let (c, p) = session_step(&Variant::Proxy, Event::Ping(vec![1, 2, 3]), 0);
    match c {
        Command::Pong(d) => assert_eq!(d, vec![1, 2, 3]),
        _ => panic!("expected a pong"),
    }
    assert_eq!(p, Phase::Open);
}

#[test]
fn other_frames_ignored() {
    let (c, p) = session_step(&Variant::Heartbeat, Event::Other, 0);
    assert!(matches!(c, Command::Nothing));
    assert_eq!(p, Phase::Open);
}

#[test]
fn text_goes_to_the_variant_handler() {
    // the proxy liveness probe and the heartbeat protocol stay distinct
    let (c, _) = session_step(&Variant::Proxy, Event::Text("ping".into()), 9);
    match c {
        Command::Reply(p) => assert_eq!(p, "pong"),
        _ => panic!("expected a reply"),
    }
    let (c, _) = session_step(&Variant::Heartbeat, Event::Text("ping".into()), 9);
    assert!(matches!(c, Command::Nothing));
    let (c, _) = session_step(&Variant::Heartbeat, Event::Text("PING now".into()), 9);
    match c {
        Command::Reply(p) => assert_eq!(p, "PONG 9"),
        _ => panic!("expected a reply"),
    }
    let (c, _) = session_step(&Variant::Proxy, Event::Text("PING now".into()), 9);
    match c {
        Command::Reply(p) => assert!(p.starts_with("{\"error\":")),
        _ => panic!("expected a reply"),
    }
}

#[test]
fn proxy_text_with_valid_request_fetches() {
    let (c, p) = session_step(
        &Variant::Proxy,
        Event::Text("{\"api\":\"ipstack\",\"ip\":\"1.2.3.4\"}".into()),
        0,
    );
    match c {
        Command::Fetch(job) => {
            assert_eq!(job.url, "https://fur1.foxomy.com/rustapps/ipgeolocation/ipstack?ip=1.2.3.4");
            assert_eq!(job.api, "ipstack");
            assert!(job.id.is_none());
        }
        _ => panic!("expected a fetch"),
    }
    assert_eq!(p, Phase::Open);
}

#[test]
fn handshake_path_gating() {
    assert!(handshake_accepts(&Variant::Heartbeat, "/ws"));
    assert!(!handshake_accepts(&Variant::Heartbeat, "/"));
    assert!(!handshake_accepts(&Variant::Heartbeat, "/ws/"));
    assert!(!handshake_accepts(&Variant::Heartbeat, "/other"));
    assert!(handshake_accepts(&Variant::Proxy, "/anything"));
    assert!(handshake_accepts(&Variant::Proxy, "/"));
}

#[test]
fn session_opens_then_closes_once() {
    let mut s = Session::new(Variant::Proxy);
    assert_eq!(s.phase, Phase::Open);
    let c = s.on_event(Event::Text("ping".into()), 0);
    assert!(matches!(c, Command::Reply(_)));
    assert_eq!(s.phase, Phase::Open);
    let c = s.on_event(Event::TimedOut, 0);
    assert!(matches!(c, Command::SendClose));
    assert_eq!(s.phase, Phase::Closed);
}

#[test]
fn configuration_constants() {
    assert_eq!(IDLE_TIMEOUT_SECS, 180);
    assert_eq!(HTTP_TIMEOUT_SECS, 30);
    assert_eq!(PROXY_PORT, 45278);
    assert_eq!(HEARTBEAT_PORT, 45203);
}
