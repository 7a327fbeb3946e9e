use clipsync::clipboard::{Applier, ApplyAction, ClipboardContent, Monitor, PollOutcome};
use clipsync::config::Config;
use clipsync::connection::{LinkAction, LinkEvent, ServerLink};
use clipsync::events::RuntimeEvent;
use clipsync::lan::discovery::{get_discovered_peers, new_peer_map, BeaconBroadcaster};
use clipsync::lan::peer::{client_handshake, client_hello, host_handshake, DialAction, DialEvent, Dialer};
use clipsync::lan::protocol::{decode_peer_message, encode_peer_message, frame_length};
use clipsync::lan::session::{PeerSession, SessionAction, SessionError, SessionEvent};
use clipsync::lan::{plan_lan, Connector, LAN_SECURITY_WARNING};
use clipsync::supervisor::{RuntimeCommand, StartOptions, Supervisor, SupervisorAction};

fn server_config(url: &str) -> Config {
    let mut cfg = Config::default();
    cfg.server_url = url.to_string();
    cfg.token = Some("token".to_string());
    cfg
}

fn connected_link(device_id: &str) -> ServerLink {
    let (mut link, _) = ServerLink::open(server_config("wss://relay.example/ws"), false, device_id.to_string());
    link.step(LinkEvent::Connected);
    link.step(LinkEvent::Frame(r#"{"success":true,"message":"ok"}"#.to_string()));
    link
}

fn through_the_wire(action: SessionAction) -> SessionEvent {
    match action {
        SessionAction::Send { frame, .. } => {
            let len = frame_length([frame[0], frame[1], frame[2], frame[3]]).unwrap() as usize;
            assert_eq!(len, frame.len() - 4);
            SessionEvent::Inbound(decode_peer_message(&frame[4..]).unwrap())
        }
        other => panic!("nothing to send: {:?}", other),
    }
}

#[test]
fn text_travels_from_one_agent_to_the_other_through_the_server() {
    let mut alpha_monitor = Monitor::new("AAAAAAAA".to_string(), 512, 0);
    let mut alpha = connected_link("AAAAAAAA");
    let mut beta = connected_link("BBBBBBBB");
    let mut beta_applier = Applier::new();

    let mut emissions = 0;
    let mut frames = Vec::new();
    for cycle in 1..=4u64 {
        let out = alpha_monitor.poll(false, ClipboardContent::Text("hello".to_string()), cycle * 500);
        if let PollOutcome::Emitted(update) = out.outcome {
            emissions += 1;
            match alpha.step(LinkEvent::Outbound(update)).action {
                LinkAction::Send(text) => frames.push(text),
                other => panic!("unexpected {:?}", other),
            }
        }
    }
    assert_eq!(emissions, 1);
    assert_eq!(frames.len(), 1);

    assert_eq!(alpha.step(LinkEvent::Frame(frames[0].clone())).action, LinkAction::Continue);
    let payload = match beta.step(LinkEvent::Frame(frames[0].clone())).action {
        LinkAction::Deliver(payload) => payload,
        other => panic!("unexpected {:?}", other),
    };
    let start = beta_applier.begin(payload);
    assert_eq!(start.action, Some(ApplyAction::WriteText("hello".to_string())));
    assert!(beta_applier.suppressing);
    let done = beta_applier.finish(None);
    assert_eq!(done[0], RuntimeEvent::ClipboardReceived { content_type: "text/plain".to_string() });
}

#[test]
fn two_peers_discover_each_other_and_the_greater_id_connects() {
    let id1 = "00000000-0000-4000-8000-000000000000";
    let id2 = "FFFFFFFF-FFFF-4FFF-8FFF-FFFFFFFFFFFF";
    let mut sender1 = BeaconBroadcaster::new(id1.to_string(), "North".to_string(), 52742);
    let mut sender2 = BeaconBroadcaster::new(id2.to_string(), "South".to_string(), 52742);
    let mut table1 = new_peer_map();
    let mut table2 = new_peer_map();
    let mut connector1 = Connector::new(id1.to_string());
    let mut connector2 = Connector::new(id2.to_string());
    let mut sessions_opened_by_1 = 0;
    let mut sessions_opened_by_2 = 0;

    for second in 0..8u64 {
        if second % 3 == 0 {
            let from1 = sender1.next_datagram();
            let from2 = sender2.next_datagram();
            for datagram in [&from1, &from2] {
                table1.on_datagram(id1, datagram, if datagram == &from1 { "10.0.0.1" } else { "10.0.0.2" }, 1_000 + second);
                table2.on_datagram(id2, datagram, if datagram == &from1 { "10.0.0.1" } else { "10.0.0.2" }, 1_000 + second);
            }
        }
        if second % 4 == 3 {
            sessions_opened_by_1 += connector1.scan(&get_discovered_peers(&table1)).targets.len();
            let targets = connector2.scan(&get_discovered_peers(&table2)).targets;
            for target in &targets {
                assert_eq!(target.device_id, id1);
                assert_eq!(target.addr, "10.0.0.1:52742");
            }
            sessions_opened_by_2 += targets.len();
        }
    }
    let seen_by_1 = get_discovered_peers(&table1);
    let seen_by_2 = get_discovered_peers(&table2);
    assert_eq!(seen_by_1.len(), 1);
    assert_eq!(seen_by_1[0].device_id, id2);
    assert_eq!(seen_by_2.len(), 1);
    assert_eq!(seen_by_2[0].device_id, id1);
    assert_eq!(sessions_opened_by_1, 0);
    assert_eq!(sessions_opened_by_2, 1);
}

#[test]
fn handshake_then_text_travels_between_two_peers() {
    let hello = client_hello("FFFF", "South");
    let hello_frame = encode_peer_message(&hello).unwrap();
    let (remote, welcome) = host_handshake(decode_peer_message(&hello_frame[4..]).unwrap(), "0000", "North").unwrap();
    assert_eq!(remote.device_id, "FFFF");
    let welcome_frame = encode_peer_message(&welcome).unwrap();
    let host = client_handshake(decode_peer_message(&welcome_frame[4..]).unwrap()).unwrap();
    assert_eq!(host.device_name, "North");

    let mut monitor = Monitor::new("FFFF".to_string(), 512, 0);
    let mut client = PeerSession::start(0);
    let mut server = PeerSession::start(0);
    let mut applier = Applier::new();
    let text = "line one\nline \"two\" \u{2603}";
    let update = match monitor.offer_text(false, text.to_string(), 500).outcome {
        PollOutcome::Emitted(update) => update,
        other => panic!("unexpected {:?}", other),
    };
    let sent = client.step(SessionEvent::Outbound(update), 500);
    let delivered = server.step(through_the_wire(sent.action), 501);
    let payload = match delivered.action {
        SessionAction::Deliver(payload) => payload,
        other => panic!("unexpected {:?}", other),
    };
    assert_eq!(applier.begin(payload).action, Some(ApplyAction::WriteText(text.to_string())));
}

#[test]
fn heartbeat_keeps_a_session_alive_between_two_peers() {
    let mut a = PeerSession::start(0);
    let mut b = PeerSession::start(0);
    for tick in 1..=10u64 {
        let now = tick * 5_000;
        assert_eq!(a.before_wait(now).action, SessionAction::Continue);
        let ping = a.step(SessionEvent::Tick { ts: 1_700_000_000_000 + now }, now);
        let pong = b.step(through_the_wire(ping.action), now);
        let back = a.step(through_the_wire(pong.action), now + 1);
        assert_eq!(back.action, SessionAction::Continue);
        assert_eq!(a.last_pong_ms, now + 1);
    }
    assert!(a.open);
}

#[test]
fn silent_peer_is_dropped_after_fifteen_seconds_and_redialled_with_backoff() {
    let (mut dialer, _) = Dialer::start("10.0.0.1:52742".to_string());
    assert_eq!(dialer.step(DialEvent::Connected).action, DialAction::RunSession);
    let mut session = PeerSession::start(100_000);
    session.step(SessionEvent::Inbound(clipsync::lan::protocol::PeerMessage::Pong { ts: 1 }), 101_000);
    let mut closed_at = None;
    for step in 0..40u64 {
        let now = 101_000 + step * 500;
        match session.before_wait(now).action {
            SessionAction::Continue => {}
            SessionAction::Close(Some(error)) => {
                assert_eq!(error, SessionError::HeartbeatTimeout);
                assert_eq!(error.message(), "heartbeat timeout");
                closed_at = Some(now);
                let ended = dialer.step(DialEvent::SessionFailed(error.message()));
                assert_eq!(ended.action, DialAction::Wait { seconds: 1 });
                break;
            }
            other => panic!("unexpected {:?}", other),
        }
        if step % 10 == 9 {
            session.step(SessionEvent::Tick { ts: now }, now);
        }
    }
    assert_eq!(closed_at, Some(116_500));
    let mut waits = vec![1];
    for _ in 0..2 {
        assert_eq!(dialer.step(DialEvent::TimerElapsed).action, DialAction::Connect);
        match dialer.step(DialEvent::ConnectFailed("unreachable".to_string())).action {
            DialAction::Wait { seconds } => waits.push(seconds),
            other => panic!("unexpected {:?}", other),
        }
    }
    assert_eq!(waits, vec![1, 2, 4]);
}

#[test]
fn reload_moves_the_session_to_the_new_server() {
    let (mut supervisor, _) = Supervisor::new();
    let first = supervisor.step(RuntimeCommand::Start(StartOptions {
        config: server_config("wss://old.example/ws"),
        insecure_override: false,
    }));
    let old_plan = match first.actions.into_iter().next() {
        Some(SupervisorAction::Spawn(plan)) => plan,
        other => panic!("unexpected {:?}", other),
    };
    let (mut old_link, _) = ServerLink::open(old_plan.config, old_plan.insecure, "device-1".to_string());
    old_link.step(LinkEvent::Connected);
    old_link.step(LinkEvent::Frame(r#"{"success":true,"message":"ok"}"#.to_string()));

    let reload = supervisor.step(RuntimeCommand::Reload(StartOptions {
        config: server_config("wss://new.example/ws"),
        insecure_override: false,
    }));
    let mut actions = reload.actions.into_iter();
    assert_eq!(actions.next(), Some(SupervisorAction::Cancel { hard: true }));
    assert_eq!(old_link.step(LinkEvent::Cancelled).action, LinkAction::Stop);
    let new_plan = match actions.next() {
        Some(SupervisorAction::Spawn(plan)) => plan,
        other => panic!("unexpected {:?}", other),
    };
    assert_eq!(new_plan.config.server_url, "wss://new.example/ws");
    let (mut new_link, opened) = ServerLink::open(new_plan.config, new_plan.insecure, "device-2".to_string());
    assert!(matches!(&opened.events[0], RuntimeEvent::Log(l) if l.message == "target server: wss://new.example/ws"));
    assert_eq!(opened.action, LinkAction::Connect { insecure: false });
    assert_eq!(new_link.step(LinkEvent::Connected).action, LinkAction::Send(r#"{"token":"token"}"#.to_string()));
}

#[test]
fn lan_mode_is_planned_with_the_default_ports() {
    let mut cfg = Config::default();
    cfg.connection_mode = "lan".to_string();
    cfg.max_image_kb = 0;
    let plan = plan_lan(&cfg, "0123456789abcdef".to_string(), None);
    assert_eq!(plan.device_id, "0123456789abcdef");
    assert_eq!(plan.device_name, "RSCV-01234567");
    assert_eq!(plan.discovery_port, 52741);
    assert_eq!(plan.tcp_port, 52742);
    assert_eq!(plan.max_image_kb, 1);
    let events = plan.started_events();
    assert_eq!(events.len(), 3);
    assert!(matches!(&events[0], RuntimeEvent::Log(l) if l.message == LAN_SECURITY_WARNING));
    assert!(matches!(
        &events[1],
        RuntimeEvent::Log(l) if l.message == "LAN mode started: id=0123456789abcdef, name=RSCV-01234567, discovery_port=52741, tcp_port=52742"
    ));
    assert_eq!(events[2], RuntimeEvent::Status("LAN mode active (RSCV-01234567)".to_string()));
    cfg.lan_device_name = "Den".to_string();
    assert_eq!(plan_lan(&cfg, "id".to_string(), Some("host".to_string())).device_name, "Den");
}
