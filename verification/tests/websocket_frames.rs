use gateway::proxy::Header;
use gateway::websocket::{
    client_close_reason, handshake_headers, handshake_host, on_upstream_frame, upgrade_set_cookies, upstream_close_frame, websocket_upstream_url,
    ClientFrame, ClientSend, CloseFrame, CloseReason, FrameAssembler, UpstreamAction, UpstreamFrame, UpstreamSend,
};

#[test]
fn websocket_urls() {
    assert_eq!(websocket_upstream_url("https://up.example/", "/ws", ""), "wss://up.example/ws");
    assert_eq!(websocket_upstream_url("http://up:81", "/ws", "a=1"), "ws://up:81/ws?a=1");
    assert_eq!(websocket_upstream_url("up:81//", "/", ""), "ws://up:81/");
}

#[test]
fn handshake_host_header() {
    assert_eq!(handshake_host("wss://up.example:8443/chat?x=1"), "up.example:8443");
    assert_eq!(handshake_host("ws://a/b://c"), "a");
    assert_eq!(handshake_host("no-scheme"), "");
}

#[test]
fn handshake_drops_headers_it_sets() {
    let h = |n: &str, v: &str| Header { name: n.to_string(), value: Some(v.to_string()) };
    let headers = vec![
        h("Host", "x"),
        h("Cookie", "a=1"),
        h("Sec-WebSocket-Key", "k"),
        h("X-Forwarded-For", "6.6.6.6"),
        h("Forwarded", "for=6.6.6.6"),
        h("X-Forwarded-Host", "evil"),
        h("X-Forwarded-Port", "1"),
        h("X-Forwarded-Proto", "https"),
        h("X-Real-IP", "6.6.6.6"),
        h("Origin", "https://x"),
    ];
    let out: Vec<(String, String)> = handshake_headers(&headers).into_iter().map(|p| (p.name, p.value)).collect();
    assert_eq!(
        out,
        vec![("Cookie".to_string(), "a=1".to_string()), ("Origin".to_string(), "https://x".to_string())]
    );
}

#[test]
fn whole_frames_pass_through() {
    let mut a = FrameAssembler::new();
    match a.on_client_frame(ClientFrame::Text("hi".to_string())).send {
        Some(UpstreamSend::Text(t)) => assert_eq!(t, "hi"),
        _ => panic!("text expected"),
    }
    match a.on_client_frame(ClientFrame::Ping(vec![1, 2])).send {
        Some(UpstreamSend::Ping(p)) => assert_eq!(p, vec![1, 2]),
        _ => panic!("ping expected"),
    }
    let nop = a.on_client_frame(ClientFrame::Nop);
    assert!(nop.send.is_none() && !nop.close);
}

#[test]
fn fragmented_messages_are_reassembled() {
    let mut a = FrameAssembler::new();
    assert!(a.on_client_frame(ClientFrame::FirstText(b"he".to_vec())).send.is_none());
    assert!(a.on_client_frame(ClientFrame::Continue(b"ll".to_vec())).send.is_none());
    match a.on_client_frame(ClientFrame::Last(b"o".to_vec())).send {
        Some(UpstreamSend::Text(t)) => assert_eq!(t, "hello"),
        _ => panic!("text expected"),
    }
    assert!(a.fragments.is_empty());

    a.on_client_frame(ClientFrame::FirstText(vec![0xff]));
    match a.on_client_frame(ClientFrame::Last(vec![0xfe])).send {
        Some(UpstreamSend::Binary(b)) => assert_eq!(b, vec![0xff, 0xfe]),
        _ => panic!("invalid UTF-8 goes as binary"),
    }

    a.on_client_frame(ClientFrame::FirstBinary(vec![1]));
    match a.on_client_frame(ClientFrame::Last(vec![2])).send {
        Some(UpstreamSend::Binary(b)) => assert_eq!(b, vec![1, 2]),
        _ => panic!("binary expected"),
    }
}

#[test]
fn close_frames_end_the_session() {
    let mut a = FrameAssembler::new();
    let act = a.on_client_frame(ClientFrame::Close(Some(CloseReason { code: 1000, description: None })));
    assert!(act.close);
    match act.send {
        Some(UpstreamSend::Close(Some(f))) => {
            assert_eq!(f.code, 1000);
            assert_eq!(f.reason, "");
        },
        _ => panic!("close expected"),
    }
    let r = client_close_reason(Some(CloseFrame { code: 1001, reason: "bye".to_string() })).unwrap();
    assert_eq!((r.code, r.description), (1001, Some("bye".to_string())));
    let r = client_close_reason(Some(CloseFrame { code: 1001, reason: String::new() })).unwrap();
    assert_eq!(r.description, None);
    assert!(upstream_close_frame(None).is_none());
}

#[test]
fn upstream_frames_map_to_client_actions() {
    match on_upstream_frame(UpstreamFrame::Binary(vec![9])) {
        UpstreamAction::Forward(ClientSend::Binary(b)) => assert_eq!(b, vec![9]),
        _ => panic!("binary expected"),
    }
    assert!(matches!(on_upstream_frame(UpstreamFrame::Frame), UpstreamAction::Ignore));
    match on_upstream_frame(UpstreamFrame::Close(Some(CloseFrame { code: 1011, reason: "err".to_string() }))) {
        UpstreamAction::Close(Some(r)) => assert_eq!(r.code, 1011),
        _ => panic!("close expected"),
    }
}

#[test]
fn close_round_trip_keeps_code_and_description() {
    let there = upstream_close_frame(Some(CloseReason { code: 4001, description: Some("going away".to_string()) }));
    let back = client_close_reason(there).unwrap();
    assert_eq!(back.code, 4001);
    assert_eq!(back.description, Some("going away".to_string()));
    let back = client_close_reason(upstream_close_frame(Some(CloseReason { code: 1000, description: None }))).unwrap();
    assert_eq!((back.code, back.description), (1000, None));
    assert!(client_close_reason(upstream_close_frame(None)).is_none());
}

#[test]
fn upgrade_keeps_every_set_cookie() {
    let h = |n: &str, v: &str| Header { name: n.to_string(), value: Some(v.to_string()) };
    let headers = vec![h("set-cookie", "a=1"), h("content-type", "x"), h("Set-Cookie", "b=2"), h("upgrade", "websocket")];
    let out: Vec<String> = upgrade_set_cookies(&headers).into_iter().map(|p| p.value).collect();
    assert_eq!(out, vec!["a=1".to_string(), "b=2".to_string()]);
}
