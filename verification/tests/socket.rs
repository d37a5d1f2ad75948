use simchat::frontend::components::chat::chat_socket_url;
use simchat::frontend::components::websocket_provider::{SocketHandlers, WebSocketLink};

#[test]
fn socket_url_follows_page_protocol_and_host() {
    assert_eq!(chat_socket_url("https:", "example.com:8443"), "wss://example.com:3000/ws");
    assert_eq!(chat_socket_url("http:", "example.com"), "ws://example.com:3000/ws");
    assert_eq!(chat_socket_url("file:", ""), "ws://:3000/ws");
    assert_eq!(chat_socket_url("https:", ":80"), "wss://:3000/ws");
    assert_eq!(chat_socket_url("HTTPS:", "höst:1:2"), "ws://höst:3000/ws");
}

#[test]
fn handlers_register_replace_unregister() {
    let mut hs: SocketHandlers<u32> = SocketHandlers::new();
    assert!(hs.handlers().is_empty());
    hs.register("a".to_string(), 1);
    hs.register("b".to_string(), 2);
    assert_eq!(hs.handlers(), vec![&1, &2]);
    hs.register("a".to_string(), 3);
    assert_eq!(hs.handlers(), vec![&3, &2]);
    hs.unregister("a".to_string());
    assert_eq!(hs.handlers(), vec![&2]);
    hs.unregister("missing".to_string());
    assert_eq!(hs.handlers(), vec![&2]);
    hs.register("c".to_string(), 4);
    hs.unregister("c".to_string());
    assert_eq!(hs.handlers(), vec![&2]);
}

#[test]
fn link_opens_and_closes() {
    let mut link: WebSocketLink<&str> = WebSocketLink::new();
    assert!(!link.connected);
    assert!(link.sender.is_none());
    let other: WebSocketLink<&str> = WebSocketLink::new();
    assert!(link.same_context(&other));
    link.opened("send");
    assert!(link.connected);
    assert_eq!(link.sender, Some("send"));
    assert!(!link.same_context(&other));
    link.closed();
    assert!(!link.connected);
    assert!(link.sender.is_none());
}
