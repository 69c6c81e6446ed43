use virtual_tcp::sse::{NodeInfo, SseMessage};

#[test]
fn message_carries_its_node() {
    let node = NodeInfo {
        id: "0xa1".to_string(),
        peer: "10.0.0.1:7464".to_string(),
        seen: "3s".to_string(),
        addr_status: "valid(1s)".to_string(),
    };
    let message = SseMessage { status: "connected".to_string(), node };
    assert_eq!(message.status, "connected");
    assert_eq!(message.node.id, "0xa1");
    assert_eq!(message.node.peer, "10.0.0.1:7464");
    assert_eq!(message.node.seen, "3s");
    assert_eq!(message.node.addr_status, "valid(1s)");
}
