use catalyst::network::{should_open_peer, signaling_server_url};

#[test]
fn signaling_server_is_on_port_9001() {
    assert_eq!(signaling_server_url("example.org"), "example.org:9001");
}

#[test]
fn peer_opens_once() {
    assert!(should_open_peer(true, false));
    assert!(!should_open_peer(true, true));
    assert!(!should_open_peer(false, false));
}

#[test]
fn second_start_does_nothing() {
    // A first start opens the peer, which sets its flag; a second start then
    // does not open it again.
    assert!(should_open_peer(true, false));
    let open_after_first = true;
    assert!(!should_open_peer(true, open_after_first));
}
