//! Peer-to-peer networking decisions of the browser client.

use vstd::prelude::*;

verus! {

/// The signaling server of a page: its host name at port 9001.
pub fn signaling_server_url(hostname: &str) -> (u: String)
    ensures
        u@ == hostname@ + ":9001"@,
{
    let mut u = String::from_str(hostname);
    u.append(":9001");
    u
}

/// Whether starting the network opens the peer (and registers the app's
/// callbacks on it): only when there is a network and it is not open yet.
pub open spec fn opens_peer(has_network: bool, is_open: bool) -> bool {
    has_network && !is_open
}

/// Whether the peer is open once the network has been started: opening it
/// sets the flag, and nothing else changes it.
pub open spec fn open_after_start(has_network: bool, is_open: bool) -> bool {
    is_open || opens_peer(has_network, is_open)
}

/// Whether starting the network opens the peer now.
pub fn should_open_peer(has_network: bool, is_open: bool) -> (b: bool)
    ensures
        b == opens_peer(has_network, is_open),
{
    has_network && !is_open
}

/// Starting the network a second time neither registers callbacks again
/// nor opens the peer again, and leaves it as the first start left it.
pub proof fn law_second_start_does_nothing(has_network: bool, is_open: bool)
    ensures
        !opens_peer(has_network, open_after_start(has_network, is_open)),
        open_after_start(has_network, open_after_start(has_network, is_open)) == open_after_start(
            has_network,
            is_open,
        ),
{
}

} // verus!
