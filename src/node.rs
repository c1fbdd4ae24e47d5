use vstd::prelude::*;

verus! {

/// One endpoint of the cluster with its health as last observed.
///
/// `is_healthy` and `last_access_timestamp` change together: the timestamp is
/// the time, in milliseconds, at which the health flag was last set.
pub struct Node {
    /// Absolute base URL, in the serialized form the URL parser produced.
    pub url: String,
    pub is_healthy: bool,
    pub last_access_timestamp: u128,
}

/// At `now`, at least `interval` milliseconds have passed since the node's
/// health was last set. A timestamp later than `now` is never due.
pub open spec fn due_for_health_check(node: Node, now: int, interval: int) -> bool {
    now - node.last_access_timestamp >= interval
}

/// A node may be tried at `now`: it is healthy, or it is due for a re-probe.
pub open spec fn eligible(node: Node, now: int, interval: int) -> bool {
    node.is_healthy || due_for_health_check(node, now, interval)
}

impl Node {
    /// A fresh node, healthy as of `now`.
    pub fn new(url: String, now: u128) -> (r: Node)
        ensures
            r.url == url,
            r.is_healthy,
            r.last_access_timestamp == now,
    {
        Node { url, is_healthy: true, last_access_timestamp: now }
    }
}

/// Records a health verdict for `node` made at time `now`.
pub fn set_node_health(node: Node, is_healthy: bool, now: u128) -> (r: Node)
    ensures
        r.url == node.url,
        r.is_healthy == is_healthy,
        r.last_access_timestamp == now,
{
    let mut node = node;
    node.is_healthy = is_healthy;
    node.last_access_timestamp = now;
    node
}

} // verus!
