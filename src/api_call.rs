use vstd::prelude::*;

use crate::address::{parse_url, parsed_url};
use crate::node::{due_for_health_check, eligible, set_node_health, Node};

verus! {

/// Attempts after the first that a logical call may make, unless configured.
pub const DEFAULT_NUM_RETRIES: usize = 5;

/// Milliseconds an unhealthy node waits before it is tried again, unless configured.
pub const DEFAULT_HEALTH_CHECK_INTERVAL: u128 = 60000;

/// Milliseconds awaited between two attempts of a logical call, unless configured.
pub const DEFAULT_RETRY_INTERVAL: u64 = 100;

/// Why a node registry could not be configured.
#[derive(PartialEq, Eq, Structural, Clone, Copy, Debug)]
pub enum ConfigError {
    /// No ordinary node was given.
    EmptyNodes,
    /// The ordinary node at this position is not an absolute URL.
    InvalidUrl(usize),
    /// The nearest node is not an absolute URL.
    InvalidNearestNode,
}

/// The node that an attempt is sent to.
#[derive(PartialEq, Eq, Structural, Clone, Copy, Debug)]
pub enum Target {
    Nearest,
    Ordinary(usize),
}

/// The node registry of a client together with its retry configuration.
///
/// The ordinary nodes are fixed at construction and tried in rotation; the
/// rotation cursor starts before the first node.
pub struct APICall {
    pub nearest_node: Option<Node>,
    pub nodes: Vec<Node>,
    /// Rotation cursor: index of the ordinary node last examined, -1 before
    /// the first rotation step.
    pub current_node_index: isize,
    pub num_retries: usize,
    /// In milliseconds.
    pub health_check_interval: u128,
    /// In milliseconds.
    pub retry_interval: u64,
}

impl APICall {
    pub open spec fn cursor(&self) -> int {
        self.current_node_index as int
    }

    pub open spec fn wf(&self) -> bool {
        &&& 0 < self.nodes@.len() <= isize::MAX
        &&& -1 <= self.cursor() < self.nodes@.len()
    }

    pub open spec fn valid_target(&self, t: Target) -> bool {
        match t {
            Target::Nearest => self.nearest_node is Some,
            Target::Ordinary(i) => i < self.nodes@.len(),
        }
    }

    pub open spec fn node_at(&self, t: Target) -> Node {
        match t {
            Target::Nearest => self.nearest_node->Some_0,
            Target::Ordinary(i) => self.nodes@[i as int],
        }
    }

    /// `node` may be tried at `now` under this registry's health-check interval.
    pub open spec fn can_try(&self, node: Node, now: int) -> bool {
        eligible(node, now, self.health_check_interval as int)
    }

    /// Index of the ordinary node examined at step `k` of a rotation that
    /// starts just after the cursor.
    pub open spec fn rotation(&self, k: int) -> int {
        let p = self.cursor() + 1 + k;
        if p < self.nodes@.len() {
            p
        } else {
            p - self.nodes@.len()
        }
    }

    /// The ordinary node picked by a rotation resumed at step `k`: the first
    /// that may be tried, or the last examined if none may.
    pub open spec fn scan(&self, now: int, k: int) -> int
        decreases self.nodes@.len() - k,
    {
        if k + 1 >= self.nodes@.len() || self.can_try(self.nodes@[self.rotation(k)], now) {
            self.rotation(k)
        } else {
            self.scan(now, k + 1)
        }
    }

    /// The node picked at `now`: the nearest node while it may be tried, else
    /// the result of a full rotation over the ordinary nodes.
    pub open spec fn choice(&self, now: int) -> Target {
        if self.nearest_node is Some && self.can_try(self.nearest_node->Some_0, now) {
            Target::Nearest
        } else {
            Target::Ordinary(self.scan(now, 0) as usize)
        }
    }

    /// `self` and `other` hold the same nodes, health and cursor.
    pub open spec fn same_registry(&self, other: &APICall) -> bool {
        &&& self.nearest_node == other.nearest_node
        &&& self.nodes@ == other.nodes@
        &&& self.cursor() == other.cursor()
    }

    /// `self` and `other` hold the same retry configuration.
    pub open spec fn same_settings(&self, other: &APICall) -> bool {
        &&& self.num_retries == other.num_retries
        &&& self.health_check_interval == other.health_check_interval
        &&& self.retry_interval == other.retry_interval
    }

    /// `self` is the registry that `new` builds over `nodes` at `now`: each
    /// node parsed and healthy as of `now`, no nearest node, the cursor
    /// before the first node and the default retry configuration.
    pub open spec fn fresh_over(&self, nodes: Seq<&str>, now: u128) -> bool {
        &&& self.wf()
        &&& self.cursor() == -1
        &&& self.nearest_node is None
        &&& self.nodes@.len() == nodes.len()
        &&& forall|i: int|
            0 <= i < nodes.len() ==> {
                &&& Some((#[trigger] self.nodes@[i]).url@) == parsed_url(nodes[i]@)
                &&& self.nodes@[i].is_healthy
                &&& self.nodes@[i].last_access_timestamp == now
            }
        &&& self.num_retries == DEFAULT_NUM_RETRIES
        &&& self.health_check_interval == DEFAULT_HEALTH_CHECK_INTERVAL
        &&& self.retry_interval == DEFAULT_RETRY_INTERVAL
    }

    /// A registry over `nodes`, each healthy as of `now`, with no nearest
    /// node and the default retry configuration. It fails on an empty list
    /// and on the first entry that is not an absolute URL.
    pub fn new(nodes: Vec<&str>, now: u128) -> (r: Result<APICall, ConfigError>)
        requires
            // a Vec of references never holds more than isize::MAX items
            nodes@.len() <= isize::MAX,
        ensures
            r is Err <==> nodes_error(nodes@) is Some,
            r is Err ==> r->Err_0 == nodes_error(nodes@)->Some_0,
            r is Ok ==> r->Ok_0.fresh_over(nodes@, now),
    {
        if nodes.len() == 0 {
            return Err(ConfigError::EmptyNodes);
        }
        let mut parsed: Vec<Node> = Vec::new();
        let mut i: usize = 0;
        while i < nodes.len()
            invariant
                i <= nodes@.len(),
                parsed@.len() == i,
                first_unparsed(nodes@, 0) == first_unparsed(nodes@, i as int),
                forall|j: int|
                    0 <= j < i ==> {
                        &&& Some((#[trigger] parsed@[j]).url@) == parsed_url(nodes@[j]@)
                        &&& parsed@[j].is_healthy
                        &&& parsed@[j].last_access_timestamp == now
                    },
            decreases nodes@.len() - i,
        {
            match parse_url(nodes[i]) {
                Ok(url) => parsed.push(Node::new(url, now)),
                Err(_) => {
                    return Err(ConfigError::InvalidUrl(i));
                },
            }
            i = i + 1;
        }
        Ok(
            APICall {
                nearest_node: None,
                nodes: parsed,
                current_node_index: -1,
                num_retries: DEFAULT_NUM_RETRIES,
                health_check_interval: DEFAULT_HEALTH_CHECK_INTERVAL,
                retry_interval: DEFAULT_RETRY_INTERVAL,
            },
        )
    }

    /// Sets the health-check interval, in milliseconds.
    pub fn health_check_interval(&mut self, interval: u128)
        ensures
            final(self).same_registry(old(self)),
            final(self).health_check_interval == interval,
            final(self).num_retries == old(self).num_retries,
            final(self).retry_interval == old(self).retry_interval,
    {
        self.health_check_interval = interval;
    }

    /// Sets the delay between attempts, in milliseconds.
    pub fn retry_interval(&mut self, interval: u64)
        ensures
            final(self).same_registry(old(self)),
            final(self).retry_interval == interval,
            final(self).num_retries == old(self).num_retries,
            final(self).health_check_interval == old(self).health_check_interval,
    {
        self.retry_interval = interval;
    }

    /// Sets how many attempts after the first a logical call may make.
    pub fn num_retries(&mut self, num_retries: usize)
        ensures
            final(self).same_registry(old(self)),
            final(self).num_retries == num_retries,
            final(self).health_check_interval == old(self).health_check_interval,
            final(self).retry_interval == old(self).retry_interval,
    {
        self.num_retries = num_retries;
    }

    /// Sets the nearest node, healthy as of `now`; a URL that does not
    /// parse leaves the registry as it was.
    pub fn nearest_node(&mut self, nearest_node: &str, now: u128) -> (r: Result<(), ConfigError>)
        ensures
            r is Err <==> parsed_url(nearest_node@) is None,
            r is Err ==> r->Err_0 == ConfigError::InvalidNearestNode && *final(self) == *old(self),
            r is Ok ==> {
                let n = final(self).nearest_node->Some_0;
                &&& final(self).nearest_node is Some
                &&& Some(n.url@) == parsed_url(nearest_node@)
                &&& n.is_healthy
                &&& n.last_access_timestamp == now
            },
            final(self).nodes@ == old(self).nodes@,
            final(self).cursor() == old(self).cursor(),
            final(self).same_settings(old(self)),
    {
        match parse_url(nearest_node) {
            Ok(url) => {
                self.nearest_node = Some(Node::new(url, now));
                Ok(())
            },
            Err(_) => Err(ConfigError::InvalidNearestNode),
        }
    }

    /// Whether the registry is in the shape that selection relies on: at
    /// least one ordinary node, and the cursor before or at one of them.
    pub fn is_well_formed(&self) -> (r: bool)
        ensures
            r == self.wf(),
    {
        0 < self.nodes.len() && self.nodes.len() <= isize::MAX as usize && -1
            <= self.current_node_index && self.current_node_index < self.nodes.len() as isize
    }

    /// The URL of the node at `target`.
    pub fn node_url(&self, target: Target) -> (r: &str)
        requires
            self.valid_target(target),
        ensures
            r@ == self.node_at(target).url@,
    {
        match target {
            Target::Nearest => {
                match &self.nearest_node {
                    Some(node) => node.url.as_str(),
                    None => "",
                }
            },
            Target::Ordinary(i) => self.nodes[i].url.as_str(),
        }
    }

    /// Whether `node` has gone unobserved for at least the health-check
    /// interval at `now`.
    pub fn node_due_for_health_check(&self, node: &Node, now: u128) -> (r: bool)
        ensures
            r == due_for_health_check(*node, now as int, self.health_check_interval as int),
    {
        now >= node.last_access_timestamp && now - node.last_access_timestamp
            >= self.health_check_interval
    }

    /// Picks the node for the next attempt at `now`.
    ///
    /// The nearest node goes first while it is healthy or due for a re-probe.
    /// Otherwise the cursor advances over the ordinary nodes, for at most one
    /// full rotation, and stops at the first node that is healthy or due; if
    /// there is none, the last node examined is returned all the same.
    pub fn get_next_node(&mut self, now: u128) -> (r: Target)
        requires
            old(self).wf(),
        ensures
            r == old(self).choice(now as int),
            final(self).wf(),
            final(self).valid_target(r),
            final(self).nearest_node == old(self).nearest_node,
            final(self).nodes@ == old(self).nodes@,
            final(self).same_settings(old(self)),
            r is Nearest ==> final(self).cursor() == old(self).cursor(),
            r matches Target::Ordinary(i) ==> final(self).cursor() == i,
            (old(self).nearest_node is Some && old(self).nearest_node->Some_0.is_healthy) ==> r
                == Target::Nearest,
    {
        match &self.nearest_node {
            Some(nearest) => {
                if nearest.is_healthy || self.node_due_for_health_check(nearest, now) {
                    return Target::Nearest;
                }
            },
            None => {},
        }
        let ghost start = *self;
        let num_nodes = self.nodes.len();
        let mut k: usize = 0;
        loop
            invariant
                start == *old(self),
                start.wf(),
                !(start.nearest_node is Some && start.can_try(
                    start.nearest_node->Some_0,
                    now as int,
                )),
                num_nodes == self.nodes@.len(),
                self.nodes@ == start.nodes@,
                self.nearest_node == start.nearest_node,
                self.same_settings(&start),
                k < num_nodes,
                k == 0 ==> self.cursor() == start.cursor(),
                k > 0 ==> self.cursor() == start.rotation(k - 1),
                start.scan(now as int, 0) == start.scan(now as int, k as int),
            decreases num_nodes - k,
        {
            let next = self.current_node_index + 1;
            self.current_node_index = if next < num_nodes as isize {
                next
            } else {
                0
            };
            assert(self.cursor() == start.rotation(k as int));
            let i = self.current_node_index as usize;
            if k + 1 == num_nodes || self.nodes[i].is_healthy || self.node_due_for_health_check(
                &self.nodes[i],
                now,
            ) {
                return Target::Ordinary(i);
            }
            k = k + 1;
        }
    }

    /// `self` is `before` with a health verdict made at `now` recorded for the
    /// node at `target`, and nothing else changed.
    pub open spec fn records_health(
        &self,
        before: &APICall,
        target: Target,
        is_healthy: bool,
        now: u128,
    ) -> bool {
        &&& self.cursor() == before.cursor()
        &&& self.same_settings(before)
        &&& match target {
            Target::Nearest => {
                &&& self.nodes@ == before.nodes@
                &&& self.nearest_node == Some(
                    set_node_health_spec(before.nearest_node->Some_0, is_healthy, now),
                )
            },
            Target::Ordinary(i) => {
                &&& self.nearest_node == before.nearest_node
                &&& self.nodes@ == before.nodes@.update(
                    i as int,
                    set_node_health_spec(before.nodes@[i as int], is_healthy, now),
                )
            },
        }
    }

    /// Records a health verdict made at `now` for the node at `target`.
    pub fn update_node_health(&mut self, target: Target, is_healthy: bool, now: u128)
        requires
            old(self).valid_target(target),
        ensures
            final(self).records_health(old(self), target, is_healthy, now),
            final(self).node_at(target) == set_node_health_spec(
                old(self).node_at(target),
                is_healthy,
                now,
            ),
    {
        match target {
            Target::Nearest => {
                let node = self.nearest_node.take().unwrap();
                self.nearest_node = Some(set_node_health(node, is_healthy, now));
            },
            Target::Ordinary(i) => {
                let node = Node {
                    url: self.nodes[i].url.clone(),
                    is_healthy: self.nodes[i].is_healthy,
                    last_access_timestamp: self.nodes[i].last_access_timestamp,
                };
                self.nodes.set(i, set_node_health(node, is_healthy, now));
            },
        }
    }
}

/// Selection never settles on a node that may not be tried while another
/// one may: a pick that is unhealthy and not due for a re-probe means that
/// the nearest node, if any, and every ordinary node are in that state too.
pub proof fn lemma_selection_prefers_eligible(call: APICall, now: int)
    requires
        call.wf(),
    ensures
        call.valid_target(call.choice(now)),
        !call.can_try(call.node_at(call.choice(now)), now) ==> {
            &&& call.nearest_node is Some ==> !call.can_try(call.nearest_node->Some_0, now)
            &&& forall|i: int| 0 <= i < call.nodes@.len() ==> !call.can_try(#[trigger] call.nodes@[i], now)
        },
{
    lemma_scan_exhausts(call, now, 0);
    if call.choice(now) is Ordinary && !call.can_try(call.node_at(call.choice(now)), now) {
        let n = call.nodes@.len() as int;
        assert forall|i: int| 0 <= i < n implies !call.can_try(#[trigger] call.nodes@[i], now) by {
            let j = if i >= call.cursor() + 1 {
                i - (call.cursor() + 1)
            } else {
                i - (call.cursor() + 1) + n
            };
            assert(call.rotation(j) == i);
        }
    }
}

/// A rotation resumed at step `k` picks an ordinary node, and picks one that
/// may not be tried only if no node it examines may be.
proof fn lemma_scan_exhausts(call: APICall, now: int, k: int)
    requires
        call.wf(),
        0 <= k < call.nodes@.len(),
    ensures
        0 <= call.scan(now, k) < call.nodes@.len(),
        !call.can_try(call.nodes@[call.scan(now, k)], now) ==> forall|j: int|
            k <= j < call.nodes@.len() ==> !call.can_try(
                #[trigger] call.nodes@[call.rotation(j)],
                now,
            ),
    decreases call.nodes@.len() - k,
{
    if !(k + 1 >= call.nodes@.len() || call.can_try(call.nodes@[call.rotation(k)], now)) {
        lemma_scan_exhausts(call, now, k + 1);
    }
}

/// A node marked unhealthy at time `t` may be tried again exactly from
/// `t` plus the health-check interval on; a nearest node so marked is picked
/// again from then on, and not before.
pub proof fn lemma_reprobe_after_interval(
    before: APICall,
    after: APICall,
    target: Target,
    t: u128,
    now: int,
)
    requires
        before.valid_target(target),
        after.records_health(&before, target, false, t),
    ensures
        after.can_try(after.node_at(target), now) <==> now >= t + after.health_check_interval,
        target is Nearest ==> (after.choice(now) == Target::Nearest <==> now >= t
            + after.health_check_interval),
{
}

/// Position of the first of `nodes`, from `i` on, that is not an absolute URL.
pub open spec fn first_unparsed(nodes: Seq<&str>, i: int) -> Option<usize>
    decreases nodes.len() - i,
{
    if i < 0 || i >= nodes.len() {
        None
    } else if parsed_url(nodes[i]@) is None {
        Some(i as usize)
    } else {
        first_unparsed(nodes, i + 1)
    }
}

/// The error that building a registry over `nodes` meets, if any.
pub open spec fn nodes_error(nodes: Seq<&str>) -> Option<ConfigError> {
    if nodes.len() == 0 {
        Some(ConfigError::EmptyNodes)
    } else {
        match first_unparsed(nodes, 0) {
            Some(i) => Some(ConfigError::InvalidUrl(i)),
            None => None,
        }
    }
}

/// The node that `set_node_health(node, is_healthy, now)` returns.
pub open spec fn set_node_health_spec(node: Node, is_healthy: bool, now: u128) -> Node {
    Node { url: node.url, is_healthy, last_access_timestamp: now }
}

} // verus!
