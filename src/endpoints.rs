use vstd::prelude::*;

verus! {

/// An IPv4 socket address of a node's fast transport.
#[derive(Debug, Clone, Copy, PartialEq, Eq, Structural)]
pub struct Endpoint {
    pub ip: u32,
    pub port: u16,
}

/// A cluster node as the topology query reports it: its decoded identity
/// key (`None` when the reported key did not decode) and the fast-transport
/// address it advertises, if any.
#[derive(Debug, Clone)]
pub struct ClusterNode {
    pub identity: Option<Vec<u8>>,
    pub fast_addr: Option<Endpoint>,
}

/// The node can be used: its identity decodes and it advertises the fast transport.
pub open spec fn usable(n: ClusterNode) -> bool {
    n.identity is Some && n.fast_addr is Some
}

/// The identity of a node, as bytes.
pub open spec fn identity_of(n: ClusterNode) -> Seq<u8> {
    n.identity->Some_0@
}

/// A usable node after position `k` has the identity of node `k`.
pub open spec fn identity_repeated_later(nodes: Seq<ClusterNode>, k: int) -> bool {
    exists|j: int|
        k < j < nodes.len() && usable(#[trigger] nodes[j]) && identity_of(nodes[j]) == identity_of(nodes[k])
}

/// Node `k` gives an endpoint: it is usable and no later usable node
/// reports the same identity.
pub open spec fn kept(nodes: Seq<ClusterNode>, k: int) -> bool {
    usable(nodes[k]) && !identity_repeated_later(nodes, k)
}

/// The endpoints that the first `k` nodes give, in report order.
pub open spec fn selected_prefix(nodes: Seq<ClusterNode>, k: nat) -> Seq<Endpoint>
    decreases k,
{
    if k == 0 {
        Seq::empty()
    } else {
        let rest = selected_prefix(nodes, (k - 1) as nat);
        if kept(nodes, k - 1) {
            rest.push(nodes[k - 1].fast_addr->Some_0)
        } else {
            rest
        }
    }
}

/// The endpoints of the usable nodes, one per identity (that of the last
/// node reported with it), in report order.
pub open spec fn selected_endpoints(nodes: Seq<ClusterNode>) -> Seq<Endpoint> {
    selected_prefix(nodes, nodes.len())
}

/// The fast-transport endpoints of one run, fixed when the run starts.
pub struct EndpointSet {
    endpoints: Vec<Endpoint>,
}

impl View for EndpointSet {
    type V = Seq<Endpoint>;

    closed spec fn view(&self) -> Seq<Endpoint> {
        self.endpoints@
    }
}

/// Both byte strings are equal.
fn same_bytes(a: &Vec<u8>, b: &Vec<u8>) -> (r: bool)
    ensures
        r == (a@ == b@),
{
    if a.len() != b.len() {
        return false;
    }
    let mut i: usize = 0;
    while i < a.len()
        invariant
            a@.len() == b@.len(),
            i <= a@.len(),
            forall|j: int| 0 <= j < i ==> a@[j] == b@[j],
        decreases a@.len() - i,
    {
        if a[i] != b[i] {
            return false;
        }
        i = i + 1;
    }
    assert(a@ =~= b@);
    true
}

impl EndpointSet {
    /// Keeps the nodes that advertise the fast transport and whose identity
    /// decodes, one endpoint per identity (the last node reported with it),
    /// in report order. `None` when no node qualifies: the run must not go
    /// on without the fast path.
    pub fn from_cluster(nodes: &Vec<ClusterNode>) -> (r: Option<EndpointSet>)
        ensures
            selected_endpoints(nodes@).len() == 0 <==> r is None,
            r is Some ==> r->Some_0@ == selected_endpoints(nodes@),
    {
        let n = nodes.len();
        let mut endpoints: Vec<Endpoint> = Vec::new();
        let mut i: usize = 0;
        while i < n
            invariant
                n == nodes@.len(),
                i <= n,
                endpoints@ == selected_prefix(nodes@, i as nat),
            decreases n - i,
        {
            let node = &nodes[i];
            match (&node.identity, &node.fast_addr) {
                (Some(id), Some(addr)) => {
                    let mut later = false;
                    let mut j: usize = i + 1;
                    while j < n
                        invariant
                            n == nodes@.len(),
                            i < j <= n,
                            *node == nodes@[i as int],
                            node.identity == Some(*id),
                            later == exists|t: int|
                                i < t < j && usable(#[trigger] nodes@[t])
                                    && identity_of(nodes@[t]) == id@,
                        decreases n - j,
                    {
                        let other = &nodes[j];
                        let mut same = false;
                        match (&other.identity, &other.fast_addr) {
                            (Some(oid), Some(_)) => {
                                same = same_bytes(oid, id);
                            },
                            _ => {},
                        }
                        proof {
                            if later {
                                let t = choose|t: int|
                                    i < t < j && usable(#[trigger] nodes@[t])
                                        && identity_of(nodes@[t]) == id@;
                                assert(i < t < j + 1 && usable(nodes@[t]));
                            }
                            if same {
                                assert(usable(nodes@[j as int]) && identity_of(nodes@[j as int]) == id@);
                            }
                            if !later && !same {
                                assert forall|t: int|
                                    i < t < j + 1 && usable(#[trigger] nodes@[t])
                                    implies identity_of(nodes@[t]) != id@ by {
                                    if t == j {
                                        assert(!same);
                                    }
                                }
                            }
                        }
                        later = later || same;
                        j = j + 1;
                    }
                    if !later {
                        endpoints.push(*addr);
                    }
                },
                _ => {},
            }
            i = i + 1;
        }
        if endpoints.len() == 0 {
            None
        } else {
            Some(EndpointSet { endpoints })
        }
    }

    /// A fixed list of endpoints; `None` when it is empty.
    pub fn from_static(endpoints: Vec<Endpoint>) -> (r: Option<EndpointSet>)
        ensures
            endpoints@.len() == 0 <==> r is None,
            r is Some ==> r->Some_0@ == endpoints@,
    {
        if endpoints.len() == 0 {
            None
        } else {
            Some(EndpointSet { endpoints })
        }
    }

    pub fn len(&self) -> (r: usize)
        ensures
            r == self@.len(),
    {
        self.endpoints.len()
    }

    /// The endpoints each transaction is sent to: the first `fanout` of the
    /// set, or all of them when it is smaller.
    pub fn next_leaders(&self, fanout: usize) -> (r: Vec<Endpoint>)
        ensures
            r@ == self@.take(if fanout <= self@.len() { fanout as int } else { self@.len() as int }),
    {
        let n = if fanout <= self.endpoints.len() { fanout } else { self.endpoints.len() };
        let mut r: Vec<Endpoint> = Vec::new();
        let mut i: usize = 0;
        while i < n
            invariant
                n <= self@.len(),
                i <= n,
                r@ == self@.take(i as int),
            decreases n - i,
        {
            r.push(self.endpoints[i]);
            i = i + 1;
            assert(r@ =~= self@.take(i as int));
        }
        r
    }
}

} // verus!
