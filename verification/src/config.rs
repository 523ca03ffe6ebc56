//! The configuration of the service and the subscriptions it serves.

use vstd::prelude::*;

use crate::branch::Branch;

verus! {

/// How the catalog's database is reached.
#[derive(Debug, Clone, PartialEq, Eq)]
pub struct SqliteConfig {
    /// The connection string.
    pub url: String,
    /// The largest number of connections held at once.
    pub max_connections: u32,
}

/// The number of connections held at most where the configuration names
/// none.
pub fn default_max_connections() -> (r: u32)
    ensures
        r == 10,
{
    10
}

impl SqliteConfig {
    /// The configuration for `url`, with the number of connections that the
    /// configuration names or else the default.
    pub fn new(url: String, max_connections: Option<u32>) -> (r: SqliteConfig)
        ensures
            r.url == url,
            r.max_connections == match max_connections {
                Some(n) => n,
                None => 10u32,
            },
    {
        let max_connections = match max_connections {
            Some(n) => n,
            None => default_max_connections(),
        };
        SqliteConfig { url, max_connections }
    }
}

/// A subscriber: a webhook that is told of the builds deployed on its
/// branches.
#[derive(Debug, Clone, PartialEq, Eq)]
pub struct Subscription {
    pub branches: Vec<Branch>,
    pub discord_webhook_url: String,
}

/// The configuration of the service.
#[derive(Debug, Clone, PartialEq, Eq)]
pub struct Config {
    /// The time between two detection cycles, in milliseconds.
    pub interval_milliseconds: u64,
    pub subscriptions: Vec<Subscription>,
    /// The address, host and port, that the status API binds to.
    pub http_api_server_bind_address: String,
    pub sqlite: SqliteConfig,
}

impl Subscription {
    /// Whether the subscription names the branch.
    pub open spec fn covers(self, branch: Branch) -> bool {
        self.branches@.contains(branch)
    }

    /// Tells whether the subscription names the branch.
    pub fn is_subscribed_to(&self, branch: Branch) -> (r: bool)
        ensures
            r == self.covers(branch),
    {
        let mut i: usize = 0;
        while i < self.branches.len()
            invariant
                i <= self.branches@.len(),
                forall|j: int| 0 <= j < i ==> self.branches@[j] != branch,
            decreases self.branches@.len() - i,
        {
            if self.branches[i] == branch {
                return true;
            }
            i += 1;
        }
        false
    }
}

/// The indices among `subscriptions[..upto]` of those that name `branch`,
/// in ascending order.
pub open spec fn subscribers(subscriptions: Seq<Subscription>, upto: nat, branch: Branch) -> Seq<
    usize,
>
    decreases upto,
{
    if upto == 0 || upto > subscriptions.len() {
        Seq::empty()
    } else {
        let rest = subscribers(subscriptions, (upto - 1) as nat, branch);
        if subscriptions[upto - 1].covers(branch) {
            rest.push((upto - 1) as usize)
        } else {
            rest
        }
    }
}

/// Whether a subscription names `branch`.
pub open spec fn is_watched(subscriptions: Seq<Subscription>, branch: Branch) -> bool {
    exists|i: int| 0 <= i < subscriptions.len() && (#[trigger] subscriptions[i]).covers(branch)
}

/// The branches in the order in which a detection cycle visits them.
pub open spec fn all_branches() -> Seq<Branch> {
    seq![Branch::Stable, Branch::Ptb, Branch::Canary, Branch::Development]
}

/// The branches that a detection cycle visits: those that a subscription
/// names.
pub open spec fn watched_branches(subscriptions: Seq<Subscription>) -> Seq<Branch> {
    all_branches().filter(|branch: Branch| is_watched(subscriptions, branch))
}

/// The subscriptions that are told of a deploy on `branch`: the indices of
/// those that name it, each once, in ascending order.
pub fn subscriptions_for(subscriptions: &Vec<Subscription>, branch: Branch) -> (r: Vec<usize>)
    ensures
        r@ == subscribers(subscriptions@, subscriptions@.len(), branch),
        forall|k: int| 0 <= k < r@.len() ==> r@[k] < subscriptions@.len(),
{
    let mut out: Vec<usize> = Vec::new();
    let mut i: usize = 0;
    while i < subscriptions.len()
        invariant
            i <= subscriptions@.len(),
            out@ == subscribers(subscriptions@, i as nat, branch),
            forall|k: int| 0 <= k < out@.len() ==> out@[k] < i,
        decreases subscriptions@.len() - i,
    {
        if subscriptions[i].is_subscribed_to(branch) {
            out.push(i);
        }
        i += 1;
    }
    out
}

/// A subscription names a branch exactly where the branch has subscribers.
pub proof fn watched_has_subscribers(subscriptions: Seq<Subscription>, upto: nat, branch: Branch)
    requires
        upto <= subscriptions.len(),
    ensures
        subscribers(subscriptions, upto, branch).len() > 0 <==> exists|i: int|
            0 <= i < upto && (#[trigger] subscriptions[i]).covers(branch),
    decreases upto,
{
    if upto > 0 {
        watched_has_subscribers(subscriptions, (upto - 1) as nat, branch);
        if subscriptions[upto - 1].covers(branch) {
        } else if exists|i: int| 0 <= i < upto && (#[trigger] subscriptions[i]).covers(branch) {
            let i = choose|i: int| 0 <= i < upto && (#[trigger] subscriptions[i]).covers(branch);
            assert(subscriptions[i].covers(branch));
        }
    }
}

/// The branches that a detection cycle visits, each once: those that a
/// subscription names.
pub fn branches_to_watch(subscriptions: &Vec<Subscription>) -> (r: Vec<Branch>)
    ensures
        r@ == watched_branches(subscriptions@),
{
    let mut all: Vec<Branch> = Vec::new();
    all.push(Branch::Stable);
    all.push(Branch::Ptb);
    all.push(Branch::Canary);
    all.push(Branch::Development);
    assert(all@ =~= all_branches());
    let ghost pred = |branch: Branch| is_watched(subscriptions@, branch);
    let mut out: Vec<Branch> = Vec::new();
    let mut i: usize = 0;
    assert(all@.take(0) =~= Seq::<Branch>::empty());
    while i < all.len()
        invariant
            i <= all@.len(),
            pred == (|branch: Branch| is_watched(subscriptions@, branch)),
            out@ == all@.take(i as int).filter(pred),
        decreases all@.len() - i,
    {
        let branch = all[i];
        proof {
            assert(all@.take(i as int + 1) =~= all@.take(i as int).push(branch));
            all@.take(i as int).lemma_filter_push(branch, pred);
            watched_has_subscribers(subscriptions@, subscriptions@.len(), branch);
        }
        let subscribed = subscriptions_for(subscriptions, branch);
        if subscribed.len() > 0 {
            out.push(branch);
        }
        i += 1;
    }
    assert(all@.take(i as int) =~= all@);
    out
}

} // verus!
