//! Correlation of one synchronous-looking request with exactly one
//! asynchronous notification.
//!
//! Before a portal request is issued, the caller subscribes on the
//! reply path derived from the connection's unique name and a fresh
//! handle token.  The subscription accepts exactly the one notification
//! addressed to that path and refuses every other, so concurrent
//! requests never cross-deliver.

use vstd::prelude::*;

use crate::protocol::RequestOutcome;
use crate::token::mangled_unique_name;
use crate::token::request_path;
use crate::token::request_path_spec;
use crate::token::xdg_unique_name;

verus! {

/// One outstanding request's subscription: the token it was issued
/// with, the reply path derived from it, and the response once it has
/// arrived.
pub struct Correlator {
    pub token: String,
    pub path: String,
    pub response: Option<RequestOutcome>,
}

impl Correlator {
    /// The subscription listens on the path derived from its own token
    /// and the connection it was opened on.
    pub open spec fn subscribed_on(self, raw_unique_name: Seq<char>) -> bool {
        self.path@ == request_path_spec(mangled_unique_name(raw_unique_name), self.token@)
    }

    /// Opens a subscription for the given token on the connection with
    /// the given raw unique name, before the request itself is issued.
    pub fn subscribe(raw_unique_name: &str, token: String) -> (c: Correlator)
        ensures
            c.token == token,
            c.subscribed_on(raw_unique_name@),
            c.response is None,
    {
        let mangled = xdg_unique_name(raw_unique_name);
        let path = request_path(mangled.as_str(), token.as_str());
        Correlator { token, path, response: None }
    }

    /// Whether a notification on the given path is addressed to this
    /// subscription.
    pub fn matches(&self, path: &String) -> (b: bool)
        ensures
            b == (path@ == self.path@),
    {
        self.path.eq(path)
    }

    /// Offers a notification to this subscription.  It is accepted
    /// exactly when it is addressed to this subscription's path and no
    /// earlier notification has been consumed; at most one notification
    /// is ever consumed.
    pub fn deliver(&mut self, path: &String, outcome: RequestOutcome) -> (accepted: bool)
        ensures
            accepted == (path@ == old(self).path@ && old(self).response is None),
            final(self).token == old(self).token,
            final(self).path == old(self).path,
            accepted ==> final(self).response == Some(outcome),
            !accepted ==> final(self).response == old(self).response,
    {
        if self.response.is_none() && self.path.eq(path) {
            self.response = Some(outcome);
            true
        } else {
            false
        }
    }

    /// Takes the response out of the subscription, ending it.
    pub fn take_response(&mut self) -> (r: Option<RequestOutcome>)
        ensures
            r == old(self).response,
            final(self).response is None,
            final(self).token == old(self).token,
            final(self).path == old(self).path,
    {
        self.response.take()
    }
}

/// Subscriptions opened with pairwise distinct tokens on one connection
/// listen on pairwise distinct paths, so a notification addressed to
/// one of them is refused by every other.
pub proof fn lemma_no_cross_delivery(cs: Seq<Correlator>, raw_unique_name: Seq<char>, i: int, j: int)
    requires
        forall|k: int| 0 <= k < cs.len() ==> (#[trigger] cs[k]).subscribed_on(raw_unique_name),
        forall|k1: int, k2: int|
            0 <= k1 < cs.len() && 0 <= k2 < cs.len() && k1 != k2 ==> cs[k1].token@ != cs[k2].token@,
        0 <= i < cs.len(),
        0 <= j < cs.len(),
    ensures
        (cs[j].path@ == cs[i].path@) <==> i == j,
{
    if i != j && cs[j].path@ == cs[i].path@ {
        crate::token::lemma_request_path_injective(
            mangled_unique_name(raw_unique_name),
            cs[i].token@,
            cs[j].token@,
        );
    }
}

/// Offers a notification to a group of concurrent subscriptions and
/// delivers it to the first one it is addressed to that has not yet
/// consumed a notification.  Every other subscription is unchanged.
pub fn dispatch(correlators: &mut Vec<Correlator>, path: &String, outcome: RequestOutcome) -> (idx:
    Option<usize>)
    ensures
        final(correlators)@.len() == old(correlators)@.len(),
        match idx {
            Some(i) => {
                &&& i < old(correlators)@.len()
                &&& old(correlators)@[i as int].path@ == path@
                &&& old(correlators)@[i as int].response is None
                &&& forall|j: int|
                    0 <= j < i ==> !(#[trigger] old(correlators)@[j].path@ == path@
                        && old(correlators)@[j].response is None)
                &&& final(correlators)@[i as int].response == Some(outcome)
                &&& final(correlators)@[i as int].token == old(correlators)@[i as int].token
                &&& final(correlators)@[i as int].path == old(correlators)@[i as int].path
                &&& forall|j: int|
                    0 <= j < old(correlators)@.len() && j != i ==> final(correlators)@[j] == old(
                        correlators,
                    )@[j]
            },
            None => {
                &&& final(correlators)@ == old(correlators)@
                &&& forall|j: int|
                    0 <= j < old(correlators)@.len() ==> !(#[trigger] old(
                        correlators,
                    )@[j].path@ == path@ && old(correlators)@[j].response is None)
            },
        },
{
    let n = correlators.len();
    let mut i: usize = 0;
    while i < n
        invariant
            n == correlators@.len(),
            i <= n,
            correlators@ == old(correlators)@,
            forall|j: int|
                0 <= j < i ==> !(#[trigger] correlators@[j].path@ == path@
                    && correlators@[j].response is None),
        decreases n - i,
    {
        let hit = {
            let c = &correlators[i];
            c.response.is_none() && c.path.eq(path)
        };
        if hit {
            let _accepted = correlators[i].deliver(path, outcome);
            return Some(i);
        }
        i += 1;
    }
    None
}

} // verus!
