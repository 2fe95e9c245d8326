//! The table of active subscriptions: what `subscribe` records,
//! `unsubscribe` ends, and `subscription_status` reports on.

use vstd::prelude::*;
use vstd::string::*;
use crate::redis_pubsub_errors::{PubSubError, ErrorView};

verus! {

#[verifier::external_type_specification]
#[verifier::external_body]
#[verifier::reject_recursive_types(T)]
pub struct ExBroadcastSender<T>(tokio::sync::broadcast::Sender<T>);

/// The identifier of a subscription.
pub type SubscriptionId = String;

/// What the adapter keeps of a running subscription.
#[derive(Debug)]
pub struct ActiveSubscription {
    pub topic: String,
    pub subscription_id: SubscriptionId,
    pub handler_name: String,
    /// Wakes the subscription's listener so that it stops.
    pub shutdown_tx: tokio::sync::broadcast::Sender<()>,
}

/// The table that a list of subscriptions stands for: each id mapped to
/// the last entry with that id.
pub open spec fn table_of(s: Seq<ActiveSubscription>) -> Map<Seq<char>, ActiveSubscription>
    decreases s.len(),
{
    if s.len() == 0 {
        Map::empty()
    } else {
        table_of(s.drop_last()).insert(s.last().subscription_id@, s.last())
    }
}

/// No two entries of `s` share an id.
pub open spec fn ids_distinct(s: Seq<ActiveSubscription>) -> bool {
    forall|i: int, j: int|
        0 <= i < j < s.len() ==> #[trigger] s[i].subscription_id@ != #[trigger] s[j].subscription_id@
}

proof fn lemma_table_contains(s: Seq<ActiveSubscription>, k: Seq<char>)
    ensures
        table_of(s).contains_key(k) <==> exists|i: int|
            0 <= i < s.len() && #[trigger] s[i].subscription_id@ == k,
    decreases s.len(),
{
    if s.len() > 0 {
        let t = s.drop_last();
        lemma_table_contains(t, k);
        if table_of(s).contains_key(k) {
            if k != s.last().subscription_id@ {
                let i = choose|i: int| 0 <= i < t.len() && #[trigger] t[i].subscription_id@ == k;
                assert(s[i] == t[i]);
            } else {
                assert(s[s.len() - 1].subscription_id@ == k);
            }
        }
        if exists|i: int| 0 <= i < s.len() && #[trigger] s[i].subscription_id@ == k {
            let i = choose|i: int| 0 <= i < s.len() && #[trigger] s[i].subscription_id@ == k;
            if i < s.len() - 1 {
                assert(t[i] == s[i]);
            }
        }
    }
}

proof fn lemma_table_finite(s: Seq<ActiveSubscription>)
    requires
        ids_distinct(s),
    ensures
        table_of(s).dom().finite(),
        table_of(s).dom().len() == s.len(),
    decreases s.len(),
{
    if s.len() > 0 {
        let t = s.drop_last();
        lemma_table_finite(t);
        lemma_table_contains(t, s.last().subscription_id@);
        if table_of(t).contains_key(s.last().subscription_id@) {
            let i = choose|i: int|
                0 <= i < t.len() && #[trigger] t[i].subscription_id@ == s.last().subscription_id@;
            assert(s[i] == t[i]);
            assert(s[i].subscription_id@ != s[s.len() - 1].subscription_id@);
        }
    }
}

proof fn lemma_table_index(s: Seq<ActiveSubscription>, i: int)
    requires
        ids_distinct(s),
        0 <= i < s.len(),
    ensures
        table_of(s).contains_key(s[i].subscription_id@),
        table_of(s)[s[i].subscription_id@] == s[i],
    decreases s.len(),
{
    let t = s.drop_last();
    if i < s.len() - 1 {
        assert(t[i] == s[i]);
        lemma_table_index(t, i);
        assert(s[i].subscription_id@ != s[s.len() - 1].subscription_id@);
    }
}

proof fn lemma_table_remove(s: Seq<ActiveSubscription>, i: int)
    requires
        ids_distinct(s),
        0 <= i < s.len(),
    ensures
        ids_distinct(s.remove(i)),
        table_of(s.remove(i)) =~= table_of(s).remove(s[i].subscription_id@),
    decreases s.len(),
{
    let t = s.drop_last();
    let k = s[i].subscription_id@;
    if i == s.len() - 1 {
        assert(s.remove(i) =~= t);
        lemma_table_contains(t, k);
        if table_of(t).contains_key(k) {
            let j = choose|j: int| 0 <= j < t.len() && #[trigger] t[j].subscription_id@ == k;
            assert(s[j] == t[j]);
        }
    } else {
        assert(t[i] == s[i]);
        lemma_table_remove(t, i);
        assert(s.remove(i) =~= t.remove(i).push(s.last()));
        assert(s.remove(i).drop_last() =~= t.remove(i));
        assert(s[i].subscription_id@ != s[s.len() - 1].subscription_id@);
        let r = s.remove(i);
        assert forall|a: int, b: int| 0 <= a < b < r.len() implies #[trigger] r[a].subscription_id@
            != #[trigger] r[b].subscription_id@ by {
            let a0 = if a < i { a } else { a + 1 };
            let b0 = if b < i { b } else { b + 1 };
            assert(r[a] == s[a0]);
            assert(r[b] == s[b0]);
        }
    }
}

proof fn lemma_table_update(s: Seq<ActiveSubscription>, i: int, x: ActiveSubscription)
    requires
        ids_distinct(s),
        0 <= i < s.len(),
        x.subscription_id@ == s[i].subscription_id@,
    ensures
        ids_distinct(s.update(i, x)),
        table_of(s.update(i, x)) =~= table_of(s).insert(x.subscription_id@, x),
    decreases s.len(),
{
    let t = s.drop_last();
    let u = s.update(i, x);
    assert forall|a: int, b: int| 0 <= a < b < u.len() implies #[trigger] u[a].subscription_id@
        != #[trigger] u[b].subscription_id@ by {
        assert(u[a].subscription_id@ == s[a].subscription_id@);
        assert(u[b].subscription_id@ == s[b].subscription_id@);
    }
    if i == s.len() - 1 {
        assert(u.drop_last() =~= t);
    } else {
        assert(t[i] == s[i]);
        lemma_table_update(t, i, x);
        assert(u.drop_last() =~= t.update(i, x));
        assert(s[i].subscription_id@ != s[s.len() - 1].subscription_id@);
    }
}

/// The table of active subscriptions, keyed by subscription id.
#[derive(Debug)]
pub struct SubscriptionRegistry {
    entries: Vec<ActiveSubscription>,
}

impl View for SubscriptionRegistry {
    type V = Map<Seq<char>, ActiveSubscription>;

    closed spec fn view(&self) -> Map<Seq<char>, ActiveSubscription> {
        table_of(self.entries@)
    }
}

/// How a subscription is doing, as `subscription_status` reports it.
#[derive(Clone, Copy, PartialEq, Eq, Structural, Debug)]
pub enum SubscriptionState {
    Active,
}

/// The health of a subscription, as `subscription_status` reports it.
#[derive(Clone, Copy, PartialEq, Eq, Structural, Debug)]
pub enum SubscriptionHealth {
    Healthy,
}

/// The status of a subscription, but for the clock readings that the
/// adapter adds when it answers.
#[derive(Debug)]
pub struct SubscriptionReport {
    pub subscription_id: SubscriptionId,
    pub state: SubscriptionState,
    pub topic: String,
    pub consumer_group: Option<String>,
    pub current_position: Option<String>,
    pub events_processed: u64,
    pub events_failed: u64,
    pub lag: Option<u64>,
    pub avg_processing_time_ms: Option<u64>,
    pub health: SubscriptionHealth,
}

/// `report` is the status given for the subscription `id` on `topic`:
/// active and healthy, at the latest position, with nothing processed,
/// failed or lagging, and ten milliseconds as the processing time.
pub open spec fn reports(report: SubscriptionReport, id: Seq<char>, topic: Seq<char>) -> bool {
    &&& report.subscription_id@ == id
    &&& report.state == SubscriptionState::Active
    &&& report.topic@ == topic
    &&& report.consumer_group is None
    &&& report.current_position matches Some(p) && p@ == "latest"@
    &&& report.events_processed == 0
    &&& report.events_failed == 0
    &&& report.lag == Some(0u64)
    &&& report.avg_processing_time_ms == Some(10u64)
    &&& report.health == SubscriptionHealth::Healthy
}

/// The error for a subscription id that the table does not hold.
pub open spec fn unknown_subscription(id: Seq<char>) -> ErrorView {
    ErrorView::NotFound("subscription"@, id)
}

impl SubscriptionRegistry {
    #[verifier::type_invariant]
    spec fn inv(self) -> bool {
        ids_distinct(self.entries@)
    }

    /// An empty table.
    pub fn new() -> (r: SubscriptionRegistry)
        ensures
            r@ == Map::<Seq<char>, ActiveSubscription>::empty(),
    {
        SubscriptionRegistry { entries: Vec::new() }
    }

    /// The number of active subscriptions.
    pub fn len(&self) -> (n: usize)
        ensures
            self@.dom().finite(),
            n == self@.len(),
    {
        proof {
            use_type_invariant(self);
            lemma_table_finite(self.entries@);
        }
        self.entries.len()
    }

    fn position(&self, id: &str) -> (r: Option<usize>)
        ensures
            match r {
                Some(i) => i < self.entries@.len() && self.entries@[i as int].subscription_id@ == id@,
                None => forall|j: int|
                    0 <= j < self.entries@.len() ==> #[trigger] self.entries@[j].subscription_id@
                        != id@,
            },
    {
        let key = String::from_str(id);
        let mut i: usize = 0;
        while i < self.entries.len()
            invariant
                i <= self.entries@.len(),
                key@ == id@,
                forall|j: int| 0 <= j < i ==> #[trigger] self.entries@[j].subscription_id@ != id@,
            decreases self.entries@.len() - i,
        {
            if self.entries[i].subscription_id == key {
                return Some(i);
            }
            i = i + 1;
        }
        None
    }

    /// Whether `id` names an active subscription.
    pub fn contains(&self, id: &str) -> (b: bool)
        ensures
            b == self@.contains_key(id@),
    {
        proof {
            lemma_table_contains(self.entries@, id@);
        }
        self.position(id).is_some()
    }

    /// Records `subscription` under its id, replacing any entry with that id.
    pub fn register(&mut self, subscription: ActiveSubscription)
        ensures
            final(self)@ == old(self)@.insert(subscription.subscription_id@, subscription),
    {
        proof {
            use_type_invariant(&*self);
        }
        let found = self.position(subscription.subscription_id.as_str());
        let mut entries = Vec::new();
        std::mem::swap(&mut entries, &mut self.entries);
        match found {
            Some(i) => {
                proof {
                    lemma_table_update(entries@, i as int, subscription);
                }
                entries.set(i, subscription);
            },
            None => {
                proof {
                    assert(entries@.push(subscription).drop_last() =~= entries@);
                    let s = entries@.push(subscription);
                    assert forall|a: int, b: int| 0 <= a < b < s.len() implies #[trigger] s[a].subscription_id@
                        != #[trigger] s[b].subscription_id@ by {
                        if b == s.len() - 1 {
                            assert(s[a] == entries@[a]);
                        } else {
                            assert(s[a] == entries@[a]);
                            assert(s[b] == entries@[b]);
                        }
                    }
                }
                entries.push(subscription);
            },
        }
        self.entries = entries;
    }

    /// Takes the subscription `id` out of the table, if it is there.
    pub fn remove(&mut self, id: &str) -> (r: Option<ActiveSubscription>)
        ensures
            match r {
                Some(s) => old(self)@.contains_key(id@) && s == old(self)@[id@] && s.subscription_id@
                    == id@ && final(self)@ == old(self)@.remove(id@),
                None => !old(self)@.contains_key(id@) && final(self)@ == old(self)@,
            },
    {
        proof {
            use_type_invariant(&*self);
            lemma_table_contains(self.entries@, id@);
        }
        match self.position(id) {
            Some(i) => {
                proof {
                    lemma_table_index(self.entries@, i as int);
                    lemma_table_remove(self.entries@, i as int);
                }
                let mut entries = Vec::new();
                std::mem::swap(&mut entries, &mut self.entries);
                let removed = entries.remove(i);
                self.entries = entries;
                Some(removed)
            },
            None => None,
        }
    }

    /// Ends the subscription `id`: it leaves the table, and its entry is
    /// handed back so that the caller wakes that subscription's listener
    /// through the entry's `shutdown_tx`. An id that the table does not hold
    /// is an error, and the table is left as it was.
    pub fn unsubscribe(&mut self, id: &str) -> (r: Result<ActiveSubscription, PubSubError>)
        ensures
            old(self)@.contains_key(id@) ==> (r matches Ok(s) && s == old(self)@[id@]
                && s.subscription_id@ == id@) && final(self)@ == old(self)@.remove(id@),
            !old(self)@.contains_key(id@) ==> final(self)@ == old(self)@ && (r matches Err(e) && e@
                == unknown_subscription(id@)),
    {
        match self.remove(id) {
            Some(subscription) => Ok(subscription),
            None => Err(PubSubError::not_found("subscription", id)),
        }
    }

    /// The status of the subscription `id`, or an error when the table does
    /// not hold it.
    pub fn status(&self, id: &str) -> (r: Result<SubscriptionReport, PubSubError>)
        ensures
            self@.contains_key(id@) ==> (r matches Ok(report) && reports(report, id@, self@[id@].topic@)),
            !self@.contains_key(id@) ==> (r matches Err(e) && e@ == unknown_subscription(id@)),
    {
        proof {
            use_type_invariant(self);
            lemma_table_contains(self.entries@, id@);
        }
        match self.position(id) {
            Some(i) => {
                proof {
                    lemma_table_index(self.entries@, i as int);
                }
                Ok(
                    SubscriptionReport {
                        subscription_id: String::from_str(id),
                        state: SubscriptionState::Active,
                        topic: self.entries[i].topic.clone(),
                        consumer_group: None,
                        current_position: Some(String::from_str("latest")),
                        events_processed: 0,
                        events_failed: 0,
                        lag: Some(0),
                        avg_processing_time_ms: Some(10),
                        health: SubscriptionHealth::Healthy,
                    },
                )
            },
            None => Err(PubSubError::not_found("subscription", id)),
        }
    }

    /// Pausing is accepted for any id and changes nothing: Redis PubSub has
    /// no pause.
    pub fn pause_subscription(&self, id: &str) -> (r: Result<(), PubSubError>)
        ensures
            r is Ok,
    {
        Ok(())
    }

    /// Resuming is accepted for any id and changes nothing: Redis PubSub has
    /// no pause.
    pub fn resume_subscription(&self, id: &str) -> (r: Result<(), PubSubError>)
        ensures
            r is Ok,
    {
        Ok(())
    }
}

} // verus!
