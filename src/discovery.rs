use vstd::prelude::*;
use crate::cache::{pairs_hold, ServiceCache};
use crate::error::{check_store_call, error_for, RegistryError, StoreFault, StoreOp};
use crate::status::LifecycleStatus;

verus! {

/// A change delivered by the watch stream, in the store's order.
#[derive(Debug)]
pub enum WatchEvent {
    Put { key: String, value: String },
    Delete { key: String },
}

pub type ServiceMap = Map<Seq<char>, Seq<char>>;

/// What a discoverer is, seen from outside: its status and its cached services.
pub type DiscoveryView = (LifecycleStatus, ServiceMap);

pub open spec fn event_key(ev: WatchEvent) -> Seq<char> {
    match ev {
        WatchEvent::Put { key, .. } => key@,
        WatchEvent::Delete { key } => key@,
    }
}

/// The effect of one event on a cache.
pub open spec fn apply_spec(m: ServiceMap, ev: WatchEvent) -> ServiceMap {
    match ev {
        WatchEvent::Put { key, value } => m.insert(key@, value@),
        WatchEvent::Delete { key } => m.remove(key@),
    }
}

/// The effect of a sequence of events applied in order.
pub open spec fn apply_all(m: ServiceMap, evs: Seq<WatchEvent>) -> ServiceMap
    decreases evs.len(),
{
    if evs.len() == 0 {
        m
    } else {
        apply_spec(apply_all(m, evs.drop_last()), evs.last())
    }
}

/// The cache `m` shows the effect of `ev`.
pub open spec fn reflects(m: ServiceMap, ev: WatchEvent) -> bool {
    match ev {
        WatchEvent::Put { key, value } => m.contains_key(key@) && m[key@] == value@,
        WatchEvent::Delete { key } => !m.contains_key(key@),
    }
}

/// One event handled by a discoverer: the next state, and the event handed to
/// the callbacks, if any. A stopped discoverer ignores events.
pub open spec fn step(v: DiscoveryView, ev: WatchEvent) -> (DiscoveryView, Option<WatchEvent>) {
    if v.0 == LifecycleStatus::Active {
        ((v.0, apply_spec(v.1, ev)), Some(ev))
    } else {
        (v, None)
    }
}

/// A sequence of events handled one by one: the final state, and the events
/// handed to the callbacks, in order.
pub open spec fn run(v: DiscoveryView, evs: Seq<WatchEvent>) -> (DiscoveryView, Seq<WatchEvent>)
    decreases evs.len(),
{
    if evs.len() == 0 {
        (v, Seq::empty())
    } else {
        let (s, ns) = run(v, evs.drop_last());
        let (s2, n) = step(s, evs.last());
        match n {
            Some(e) => (s2, ns.push(e)),
            None => (s2, ns),
        }
    }
}

/// The state after disposal: stopped, with an empty cache.
pub open spec fn disposed(v: DiscoveryView) -> DiscoveryView {
    (LifecycleStatus::Stopped, Map::empty())
}

/// What disposal reports: success the first time, `ShutdownError` after that.
pub open spec fn dispose_result(status: LifecycleStatus) -> Result<(), RegistryError> {
    if status == LifecycleStatus::Active {
        Ok(())
    } else {
        Err(RegistryError::ShutdownError)
    }
}

/// The put events that load the pairs of an initial read, in their order.
pub open spec fn puts_of(s: Seq<(String, String)>) -> Seq<WatchEvent> {
    s.map_values(|p: (String, String)| WatchEvent::Put { key: p.0, value: p.1 })
}

pub open spec fn distinct_keys(s: Seq<(String, String)>) -> bool {
    forall|i: int, j: int| 0 <= i < j < s.len() ==> s[i].0@ != s[j].0@
}

/// The discovery side of the client: lifecycle status and local cache.
pub struct Discoverer {
    status: LifecycleStatus,
    cache: ServiceCache,
}

impl View for Discoverer {
    type V = DiscoveryView;

    closed spec fn view(&self) -> DiscoveryView {
        (self.status, self.cache@)
    }
}

impl Discoverer {
    /// The cache is well formed, and empty once the discoverer is stopped.
    pub closed spec fn wf(&self) -> bool {
        &&& self.cache.wf()
        &&& self.status == LifecycleStatus::Stopped ==> self.cache@ == Map::<Seq<char>, Seq<char>>::empty()
    }

    pub fn new() -> (r: Discoverer)
        ensures
            r.wf(),
            r@ == (LifecycleStatus::Active, Map::<Seq<char>, Seq<char>>::empty()),
    {
        Discoverer { status: LifecycleStatus::new(), cache: ServiceCache::new() }
    }

    pub fn status(&self) -> (r: LifecycleStatus)
        ensures
            r == self@.0,
    {
        self.status
    }

    /// The prefix to read and watch; fails with `ConnectionError` once disposed,
    /// since the connection is closed then.
    pub fn start(&self, key_prefix: String) -> (r: Result<String, RegistryError>)
        ensures
            self@.0 == LifecycleStatus::Active ==> (r matches Ok(p) && p@
                == crate::config::normalized_prefix(key_prefix@)),
            self@.0 == LifecycleStatus::Stopped ==> r == Err::<String, RegistryError>(
                RegistryError::ConnectionError,
            ),
    {
        if self.status.is_active() {
            Ok(crate::config::normalize_prefix(key_prefix))
        } else {
            Err(RegistryError::ConnectionError)
        }
    }

    /// Loads the outcome of the initial read into the cache. On success returns
    /// the put events to hand to the callbacks, one per pair, in the order read;
    /// a failed read changes nothing.
    pub fn load_initial(&mut self, read: Result<Vec<(String, String)>, StoreFault>) -> (r: Result<
        Vec<WatchEvent>,
        RegistryError,
    >)
        requires
            old(self).wf(),
        ensures
            final(self).wf(),
            match read {
                Err(f) => r == Err::<Vec<WatchEvent>, RegistryError>(error_for(StoreOp::Range, f))
                    && final(self)@ == old(self)@,
                Ok(pairs) => if old(self)@.0 == LifecycleStatus::Active {
                    &&& (r matches Ok(evs) && evs@ == puts_of(pairs@))
                    &&& final(self)@ == (old(self)@.0, apply_all(old(self)@.1, puts_of(pairs@)))
                    &&& old(self)@.1 == Map::<Seq<char>, Seq<char>>::empty() && distinct_keys(pairs@)
                        ==> pairs_hold(pairs@, final(self)@.1)
                } else {
                    r == Err::<Vec<WatchEvent>, RegistryError>(RegistryError::ConnectionError)
                        && final(self)@ == old(self)@
                },
            },
    {
        let pairs = match check_store_call(StoreOp::Range, read) {
            Ok(p) => p,
            Err(e) => return Err(e),
        };
        if !self.status.is_active() {
            return Err(RegistryError::ConnectionError);
        }
        let ghost start = self@.1;
        let mut evs: Vec<WatchEvent> = Vec::new();
        let mut i: usize = 0;
        while i < pairs.len()
            invariant
                self.wf(),
                self.status == LifecycleStatus::Active,
                i <= pairs@.len(),
                evs@ == puts_of(pairs@.subrange(0, i as int)),
                self@.1 == apply_all(start, evs@),
            decreases pairs@.len() - i,
        {
            let k = pairs[i].0.clone();
            let v = pairs[i].1.clone();
            let ev = WatchEvent::Put { key: k.clone(), value: v.clone() };
            self.cache.insert(k, v);
            let ghost before = evs@;
            evs.push(ev);
            proof {
                assert(evs@.drop_last() =~= before);
                assert(puts_of(pairs@.subrange(0, i + 1)) =~= puts_of(pairs@.subrange(0, i as int)).push(
                    ev,
                ));
            }
            i = i + 1;
        }
        proof {
            assert(pairs@.subrange(0, pairs@.len() as int) =~= pairs@);
            if start == Map::<Seq<char>, Seq<char>>::empty() && distinct_keys(pairs@) {
                lemma_initial_load(pairs@);
            }
        }
        Ok(evs)
    }

    /// Applies one watch event: the cache changes first, then the event is
    /// returned for the callbacks. A stopped discoverer ignores it.
    pub fn apply_event(&mut self, ev: WatchEvent) -> (r: Option<WatchEvent>)
        requires
            old(self).wf(),
        ensures
            final(self).wf(),
            (final(self)@, r) == step(old(self)@, ev),
    {
        if !self.status.is_active() {
            return None;
        }
        match &ev {
            WatchEvent::Put { key, value } => {
                self.cache.insert(key.clone(), value.clone());
            },
            WatchEvent::Delete { key } => {
                self.cache.remove(key);
            },
        }
        Some(ev)
    }

    /// A copy of the cached services, with distinct keys.
    pub fn snapshot(&self) -> (r: Vec<(String, String)>)
        requires
            self.wf(),
        ensures
            pairs_hold(r@, self@.1),
            self@.0 == LifecycleStatus::Stopped ==> r@.len() == 0,
    {
        let r = self.cache.to_vec();
        proof {
            if r@.len() > 0 {
                assert(self@.1.contains_key(r@[0].0@));
            }
        }
        r
    }

    /// Stops the discoverer and empties its cache. Reports `ShutdownError` when
    /// it was already stopped; the caller closes the connection only on `Ok`.
    pub fn dispose(&mut self) -> (r: Result<(), RegistryError>)
        requires
            old(self).wf(),
        ensures
            final(self).wf(),
            final(self)@ == disposed(old(self)@),
            r == dispose_result(old(self)@.0),
    {
        let was_active = self.status.stop();
        self.cache.clear();
        if was_active {
            Ok(())
        } else {
            Err(RegistryError::ShutdownError)
        }
    }
}

/// Loading the pairs of an initial read, whose keys are distinct, into an empty
/// cache gives a cache that holds exactly those pairs.
pub proof fn lemma_initial_load(pairs: Seq<(String, String)>)
    requires
        distinct_keys(pairs),
    ensures
        pairs_hold(pairs, apply_all(Map::empty(), puts_of(pairs))),
    decreases pairs.len(),
{
    if pairs.len() > 0 {
        let prev = pairs.drop_last();
        let n = pairs.len() - 1;
        assert(puts_of(pairs).drop_last() =~= puts_of(prev));
        lemma_initial_load(prev);
        let pm = apply_all(Map::empty(), puts_of(prev));
        let m = apply_all(Map::empty(), puts_of(pairs));
        assert(m == pm.insert(pairs[n].0@, pairs[n].1@));
        assert forall|i: int| 0 <= i < pairs.len() implies #[trigger] m.contains_key(pairs[i].0@)
            && m[pairs[i].0@] == pairs[i].1@ by {
            if i < n {
                assert(prev[i] == pairs[i]);
                assert(pairs[i].0@ != pairs[n].0@);
            }
        }
        assert forall|k: Seq<char>| #[trigger] m.contains_key(k) implies exists|i: int|
            0 <= i < pairs.len() && pairs[i].0@ == k by {
            if k != pairs[n].0@ {
                let i = choose|i: int| 0 <= i < prev.len() && prev[i].0@ == k;
                assert(pairs[i] == prev[i]);
            }
        }
    }
}

/// `i` is the last event of `evs` on key `k`, and it is a put.
pub open spec fn is_final_put(evs: Seq<WatchEvent>, k: Seq<char>, i: int) -> bool {
    &&& 0 <= i < evs.len()
    &&& evs[i] is Put
    &&& event_key(evs[i]) == k
    &&& forall|j: int| i < j < evs.len() ==> event_key(#[trigger] evs[j]) != k
}

pub open spec fn put_value(ev: WatchEvent) -> Seq<char> {
    match ev {
        WatchEvent::Put { value, .. } => value@,
        WatchEvent::Delete { .. } => Seq::empty(),
    }
}

/// Applying events in order to an empty cache keeps a key exactly when its last
/// event is a put, with that put's value: the last write wins, and a delete
/// leaves the key absent.
pub proof fn lemma_last_write_wins(evs: Seq<WatchEvent>)
    ensures
        forall|k: Seq<char>| #[trigger]
            apply_all(Map::empty(), evs).contains_key(k) <==> exists|i: int| is_final_put(evs, k, i),
        forall|k: Seq<char>, i: int| #[trigger]
            is_final_put(evs, k, i) ==> apply_all(Map::empty(), evs)[k] == put_value(evs[i]),
    decreases evs.len(),
{
    if evs.len() > 0 {
        let prev = evs.drop_last();
        let n = evs.len() - 1;
        let e = evs.last();
        lemma_last_write_wins(prev);
        let pm = apply_all(Map::empty(), prev);
        let m = apply_all(Map::empty(), evs);
        assert(m == apply_spec(pm, e));
        assert forall|k: Seq<char>, i: int| k != event_key(e) implies is_final_put(evs, k, i) == (i < n
            && is_final_put(prev, k, i)) by {
            if is_final_put(evs, k, i) {
                assert(i != n);
                assert(prev[i] == evs[i]);
                assert forall|j: int| i < j < prev.len() implies event_key(#[trigger] prev[j]) != k by {
                    assert(prev[j] == evs[j]);
                }
            }
            if i < n && is_final_put(prev, k, i) {
                assert(prev[i] == evs[i]);
                assert forall|j: int| i < j < evs.len() implies event_key(#[trigger] evs[j]) != k by {
                    if j < n {
                        assert(prev[j] == evs[j]);
                    }
                }
            }
        }
        assert forall|k: Seq<char>| #[trigger] m.contains_key(k) <==> exists|i: int| is_final_put(evs, k, i) by {
            if k == event_key(e) {
                if e is Put {
                    assert(is_final_put(evs, k, n));
                } else {
                    assert forall|i: int| !is_final_put(evs, k, i) by {
                        if 0 <= i < n {
                            assert(event_key(evs[n]) == k);
                        }
                    }
                }
            } else {
                if m.contains_key(k) {
                    let i = choose|i: int| is_final_put(prev, k, i);
                    assert(is_final_put(evs, k, i));
                }
                if exists|i: int| is_final_put(evs, k, i) {
                    let i = choose|i: int| is_final_put(evs, k, i);
                    assert(is_final_put(prev, k, i));
                }
            }
        }
        assert forall|k: Seq<char>, i: int| #[trigger] is_final_put(evs, k, i) implies m[k] == put_value(
            evs[i],
        ) by {
            if k == event_key(e) {
                if i < n {
                    assert(event_key(evs[n]) == k);
                }
                assert(i == n);
            } else {
                assert(is_final_put(prev, k, i));
                assert(prev[i] == evs[i]);
            }
        }
    }
}

/// Each event handed to the callbacks is already visible in the cache.
pub proof fn lemma_cache_before_callback(v: DiscoveryView, ev: WatchEvent)
    ensures
        step(v, ev).1 matches Some(e) ==> (e == ev && reflects(step(v, ev).0.1, e)),
{
}

/// Disposing twice ends in the same state as disposing once, and the second
/// disposal reports `ShutdownError`.
pub proof fn lemma_dispose_twice(v: DiscoveryView)
    ensures
        disposed(disposed(v)) == disposed(v),
        dispose_result(disposed(v).0) == Err::<(), RegistryError>(RegistryError::ShutdownError),
{
}

/// After disposal no event changes the state and none reaches the callbacks.
pub proof fn lemma_disposed_stays_quiet(v: DiscoveryView, evs: Seq<WatchEvent>)
    ensures
        run(disposed(v), evs) == (disposed(v), Seq::<WatchEvent>::empty()),
    decreases evs.len(),
{
    if evs.len() > 0 {
        lemma_disposed_stays_quiet(v, evs.drop_last());
    }
}

} // verus!
