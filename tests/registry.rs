use etcd_svc::cache::ServiceCache;
use etcd_svc::config::{
    normalize_keep_alive, normalize_prefix, normalize_ttl, service_key, RegistrationPlan,
};
use etcd_svc::discovery::{Discoverer, WatchEvent};
use etcd_svc::error::{check_store_call, classify, RegistryError, StoreFault, StoreOp};
use etcd_svc::loops::{after_receive, after_renewal, poll, renewal_due, LoopAction, RenewAction, StreamItem};
use etcd_svc::registrar::Registrar;
use etcd_svc::status::LifecycleStatus;

fn s(x: &str) -> String {
    x.to_string()
}

fn put(k: &str, v: &str) -> WatchEvent {
    WatchEvent::Put { key: s(k), value: s(v) }
}

fn del(k: &str) -> WatchEvent {
    WatchEvent::Delete { key: s(k) }
}

fn sorted(mut v: Vec<(String, String)>) -> Vec<(String, String)> {
    v.sort();
    v
}

#[test]
fn defaults_apply_to_empty_settings() {
    assert_eq!(normalize_prefix(s("")), "/services");
    assert_eq!(normalize_prefix(s("/apps")), "/apps");
    assert_eq!(normalize_ttl(0), 30);
    assert_eq!(normalize_ttl(10), 10);
    assert_eq!(normalize_keep_alive(0), 5);
    assert_eq!(normalize_keep_alive(2), 2);
}

#[test]
fn service_key_joins_with_slashes() {
    assert_eq!(service_key(&s("/services"), &s("id1"), &s("svc1")), "/services/id1/svc1");
    assert_eq!(service_key(&s(""), &s(""), &s("")), "//");
}

#[test]
fn plan_uses_defaults() {
    let p = RegistrationPlan::new(0, 0, s(""), s("id9"), s("svc9"), s("10.0.0.9:1"));
    assert_eq!(p.key, "/services/id9/svc9");
    assert_eq!(p.address, "10.0.0.9:1");
    assert_eq!(p.ttl_sec, 30);
    assert_eq!(p.keep_alive_sec, 5);
}

#[test]
fn every_error_kind_is_reported() {
    assert_eq!(classify(StoreOp::Connect, StoreFault::Rejected), RegistryError::ConnectionError);
    assert_eq!(classify(StoreOp::Grant, StoreFault::Rejected), RegistryError::LeaseError);
    assert_eq!(classify(StoreOp::KeepAlive, StoreFault::Rejected), RegistryError::LeaseError);
    assert_eq!(classify(StoreOp::Put, StoreFault::Rejected), RegistryError::PutError);
    assert_eq!(classify(StoreOp::Range, StoreFault::Rejected), RegistryError::RangeError);
    assert_eq!(classify(StoreOp::Watch, StoreFault::Rejected), RegistryError::WatchError);
    assert_eq!(classify(StoreOp::Close, StoreFault::Rejected), RegistryError::ShutdownError);
    assert_eq!(classify(StoreOp::Put, StoreFault::Unreachable), RegistryError::ConnectionError);
    assert_eq!(classify(StoreOp::Close, StoreFault::Unreachable), RegistryError::ShutdownError);
    assert_eq!(check_store_call(StoreOp::Grant, Ok::<u64, StoreFault>(7)), Ok(7));
}

#[test]
fn register_scenario_writes_key_and_renews() {
    let plan = RegistrationPlan::new(2, 10, s("/services"), s("id1"), s("svc1"), s("10.0.0.1:9000"));
    assert_eq!(plan.key, "/services/id1/svc1");
    assert_eq!(plan.address, "10.0.0.1:9000");
    assert_eq!(plan.ttl_sec, 10);
    let mut reg = Registrar::new();
    let lease = reg.lease_granted(Ok(42)).unwrap();
    assert_eq!(reg.key_written(lease, Ok(())), Ok(()));
    assert_eq!(reg.lease(), Some(42));
    // run the keep-alive sender against a clock for five seconds
    let mut clock: u64 = 0;
    let mut renewals = 0;
    while clock <= 5 {
        match renewal_due(reg.status(), lease) {
            RenewAction::Renew(id) => {
                assert_eq!(id, 42);
                renewals += 1;
                match after_renewal(Ok(()), plan.keep_alive_sec) {
                    RenewAction::Sleep(sec) => clock += sec,
                    other => panic!("unexpected {:?}", other),
                }
            }
            other => panic!("unexpected {:?}", other),
        }
    }
    assert!(renewals >= 2);
}

#[test]
fn registration_failures_spawn_nothing() {
    let mut reg = Registrar::new();
    assert_eq!(reg.lease_granted(Err(StoreFault::Rejected)), Err(RegistryError::LeaseError));
    assert_eq!(reg.lease_granted(Err(StoreFault::Unreachable)), Err(RegistryError::ConnectionError));
    assert_eq!(reg.key_written(5, Err(StoreFault::Rejected)), Err(RegistryError::PutError));
    assert_eq!(reg.lease(), None);
    assert_eq!(reg.dispose(), Ok(()));
    assert_eq!(reg.lease_granted(Ok(1)), Err(RegistryError::ConnectionError));
    assert_eq!(reg.key_written(1, Ok(())), Err(RegistryError::ConnectionError));
}

#[test]
fn renewal_failure_stops_sender() {
    assert_eq!(after_renewal(Err(StoreFault::Unreachable), 5), RenewAction::Exit);
    assert_eq!(after_renewal(Ok(()), 5), RenewAction::Sleep(5));
    assert_eq!(renewal_due(LifecycleStatus::Stopped, 3), RenewAction::Exit);
}

#[test]
fn registrar_dispose_twice() {
    let mut reg = Registrar::new();
    assert_eq!(reg.dispose(), Ok(()));
    assert_eq!(reg.dispose(), Err(RegistryError::ShutdownError));
    assert_eq!(reg.status(), LifecycleStatus::Stopped);
}

#[test]
fn discovery_scenario_initial_load() {
    let mut d = Discoverer::new();
    let prefix = d.start(s("")).unwrap();
    assert_eq!(prefix, "/services");
    let evs = d
        .load_initial(Ok(vec![(s("/services/id2/svc2"), s("10.0.0.2:9000"))]))
        .unwrap();
    assert_eq!(evs.len(), 1);
    match &evs[0] {
        WatchEvent::Put { key, value } => {
            assert_eq!(key, "/services/id2/svc2");
            assert_eq!(value, "10.0.0.2:9000");
        }
        other => panic!("unexpected {:?}", other),
    }
    assert_eq!(d.snapshot(), vec![(s("/services/id2/svc2"), s("10.0.0.2:9000"))]);
}

#[test]
fn initial_read_failure_reports_range_error() {
    let mut d = Discoverer::new();
    assert_eq!(d.load_initial(Err(StoreFault::Rejected)).unwrap_err(), RegistryError::RangeError);
    assert_eq!(
        d.load_initial(Err(StoreFault::Unreachable)).unwrap_err(),
        RegistryError::ConnectionError
    );
    assert!(d.snapshot().is_empty());
}

#[test]
fn snapshot_matches_initial_read() {
    let mut d = Discoverer::new();
    let read = vec![(s("/p/a/x"), s("1")), (s("/p/b/y"), s("2")), (s("/p/c/z"), s("3"))];
    d.load_initial(Ok(read.clone())).unwrap();
    assert_eq!(sorted(d.snapshot()), sorted(read));
}

#[test]
fn discovery_scenario_delete() {
    let mut d = Discoverer::new();
    d.load_initial(Ok(vec![(s("/services/id2/svc2"), s("10.0.0.2:9000"))])).unwrap();
    let n = d.apply_event(del("/services/id2/svc2"));
    match n {
        Some(WatchEvent::Delete { key }) => assert_eq!(key, "/services/id2/svc2"),
        other => panic!("unexpected {:?}", other),
    }
    assert!(d.snapshot().is_empty());
}

#[test]
fn discovery_scenario_stream_error() {
    let mut d = Discoverer::new();
    d.apply_event(put("/services/a/s", "1"));
    assert_eq!(poll(d.status()), LoopAction::Continue);
    assert_eq!(after_receive(StreamItem::Failure), LoopAction::Exit);
    assert_eq!(after_receive(StreamItem::End), LoopAction::Exit);
    assert_eq!(after_receive(StreamItem::Message), LoopAction::Continue);
    assert_eq!(d.snapshot(), vec![(s("/services/a/s"), s("1"))]);
}

#[test]
fn events_apply_last_write_wins() {
    let mut d = Discoverer::new();
    let evs = vec![
        put("k1", "a"),
        put("k2", "b"),
        put("k1", "c"),
        del("k2"),
        del("k3"),
        put("k3", "d"),
        del("k3"),
        put("k3", "e"),
    ];
    for ev in evs {
        assert!(d.apply_event(ev).is_some());
    }
    assert_eq!(sorted(d.snapshot()), vec![(s("k1"), s("c")), (s("k3"), s("e"))]);
}

#[test]
fn cache_reflects_event_before_it_is_handed_out() {
    let mut d = Discoverer::new();
    let n = d.apply_event(put("k", "v1")).unwrap();
    assert!(matches!(n, WatchEvent::Put { .. }));
    assert_eq!(d.snapshot(), vec![(s("k"), s("v1"))]);
    let n = d.apply_event(put("k", "v2")).unwrap();
    assert!(matches!(n, WatchEvent::Put { .. }));
    assert_eq!(d.snapshot(), vec![(s("k"), s("v2"))]);
    d.apply_event(del("k")).unwrap();
    assert!(d.snapshot().is_empty());
}

#[test]
fn discoverer_dispose_twice() {
    let mut d = Discoverer::new();
    d.apply_event(put("k", "v"));
    assert_eq!(d.dispose(), Ok(()));
    assert!(d.snapshot().is_empty());
    assert_eq!(d.dispose(), Err(RegistryError::ShutdownError));
    assert_eq!(d.status(), LifecycleStatus::Stopped);
}

#[test]
fn disposed_discoverer_is_quiet() {
    let mut d = Discoverer::new();
    d.dispose().unwrap();
    assert!(d.apply_event(put("k", "v")).is_none());
    assert!(d.apply_event(del("k")).is_none());
    assert!(d.snapshot().is_empty());
    assert_eq!(poll(d.status()), LoopAction::Exit);
    assert_eq!(d.start(s("/p")), Err(RegistryError::ConnectionError));
    assert_eq!(
        d.load_initial(Ok(vec![(s("a"), s("b"))])).unwrap_err(),
        RegistryError::ConnectionError
    );
}

#[test]
fn status_stops_once() {
    let mut st = LifecycleStatus::new();
    assert!(st.is_active());
    assert!(st.stop());
    assert!(!st.is_active());
    assert!(!st.stop());
}

#[test]
fn cache_insert_overwrite_remove_clear() {
    let mut c = ServiceCache::new();
    c.insert(s("a"), s("1"));
    c.insert(s("b"), s("2"));
    c.insert(s("a"), s("3"));
    assert_eq!(sorted(c.to_vec()), vec![(s("a"), s("3")), (s("b"), s("2"))]);
    c.remove(&s("zz"));
    c.remove(&s("a"));
    assert_eq!(c.to_vec(), vec![(s("b"), s("2"))]);
    c.clear();
    assert!(c.to_vec().is_empty());
}
