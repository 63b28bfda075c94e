use http_client::pool::Acquire;
use http_client::pool::Pool;
use http_client::pool::ProbeOutcome;
use http_client::registry::Registry;
use http_client::target::Ip;
use http_client::target::RemoteAddress;

fn addr(n: u32) -> RemoteAddress {
    RemoteAddress { ip: Ip::V4(n), port: 80 }
}

#[test]
fn pool_creates_then_reuses() {
    let mut p = Pool::new(2);
    // Empty pool: first ask creates.
    assert_eq!(p.try_acquire(), Acquire::Create(0));
    let st = p.status();
    assert_eq!((st.size, st.available, st.max_size), (1, 0, 2));
    // Released connections are reused, not replaced.
    assert!(p.release(0));
    assert_eq!(p.try_acquire(), Acquire::Reuse(0));
    let st = p.status();
    assert_eq!((st.size, st.available), (1, 0));
}

#[test]
fn pool_respects_bound_and_wait_changes_nothing() {
    let mut p = Pool::new(2);
    assert_eq!(p.try_acquire(), Acquire::Create(0));
    assert_eq!(p.try_acquire(), Acquire::Create(1));
    let before = p.status();
    // At the bound: the caller must wait, and waiting (or abandoning the
    // wait) leaves the pool exactly as it was.
    assert_eq!(p.try_acquire(), Acquire::Wait);
    let after = p.status();
    assert_eq!(before, after);
    assert_eq!((after.size, after.available), (2, 0));
}

#[test]
fn pool_release_unknown_id_is_refused() {
    let mut p = Pool::new(1);
    assert_eq!(p.try_acquire(), Acquire::Create(0));
    assert!(!p.release(7));
    assert!(p.release(0));
    assert!(!p.release(0));
}

#[test]
fn recycle_healthy_only_when_silent() {
    // A connection whose peer has been silent recycles as healthy; peer
    // activity, a close, or an error makes it unhealthy.
    let mut p = Pool::new(4);
    assert_eq!(p.try_acquire(), Acquire::Create(0));
    assert!(p.recycle_check(0, ProbeOutcome::NoActivity));
    let st = p.status();
    assert_eq!(st.size, 1);

    assert!(!p.recycle_check(0, ProbeOutcome::Closed));
    let st = p.status();
    assert_eq!(st.size, 0);
}

#[test]
fn recycle_discarded_connection_never_served_again() {
    let mut p = Pool::new(2);
    assert_eq!(p.try_acquire(), Acquire::Create(0));
    assert!(p.release(0));
    assert_eq!(p.try_acquire(), Acquire::Reuse(0));
    // The peer closed it: it is discarded, and the next ask creates a
    // fresh connection instead of handing the dead one out.
    assert!(!p.recycle_check(0, ProbeOutcome::ReadError));
    match p.try_acquire() {
        Acquire::Create(id) => assert_ne!(id, 0),
        other => panic!("expected a fresh connection, got {:?}", other),
    }
}

#[test]
fn registry_single_pool_per_address() {
    let mut r = Registry::new();
    let a = addr(1);
    let i = r.get_or_create(a, 3);
    let j = r.get_or_create(a, 3);
    // The race target: one address, one pool, however often it is asked
    // for.
    assert_eq!(i, j);
    let b = addr(2);
    let k = r.get_or_create(b, 3);
    assert_ne!(i, k);
}

#[test]
fn registry_keyed_operations() {
    let mut r = Registry::new();
    let a = addr(9);
    assert_eq!(r.acquire_at(a, 1), Acquire::Create(0));
    assert_eq!(r.acquire_at(a, 1), Acquire::Wait);
    assert!(r.release_at(&a, 0));
    assert_eq!(r.acquire_at(a, 1), Acquire::Reuse(0));
    assert_eq!(r.recycle_at(&a, 0, ProbeOutcome::NoActivity), Some(true));
    assert_eq!(r.recycle_at(&a, 5, ProbeOutcome::NoActivity), None);
    let st = r.status_at(&a).unwrap();
    assert_eq!((st.size, st.available, st.max_size), (1, 0, 1));
    assert!(r.status_at(&addr(8)).is_none());
    assert!(!r.discard_at(&addr(8), 0));
    assert!(r.discard_at(&a, 0));
    let st = r.status_at(&a).unwrap();
    assert_eq!(st.size, 0);
}
