use std::collections::HashSet;
use std::ops::RangeInclusive;
use std::sync::{Arc, Mutex};

use castled::server::port::PortManager;

#[test]
fn test_port_manager() {
    let port_range: RangeInclusive<u16> = 2000..=2100;
    let exclude_ports = vec![2010, 2020];
    let len = port_range.clone().count() - exclude_ports.len();
    let mut port_manager = PortManager::new(port_range, exclude_ports.clone());

    for _ in 0..10000 {
        let port = port_manager.get();
        assert!(port.is_some());
        // the port goes back to the pool
        port_manager.release(port.unwrap());
    }

    let mut ports: HashSet<u16> = HashSet::new();
    for _ in 0..1000 {
        let port = port_manager.get();
        if port.is_none() {
            break;
        }
        let port = port.unwrap();
        ports.insert(*port);
        port_manager.release(port);
    }
    assert_eq!(ports.len(), len);
    assert!(!ports.contains(&2010));
    assert!(!ports.contains(&2020));
}

#[test]
fn port_pool_is_exhausted_after_taking_every_port() {
    let mut port_manager = PortManager::new(3000..=3011, vec![3010]);
    let mut taken = Vec::new();
    for _ in 0..11 {
        taken.push(port_manager.get().expect("a free port"));
    }
    assert!(port_manager.get().is_none());
    let distinct: HashSet<u16> = taken.iter().map(|a| a.port()).collect();
    assert_eq!(distinct.len(), 11);
    assert!(!distinct.contains(&3010));
    // a released port can be taken again, and only that one
    let first = taken.remove(0);
    let port = first.port();
    port_manager.release(first);
    let again = port_manager.get().expect("the released port");
    assert_eq!(again.port(), port);
    assert!(port_manager.get().is_none());
}

#[test]
fn allow_checks_range_and_exclusions() {
    let port_manager = PortManager::new(3000..=3011, vec![3010]);
    assert!(port_manager.allow(3000));
    assert!(port_manager.allow(3011));
    assert!(!port_manager.allow(2999));
    assert!(!port_manager.allow(3012));
    assert!(!port_manager.allow(3010));
}

#[test]
fn take_refuses_a_port_in_use_until_released() {
    let mut port_manager = PortManager::new(3000..=3011, vec![3010]);
    let a = port_manager.take(3005).expect("free");
    assert_eq!(*a, 3005);
    assert!(port_manager.take(3005).is_none());
    assert!(port_manager.take(3010).is_none());
    port_manager.release(a);
    assert!(port_manager.take(3005).is_some());
}

#[test]
fn an_unavailable_port_does_not_return() {
    let mut port_manager = PortManager::new(4000..=4000, vec![]);
    let mut a = port_manager.get().expect("the only port");
    a.unavailable();
    port_manager.release(a);
    assert!(port_manager.get().is_none());
    assert!(port_manager.take(4000).is_none());
}

#[test]
fn random_ports_vary() {
    let mut port_manager = PortManager::new(3000..=3011, vec![3010]);
    let mut ports = HashSet::new();
    for _ in 0..100 {
        let a = port_manager.get().unwrap();
        ports.insert(*a);
        port_manager.release(a);
    }
    assert!(ports.len() > 1);
}

#[test]
fn a_range_iterated_to_its_end_gives_no_port() {
    let mut range = 4000..=4002;
    for _ in range.by_ref() {}
    let mut pm = PortManager::new(range, vec![]);
    // iterating moved the start up to the end.
    assert!(pm.allow(4002));
    assert!(pm.take(4002).is_none());
    assert!(pm.get().is_none());
}

/// The free ports of a shared manager, counted by taking and giving back
/// every one of them.
fn count_free(pm: &Arc<Mutex<PortManager>>) -> usize {
    let mut guard = pm.lock().unwrap();
    let mut held = Vec::new();
    while let Some(a) = guard.get() {
        held.push(a);
    }
    let n = held.len();
    for a in held {
        guard.release(a);
    }
    n
}

#[test]
fn test_it_shares_same_memory() {
    let port_range: RangeInclusive<u16> = 3000..=3011;
    let exclude_ports = vec![3010];
    let len = port_range.clone().count() - exclude_ports.len();
    let port_manager = Arc::new(Mutex::new(PortManager::new(port_range, exclude_ports.clone())));
    let port_manager2 = Arc::clone(&port_manager);

    let _p1 = port_manager.lock().unwrap().get();
    let _p2 = port_manager.lock().unwrap().get();
    let _p3 = port_manager.lock().unwrap().get();
    let _p4 = port_manager2.lock().unwrap().get();
    let _p5 = port_manager2.lock().unwrap().get();

    assert_eq!(count_free(&port_manager), len - 5);
    assert_eq!(count_free(&port_manager), count_free(&port_manager2));

    let mut ports = vec![];
    for _ in 0..100 {
        let port_manager = Arc::clone(&port_manager);
        let mut guard = port_manager.lock().unwrap();
        let available_port = guard.get().unwrap();
        ports.push(*available_port);
        guard.release(available_port);
    }
    assert!(ports.into_iter().collect::<HashSet<_>>().len() > 1);

    for _ in 0..5 {
        port_manager.lock().unwrap().get();
    }
}

#[test]
fn a_new_pool_holds_every_allowed_port() {
    let mut pm = PortManager::new(3000..=5000, vec![3010]);
    let mut seen = HashSet::new();
    while let Some(a) = pm.get() {
        assert!(a.port() != 3010 && (3000..=5000).contains(&a.port()));
        assert!(seen.insert(a.port()));
    }
    assert_eq!(seen.len(), 2000);
}
