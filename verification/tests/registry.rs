use portman::registry::Registry;

#[test]
fn new_registry_is_empty() {
    let reg = Registry::new();
    assert_eq!(reg.len(), 0);
    assert!(!reg.contains(9000));
    assert!(reg.ports().is_empty());
}

#[test]
fn port_appears_at_most_once() {
    let mut reg = Registry::new();
    reg.observe_connection(9000);
    reg.observe_connection(9000);
    reg.observe_connection(9000);
    assert_eq!(reg.len(), 1);
    assert!(reg.contains(9000));
    assert_eq!(reg.ports(), vec![9000]);
}

#[test]
fn distinct_ports_all_registered_exactly_once() {
    let mut reg = Registry::new();
    let ports = [9000u16, 9001, 9002, 9003, 9004];
    // Several connections per port, interleaved, as concurrent accept loops
    // would produce once serialized by the registry's lock.
    for _ in 0..3 {
        for &p in &ports {
            reg.observe_connection(p);
        }
    }
    assert_eq!(reg.len(), ports.len());
    for &p in &ports {
        assert!(reg.contains(p));
    }
    assert_eq!(reg.ports(), ports.to_vec());
}

#[test]
fn deregister_removes_only_that_port() {
    let mut reg = Registry::new();
    reg.observe_connection(9000);
    reg.observe_connection(9001);
    reg.observe_connection(9002);
    reg.deregister(9001);
    assert_eq!(reg.len(), 2);
    assert!(!reg.contains(9001));
    assert!(reg.contains(9000));
    assert!(reg.contains(9002));
    assert_eq!(reg.ports(), vec![9000, 9002]);
}

#[test]
fn deregister_of_absent_port_is_a_no_op() {
    let mut reg = Registry::new();
    reg.observe_connection(9000);
    reg.deregister(9999);
    assert_eq!(reg.len(), 1);
    assert!(reg.contains(9000));
    assert_eq!(reg.ports(), vec![9000]);
}

#[test]
fn ports_keep_first_connection_order() {
    let mut reg = Registry::new();
    reg.observe_connection(9002);
    reg.observe_connection(9000);
    reg.observe_connection(9001);
    reg.observe_connection(9000);
    assert_eq!(reg.ports(), vec![9002, 9000, 9001]);
}
