use wgsocks::ports::PortPool;

#[test]
fn pool_holds_every_local_port_once() {
    let mut pool = PortPool::new();
    let mut ports = vec![];
    while let Some(port) = pool.take() {
        ports.push(port);
    }
    let ascending: Vec<u16> = (49152..65535).collect();
    assert_ne!(ports, ascending);
    ports.sort();
    assert_eq!(ports, ascending);
}

#[test]
fn pool_hands_out_in_order() {
    let mut pool = PortPool::from_order(vec![50000, 60000, 55555]);
    assert_eq!(pool.next(), Some(50000));
    assert_eq!(pool.take(), Some(50000));
    assert_eq!(pool.take(), Some(60000));
    pool.give_back(50000);
    assert_eq!(pool.take(), Some(55555));
    assert_eq!(pool.take(), Some(50000));
    assert!(pool.is_empty());
    assert_eq!(pool.next(), None);
    assert_eq!(pool.take(), None);
}
