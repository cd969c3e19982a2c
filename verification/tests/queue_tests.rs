use x11_alternate_focus::rqueue::Queue;

#[test]
fn drain_resolves_by_cookie_identity_not_order() {
    let mut q = Queue::new();
    q.add(10);
    q.add(20);
    q.add(30);
    assert!(q.contains(20));

    // The middle request's reply arrives first: only it resolves.
    let ready = vec![20u64, 99];
    let resolved = q.process_queue(&ready);
    assert_eq!(resolved, vec![20]);
    assert!(!q.contains(20));
    assert!(q.contains(10));
    assert!(q.contains(30));
}

#[test]
fn no_request_resolves_twice() {
    let mut q = Queue::new();
    q.add(10);
    q.add(20);

    let ready = vec![20u64];
    assert_eq!(q.process_queue(&ready), vec![20]);
    // A later drain sees the same reply cookie: the request is gone, so
    // nothing resolves a second time.
    assert_eq!(q.process_queue(&ready), Vec::<u64>::new());
    assert!(q.contains(10));
}

#[test]
fn unmatched_requests_stay_queued_in_order() {
    let mut q = Queue::new();
    q.add(1);
    q.add(2);
    q.add(3);
    q.add(4);

    let resolved = q.process_queue(&vec![3u64, 1]);
    assert_eq!(resolved, vec![1, 3]);

    // The rest wait, in registration order, for the next wake.
    let rest = q.take();
    assert_eq!(rest, vec![2, 4]);
}

#[test]
fn termination_hands_out_every_outstanding_request() {
    let mut q = Queue::new();
    q.add(7);
    q.add(8);
    q.add(9);
    assert_eq!(q.process_queue(&vec![8u64]), vec![8]);

    // Connection termination: every still-pending request is handed out
    // for error resolution; none remains queued.
    let failed = q.take();
    assert_eq!(failed, vec![7, 9]);
    assert!(!q.contains(7));
    assert!(!q.contains(9));
    assert_eq!(q.process_queue(&vec![7u64, 9]), Vec::<u64>::new());
    assert_eq!(q.take(), Vec::<u64>::new());
}

#[test]
fn empty_drain_resolves_nothing() {
    let mut q = Queue::new();
    assert_eq!(q.process_queue(&vec![5u64]), Vec::<u64>::new());
    q.add(5);
    assert_eq!(q.process_queue(&Vec::new()), Vec::<u64>::new());
    assert!(q.contains(5));
}
