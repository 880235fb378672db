use si_pool_noodle::queue::BoundedQueue;

#[test]
fn queue_is_first_in_first_out() {
    let mut q: BoundedQueue<u32> = BoundedQueue::new(3);
    assert!(q.is_empty());
    assert!(q.push(1).is_ok());
    assert!(q.push(2).is_ok());
    assert!(q.push(3).is_ok());
    assert_eq!(q.len(), 3);
    assert_eq!(q.pop(), Some(1));
    assert_eq!(q.pop(), Some(2));
    assert_eq!(q.pop(), Some(3));
    assert_eq!(q.pop(), None);
}

#[test]
fn full_queue_refuses_push_and_hands_value_back() {
    let mut q: BoundedQueue<u32> = BoundedQueue::new(2);
    assert!(q.push(10).is_ok());
    assert!(q.push(20).is_ok());
    assert_eq!(q.push(30), Err(30));
    assert_eq!(q.len(), 2);
    assert_eq!(q.pop(), Some(10));
    assert!(q.push(30).is_ok());
    assert_eq!(q.pop(), Some(20));
    assert_eq!(q.pop(), Some(30));
}

#[test]
fn empty_queue_pops_nothing() {
    let mut q: BoundedQueue<String> = BoundedQueue::new(1);
    assert!(q.is_empty());
    assert_eq!(q.pop(), None);
    assert!(q.push(String::from("a")).is_ok());
    assert!(!q.is_empty());
    assert_eq!(q.pop(), Some(String::from("a")));
    assert!(q.is_empty());
}
