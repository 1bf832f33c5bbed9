use concurrent::queues::BlockingPriorityQueue;
use concurrent::queues::BoundedPriorityQueue;
use concurrent::queues::BoundedQueue;
use concurrent::queues::Queue;

#[test]
fn queue_pops_in_push_order() {
    let q: Queue<i32> = Queue::new();
    for v in [10, 20, 30, 40] {
        q.push(v);
    }
    assert_eq!(q.pop(), 10);
    assert_eq!(q.pop(), 20);
    q.push(50);
    assert_eq!(q.pop(), 30);
    assert_eq!(q.pop(), 40);
    assert_eq!(q.pop(), 50);
}

#[test]
fn queue_holds_owned_values() {
    let q: Queue<String> = Queue::new();
    q.push("first".to_string());
    q.push("second".to_string());
    assert_eq!(q.pop(), "first");
    assert_eq!(q.pop(), "second");
}

#[test]
fn priority_queue_pops_largest_first() {
    let q = BlockingPriorityQueue::new();
    for v in [3, 1, 4, 1, 5] {
        q.push(v);
    }
    let popped: Vec<u64> = (0..5).map(|_| q.pop()).collect();
    assert_eq!(popped, vec![5, 4, 3, 1, 1]);
}

#[test]
fn priority_queue_interleaved() {
    let q = BlockingPriorityQueue::new();
    q.push(2);
    q.push(9);
    assert_eq!(q.pop(), 9);
    q.push(7);
    q.push(u64::MAX);
    assert_eq!(q.pop(), u64::MAX);
    assert_eq!(q.pop(), 7);
    assert_eq!(q.pop(), 2);
}

#[test]
fn bounded_queue_fills_to_capacity_and_drains() {
    let q: BoundedQueue<u8> = BoundedQueue::new(2);
    q.push(1);
    q.push(2);
    assert_eq!(q.pop(), 1);
    q.push(3);
    assert_eq!(q.pop(), 2);
    assert_eq!(q.pop(), 3);
}

#[test]
fn bounded_priority_queue_orders() {
    let q = BoundedPriorityQueue::new(3);
    q.push(4);
    q.push(8);
    q.push(6);
    assert_eq!(q.pop(), 8);
    q.push(1);
    assert_eq!(q.pop(), 6);
    assert_eq!(q.pop(), 4);
    assert_eq!(q.pop(), 1);
}

#[test]
fn cloned_handles_share_one_queue() {
    let h1: Queue<i32> = Queue::new();
    let h2 = h1.clone();
    h1.push(1);
    assert_eq!(h2.pop(), 1);
    h2.push(2);
    assert_eq!(h1.pop(), 2);
}

#[test]
fn cloned_bounded_handles_share_one_queue() {
    let h1: BoundedQueue<i32> = BoundedQueue::new(1);
    let h2 = h1.clone();
    h1.push(5);
    assert_eq!(h2.pop(), 5);
    h2.push(6);
    assert_eq!(h1.pop(), 6);
    let pq1 = BoundedPriorityQueue::new(2);
    let pq2 = pq1.clone();
    pq1.push(3);
    pq2.push(9);
    assert_eq!(pq1.pop(), 9);
    assert_eq!(pq2.pop(), 3);
    let u1 = BlockingPriorityQueue::new();
    let u2 = u1.clone();
    u2.push(11);
    assert_eq!(u1.pop(), 11);
}
