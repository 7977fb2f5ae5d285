use chip8::router::{Queue, Router};

#[test]
fn queue_keeps_order_and_empties() {
    let mut q: Queue<u32> = Queue::new();
    q.push(1);
    q.push(2);
    q.push(3);
    assert_eq!(q.remove_all(), vec![1, 2, 3]);
    assert!(q.remove_all().is_empty());
}

#[test]
fn router_forwards_whole_queues_in_order() {
    let mut a: Router<u32> = Router::new();
    let mut b: Router<u32> = Router::new();
    a.send_outbound(1);
    a.send_outbound(2);
    a.send_inbound(9);
    b.send_inbound(0);
    a.forward_inbound(&mut b);
    assert_eq!(b.consume_all_inbound(), vec![0, 1, 2]);
    assert!(a.consume_all_outbound().is_empty());
    assert_eq!(a.consume_all_inbound(), vec![9]);
    a.send_outbound(5);
    b.send_outbound(4);
    a.forward_outbound(&mut b);
    assert_eq!(b.consume_all_outbound(), vec![4, 5]);
}
