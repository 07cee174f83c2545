use audio_relay::{Block, RelayQueue};

#[test]
fn fifo_order_preserved() {
    let mut q = RelayQueue::new(10);
    for v in 0u32..3 {
        let b = Block::from_samples(&[v, v + 1]);
        assert!(q.try_push(b));
    }
    for v in 0u32..3 {
        let b = q.try_pop().expect("queue should hold a block");
        assert_eq!(b.samples(), &vec![v, v + 1]);
    }
    assert!(q.try_pop().is_none());
}

#[test]
fn bounded_capacity_drops_newest() {
    let mut q = RelayQueue::new(3);
    for v in 0u32..5 {
        let accepted = q.try_push(Block::from_samples(&[v]));
        assert_eq!(accepted, v < 3);
        assert!(q.len() <= 3);
    }
    assert_eq!(q.len(), 3);
    // the three blocks that arrived while there was room are retained;
    // the two that arrived once the queue was full are gone
    for v in 0u32..3 {
        let b = q.try_pop().expect("queue should hold a block");
        assert_eq!(b.samples(), &vec![v]);
    }
    assert!(q.try_pop().is_none());
}

#[test]
fn full_and_empty_answer_at_once() {
    let mut q = RelayQueue::new(1);
    assert!(q.try_push(Block::silence(4)));
    // try-once on a full queue: refused immediately, nothing blocks
    assert!(!q.try_push(Block::silence(4)));
    assert_eq!(q.len(), 1);
    let b = q.try_pop().expect("queue should hold a block");
    assert_eq!(b.len(), 4);
    // try-once on an empty queue: None immediately, nothing blocks
    assert!(q.try_pop().is_none());
    assert_eq!(q.len(), 0);
}

#[test]
fn interleaved_stress_keeps_invariants() {
    let capacity: usize = 4;
    let mut q = RelayQueue::new(capacity);
    let mut model: Vec<u32> = Vec::new();
    let mut next: u32 = 0;
    for step in 0u32..2000 {
        // a fixed but irregular interleaving of pushes and pops
        if step % 7 < 4 {
            let accepted = q.try_push(Block::from_samples(&[next]));
            assert_eq!(accepted, model.len() < capacity);
            if accepted {
                model.push(next);
            }
            next += 1;
        } else {
            match q.try_pop() {
                Some(b) => {
                    assert!(!model.is_empty());
                    let expected = model.remove(0);
                    assert_eq!(b.samples(), &vec![expected]);
                }
                None => assert!(model.is_empty()),
            }
        }
        assert_eq!(q.len(), model.len());
        assert!(q.len() <= capacity);
    }
}
