use crate::queue::{pop_front, pop_model, push_model};
use vstd::math::min;
use vstd::prelude::*;

verus! {

/// The contents of a bounded FIFO after pushing each of `blocks` in order,
/// oldest first, with no pops in between.
pub open spec fn push_all(s: Seq<Seq<u32>>, cap: nat, blocks: Seq<Seq<u32>>) -> Seq<Seq<u32>>
    decreases blocks.len(),
{
    if blocks.len() == 0 {
        s
    } else {
        push_all(push_model(s, cap, blocks[0]), cap, blocks.drop_first())
    }
}

/// The contents of a FIFO after popping `n` times.
pub open spec fn pop_n(s: Seq<Seq<u32>>, n: nat) -> Seq<Seq<u32>>
    decreases n,
{
    if n == 0 {
        s
    } else {
        pop_n(pop_model(s), (n - 1) as nat)
    }
}

/// What a run of pushes leaves in the queue: the blocks that arrived while
/// there was room, appended in order; every later one is dropped.
pub proof fn lemma_push_all(s: Seq<Seq<u32>>, cap: nat, blocks: Seq<Seq<u32>>)
    requires
        s.len() <= cap,
    ensures
        push_all(s, cap, blocks) == s + blocks.take(min(blocks.len() as int, cap - s.len())),
    decreases blocks.len(),
{
    if blocks.len() == 0 {
        assert(s + blocks.take(0) =~= s);
    } else {
        let b0 = blocks[0];
        let rest = blocks.drop_first();
        if s.len() < cap {
            lemma_push_all(s.push(b0), cap, rest);
            let k = min(rest.len() as int, cap - s.len() - 1);
            assert(s.push(b0) + rest.take(k) =~= s + blocks.take(k + 1));
        } else {
            lemma_push_all(s, cap, rest);
            assert(s + rest.take(0) =~= s);
            assert(s + blocks.take(0) =~= s);
        }
    }
}

/// Popping `n` times from a queue that holds at least `n` blocks removes
/// exactly the `n` oldest and keeps the rest in order.
pub proof fn lemma_pop_n_skip(s: Seq<Seq<u32>>, n: nat)
    requires
        n <= s.len(),
    ensures
        pop_n(s, n) == s.skip(n as int),
    decreases n,
{
    if n == 0 {
        assert(s.skip(0) =~= s);
    } else {
        lemma_pop_n_skip(s.drop_first(), (n - 1) as nat);
        assert(s.drop_first().skip(n - 1) =~= s.skip(n as int));
    }
}

/// FIFO order: when capacity is never exceeded, pushing a sequence of
/// blocks onto an empty queue retains every one of them, and the i-th pop
/// thereafter yields exactly the i-th block pushed.
pub proof fn lemma_fifo_order(blocks: Seq<Seq<u32>>, cap: nat)
    requires
        blocks.len() <= cap,
    ensures
        push_all(Seq::<Seq<u32>>::empty(), cap, blocks) == blocks,
        forall|i: int|
            0 <= i < blocks.len() ==> pop_front(pop_n(blocks, i as nat)) == Some(blocks[i]),
{
    lemma_push_all(Seq::<Seq<u32>>::empty(), cap, blocks);
    assert(Seq::<Seq<u32>>::empty() + blocks.take(blocks.len() as int) =~= blocks);
    assert forall|i: int|
        0 <= i < blocks.len() implies pop_front(pop_n(blocks, i as nat)) == Some(blocks[i]) by {
        lemma_pop_n_skip(blocks, i as nat);
        assert(blocks.skip(i)[0] == blocks[i]);
    }
}

/// Bounded capacity: pushing `cap + k` blocks (k >= 1) onto an empty queue
/// with no pops in between retains exactly the `cap` oldest blocks; the `k`
/// blocks that arrive once the queue is full are dropped for good; and no
/// prefix of the pushes ever leaves more than `cap` blocks behind.
pub proof fn lemma_bounded_capacity(blocks: Seq<Seq<u32>>, cap: nat, k: nat)
    requires
        k >= 1,
        blocks.len() == cap + k,
    ensures
        push_all(Seq::<Seq<u32>>::empty(), cap, blocks) == blocks.take(cap as int),
        push_all(Seq::<Seq<u32>>::empty(), cap, blocks).len() == cap,
        forall|j: int|
            0 <= j <= blocks.len() ==> #[trigger] push_all(
                Seq::<Seq<u32>>::empty(),
                cap,
                blocks.take(j),
            ).len() <= cap,
{
    lemma_push_all(Seq::<Seq<u32>>::empty(), cap, blocks);
    assert(Seq::<Seq<u32>>::empty() + blocks.take(cap as int) =~= blocks.take(cap as int));
    assert forall|j: int|
        0 <= j <= blocks.len() implies #[trigger] push_all(
        Seq::<Seq<u32>>::empty(),
        cap,
        blocks.take(j),
    ).len() <= cap by {
        lemma_push_all(Seq::<Seq<u32>>::empty(), cap, blocks.take(j));
    }
}

/// One queue operation never breaks the capacity bound: a push onto a queue
/// within its capacity stays within it, and a pop never grows the queue.
pub proof fn lemma_ops_preserve_bound(s: Seq<Seq<u32>>, cap: nat, b: Seq<u32>)
    requires
        s.len() <= cap,
    ensures
        push_model(s, cap, b).len() <= cap,
        pop_model(s).len() <= cap,
{
}

/// Round trip: pushing one block onto an empty queue and popping right away
/// hands back a block equal to the one pushed and leaves the queue empty.
pub proof fn lemma_round_trip(b: Seq<u32>, cap: nat)
    requires
        cap >= 1,
    ensures
        pop_front(push_model(Seq::<Seq<u32>>::empty(), cap, b)) == Some(b),
        pop_model(push_model(Seq::<Seq<u32>>::empty(), cap, b)) == Seq::<Seq<u32>>::empty(),
{
    assert(Seq::<Seq<u32>>::empty().push(b).drop_first() =~= Seq::<Seq<u32>>::empty());
}

} // verus!
