use crate::block::Block;
use crate::queue::{pop_front, pop_model, push_model, queue_capacity, queue_contents, RelayQueue};
use vstd::prelude::*;

verus! {

/// The capture producer's work for one callback: copy the captured samples
/// into an owned block and try to enqueue it. On a full queue the new block
/// is dropped so that the capture thread never stalls; the result reports
/// the drop so a caller can log it.
pub fn produce(q: &mut RelayQueue, data: &[u32]) -> (accepted: bool)
    ensures
        queue_capacity(*final(q)) == queue_capacity(*old(q)),
        accepted == (queue_contents(*old(q)).len() < queue_capacity(*old(q))),
        queue_contents(*final(q)) == push_model(
            queue_contents(*old(q)),
            queue_capacity(*old(q)),
            data@,
        ),
{
    let b = Block::from_samples(data);
    q.try_push(b)
}

/// The playback consumer's work for one callback: try one non-blocking
/// dequeue and fill the output buffer of length M.
/// With a block of length N at the head, positions [0, min(M, N)) get its
/// samples in order and positions [N, M) are zeroed; with an empty queue the
/// whole buffer becomes silence. The buffer's length never changes.
pub fn consume(q: &mut RelayQueue, out: &mut Vec<u32>)
    ensures
        queue_capacity(*final(q)) == queue_capacity(*old(q)),
        final(out)@.len() == old(out)@.len(),
        queue_contents(*final(q)) == pop_model(queue_contents(*old(q))),
        queue_contents(*old(q)).len() == 0 ==> forall|i: int|
            0 <= i < old(out)@.len() ==> final(out)@[i] == 0u32,
        queue_contents(*old(q)).len() > 0 ==> {
            let head = queue_contents(*old(q))[0];
            &&& forall|i: int|
                0 <= i < old(out)@.len() && i < head.len() ==> final(out)@[i] == head[i]
            &&& forall|i: int|
                head.len() <= i < old(out)@.len() ==> final(out)@[i] == 0u32
        },
{
    let m = out.len();
    match q.try_pop() {
        Some(b) => {
            let ghost head = queue_contents(*old(q))[0];
            assert(pop_front(queue_contents(*old(q))) == Some(b@));
            let n = b.len();
            let k = if n < m {
                n
            } else {
                m
            };
            let mut i: usize = 0;
            while i < k
                invariant
                    i <= k,
                    k <= m,
                    k <= n,
                    n == b@.len(),
                    m == out@.len(),
                    b@ == head,
                    forall|j: int| 0 <= j < i ==> out@[j] == head[j],
                decreases k - i,
            {
                let s = b.sample(i);
                out[i] = s;
                i = i + 1;
            }
            let mut j: usize = k;
            while j < m
                invariant
                    k <= j <= m,
                    k <= n,
                    n == b@.len(),
                    m == out@.len(),
                    b@ == head,
                    forall|t: int| 0 <= t < k ==> out@[t] == head[t],
                    forall|t: int| k <= t < j ==> out@[t] == 0u32,
                decreases m - j,
            {
                out[j] = 0u32;
                j = j + 1;
            }
        },
        None => {
            let mut i: usize = 0;
            while i < m
                invariant
                    i <= m,
                    m == out@.len(),
                    forall|j: int| 0 <= j < i ==> out@[j] == 0u32,
                decreases m - i,
            {
                out[i] = 0u32;
                i = i + 1;
            }
        },
    }
}

} // verus!
