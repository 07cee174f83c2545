use crate::block::Block;
use vstd::prelude::*;

verus! {

/// What a bounded FIFO holds after one push: the block is appended iff the
/// queue has room, and dropped otherwise.
pub open spec fn push_model(s: Seq<Seq<u32>>, cap: nat, b: Seq<u32>) -> Seq<Seq<u32>> {
    if s.len() < cap {
        s.push(b)
    } else {
        s
    }
}

/// What a bounded FIFO holds after one pop: the oldest block leaves iff one
/// is there.
pub open spec fn pop_model(s: Seq<Seq<u32>>) -> Seq<Seq<u32>> {
    if s.len() == 0 {
        s
    } else {
        s.drop_first()
    }
}

/// What one pop hands back: the oldest block iff one is there.
pub open spec fn pop_front(s: Seq<Seq<u32>>) -> Option<Seq<u32>> {
    if s.len() == 0 {
        None
    } else {
        Some(s[0])
    }
}

/// The blocks the relay queue holds, oldest first.
pub uninterp spec fn queue_contents(q: RelayQueue) -> Seq<Seq<u32>>;

/// The fixed capacity the relay queue was created with.
pub uninterp spec fn queue_capacity(q: RelayQueue) -> nat;

/// A fixed-capacity FIFO of audio blocks: the sole state shared between the
/// capture and playback callbacks. It owns both ends of a bounded
/// crossbeam channel, so the channel is never disconnected while the queue
/// lives.
#[verifier::external_body]
pub struct RelayQueue {
    tx: crossbeam_channel::Sender<Vec<u32>>,
    rx: crossbeam_channel::Receiver<Vec<u32>>,
}

impl RelayQueue {
    /// Relies on crossbeam_channel::bounded: it returns the two ends of an
    /// empty channel that holds at most `capacity` messages, and panics only
    /// when `capacity` is near the pointer-width limit.
    #[verifier::external_body]
    fn new_raw(capacity: usize) -> (q: RelayQueue)
        requires
            1 <= capacity <= 0x0800_0000,
        ensures
            queue_capacity(q) == capacity,
            queue_contents(q) == Seq::<Seq<u32>>::empty(),
    {
        let (tx, rx) = crossbeam_channel::bounded(capacity);
        RelayQueue { tx, rx }
    }

    /// Relies on crossbeam_channel::Sender::try_send: on a bounded channel
    /// whose receiver is alive it appends the message and returns Ok iff the
    /// channel holds fewer messages than its capacity, returns Err(Full)
    /// otherwise, and never blocks.
    #[verifier::external_body]
    fn push_raw(&mut self, b: Block) -> (accepted: bool)
        ensures
            queue_capacity(*final(self)) == queue_capacity(*old(self)),
            accepted == (queue_contents(*old(self)).len() < queue_capacity(*old(self))),
            queue_contents(*final(self)) == push_model(
                queue_contents(*old(self)),
                queue_capacity(*old(self)),
                b@,
            ),
    {
        self.tx.try_send(b.samples).is_ok()
    }

    /// Relies on crossbeam_channel::Receiver::try_recv: on a channel whose
    /// sender is alive it removes and returns the oldest message iff the
    /// channel is non-empty, returns Err(Empty) otherwise, and never blocks.
    #[verifier::external_body]
    fn pop_raw(&mut self) -> (r: Option<Block>)
        ensures
            queue_capacity(*final(self)) == queue_capacity(*old(self)),
            queue_contents(*final(self)) == pop_model(queue_contents(*old(self))),
            r matches Some(b) ==> pop_front(queue_contents(*old(self))) == Some(b@),
            r is None ==> pop_front(queue_contents(*old(self))) is None,
    {
        match self.rx.try_recv() {
            Ok(samples) => Some(Block { samples }),
            Err(_) => None,
        }
    }

    /// Relies on crossbeam_channel::Receiver::len: the number of messages the
    /// channel holds.
    #[verifier::external_body]
    fn len_raw(&self) -> (n: usize)
        ensures
            n == queue_contents(*self).len(),
    {
        self.rx.len()
    }

    /// Creates an empty relay queue of the given fixed capacity.
    pub fn new(capacity: usize) -> (q: RelayQueue)
        requires
            1 <= capacity <= 0x0800_0000,
        ensures
            queue_capacity(q) == capacity,
            queue_contents(q) == Seq::<Seq<u32>>::empty(),
    {
        RelayQueue::new_raw(capacity)
    }

    /// Non-blocking enqueue: the block is appended iff the queue is below
    /// capacity, and dropped otherwise; the result says which happened.
    pub fn try_push(&mut self, b: Block) -> (accepted: bool)
        ensures
            queue_capacity(*final(self)) == queue_capacity(*old(self)),
            accepted == (queue_contents(*old(self)).len() < queue_capacity(*old(self))),
            queue_contents(*final(self)) == push_model(
                queue_contents(*old(self)),
                queue_capacity(*old(self)),
                b@,
            ),
    {
        self.push_raw(b)
    }

    /// Non-blocking dequeue: the oldest block leaves iff one is there, and
    /// an empty queue answers None at once.
    pub fn try_pop(&mut self) -> (r: Option<Block>)
        ensures
            queue_capacity(*final(self)) == queue_capacity(*old(self)),
            queue_contents(*final(self)) == pop_model(queue_contents(*old(self))),
            match r {
                Some(b) => pop_front(queue_contents(*old(self))) == Some(b@),
                None => pop_front(queue_contents(*old(self))) is None,
            },
    {
        self.pop_raw()
    }

    /// How many blocks the queue holds right now.
    pub fn len(&self) -> (n: usize)
        ensures
            n == queue_contents(*self).len(),
    {
        self.len_raw()
    }
}

} // verus!
