use vstd::prelude::*;

verus! {

/// One callback's worth of audio samples. Each sample is stored as the raw
/// bit pattern of a single-precision value; the all-zero pattern is silence.
/// A block is immutable once produced and moves from the producer through
/// the relay queue to the consumer.
pub struct Block {
    pub(crate) samples: Vec<u32>,
}

impl View for Block {
    type V = Seq<u32>;

    closed spec fn view(&self) -> Seq<u32> {
        self.samples@
    }
}

impl Block {
    /// Copies a read-only view of captured samples into an owned block.
    pub fn from_samples(data: &[u32]) -> (b: Block)
        ensures
            b@ == data@,
    {
        let n = data.len();
        let mut samples: Vec<u32> = Vec::new();
        let mut i: usize = 0;
        while i < n
            invariant
                i <= n,
                n == data@.len(),
                samples@ == data@.take(i as int),
            decreases n - i,
        {
            samples.push(data[i]);
            proof {
                assert(samples@ =~= data@.take(i + 1));
            }
            i = i + 1;
        }
        proof {
            assert(samples@ =~= data@);
        }
        Block { samples }
    }

    /// A block of `len` silent samples.
    pub fn silence(len: usize) -> (b: Block)
        ensures
            b@.len() == len,
            forall|i: int| 0 <= i < len ==> b@[i] == 0u32,
    {
        let mut samples: Vec<u32> = Vec::new();
        let mut i: usize = 0;
        while i < len
            invariant
                i <= len,
                samples@.len() == i,
                forall|j: int| 0 <= j < i ==> samples@[j] == 0u32,
            decreases len - i,
        {
            samples.push(0u32);
            i = i + 1;
        }
        Block { samples }
    }

    pub fn len(&self) -> (n: usize)
        ensures
            n == self@.len(),
    {
        self.samples.len()
    }

    pub fn sample(&self, i: usize) -> (s: u32)
        requires
            i < self@.len(),
        ensures
            s == self@[i as int],
    {
        self.samples[i]
    }

    /// The block's samples, oldest first, for callers that only read.
    pub fn samples(&self) -> (r: &Vec<u32>)
        ensures
            r@ == self@,
    {
        &self.samples
    }

    /// Gives up the block and hands its sample buffer back.
    pub fn into_samples(self) -> (r: Vec<u32>)
        ensures
            r@ == self@,
    {
        self.samples
    }
}

} // verus!
