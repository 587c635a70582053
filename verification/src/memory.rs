use vstd::prelude::*;
use std::collections::VecDeque;

verus! {

/// A chunk of `n` zero bytes.
pub open spec fn zero_chunk(n: nat) -> Seq<u8> {
    Seq::new(n, |i: int| 0u8)
}

fn new_zero_chunk(n: usize) -> (chunk: Vec<u8>)
    ensures
        chunk@ == zero_chunk(n as nat),
{
    let mut chunk: Vec<u8> = Vec::new();
    let mut i: usize = 0;
    while i < n
        invariant
            i <= n,
            chunk@ == zero_chunk(i as nat),
        decreases n - i,
    {
        chunk.push(0u8);
        i = i + 1;
    }
    chunk
}

/// A pool of reusable byte chunks with a fixed capacity.
///
/// The pool hands chunks out from the front and takes them back at the
/// end; it never holds more chunks than its capacity.
pub struct MemoryPool {
    pool: VecDeque<Vec<u8>>,
    chunk_size: usize,
    capacity: usize,
}

impl View for MemoryPool {
    type V = Seq<Seq<u8>>;

    /// The contents of the chunks that the pool holds, front first.
    closed spec fn view(&self) -> Seq<Seq<u8>> {
        self.pool@.map_values(|c: Vec<u8>| c@)
    }
}

impl MemoryPool {
    #[verifier::type_invariant]
    spec fn within_capacity(&self) -> bool {
        self.pool@.len() <= self.capacity
    }

    /// The number of chunks the pool can hold.
    pub closed spec fn capacity(&self) -> nat {
        self.capacity as nat
    }

    /// The size of the chunks the pool creates.
    pub closed spec fn chunk_size(&self) -> nat {
        self.chunk_size as nat
    }

    /// Creates a pool holding `pool_size` zeroed chunks of `chunk_size`
    /// bytes, with capacity `pool_size`.
    pub fn new(chunk_size: usize, pool_size: usize) -> (p: Self)
        ensures
            p@ == Seq::new(pool_size as nat, |i: int| zero_chunk(chunk_size as nat)),
            p.capacity() == pool_size,
            p.chunk_size() == chunk_size,
            p@.len() <= p.capacity(),
    {
        let mut pool: VecDeque<Vec<u8>> = VecDeque::with_capacity(pool_size);
        let mut i: usize = 0;
        while i < pool_size
            invariant
                i <= pool_size,
                pool@.len() == i,
                forall|j: int| 0 <= j < i ==> (#[trigger] pool@[j])@ == zero_chunk(chunk_size as nat),
            decreases pool_size - i,
        {
            pool.push_back(new_zero_chunk(chunk_size));
            i = i + 1;
        }
        let p = MemoryPool { pool, chunk_size, capacity: pool_size };
        assert(p@ =~= Seq::new(pool_size as nat, |i: int| zero_chunk(chunk_size as nat)));
        p
    }

    /// Takes the chunk at the front of the pool, if there is one.
    pub fn allocate(&mut self) -> (chunk: Option<Vec<u8>>)
        ensures
            final(self).capacity() == old(self).capacity(),
            final(self).chunk_size() == old(self).chunk_size(),
            final(self)@.len() <= final(self).capacity(),
            match chunk {
                Some(c) => {
                    &&& old(self)@.len() > 0
                    &&& c@ == old(self)@[0]
                    &&& final(self)@ == old(self)@.drop_first()
                },
                None => {
                    &&& old(self)@.len() == 0
                    &&& final(self)@ == old(self)@
                },
            },
    {
        proof {
            use_type_invariant(&*self);
        }
        let mut pool: VecDeque<Vec<u8>> = VecDeque::new();
        std::mem::swap(&mut pool, &mut self.pool);
        let chunk = pool.pop_front();
        self.pool = pool;
        proof {
            assert(self@ =~= old(self)@.drop_first() || chunk.is_none());
        }
        chunk
    }

    /// Returns a chunk to the end of the pool; when the pool is full the
    /// chunk is dropped.
    pub fn deallocate(&mut self, chunk: Vec<u8>)
        ensures
            final(self).capacity() == old(self).capacity(),
            final(self).chunk_size() == old(self).chunk_size(),
            final(self)@.len() <= final(self).capacity(),
            final(self)@ == if old(self)@.len() < old(self).capacity() {
                old(self)@.push(chunk@)
            } else {
                old(self)@
            },
    {
        proof {
            use_type_invariant(&*self);
        }
        if self.pool.len() < self.capacity {
            let mut pool: VecDeque<Vec<u8>> = VecDeque::new();
            std::mem::swap(&mut pool, &mut self.pool);
            pool.push_back(chunk);
            self.pool = pool;
            proof {
                assert(self@ =~= old(self)@.push(chunk@));
            }
        }
    }

    /// Refills the pool with zeroed chunks until it holds at least half
    /// its capacity.
    pub fn defragment(&mut self)
        ensures
            final(self).capacity() == old(self).capacity(),
            final(self).chunk_size() == old(self).chunk_size(),
            final(self)@.len() <= final(self).capacity(),
            final(self)@ == old(self)@ + Seq::new(
                (if old(self)@.len() < old(self).capacity() / 2 {
                    old(self).capacity() / 2 - old(self)@.len()
                } else {
                    0
                }) as nat,
                |i: int| zero_chunk(old(self).chunk_size()),
            ),
    {
        proof {
            use_type_invariant(&*self);
        }
        let ghost start = self.pool@;
        let target = self.capacity / 2;
        let mut pool: VecDeque<Vec<u8>> = VecDeque::new();
        std::mem::swap(&mut pool, &mut self.pool);
        while pool.len() < target
            invariant
                start == old(self).pool@,
                self.chunk_size == old(self).chunk_size,
                self.capacity == old(self).capacity,
                self.pool@.len() == 0,
                target == old(self).capacity / 2,
                start.len() <= old(self).capacity,
                pool@.len() >= start.len(),
                pool@.subrange(0, start.len() as int) == start,
                forall|j: int|
                    start.len() <= j < pool@.len() ==> (#[trigger] pool@[j])@ == zero_chunk(
                        old(self).chunk_size as nat,
                    ),
                pool@.len() <= (if start.len() < target {
                    target as int
                } else {
                    start.len() as int
                }),
            decreases target - pool@.len(),
        {
            let chunk = new_zero_chunk(self.chunk_size);
            pool.push_back(chunk);
        }
        self.pool = pool;
        proof {
            let added = Seq::new(
                (if start.len() < target {
                    target - start.len()
                } else {
                    0
                }) as nat,
                |i: int| zero_chunk(self.chunk_size as nat),
            );
            let before = start.map_values(|c: Vec<u8>| c@);
            assert(self@.len() == before.len() + added.len());
            assert forall|j: int| 0 <= j < self@.len() implies self@[j] == (before + added)[j] by {
                if j < start.len() {
                    assert(self.pool@[j] == pool@.subrange(0, start.len() as int)[j]);
                }
            }
            assert(self@ =~= before + added);
        }
    }

    /// The share of the pool's capacity that is handed out, in millionths
    /// (rounded down); `None` for a pool of capacity 0.
    pub fn get_utilization(&self) -> (u: Option<u32>)
        ensures
            self.capacity() == 0 ==> u.is_none(),
            self.capacity() > 0 ==> u == Some(
                ((self.capacity() - self@.len()) * 1_000_000 / (self.capacity() as int)) as u32,
            ),
            u matches Some(v) ==> v <= 1_000_000,
    {
        proof {
            use_type_invariant(self);
        }
        if self.capacity == 0 {
            None
        } else {
            let in_use = (self.capacity - self.pool.len()) as u128;
            let share = in_use * 1_000_000 / (self.capacity as u128);
            proof {
                assert(share <= 1_000_000) by (nonlinear_arith)
                    requires
                        share as int == (in_use as int) * 1_000_000 / (self.capacity as int),
                        in_use <= self.capacity,
                        self.capacity > 0,
                ;
            }
            Some(share as u32)
        }
    }
}

/// Counts frames and signals a collection once every `interval` frames.
pub struct GarbageCollector {
    collect_interval: u32,
    frame_count: u32,
}

impl GarbageCollector {
    #[verifier::type_invariant]
    spec fn counter_below_interval(&self) -> bool {
        self.frame_count == 0 || self.frame_count < self.collect_interval
    }

    /// The number of frames between collections.
    pub closed spec fn interval(&self) -> u32 {
        self.collect_interval
    }

    /// The frames counted since the last collection.
    pub closed spec fn frames(&self) -> u32 {
        self.frame_count
    }

    /// Creates a collector that signals every `interval` frames.
    pub fn new(interval: u32) -> (gc: Self)
        ensures
            gc.interval() == interval,
            gc.frames() == 0,
    {
        GarbageCollector { collect_interval: interval, frame_count: 0 }
    }

    /// Counts one frame; answers true, and restarts the count, when the
    /// count reaches the interval.
    pub fn should_collect(&mut self) -> (collect: bool)
        ensures
            final(self).interval() == old(self).interval(),
            collect == (old(self).frames() + 1 >= old(self).interval()),
            final(self).frames() == if collect { 0 } else { (old(self).frames() + 1) as u32 },
    {
        proof {
            use_type_invariant(&*self);
        }
        let next = self.frame_count + 1;
        if next >= self.collect_interval {
            self.frame_count = 0;
            return true;
        }
        self.frame_count = next;
        false
    }
}

} // verus!
