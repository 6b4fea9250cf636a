//! Memory management utilities: an object pool, a circular buffer,
//! allocation tracking, and a string interner.

use vstd::prelude::*;

use crate::error::RobotError;

verus! {

/// Memory pool for reusing values instead of allocating fresh ones.
pub struct MemoryPool<T> {
    pub pool: Vec<T>,
    pub capacity: usize,
}

impl<T: Default> MemoryPool<T> {
    /// Create a pool that keeps at most `capacity` returned values.
    pub fn new(capacity: usize) -> (r: Self)
        ensures
            r.pool@.len() == 0,
            r.capacity == capacity,
    {
        MemoryPool { pool: Vec::with_capacity(capacity), capacity }
    }

    /// Take a value out of the pool, the most recently returned one
    /// first; an empty pool hands out a freshly made default value.
    pub fn get(&mut self) -> (r: T)
        ensures
            final(self).capacity == old(self).capacity,
            old(self).pool@.len() > 0 ==> r == old(self).pool@.last() && final(self).pool@ == old(
                self,
            ).pool@.drop_last(),
            old(self).pool@.len() == 0 ==> final(self).pool@ == old(self).pool@,
    {
        match self.pool.pop() {
            Some(v) => v,
            None => T::default(),
        }
    }

    /// Return a value to the pool; a pool already at capacity drops
    /// it instead.
    pub fn put(&mut self, item: T)
        ensures
            final(self).capacity == old(self).capacity,
            old(self).pool@.len() < old(self).capacity ==> final(self).pool@ == old(
                self,
            ).pool@.push(item),
            old(self).pool@.len() >= old(self).capacity ==> final(self).pool@ == old(self).pool@,
    {
        if self.pool.len() < self.capacity {
            self.pool.push(item);
        }
    }
}

/// Ring buffer for circular data storage: at most `capacity` items,
/// the oldest overwritten first once the buffer is full.
pub struct RingBuffer<T> {
    pub buffer: Vec<Option<T>>,
    pub head: usize,
    pub tail: usize,
    pub size: usize,
    pub capacity: usize,
}

impl<T> RingBuffer<T> {
    /// How far slot `j` stands after the head, walking forward with
    /// wraparound.
    pub open spec fn offset_of(&self, j: int) -> int {
        if j >= self.head {
            j - self.head
        } else {
            j + self.capacity - self.head
        }
    }

    /// The slot holding the `i`-th item, counting from the oldest.
    pub open spec fn slot_of(&self, i: int) -> int {
        if self.head + i < self.capacity {
            self.head + i
        } else {
            self.head + i - self.capacity
        }
    }

    /// Well-formed: the storage spans the capacity, the cursors are in
    /// range, the tail stands `size` after the head, and exactly the
    /// `size` slots from the head onward are occupied.
    pub open spec fn wf(&self) -> bool {
        &&& self.buffer@.len() == self.capacity
        &&& self.capacity > 0
        &&& self.head < self.capacity
        &&& self.tail < self.capacity
        &&& self.size <= self.capacity
        &&& self.tail == self.slot_of(self.size as int)
        &&& forall|j: int|
            0 <= j < self.capacity ==> ((#[trigger] self.buffer@[j]) is Some <==> self.offset_of(j)
                < self.size)
    }

    /// The stored items, oldest first.
    pub open spec fn contents(&self) -> Seq<T> {
        Seq::new(self.size as nat, |i: int| self.buffer@[self.slot_of(i)]->0)
    }

    /// Create a ring buffer for up to `capacity` items. A buffer
    /// without a single slot could not store anything, so a capacity
    /// of zero is excluded.
    pub fn new(capacity: usize) -> (r: Self)
        requires
            capacity >= 1,
        ensures
            r.wf(),
            r.capacity == capacity,
            r.contents() == Seq::<T>::empty(),
    {
        let mut buffer: Vec<Option<T>> = Vec::with_capacity(capacity);
        let mut i: usize = 0;
        while i < capacity
            invariant
                i <= capacity,
                buffer@.len() == i,
                forall|j: int| 0 <= j < i ==> (#[trigger] buffer@[j]) is None,
            decreases capacity - i,
        {
            buffer.push(None);
            i += 1;
        }
        let r = RingBuffer { buffer, head: 0, tail: 0, size: 0, capacity };
        proof {
            assert(r.contents() =~= Seq::<T>::empty());
        }
        r
    }

    /// Append an item. While the buffer has room it simply grows and
    /// nothing comes back; once it is full the oldest item leaves to
    /// make room and is returned.
    pub fn push(&mut self, item: T) -> (r: Option<T>)
        requires
            old(self).wf(),
        ensures
            final(self).wf(),
            final(self).capacity == old(self).capacity,
            old(self).size < old(self).capacity ==> {
                &&& r is None
                &&& final(self).contents() == old(self).contents().push(item)
            },
            old(self).size == old(self).capacity ==> {
                &&& r == Some(old(self).contents()[0])
                &&& final(self).contents() == old(self).contents().drop_first().push(item)
            },
    {
        let ghost pre = *self;
        let old_item = self.buffer[self.tail].take();
        self.buffer[self.tail] = Some(item);
        self.tail = if self.tail + 1 == self.capacity {
            0
        } else {
            self.tail + 1
        };
        if self.size < self.capacity {
            self.size = self.size + 1;
            proof {
                assert forall|j: int|
                    0 <= j < self.capacity implies ((#[trigger] self.buffer@[j]) is Some
                    <==> self.offset_of(j) < self.size) by {
                    if j != pre.tail {
                        assert(self.buffer@[j] == pre.buffer@[j]);
                        assert(self.offset_of(j) == pre.offset_of(j));
                        assert(pre.offset_of(j) == pre.size ==> j == pre.tail);
                    }
                }
                assert(self.contents() =~= pre.contents().push(item)) by {
                    assert forall|i: int| 0 <= i < self.size implies self.contents()[i]
                        == pre.contents().push(item)[i] by {
                        if i < pre.size {
                            assert(self.slot_of(i) == pre.slot_of(i));
                            assert(pre.slot_of(i) != pre.tail);
                            assert(self.buffer@[self.slot_of(i)] == pre.buffer@[pre.slot_of(i)]);
                        } else {
                            assert(self.slot_of(i) == pre.tail);
                        }
                    }
                }
                assert(pre.offset_of(pre.tail as int) == pre.size);
                assert(old_item is None);
            }
            None
        } else {
            self.head = if self.head + 1 == self.capacity {
                0
            } else {
                self.head + 1
            };
            proof {
                assert(pre.tail == pre.head);
                assert(pre.offset_of(pre.head as int) == 0);
                assert(old_item == Some(pre.contents()[0]));
                assert forall|j: int|
                    0 <= j < self.capacity implies ((#[trigger] self.buffer@[j]) is Some
                    <==> self.offset_of(j) < self.size) by {
                    if j != pre.head {
                        assert(self.buffer@[j] == pre.buffer@[j]);
                        assert(pre.offset_of(j) < pre.size);
                        assert(self.offset_of(j) == pre.offset_of(j) - 1);
                    } else {
                        assert(self.offset_of(j) == self.capacity - 1);
                    }
                }
                assert(self.contents() =~= pre.contents().drop_first().push(item)) by {
                    assert forall|i: int| 0 <= i < self.size implies self.contents()[i]
                        == pre.contents().drop_first().push(item)[i] by {
                        if i < self.size - 1 {
                            assert(self.slot_of(i) == pre.slot_of(i + 1));
                            assert(pre.slot_of(i + 1) != pre.head);
                            assert(self.buffer@[self.slot_of(i)] == pre.buffer@[pre.slot_of(
                                i + 1,
                            )]);
                        } else {
                            assert(self.slot_of(i) == pre.head);
                        }
                    }
                }
            }
            old_item
        }
    }

    /// Remove and return the oldest item, or nothing from an empty
    /// buffer.
    pub fn pop(&mut self) -> (r: Option<T>)
        requires
            old(self).wf(),
        ensures
            final(self).wf(),
            final(self).capacity == old(self).capacity,
            old(self).size == 0 ==> r is None && *final(self) == *old(self),
            old(self).size > 0 ==> {
                &&& r == Some(old(self).contents()[0])
                &&& final(self).contents() == old(self).contents().drop_first()
            },
    {
        if self.size == 0 {
            return None;
        }
        let ghost pre = *self;
        let item = self.buffer[self.head].take();
        self.head = if self.head + 1 == self.capacity {
            0
        } else {
            self.head + 1
        };
        self.size = self.size - 1;
        proof {
            assert(pre.offset_of(pre.head as int) == 0);
            assert(item == Some(pre.contents()[0]));
            assert forall|j: int|
                0 <= j < self.capacity implies ((#[trigger] self.buffer@[j]) is Some
                <==> self.offset_of(j) < self.size) by {
                if j != pre.head {
                    assert(self.buffer@[j] == pre.buffer@[j]);
                    assert(self.offset_of(j) == pre.offset_of(j) - 1);
                } else {
                    assert(self.offset_of(j) == self.capacity - 1);
                    assert(self.buffer@[j] is None);
                }
            }
            assert(self.contents() =~= pre.contents().drop_first()) by {
                assert forall|i: int| 0 <= i < self.size implies self.contents()[i]
                    == pre.contents().drop_first()[i] by {
                    assert(self.slot_of(i) == pre.slot_of(i + 1));
                    assert(pre.slot_of(i + 1) != pre.head);
                    assert(self.buffer@[self.slot_of(i)] == pre.buffer@[pre.slot_of(i + 1)]);
                }
            }
        }
        item
    }

    /// The number of stored items.
    pub fn len(&self) -> (r: usize)
        ensures
            r == self.size,
            self.wf() ==> r == self.contents().len(),
    {
        self.size
    }

    /// Whether the buffer holds nothing.
    pub fn is_empty(&self) -> (r: bool)
        ensures
            r == (self.size == 0),
            self.wf() ==> r == (self.contents().len() == 0),
    {
        self.size == 0
    }
}

/// Memory usage statistics.
#[derive(Debug, Clone, Copy, PartialEq, Eq, Structural)]
pub struct MemoryUsage {
    pub total_allocated: usize,
    pub current_usage: usize,
    pub peak_usage: usize,
    pub allocation_count: u64,
    pub deallocation_count: u64,
}

impl Default for MemoryUsage {
    /// Every counter at zero.
    fn default() -> (r: Self)
        ensures
            r == (MemoryUsage {
                total_allocated: 0usize,
                current_usage: 0usize,
                peak_usage: 0usize,
                allocation_count: 0u64,
                deallocation_count: 0u64,
            }),
    {
        MemoryUsage {
            total_allocated: 0,
            current_usage: 0,
            peak_usage: 0,
            allocation_count: 0,
            deallocation_count: 0,
        }
    }
}

/// Memory monitor for tracking allocations. The monitor owns its
/// counters; whoever allocates reports here.
pub struct MemoryMonitor {
    pub usage: MemoryUsage,
}

impl MemoryMonitor {
    /// Create a monitor with every counter at zero.
    pub fn new() -> (r: Self)
        ensures
            r.usage == MemoryUsage::default_spec(),
    {
        MemoryMonitor { usage: MemoryUsage::default() }
    }

    /// Record an allocation of `size` bytes: the total and current
    /// usage grow by it, the allocation count by one, and the peak
    /// follows the current usage upward.
    pub fn record_allocation(&mut self, size: usize) -> (r: Result<(), RobotError>)
        requires
            old(self).usage.total_allocated + size <= usize::MAX,
            old(self).usage.current_usage + size <= usize::MAX,
            old(self).usage.allocation_count < u64::MAX,
        ensures
            r is Ok,
            final(self).usage.total_allocated == old(self).usage.total_allocated + size,
            final(self).usage.current_usage == old(self).usage.current_usage + size,
            final(self).usage.allocation_count == old(self).usage.allocation_count + 1,
            final(self).usage.deallocation_count == old(self).usage.deallocation_count,
            final(self).usage.peak_usage == if old(self).usage.current_usage + size > old(
                self,
            ).usage.peak_usage {
                old(self).usage.current_usage + size
            } else {
                old(self).usage.peak_usage as int
            },
    {
        self.usage.total_allocated = self.usage.total_allocated + size;
        self.usage.current_usage = self.usage.current_usage + size;
        self.usage.allocation_count = self.usage.allocation_count + 1;
        if self.usage.current_usage > self.usage.peak_usage {
            self.usage.peak_usage = self.usage.current_usage;
        }
        Ok(())
    }

    /// Record a deallocation of `size` bytes: the current usage falls
    /// by it, stopping at zero, and the deallocation count grows by
    /// one.
    pub fn record_deallocation(&mut self, size: usize) -> (r: Result<(), RobotError>)
        requires
            old(self).usage.deallocation_count < u64::MAX,
        ensures
            r is Ok,
            final(self).usage.total_allocated == old(self).usage.total_allocated,
            final(self).usage.peak_usage == old(self).usage.peak_usage,
            final(self).usage.allocation_count == old(self).usage.allocation_count,
            final(self).usage.deallocation_count == old(self).usage.deallocation_count + 1,
            final(self).usage.current_usage == if old(self).usage.current_usage >= size {
                old(self).usage.current_usage - size
            } else {
                0int
            },
    {
        self.usage.current_usage = if self.usage.current_usage >= size {
            self.usage.current_usage - size
        } else {
            0
        };
        self.usage.deallocation_count = self.usage.deallocation_count + 1;
        Ok(())
    }

    /// Read the current usage statistics.
    pub fn get_usage(&self) -> (r: Result<MemoryUsage, RobotError>)
        ensures
            r == Ok::<MemoryUsage, RobotError>(self.usage),
    {
        Ok(self.usage)
    }
}

impl MemoryUsage {
    /// The all-zero usage record, for use in contracts.
    pub open spec fn default_spec() -> MemoryUsage {
        MemoryUsage {
            total_allocated: 0usize,
            current_usage: 0usize,
            peak_usage: 0usize,
            allocation_count: 0u64,
            deallocation_count: 0u64,
        }
    }
}

/// A value whose heap footprint is accounted to a memory monitor for
/// as long as it lives. The owner releases it explicitly, which
/// records the deallocation and hands the value back.
pub struct TrackedBox<T> {
    pub inner: T,
    pub size: usize,
}

impl<T> TrackedBox<T> {
    /// Track a value, recording its allocation with the monitor.
    pub fn new(value: T, monitor: &mut MemoryMonitor) -> (r: Result<TrackedBox<T>, RobotError>)
        requires
            old(monitor).usage.total_allocated + vstd::layout::size_of::<T>() <= usize::MAX,
            old(monitor).usage.current_usage + vstd::layout::size_of::<T>() <= usize::MAX,
            old(monitor).usage.allocation_count < u64::MAX,
        ensures
            r matches Ok(b) && b.inner == value && b.size == vstd::layout::size_of::<T>(),
            final(monitor).usage.total_allocated == old(monitor).usage.total_allocated
                + vstd::layout::size_of::<T>(),
            final(monitor).usage.current_usage == old(monitor).usage.current_usage
                + vstd::layout::size_of::<T>(),
            final(monitor).usage.allocation_count == old(monitor).usage.allocation_count + 1,
            final(monitor).usage.deallocation_count == old(monitor).usage.deallocation_count,
    {
        let size = core::mem::size_of::<T>();
        match monitor.record_allocation(size) {
            Ok(()) => Ok(TrackedBox { inner: value, size }),
            Err(e) => Err(e),
        }
    }

    /// Read access to the tracked value.
    pub fn get(&self) -> (r: &T)
        ensures
            r == &self.inner,
    {
        &self.inner
    }

    /// Stop tracking: record the deallocation and hand the value
    /// back.
    pub fn release(self, monitor: &mut MemoryMonitor) -> (r: T)
        requires
            old(monitor).usage.deallocation_count < u64::MAX,
        ensures
            r == self.inner,
            final(monitor).usage.deallocation_count == old(monitor).usage.deallocation_count + 1,
            final(monitor).usage.total_allocated == old(monitor).usage.total_allocated,
            final(monitor).usage.current_usage == if old(monitor).usage.current_usage >= self.size {
                old(monitor).usage.current_usage - self.size
            } else {
                0int
            },
    {
        let _ = monitor.record_deallocation(self.size);
        self.inner
    }
}

/// String interner: each distinct string is stored once and named by
/// a small id, the index it was interned at.
pub struct StringInterner {
    pub strings: Vec<String>,
}

impl StringInterner {
    /// No string interned under any id.
    pub open spec fn wf(&self) -> bool {
        forall|i: int, j: int|
            0 <= i < j < self.strings@.len() ==> (#[trigger] self.strings@[i])@ != (
            #[trigger] self.strings@[j])@
    }

    /// Whether this string has been interned.
    pub open spec fn has_interned(&self, s: Seq<char>) -> bool {
        exists|i: int| 0 <= i < self.strings@.len() && (#[trigger] self.strings@[i])@ == s
    }

    /// The id this string was interned under.
    pub open spec fn id_of(&self, s: Seq<char>) -> int {
        choose|i: int| 0 <= i < self.strings@.len() && (#[trigger] self.strings@[i])@ == s
    }

    /// Create an empty interner.
    pub fn new() -> (r: Self)
        ensures
            r.wf(),
            r.strings@.len() == 0,
    {
        StringInterner { strings: Vec::new() }
    }

    /// Intern a string: a string seen before keeps the id it got
    /// then, a new one is stored under the next free id.
    pub fn intern(&mut self, s: &str) -> (r: u32)
        requires
            old(self).wf(),
            old(self).strings@.len() < u32::MAX,
        ensures
            final(self).wf(),
            final(self).has_interned(s@),
            r == final(self).id_of(s@),
            old(self).has_interned(s@) ==> *final(self) == *old(self) && r == old(self).id_of(s@),
            !old(self).has_interned(s@) ==> final(self).strings@ == old(self).strings@.push(
                final(self).strings@.last(),
            ) && final(self).strings@.last()@ == s@ && r == old(self).strings@.len(),
    {
        let n = self.strings.len();
        let mut i: usize = 0;
        while i < n
            invariant
                *self == *old(self),
                self.wf(),
                n == self.strings@.len(),
                n < u32::MAX,
                i <= n,
                forall|j: int| 0 <= j < i ==> (#[trigger] self.strings@[j])@ != s@,
            decreases n - i,
        {
            if crate::messages::str_eq(self.strings[i].as_str(), s) {
                proof {
                    assert(self.strings@[i as int]@ == s@);
                    assert(self.has_interned(s@));
                    let ci = self.id_of(s@);
                    assert(0 <= ci < self.strings@.len() && self.strings@[ci]@ == s@);
                    if ci < i as int {
                        assert(self.strings@[ci]@ != self.strings@[i as int]@);
                    } else if ci > i as int {
                        assert(self.strings@[i as int]@ != self.strings@[ci]@);
                    }
                    assert(ci == i as int);
                }
                return i as u32;
            }
            i += 1;
        }
        self.strings.push(s.to_owned());
        proof {
            assert(self.strings@[n as int]@ == s@);
            assert forall|a: int, b: int|
                0 <= a < b < self.strings@.len() implies (#[trigger] self.strings@[a])@ != (
            #[trigger] self.strings@[b])@ by {
                if b < n as int {
                    assert(self.strings@[a] == old(self).strings@[a]);
                    assert(self.strings@[b] == old(self).strings@[b]);
                } else {
                    assert(self.strings@[a] == old(self).strings@[a]);
                }
            }
            let ci = self.id_of(s@);
            if ci != n as int {
                assert(self.strings@[ci]@ == s@);
            }
        }
        n as u32
    }

    /// Look an id up, handing back the string interned under it.
    pub fn get(&self, id: u32) -> (r: Option<&String>)
        ensures
            id < self.strings@.len() ==> (r matches Some(s) && s@ == self.strings@[id as int]@),
            id >= self.strings@.len() ==> r is None,
    {
        if (id as usize) < self.strings.len() {
            Some(&self.strings[id as usize])
        } else {
            None
        }
    }
}

} // verus!
