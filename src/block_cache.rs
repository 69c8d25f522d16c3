use std::collections::BTreeMap;

use vstd::prelude::*;

use crate::block::FilteredBlock;

verus! {

broadcast use vstd::std_specs::btree::group_btree_axioms;

/// How far above the cursor a block may be cached when no other bound is configured.
pub const DEFAULT_CAPACITY: u64 = 4096;

/// Why a block was refused by the cache.
#[derive(Clone, Copy, Debug, PartialEq, Eq)]
pub enum InsertError {
    /// The block's height lies below the next height to pop.
    BelowCursor { height: u64, cursor: u64 },
    /// A block of that height is already held.
    Duplicate { height: u64 },
    /// The block's height lies beyond the cursor by more than the capacity.
    AboveCapacity { height: u64, cursor: u64, capacity: u64 },
}

/// The abstract state of a [`BlockCache`]: the held blocks by height, the cursor and
/// the capacity.
pub struct CacheView {
    pub blocks: Map<u64, FilteredBlock>,
    pub next_height: u64,
    pub capacity: u64,
}

impl CacheView {
    /// Every held block sits under its own height, no lower than the cursor and no
    /// further above it than the capacity.
    pub open spec fn wf(self) -> bool {
        forall|h: u64|
            #[trigger] self.blocks.contains_key(h) ==> self.next_height <= h && h
                <= self.next_height + self.capacity && self.blocks[h].height == h
    }

    /// The refusal that inserting `block` meets, if any.
    pub open spec fn insert_error(self, block: FilteredBlock) -> Option<InsertError> {
        if block.height < self.next_height {
            Some(InsertError::BelowCursor { height: block.height, cursor: self.next_height })
        } else if self.blocks.contains_key(block.height) {
            Some(InsertError::Duplicate { height: block.height })
        } else if block.height > self.next_height + self.capacity {
            Some(
                InsertError::AboveCapacity {
                    height: block.height,
                    cursor: self.next_height,
                    capacity: self.capacity,
                },
            )
        } else {
            None
        }
    }

    /// The state after inserting `block`: unchanged when it is refused.
    pub open spec fn insert(self, block: FilteredBlock) -> CacheView {
        if self.insert_error(block) is Some {
            self
        } else {
            CacheView { blocks: self.blocks.insert(block.height, block), ..self }
        }
    }

    /// Whether a block can be popped: one is held at the cursor, and the cursor can
    /// still advance past it.
    pub open spec fn can_pop(self) -> bool {
        self.next_height < u64::MAX && self.blocks.contains_key(self.next_height)
    }

    /// The state after popping the block at the cursor, if there is one.
    pub open spec fn pop(self) -> CacheView {
        if self.can_pop() {
            CacheView {
                blocks: self.blocks.remove(self.next_height),
                next_height: (self.next_height + 1) as u64,
                ..self
            }
        } else {
            self
        }
    }

    /// The state after dropping every height below `h`: the cursor becomes the larger
    /// of itself and `h`, and only blocks at or above `h` stay.
    pub open spec fn drop_obsolete(self, h: u64) -> CacheView {
        CacheView {
            blocks: keep_from(self.blocks, h),
            next_height: if h > self.next_height {
                h
            } else {
                self.next_height
            },
            ..self
        }
    }
}

/// The entries of `m` whose keys are at least `h`.
pub open spec fn keep_from(m: Map<u64, FilteredBlock>, h: u64) -> Map<u64, FilteredBlock> {
    Map::new(|k: u64| m.contains_key(k) && k >= h, |k: u64| m[k])
}

/// Dropping obsolete heights twice with the same bound changes nothing the second time.
pub proof fn lemma_drop_obsolete_idempotent(v: CacheView, h: u64)
    ensures
        v.drop_obsolete(h).drop_obsolete(h) == v.drop_obsolete(h),
{
    assert(keep_from(keep_from(v.blocks, h), h) =~= keep_from(v.blocks, h));
}

/// Buffers blocks that arrive in any order and releases them in strict height order,
/// starting at the next height to pop.
pub struct BlockCache {
    blocks: BTreeMap<u64, FilteredBlock>,
    next_height: u64,
    capacity: u64,
}

impl BlockCache {
    pub closed spec fn view(&self) -> CacheView {
        CacheView { blocks: self.blocks@, next_height: self.next_height, capacity: self.capacity }
    }

    pub open spec fn wf(&self) -> bool {
        self@.wf()
    }

    /// An empty cache whose cursor is `next_height`, with the default capacity.
    pub fn with_next_height(next_height: u64) -> (r: Self)
        ensures
            r.wf(),
            r@.blocks == Map::<u64, FilteredBlock>::empty(),
            r@.next_height == next_height,
            r@.capacity == DEFAULT_CAPACITY,
    {
        Self::with_capacity(next_height, DEFAULT_CAPACITY)
    }

    /// An empty cache whose cursor is `next_height` and which holds no block more than
    /// `capacity` heights above its cursor.
    pub fn with_capacity(next_height: u64, capacity: u64) -> (r: Self)
        ensures
            r.wf(),
            r@.blocks == Map::<u64, FilteredBlock>::empty(),
            r@.next_height == next_height,
            r@.capacity == capacity,
    {
        BlockCache { blocks: BTreeMap::new(), next_height, capacity }
    }

    /// The height of the next block to pop.
    pub fn next_height_to_pop(&self) -> (r: u64)
        ensures
            r == self@.next_height,
    {
        self.next_height
    }

    /// Whether a block of height `height` is held.
    pub fn contains(&self, height: u64) -> (r: bool)
        ensures
            r == self@.blocks.contains_key(height),
    {
        self.blocks.contains_key(&height)
    }

    /// Inserts `block`, never replacing a held block.
    ///
    /// It is refused when its height is below the cursor, already held, or more than the
    /// capacity above the cursor, checked in that order; a refused block is dropped.
    pub fn insert(&mut self, block: FilteredBlock) -> (r: Result<(), InsertError>)
        requires
            old(self).wf(),
        ensures
            final(self).wf(),
            final(self)@ == old(self)@.insert(block),
            r is Err <==> old(self)@.insert_error(block) is Some,
            r is Err ==> r->Err_0 == old(self)@.insert_error(block)->Some_0,
    {
        let height = block.height;
        if height < self.next_height {
            return Err(InsertError::BelowCursor { height, cursor: self.next_height });
        }
        if self.blocks.contains_key(&height) {
            return Err(InsertError::Duplicate { height });
        }
        if height - self.next_height > self.capacity {
            return Err(
                InsertError::AboveCapacity {
                    height,
                    cursor: self.next_height,
                    capacity: self.capacity,
                },
            );
        }
        self.blocks.insert(height, block);
        Ok(())
    }

    /// Pops the block at the cursor and advances the cursor by one; yields nothing when
    /// no block is held there.
    ///
    /// The largest height is never popped: no cursor beyond it could be represented.
    pub fn next_block(&mut self) -> (r: Option<FilteredBlock>)
        requires
            old(self).wf(),
        ensures
            final(self).wf(),
            final(self)@ == old(self)@.pop(),
            r is Some <==> old(self)@.can_pop(),
            r is Some ==> r->Some_0 == old(self)@.blocks[old(self)@.next_height],
    {
        if self.next_height == u64::MAX {
            return None;
        }
        let cursor = self.next_height;
        if !self.blocks.contains_key(&cursor) {
            return None;
        }
        let popped = self.blocks.remove(&cursor);
        match popped {
            Some(block) => {
                proof {
                    assert(self.blocks@ == old(self).blocks@.remove(cursor));
                    assert forall|h: u64| #[trigger] self.blocks@.contains_key(h) implies cursor
                        < h && h <= cursor + 1 + self.capacity && self.blocks@[h].height == h by {
                        assert(old(self)@.blocks.contains_key(h));
                    }
                }
                self.next_height = cursor + 1;
                Some(block)
            },
            None => None,
        }
    }

    /// Evicts every block below `h` and raises the cursor to `h` if it was lower.
    pub fn drop_obsolete(&mut self, h: u64)
        requires
            old(self).wf(),
        ensures
            final(self).wf(),
            final(self)@ == old(self)@.drop_obsolete(h),
    {
        if h <= self.next_height {
            proof {
                assert forall|k: u64| #[trigger] self.blocks@.contains_key(k) implies k >= h by {
                    assert(self@.blocks.contains_key(k));
                }
                assert(keep_from(self.blocks@, h) =~= self.blocks@);
            }
            return;
        }
        // Every held height is at most `next_height + capacity`, so nothing beyond that
        // needs to be looked at.
        let end: u64 = if h - self.next_height > self.capacity {
            self.next_height + self.capacity + 1
        } else {
            h
        };
        let ghost start = self.blocks@;
        proof {
            assert forall|j: u64| #[trigger] start.contains_key(j) implies j >= self.next_height by {
                assert(self@.blocks.contains_key(j));
            }
            assert(keep_from(start, self.next_height) =~= start);
        }
        let mut k: u64 = self.next_height;
        while k < end
            invariant
                old(self).wf(),
                start == old(self).blocks@,
                self.next_height == old(self).next_height,
                self.capacity == old(self).capacity,
                self.next_height <= k <= end <= h,
                end < h ==> end == self.next_height + self.capacity + 1,
                self.blocks@ == keep_from(start, k),
            decreases end - k,
        {
            self.blocks.remove(&k);
            proof {
                assert(self.blocks@ =~= keep_from(start, (k + 1) as u64));
            }
            k = k + 1;
        }
        proof {
            assert forall|j: u64| #[trigger] start.contains_key(j) implies j <= old(
                self,
            ).next_height + old(self).capacity && start[j].height == j by {
                assert(old(self)@.blocks.contains_key(j));
            }
            assert(keep_from(start, k) =~= keep_from(start, h));
        }
        self.next_height = h;
    }
}

} // verus!
