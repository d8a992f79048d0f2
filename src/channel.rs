//! Two-buffer zero-copy pipeline carrying sample blocks from the receive path
//! to a consumer. Blocks change owner; their bytes are never copied across.

use vstd::prelude::*;

verus! {

/// What the channel holds: the bytes of both blocks, the slot of the oldest
/// committed block, how many blocks are committed and not yet released, and
/// whether the producer or the consumer currently holds a block.
pub struct ChannelView {
    pub slots: Seq<Seq<u8>>,
    pub front: nat,
    pub committed: nat,
    pub writing: bool,
    pub reading: bool,
    pub capacity: nat,
}

/// The slot the producer fills next.
pub open spec fn back_slot(v: ChannelView) -> nat {
    (v.front + v.committed) % 2
}

/// The block the producer holds or would be handed next.
pub open spec fn staged(v: ChannelView) -> Seq<u8> {
    v.slots[back_slot(v) as int]
}

/// Committed blocks, oldest first.
pub open spec fn queue(v: ChannelView) -> Seq<Seq<u8>> {
    if v.committed == 0 {
        Seq::empty()
    } else if v.committed == 1 {
        seq![v.slots[v.front as int]]
    } else {
        seq![v.slots[v.front as int], v.slots[((v.front + 1) % 2) as int]]
    }
}

/// Blocks away from the free pool: committed ones and the one the producer holds.
pub open spec fn blocks_outstanding(v: ChannelView) -> nat {
    v.committed + if v.writing { 1nat } else { 0nat }
}

/// Blocks the producer could still take.
pub open spec fn free_blocks(v: ChannelView) -> int {
    2 - blocks_outstanding(v)
}

/// Each block is owned by one side: at most two are away from the pool, the
/// consumer holds only a committed block, every block fits the capacity.
pub open spec fn channel_wf(v: ChannelView) -> bool {
    &&& v.slots.len() == 2
    &&& v.front < 2
    &&& blocks_outstanding(v) <= 2
    &&& v.reading ==> v.committed >= 1
    &&& forall|i: int| 0 <= i < 2 ==> #[trigger] v.slots[i].len() <= v.capacity
}

/// The producer gets a block when it already holds one or one is free.
pub open spec fn write_granted(v: ChannelView) -> bool {
    v.writing || v.committed < 2
}

pub open spec fn after_acquire_for_write(v: ChannelView) -> ChannelView {
    if write_granted(v) {
        ChannelView { writing: true, ..v }
    } else {
        v
    }
}

pub open spec fn fits(v: ChannelView, data: Seq<u8>) -> bool {
    data.len() <= v.capacity
}

pub open spec fn after_fill(v: ChannelView, data: Seq<u8>) -> ChannelView {
    if fits(v, data) {
        ChannelView { slots: v.slots.update(back_slot(v) as int, data), ..v }
    } else {
        v
    }
}

pub open spec fn after_commit(v: ChannelView) -> ChannelView {
    ChannelView { committed: v.committed + 1, writing: false, ..v }
}

/// The consumer gets a block when one is committed.
pub open spec fn read_granted(v: ChannelView) -> bool {
    v.committed > 0
}

pub open spec fn after_acquire_for_read(v: ChannelView) -> ChannelView {
    if read_granted(v) {
        ChannelView { reading: true, ..v }
    } else {
        v
    }
}

pub open spec fn after_release(v: ChannelView) -> ChannelView {
    ChannelView {
        front: (v.front + 1) % 2,
        committed: (v.committed - 1) as nat,
        reading: false,
        ..v
    }
}

/// Every operation keeps each block with exactly one owner: at most two blocks
/// are away from the free pool, in every state the operations can reach.
pub proof fn lemma_single_owner_kept(v: ChannelView, data: Seq<u8>)
    requires
        channel_wf(v),
    ensures
        blocks_outstanding(v) <= 2,
        channel_wf(after_acquire_for_write(v)),
        v.writing ==> channel_wf(after_fill(v, data)),
        v.writing ==> channel_wf(after_commit(v)),
        channel_wf(after_acquire_for_read(v)),
        v.reading ==> channel_wf(after_release(v)),
{
    if v.writing && fits(v, data) {
        let w = after_fill(v, data);
        assert forall|i: int| 0 <= i < 2 implies #[trigger] w.slots[i].len() <= w.capacity by {
            if i != back_slot(v) as int {
                assert(w.slots[i] == v.slots[i]);
            }
        }
    }
}

/// A producer that finds no free block stays refused whatever else the
/// producer or consumer asks for, until the consumer releases a block; after
/// that release it is served.
pub proof fn lemma_full_producer_waits_for_release(v: ChannelView)
    requires
        channel_wf(v),
        !v.writing,
        free_blocks(v) == 0,
    ensures
        !write_granted(v),
        after_acquire_for_write(v) == v,
        !write_granted(after_acquire_for_read(v)),
        v.reading ==> free_blocks(after_release(v)) == 1,
        v.reading ==> write_granted(after_release(v)),
{
}

/// A fixed pool of two sample blocks exchanged between one producer and one
/// consumer in commit order.
pub struct SampleChannel {
    slot_a: Vec<u8>,
    slot_b: Vec<u8>,
    front: usize,
    committed: usize,
    writing: bool,
    reading: bool,
    capacity: usize,
}

/// Makes `dst` hold exactly the bytes of `src`, reusing its storage.
fn copy_into(dst: &mut Vec<u8>, src: &[u8])
    ensures
        final(dst)@ == src@,
{
    dst.clear();
    let mut i: usize = 0;
    while i < src.len()
        invariant
            i <= src@.len(),
            dst@ == src@.subrange(0, i as int),
        decreases src@.len() - i,
    {
        dst.push(src[i]);
        i = i + 1;
        assert(dst@ =~= src@.subrange(0, i as int));
    }
    assert(dst@ =~= src@);
}

impl View for SampleChannel {
    type V = ChannelView;

    closed spec fn view(&self) -> ChannelView {
        ChannelView {
            slots: seq![self.slot_a@, self.slot_b@],
            front: self.front as nat,
            committed: self.committed as nat,
            writing: self.writing,
            reading: self.reading,
            capacity: self.capacity as nat,
        }
    }
}

impl SampleChannel {
    pub open spec fn wf(&self) -> bool {
        channel_wf(self@)
    }

    /// Two empty blocks of `capacity` bytes each, both free.
    pub fn new(capacity: usize) -> (r: SampleChannel)
        ensures
            r.wf(),
            r@.slots == seq![Seq::<u8>::empty(), Seq::<u8>::empty()],
            r@.front == 0,
            r@.committed == 0,
            !r@.writing,
            !r@.reading,
            r@.capacity == capacity,
            queue(r@) == Seq::<Seq<u8>>::empty(),
            free_blocks(r@) == 2,
    {
        SampleChannel {
            slot_a: Vec::with_capacity(capacity),
            slot_b: Vec::with_capacity(capacity),
            front: 0,
            committed: 0,
            writing: false,
            reading: false,
            capacity,
        }
    }

    /// The producer takes the next free block, or keeps the one it holds.
    /// `false` means both blocks are on the consumer side: the producer has to
    /// wait for a release.
    pub fn acquire_for_write(&mut self) -> (r: bool)
        requires
            old(self).wf(),
        ensures
            final(self).wf(),
            r == write_granted(old(self)@),
            final(self)@ == after_acquire_for_write(old(self)@),
            blocks_outstanding(final(self)@) <= 2,
    {
        if self.writing || self.committed < 2 {
            self.writing = true;
            true
        } else {
            false
        }
    }

    /// The producer writes `data` into the block it holds. `false`, with
    /// nothing changed, when `data` is longer than a block.
    pub fn fill(&mut self, data: &[u8]) -> (r: bool)
        requires
            old(self).wf(),
            old(self)@.writing,
        ensures
            final(self).wf(),
            r == fits(old(self)@, data@),
            final(self)@ == after_fill(old(self)@, data@),
            r ==> staged(final(self)@) == data@,
            queue(final(self)@) == queue(old(self)@),
    {
        if data.len() > self.capacity {
            return false;
        }
        if (self.front + self.committed) % 2 == 0 {
            copy_into(&mut self.slot_a, data);
        } else {
            copy_into(&mut self.slot_b, data);
        }
        assert(self@.slots =~= old(self)@.slots.update(back_slot(old(self)@) as int, data@));
        true
    }

    /// The producer hands the block it holds to the consumer side, behind the
    /// blocks committed before it.
    pub fn commit(&mut self)
        requires
            old(self).wf(),
            old(self)@.writing,
        ensures
            final(self).wf(),
            final(self)@ == after_commit(old(self)@),
            queue(final(self)@) == queue(old(self)@).push(staged(old(self)@)),
            blocks_outstanding(final(self)@) <= 2,
    {
        self.committed = self.committed + 1;
        self.writing = false;
        assert(queue(self@) =~= queue(old(self)@).push(staged(old(self)@)));
    }

    /// The consumer takes the oldest committed block, or keeps the one it
    /// holds. `false` means nothing is committed yet.
    pub fn acquire_for_read(&mut self) -> (r: bool)
        requires
            old(self).wf(),
        ensures
            final(self).wf(),
            r == read_granted(old(self)@),
            final(self)@ == after_acquire_for_read(old(self)@),
    {
        if self.committed > 0 {
            self.reading = true;
            true
        } else {
            false
        }
    }

    /// The bytes of the block the consumer holds.
    pub fn read_block(&self) -> (r: &Vec<u8>)
        requires
            self.wf(),
            self@.reading,
        ensures
            r@ == queue(self@)[0],
    {
        if self.front == 0 {
            &self.slot_a
        } else {
            &self.slot_b
        }
    }

    /// The consumer returns the block it holds to the free pool.
    pub fn release(&mut self)
        requires
            old(self).wf(),
            old(self)@.reading,
        ensures
            final(self).wf(),
            final(self)@ == after_release(old(self)@),
            queue(final(self)@) == queue(old(self)@).drop_first(),
            staged(final(self)@) == staged(old(self)@),
            blocks_outstanding(final(self)@) < 2,
    {
        self.front = (self.front + 1) % 2;
        self.committed = self.committed - 1;
        self.reading = false;
        assert(queue(self@) =~= queue(old(self)@).drop_first());
    }
}

/// What became of one inbound transfer.
#[derive(Debug, PartialEq, Eq, Structural)]
pub enum Delivery {
    /// Written into a block and committed to the consumer side.
    Stored,
    /// Both blocks are on the consumer side; the transfer has to wait for a release.
    NoFreeBlock,
    /// Longer than a block; the producer keeps its block and commits nothing.
    Oversized,
}

/// Moves one inbound transfer into the channel: take a block, write the
/// bytes into it, commit it.
pub fn deliver_transfer(chan: &mut SampleChannel, data: &[u8]) -> (r: Delivery)
    requires
        old(chan).wf(),
    ensures
        final(chan).wf(),
        !write_granted(old(chan)@) ==> r == Delivery::NoFreeBlock && final(chan)@ == old(chan)@,
        write_granted(old(chan)@) && !fits(old(chan)@, data@) ==> {
            &&& r == Delivery::Oversized
            &&& final(chan)@ == after_acquire_for_write(old(chan)@)
        },
        write_granted(old(chan)@) && fits(old(chan)@, data@) ==> {
            &&& r == Delivery::Stored
            &&& final(chan)@ == after_commit(after_fill(after_acquire_for_write(old(chan)@), data@))
            &&& queue(final(chan)@) == queue(old(chan)@).push(data@)
        },
{
    if !chan.acquire_for_write() {
        return Delivery::NoFreeBlock;
    }
    if !chan.fill(data) {
        return Delivery::Oversized;
    }
    chan.commit();
    Delivery::Stored
}

} // verus!
