//! Reuse policy of the vertex buffer.
//!
//! The vertex buffer holds one record per glyph quad. Its capacity is kept
//! apart from the number of records in use and only ever grows: an upload that
//! fits overwrites the front of the buffer, and only an upload that does not
//! fit reallocates it, to exactly the new number of records.

use crate::layout::VERTEX_BYTES;
use vstd::prelude::*;

verus! {

/// How the graphics buffer takes an upload. `bytes` is the length of the
/// uploaded records in bytes.
#[derive(Clone, Copy, Debug, PartialEq, Eq)]
pub enum Upload {
    /// Allocate the buffer anew with room for exactly the uploaded records.
    Reallocate { bytes: isize },
    /// Write the records over the front of the buffer as it is.
    Overwrite { bytes: isize },
}

/// What a vertex buffer stands for: the records in use and the records it has
/// room for.
pub struct BufferState {
    pub count: nat,
    pub capacity: nat,
}

/// The bookkeeping of a vertex buffer.
#[derive(Clone, Copy, Debug, PartialEq, Eq)]
pub struct VertexBuffer {
    count: usize,
    capacity: usize,
}

/// The capacity of a buffer of capacity `capacity` after an upload of `count`
/// records.
pub open spec fn grown(capacity: nat, count: nat) -> nat {
    if capacity < count {
        count
    } else {
        capacity
    }
}

/// The capacity of a buffer of capacity `capacity` after uploads of
/// `counts[0]`, `counts[1]`, ... records, in this order.
pub open spec fn capacity_after(capacity: nat, counts: Seq<nat>) -> nat
    decreases counts.len(),
{
    if counts.len() == 0 {
        capacity
    } else {
        grown(capacity_after(capacity, counts.drop_last()), counts.last())
    }
}

impl View for VertexBuffer {
    type V = BufferState;

    closed spec fn view(&self) -> BufferState {
        BufferState { count: self.count as nat, capacity: self.capacity as nat }
    }
}

impl VertexBuffer {
    #[verifier::type_invariant]
    spec fn fits(self) -> bool {
        self.count <= self.capacity
    }

    /// An empty buffer without any room.
    pub fn new() -> (buffer: VertexBuffer)
        ensures
            buffer@ == (BufferState { count: 0, capacity: 0 }),
    {
        VertexBuffer { count: 0, capacity: 0 }
    }

    /// The number of records in use: one instance is drawn for each. It never
    /// exceeds the capacity.
    pub fn vertex_count(&self) -> (count: usize)
        ensures
            count == self@.count,
            count <= self@.capacity,
    {
        proof {
            use_type_invariant(self);
        }
        self.count
    }

    /// The number of records the buffer has room for.
    pub fn capacity(&self) -> (capacity: usize)
        ensures
            capacity == self@.capacity,
            self@.count <= capacity,
    {
        proof {
            use_type_invariant(self);
        }
        self.capacity
    }

    /// Records an upload of `count` records and says how the graphics buffer
    /// takes it.
    ///
    /// The buffer is reallocated exactly when the records do not fit; its
    /// capacity then becomes `count`. Otherwise the capacity stays as it is,
    /// however few records are uploaded.
    pub fn upload(&mut self, count: usize) -> (upload: Upload)
        requires
            count * VERTEX_BYTES <= isize::MAX,
        ensures
            final(self)@.count == count,
            final(self)@.capacity == grown(old(self)@.capacity, count as nat),
            upload == if old(self)@.capacity < count {
                Upload::Reallocate { bytes: (count * VERTEX_BYTES) as isize }
            } else {
                Upload::Overwrite { bytes: (count * VERTEX_BYTES) as isize }
            },
    {
        let bytes: isize = (count * VERTEX_BYTES) as isize;
        if self.capacity < count {
            *self = VertexBuffer { count, capacity: count };
            Upload::Reallocate { bytes }
        } else {
            *self = VertexBuffer { count, capacity: self.capacity };
            Upload::Overwrite { bytes }
        }
    }
}

/// The capacity never shrinks over a run of uploads: after more uploads it is
/// at least what it was after fewer.
pub proof fn lemma_capacity_never_shrinks(capacity: nat, counts: Seq<nat>, earlier: int, later: int)
    requires
        0 <= earlier <= later <= counts.len(),
    ensures
        capacity <= capacity_after(capacity, counts.take(earlier)),
        capacity_after(capacity, counts.take(earlier)) <= capacity_after(capacity, counts.take(later)),
    decreases later,
{
    if later == 0 {
        assert(counts.take(0).len() == 0);
    } else if earlier < later {
        assert(counts.take(later).drop_last() =~= counts.take(later - 1));
        lemma_capacity_never_shrinks(capacity, counts, earlier, later - 1);
    } else {
        assert(counts.take(earlier).drop_last() =~= counts.take(earlier - 1));
        lemma_capacity_never_shrinks(capacity, counts, earlier - 1, earlier - 1);
    }
}

/// After a run of uploads the buffer has room for each of them.
pub proof fn lemma_capacity_holds_every_upload(capacity: nat, counts: Seq<nat>, i: int)
    requires
        0 <= i < counts.len(),
    ensures
        counts[i] <= capacity_after(capacity, counts),
{
    assert(counts.take(counts.len() as int) =~= counts);
    assert(counts.take(i + 1).drop_last() =~= counts.take(i));
    assert(counts.take(i + 1).last() == counts[i]);
    lemma_capacity_never_shrinks(capacity, counts, i + 1, counts.len() as int);
}

/// An upload that fits leaves the capacity as it is, and the buffer is
/// reallocated only by an upload of more records than any before it had room
/// for.
pub proof fn lemma_reallocation_only_on_growth(capacity: nat, counts: Seq<nat>, count: nat)
    ensures
        count <= capacity_after(capacity, counts) ==> capacity_after(capacity, counts.push(count))
            == capacity_after(capacity, counts),
        count > capacity_after(capacity, counts) ==> capacity_after(capacity, counts.push(count))
            == count,
{
    assert(counts.push(count).drop_last() =~= counts);
}

} // verus!
