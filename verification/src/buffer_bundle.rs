//! The buffer resource.
//!
//! A buffer bundle owns one device buffer handle and the memory bound to
//! it. The device reports a requirement size that may exceed the requested
//! size; the allocation covers the full requirement, and an optionally
//! retained CPU mapping addresses exactly that many bytes. The mapping is
//! modeled as a bounded byte range with bounds-checked writes, so an
//! out-of-range update is an error, never a stray write. Release is an
//! explicit, single-use operation: it consumes the bundle and yields the
//! teardown steps the device owner must perform, in order.

use vstd::prelude::*;

use crate::errors::MemoryWritingError;
use vstd::pervasive::VecAdditionalExecFns;

verus! {

/// Buffer usage bit for a transfer source, as staging buffers are tagged.
pub const USAGE_TRANSFER_SRC: u32 = 0x1;

/// One device-side teardown action. A resource's release yields these in
/// the order the device must perform them.
#[derive(Clone, Copy, Debug, PartialEq, Eq, Structural)]
pub enum TeardownStep {
    DestroyBuffer,
    DestroySampler,
    DestroyImage,
    DestroyImageView,
    FreeMemory,
}

/// A byte range with `data` written at `offset` and every other byte kept.
pub open spec fn spec_write(m: Seq<u8>, data: Seq<u8>, offset: int) -> Seq<u8> {
    Seq::new(m.len(), |i: int| if offset <= i < offset + data.len() { data[i - offset] } else { m[i] })
}

/// A buffer handle with its bound memory and, when created map-on-create,
/// the persistently mapped CPU range.
pub struct BufferBundle {
    /// The size the device reported for the buffer's memory requirement;
    /// the allocation and any mapping cover exactly this many bytes.
    pub requirements_size: u64,
    /// The usage flags the buffer was created with.
    pub usage: u32,
    /// The mapped CPU range, present for the resource's entire lifetime
    /// iff it was created map-on-create.
    pub mapped: Option<Vec<u8>>,
}

impl BufferBundle {
    /// The mapping, when present, addresses exactly the requirement size.
    pub open spec fn wf(self) -> bool {
        match self.mapped {
            Some(m) => m@.len() == self.requirements_size,
            None => true,
        }
    }

    /// The bytes of the mapped range.
    pub open spec fn mapped_bytes(self) -> Seq<u8> {
        self.mapped->0@
    }

    /// Builds the bundle for a buffer of `size` bytes whose memory
    /// requirement came back as `requirements_size`; a map-on-create
    /// bundle retains a mapping of the full requirement range, zeroed.
    pub fn new(size: u64, requirements_size: u64, usage: u32, map_on_create: bool) -> (b: BufferBundle)
        requires
            size <= requirements_size,
            map_on_create ==> requirements_size <= usize::MAX,
        ensures
            b.wf(),
            b.requirements_size == requirements_size,
            b.usage == usage,
            b.mapped is Some <==> map_on_create,
            map_on_create ==> b.mapped_bytes() == Seq::new(requirements_size as nat, |i: int| 0u8),
    {
        let mapped = if map_on_create {
            let mut m: Vec<u8> = Vec::new();
            let mut i: u64 = 0;
            while i < requirements_size
                invariant
                    0 <= i <= requirements_size,
                    requirements_size <= usize::MAX,
                    m@ == Seq::new(i as nat, |j: int| 0u8),
                decreases requirements_size - i,
            {
                m.push(0u8);
                proof {
                    assert(m@ =~= Seq::new((i + 1) as nat, |j: int| 0u8));
                }
                i = i + 1;
            }
            Some(m)
        } else {
            None
        };
        BufferBundle { requirements_size, usage, mapped }
    }

    /// Copies `data` into the mapped range at `offset`. A write that would
    /// run past the requirement size fails without touching a byte. No
    /// synchronization is performed: the caller must flush afterwards when
    /// the memory type is not coherent.
    pub fn update_buffer(&mut self, data: &Vec<u8>, offset: usize) -> (r: Result<(), MemoryWritingError>)
        requires
            old(self).wf(),
            old(self).mapped is Some,
        ensures
            final(self).wf(),
            final(self).mapped is Some,
            final(self).requirements_size == old(self).requirements_size,
            final(self).usage == old(self).usage,
            match r {
                Ok(()) => {
                    &&& offset + data@.len() <= old(self).requirements_size
                    &&& final(self).mapped_bytes() == spec_write(old(self).mapped_bytes(), data@, offset as int)
                },
                Err(e) => {
                    &&& e == MemoryWritingError::OutOfBounds
                    &&& offset + data@.len() > old(self).requirements_size
                    &&& final(self).mapped_bytes() == old(self).mapped_bytes()
                },
            },
    {
        let data_len = data.len();
        if (offset as u64) > self.requirements_size
            || (data_len as u64) > self.requirements_size - (offset as u64) {
            return Err(MemoryWritingError::OutOfBounds);
        }
        let mut m = self.mapped.take().unwrap();
        let m_len: usize = m.len();
        let mut i: usize = 0;
        while i < data_len
            invariant
                0 <= i <= data_len,
                data_len == data@.len(),
                offset + data_len <= m@.len(),
                m@.len() == m_len,
                m@.len() == old(self).mapped_bytes().len(),
                forall|j: int| 0 <= j < m@.len() && !(offset <= j < offset + i) ==> m@[j] == old(self).mapped_bytes()[j],
                forall|j: int| offset <= j < offset + i ==> m@[j] == data@[j - offset],
            decreases data_len - i,
        {
            m.set(offset + i, data[i]);
            i = i + 1;
        }
        proof {
            assert(m@ =~= spec_write(old(self).mapped_bytes(), data@, offset as int));
        }
        self.mapped = Some(m);
        Ok(())
    }

    /// Reads `len` bytes of the mapped range starting at `offset`.
    pub fn read_mapped(&self, offset: usize, len: usize) -> (out: Vec<u8>)
        requires
            self.wf(),
            self.mapped is Some,
            offset + len <= self.requirements_size,
        ensures
            out@ == self.mapped_bytes().subrange(offset as int, offset + len),
    {
        let m = self.mapped.as_ref().unwrap();
        let m_len: usize = m.len();
        let mut out: Vec<u8> = Vec::new();
        let mut i: usize = 0;
        while i < len
            invariant
                0 <= i <= len,
                offset + len <= m@.len(),
                m@.len() == m_len,
                m@ == self.mapped_bytes(),
                out@ == self.mapped_bytes().subrange(offset as int, offset + i),
            decreases len - i,
        {
            out.push(m[offset + i]);
            proof {
                assert(out@ =~= self.mapped_bytes().subrange(offset as int, offset + i + 1));
            }
            i = i + 1;
        }
        out
    }

    /// Advisory capacity check: whether the requirement covers `size` bytes.
    pub fn has_room(&self, size: u64) -> (r: bool)
        ensures
            r == (self.requirements_size >= size),
    {
        self.requirements_size >= size
    }

    /// The memory range a flush must cover to make CPU writes visible to
    /// the device: the full mapped range, from byte 0 to the requirement
    /// size.
    pub fn flush(&self) -> (range: (u64, u64))
        ensures
            range.0 == 0,
            range.1 == self.requirements_size,
    {
        (0, self.requirements_size)
    }

    /// Releases the bundle. Ownership is consumed: the bundle cannot be
    /// used or released again. The caller must perform the returned steps
    /// in order against the device that created the buffer: the buffer is
    /// destroyed first, and only then is its memory freed, since a buffer
    /// must not outlive the memory it is bound to.
    pub fn manually_drop(self) -> (steps: Vec<TeardownStep>)
        ensures
            steps@ == spec_buffer_teardown(),
    {
        let mut steps: Vec<TeardownStep> = Vec::new();
        steps.push(TeardownStep::DestroyBuffer);
        steps.push(TeardownStep::FreeMemory);
        proof {
            assert(steps@ =~= spec_buffer_teardown());
        }
        steps
    }
}

/// The teardown order of a buffer resource.
pub open spec fn spec_buffer_teardown() -> Seq<TeardownStep> {
    seq![TeardownStep::DestroyBuffer, TeardownStep::FreeMemory]
}

/// A buffer's teardown destroys the buffer handle strictly before it frees
/// the memory, and does nothing else.
pub proof fn lemma_buffer_teardown_order()
    ensures
        spec_buffer_teardown().len() == 2,
        spec_buffer_teardown()[0] == TeardownStep::DestroyBuffer,
        spec_buffer_teardown()[1] == TeardownStep::FreeMemory,
{
}

/// Writing `data` at `offset` and reading the same range back yields
/// exactly `data`, whatever the mapped range held before.
pub proof fn lemma_update_readback(m: Seq<u8>, data: Seq<u8>, offset: int)
    requires
        0 <= offset,
        offset + data.len() <= m.len(),
    ensures
        spec_write(m, data, offset).subrange(offset, offset + data.len()) == data,
{
    assert(spec_write(m, data, offset).subrange(offset, offset + data.len()) =~= data);
}

/// A write leaves every byte outside `[offset, offset + data.len())`
/// unchanged.
pub proof fn lemma_update_frame(m: Seq<u8>, data: Seq<u8>, offset: int)
    requires
        0 <= offset,
        offset + data.len() <= m.len(),
    ensures
        forall|j: int|
            0 <= j < m.len() && !(offset <= j < offset + data.len())
                ==> spec_write(m, data, offset)[j] == m[j],
{
}

} // verus!
