//! Records staged on the CPU for a GPU buffer, and the write sessions that
//! flush them.
use vstd::prelude::*;
use vstd::slice::slice_subrange;

use crate::context::Context;

verus! {

/// Why a record was not staged.
#[derive(PartialEq, Eq, Structural, Clone, Copy, Debug)]
pub enum StagingError {
    /// The buffer already holds as many records as it was created for.
    Full,
}

/// An ordered list of records that never grows past its capacity.
pub struct StagedRecords<T> {
    data: Vec<T>,
    capacity: u32,
}

impl<T> StagedRecords<T> {
    /// The records, in the order they were staged.
    pub closed spec fn records(&self) -> Seq<T> {
        self.data@
    }

    /// How many records the list can hold.
    pub closed spec fn capacity(&self) -> nat {
        self.capacity as nat
    }

    /// The list holds no more records than its capacity.
    pub closed spec fn wf(&self) -> bool {
        self.data@.len() <= self.capacity
    }

    /// An empty list with room for `capacity` records.
    pub fn with_capacity(capacity: u32) -> (r: StagedRecords<T>)
        ensures
            r.wf(),
            r.records() == Seq::<T>::empty(),
            r.capacity() == capacity,
    {
        StagedRecords { data: Vec::with_capacity(capacity as usize), capacity }
    }

    /// How many records are staged.
    pub fn len(&self) -> (r: u32)
        requires
            self.wf(),
        ensures
            r == self.records().len(),
    {
        self.data.len() as u32
    }

    /// Drops every staged record.
    pub fn clear(&mut self)
        ensures
            final(self).wf(),
            final(self).records() == Seq::<T>::empty(),
            final(self).capacity() == old(self).capacity(),
    {
        self.data.clear();
    }

    /// Appends `record`, or leaves the list as it is and reports `Full`
    /// when it is at capacity.
    pub fn push(&mut self, record: T) -> (r: Result<(), StagingError>)
        requires
            old(self).wf(),
        ensures
            final(self).wf(),
            final(self).capacity() == old(self).capacity(),
            old(self).records().len() < old(self).capacity() ==> {
                &&& r == Ok::<(), StagingError>(())
                &&& final(self).records() == old(self).records().push(record)
            },
            old(self).records().len() >= old(self).capacity() ==> {
                &&& r == Err::<(), StagingError>(StagingError::Full)
                &&& final(self).records() == old(self).records()
            },
    {
        if self.data.len() < self.capacity as usize {
            self.data.push(record);
            Ok(())
        } else {
            Err(StagingError::Full)
        }
    }

    /// The records staged from index `start` on.
    pub fn pending(&self, start: u32) -> (r: &[T])
        requires
            self.wf(),
            start <= self.records().len(),
        ensures
            r@ == self.records().subrange(start as int, self.records().len() as int),
    {
        slice_subrange(self.data.as_slice(), start as usize, self.data.len())
    }
}

/// The usage flags of a GPU buffer, as wgpu's bits.
#[derive(PartialEq, Eq, Structural, Clone, Copy, Debug)]
pub struct BufferUsage {
    pub bits: u32,
}

/// wgpu's bit for a buffer that receives copies and queued writes.
pub const COPY_DST: u32 = 8;

/// wgpu's bits for the mapping usages, which exclude most others.
pub const MAP_BITS: u32 = 3;

/// wgpu's bit for index data.
pub const INDEX: u32 = 16;

/// wgpu's bits for vertex, uniform, storage and indirect data, which index
/// data may not share a buffer with on every device.
pub const NON_INDEX_DATA: u32 = 480;

impl BufferUsage {
    /// A usage that a staging buffer can be created with: no mapping, and
    /// index data not mixed with other data.
    pub open spec fn valid(self) -> bool {
        &&& self.bits & MAP_BITS == 0
        &&& (self.bits & INDEX == 0 || self.bits & NON_INDEX_DATA == 0)
    }

    /// Vertex data.
    pub fn vertex() -> (r: BufferUsage)
        ensures
            r.bits == 32,
    {
        BufferUsage { bits: 32 }
    }

    /// Index data.
    pub fn index() -> (r: BufferUsage)
        ensures
            r.bits == 16,
    {
        BufferUsage { bits: 16 }
    }

    /// Uniform data.
    pub fn uniform() -> (r: BufferUsage)
        ensures
            r.bits == 64,
    {
        BufferUsage { bits: 64 }
    }

    /// The same usage, able to receive staged writes as well.
    pub fn with_copy_dst(self) -> (r: BufferUsage)
        ensures
            r.bits == self.bits | COPY_DST,
            r.bits & COPY_DST == COPY_DST,
            self.valid() ==> r.valid(),
    {
        let old_bits: u32 = self.bits;
        let bits: u32 = old_bits | COPY_DST;
        assert(bits & 8u32 == 8u32
            && (old_bits & 3u32 == 0u32 ==> bits & 3u32 == 0u32)
            && (old_bits & 16u32 == 0u32 ==> bits & 16u32 == 0u32)
            && (old_bits & 480u32 == 0u32 ==> bits & 480u32 == 0u32)) by (bit_vector)
            requires
                bits == old_bits | 8u32,
        ;
        BufferUsage { bits }
    }
}

/// What the queued writes leave in a buffer of record slots: `records`
/// from slot `start` on, and the earlier contents elsewhere. A slot that no
/// write reached is absent.
pub open spec fn written<T>(slots: Map<int, T>, start: int, records: Seq<T>) -> Map<int, T> {
    Map::new(
        |i: int| slots.dom().contains(i) || start <= i < start + records.len(),
        |i: int|
            if start <= i < start + records.len() {
                records[i - start]
            } else {
                slots[i]
            },
    )
}

/// Flushing a session that began with `before` staged and pushed `pushed`
/// leaves exactly the pushed records, in push order, in the slots from
/// `before.len()` on, and every other slot as it was.
pub proof fn lemma_flush_writes_session<T>(slots: Map<int, T>, before: Seq<T>, pushed: Seq<T>)
    ensures
        ({
            let start = before.len() as int;
            let session = (before + pushed).subrange(start, start + pushed.len());
            let after = written(slots, start, session);
            &&& forall|i: int| 0 <= i < pushed.len() ==> after.dom().contains(start + i) && after[start + i] == pushed[i]
            &&& forall|j: int| !(start <= j < start + pushed.len()) ==> (after.dom().contains(j) == slots.dom().contains(j) && (slots.dom().contains(j) ==> after[j] == slots[j]))
        }),
{
    let start = before.len() as int;
    let session = (before + pushed).subrange(start, start + pushed.len());
    assert(session =~= pushed);
}

/// After `clear`, a session starts at slot zero, and so at byte offset zero:
/// its flush puts exactly the records pushed in it at the front of the
/// buffer, and nothing staged before the clear.
pub proof fn lemma_cleared_session_at_front<T>(slots: Map<int, T>, pushed: Seq<T>)
    ensures
        ({
            let session = (Seq::<T>::empty() + pushed).subrange(0, pushed.len() as int);
            let after = written(slots, 0, session);
            &&& forall|i: int| 0 <= i < pushed.len() ==> after.dom().contains(i) && after[i] == pushed[i]
            &&& forall|j: int| !(0 <= j < pushed.len()) ==> (after.dom().contains(j) == slots.dom().contains(j) && (slots.dom().contains(j) ==> after[j] == slots[j]))
        }),
{
    lemma_flush_writes_session(slots, Seq::<T>::empty(), pushed);
}

/// A GPU buffer of `T` records, with its size and usage, and a model of
/// what the writes queued into it have put in each record slot.
pub struct GpuBuffer<T> {
    buffer: wgpu::Buffer,
    device_id: wgpu::Id<wgpu::Device>,
    size: u64,
    usage_bits: u32,
    slots: Ghost<Map<int, T>>,
}

impl<T> GpuBuffer<T> {
    /// The buffer's size in bytes.
    pub closed spec fn size(&self) -> u64 {
        self.size
    }

    /// The usage bits the buffer was created with.
    pub closed spec fn usage_bits(&self) -> u32 {
        self.usage_bits
    }

    /// What each record slot holds after the writes queued through the
    /// library.
    pub closed spec fn slots(&self) -> Map<int, T> {
        self.slots@
    }

    /// The identity of the device the buffer was created on.
    pub closed spec fn device_id(&self) -> wgpu::Id<wgpu::Device> {
        self.device_id
    }
}

/// Relies on `wgpu::Device::create_buffer`, unmapped, of `size` bytes with
/// the usage flags whose bits are given (unknown bits dropped); nothing has
/// been written to it. wgpu panics on a size above the device's buffer
/// limit; on an empty usage; on a mapping usage beside other ones; and on an
/// index usage beside a vertex, uniform, storage or indirect one without a
/// downlevel flag. Those are left out. The buffer belongs to the context's
/// device.
#[verifier::external_body]
fn create_gpu_buffer<T>(context: &Context, size: u64, usage_bits: u32) -> (r: GpuBuffer<T>)
    requires
        size <= context.max_buffer_size(),
        usage_bits & 3 == 0,
        usage_bits & 1020 != 0,
        usage_bits & 16 == 0 || usage_bits & 480 == 0,
    ensures
        r.size() == size,
        r.usage_bits() == usage_bits,
        r.slots().dom().is_empty(),
        r.device_id() == context.device_id(),
{
    let buffer = context.device().create_buffer(&wgpu::BufferDescriptor {
        label: None,
        size,
        usage: wgpu::BufferUsages::from_bits_truncate(usage_bits),
        mapped_at_creation: false,
    });
    GpuBuffer { buffer, device_id: context.device().global_id(), size, usage_bits, slots: Ghost(Map::empty()) }
}

/// Relies on `wgpu::Queue::write_buffer`, with the records cast to their
/// bytes by `bytemuck::cast_slice`: enqueues a write of the records into
/// the buffer at byte `offset`, that is from record slot `start` on. wgpu
/// panics on a buffer of another device, on one that cannot receive copies,
/// on an offset or a length that is not a multiple of four, and on a write
/// past the buffer's end; those are left out.
#[verifier::external_body]
fn write_records<T: bytemuck::Pod>(context: &Context, target: &mut GpuBuffer<T>, start: u32, offset: u64, records: &[T])
    requires
        old(target).device_id() == context.device_id(),
        old(target).usage_bits() & 8 == 8,
        offset == start * size_of::<T>(),
        offset % 4 == 0,
        (records@.len() * size_of::<T>()) % 4 == 0,
        offset + records@.len() * size_of::<T>() <= old(target).size(),
    ensures
        final(target).size() == old(target).size(),
        final(target).usage_bits() == old(target).usage_bits(),
        final(target).device_id() == old(target).device_id(),
        final(target).slots() == written(old(target).slots(), start as int, records@),
{
    context.queue().write_buffer(&target.buffer, offset, bytemuck::cast_slice(records));
}

/// Relies on `PartialEq` for `wgpu::Id`, which compares the ids' numbers:
/// whether two device identities are the same.
#[verifier::external_body]
fn same_device(a: &wgpu::Id<wgpu::Device>, b: &wgpu::Id<wgpu::Device>) -> (r: bool)
    ensures
        r == (*a == *b),
{
    a == b
}

/// A GPU buffer of fixed capacity, and the records staged on the CPU for it.
pub struct CpuBuffer<T> {
    gpu: GpuBuffer<T>,
    data: StagedRecords<T>,
}

impl<T: bytemuck::Pod> CpuBuffer<T> {
    /// The staged records fit the capacity, the GPU buffer holds exactly
    /// `capacity` records and can receive writes, and whole records land on
    /// the four-byte steps that queued writes need.
    pub closed spec fn wf(&self) -> bool {
        &&& self.data.wf()
        &&& self.gpu.size() == self.data.capacity() * size_of::<T>()
        &&& self.gpu.usage_bits() & COPY_DST == COPY_DST
        &&& size_of::<T>() % 4 == 0
    }

    /// The records staged on the CPU, in order.
    pub closed spec fn records(&self) -> Seq<T> {
        self.data.records()
    }

    /// How many records the GPU buffer has room for.
    pub closed spec fn capacity(&self) -> nat {
        self.data.capacity()
    }

    /// The GPU buffer's size in bytes.
    pub closed spec fn gpu_size(&self) -> u64 {
        self.gpu.size()
    }

    /// The usage bits that the GPU buffer was created with.
    pub closed spec fn gpu_usage(&self) -> u32 {
        self.gpu.usage_bits()
    }

    /// The identity of the device that the GPU buffer belongs to.
    pub closed spec fn device_id(&self) -> wgpu::Id<wgpu::Device> {
        self.gpu.device_id()
    }

    /// What the writes queued so far through the library put in each record
    /// slot of the GPU buffer; a slot that no such write reached is absent.
    /// Writes made directly on `buffer()` are not covered.
    pub closed spec fn gpu_slots(&self) -> Map<int, T> {
        self.gpu.slots()
    }

    /// A GPU buffer of `capacity` records of `T`, able to receive staged
    /// writes besides the given usage, with nothing staged or written yet.
    pub fn with_capacity(context: &Context, capacity: u32, usage: BufferUsage) -> (r: CpuBuffer<T>)
        requires
            capacity * size_of::<T>() <= context.max_buffer_size(),
            size_of::<T>() % 4 == 0,
            usage.valid(),
        ensures
            r.wf(),
            r.records() == Seq::<T>::empty(),
            r.capacity() == capacity,
            r.gpu_size() == capacity * size_of::<T>(),
            r.gpu_usage() == usage.bits | COPY_DST,
            r.gpu_slots() == Map::<int, T>::empty(),
            r.device_id() == context.device_id(),
    {
        let record_size = core::mem::size_of::<T>();
        let size: u64 = capacity as u64 * record_size as u64;
        let usage = usage.with_copy_dst();
        let usage_bits: u32 = usage.bits;
        assert(usage_bits & 8u32 == 8u32 ==> usage_bits & 1020u32 != 0u32) by (bit_vector);
        let gpu = create_gpu_buffer(context, size, usage_bits);
        let r = CpuBuffer { gpu, data: StagedRecords::with_capacity(capacity) };
        assert(r.gpu_slots() =~= Map::<int, T>::empty());
        r
    }

    /// Whether the buffer is well formed, checked at run time.
    pub fn is_wf(&self) -> (r: bool)
        ensures
            r == self.wf(),
    {
        let record_size = core::mem::size_of::<T>();
        let capacity: u32 = self.data.capacity;
        let fits = self.data.data.len() <= capacity as usize;
        let bytes = (capacity as u64).checked_mul(record_size as u64);
        let sized = match bytes {
            Some(b) => b == self.gpu.size,
            None => false,
        };
        let usage_bits: u32 = self.gpu.usage_bits;
        fits && sized && usage_bits & COPY_DST == COPY_DST && record_size % 4 == 0
    }

    /// Opens a write session; records pushed in it are flushed by `finish`.
    pub fn batch<'a>(&'a mut self, context: &'a Context<'a>) -> (r: BufferBatch<'a, T>)
        requires
            old(self).wf(),
            old(self).device_id() == context.device_id(),
        ensures
            *r.buffer == *old(self),
            r.context == context,
            r.start_index == old(self).records().len(),
            *final(self) == *final(r.buffer),
    {
        let start_index = self.data.len();
        BufferBatch { buffer: self, context, start_index }
    }

    /// Runs `fill` on a write session and then, once `fill` has returned,
    /// flushes, exactly once, the records staged since the session began.
    /// The flush is skipped, and `false` returned, only when `fill` left the
    /// session's buffer broken or swapped for one of another device.
    pub fn batch_with<F>(&mut self, context: &Context, fill: F) -> (flushed: bool)
        where
            F: for<'b> FnOnce(&mut BufferBatch<'b, T>),
        requires
            old(self).wf(),
            old(self).device_id() == context.device_id(),
            forall|b: &mut BufferBatch<'_, T>| fill.requires((b,)),
        ensures
            exists|b: &mut BufferBatch<'_, T>| fill.ensures((b,), ()),
            flushed <==> (final(self).wf() && final(self).device_id() == context.device_id()),
            flushed ==> forall|i: int|
                old(self).records().len() <= i < final(self).records().len() ==> {
                    &&& final(self).gpu_slots().dom().contains(i)
                    &&& final(self).gpu_slots()[i] == final(self).records()[i]
                },
    {
        let start_index = self.data.len();
        {
            let mut batch = BufferBatch { buffer: &mut *self, context, start_index };
            fill(&mut batch);
        }
        if self.is_wf() && same_device(&self.gpu.device_id, &context.device_identity()) {
            let len = self.data.len();
            let start: u32 = if start_index <= len { start_index } else { len };
            self.flush_from(context, start);
            true
        } else {
            false
        }
    }

    /// Queues one write of the records staged from index `start` on, at
    /// their own offset in the GPU buffer.
    fn flush_from(&mut self, context: &Context, start: u32)
        requires
            old(self).wf(),
            old(self).device_id() == context.device_id(),
            start <= old(self).records().len(),
        ensures
            final(self).wf(),
            final(self).records() == old(self).records(),
            final(self).capacity() == old(self).capacity(),
            final(self).gpu_size() == old(self).gpu_size(),
            final(self).gpu_usage() == old(self).gpu_usage(),
            final(self).device_id() == old(self).device_id(),
            final(self).gpu_slots() == written(
                old(self).gpu_slots(),
                start as int,
                old(self).records().subrange(start as int, old(self).records().len() as int),
            ),
            old(self).records().len() * size_of::<T>() <= final(self).gpu_size(),
    {
        let ghost n = self.data.capacity();
        let ghost len = self.data.data@.len();
        let ghost size = size_of::<T>() as int;
        proof {
            assert(start * size <= n * size) by (nonlinear_arith)
                requires start <= n, size >= 0;
            assert(len * size <= n * size) by (nonlinear_arith)
                requires len <= n, size >= 0;
        }
        let offset = flush_offset::<T>(start);
        let pending = self.data.pending(start);
        proof {
            let k = pending@.len() as int;
            assert(k == len - start);
            assert(start * size + k * size == len * size) by (nonlinear_arith)
                requires k == len - start;
            vstd::arithmetic::div_mod::lemma_mul_mod_noop_right(start as int, size, 4);
            vstd::arithmetic::div_mod::lemma_mul_mod_noop_right(k, size, 4);
        }
        write_records(context, &mut self.gpu, start, offset, pending);
    }

    /// Drops every staged record; the GPU buffer keeps what it holds until
    /// the next flush writes over it.
    pub fn clear(&mut self)
        requires
            old(self).wf(),
        ensures
            final(self).wf(),
            final(self).records() == Seq::<T>::empty(),
            final(self).capacity() == old(self).capacity(),
            final(self).gpu_size() == old(self).gpu_size(),
            final(self).gpu_usage() == old(self).gpu_usage(),
            final(self).gpu_slots() == old(self).gpu_slots(),
            final(self).device_id() == old(self).device_id(),
    {
        self.data.clear();
    }

    /// How many records are staged; never more than the capacity.
    pub fn len(&self) -> (r: u32)
        requires
            self.wf(),
        ensures
            r == self.records().len(),
            r <= self.capacity(),
    {
        self.data.len()
    }

    /// How many more records fit.
    pub fn room(&self) -> (r: u32)
        requires
            self.wf(),
        ensures
            r == self.capacity() - self.records().len(),
    {
        self.data.capacity - self.data.len()
    }

    /// The GPU buffer, for binding in draw calls.
    pub fn buffer(&self) -> &wgpu::Buffer {
        &self.gpu.buffer
    }
}

/// A write session on a `CpuBuffer`: it holds the buffer exclusively and
/// remembers how many records were staged when it began.
pub struct BufferBatch<'a, T> {
    pub buffer: &'a mut CpuBuffer<T>,
    pub context: &'a Context<'a>,
    pub start_index: u32,
}

/// The byte offset of record `index` in a buffer of `T` records.
pub fn flush_offset<T>(index: u32) -> (r: u64)
    requires
        index * size_of::<T>() <= u64::MAX,
    ensures
        r == index * size_of::<T>(),
{
    let record_size = core::mem::size_of::<T>();
    index as u64 * record_size as u64
}

impl<'a, T: bytemuck::Pod> BufferBatch<'a, T> {
    /// The buffer is well formed and the session began within its records.
    pub open spec fn wf(&self) -> bool {
        &&& self.buffer.wf()
        &&& self.buffer.device_id() == self.context.device_id()
        &&& self.start_index <= self.buffer.records().len()
    }

    /// The records pushed in this session so far, in order.
    pub open spec fn session(&self) -> Seq<T> {
        self.buffer.records().subrange(self.start_index as int, self.buffer.records().len() as int)
    }

    /// Stages `record` at the end of the buffer's records and hands the
    /// session back for the next push; when the buffer is full, reports
    /// `Full` and stages nothing.
    pub fn push(&mut self, record: T) -> (r: Result<&mut Self, StagingError>)
        requires
            old(self).wf(),
        ensures
            old(self).buffer.records().len() < old(self).buffer.capacity() ==> {
                &&& r is Ok
                &&& *final(self) == *final(r->Ok_0)
                &&& r->Ok_0.wf()
                &&& r->Ok_0.start_index == old(self).start_index
                &&& r->Ok_0.context == old(self).context
                &&& *final(r->Ok_0.buffer) == *final(old(self).buffer)
                &&& r->Ok_0.buffer.capacity() == old(self).buffer.capacity()
                &&& r->Ok_0.buffer.gpu_size() == old(self).buffer.gpu_size()
                &&& r->Ok_0.buffer.gpu_usage() == old(self).buffer.gpu_usage()
                &&& r->Ok_0.buffer.gpu_slots() == old(self).buffer.gpu_slots()
                &&& r->Ok_0.buffer.device_id() == old(self).buffer.device_id()
                &&& r->Ok_0.buffer.records() == old(self).buffer.records().push(record)
            },
            old(self).buffer.records().len() >= old(self).buffer.capacity() ==> {
                &&& r == Err::<&mut Self, StagingError>(StagingError::Full)
                &&& final(self).wf()
                &&& final(self).start_index == old(self).start_index
                &&& final(self).context == old(self).context
                &&& *final(final(self).buffer) == *final(old(self).buffer)
                &&& final(self).buffer.capacity() == old(self).buffer.capacity()
                &&& final(self).buffer.gpu_size() == old(self).buffer.gpu_size()
                &&& final(self).buffer.gpu_usage() == old(self).buffer.gpu_usage()
                &&& final(self).buffer.gpu_slots() == old(self).buffer.gpu_slots()
                &&& final(self).buffer.device_id() == old(self).buffer.device_id()
                &&& final(self).buffer.records() == old(self).buffer.records()
            },
    {
        match self.buffer.data.push(record) {
            Ok(()) => Ok(self),
            Err(e) => Err(e),
        }
    }

    /// Ends the session: queues one write of exactly the records pushed in
    /// it, at their own offset in the GPU buffer, which they fit inside.
    pub fn finish(self)
        requires
            self.wf(),
        ensures
            final(self.buffer).wf(),
            final(self.buffer).records() == old(self.buffer).records(),
            final(self.buffer).capacity() == old(self.buffer).capacity(),
            final(self.buffer).gpu_size() == old(self.buffer).gpu_size(),
            final(self.buffer).gpu_usage() == old(self.buffer).gpu_usage(),
            final(self.buffer).device_id() == old(self.buffer).device_id(),
            final(self.buffer).gpu_slots() == written(old(self.buffer).gpu_slots(), self.start_index as int, self.session()),
            old(self.buffer).records().len() * size_of::<T>() <= final(self.buffer).gpu_size(),
    {
        let start = self.start_index;
        self.buffer.flush_from(self.context, start);
    }
}

} // verus!
