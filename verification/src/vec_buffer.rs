use vstd::prelude::*;

use crate::device::buffer_byte_size;
use crate::device::buffer_is_upload_target;
use crate::device::create_buffer;
use crate::device::queue_write;

verus! {

/// The growth decision of a mirrored device buffer: whether a write of
/// `required` bytes into a buffer of `capacity` bytes must reallocate, and the
/// byte capacity after the write. Capacity only ever grows, and exactly to
/// what is required.
pub fn grow_plan(capacity: usize, required: usize) -> (r: (bool, usize))
    ensures
        r.0 == (required > capacity),
        r.1 == if required > capacity {
            required
        } else {
            capacity
        },
{
    if capacity < required {
        (true, required)
    } else {
        (false, capacity)
    }
}

/// A growable device-resident buffer that mirrors an in-memory byte array.
/// It reallocates only when the array outgrows the current capacity, never
/// shrinks, and reports every reallocation so that dependent binding state
/// can be rebuilt — the handle changes identity when the buffer is recreated.
pub struct VecBuffer {
    label: &'static str,
    usages: wgpu::BufferUsages,
    buffer: wgpu::Buffer,
    capacity: usize,
}

impl VecBuffer {
    /// The byte capacity of the device allocation this value holds.
    pub closed spec fn spec_capacity(self) -> int {
        self.capacity as int
    }

    /// The device buffer handle this value currently holds.
    pub closed spec fn spec_buffer(self) -> wgpu::Buffer {
        self.buffer
    }

    /// The label the buffer was created with, and that a reallocation keeps.
    pub closed spec fn spec_label(self) -> &'static str {
        self.label
    }

    /// The usage flags the buffer was created with, and that a reallocation
    /// keeps.
    pub closed spec fn spec_usages(self) -> wgpu::BufferUsages {
        self.usages
    }

    /// The tracked byte capacity is exactly the size of the device allocation
    /// behind the handle, and that allocation accepts uploads. Constructors
    /// establish this and writes preserve it; it is what lets a write hand
    /// its bytes to the device.
    pub closed spec fn wf(self) -> bool {
        &&& self.capacity as int == buffer_byte_size(self.buffer)
        &&& buffer_is_upload_target(self.buffer)
    }

    /// A byte capacity is never negative: it mirrors a host-side size.
    pub proof fn lemma_capacity_nonneg(self)
        ensures
            self.spec_capacity() >= 0,
    {
    }

    /// The current device buffer handle. It changes identity when a write
    /// reallocates, so binding state built from it must then be rebuilt.
    pub fn buffer(&self) -> (r: &wgpu::Buffer)
        ensures
            *r == self.spec_buffer(),
    {
        &self.buffer
    }

    /// Creates a device buffer of `capacity` bytes with the given usages.
    pub fn with_capacity(
        device: &wgpu::Device,
        capacity: usize,
        label: &'static str,
        usages: wgpu::BufferUsages,
    ) -> (b: Self)
        ensures
            b.wf(),
            b.spec_capacity() == capacity,
            b.spec_label() == label,
            b.spec_usages() == usages,
    {
        let buffer = create_buffer(device, capacity, label, usages);
        Self { label, usages, buffer, capacity }
    }

    /// Uploads `bytes` to the device, reallocating first when they outgrow
    /// the current capacity. Returns whether the buffer was recreated: a
    /// write that fits never reallocates and keeps the same handle, a write
    /// that does not fit always reallocates (with the same label and usages),
    /// and afterwards the capacity holds the written bytes either way. The
    /// device accepts uploads only in whole four-byte units.
    pub fn write(&mut self, device: &wgpu::Device, queue: &wgpu::Queue, bytes: &[u8]) -> (recreated:
        bool)
        requires
            old(self).wf(),
            bytes@.len() % 4 == 0,
        ensures
            final(self).wf(),
            recreated == (bytes@.len() > old(self).spec_capacity()),
            final(self).spec_capacity() == if bytes@.len() > old(self).spec_capacity() {
                bytes@.len() as int
            } else {
                old(self).spec_capacity()
            },
            final(self).spec_capacity() >= bytes@.len(),
            !recreated ==> final(self).spec_buffer() == old(self).spec_buffer(),
            final(self).spec_label() == old(self).spec_label(),
            final(self).spec_usages() == old(self).spec_usages(),
    {
        let (recreated, new_capacity) = grow_plan(self.capacity, bytes.len());
        if recreated {
            self.buffer = create_buffer(device, new_capacity, self.label, self.usages);
            self.capacity = new_capacity;
        }
        queue_write(queue, &self.buffer, bytes);
        recreated
    }
}

} // verus!
