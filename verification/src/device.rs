//! The narrow boundary to the graphics device. Every item here is trusted:
//! the handle types are opaque declarations, and each function wraps one
//! capability of the device API — create a buffer, upload bytes, build a
//! binding set, record a pass. Nothing of the device's own behaviour is
//! modelled beyond what the wrappers state.

use vstd::prelude::*;

verus! {

#[verifier::external_type_specification]
#[verifier::external_body]
pub struct ExDevice(wgpu::Device);

#[verifier::external_type_specification]
#[verifier::external_body]
pub struct ExQueue(wgpu::Queue);

#[verifier::external_type_specification]
#[verifier::external_body]
pub struct ExBuffer(wgpu::Buffer);

#[verifier::external_type_specification]
#[verifier::external_body]
pub struct ExBufferUsages(wgpu::BufferUsages);

#[verifier::external_type_specification]
#[verifier::external_body]
pub struct ExBindGroup(wgpu::BindGroup);

#[verifier::external_type_specification]
#[verifier::external_body]
pub struct ExBindGroupLayout(wgpu::BindGroupLayout);

#[verifier::external_type_specification]
#[verifier::external_body]
pub struct ExRenderPipeline(wgpu::RenderPipeline);

#[verifier::external_type_specification]
#[verifier::external_body]
pub struct ExCommandEncoder(wgpu::CommandEncoder);

#[verifier::external_type_specification]
#[verifier::external_body]
pub struct ExTextureView(wgpu::TextureView);

/// Relies on wgpu::BufferUsages::STORAGE: the usage flag of a buffer bound as
/// a read-only storage array.
#[verifier::external_body]
pub(crate) fn storage_usages() -> wgpu::BufferUsages {
    wgpu::BufferUsages::STORAGE
}

/// Relies on wgpu::BufferUsages::UNIFORM: the usage flag of a buffer bound as
/// a uniform record.
#[verifier::external_body]
pub(crate) fn uniform_usages() -> wgpu::BufferUsages {
    wgpu::BufferUsages::UNIFORM
}

// The byte size a device buffer was allocated with, and whether it was
// created as an upload target (with COPY_DST in its usages): two fixed
// properties of the allocation behind a handle, set at creation and never
// changed. They are what an upload must respect.
pub uninterp spec fn buffer_byte_size(b: wgpu::Buffer) -> int;

pub uninterp spec fn buffer_is_upload_target(b: wgpu::Buffer) -> bool;

/// Relies on wgpu::Device::create_buffer: a fresh device allocation of
/// exactly `size_in_bytes` bytes with the given usages plus COPY_DST, so
/// uploads can target it. Nothing else is assumed of the handle.
#[verifier::external_body]
pub(crate) fn create_buffer(
    device: &wgpu::Device,
    size_in_bytes: usize,
    label: &str,
    usages: wgpu::BufferUsages,
) -> (r: wgpu::Buffer)
    ensures
        buffer_byte_size(r) == size_in_bytes,
        buffer_is_upload_target(r),
{
    let usage = wgpu::BufferUsages::COPY_DST | usages;
    let size = size_in_bytes as wgpu::BufferAddress;
    device.create_buffer(&wgpu::BufferDescriptor { label: Some(label), size, usage, mapped_at_creation: false })
}

/// Relies on wgpu::Queue::write_buffer: schedules `bytes` to be copied into
/// `buffer` at offset zero before any later-submitted work reads it (the
/// device queue orders writes ahead of subsequent submissions). The device
/// API refuses, at call time, a length that is not a whole number of
/// four-byte units, a write past the end of the destination, and a
/// destination that is no upload target — so all three are excluded here.
#[verifier::external_body]
pub(crate) fn queue_write(queue: &wgpu::Queue, buffer: &wgpu::Buffer, bytes: &[u8])
    requires
        bytes@.len() % 4 == 0,
        bytes@.len() <= buffer_byte_size(*buffer),
        buffer_is_upload_target(*buffer),
{
    queue.write_buffer(buffer, 0, bytes);
}

/// Relies on wgpu::Device::create_bind_group: a binding set that exposes the
/// globals record at binding 0, the draw table at binding 1 and the op-code
/// stream at binding 2 — the fixed contract the device program decodes. The
/// set captures the three handles by identity, which is why it must be
/// rebuilt whenever one of them is reallocated.
#[verifier::external_body]
pub(crate) fn create_bind_group(
    device: &wgpu::Device,
    layout: &wgpu::BindGroupLayout,
    globals_buffer: &wgpu::Buffer,
    draws_buffer: &wgpu::Buffer,
    op_codes_buffer: &wgpu::Buffer,
) -> wgpu::BindGroup {
    let entries = [
        wgpu::BindGroupEntry { binding: 0, resource: globals_buffer.as_entire_binding() },
        wgpu::BindGroupEntry { binding: 1, resource: draws_buffer.as_entire_binding() },
        wgpu::BindGroupEntry { binding: 2, resource: op_codes_buffer.as_entire_binding() },
    ];
    let descriptor = wgpu::BindGroupDescriptor { label: Some("shapes_bind_group"), layout, entries: &entries };
    device.create_bind_group(&descriptor)
}

/// Relies on wgpu::CommandEncoder::begin_render_pass and wgpu::RenderPass's
/// set_pipeline, set_bind_group and draw — the device API's "record one
/// pass" capability, taken as a single step here. The pass loads the
/// target's existing pixels rather than clearing them, binds the given
/// binding set, and invokes the program for `samples` sample points in each
/// of `groups` tile-sized instance groups.
#[verifier::external_body]
pub(crate) fn submit_pass(
    encoder: &mut wgpu::CommandEncoder,
    target: &wgpu::TextureView,
    pipeline: &wgpu::RenderPipeline,
    bind_group: &wgpu::BindGroup,
    samples: u32,
    groups: u32,
) {
    let ops = wgpu::Operations { load: wgpu::LoadOp::Load, store: wgpu::StoreOp::Store };
    let attachment = wgpu::RenderPassColorAttachment { view: target, depth_slice: None, resolve_target: None, ops };
    let descriptor = wgpu::RenderPassDescriptor { label: Some("shapes"), color_attachments: &[Some(attachment)], ..Default::default() };
    let mut pass = encoder.begin_render_pass(&descriptor);
    pass.set_pipeline(pipeline);
    pass.set_bind_group(0, bind_group, &[]);
    pass.draw(0..samples, 0..groups);
}

} // verus!
