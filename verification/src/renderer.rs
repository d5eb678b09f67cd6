use vstd::arithmetic::div_mod::lemma_mod_multiples_basic;
use vstd::prelude::*;

use crate::commands::CommandList;
use crate::device::buffer_byte_size;
use crate::device::buffer_is_upload_target;
use crate::device::create_bind_group;
use crate::device::create_buffer;
use crate::device::queue_write;
use crate::device::storage_usages;
use crate::device::submit_pass;
use crate::device::uniform_usages;
use crate::gpu::Globals;
use crate::gpu::draw_table_bytes;
use crate::gpu::globals_bytes;
use crate::gpu::op_code_bytes;
use crate::math::float_bits_of_uint;
use crate::math::uvec2_to_bits;
use crate::vec_buffer::VecBuffer;

verus! {

/// Bytes of one draw record on the device.
pub const DRAW_RECORD_BYTES: usize = 20;

/// Bytes of one op-code stream word on the device.
pub const WORD_BYTES: usize = 4;

/// Bytes of the globals record on the device.
pub const GLOBALS_BYTES: usize = 8;

/// Initial element capacity of each mirrored buffer.
pub const INITIAL_ELEMENTS: usize = 1024;

/// The edge of one tile in logical pixels.
pub const TILE_EXTENT: u32 = 16;

/// Sample points per tile-sized invocation group: one per pixel of the tile.
pub const SAMPLES_PER_TILE: u32 = 256;

/// A render target for one frame: the surface texture view and its size in
/// pixels.
pub struct Surface<'v> {
    pub view: &'v wgpu::TextureView,
    pub width: u32,
    pub height: u32,
}

/// The number of tile-sized spans that cover `extent` pixels. The grid rounds
/// up; the device program discards invocations outside the surface.
pub open spec fn spec_tiles_across(extent: u32) -> int {
    (extent + TILE_EXTENT - 1) / (TILE_EXTENT as int)
}

/// Computes the tile count along one axis: `extent` pixels divided by the
/// tile edge, rounded up.
pub fn tiles_across(extent: u32) -> (n: u32)
    ensures
        n == spec_tiles_across(extent),
{
    let wide: u64 = (extent as u64 + TILE_EXTENT as u64 - 1) / (TILE_EXTENT as u64);
    wide as u32
}

/// The globals record for a surface of the given pixel size: each dimension
/// converted to the nearest single-precision value, carried as bits.
pub fn globals_for(width: u32, height: u32) -> (g: Globals)
    ensures
        g.view_width == float_bits_of_uint(width),
        g.view_height == float_bits_of_uint(height),
{
    let size_bits = uvec2_to_bits(width, height);
    Globals { view_width: size_bits.x, view_height: size_bits.y }
}

/// The frame renderer: the device program, the two growable buffers that
/// mirror a [`CommandList`]'s draw table and op-code stream, the per-surface
/// globals buffer, and the binding set that exposes all three to the program.
/// The binding set references buffers by identity, so it is rebuilt whenever
/// a mirrored buffer reallocates.
pub struct Renderer {
    pipeline: wgpu::RenderPipeline,
    globals_buffer: wgpu::Buffer,
    draws_buffer: VecBuffer,
    op_codes_buffer: VecBuffer,
    bind_group_layout: wgpu::BindGroupLayout,
    bind_group: wgpu::BindGroup,
    last_view_size: (u32, u32),
}

/// The bytes the draw table occupies on the device.
pub open spec fn spec_draw_table_len(commands: CommandList) -> int {
    20 * commands.draws@.len() as int
}

/// The bytes the op-code stream occupies on the device.
pub open spec fn spec_op_code_len(commands: CommandList) -> int {
    4 * commands.op_codes@.len() as int
}

impl Renderer {
    /// Byte capacity of the buffer mirroring the draw table.
    pub closed spec fn spec_draws_capacity(self) -> int {
        self.draws_buffer.spec_capacity()
    }

    /// Byte capacity of the buffer mirroring the op-code stream.
    pub closed spec fn spec_op_codes_capacity(self) -> int {
        self.op_codes_buffer.spec_capacity()
    }

    /// The surface size the globals record was last written for.
    pub closed spec fn spec_last_view_size(self) -> (u32, u32) {
        self.last_view_size
    }

    /// The handle of the buffer mirroring the draw table.
    pub closed spec fn spec_draws_buffer(self) -> wgpu::Buffer {
        self.draws_buffer.spec_buffer()
    }

    /// The handle of the buffer mirroring the op-code stream.
    pub closed spec fn spec_op_codes_buffer(self) -> wgpu::Buffer {
        self.op_codes_buffer.spec_buffer()
    }

    /// The handle of the globals buffer; it is created once and never
    /// replaced.
    pub closed spec fn spec_globals_buffer(self) -> wgpu::Buffer {
        self.globals_buffer
    }

    /// The binding set currently exposing the three buffers to the program.
    pub closed spec fn spec_bind_group(self) -> wgpu::BindGroup {
        self.bind_group
    }

    /// Both mirrored buffers track their device allocations, and the globals
    /// buffer is an upload target of its fixed record size. The constructor
    /// establishes this and every render preserves it.
    pub closed spec fn wf(self) -> bool {
        &&& self.draws_buffer.wf()
        &&& self.op_codes_buffer.wf()
        &&& buffer_byte_size(self.globals_buffer) == GLOBALS_BYTES as int
        &&& buffer_is_upload_target(self.globals_buffer)
    }

    /// Whether rendering `commands` from this state must rebuild the binding
    /// set: true exactly when one of the two mirrored arrays outgrows its
    /// buffer, which reallocates the buffer and invalidates the set.
    pub open spec fn spec_changed(self, commands: CommandList) -> bool {
        spec_draw_table_len(commands) > self.spec_draws_capacity() || spec_op_code_len(commands)
            > self.spec_op_codes_capacity()
    }

    /// Sets up a renderer around an already-created device program: a globals
    /// buffer, a draw-table buffer and an op-code buffer with room for 1024
    /// elements each, and a binding set over the three.
    pub fn new(
        device: &wgpu::Device,
        pipeline: wgpu::RenderPipeline,
        bind_group_layout: wgpu::BindGroupLayout,
    ) -> (r: Self)
        ensures
            r.wf(),
            r.spec_draws_capacity() == 1024 * 20,
            r.spec_op_codes_capacity() == 1024 * 4,
            r.spec_last_view_size() == (0u32, 0u32),
    {
        let globals_buffer = create_buffer(device, GLOBALS_BYTES, "globals_buffer", uniform_usages());

        let draws_buffer = VecBuffer::with_capacity(
            device,
            INITIAL_ELEMENTS * DRAW_RECORD_BYTES,
            "draws",
            storage_usages(),
        );
        let op_codes_buffer = VecBuffer::with_capacity(
            device,
            INITIAL_ELEMENTS * WORD_BYTES,
            "op_codes",
            storage_usages(),
        );

        let bind_group = create_bind_group(
            device,
            &bind_group_layout,
            &globals_buffer,
            draws_buffer.buffer(),
            op_codes_buffer.buffer(),
        );

        Self {
            pipeline,
            globals_buffer,
            draws_buffer,
            op_codes_buffer,
            bind_group_layout,
            bind_group,
            last_view_size: (0, 0),
        }
    }

    /// Renders one frame: refreshes the globals record when the surface size
    /// changed, mirrors the command stream's two arrays onto the device,
    /// rebuilds the binding set if either buffer was reallocated, and records
    /// one pass over the surface, tiled into groups that round up to cover
    /// it. The pass loads existing pixel content, so passes composite.
    pub fn render(
        &mut self,
        device: &wgpu::Device,
        queue: &wgpu::Queue,
        encoder: &mut wgpu::CommandEncoder,
        view: Surface<'_>,
        commands: &CommandList,
    )
        requires
            old(self).wf(),
            20 * commands.draws@.len() <= usize::MAX,
            4 * commands.op_codes@.len() <= usize::MAX,
            spec_tiles_across(view.width) * spec_tiles_across(view.height) <= u32::MAX,
        ensures
            final(self).wf(),
            final(self).spec_draws_capacity() == if spec_draw_table_len(*commands) > old(
                self,
            ).spec_draws_capacity() {
                spec_draw_table_len(*commands)
            } else {
                old(self).spec_draws_capacity()
            },
            final(self).spec_op_codes_capacity() == if spec_op_code_len(*commands) > old(
                self,
            ).spec_op_codes_capacity() {
                spec_op_code_len(*commands)
            } else {
                old(self).spec_op_codes_capacity()
            },
            final(self).spec_last_view_size() == (view.width, view.height),
            !old(self).spec_changed(*commands) ==> final(self).spec_bind_group() == old(
                self,
            ).spec_bind_group(),
            !old(self).spec_changed(*commands) ==> final(self).spec_draws_buffer() == old(
                self,
            ).spec_draws_buffer() && final(self).spec_op_codes_buffer() == old(
                self,
            ).spec_op_codes_buffer(),
            final(self).spec_globals_buffer() == old(self).spec_globals_buffer(),
    {
        if view.width != self.last_view_size.0 || view.height != self.last_view_size.1 {
            self.last_view_size = (view.width, view.height);

            let globals = globals_for(view.width, view.height);
            let bytes = globals_bytes(&globals);
            queue_write(queue, &self.globals_buffer, bytes.as_slice());
        }

        // Mirror both arrays; either write reallocates only on growth. Both
        // byte lengths are whole words, as the device's upload step demands.
        let bytes = draw_table_bytes(&commands.draws);
        proof {
            lemma_mod_multiples_basic(5 * commands.draws@.len() as int, 4);
            assert(bytes@.len() as int == (5 * commands.draws@.len() as int) * 4);
        }
        let draws_changed = self.draws_buffer.write(device, queue, bytes.as_slice());
        let bytes = op_code_bytes(&commands.op_codes);
        proof {
            lemma_mod_multiples_basic(commands.op_codes@.len() as int, 4);
            assert(bytes@.len() as int == (commands.op_codes@.len() as int) * 4);
        }
        let op_codes_changed = self.op_codes_buffer.write(device, queue, bytes.as_slice());

        // A reallocated buffer has a new identity, which the binding set
        // captures: rebuild it from the current handles.
        if draws_changed || op_codes_changed {
            self.bind_group = create_bind_group(
                device,
                &self.bind_group_layout,
                &self.globals_buffer,
                self.draws_buffer.buffer(),
                self.op_codes_buffer.buffer(),
            );
        }

        let tiles_x = tiles_across(view.width);
        let tiles_y = tiles_across(view.height);
        submit_pass(
            encoder,
            view.view,
            &self.pipeline,
            &self.bind_group,
            SAMPLES_PER_TILE,
            tiles_x * tiles_y,
        );
    }
}

/// Rendering the same command stream twice in a row changes nothing the
/// second time: the first render has left each mirrored buffer at least as
/// large as the stream's arrays, so the second render's writes fit and
/// nothing must change — and `render`'s own contract then keeps both buffer
/// handles and the binding set exactly as they were.
pub proof fn lemma_render_idempotent(pre: Renderer, mid: Renderer, commands: CommandList)
    requires
        mid.spec_draws_capacity() == if spec_draw_table_len(commands) > pre.spec_draws_capacity() {
            spec_draw_table_len(commands)
        } else {
            pre.spec_draws_capacity()
        },
        mid.spec_op_codes_capacity() == if spec_op_code_len(commands)
            > pre.spec_op_codes_capacity() {
            spec_op_code_len(commands)
        } else {
            pre.spec_op_codes_capacity()
        },
    ensures
        !mid.spec_changed(commands),
{
}

} // verus!
