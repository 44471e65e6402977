//! Snapshot rendering support for headless UI tests.
//!
//! A [`TestRenderer`] holds a GPU device handle, the matching queue handle
//! and a dithering flag. The handles are acquired once and reused for every
//! render call; the flag is the only piece of configuration the renderer
//! owns. Acquiring the handles is a GPU-side effect and lives outside this
//! library. The render pipeline itself stands here: its sequencing — every
//! texture delta applied before the pass, buffers updated, the pass run,
//! the frame submitted, the texture read back — is verified against the
//! contracts of the trusted wrappers in [`gpu`], and the arithmetic of the
//! readback — padding each texture row to the copy alignment and stripping
//! that padding from the bytes read back — is verified outright.

pub mod gpu;

use std::sync::Arc;
use vstd::prelude::*;

verus! {

/// wgpu requires each row of a texture-to-buffer copy to start at a
/// multiple of this many bytes (its `COPY_BYTES_PER_ROW_ALIGNMENT`).
pub const COPY_ROW_ALIGNMENT: u32 = 256;

/// Renders snapshots of a headless UI through a GPU backend.
///
/// The device and queue are obtained once, at construction, and reused for
/// each render call. Dithering starts disabled.
pub struct TestRenderer {
    pub device: Arc<egui_wgpu::wgpu::Device>,
    pub queue: Arc<egui_wgpu::wgpu::Queue>,
    pub dithering: bool,
}

impl TestRenderer {
    /// Wraps an already-acquired device and queue. Dithering is disabled
    /// until [`TestRenderer::with_dithering`] enables it.
    pub fn create(
        device: Arc<egui_wgpu::wgpu::Device>,
        queue: Arc<egui_wgpu::wgpu::Queue>,
    ) -> (r: Self)
        ensures
            r.device == device,
            r.queue == queue,
            r.dithering == false,
    {
        Self {
            device,
            queue,
            dithering: false,
        }
    }

    /// Enable or disable dithering.
    ///
    /// Disabled by default.
    pub fn with_dithering(self, dithering: bool) -> (r: Self)
        ensures
            r.device == self.device,
            r.queue == self.queue,
            r.dithering == dithering,
    {
        Self {
            device: self.device,
            queue: self.queue,
            dithering,
        }
    }

    /// Render one frame of a headless UI and return the resulting image.
    ///
    /// Takes the pieces a headless test harness holds after a frame: the
    /// egui context, the frame's output shapes, the texture deltas
    /// gathered so far, and the target size in pixels (the context's
    /// screen size times its scale, rounded — float arithmetic that stays
    /// with the caller). A fresh egui renderer is created on each call,
    /// since a renderer stores textures tied to the context that produced
    /// the deltas; reusing one across contexts would mix their textures
    /// up.
    pub fn render(
        &self,
        ctx: &egui::Context,
        shapes: Vec<egui::epaint::ClippedShape>,
        texture_deltas: &Vec<egui::TexturesDelta>,
        width: u32,
        height: u32,
    ) -> (img: gpu::Snapshot)
        requires
            4 * width + (COPY_ROW_ALIGNMENT - 1) <= u32::MAX,
        ensures
            gpu::image_dims(img) == (width, height),
    {
        let mut renderer = gpu::new_egui_renderer(&self.device, self.dithering);
        let mut d: usize = 0;
        while d < texture_deltas.len()
            invariant
                d <= texture_deltas@.len(),
                gpu::renderer_dithering(renderer) == self.dithering,
            decreases texture_deltas@.len() - d,
        {
            let entries = gpu::texture_delta_entries(&texture_deltas[d]);
            let mut j: usize = 0;
            while j < entries.len()
                invariant
                    j <= entries@.len(),
                    gpu::renderer_dithering(renderer) == self.dithering,
                decreases entries@.len() - j,
            {
                gpu::update_texture(&mut renderer, &self.device, &self.queue, &entries[j]);
                j = j + 1;
            }
            d = d + 1;
        }
        let mut encoder = gpu::create_encoder(&self.device);
        let screen = gpu::screen_descriptor(ctx, width, height);
        let primitives = gpu::tessellate(ctx, shapes);
        let user_buffers = gpu::update_buffers(
            &mut renderer,
            &self.device,
            &self.queue,
            &mut encoder,
            &primitives,
            &screen,
        );
        // the renderer that fills the buffers and draws the pass still
        // carries the dithering flag it was built with
        assert(gpu::renderer_dithering(renderer) == self.dithering);
        let texture = gpu::create_target_texture(&self.device, width, height);
        gpu::run_render_pass(&mut encoder, &texture, &renderer, &primitives, &screen);
        let frame = gpu::finish_encoder(encoder);
        gpu::submit(&self.queue, user_buffers, frame);
        gpu::poll_device(&self.device);
        let bytes = read_back(&self.device, &self.queue, &texture, width, height);
        gpu::image_from_raw(width, height, bytes)
    }
}

/// The number of bytes one row of `width` pixels occupies in a readback
/// buffer: four bytes per pixel, rounded up to the copy alignment.
///
/// The result is the unique multiple of [`COPY_ROW_ALIGNMENT`] in
/// `[4 * width, 4 * width + COPY_ROW_ALIGNMENT)`.
pub fn padded_bytes_per_row(width: u32) -> (r: u32)
    requires
        4 * width + (COPY_ROW_ALIGNMENT - 1) <= u32::MAX,
    ensures
        r % COPY_ROW_ALIGNMENT == 0,
        4 * width <= r,
        r < 4 * width + COPY_ROW_ALIGNMENT,
{
    let unpadded: u32 = 4 * width;
    proof {
        vstd::arithmetic::div_mod::lemma_fundamental_div_mod((unpadded + 255) as int, 256);
        vstd::arithmetic::div_mod::lemma_mod_pos_bound((unpadded + 255) as int, 256);
        vstd::arithmetic::div_mod::lemma_mod_multiples_basic(
            ((unpadded + 255) / 256) as int,
            256,
        );
    }
    ((unpadded + (COPY_ROW_ALIGNMENT - 1)) / COPY_ROW_ALIGNMENT) * COPY_ROW_ALIGNMENT
}

/// Drops the per-row padding from a readback buffer.
///
/// `data` holds `height` rows of `padded` bytes each; of every row only
/// the first `4 * width` bytes are pixel data. The result is those bytes,
/// row after row: byte `k` of the result is byte `k % (4 * width)` of row
/// `k / (4 * width)` of `data`.
pub fn strip_row_padding(data: &Vec<u8>, width: u32, height: u32, padded: u32) -> (r: Vec<u8>)
    requires
        4 * width <= padded,
        data@.len() == padded * height,
    ensures
        r@.len() == 4 * width * height,
        forall|k: int|
            0 <= k < r@.len() ==> r@[k] == data@[(k / (4 * width)) * padded + k % (4 * width)],
{
    let unpadded: usize = 4 * (width as usize);
    let padded_len: usize = padded as usize;
    let height_len: usize = height as usize;
    let total: usize = data.len();
    let mut out: Vec<u8> = Vec::new();
    let mut row: usize = 0;
    while row < height_len
        invariant
            4 * width <= padded,
            data@.len() == padded * height,
            unpadded == 4 * width,
            padded_len == padded,
            height_len == height,
            total == data@.len(),
            row <= height_len,
            out@.len() == row * unpadded,
            forall|k: int|
                0 <= k < out@.len() ==> out@[k] == data@[(k / (4 * width)) * padded + k % (
                4 * width)],
        decreases height_len - row,
    {
        let mut i: usize = 0;
        while i < unpadded
            invariant
                4 * width <= padded,
                data@.len() == padded * height,
                unpadded == 4 * width,
                padded_len == padded,
                height_len == height,
                total == data@.len(),
                row < height_len,
                i <= unpadded,
                out@.len() == row * unpadded + i,
                forall|k: int|
                    0 <= k < out@.len() ==> out@[k] == data@[(k / (4 * width)) * padded + k % (
                    4 * width)],
            decreases unpadded - i,
        {
            proof {
                assert(row * padded_len + i < padded * height) by (nonlinear_arith)
                    requires
                        row < height_len,
                        i < unpadded,
                        unpadded <= padded_len,
                        padded_len == padded,
                        height_len == height,
                        0 <= row,
                        0 <= i,
                ;
                assert(row * padded_len + i < total);
                vstd::arithmetic::div_mod::lemma_fundamental_div_mod_converse(
                    (row * unpadded + i) as int,
                    unpadded as int,
                    row as int,
                    i as int,
                );
            }
            out.push(data[row * padded_len + i]);
            i = i + 1;
        }
        proof {
            assert((row + 1) * unpadded == row * unpadded + unpadded) by (nonlinear_arith);
        }
        row = row + 1;
    }
    proof {
        assert(height * (4 * width) == 4 * width * height) by (nonlinear_arith);
    }
    out
}

/// Read a rendered texture back from the GPU and strip the row padding.
///
/// The texture is copied into a readback buffer laid out with
/// [`padded_bytes_per_row`] bytes per row; the buffer size, the padding
/// arithmetic and the stripping are verified, while the copy and the
/// mapping are the GPU's.
pub fn read_back(
    device: &Arc<egui_wgpu::wgpu::Device>,
    queue: &Arc<egui_wgpu::wgpu::Queue>,
    texture: &egui_wgpu::wgpu::Texture,
    width: u32,
    height: u32,
) -> (r: Vec<u8>)
    requires
        4 * width + (COPY_ROW_ALIGNMENT - 1) <= u32::MAX,
    ensures
        r@.len() == 4 * width * height,
{
    let bytes_per_row = padded_bytes_per_row(width);
    proof {
        assert((bytes_per_row as u64) * (height as u64) <= u64::MAX) by (nonlinear_arith)
            requires
                bytes_per_row <= u32::MAX,
                height <= u32::MAX,
        ;
    }
    let size: u64 = (bytes_per_row as u64) * (height as u64);
    let buffer = gpu::create_readback_buffer(device, size);
    gpu::copy_texture_into_buffer(device, queue, texture, &buffer, bytes_per_row);
    let padded = gpu::map_readback_bytes(device, &buffer);
    strip_row_padding(&padded, width, height, bytes_per_row)
}

} // verus!
