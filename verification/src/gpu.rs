//! The trusted boundary to the GPU stack.
//!
//! Everything here either declares an outside type so that values of it can
//! be carried through, or wraps one call into egui's wgpu renderer or into
//! wgpu itself. The wrappers' contracts state only what the outside sources
//! show; the results of the calls depend on the machine's graphics stack,
//! so most of them promise nothing of the values they return.

use egui_wgpu::wgpu;
use std::sync::Arc;
use vstd::prelude::*;

verus! {

/// Declares wgpu's device handle so values of it can be carried through.
#[verifier::external_type_specification]
#[verifier::external_body]
pub struct ExDevice(wgpu::Device);

/// Declares wgpu's queue handle so values of it can be carried through.
#[verifier::external_type_specification]
#[verifier::external_body]
pub struct ExQueue(wgpu::Queue);

/// Declares wgpu's texture handle so values of it can be carried through.
#[verifier::external_type_specification]
#[verifier::external_body]
pub struct ExTexture(wgpu::Texture);

/// Declares wgpu's buffer handle so values of it can be carried through.
#[verifier::external_type_specification]
#[verifier::external_body]
pub struct ExBuffer(wgpu::Buffer);

/// Declares wgpu's command encoder so values of it can be carried through.
#[verifier::external_type_specification]
#[verifier::external_body]
pub struct ExCommandEncoder(wgpu::CommandEncoder);

/// Declares wgpu's finished command buffer so values of it can be carried
/// through.
#[verifier::external_type_specification]
#[verifier::external_body]
pub struct ExCommandBuffer(wgpu::CommandBuffer);

/// Declares egui's wgpu renderer so values of it can be carried through.
#[verifier::external_type_specification]
#[verifier::external_body]
pub struct ExRenderer(egui_wgpu::Renderer);

/// Declares egui's screen descriptor so values of it can be carried
/// through.
#[verifier::external_type_specification]
#[verifier::external_body]
pub struct ExScreenDescriptor(egui_wgpu::ScreenDescriptor);

/// Declares egui's context so values of it can be carried through.
#[verifier::external_type_specification]
#[verifier::external_body]
pub struct ExContext(egui::Context);

/// Declares egui's clipped shape so values of it can be carried through.
#[verifier::external_type_specification]
#[verifier::external_body]
pub struct ExClippedShape(egui::epaint::ClippedShape);

/// Declares egui's tessellated primitive so values of it can be carried
/// through.
#[verifier::external_type_specification]
#[verifier::external_body]
pub struct ExClippedPrimitive(egui::epaint::ClippedPrimitive);

/// Declares egui's set of texture changes so values of it can be carried
/// through.
#[verifier::external_type_specification]
#[verifier::external_body]
pub struct ExTexturesDelta(egui::TexturesDelta);

/// Declares egui's texture identifier so values of it can be carried
/// through.
#[verifier::external_type_specification]
#[verifier::external_body]
pub struct ExTextureId(egui::epaint::TextureId);

/// Declares egui's texture change so values of it can be carried through.
#[verifier::external_type_specification]
#[verifier::external_body]
pub struct ExImageDelta(egui::epaint::ImageDelta);

/// Holds a finished RGBA image. image's pixel buffer cannot be declared
/// to Verus — its generics carry an outside trait bound — so the image is
/// held opaquely; the `img` field is plain Rust for callers outside the
/// library.
#[verifier::external_body]
pub struct Snapshot {
    pub img: image::RgbaImage,
}

/// The dithering flag an egui renderer was constructed with.
pub uninterp spec fn renderer_dithering(r: egui_wgpu::Renderer) -> bool;

/// The size in bytes a wgpu buffer was created with.
pub uninterp spec fn buffer_size(b: wgpu::Buffer) -> u64;

/// The dimensions the held image was built with.
pub uninterp spec fn image_dims(s: Snapshot) -> (u32, u32);

/// Relies on egui_wgpu::Renderer::new, which stores the given dithering
/// flag in the renderer it returns.
#[verifier::external_body]
pub(crate) fn new_egui_renderer(device: &Arc<wgpu::Device>, dithering: bool) -> (r:
    egui_wgpu::Renderer)
    ensures
        renderer_dithering(r) == dithering,
{
    egui_wgpu::Renderer::new(device, wgpu::TextureFormat::Rgba8Unorm, None, 1, dithering)
}

/// Picks the list of set or changed textures out of a delta record.
#[verifier::external_body]
pub(crate) fn texture_delta_entries(delta: &egui::TexturesDelta) -> &Vec<
    (egui::epaint::TextureId, egui::epaint::ImageDelta),
> {
    &delta.set
}

/// Relies on egui_wgpu::Renderer::update_texture, which uploads one
/// texture change and leaves the renderer's dithering flag untouched.
#[verifier::external_body]
pub(crate) fn update_texture(
    renderer: &mut egui_wgpu::Renderer,
    device: &Arc<wgpu::Device>,
    queue: &Arc<wgpu::Queue>,
    entry: &(egui::epaint::TextureId, egui::epaint::ImageDelta),
)
    ensures
        renderer_dithering(*final(renderer)) == renderer_dithering(*old(renderer)),
{
    renderer.update_texture(device, queue, entry.0, &entry.1)
}

/// Relies on wgpu::Device::create_command_encoder.
#[verifier::external_body]
pub(crate) fn create_encoder(device: &Arc<wgpu::Device>) -> (r: wgpu::CommandEncoder) {
    device.create_command_encoder(&wgpu::CommandEncoderDescriptor {
        label: Some("Egui Command Encoder"),
    })
}

/// Relies on egui::Context::pixels_per_point to fill the screen
/// descriptor beside the given size in pixels.
#[verifier::external_body]
pub(crate) fn screen_descriptor(ctx: &egui::Context, width: u32, height: u32) -> (r:
    egui_wgpu::ScreenDescriptor) {
    egui_wgpu::ScreenDescriptor {
        pixels_per_point: ctx.pixels_per_point(),
        size_in_pixels: [width, height],
    }
}

/// Relies on egui::Context::tessellate, which turns the frame's shapes
/// into triangle meshes at the context's own scale.
#[verifier::external_body]
pub(crate) fn tessellate(ctx: &egui::Context, shapes: Vec<egui::epaint::ClippedShape>) -> (r: Vec<
    egui::epaint::ClippedPrimitive,
>) {
    ctx.tessellate(shapes, ctx.pixels_per_point())
}

/// Relies on egui_wgpu::Renderer::update_buffers, which uploads vertex and
/// index data, returns the callbacks' command buffers, and leaves the
/// renderer's dithering flag untouched.
#[verifier::external_body]
pub(crate) fn update_buffers(
    renderer: &mut egui_wgpu::Renderer,
    device: &Arc<wgpu::Device>,
    queue: &Arc<wgpu::Queue>,
    encoder: &mut wgpu::CommandEncoder,
    primitives: &Vec<egui::epaint::ClippedPrimitive>,
    screen: &egui_wgpu::ScreenDescriptor,
) -> (r: Vec<wgpu::CommandBuffer>)
    ensures
        renderer_dithering(*final(renderer)) == renderer_dithering(*old(renderer)),
{
    renderer.update_buffers(device, queue, encoder, primitives, screen)
}

/// Relies on wgpu::Device::create_texture: a two-dimensional RGBA texture
/// of the given size, usable as render target and copy source.
#[verifier::external_body]
pub(crate) fn create_target_texture(device: &Arc<wgpu::Device>, width: u32, height: u32) -> (r:
    wgpu::Texture) {
    device.create_texture(&wgpu::TextureDescriptor {
        label: Some("Egui Texture"),
        size: wgpu::Extent3d { width, height, depth_or_array_layers: 1 },
        mip_level_count: 1,
        sample_count: 1,
        dimension: wgpu::TextureDimension::D2,
        format: wgpu::TextureFormat::Rgba8Unorm,
        usage: wgpu::TextureUsages::RENDER_ATTACHMENT | wgpu::TextureUsages::COPY_SRC,
        view_formats: &[],
    })
}

/// Relies on wgpu::CommandEncoder::begin_render_pass and
/// egui_wgpu::Renderer::render: one pass over the texture, cleared to
/// transparent, drawing the tessellated primitives.
#[verifier::external_body]
pub(crate) fn run_render_pass(
    encoder: &mut wgpu::CommandEncoder,
    texture: &wgpu::Texture,
    renderer: &egui_wgpu::Renderer,
    primitives: &Vec<egui::epaint::ClippedPrimitive>,
    screen: &egui_wgpu::ScreenDescriptor,
) {
    let view = texture.create_view(&wgpu::TextureViewDescriptor::default());
    let ops = wgpu::Operations {
        load: wgpu::LoadOp::Clear(wgpu::Color::TRANSPARENT),
        store: wgpu::StoreOp::Store,
    };
    let attachment = wgpu::RenderPassColorAttachment { view: &view, resolve_target: None, ops };
    let desc = wgpu::RenderPassDescriptor {
        label: Some("Egui Render Pass"),
        color_attachments: &[Some(attachment)],
        ..Default::default()
    };
    let mut pass = encoder.begin_render_pass(&desc).forget_lifetime();
    renderer.render(&mut pass, primitives, screen);
}

/// Relies on wgpu::CommandEncoder::finish.
#[verifier::external_body]
pub(crate) fn finish_encoder(encoder: wgpu::CommandEncoder) -> (r: wgpu::CommandBuffer) {
    encoder.finish()
}

/// Relies on wgpu::Queue::submit, handing over the callbacks' command
/// buffers followed by the frame's own.
#[verifier::external_body]
pub(crate) fn submit(
    queue: &Arc<wgpu::Queue>,
    user_buffers: Vec<wgpu::CommandBuffer>,
    frame: wgpu::CommandBuffer,
) {
    queue.submit(user_buffers.into_iter().chain(std::iter::once(frame)));
}

/// Relies on wgpu::Device::poll with a blocking wait.
#[verifier::external_body]
pub(crate) fn poll_device(device: &Arc<wgpu::Device>) {
    device.poll(wgpu::Maintain::Wait);
}

/// Relies on wgpu::Device::create_buffer: a mappable copy target of
/// exactly `size` bytes.
#[verifier::external_body]
pub(crate) fn create_readback_buffer(device: &Arc<wgpu::Device>, size: u64) -> (b: wgpu::Buffer)
    ensures
        buffer_size(b) == size,
{
    device.create_buffer(&wgpu::BufferDescriptor {
        label: Some("Egui Readback Buffer"),
        size,
        usage: wgpu::BufferUsages::COPY_DST | wgpu::BufferUsages::MAP_READ,
        mapped_at_creation: false,
    })
}

/// Relies on wgpu::CommandEncoder::copy_texture_to_buffer (submitted at
/// once): fills the buffer row by row from the texture, each row taking
/// `bytes_per_row` bytes.
#[verifier::external_body]
pub(crate) fn copy_texture_into_buffer(
    device: &Arc<wgpu::Device>,
    queue: &Arc<wgpu::Queue>,
    texture: &wgpu::Texture,
    buffer: &wgpu::Buffer,
    bytes_per_row: u32,
) {
    let mut encoder =
        device.create_command_encoder(&wgpu::CommandEncoderDescriptor { label: None });
    let layout = wgpu::ImageDataLayout {
        offset: 0,
        bytes_per_row: Some(bytes_per_row),
        rows_per_image: None,
    };
    encoder.copy_texture_to_buffer(
        texture.as_image_copy(),
        wgpu::ImageCopyBuffer { buffer, layout },
        texture.size(),
    );
    queue.submit(std::iter::once(encoder.finish()));
}

/// Relies on wgpu's Buffer::slice, BufferSlice::map_async and
/// BufferSlice::get_mapped_range: after a blocking poll the mapping of the
/// whole buffer has resolved, and the mapped range holds exactly the
/// buffer's size in bytes. Panics when the device cannot map the buffer.
#[verifier::external_body]
pub(crate) fn map_readback_bytes(device: &Arc<wgpu::Device>, buffer: &wgpu::Buffer) -> (b: Vec<u8>)
    ensures
        b@.len() == buffer_size(*buffer),
{
    let slice = buffer.slice(..);
    slice.map_async(wgpu::MapMode::Read, |_| {});
    device.poll(wgpu::Maintain::Wait);
    let bytes = slice.get_mapped_range().to_vec();
    buffer.unmap();
    bytes
}

/// Relies on image::ImageBuffer::from_raw: with at least
/// `4 * width * height` bytes in the buffer, the image is built with
/// exactly the given dimensions.
#[verifier::external_body]
pub(crate) fn image_from_raw(width: u32, height: u32, bytes: Vec<u8>) -> (r: Snapshot)
    requires
        4 * width <= u32::MAX,
        4 * width * height <= bytes@.len(),
    ensures
        image_dims(r) == (width, height),
{
    Snapshot {
        img: image::RgbaImage::from_raw(width, height, bytes)
            .expect("Pixel buffer too small for the image"),
    }
}

} // verus!
