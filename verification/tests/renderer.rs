//! Tests for the renderer's construction and configuration.
//!
//! Obtaining a device needs a working graphics stack; when the machine
//! offers no adapter the tests return early.

use std::sync::Arc;

use egui_wgpu::wgpu;
use kittest_wgpu::{padded_bytes_per_row, strip_row_padding, TestRenderer, COPY_ROW_ALIGNMENT};

fn device_and_queue() -> Option<(Arc<wgpu::Device>, Arc<wgpu::Queue>)> {
    let instance = wgpu::Instance::new(wgpu::InstanceDescriptor::default());
    let adapter = pollster::block_on(
        instance.request_adapter(&wgpu::RequestAdapterOptions::default()),
    )?;
    let (device, queue) = pollster::block_on(
        adapter.request_device(&wgpu::DeviceDescriptor::default(), None),
    )
    .ok()?;
    Some((Arc::new(device), Arc::new(queue)))
}

#[test]
fn padded_rows_are_aligned_multiples() {
    assert_eq!(COPY_ROW_ALIGNMENT, 256);
    assert_eq!(padded_bytes_per_row(0), 0);
    assert_eq!(padded_bytes_per_row(1), 256);
    assert_eq!(padded_bytes_per_row(64), 256);
    assert_eq!(padded_bytes_per_row(65), 512);
    assert_eq!(padded_bytes_per_row(100), 512);
    assert_eq!(padded_bytes_per_row(640), 2560);
}

#[test]
fn stripping_keeps_each_rows_pixel_bytes() {
    // Two rows of one pixel each, padded to six bytes per row.
    let data: Vec<u8> = vec![1, 2, 3, 4, 9, 9, 5, 6, 7, 8, 9, 9];
    let out = strip_row_padding(&data, 1, 2, 6);
    assert_eq!(out, vec![1, 2, 3, 4, 5, 6, 7, 8]);
}

#[test]
fn stripping_an_unpadded_buffer_changes_nothing() {
    // One row of two pixels, with no padding at all.
    let data: Vec<u8> = vec![10, 20, 30, 40, 50, 60, 70, 80];
    let out = strip_row_padding(&data, 2, 1, 8);
    assert_eq!(out, data);
}

#[test]
fn stripping_an_empty_buffer_yields_no_bytes() {
    let data: Vec<u8> = vec![];
    let out = strip_row_padding(&data, 0, 0, 256);
    assert_eq!(out, Vec::<u8>::new());
}

#[test]
fn create_starts_with_dithering_disabled() {
    let Some((device, queue)) = device_and_queue() else {
        return;
    };
    let renderer = TestRenderer::create(device, queue);
    assert!(!renderer.dithering);
}

#[test]
fn with_dithering_sets_the_flag() {
    let Some((device, queue)) = device_and_queue() else {
        return;
    };
    let renderer = TestRenderer::create(device, queue).with_dithering(true);
    assert!(renderer.dithering);
    let renderer = renderer.with_dithering(false);
    assert!(!renderer.dithering);
}

#[test]
fn render_produces_an_image_of_the_requested_size() {
    let Some((device, queue)) = device_and_queue() else {
        return;
    };
    let renderer = TestRenderer::create(device, queue);
    let ctx = egui::Context::default();
    let output = ctx.run(egui::RawInput::default(), |ctx| {
        egui::CentralPanel::default().show(ctx, |ui| {
            ui.label("snapshot");
        });
    });
    let deltas = vec![output.textures_delta];
    let snapshot = renderer.render(&ctx, output.shapes, &deltas, 64, 48);
    assert_eq!(snapshot.img.dimensions(), (64, 48));
}
