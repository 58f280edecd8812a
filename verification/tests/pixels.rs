use kiss3d::format::{is_bgra, AstcBlock, AstcChannel, TexelFormat};
use kiss3d::icon::icon_rgba;
use wgpu::TextureFormat;
use kiss3d::readback::{readback_layout, rgb_from_padded_rows, rgb_from_readback, BYTES_PER_PIXEL};
use kiss3d::surface::{
    acquire_step, preferred_format_index, select_surface_format, AcquireOutcome, AcquireStep,
    FormatTraits,
};

#[test]
fn readback_rows_are_padded_to_256_bytes() {
    let l = readback_layout(1, 1);
    assert_eq!(l.bytes_per_pixel, BYTES_PER_PIXEL);
    assert_eq!(l.unpadded_bytes_per_row, 4);
    assert_eq!(l.padded_bytes_per_row, 256);
    assert_eq!(l.buffer_size, 256);
    let l = readback_layout(64, 3);
    assert_eq!(l.unpadded_bytes_per_row, 256);
    assert_eq!(l.padded_bytes_per_row, 256);
    assert_eq!(l.buffer_size, 768);
    let l = readback_layout(65, 2);
    assert_eq!(l.unpadded_bytes_per_row, 260);
    assert_eq!(l.padded_bytes_per_row, 512);
    assert_eq!(l.buffer_size, 1024);
    let l = readback_layout(0, 5);
    assert_eq!(l.padded_bytes_per_row, 0);
    assert_eq!(l.buffer_size, 0);
    let l = readback_layout(1024, 768);
    assert_eq!(l.padded_bytes_per_row, 4096);
    assert_eq!(l.buffer_size, 4096 * 768);
}

/// A 2x2 region, rows 8 bytes apart: the top row holds pixels (1,2,3,4) and
/// (5,6,7,8), the bottom row (9,10,11,12) and (13,14,15,16).
fn sample_buffer() -> Vec<u8> {
    vec![1, 2, 3, 4, 5, 6, 7, 8, 9, 10, 11, 12, 13, 14, 15, 16]
}

#[test]
fn rgba_rows_are_flipped_and_alpha_dropped() {
    let mut out = vec![99, 98];
    rgb_from_padded_rows(&sample_buffer(), 2, 2, 8, false, &mut out);
    assert_eq!(out, vec![9, 10, 11, 13, 14, 15, 1, 2, 3, 5, 6, 7]);
}

#[test]
fn bgra_channels_are_swapped() {
    let mut out = Vec::new();
    rgb_from_padded_rows(&sample_buffer(), 2, 2, 8, true, &mut out);
    assert_eq!(out, vec![11, 10, 9, 15, 14, 13, 3, 2, 1, 7, 6, 5]);
}

#[test]
fn row_padding_is_skipped() {
    // One pixel per row, rows 8 bytes apart: bytes 4..8 of each row are padding.
    let data = vec![1, 2, 3, 4, 0, 0, 0, 0, 5, 6, 7, 8, 0, 0, 0, 0];
    let mut out = Vec::new();
    rgb_from_padded_rows(&data, 1, 2, 8, false, &mut out);
    assert_eq!(out, vec![5, 6, 7, 1, 2, 3]);
}

#[test]
fn empty_region_gives_empty_image() {
    let mut out = vec![1, 2, 3];
    rgb_from_padded_rows(&[], 0, 0, 0, false, &mut out);
    assert!(out.is_empty());
}

#[test]
fn readback_channel_order_follows_texture_format() {
    let mut out = Vec::new();
    rgb_from_readback(&TexelFormat::Bgra8Unorm, &sample_buffer(), 2, 2, 8, &mut out);
    assert_eq!(out, vec![11, 10, 9, 15, 14, 13, 3, 2, 1, 7, 6, 5]);
    rgb_from_readback(&TexelFormat::Bgra8UnormSrgb, &sample_buffer(), 2, 2, 8, &mut out);
    assert_eq!(out, vec![11, 10, 9, 15, 14, 13, 3, 2, 1, 7, 6, 5]);
    rgb_from_readback(&TexelFormat::Rgba8Unorm, &sample_buffer(), 2, 2, 8, &mut out);
    assert_eq!(out, vec![9, 10, 11, 13, 14, 15, 1, 2, 3, 5, 6, 7]);
    rgb_from_readback(&TexelFormat::Rgba8UnormSrgb, &sample_buffer(), 2, 2, 8, &mut out);
    assert_eq!(out, vec![9, 10, 11, 13, 14, 15, 1, 2, 3, 5, 6, 7]);
}

#[test]
fn only_the_two_8_bit_bgra_formats_are_blue_first() {
    assert!(is_bgra(&TexelFormat::Bgra8Unorm));
    assert!(is_bgra(&TexelFormat::Bgra8UnormSrgb));
    assert!(!is_bgra(&TexelFormat::Rgba8Unorm));
    assert!(!is_bgra(&TexelFormat::Rgba16Float));
    assert!(!is_bgra(&TexelFormat::Astc { block: AstcBlock::B4x4, channel: AstcChannel::Unorm }));
}

#[test]
fn preferred_format_is_first_linear_byte_aligned() {
    let srgb = FormatTraits { srgb: true, component_alignment: Some(1) };
    let linear = FormatTraits { srgb: false, component_alignment: Some(1) };
    let wide = FormatTraits { srgb: false, component_alignment: Some(2) };
    let none = FormatTraits { srgb: false, component_alignment: None };
    assert_eq!(preferred_format_index(&vec![srgb, wide, linear, linear]), 2);
    assert_eq!(preferred_format_index(&vec![linear, srgb]), 0);
    assert_eq!(preferred_format_index(&vec![srgb, wide, none]), 0);
    assert_eq!(preferred_format_index(&vec![wide]), 0);
}

#[test]
fn surface_format_skips_srgb_and_wide_formats() {
    assert_eq!(
        select_surface_format(&vec![TextureFormat::Bgra8UnormSrgb, TextureFormat::Bgra8Unorm]),
        TextureFormat::Bgra8Unorm
    );
    assert_eq!(
        select_surface_format(&vec![TextureFormat::Rgba16Float, TextureFormat::Rgba8Unorm]),
        TextureFormat::Rgba8Unorm
    );
    assert_eq!(
        select_surface_format(&vec![TextureFormat::Rgba8UnormSrgb, TextureFormat::Rgba16Float]),
        TextureFormat::Rgba8UnormSrgb
    );
}

#[test]
fn frame_acquisition_retries_once() {
    assert_eq!(acquire_step(AcquireOutcome::Success, false), AcquireStep::Use);
    assert_eq!(acquire_step(AcquireOutcome::Suboptimal, true), AcquireStep::Use);
    assert_eq!(acquire_step(AcquireOutcome::Outdated, false), AcquireStep::Reconfigure);
    assert_eq!(acquire_step(AcquireOutcome::Lost, false), AcquireStep::Reconfigure);
    assert_eq!(acquire_step(AcquireOutcome::Outdated, true), AcquireStep::Skip);
    assert_eq!(acquire_step(AcquireOutcome::Lost, true), AcquireStep::Skip);
    assert_eq!(acquire_step(AcquireOutcome::Timeout, false), AcquireStep::Skip);
    assert_eq!(acquire_step(AcquireOutcome::Occluded, false), AcquireStep::Skip);
    assert_eq!(acquire_step(AcquireOutcome::Validation, false), AcquireStep::Skip);
}

#[test]
fn icon_pixels_are_laid_end_to_end() {
    assert_eq!(icon_rgba(&vec![[1, 2, 3, 4], [5, 6, 7, 8]]), vec![1, 2, 3, 4, 5, 6, 7, 8]);
    assert!(icon_rgba(&vec![]).is_empty());
}
