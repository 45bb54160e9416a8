use gfx_hal::format::Format;
use wsi::format::{
    best_key_index, checked_format_key, checked_select_format, format_key, key_at_most, listed,
    make_key, select_format, ChannelType, FormatKey, SurfaceDesc, FORMAT_LIMIT,
};
use wsi::present_mode::{select_present_mode, PresentMode};
use wsi::swapchain::{
    clamp_image_count, negotiate, try_negotiate, Capabilities, CountRange, Extent2D,
    NegotiationError, Usage,
};

const COLOR_ATTACHMENT: u32 = 0x10;
const SAMPLED: u32 = 0x4;
const STORAGE: u32 = 0x8;

fn capabilities(start: u32, end: u32, usage: u32) -> Capabilities {
    Capabilities {
        image_count: CountRange { start, end },
        current_extent: Some(Extent2D { width: 800, height: 600 }),
        usage: Usage { bits: usage },
    }
}

#[test]
fn fifo_is_picked_over_immediate() {
    assert_eq!(
        select_present_mode(&vec![PresentMode::Immediate, PresentMode::Fifo]),
        PresentMode::Fifo
    );
    assert_eq!(
        select_present_mode(&vec![PresentMode::Fifo, PresentMode::Immediate]),
        PresentMode::Fifo
    );
    assert_eq!(
        select_present_mode(&vec![PresentMode::Immediate, PresentMode::Relaxed, PresentMode::Fifo]),
        PresentMode::Fifo
    );
}

#[test]
fn mailbox_is_picked_over_fifo_and_relaxed() {
    assert_eq!(
        select_present_mode(&vec![PresentMode::Mailbox, PresentMode::Fifo, PresentMode::Relaxed]),
        PresentMode::Mailbox
    );
    assert_eq!(
        select_present_mode(&vec![
            PresentMode::Relaxed,
            PresentMode::Fifo,
            PresentMode::Immediate,
            PresentMode::Mailbox,
            PresentMode::Fifo,
        ]),
        PresentMode::Mailbox
    );
}

#[test]
fn relaxed_is_picked_over_immediate() {
    assert_eq!(
        select_present_mode(&vec![PresentMode::Immediate, PresentMode::Relaxed]),
        PresentMode::Relaxed
    );
    assert_eq!(select_present_mode(&vec![PresentMode::Immediate]), PresentMode::Immediate);
}

#[test]
fn ranks_follow_the_table() {
    assert_eq!(PresentMode::Immediate.desirability(), 0);
    assert_eq!(PresentMode::Relaxed.desirability(), 1);
    assert_eq!(PresentMode::Fifo.desirability(), 2);
    assert_eq!(PresentMode::Mailbox.desirability(), 3);
}

#[test]
fn image_count_is_clamped_into_the_range() {
    let range = CountRange { start: 2, end: 3 };
    assert_eq!(clamp_image_count(1, range), 2);
    assert_eq!(clamp_image_count(2, range), 2);
    assert_eq!(clamp_image_count(3, range), 3);
    assert_eq!(clamp_image_count(4, range), 3);
    assert_eq!(clamp_image_count(0, range), 2);
    assert_eq!(clamp_image_count(u32::MAX, range), 3);
    assert_eq!(clamp_image_count(7, CountRange { start: 0, end: u32::MAX }), 7);
}

#[test]
fn image_count_of_a_crossed_range_is_its_start() {
    let range = CountRange { start: 5, end: 3 };
    assert_eq!(clamp_image_count(1, range), 5);
    assert_eq!(clamp_image_count(4, range), 5);
    assert_eq!(clamp_image_count(9, range), 5);
}

#[test]
fn format_limit_is_the_interface_limit() {
    assert_eq!(FORMAT_LIMIT as usize, gfx_hal::format::NUM_FORMATS);
    assert!(listed(Format::Rg4Unorm));
    assert!(listed(Format::Astc12x12Srgb));
    assert!(!listed(Format::__NumFormats));
    assert_eq!(checked_format_key(Format::__NumFormats), None);
}

#[test]
fn keys_are_read_from_the_interface() {
    assert_eq!(
        format_key(Format::Rgba8Srgb),
        FormatKey { uncompressed: true, bits: 32, srgb: true }
    );
    assert_eq!(
        format_key(Format::Rgba8Unorm),
        FormatKey { uncompressed: true, bits: 32, srgb: false }
    );
    assert_eq!(
        format_key(Format::Bc1RgbUnorm),
        FormatKey { uncompressed: false, bits: 64, srgb: false }
    );
    assert_eq!(
        format_key(Format::Bc1RgbSrgb),
        FormatKey { uncompressed: false, bits: 64, srgb: true }
    );
    assert_eq!(
        checked_format_key(Format::Rgba16Unorm),
        Some(FormatKey { uncompressed: true, bits: 64, srgb: false })
    );
    assert_eq!(
        format_key(Format::R8Unorm),
        FormatKey { uncompressed: true, bits: 8, srgb: false }
    );
}

#[test]
fn key_is_made_of_block_and_channel() {
    let block = SurfaceDesc { bits: 128, block_width: 4, block_height: 4 };
    let texel = SurfaceDesc { bits: 32, block_width: 1, block_height: 1 };
    let row = SurfaceDesc { bits: 16, block_width: 2, block_height: 1 };
    assert_eq!(
        make_key(block, ChannelType::Srgb),
        FormatKey { uncompressed: false, bits: 128, srgb: true }
    );
    assert_eq!(
        make_key(texel, ChannelType::Unorm),
        FormatKey { uncompressed: true, bits: 32, srgb: false }
    );
    assert_eq!(
        make_key(row, ChannelType::Sfloat),
        FormatKey { uncompressed: false, bits: 16, srgb: false }
    );
}

#[test]
fn keys_compare_as_triples() {
    let low = FormatKey { uncompressed: false, bits: 128, srgb: true };
    let mid = FormatKey { uncompressed: true, bits: 32, srgb: false };
    let high = FormatKey { uncompressed: true, bits: 32, srgb: true };
    let top = FormatKey { uncompressed: true, bits: 64, srgb: false };
    assert!(key_at_most(low, mid));
    assert!(!key_at_most(mid, low));
    assert!(key_at_most(mid, high));
    assert!(!key_at_most(high, mid));
    assert!(key_at_most(high, top));
    assert!(!key_at_most(top, high));
    assert!(key_at_most(top, top));
}

#[test]
fn best_key_is_the_last_of_the_highest() {
    let a = FormatKey { uncompressed: true, bits: 32, srgb: true };
    let b = FormatKey { uncompressed: true, bits: 32, srgb: false };
    assert_eq!(best_key_index(&vec![]), None);
    assert_eq!(best_key_index(&vec![b]), Some(0));
    assert_eq!(best_key_index(&vec![a, b]), Some(0));
    assert_eq!(best_key_index(&vec![b, a]), Some(1));
    assert_eq!(best_key_index(&vec![a, b, a, b]), Some(2));
}

#[test]
fn uncompressed_is_preferred_to_compressed() {
    assert_eq!(select_format(&vec![Format::Bc1RgbUnorm, Format::Rgba16Unorm]), Format::Rgba16Unorm);
    assert_eq!(select_format(&vec![Format::Rgba16Unorm, Format::Bc1RgbUnorm]), Format::Rgba16Unorm);
    assert_eq!(select_format(&vec![Format::Bc3Srgb, Format::R8Unorm]), Format::R8Unorm);
}

#[test]
fn srgb_is_preferred_at_equal_bits() {
    assert_eq!(select_format(&vec![Format::Rgba8Unorm, Format::Rgba8Srgb]), Format::Rgba8Srgb);
    assert_eq!(select_format(&vec![Format::Rgba8Srgb, Format::Rgba8Unorm]), Format::Rgba8Srgb);
    assert_eq!(select_format(&vec![Format::Bc1RgbSrgb, Format::Bc1RgbUnorm]), Format::Bc1RgbSrgb);
}

#[test]
fn more_bits_are_preferred_to_srgb() {
    assert_eq!(select_format(&vec![Format::Rgba8Srgb, Format::Rgba16Unorm]), Format::Rgba16Unorm);
}

#[test]
fn last_of_equally_preferred_formats_is_picked() {
    assert_eq!(select_format(&vec![Format::Rgba8Srgb, Format::Bgra8Srgb]), Format::Bgra8Srgb);
    assert_eq!(select_format(&vec![Format::Bgra8Srgb, Format::Rgba8Srgb]), Format::Rgba8Srgb);
}

#[test]
fn checked_selection_refuses_empty_and_unlisted() {
    assert_eq!(checked_select_format(&vec![]), None);
    assert_eq!(checked_select_format(&vec![Format::Rgba8Srgb, Format::__NumFormats]), None);
    assert_eq!(
        checked_select_format(&vec![Format::Rgba8Unorm, Format::Rgba8Srgb]),
        Some(Format::Rgba8Srgb)
    );
}

#[test]
fn negotiation_of_a_common_surface() {
    let config = negotiate(
        &capabilities(2, 3, COLOR_ATTACHMENT | SAMPLED),
        &vec![Format::Rgba8Unorm, Format::Rgba8Srgb],
        &vec![PresentMode::Fifo, PresentMode::Immediate],
        1,
        Usage { bits: COLOR_ATTACHMENT },
    );
    assert_eq!(config.image_count, 2);
    assert_eq!(config.present_mode, PresentMode::Fifo);
    assert_eq!(config.format, Format::Rgba8Srgb);
    assert_eq!(config.extent, Extent2D { width: 800, height: 600 });
    assert_eq!(config.image_layers, 1);
    assert_eq!(config.image_usage, Usage { bits: COLOR_ATTACHMENT });
}

#[test]
fn checked_negotiation_agrees_with_negotiation() {
    let config = try_negotiate(
        &capabilities(2, 3, COLOR_ATTACHMENT | SAMPLED),
        &vec![Format::Rgba8Unorm, Format::Rgba8Srgb],
        &vec![PresentMode::Fifo, PresentMode::Immediate],
        1,
        Usage { bits: COLOR_ATTACHMENT },
    )
    .unwrap();
    assert_eq!(config.image_count, 2);
    assert_eq!(config.present_mode, PresentMode::Fifo);
    assert_eq!(config.format, Format::Rgba8Srgb);
}

#[test]
fn unsupported_usage_stops_the_negotiation() {
    let outcome = try_negotiate(
        &capabilities(2, 3, COLOR_ATTACHMENT),
        &vec![Format::Rgba8Unorm],
        &vec![PresentMode::Fifo],
        2,
        Usage { bits: COLOR_ATTACHMENT | STORAGE },
    );
    assert_eq!(outcome.err(), Some(NegotiationError::UnsupportedUsage));
}

#[test]
fn each_obstacle_is_named() {
    let caps = capabilities(2, 3, COLOR_ATTACHMENT);
    let usage = Usage { bits: COLOR_ATTACHMENT };
    let formats = vec![Format::Rgba8Unorm];
    let modes = vec![PresentMode::Fifo];
    assert_eq!(
        try_negotiate(&caps, &formats, &vec![], 2, usage).err(),
        Some(NegotiationError::NoPresentMode)
    );
    assert_eq!(
        try_negotiate(&caps, &vec![], &modes, 2, usage).err(),
        Some(NegotiationError::NoFormat)
    );
    assert_eq!(
        try_negotiate(&caps, &vec![Format::__NumFormats], &modes, 2, usage).err(),
        Some(NegotiationError::UnlistedFormat)
    );
    let mut blind = caps;
    blind.current_extent = None;
    assert_eq!(
        try_negotiate(&blind, &formats, &modes, 2, usage).err(),
        Some(NegotiationError::NoExtent)
    );
    assert_eq!(
        try_negotiate(&blind, &formats, &modes, 2, Usage { bits: SAMPLED }).err(),
        Some(NegotiationError::UnsupportedUsage)
    );
    assert_eq!(
        try_negotiate(&blind, &vec![], &vec![], 2, Usage { bits: SAMPLED }).err(),
        Some(NegotiationError::NoPresentMode)
    );
}

#[test]
fn usage_is_contained_bit_by_bit() {
    let both = Usage { bits: COLOR_ATTACHMENT | SAMPLED };
    assert!(both.contains(Usage { bits: SAMPLED }));
    assert!(both.contains(both));
    assert!(both.contains(Usage { bits: 0 }));
    assert!(!both.contains(Usage { bits: STORAGE }));
    assert!(!Usage { bits: SAMPLED }.contains(both));
}
