//! Negotiation of a swapchain configuration against what a surface supports.

use crate::format::{checked_select_format, is_best, is_listed, keys_of, select_format};
use crate::present_mode::{is_top_mode, select_present_mode, PresentMode};
use gfx_hal::format::Format;
use vstd::prelude::*;

verus! {

/// Width and height of a surface, in texels.
#[derive(Clone, Copy, Debug, PartialEq, Eq, Structural)]
pub struct Extent2D {
    pub width: u32,
    pub height: u32,
}

/// A set of image usages, one bit each.
#[derive(Clone, Copy, Debug, PartialEq, Eq, Structural)]
pub struct Usage {
    pub bits: u32,
}

impl Usage {
    /// Every usage of `other` is a usage of `self`.
    pub open spec fn covers(self, other: Usage) -> bool {
        self.bits & other.bits == other.bits
    }

    /// Tells whether every usage of `other` is a usage of `self`.
    pub fn contains(self, other: Usage) -> (yes: bool)
        ensures
            yes == self.covers(other),
    {
        self.bits & other.bits == other.bits
    }
}

/// The numbers of images that a swapchain may have, both ends included.
#[derive(Clone, Copy, Debug, PartialEq, Eq, Structural)]
pub struct CountRange {
    pub start: u32,
    pub end: u32,
}

/// What a surface supports, as the device reports it.
#[derive(Clone, Copy, Debug, PartialEq, Eq, Structural)]
pub struct Capabilities {
    pub image_count: CountRange,
    pub current_extent: Option<Extent2D>,
    pub usage: Usage,
}

/// The configuration that a swapchain is created with.
#[derive(Clone, Copy, Debug)]
pub struct SwapchainConfig {
    pub present_mode: PresentMode,
    pub format: Format,
    pub extent: Extent2D,
    pub image_count: u32,
    pub image_layers: u16,
    pub image_usage: Usage,
}

/// Why no configuration can be negotiated.
#[derive(Clone, Copy, Debug, PartialEq, Eq, Structural)]
pub enum NegotiationError {
    /// The surface supports no present mode.
    NoPresentMode,
    /// The surface names no format.
    NoFormat,
    /// One of the formats is not in the device interface's list.
    UnlistedFormat,
    /// The surface does not support one of the requested usages.
    UnsupportedUsage,
    /// The surface has no current extent.
    NoExtent,
}

/// `requested`, lowered to `end` and then raised to `start`.
pub open spec fn clamped(requested: u32, range: CountRange) -> u32 {
    let lowered = if requested < range.end { requested } else { range.end };
    if lowered < range.start { range.start } else { lowered }
}

/// Every format of the list is one that the device interface lists.
pub open spec fn all_listed(formats: Seq<Format>) -> bool {
    forall|i: int| 0 <= i < formats.len() ==> is_listed(#[trigger] formats[i])
}

/// `config` is the configuration negotiated for the given support and
/// request.
pub open spec fn is_negotiated(
    config: SwapchainConfig,
    capabilities: Capabilities,
    formats: Seq<Format>,
    present_modes: Seq<PresentMode>,
    image_count: u32,
    usage: Usage,
) -> bool {
    &&& is_top_mode(present_modes, config.present_mode)
    &&& exists|i: int| is_best(keys_of(formats), i) && config.format == formats[i]
    &&& Some(config.extent) == capabilities.current_extent
    &&& config.image_count == clamped(image_count, capabilities.image_count)
    &&& config.image_layers == 1
    &&& config.image_usage == usage
}

/// The error that stands in the way of a negotiation, the first of them in
/// the order in which the conditions are looked at, or `None`.
pub open spec fn obstacle(
    capabilities: Capabilities,
    formats: Seq<Format>,
    present_modes: Seq<PresentMode>,
    usage: Usage,
) -> Option<NegotiationError> {
    if present_modes.len() == 0 {
        Some(NegotiationError::NoPresentMode)
    } else if formats.len() == 0 {
        Some(NegotiationError::NoFormat)
    } else if !all_listed(formats) {
        Some(NegotiationError::UnlistedFormat)
    } else if !capabilities.usage.covers(usage) {
        Some(NegotiationError::UnsupportedUsage)
    } else if capabilities.current_extent is None {
        Some(NegotiationError::NoExtent)
    } else {
        None
    }
}

/// Brings the requested number of images into the supported range.
pub fn clamp_image_count(requested: u32, range: CountRange) -> (count: u32)
    ensures
        count == clamped(requested, range),
{
    let lowered: u32 = if requested < range.end { requested } else { range.end };
    if lowered < range.start {
        range.start
    } else {
        lowered
    }
}

/// Negotiates the configuration of a swapchain: the most desirable present
/// mode, the preferred format, the surface's current extent, the requested
/// number of images brought into the supported range, one image layer and the
/// requested usage.
pub fn negotiate(
    capabilities: &Capabilities,
    formats: &Vec<Format>,
    present_modes: &Vec<PresentMode>,
    image_count: u32,
    usage: Usage,
) -> (config: SwapchainConfig)
    requires
        present_modes.len() > 0,
        formats.len() > 0,
        all_listed(formats@),
        capabilities.usage.covers(usage),
        capabilities.current_extent is Some,
    ensures
        is_negotiated(config, *capabilities, formats@, present_modes@, image_count, usage),
{
    let present_mode = select_present_mode(present_modes);
    let format = select_format(formats);
    let count: u32 = clamp_image_count(image_count, capabilities.image_count);
    let extent = match capabilities.current_extent {
        Some(extent) => extent,
        None => Extent2D { width: 0, height: 0 },
    };
    SwapchainConfig {
        present_mode,
        format,
        extent,
        image_count: count,
        image_layers: 1,
        image_usage: usage,
    }
}

/// Negotiates as `negotiate` does where nothing stands in the way, and says
/// what does where something does.
pub fn try_negotiate(
    capabilities: &Capabilities,
    formats: &Vec<Format>,
    present_modes: &Vec<PresentMode>,
    image_count: u32,
    usage: Usage,
) -> (outcome: Result<SwapchainConfig, NegotiationError>)
    ensures
        match outcome {
            Ok(config) => obstacle(*capabilities, formats@, present_modes@, usage) is None
                && is_negotiated(
                config,
                *capabilities,
                formats@,
                present_modes@,
                image_count,
                usage,
            ),
            Err(error) => obstacle(*capabilities, formats@, present_modes@, usage) == Some(error),
        },
{
    if present_modes.len() == 0 {
        return Err(NegotiationError::NoPresentMode);
    }
    if formats.len() == 0 {
        return Err(NegotiationError::NoFormat);
    }
    if checked_select_format(formats).is_none() {
        return Err(NegotiationError::UnlistedFormat);
    }
    if !capabilities.usage.contains(usage) {
        return Err(NegotiationError::UnsupportedUsage);
    }
    if capabilities.current_extent.is_none() {
        return Err(NegotiationError::NoExtent);
    }
    Ok(negotiate(capabilities, formats, present_modes, image_count, usage))
}

/// The number of images chosen lies in the supported range, and is the
/// requested number where that lies in the range.
pub proof fn clamped_is_in_range(requested: u32, range: CountRange)
    requires
        range.start <= range.end,
    ensures
        range.start <= clamped(requested, range) <= range.end,
        range.start <= requested <= range.end ==> clamped(requested, range) == requested,
{
}

/// A negotiated configuration takes its present mode and its format from
/// what the surface supports.
pub proof fn negotiated_is_supported(
    config: SwapchainConfig,
    capabilities: Capabilities,
    formats: Seq<Format>,
    present_modes: Seq<PresentMode>,
    image_count: u32,
    usage: Usage,
)
    requires
        is_negotiated(config, capabilities, formats, present_modes, image_count, usage),
    ensures
        present_modes.contains(config.present_mode),
        formats.contains(config.format),
{
    let i = choose|i: int| is_best(keys_of(formats), i) && config.format == formats[i];
    assert(formats[i] == config.format);
}

} // verus!
