//! A window's rendering target, and the images acquired from it.

use crate::swapchain::{Extent2D, SwapchainConfig, Usage};
use gfx_hal::format::Format;
use gfx_hal::window::{AcquireError, CreationError};
use smallvec::SmallVec;
use vstd::prelude::*;

verus! {

#[verifier::external_type_specification]
#[verifier::external_body]
pub struct ExAcquireError(gfx_hal::window::AcquireError);

#[verifier::external_type_specification]
#[verifier::external_body]
pub struct ExCreationError(gfx_hal::window::CreationError);

/// A list of pairs of a swapchain and an image index, kept in a
/// `smallvec::SmallVec` with room for eight pairs before it moves to the heap.
#[verifier::external_body]
#[derive(Debug)]
pub struct PairList {
    inner: SmallVec<[(u64, u32); 8]>,
}

/// The pairs that a list holds, in the order in which they were pushed.
pub uninterp spec fn held_pairs(list: PairList) -> Seq<(u64, u32)>;

/// Calls `smallvec::SmallVec::new`.
///
/// Trusted: the new list holds nothing.
#[verifier::external_body]
fn empty_list() -> (list: PairList)
    ensures
        held_pairs(list) == Seq::<(u64, u32)>::empty(),
{
    PairList { inner: SmallVec::new() }
}

/// Calls `smallvec::SmallVec::push`.
///
/// Trusted: the pair is added behind the pairs that the list held.
#[verifier::external_body]
fn push_pair(list: &mut PairList, swapchain: u64, index: u32)
    ensures
        held_pairs(*final(list)) == held_pairs(*old(list)).push((swapchain, index)),
{
    list.inner.push((swapchain, index))
}

/// Calls `smallvec::SmallVec::len`.
///
/// Trusted: the result is the number of pairs that the list holds.
#[verifier::external_body]
fn list_len(list: &PairList) -> (len: usize)
    ensures
        len == held_pairs(*list).len(),
{
    list.inner.len()
}

/// Indexes the `SmallVec` as a slice (it dereferences to one).
///
/// Trusted: the result is the pair at that place.
#[verifier::external_body]
fn pair_at(list: &PairList, place: usize) -> (pair: (u64, u32))
    requires
        place < held_pairs(*list).len(),
    ensures
        pair == held_pairs(*list)[place as int],
{
    list.inner[place]
}

/// What a device hands back with a new swapchain.
#[derive(Debug)]
pub enum Backbuffer {
    /// The swapchain's images, one for each slot.
    Images(Vec<u64>),
    /// A single opaque framebuffer.
    Framebuffer(u64),
}

/// The device refused to create the swapchain.
#[derive(Debug)]
pub struct ConstructionError {
    pub cause: CreationError,
}

/// The device did not accept the presentation.
#[derive(Clone, Copy, Debug, PartialEq, Eq, Structural)]
pub struct PresentationError;

/// The dimensions of an image.
#[derive(Clone, Copy, Debug, PartialEq, Eq, Structural)]
pub enum Kind {
    /// A row of texels: width and layers.
    D1(u32, u16),
    /// A plane: width, height, layers and samples.
    D2(u32, u32, u16, u8),
    /// A volume: width, height and depth.
    D3(u32, u32, u32),
}

/// How the texels of an image are laid out in memory.
#[derive(Clone, Copy, Debug, PartialEq, Eq, Structural)]
pub enum Tiling {
    Optimal,
    Linear,
}

/// What an image is created with.
#[derive(Clone, Copy, Debug)]
pub struct ImageInfo {
    pub kind: Kind,
    pub levels: u8,
    pub format: Format,
    pub tiling: Tiling,
    pub view_caps: u32,
    pub usage: Usage,
}

/// What is asked of the device for the next image: the swapchain to take it
/// from and how long to wait for it, in nanoseconds.
#[derive(Clone, Copy, Debug, PartialEq, Eq, Structural)]
pub struct AcquireRequest {
    pub swapchain: u64,
    pub timeout_ns: u64,
}

/// What a disposed target leaves behind: the swapchain to destroy, the
/// surface to drop after it, and the window, which goes back to the caller.
#[derive(Clone, Copy, Debug, PartialEq, Eq, Structural)]
pub struct Released {
    pub swapchain: u64,
    pub surface: u64,
    pub window: u64,
}

/// A rendering target bound to a window. The window, the surface, the
/// swapchain and its images are known by the numbers that the caller keeps
/// them under.
#[derive(Debug)]
pub struct Target {
    window: u64,
    surface: u64,
    swapchain: u64,
    images: Vec<u64>,
    format: Format,
    extent: Extent2D,
    usage: Usage,
}

/// A target as the contracts see it.
pub struct TargetView {
    pub window: u64,
    pub surface: u64,
    pub swapchain: u64,
    pub images: Seq<u64>,
    pub format: Format,
    pub extent: Extent2D,
    pub usage: Usage,
}

impl View for Target {
    type V = TargetView;

    closed spec fn view(&self) -> TargetView {
        TargetView {
            window: self.window,
            surface: self.surface,
            swapchain: self.swapchain,
            images: self.images@,
            format: self.format,
            extent: self.extent,
            usage: self.usage,
        }
    }
}

/// The target that comes of a window, its surface, the configuration asked
/// for and what the device made of it.
pub open spec fn built(
    window: u64,
    surface: u64,
    config: SwapchainConfig,
    swapchain: u64,
    images: Seq<u64>,
) -> TargetView {
    TargetView {
        window,
        surface,
        swapchain,
        images,
        format: config.format,
        extent: config.extent,
        usage: config.image_usage,
    }
}

impl Target {
    /// Binds a target to what the device created for `config`. Where the
    /// device refused, its error comes back and no target is made.
    pub fn new(
        window: u64,
        surface: u64,
        config: &SwapchainConfig,
        created: Result<(u64, Backbuffer), CreationError>,
    ) -> (outcome: Result<Target, ConstructionError>)
        requires
            created matches Ok((_, backbuffer)) ==> backbuffer is Images,
        ensures
            match created {
                Ok((swapchain, Backbuffer::Images(images))) => outcome is Ok && outcome->Ok_0@
                    == built(window, surface, *config, swapchain, images@),
                Ok((_, Backbuffer::Framebuffer(_))) => true,
                Err(cause) => outcome is Err && outcome->Err_0.cause == cause,
            },
    {
        match created {
            Ok((swapchain, backbuffer)) => {
                let images = match backbuffer {
                    Backbuffer::Images(images) => images,
                    Backbuffer::Framebuffer(_) => Vec::new(),
                };
                Ok(
                    Target {
                        window,
                        surface,
                        swapchain,
                        images,
                        format: config.format,
                        extent: config.extent,
                        usage: config.image_usage,
                    },
                )
            },
            Err(cause) => Err(ConstructionError { cause }),
        }
    }

    /// Ends the target and names what is left of it.
    pub fn dispose(self) -> (left: Released)
        ensures
            left == (Released {
                swapchain: self@.swapchain,
                surface: self@.surface,
                window: self@.window,
            }),
    {
        Released { swapchain: self.swapchain, surface: self.surface, window: self.window }
    }

    /// The surface.
    pub fn surface(&self) -> (surface: u64)
        ensures
            surface == self@.surface,
    {
        self.surface
    }

    /// The swapchain.
    pub fn swapchain(&self) -> (swapchain: u64)
        ensures
            swapchain == self@.swapchain,
    {
        self.swapchain
    }

    /// The extent that the swapchain was created with.
    pub fn extent(&self) -> (extent: Extent2D)
        ensures
            extent == self@.extent,
    {
        self.extent
    }

    /// The format that the swapchain was created with.
    pub fn format(&self) -> (format: Format)
        ensures
            format == self@.format,
    {
        self.format
    }

    /// The swapchain's images, one for each slot.
    pub fn images(&self) -> (images: &Vec<u64>)
        ensures
            images@ == self@.images,
    {
        &self.images
    }

    /// Describes an image that fits the swapchain's own: of the surface's
    /// kind, with one mip level, the target's format, optimal tiling, no view
    /// capabilities and the target's usage.
    pub fn image_info(&self, kind: Kind) -> (info: ImageInfo)
        ensures
            info.kind == kind,
            info.levels == 1,
            info.format == self@.format,
            info.tiling == Tiling::Optimal,
            info.view_caps == 0,
            info.usage == self@.usage,
    {
        ImageInfo {
            kind,
            levels: 1,
            format: self.format,
            tiling: Tiling::Optimal,
            view_caps: 0,
            usage: self.usage,
        }
    }

    /// The request for the next image: of the target's swapchain, waiting
    /// without limit.
    pub fn acquire_request(&self) -> (request: AcquireRequest)
        ensures
            request == (AcquireRequest { swapchain: self@.swapchain, timeout_ns: u64::MAX }),
    {
        AcquireRequest { swapchain: self.swapchain, timeout_ns: u64::MAX }
    }

    /// Takes what the device answered to the request for the next image.
    /// An index is paired with the target's swapchain; an error is handed on.
    /// The target stays as it is either way.
    pub fn next_image(&self, acquired: Result<u32, AcquireError>) -> (outcome: Result<
        NextImages,
        AcquireError,
    >)
        ensures
            match acquired {
                Ok(index) => outcome is Ok && outcome->Ok_0@ == seq![(self@.swapchain, index)],
                Err(error) => outcome == Err::<NextImages, AcquireError>(error),
            },
    {
        match acquired {
            Ok(index) => {
                let mut swapchains = empty_list();
                push_pair(&mut swapchains, self.swapchain, index);
                assert(held_pairs(swapchains) =~= seq![(self@.swapchain, index)]);
                Ok(NextImages { swapchains })
            },
            Err(error) => Err(error),
        }
    }
}

/// The images that are ready to be presented: pairs of a swapchain and the
/// index of an image of it.
#[derive(Debug)]
pub struct NextImages {
    swapchains: PairList,
}

impl View for NextImages {
    type V = Seq<(u64, u32)>;

    closed spec fn view(&self) -> Seq<(u64, u32)> {
        held_pairs(self.swapchains)
    }
}

/// The indices of the pairs, in the pairs' order.
pub open spec fn indices_of(pairs: Seq<(u64, u32)>) -> Seq<u32> {
    Seq::new(pairs.len(), |i: int| pairs[i].1)
}

impl NextImages {
    /// The indices of the images, in the order of the pairs.
    pub fn indices(&self) -> (indices: Vec<u32>)
        ensures
            indices@ == indices_of(self@),
    {
        let mut indices: Vec<u32> = Vec::new();
        let len: usize = list_len(&self.swapchains);
        let mut j: usize = 0;
        while j < len
            invariant
                j <= len,
                len == self@.len(),
                indices@ == indices_of(self@.take(j as int)),
            decreases len - j,
        {
            let pair = pair_at(&self.swapchains, j);
            indices.push(pair.1);
            assert(indices@ =~= indices_of(self@.take(j + 1)));
            j += 1;
        }
        assert(self@.take(len as int) =~= self@);
        indices
    }

    /// The pairs to hand to the queue in one present call, in order.
    pub fn pairs(&self) -> (pairs: Vec<(u64, u32)>)
        ensures
            pairs@ == self@,
    {
        let mut pairs: Vec<(u64, u32)> = Vec::new();
        let len: usize = list_len(&self.swapchains);
        let mut j: usize = 0;
        while j < len
            invariant
                j <= len,
                len == self@.len(),
                pairs@ == self@.take(j as int),
            decreases len - j,
        {
            pairs.push(pair_at(&self.swapchains, j));
            assert(pairs@ =~= self@.take(j + 1));
            j += 1;
        }
        assert(self@.take(len as int) =~= self@);
        pairs
    }

    /// Puts the pairs of `other` behind those of `self`, for one present call
    /// on several swapchains.
    pub fn merge(self, other: &NextImages) -> (both: NextImages)
        ensures
            both@ == self@ + other@,
    {
        let mut swapchains = self.swapchains;
        let len: usize = list_len(&other.swapchains);
        let mut j: usize = 0;
        while j < len
            invariant
                j <= len,
                len == other@.len(),
                held_pairs(swapchains) == self@ + other@.take(j as int),
            decreases len - j,
        {
            let pair = pair_at(&other.swapchains, j);
            push_pair(&mut swapchains, pair.0, pair.1);
            assert(held_pairs(swapchains) =~= self@ + other@.take(j + 1));
            j += 1;
        }
        assert(other@.take(len as int) =~= other@);
        NextImages { swapchains }
    }

    /// Ends the acquisition with what the queue answered to the present call.
    /// The images are given up either way: they cannot be presented again.
    pub fn present(self, answer: Result<(), ()>) -> (outcome: Result<(), PresentationError>)
        ensures
            outcome is Ok <==> answer is Ok,
    {
        match answer {
            Ok(()) => Ok(()),
            Err(()) => Err(PresentationError),
        }
    }
}

} // verus!
