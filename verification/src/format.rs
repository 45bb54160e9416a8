//! Surface formats and the preference among them.

use gfx_hal::format::Format;
use vstd::prelude::*;

verus! {

#[verifier::external_type_specification]
#[verifier::external_body]
pub struct ExFormat(gfx_hal::format::Format);

/// One more than the number of the last format that the device interface
/// lists. The interface keeps this number itself for a marker that is no
/// format.
pub const FORMAT_LIMIT: u32 = 185;

/// How the storage of a channel is read.
#[derive(Clone, Copy, Debug, PartialEq, Eq, Structural)]
pub enum ChannelType {
    Unorm,
    Snorm,
    Uint,
    Sint,
    Ufloat,
    Sfloat,
    Uscaled,
    Sscaled,
    Srgb,
}

/// What the device interface says of a format's surface: the bits of a texel
/// (of a block, where the format is compressed) and the block's dimensions.
#[derive(Clone, Copy, Debug, PartialEq, Eq, Structural)]
pub struct SurfaceDesc {
    pub bits: u16,
    pub block_width: u8,
    pub block_height: u8,
}

/// The number of `format` in the device interface's list of formats.
pub uninterp spec fn format_number(format: Format) -> u32;

/// The surface description that `Format::surface_desc` gives for `format`.
pub uninterp spec fn surface_desc_of(format: Format) -> SurfaceDesc;

/// The channel type in the base format that `Format::base_format` gives for
/// `format`.
pub uninterp spec fn channel_type_of(format: Format) -> ChannelType;

/// A format that the device interface lists, and so can describe.
pub open spec fn is_listed(format: Format) -> bool {
    0 < format_number(format) < FORMAT_LIMIT
}

/// Converts the format to its number (`format as u32`).
///
/// Trusted: the result is the number that the contracts call
/// `format_number(format)`.
#[verifier::external_body]
fn number_of(format: Format) -> (number: u32)
    ensures
        number == format_number(format),
{
    format as u32
}

/// Calls `gfx_hal::format::Format::surface_desc`.
///
/// Trusted: the result holds the `bits` and the `dim` of the description that
/// the call returns. The call panics on a format that is not listed, which
/// `requires` leaves out.
#[verifier::external_body]
fn surface_desc(format: Format) -> (desc: SurfaceDesc)
    requires
        is_listed(format),
    ensures
        desc == surface_desc_of(format),
{
    let desc = format.surface_desc();
    SurfaceDesc { bits: desc.bits, block_width: desc.dim.0, block_height: desc.dim.1 }
}

/// Calls `gfx_hal::format::Format::base_format`.
///
/// Trusted: the result is the channel type of the base format that the call
/// returns, variant for variant. The call panics on a format that is not
/// listed, which `requires` leaves out.
#[verifier::external_body]
fn channel_type(format: Format) -> (channel: ChannelType)
    requires
        is_listed(format),
    ensures
        channel == channel_type_of(format),
{
    match format.base_format().1 {
        gfx_hal::format::ChannelType::Unorm => ChannelType::Unorm,
        gfx_hal::format::ChannelType::Snorm => ChannelType::Snorm,
        gfx_hal::format::ChannelType::Uint => ChannelType::Uint,
        gfx_hal::format::ChannelType::Sint => ChannelType::Sint,
        gfx_hal::format::ChannelType::Ufloat => ChannelType::Ufloat,
        gfx_hal::format::ChannelType::Sfloat => ChannelType::Sfloat,
        gfx_hal::format::ChannelType::Uscaled => ChannelType::Uscaled,
        gfx_hal::format::ChannelType::Sscaled => ChannelType::Sscaled,
        gfx_hal::format::ChannelType::Srgb => ChannelType::Srgb,
    }
}

/// What the preference among formats looks at, most important first.
#[derive(Clone, Copy, Debug, PartialEq, Eq, Structural)]
pub struct FormatKey {
    pub uncompressed: bool,
    pub bits: u16,
    pub srgb: bool,
}

/// A format is compressed when its block is not a single texel.
pub open spec fn is_compressed(desc: SurfaceDesc) -> bool {
    !(desc.block_width == 1 && desc.block_height == 1)
}

/// The key made of a surface description and a channel type.
pub open spec fn key_from(desc: SurfaceDesc, channel: ChannelType) -> FormatKey {
    FormatKey {
        uncompressed: !is_compressed(desc),
        bits: desc.bits,
        srgb: channel == ChannelType::Srgb,
    }
}

/// The key of a format.
pub open spec fn key_of(format: Format) -> FormatKey {
    key_from(surface_desc_of(format), channel_type_of(format))
}

/// `a` is strictly less preferred than `b`: compared as the triple
/// (uncompressed, bits, sRGB), with `false` below `true`.
pub open spec fn key_lt(a: FormatKey, b: FormatKey) -> bool {
    ||| (!a.uncompressed && b.uncompressed)
    ||| (a.uncompressed == b.uncompressed && a.bits < b.bits)
    ||| (a.uncompressed == b.uncompressed && a.bits == b.bits && !a.srgb && b.srgb)
}

/// `a` is at most as preferred as `b`.
pub open spec fn key_le(a: FormatKey, b: FormatKey) -> bool {
    a == b || key_lt(a, b)
}

/// `i` is the place of the preferred key: no key is above it, and every key
/// after it is strictly below it (of equal keys the last one is preferred).
pub open spec fn is_best(keys: Seq<FormatKey>, i: int) -> bool {
    &&& 0 <= i < keys.len()
    &&& forall|j: int| 0 <= j < keys.len() ==> key_le(#[trigger] keys[j], keys[i])
    &&& forall|j: int| i < j < keys.len() ==> key_lt(#[trigger] keys[j], keys[i])
}

/// The keys of a list of formats, place by place.
pub open spec fn keys_of(formats: Seq<Format>) -> Seq<FormatKey> {
    Seq::new(formats.len(), |i: int| key_of(formats[i]))
}

/// Tells whether the device interface lists the format.
pub fn listed(format: Format) -> (yes: bool)
    ensures
        yes == is_listed(format),
{
    let number: u32 = number_of(format);
    0 < number && number < FORMAT_LIMIT
}

/// Builds a key from a surface description and a channel type.
pub fn make_key(desc: SurfaceDesc, channel: ChannelType) -> (key: FormatKey)
    ensures
        key == key_from(desc, channel),
{
    let single: bool = desc.block_width == 1 && desc.block_height == 1;
    FormatKey { uncompressed: single, bits: desc.bits, srgb: channel == ChannelType::Srgb }
}

/// The key of a listed format.
pub fn format_key(format: Format) -> (key: FormatKey)
    requires
        is_listed(format),
    ensures
        key == key_of(format),
{
    make_key(surface_desc(format), channel_type(format))
}

/// The key of a format, or `None` for one that the device interface does not
/// list.
pub fn checked_format_key(format: Format) -> (key: Option<FormatKey>)
    ensures
        key == (if is_listed(format) { Some(key_of(format)) } else { None }),
{
    if listed(format) {
        Some(format_key(format))
    } else {
        None
    }
}

/// Compares two keys.
pub fn key_at_most(a: FormatKey, b: FormatKey) -> (yes: bool)
    ensures
        yes == key_le(a, b),
{
    if a.uncompressed != b.uncompressed {
        b.uncompressed
    } else if a.bits != b.bits {
        a.bits < b.bits
    } else {
        !a.srgb || b.srgb
    }
}

/// The place of the preferred key in a list of keys.
pub fn best_key_index(keys: &Vec<FormatKey>) -> (best: Option<usize>)
    ensures
        keys.len() == 0 <==> best is None,
        best matches Some(i) ==> is_best(keys@, i as int),
{
    if keys.len() == 0 {
        return None;
    }
    let mut best: usize = 0;
    let mut j: usize = 1;
    while j < keys.len()
        invariant
            1 <= j <= keys.len(),
            best < j,
            forall|k: int| 0 <= k < j ==> key_le(#[trigger] keys@[k], keys@[best as int]),
            forall|k: int| best < k < j ==> key_lt(#[trigger] keys@[k], keys@[best as int]),
        decreases keys.len() - j,
    {
        if key_at_most(keys[best], keys[j]) {
            best = j;
        }
        j += 1;
    }
    Some(best)
}

/// Picks the preferred format of a list: uncompressed before compressed, then
/// more bits, then sRGB; of equally preferred formats the last.
pub fn select_format(formats: &Vec<Format>) -> (chosen: Format)
    requires
        formats.len() > 0,
        forall|i: int| 0 <= i < formats.len() ==> is_listed(#[trigger] formats@[i]),
    ensures
        exists|i: int| is_best(keys_of(formats@), i) && chosen == formats@[i],
{
    let mut keys: Vec<FormatKey> = Vec::new();
    let mut j: usize = 0;
    while j < formats.len()
        invariant
            j <= formats.len(),
            keys.len() == j,
            forall|i: int| 0 <= i < formats.len() ==> is_listed(#[trigger] formats@[i]),
            forall|k: int| 0 <= k < j ==> #[trigger] keys@[k] == key_of(formats@[k]),
        decreases formats.len() - j,
    {
        keys.push(format_key(formats[j]));
        j += 1;
    }
    assert(keys@ =~= keys_of(formats@));
    match best_key_index(&keys) {
        Some(i) => formats[i],
        None => formats[0],
    }
}

/// Picks the preferred format as `select_format` does, or `None` where the
/// list is empty or holds a format that the device interface does not list.
pub fn checked_select_format(formats: &Vec<Format>) -> (chosen: Option<Format>)
    ensures
        chosen is Some <==> (formats.len() > 0 && forall|i: int|
            0 <= i < formats.len() ==> is_listed(#[trigger] formats@[i])),
        chosen matches Some(format) ==> exists|i: int|
            is_best(keys_of(formats@), i) && format == formats@[i],
{
    if formats.len() == 0 {
        return None;
    }
    let mut j: usize = 0;
    while j < formats.len()
        invariant
            j <= formats.len(),
            forall|i: int| 0 <= i < j ==> is_listed(#[trigger] formats@[i]),
        decreases formats.len() - j,
    {
        if !listed(formats[j]) {
            return None;
        }
        j += 1;
    }
    Some(select_format(formats))
}

/// Between a compressed and an uncompressed format that agree in bits and in
/// sRGB, the compressed one is never the preferred; the preferred format is
/// uncompressed.
pub proof fn prefers_uncompressed(keys: Seq<FormatKey>, best: int, compressed: int, plain: int)
    requires
        is_best(keys, best),
        0 <= compressed < keys.len(),
        0 <= plain < keys.len(),
        !keys[compressed].uncompressed,
        keys[plain].uncompressed,
        keys[compressed].bits == keys[plain].bits,
        keys[compressed].srgb == keys[plain].srgb,
    ensures
        best != compressed,
        keys[best].uncompressed,
{
    assert(key_le(keys[plain], keys[best]));
}

/// Between an sRGB and a non-sRGB format that agree in bits and in
/// compression, the non-sRGB one is never the preferred.
pub proof fn prefers_srgb(keys: Seq<FormatKey>, best: int, srgb: int, linear: int)
    requires
        is_best(keys, best),
        0 <= srgb < keys.len(),
        0 <= linear < keys.len(),
        keys[srgb].srgb,
        !keys[linear].srgb,
        keys[srgb].bits == keys[linear].bits,
        keys[srgb].uncompressed == keys[linear].uncompressed,
    ensures
        best != linear,
{
    assert(key_le(keys[srgb], keys[best]));
}

/// A list of keys has at most one preferred place.
pub proof fn best_is_unique(keys: Seq<FormatKey>, i: int, j: int)
    requires
        is_best(keys, i),
        is_best(keys, j),
    ensures
        i == j,
{
    if i < j {
        assert(key_lt(keys[j], keys[i]));
        assert(key_le(keys[i], keys[j]));
    } else if j < i {
        assert(key_lt(keys[i], keys[j]));
        assert(key_le(keys[j], keys[i]));
    }
}

} // verus!
