//! Texture storage, the region of it that an upload covers, and the sampler
//! through which shaders read it.

use gfx::format::SurfaceType;
use gfx::memory::{Bind, Usage};
use gfx::texture::{AaMode, Info, Kind};
use vstd::prelude::*;

verus! {

/// Number of bytes in one texel: red, green, blue and alpha, a byte each.
pub const BYTES_PER_TEXEL: usize = 4;

/// Storage of a two-dimensional texture of RGBA texels with eight bits per
/// channel, read by shaders and filled by update commands.
#[derive(Clone, Copy, Debug, PartialEq, Eq, Structural)]
pub struct TextureInfo {
    pub width: u16,
    pub height: u16,
    /// Number of mipmap levels that the storage holds.
    pub levels: u8,
}

/// A box of texels within one mipmap level of a texture.
#[derive(Clone, Copy, Debug, PartialEq, Eq, Structural)]
pub struct ImageInfo {
    pub xoffset: u16,
    pub yoffset: u16,
    pub zoffset: u16,
    pub width: u16,
    pub height: u16,
    pub depth: u16,
    pub mipmap: u8,
}

/// Extent of mipmap level `level` along an axis whose extent at level zero
/// is `size`: halved once per level, for at most fifteen levels, and never
/// below one unless the axis is unused.
pub open spec fn level_extent(size: u16, level: u8) -> u16 {
    let halvings: u8 = if level < 15 {
        level
    } else {
        15
    };
    let halved: u16 = size >> halvings;
    let least: u16 = if size < 1 {
        size
    } else {
        1
    };
    if least > halved {
        least
    } else {
        halved
    }
}

impl ImageInfo {
    /// Number of texels in the box.
    pub open spec fn texel_count(self) -> int {
        self.width * self.height * self.depth
    }

    /// True when the box starts at the texture's origin.
    pub open spec fn at_origin(self) -> bool {
        self.xoffset == 0 && self.yoffset == 0 && self.zoffset == 0
    }
}

impl TextureInfo {
    /// The whole of mipmap level `level`.
    pub open spec fn image_at(self, level: u8) -> ImageInfo {
        ImageInfo {
            xoffset: 0,
            yoffset: 0,
            zoffset: 0,
            width: level_extent(self.width, level),
            height: level_extent(self.height, level),
            depth: level_extent(1, level),
            mipmap: level,
        }
    }

    /// The whole of the texture at full resolution.
    pub open spec fn whole_image(self) -> ImageInfo {
        ImageInfo {
            xoffset: 0,
            yoffset: 0,
            zoffset: 0,
            width: self.width,
            height: self.height,
            depth: 1,
            mipmap: 0,
        }
    }

    pub fn new(width: u16, height: u16, levels: u8) -> (info: TextureInfo)
        ensures
            info == (TextureInfo { width, height, levels }),
    {
        TextureInfo { width, height, levels }
    }

    /// The region that an upload of the whole texture covers: mipmap level
    /// zero, from the origin, over the texture's full width and height.
    pub fn to_image_info(&self) -> (image: ImageInfo)
        ensures
            image == self.whole_image(),
            image.at_origin(),
            image.texel_count() == self.width * self.height,
    {
        let image = level_image(self, 0);
        proof {
            lemma_level_zero(self.width);
            lemma_level_zero(self.height);
            lemma_level_zero(1);
            assert(image.width * image.height * image.depth == image.width * image.height)
                by (nonlinear_arith)
                requires
                    image.depth == 1,
            ;
        }
        image
    }
}

/// Level zero keeps the extent that the storage was given.
pub proof fn lemma_level_zero(size: u16)
    ensures
        level_extent(size, 0) == size,
{
    assert(size >> 0u8 == size) by (bit_vector);
}

/// Asks `gfx::texture::Info::to_image_info` for the region that mipmap level
/// `level` of `info` covers. That function returns a region at offset zero
/// on every axis, tagged with the level it was asked for, whose width and
/// height are those of the storage halved `min(level, 15)` times but no
/// less than one (zero stays zero); a two-dimensional storage has depth
/// one, which the same rule keeps at one. The storage's format, binding and
/// usage do not enter the result.
#[verifier::external_body]
fn level_image(info: &TextureInfo, level: u8) -> (image: ImageInfo)
    ensures
        image == info.image_at(level),
{
    let storage = Info {
        kind: Kind::D2(info.width, info.height, AaMode::Single),
        levels: info.levels,
        format: SurfaceType::R8_G8_B8_A8,
        bind: Bind::SHADER_RESOURCE,
        usage: Usage::Dynamic,
    };
    let i = storage.to_image_info(level);
    ImageInfo { xoffset: i.xoffset, yoffset: i.yoffset, zoffset: i.zoffset, width: i.width, height: i.height, depth: i.depth, mipmap: i.mipmap }
}

/// How a sampler blends neighbouring texels.
#[derive(Clone, Copy, Debug, PartialEq, Eq, Structural)]
pub enum FilterMethod {
    Scale,
    Mipmap,
    Bilinear,
    Trilinear,
}

/// What a sampler returns for coordinates outside the unit square.
#[derive(Clone, Copy, Debug, PartialEq, Eq, Structural)]
pub enum WrapMode {
    Tile,
    Mirror,
    Clamp,
    Border,
}

/// The settings of a sampler: one filter, and one wrap mode for all axes.
#[derive(Clone, Copy, Debug, PartialEq, Eq, Structural)]
pub struct SamplerInfo {
    pub filter: FilterMethod,
    pub wrap: WrapMode,
}

impl SamplerInfo {
    pub fn new(filter: FilterMethod, wrap: WrapMode) -> (info: SamplerInfo)
        ensures
            info == (SamplerInfo { filter, wrap }),
    {
        SamplerInfo { filter, wrap }
    }
}

} // verus!
