//! The kinds of texture: each names the formats and the parameters that the
//! graphics API is given when a texture of its kind is made.

use vstd::prelude::*;

verus! {

pub const RGB: u32 = 0x1907;

pub const RGBA: u32 = 0x1908;

pub const RED: u32 = 0x1903;

pub const RED_INTEGER: u32 = 0x8D94;

pub const RGB4: u32 = 0x804F;

pub const R32I: u32 = 0x8235;

pub const R32F: u32 = 0x822E;

pub const UNSIGNED_BYTE: u32 = 0x1401;

pub const INT: u32 = 0x1404;

pub const FLOAT: u32 = 0x1406;

pub const TEXTURE_2D: u32 = 0x0DE1;

pub const TEXTURE_RECTANGLE: u32 = 0x84F5;

pub const CLAMP_TO_EDGE: u32 = 0x812F;

pub const REPEAT: u32 = 0x2901;

pub const LINEAR: u32 = 0x2601;

pub const LINEAR_MIPMAP_LINEAR: u32 = 0x2703;

/// A kind of texture.
pub trait TextureType {
    /// How the graphics card holds the texture.
    const INTERNAL_FORMAT: u32;

    /// Which channels the data of a pixel has.
    const TEXTURE_TYPE: u32;

    /// What type a channel of the data has.
    const DATA_TYPE: u32;

    /// What the texture is bound to.
    const TARGET: u32;

    const TEXTURE_WRAP_S: u32;

    const TEXTURE_WRAP_T: u32;

    const TEXTURE_MIN_FILTER: u32;

    const TEXTURE_MAG_FILTER: u32;
}

/// The formats and parameters of a kind of texture, as one record.
#[derive(Clone, Copy, Debug, PartialEq, Eq, Structural)]
pub struct TextureConfig {
    pub internal_format: u32,
    pub texture_type: u32,
    pub data_type: u32,
    pub target: u32,
    pub wrap_s: u32,
    pub wrap_t: u32,
    pub min_filter: u32,
    pub mag_filter: u32,
}

/// The record of the kind `T`.
pub fn texture_config<T: TextureType>() -> (c: TextureConfig)
    ensures
        c == config_of::<T>(),
{
    TextureConfig {
        internal_format: T::INTERNAL_FORMAT,
        texture_type: T::TEXTURE_TYPE,
        data_type: T::DATA_TYPE,
        target: T::TARGET,
        wrap_s: T::TEXTURE_WRAP_S,
        wrap_t: T::TEXTURE_WRAP_T,
        min_filter: T::TEXTURE_MIN_FILTER,
        mag_filter: T::TEXTURE_MAG_FILTER,
    }
}

/// Colors of three floating-point channels, read by pixel position.
pub struct TextureTypeRGB;

impl TextureType for TextureTypeRGB {
    const INTERNAL_FORMAT: u32 = RGB4;

    const TEXTURE_TYPE: u32 = RGB;

    const DATA_TYPE: u32 = FLOAT;

    const TARGET: u32 = TEXTURE_RECTANGLE;

    const TEXTURE_WRAP_S: u32 = CLAMP_TO_EDGE;

    const TEXTURE_WRAP_T: u32 = CLAMP_TO_EDGE;

    const TEXTURE_MIN_FILTER: u32 = LINEAR;

    const TEXTURE_MAG_FILTER: u32 = LINEAR;
}

/// Colors of three bytes.
pub struct TextureTypeU8RGB;

impl TextureType for TextureTypeU8RGB {
    const INTERNAL_FORMAT: u32 = RGBA;

    const TEXTURE_TYPE: u32 = RGBA;

    const DATA_TYPE: u32 = UNSIGNED_BYTE;

    const TARGET: u32 = TEXTURE_2D;

    const TEXTURE_WRAP_S: u32 = REPEAT;

    const TEXTURE_WRAP_T: u32 = REPEAT;

    const TEXTURE_MIN_FILTER: u32 = LINEAR_MIPMAP_LINEAR;

    const TEXTURE_MAG_FILTER: u32 = LINEAR;
}

/// Colors of four bytes.
pub struct TextureTypeU8RGBA;

impl TextureType for TextureTypeU8RGBA {
    const INTERNAL_FORMAT: u32 = RGBA;

    const TEXTURE_TYPE: u32 = RGBA;

    const DATA_TYPE: u32 = UNSIGNED_BYTE;

    const TARGET: u32 = TEXTURE_2D;

    const TEXTURE_WRAP_S: u32 = REPEAT;

    const TEXTURE_WRAP_T: u32 = REPEAT;

    const TEXTURE_MIN_FILTER: u32 = LINEAR_MIPMAP_LINEAR;

    const TEXTURE_MAG_FILTER: u32 = LINEAR;
}

/// One signed integer of 32 bits per pixel, read by pixel position.
pub struct TextureTypeI32;

impl TextureType for TextureTypeI32 {
    const INTERNAL_FORMAT: u32 = R32I;

    const TEXTURE_TYPE: u32 = RED_INTEGER;

    const DATA_TYPE: u32 = INT;

    const TARGET: u32 = TEXTURE_RECTANGLE;

    const TEXTURE_WRAP_S: u32 = CLAMP_TO_EDGE;

    const TEXTURE_WRAP_T: u32 = CLAMP_TO_EDGE;

    const TEXTURE_MIN_FILTER: u32 = LINEAR;

    const TEXTURE_MAG_FILTER: u32 = LINEAR;
}

/// One byte per pixel.
pub struct TextureTypeRed;

impl TextureType for TextureTypeRed {
    const INTERNAL_FORMAT: u32 = RED;

    const TEXTURE_TYPE: u32 = RED;

    const DATA_TYPE: u32 = UNSIGNED_BYTE;

    const TARGET: u32 = TEXTURE_2D;

    const TEXTURE_WRAP_S: u32 = CLAMP_TO_EDGE;

    const TEXTURE_WRAP_T: u32 = CLAMP_TO_EDGE;

    const TEXTURE_MIN_FILTER: u32 = LINEAR;

    const TEXTURE_MAG_FILTER: u32 = LINEAR;
}

/// One floating-point number of 32 bits per pixel.
pub struct TextureTypeF32;

impl TextureType for TextureTypeF32 {
    const INTERNAL_FORMAT: u32 = R32F;

    const TEXTURE_TYPE: u32 = RED;

    const DATA_TYPE: u32 = FLOAT;

    const TARGET: u32 = TEXTURE_2D;

    const TEXTURE_WRAP_S: u32 = CLAMP_TO_EDGE;

    const TEXTURE_WRAP_T: u32 = CLAMP_TO_EDGE;

    const TEXTURE_MIN_FILTER: u32 = LINEAR;

    const TEXTURE_MAG_FILTER: u32 = LINEAR;
}

/// The record of the kind `T`, as a value of specifications.
pub open spec fn config_of<T: TextureType>() -> TextureConfig {
    TextureConfig {
        internal_format: T::INTERNAL_FORMAT,
        texture_type: T::TEXTURE_TYPE,
        data_type: T::DATA_TYPE,
        target: T::TARGET,
        wrap_s: T::TEXTURE_WRAP_S,
        wrap_t: T::TEXTURE_WRAP_T,
        min_filter: T::TEXTURE_MIN_FILTER,
        mag_filter: T::TEXTURE_MAG_FILTER,
    }
}

/// The formats and parameters of each kind of texture.
pub proof fn texture_formats()
    ensures
        config_of::<TextureTypeRGB>() == (TextureConfig {
            internal_format: RGB4,
            texture_type: RGB,
            data_type: FLOAT,
            target: TEXTURE_RECTANGLE,
            wrap_s: CLAMP_TO_EDGE,
            wrap_t: CLAMP_TO_EDGE,
            min_filter: LINEAR,
            mag_filter: LINEAR,
        }),
        config_of::<TextureTypeU8RGB>() == (TextureConfig {
            internal_format: RGBA,
            texture_type: RGBA,
            data_type: UNSIGNED_BYTE,
            target: TEXTURE_2D,
            wrap_s: REPEAT,
            wrap_t: REPEAT,
            min_filter: LINEAR_MIPMAP_LINEAR,
            mag_filter: LINEAR,
        }),
        config_of::<TextureTypeU8RGBA>() == (TextureConfig {
            internal_format: RGBA,
            texture_type: RGBA,
            data_type: UNSIGNED_BYTE,
            target: TEXTURE_2D,
            wrap_s: REPEAT,
            wrap_t: REPEAT,
            min_filter: LINEAR_MIPMAP_LINEAR,
            mag_filter: LINEAR,
        }),
        config_of::<TextureTypeI32>() == (TextureConfig {
            internal_format: R32I,
            texture_type: RED_INTEGER,
            data_type: INT,
            target: TEXTURE_RECTANGLE,
            wrap_s: CLAMP_TO_EDGE,
            wrap_t: CLAMP_TO_EDGE,
            min_filter: LINEAR,
            mag_filter: LINEAR,
        }),
        config_of::<TextureTypeRed>() == (TextureConfig {
            internal_format: RED,
            texture_type: RED,
            data_type: UNSIGNED_BYTE,
            target: TEXTURE_2D,
            wrap_s: CLAMP_TO_EDGE,
            wrap_t: CLAMP_TO_EDGE,
            min_filter: LINEAR,
            mag_filter: LINEAR,
        }),
        config_of::<TextureTypeF32>() == (TextureConfig {
            internal_format: R32F,
            texture_type: RED,
            data_type: FLOAT,
            target: TEXTURE_2D,
            wrap_s: CLAMP_TO_EDGE,
            wrap_t: CLAMP_TO_EDGE,
            min_filter: LINEAR,
            mag_filter: LINEAR,
        }),
{
}

} // verus!
