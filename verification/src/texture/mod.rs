//! What textures are made of: colors and the formats of the graphics API.

pub mod color;
pub mod rgb_image;
pub mod rgb_texture;

pub use crate::texture::color::{ColorU8, SerializedRGB};
pub use crate::texture::rgb_image::{RGBImage, RgbPicture};
pub use crate::texture::rgb_texture::{
    config_of, texture_config, texture_formats, TextureConfig, TextureType, TextureTypeF32,
    TextureTypeI32, TextureTypeRGB, TextureTypeRed, TextureTypeU8RGB, TextureTypeU8RGBA,
};
