use render_system::buffer::{
    byte_size, BufferType, BufferTypeArray, BufferTypeElementArray, BufferTypePixel,
};
use render_system::texture::{
    texture_config, ColorU8, SerializedRGB, TextureConfig, TextureType, TextureTypeF32,
    TextureTypeI32, TextureTypeRGB, TextureTypeRed, TextureTypeU8RGB, TextureTypeU8RGBA,
};

#[test]
fn buffer_kinds_name_their_targets() {
    assert_eq!(BufferTypeArray::BUFFER_TYPE, gl::ARRAY_BUFFER);
    assert_eq!(BufferTypeElementArray::BUFFER_TYPE, gl::ELEMENT_ARRAY_BUFFER);
    assert_eq!(BufferTypePixel::BUFFER_TYPE, gl::PIXEL_PACK_BUFFER);
}

#[test]
fn byte_sizes() {
    assert_eq!(byte_size(24, 4), Some(96));
    assert_eq!(byte_size(0, 4), Some(0));
    assert_eq!(byte_size(isize::MAX as usize, 1), Some(isize::MAX));
    assert_eq!(byte_size(isize::MAX as usize, 2), None);
    assert_eq!(byte_size(usize::MAX, usize::MAX), None);
    assert_eq!(byte_size(isize::MAX as usize + 1, 1), None);
}

#[test]
fn texture_kinds_name_their_formats() {
    assert_eq!(
        texture_config::<TextureTypeRGB>(),
        TextureConfig {
            internal_format: gl::RGB4,
            texture_type: gl::RGB,
            data_type: gl::FLOAT,
            target: gl::TEXTURE_RECTANGLE,
            wrap_s: gl::CLAMP_TO_EDGE,
            wrap_t: gl::CLAMP_TO_EDGE,
            min_filter: gl::LINEAR,
            mag_filter: gl::LINEAR,
        }
    );
    let bytes = TextureConfig {
        internal_format: gl::RGBA,
        texture_type: gl::RGBA,
        data_type: gl::UNSIGNED_BYTE,
        target: gl::TEXTURE_2D,
        wrap_s: gl::REPEAT,
        wrap_t: gl::REPEAT,
        min_filter: gl::LINEAR_MIPMAP_LINEAR,
        mag_filter: gl::LINEAR,
    };
    assert_eq!(texture_config::<TextureTypeU8RGB>(), bytes);
    assert_eq!(texture_config::<TextureTypeU8RGBA>(), bytes);
    assert_eq!(
        texture_config::<TextureTypeI32>(),
        TextureConfig {
            internal_format: gl::R32I,
            texture_type: gl::RED_INTEGER,
            data_type: gl::INT,
            target: gl::TEXTURE_RECTANGLE,
            wrap_s: gl::CLAMP_TO_EDGE,
            wrap_t: gl::CLAMP_TO_EDGE,
            min_filter: gl::LINEAR,
            mag_filter: gl::LINEAR,
        }
    );
    assert_eq!(
        texture_config::<TextureTypeRed>(),
        TextureConfig {
            internal_format: gl::RED,
            texture_type: gl::RED,
            data_type: gl::UNSIGNED_BYTE,
            target: gl::TEXTURE_2D,
            wrap_s: gl::CLAMP_TO_EDGE,
            wrap_t: gl::CLAMP_TO_EDGE,
            min_filter: gl::LINEAR,
            mag_filter: gl::LINEAR,
        }
    );
    assert_eq!(
        texture_config::<TextureTypeF32>(),
        TextureConfig {
            internal_format: gl::R32F,
            texture_type: gl::RED,
            data_type: gl::FLOAT,
            target: gl::TEXTURE_2D,
            wrap_s: gl::CLAMP_TO_EDGE,
            wrap_t: gl::CLAMP_TO_EDGE,
            min_filter: gl::LINEAR,
            mag_filter: gl::LINEAR,
        }
    );
    assert_eq!(TextureTypeF32::TARGET, gl::TEXTURE_2D);
}

#[test]
fn colors_are_their_channels() {
    let c: ColorU8 = SerializedRGB::new(1, 2, 3);
    assert_eq!((c.r, c.g, c.b), (1, 2, 3));
    let d = SerializedRGB::from(&[7_u8, 8, 9]);
    assert_eq!((d.r, d.g, d.b), (7, 8, 9));
    let channels: [u8; 3] = d.into();
    assert_eq!(channels, [7, 8, 9]);
    assert!(c != d);
    assert!(c == SerializedRGB::new(1, 2, 3));
}
