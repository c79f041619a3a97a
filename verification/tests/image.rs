use chaos_vk::image::{copy_buffer_to_image, copy_image_to_buffer, rgba_byte_len, RendererError, RGBA_BYTES};

#[test]
fn rgba_image_takes_four_bytes_per_pixel() {
    assert_eq!(RGBA_BYTES, 4);
    assert_eq!(rgba_byte_len(1024, 1024), Ok(4 * 1024 * 1024));
    assert_eq!(rgba_byte_len(1200, 900), Ok(4_320_000));
    assert_eq!(rgba_byte_len(0, 900), Ok(0));
    assert_eq!(rgba_byte_len(1, 1), Ok(4));
}

#[test]
fn unaddressable_image_is_refused() {
    assert_eq!(rgba_byte_len(u32::MAX, u32::MAX), Err(RendererError::BadImageDimensions()));
    assert_eq!(copy_image_to_buffer(u32::MAX, u32::MAX), Err(RendererError::BadImageDimensions()));
    assert_eq!(
        copy_buffer_to_image(u32::MAX, u32::MAX, &[1, 2, 3, 4]),
        Err(RendererError::BadImageDimensions())
    );
}

#[test]
fn staging_takes_the_leading_bytes() {
    let data: Vec<u8> = (0..20).collect();
    assert_eq!(copy_buffer_to_image(2, 2, &data), Ok((0..16).collect::<Vec<u8>>()));
    assert_eq!(copy_buffer_to_image(5, 1, &data), Ok(data.clone()));
    assert_eq!(copy_buffer_to_image(0, 7, &data), Ok(Vec::new()));
}

#[test]
fn short_pixel_data_is_refused() {
    let data: Vec<u8> = (0..15).collect();
    assert_eq!(copy_buffer_to_image(2, 2, &data), Err(RendererError::BadImageDimensions()));
    assert_eq!(copy_buffer_to_image(1, 1, &[]), Err(RendererError::BadImageDimensions()));
}

#[test]
fn read_back_buffer_starts_zeroed() {
    assert_eq!(copy_image_to_buffer(3, 2), Ok(vec![0u8; 24]));
    assert_eq!(copy_image_to_buffer(0, 0), Ok(Vec::new()));
}

#[test]
fn bad_texture_names_the_id() {
    assert_eq!(RendererError::BadTexture(7), RendererError::BadTexture(7));
    assert_ne!(RendererError::BadTexture(7), RendererError::BadTexture(8));
    assert_ne!(RendererError::BadTexture(0), RendererError::BadImageDimensions());
}
