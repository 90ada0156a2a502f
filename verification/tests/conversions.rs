use image::{Pixel, Rgba32FImage};
use image_ndarray::{Error, OwnedArray, PixelBuffer};
use ndarray::Array3;

fn create_test_data(width: usize, height: usize, channels: usize) -> Vec<f32> {
    let total_elements = width * height * channels;
    (0..total_elements).map(|x| (x + 1) as f32).collect()
}

#[test]
fn prelude_test_to_ndarray() {
    let (width, height, channels) = (256, 128, 4);
    let data = create_test_data(width, height, channels);
    let test_image = Rgba32FImage::from_vec(256, 128, data).unwrap();

    let buffer = PixelBuffer::from_vec(256, 128, 4, test_image.as_raw().clone()).unwrap();
    let mut array = buffer.to_ndarray();

    for y in 0..height {
        for x in 0..width {
            for channel in 0..channels {
                let value = array.read(y, x, channel);
                array.write(y, x, channel, value + 1.0);
            }
        }
    }
    for y in 0..height {
        for x in 0..width {
            for channel in 0..channels {
                assert_eq!(
                    test_image.get_pixel(x as u32, y as u32)[channel] + 1.0,
                    array.read(y, x, channel)
                );
            }
        }
    }
}

#[test]
fn prelude_test_from_ndarray() {
    let (width, height, channels) = (256, 128, 4);
    let data = create_test_data(width, height, channels);
    let test_image = Array3::from_shape_vec((height, width, channels), data).unwrap();
    let compare_data = test_image.clone();

    let owned = OwnedArray::from_vec(height, width, channels,
        test_image.into_raw_vec_and_offset().0);
    let buffer = match PixelBuffer::from_ndarray(owned, channels) {
        Ok(buffer) => buffer,
        Err(_) => panic!("a matching channel count must convert"),
    };
    let result = Rgba32FImage::from_raw(256, 128, buffer.into_vec()).unwrap();

    for (x, y, pixel) in result.enumerate_pixels() {
        for (channel, value) in pixel.channels().iter().enumerate() {
            assert_eq!(*value, compare_data[[y as usize, x as usize, channel]]);
        }
    }
}

#[test]
fn prelude_test_from_ndarray_with_invalid_channels() {
    let channels = 4;
    let (width, height) = (256.0, 128.0);
    let total_elements = (width * height * 4.0) as usize;
    let data: Vec<f32> = (0..total_elements).map(|x| (x + 1) as f32).collect();
    let test_image =
        Array3::from_shape_vec((height as usize, width as usize, channels), data).unwrap();

    let owned = OwnedArray::from_vec(height as usize, width as usize, channels,
        test_image.into_raw_vec_and_offset().0);
    let result = match PixelBuffer::<f32>::from_ndarray(owned, 3) {
        Ok(_) => panic!("a mismatched channel count must fail"),
        Err((error, _returned)) => error,
    };

    assert_eq!(result, Error::ChannelMismatch);
}

#[test]
fn traits_test_to_ndarray() {
    let (width, height, channels) = (256, 128, 4);
    let data = create_test_data(width, height, channels);
    let test_image = Rgba32FImage::from_vec(256, 128, data).unwrap();

    let buffer = PixelBuffer::from_vec(256, 128, 4, test_image.as_raw().clone()).unwrap();
    let mut array = buffer.to_ndarray();

    for y in 0..height {
        for x in 0..width {
            for channel in 0..channels {
                let value = array.read(y, x, channel);
                array.write(y, x, channel, value + 1.0);
            }
        }
    }
    for y in 0..height {
        for x in 0..width {
            for channel in 0..channels {
                assert_eq!(
                    test_image.get_pixel(x as u32, y as u32)[channel] + 1.0,
                    array.read(y, x, channel)
                );
            }
        }
    }
}

#[test]
fn traits_test_from_ndarray() {
    let (width, height, channels) = (256, 128, 4);
    let data = create_test_data(width, height, channels);
    let test_image = Array3::from_shape_vec((height, width, channels), data).unwrap();
    let compare_data = test_image.clone();

    let owned = OwnedArray::from_vec(height, width, channels,
        test_image.into_raw_vec_and_offset().0);
    let buffer = match PixelBuffer::from_ndarray(owned, channels) {
        Ok(buffer) => buffer,
        Err(_) => panic!("a matching channel count must convert"),
    };
    let result = Rgba32FImage::from_raw(256, 128, buffer.into_vec()).unwrap();

    for (x, y, pixel) in result.enumerate_pixels() {
        for (channel, value) in pixel.channels().iter().enumerate() {
            assert_eq!(*value, compare_data[[y as usize, x as usize, channel]]);
        }
    }
}

#[test]
fn traits_test_from_ndarray_with_invalid_channels() {
    let channels = 4;
    let (width, height) = (256.0, 128.0);
    let total_elements = (width * height * 4.0) as usize;
    let data: Vec<f32> = (0..total_elements).map(|x| (x + 1) as f32).collect();
    let test_image =
        Array3::from_shape_vec((height as usize, width as usize, channels), data).unwrap();

    let owned = OwnedArray::from_vec(height as usize, width as usize, channels,
        test_image.into_raw_vec_and_offset().0);
    let result = match PixelBuffer::<f32>::from_ndarray(owned, 3) {
        Ok(_) => panic!("a mismatched channel count must fail"),
        Err((error, _returned)) => error,
    };

    assert_eq!(result, Error::ChannelMismatch);
}

#[test]
fn from_ndarray_mismatch_returns_array_intact() {
    let (height, width, channels) = (2, 3, 4);
    let data = create_test_data(width, height, channels);
    let owned = OwnedArray::from_vec(height, width, channels, data.clone());

    let (error, returned) = match PixelBuffer::<f32>::from_ndarray(owned, 3) {
        Ok(_) => panic!("a mismatched channel count must fail"),
        Err(pair) => pair,
    };

    assert_eq!(error, Error::ChannelMismatch);
    assert_eq!(returned.height(), height);
    assert_eq!(returned.width(), width);
    assert_eq!(returned.channels(), channels);
    for y in 0..height {
        for x in 0..width {
            for c in 0..channels {
                assert_eq!(returned.read(y, x, c), data[(y * width + x) * channels + c]);
            }
        }
    }
}

#[test]
fn from_ndarray_rejects_oversized_dimensions() {
    let height = (u32::MAX as usize) + 1;
    let owned = OwnedArray::from_vec(height, 1, 0, Vec::<f32>::new());

    let (error, returned) = match PixelBuffer::<f32>::from_ndarray(owned, 0) {
        Ok(_) => panic!("a height beyond the container's bounds must fail"),
        Err(pair) => pair,
    };

    assert_eq!(error, Error::ImageConstructFailed);
    assert_eq!(returned.height(), height);
}

#[test]
fn roundtrip_preserves_all_samples() {
    let (width, height, channels) = (5, 3, 2);
    let data = create_test_data(width, height, channels);
    let buffer = PixelBuffer::from_vec(5, 3, 2, data.clone()).unwrap();

    let back = match buffer.roundtrip_through_ndarray() {
        Ok(back) => back,
        Err(_) => panic!("the round trip always succeeds"),
    };

    assert_eq!(back.width(), 5);
    assert_eq!(back.height(), 3);
    assert_eq!(back.channels(), 2);
    assert_eq!(back.into_vec(), data);
}

#[test]
fn u8_buffer_roundtrips_through_image_and_array() {
    let data: Vec<u8> = (0..2 * 2 * 4).map(|x| x as u8 * 3) .collect();
    let test_image = image::RgbaImage::from_vec(2, 2, data.clone()).unwrap();

    let buffer = PixelBuffer::from_vec(2, 2, 4, test_image.into_raw()).unwrap();
    let array = buffer.to_ndarray();
    assert_eq!(array.read(1, 0, 2), data[(1 * 2 + 0) * 4 + 2]);

    let back = match PixelBuffer::from_ndarray(array, 4) {
        Ok(back) => back,
        Err(_) => panic!("a matching channel count must convert"),
    };
    let result = image::RgbaImage::from_raw(2, 2, back.into_vec()).unwrap();
    for (x, y, pixel) in result.enumerate_pixels() {
        for (channel, value) in pixel.channels().iter().enumerate() {
            assert_eq!(*value, data[((y as usize * 2) + x as usize) * 4 + channel]);
        }
    }
}
