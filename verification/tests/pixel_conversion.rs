use spotlight_core::error::CaptureError;
use spotlight_core::pixel::{to_packed_rgba, ChannelOrder, PixelBuffer};

fn buffer(
    data: Vec<u8>,
    width: usize,
    height: usize,
    stride: usize,
    order: ChannelOrder,
) -> PixelBuffer {
    PixelBuffer { data, width, height, stride, order }
}

#[test]
fn converts_two_by_one_bgra() {
    let source = buffer(vec![10, 20, 30, 255, 40, 50, 60, 255], 2, 1, 8, ChannelOrder::Bgra);
    assert_eq!(to_packed_rgba(&source), Ok(vec![30, 20, 10, 255, 60, 50, 40, 255]));
}

#[test]
fn drops_row_padding() {
    // Two rows of one pixel, each followed by four bytes of padding.
    let source = buffer(
        vec![1, 2, 3, 4, 99, 99, 99, 99, 5, 6, 7, 8, 99, 99, 99, 99],
        1,
        2,
        8,
        ChannelOrder::Bgra,
    );
    assert_eq!(to_packed_rgba(&source), Ok(vec![3, 2, 1, 4, 7, 6, 5, 8]));
}

#[test]
fn keeps_rgba_order_as_it_is() {
    let source = buffer(vec![1, 2, 3, 4, 0, 0, 5, 6, 7, 8, 0, 0], 1, 2, 6, ChannelOrder::Rgba);
    assert_eq!(to_packed_rgba(&source), Ok(vec![1, 2, 3, 4, 5, 6, 7, 8]));
}

#[test]
fn ignores_data_past_the_last_row() {
    let source = buffer(vec![1, 2, 3, 4, 5, 6, 7, 8, 9], 1, 1, 4, ChannelOrder::Bgra);
    assert_eq!(to_packed_rgba(&source), Ok(vec![3, 2, 1, 4]));
}

#[test]
fn output_length_is_width_times_height_times_four() {
    let shapes = [(0, 0, 0), (1, 1, 4), (3, 2, 12), (3, 2, 16), (5, 7, 23), (0, 4, 3)];
    for (width, height, stride) in shapes {
        let data: Vec<u8> = (0..stride * height).map(|i| (i % 251) as u8).collect();
        let source = buffer(data, width, height, stride, ChannelOrder::Bgra);
        let packed = to_packed_rgba(&source).unwrap();
        assert_eq!(packed.len(), width * height * 4);
    }
}

#[test]
fn every_pixel_comes_from_its_row_and_column() {
    let (width, height, stride) = (3usize, 4usize, 17usize);
    let data: Vec<u8> = (0..stride * height).map(|i| i as u8).collect();
    let source = buffer(data.clone(), width, height, stride, ChannelOrder::Bgra);
    let packed = to_packed_rgba(&source).unwrap();
    for row in 0..height {
        for column in 0..width {
            let from = row * stride + 4 * column;
            let to = 4 * (row * width + column);
            assert_eq!(packed[to], data[from + 2]);
            assert_eq!(packed[to + 1], data[from + 1]);
            assert_eq!(packed[to + 2], data[from]);
            assert_eq!(packed[to + 3], data[from + 3]);
        }
    }
}

#[test]
fn short_buffer_is_rejected() {
    // Two rows of eight bytes are declared, fifteen bytes are there.
    let source = buffer(vec![0; 15], 2, 2, 8, ChannelOrder::Bgra);
    assert_eq!(to_packed_rgba(&source), Err(CaptureError::BufferTooShort));
}

#[test]
fn empty_data_for_a_declared_image_is_rejected() {
    let source = buffer(Vec::new(), 1, 1, 4, ChannelOrder::Rgba);
    assert_eq!(to_packed_rgba(&source), Err(CaptureError::BufferTooShort));
}

#[test]
fn stride_below_a_row_of_pixels_is_rejected() {
    let source = buffer(vec![0; 64], 2, 2, 7, ChannelOrder::Bgra);
    assert_eq!(to_packed_rgba(&source), Err(CaptureError::BufferTooShort));
}

#[test]
fn dimensions_beyond_the_address_space_are_rejected() {
    let huge = buffer(vec![0; 8], usize::MAX, 2, usize::MAX, ChannelOrder::Bgra);
    assert_eq!(to_packed_rgba(&huge), Err(CaptureError::BufferTooShort));
    let tall = buffer(vec![0; 8], 1, usize::MAX, 4, ChannelOrder::Bgra);
    assert_eq!(to_packed_rgba(&tall), Err(CaptureError::BufferTooShort));
}

#[test]
fn image_without_rows_is_empty() {
    let source = buffer(Vec::new(), 4, 0, 16, ChannelOrder::Bgra);
    assert_eq!(to_packed_rgba(&source), Ok(Vec::new()));
}

#[test]
fn swapping_twice_reproduces_a_packed_buffer() {
    let (width, height) = (4usize, 3usize);
    let native: Vec<u8> = (0..width * height * 4).map(|i| (i * 7 % 256) as u8).collect();
    let once = to_packed_rgba(&buffer(
        native.clone(),
        width,
        height,
        4 * width,
        ChannelOrder::Bgra,
    )).unwrap();
    assert_ne!(once, native);
    let twice =
        to_packed_rgba(&buffer(once, width, height, 4 * width, ChannelOrder::Bgra)).unwrap();
    assert_eq!(twice, native);
}

#[test]
fn swapping_twice_reproduces_the_pixels_of_a_padded_buffer() {
    let (width, height, stride) = (2usize, 3usize, 11usize);
    let native: Vec<u8> = (0..stride * height).map(|i| (i * 5 % 256) as u8).collect();
    let once = to_packed_rgba(&buffer(
        native.clone(),
        width,
        height,
        stride,
        ChannelOrder::Bgra,
    )).unwrap();
    let twice =
        to_packed_rgba(&buffer(once, width, height, 4 * width, ChannelOrder::Bgra)).unwrap();
    let plain =
        to_packed_rgba(&buffer(native, width, height, stride, ChannelOrder::Rgba)).unwrap();
    assert_eq!(twice, plain);
}
