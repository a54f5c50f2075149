use gpgpu::transfer::copy_prefix;
use gpgpu::transfer::insert_padding;
use gpgpu::transfer::strip_padding;
use gpgpu::RowLayout;

#[test]
fn row_of_three_rgba_pixels_is_padded_to_one_alignment_unit() {
    let layout = RowLayout::new(3, 4, 256);
    assert_eq!(layout.unpadded_bytes_per_row, 12);
    assert_eq!(layout.padding, 244);
    assert_eq!(layout.padded_bytes_per_row, 256);
}

#[test]
fn aligned_row_gets_no_padding() {
    let layout = RowLayout::new(64, 4, 256);
    assert_eq!(layout.unpadded_bytes_per_row, 256);
    assert_eq!(layout.padding, 0);
    assert_eq!(layout.padded_bytes_per_row, 256);
}

#[test]
fn row_just_over_the_alignment_takes_two_units() {
    let layout = RowLayout::new(65, 4, 256);
    assert_eq!(layout.unpadded_bytes_per_row, 260);
    assert_eq!(layout.padding, 252);
    assert_eq!(layout.padded_bytes_per_row, 512);
}

#[test]
fn small_alignment_is_honoured() {
    let layout = RowLayout::new(5, 2, 8);
    assert_eq!(layout.unpadded_bytes_per_row, 10);
    assert_eq!(layout.padding, 6);
    assert_eq!(layout.padded_bytes_per_row, 16);
}

#[test]
fn device_alignment_is_256_bytes() {
    let layout = RowLayout::for_device(1, 4);
    assert_eq!(layout.unpadded_bytes_per_row, 4);
    assert_eq!(layout.padded_bytes_per_row, 256);
    assert_eq!(layout.padded_bytes_per_row, wgpu::COPY_BYTES_PER_ROW_ALIGNMENT);
    let wide = RowLayout::for_device(100, 4);
    assert_eq!(wide.padded_bytes_per_row, 512);
    assert_eq!(wide.padding, 112);
}

#[test]
fn staging_size_is_padded_row_times_rows() {
    let layout = RowLayout::new(3, 4, 256);
    assert_eq!(layout.staging_size(5), 1280);
    assert_eq!(layout.staging_size(0), 0);
}

#[test]
fn insert_padding_fills_gaps_with_zero() {
    let layout = RowLayout::new(3, 1, 4);
    let staged = insert_padding(&[1, 2, 3, 4, 5, 6], &layout);
    assert_eq!(staged, vec![1, 2, 3, 0, 4, 5, 6, 0]);
}

#[test]
fn strip_padding_keeps_the_pixel_bytes_of_each_row() {
    let layout = RowLayout::new(3, 1, 4);
    let pixels = strip_padding(&[1, 2, 3, 9, 4, 5, 6, 9], &layout, 2);
    assert_eq!(pixels, vec![1, 2, 3, 4, 5, 6]);
}

#[test]
fn strip_padding_of_no_rows_is_empty() {
    let layout = RowLayout::new(3, 1, 4);
    let pixels = strip_padding(&[], &layout, 0);
    assert_eq!(pixels, Vec::<u8>::new());
}

#[test]
fn padding_round_trip_for_widths_heights_and_pixel_sizes() {
    for bytes_per_pixel in [1u32, 2, 4, 8] {
        for width in [1u32, 2, 3, 7, 31, 32, 33, 63, 64, 65, 100] {
            for height in [0u32, 1, 2, 5] {
                let layout = RowLayout::for_device(width, bytes_per_pixel);
                let len = (width * bytes_per_pixel * height) as usize;
                let bytes: Vec<u8> = (0..len).map(|i| (i % 251) as u8 + 1).collect();
                let staged = insert_padding(&bytes, &layout);
                assert_eq!(staged.len() as u64, layout.staging_size(height));
                assert_eq!(staged.len() % 256, 0);
                let back = strip_padding(&staged, &layout, height);
                assert_eq!(back, bytes);
            }
        }
    }
}

#[test]
fn copy_prefix_truncates_a_longer_source() {
    let mut dst = vec![0u8; 3];
    let copied = copy_prefix(&mut dst, &[1, 2, 3, 4, 5]);
    assert_eq!(copied, 3);
    assert_eq!(dst, vec![1, 2, 3]);
}

#[test]
fn copy_prefix_leaves_the_rest_untouched() {
    let mut dst = vec![9u8, 8, 7, 6, 5];
    let copied = copy_prefix(&mut dst, &[1, 2]);
    assert_eq!(copied, 2);
    assert_eq!(dst, vec![1, 2, 7, 6, 5]);
}

#[test]
fn copy_prefix_of_nothing_changes_nothing() {
    let mut dst = vec![9u8, 8];
    assert_eq!(copy_prefix(&mut dst, &[]), 0);
    assert_eq!(dst, vec![9, 8]);
    let mut empty: Vec<u8> = Vec::new();
    assert_eq!(copy_prefix(&mut empty, &[1, 2]), 0);
    assert_eq!(empty, Vec::<u8>::new());
}
