use gpgpu::bindings::BindingResource;
use gpgpu::images::ImageInputError;
use gpgpu::images::ImageOutputError;
use gpgpu::pixels::Rgba8Sint;
use gpgpu::pixels::Rgba8SintNorm;
use gpgpu::pixels::Rgba8Uint;
use gpgpu::pixels::Rgba8UintNorm;
use gpgpu::pixels::TextureFormat;
use gpgpu::pixels::TextureSampleType;
use gpgpu::GpuConstImage;
use gpgpu::GpuImage;
use gpgpu::ImgOps;
use gpgpu::PixelInfo;

fn numbered(len: usize) -> Vec<u8> {
    (0..len).map(|i| (i % 250) as u8 + 1).collect()
}

#[test]
fn pixel_formats_are_four_bytes_wide() {
    assert_eq!(Rgba8Uint::byte_size(), 4);
    assert_eq!(Rgba8UintNorm::byte_size(), 4);
    assert_eq!(Rgba8Sint::byte_size(), 4);
    assert_eq!(Rgba8SintNorm::byte_size(), 4);
}

#[test]
fn pixel_formats_name_their_device_format_and_sampling() {
    assert_eq!(Rgba8Uint::format(), TextureFormat::Rgba8Uint);
    assert_eq!(Rgba8UintNorm::format(), TextureFormat::Rgba8Unorm);
    assert_eq!(Rgba8Sint::format(), TextureFormat::Rgba8Sint);
    assert_eq!(Rgba8SintNorm::format(), TextureFormat::Rgba8Snorm);
    assert_eq!(Rgba8Uint::texture_sample(), TextureSampleType::Uint);
    assert_eq!(Rgba8UintNorm::texture_sample(), TextureSampleType::Unfilterable);
    assert_eq!(Rgba8Sint::texture_sample(), TextureSampleType::Sint);
    assert_eq!(Rgba8SintNorm::texture_sample(), TextureSampleType::Unfilterable);
}

#[test]
fn image_knows_its_dimensions_and_size() {
    let image: GpuImage<Rgba8Uint> = GpuImage::new(9, 3, 2);
    assert_eq!(image.dimensions(), (3, 2));
    assert_eq!(image.size(), 24);
    assert_eq!(image.as_binding_resource(), BindingResource::TextureView(9));
    let layout = image.staging_layout();
    assert_eq!(layout.unpadded_bytes_per_row, 12);
    assert_eq!(layout.padded_bytes_per_row, 256);
    assert_eq!(image.staging_size(), 512);
}

#[test]
fn const_image_from_bytes_keeps_the_dimensions() {
    let data = numbered(24);
    let image: GpuConstImage<Rgba8Sint> = GpuConstImage::from_bytes(5, &data, 3, 2);
    assert_eq!(image.dimensions(), (3, 2));
    assert_eq!(image.size(), 24);
    assert_eq!(image.as_binding_resource(), BindingResource::TextureView(5));
}

#[test]
fn write_refuses_a_broken_pixel() {
    let image: GpuImage<Rgba8Uint> = GpuImage::new(1, 3, 2);
    let input = numbered(13);
    assert_eq!(image.write(&input).err(), Some(ImageInputError::NotIntegerPixelNumber));
    assert_eq!(image.write_staged(&input).err(), Some(ImageInputError::NotIntegerPixelNumber));
}

#[test]
fn write_refuses_a_broken_row() {
    let image: GpuImage<Rgba8Uint> = GpuImage::new(1, 3, 2);
    let input = numbered(16);
    assert_eq!(image.write(&input).err(), Some(ImageInputError::NotIntegerRowNumber));
    let constant: GpuConstImage<Rgba8Uint> = GpuConstImage::new(1, 3, 2);
    assert_eq!(constant.write(&input).err(), Some(ImageInputError::NotIntegerRowNumber));
    assert_eq!(constant.write_staged(&input).err(), Some(ImageInputError::NotIntegerRowNumber));
}

#[test]
fn write_of_the_whole_image_sends_all_rows() {
    let image: GpuImage<Rgba8Uint> = GpuImage::new(1, 3, 2);
    let input = numbered(24);
    let sent = image.write(&input).expect("a whole image is accepted");
    assert_eq!(sent.data, &input[..]);
    assert_eq!((sent.width, sent.height), (3, 2));
    assert_eq!(sent.pixels(), 6);
}

#[test]
fn write_of_fewer_rows_sends_them_all() {
    let image: GpuImage<Rgba8Uint> = GpuImage::new(1, 3, 4);
    let input = numbered(24);
    let sent = image.write(&input).expect("two whole rows are accepted");
    assert_eq!(sent.data, &input[..]);
    assert_eq!((sent.width, sent.height), (3, 2));
    assert_eq!(sent.pixels(), 6);
}

#[test]
fn write_of_more_rows_is_truncated_to_the_image() {
    let image: GpuConstImage<Rgba8Uint> = GpuConstImage::new(1, 3, 2);
    let input = numbered(48);
    let sent = image.write(&input).expect("whole rows are accepted");
    assert_eq!(sent.data, &input[..24]);
    assert_eq!((sent.width, sent.height), (3, 2));
    assert_eq!(sent.pixels(), 6);
}

#[test]
fn write_of_nothing_sends_no_row() {
    let image: GpuImage<Rgba8Uint> = GpuImage::new(1, 3, 2);
    let sent = image.write(&[]).expect("no rows are whole rows");
    assert_eq!(sent.data.len(), 0);
    assert_eq!(sent.height, 0);
    assert_eq!(sent.pixels(), 0);
}

#[test]
fn staged_write_pads_each_row() {
    let image: GpuImage<Rgba8Uint> = GpuImage::new(1, 3, 2);
    let input = numbered(24);
    let staged = image.write_staged(&input).expect("a whole image is accepted");
    assert_eq!(staged.len(), 512);
    assert_eq!(&staged[0..12], &input[0..12]);
    assert!(staged[12..256].iter().all(|b| *b == 0));
    assert_eq!(&staged[256..268], &input[12..24]);
    assert!(staged[268..512].iter().all(|b| *b == 0));
}

#[test]
fn read_refuses_an_output_that_is_too_small() {
    let image: GpuImage<Rgba8Uint> = GpuImage::new(1, 3, 2);
    let staged = vec![0u8; 512];
    let mut out = vec![7u8; 23];
    let refused = image.read(&staged, &mut out);
    assert_eq!(refused.err(), Some(ImageOutputError::BufferTooSmall { required: 24, current: 23 }));
    assert_eq!(out, vec![7u8; 23]);
    assert_eq!(
        image.check_output(23).err(),
        Some(ImageOutputError::BufferTooSmall { required: 24, current: 23 })
    );
    assert!(image.check_output(24).is_ok());
}

#[test]
fn read_strips_the_padding_and_counts_pixels() {
    let image: GpuImage<Rgba8Uint> = GpuImage::new(1, 3, 2);
    let input = numbered(24);
    let staged = image.write_staged(&input).expect("a whole image is accepted");
    let mut out = vec![0xEEu8; 30];
    let pixels = image.read(&staged, &mut out).expect("the output is large enough");
    assert_eq!(pixels, 6);
    assert_eq!(&out[..24], &input[..]);
    assert_eq!(&out[24..], &[0xEEu8; 6][..]);
    assert_eq!(image.read_vec(&staged), input);
}

#[test]
fn image_write_then_read_gives_the_rows_back() {
    for width in [1u32, 5, 63, 64, 65, 130] {
        for height in [1u32, 2, 7] {
            let image: GpuImage<Rgba8UintNorm> = GpuImage::new(1, width, height);
            let input = numbered(image.size());
            let staged = image.write_staged(&input).expect("a whole image is accepted");
            assert_eq!(staged.len() as u64, image.staging_size());
            assert_eq!(image.read_vec(&staged), input);
        }
    }
}
