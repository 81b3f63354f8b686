use pngio::Image;
use pngio::PixelFormat;
use pngio::PngError;
use pngio::EncodeTarget;

fn image(format: PixelFormat, width: u32, height: u32, data: Vec<u8>) -> Image {
    Image { format, width, height, data }
}

#[test]
fn bytes_per_pixel_table() {
    assert_eq!(pngio::format::bytes_per_pixel(PixelFormat::RGBA), 4);
    assert_eq!(pngio::format::bytes_per_pixel(PixelFormat::RGB), 3);
    assert_eq!(pngio::format::bytes_per_pixel(PixelFormat::GrayAlpha), 2);
    assert_eq!(pngio::format::bytes_per_pixel(PixelFormat::Gray), 1);
    assert_eq!(pngio::format::bytes_per_pixel(PixelFormat::Alpha), 1);
}

#[test]
fn from_png_color_type_table() {
    assert_eq!(pngio::format::from_png_color_type(6, 8), Ok(PixelFormat::RGBA));
    assert_eq!(pngio::format::from_png_color_type(2, 8), Ok(PixelFormat::RGB));
    assert_eq!(pngio::format::from_png_color_type(4, 8), Ok(PixelFormat::GrayAlpha));
    assert_eq!(pngio::format::from_png_color_type(0, 8), Ok(PixelFormat::Gray));
    assert_eq!(
        pngio::format::from_png_color_type(3, 8),
        Err(PngError::UnsupportedColorType(3))
    );
    assert_eq!(
        pngio::format::from_png_color_type(6, 16),
        Err(PngError::UnsupportedBitDepth(16))
    );
    // The bit depth is checked first, so a palette image at depth sixteen
    // reports the depth.
    assert_eq!(
        pngio::format::from_png_color_type(3, 16),
        Err(PngError::UnsupportedBitDepth(16))
    );
}

#[test]
fn to_png_color_type_table() {
    assert_eq!(pngio::format::to_png_color_type(PixelFormat::RGBA), EncodeTarget::ColorType(6));
    assert_eq!(pngio::format::to_png_color_type(PixelFormat::RGB), EncodeTarget::ColorType(2));
    assert_eq!(
        pngio::format::to_png_color_type(PixelFormat::GrayAlpha),
        EncodeTarget::ColorType(4)
    );
    assert_eq!(pngio::format::to_png_color_type(PixelFormat::Gray), EncodeTarget::ColorType(0));
    assert_eq!(
        pngio::format::to_png_color_type(PixelFormat::Alpha),
        EncodeTarget::Convert(PixelFormat::GrayAlpha)
    );
    assert_eq!(pngio::format::to_png_color_type(PixelFormat::PNG), EncodeTarget::Raw);
}

#[test]
fn image_new_is_zeroed_and_sized() {
    let img = Image::new(PixelFormat::RGBA, 2, 2);
    assert_eq!(img.format, PixelFormat::RGBA);
    assert_eq!(img.width, 2);
    assert_eq!(img.height, 2);
    assert_eq!(img.data, vec![0u8; 16]);
}

#[test]
fn convert_alpha_duplicates_each_byte() {
    let img = image(PixelFormat::Alpha, 3, 1, vec![1, 2, 3]);
    let converted = img.convert_to(PixelFormat::GrayAlpha);
    assert_eq!(converted.format, PixelFormat::GrayAlpha);
    assert_eq!(converted.width, 3);
    assert_eq!(converted.height, 1);
    assert_eq!(converted.data, vec![1, 1, 2, 2, 3, 3]);
    // The original buffer is left untouched.
    assert_eq!(img.data, vec![1, 2, 3]);
}

#[test]
fn rgb_2x2_round_trip() {
    let pixels = vec![255, 0, 0, 0, 255, 0, 0, 0, 255, 255, 255, 255];
    let img = image(PixelFormat::RGB, 2, 2, pixels.clone());
    let encoded = img.write_png().unwrap();
    let decoded = Image::read_png(&encoded).unwrap();
    assert_eq!(decoded.format, PixelFormat::RGB);
    assert_eq!(decoded.width, 2);
    assert_eq!(decoded.height, 2);
    assert_eq!(decoded.data, pixels);
}

#[test]
fn round_trip_every_direct_format() {
    let cases: Vec<(PixelFormat, usize)> = vec![
        (PixelFormat::RGBA, 4),
        (PixelFormat::RGB, 3),
        (PixelFormat::GrayAlpha, 2),
        (PixelFormat::Gray, 1),
    ];
    for (format, bpp) in cases {
        let width: u32 = 3;
        let height: u32 = 2;
        let n = bpp * (width as usize) * (height as usize);
        let data: Vec<u8> = (0..n).map(|i| (17 * i + 5) as u8).collect();
        let img = image(format, width, height, data.clone());
        let encoded = img.write_png().unwrap();
        let decoded = Image::read_png(&encoded).unwrap();
        assert_eq!(decoded.format, format);
        assert_eq!(decoded.width, width);
        assert_eq!(decoded.height, height);
        assert_eq!(decoded.data, data);
    }
}

#[test]
fn size_invariant_on_decoded_reference_images() {
    let cases: Vec<(PixelFormat, usize)> = vec![
        (PixelFormat::RGBA, 4),
        (PixelFormat::RGB, 3),
        (PixelFormat::GrayAlpha, 2),
        (PixelFormat::Gray, 1),
    ];
    for (format, bpp) in cases {
        let width: u32 = 5;
        let height: u32 = 4;
        let n = bpp * (width as usize) * (height as usize);
        let img = image(format, width, height, vec![42u8; n]);
        let encoded = img.write_png().unwrap();
        let decoded = Image::read_png(&encoded).unwrap();
        assert_eq!(
            decoded.data.len(),
            bpp * (decoded.width as usize) * (decoded.height as usize)
        );
    }
}

#[test]
fn alpha_round_trip_preserves_alpha_channel() {
    let alphas = vec![0, 128, 255, 7];
    let img = image(PixelFormat::Alpha, 2, 2, alphas.clone());
    let encoded = img.write_png().unwrap();
    let decoded = Image::read_png(&encoded).unwrap();
    assert_eq!(decoded.format, PixelFormat::GrayAlpha);
    assert_eq!(decoded.width, 2);
    assert_eq!(decoded.height, 2);
    assert_eq!(decoded.data.len(), 8);
    for (i, a) in alphas.iter().enumerate() {
        assert_eq!(decoded.data[2 * i + 1], *a);
    }
}

#[test]
fn raw_round_trip_is_byte_identical() {
    let img = image(PixelFormat::RGB, 2, 1, vec![10, 20, 30, 40, 50, 60]);
    let stream = img.write_png().unwrap();
    let raw = Image::read_png_unchanged(stream.clone()).unwrap();
    assert_eq!(raw.format, PixelFormat::PNG);
    assert_eq!(raw.width, 2);
    assert_eq!(raw.height, 1);
    assert_eq!(raw.data, stream);
    let emitted = raw.write_png().unwrap();
    assert_eq!(emitted, stream);
}

fn sixteen_bit_gray_png() -> Vec<u8> {
    let mut out = Vec::new();
    let mut encoder = png::Encoder::new(&mut out, 2, 1);
    encoder.set_color(png::ColorType::Grayscale);
    encoder.set_depth(png::BitDepth::Sixteen);
    let mut writer = encoder.write_header().unwrap();
    writer.write_image_data(&[0, 1, 2, 3]).unwrap();
    writer.finish().unwrap();
    out
}

fn palette_png() -> Vec<u8> {
    let mut out = Vec::new();
    let mut encoder = png::Encoder::new(&mut out, 2, 1);
    encoder.set_color(png::ColorType::Indexed);
    encoder.set_depth(png::BitDepth::Eight);
    encoder.set_palette(vec![255, 0, 0, 0, 255, 0]);
    let mut writer = encoder.write_header().unwrap();
    writer.write_image_data(&[0, 1]).unwrap();
    writer.finish().unwrap();
    out
}

#[test]
fn reject_bit_depth_sixteen() {
    let stream = sixteen_bit_gray_png();
    assert!(matches!(
        Image::read_png(&stream),
        Err(PngError::UnsupportedBitDepth(16))
    ));
}

#[test]
fn reject_palette_color_type() {
    let stream = palette_png();
    assert!(matches!(
        Image::read_png(&stream),
        Err(PngError::UnsupportedColorType(3))
    ));
}

#[test]
fn unchanged_read_still_validates() {
    let stream = sixteen_bit_gray_png();
    assert!(matches!(
        Image::read_png_unchanged(stream),
        Err(PngError::UnsupportedBitDepth(16))
    ));
}

#[test]
fn truncated_stream_is_an_error_not_a_panic() {
    let img = image(PixelFormat::RGB, 4, 4, vec![9u8; 48]);
    let mut stream = img.write_png().unwrap();
    // Keep the signature and IHDR but cut the IDAT chunk short.
    stream.truncate(stream.len() - 12);
    let r = Image::read_png(&stream);
    assert!(matches!(
        r,
        Err(PngError::DataFormatError) | Err(PngError::TransportError)
    ));
}

#[test]
fn garbage_is_a_data_format_error() {
    let r = Image::read_png(b"this is not a png stream");
    assert!(matches!(
        r,
        Err(PngError::DataFormatError) | Err(PngError::TransportError)
    ));
}

#[test]
fn zero_width_encode_is_rejected() {
    let img = image(PixelFormat::RGB, 0, 1, Vec::new());
    assert_eq!(img.write_png(), Err(PngError::DataFormatError));
}
