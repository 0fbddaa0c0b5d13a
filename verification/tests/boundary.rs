use image_process::engine::image_filters::{ColorRgba, FilterPixelType, GradientDirection};
use image_process::engine::image_processing::{Computed, FloatAdjustment};
use image_process::engine::{ErrorCode, ImageParameters, ImageProcess, PixelBuffer};
use image_process::{filter_gradient, filter_overlay_color, filter_params, filter_pixel, filter_sobel};

/// A 4 by 4 PNG, every pixel (220, 10, 20, 255).
const RED_PNG: &str = "iVBORw0KGgoAAAANSUhEUgAAAAQAAAAECAYAAACp8Z5+AAAAEklEQVR42mO4wyXyHxkzkC4AAC4IH5Fx7K+NAAAAAElFTkSuQmCC";

fn decode(bytes: Vec<u8>) -> PixelBuffer {
    ImageProcess::new(bytes).unwrap().get_dynamic_image().unwrap()
}

fn with_marker() -> String {
    format!("data:image/jpeg;base64,{}", RED_PNG)
}

#[test]
fn filter_params_without_parameters_applies_the_default_ones() {
    match filter_params(String::from(RED_PNG), None).unwrap() {
        Computed::Paused(image, next) => {
            assert_eq!(next, FloatAdjustment::Blur(0));
            assert_eq!(image.get_pixel(0, 0), ColorRgba::new(220, 10, 20, 255));
        }
        Computed::Done(_) => panic!("the blur was passed over"),
    }
}

#[test]
fn filter_params_applies_the_given_parameters() {
    let params = ImageParameters {
        brighten: Some(-20),
        hue: None,
        blur: None,
        constrast: None,
        grayscale: None,
        invert: Some(true),
    };
    match filter_params(with_marker(), Some(params)).unwrap() {
        Computed::Done(result) => {
            let image = decode(result.to_byte());
            assert_eq!((image.width(), image.height()), (4, 4));
            assert_eq!(image.get_pixel(2, 1), ColorRgba::new(55, 255, 255, 255));
        }
        Computed::Paused(_, next) => panic!("paused for {:?}", next),
    }
}

#[test]
fn filter_sobel_on_text_gives_the_edges() {
    let image = decode(filter_sobel(with_marker()).unwrap().to_byte());
    assert_eq!(image.get_pixel(1, 2), ColorRgba::new(0, 0, 0, 255));
}

#[test]
fn filter_overlay_color_lays_five_bands_over_the_image() {
    let wide = PixelBuffer::from_pixel(11, 2, ColorRgba::new(10, 20, 30, 255));
    let input = ImageProcess::dynamic_image_to_byte(&wide).unwrap();
    let text = image_process::engine::ImageProcessingResult::new(input).to_base64();
    let image = decode(filter_overlay_color(text, GradientDirection::HORIZONTAL).unwrap().to_byte());
    // Bands of width 2, the last one of width 3; each color blended onto (10, 20, 30).
    assert_eq!(image.get_pixel(0, 0), ColorRgba::new(130, 72, 159, 255));
    assert_eq!(image.get_pixel(1, 1), image.get_pixel(0, 0));
    assert_ne!(image.get_pixel(2, 0), image.get_pixel(1, 0));
    assert_eq!(image.get_pixel(3, 0), image.get_pixel(2, 0));
    assert_ne!(image.get_pixel(4, 0), image.get_pixel(3, 0));
    assert_ne!(image.get_pixel(6, 0), image.get_pixel(5, 0));
    assert_ne!(image.get_pixel(8, 0), image.get_pixel(7, 0));
    assert_eq!(image.get_pixel(9, 0), image.get_pixel(8, 0));
    assert_eq!(image.get_pixel(10, 1), image.get_pixel(8, 0));
}

#[test]
fn filter_pixel_on_text_paints_the_pattern() {
    let ink = ColorRgba::new(1, 2, 3, 255);
    let image = decode(filter_pixel(with_marker(), FilterPixelType::VERTICAL, ink).unwrap().to_byte());
    for y in 0..4 {
        assert_eq!(image.get_pixel(0, y), ink);
        assert_eq!(image.get_pixel(1, y), ColorRgba::new(220, 10, 20, 255));
        assert_eq!(image.get_pixel(3, y), ColorRgba::new(220, 10, 20, 255));
    }
}

#[test]
fn filter_gradient_on_text_lays_the_gradient() {
    let from = ColorRgba::new(0, 0, 0, 255);
    let to = ColorRgba::new(30, 60, 90, 255);
    let result = filter_gradient(String::from(RED_PNG), GradientDirection::HORIZONTAL, from, to);
    let image = decode(result.unwrap().to_byte());
    assert_eq!(image.get_pixel(0, 3), from);
    assert_eq!(image.get_pixel(1, 3), ColorRgba::new(10, 20, 30, 255));
    assert_eq!(image.get_pixel(2, 3), ColorRgba::new(20, 40, 60, 255));
    assert_eq!(image.get_pixel(3, 3), to);
}

#[test]
fn malformed_text_is_unable_to_decode_at_every_entry() {
    let bad = || String::from("not-base64!!");
    let black = ColorRgba::new(0, 0, 0, 255);
    assert_eq!(filter_sobel(bad()).err(), Some(ErrorCode::UnableToDecode));
    assert_eq!(
        filter_overlay_color(bad(), GradientDirection::VERTICAL).err(),
        Some(ErrorCode::UnableToDecode)
    );
    assert_eq!(
        filter_pixel(bad(), FilterPixelType::CIRCLE, black).err(),
        Some(ErrorCode::UnableToDecode)
    );
    assert_eq!(
        filter_gradient(bad(), GradientDirection::VERTICAL, black, black).err(),
        Some(ErrorCode::UnableToDecode)
    );
    match filter_params(bad(), None) {
        Err(code) => assert_eq!(code, ErrorCode::UnableToDecode),
        Ok(_) => panic!("malformed base64 was accepted"),
    }
}

#[test]
fn text_that_decodes_to_no_image_is_unable_to_decode() {
    assert_eq!(
        filter_sobel(String::from("aGVsbG8gd29ybGQ=")).err(),
        Some(ErrorCode::UnableToDecode)
    );
}
