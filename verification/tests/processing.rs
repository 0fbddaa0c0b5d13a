use image_process::engine::image_filters::{
    filter_pixel, ColorRgba, FilterPixelType, FilterRequest, GradientDirection,
};
use image_process::engine::image_processing::{Computed, FloatAdjustment, InputType, DATA_URI_MARKER};
use image_process::engine::{
    ErrorCode, ImageDimension, ImageParameters, ImageProcess, ImageProcessingResult, PixelBuffer,
};

/// A 4 by 4 PNG, every pixel (220, 10, 20, 255), written by another encoder.
const RED_PNG: &str = "iVBORw0KGgoAAAANSUhEUgAAAAQAAAAECAYAAACp8Z5+AAAAEklEQVR42mO4wyXyHxkzkC4AAC4IH5Fx7K+NAAAAAElFTkSuQmCC";

/// A 2 by 1 PNG without alpha: the pixels (1, 2, 3) and (4, 5, 6).
const RGB_PNG: &str = "iVBORw0KGgoAAAANSUhEUgAAAAIAAAABCAIAAAB7QOjdAAAAD0lEQVR42mNgZGJmYWUDAAA/ABaYwWgTAAAAAElFTkSuQmCC";

fn none() -> ImageParameters {
    ImageParameters {
        brighten: None,
        hue: None,
        blur: None,
        constrast: None,
        grayscale: None,
        invert: None,
    }
}

fn sample() -> PixelBuffer {
    PixelBuffer::from_fn(7, 5, |x, y| {
        ColorRgba::new((x * 30) as u8, (y * 50) as u8, (x * y) as u8, (255 - x * 20 - y) as u8)
    })
}

fn decode(bytes: Vec<u8>) -> PixelBuffer {
    ImageProcess::new(bytes).unwrap().get_dynamic_image().unwrap()
}

fn encoded(computed: Computed) -> ImageProcessingResult {
    match computed {
        Computed::Done(result) => result,
        Computed::Paused(_, next) => panic!("paused for {:?}", next),
    }
}

#[test]
fn error_codes_have_their_messages() {
    assert_eq!(ErrorCode::InvalidParsing.message(), "Invalid parsing");
    assert_eq!(ErrorCode::UnableToDecode.message(), "Unable to decode");
    assert_eq!(ErrorCode::UnableToSave.message(), "Unable to save");
    assert_eq!(ErrorCode::NoColorInput.message(), "No color to apply for filter");
    assert_eq!(ErrorCode::NotImplemented.message(), "Not implemented yet");
}

#[test]
fn bytes_pass_through_unchanged() {
    let bytes = vec![0u8, 1, 2, 250, 255];
    assert_eq!(bytes.to_byte(), Ok(bytes.clone()));
    let process = ImageProcess::new(bytes.clone()).unwrap();
    assert_eq!(process.input, bytes);
    let process = ImageProcess::new(Vec::<u8>::new()).unwrap();
    assert!(process.input.is_empty());
}

#[test]
fn base64_text_is_decoded() {
    let text = String::from("aGVsbG8gd29ybGQ=");
    assert_eq!(text.to_byte(), Ok(b"hello world".to_vec()));
    let process = ImageProcess::new(text).unwrap();
    assert_eq!(process.input, b"hello world".to_vec());
}

#[test]
fn data_uri_marker_is_taken_off_before_decoding() {
    let text = String::from("data:image/jpeg;base64,aGVsbG8gd29ybGQ=");
    assert_eq!(text.to_byte(), Ok(b"hello world".to_vec()));
    assert_eq!(
        ImageProcess::parse_base64_input_if_needed(&text),
        "aGVsbG8gd29ybGQ="
    );
    assert_eq!(DATA_URI_MARKER, "data:image/jpeg;base64,");
}

#[test]
fn text_without_the_marker_is_left_as_it_is() {
    for text in ["", "aGVsbG8=", "data:image/png;base64,aGVsbG8=", "data:image/jpeg;base64"] {
        assert_eq!(ImageProcess::parse_base64_input_if_needed(&String::from(text)), text);
    }
}

#[test]
fn marker_that_is_no_prefix_stays() {
    for text in [
        "AQIDdata:image/jpeg;base64,",
        "aGVsdata:image/jpeg;base64,bG8=",
        " data:image/jpeg;base64,aGVsbG8=",
        "Data:image/jpeg;base64,aGVsbG8=",
    ] {
        assert_eq!(ImageProcess::parse_base64_input_if_needed(&String::from(text)), text);
        assert_eq!(String::from(text).to_byte(), Err(ErrorCode::UnableToDecode), "{}", text);
        assert!(ImageProcess::new(String::from(text)).is_err(), "{}", text);
    }
}

#[test]
fn only_the_first_of_two_leading_markers_is_taken_off() {
    let text = String::from("data:image/jpeg;base64,data:image/jpeg;base64,QQ==");
    assert_eq!(
        ImageProcess::parse_base64_input_if_needed(&text),
        "data:image/jpeg;base64,QQ=="
    );
    assert_eq!(text.to_byte(), Err(ErrorCode::UnableToDecode));
}

#[test]
fn marker_alone_leaves_the_empty_text() {
    let text = String::from("data:image/jpeg;base64,");
    assert_eq!(ImageProcess::parse_base64_input_if_needed(&text), "");
    assert_eq!(text.to_byte(), Ok(Vec::new()));
}

#[test]
fn marker_before_text_of_other_scripts_is_taken_off() {
    let text = String::from("data:image/jpeg;base64,\u{e9}\u{4e2d}");
    assert_eq!(ImageProcess::parse_base64_input_if_needed(&text), "\u{e9}\u{4e2d}");
    let text = String::from("\u{e9}data:image/jpeg;base64,");
    assert_eq!(ImageProcess::parse_base64_input_if_needed(&text), "\u{e9}data:image/jpeg;base64,");
}

#[test]
fn malformed_base64_is_unable_to_decode() {
    let text = String::from("not-base64!!");
    assert_eq!(text.to_byte(), Err(ErrorCode::UnableToDecode));
    match ImageProcess::new(text) {
        Err(code) => assert_eq!(code, ErrorCode::UnableToDecode),
        Ok(_) => panic!("malformed base64 was accepted"),
    }
    for text in ["a", "aGVs bG8=", "=aGVsbG8", "aGVsbG8=="] {
        assert_eq!(String::from(text).to_byte(), Err(ErrorCode::UnableToDecode), "{}", text);
    }
}

#[test]
fn base64_text_without_padding_is_decoded() {
    assert_eq!(String::from("aGVsbG8").to_byte(), Ok(b"hello".to_vec()));
}

#[test]
fn bytes_that_are_no_image_are_unable_to_decode() {
    for bytes in [Vec::new(), b"hello world".to_vec(), vec![0x89, b'P', b'N', b'G', 13, 10, 26, 10]] {
        let process = ImageProcess::new(bytes).unwrap();
        assert_eq!(process.get_dynamic_image().err(), Some(ErrorCode::UnableToDecode));
        assert_eq!(process.compute_filter_sobel().err(), Some(ErrorCode::UnableToDecode));
        assert_eq!(
            process
                .compute_filter_pixel(FilterPixelType::VERTICAL, ColorRgba::new(0, 0, 0, 255))
                .err(),
            Some(ErrorCode::UnableToDecode)
        );
        assert_eq!(
            process
                .compute_filter_gradient(
                    ColorRgba::new(0, 0, 0, 255),
                    ColorRgba::new(9, 9, 9, 255),
                    GradientDirection::VERTICAL
                )
                .err(),
            Some(ErrorCode::UnableToDecode)
        );
        assert_eq!(
            process.compute_filter_band_color(Vec::new(), GradientDirection::VERTICAL).err(),
            Some(ErrorCode::UnableToDecode)
        );
        match process.compute_parameters(none()) {
            Err(code) => assert_eq!(code, ErrorCode::UnableToDecode),
            Ok(_) => panic!("decoded what is no image"),
        }
    }
}

#[test]
fn png_from_another_encoder_is_decoded() {
    let process = ImageProcess::new(String::from(RED_PNG)).unwrap();
    let image = process.get_dynamic_image().unwrap();
    assert_eq!((image.width(), image.height()), (4, 4));
    for y in 0..4 {
        for x in 0..4 {
            assert_eq!(image.get_pixel(x, y), ColorRgba::new(220, 10, 20, 255));
        }
    }
}

#[test]
fn image_without_alpha_is_decoded_as_opaque() {
    let image = ImageProcess::new(String::from(RGB_PNG)).unwrap().get_dynamic_image().unwrap();
    assert_eq!((image.width(), image.height()), (2, 1));
    assert_eq!(image.get_pixel(0, 0), ColorRgba::new(1, 2, 3, 255));
    assert_eq!(image.get_pixel(1, 0), ColorRgba::new(4, 5, 6, 255));
}

#[test]
fn encoding_writes_a_png() {
    let bytes = ImageProcess::dynamic_image_to_byte(&sample()).unwrap();
    assert_eq!(&bytes[..8], &[0x89, b'P', b'N', b'G', 13, 10, 26, 10]);
    assert_eq!(image::guess_format(&bytes).unwrap(), image::ImageFormat::Png);
}

#[test]
fn decoding_what_was_encoded_gives_the_image_back() {
    for image in [
        sample(),
        PixelBuffer::new(1, 1),
        PixelBuffer::from_pixel(3, 2, ColorRgba::new(0, 0, 0, 0)),
        PixelBuffer::from_pixel(1, 9, ColorRgba::new(255, 255, 255, 255)),
        PixelBuffer::from_fn(16, 16, |x, y| ColorRgba::new(x as u8, y as u8, (x ^ y) as u8, (x * y) as u8)),
    ] {
        let bytes = ImageProcess::dynamic_image_to_byte(&image).unwrap();
        let back = decode(bytes);
        assert_eq!((back.width(), back.height()), (image.width(), image.height()));
        assert_eq!(back.as_raw(), image.as_raw());
    }
}

#[test]
fn encoding_an_image_without_pixels_is_unable_to_save() {
    for (width, height) in [(0, 0), (0, 3), (3, 0)] {
        assert_eq!(
            ImageProcess::dynamic_image_to_byte(&PixelBuffer::new(width, height)),
            Err(ErrorCode::UnableToSave)
        );
    }
}

#[test]
fn brighten_by_50_on_a_red_png() {
    let process = ImageProcess::new(String::from(RED_PNG)).unwrap();
    let params = ImageParameters { brighten: Some(50), ..none() };
    let result = encoded(process.compute_parameters(params).unwrap());
    let image = decode(result.to_byte());
    assert_eq!((image.width(), image.height()), (4, 4));
    for y in 0..4 {
        for x in 0..4 {
            assert_eq!(image.get_pixel(x, y), ColorRgba::new(255, 60, 70, 255));
        }
    }
}

#[test]
fn compute_parameters_with_the_default_parameters_pauses_for_the_blur() {
    let process = ImageProcess::new(String::from(RED_PNG)).unwrap();
    match process.compute_parameters(ImageParameters::default()).unwrap() {
        Computed::Paused(image, next) => {
            assert_eq!(next, FloatAdjustment::Blur(0));
            assert_eq!(image.get_pixel(3, 3), ColorRgba::new(220, 10, 20, 255));
        }
        Computed::Done(_) => panic!("the blur was passed over"),
    }
}

#[test]
fn finish_parameters_encodes_a_finished_image_and_hands_a_paused_one_on() {
    let params = ImageParameters { invert: Some(true), ..none() };
    let result = encoded(ImageProcess::finish_parameters(params.apply_filter(sample())).unwrap());
    let image = decode(result.to_byte());
    assert_eq!(image.get_pixel(1, 1), ColorRgba::new(225, 205, 254, 234));

    let params = ImageParameters { constrast: Some(7), ..none() };
    match ImageProcess::finish_parameters(params.apply_filter(sample())).unwrap() {
        Computed::Paused(image, next) => {
            assert_eq!(next, FloatAdjustment::Contrast(7));
            assert_eq!(image.as_raw(), sample().as_raw());
        }
        Computed::Done(_) => panic!("the contrast was passed over"),
    }

    let finished = none().apply_filter(PixelBuffer::new(0, 0));
    match ImageProcess::finish_parameters(finished) {
        Err(code) => assert_eq!(code, ErrorCode::UnableToSave),
        Ok(_) => panic!("encoded an image without pixels"),
    }
}

#[test]
fn compute_filter_pixel_paints_the_decoded_image() {
    let ink = ColorRgba::new(0, 0, 0, 100);
    let input = ImageProcess::dynamic_image_to_byte(&sample()).unwrap();
    let result = ImageProcess::new(input)
        .unwrap()
        .compute_filter_pixel(FilterPixelType::DIAGONAL, ink)
        .unwrap();
    let mut expected = sample();
    filter_pixel(&mut expected, FilterPixelType::DIAGONAL, ink).unwrap();
    assert_ne!(expected.as_raw(), sample().as_raw());
    assert_eq!(decode(result.to_byte()).as_raw(), expected.as_raw());
}

#[test]
fn compute_filter_gradient_lays_the_gradient_over_the_decoded_image() {
    let process = ImageProcess::new(String::from(RED_PNG)).unwrap();
    let result = process
        .compute_filter_gradient(
            ColorRgba::new(0, 0, 0, 255),
            ColorRgba::new(255, 255, 255, 255),
            GradientDirection::VERTICAL,
        )
        .unwrap();
    let image = decode(result.to_byte());
    for (y, level) in [0u8, 85, 170, 255].iter().enumerate() {
        for x in 0..4 {
            assert_eq!(image.get_pixel(x, y as u32), ColorRgba::new(*level, *level, *level, 255));
        }
    }
}

#[test]
fn compute_filter_band_color_lays_the_bands_over_the_decoded_image() {
    let a = ColorRgba::new(1, 1, 1, 255);
    let b = ColorRgba::new(2, 2, 2, 255);
    let c = ColorRgba::new(3, 3, 3, 255);
    let process = ImageProcess::new(String::from(RED_PNG)).unwrap();
    let result = process
        .compute_filter_band_color(vec![a, b, c], GradientDirection::HORIZONTAL)
        .unwrap();
    let image = decode(result.to_byte());
    for y in 0..4 {
        let row: Vec<ColorRgba> = (0..4).map(|x| image.get_pixel(x, y)).collect();
        assert_eq!(row, vec![a, b, c, c]);
    }
    let result = process.compute_filter_band_color(Vec::new(), GradientDirection::HORIZONTAL).unwrap();
    let image = decode(result.to_byte());
    assert_eq!(image.get_pixel(2, 2), ColorRgba::new(220, 10, 20, 255));
}

#[test]
fn band_filter_without_colors_gives_the_same_for_both_directions() {
    let image = PixelBuffer::from_fn(10, 10, |x, y| ColorRgba::new(x as u8, y as u8, 5, 255));
    let process = ImageProcess::new(ImageProcess::dynamic_image_to_byte(&image).unwrap()).unwrap();
    let across =
        process.compute_filter_band_color(Vec::new(), GradientDirection::HORIZONTAL).unwrap();
    let down = process.compute_filter_band_color(Vec::new(), GradientDirection::VERTICAL).unwrap();
    assert_eq!(across.to_byte(), down.to_byte());
    assert_eq!(decode(across.to_byte()).as_raw(), image.as_raw());
    let again =
        process.compute_filter_band_color(Vec::new(), GradientDirection::HORIZONTAL).unwrap();
    assert_eq!(again.to_byte(), across.to_byte());
}

#[test]
fn encoding_an_image_with_a_pixel_succeeds() {
    for (width, height) in [(1, 1), (1, 300), (300, 1), (64, 64)] {
        let image = PixelBuffer::from_fn(width, height, |x, y| {
            ColorRgba::new((x * 7) as u8, (y * 3) as u8, (x + y) as u8, (x ^ y) as u8)
        });
        assert!(ImageProcess::dynamic_image_to_byte(&image).is_ok());
    }
}

#[test]
fn text_with_a_character_outside_the_alphabet_is_unable_to_decode() {
    for text in ["aGVs-G8=", "aGVs_G8=", "aGVs\nbG8=", "aGVsbG8=\u{e9}", "a:b", "not-base64!!"] {
        assert_eq!(String::from(text).to_byte(), Err(ErrorCode::UnableToDecode), "{}", text);
    }
}

#[test]
fn compute_filter_sobel_gives_the_edges_of_the_decoded_image() {
    let process = ImageProcess::new(String::from(RED_PNG)).unwrap();
    let image = decode(process.compute_filter_sobel().unwrap().to_byte());
    assert_eq!((image.width(), image.height()), (4, 4));
    for y in 0..4 {
        for x in 0..4 {
            assert_eq!(image.get_pixel(x, y), ColorRgba::new(0, 0, 0, 255));
        }
    }
    let stripes = PixelBuffer::from_fn(4, 1, |x, _| {
        let level = if x < 2 { 10 } else { 20 };
        ColorRgba::new(level, level, level, 255)
    });
    let input = ImageProcess::dynamic_image_to_byte(&stripes).unwrap();
    let image = decode(ImageProcess::new(input).unwrap().compute_filter_sobel().unwrap().to_byte());
    let levels: Vec<u8> = (0..4).map(|x| image.get_pixel(x, 0).red).collect();
    assert_eq!(levels, vec![0, 40, 40, 0]);
}

#[test]
fn compute_filters_dispatches_on_the_request() {
    let process = ImageProcess::new(String::from(RED_PNG)).unwrap();
    let ink = ColorRgba::new(5, 6, 7, 255);
    let request = FilterRequest::PixelPattern { pattern: FilterPixelType::HORIZONTAL, color: ink };
    let image = decode(process.compute_filters(request).unwrap().to_byte());
    for y in 0..4 {
        let expected = if y == 0 { ink } else { ColorRgba::new(220, 10, 20, 255) };
        assert_eq!(image.get_pixel(1, y), expected);
    }
}

#[test]
fn result_gives_its_bytes_and_their_base64() {
    let result = ImageProcessingResult::new(b"hello world".to_vec());
    assert_eq!(result.to_byte(), b"hello world".to_vec());
    assert_eq!(result.to_base64(), "aGVsbG8gd29ybGQ=");
    assert_eq!(result.to_byte(), b"hello world".to_vec());
    assert_eq!(result.to_base64(), "aGVsbG8gd29ybGQ=");
    let empty = ImageProcessingResult::new(Vec::new());
    assert!(empty.to_byte().is_empty());
    assert_eq!(empty.to_base64(), "");
    assert_eq!(ImageProcessingResult::new(vec![0xfb, 0xff]).to_base64(), "+/8=");
}

#[test]
fn base64_of_a_result_can_be_processed_again() {
    let process = ImageProcess::new(String::from(RED_PNG)).unwrap();
    let params = ImageParameters { invert: Some(true), ..none() };
    let first = encoded(process.compute_parameters(params).unwrap());
    let again = ImageProcess::new(first.to_base64()).unwrap();
    assert_eq!(again.input, first.to_byte());
    let params = ImageParameters { invert: Some(true), ..none() };
    let second = encoded(again.compute_parameters(params).unwrap());
    let image = decode(second.to_byte());
    assert_eq!(image.get_pixel(0, 0), ColorRgba::new(220, 10, 20, 255));
}

#[test]
fn processor_gives_its_input_as_base64() {
    let process = ImageProcess::new(b"hello world".to_vec()).unwrap();
    assert_eq!(process.to_base64(), "aGVsbG8gd29ybGQ=");
}

#[test]
fn save_file_path_joins_path_prefix_time_and_extension() {
    assert_eq!(
        ImageProcess::save_file_path("/tmp/out/", "2024-01-02_03-04-05"),
        "/tmp/out/image_save_2024-01-02_03-04-05.png"
    );
    assert_eq!(ImageProcess::save_file_path("", ""), "image_save_.png");
}

#[test]
fn save_outcome_reports_a_failed_write() {
    assert_eq!(ImageProcess::save_outcome(true), None);
    assert_eq!(ImageProcess::save_outcome(false), Some(ErrorCode::UnableToSave));
}

#[test]
fn dimension_keeps_width_and_height() {
    let dimension = ImageDimension::new(640, 480);
    assert_eq!(dimension.get_width(), 640);
    assert_eq!(dimension.get_height(), 480);
    let dimension = ImageDimension::new(u32::MAX, 0);
    assert_eq!(dimension.get_width(), u32::MAX as usize);
    assert_eq!(dimension.get_height(), 0);
}
