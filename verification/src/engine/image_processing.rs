//! The processor: it owns the encoded input, decodes it on demand, applies
//! the standard adjustments or a filter, and encodes the result.

use crate::engine::bindings::{
    base64_decode, base64_decoded, base64_encode, base64_encoded, brighten, decode_image,
    has_char_outside_base64, is_base64_char,
    decoded_image, encode_png, grayscale, huerotate, invert, png_encoded,
};
use crate::engine::image_error::ErrorCode;
use crate::engine::image_filters::{
    lemma_filtered_keeps_size, ColorRgba, FilterPixelType, FilterRequest, FilterRequestView,
    GradientDirection,
};
use crate::engine::image_processing_result::ImageProcessingResult;
use crate::engine::pixel_buffer::{lemma_empty_raster, PixelBuffer, Raster};
use vstd::prelude::*;
use vstd::string::StringExecFns;

pub mod adjustments;

pub use adjustments::{
    brightened, brightened_channel, brightened_color, grayscaled, grayscaled_color, inverted,
    inverted_color, keeps_alpha, lemma_brighten_by_zero, lemma_brighten_saturates,
    lemma_grayscale_twice, lemma_invert_twice, lemma_luminance_of_gray, luminance,
};

verus! {

/// An adjustment that the engine leaves to its caller, because its amount is
/// a floating-point number: the field holds the bits of that number in single
/// precision.
#[derive(Debug, Copy, Clone, PartialEq, Eq, Structural)]
pub enum FloatAdjustment {
    /// A Gaussian blur of the given radius.
    Blur(u32),
    /// A change of contrast by the given amount.
    Contrast(u32),
}

/// How far a run of the standard adjustments got.
pub enum Adjusted {
    /// All adjustments are applied.
    Done(PixelBuffer),
    /// The adjustments before the given one are applied to the image; the
    /// caller applies that one and hands the image back to `resume_filter`.
    Paused(PixelBuffer, FloatAdjustment),
}

/// What an `Adjusted` holds, as a mathematical value.
pub enum AdjustedView {
    Done(Raster),
    Paused(Raster, FloatAdjustment),
}

impl View for Adjusted {
    type V = AdjustedView;

    open spec fn view(&self) -> AdjustedView {
        match self {
            Adjusted::Done(image) => AdjustedView::Done(image@),
            Adjusted::Paused(image, next) => AdjustedView::Paused(image@, *next),
        }
    }
}

impl Adjusted {
    /// The image inside is well formed.
    pub open spec fn wf(&self) -> bool {
        match self {
            Adjusted::Done(image) => image.wf(),
            Adjusted::Paused(image, _) => image.wf(),
        }
    }
}

/// The standard adjustments to apply. A field that is `None` leaves its
/// adjustment out.
#[derive(Debug)]
pub struct ImageParameters {
    /// What to add to the red, green and blue of every pixel.
    pub brighten: Option<i32>,
    /// The degrees by which to rotate the hue.
    pub hue: Option<i32>,
    /// The radius of the blur: the bits of a single-precision number.
    pub blur: Option<u32>,
    /// The change of contrast: the bits of a single-precision number.
    pub constrast: Option<u32>,
    /// Whether to turn the image gray.
    pub grayscale: Option<bool>,
    /// Whether to turn the image into its negative.
    pub invert: Option<bool>,
}

impl ImageParameters {
    pub fn new() -> (params: ImageParameters)
        ensures
            params == ImageParameters::default_spec(),
    {
        ImageParameters::default()
    }

    /// Every adjustment present with its neutral amount: 0, the bits of 0.0,
    /// `false`.
    pub open spec fn default_spec() -> ImageParameters {
        ImageParameters {
            brighten: Some(0),
            blur: Some(0),
            hue: Some(0),
            constrast: Some(0),
            grayscale: Some(false),
            invert: Some(false),
        }
    }

    pub fn default() -> (params: Self)
        ensures
            params == ImageParameters::default_spec(),
    {
        Self {
            brighten: Some(0),
            blur: Some(0),
            hue: Some(0),
            constrast: Some(0),
            grayscale: Some(false),
            invert: Some(false),
        }
    }

    /// The image after the first step: brightened, if that is asked for.
    pub open spec fn after_brighten(&self, image: Raster) -> Raster {
        match self.brighten {
            Some(delta) => brightened(image, delta as int),
            None => image,
        }
    }

    /// A rotation of the hue is asked for, and by another angle than 0.
    pub open spec fn turns_hue(&self) -> bool {
        self.hue matches Some(degrees) && degrees != 0
    }

    /// Whether `after` can be the image `before` after the third step: any
    /// image of the same size and the same alphas where the hue is turned,
    /// `before` itself where no rotation is asked for or one by 0 degrees.
    pub open spec fn may_rotate_hue(&self, before: Raster, after: Raster) -> bool {
        if self.turns_hue() {
            keeps_alpha(before, after)
        } else {
            after == before
        }
    }

    /// The image after the fourth step: gray, if that is asked for.
    pub open spec fn after_grayscale(&self, image: Raster) -> Raster {
        if self.grayscale == Some(true) {
            grayscaled(image)
        } else {
            image
        }
    }

    /// The image after the last step: inverted, if that is asked for.
    pub open spec fn after_invert(&self, image: Raster) -> Raster {
        if self.invert == Some(true) {
            inverted(image)
        } else {
            image
        }
    }

    /// What follows the rotation of the hue: the gray step, then a pause for
    /// the contrast or, without one, the inversion.
    pub open spec fn after_hue(&self, rotated: Raster) -> AdjustedView {
        match self.constrast {
            Some(amount) => AdjustedView::Paused(
                self.after_grayscale(rotated),
                FloatAdjustment::Contrast(amount),
            ),
            None => AdjustedView::Done(self.after_invert(self.after_grayscale(rotated))),
        }
    }

    /// Whether `outcome` can be what the steps after the blur make of `image`.
    pub open spec fn resumes_to(&self, image: Raster, outcome: AdjustedView) -> bool {
        exists|rotated: Raster| #[trigger]
            self.may_rotate_hue(image, rotated) && outcome == self.after_hue(rotated)
    }

    /// Whether `outcome` can be what the adjustments make of `image`, up to
    /// the first one that is left to the caller. The order is fixed:
    /// brightness, blur, hue, gray, contrast, inversion.
    pub open spec fn adjusts_to(&self, image: Raster, outcome: AdjustedView) -> bool {
        match self.blur {
            Some(radius) => outcome == AdjustedView::Paused(
                self.after_brighten(image),
                FloatAdjustment::Blur(radius),
            ),
            None => self.resumes_to(self.after_brighten(image), outcome),
        }
    }

    /// The hue is not turned, and no blur and no change of contrast is asked
    /// for: what the adjustments give is then a function of the image.
    pub open spec fn is_exact(&self) -> bool {
        !self.turns_hue() && self.blur is None && self.constrast is None
    }

    /// What the adjustments make of `image` where `is_exact` holds.
    pub open spec fn adjusted(&self, image: Raster) -> Raster {
        self.after_invert(self.after_grayscale(self.after_brighten(image)))
    }

    /// Brightens the image, if that is asked for.
    fn apply_brighten(&self, img: PixelBuffer) -> (out: PixelBuffer)
        requires
            img.wf(),
        ensures
            out.wf(),
            out@ == self.after_brighten(img@),
    {
        match self.brighten {
            Some(delta) => {
                if img.is_empty() {
                    proof {
                        img.lemma_view_wf();
                        lemma_empty_raster(img@);
                        assert(brightened(img@, delta as int).pixels =~= img@.pixels);
                        assert(brightened(img@, delta as int) =~= img@);
                    }
                    return img;
                }
                let value: i32 = if delta > 255 {
                    255
                } else {
                    delta
                };
                proof {
                    lemma_brighten_saturates(img@, delta as int);
                }
                brighten(&img, value)
            },
            None => img,
        }
    }

    /// Applies the standard adjustments in their fixed order, up to the first
    /// one that is left to the caller.
    pub fn apply_filter(&self, img: PixelBuffer) -> (outcome: Adjusted)
        requires
            img.wf(),
        ensures
            outcome.wf(),
            self.adjusts_to(img@, outcome@),
            self.is_exact() ==> outcome@ == AdjustedView::Done(self.adjusted(img@)),
    {
        let img = self.apply_brighten(img);
        match self.blur {
            Some(radius) => Adjusted::Paused(img, FloatAdjustment::Blur(radius)),
            None => self.apply_after_blur(img),
        }
    }

    /// Takes the adjustments up again after the caller has applied the one
    /// that `applied` names, and runs them up to the next one that is left to
    /// the caller.
    pub fn resume_filter(&self, applied: FloatAdjustment, img: PixelBuffer) -> (outcome: Adjusted)
        requires
            img.wf(),
        ensures
            outcome.wf(),
            (match applied {
                FloatAdjustment::Blur(_) => self.resumes_to(img@, outcome@),
                FloatAdjustment::Contrast(_) => outcome@ == AdjustedView::Done(self.after_invert(img@)),
            }),
            applied is Blur && !self.turns_hue() ==> outcome@ == self.after_hue(img@),
    {
        match applied {
            FloatAdjustment::Blur(_) => self.apply_after_blur(img),
            FloatAdjustment::Contrast(_) => Adjusted::Done(self.apply_invert(img)),
        }
    }

    /// Rotates the hue, if that is asked for, and goes on with what follows.
    /// A rotation by 0 degrees leaves the image as it is.
    fn apply_after_blur(&self, img: PixelBuffer) -> (outcome: Adjusted)
        requires
            img.wf(),
        ensures
            outcome.wf(),
            self.resumes_to(img@, outcome@),
            !self.turns_hue() ==> outcome@ == self.after_hue(img@),
    {
        let rotated = match self.hue {
            Some(degrees) => if degrees == 0 {
                img
            } else {
                huerotate(&img, degrees)
            },
            None => img,
        };
        assert(self.may_rotate_hue(img@, rotated@));
        self.apply_after_hue(rotated)
    }

    /// Applies what follows the rotation of the hue: turns the image gray, if
    /// that is asked for, then pauses for the contrast or, without one,
    /// inverts.
    pub fn apply_after_hue(&self, rotated: PixelBuffer) -> (outcome: Adjusted)
        requires
            rotated.wf(),
        ensures
            outcome.wf(),
            outcome@ == self.after_hue(rotated@),
    {
        let gray = self.apply_grayscale(rotated);
        match self.constrast {
            Some(amount) => Adjusted::Paused(gray, FloatAdjustment::Contrast(amount)),
            None => Adjusted::Done(self.apply_invert(gray)),
        }
    }

    /// Turns the image gray, if that is asked for.
    fn apply_grayscale(&self, img: PixelBuffer) -> (out: PixelBuffer)
        requires
            img.wf(),
        ensures
            out.wf(),
            out@ == self.after_grayscale(img@),
    {
        if let Some(true) = self.grayscale {
            if img.is_empty() {
                proof {
                    img.lemma_view_wf();
                    lemma_empty_raster(img@);
                    assert(grayscaled(img@).pixels =~= img@.pixels);
                    assert(grayscaled(img@) =~= img@);
                }
                img
            } else {
                grayscale(&img)
            }
        } else {
            img
        }
    }

    /// Inverts the image, if that is asked for.
    fn apply_invert(&self, img: PixelBuffer) -> (out: PixelBuffer)
        requires
            img.wf(),
        ensures
            out.wf(),
            out@ == self.after_invert(img@),
    {
        let mut img = img;
        if let Some(true) = self.invert {
            invert(&mut img);
        }
        img
    }
}

/// Adjustments with their neutral amounts change nothing: brightening by
/// 0, a rotation of the hue by 0 degrees, and a gray step or an inversion
/// that is switched off leave every pixel as it is.
pub proof fn lemma_neutral_amounts_change_nothing(params: ImageParameters, image: Raster)
    requires
        params.brighten is None || params.brighten == Some(0i32),
        params.hue is None || params.hue == Some(0i32),
        params.grayscale != Some(true),
        params.invert != Some(true),
        params.blur is None,
        params.constrast is None,
    ensures
        params.is_exact(),
        params.adjusted(image) == image,
{
    lemma_brighten_by_zero(image);
}

/// With nothing but the inversion asked for, adjusting twice gives the image
/// back.
pub proof fn lemma_invert_only_twice(params: ImageParameters, image: Raster)
    requires
        params.is_exact(),
        params.brighten is None,
        params.grayscale is None,
        params.invert == Some(true),
    ensures
        params.adjusted(params.adjusted(image)) == image,
{
    lemma_invert_twice(image);
}

/// With nothing but the gray step asked for, adjusting twice gives what
/// adjusting once gives.
pub proof fn lemma_grayscale_only_twice(params: ImageParameters, image: Raster)
    requires
        params.is_exact(),
        params.brighten is None,
        params.grayscale == Some(true),
        params.invert is None,
    ensures
        params.adjusted(params.adjusted(image)) == params.adjusted(image),
{
    lemma_grayscale_twice(image);
}

/// The marker that may stand before base64 text and is taken off before the
/// text is decoded.
pub const DATA_URI_MARKER: &'static str = "data:image/jpeg;base64,";

/// The base64 text without the data-URI marker in front: the text after the
/// marker where it starts with the marker, else the text itself. A marker
/// anywhere else stays, and the text is then no base64.
pub open spec fn without_marker(text: Seq<char>) -> Seq<char> {
    if DATA_URI_MARKER@.is_prefix_of(text) {
        text.skip(DATA_URI_MARKER@.len() as int)
    } else {
        text
    }
}

/// The marker has 23 characters, so a text that starts with it loses its
/// first 23 characters.
pub proof fn lemma_marker_length()
    ensures
        DATA_URI_MARKER@.len() == 23,
        forall|text: Seq<char>|
            DATA_URI_MARKER@.is_prefix_of(text) ==> #[trigger] without_marker(text) == text.skip(
                23,
            ),
{
    reveal_strlit("data:image/jpeg;base64,");
}

/// An input that the processor accepts: something that stands for the bytes
/// of an encoded image.
pub trait InputType {
    /// The bytes that this input stands for, or why it stands for none.
    spec fn input_bytes(&self) -> Result<Seq<u8>, ErrorCode>;

    /// The bytes that this input stands for.
    fn to_byte(&self) -> (result: Result<Vec<u8>, ErrorCode>)
        ensures
            (match self.input_bytes() {
                Ok(bytes) => result matches Ok(found) && found@ == bytes,
                Err(code) => result matches Err(given) && given == code,
            }),
    ;
}

/// What the base64 text stands for, once the marker is off: a text with a
/// character outside the alphabet stands for nothing, and any other for what
/// the decoder reads from it. Malformed text is `UnableToDecode`.
pub open spec fn text_bytes(text: Seq<char>) -> Result<Seq<u8>, ErrorCode> {
    if has_char_outside_base64(text) {
        Err(ErrorCode::UnableToDecode)
    } else {
        match base64_decoded(text) {
            Some(bytes) => Ok(bytes),
            None => Err(ErrorCode::UnableToDecode),
        }
    }
}

/// Base64 text, with or without the data-URI marker in front.
impl InputType for String {
    open spec fn input_bytes(&self) -> Result<Seq<u8>, ErrorCode> {
        text_bytes(without_marker(self@))
    }

    fn to_byte(&self) -> (result: Result<Vec<u8>, ErrorCode>) {
        let text = ImageProcess::parse_base64_input_if_needed(self);
        match base64_decode(text.as_str()) {
            Ok(bytes) => Ok(bytes),
            Err(_) => Err(ErrorCode::UnableToDecode),
        }
    }
}

/// The bytes themselves.
impl InputType for Vec<u8> {
    open spec fn input_bytes(&self) -> Result<Seq<u8>, ErrorCode> {
        Ok(self@)
    }

    fn to_byte(&self) -> (result: Result<Vec<u8>, ErrorCode>) {
        let bytes = self.clone();
        assert(bytes@ =~= self@);
        Ok(bytes)
    }
}

/// What `compute_parameters` hands back: the encoded image, or the image at
/// the adjustment that is left to the caller.
pub enum Computed {
    /// All adjustments are applied and the image is encoded.
    Done(ImageProcessingResult),
    /// The adjustments before the given one are applied to the image; the
    /// caller applies that one, hands the image to `resume_filter` and the
    /// outcome to `finish_parameters`.
    Paused(PixelBuffer, FloatAdjustment),
}

/// What encoding makes of an image: `UnableToSave` for an image without
/// pixels, which PNG cannot hold, else the bytes of the PNG file.
pub open spec fn encoded(image: Raster) -> Result<Seq<u8>, ErrorCode> {
    if image.is_empty() {
        Err(ErrorCode::UnableToSave)
    } else {
        Ok(png_encoded(image))
    }
}

/// Whether `result` is what the processor returns for an image that the
/// encoder turns into `bytes`.
pub open spec fn wraps(
    result: Result<ImageProcessingResult, ErrorCode>,
    bytes: Result<Seq<u8>, ErrorCode>,
) -> bool {
    match bytes {
        Ok(bytes) => result matches Ok(wrapped) && wrapped@ == bytes,
        Err(code) => result matches Err(given) && given == code,
    }
}

/// Whether `computed` is what the processor returns once the adjustments
/// have come to `outcome`: a finished image is encoded, a paused one is
/// handed on as it is.
pub open spec fn finishes(
    outcome: AdjustedView,
    computed: Result<Computed, ErrorCode>,
) -> bool {
    match outcome {
        AdjustedView::Done(image) => match encoded(image) {
            Ok(bytes) => computed matches Ok(Computed::Done(wrapped)) && wrapped@ == bytes,
            Err(code) => computed matches Err(given) && given == code,
        },
        AdjustedView::Paused(image, next) => computed matches Ok(Computed::Paused(paused, to_do))
            && paused.wf() && paused@ == image && to_do == next,
    }
}

/// Whether `computed` is what `compute_parameters` can return for the encoded
/// image `input`: `UnableToDecode` where it is no image, else what `finishes`
/// says of an outcome of the adjustments. Where `is_exact` holds there is one
/// such outcome.
pub open spec fn computes_to(
    input: Seq<u8>,
    params: ImageParameters,
    computed: Result<Computed, ErrorCode>,
) -> bool {
    match decoded_image(input) {
        Some(image) => {
            &&& exists|outcome: AdjustedView| #[trigger]
                params.adjusts_to(image, outcome) && finishes(outcome, computed)
            &&& params.is_exact() ==> finishes(AdjustedView::Done(params.adjusted(image)), computed)
        },
        None => computed matches Err(code) && code == ErrorCode::UnableToDecode,
    }
}

/// Whether `result` is what a filter run returns for the encoded image
/// `input`: `UnableToDecode` where it is no image, else the filtered image,
/// encoded.
pub open spec fn filters_to(
    input: Seq<u8>,
    request: FilterRequestView,
    result: Result<ImageProcessingResult, ErrorCode>,
) -> bool {
    match decoded_image(input) {
        Some(image) => wraps(result, encoded(request.filtered(image))),
        None => result matches Err(code) && code == ErrorCode::UnableToDecode,
    }
}

/// Text that, once the marker is off its front, holds a character outside
/// the base64 alphabet is malformed: it stands for no bytes, and the error
/// is `UnableToDecode`. A marker anywhere but in front is such a case: it
/// holds a colon.
pub proof fn lemma_malformed_text_is_rejected(text: String, at: int)
    requires
        0 <= at < without_marker(text@).len(),
        !is_base64_char(without_marker(text@)[at]),
    ensures
        text.input_bytes() == Err::<Seq<u8>, ErrorCode>(ErrorCode::UnableToDecode),
{
}

/// A filter run on an input that decodes to an image with a pixel succeeds.
pub proof fn lemma_filters_succeed(
    input: Seq<u8>,
    request: FilterRequestView,
    result: Result<ImageProcessingResult, ErrorCode>,
)
    requires
        filters_to(input, request, result),
        decoded_image(input) matches Some(image) && !image.is_empty(),
    ensures
        result is Ok,
{
    lemma_filtered_keeps_size(request, decoded_image(input)->0);
}

/// A run of the adjustments on an input that decodes to an image with a pixel
/// succeeds: it gives the encoded image, or the image at the adjustment that
/// is left to the caller.
pub proof fn lemma_parameters_succeed(
    input: Seq<u8>,
    params: ImageParameters,
    computed: Result<Computed, ErrorCode>,
)
    requires
        computes_to(input, params, computed),
        decoded_image(input) matches Some(image) && !image.is_empty(),
    ensures
        computed is Ok,
{
    let image = decoded_image(input)->0;
    let outcome = choose|outcome: AdjustedView| #[trigger]
        params.adjusts_to(image, outcome) && finishes(outcome, computed);
    if params.blur is None {
        let rotated = choose|rotated: Raster| #[trigger]
            params.may_rotate_hue(params.after_brighten(image), rotated) && outcome
                == params.after_hue(rotated);
        assert(rotated.same_size(image));
    }
}

/// Without a color the band filter changes nothing, whatever the direction:
/// a run gives the encoding of the decoded image itself, the same for both
/// directions, and fails only as decoding and encoding fail, never for the
/// want of a color.
pub proof fn lemma_no_colors_no_change(
    input: Seq<u8>,
    direction: GradientDirection,
    other: GradientDirection,
    result: Result<ImageProcessingResult, ErrorCode>,
)
    requires
        filters_to(
            input,
            FilterRequestView::ColorBand { colors: Seq::empty(), direction },
            result,
        ),
    ensures
        filters_to(
            input,
            FilterRequestView::ColorBand { colors: Seq::empty(), direction: other },
            result,
        ),
        decoded_image(input) matches Some(image) ==> wraps(result, encoded(image)),
        !(result matches Err(code) && code == ErrorCode::NoColorInput),
{
}

/// The processor: it owns the bytes of an encoded image.
#[derive(Debug)]
pub struct ImageProcess {
    pub input: Vec<u8>,
}

impl ImageProcess {
    /// A processor for the image that `input` stands for; the error of the
    /// input where it stands for none.
    pub fn new<T: InputType>(input: T) -> (created: Result<ImageProcess, ErrorCode>)
        ensures
            (match input.input_bytes() {
                Ok(bytes) => created matches Ok(process) && process.input@ == bytes,
                Err(code) => created matches Err(given) && given == code,
            }),
    {
        match input.to_byte() {
            Ok(bytes) => Ok(ImageProcess { input: bytes }),
            Err(code) => Err(code),
        }
    }

    /// Takes the marker "data:image/jpeg;base64," off the front of the text.
    pub fn parse_base64_input_if_needed(base64_input: &String) -> (text: String)
        ensures
            text@ == without_marker(base64_input@),
    {
        let input = base64_input.as_str();
        let marker_length: usize = DATA_URI_MARKER.unicode_len();
        let length: usize = input.unicode_len();
        if length < marker_length {
            return String::from_str(input);
        }
        let mut checked: usize = 0;
        while checked < marker_length
            invariant
                checked <= marker_length <= length,
                marker_length == DATA_URI_MARKER@.len(),
                length == input@.len(),
                input@ == base64_input@,
                forall|i: int| 0 <= i < checked ==> input@[i] == DATA_URI_MARKER@[i],
            decreases marker_length - checked,
        {
            if input.get_char(checked) != DATA_URI_MARKER.get_char(checked) {
                proof {
                    let front = input@.subrange(0, marker_length as int);
                    assert(front[checked as int] == input@[checked as int]);
                    assert(DATA_URI_MARKER@ != front);
                }
                return String::from_str(input);
            }
            checked = checked + 1;
        }
        assert(DATA_URI_MARKER@ =~= input@.subrange(0, marker_length as int));
        String::from_str(input.substring_char(marker_length, length))
    }

    /// The input as base64 text.
    pub fn to_base64(&self) -> (text: String)
        ensures
            text@ == base64_encoded(self.input@),
    {
        base64_encode(&self.input)
    }

    /// Decodes the input; `UnableToDecode` where it is no image.
    pub fn get_dynamic_image(&self) -> (image: Result<PixelBuffer, ErrorCode>)
        ensures
            (match decoded_image(self.input@) {
                Some(pixels) => image matches Ok(buffer) && buffer.wf() && buffer@ == pixels,
                None => image matches Err(code) && code == ErrorCode::UnableToDecode,
            }),
    {
        match decode_image(&self.input) {
            Ok(buffer) => Ok(buffer),
            Err(_) => Err(ErrorCode::UnableToDecode),
        }
    }

    /// Encodes the image as PNG; `UnableToSave` for an image without pixels,
    /// which PNG cannot hold.
    pub fn dynamic_image_to_byte(img: &PixelBuffer) -> (bytes: Result<Vec<u8>, ErrorCode>)
        requires
            img.wf(),
        ensures
            (match encoded(img@) {
                Ok(written) => bytes matches Ok(found) && found@ == written,
                Err(code) => bytes matches Err(given) && given == code,
            }),
    {
        match encode_png(img) {
            Ok(bytes) => Ok(bytes),
            Err(_) => Err(ErrorCode::UnableToSave),
        }
    }

    /// The name of the file that a save at the given time writes: the path,
    /// "image_save_", the time as text, and ".png".
    pub fn save_file_path(path: &str, date_string: &str) -> (full_file_path: String)
        ensures
            full_file_path@ == path@ + "image_save_"@ + date_string@ + ".png"@,
    {
        let mut full_file_path = String::from_str(path);
        full_file_path.append("image_save_");
        full_file_path.append(date_string);
        full_file_path.append(".png");
        full_file_path
    }

    /// What a save reports: `UnableToSave` where the file could not be
    /// written, nothing where it could.
    pub fn save_outcome(written: bool) -> (failure: Option<ErrorCode>)
        ensures
            failure == (if written {
                None
            } else {
                Some(ErrorCode::UnableToSave)
            }),
    {
        if written {
            None
        } else {
            Some(ErrorCode::UnableToSave)
        }
    }

    /// Encodes a finished image and wraps it; hands a paused one on.
    pub fn finish_parameters(outcome: Adjusted) -> (computed: Result<Computed, ErrorCode>)
        requires
            outcome.wf(),
        ensures
            finishes(outcome@, computed),
    {
        match outcome {
            Adjusted::Done(image) => match ImageProcess::dynamic_image_to_byte(&image) {
                Ok(bytes) => Ok(Computed::Done(ImageProcessingResult::new(bytes))),
                Err(code) => Err(code),
            },
            Adjusted::Paused(image, next) => Ok(Computed::Paused(image, next)),
        }
    }

    /// Decodes the input, applies the standard adjustments up to the first one
    /// that is left to the caller, and encodes the image if none is.
    pub fn compute_parameters(&self, params: ImageParameters) -> (computed: Result<
        Computed,
        ErrorCode,
    >)
        ensures
            computes_to(self.input@, params, computed),
    {
        let img = match self.get_dynamic_image() {
            Ok(img) => img,
            Err(code) => { return Err(code); },
        };
        let outcome = params.apply_filter(img);
        let ghost reached = outcome@;
        let computed = ImageProcess::finish_parameters(outcome);
        assert(params.adjusts_to(decoded_image(self.input@)->0, reached) && finishes(
            reached,
            computed,
        ));
        computed
    }

    /// Decodes the input, applies the requested filter and encodes the
    /// image.
    pub fn compute_filters(&self, request: FilterRequest) -> (result: Result<
        ImageProcessingResult,
        ErrorCode,
    >)
        ensures
            filters_to(self.input@, request@, result),
    {
        let img = match self.get_dynamic_image() {
            Ok(img) => img,
            Err(code) => { return Err(code); },
        };
        let filtered = request.apply(img);
        match ImageProcess::dynamic_image_to_byte(&filtered) {
            Ok(bytes) => Ok(ImageProcessingResult::new(bytes)),
            Err(code) => Err(code),
        }
    }

    /// Decodes the input, replaces the image by that of its edges and
    /// encodes it.
    pub fn compute_filter_sobel(&self) -> (result: Result<ImageProcessingResult, ErrorCode>)
        ensures
            filters_to(self.input@, FilterRequestView::EdgeGradient, result),
    {
        self.compute_filters(FilterRequest::EdgeGradient)
    }

    /// Decodes the input, lays the bands of the given colors over the image
    /// and encodes it.
    pub fn compute_filter_band_color(
        &self,
        colors: Vec<ColorRgba>,
        direction: GradientDirection,
    ) -> (result: Result<ImageProcessingResult, ErrorCode>)
        ensures
            filters_to(
                self.input@,
                FilterRequestView::ColorBand { colors: colors@, direction },
                result,
            ),
    {
        self.compute_filters(FilterRequest::ColorBand { colors, direction })
    }

    /// Decodes the input, lays the gradient from `start` to `to` over the
    /// image and encodes it.
    pub fn compute_filter_gradient(
        &self,
        start: ColorRgba,
        to: ColorRgba,
        gradient: GradientDirection,
    ) -> (result: Result<ImageProcessingResult, ErrorCode>)
        ensures
            filters_to(
                self.input@,
                FilterRequestView::Gradient { from: start, to, direction: gradient },
                result,
            ),
    {
        self.compute_filters(FilterRequest::Gradient { from: start, to, direction: gradient })
    }

    /// Decodes the input, paints the pattern in the given color over the
    /// image and encodes it.
    pub fn compute_filter_pixel(&self, pixel_filter: FilterPixelType, color: ColorRgba) -> (result:
        Result<ImageProcessingResult, ErrorCode>)
        ensures
            filters_to(
                self.input@,
                FilterRequestView::PixelPattern { pattern: pixel_filter, color },
                result,
            ),
    {
        self.compute_filters(FilterRequest::PixelPattern { pattern: pixel_filter, color })
    }
}

} // verus!
