//! What a run of the processor hands back.

use crate::engine::bindings::{base64_encode, base64_encoded};
use vstd::prelude::*;

verus! {

/// The encoded image that a run of the processor produced.
#[derive(Debug, Clone)]
pub struct ImageProcessingResult {
    result: Vec<u8>,
}

impl View for ImageProcessingResult {
    type V = Seq<u8>;

    /// The bytes of the encoded image.
    closed spec fn view(&self) -> Seq<u8> {
        self.result@
    }
}

impl ImageProcessingResult {
    /// A copy of the bytes of the encoded image.
    pub fn to_byte(&self) -> (bytes: Vec<u8>)
        ensures
            bytes@ == self@,
    {
        let bytes = self.result.clone();
        assert(bytes@ =~= self.result@);
        bytes
    }

    /// The bytes of the encoded image as base64 text.
    pub fn to_base64(&self) -> (text: String)
        ensures
            text@ == base64_encoded(self@),
    {
        base64_encode(&self.result)
    }

    pub fn new(result: Vec<u8>) -> (wrapped: ImageProcessingResult)
        ensures
            wrapped@ == result@,
    {
        ImageProcessingResult { result }
    }
}

/// The width and the height of an image, in pixels.
pub struct ImageDimension {
    width: usize,
    height: usize,
}

impl ImageDimension {
    pub closed spec fn spec_width(&self) -> usize {
        self.width
    }

    pub closed spec fn spec_height(&self) -> usize {
        self.height
    }

    pub fn new(width: u32, height: u32) -> (dimension: ImageDimension)
        ensures
            dimension.spec_width() == width,
            dimension.spec_height() == height,
    {
        ImageDimension { width: width as usize, height: height as usize }
    }

    #[verifier::when_used_as_spec(spec_width)]
    pub fn get_width(&self) -> (width: usize)
        ensures
            width == self.spec_width(),
    {
        self.width
    }

    #[verifier::when_used_as_spec(spec_height)]
    pub fn get_height(&self) -> (height: usize)
        ensures
            height == self.spec_height(),
    {
        self.height
    }
}

} // verus!
