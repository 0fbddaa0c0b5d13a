//! The engine: error codes, the pixel buffer, the filters and the processor.

pub mod bindings;
pub mod image_error;
pub mod image_filters;
pub mod image_processing;
pub mod image_processing_result;
pub mod pixel_buffer;

pub use image_error::ErrorCode;
pub use image_processing::{ImageParameters, ImageProcess};
pub use image_processing_result::{ImageDimension, ImageProcessingResult};
pub use pixel_buffer::{PixelBuffer, Raster};
