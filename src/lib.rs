//! Pixel-art stylization: nearest-neighbour resampling, perceptual colour
//! distance, palette quantization and the pipeline that composes them.

pub mod pixel;
pub mod resample;
pub mod metric;
pub mod palette;
pub mod quantize;
pub mod pipeline;
pub mod codec;
