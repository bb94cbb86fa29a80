//! Native backend of a desktop clipboard tool: a greeting command and an
//! image loader that turns the bytes of an image file into RGBA8 pixels.

mod codec;
pub mod greeting;
pub mod loader;

pub use greeting::greet;
pub use loader::{decode_image, load_image, rgba_image, DecodedImage, LoadError};
