pub mod adapter;
pub mod buffer;
pub mod codec;
pub mod format;

pub use buffer::Image;
pub use format::EncodeTarget;
pub use format::PixelFormat;
pub use format::PngError;
