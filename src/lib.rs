//! Pastel palette extraction: dominant colors of an image, their tone
//! variations, a pastel softening toward white, and the state of the
//! interactive session that drives them.

pub mod color;
pub mod palette;
pub mod session;
