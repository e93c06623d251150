//! Turns a short text into a looping sparkle animation: line layout, an
//! outline effect and a sparkle compositor, over plain RGBA canvases.
use vstd::prelude::*;

pub mod canvas;
pub mod layout;
pub mod outline;
pub mod sparkle;
pub mod text;

pub use sparkle::{render, sparkle_phases, sparkle_positions};
pub use text::normalize_text;

verus! {

#[verifier::external_type_specification]
#[verifier::external_body]
pub struct ExImageError(image::ImageError);

/// Why a rendering failed.
#[derive(Debug)]
pub enum Error {
    /// The font data could not be parsed.
    LoadFont,
    /// The text holds nothing to draw.
    NotEnoughText,
    /// The imaging library failed, e.g. on malformed sparkle data.
    Image(image::ImageError),
}

impl Error {
    /// A one-line description of the failure.
    pub fn message(&self) -> (r: &'static str)
        ensures
            self is LoadFont ==> r@ == "Failed to load font data."@,
            self is NotEnoughText ==> r@ == "Not enough text."@,
            self is Image ==> r@ == "Image operation failed."@,
    {
        match self {
            Error::LoadFont => "Failed to load font data.",
            Error::NotEnoughText => "Not enough text.",
            Error::Image(_) => "Image operation failed.",
        }
    }
}

} // verus!
