//! The glow outline drawn around rasterized text.
use vstd::prelude::*;
use crate::canvas::{Canvas, overlay_keeps_and_replaces, overlay_of, inverted};

verus! {

/// Pixels of the outlined canvas: the original text over the inverted copy
/// of its blurred version.
pub open spec fn outlined(text: Seq<u8>, blurred: Seq<u8>, width: u32, height: u32) -> Seq<u8> {
    overlay_of(
        width as nat,
        height as nat,
        inverted(blurred),
        width as nat,
        height as nat,
        text,
        0,
        0,
    )
}

/// Outlines `text` given `blurred`, a blurred copy of it: the copy is
/// inverted and the original is laid over it at the origin, so opaque text
/// pixels stay as they are and transparent ones show the inverted halo.
pub fn outline(text: &Canvas, blurred: Canvas) -> (r: Canvas)
    requires
        text.wf(),
        blurred.wf(),
        blurred.width == text.width,
        blurred.height == text.height,
    ensures
        r.wf(),
        r.width == text.width,
        r.height == text.height,
        r.pixels@ == outlined(text.pixels@, blurred.pixels@, text.width, text.height),
        overlay_keeps_and_replaces(
            inverted(blurred.pixels@),
            r.pixels@,
            text.width as int,
            text.height as int,
            text.pixels@,
            text.width as int,
            text.height as int,
            0,
            0,
        ),
{
    let mut bg = blurred;
    bg.invert();
    bg.overlay(text, 0, 0);
    bg
}

} // verus!
