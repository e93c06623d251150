//! RGBA canvases and the pixel operations the pipeline composes them with.
use vstd::prelude::*;

verus! {

/// A rectangular grid of straight-alpha RGBA pixels, row by row from the
/// top-left corner, four bytes per pixel.
pub struct Canvas {
    pub width: u32,
    pub height: u32,
    pub pixels: Vec<u8>,
}

/// Number of bytes that a canvas of the given size holds.
pub open spec fn byte_len(width: int, height: int) -> int {
    4 * width * height
}

/// What `image::imageops::overlay` leaves in the bottom image: `top` blended
/// over `bottom` with its top-left corner at `(x, y)`, clipped to `bottom`.
pub uninterp spec fn overlay_of(
    bottom_width: nat,
    bottom_height: nat,
    bottom: Seq<u8>,
    top_width: nat,
    top_height: nat,
    top: Seq<u8>,
    x: int,
    y: int,
) -> Seq<u8>;

/// The four bytes of pixel `(x, y)` in a buffer `width` pixels wide.
pub open spec fn pixel_at(px: Seq<u8>, width: int, x: int, y: int) -> Seq<u8> {
    px.subrange(4 * (y * width + x), 4 * (y * width + x) + 4)
}

/// Straight-alpha overlay of `top` at `(x, y)` onto a `bw` by `bh` buffer
/// turned `before` into `after`: each pixel that no visible pixel of `top`
/// covers is kept, and each one that a fully opaque pixel of `top` covers is
/// replaced by it.
pub open spec fn overlay_keeps_and_replaces(
    before: Seq<u8>,
    after: Seq<u8>,
    bw: int,
    bh: int,
    top: Seq<u8>,
    tw: int,
    th: int,
    x: int,
    y: int,
) -> bool {
    forall|bx: int, by: int|
        0 <= bx < bw && 0 <= by < bh ==> {
            let tx = bx - x;
            let ty = by - y;
            let covered = 0 <= tx < tw && 0 <= ty < th;
            let alpha = top[4 * (ty * tw + tx) + 3];
            &&& (!covered || alpha == 0) ==> #[trigger] pixel_at(after, bw, bx, by) == pixel_at(
                before,
                bw,
                bx,
                by,
            )
            &&& (covered && alpha == 255) ==> pixel_at(after, bw, bx, by) == pixel_at(
                top,
                tw,
                tx,
                ty,
            )
        }
}

/// Every byte of a pixel buffer inverted, colour and alpha alike.
pub open spec fn inverted(px: Seq<u8>) -> Seq<u8> {
    Seq::new(px.len(), |k: int| (255 - px[k]) as u8)
}

impl Canvas {
    /// The pixel buffer holds exactly four bytes per pixel.
    pub open spec fn wf(&self) -> bool {
        self.pixels@.len() == byte_len(self.width as int, self.height as int)
    }

    /// Checks the buffer length against the dimensions.
    pub fn is_valid(&self) -> (r: bool)
        ensures
            r == self.wf(),
    {
        let w = self.width as u128;
        let h = self.height as u128;
        assert(w * h <= u32::MAX * u32::MAX) by (nonlinear_arith)
            requires
                w <= u32::MAX,
                h <= u32::MAX,
        ;
        assert(4 * (w * h) == byte_len(self.width as int, self.height as int)) by (nonlinear_arith)
            requires
                w == self.width,
                h == self.height,
        ;
        let n: u128 = 4 * (w * h);
        self.pixels.len() as u128 == n
    }

    /// A fully transparent canvas of the given size.
    pub fn new(width: u32, height: u32) -> (r: Canvas)
        requires
            byte_len(width as int, height as int) <= usize::MAX,
        ensures
            r.wf(),
            r.width == width,
            r.height == height,
            forall|k: int| 0 <= k < r.pixels@.len() ==> r.pixels@[k] == 0,
    {
        let w = width as u128;
        let h = height as u128;
        assert(w * h <= u32::MAX * u32::MAX) by (nonlinear_arith)
            requires
                w <= u32::MAX,
                h <= u32::MAX,
        ;
        assert(4 * (w * h) == byte_len(width as int, height as int)) by (nonlinear_arith)
            requires
                w == width,
                h == height,
        ;
        let n: usize = (4 * (w * h)) as usize;
        let mut pixels: Vec<u8> = Vec::new();
        while pixels.len() < n
            invariant
                pixels@.len() <= n,
                forall|k: int| 0 <= k < pixels@.len() ==> pixels@[k] == 0,
            decreases n - pixels@.len(),
        {
            pixels.push(0);
        }
        Canvas { width, height, pixels }
    }

    /// An independent copy of this canvas.
    pub fn duplicate(&self) -> (r: Canvas)
        ensures
            r.width == self.width,
            r.height == self.height,
            r.pixels@ == self.pixels@,
    {
        Canvas { width: self.width, height: self.height, pixels: self.pixels.clone() }
    }

    /// Inverts every channel of every pixel, alpha included.
    pub fn invert(&mut self)
        ensures
            final(self).width == old(self).width,
            final(self).height == old(self).height,
            final(self).pixels@ == inverted(old(self).pixels@),
    {
        let n = self.pixels.len();
        let mut k: usize = 0;
        while k < n
            invariant
                k <= n,
                n == old(self).pixels@.len(),
                self.width == old(self).width,
                self.height == old(self).height,
                self.pixels@.len() == n,
                forall|j: int|
                    0 <= j < k ==> self.pixels@[j] == inverted(old(self).pixels@)[j],
                forall|j: int| k <= j < n ==> self.pixels@[j] == old(self).pixels@[j],
            decreases n - k,
        {
            let v = self.pixels[k];
            self.pixels.set(k, 255 - v);
            k = k + 1;
        }
        assert(self.pixels@ =~= inverted(old(self).pixels@));
    }

    /// Blends `top` over this canvas with its top-left corner at `(x, y)`;
    /// what falls outside this canvas is dropped.
    pub fn overlay(&mut self, top: &Canvas, x: i64, y: i64)
        requires
            old(self).wf(),
            top.wf(),
        ensures
            final(self).width == old(self).width,
            final(self).height == old(self).height,
            final(self).wf(),
            final(self).pixels@ == overlay_of(
                old(self).width as nat,
                old(self).height as nat,
                old(self).pixels@,
                top.width as nat,
                top.height as nat,
                top.pixels@,
                x as int,
                y as int,
            ),
            overlay_keeps_and_replaces(
                old(self).pixels@,
                final(self).pixels@,
                old(self).width as int,
                old(self).height as int,
                top.pixels@,
                top.width as int,
                top.height as int,
                x as int,
                y as int,
            ),
    {
        blend_over(self, top, x, y)
    }
}

/// Relies on `image::imageops::overlay` on RGBA images: it blends `top` into
/// `bottom` pixel by pixel over the part where they meet and keeps `bottom`'s
/// dimensions and buffer size; `Rgba::blend` leaves a pixel as it is under a
/// top pixel of alpha 0 and replaces it by a top pixel of alpha 255.
#[verifier::external_body]
fn blend_over(bottom: &mut Canvas, top: &Canvas, x: i64, y: i64)
    requires
        old(bottom).wf(),
        top.wf(),
    ensures
        final(bottom).width == old(bottom).width,
        final(bottom).height == old(bottom).height,
        final(bottom).pixels@.len() == old(bottom).pixels@.len(),
        final(bottom).pixels@ == overlay_of(
            old(bottom).width as nat,
            old(bottom).height as nat,
            old(bottom).pixels@,
            top.width as nat,
            top.height as nat,
            top.pixels@,
            x as int,
            y as int,
        ),
        overlay_keeps_and_replaces(
            old(bottom).pixels@,
            final(bottom).pixels@,
            old(bottom).width as int,
            old(bottom).height as int,
            top.pixels@,
            top.width as int,
            top.height as int,
            x as int,
            y as int,
        ),
{
    let raw = std::mem::take(&mut bottom.pixels);
    let mut b = image::RgbaImage::from_raw(bottom.width, bottom.height, raw).unwrap();
    let t = image::ImageBuffer::<image::Rgba<u8>, &[u8]>::from_raw(
        top.width,
        top.height,
        top.pixels.as_slice(),
    ).unwrap();
    image::imageops::overlay(&mut b, &t, x, y);
    bottom.pixels = b.into_raw();
}

} // verus!
