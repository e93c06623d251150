//! Sparkle placement and phases, and the compositing of the animation frames.
use vstd::prelude::*;
use crate::Error;
use image::AnimationDecoder;
use crate::canvas::{Canvas, overlay_keeps_and_replaces, overlay_of, pixel_at};
use crate::outline::{outline, outlined};

verus! {

/// Number of sparkle slots on a wide canvas.
pub const NUM_SPARKLES: usize = 3;

/// Canvases narrower than this carry a single sparkle.
pub const CROWDED_WIDTH: u32 = 200;

/// Margin taken off the canvas size before sparkles are placed.
pub const SPARKLE_MARGIN: u32 = 32;

/// Display time of each frame, in milliseconds.
pub const FRAME_DELAY_MS: u32 = 30;

/// A canvas as its width, height and pixel bytes.
pub type Sprite = (u32, u32, Seq<u8>);

/// The plain content of a canvas.
pub open spec fn sprite(c: Canvas) -> Sprite {
    (c.width, c.height, c.pixels@)
}

/// Top-left corner of a sparkle slot on a canvas whose interior (size less
/// the margin) is `w` by `h`.
pub open spec fn position_of(w: int, h: int, slot: int) -> (int, int) {
    if slot == 0 {
        (10, 10)
    } else if slot == 1 {
        (w - 42, h - 42)
    } else {
        (w / 3, 2 * h / 3)
    }
}

/// Phase offset of a sparkle slot into an asset of `n` frames.
pub open spec fn phase_of(n: int, slot: int) -> int {
    if slot == 0 {
        0
    } else if slot == 1 {
        n / 3
    } else {
        n - n / 11
    }
}

/// Number of sparkle slots in use on a canvas of the given width.
pub open spec fn slot_count(width: int) -> nat {
    if width < CROWDED_WIDTH {
        1
    } else {
        NUM_SPARKLES as nat
    }
}

/// Asset frame shown at output frame `i` by a slot with the given phase.
pub open spec fn tick(i: int, phase: int, n: int) -> int {
    (i + phase) % n
}

/// Pixels of output frame `i` once the first `k` slots are composited onto
/// the base canvas of size `w` by `h`.
pub open spec fn frame_pixels(
    base: Seq<u8>,
    w: u32,
    h: u32,
    sprites: Seq<Sprite>,
    i: int,
    k: nat,
) -> Seq<u8>
    decreases k,
{
    if k == 0 {
        base
    } else {
        let n = sprites.len() as int;
        let s = sprites[tick(i, phase_of(n, k - 1), n)];
        let p = position_of(w - SPARKLE_MARGIN, h - SPARKLE_MARGIN, k - 1);
        overlay_of(
            w as nat,
            h as nat,
            frame_pixels(base, w, h, sprites, i, (k - 1) as nat),
            s.0 as nat,
            s.1 as nat,
            s.2,
            p.0,
            p.1,
        )
    }
}

/// Pixel `(bx, by)` lies under the sprite that slot `s` shows in output
/// frame `i`, on a canvas of size `w` by `h`.
pub open spec fn under_slot(bx: int, by: int, w: u32, h: u32, sprites: Seq<Sprite>, i: int, s: int) -> bool {
    let n = sprites.len() as int;
    let sp = sprites[tick(i, phase_of(n, s), n)];
    let p = position_of(w - SPARKLE_MARGIN, h - SPARKLE_MARGIN, s);
    p.0 <= bx < p.0 + sp.0 && p.1 <= by < p.1 + sp.1
}

/// Every pixel of `px` that no sprite of the first `k` slots covers in
/// output frame `i` is the pixel of `base`.
pub open spec fn only_slots_change(
    px: Seq<u8>,
    base: Seq<u8>,
    w: u32,
    h: u32,
    sprites: Seq<Sprite>,
    i: int,
    k: int,
) -> bool {
    forall|bx: int, by: int|
        0 <= bx < w && 0 <= by < h && (forall|s: int|
            0 <= s < k ==> !#[trigger] under_slot(bx, by, w, h, sprites, i, s)) ==> #[trigger] pixel_at(
            px,
            w as int,
            bx,
            by,
        ) == pixel_at(base, w as int, bx, by)
}

/// One timed frame of the animation.
pub struct Frame {
    pub canvas: Canvas,
    /// How long the frame is shown, in milliseconds.
    pub delay_ms: u32,
    /// Placement of the frame in the animation's box; always the origin.
    pub left: u32,
    pub top: u32,
}

/// `frames` is the animation of sparkles `sprites` over a base canvas with
/// pixels `base`, of size `w` by `h`.
pub open spec fn is_animation(frames: Seq<Frame>, base: Seq<u8>, w: u32, h: u32, sprites: Seq<Sprite>) -> bool {
    &&& frames.len() == sprites.len()
    &&& forall|i: int|
        0 <= i < frames.len() ==> {
            &&& (#[trigger] frames[i]).canvas.wf()
            &&& frames[i].canvas.width == w
            &&& frames[i].canvas.height == h
            &&& frames[i].canvas.pixels@ == frame_pixels(base, w, h, sprites, i, slot_count(w as int))
            &&& only_slots_change(frames[i].canvas.pixels@, base, w, h, sprites, i, slot_count(w as int) as int)
            &&& frames[i].delay_ms == FRAME_DELAY_MS
            &&& frames[i].left == 0
            &&& frames[i].top == 0
        }
}

/// Top-left corners of the sparkle slots, for a canvas interior of `w` by `h`.
pub fn sparkle_positions(w: u32, h: u32) -> (r: [(i64, i64); 3])
    ensures
        forall|s: int| 0 <= s < 3 ==> r@[s].0 == position_of(w as int, h as int, s).0 && r@[s].1 == position_of(w as int, h as int, s).1,
{
    let w = w as i64;
    let h = h as i64;
    [(10, 10), (w - 42, h - 42), (w / 3, 2 * h / 3)]
}

/// Phase offsets of the sparkle slots into an asset of `num_frames` frames.
pub fn sparkle_phases(num_frames: usize) -> (r: [usize; 3])
    ensures
        forall|s: int| 0 <= s < 3 ==> r@[s] == phase_of(num_frames as int, s),
{
    [0, num_frames / 3, num_frames - num_frames / 11]
}

/// The frames that image's GIF decoder makes of `data`, each as a sprite,
/// or `None` where it refuses the data.
pub uninterp spec fn gif_frames_of(data: Seq<u8>) -> Option<Seq<Sprite>>;

/// Relies on `image::codecs::gif::GifDecoder` and
/// `AnimationDecoder::collect_frames`: decoding depends on the bytes alone,
/// each decoded frame is an RGBA buffer of four bytes per pixel, and all of
/// them have the size of the GIF's logical screen.
#[verifier::external_body]
fn decode_gif(data: &[u8]) -> (r: Result<Vec<Canvas>, image::ImageError>)
    ensures
        r is Ok <==> gif_frames_of(data@) is Some,
        r matches Ok(v) ==> {
            &&& forall|i: int| 0 <= i < v@.len() ==> (#[trigger] v@[i]).wf()
            &&& v@.map_values(|c: Canvas| sprite(c)) == gif_frames_of(data@)->Some_0
            &&& forall|i: int|
                0 <= i < v@.len() ==> (#[trigger] v@[i]).width == v@[0].width && v@[i].height
                    == v@[0].height
        },
{
    let decoder = image::codecs::gif::GifDecoder::new(std::io::Cursor::new(data))?;
    let frames = decoder.into_frames().collect_frames()?;
    Ok(frames.into_iter().map(|f| {
        let b = f.into_buffer();
        Canvas { width: b.width(), height: b.height(), pixels: b.into_raw() }
    }).collect())
}

/// Decodes the sparkle asset, a GIF, into its frames in order, all of one
/// size.
pub fn sparkle_frames(data: &[u8]) -> (r: Result<Vec<Canvas>, Error>)
    ensures
        r is Ok <==> gif_frames_of(data@) is Some,
        r is Err ==> r->Err_0 is Image,
        r matches Ok(v) ==> {
            &&& forall|i: int| 0 <= i < v@.len() ==> (#[trigger] v@[i]).wf()
            &&& v@.map_values(|c: Canvas| sprite(c)) == gif_frames_of(data@)->Some_0
            &&& forall|i: int|
                0 <= i < v@.len() ==> (#[trigger] v@[i]).width == v@[0].width && v@[i].height
                    == v@[0].height
        },
{
    match decode_gif(data) {
        Ok(v) => Ok(v),
        Err(e) => Err(Error::Image(e)),
    }
}

/// Composites the sparkle frames `sparkles` over `base`: one output frame per
/// sparkle frame, each a copy of `base` with every slot in use drawn in slot
/// order, slot `s` showing sparkle frame `(i + phase) % n` at its position.
pub fn animate(base: &Canvas, sparkles: &Vec<Canvas>) -> (r: Vec<Frame>)
    requires
        base.wf(),
        base.width >= SPARKLE_MARGIN,
        base.height >= SPARKLE_MARGIN,
        forall|i: int| 0 <= i < sparkles@.len() ==> (#[trigger] sparkles@[i]).wf(),
    ensures
        is_animation(
            r@,
            base.pixels@,
            base.width,
            base.height,
            sparkles@.map_values(|c: Canvas| sprite(c)),
        ),
{
    let ghost sprites = sparkles@.map_values(|c: Canvas| sprite(c));
    let n = sparkles.len();
    let positions = sparkle_positions(base.width - SPARKLE_MARGIN, base.height - SPARKLE_MARGIN);
    let phases = sparkle_phases(n);
    let count: usize = if base.width < CROWDED_WIDTH {
        1
    } else {
        NUM_SPARKLES
    };
    let mut frames: Vec<Frame> = Vec::new();
    let mut i: usize = 0;
    while i < n
        invariant
            i <= n,
            n == sparkles@.len(),
            sprites == sparkles@.map_values(|c: Canvas| sprite(c)),
            base.wf(),
            forall|j: int| 0 <= j < sparkles@.len() ==> (#[trigger] sparkles@[j]).wf(),
            count == slot_count(base.width as int),
            forall|s: int| 0 <= s < 3 ==> positions@[s].0 == position_of(base.width - SPARKLE_MARGIN, base.height - SPARKLE_MARGIN, s).0 && positions@[s].1 == position_of(base.width - SPARKLE_MARGIN, base.height - SPARKLE_MARGIN, s).1,
            forall|s: int| 0 <= s < 3 ==> phases@[s] == phase_of(n as int, s),
            frames@.len() == i,
            forall|j: int|
                0 <= j < i ==> {
                    &&& (#[trigger] frames@[j]).canvas.wf()
                    &&& frames@[j].canvas.width == base.width
                    &&& frames@[j].canvas.height == base.height
                    &&& frames@[j].canvas.pixels@ == frame_pixels(base.pixels@, base.width, base.height, sprites, j, slot_count(base.width as int))
                    &&& only_slots_change(frames@[j].canvas.pixels@, base.pixels@, base.width, base.height, sprites, j, slot_count(base.width as int) as int)
                    &&& frames@[j].delay_ms == FRAME_DELAY_MS
                    &&& frames@[j].left == 0
                    &&& frames@[j].top == 0
                },
        decreases n - i,
    {
        let mut frame = base.duplicate();
        let mut k: usize = 0;
        assert(only_slots_change(frame.pixels@, base.pixels@, base.width, base.height, sprites, i as int, 0));
        while k < count
            invariant
                i < n,
                n == sparkles@.len(),
                sprites == sparkles@.map_values(|c: Canvas| sprite(c)),
                k <= count,
                count <= 3,
                forall|j: int| 0 <= j < sparkles@.len() ==> (#[trigger] sparkles@[j]).wf(),
                forall|s: int| 0 <= s < 3 ==> positions@[s].0 == position_of(base.width - SPARKLE_MARGIN, base.height - SPARKLE_MARGIN, s).0 && positions@[s].1 == position_of(base.width - SPARKLE_MARGIN, base.height - SPARKLE_MARGIN, s).1,
                forall|s: int| 0 <= s < 3 ==> phases@[s] == phase_of(n as int, s),
                frame.wf(),
                frame.width == base.width,
                frame.height == base.height,
                frame.pixels@ == frame_pixels(base.pixels@, base.width, base.height, sprites, i as int, k as nat),
                only_slots_change(frame.pixels@, base.pixels@, base.width, base.height, sprites, i as int, k as int),
            decreases count - k,
        {
            let (x, y) = positions[k];
            let phase = phases[k];
            let t = ((i as u128 + phase as u128) % (n as u128)) as usize;
            assert(t == tick(i as int, phase_of(n as int, k as int), n as int));
            let ghost before = frame.pixels@;
            frame.overlay(&sparkles[t], x, y);
            assert(sprites[t as int] == sprite(sparkles@[t as int]));
            assert forall|bx: int, by: int|
                0 <= bx < base.width && 0 <= by < base.height && (forall|s: int|
                    0 <= s < k + 1 ==> !#[trigger] under_slot(bx, by, base.width, base.height, sprites, i as int, s))
                implies #[trigger] pixel_at(frame.pixels@, base.width as int, bx, by)
                == pixel_at(base.pixels@, base.width as int, bx, by) by {
                assert(!under_slot(bx, by, base.width, base.height, sprites, i as int, k as int));
                assert(pixel_at(before, base.width as int, bx, by) == pixel_at(base.pixels@, base.width as int, bx, by));
            }
            k = k + 1;
        }
        frames.push(Frame { canvas: frame, delay_ms: FRAME_DELAY_MS, left: 0, top: 0 });
        i = i + 1;
    }
    frames
}

/// Finishes a rendering from the rasterized text canvas and a blurred copy
/// of it: outlines the text, decodes the sparkle asset from `sparkle_data`
/// and composites the animation, one frame per sparkle frame.
pub fn render(text: &Canvas, blurred: Canvas, sparkle_data: &[u8]) -> (r: Result<Vec<Frame>, Error>)
    requires
        text.wf(),
        blurred.wf(),
        blurred.width == text.width,
        blurred.height == text.height,
        text.width >= SPARKLE_MARGIN,
        text.height >= SPARKLE_MARGIN,
    ensures
        r is Ok <==> gif_frames_of(sparkle_data@) is Some,
        r is Err ==> r->Err_0 is Image,
        r matches Ok(v) ==> is_animation(
            v@,
            outlined(text.pixels@, blurred.pixels@, text.width, text.height),
            text.width,
            text.height,
            gif_frames_of(sparkle_data@)->Some_0,
        ),
{
    let img = outline(text, blurred);
    let sparkles = sparkle_frames(sparkle_data)?;
    Ok(animate(&img, &sparkles))
}

/// Rendering is deterministic: two animations of the same sparkles over
/// the same base canvas agree frame by frame, pixel by pixel.
pub proof fn animation_is_deterministic(
    a: Seq<Frame>,
    b: Seq<Frame>,
    base: Seq<u8>,
    w: u32,
    h: u32,
    sprites: Seq<Sprite>,
)
    requires
        is_animation(a, base, w, h, sprites),
        is_animation(b, base, w, h, sprites),
    ensures
        a.len() == b.len(),
        forall|i: int|
            0 <= i < a.len() ==> {
                &&& (#[trigger] a[i]).canvas.width == b[i].canvas.width
                &&& a[i].canvas.height == b[i].canvas.height
                &&& a[i].canvas.pixels@ == b[i].canvas.pixels@
                &&& a[i].delay_ms == b[i].delay_ms
            },
{
    assert forall|i: int| 0 <= i < a.len() implies {
        &&& (#[trigger] a[i]).canvas.width == b[i].canvas.width
        &&& a[i].canvas.height == b[i].canvas.height
        &&& a[i].canvas.pixels@ == b[i].canvas.pixels@
        &&& a[i].delay_ms == b[i].delay_ms
    } by {
        assert(b[i].canvas.width == w);
    }
}

/// Canvases narrower than 200 pixels carry one sparkle, wider ones three;
/// with at least 11 sparkle frames the three phases are pairwise distinct
/// modulo the number of frames.
pub proof fn sparkle_count_policy(width: u32, n: int)
    ensures
        width < 200 ==> slot_count(width as int) == 1,
        width >= 200 ==> slot_count(width as int) == 3,
        n >= 11 ==> {
            &&& phase_of(n, 0) % n != phase_of(n, 1) % n
            &&& phase_of(n, 0) % n != phase_of(n, 2) % n
            &&& phase_of(n, 1) % n != phase_of(n, 2) % n
        },
{
    if n >= 11 {
        assert(0 < n / 3 < n) by (nonlinear_arith)
            requires
                n >= 11,
        ;
        assert(0 < n / 11 && n / 3 < n - n / 11 && n - n / 11 < n) by (nonlinear_arith)
            requires
                n >= 11,
        ;
        vstd::arithmetic::div_mod::lemma_small_mod(0, n as nat);
        vstd::arithmetic::div_mod::lemma_small_mod((n / 3) as nat, n as nat);
        vstd::arithmetic::div_mod::lemma_small_mod((n - n / 11) as nat, n as nat);
    }
}

/// The loop is seamless: for every slot, the sparkle frame shown at the
/// last output frame is the one just before the frame shown at the first.
pub proof fn seamless_loop(n: int, slot: int)
    requires
        n > 0,
    ensures
        (tick(n - 1, phase_of(n, slot), n) + 1) % n == tick(0, phase_of(n, slot), n),
{
    let p = phase_of(n, slot);
    vstd::arithmetic::div_mod::lemma_add_mod_noop_right(1, n - 1 + p, n);
    vstd::arithmetic::div_mod::lemma_mod_add_multiples_vanish(p, n);
    assert(n - 1 + p + 1 == n + p);
}

} // verus!
