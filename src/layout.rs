//! Line wrapping and the placement of wrapped lines on a padded canvas.
use vstd::prelude::*;
use crate::Error;
use crate::text::{chars_of, is_blank, is_space, is_white_space};

verus! {

/// Border left free on every side of the text, in pixels.
pub const PADDING: u32 = 24;

/// Column at which text is wrapped, in characters.
pub const WRAP_COL: usize = 15;

/// The lines that `textwrap::wrap` makes of `text` at the given column.
pub uninterp spec fn wrap_of(text: Seq<char>, width: nat) -> Seq<Seq<char>>;

/// Relies on `textwrap::wrap` with a plain column width; each line is copied
/// into a `String` of its own.
#[verifier::external_body]
fn wrap_lines(text: &str, width: usize) -> (r: Vec<String>)
    ensures
        r@.map_values(|l: String| l@) == wrap_of(text@, width as nat),
{
    textwrap::wrap(text, width).into_iter().map(|l| l.into_owned()).collect()
}

/// Splits `text` into the lines to draw, wrapped at `WRAP_COL` characters.
/// Text made of whitespace alone (the empty text included) is refused.
pub fn wrap_text(text: &str) -> (r: Result<Vec<String>, Error>)
    ensures
        is_blank(text@) <==> r is Err,
        r is Err ==> r->Err_0 is NotEnoughText,
        r matches Ok(lines) ==> lines@.map_values(|l: String| l@) == wrap_of(
            text@,
            WRAP_COL as nat,
        ),
{
    let chars = chars_of(text);
    let mut k: usize = 0;
    while k < chars.len()
        invariant
            chars@ == text@,
            k <= chars@.len(),
            forall|j: int| 0 <= j < k ==> is_white_space(#[trigger] chars@[j]),
        decreases chars@.len() - k,
    {
        if !is_space(chars[k]) {
            return Ok(wrap_lines(text, WRAP_COL));
        }
        k = k + 1;
    }
    Err(Error::NotEnoughText)
}

/// Widest of the measured line widths, 0 for no lines.
pub open spec fn max_width(sizes: Seq<(u32, u32)>) -> int
    decreases sizes.len(),
{
    if sizes.len() == 0 {
        0
    } else {
        let m = max_width(sizes.drop_last());
        let w = sizes.last().0 as int;
        if w > m {
            w
        } else {
            m
        }
    }
}

/// Sum of the measured line heights.
pub open spec fn total_height(sizes: Seq<(u32, u32)>) -> int
    decreases sizes.len(),
{
    if sizes.len() == 0 {
        0
    } else {
        total_height(sizes.drop_last()) + sizes.last().1 as int
    }
}

/// The padded canvas for these line sizes has dimensions that fit in `u32`.
pub open spec fn layout_fits(sizes: Seq<(u32, u32)>) -> bool {
    max_width(sizes) + 2 * PADDING <= u32::MAX && total_height(sizes) + 2 * PADDING <= u32::MAX
}

/// A prefix is no wider and no taller than the whole.
proof fn lemma_prefix_bounded(s: Seq<(u32, u32)>, k: int)
    requires
        0 <= k <= s.len(),
    ensures
        max_width(s.take(k)) <= max_width(s),
        total_height(s.take(k)) <= total_height(s),
        0 <= max_width(s.take(k)),
        0 <= total_height(s.take(k)),
    decreases s.len(),
{
    if k < s.len() {
        assert(s.drop_last().take(k) =~= s.take(k));
        lemma_prefix_bounded(s.drop_last(), k);
    } else {
        assert(s.take(k) =~= s);
        if s.len() > 0 {
            lemma_prefix_bounded(s.drop_last(), s.len() - 1);
            assert(s.drop_last().take(s.len() - 1) =~= s.drop_last());
        }
    }
}

/// Where the wrapped lines go on the text canvas.
pub struct TextLayout {
    /// Width of the padded canvas.
    pub width: u32,
    /// Height of the padded canvas.
    pub height: u32,
    /// Horizontal offset shared by all lines.
    pub left: u32,
    /// Vertical offset of each line, top to bottom.
    pub rows: Vec<u32>,
}

/// Tells whether `text_layout` can place lines of these sizes.
pub fn layout_fits_u32(sizes: &Vec<(u32, u32)>) -> (r: bool)
    ensures
        r == layout_fits(sizes@),
{
    let limit: u64 = (u32::MAX - 2 * PADDING) as u64;
    let mut w: u64 = 0;
    let mut h: u64 = 0;
    let mut k: usize = 0;
    while k < sizes.len()
        invariant
            k <= sizes@.len(),
            limit == u32::MAX - 2 * PADDING,
            w == max_width(sizes@.take(k as int)),
            h == total_height(sizes@.take(k as int)),
            h <= limit,
        decreases sizes@.len() - k,
    {
        assert(sizes@.take(k + 1).drop_last() =~= sizes@.take(k as int));
        let (sw, sh) = sizes[k];
        if sw as u64 > w {
            w = sw as u64;
        }
        h = h + sh as u64;
        if h > limit {
            proof {
                lemma_prefix_bounded(sizes@, k + 1);
            }
            return false;
        }
        k = k + 1;
    }
    assert(sizes@.take(k as int) =~= sizes@);
    w <= limit
}

/// Sizes the canvas for lines of the given measured `(width, height)` and
/// places them: left-aligned at the padding, each line below the one before
/// it by that line's height.
pub fn text_layout(sizes: &Vec<(u32, u32)>) -> (r: Result<TextLayout, Error>)
    requires
        layout_fits(sizes@),
    ensures
        sizes@.len() == 0 <==> r is Err,
        r is Err ==> r->Err_0 is NotEnoughText,
        r matches Ok(l) ==> {
            &&& l.width == max_width(sizes@) + 2 * PADDING
            &&& l.height == total_height(sizes@) + 2 * PADDING
            &&& l.left == PADDING
            &&& l.rows@.len() == sizes@.len()
            &&& forall|k: int|
                0 <= k < sizes@.len() ==> #[trigger] l.rows@[k] == PADDING + total_height(
                    sizes@.take(k),
                )
        },
{
    if sizes.len() == 0 {
        return Err(Error::NotEnoughText);
    }
    let mut w: u32 = 0;
    let mut h: u32 = 0;
    let mut rows: Vec<u32> = Vec::new();
    let mut k: usize = 0;
    while k < sizes.len()
        invariant
            layout_fits(sizes@),
            k <= sizes@.len(),
            w == max_width(sizes@.take(k as int)),
            h == total_height(sizes@.take(k as int)),
            rows@.len() == k,
            forall|j: int| 0 <= j < k ==> #[trigger] rows@[j] == PADDING + total_height(sizes@.take(j)),
        decreases sizes@.len() - k,
    {
        assert(sizes@.take(k + 1).drop_last() =~= sizes@.take(k as int));
        proof {
            lemma_prefix_bounded(sizes@, k + 1);
        }
        let (sw, sh) = sizes[k];
        rows.push(PADDING + h);
        if sw > w {
            w = sw;
        }
        h = h + sh;
        k = k + 1;
    }
    assert(sizes@.take(k as int) =~= sizes@);
    Ok(TextLayout { width: w + 2 * PADDING, height: h + 2 * PADDING, left: PADDING, rows })
}

} // verus!
