//! Storing a figure cropped from a cached PDF page: the pixel rectangle kept
//! inside the page image, the figure's number and file names, and where the
//! reading view finds it.
use vstd::prelude::*;

use crate::text::{chars_of, decimal, push_decimal, starts_with, ends_with, starts_with_chars, ends_with_chars, string_of};
use sha2::Digest;

verus! {

/// The handler of the figure-cropping tool.
#[derive(Debug, Default)]
pub struct CropFigureHandler;

/// A crop rectangle in pixels.
#[derive(Debug, Clone, Copy, PartialEq, Eq, Structural)]
pub struct PixelRect {
    pub x: u32,
    pub y: u32,
    pub w: u32,
    pub h: u32,
}

/// `a - b`, or 0 when `b` is larger.
pub open spec fn sat_sub(a: u32, b: u32) -> u32 {
    if a >= b {
        (a - b) as u32
    } else {
        0
    }
}

/// The smaller of two numbers.
pub open spec fn min_u32(a: u32, b: u32) -> u32 {
    if a <= b {
        a
    } else {
        b
    }
}

/// Keeps a crop rectangle inside an image of `img_w` by `img_h` pixels: its
/// corner on the image, its size within what is left of it.
pub fn clamp_crop(rect: PixelRect, img_w: u32, img_h: u32) -> (r: PixelRect)
    ensures
        r.x == min_u32(rect.x, sat_sub(img_w, 1)),
        r.y == min_u32(rect.y, sat_sub(img_h, 1)),
        r.w == min_u32(rect.w, sat_sub(img_w, r.x)),
        r.h == min_u32(rect.h, sat_sub(img_h, r.y)),
{
    let x = rect.x.min(img_w.saturating_sub(1));
    let y = rect.y.min(img_h.saturating_sub(1));
    let w = rect.w.min(img_w.saturating_sub(x));
    let h = rect.h.min(img_h.saturating_sub(y));
    PixelRect { x, y, w, h }
}

/// The zero-based index of a one-based page number (page 0 is read as the
/// first page).
pub fn page_index(page: u32) -> (r: u32)
    ensures
        r == sat_sub(page, 1),
{
    page.saturating_sub(1)
}

/// Whether a file name is a stored figure image.
pub open spec fn is_figure_image(name: Seq<char>) -> bool {
    starts_with(name, "fig-"@) && ends_with(name, ".png"@)
}

/// The number of stored figure images among the names.
pub open spec fn figure_count(names: Seq<Seq<char>>) -> nat
    decreases names.len(),
{
    if names.len() == 0 {
        0
    } else {
        figure_count(names.drop_last()) + if is_figure_image(names.last()) {
            1nat
        } else {
            0nat
        }
    }
}

/// The number of the next figure: one more than the figure images in the
/// folder (its entries' names).
pub fn next_figure_number(names: &[String]) -> (r: u32)
    requires
        names@.len() < u32::MAX,
    ensures
        r == figure_count(crate::text::string_views(names@)) + 1,
{
    let ghost nv = crate::text::string_views(names@);
    let prefix = chars_of("fig-");
    let suffix = chars_of(".png");
    let mut count: u32 = 0;
    let mut k: usize = 0;
    assert(nv.take(0) =~= Seq::<Seq<char>>::empty());
    while k < names.len()
        invariant
            k <= names@.len() < u32::MAX,
            nv == crate::text::string_views(names@),
            prefix@ == "fig-"@,
            suffix@ == ".png"@,
            count == figure_count(nv.take(k as int)),
            count <= k,
        decreases names@.len() - k,
    {
        assert(nv.take(k + 1).drop_last() =~= nv.take(k as int));
        assert(nv.take(k + 1).last() == names@[k as int]@);
        let v = chars_of(names[k].as_str());
        if starts_with_chars(v.as_slice(), prefix.as_slice()) && ends_with_chars(v.as_slice(), suffix.as_slice()) {
            count = count + 1;
        }
        k = k + 1;
    }
    assert(nv.take(names@.len() as int) =~= nv);
    count + 1
}

/// The image file of figure `n`.
pub fn figure_file_name(n: u32) -> (r: String)
    ensures
        r@ == "fig-"@ + decimal(n as nat) + ".png"@,
{
    let mut r = String::from_str("fig-");
    push_decimal(&mut r, n as u64);
    r.append(".png");
    r
}

/// The metadata file of figure `n`.
pub fn figure_sidecar_name(n: u32) -> (r: String)
    ensures
        r@ == "fig-"@ + decimal(n as nat) + ".json"@,
{
    let mut r = String::from_str("fig-");
    push_decimal(&mut r, n as u64);
    r.append(".json");
    r
}

/// Where the reading view finds a stored figure.
pub fn figure_asset_path(paper_hash: &str, file_name: &str) -> (r: String)
    ensures
        r@ == "/assets/"@ + paper_hash@ + seq!['/'] + file_name@,
{
    let mut r = String::from_str("/assets/");
    r.append(paper_hash);
    let ghost head = r@;
    crate::text::push_char(&mut r, '/');
    r.append(file_name);
    assert(r@ =~= head + seq!['/'] + file_name@);
    r
}

/// The SHA-256 digest of the UTF-8 bytes of `text`, as `sha2::Sha256`
/// computes it, in lowercase hex.
pub uninterp spec fn sha256_hex(text: Seq<char>) -> Seq<char>;

/// Hashes a string's UTF-8 bytes with `sha2::Sha256::digest` and writes the
/// 32-byte digest with `{:x}`, which generic-array renders as two lowercase
/// hex digits per byte: 64 characters.
#[verifier::external_body]
fn sha256_hex_of(text: &str) -> (r: String)
    ensures
        r@ == sha256_hex(text@),
        r@.len() == 64,
        forall|i: int| 0 <= i < 64 ==> ('0' <= #[trigger] r@[i] <= '9' || 'a' <= r@[i] <= 'f'),
{
    format!("{:x}", sha2::Sha256::digest(text.as_bytes()))
}

/// The directory name of a paper's figures: the first 16 hex digits of the
/// SHA-256 digest of its PDF's URL.
pub fn pdf_url_hash(pdf_url: &str) -> (r: String)
    ensures
        r@ == sha256_hex(pdf_url@).take(16),
{
    let hex = sha256_hex_of(pdf_url);
    let v = chars_of(hex.as_str());
    let mut head: Vec<char> = Vec::new();
    let mut i: usize = 0;
    while i < 16
        invariant
            i <= 16,
            v@.len() == 64,
            head@ == v@.take(i as int),
        decreases 16 - i,
    {
        head.push(v[i]);
        i = i + 1;
        assert(head@ =~= v@.take(i as int));
    }
    string_of(head.as_slice())
}

} // verus!
