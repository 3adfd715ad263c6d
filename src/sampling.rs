//! Settings and pixel order of the per-pixel sampling driver.
//!
//! Pixels are rendered independently and may be computed in any order, but the image
//! is written row by row, starting from the top row (the largest vertical coordinate)
//! and going left to right within a row. Position `k` of the output holds pixel
//! `(k % width, height - 1 - k / width)`.
use vstd::arithmetic::div_mod::{
    lemma_div_is_ordered,
    lemma_fundamental_div_mod,
    lemma_fundamental_div_mod_converse,
};
use vstd::prelude::*;

verus! {

/// The positive integers that a render needs.
#[derive(Debug, Clone, Copy, PartialEq, Eq, Structural)]
pub struct RenderSettings {
    pub image_width: u64,
    pub image_height: u64,
    pub samples_per_pixel: u64,
    pub max_depth: u64,
}

/// Which setting was not a positive integer.
#[derive(Debug, Clone, Copy, PartialEq, Eq, Structural)]
pub enum SettingsError {
    ZeroWidth,
    ZeroHeight,
    ZeroSamples,
    ZeroDepth,
}

impl RenderSettings {
    /// Every setting is positive.
    pub open spec fn wf(&self) -> bool {
        &&& self.image_width > 0
        &&& self.image_height > 0
        &&& self.samples_per_pixel > 0
        &&& self.max_depth > 0
    }

    /// Checks the settings of a render; the first zero among width, height, samples and
    /// depth, in that order, is reported.
    pub fn new(image_width: u64, image_height: u64, samples_per_pixel: u64, max_depth: u64) -> (r:
        Result<RenderSettings, SettingsError>)
        ensures
            r is Ok <==> image_width > 0 && image_height > 0 && samples_per_pixel > 0
                && max_depth > 0,
            r is Ok ==> r->Ok_0.wf() && r->Ok_0 == (RenderSettings {
                image_width,
                image_height,
                samples_per_pixel,
                max_depth,
            }),
            r == Err::<RenderSettings, SettingsError>(SettingsError::ZeroWidth) <==> image_width
                == 0,
            r == Err::<RenderSettings, SettingsError>(SettingsError::ZeroHeight) <==> image_width
                > 0 && image_height == 0,
            r == Err::<RenderSettings, SettingsError>(SettingsError::ZeroSamples) <==> image_width
                > 0 && image_height > 0 && samples_per_pixel == 0,
            r == Err::<RenderSettings, SettingsError>(SettingsError::ZeroDepth) <==> image_width
                > 0 && image_height > 0 && samples_per_pixel > 0 && max_depth == 0,
    {
        if image_width == 0 {
            Err(SettingsError::ZeroWidth)
        } else if image_height == 0 {
            Err(SettingsError::ZeroHeight)
        } else if samples_per_pixel == 0 {
            Err(SettingsError::ZeroSamples)
        } else if max_depth == 0 {
            Err(SettingsError::ZeroDepth)
        } else {
            Ok(RenderSettings { image_width, image_height, samples_per_pixel, max_depth })
        }
    }
}

/// Column of the pixel at output position `k` of an image `width` pixels wide.
pub open spec fn column_of(width: nat, k: nat) -> nat {
    k % width
}

/// Row of the pixel at output position `k`; rows are numbered from the bottom.
pub open spec fn row_of(width: nat, height: nat, k: nat) -> int {
    height - 1 - k / width
}

/// The pixel `(column, row)` at output position `k`.
pub fn pixel_at(width: u64, height: u64, k: u64) -> (p: (u64, u64))
    requires
        k < width * height,
    ensures
        p.0 == column_of(width as nat, k as nat),
        p.1 == row_of(width as nat, height as nat, k as nat),
        p.0 < width,
        p.1 < height,
{
    assert(width > 0) by (nonlinear_arith)
        requires
            k < width * height,
    ;
    assert(k / width < height) by (nonlinear_arith)
        requires
            k < width * height,
            width > 0,
    ;
    (k % width, height - 1 - k / width)
}

/// The pixels of a `width` by `height` image in output order: rows from the top down,
/// each row left to right.
pub fn pixel_order(width: u64, height: u64) -> (v: Vec<(u64, u64)>)
    requires
        width * height <= usize::MAX,
    ensures
        v@.len() == width * height,
        forall|k: int|
            0 <= k < v@.len() ==> #[trigger] v@[k] == (
                column_of(width as nat, k as nat) as u64,
                row_of(width as nat, height as nat, k as nat) as u64,
            ),
{
    let mut v: Vec<(u64, u64)> = Vec::new();
    let total: u64 = width * height;
    let mut k: u64 = 0;
    while k < total
        invariant
            total == width * height,
            total <= usize::MAX,
            k <= total,
            v@.len() == k,
            forall|m: int|
                0 <= m < k ==> #[trigger] v@[m] == (
                    column_of(width as nat, m as nat) as u64,
                    row_of(width as nat, height as nat, m as nat) as u64,
                ),
        decreases total - k,
    {
        let p = pixel_at(width, height, k);
        v.push(p);
        k = k + 1;
    }
    v
}

/// The output runs row by row from the top down, and left to right within a row: of
/// two output positions, the earlier one lies in a higher row, or in the same row
/// further left.
pub proof fn lemma_output_order(width: nat, height: nat, k1: nat, k2: nat)
    requires
        k1 < k2 < width * height,
    ensures
        row_of(width, height, k1) > row_of(width, height, k2) || (row_of(width, height, k1)
            == row_of(width, height, k2) && column_of(width, k1) < column_of(width, k2)),
{
    assert(width > 0) by (nonlinear_arith)
        requires
            k2 < width * height,
    ;
    lemma_div_is_ordered(k1 as int, k2 as int, width as int);
    lemma_fundamental_div_mod(k1 as int, width as int);
    lemma_fundamental_div_mod(k2 as int, width as int);
}

/// Every pixel of the image has exactly one output position: `(column, row)` stands at
/// position `(height - 1 - row) * width + column`, and nowhere else.
pub proof fn lemma_each_pixel_once(width: nat, height: nat, column: nat, row: nat, k: nat)
    requires
        column < width,
        row < height,
    ensures
        ({
            let at = ((height - 1 - row) * width + column) as nat;
            &&& at < width * height
            &&& column_of(width, at) == column
            &&& row_of(width, height, at) == row
            &&& (k < width * height && column_of(width, k) == column && row_of(width, height, k)
                == row) ==> k == at
        }),
{
    let at = ((height - 1 - row) * width + column) as nat;
    let q = (height - 1 - row) as int;
    assert(at < width * height) by (nonlinear_arith)
        requires
            at == q * width + column,
            0 <= q <= height - 1,
            column < width,
    ;
    lemma_fundamental_div_mod_converse(at as int, width as int, q, column as int);
    if k < width * height && column_of(width, k) == column && row_of(width, height, k) == row {
        lemma_fundamental_div_mod(k as int, width as int);
        assert(k as int / width as int == q);
        assert(width * q == q * width) by (nonlinear_arith);
    }
}

} // verus!
