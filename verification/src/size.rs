//! Sizes: the target pixel height of a request, the bitmap strikes of a face
//! and the choice among them, and the cell a selected size yields.

use vstd::prelude::*;

verus! {

/// Number of cell units in one pixel.
///
/// Cell extents are whole multiples of 2^-22 pixel: a length in 26.6
/// fixed-point font units scaled by a 16.16 fixed-point factor has 22
/// fractional bits, and that product is what the engine's metrics give.
pub const CELL_UNITS_PER_PIXEL: i128 = 4194304;

/// Number of cell units in one 26.6 fixed-point unit (1/64 pixel).
pub const CELL_UNITS_PER_26_6: i128 = 65536;

/// Number of target units in one pixel.
///
/// A point size in 26.6 fixed point times a resolution in dots per inch is
/// a pixel height in units of 1/4608 pixel: 64 units to the point, 72
/// points to the inch. Target heights are kept in these units, so that no
/// request has to be rounded before strikes are held against it.
pub const TARGET_UNITS_PER_PIXEL: i128 = 4608;

/// One fixed bitmap strike of a face, by its nominal pixel extents.
#[derive(Debug, Clone, Copy, PartialEq, Eq, Structural)]
pub struct BitmapSize {
    pub height: i16,
    pub width: i16,
}

/// The cell that a size selection produced. `width` and `height` are in
/// cell units (see [`CELL_UNITS_PER_PIXEL`]); `is_scaled` tells a scalable
/// size from a bitmap strike.
#[derive(Debug, Clone, Copy, PartialEq, Eq, Structural)]
pub struct SelectedFontSize {
    pub width: i128,
    pub height: i128,
    pub is_scaled: bool,
}

/// The most recent size selection of a face, with the request it answers.
/// `size` is the point size in 26.6 fixed point.
#[derive(Debug, Clone, Copy, PartialEq, Eq, Structural)]
pub struct FaceSize {
    pub size: i64,
    pub dpi: u32,
    pub cell_width: i128,
    pub cell_height: i128,
    pub is_scaled: bool,
}

impl FaceSize {
    /// The selection this entry stands for.
    pub open spec fn selected(self) -> SelectedFontSize {
        SelectedFontSize { width: self.cell_width, height: self.cell_height, is_scaled: self.is_scaled }
    }

    /// Whether this entry answers a request for `size` at `dpi`.
    pub open spec fn answers(self, size: i64, dpi: u32) -> bool {
        self.size == size && self.dpi == dpi
    }
}

/// The pixel height that a request for `point_size` (26.6 fixed point) at
/// `dpi` aims for, `point_size * dpi / 72` pixels, as an exact number of
/// target units (see [`TARGET_UNITS_PER_PIXEL`]). Nothing is rounded.
pub open spec fn target_pixel_height_spec(point_size: i64, dpi: u32) -> int {
    point_size as int * dpi as int
}

/// Computes the pixel height that a request for `point_size` (26.6 fixed
/// point) at `dpi` aims for. The result is in target units, 4608 to the
/// pixel, and is exact: `point_size / 64 * dpi / 72` pixels are
/// `point_size * dpi` target units.
pub fn target_pixel_height(point_size: i64, dpi: u32) -> (target: i128)
    ensures
        target as int == target_pixel_height_spec(point_size, dpi),
        -0x8000_0000_0000_0000_0000_0000 <= target <= 0x8000_0000_0000_0000_0000_0000,
{
    assert(-0x8000_0000_0000_0000_0000_0000 <= (point_size as int) * (dpi as int)
        <= 0x8000_0000_0000_0000_0000_0000) by (nonlinear_arith)
        requires
            -0x8000_0000_0000_0000 <= point_size as int <= 0x8000_0000_0000_0000,
            0 <= dpi as int <= 0x1_0000_0000,
    ;
    (point_size as i128) * (dpi as i128)
}

/// How far the height of `strike` lies from `target`, both in target units.
/// This is the exact distance between the two heights, 4608 times over.
pub open spec fn strike_distance(strike: BitmapSize, target: int) -> int {
    let height = strike.height as int * TARGET_UNITS_PER_PIXEL as int;
    if height >= target {
        height - target
    } else {
        target - height
    }
}

/// `idx` is the first strike of `sizes` among those nearest to `target`.
pub open spec fn is_best_strike(sizes: Seq<BitmapSize>, target: int, idx: int) -> bool {
    &&& 0 <= idx < sizes.len()
    &&& forall|j: int|
        0 <= j < sizes.len() ==> strike_distance(sizes[idx], target) <= strike_distance(
            #[trigger] sizes[j],
            target,
        )
    &&& forall|j: int|
        0 <= j < idx ==> strike_distance(sizes[idx], target) < strike_distance(
            #[trigger] sizes[j],
            target,
        )
}

/// The strike that [`best_strike`] picks, if there is any strike at all.
pub open spec fn best_strike_spec(sizes: Seq<BitmapSize>, target: int) -> Option<int> {
    if sizes.len() == 0 {
        None
    } else {
        Some(choose|idx: int| is_best_strike(sizes, target, idx))
    }
}

/// At most one index is the best strike.
pub proof fn lemma_best_strike_unique(sizes: Seq<BitmapSize>, target: int, a: int, b: int)
    requires
        is_best_strike(sizes, target, a),
        is_best_strike(sizes, target, b),
    ensures
        a == b,
{
    if a < b {
        assert(strike_distance(sizes[b], target) < strike_distance(sizes[a], target));
        assert(strike_distance(sizes[a], target) <= strike_distance(sizes[b], target));
    } else if b < a {
        assert(strike_distance(sizes[a], target) < strike_distance(sizes[b], target));
        assert(strike_distance(sizes[b], target) <= strike_distance(sizes[a], target));
    }
}

/// Wherever there is a strike there is a best one, and
/// [`best_strike_spec`] names it.
pub proof fn lemma_best_strike_exists(sizes: Seq<BitmapSize>, target: int)
    requires
        sizes.len() > 0,
    ensures
        best_strike_spec(sizes, target) matches Some(idx) && is_best_strike(sizes, target, idx),
    decreases sizes.len(),
{
    if sizes.len() == 1 {
        assert(is_best_strike(sizes, target, 0));
    } else {
        let front = sizes.drop_last();
        lemma_best_strike_exists(front, target);
        let prev = best_strike_spec(front, target)->0;
        assert(forall|j: int| 0 <= j < front.len() ==> front[j] == sizes[j]);
        let last = sizes.len() - 1;
        if strike_distance(sizes[last], target) < strike_distance(sizes[prev], target) {
            assert forall|j: int| 0 <= j < sizes.len() implies strike_distance(sizes[last], target)
                <= strike_distance(#[trigger] sizes[j], target) by {
                if j < last {
                    assert(strike_distance(front[prev], target) <= strike_distance(front[j], target));
                }
            }
            assert forall|j: int| 0 <= j < last implies strike_distance(sizes[last], target)
                < strike_distance(#[trigger] sizes[j], target) by {
                assert(strike_distance(front[prev], target) <= strike_distance(front[j], target));
            }
            assert(is_best_strike(sizes, target, last));
        } else {
            assert forall|j: int| 0 <= j < sizes.len() implies strike_distance(sizes[prev], target)
                <= strike_distance(#[trigger] sizes[j], target) by {
                if j < last {
                    assert(strike_distance(front[prev], target) <= strike_distance(front[j], target));
                }
            }
            assert forall|j: int| 0 <= j < prev implies strike_distance(sizes[prev], target)
                < strike_distance(#[trigger] sizes[j], target) by {
                assert(strike_distance(front[prev], target) < strike_distance(front[j], target));
            }
            assert(is_best_strike(sizes, target, prev));
        }
    }
}

fn distance(strike: BitmapSize, target: i128) -> (d: i128)
    requires
        -0x8000_0000_0000_0000_0000_0000 <= target <= 0x8000_0000_0000_0000_0000_0000,
    ensures
        d as int == strike_distance(strike, target as int),
{
    let height: i128 = (strike.height as i128) * TARGET_UNITS_PER_PIXEL;
    if height >= target {
        height - target
    } else {
        target - height
    }
}

/// Picks the strike whose height is nearest to the pixel height that a
/// request for `point_size` (26.6 fixed point) at `dpi` aims for. The
/// distance is taken from the exact target, not from a rounded one. Of
/// several equally near strikes the first one wins. `None` means there is
/// no strike.
pub fn best_strike(sizes: &Vec<BitmapSize>, point_size: i64, dpi: u32) -> (best: Option<usize>)
    ensures
        best is None <==> sizes.len() == 0,
        best matches Some(idx) ==> is_best_strike(
            sizes@,
            target_pixel_height_spec(point_size, dpi),
            idx as int,
        ),
        match best {
            Some(idx) => best_strike_spec(sizes@, target_pixel_height_spec(point_size, dpi)) == Some(
                idx as int,
            ),
            None => best_strike_spec(sizes@, target_pixel_height_spec(point_size, dpi)) is None,
        },
{
    if sizes.len() == 0 {
        return None;
    }
    let target: i128 = target_pixel_height(point_size, dpi);
    let mut best: usize = 0;
    let mut best_distance: i128 = distance(sizes[0], target);
    let mut idx: usize = 1;
    while idx < sizes.len()
        invariant
            1 <= idx <= sizes.len(),
            0 <= best < idx,
            -0x8000_0000_0000_0000_0000_0000 <= target <= 0x8000_0000_0000_0000_0000_0000,
            best_distance as int == strike_distance(sizes@[best as int], target as int),
            forall|j: int|
                0 <= j < idx ==> best_distance as int <= strike_distance(
                    #[trigger] sizes@[j],
                    target as int,
                ),
            forall|j: int|
                0 <= j < best ==> (best_distance as int) < strike_distance(
                    #[trigger] sizes@[j],
                    target as int,
                ),
        decreases sizes.len() - idx,
    {
        let candidate: i128 = distance(sizes[idx], target);
        if candidate < best_distance {
            best = idx;
            best_distance = candidate;
        }
        idx += 1;
    }
    proof {
        assert(is_best_strike(sizes@, target as int, best as int));
        let chosen = choose|i: int| is_best_strike(sizes@, target as int, i);
        lemma_best_strike_unique(sizes@, target as int, chosen, best as int);
    }
    Some(best)
}

} // verus!
