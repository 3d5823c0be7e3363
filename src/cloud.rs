use vstd::prelude::*;

use vstd::arithmetic::div_mod::lemma_fundamental_div_mod_converse;

use crate::color::{black, lemma_color_admitted, Color, Palette};
use crate::escape::{step_spec, EscapeOutcome, Step};
use crate::params::{InvalidArgument, RequestParams};

verus! {

/// A pixel of the requested rectangle: column `i`, row `j`.
#[derive(Clone, Copy, Debug, PartialEq, Eq, Structural)]
pub struct Pixel {
    pub i: i32,
    pub j: i32,
}

/// What the horizontal coordinate of an emitted point holds.
#[derive(Clone, Copy, Debug, PartialEq, Eq, Structural)]
pub enum PointX {
    /// The pixel's column index.
    Column(i32),
    /// The real part of the last orbit value of a bounded pixel; the caller
    /// that ran the orbit fills it in.
    OrbitReal,
}

/// One point of the cloud: its horizontal coordinate, its row index and its
/// color.
#[derive(Clone, Copy, Debug, PartialEq, Eq, Structural)]
pub struct Sample {
    pub x: PointX,
    pub y: i32,
    pub color: Color,
}

/// The point emitted for `pixel` with the given outcome. An escaped pixel
/// keeps its column as `x`; a bounded one carries the orbit's last real part
/// there instead. The row is kept either way.
pub open spec fn sample_spec(pixel: Pixel, outcome: EscapeOutcome, palette: Palette) -> Sample {
    Sample {
        x: match outcome {
            EscapeOutcome::Escaped { .. } => PointX::Column(pixel.i),
            EscapeOutcome::Bounded => PointX::OrbitReal,
        },
        y: pixel.j,
        color: palette.color_of(outcome),
    }
}

/// The point cloud of a request: one point per pixel, in scan order, the
/// `k`-th built from the `k`-th outcome.
pub open spec fn cloud_spec(
    params: RequestParams,
    palette: Palette,
    outcomes: Seq<EscapeOutcome>,
) -> Seq<Sample> {
    let pixels = scan_order(params.width as int, params.height as int);
    Seq::new(pixels.len(), |k: int| sample_spec(pixels[k], outcomes[k], palette))
}

/// The pixels of the rectangle `0..=width` by `0..=height`, column by column:
/// the outer index is the column, the inner one the row.
pub open spec fn scan_order(width: int, height: int) -> Seq<Pixel> {
    Seq::new(
        ((width + 1) * (height + 1)) as nat,
        |k: int| Pixel { i: (k / (height + 1)) as i32, j: (k % (height + 1)) as i32 },
    )
}

/// Position of pixel `(i, j)` in the scan of a rectangle of height `height`.
pub open spec fn scan_index(height: int, i: int, j: int) -> int {
    i * (height + 1) + j
}

/// Pixel `(i, j)` of the rectangle stands at `scan_index(height, i, j)` in
/// the scan, and the scan holds `(width + 1) * (height + 1)` pixels.
pub proof fn lemma_scan_index(width: int, height: int, i: int, j: int)
    requires
        0 <= i <= width,
        0 <= j <= height,
        width <= i32::MAX,
        height <= i32::MAX,
    ensures
        scan_order(width, height).len() == (width + 1) * (height + 1),
        0 <= scan_index(height, i, j) < (width + 1) * (height + 1),
        scan_order(width, height)[scan_index(height, i, j)] == (Pixel { i: i as i32, j: j as i32 }),
{
    let k = scan_index(height, i, j);
    assert(0 <= k < (width + 1) * (height + 1)) by (nonlinear_arith)
        requires
            0 <= i <= width,
            0 <= j <= height,
            k == i * (height + 1) + j,
    ;
    lemma_fundamental_div_mod_converse(k, height + 1, i, j);
}

/// The pixels of a valid request in scan order, or the rule it breaks.
pub fn scan_pixels(params: &RequestParams) -> (r: Result<Vec<Pixel>, InvalidArgument>)
    ensures
        match r {
            Ok(pixels) => params.is_valid() && pixels@ == scan_order(
                params.width as int,
                params.height as int,
            ),
            Err(e) => params.violation() == Some(e),
        },
{
    match params.validate() {
        Err(e) => {
            return Err(e);
        },
        Ok(()) => {},
    }
    let width = params.width;
    let height = params.height;
    let ghost order = scan_order(width as int, height as int);
    let mut pixels: Vec<Pixel> = Vec::new();
    let mut i: i32 = 0;
    loop
        invariant_except_break
            pixels@ == order.take(scan_index(height as int, i as int, 0)),
        invariant
            0 <= i <= width,
            0 <= height,
            order == scan_order(width as int, height as int),
        ensures
            pixels@ == order,
        decreases width - i,
    {
        let mut j: i32 = 0;
        loop
            invariant_except_break
                pixels@ == order.take(scan_index(height as int, i as int, j as int)),
            invariant
                0 <= i <= width,
                0 <= j <= height,
                order == scan_order(width as int, height as int),
            ensures
                pixels@ == order.take(scan_index(height as int, i as int, height as int) + 1),
            decreases height - j,
        {
            proof {
                lemma_scan_index(width as int, height as int, i as int, j as int);
            }
            pixels.push(Pixel { i, j });
            assert(pixels@ =~= order.take(scan_index(height as int, i as int, j as int) + 1));
            if j == height {
                break;
            }
            j = j + 1;
        }
        assert(scan_index(height as int, i as int, height as int) + 1 == scan_index(
            height as int,
            i as int + 1,
            0,
        )) by (nonlinear_arith);
        if i == width {
            proof {
                lemma_scan_index(width as int, height as int, i as int, height as int);
            }
            assert(pixels@ =~= order);
            break;
        }
        i = i + 1;
    }
    Ok(pixels)
}

/// Builds the point of one pixel from its evaluation outcome.
pub fn sample_for(pixel: Pixel, outcome: EscapeOutcome, palette: &Palette) -> (r: Sample)
    ensures
        r == sample_spec(pixel, outcome, *palette),
{
    let x = match outcome {
        EscapeOutcome::Escaped { .. } => PointX::Column(pixel.i),
        EscapeOutcome::Bounded => PointX::OrbitReal,
    };
    Sample { x, y: pixel.j, color: palette.color_for(outcome) }
}

/// The point cloud of a request, from the outcome of each pixel in scan
/// order; a request that breaks a rule gives that rule.
pub fn generate_points(
    params: &RequestParams,
    palette: &Palette,
    outcomes: &Vec<EscapeOutcome>,
) -> (r: Result<Vec<Sample>, InvalidArgument>)
    requires
        params.is_valid() ==> outcomes@.len() == params.pixel_count(),
    ensures
        match r {
            Ok(points) => params.is_valid() && points@ == cloud_spec(*params, *palette, outcomes@),
            Err(e) => params.violation() == Some(e),
        },
{
    let pixels = match scan_pixels(params) {
        Ok(pixels) => pixels,
        Err(e) => {
            return Err(e);
        },
    };
    let ghost cloud = cloud_spec(*params, *palette, outcomes@);
    let mut points: Vec<Sample> = Vec::new();
    let mut k: usize = 0;
    while k < pixels.len()
        invariant
            k <= pixels@.len(),
            pixels@ == scan_order(params.width as int, params.height as int),
            outcomes@.len() == pixels@.len(),
            cloud == cloud_spec(*params, *palette, outcomes@),
            points@ == cloud.take(k as int),
        decreases pixels.len() - k,
    {
        let point = sample_for(pixels[k], outcomes[k], palette);
        points.push(point);
        assert(points@ =~= cloud.take(k as int + 1));
        k = k + 1;
    }
    assert(points@ =~= cloud);
    Ok(points)
}


/// The cloud of a valid request holds `(width + 1) * (height + 1)` points in
/// row-major order: the point of pixel `(i, j)` stands at index
/// `i * (height + 1) + j` and is built from that pixel and its outcome.
pub proof fn lemma_cloud_row_major(
    params: RequestParams,
    palette: Palette,
    outcomes: Seq<EscapeOutcome>,
    i: int,
    j: int,
)
    requires
        params.is_valid(),
        outcomes.len() == params.pixel_count(),
        0 <= i <= params.width,
        0 <= j <= params.height,
    ensures
        cloud_spec(params, palette, outcomes).len() == (params.width + 1) * (params.height + 1),
        cloud_spec(params, palette, outcomes)[scan_index(params.height as int, i, j)] == sample_spec(
            Pixel { i: i as i32, j: j as i32 },
            outcomes[scan_index(params.height as int, i, j)],
            palette,
        ),
{
    lemma_scan_index(params.width as int, params.height as int, i, j);
}

/// No point of a cloud has a color outside the palette other than black.
pub proof fn lemma_cloud_colors(params: RequestParams, palette: Palette, outcomes: Seq<EscapeOutcome>)
    ensures
        forall|k: int|
            0 <= k < cloud_spec(params, palette, outcomes).len() ==> palette.admits(
                #[trigger] cloud_spec(params, palette, outcomes)[k].color,
            ),
{
    assert forall|k: int| 0 <= k < cloud_spec(params, palette, outcomes).len() implies palette.admits(
        #[trigger] cloud_spec(params, palette, outcomes)[k].color,
    ) by {
        lemma_color_admitted(palette, outcomes[k]);
    }
}

/// A point depends on nothing but the request, the palette and its own
/// pixel's outcome: outcome sequences that agree on pixel `k` give the same
/// point `k`.
pub proof fn lemma_cloud_pointwise(
    params: RequestParams,
    palette: Palette,
    outcomes1: Seq<EscapeOutcome>,
    outcomes2: Seq<EscapeOutcome>,
    k: int,
)
    requires
        0 <= k < cloud_spec(params, palette, outcomes1).len(),
        outcomes1[k] == outcomes2[k],
    ensures
        cloud_spec(params, palette, outcomes1)[k] == cloud_spec(params, palette, outcomes2)[k],
{
}

/// With a budget of one iteration a pixel escapes at iteration 0, and gets
/// the first palette entry, exactly when its first orbit value leaves the
/// disc; otherwise it is bounded and black.
pub proof fn lemma_single_iteration(palette: Palette, outside_radius: bool)
    ensures
        step_spec(0, 1, outside_radius) == Step::Done(
            if outside_radius {
                EscapeOutcome::Escaped { at_iteration: 0 }
            } else {
                EscapeOutcome::Bounded
            },
        ),
        palette.color_of(step_spec(0, 1, outside_radius)->Done_0) == if outside_radius {
            palette.colors@[0]
        } else {
            black()
        },
{
}

} // verus!
