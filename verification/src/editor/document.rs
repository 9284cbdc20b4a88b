//! Integer decisions behind exporting and cropping the document image.

use vstd::prelude::*;

verus! {

/// Images of at most this many pixels get their overlays drawn at three times the size.
pub const EXPORT_SUPERSAMPLE_3X_MAX_PIXELS: u64 = 3_000_000;

/// Images of at most this many pixels (and more than the 3x limit) get them drawn at twice the size.
pub const EXPORT_SUPERSAMPLE_2X_MAX_PIXELS: u64 = 8_500_000;

/// How many times larger the overlay layer is drawn for an image of `pixels` pixels.
pub open spec fn supersample_factor(pixels: int) -> u32 {
    if pixels <= 3_000_000 {
        3
    } else if pixels <= 8_500_000 {
        2
    } else {
        1
    }
}

/// The factor by which overlays are supersampled when exporting a `width` by
/// `height` image: smaller images get finer antialiasing.
pub fn overlay_supersample_factor(width: u32, height: u32) -> (factor: u32)
    ensures
        factor == supersample_factor(width * height),
        factor == 3 <==> width * height <= EXPORT_SUPERSAMPLE_3X_MAX_PIXELS,
        factor == 2 <==> EXPORT_SUPERSAMPLE_3X_MAX_PIXELS < width * height
            <= EXPORT_SUPERSAMPLE_2X_MAX_PIXELS,
        factor == 1 <==> width * height > EXPORT_SUPERSAMPLE_2X_MAX_PIXELS,
{
    let w: u64 = width as u64;
    let h: u64 = height as u64;
    assert(w * h <= 0xffff_ffff_ffff_ffff) by (nonlinear_arith)
        requires
            w <= 0xffff_ffff,
            h <= 0xffff_ffff,
    ;
    let pixels: u64 = w * h;
    if pixels <= EXPORT_SUPERSAMPLE_3X_MAX_PIXELS {
        3
    } else if pixels <= EXPORT_SUPERSAMPLE_2X_MAX_PIXELS {
        2
    } else {
        1
    }
}

/// A smaller image never gets coarser supersampling than a larger one.
pub proof fn lemma_supersampling_never_coarser_for_smaller(smaller: int, larger: int)
    requires
        smaller <= larger,
    ensures
        supersample_factor(smaller) >= supersample_factor(larger),
        1 <= supersample_factor(larger) <= 3,
{
}

/// How the flattened export is drawn.
#[derive(Clone, Copy, Debug, PartialEq, Eq, Structural)]
pub enum RenderPlan {
    /// No overlays: the export is the base image itself.
    BaseOnly,
    /// Overlays are drawn straight onto the base image at scale 1.
    Direct,
    /// Overlays are drawn at `factor` times the scale onto a transparent
    /// `width` by `height` layer, which is then scaled down and blended in.
    Supersampled { width: u32, height: u32, factor: u32 },
}

/// The plan for exporting a `width` by `height` image with `overlay_count` overlays.
pub open spec fn render_plan(width: u32, height: u32, overlay_count: nat) -> RenderPlan {
    let factor = supersample_factor(width * height);
    if overlay_count == 0 {
        RenderPlan::BaseOnly
    } else if factor == 1 || width * factor > u32::MAX || height * factor > u32::MAX {
        RenderPlan::Direct
    } else {
        RenderPlan::Supersampled {
            width: (width * factor) as u32,
            height: (height * factor) as u32,
            factor,
        }
    }
}

/// Decides how to flatten the overlays into the exported image. A layer whose size
/// would not fit in `u32` falls back to drawing at scale 1.
pub fn plan_flattened_render(width: u32, height: u32, overlay_count: usize) -> (plan: RenderPlan)
    ensures
        plan == render_plan(width, height, overlay_count as nat),
        (plan is BaseOnly) <==> overlay_count == 0,
        overlay_count > 0 && supersample_factor(width * height) > 1 && width
            * supersample_factor(width * height) <= u32::MAX && height * supersample_factor(
            width * height,
        ) <= u32::MAX ==> plan == (RenderPlan::Supersampled {
            width: (width * supersample_factor(width * height)) as u32,
            height: (height * supersample_factor(width * height)) as u32,
            factor: supersample_factor(width * height),
        }),
{
    if overlay_count == 0 {
        return RenderPlan::BaseOnly;
    }
    let factor = overlay_supersample_factor(width, height);
    if factor == 1 {
        return RenderPlan::Direct;
    }
    let layer_width = match width.checked_mul(factor) {
        Some(w) => w,
        None => return RenderPlan::Direct,
    };
    let layer_height = match height.checked_mul(factor) {
        Some(h) => h,
        None => return RenderPlan::Direct,
    };
    RenderPlan::Supersampled { width: layer_width, height: layer_height, factor }
}

/// Every annotation is drawn: the export is the bare image only when there is
/// nothing to draw, and how the annotations are drawn depends only on the image
/// size, never on how many there are. A layer that fits is supersampled by the
/// image's factor; the annotations are drawn at scale 1 only when that factor is
/// 1 or the scaled layer would not fit in `u32`.
pub proof fn lemma_every_annotation_is_drawn(width: u32, height: u32, count: nat, other_count: nat)
    requires
        count > 0,
        other_count > 0,
    ensures
        render_plan(width, height, 0) == RenderPlan::BaseOnly,
        render_plan(width, height, count) !is BaseOnly,
        render_plan(width, height, count) == render_plan(width, height, other_count),
        supersample_factor(width * height) > 1 && width * supersample_factor(width * height)
            <= u32::MAX && height * supersample_factor(width * height) <= u32::MAX
            ==> render_plan(width, height, count) == (RenderPlan::Supersampled {
            width: (width * supersample_factor(width * height)) as u32,
            height: (height * supersample_factor(width * height)) as u32,
            factor: supersample_factor(width * height),
        }),
        render_plan(width, height, count) is Direct ==> supersample_factor(width * height) == 1
            || width * supersample_factor(width * height) > u32::MAX || height
            * supersample_factor(width * height) > u32::MAX,
{
}

/// The supersampling factor follows the export limits: 3 up to the 3x limit of
/// pixels, 2 up to the 2x limit, 1 beyond.
pub proof fn lemma_factor_follows_the_limits(pixels: int)
    ensures
        supersample_factor(pixels) == 3 <==> pixels <= EXPORT_SUPERSAMPLE_3X_MAX_PIXELS,
        supersample_factor(pixels) == 2 <==> EXPORT_SUPERSAMPLE_3X_MAX_PIXELS < pixels
            <= EXPORT_SUPERSAMPLE_2X_MAX_PIXELS,
        supersample_factor(pixels) == 1 <==> pixels > EXPORT_SUPERSAMPLE_2X_MAX_PIXELS,
{
}

/// A supersampled layer is always exactly `factor` times the image, with a factor of 2 or 3.
pub proof fn lemma_supersampled_layer_scales_image(width: u32, height: u32, overlay_count: nat)
    ensures
        render_plan(width, height, overlay_count) matches RenderPlan::Supersampled {
            width: w,
            height: h,
            factor,
        } ==> (factor == 2 || factor == 3) && w == width * factor && h == height * factor,
{
}

/// The crop extent that fits inside the image: a crop of `crop_width` by
/// `crop_height` starting at column `left`, row `top` is cut back to what remains
/// of a `image_width` by `image_height` image from there.
pub open spec fn fitted_crop(
    left: u32,
    top: u32,
    crop_width: u32,
    crop_height: u32,
    image_width: u32,
    image_height: u32,
) -> (u32, u32) {
    let room_x = if image_width >= left { image_width - left } else { 0 };
    let room_y = if image_height >= top { image_height - top } else { 0 };
    (
        if crop_width <= room_x { crop_width } else { room_x as u32 },
        if crop_height <= room_y { crop_height } else { room_y as u32 },
    )
}

/// Cuts a crop's width and height back so that the crop stays inside the image.
pub fn fit_crop_to_image(
    left: u32,
    top: u32,
    crop_width: u32,
    crop_height: u32,
    image_width: u32,
    image_height: u32,
) -> (extent: (u32, u32))
    ensures
        extent == fitted_crop(left, top, crop_width, crop_height, image_width, image_height),
        left <= image_width ==> left + extent.0 <= image_width,
        top <= image_height ==> top + extent.1 <= image_height,
{
    let fitted_width = crop_width.min(image_width.saturating_sub(left));
    let fitted_height = crop_height.min(image_height.saturating_sub(top));
    (fitted_width, fitted_height)
}

/// `points` with `point` appended, unless it repeats the last point.
pub open spec fn with_unique_point(points: Seq<(i32, i32)>, point: (i32, i32)) -> Seq<(i32, i32)> {
    if points.len() > 0 && points.last() == point {
        points
    } else {
        points.push(point)
    }
}

/// Appends a polygon vertex unless it repeats the previous one (rounding to whole
/// pixels often makes neighbouring vertices coincide).
pub fn push_unique_point(points: &mut Vec<(i32, i32)>, point: (i32, i32))
    ensures
        final(points)@ == with_unique_point(old(points)@, point),
{
    let n = points.len();
    if n > 0 {
        let last = points[n - 1];
        if last.0 == point.0 && last.1 == point.1 {
            assert(last == point);
            return;
        }
    }
    points.push(point);
}

/// `points` without a final vertex that repeats the first one.
pub open spec fn without_closing_point(points: Seq<(i32, i32)>) -> Seq<(i32, i32)> {
    if points.len() > 0 && points[0] == points.last() {
        points.drop_last()
    } else {
        points
    }
}

/// Drops the last vertex of a polygon when it is the first one again, so the
/// outline is not closed twice. A single vertex is its own first and last, and goes.
pub fn drop_closing_point(points: &mut Vec<(i32, i32)>)
    ensures
        final(points)@ == without_closing_point(old(points)@),
{
    let n = points.len();
    if n > 0 {
        let first = points[0];
        let last = points[n - 1];
        if first.0 == last.0 && first.1 == last.1 {
            assert(first == last);
            points.pop();
        }
    }
}

/// Consecutive vertices built with [`push_unique_point`] never repeat.
pub proof fn lemma_unique_points_stay_unique(points: Seq<(i32, i32)>, point: (i32, i32))
    requires
        forall|i: int| 0 <= i < points.len() - 1 ==> #[trigger] points[i] != points[i + 1],
    ensures
        ({
            let result = with_unique_point(points, point);
            forall|i: int| 0 <= i < result.len() - 1 ==> #[trigger] result[i] != result[i + 1]
        }),
{
}

/// Whether the pixel at column `x`, row `y` lies on a `width` by `height` image,
/// comparing with the sizes read as `i32` as the drawing code does.
pub open spec fn pixel_on_image(x: i32, y: i32, width: u32, height: u32) -> bool {
    x >= 0 && y >= 0 && x < width as i32 && y < height as i32
}

/// Whether a single dot can be put at column `x`, row `y` of the image.
pub fn pixel_in_bounds(x: i32, y: i32, width: u32, height: u32) -> (r: bool)
    ensures
        r == pixel_on_image(x, y, width, height),
{
    x >= 0 && y >= 0 && x < width as i32 && y < height as i32
}

} // verus!
