use vstd::prelude::*;

use crate::color::{get_color_recursive, traced_color};
use crate::fixed::{channel_byte, clamp_raw, fx, fx_add, fx_div, fx_mul, fx_sub, Fixed, ONE_RAW};
use crate::intersect::{intersect_scene_from_view, nearest_hit};
use crate::scene::Scene;
use crate::vector::{v_add, v_cross, v_norm, v_scale, v_sub, Point3, RGBColor, Ray};

verus! {

pub open spec fn half() -> Fixed {
    fx(ONE_RAW / 2)
}

/// A pixel coordinate as a fixed-point number.
pub open spec fn fx_count(n: int) -> Fixed {
    fx(clamp_raw((n as i64) * ONE_RAW))
}

/// The camera ray through the centre of pixel `(row, col)`: the camera basis is
/// `w = norm(eye - center)`, `u = norm(up x w)`, `v = w x u`, and the offsets grow with
/// the tangent of half the vertical field of view.
pub open spec fn pixel_ray(scene: Scene, row: int, col: int) -> Ray {
    let cam = scene.camera;
    let w = v_norm(v_sub(cam.eye, cam.center));
    let u = v_norm(v_cross(cam.up, w));
    let v = v_cross(w, u);
    let half_h = fx_mul(half(), fx_count(scene.img_height as int));
    let k = fx_div(cam.tan_half_fovy, half_h);
    let wa = fx_mul(
        k,
        fx_sub(fx_add(fx_count(col), half()), fx_mul(half(), fx_count(scene.img_width as int))),
    );
    let wb = fx_mul(k, fx_sub(half_h, fx_add(half(), fx_count(row))));
    Ray {
        position: Point3 { x: cam.eye.x, y: cam.eye.y, z: cam.eye.z },
        direction: v_norm(v_sub(v_add(v_scale(u, wa), v_scale(v, wb)), w)),
    }
}

/// The colour seen through pixel `(row, col)`: the traced colour of the nearest
/// hit, or none where nothing is hit.
#[verifier::opaque]
pub open spec fn pixel_color(scene: Scene, row: int, col: int) -> Option<RGBColor> {
    let ray = pixel_ray(scene, row, col);
    match nearest_hit(scene.shapes.0@, ray, None) {
        Some(id) => Some(traced_color(scene, ray, id, 0)),
        None => None,
    }
}

/// The three bytes of pixel `(row, col)`: each channel times 255, truncated and
/// clamped into a byte; black where nothing is hit.
pub open spec fn pixel_bytes(scene: Scene, row: int, col: int) -> Seq<u8> {
    match pixel_color(scene, row, col) {
        Some(c) => seq![channel_byte(c.x) as u8, channel_byte(c.y) as u8, channel_byte(c.z) as u8],
        None => seq![0u8, 0u8, 0u8],
    }
}

/// The bytes of the first `count` pixels of row `row`.
pub open spec fn row_bytes(scene: Scene, row: int, count: int) -> Seq<u8>
    decreases count,
{
    if count <= 0 {
        Seq::empty()
    } else {
        row_bytes(scene, row, count - 1) + pixel_bytes(scene, row, count - 1)
    }
}

/// The bytes of the first `rows` rows, row-major, three per pixel.
pub open spec fn image_bytes(scene: Scene, rows: int) -> Seq<u8>
    decreases rows,
{
    if rows <= 0 {
        Seq::empty()
    } else {
        image_bytes(scene, rows - 1) + row_bytes(scene, rows - 1, scene.img_width as int)
    }
}

proof fn lemma_row_len(scene: Scene, row: int, count: int)
    requires
        0 <= count,
    ensures
        row_bytes(scene, row, count).len() == 3 * count,
    decreases count,
{
    if count > 0 {
        lemma_row_len(scene, row, count - 1);
    }
}

proof fn lemma_image_len(scene: Scene, rows: int)
    requires
        0 <= rows,
    ensures
        image_bytes(scene, rows).len() == rows * scene.img_width * 3,
    decreases rows,
{
    if rows > 0 {
        lemma_image_len(scene, rows - 1);
        lemma_row_len(scene, rows - 1, scene.img_width as int);
        assert((rows - 1) * scene.img_width * 3 + 3 * scene.img_width == rows * scene.img_width * 3)
            by (nonlinear_arith);
    } else {
        assert(rows * scene.img_width * 3 == 0) by (nonlinear_arith)
            requires
                rows == 0,
        ;
    }
}

proof fn lemma_row_black(scene: Scene, row: int, count: int)
    requires
        0 <= count,
        scene.shapes.0@.len() == 0,
    ensures
        forall|k: int| 0 <= k < row_bytes(scene, row, count).len() ==> #[trigger] row_bytes(scene, row, count)[k] == 0,
    decreases count,
{
    if count > 0 {
        lemma_row_black(scene, row, count - 1);
        let ray = pixel_ray(scene, row, count - 1);
        assert(!exists|d| crate::intersect::is_nearest_hit(scene.shapes.0@, ray, None, d));
        let prev = row_bytes(scene, row, count - 1);
        let px = pixel_bytes(scene, row, count - 1);
        reveal(pixel_color);
        assert forall|k: int| 0 <= k < prev.len() + px.len() implies #[trigger] (prev + px)[k] == 0 by {
            if k >= prev.len() {
                assert(px[k - prev.len()] == 0);
            } else {
                assert(prev[k] == 0);
            }
        }
    }
}

proof fn lemma_image_black(scene: Scene, rows: int)
    requires
        0 <= rows,
        scene.shapes.0@.len() == 0,
    ensures
        forall|k: int| 0 <= k < image_bytes(scene, rows).len() ==> #[trigger] image_bytes(scene, rows)[k] == 0,
    decreases rows,
{
    if rows > 0 {
        lemma_image_black(scene, rows - 1);
        lemma_row_black(scene, rows - 1, scene.img_width as int);
        let prev = image_bytes(scene, rows - 1);
        let row = row_bytes(scene, rows - 1, scene.img_width as int);
        assert forall|k: int| 0 <= k < prev.len() + row.len() implies #[trigger] (prev + row)[k] == 0 by {
            if k >= prev.len() {
                assert(row[k - prev.len()] == 0);
            } else {
                assert(prev[k] == 0);
            }
        }
    }
}

/// A scene without primitives renders every byte of every pixel to zero.
pub proof fn lemma_no_geometry_renders_black(scene: Scene)
    requires
        scene.shapes.0@.len() == 0,
    ensures
        image_bytes(scene, scene.img_height as int).len() == scene.img_width * scene.img_height * 3,
        forall|k: int|
            0 <= k < scene.img_width * scene.img_height * 3 ==> #[trigger] image_bytes(
                scene,
                scene.img_height as int,
            )[k] == 0,
{
    lemma_image_len(scene, scene.img_height as int);
    lemma_image_black(scene, scene.img_height as int);
    assert(scene.img_height * scene.img_width * 3 == scene.img_width * scene.img_height * 3) by (nonlinear_arith);
}

/// The camera ray through the centre of the pixel at `(row, column)`.
pub fn make_ray(scene: &Scene, pixel_coords: (usize, usize)) -> (r: Ray)
    ensures
        r == pixel_ray(*scene, pixel_coords.0 as int, pixel_coords.1 as int),
{
    let cam = &scene.camera;
    let w = cam.eye.sub(&cam.center).norm();
    let u = cam.up.cross(&w).norm();
    let v = w.cross(&u);
    let half = Fixed::from_raw(ONE_RAW / 2);
    let half_h = half.mul(Fixed::from_int(scene.img_height as i64));
    let k = cam.tan_half_fovy.div(half_h);
    let wa = k.mul(
        Fixed::from_int(pixel_coords.1 as i64).add(half).sub(half.mul(Fixed::from_int(scene.img_width as i64))),
    );
    let wb = k.mul(half_h.sub(half.add(Fixed::from_int(pixel_coords.0 as i64))));
    Ray {
        position: Point3 { x: cam.eye.x, y: cam.eye.y, z: cam.eye.z },
        direction: u.scale(wa).add(&v.scale(wb)).sub(&w).norm(),
    }
}

fn shade_pixel(scene: &Scene, row: usize, col: usize) -> (r: (u8, u8, u8))
    ensures
        seq![r.0, r.1, r.2] == pixel_bytes(*scene, row as int, col as int),
{
    reveal(pixel_color);
    let ray = make_ray(scene, (row, col));
    match intersect_scene_from_view(ray, scene) {
        Some(id) => {
            let c = get_color_recursive(ray, scene, id, 0);
            (c.x.to_channel(), c.y.to_channel(), c.z.to_channel())
        },
        None => (0u8, 0u8, 0u8),
    }
}

/// Renders the scene: one ray through the centre of each pixel, row by row, three
/// bytes (RGB) per pixel.
pub fn render(scene: &Scene) -> (r: Vec<u8>)
    ensures
        r@ == image_bytes(*scene, scene.img_height as int),
        r@.len() == scene.img_width * scene.img_height * 3,
{
    let mut pixels: Vec<u8> = Vec::new();
    let mut i: usize = 0;
    while i < scene.img_height
        invariant
            i <= scene.img_height,
            pixels@ == image_bytes(*scene, i as int),
        decreases scene.img_height - i,
    {
        let mut j: usize = 0;
        while j < scene.img_width
            invariant
                i < scene.img_height,
                j <= scene.img_width,
                pixels@ == image_bytes(*scene, i as int) + row_bytes(*scene, i as int, j as int),
            decreases scene.img_width - j,
        {
            let ghost before = pixels@;
            let (red, green, blue) = shade_pixel(scene, i, j);
            pixels.push(red);
            pixels.push(green);
            pixels.push(blue);
            assert(pixels@ =~= before + pixel_bytes(*scene, i as int, j as int));
            assert(image_bytes(*scene, i as int) + row_bytes(*scene, i as int, j + 1) =~= before
                + pixel_bytes(*scene, i as int, j as int));
            j = j + 1;
        }
        assert(image_bytes(*scene, i + 1) == image_bytes(*scene, i as int) + row_bytes(
            *scene,
            i as int,
            scene.img_width as int,
        ));
        i = i + 1;
    }
    proof {
        lemma_image_len(*scene, scene.img_height as int);
        assert(scene.img_height * scene.img_width * 3 == scene.img_width * scene.img_height * 3)
            by (nonlinear_arith);
    }
    pixels
}

} // verus!
