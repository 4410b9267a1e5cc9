//! Tests for the discrete rectification core: buffer addressing, the
//! bilinear footprint rule, and the out-of-bounds zeroing policy.

use fisheye_remap::frame::Frame;
use fisheye_remap::pixel::Rgba;
use fisheye_remap::sampler::{locate_corners, resolve_sample, sample_quad, SampleSpot};

fn word(v: f32) -> u32 {
    v.to_bits()
}

fn grey(v: f32) -> Rgba {
    Rgba { r: word(v), g: word(v), b: word(v), a: word(1.0) }
}

#[test]
fn transparent_pixel_is_the_zero_word() {
    let p = Rgba::transparent();
    assert_eq!(p, Rgba { r: 0, g: 0, b: 0, a: 0 });
    // The all-zero word decodes to 0.0 in IEEE binary32, so the sentinel
    // really is transparent black for float-sample renderers.
    assert_eq!(f32::from_bits(p.r), 0.0);
    assert_eq!(f32::from_bits(p.a), 0.0);
}

#[test]
fn new_frame_is_fully_transparent() {
    let f = Frame::new(3, 2, 4);
    assert_eq!(f.width, 3);
    assert_eq!(f.height, 2);
    assert_eq!(f.stride, 4);
    assert_eq!(f.data.len(), 8);
    for y in 0..2 {
        for x in 0..3 {
            assert_eq!(f.get(y, x), Rgba::transparent());
        }
    }
}

#[test]
fn from_pixels_accepts_only_consistent_buffers() {
    let data = vec![Rgba::transparent(); 8];
    let f = Frame::from_pixels(3, 2, 4, data.clone()).expect("8 pixels fill 2 rows of stride 4");
    assert_eq!(f.width, 3);
    assert_eq!(f.height, 2);
    assert_eq!(f.stride, 4);
    // width larger than stride
    assert!(Frame::from_pixels(5, 2, 4, data.clone()).is_none());
    // buffer length does not match stride * height
    assert!(Frame::from_pixels(3, 2, 5, data.clone()).is_none());
    assert!(Frame::from_pixels(3, 3, 4, data).is_none());
}

#[test]
fn set_then_get_roundtrip() {
    let mut f = Frame::new(3, 3, 3);
    let red = Rgba { r: word(1.0), g: 0, b: 0, a: word(1.0) };
    f.set(1, 2, red);
    assert_eq!(f.get(1, 2), red);
    // every other pixel is untouched
    for y in 0..3 {
        for x in 0..3 {
            if (y, x) != (1, 2) {
                assert_eq!(f.get(y, x), Rgba::transparent());
            }
        }
    }
}

#[test]
fn padded_rows_stay_disjoint() {
    // stride 5, width 3: the last visible pixel of row 0 and the first
    // of row 1 are two pixels apart in storage and must not alias.
    let mut f = Frame::new(3, 2, 5);
    let a = grey(0.25);
    let b = grey(0.75);
    f.set(0, 2, a);
    f.set(1, 0, b);
    assert_eq!(f.get(0, 2), a);
    assert_eq!(f.get(1, 0), b);
}

#[test]
fn store_row_replaces_one_row_only() {
    let mut f = Frame::new(2, 2, 2);
    let marked = grey(0.5);
    f.set(0, 0, marked);
    let row = vec![grey(0.1), grey(0.2)];
    f.store_row(1, &row);
    assert_eq!(f.get(1, 0), grey(0.1));
    assert_eq!(f.get(1, 1), grey(0.2));
    assert_eq!(f.get(0, 0), marked);
    assert_eq!(f.get(0, 1), Rgba::transparent());
}

#[test]
fn render_rows_covers_every_pixel() {
    let mut f = Frame::new(3, 2, 4);
    let rows = vec![
        vec![grey(0.0), grey(1.0), grey(2.0)],
        vec![grey(3.0), grey(4.0), grey(5.0)],
    ];
    f.render_rows(&rows);
    for y in 0..2 {
        for x in 0..3 {
            assert_eq!(f.get(y, x), rows[y][x]);
        }
    }
}

#[test]
fn footprint_inside_is_located() {
    match locate_corners(3, 4, 10, 10) {
        SampleSpot::Inside { iu, iv } => {
            assert_eq!(iu, 3);
            assert_eq!(iv, 4);
        }
        SampleSpot::Outside => panic!("footprint (3, 4) lies inside a 10x10 image"),
    }
}

#[test]
fn footprint_at_negative_column_is_outside() {
    // A sample location at (-1, 5) is out of bounds and must zero the
    // destination pixel, not clamp to the image edge.
    assert_eq!(locate_corners(-1, 5, 10, 10), SampleSpot::Outside);
}

#[test]
fn footprint_boundaries_are_exact() {
    // top-left corner at width-2 still has its right neighbour...
    assert_eq!(locate_corners(8, 0, 10, 10), SampleSpot::Inside { iu: 8, iv: 0 });
    // ...at width-1 the right neighbour is missing
    assert_eq!(locate_corners(9, 0, 10, 10), SampleSpot::Outside);
    assert_eq!(locate_corners(0, 8, 10, 10), SampleSpot::Inside { iu: 0, iv: 8 });
    assert_eq!(locate_corners(0, 9, 10, 10), SampleSpot::Outside);
    assert_eq!(locate_corners(-1, 0, 10, 10), SampleSpot::Outside);
    assert_eq!(locate_corners(0, -1, 10, 10), SampleSpot::Outside);
    // rays behind the camera are pushed to huge magnitudes and land outside
    assert_eq!(locate_corners(i64::MIN, 0, 10, 10), SampleSpot::Outside);
    assert_eq!(locate_corners(i64::MAX, 0, 10, 10), SampleSpot::Outside);
}

#[test]
fn out_of_bounds_sample_resolves_to_zero() {
    let red = Rgba { r: word(1.0), g: 0, b: 0, a: word(1.0) };
    // whatever blend a caller hands in, an outside footprint yields the
    // transparent zero pixel
    assert_eq!(resolve_sample(SampleSpot::Outside, red), Rgba::transparent());
    assert_eq!(resolve_sample(SampleSpot::Inside { iu: 0, iv: 0 }, red), red);
}

#[test]
fn sample_quad_gathers_the_four_neighbours() {
    let mut f = Frame::new(3, 3, 3);
    // pixel value encodes its coordinates
    for y in 0..3 {
        for x in 0..3 {
            f.set(y, x, grey((10 * y + x) as f32));
        }
    }
    let quad = sample_quad(&f, 1, 0).expect("footprint (1, 0) is inside 3x3");
    assert_eq!(quad.0, grey(1.0)); // top-left     (row 0, col 1)
    assert_eq!(quad.1, grey(2.0)); // top-right    (row 0, col 2)
    assert_eq!(quad.2, grey(11.0)); // bottom-left  (row 1, col 1)
    assert_eq!(quad.3, grey(12.0)); // bottom-right (row 1, col 2)
}

#[test]
fn sample_quad_outside_is_none() {
    let f = Frame::new(3, 3, 3);
    assert!(sample_quad(&f, 2, 0).is_none());
    assert!(sample_quad(&f, 0, 2).is_none());
    assert!(sample_quad(&f, -1, 5).is_none());
}

#[test]
fn integer_centre_footprint_reads_the_source_pixel() {
    // A ramp image: pixel value = column index.  At an exact integer
    // sample location the top-left corner of the footprint is the source
    // pixel itself, so a bilinear blend with zero fractions reproduces
    // the ramp exactly.
    let mut f = Frame::new(4, 4, 4);
    for y in 0..4 {
        for x in 0..4 {
            f.set(y, x, grey(x as f32));
        }
    }
    for y in 0..3i64 {
        for x in 0..3i64 {
            let quad = sample_quad(&f, x, y).expect("interior footprint");
            assert_eq!(quad.0, grey(x as f32));
        }
    }
}
