use trtc::{Canvas, Color, Scalar};

fn sc(x: f64) -> Scalar {
    Scalar::from_raw((x * 1e9).round() as i64)
}

fn color(r: f64, g: f64, b: f64) -> Color {
    Color::new(sc(r), sc(g), sc(b))
}

#[test]
fn test_creating_a_canvas() {
    let c = Canvas::new(10, 20);

    assert_eq!(c.width, 10);
    assert_eq!(c.height, 20);

    for y in 0..c.height {
        for x in 0..c.width {
            assert_eq!(c[(x, y)], color(0.0, 0.0, 0.0));
        }
    }
}

#[test]
fn test_writing_pixels_to_a_canvas() {
    let mut c = Canvas::new(10, 20);
    let red = color(1.0, 0.0, 0.0);

    c[(2, 3)] = red;

    assert_eq!(c[(2, 3)], red);
}

#[test]
fn samples_are_rounded_and_clamped() {
    let mut c = Canvas::new(2, 1);
    c[(0, 0)] = color(1.5, 0.5, -0.5);
    c[(1, 0)] = color(1.0, 0.0, 0.2);

    assert_eq!(c.to_rgb8(), vec![255, 128, 0, 255, 0, 51]);
}

#[test]
fn a_written_pixel_leaves_the_others_black() {
    let mut c = Canvas::new(3, 2);
    c[(1, 1)] = color(0.25, 0.5, 0.75);

    for y in 0..2 {
        for x in 0..3 {
            if (x, y) != (1, 1) {
                assert_eq!(c[(x, y)], color(0.0, 0.0, 0.0));
            }
        }
    }
    assert_eq!(c.pixels.len(), 6);
    assert_eq!(c.pixels[4].g, sc(0.5));
}
