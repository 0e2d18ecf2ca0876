use kmsfb::gfx::GFX;
use kmsfb::surface::Color;
use kmsfb::surface::DrawError;
use kmsfb::surface::FrameBuffer;

fn gfx(width: u32, height: u32) -> GFX {
    let pitch = width * 4;
    let region = memmap::MmapMut::map_anon((height * pitch) as usize).unwrap();
    GFX::new(FrameBuffer::new(region, width, height, pitch).unwrap())
}

fn pixel(g: &GFX, x: u32, y: u32) -> Color {
    g.fb.get(x, y).unwrap()
}

#[test]
fn clear_paints_every_pixel() {
    let mut g = gfx(200, 120);
    let c = Color::new(7, 8, 9, 10);
    g.clear(&c);
    for y in 0..120 {
        for x in 0..200 {
            assert_eq!(pixel(&g, x, y), c);
        }
    }
}

#[test]
fn rectangle_paints_exactly_its_pixels() {
    let mut g = gfx(100, 80);
    let bg = Color::new(0, 0, 0, 0);
    g.clear(&bg);
    let c = Color::new(255, 128, 64, 32);
    assert!(g.rectangle(10, 20, 30, 40, &c).is_ok());
    // the four corners of [10, 40) x [20, 60)
    assert_eq!(pixel(&g, 10, 20), c);
    assert_eq!(pixel(&g, 39, 20), c);
    assert_eq!(pixel(&g, 10, 59), c);
    assert_eq!(pixel(&g, 39, 59), c);
    // one interior point
    assert_eq!(pixel(&g, 25, 40), c);
    // just outside each edge
    assert_eq!(pixel(&g, 9, 20), bg);
    assert_eq!(pixel(&g, 40, 20), bg);
    assert_eq!(pixel(&g, 10, 19), bg);
    assert_eq!(pixel(&g, 10, 60), bg);
    // a full scan: inside if and only if painted
    for y in 0..80 {
        for x in 0..100 {
            let inside = (10..40).contains(&x) && (20..60).contains(&y);
            assert_eq!(pixel(&g, x, y), if inside { c } else { bg });
        }
    }
}

#[test]
fn rectangle_leaving_the_surface_is_refused_whole() {
    let mut g = gfx(50, 50);
    let bg = Color::new(3, 3, 3, 3);
    g.clear(&bg);
    let c = Color::new(255, 0, 0, 255);
    assert_eq!(g.rectangle(45, 0, 10, 5, &c), Err(DrawError::OutOfRange));
    assert_eq!(g.rectangle(0, 45, 5, 10, &c), Err(DrawError::OutOfRange));
    for y in 0..50 {
        for x in 0..50 {
            assert_eq!(pixel(&g, x, y), bg);
        }
    }
}

#[test]
fn empty_rectangle_succeeds_and_paints_nothing() {
    let mut g = gfx(20, 20);
    let bg = Color::new(1, 2, 3, 4);
    g.clear(&bg);
    let c = Color::new(9, 9, 9, 9);
    assert!(g.rectangle(5, 5, 0, 10, &c).is_ok());
    assert!(g.rectangle(5, 5, 10, 0, &c).is_ok());
    // an empty rectangle succeeds even where its corner is off the surface
    assert!(g.rectangle(1000, 1000, 0, 0, &c).is_ok());
    for y in 0..20 {
        for x in 0..20 {
            assert_eq!(pixel(&g, x, y), bg);
        }
    }
}

#[test]
fn point_draws_one_pixel() {
    let mut g = gfx(10, 10);
    let bg = Color::new(0, 0, 0, 0);
    g.clear(&bg);
    let c = Color::new(50, 60, 70, 80);
    assert!(g.point(4, 5, &c).is_ok());
    assert_eq!(g.point(10, 5, &c), Err(DrawError::OutOfRange));
    for y in 0..10 {
        for x in 0..10 {
            let expect = if x == 4 && y == 5 { c } else { bg };
            assert_eq!(pixel(&g, x, y), expect);
        }
    }
}

#[test]
fn vertical_line_paints_a_column() {
    let mut g = gfx(30, 30);
    let bg = Color::new(0, 0, 0, 0);
    g.clear(&bg);
    let c = Color::new(11, 12, 13, 14);
    assert!(g.vertical_line(7, 3, 20, &c).is_ok());
    for y in 0..30 {
        for x in 0..30 {
            let inside = x == 7 && (3..23).contains(&y);
            assert_eq!(pixel(&g, x, y), if inside { c } else { bg });
        }
    }
    assert_eq!(g.vertical_line(7, 15, 20, &c), Err(DrawError::OutOfRange));
    assert!(g.vertical_line(29, 30, 0, &c).is_ok());
}

#[test]
fn horizontal_line_paints_a_row() {
    let mut g = gfx(30, 30);
    let bg = Color::new(0, 0, 0, 0);
    g.clear(&bg);
    let c = Color::new(21, 22, 23, 24);
    assert!(g.horizontal_line(3, 7, 20, &c).is_ok());
    for y in 0..30 {
        for x in 0..30 {
            let inside = y == 7 && (3..23).contains(&x);
            assert_eq!(pixel(&g, x, y), if inside { c } else { bg });
        }
    }
    assert_eq!(g.horizontal_line(15, 7, 20, &c), Err(DrawError::OutOfRange));
    assert!(g.horizontal_line(30, 29, 0, &c).is_ok());
}

#[test]
fn test_pattern_paints_lines_and_square() {
    let mut g = gfx(120, 120);
    let bg = Color::new(0, 0, 0, 0);
    g.clear(&bg);
    assert!(g.test().is_ok());
    let white = Color::new(255, 255, 255, 255);
    for y in 0..120 {
        for x in 0..120 {
            let inside = (x == 0 && y < 100) || (y == 0 && x < 100) || ((10..110).contains(&x)
                && (10..110).contains(&y));
            assert_eq!(pixel(&g, x, y), if inside { white } else { bg });
        }
    }
}

#[test]
fn test_pattern_refused_on_small_surface() {
    let mut g = gfx(100, 100);
    let bg = Color::new(5, 5, 5, 5);
    g.clear(&bg);
    assert_eq!(g.test(), Err(DrawError::OutOfRange));
    for y in 0..100 {
        for x in 0..100 {
            assert_eq!(pixel(&g, x, y), bg);
        }
    }
}
