use metaballs::field::{field_at, influence_at, Blob};
use metaballs::glyph::{blocks_glyph, contour_glyph, gooey_glyph, gradient_glyph, solid_glyph};
use metaballs::trig::{cos_milli, sin_milli};
use metaballs::{FIELD_LIMIT_MILLI, SENTINEL_INFLUENCE_MILLI};

#[test]
fn sin_quarter_turns() {
    assert_eq!(sin_milli(0), 0);
    assert_eq!(sin_milli(1571), 1000);
    assert_eq!(sin_milli(3142), 0);
    assert_eq!(sin_milli(4713), -1000);
    assert_eq!(sin_milli(6284), 0);
}

#[test]
fn sin_is_periodic() {
    for a in [1, 100, 777, 3000, 5000] {
        assert_eq!(sin_milli(a), sin_milli(a + 6284));
        assert_eq!(sin_milli(a), sin_milli(a + 5 * 6284));
    }
}

#[test]
fn sin_stays_in_milli_range() {
    let mut a: i64 = 0;
    while a < 20000 {
        let s = sin_milli(a);
        assert!(-1000 <= s && s <= 1000);
        a += 37;
    }
}

#[test]
fn cos_quarter_turns() {
    assert_eq!(cos_milli(0), 1000);
    assert_eq!(cos_milli(1571), 0);
    assert_eq!(cos_milli(3142), -1000);
    assert_eq!(cos_milli(4713), 0);
}

#[test]
fn influence_at_center_is_sentinel() {
    let b = Blob::new(10000, 5000, 3000);
    assert_eq!(influence_at(&b, 10000, 5000), SENTINEL_INFLUENCE_MILLI);
}

#[test]
fn influence_near_center_is_sentinel() {
    // dx^2/4 + dy^2 = 6 + 25 micro units, inside the epsilon region.
    let b = Blob::new(10000, 5000, 100);
    assert_eq!(influence_at(&b, 10005, 5005), SENTINEL_INFLUENCE_MILLI);
}

#[test]
fn influence_exact_value() {
    // dist_sq = 4000^2/4 + 3000^2 = 13_000_000; 2000^2 * 1000 / 13e6 = 307.
    let b = Blob::new(0, 0, 2000);
    assert_eq!(influence_at(&b, 4000, 3000), 307);
}

#[test]
fn influence_uses_aspect_corrected_distance() {
    // A horizontal offset counts half: 4 units across equal 2 units down.
    let b = Blob::new(0, 0, 2000);
    assert_eq!(influence_at(&b, 4000, 0), influence_at(&b, 0, 2000));
}

#[test]
fn influence_decreases_with_distance() {
    let b = Blob::new(0, 0, 2500);
    let near = influence_at(&b, 2000, 1000);
    let mid = influence_at(&b, 4000, 2000);
    let far = influence_at(&b, 8000, 4000);
    assert!(near > mid);
    assert!(mid > far);
}

#[test]
fn field_sums_influences() {
    let b1 = Blob::new(0, 0, 2000);
    let b2 = Blob::new(8000, 0, 1500);
    let sources = vec![b1, b2];
    let f = field_at(&sources, 4000, 3000);
    assert_eq!(f, influence_at(&b1, 4000, 3000) + influence_at(&b2, 4000, 3000));
}

#[test]
fn field_is_order_independent() {
    let b1 = Blob::new(0, 0, 2000);
    let b2 = Blob::new(8000, 2000, 1500);
    let b3 = Blob::new(3000, 9000, 3200);
    let one = vec![b1, b2, b3];
    let two = vec![b3, b1, b2];
    let three = vec![b2, b3, b1];
    for (px, py) in [(0, 0), (4000, 3000), (12000, 7000), (80000, 35000)] {
        let f = field_at(&one, px, py);
        assert_eq!(f, field_at(&two, px, py));
        assert_eq!(f, field_at(&three, px, py));
    }
}

#[test]
fn gradient_ladder() {
    assert_eq!(gradient_glyph(0), ' ');
    assert_eq!(gradient_glyph(99), ' ');
    assert_eq!(gradient_glyph(100), ' ');
    assert_eq!(gradient_glyph(200), '.');
    assert_eq!(gradient_glyph(400), ':');
    assert_eq!(gradient_glyph(999), '=');
    assert_eq!(gradient_glyph(1000), '+');
    assert_eq!(gradient_glyph(1750), '*');
    assert_eq!(gradient_glyph(2500), '#');
    assert_eq!(gradient_glyph(3250), '%');
    assert_eq!(gradient_glyph(4000), '@');
}

#[test]
fn gradient_index_clamps_for_huge_fields() {
    assert_eq!(gradient_glyph(4001), '@');
    assert_eq!(gradient_glyph(1_000_000), '@');
    assert_eq!(gradient_glyph(FIELD_LIMIT_MILLI), '@');
}

#[test]
fn solid_ladder() {
    assert_eq!(solid_glyph(999), ' ');
    assert_eq!(solid_glyph(1000), '*');
    assert_eq!(solid_glyph(2000), '*');
    assert_eq!(solid_glyph(2001), '#');
    assert_eq!(solid_glyph(3000), '#');
    assert_eq!(solid_glyph(3001), '@');
}

#[test]
fn gooey_ladder() {
    assert_eq!(gooey_glyph(299), ' ');
    assert_eq!(gooey_glyph(300), '·');
    assert_eq!(gooey_glyph(599), '·');
    assert_eq!(gooey_glyph(600), '○');
    assert_eq!(gooey_glyph(899), '○');
    assert_eq!(gooey_glyph(900), '◯');
    assert_eq!(gooey_glyph(999), '◯');
    assert_eq!(gooey_glyph(1000), '●');
    assert_eq!(gooey_glyph(1299), '●');
    assert_eq!(gooey_glyph(1300), '◉');
    assert_eq!(gooey_glyph(1999), '◉');
    assert_eq!(gooey_glyph(2000), '◈');
}

#[test]
fn blocks_count_ramp() {
    assert_eq!(blocks_glyph(0, 5000), ' ');
    assert_eq!(blocks_glyph(1, 5000), '░');
    assert_eq!(blocks_glyph(2, 5000), '▒');
    assert_eq!(blocks_glyph(3, 5000), '▓');
}

#[test]
fn blocks_full_coverage_split() {
    // Full coverage with a corner field at most twice the threshold picks
    // the second-densest glyph, not the densest.
    assert_eq!(blocks_glyph(4, 1999), '▓');
    assert_eq!(blocks_glyph(4, 2000), '▓');
    assert_eq!(blocks_glyph(4, 2001), '█');
}

#[test]
fn contour_edge_thickness() {
    assert_eq!(contour_glyph(true, true, 1501), '@');
    assert_eq!(contour_glyph(true, true, 1500), '#');
    assert_eq!(contour_glyph(true, true, 1201), '#');
    assert_eq!(contour_glyph(true, true, 1200), 'O');
    assert_eq!(contour_glyph(true, false, 900), 'O');
}

#[test]
fn contour_non_edge_cells() {
    assert_eq!(contour_glyph(false, true, 5000), '.');
    assert_eq!(contour_glyph(false, false, 900), ' ');
}
