use framesense::geometry::BoundsKey;
use framesense::geometry::CaptureBounds;
use framesense::geometry::GeometryError;
use framesense::geometry::MIN_CAPTURE_SIZE;

fn rect(x: i32, y: i32, width: u32, height: u32) -> CaptureBounds {
    CaptureBounds { x, y, width, height }
}

fn normalized(raw: CaptureBounds, sw: u32, sh: u32) -> CaptureBounds {
    BoundsKey::normalize(raw, sw, sh).unwrap().bounds()
}

#[test]
fn normalize_keeps_a_rectangle_that_lies_on_the_screen() {
    assert_eq!(normalized(rect(10, 20, 300, 200), 1920, 1080), rect(10, 20, 300, 200));
    assert_eq!(normalized(rect(0, 0, 1920, 1080), 1920, 1080), rect(0, 0, 1920, 1080));
}

#[test]
fn normalize_moves_a_negative_origin_to_zero() {
    assert_eq!(normalized(rect(-5, -7, 100, 50), 800, 600), rect(0, 0, 100, 50));
    assert_eq!(normalized(rect(i32::MIN, 3, 100, 50), 800, 600), rect(0, 3, 100, 50));
}

#[test]
fn normalize_moves_a_rectangle_back_onto_the_screen() {
    // 795 + 100 runs over the right edge: the origin moves to 800 - 100
    assert_eq!(normalized(rect(795, 3, 100, 50), 800, 600), rect(700, 3, 100, 50));
    assert_eq!(normalized(rect(10, 590, 100, 50), 800, 600), rect(10, 550, 100, 50));
    assert_eq!(normalized(rect(i32::MAX, i32::MAX, 10, 10), 800, 600), rect(790, 590, 10, 10));
}

#[test]
fn normalize_cuts_a_rectangle_larger_than_the_screen() {
    assert_eq!(normalized(rect(50, 50, 5000, 4000), 800, 600), rect(0, 0, 800, 600));
    assert_eq!(normalized(rect(-3, 0, u32::MAX, u32::MAX), 1920, 1080), rect(0, 0, 1920, 1080));
}

#[test]
fn normalize_handles_a_screen_wider_than_i32() {
    let sw = u32::MAX;
    assert_eq!(
        normalized(rect(i32::MAX, 0, u32::MAX, 10), sw, 10),
        rect(0, 0, u32::MAX, 10)
    );
    assert_eq!(normalized(rect(i32::MAX, 0, 10, 10), sw, 10), rect(i32::MAX, 0, 10, 10));
}

#[test]
fn normalize_refuses_what_is_too_small() {
    assert_eq!(
        BoundsKey::normalize(rect(0, 0, 9, 50), 800, 600),
        Err(GeometryError::TooSmall { width: 9, height: 50 })
    );
    assert_eq!(
        BoundsKey::normalize(rect(0, 0, 50, 9), 800, 600),
        Err(GeometryError::TooSmall { width: 50, height: 9 })
    );
    assert_eq!(
        BoundsKey::normalize(rect(0, 0, 0, 0), 800, 600),
        Err(GeometryError::TooSmall { width: 0, height: 0 })
    );
}

#[test]
fn normalize_refuses_what_the_screen_leaves_too_small() {
    // a screen of 8 pixels leaves no rectangle of 10
    assert_eq!(
        BoundsKey::normalize(rect(0, 0, 100, 100), 8, 600),
        Err(GeometryError::TooSmall { width: 8, height: 100 })
    );
    assert_eq!(
        BoundsKey::normalize(rect(0, 0, 100, 100), 0, 0),
        Err(GeometryError::TooSmall { width: 0, height: 0 })
    );
}

#[test]
fn normalize_accepts_exactly_the_minimum() {
    assert_eq!(MIN_CAPTURE_SIZE, 10);
    let key = BoundsKey::normalize(rect(1, 2, 10, 10), 800, 600).unwrap();
    assert_eq!((key.x(), key.y(), key.width(), key.height()), (1, 2, 10, 10));
}

#[test]
fn normalize_is_idempotent_on_examples() {
    let screens = [(800u32, 600u32), (1920, 1080), (10, 10), (u32::MAX, 77)];
    let raws = [
        rect(-5, -7, 100, 50),
        rect(795, 3, 100, 50),
        rect(50, 50, 5000, 4000),
        rect(i32::MAX, i32::MIN, u32::MAX, 12),
        rect(0, 0, 10, 10),
    ];
    for (sw, sh) in screens {
        for raw in raws {
            let first = BoundsKey::normalize(raw, sw, sh);
            if let Ok(key) = first {
                let again = BoundsKey::normalize(key.bounds(), sw, sh).unwrap();
                assert_eq!(again, key);
                assert!(again.same(&key));
            }
        }
    }
}

#[test]
fn normalize_is_deterministic() {
    let raw = rect(33, 44, 555, 666);
    assert_eq!(BoundsKey::normalize(raw, 500, 500), BoundsKey::normalize(raw, 500, 500));
    let small = rect(33, 44, 5, 666);
    assert_eq!(BoundsKey::normalize(small, 500, 500), BoundsKey::normalize(small, 500, 500));
}

#[test]
fn keys_compare_by_all_four_fields() {
    let a = BoundsKey::normalize(rect(1, 2, 30, 40), 800, 600).unwrap();
    let b = BoundsKey::normalize(rect(1, 2, 30, 40), 800, 600).unwrap();
    assert!(a.same(&b));
    assert_eq!(a, b);
    for other in [rect(2, 2, 30, 40), rect(1, 3, 30, 40), rect(1, 2, 31, 40), rect(1, 2, 30, 41)] {
        let c = BoundsKey::normalize(other, 800, 600).unwrap();
        assert!(!a.same(&c));
        assert_ne!(a, c);
    }
}

#[test]
fn too_small_is_reported_with_the_clamped_extent() {
    let e = BoundsKey::normalize(rect(0, 0, 7, 4000), 800, 600).unwrap_err();
    assert_eq!(e.message(), "Capture area too small after adjustment: 7x600");
    let e = GeometryError::TooSmall { width: 0, height: u32::MAX };
    assert_eq!(e.message(), "Capture area too small after adjustment: 0x4294967295");
}
