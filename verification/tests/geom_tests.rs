use pet_core::geom::Point;
use pet_core::geom::boxes_intersect;

#[test]
fn boundary_touch_counts_as_intersecting() {
    // pet half-extent 64, supply half-extent 10: centers exactly 74 apart
    let pet = Point { x: 0, y: 0 };
    let supply = Point { x: 74, y: 0 };
    assert!(boxes_intersect(pet, 64, 64, supply, 10, 10));
    // the same on the vertical axis
    let above = Point { x: 0, y: -74 };
    assert!(boxes_intersect(pet, 64, 64, above, 10, 10));
    // corner touch: boundary distance on both axes at once
    let corner = Point { x: 74, y: 74 };
    assert!(boxes_intersect(pet, 64, 64, corner, 10, 10));
}

#[test]
fn one_unit_past_boundary_is_disjoint() {
    let pet = Point { x: 0, y: 0 };
    let supply = Point { x: 75, y: 0 };
    assert!(!boxes_intersect(pet, 64, 64, supply, 10, 10));
    let diagonal = Point { x: 74, y: 75 };
    assert!(!boxes_intersect(pet, 64, 64, diagonal, 10, 10));
}

#[test]
fn overlapping_and_contained_boxes_intersect() {
    let pet = Point { x: 10, y: -20 };
    assert!(boxes_intersect(pet, 64, 64, Point { x: 30, y: -40 }, 5, 5));
    // a box wholly inside the pet's box
    assert!(boxes_intersect(pet, 64, 64, Point { x: 10, y: -20 }, 1, 1));
    // zero-size box on the pet's center
    assert!(boxes_intersect(pet, 64, 64, Point { x: 10, y: -20 }, 0, 0));
}

#[test]
fn intersection_is_symmetric_in_the_inputs() {
    let a = Point { x: -5, y: 3 };
    let b = Point { x: 60, y: 3 };
    assert_eq!(
        boxes_intersect(a, 64, 64, b, 2, 2),
        boxes_intersect(b, 2, 2, a, 64, 64)
    );
}
