use snake_model::rng::point_from_random;
use snake_model::rng::random_point;

#[test]
fn point_from_random_reduces_modulo_board_size() {
    assert_eq!(point_from_random(0, 0), snake_model::geometry::Point::new(0, 0));
    assert_eq!(point_from_random(35, 25), snake_model::geometry::Point::new(3, 1));
    assert_eq!(point_from_random(31, 23), snake_model::geometry::Point::new(31, 23));
    assert_eq!(point_from_random(32, 24), snake_model::geometry::Point::new(0, 0));
    assert_eq!(point_from_random(u32::MAX, u32::MAX), snake_model::geometry::Point::new(31, 15));
}

#[test]
fn ten_thousand_apples_all_land_on_the_board() {
    for _ in 0..10_000 {
        let p = random_point();
        assert!(p.x >= 0 && p.x <= 31, "x out of bounds: {}", p.x);
        assert!(p.y >= 0 && p.y <= 23, "y out of bounds: {}", p.y);
    }
}
