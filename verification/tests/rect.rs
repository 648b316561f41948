//! Cases of the areas that lie on one side of another area.

use dumo::backend::rect::RectangleExt;
use dumo::geometry::{Point, Rectangle, Size};

#[test]
fn left_of_800_for_1111_2222_3333_4444() {
    let result = Rectangle::new(Point::new(1111, 2222), Size::new(3333, 4444)).left_of(&Rectangle::new(Point::new(800, 2222), Size::new(3333, 4444)));
    assert_eq!(result, Rectangle::new(Point::new(1111, 2222), Size::new(0, 4444)));
}

#[test]
fn left_of_1600_for_1111_2222_3333_4444() {
    let result = Rectangle::new(Point::new(1111, 2222), Size::new(3333, 4444)).left_of(&Rectangle::new(Point::new(1600, 2222), Size::new(3333, 4444)));
    assert_eq!(result, Rectangle::new(Point::new(1111, 2222), Size::new(1600 - 1111, 4444)));
}

#[test]
fn left_of_3200_for_1111_2222_3333_4444() {
    let result = Rectangle::new(Point::new(1111, 2222), Size::new(3333, 4444)).left_of(&Rectangle::new(Point::new(3200, 2222), Size::new(3333, 4444)));
    assert_eq!(result, Rectangle::new(Point::new(1111, 2222), Size::new(3200 - 1111, 4444)));
}

#[test]
fn left_of_6400_for_1111_2222_3333_4444() {
    let result = Rectangle::new(Point::new(1111, 2222), Size::new(3333, 4444)).left_of(&Rectangle::new(Point::new(6400, 2222), Size::new(3333, 4444)));
    assert_eq!(result, Rectangle::new(Point::new(1111, 2222), Size::new(3333, 4444)));
}

#[test]
fn left_of_0_for_0_0_0_0() {
    let result = Rectangle::new(Point::new(0, 0), Size::new(0, 0)).left_of(&Rectangle::new(Point::new(0, 0), Size::new(0, 0)));
    assert_eq!(result, Rectangle::new(Point::new(0, 0), Size::new(0, 0)));
}

#[test]
fn left_of_minus_1_for_min_min_max_max() {
    let result = Rectangle::new(Point::new(i32::MIN, i32::MIN), Size::new(u32::MAX, u32::MAX)).left_of(&Rectangle::new(Point::new(-1, i32::MIN), Size::new(u32::MAX, u32::MAX)));
    assert_eq!(result, Rectangle::new(Point::new(i32::MIN, i32::MIN), Size::new(u32::MAX / 2, u32::MAX)));
}

#[test]
fn left_of_minus_1_for_max_max_max_max() {
    let result = Rectangle::new(Point::new(i32::MAX, i32::MAX), Size::new(u32::MAX, u32::MAX)).left_of(&Rectangle::new(Point::new(-1, i32::MIN), Size::new(u32::MAX, u32::MAX)));
    assert_eq!(result, Rectangle::new(Point::new(i32::MAX, i32::MAX), Size::new(0, u32::MAX)));
}

#[test]
fn right_of_800_for_1111_2222_3333_4444() {
    let result = Rectangle::new(Point::new(1111, 2222), Size::new(3333, 4444)).right_of(&Rectangle::new(Point::new(0, 2222), Size::new(800, 4444)));
    assert_eq!(result, Rectangle::new(Point::new(1111, 2222), Size::new(3333, 4444)));
}

#[test]
fn right_of_1600_for_1111_2222_3333_4444() {
    let result = Rectangle::new(Point::new(1111, 2222), Size::new(3333, 4444)).right_of(&Rectangle::new(Point::new(0, 2222), Size::new(1600, 4444)));
    assert_eq!(result, Rectangle::new(Point::new(1600, 2222), Size::new(3333 + 1111 - 1600, 4444)));
}

#[test]
fn right_of_3200_for_1111_2222_3333_4444() {
    let result = Rectangle::new(Point::new(1111, 2222), Size::new(3333, 4444)).right_of(&Rectangle::new(Point::new(0, 2222), Size::new(3200, 4444)));
    assert_eq!(result, Rectangle::new(Point::new(3200, 2222), Size::new(3333 + 1111 - 3200, 4444)));
}

#[test]
fn right_of_6400_for_1111_2222_3333_4444() {
    let result = Rectangle::new(Point::new(1111, 2222), Size::new(3333, 4444)).right_of(&Rectangle::new(Point::new(0, 2222), Size::new(6400, 4444)));
    assert_eq!(result, Rectangle::new(Point::new(6400, 2222), Size::new(0, 4444)));
}

#[test]
fn right_of_0_for_0_0_0_0() {
    let result = Rectangle::new(Point::new(0, 0), Size::new(0, 0)).right_of(&Rectangle::new(Point::new(0, 0), Size::new(0, 0)));
    assert_eq!(result, Rectangle::new(Point::new(0, 0), Size::new(0, 0)));
}

#[test]
fn right_of_minus_1_for_min_min_max_max() {
    let result = Rectangle::new(Point::new(i32::MIN, i32::MIN), Size::new(u32::MAX, u32::MAX)).right_of(&Rectangle::new(Point::new(i32::MIN, i32::MIN), Size::new(u32::MAX / 2, u32::MAX)));
    assert_eq!(result, Rectangle::new(Point::new(-1, i32::MIN), Size::new(u32::MAX / 2 + 1, u32::MAX)));
}

#[test]
fn right_of_minus_1_for_max_max_max_max() {
    let result = Rectangle::new(Point::new(i32::MAX, i32::MAX), Size::new(u32::MAX, u32::MAX)).right_of(&Rectangle::new(Point::new(i32::MIN, i32::MIN), Size::new(u32::MAX / 2, u32::MAX)));
    assert_eq!(result, Rectangle::new(Point::new(i32::MAX, i32::MAX), Size::new(u32::MAX, u32::MAX)));
}

#[test]
fn below_800_for_1111_2222_3333_4444() {
    let result = Rectangle::new(Point::new(1111, 2222), Size::new(3333, 4444)).below(&Rectangle::new(Point::new(1111, 0), Size::new(3333, 800)));
    assert_eq!(result, Rectangle::new(Point::new(1111, 2222), Size::new(3333, 4444)));
}

#[test]
fn below_1600_for_1111_2222_3333_4444() {
    let result = Rectangle::new(Point::new(1111, 2222), Size::new(3333, 4444)).below(&Rectangle::new(Point::new(1111, 0), Size::new(3333, 1600)));
    assert_eq!(result, Rectangle::new(Point::new(1111, 2222), Size::new(3333, 4444)));
}

#[test]
fn below_3200_for_1111_2222_3333_4444() {
    let result = Rectangle::new(Point::new(1111, 2222), Size::new(3333, 4444)).below(&Rectangle::new(Point::new(1111, 0), Size::new(3333, 3200)));
    assert_eq!(result, Rectangle::new(Point::new(1111, 3200), Size::new(3333, 4444 + 2222 - 3200)));
}

#[test]
fn below_6400_for_1111_2222_3333_4444() {
    let result = Rectangle::new(Point::new(1111, 2222), Size::new(3333, 4444)).below(&Rectangle::new(Point::new(1111, 0), Size::new(3333, 6400)));
    assert_eq!(result, Rectangle::new(Point::new(1111, 6400), Size::new(3333, 4444 + 2222 - 6400)));
}

#[test]
fn below_0_for_0_0_0_0() {
    let result = Rectangle::new(Point::new(0, 0), Size::new(0, 0)).below(&Rectangle::new(Point::new(0, 0), Size::new(0, 0)));
    assert_eq!(result, Rectangle::new(Point::new(0, 0), Size::new(0, 0)));
}

#[test]
fn below_minus_1_for_min_min_max_max() {
    let result = Rectangle::new(Point::new(i32::MIN, i32::MIN), Size::new(u32::MAX, u32::MAX)).below(&Rectangle::new(Point::new(i32::MIN, i32::MIN), Size::new(u32::MAX, u32::MAX / 2)));
    assert_eq!(result, Rectangle::new(Point::new(i32::MIN, -1), Size::new(u32::MAX, u32::MAX / 2 + 1)));
}

#[test]
fn below_minus_1_for_max_max_max_max() {
    let result = Rectangle::new(Point::new(i32::MAX, i32::MAX), Size::new(u32::MAX, u32::MAX)).below(&Rectangle::new(Point::new(i32::MIN, i32::MIN), Size::new(u32::MAX, u32::MAX / 2)));
    assert_eq!(result, Rectangle::new(Point::new(i32::MAX, i32::MAX), Size::new(u32::MAX, u32::MAX)));
}

#[test]
fn indent_to_800_for_1111_2222_3333_4444() {
    let result = Rectangle::new(Point::new(1111, 2222), Size::new(3333, 4444)).indent_to(800);
    assert_eq!(result, Rectangle::new(Point::new(1111, 2222), Size::new(3333, 4444)));
}

#[test]
fn indent_to_1600_for_1111_2222_3333_4444() {
    let result = Rectangle::new(Point::new(1111, 2222), Size::new(3333, 4444)).indent_to(1600);
    assert_eq!(result, Rectangle::new(Point::new(1600, 2222), Size::new(3333 + 1111 - 1600, 4444)));
}

#[test]
fn indent_to_3200_for_1111_2222_3333_4444() {
    let result = Rectangle::new(Point::new(1111, 2222), Size::new(3333, 4444)).indent_to(3200);
    assert_eq!(result, Rectangle::new(Point::new(3200, 2222), Size::new(3333 + 1111 - 3200, 4444)));
}

#[test]
fn indent_to_6400_for_1111_2222_3333_4444() {
    let result = Rectangle::new(Point::new(1111, 2222), Size::new(3333, 4444)).indent_to(6400);
    assert_eq!(result, Rectangle::new(Point::new(6400, 2222), Size::new(0, 4444)));
}

#[test]
fn indent_to_0_for_0_0_0_0() {
    let result = Rectangle::new(Point::new(0, 0), Size::new(0, 0)).indent_to(0);
    assert_eq!(result, Rectangle::new(Point::new(0, 0), Size::new(0, 0)));
}

#[test]
fn indent_to_minus_1_for_min_min_max_max() {
    let result = Rectangle::new(Point::new(i32::MIN, i32::MIN), Size::new(u32::MAX, u32::MAX)).indent_to(-1);
    assert_eq!(result, Rectangle::new(Point::new(-1, i32::MIN), Size::new(u32::MAX / 2 + 1, u32::MAX)));
}

#[test]
fn indent_to_minus_1_for_max_max_max_max() {
    let result = Rectangle::new(Point::new(i32::MAX, i32::MAX), Size::new(u32::MAX, u32::MAX)).indent_to(-1);
    assert_eq!(result, Rectangle::new(Point::new(i32::MAX, i32::MAX), Size::new(u32::MAX, u32::MAX)));
}

#[test]
fn right_of_stays_within_a_rectangle_wider_than_half_the_range() {
    let s = Rectangle::new(Point::new(i32::MIN, 0), Size::new(u32::MAX, 1));
    let o = Rectangle::new(Point::new(0, 0), Size::new(0, 1));
    assert_eq!(s.right_of(&o), Rectangle::new(Point::new(0, 0), Size::new(i32::MAX as u32, 1)));
}

#[test]
fn left_of_takes_all_columns_before_the_area() {
    let s = Rectangle::new(Point::new(i32::MIN, 0), Size::new(u32::MAX, 1));
    let o = Rectangle::new(Point::new(i32::MAX, 0), Size::new(1, 1));
    assert_eq!(s.left_of(&o), s);
}

#[test]
fn y_reduce_keeps_the_rows_in_range() {
    let s = Rectangle::new(Point::new(0, i32::MIN), Size::new(1, u32::MAX));
    assert_eq!(s.y_reduce(0, i32::MAX), Rectangle::new(Point::new(0, 0), Size::new(1, i32::MAX as u32)));
    assert_eq!(s.y_reduce(i32::MIN, i32::MAX), s);
    let t = Rectangle::new(Point::new(0, 10), Size::new(1, 20));
    assert_eq!(t.y_reduce(15, 18), Rectangle::new(Point::new(0, 15), Size::new(1, 3)));
    assert_eq!(t.y_reduce(0, 100), t);
    assert_eq!(t.y_reduce(40, 50), Rectangle::new(Point::new(0, 40), Size::new(1, 0)));
}

#[test]
fn right_of_an_area_reaching_past_the_last_column_is_empty() {
    let s = Rectangle::new(Point::new(i32::MAX - 1, 0), Size::new(5, 1));
    let r = s.right_of(&s);
    assert_eq!(r.size.width, 0);
    let b = Rectangle::new(Point::new(0, i32::MAX - 1), Size::new(1, 5));
    assert_eq!(b.below(&b).size.height, 0);
}
