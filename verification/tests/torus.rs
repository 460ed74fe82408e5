use game_of_life::torus::wrap;

#[test]
fn wrap_stays_inside_the_axis() {
    assert_eq!(wrap(2, 1, 5), 3);
    assert_eq!(wrap(2, 0, 5), 2);
    assert_eq!(wrap(2, 4, 5), 1);
}

#[test]
fn wrap_crosses_the_far_end() {
    assert_eq!(wrap(4, 1, 5), 0);
    assert_eq!(wrap(63, 1, 64), 0);
}

#[test]
fn wrap_crosses_the_near_end() {
    assert_eq!(wrap(0, 4, 5), 4);
    assert_eq!(wrap(0, 63, 64), 63);
}

#[test]
fn wrap_on_an_axis_of_length_one() {
    assert_eq!(wrap(0, 0, 1), 0);
    assert_eq!(wrap(0, 1, 1), 0);
}

#[test]
fn wrap_does_not_overflow() {
    assert_eq!(wrap(u32::MAX - 1, u32::MAX - 1, u32::MAX), u32::MAX - 2);
    assert_eq!(wrap(u32::MAX, u32::MAX, u32::MAX), 0);
    assert_eq!(wrap(3_000_000_000, 2_999_999_999, 3_000_000_001), 2_999_999_998);
}
