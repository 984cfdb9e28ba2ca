use galangua::types::Vec2I;

#[test]
fn test_vec2i_ops() {
    assert_eq!(Vec2I::new(4, 6), Vec2I::new(1, 2).add(&Vec2I::new(3, 4)));
    assert_eq!(Vec2I::new(1, 12), Vec2I::new(10, 20).sub(&Vec2I::new(9, 8)));
    assert_eq!(Vec2I::new(33, 69), Vec2I::new(11, 23).mul(3));
    assert_eq!(Vec2I::new(1, 45), Vec2I::new(123, 4567).div(100));
}

#[test]
fn vec2i_neg_and_add_assign() {
    assert_eq!(Vec2I::new(-3, 7), Vec2I::new(3, -7).neg());
    let mut v = Vec2I::new(1, 1);
    v.add_assign(Vec2I::new(2, -5));
    assert_eq!(Vec2I::new(3, -4), v);
}

#[test]
fn vec2i_div_truncates_toward_zero() {
    assert_eq!(Vec2I::new(-1, -45), Vec2I::new(-123, -4567).div(100));
}
