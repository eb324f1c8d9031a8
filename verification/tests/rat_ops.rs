use nerteb_2d::rat::Rat;
use nerteb_2d::xy::Xy;

#[test]
fn add_exact_value() {
    let a = Rat::new(1, 2);
    let b = Rat::new(1, 3);
    assert!(a.add(b).eq_val(Rat::new(5, 6)));
}

#[test]
fn sub_exact_value() {
    let a = Rat::new(1, 2);
    let b = Rat::new(1, 3);
    assert!(a.sub(b).eq_val(Rat::new(1, 6)));
}

#[test]
fn mul_exact_value() {
    let a = Rat::new(2, 3);
    let b = Rat::new(3, 4);
    assert!(a.mul(b).eq_val(Rat::new(1, 2)));
}

#[test]
fn eq_val_ignores_representation() {
    assert!(Rat::new(1, 2).eq_val(Rat::new(2, 4)));
    assert!(!Rat::new(1, 2).eq_val(Rat::new(1, 3)));
    assert!(Rat::new(-3, 6).eq_val(Rat::new(-1, 2)));
}

#[test]
fn from_int_is_whole() {
    assert!(Rat::from_int(7).eq_val(Rat::new(14, 2)));
    assert!(Rat::from_int(-2).eq_val(Rat::new(-4, 2)));
}

#[test]
fn plus_fits_now_detects_overflow() {
    let big = Rat::new(i64::MAX, 1);
    assert!(!big.plus_fits_now(big));
    assert!(Rat::new(1, 2).plus_fits_now(Rat::new(1, 3)));
}

#[test]
fn times_fits_now_detects_overflow() {
    let big = Rat::new(i64::MAX, 1);
    assert!(!big.times_fits_now(big));
    assert!(Rat::new(2, 3).times_fits_now(Rat::new(3, 4)));
}

#[test]
fn vector_add_componentwise() {
    let a = Xy::new(Rat::from_int(1), Rat::from_int(2));
    let b = Xy::new(Rat::from_int(10), Rat::from_int(20));
    let s = a.add(b);
    assert!(s.x.eq_val(Rat::from_int(11)));
    assert!(s.y.eq_val(Rat::from_int(22)));
}

#[test]
fn vector_sub_componentwise() {
    let a = Xy::new(Rat::from_int(1), Rat::from_int(2));
    let b = Xy::new(Rat::from_int(10), Rat::from_int(20));
    let d = a.sub(b);
    assert!(d.x.eq_val(Rat::from_int(-9)));
    assert!(d.y.eq_val(Rat::from_int(-18)));
}

#[test]
fn vector_add_commutes() {
    let a = Xy::new(Rat::new(1, 3), Rat::new(-2, 5));
    let b = Xy::new(Rat::new(7, 2), Rat::new(4, 9));
    assert!(a.add(b).eq_val(b.add(a)));
}

#[test]
fn vector_sub_self_is_zero() {
    let a = Xy::new(Rat::new(7, 3), Rat::new(-5, 4));
    let zero = Xy::new(Rat::from_int(0), Rat::from_int(0));
    assert!(a.sub(a).eq_val(zero));
}

#[test]
fn set_overwrites_both_components() {
    let mut a = Xy::new(Rat::from_int(1), Rat::from_int(2));
    a.set(Rat::new(3, 4), Rat::new(5, 6));
    assert!(a.x.eq_val(Rat::new(3, 4)));
    assert!(a.y.eq_val(Rat::new(5, 6)));
}

#[test]
fn add_assign_accumulates() {
    let mut a = Xy::new(Rat::from_int(1), Rat::from_int(1));
    a.add_assign(Xy::new(Rat::new(1, 2), Rat::new(1, 4)));
    assert!(a.x.eq_val(Rat::new(3, 2)));
    assert!(a.y.eq_val(Rat::new(5, 4)));
}

#[test]
fn mul_assign_scales_both_components() {
    let mut a = Xy::new(Rat::from_int(4), Rat::from_int(-6));
    a.mul_assign(Rat::new(1, 2));
    assert!(a.x.eq_val(Rat::from_int(2)));
    assert!(a.y.eq_val(Rat::from_int(-3)));
}
