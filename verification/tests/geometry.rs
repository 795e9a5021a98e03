use frui_render::geometry::{Offset, Size};

#[test]
fn offset_default_is_origin() {
    assert_eq!(Offset::default(), Offset { x: 0, y: 0 });
}

#[test]
fn offset_add_is_componentwise() {
    let a = Offset { x: 3, y: -4 };
    let b = Offset { x: 10, y: 20 };
    assert_eq!(a + b, Offset { x: 13, y: 16 });
}

#[test]
fn offset_sub_is_componentwise() {
    let a = Offset { x: 3, y: -4 };
    let b = Offset { x: 10, y: 20 };
    assert_eq!(a - b, Offset { x: -7, y: -24 });
}

#[test]
fn offset_neg_is_componentwise() {
    assert_eq!(-Offset { x: 3, y: -4 }, Offset { x: -3, y: 4 });
}

#[test]
fn offset_and_its_negative_cancel() {
    let a = Offset { x: 12345, y: -678 };
    assert_eq!(a + (-a), Offset { x: 0, y: 0 });
}

#[test]
fn offset_add_then_sub_gives_start() {
    let a = Offset { x: -9, y: 14 };
    let b = Offset { x: 1000, y: -1000 };
    assert_eq!((a + b) - b, a);
}

#[test]
fn checked_sub_gives_difference() {
    let a = Offset { x: 10, y: 20 };
    let b = Offset { x: 7, y: 9 };
    assert_eq!(a.checked_sub(b), Some(Offset { x: 3, y: 11 }));
}

#[test]
fn checked_sub_refuses_overflow_in_x() {
    let a = Offset { x: i64::MIN, y: 0 };
    let b = Offset { x: 1, y: 0 };
    assert_eq!(a.checked_sub(b), None);
}

#[test]
fn checked_sub_refuses_overflow_in_y() {
    let a = Offset { x: 0, y: i64::MAX };
    let b = Offset { x: 0, y: -1 };
    assert_eq!(a.checked_sub(b), None);
}

#[test]
fn checked_sub_reaches_the_limits() {
    let a = Offset { x: i64::MAX, y: i64::MIN };
    let b = Offset { x: 0, y: 0 };
    assert_eq!(a.checked_sub(b), Some(a));
    let c = Offset { x: -1, y: 0 };
    let d = Offset { x: i64::MAX, y: i64::MAX };
    assert_eq!(c.checked_sub(d), Some(Offset { x: i64::MIN, y: -i64::MAX }));
}

#[test]
fn checked_add_gives_sum() {
    let a = Offset { x: 10, y: 20 };
    let b = Offset { x: -7, y: 9 };
    assert_eq!(a.checked_add(b), Some(Offset { x: 3, y: 29 }));
}

#[test]
fn checked_add_refuses_overflow() {
    let a = Offset { x: i64::MAX, y: 0 };
    let b = Offset { x: 1, y: 0 };
    assert_eq!(a.checked_add(b), None);
    let c = Offset { x: 0, y: i64::MIN };
    let d = Offset { x: 0, y: -1 };
    assert_eq!(c.checked_add(d), None);
}

#[test]
fn size_compares_by_fields() {
    assert_eq!(Size { width: 100, height: 50 }, Size { width: 100, height: 50 });
    assert_ne!(Size { width: 100, height: 50 }, Size { width: 50, height: 100 });
}
