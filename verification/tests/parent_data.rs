use frui_render::geometry::Offset;
use frui_render::parent_data::{Holds, PlainData};

#[test]
fn erase_boxes_each_type_in_its_own_variant() {
    assert_eq!(<PlainData as Holds<bool>>::erase(true), PlainData::Flag(true));
    assert_eq!(<PlainData as Holds<u64>>::erase(7), PlainData::Count(7));
    assert_eq!(
        <PlainData as Holds<Offset>>::erase(Offset { x: 1, y: -1 }),
        PlainData::Position(Offset { x: 1, y: -1 })
    );
}

#[test]
fn downcast_ref_shows_the_stored_type_only() {
    let count = PlainData::Count(7);
    assert_eq!(Holds::<u64>::downcast_ref(&count), Some(&7));
    assert_eq!(Holds::<bool>::downcast_ref(&count), None);
    assert_eq!(Holds::<Offset>::downcast_ref(&count), None);
    let flag = PlainData::Flag(false);
    assert_eq!(Holds::<bool>::downcast_ref(&flag), Some(&false));
    assert_eq!(Holds::<u64>::downcast_ref(&flag), None);
    let position = PlainData::Position(Offset { x: 3, y: 4 });
    assert_eq!(Holds::<Offset>::downcast_ref(&position), Some(&Offset { x: 3, y: 4 }));
    assert_eq!(Holds::<bool>::downcast_ref(&position), None);
}

#[test]
fn a_count_of_one_is_not_a_flag() {
    let one = PlainData::Count(1);
    assert_eq!(Holds::<bool>::downcast_ref(&one), None);
    let zero = PlainData::Count(0);
    assert_eq!(Holds::<bool>::downcast_ref(&zero), None);
}

#[test]
fn empty_box_shows_nothing() {
    let mut empty = PlainData::Empty;
    assert_eq!(Holds::<bool>::downcast_ref(&empty), None);
    assert_eq!(Holds::<u64>::downcast_ref(&empty), None);
    assert_eq!(Holds::<Offset>::downcast_ref(&empty), None);
    assert_eq!(Holds::<u64>::downcast_mut(&mut empty), None);
    assert_eq!(empty, PlainData::Empty);
}

#[test]
fn downcast_mut_writes_into_the_box() {
    let mut count = PlainData::Count(7);
    if let Some(value) = Holds::<u64>::downcast_mut(&mut count) {
        *value = 8;
    }
    assert_eq!(count, PlainData::Count(8));
    let mut position = PlainData::Position(Offset { x: 3, y: 4 });
    if let Some(value) = Holds::<Offset>::downcast_mut(&mut position) {
        value.y = 40;
    }
    assert_eq!(position, PlainData::Position(Offset { x: 3, y: 40 }));
    let mut flag = PlainData::Flag(false);
    if let Some(value) = Holds::<bool>::downcast_mut(&mut flag) {
        *value = true;
    }
    assert_eq!(flag, PlainData::Flag(true));
}

#[test]
fn downcast_mut_as_another_type_leaves_the_box() {
    let mut count = PlainData::Count(7);
    assert_eq!(Holds::<bool>::downcast_mut(&mut count), None);
    assert_eq!(Holds::<Offset>::downcast_mut(&mut count), None);
    assert_eq!(count, PlainData::Count(7));
}

#[test]
fn unwritten_view_leaves_the_box() {
    let mut count = PlainData::Count(7);
    let view = Holds::<u64>::downcast_mut(&mut count);
    assert_eq!(view, Some(&mut 7));
    assert_eq!(count, PlainData::Count(7));
}
