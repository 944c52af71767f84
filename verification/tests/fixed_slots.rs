use moving::move_vec_to_array;
use moving::FixedVec;
use moving::MovableArray;
use moving::MovingArrayError;

#[test]
fn from_vec_checks_length() {
    let r = MovableArray::<i32, 5>::from_vec(vec![1, 2, 3]);
    assert!(matches!(
        r,
        Err(MovingArrayError::LengthUnmatch { expected: 5, got: 3 })
    ));
}

#[test]
fn from_vec_checks_capacity() {
    let mut v: Vec<i32> = Vec::with_capacity(8);
    v.push(1);
    v.push(2);
    let r = MovableArray::<i32, 2>::from_vec(v);
    assert!(matches!(
        r,
        Err(MovingArrayError::LengthUnmatch { expected: 2, got: 2 })
    ));
}

#[test]
fn take_is_idempotent() {
    let mut c = MovableArray::<i32, 4>::from_vec(vec![5, 6, 7, 8]).unwrap();
    for i in 0..4usize {
        assert_eq!(c.take(i), Some(5 + i as i32));
        assert_eq!(c.take(i), None);
        assert_eq!(c.take(i), None);
    }
}

#[test]
fn take_matches_position_from_vec() {
    let mut c = MovableArray::<i32, 3>::from_vec(vec![10, 20, 30]).unwrap();
    assert_eq!(c.take(2), Some(30));
    assert_eq!(c.take(0), Some(10));
    assert_eq!(c.take(1), Some(20));
}

#[test]
fn take_matches_position_from_array() {
    let arr: FixedVec<i32, 3> = move_vec_to_array(vec![10, 20, 30]).unwrap();
    let mut c = MovableArray::from_array(arr);
    assert_eq!(c.take(1), Some(20));
    assert_eq!(c.take(0), Some(10));
    assert_eq!(c.take(2), Some(30));
}

#[test]
fn concrete_scenario_take_then_unwrap() {
    let v = vec![String::from("a"), String::from("b"), String::from("c")];
    let mut c = MovableArray::<String, 3>::from_vec(v).unwrap();
    assert_eq!(c.take(1), Some(String::from("b")));
    assert_eq!(c.take(1), None);
    let slots = c.into_inner().into_vec();
    assert_eq!(
        slots,
        vec![Some(String::from("a")), None, Some(String::from("c"))]
    );
}

#[test]
fn range_take_on_untouched_container() {
    let mut c = MovableArray::<i32, 5>::from_vec(vec![0, 1, 2, 3, 4]).unwrap();
    let taken = c.take_range_vec(1..4);
    assert_eq!(taken, vec![Some(1), Some(2), Some(3)]);
    assert_eq!(c.take(1), None);
    assert_eq!(c.take(2), None);
    assert_eq!(c.take(3), None);
    assert_eq!(c.take(0), Some(0));
    assert_eq!(c.take(4), Some(4));
}

#[test]
fn range_take_is_lenient_beyond_bounds() {
    let mut c = MovableArray::<i32, 3>::from_vec(vec![7, 8, 9]).unwrap();
    let taken = c.take_range_vec(2..6);
    assert_eq!(taken, vec![Some(9), None, None, None]);
}

#[test]
fn range_take_empty_range() {
    let mut c = MovableArray::<i32, 3>::from_vec(vec![7, 8, 9]).unwrap();
    let taken = c.take_range_vec(2..2);
    assert!(taken.is_empty());
    let reversed = c.take_range_vec(2..1);
    assert!(reversed.is_empty());
    assert_eq!(c.take(2), Some(9));
}

#[test]
fn range_take_as_array_exact() {
    let mut c = MovableArray::<i32, 5>::from_vec(vec![0, 1, 2, 3, 4]).unwrap();
    let arr: FixedVec<Option<i32>, 2> = c.take_range_array(1..3).unwrap();
    assert_eq!(arr.into_vec(), vec![Some(1), Some(2)]);
}

#[test]
fn range_take_as_array_wrong_size_still_empties() {
    let mut c = MovableArray::<i32, 5>::from_vec(vec![0, 1, 2, 3, 4]).unwrap();
    let r = c.take_range_array::<3>(1..3);
    assert!(matches!(
        r,
        Err(MovingArrayError::LengthUnmatch { expected: 3, got: 2 })
    ));
    // The extraction ran before the length check failed.
    assert_eq!(c.take(1), None);
    assert_eq!(c.take(2), None);
}

#[test]
fn len_is_constant() {
    let mut c = MovableArray::<i32, 3>::from_vec(vec![1, 2, 3]).unwrap();
    assert_eq!(c.len(), 3);
    c.take(0);
    c.take(1);
    assert_eq!(c.len(), 3);
}

#[test]
fn get_peeks_without_taking() {
    let mut c = MovableArray::<i32, 2>::from_vec(vec![4, 5]).unwrap();
    assert_eq!(*c.get(0), Some(4));
    assert_eq!(*c.get(0), Some(4));
    c.take(0);
    assert_eq!(*c.get(0), None);
    assert_eq!(*c.get(1), Some(5));
}

#[test]
fn map_preserves_length_and_positions() {
    let mut c = MovableArray::<i32, 4>::from_vec(vec![1, 2, 3, 4]).unwrap();
    c.take(2);
    let mapped: MovableArray<i64, 4> = c.map(|slot: Option<i32>| slot.map(|x| (x as i64) * 10));
    assert_eq!(mapped.len(), 4);
    assert_eq!(
        mapped.into_inner().into_vec(),
        vec![Some(10i64), Some(20), None, Some(40)]
    );
}

#[test]
fn map_may_fill_empty_slots() {
    let mut c = MovableArray::<i32, 3>::from_vec(vec![1, 2, 3]).unwrap();
    c.take(1);
    let refilled: MovableArray<i32, 3> = c.map(|slot: Option<i32>| match slot {
        Some(x) => Some(x),
        None => Some(0),
    });
    assert_eq!(
        refilled.into_inner().into_vec(),
        vec![Some(1), Some(0), Some(3)]
    );
}

#[test]
fn clone_keeps_slots_independent() {
    let mut c = MovableArray::<i32, 2>::from_vec(vec![1, 2]).unwrap();
    let mut d = c.clone();
    assert_eq!(c.take(0), Some(1));
    assert_eq!(d.take(0), Some(1));
    assert_eq!(d.take(1), Some(2));
}
