use todoist::IntBool;

#[test]
fn intbool_from_bool() {
    assert!(IntBool::from(true) == true);
    assert!(IntBool::from(true) == 1isize);
    assert!(IntBool::from(false) == false);
    assert!(IntBool::from(false) == 0isize);
}

#[test]
fn intbool_not() {
    assert_eq!(!IntBool::from(true), false);
    assert_eq!(!IntBool::from(false), true);
    assert_eq!(!IntBool::from(7isize), false);
}

#[test]
fn intbool_keeps_the_integer() {
    let v = IntBool::from(5isize);
    assert!(v != true);
    assert!(v.as_bool());
    assert!(v == 5isize);
    assert!(v != IntBool::from(true));
    let n: isize = v.into();
    assert_eq!(n, 5);
    let b: bool = v.into();
    assert!(b);
    let z: bool = IntBool::from(0isize).into();
    assert!(!z);
    assert!(IntBool::default() == false);
    assert!(IntBool::from(1isize).as_bool());
}
