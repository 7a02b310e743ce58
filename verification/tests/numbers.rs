use vt::{AsVtNumber, Console, VtError, VtNumber};

#[test]
fn negative_number_is_rejected() {
    assert_eq!(VtNumber::new(-1), Err(VtError::InvalidArgument));
}

#[test]
fn lowest_number_is_rejected() {
    assert_eq!(VtNumber::new(i32::MIN), Err(VtError::InvalidArgument));
}

#[test]
fn zero_is_a_number() {
    assert_eq!(VtNumber::new(0).unwrap().as_native(), 0);
}

#[test]
fn highest_number_is_a_number() {
    assert_eq!(VtNumber::new(i32::MAX).unwrap().as_native(), i32::MAX);
}

#[test]
fn numbers_are_equal_by_value() {
    assert_eq!(VtNumber::new(7), VtNumber::new(7));
    assert_ne!(VtNumber::new(7), VtNumber::new(8));
}

#[test]
fn number_stands_for_itself() {
    let seven = VtNumber::new(7).unwrap();
    assert_eq!(seven.as_vt_number(), seven);
}

#[test]
fn handle_stands_for_its_number() {
    let seven = VtNumber::new(7).unwrap();
    let vt = Console::open().open_vt(seven);
    assert_eq!(vt.as_vt_number(), seven);
    assert_eq!(vt.number(), seven);
}
