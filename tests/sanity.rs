#[test]
fn sanity() {
    assert_eq!(4, 2 + 2);
}
