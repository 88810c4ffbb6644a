use baseunits_rs::intervals::LimitValue;

#[test]
fn it_works() {
    assert_eq!(2 + 2, 4);
    assert_eq!(LimitValue::Limit(2 + 2), LimitValue::Limit(4));
}
