use nested_workspace::arithmetic::{add, div, mul, sub};

#[test]
fn add_works() {
    let result = add(8, 2);
    assert_eq!(result, 10);
}

#[test]
fn sub_works() {
    let result = sub(8, 2);
    assert_eq!(result, 6);
}

#[test]
fn div_works() {
    let result = div(8, 2);
    assert_eq!(result, 4);
}

#[test]
fn mul_works() {
    let result = mul(8, 2);
    assert_eq!(result, 16);
}
