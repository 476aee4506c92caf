use garfield::Applicative;

#[test]
fn applicative_pure() {
    assert_eq!(<Option<u32> as Applicative<u32, u32, u32>>::pure(20), Some(20));
}

#[test]
fn applicative_option_some_lift_a2() {
    let plus = |x: u32, y: u32| x + y;
    assert_eq!(
        <Option<u32> as Applicative<u32, u32, u32>>::lift_a2(plus, Some(1730), Some(8)),
        Some(1738)
    );
}

#[test]
fn applicative_option_none_lift_a2() {
    let plus = |x: u32, y: u32| x + y;
    assert_eq!(
        <Option<u32> as Applicative<u32, u32, u32>>::lift_a2(plus, None, None),
        None
    );
}

#[test]
fn applicative_option_some_none_lift_a2() {
    let plus = |x: u32, y: u32| x + y;
    assert_eq!(
        <Option<u32> as Applicative<u32, u32, u32>>::lift_a2(plus, None, Some(1738)),
        None
    );
}

#[test]
fn applicative_homomorphism_concrete() {
    let plus = |x: u32, y: u32| x + y;
    let combined = <Option<u32> as Applicative<u32, u32, u32>>::lift_a2(
        plus,
        <Option<u32> as Applicative<u32, u32, u32>>::pure(3),
        <Option<u32> as Applicative<u32, u32, u32>>::pure(4),
    );
    assert_eq!(combined, <Option<u32> as Applicative<u32, u32, u32>>::pure(7));
}

#[test]
fn applicative_option_seq() {
    let double = |x: u32| x * 2;
    assert_eq!(
        <Option<u32> as Applicative<u32, u32, u32>>::seq(double, Some(21)),
        Some(42)
    );
    assert_eq!(<Option<u32> as Applicative<u32, u32, u32>>::seq(double, None), None);
}

#[test]
fn applicative_result_pure() {
    assert_eq!(
        <Result<u32, String> as Applicative<u32, u32, u32>>::pure(20),
        Ok(20)
    );
}

#[test]
fn applicative_result_lift_a2_ok() {
    let plus = |x: u32, y: u32| x + y;
    let a: Result<u32, String> = Ok(1730);
    let b: Result<u32, String> = Ok(8);
    assert_eq!(
        <Result<u32, String> as Applicative<u32, u32, u32>>::lift_a2(plus, a, b),
        Ok(1738)
    );
}

#[test]
fn applicative_result_lift_a2_left_bias() {
    let plus = |x: u32, y: u32| x + y;
    let e1: Result<u32, String> = Err(String::from("first"));
    let e2: Result<u32, String> = Err(String::from("second"));
    assert_eq!(
        <Result<u32, String> as Applicative<u32, u32, u32>>::lift_a2(plus, e1, e2),
        Err(String::from("first"))
    );
}

#[test]
fn applicative_result_lift_a2_second_err() {
    let plus = |x: u32, y: u32| x + y;
    let a: Result<u32, String> = Ok(1);
    let e2: Result<u32, String> = Err(String::from("second"));
    assert_eq!(
        <Result<u32, String> as Applicative<u32, u32, u32>>::lift_a2(plus, a, e2),
        Err(String::from("second"))
    );
}

#[test]
fn applicative_result_seq_err() {
    let double = |x: u32| x * 2;
    let err: Result<u32, String> = Err(String::from("boom"));
    assert_eq!(
        <Result<u32, String> as Applicative<u32, u32, u32>>::seq(double, err),
        Err(String::from("boom"))
    );
}
