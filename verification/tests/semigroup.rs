use garfield::Monoid;

#[test]
fn simple_string_associativity() {
    let x = String::from("foo");
    let y = String::from("bar");
    let z = String::from("baz");
    let lhs = garfield::semigroup::concat(garfield::semigroup::concat(x.clone(), y.clone()), z.clone());
    let rhs = garfield::semigroup::concat(x, garfield::semigroup::concat(y, z));
    assert_eq!(lhs, rhs);
}

#[test]
fn simple_vec_associativity() {
    let x = vec![1, 2, 3];
    let y = vec![4, 5, 6];
    let z = vec![7, 8, 9];
    let lhs = garfield::semigroup::concat(garfield::semigroup::concat(x.clone(), y.clone()), z.clone());
    let rhs = garfield::semigroup::concat(x, garfield::semigroup::concat(y, z));
    assert_eq!(lhs, rhs);
}

#[test]
fn string_concatenation() {
    assert_eq!(
        garfield::semigroup::concat(String::from("foo"), String::from("bar")),
        String::from("foobar")
    );
}

#[test]
fn vec_concatenation_keeps_order() {
    assert_eq!(
        garfield::semigroup::concat(vec![1, 2, 3], vec![4, 5, 6]),
        vec![1, 2, 3, 4, 5, 6]
    );
}

#[test]
fn optional_text_associativity() {
    let x = Some(String::from("a"));
    let y: Option<String> = None;
    let z = Some(String::from("c"));
    let lhs = garfield::semigroup::concat(garfield::semigroup::concat(x.clone(), y.clone()), z.clone());
    let rhs = garfield::semigroup::concat(x, garfield::semigroup::concat(y, z));
    assert_eq!(lhs, rhs);
    assert_eq!(lhs, Some(String::from("ac")));
}

#[test]
fn optional_absent_is_identity() {
    assert_eq!(
        garfield::semigroup::concat(None, Some(String::from("kept"))),
        Some(String::from("kept"))
    );
    assert_eq!(
        garfield::semigroup::concat(Some(String::from("kept")), None),
        Some(String::from("kept"))
    );
    let both: Option<String> = garfield::semigroup::concat(None, None);
    assert_eq!(both, None);
}

#[test]
fn optional_two_presents_combine_inner() {
    assert_eq!(
        garfield::semigroup::concat(Some(String::from("foo")), Some(String::from("bar"))),
        Some(String::from("foobar"))
    );
}

#[test]
fn unit_combines_to_unit() {
    assert_eq!(garfield::semigroup::concat((), ()), ());
}

#[test]
fn monoid_identities() {
    assert_eq!(<String as Monoid>::identity(), String::new());
    assert_eq!(<Vec<i32> as Monoid>::identity(), Vec::<i32>::new());
    assert_eq!(<Option<String> as Monoid>::identity(), None);
    assert_eq!(garfield::semigroup::concat(<String as Monoid>::identity(), String::from("x")), String::from("x"));
    assert_eq!(garfield::semigroup::concat(vec![7], <Vec<i32> as Monoid>::identity()), vec![7]);
}
