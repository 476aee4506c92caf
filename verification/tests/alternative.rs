use garfield::Alternative;

#[test]
fn alt_opt() {
    let l = Some(4u8);
    let r = None;
    assert_eq!(<Option<u8> as Alternative<u8>>::empty(), None);
    assert_eq!(<Option<u8> as Alternative<u8>>::mirror(l, r), l);
}

#[test]
fn alt_identity_both_sides() {
    let w = Some(9u8);
    assert_eq!(
        <Option<u8> as Alternative<u8>>::mirror(<Option<u8> as Alternative<u8>>::empty(), w),
        w
    );
    assert_eq!(
        <Option<u8> as Alternative<u8>>::mirror(w, <Option<u8> as Alternative<u8>>::empty()),
        w
    );
}

#[test]
fn alt_left_bias() {
    assert_eq!(
        <Option<u8> as Alternative<u8>>::mirror(Some(1), Some(2)),
        Some(1)
    );
}

#[test]
fn alt_associativity_concrete() {
    let a: Option<u8> = None;
    let b = Some(2u8);
    let c = Some(3u8);
    let lhs = <Option<u8> as Alternative<u8>>::mirror(
        <Option<u8> as Alternative<u8>>::mirror(a, b),
        c,
    );
    let rhs = <Option<u8> as Alternative<u8>>::mirror(
        a,
        <Option<u8> as Alternative<u8>>::mirror(b, c),
    );
    assert_eq!(lhs, rhs);
    assert_eq!(lhs, Some(2));
}
