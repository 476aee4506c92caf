use garfield::Monad;

#[test]
fn monad_left_identity_concrete() {
    let f = |x: u32| if x > 0 { Some(x * 2) } else { None };
    assert_eq!(
        <Option<u32> as Monad<u32, u32>>::bind(Some(21), f),
        f(21)
    );
}

#[test]
fn monad_right_identity_concrete() {
    let m: Option<u32> = Some(7);
    assert_eq!(<Option<u32> as Monad<u32, u32>>::bind(m, Some), m);
    let n: Option<u32> = None;
    assert_eq!(<Option<u32> as Monad<u32, u32>>::bind(n, Some), n);
}

#[test]
fn monad_short_circuit() {
    let f = |_x: u32| -> Option<u32> { panic!("the continuation must not run") };
    assert_eq!(<Option<u32> as Monad<u32, u32>>::bind(None, f), None);
}

#[test]
fn monad_ret_is_pure() {
    assert_eq!(<Option<u32> as Monad<u32, u32>>::ret(5), Some(5));
}

#[test]
fn monad_bind_chains() {
    let half = |x: u32| if x % 2 == 0 { Some(x / 2) } else { None };
    let m = <Option<u32> as Monad<u32, u32>>::bind(Some(12), half);
    let m = <Option<u32> as Monad<u32, u32>>::bind(m, half);
    assert_eq!(m, Some(3));
    let m = <Option<u32> as Monad<u32, u32>>::bind(m, half);
    assert_eq!(m, None);
}
