use garfield::id;

#[derive(Copy, Clone, Debug, PartialEq)]
enum Size {
    Big,
}

#[derive(Copy, Clone, Debug, PartialEq)]
struct Chungus {
    pub size: Size,
}

#[test]
fn identity() {
    assert_eq!(id(1), 1);
    assert_eq!(id(vec![1]), vec![1]);
    let chungus = Chungus { size: Size::Big };
    assert_eq!(id(chungus), chungus);
}
