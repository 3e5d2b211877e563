use primer::adder::Rectangle;

#[test]
fn larger_can_hold_smaller() {
    let larger = Rectangle { height: 8, width: 12 };
    let smaller = Rectangle { height: 5, width: 1 };
    assert!(larger.can_hold(&smaller));
}

#[test]
fn smaller_cannot_hold_larger() {
    let larger = Rectangle { height: 8, width: 12 };
    let smaller = Rectangle { height: 5, width: 1 };
    assert!(!smaller.can_hold(&larger));
}

#[test]
fn it_adds_two() {
    assert_eq!(primer::adder::add_two(2), 4);
}

#[test]
fn it_adds_two_second() {
    assert_ne!(!primer::adder::add_two(2), 4);
}

#[test]
fn greeting_contains_name() {
    let result = primer::adder::greeting("Carol");
    assert!(
        result.contains("Carol"),
        "Greeting did not contain name {}",
        result
    );
}

#[test]
fn equal_areas_cannot_hold() {
    let one = Rectangle { height: 2, width: 6 };
    let other = Rectangle { height: 3, width: 4 };
    assert!(!one.can_hold(&other));
    assert!(!other.can_hold(&one));
}

#[test]
fn adds_sizes() {
    let result: usize = primer::adder::add(40, 2);
    assert_eq!(result, 42);
}
