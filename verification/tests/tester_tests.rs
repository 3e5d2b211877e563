#[test]
fn it_works2() {
    let result: usize = primer::tester::add(2, 2);
    assert_eq!(result, 4);
}

#[test]
fn it_works() -> Result<(), String> {
    if 2 + 2 == 4 {
        Ok(())
    } else {
        Err(String::from("Test failed"))
    }
}

#[test]
fn adds_two_to_a_negative() {
    assert_eq!(primer::tester::add_two(-2), 0);
}
