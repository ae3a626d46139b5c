use std::cell::RefCell;

use rost::util::convert;
use rost::util::convert_radix;
use rost::util::range;

fn text(chars: &[char]) -> String {
    chars.iter().collect()
}

#[test]
fn convert_renders_decimal() {
    assert_eq!(text(&convert(0)), "0");
    assert_eq!(text(&convert(7)), "7");
    assert_eq!(text(&convert(1234)), "1234");
    assert_eq!(text(&convert(4294967295)), "4294967295");
}

#[test]
fn convert_radix_renders_hexadecimal_with_prefix() {
    assert_eq!(text(&convert_radix(0, 16)), "0x0");
    assert_eq!(text(&convert_radix(255, 16)), "0xff");
    assert_eq!(text(&convert_radix(0xDEAD_BEEF, 16)), "0xdeadbeef");
}

#[test]
fn convert_radix_renders_binary_with_prefix() {
    assert_eq!(text(&convert_radix(0, 2)), "0b0");
    assert_eq!(text(&convert_radix(5, 2)), "0b101");
    assert_eq!(text(&convert_radix(32, 2)), "0b100000");
}

#[test]
fn convert_radix_decimal_has_no_prefix() {
    assert_eq!(text(&convert_radix(100, 10)), "100");
}

#[test]
fn range_visits_each_index_in_order() {
    let visited: RefCell<Vec<usize>> = RefCell::new(Vec::new());
    range(2, 6, |i| visited.borrow_mut().push(i));
    assert_eq!(*visited.borrow(), vec![2, 3, 4, 5]);

    let untouched: RefCell<Vec<usize>> = RefCell::new(Vec::new());
    range(6, 6, |i| untouched.borrow_mut().push(i));
    assert!(untouched.borrow().is_empty());
}
