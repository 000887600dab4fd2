//! Unary counts of four bits.

use msf60_utils::msf_helpers::get_unary_value;

#[test]
fn test_get_unary_value_all_0() {
    const UNARY_BUFFER: [Option<bool>; 4] =
        [Some(false), Some(false), Some(false), Some(false)];
    assert_eq!(get_unary_value(&UNARY_BUFFER, 0, 3), Some(0));
}
#[test]
fn test_get_unary_value_all_1() {
    const UNARY_BUFFER: [Option<bool>; 4] = [Some(true), Some(true), Some(true), Some(true)];
    assert_eq!(get_unary_value(&UNARY_BUFFER, 0, 3), Some(4));
}
#[test]
fn test_get_unary_value_middle() {
    const UNARY_BUFFER: [Option<bool>; 4] = [Some(true), Some(true), Some(false), Some(false)];
    assert_eq!(get_unary_value(&UNARY_BUFFER, 0, 3), Some(2));
}
#[test]
fn test_get_unary_value_1_after_0() {
    const UNARY_BUFFER: [Option<bool>; 4] = [Some(false), Some(false), Some(true), Some(false)];
    assert_eq!(get_unary_value(&UNARY_BUFFER, 0, 3), None);
}
#[test]
fn test_get_unary_value_invalid_none() {
    const UNARY_BUFFER: [Option<bool>; 4] = [Some(true), Some(true), None, Some(false)];
    assert_eq!(get_unary_value(&UNARY_BUFFER, 0, 3), None);
}
