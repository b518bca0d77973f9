use slang::rw;
use slang::SLANG_E_INVALID_ARG;
use slang::SLANG_E_NO_INTERFACE;

#[test]
fn rw_zero_is_ok() {
    assert_eq!(rw(0), Ok(0));
}

#[test]
fn rw_positive_is_ok() {
    assert_eq!(rw(1), Ok(1));
    assert_eq!(rw(7), Ok(7));
    assert_eq!(rw(i32::MAX), Ok(i32::MAX));
}

#[test]
fn rw_negative_is_err() {
    assert_eq!(rw(-1), Err(-1));
    assert_eq!(rw(i32::MIN), Err(i32::MIN));
}

#[test]
fn failure_codes_are_negative() {
    assert!(SLANG_E_NO_INTERFACE < 0);
    assert!(SLANG_E_INVALID_ARG < 0);
    assert_eq!(rw(SLANG_E_NO_INTERFACE), Err(SLANG_E_NO_INTERFACE));
    assert_eq!(rw(SLANG_E_INVALID_ARG), Err(SLANG_E_INVALID_ARG));
}
