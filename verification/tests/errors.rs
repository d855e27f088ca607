use pcore::error::{Error, ERROR_INVALID_PARAMETER};

#[test]
fn error_wraps_losslessly() {
    let e = Error::from_win32(5);
    assert_eq!(e.as_win32(), 5);
    assert_eq!(e.into_win32(), 5);
}

#[test]
fn invalid_parameter_code_value() {
    let e = Error::from_win32(ERROR_INVALID_PARAMETER);
    assert_eq!(e.into_win32(), 87);
}
