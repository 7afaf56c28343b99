use libva::va_check;
use libva::VaStatus;

#[test]
fn success_status_is_ok() {
    assert!(va_check(0).is_ok());
    assert!(VaStatus(0).check().is_ok());
}

#[test]
fn failing_status_is_carried_by_the_error() {
    let error = va_check(0x17).unwrap_err();
    assert_eq!(error.va_status(), 0x17);
    let error = VaStatus(-1).check().unwrap_err();
    assert_eq!(error.va_status(), -1);
}
