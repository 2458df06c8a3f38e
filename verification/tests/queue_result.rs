use screencast::screencasting::queue_result::check_queue_result;

#[test]
fn delivery_status_preserves_errno_and_accepts_nonnegative_success() {
    assert!(check_queue_result(0).is_ok());
    assert!(check_queue_result(1).is_ok());
    for code in [22, 32, 5] {
        let err = check_queue_result(-code).unwrap_err();
        assert_eq!(err.raw_os_error(), Some(code));
    }
}
