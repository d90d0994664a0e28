use gpui_ios::NonNullHwnd;

#[test]
fn null_handle_is_rejected() {
    assert!(NonNullHwnd::new(0).is_none());
}

#[test]
fn non_null_handle_round_trips() {
    let h = NonNullHwnd::new(0x1234).unwrap();
    assert_eq!(h.hwnd(), 0x1234);
    assert_eq!(h.as_non_zero_isize(), 0x1234);
    let n = NonNullHwnd::new(-7).unwrap();
    assert_eq!(n.hwnd(), -7);
}
