use gpui_ios::display::{main_screen_identity, DisplayError, MAIN_SCREEN_ID};

#[test]
fn main_screen_needs_the_main_thread() {
    let r = main_screen_identity(false);
    assert_eq!(r, Err(DisplayError::NotOnMainThread));
    assert_eq!(
        DisplayError::NotOnMainThread.message(),
        "IosDisplay must be created on the main thread"
    );
}

#[test]
fn main_screen_identity_is_display_one_with_a_v5_uuid() {
    let s = main_screen_identity(true).unwrap();
    assert_eq!(s.id, 1);
    assert_eq!(s.id, MAIN_SCREEN_ID);
    let expected = uuid::Uuid::new_v5(&uuid::Uuid::NAMESPACE_DNS, b"gpui-ios-main-screen");
    assert_eq!(s.uuid, expected.as_u128());
    assert_eq!(
        uuid::Uuid::from_u128(s.uuid).get_version(),
        Some(uuid::Version::Sha1)
    );
    assert_eq!((s.uuid >> 76) & 0xf, 5);
    assert_eq!((s.uuid >> 62) & 0x3, 2);
    assert_ne!(s.uuid, uuid::Uuid::NAMESPACE_DNS.as_u128());
}

#[test]
fn main_screen_uuid_is_stable() {
    let a = main_screen_identity(true).unwrap();
    let b = main_screen_identity(true).unwrap();
    assert_eq!(a, b);
}

#[test]
fn screen_identity_from_uuid() {
    let s = gpui_ios::display::main_screen_from_uuid(0xabcdef);
    assert_eq!(s.id, 1);
    assert_eq!(s.uuid, 0xabcdef);
}

#[test]
fn namespace_dns_matches_the_uuid_crate() {
    assert_eq!(
        gpui_ios::display::namespace_dns(),
        uuid::Uuid::NAMESPACE_DNS.as_u128()
    );
}
