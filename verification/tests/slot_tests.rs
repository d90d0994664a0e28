use gpui_ios::Slot;

#[test]
fn new_slot_is_empty() {
    let mut s: Slot<u32> = Slot::new();
    assert!(!s.is_registered());
    assert_eq!(s.take(), None);
}

#[test]
fn take_returns_registered_value_once() {
    let mut s = Slot::new();
    s.register(7u32);
    assert!(s.is_registered());
    assert_eq!(s.take(), Some(7));
    assert!(!s.is_registered());
    assert_eq!(s.take(), None);
}

#[test]
fn last_registration_wins() {
    let mut s = Slot::new();
    s.register(1u32);
    s.register(2u32);
    assert_eq!(s.take(), Some(2));
}

#[test]
fn registered_callback_can_be_called_in_place() {
    let mut s: Slot<Box<dyn FnMut() -> u32>> = Slot::new();
    assert!(s.as_mut().is_none());
    let mut count = 0u32;
    s.register(Box::new(move || {
        count += 1;
        count
    }));
    assert_eq!((s.as_mut().unwrap())(), 1);
    assert_eq!((s.as_mut().unwrap())(), 2);
    assert!(s.is_registered());
}
