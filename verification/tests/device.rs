use key_binder::device::choose_device;
use key_binder::device::open_access;

#[test]
fn read_only_request_opens_readable() {
    assert_eq!(open_access(0), (true, false));
}

#[test]
fn write_only_request_opens_writable() {
    assert_eq!(open_access(1), (false, true));
}

#[test]
fn read_write_request_opens_both() {
    assert_eq!(open_access(2), (true, true));
}

#[test]
fn extra_flag_bits_do_not_matter() {
    // A nonblocking read-write request still opens readable and writable.
    assert_eq!(open_access(0o4000 | 2), (true, true));
    assert_eq!(open_access(0o4000), (true, false));
}

#[test]
fn override_takes_precedence() {
    let discovered = vec![String::from("/dev/input/event3")];
    assert_eq!(
        choose_device(Some(String::from("/dev/input/event9")), &discovered),
        Some(String::from("/dev/input/event9"))
    );
}

#[test]
fn first_discovered_keyboard_chosen() {
    let discovered = vec![
        String::from("/dev/input/event3"),
        String::from("/dev/input/event5"),
    ];
    assert_eq!(choose_device(None, &discovered), Some(String::from("/dev/input/event3")));
}

#[test]
fn no_device_found_is_reported() {
    assert_eq!(choose_device(None, &Vec::new()), None);
}
