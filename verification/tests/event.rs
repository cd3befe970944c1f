use pjrt::buffer::Buffer;
use pjrt::device::{check_non_null, wrap_devices, Device};
use pjrt::error::Error;
use pjrt::event::Event;

#[test]
fn a_fresh_event_is_not_consumed() {
    let event = Event::wrap(0x10);
    assert_eq!(event.ptr(), 0x10);
    assert!(!event.is_consumed());
}

#[test]
fn the_handle_is_given_out_once() {
    let mut event = Event::wrap(0x10);
    assert_eq!(event.claim(), Some(0x10));
    assert!(event.is_consumed());
    assert_eq!(event.claim(), None);
    assert_eq!(event.claim(), None);
    assert!(event.is_consumed());
    assert_eq!(event.ptr(), 0x10);
}

#[test]
fn waiting_twice_destroys_once() {
    let mut event = Event::wrap(0x20);
    let mut destroyed = 0;
    for _ in 0..2 {
        if let Some(handle) = event.claim() {
            assert_eq!(handle, 0x20);
            destroyed += 1;
        }
    }
    assert_eq!(destroyed, 1);
}

#[test]
fn buffers_own_their_handle() {
    let buffer = Buffer::wrap(0xc0, 0x30);
    assert_eq!(buffer.ptr(), 0x30);
    assert_eq!(buffer.client(), 0xc0);
    assert_eq!(Buffer::try_wrap(0xc0, 0x31), Ok(Buffer::wrap(0xc0, 0x31)));
    assert_eq!(Buffer::try_wrap(0xc0, 0), Err(Error::NullPointer));
    assert_eq!(Buffer::try_wrap(0, 0x31), Err(Error::NullPointer));
}

#[test]
fn devices_are_the_same_when_their_handles_are() {
    assert_eq!(Device::wrap(9, 1), Device::wrap(9, 1));
    assert_ne!(Device::wrap(9, 1), Device::wrap(9, 2));
    assert_eq!(Device::wrap(9, 3).ptr(), 3);
    assert_eq!(Device::wrap(9, 3).client(), 9);
}

#[test]
fn device_lists_are_wrapped_in_order() {
    let handles = vec![5, 6, 7];
    assert!(check_non_null(&handles));
    let devices = wrap_devices(9, &handles);
    assert_eq!(devices, vec![Device::wrap(9, 5), Device::wrap(9, 6), Device::wrap(9, 7)]);
    assert!(wrap_devices(9, &vec![]).is_empty());
    assert!(check_non_null(&vec![]));
    assert!(!check_non_null(&vec![1, 0, 2]));
}
