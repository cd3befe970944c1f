use pjrt::api::{BridgeAction, ErrorBridge};
use pjrt::error::{Error, ErrorKind};

#[test]
fn null_handle_is_success() {
    let bridge = ErrorBridge::new(0);
    assert_eq!(bridge.next(), None);
    assert_eq!(bridge.err_or(42), Ok(42));
}

#[test]
fn error_handle_resolves_to_its_message_and_is_destroyed_once() {
    let handle: usize = 0xdead;
    let mut bridge = ErrorBridge::new(handle);
    let mut fetched = 0;
    let mut destroyed = 0;
    while let Some(action) = bridge.next() {
        match action {
            BridgeAction::FetchMessage(h) => {
                assert_eq!(h, handle);
                assert_eq!(destroyed, 0);
                fetched += 1;
                bridge = bridge.message_fetched(Ok(String::from("boom")));
            }
            BridgeAction::Destroy(h) => {
                assert_eq!(h, handle);
                destroyed += 1;
                bridge = bridge.destroyed(Ok(()));
            }
        }
    }
    assert_eq!(fetched, 1);
    assert_eq!(destroyed, 1);
    let result = bridge.err_or(7);
    assert_eq!(result, Err(Error::PjrtError { msg: String::from("boom") }));
    assert_eq!(result.unwrap_err().kind(), ErrorKind::RuntimeError);
}

#[test]
fn handle_is_destroyed_even_when_the_message_cannot_be_fetched() {
    let bridge = ErrorBridge::new(5);
    assert_eq!(bridge.next(), Some(BridgeAction::FetchMessage(5)));
    let bridge = bridge.message_fetched(Err(Error::NullFunctionPointer("PJRT_Error_Message")));
    assert_eq!(bridge.next(), Some(BridgeAction::Destroy(5)));
    let bridge = bridge.destroyed(Ok(()));
    assert_eq!(bridge.next(), None);
    let err = bridge.err_or(()).unwrap_err();
    assert_eq!(err, Error::NullFunctionPointer("PJRT_Error_Message"));
    assert_eq!(err.kind(), ErrorKind::AbiContractViolation);
    assert!(!err.is_recoverable());
}

#[test]
fn failed_destroy_is_reported() {
    let bridge = ErrorBridge::new(5)
        .message_fetched(Ok(String::from("late")))
        .destroyed(Err(Error::NullFunctionPointer("PJRT_Error_Destroy")));
    assert_eq!(bridge.next(), None);
    assert_eq!(
        bridge.err_or(1u8),
        Err(Error::NullFunctionPointer("PJRT_Error_Destroy"))
    );
}

#[test]
fn first_failed_follow_up_wins() {
    let bridge = ErrorBridge::new(9)
        .message_fetched(Err(Error::NullFunctionPointer("PJRT_Error_Message")))
        .destroyed(Err(Error::NullFunctionPointer("PJRT_Error_Destroy")));
    assert_eq!(
        bridge.err_or(1u8),
        Err(Error::NullFunctionPointer("PJRT_Error_Message"))
    );
}

#[test]
fn every_error_has_its_kind() {
    let cases = vec![
        (Error::PjrtError { msg: String::new() }, ErrorKind::RuntimeError),
        (Error::NullPointer, ErrorKind::AbiContractViolation),
        (Error::NullFunctionPointer("f"), ErrorKind::AbiContractViolation),
        (Error::InvalidMemoryLayoutType(9), ErrorKind::UnrecognizedVariant),
        (Error::InvalidNamedValueType(9), ErrorKind::UnrecognizedVariant),
        (Error::InvalidPrimitiveType(99), ErrorKind::UnrecognizedVariant),
        (Error::InvalidProgramFormat(vec![1]), ErrorKind::UnrecognizedVariant),
        (Error::PartialTiling, ErrorKind::CallerPrecondition),
        (
            Error::ArgumentCountMismatch { device: 1, expected: 2, found: 1 },
            ErrorKind::CallerPrecondition,
        ),
        (Error::NoDevices, ErrorKind::CallerPrecondition),
    ];
    for (error, kind) in cases {
        assert_eq!(error.kind(), kind);
        assert_eq!(error.is_recoverable(), kind != ErrorKind::AbiContractViolation);
    }
}
