use vstd::prelude::*;
use crate::error::Error;

verus! {

/// A follow-up call that the bridge asks for on an error handle.
#[derive(Debug, Clone, Copy, PartialEq, Eq, Structural)]
pub enum BridgeAction {
    /// Ask the plugin for the message of this error handle.
    FetchMessage(usize),
    /// Destroy this error handle.
    Destroy(usize),
}

/// Turns the raw outcome of a plugin call, a null handle for success or an
/// error handle, into an owned result. The bridge says which follow-up call
/// to make, the caller makes it and reports its outcome, until nothing is left.
#[derive(Debug)]
pub enum ErrorBridge {
    /// The plugin call returned this error handle; its message is to be asked for.
    Message { error: usize },
    /// The message was asked for, with this outcome; the handle is still to
    /// be destroyed.
    Destroy { error: usize, message: Result<String, Error> },
    /// Nothing is left to do. The plugin call succeeded if there is no
    /// failure, and failed with it otherwise.
    Done { failure: Option<Error> },
}

impl ErrorBridge {
    /// The bridge for the handle that a plugin call returned. For the null
    /// handle, which stands for success, nothing is to do.
    pub open spec fn start(error: usize) -> ErrorBridge {
        if error == 0 {
            ErrorBridge::Done { failure: None }
        } else {
            ErrorBridge::Message { error }
        }
    }

    /// The follow-up call to make next, if any.
    pub open spec fn pending(self) -> Option<BridgeAction> {
        match self {
            ErrorBridge::Message { error } => Some(BridgeAction::FetchMessage(error)),
            ErrorBridge::Destroy { error, .. } => Some(BridgeAction::Destroy(error)),
            ErrorBridge::Done { .. } => None,
        }
    }

    /// The bridge after the message call. Whether or not that call could be
    /// made, the handle is destroyed next.
    pub open spec fn after_message(self, outcome: Result<String, Error>) -> ErrorBridge {
        match self {
            ErrorBridge::Message { error } => ErrorBridge::Destroy { error, message: outcome },
            _ => self,
        }
    }

    /// The bridge after the destroy call: done, with the failure of the first
    /// follow-up call that failed, or else with the runtime error that
    /// carries the message fetched.
    pub open spec fn after_destroy(self, outcome: Result<(), Error>) -> ErrorBridge {
        match self {
            ErrorBridge::Destroy { message, .. } => ErrorBridge::Done {
                failure: Some(
                    match message {
                        Err(e) => e,
                        Ok(msg) => match outcome {
                            Err(e) => e,
                            Ok(_) => Error::PjrtError { msg },
                        },
                    },
                ),
            },
            _ => self,
        }
    }

    /// The result of the plugin call once the bridge is done: the value if
    /// the call succeeded, and the failure otherwise.
    pub open spec fn resolve<T>(self, value: T) -> Result<T, Error>
        recommends
            self is Done,
    {
        match self {
            ErrorBridge::Done { failure: Some(e) } => Err(e),
            _ => Ok(value),
        }
    }

    /// Starts the bridge on the handle that a plugin call returned.
    pub fn new(error: usize) -> (bridge: ErrorBridge)
        ensures
            bridge == ErrorBridge::start(error),
    {
        if error == 0 {
            ErrorBridge::Done { failure: None }
        } else {
            ErrorBridge::Message { error }
        }
    }

    /// The follow-up call to make next, or nothing when the bridge is done.
    pub fn next(&self) -> (r: Option<BridgeAction>)
        ensures
            r == self.pending(),
    {
        match self {
            ErrorBridge::Message { error } => Some(BridgeAction::FetchMessage(*error)),
            ErrorBridge::Destroy { error, .. } => Some(BridgeAction::Destroy(*error)),
            ErrorBridge::Done { .. } => None,
        }
    }

    /// Reports the outcome of the message call: the message, or why the call
    /// could not be made.
    pub fn message_fetched(self, outcome: Result<String, Error>) -> (bridge: ErrorBridge)
        requires
            self is Message,
        ensures
            bridge == self.after_message(outcome),
    {
        match self {
            ErrorBridge::Message { error } => ErrorBridge::Destroy { error, message: outcome },
            other => other,
        }
    }

    /// Reports the outcome of the destroy call.
    pub fn destroyed(self, outcome: Result<(), Error>) -> (bridge: ErrorBridge)
        requires
            self is Destroy,
        ensures
            bridge == self.after_destroy(outcome),
    {
        match self {
            ErrorBridge::Destroy { error: _, message } => {
                let failure = match message {
                    Err(e) => e,
                    Ok(msg) => match outcome {
                        Err(e) => e,
                        Ok(_) => Error::PjrtError { msg },
                    },
                };
                ErrorBridge::Done { failure: Some(failure) }
            },
            other => other,
        }
    }

    /// Ends the bridge: `value` if the plugin call succeeded, and its error otherwise.
    pub fn err_or<T>(self, value: T) -> (r: Result<T, Error>)
        requires
            self is Done,
        ensures
            r == self.resolve(value),
    {
        match self {
            ErrorBridge::Done { failure: Some(e) } => Err(e),
            _ => Ok(value),
        }
    }
}

/// The null handle is success: the bridge asks for no follow-up call and
/// hands the value on.
pub proof fn lemma_null_is_success<T>(value: T)
    ensures
        ErrorBridge::start(0).pending() == None::<BridgeAction>,
        ErrorBridge::start(0).resolve(value) == Ok::<T, Error>(value),
{
}

/// For an error handle the bridge asks for the message, then for the
/// destruction of that same handle, then for nothing more, whatever the
/// outcome of either call: the handle is destroyed exactly once.
pub proof fn lemma_destroyed_exactly_once(
    error: usize,
    message: Result<String, Error>,
    destroy: Result<(), Error>,
)
    requires
        error != 0,
    ensures
        ErrorBridge::start(error).pending() == Some(BridgeAction::FetchMessage(error)),
        ErrorBridge::start(error).after_message(message).pending() == Some(
            BridgeAction::Destroy(error),
        ),
        ErrorBridge::start(error).after_message(message).after_destroy(destroy).pending()
            == None::<BridgeAction>,
{
}

/// An error handle never resolves to success. When both follow-up calls
/// succeed the result is the runtime error with the plugin's message; when
/// one of them fails, the result is the failure of the first that did.
pub proof fn lemma_error_resolves_to_failure<T>(
    error: usize,
    message: Result<String, Error>,
    destroy: Result<(), Error>,
    value: T,
)
    requires
        error != 0,
    ensures
        ({
            let done = ErrorBridge::start(error).after_message(message).after_destroy(destroy);
            &&& done is Done
            &&& done.resolve(value) == Err::<T, Error>(
                match message {
                    Err(e) => e,
                    Ok(msg) => match destroy {
                        Err(e) => e,
                        Ok(_) => Error::PjrtError { msg },
                    },
                },
            )
        }),
{
}

} // verus!
