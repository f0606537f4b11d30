//! Small checks around system calls.

use crate::error::{Error, Reason};
use crate::types::SystemCodes;
use vstd::prelude::*;
use vstd::std_specs::convert::IntoSpec;

verus! {

/// Judges what a system call returned: -1 stands for a failure, which `last_error` tells, and
/// anything else for itself.
pub fn cvt<T: Into<i64> + Copy>(t: T, last_error: Error) -> (outcome: Result<T, Error>)
    ensures
        exists|number: i64| #[trigger]
            call_ensures(<T as Into<i64>>::into, (t,), number) && outcome == (if number == -1 {
                Err(last_error)
            } else {
                Ok(t)
            }),
        T::obeys_into_spec() ==> outcome == (if t.into_spec() == -1 {
            Err(last_error)
        } else {
            Ok(t)
        }),
{
    let number: i64 = t.into();
    if number == -1 {
        Err(last_error)
    } else {
        Ok(t)
    }
}

/// Whether a process with this handler for a signal notices the signal and survives it.
pub open spec fn handles_signals(codes: SystemCodes, handler: usize) -> bool {
    handler != codes.default_handler && handler != codes.ignoring_handler
}

/// Makes sure that a signal has a handler. `handler` is what the system tells of it.
pub fn ensure_sigaction_exists(codes: &SystemCodes, handler: Result<usize, Error>) -> (outcome:
    Result<(), Error>)
    ensures
        outcome == (match handler {
            Err(error) => Err(error),
            Ok(handler) => if handles_signals(*codes, handler) {
                Ok(())
            } else {
                Err(Error::Own(Reason::NoSignalHandler))
            },
        }),
{
    match handler {
        Err(error) => Err(error),
        Ok(handler) => {
            if handler == codes.default_handler || handler == codes.ignoring_handler {
                Err(Error::Own(Reason::NoSignalHandler))
            } else {
                Ok(())
            }
        },
    }
}

} // verus!
