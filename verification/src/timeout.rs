//! The `#[timeout]` policy: its argument, and how an elapsed deadline becomes
//! the function's error.

use vstd::prelude::*;

use crate::duration::{duration_millis, parse_retry_duration};
use crate::macro_args::{ArgError, ArgValue, Diagnostic, ErrorAt};

verus! {

/// Error types that can stand for an elapsed deadline.
pub trait FromTimeout: Sized {
    /// The error returned when the deadline elapses first.
    fn from_timeout() -> Self;
}

/// The setting of `#[timeout("...")]`.
#[derive(Debug, Clone, Copy, PartialEq, Eq, Structural)]
pub struct TimeoutArgs {
    pub duration_millis: u64,
}

/// What `#[timeout(...)]` reads from its argument list: exactly one string
/// literal holding a duration.
pub open spec fn timeout_args_spec(args: Seq<ArgValue>) -> Result<TimeoutArgs, ArgError> {
    if args.len() != 1 {
        Err(ArgError { diagnostic: Diagnostic::TimeoutArgCount, at: ErrorAt::Input })
    } else {
        match args[0] {
            ArgValue::Str(s) => match duration_millis(s@) {
                Some(ms) => Ok(TimeoutArgs { duration_millis: ms }),
                None => Err(ArgError { diagnostic: Diagnostic::TimeoutNotDuration, at: ErrorAt::ArgumentValue(0) }),
            },
            _ => Err(ArgError { diagnostic: Diagnostic::TimeoutNotString, at: ErrorAt::ArgumentValue(0) }),
        }
    }
}

/// Reads the argument list of `#[timeout(...)]`.
pub fn parse_timeout_args(args: &Vec<ArgValue>) -> (r: Result<TimeoutArgs, ArgError>)
    ensures
        r == timeout_args_spec(args@),
{
    if args.len() != 1 {
        return Err(ArgError { diagnostic: Diagnostic::TimeoutArgCount, at: ErrorAt::Input });
    }
    match &args[0] {
        ArgValue::Str(s) => match parse_retry_duration(s.as_str()) {
            Some(ms) => Ok(TimeoutArgs { duration_millis: ms }),
            None => Err(ArgError { diagnostic: Diagnostic::TimeoutNotDuration, at: ErrorAt::ArgumentValue(0) }),
        },
        _ => Err(ArgError { diagnostic: Diagnostic::TimeoutNotString, at: ErrorAt::ArgumentValue(0) }),
    }
}

/// The result of a function run under a deadline: its own result when it
/// finished in time (`Some`), and otherwise the value `E::from_timeout()`
/// returns.
pub fn timeout_result<T, E: FromTimeout>(finished: Option<Result<T, E>>) -> (r: Result<T, E>)
    ensures
        finished matches Some(inner) ==> r == inner,
        finished is None ==> (r matches Err(e) && call_ensures(E::from_timeout, (), e)),
{
    match finished {
        Some(inner) => inner,
        None => Err(E::from_timeout()),
    }
}

/// Checks that `#[timeout]` annotates an async function.
pub fn check_timeout_target(is_async: bool) -> (r: Result<(), ArgError>)
    ensures
        r is Ok <==> is_async,
        r matches Err(e) ==> e == (ArgError { diagnostic: Diagnostic::TimeoutNotAsync, at: ErrorAt::CallSite }),
{
    if is_async {
        Ok(())
    } else {
        Err(ArgError { diagnostic: Diagnostic::TimeoutNotAsync, at: ErrorAt::CallSite })
    }
}

} // verus!
