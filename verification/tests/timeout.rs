use corekit::duration::parse_retry_duration;
use corekit::macro_args::{ArgValue, Diagnostic, ErrorAt, MetaArg, MetaForm};
use corekit::retry::{parse_retry_args, retry_timeout_attr, RetryState, RetryStep};
use corekit::timeout::{check_timeout_target, parse_timeout_args, timeout_result, TimeoutArgs};
use corekit::{FromTimeout, Retryable};

#[derive(Debug, Clone, Copy, PartialEq, Eq)]
enum TimeoutTestError {
    Timeout,
    Inner,
}

impl FromTimeout for TimeoutTestError {
    fn from_timeout() -> Self {
        Self::Timeout
    }
}

impl Retryable for TimeoutTestError {
    fn is_retryable(&self) -> bool {
        matches!(self, Self::Timeout)
    }
}

fn duration(s: &str) -> u64 {
    parse_timeout_args(&vec![ArgValue::Str(s.to_string())]).unwrap().duration_millis
}

#[test]
fn timeout_passes_through_success_before_deadline() {
    let result: Result<&str, TimeoutTestError> = timeout_result(Some(Ok("ok")));
    assert_eq!(result, Ok("ok"));
    assert_eq!(duration("2s"), 2_000);
}

#[test]
fn timeout_maps_elapsed_deadline_to_error_type() {
    let result: Result<&str, TimeoutTestError> = timeout_result(None);
    assert_eq!(result, Err(TimeoutTestError::Timeout));
}

#[test]
fn timeout_passes_through_inner_errors_before_deadline() {
    let result: Result<&str, TimeoutTestError> = timeout_result(Some(Err(TimeoutTestError::Inner)));
    assert_eq!(result, Err(TimeoutTestError::Inner));
}

#[test]
fn timeout_accepts_millisecond_duration() {
    assert_eq!(parse_timeout_args(&vec![ArgValue::Str("500ms".to_string())]), Ok(TimeoutArgs { duration_millis: 500 }));
}

#[test]
fn timeout_argument_rejections() {
    let none = parse_timeout_args(&Vec::new()).unwrap_err();
    assert_eq!((none.diagnostic, none.at), (Diagnostic::TimeoutArgCount, ErrorAt::Input));
    let two = parse_timeout_args(&vec![ArgValue::Str("1s".to_string()), ArgValue::Str("2s".to_string())]).unwrap_err();
    assert_eq!(two.diagnostic, Diagnostic::TimeoutArgCount);
    let number = parse_timeout_args(&vec![ArgValue::Int("5".to_string())]).unwrap_err();
    assert_eq!((number.diagnostic, number.at), (Diagnostic::TimeoutNotString, ErrorAt::ArgumentValue(0)));
    let bad = parse_timeout_args(&vec![ArgValue::Str("5 s".to_string())]).unwrap_err();
    assert_eq!(bad.diagnostic, Diagnostic::TimeoutNotDuration);
    assert_eq!(
        bad.diagnostic.message(),
        "`#[timeout(...)]` expects a duration string like \"500ms\", \"1s\", \"2m\", or \"1h\""
    );
    assert_eq!(check_timeout_target(false).unwrap_err().diagnostic.message(), "`#[timeout]` can only be used on async functions");
    assert!(check_timeout_target(true).is_ok());
}

#[test]
fn duration_strings() {
    assert_eq!(parse_retry_duration("500ms"), Some(500));
    assert_eq!(parse_retry_duration("1s"), Some(1_000));
    assert_eq!(parse_retry_duration("2m"), Some(120_000));
    assert_eq!(parse_retry_duration("1h"), Some(3_600_000));
    assert_eq!(parse_retry_duration("0ms"), Some(0));
    assert_eq!(parse_retry_duration("007s"), Some(7_000));
    assert_eq!(parse_retry_duration("18446744073709551615ms"), Some(u64::MAX));
    assert_eq!(parse_retry_duration("18446744073709551616ms"), None);
    assert_eq!(parse_retry_duration("18446744073709552s"), None);
    assert_eq!(parse_retry_duration("18446744073709551s"), Some(18_446_744_073_709_551_000));
    assert_eq!(parse_retry_duration("ms"), None);
    assert_eq!(parse_retry_duration("s"), None);
    assert_eq!(parse_retry_duration(""), None);
    assert_eq!(parse_retry_duration("soon"), None);
    assert_eq!(parse_retry_duration("1.5s"), None);
    assert_eq!(parse_retry_duration("+1s"), None);
    assert_eq!(parse_retry_duration("-1s"), None);
    assert_eq!(parse_retry_duration("1d"), None);
    assert_eq!(parse_retry_duration("1 s"), None);
    assert_eq!(parse_retry_duration("1ms2"), None);
    assert_eq!(parse_retry_duration("１s"), None);
}

// `#[retry(max_retries = 2, initial_delay = "0ms", max_delay = "0ms",
// jitter = false)]` over `#[timeout("1s")]` on a body that takes 2 s: every
// attempt runs under its own deadline, times out, and is retried.
#[test]
fn retry_and_timeout_time_out_each_attempt_independently() {
    let setting = |key: &str, value: ArgValue| MetaArg { key: Some(key.to_string()), form: MetaForm::NameValue(value) };
    let policy = parse_retry_args(&vec![
        setting("max_retries", ArgValue::Int("2".to_string())),
        setting("initial_delay", ArgValue::Str("0ms".to_string())),
        setting("max_delay", ArgValue::Str("0ms".to_string())),
        setting("jitter", ArgValue::Bool(false)),
    ])
    .unwrap();
    assert_eq!(retry_timeout_attr(&vec![Some("timeout".to_string())]), Ok(Some(0)));
    let deadline = duration("1s");
    let body_millis: u64 = 2_000;

    let mut state = RetryState::start(&policy);
    let mut attempts = 0;
    let result: Result<&str, TimeoutTestError> = loop {
        attempts += 1;
        let finished: Option<Result<&str, TimeoutTestError>> = if body_millis <= deadline { Some(Ok("late")) } else { None };
        match timeout_result(finished) {
            Ok(value) => break Ok(value),
            Err(error) => match state.on_failure(&policy, error.is_retryable(), 0) {
                RetryStep::GiveUp => break Err(error),
                RetryStep::Wait { sleep_millis } => assert_eq!(sleep_millis, 0),
            },
        }
    };

    assert_eq!(result, Err(TimeoutTestError::Timeout));
    assert_eq!(attempts, 3);
}
