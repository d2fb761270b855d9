//! The `#[retry]` policy: its arguments, and the decision taken after each
//! failed attempt.
//!
//! A failed attempt is retried while the error is retryable and fewer than
//! `max_retries` retries have run. Before retry `k` (counting from 0) the
//! wait is `min(initial_delay * exponential_base^k, max_delay)`
//! milliseconds, or, with jitter, a value drawn from `0..=` that delay.

use vstd::prelude::*;
use vstd::arithmetic::power::pow;

use crate::decimal::{bounded_decimal, parse_decimal_u64};
use crate::duration::{duration_millis, parse_retry_duration};
use crate::macro_args::{has_key, key_is, ArgError, ArgValue, Diagnostic, ErrorAt, MetaArg, MetaForm, RetryKey};
use crate::text::chars_of;

verus! {

/// Errors that say whether the failed operation may be tried again.
pub trait Retryable {
    /// Whether another attempt may succeed.
    fn is_retryable(&self) -> bool;
}

/// The settings of `#[retry(...)]`.
#[derive(Debug, Clone, Copy, PartialEq, Eq, Structural)]
pub struct RetryArgs {
    pub max_retries: usize,
    pub initial_delay_millis: u64,
    pub exponential_base: u64,
    pub max_delay_millis: u64,
    pub jitter: bool,
}

/// The settings used when `#[retry]` is given no arguments.
pub open spec fn default_retry_args() -> RetryArgs {
    RetryArgs {
        max_retries: 20,
        initial_delay_millis: 1_000,
        exponential_base: 2,
        max_delay_millis: 180_000,
        jitter: true,
    }
}

impl Default for RetryArgs {
    /// Twenty retries, starting at one second, doubling, capped at three
    /// minutes, with jitter.
    fn default() -> (a: Self)
        ensures
            a == default_retry_args(),
    {
        RetryArgs {
            max_retries: 20,
            initial_delay_millis: 1_000,
            exponential_base: 2,
            max_delay_millis: 180_000,
            jitter: true,
        }
    }
}

/// One recognized setting and its value.
pub enum RetrySetting {
    MaxRetries(usize),
    InitialDelay(u64),
    ExponentialBase(u64),
    MaxDelay(u64),
    Jitter(bool),
}

/// The setting an argument names, if it is `key = value` with a known key.
pub open spec fn retry_key_of(m: MetaArg) -> Option<RetryKey> {
    match m.form {
        MetaForm::NameValue(_) => {
            if key_is(m, "max_retries"@) {
                Some(RetryKey::MaxRetries)
            } else if key_is(m, "initial_delay"@) {
                Some(RetryKey::InitialDelay)
            } else if key_is(m, "exponential_base"@) {
                Some(RetryKey::ExponentialBase)
            } else if key_is(m, "max_delay"@) {
                Some(RetryKey::MaxDelay)
            } else if key_is(m, "jitter"@) {
                Some(RetryKey::Jitter)
            } else {
                None
            }
        },
        _ => None,
    }
}

/// A duration setting read from its value.
pub open spec fn delay_setting(key: RetryKey, v: ArgValue, i: usize) -> Result<u64, ArgError> {
    match v {
        ArgValue::Str(s) => match duration_millis(s@) {
            Some(ms) => Ok(ms),
            None => Err(ArgError { diagnostic: Diagnostic::RetryDelayNotDuration(key), at: ErrorAt::ArgumentValue(i) }),
        },
        _ => Err(ArgError { diagnostic: Diagnostic::RetryDelayNotString(key), at: ErrorAt::ArgumentValue(i) }),
    }
}

/// What the argument at index `i` sets, or why it is rejected (not counting
/// repetition of an earlier key).
pub open spec fn retry_setting(m: MetaArg, i: usize) -> Result<RetrySetting, ArgError> {
    let unsupported = ArgError { diagnostic: Diagnostic::RetryUnsupported, at: ErrorAt::Argument(i) };
    match m.form {
        MetaForm::NameValue(v) => match retry_key_of(m) {
            None => Err(unsupported),
            Some(RetryKey::MaxRetries) => match v {
                ArgValue::Int(d) => match bounded_decimal(d@, usize::MAX as nat) {
                    Some(n) => Ok(RetrySetting::MaxRetries(n as usize)),
                    None => Err(ArgError { diagnostic: Diagnostic::IntegerTooLarge, at: ErrorAt::ArgumentValue(i) }),
                },
                _ => Err(ArgError { diagnostic: Diagnostic::RetryMaxRetriesNotInteger, at: ErrorAt::ArgumentValue(i) }),
            },
            Some(RetryKey::InitialDelay) => match delay_setting(RetryKey::InitialDelay, v, i) {
                Ok(ms) => Ok(RetrySetting::InitialDelay(ms)),
                Err(e) => Err(e),
            },
            Some(RetryKey::ExponentialBase) => match v {
                ArgValue::Int(d) => match bounded_decimal(d@, u64::MAX as nat) {
                    Some(n) => if n == 0 {
                        Err(ArgError { diagnostic: Diagnostic::RetryBaseNotPositive, at: ErrorAt::Argument(i) })
                    } else {
                        Ok(RetrySetting::ExponentialBase(n as u64))
                    },
                    None => Err(ArgError { diagnostic: Diagnostic::IntegerTooLarge, at: ErrorAt::ArgumentValue(i) }),
                },
                _ => Err(ArgError { diagnostic: Diagnostic::RetryBaseNotPositive, at: ErrorAt::ArgumentValue(i) }),
            },
            Some(RetryKey::MaxDelay) => match delay_setting(RetryKey::MaxDelay, v, i) {
                Ok(ms) => Ok(RetrySetting::MaxDelay(ms)),
                Err(e) => Err(e),
            },
            Some(RetryKey::Jitter) => match v {
                ArgValue::Bool(b) => Ok(RetrySetting::Jitter(b)),
                _ => Err(ArgError { diagnostic: Diagnostic::RetryJitterNotBool, at: ErrorAt::ArgumentValue(i) }),
            },
        },
        _ => Err(unsupported),
    }
}

/// Whether an argument before index `i` names the setting `k`.
pub open spec fn retry_key_seen(metas: Seq<MetaArg>, i: int, k: RetryKey) -> bool {
    exists|j: int| 0 <= j < i && #[trigger] retry_key_of(metas[j]) == Some(k)
}

/// The rejection of the argument at index `i`, if it is rejected.
pub open spec fn retry_arg_error(metas: Seq<MetaArg>, i: int) -> Option<ArgError> {
    match retry_key_of(metas[i]) {
        Some(k) => if retry_key_seen(metas, i, k) {
            Some(ArgError { diagnostic: Diagnostic::RetryDuplicate(k), at: ErrorAt::Argument(i as usize) })
        } else {
            match retry_setting(metas[i], i as usize) {
                Ok(_) => None,
                Err(e) => Some(e),
            }
        },
        None => match retry_setting(metas[i], i as usize) {
            Ok(_) => None,
            Err(e) => Some(e),
        },
    }
}

/// Whether `args` holds, for each setting, the value of the argument that
/// names it, and the default where no argument does.
pub open spec fn retry_args_match(metas: Seq<MetaArg>, args: RetryArgs) -> bool {
    let d = default_retry_args();
    &&& forall|i: int| 0 <= i < metas.len() ==> match #[trigger] retry_setting(metas[i], i as usize) {
        Ok(RetrySetting::MaxRetries(n)) => args.max_retries == n,
        Ok(RetrySetting::InitialDelay(n)) => args.initial_delay_millis == n,
        Ok(RetrySetting::ExponentialBase(n)) => args.exponential_base == n,
        Ok(RetrySetting::MaxDelay(n)) => args.max_delay_millis == n,
        Ok(RetrySetting::Jitter(b)) => args.jitter == b,
        Err(_) => true,
    }
    &&& !retry_key_seen(metas, metas.len() as int, RetryKey::MaxRetries) ==> args.max_retries == d.max_retries
    &&& !retry_key_seen(metas, metas.len() as int, RetryKey::InitialDelay) ==> args.initial_delay_millis == d.initial_delay_millis
    &&& !retry_key_seen(metas, metas.len() as int, RetryKey::ExponentialBase) ==> args.exponential_base == d.exponential_base
    &&& !retry_key_seen(metas, metas.len() as int, RetryKey::MaxDelay) ==> args.max_delay_millis == d.max_delay_millis
    &&& !retry_key_seen(metas, metas.len() as int, RetryKey::Jitter) ==> args.jitter == d.jitter
}

fn retry_key(m: &MetaArg) -> (k: Option<RetryKey>)
    ensures
        k == retry_key_of(*m),
{
    match &m.form {
        MetaForm::NameValue(_) => {
            if has_key(m, "max_retries") {
                Some(RetryKey::MaxRetries)
            } else if has_key(m, "initial_delay") {
                Some(RetryKey::InitialDelay)
            } else if has_key(m, "exponential_base") {
                Some(RetryKey::ExponentialBase)
            } else if has_key(m, "max_delay") {
                Some(RetryKey::MaxDelay)
            } else if has_key(m, "jitter") {
                Some(RetryKey::Jitter)
            } else {
                None
            }
        },
        _ => None,
    }
}

fn parse_delay(key: RetryKey, v: &ArgValue, i: usize) -> (r: Result<u64, ArgError>)
    ensures
        r == delay_setting(key, *v, i),
{
    match v {
        ArgValue::Str(s) => match parse_retry_duration(s.as_str()) {
            Some(ms) => Ok(ms),
            None => Err(ArgError { diagnostic: Diagnostic::RetryDelayNotDuration(key), at: ErrorAt::ArgumentValue(i) }),
        },
        _ => Err(ArgError { diagnostic: Diagnostic::RetryDelayNotString(key), at: ErrorAt::ArgumentValue(i) }),
    }
}

/// The value of an integer literal's digits when it fits in `usize`.
pub fn parse_usize_digits(digits: &String) -> (r: Option<usize>)
    ensures
        r matches Some(n) ==> bounded_decimal(digits@, usize::MAX as nat) == Some(n as nat),
        r is None ==> bounded_decimal(digits@, usize::MAX as nat) is None,
{
    let chars = chars_of(digits.as_str());
    match parse_decimal_u64(&chars) {
        Some(v) => {
            if v <= usize::MAX as u64 {
                Some(v as usize)
            } else {
                None
            }
        },
        None => None,
    }
}

/// The value of an integer literal's digits when it fits in `u64`.
pub fn parse_u64_digits(digits: &String) -> (r: Option<u64>)
    ensures
        r matches Some(n) ==> bounded_decimal(digits@, u64::MAX as nat) == Some(n as nat),
        r is None ==> bounded_decimal(digits@, u64::MAX as nat) is None,
{
    let chars = chars_of(digits.as_str());
    parse_decimal_u64(&chars)
}

fn parse_setting(m: &MetaArg, i: usize) -> (r: Result<RetrySetting, ArgError>)
    ensures
        r == retry_setting(*m, i),
{
    let unsupported = ArgError { diagnostic: Diagnostic::RetryUnsupported, at: ErrorAt::Argument(i) };
    match &m.form {
        MetaForm::NameValue(v) => match retry_key(m) {
            None => Err(unsupported),
            Some(RetryKey::MaxRetries) => match v {
                ArgValue::Int(d) => match parse_usize_digits(d) {
                    Some(n) => Ok(RetrySetting::MaxRetries(n)),
                    None => Err(ArgError { diagnostic: Diagnostic::IntegerTooLarge, at: ErrorAt::ArgumentValue(i) }),
                },
                _ => Err(ArgError { diagnostic: Diagnostic::RetryMaxRetriesNotInteger, at: ErrorAt::ArgumentValue(i) }),
            },
            Some(RetryKey::InitialDelay) => match parse_delay(RetryKey::InitialDelay, v, i) {
                Ok(ms) => Ok(RetrySetting::InitialDelay(ms)),
                Err(e) => Err(e),
            },
            Some(RetryKey::ExponentialBase) => match v {
                ArgValue::Int(d) => match parse_u64_digits(d) {
                    Some(n) => if n == 0 {
                        Err(ArgError { diagnostic: Diagnostic::RetryBaseNotPositive, at: ErrorAt::Argument(i) })
                    } else {
                        Ok(RetrySetting::ExponentialBase(n))
                    },
                    None => Err(ArgError { diagnostic: Diagnostic::IntegerTooLarge, at: ErrorAt::ArgumentValue(i) }),
                },
                _ => Err(ArgError { diagnostic: Diagnostic::RetryBaseNotPositive, at: ErrorAt::ArgumentValue(i) }),
            },
            Some(RetryKey::MaxDelay) => match parse_delay(RetryKey::MaxDelay, v, i) {
                Ok(ms) => Ok(RetrySetting::MaxDelay(ms)),
                Err(e) => Err(e),
            },
            Some(RetryKey::Jitter) => match v {
                ArgValue::Bool(b) => Ok(RetrySetting::Jitter(*b)),
                _ => Err(ArgError { diagnostic: Diagnostic::RetryJitterNotBool, at: ErrorAt::ArgumentValue(i) }),
            },
        },
        _ => Err(unsupported),
    }
}

/// Reads the arguments of `#[retry(...)]`.
///
/// Every argument must be `max_retries = <integer>`, `initial_delay =
/// "<duration>"`, `exponential_base = <integer > 0>`, `max_delay =
/// "<duration>"` or `jitter = <bool>`, each at most once. The first rejected
/// argument, in order, is reported; otherwise each setting takes its
/// argument's value, or its default.
#[verifier::rlimit(40)]
#[verifier::spinoff_prover]
pub fn parse_retry_args(metas: &Vec<MetaArg>) -> (r: Result<RetryArgs, ArgError>)
    ensures
        r is Ok <==> (forall|i: int| 0 <= i < metas@.len() ==> retry_arg_error(metas@, i) is None),
        r matches Err(e) ==> exists|i: int|
            0 <= i < metas@.len() && retry_arg_error(metas@, i) == Some(e)
                && (forall|j: int| 0 <= j < i ==> retry_arg_error(metas@, j) is None),
        r matches Ok(a) ==> retry_args_match(metas@, a) && a.exponential_base > 0,
{
    let mut args = RetryArgs::default();
    let mut seen_max_retries = false;
    let mut seen_initial_delay = false;
    let mut seen_exponential_base = false;
    let mut seen_max_delay = false;
    let mut seen_jitter = false;
    let mut i: usize = 0;
    while i < metas.len()
        invariant
            i <= metas@.len(),
            forall|j: int| 0 <= j < i ==> retry_arg_error(metas@, j) is None,
            seen_max_retries == retry_key_seen(metas@, i as int, RetryKey::MaxRetries),
            seen_initial_delay == retry_key_seen(metas@, i as int, RetryKey::InitialDelay),
            seen_exponential_base == retry_key_seen(metas@, i as int, RetryKey::ExponentialBase),
            seen_max_delay == retry_key_seen(metas@, i as int, RetryKey::MaxDelay),
            seen_jitter == retry_key_seen(metas@, i as int, RetryKey::Jitter),
            retry_args_match(metas@.take(i as int), args),
            args.exponential_base > 0,
        decreases metas.len() - i,
    {
        let m = &metas[i];
        let key = retry_key(m);
        let seen = match key {
            Some(RetryKey::MaxRetries) => seen_max_retries,
            Some(RetryKey::InitialDelay) => seen_initial_delay,
            Some(RetryKey::ExponentialBase) => seen_exponential_base,
            Some(RetryKey::MaxDelay) => seen_max_delay,
            Some(RetryKey::Jitter) => seen_jitter,
            None => false,
        };
        if seen {
            let k = key.unwrap();
            return Err(ArgError { diagnostic: Diagnostic::RetryDuplicate(k), at: ErrorAt::Argument(i) });
        }
        let setting = parse_setting(m, i);
        let ghost old_args = args;
        match setting {
            Err(e) => {
                return Err(e);
            },
            Ok(RetrySetting::MaxRetries(n)) => {
                args.max_retries = n;
                seen_max_retries = true;
            },
            Ok(RetrySetting::InitialDelay(n)) => {
                args.initial_delay_millis = n;
                seen_initial_delay = true;
            },
            Ok(RetrySetting::ExponentialBase(n)) => {
                args.exponential_base = n;
                seen_exponential_base = true;
            },
            Ok(RetrySetting::MaxDelay(n)) => {
                args.max_delay_millis = n;
                seen_max_delay = true;
            },
            Ok(RetrySetting::Jitter(b)) => {
                args.jitter = b;
                seen_jitter = true;
            },
        }
        proof {
            let pre = metas@.take(i as int);
            let post = metas@.take(i + 1);
            assert forall|j: int| 0 <= j < post.len() implies match #[trigger] retry_setting(post[j], j as usize) {
                Ok(RetrySetting::MaxRetries(n)) => args.max_retries == n,
                Ok(RetrySetting::InitialDelay(n)) => args.initial_delay_millis == n,
                Ok(RetrySetting::ExponentialBase(n)) => args.exponential_base == n,
                Ok(RetrySetting::MaxDelay(n)) => args.max_delay_millis == n,
                Ok(RetrySetting::Jitter(b)) => args.jitter == b,
                Err(_) => true,
            } by {
                if j < i {
                    assert(post[j] == pre[j]);
                    assert(retry_setting(pre[j], j as usize) == retry_setting(metas@[j], j as usize));
                    assert(retry_arg_error(metas@, j) is None);
                    let kj = retry_key_of(metas@[j]);
                    if kj is Some && kj == retry_key_of(metas@[i as int]) {
                        assert(retry_key_seen(metas@, i as int, kj.unwrap()));
                    }
                }
            }
            assert forall|k: RetryKey| retry_key_seen(metas@, i + 1, k) == (retry_key_seen(metas@, i as int, k) || retry_key_of(metas@[i as int]) == Some(k)) by {
                if retry_key_seen(metas@, i + 1, k) && !retry_key_seen(metas@, i as int, k) {
                    let j = choose|j: int| 0 <= j < i + 1 && #[trigger] retry_key_of(metas@[j]) == Some(k);
                    assert(j == i);
                }
            }
            assert forall|k: RetryKey| retry_key_seen(post, post.len() as int, k) == retry_key_seen(metas@, i + 1, k) by {
                if retry_key_seen(post, post.len() as int, k) {
                    let j = choose|j: int| 0 <= j < post.len() && #[trigger] retry_key_of(post[j]) == Some(k);
                    assert(post[j] == metas@[j]);
                }
                if retry_key_seen(metas@, i + 1, k) {
                    let j = choose|j: int| 0 <= j < i + 1 && #[trigger] retry_key_of(metas@[j]) == Some(k);
                    assert(post[j] == metas@[j]);
                }
            }
            assert forall|k: RetryKey| retry_key_seen(pre, pre.len() as int, k) == retry_key_seen(metas@, i as int, k) by {
                if retry_key_seen(pre, pre.len() as int, k) {
                    let j = choose|j: int| 0 <= j < pre.len() && #[trigger] retry_key_of(pre[j]) == Some(k);
                    assert(pre[j] == metas@[j]);
                }
                if retry_key_seen(metas@, i as int, k) {
                    let j = choose|j: int| 0 <= j < i && #[trigger] retry_key_of(metas@[j]) == Some(k);
                    assert(pre[j] == metas@[j]);
                }
            }
            assert(retry_arg_error(metas@, i as int) is None);
        }
        i = i + 1;
    }
    assert(metas@.take(metas@.len() as int) == metas@);
    Ok(args)
}

/// Where a retry loop stands: how many retries have run and the delay, in
/// milliseconds, that the next retry waits (before jitter).
#[derive(Debug, Clone, Copy, PartialEq, Eq, Structural)]
pub struct RetryState {
    pub retries: usize,
    pub delay_millis: u64,
}

/// What to do after a failed attempt.
#[derive(Debug, Clone, Copy, PartialEq, Eq, Structural)]
pub enum RetryStep {
    /// Return the error to the caller.
    GiveUp,
    /// Sleep this many milliseconds (none when 0), then attempt again.
    Wait { sleep_millis: u64 },
}

/// The smaller of two values.
pub open spec fn min_nat(a: nat, b: nat) -> nat {
    if a <= b {
        a
    } else {
        b
    }
}

/// `a * b`, or `u64::MAX` when the product does not fit.
pub open spec fn saturating_product(a: u64, b: u64) -> u64 {
    if a * b <= u64::MAX {
        (a * b) as u64
    } else {
        u64::MAX
    }
}

/// The delay after `delay`: multiplied by the base (saturating), capped at
/// the maximum.
pub open spec fn next_delay(args: RetryArgs, delay: u64) -> u64 {
    min_nat(saturating_product(delay, args.exponential_base) as nat, args.max_delay_millis as nat) as u64
}

/// How long to sleep for a delay: the delay itself, or with jitter (and a
/// positive delay) the clock's sub-second nanoseconds reduced modulo
/// `delay + 1`.
pub open spec fn sleep_for(jitter: bool, delay: u64, clock_nanos: u64) -> u64 {
    if jitter && delay > 0 {
        if delay == u64::MAX {
            clock_nanos
        } else {
            (clock_nanos % (delay + 1) as u64) as u64
        }
    } else {
        delay
    }
}

/// The state before the first attempt.
pub open spec fn initial_state(args: RetryArgs) -> RetryState {
    RetryState {
        retries: 0,
        delay_millis: min_nat(args.initial_delay_millis as nat, args.max_delay_millis as nat) as u64,
    }
}

/// The delay before retry `k` (counting from 0), stated directly:
/// `min(initial_delay * base^k, max_delay)`.
pub open spec fn backoff_delay(args: RetryArgs, k: nat) -> nat {
    min_nat((args.initial_delay_millis as nat) * (pow(args.exponential_base as int, k) as nat), args.max_delay_millis as nat)
}

/// The state after `k` waits in a run of retryable failures.
pub open spec fn state_after(args: RetryArgs, k: nat) -> RetryState
    decreases k,
{
    if k == 0 {
        initial_state(args)
    } else {
        let prev = state_after(args, (k - 1) as nat);
        RetryState { retries: (prev.retries + 1) as usize, delay_millis: next_delay(args, prev.delay_millis) }
    }
}

/// The decision after a failed attempt in state `s`: give up (keeping the
/// state) when the error is not retryable or `max_retries` retries have run;
/// otherwise wait the current delay (drawn from the clock reading with
/// jitter), count the retry, and grow the delay.
pub open spec fn decide(args: RetryArgs, s: RetryState, retryable: bool, clock_nanos: u64) -> (RetryStep, RetryState) {
    if !retryable || s.retries >= args.max_retries {
        (RetryStep::GiveUp, s)
    } else {
        (
            RetryStep::Wait { sleep_millis: sleep_for(args.jitter, s.delay_millis, clock_nanos) },
            RetryState { retries: (s.retries + 1) as usize, delay_millis: next_delay(args, s.delay_millis) },
        )
    }
}

impl RetryState {
    /// The state before the first attempt: no retries yet, and the initial
    /// delay capped at the maximum delay.
    pub fn start(args: &RetryArgs) -> (s: Self)
        ensures
            s == initial_state(*args),
    {
        let delay = if args.initial_delay_millis <= args.max_delay_millis {
            args.initial_delay_millis
        } else {
            args.max_delay_millis
        };
        RetryState { retries: 0, delay_millis: delay }
    }

    /// Decides what follows a failed attempt. The error is returned when it is
    /// not retryable or when `max_retries` retries have already run; otherwise
    /// the retry count goes up by one, the wait is the current delay (drawn
    /// from the clock reading when jitter is on), and the delay grows by the
    /// base up to the maximum.
    pub fn on_failure(&mut self, args: &RetryArgs, retryable: bool, clock_nanos: u64) -> (step: RetryStep)
        ensures
            (step, *final(self)) == decide(*args, *old(self), retryable, clock_nanos),
    {
        if !retryable || self.retries >= args.max_retries {
            return RetryStep::GiveUp;
        }
        self.retries = self.retries + 1;
        let delay = self.delay_millis;
        let sleep = if args.jitter && delay > 0 {
            if delay == u64::MAX {
                clock_nanos
            } else {
                clock_nanos % (delay + 1)
            }
        } else {
            delay
        };
        let grown = match delay.checked_mul(args.exponential_base) {
            Some(product) => product,
            None => u64::MAX,
        };
        self.delay_millis = if grown <= args.max_delay_millis {
            grown
        } else {
            args.max_delay_millis
        };
        RetryStep::Wait { sleep_millis: sleep }
    }
}

/// Every wait is at most the current delay, and so at most `max_delay`.
pub proof fn lemma_sleep_within_delay(jitter: bool, delay: u64, clock_nanos: u64)
    ensures
        sleep_for(jitter, delay, clock_nanos) <= delay,
{
    if jitter && delay > 0 && delay < u64::MAX {
        assert(clock_nanos % (delay + 1) as u64 <= delay) by (nonlinear_arith)
            requires
                delay < u64::MAX,
        ;
    }
}

/// The delay never exceeds `max_delay`, and the retry count never exceeds
/// `max_retries`: these hold from the start and after every decision.
pub open spec fn state_within_policy(args: RetryArgs, s: RetryState) -> bool {
    s.retries <= args.max_retries && s.delay_millis <= args.max_delay_millis
}

/// The starting state is within the policy, and every decision keeps it so;
/// in particular a retry loop runs at most `max_retries + 1` attempts.
pub proof fn lemma_decisions_stay_within_policy(args: RetryArgs, s: RetryState, retryable: bool, clock_nanos: u64)
    ensures
        state_within_policy(args, initial_state(args)),
        state_within_policy(args, s) ==> state_within_policy(args, decide(args, s, retryable, clock_nanos).1),
{
}

proof fn lemma_pow_monotone(b: int, k: nat)
    requires
        b >= 1,
    ensures
        pow(b, k + 1) >= pow(b, k),
        pow(b, k) >= 1,
    decreases k,
{
    vstd::arithmetic::power::lemma_pow_positive(b, k);
    vstd::arithmetic::power::lemma_pow_adds(b, k, 1);
    vstd::arithmetic::power::lemma_pow1(b);
    assert(pow(b, k) * b >= pow(b, k)) by (nonlinear_arith)
        requires
            b >= 1,
            pow(b, k) >= 1,
    ;
}

/// The delay before retry `k` is `min(initial_delay * base^k, max_delay)`:
/// the delays grow by the base each retry and stop at the maximum.
pub proof fn lemma_backoff_delay(args: RetryArgs, k: nat)
    ensures
        state_after(args, k).delay_millis as nat == backoff_delay(args, k),
        state_after(args, k).retries as int == k || k > usize::MAX,
    decreases k,
{
    let init = args.initial_delay_millis as nat;
    let b = args.exponential_base as int;
    let m = args.max_delay_millis as nat;
    if k == 0 {
        vstd::arithmetic::power::lemma_pow0(b);
        assert(pow(b, 0) as nat == 1nat);
        assert(init * 1nat == init);
    } else {
        let j = (k - 1) as nat;
        lemma_backoff_delay(args, j);
        let d = state_after(args, j).delay_millis;
        vstd::arithmetic::power::lemma_pow_adds(b, j, 1);
        vstd::arithmetic::power::lemma_pow1(b);
        assert(pow(b, k) == pow(b, j) * b);
        if b == 0 {
            vstd::arithmetic::power::lemma_pow0(b);
            assert(pow(b, k) == 0) by {
                assert(pow(b, j) * 0 == 0) by (nonlinear_arith);
            }
            assert(d * args.exponential_base == 0) by (nonlinear_arith)
                requires
                    args.exponential_base == 0,
            ;
            assert(init * pow(b, k) as nat == 0) by (nonlinear_arith)
                requires
                    pow(b, k) == 0,
            ;
        } else {
            vstd::arithmetic::power::lemma_pow_positive(b, j);
            let pj = pow(b, j) as nat;
            assert(init * pow(b, k) as nat == (init * pj) * (b as nat)) by (nonlinear_arith)
                requires
                    pow(b, k) == pow(b, j) * b,
                    pj == pow(b, j),
                    b >= 1,
            ;
            if init * pj >= m {
                assert(d == m);
                assert((init * pj) * (b as nat) >= init * pj) by (nonlinear_arith)
                    requires
                        b >= 1,
                ;
                assert(d * args.exponential_base >= d) by (nonlinear_arith)
                    requires
                        args.exponential_base >= 1,
                ;
            } else {
                assert(d as nat == init * pj);
                assert(d * args.exponential_base == (init * pj) * (b as nat));
            }
        }
    }
}

/// A run of retryable failures is retried exactly `max_retries` times: while
/// fewer than `max_retries` retries have run, the decision waits the current
/// backoff delay (see `lemma_backoff_delay`) and moves on to the next state;
/// after `max_retries` waits it gives the error back.
pub proof fn lemma_retries_exactly_max_then_gives_up(args: RetryArgs, k: nat, clock_nanos: u64)
    requires
        k <= args.max_retries,
    ensures
        state_after(args, k).retries == k,
        k < args.max_retries ==> decide(args, state_after(args, k), true, clock_nanos) == (
        RetryStep::Wait { sleep_millis: sleep_for(args.jitter, state_after(args, k).delay_millis, clock_nanos) },
        state_after(args, k + 1),
        ),
        k == args.max_retries ==> decide(args, state_after(args, k), true, clock_nanos).0 == RetryStep::GiveUp,
{
    lemma_backoff_delay(args, k);
    if k < args.max_retries {
        assert(state_after(args, k + 1) == RetryState {
            retries: (state_after(args, k).retries + 1) as usize,
            delay_millis: next_delay(args, state_after(args, k).delay_millis),
        });
    }
}

/// An error that is not retryable is given back at once, whatever the state.
pub proof fn lemma_non_retryable_gives_up(args: RetryArgs, s: RetryState, clock_nanos: u64)
    ensures
        decide(args, s, false, clock_nanos) == (RetryStep::GiveUp, s),
{
}

/// Without jitter, the wait before retry `k` is `min(initial_delay *
/// base^k, max_delay)` milliseconds, whatever the clock reads.
pub proof fn lemma_waits_follow_backoff(args: RetryArgs, k: nat, clock_nanos: u64)
    requires
        !args.jitter,
    ensures
        sleep_for(args.jitter, state_after(args, k).delay_millis, clock_nanos) as nat == backoff_delay(args, k),
{
    lemma_backoff_delay(args, k);
}

/// Checks that `#[retry]` annotates an async function.
pub fn check_retry_target(is_async: bool) -> (r: Result<(), ArgError>)
    ensures
        r is Ok <==> is_async,
        r matches Err(e) ==> e == (ArgError { diagnostic: Diagnostic::RetryNotAsync, at: ErrorAt::CallSite }),
{
    if is_async {
        Ok(())
    } else {
        Err(ArgError { diagnostic: Diagnostic::RetryNotAsync, at: ErrorAt::CallSite })
    }
}

/// Whether an attribute, by the last identifier of its path, is `#[timeout]`
/// (written bare or by a path such as `corekit::timeout`).
pub open spec fn is_timeout_name(last_ident: Option<String>) -> bool {
    last_ident matches Some(n) && n@ == "timeout"@
}

fn names_timeout(last_ident: &Option<String>) -> (b: bool)
    ensures
        b == is_timeout_name(*last_ident),
{
    match last_ident {
        Some(n) => crate::macro_args::string_eq(n, "timeout"),
        None => false,
    }
}

/// Picks the `#[timeout]` attribute that `#[retry]` applies to each attempt,
/// given the last identifier of each of the function's attribute paths: none,
/// the only one, or a diagnostic on the second one when there are several.
/// The other attributes stay on the function.
pub fn retry_timeout_attr(attr_names: &Vec<Option<String>>) -> (r: Result<Option<usize>, ArgError>)
    ensures
        r == Ok::<Option<usize>, ArgError>(None) <==> (forall|i: int|
            0 <= i < attr_names@.len() ==> !is_timeout_name(#[trigger] attr_names@[i])),
        r matches Ok(Some(j)) ==> j < attr_names@.len() && is_timeout_name(attr_names@[j as int]) && (forall|i: int|
            0 <= i < attr_names@.len() && i != j ==> !is_timeout_name(#[trigger] attr_names@[i])),
        r matches Err(e) ==> exists|first: int, second: int|
            0 <= first < second < attr_names@.len() && is_timeout_name(#[trigger] attr_names@[first])
                && is_timeout_name(#[trigger] attr_names@[second])
                && (forall|i: int| 0 <= i < second && i != first ==> !is_timeout_name(#[trigger] attr_names@[i]))
                && e == (ArgError { diagnostic: Diagnostic::RetryTooManyTimeouts, at: ErrorAt::Argument(second as usize) }),
{
    let mut found: Option<usize> = None;
    let mut i: usize = 0;
    while i < attr_names.len()
        invariant
            i <= attr_names@.len(),
            found is None ==> forall|k: int| 0 <= k < i ==> !is_timeout_name(#[trigger] attr_names@[k]),
            found matches Some(j) ==> j < i && is_timeout_name(attr_names@[j as int]) && forall|k: int|
                0 <= k < i && k != j ==> !is_timeout_name(#[trigger] attr_names@[k]),
        decreases attr_names.len() - i,
    {
        if names_timeout(&attr_names[i]) {
            match found {
                Some(first) => {
                    assert(0 <= first < i);
                    return Err(ArgError { diagnostic: Diagnostic::RetryTooManyTimeouts, at: ErrorAt::Argument(i) });
                },
                None => {
                    found = Some(i);
                },
            }
        }
        i = i + 1;
    }
    Ok(found)
}

/// Any positive base is accepted, and only zero is refused: the single
/// argument `exponential_base = n` sets the base to `n` and leaves every
/// other setting at its default when `1 <= n <= u64::MAX`, and is rejected
/// (pointing at the argument) when `n == 0`.
pub proof fn lemma_any_positive_base_is_accepted(m: MetaArg, digits: String, n: nat)
    requires
        m.key matches Some(k) && k@ == "exponential_base"@,
        m.form == MetaForm::NameValue(ArgValue::Int(digits)),
        bounded_decimal(digits@, u64::MAX as nat) == Some(n),
    ensures
        n >= 1 ==> retry_arg_error(seq![m], 0) is None,
        n >= 1 ==> forall|a: RetryArgs|
            retry_args_match(seq![m], a) ==> a == (RetryArgs { exponential_base: n as u64, ..default_retry_args() }),
        n == 0 ==> retry_arg_error(seq![m], 0) == Some(
            ArgError { diagnostic: Diagnostic::RetryBaseNotPositive, at: ErrorAt::Argument(0) },
        ),
{
    reveal_strlit("exponential_base");
    reveal_strlit("max_retries");
    reveal_strlit("initial_delay");
    let metas = seq![m];
    assert(metas[0] == m);
    assert("exponential_base"@ != "max_retries"@) by {
        assert("exponential_base"@[0] != "max_retries"@[0]);
    }
    assert("exponential_base"@ != "initial_delay"@) by {
        assert("exponential_base"@[0] != "initial_delay"@[0]);
    }
    assert(retry_key_of(m) == Some(RetryKey::ExponentialBase));
    assert(!retry_key_seen(metas, 0, RetryKey::ExponentialBase));
    if n >= 1 {
        assert(retry_setting(m, 0) == Ok::<RetrySetting, ArgError>(RetrySetting::ExponentialBase(n as u64)));
        assert forall|a: RetryArgs| retry_args_match(metas, a) implies a == (RetryArgs {
            exponential_base: n as u64,
            ..default_retry_args()
        }) by {
            assert(retry_setting(metas[0], 0) == Ok::<RetrySetting, ArgError>(RetrySetting::ExponentialBase(n as u64)));
            assert forall|k: RetryKey| k != RetryKey::ExponentialBase implies !retry_key_seen(metas, 1, k) by {
                if retry_key_seen(metas, 1, k) {
                    let j = choose|j: int| 0 <= j < 1 && #[trigger] retry_key_of(metas[j]) == Some(k);
                    assert(j == 0);
                }
            }
            assert(!retry_key_seen(metas, 1, RetryKey::MaxRetries));
            assert(!retry_key_seen(metas, 1, RetryKey::InitialDelay));
            assert(!retry_key_seen(metas, 1, RetryKey::MaxDelay));
            assert(!retry_key_seen(metas, 1, RetryKey::Jitter));
        }
    }
}

} // verus!
