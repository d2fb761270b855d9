//! The arguments of the attribute macros, as plain values, and the
//! diagnostics the macros report on them.
//!
//! An attribute such as `#[retry(max_retries = 3, jitter = false)]` is a list
//! of [`MetaArg`]s; each one is a bare path (`optional`), a list
//! (`name(...)`) or a `key = value` pair whose value is an [`ArgValue`].

use vstd::prelude::*;

use crate::text::owned;

verus! {

/// The value on the right of `key = value`, or one argument expression.
pub enum ArgValue {
    /// An integer literal, by the base-10 digits of its value.
    Int(String),
    /// A floating-point literal, by its text.
    Float(String),
    /// A string literal, by its value.
    Str(String),
    /// `true` or `false`.
    Bool(bool),
    /// A literal of any other kind (character, byte, byte string, ...).
    OtherLit,
    /// A path expression, by the identifiers of its segments.
    Path(Vec<String>),
    /// A negated expression `-e`.
    Neg(Box<ArgValue>),
    /// Any other expression.
    Other,
}

/// The shape of one argument.
pub enum MetaForm {
    /// A bare path, such as `optional`.
    Path,
    /// A path followed by a parenthesized list.
    List,
    /// `path = value`.
    NameValue(ArgValue),
}

/// One argument of an attribute.
pub struct MetaArg {
    /// The argument's name when its path is a single plain identifier.
    pub key: Option<String>,
    pub form: MetaForm,
}

/// Where a diagnostic points.
#[derive(Debug, Clone, Copy, PartialEq, Eq, Structural)]
pub enum ErrorAt {
    /// The whole argument at this index.
    Argument(usize),
    /// The value of the argument at this index.
    ArgumentValue(usize),
    /// The attribute's input as a whole.
    Input,
    /// The annotated item as a whole.
    Item,
    /// The annotated item's identifier.
    ItemIdent,
    /// The call site of the macro.
    CallSite,
}

/// The named settings of `#[retry(...)]`.
#[derive(Debug, Clone, Copy, PartialEq, Eq, Structural)]
pub enum RetryKey {
    MaxRetries,
    InitialDelay,
    ExponentialBase,
    MaxDelay,
    Jitter,
}

/// The numeric bounds of `#[env(...)]`.
#[derive(Debug, Clone, Copy, PartialEq, Eq, Structural)]
pub enum BoundKey {
    Min,
    Max,
}

/// A compile-time diagnostic of one of the macros.
#[derive(Debug, Clone, Copy, PartialEq, Eq, Structural)]
pub enum Diagnostic {
    IntegerTooLarge,
    RetryDuplicate(RetryKey),
    RetryMaxRetriesNotInteger,
    RetryDelayNotDuration(RetryKey),
    RetryDelayNotString(RetryKey),
    RetryBaseNotPositive,
    RetryJitterNotBool,
    RetryUnsupported,
    RetryNotAsync,
    RetryTooManyTimeouts,
    TimeoutArgCount,
    TimeoutNotDuration,
    TimeoutNotString,
    TimeoutNotAsync,
    SingletonInitNotPath,
    SingletonUnsupported,
    SingletonNotStruct,
    SingletonStrategyConflict,
    SingletonGeneric,
    EnvConfigGlobalDuplicate,
    EnvConfigGlobalNotIdent,
    EnvConfigDotenvDuplicate,
    EnvConfigDotenvInvalid,
    EnvConfigUnsupported,
    EnvConfigNotNamedStruct,
    EnvConfigGeneric,
    EnvConfigAttrNotNamedStruct,
    EnvConfigAttrGeneric,
    EnvNameNotString,
    EnvDefaultNotLiteral,
    EnvBoundNotNumeric(BoundKey),
    EnvUnsupported,
    EnvOptionalNotOption,
    EnvOptionalWithDefault,
    EnvTrimNotString,
    EnvNonEmptyNotString,
    EnvBoundOnNonNumeric(BoundKey),
    EnvFilterEmptyNotList,
    EnvLengthNotCount(BoundKey),
    EnvLengthNotList(BoundKey),
    EnvEachBoundNotNumeric(BoundKey),
    EnvEachBoundNotList(BoundKey),
}

/// A diagnostic and where it points.
#[derive(Debug, Clone, Copy, PartialEq, Eq, Structural)]
pub struct ArgError {
    pub diagnostic: Diagnostic,
    pub at: ErrorAt,
}

/// The text of a diagnostic.
pub open spec fn diagnostic_text(d: Diagnostic) -> Seq<char> {
    match d {
        Diagnostic::IntegerTooLarge => "number too large to fit in target type"@,
        Diagnostic::RetryDuplicate(RetryKey::MaxRetries) => "duplicate `#[retry(max_retries = ...)]` argument"@,
        Diagnostic::RetryDuplicate(RetryKey::InitialDelay) => "duplicate `#[retry(initial_delay = ...)]` argument"@,
        Diagnostic::RetryDuplicate(RetryKey::ExponentialBase) => "duplicate `#[retry(exponential_base = ...)]` argument"@,
        Diagnostic::RetryDuplicate(RetryKey::MaxDelay) => "duplicate `#[retry(max_delay = ...)]` argument"@,
        Diagnostic::RetryDuplicate(RetryKey::Jitter) => "duplicate `#[retry(jitter = ...)]` argument"@,
        Diagnostic::RetryMaxRetriesNotInteger => "`#[retry(max_retries = ...)]` expects a non-negative integer literal"@,
        Diagnostic::RetryDelayNotDuration(RetryKey::MaxDelay) => "`#[retry(max_delay = ...)]` expects a duration string like \"500ms\", \"1s\", \"2m\", or \"1h\""@,
        Diagnostic::RetryDelayNotDuration(_) => "`#[retry(initial_delay = ...)]` expects a duration string like \"500ms\", \"1s\", \"2m\", or \"1h\""@,
        Diagnostic::RetryDelayNotString(RetryKey::MaxDelay) => "`#[retry(max_delay = ...)]` expects a string literal"@,
        Diagnostic::RetryDelayNotString(_) => "`#[retry(initial_delay = ...)]` expects a string literal"@,
        Diagnostic::RetryBaseNotPositive => "`#[retry(exponential_base = ...)]` expects an integer literal greater than 0"@,
        Diagnostic::RetryJitterNotBool => "`#[retry(jitter = ...)]` expects a boolean literal"@,
        Diagnostic::RetryUnsupported => "unsupported `#[retry]` argument"@,
        Diagnostic::RetryNotAsync => "`#[retry]` can only be used on async functions"@,
        Diagnostic::RetryTooManyTimeouts => "`#[retry]` supports at most one `#[timeout]` attribute"@,
        Diagnostic::TimeoutArgCount => "`#[timeout(...)]` expects exactly one duration string"@,
        Diagnostic::TimeoutNotDuration => "`#[timeout(...)]` expects a duration string like \"500ms\", \"1s\", \"2m\", or \"1h\""@,
        Diagnostic::TimeoutNotString => "`#[timeout(...)]` expects a string literal"@,
        Diagnostic::TimeoutNotAsync => "`#[timeout]` can only be used on async functions"@,
        Diagnostic::SingletonInitNotPath => "`#[singleton(init = ...)]` expects a zero-argument function path"@,
        Diagnostic::SingletonUnsupported => "unsupported `#[singleton]` argument"@,
        Diagnostic::SingletonNotStruct => "`#[singleton]` can only be used on structs"@,
        Diagnostic::SingletonStrategyConflict => "`#[singleton]` accepts only one init strategy"@,
        Diagnostic::SingletonGeneric => "`#[singleton]` does not support generic structs"@,
        Diagnostic::EnvConfigGlobalDuplicate => "duplicate `#[env_config(global = ...)]` argument"@,
        Diagnostic::EnvConfigGlobalNotIdent => "`#[env_config(global = ...)]` expects an identifier"@,
        Diagnostic::EnvConfigDotenvDuplicate => "duplicate `#[env_config(dotenv = ...)]` argument"@,
        Diagnostic::EnvConfigDotenvInvalid => "`#[env_config(dotenv = ...)]` expects a string literal or `false`"@,
        Diagnostic::EnvConfigUnsupported => "unsupported `#[env_config]` argument"@,
        Diagnostic::EnvConfigNotNamedStruct => "`EnvConfig` can only be derived for structs with named fields"@,
        Diagnostic::EnvConfigGeneric => "`EnvConfig` does not support generic structs"@,
        Diagnostic::EnvConfigAttrNotNamedStruct => "`#[env_config]` can only be used on structs with named fields"@,
        Diagnostic::EnvConfigAttrGeneric => "`#[env_config]` does not support generic structs"@,
        Diagnostic::EnvNameNotString => "`#[env(name = ...)]` expects a string literal"@,
        Diagnostic::EnvDefaultNotLiteral => "`#[env(default = ...)]` expects a literal"@,
        Diagnostic::EnvBoundNotNumeric(BoundKey::Min) => "`#[env(min = ...)]` expects a numeric literal"@,
        Diagnostic::EnvBoundNotNumeric(BoundKey::Max) => "`#[env(max = ...)]` expects a numeric literal"@,
        Diagnostic::EnvUnsupported => "unsupported `#[env]` argument"@,
        Diagnostic::EnvOptionalNotOption => "`#[env(optional)]` requires an `Option<T>` field"@,
        Diagnostic::EnvOptionalWithDefault => "`#[env(optional)]` cannot be combined with `#[env(default = ...)]`"@,
        Diagnostic::EnvTrimNotString => "`#[env(trim)]` requires a `String`, `Option<String>`, `Vec<T>`, or `Option<Vec<T>>` field"@,
        Diagnostic::EnvNonEmptyNotString => "`#[env(non_empty)]` requires a `String`, `Option<String>`, `Vec<T>`, or `Option<Vec<T>>` field"@,
        Diagnostic::EnvBoundOnNonNumeric(BoundKey::Min) => "`#[env(min = ...)]` requires an integer or float field"@,
        Diagnostic::EnvBoundOnNonNumeric(BoundKey::Max) => "`#[env(max = ...)]` requires an integer or float field"@,
        Diagnostic::EnvFilterEmptyNotList => "`#[env(filter_empty)]` requires a `Vec<T>` or `Option<Vec<T>>` field"@,
        Diagnostic::EnvLengthNotCount(BoundKey::Min) => "`#[env(min_length = ...)]` expects a non-negative integer literal"@,
        Diagnostic::EnvLengthNotCount(BoundKey::Max) => "`#[env(max_length = ...)]` expects a non-negative integer literal"@,
        Diagnostic::EnvLengthNotList(BoundKey::Min) => "`#[env(min_length = ...)]` requires a `Vec<T>` or `Option<Vec<T>>` field"@,
        Diagnostic::EnvLengthNotList(BoundKey::Max) => "`#[env(max_length = ...)]` requires a `Vec<T>` or `Option<Vec<T>>` field"@,
        Diagnostic::EnvEachBoundNotNumeric(BoundKey::Min) => "`#[env(each_min = ...)]` expects a numeric literal"@,
        Diagnostic::EnvEachBoundNotNumeric(BoundKey::Max) => "`#[env(each_max = ...)]` expects a numeric literal"@,
        Diagnostic::EnvEachBoundNotList(BoundKey::Min) => "`#[env(each_min = ...)]` requires a `Vec<T>` or `Option<Vec<T>>` field with an integer or float item type"@,
        Diagnostic::EnvEachBoundNotList(BoundKey::Max) => "`#[env(each_max = ...)]` requires a `Vec<T>` or `Option<Vec<T>>` field with an integer or float item type"@,
    }
}

impl Diagnostic {
    /// The text of the diagnostic.
    pub fn message(&self) -> (m: String)
        ensures
            m@ == diagnostic_text(*self),
    {
        match self {
            Diagnostic::IntegerTooLarge => owned("number too large to fit in target type"),
            Diagnostic::RetryDuplicate(RetryKey::MaxRetries) => owned("duplicate `#[retry(max_retries = ...)]` argument"),
            Diagnostic::RetryDuplicate(RetryKey::InitialDelay) => owned("duplicate `#[retry(initial_delay = ...)]` argument"),
            Diagnostic::RetryDuplicate(RetryKey::ExponentialBase) => owned("duplicate `#[retry(exponential_base = ...)]` argument"),
            Diagnostic::RetryDuplicate(RetryKey::MaxDelay) => owned("duplicate `#[retry(max_delay = ...)]` argument"),
            Diagnostic::RetryDuplicate(RetryKey::Jitter) => owned("duplicate `#[retry(jitter = ...)]` argument"),
            Diagnostic::RetryMaxRetriesNotInteger => owned("`#[retry(max_retries = ...)]` expects a non-negative integer literal"),
            Diagnostic::RetryDelayNotDuration(RetryKey::MaxDelay) => owned("`#[retry(max_delay = ...)]` expects a duration string like \"500ms\", \"1s\", \"2m\", or \"1h\""),
            Diagnostic::RetryDelayNotDuration(_) => owned("`#[retry(initial_delay = ...)]` expects a duration string like \"500ms\", \"1s\", \"2m\", or \"1h\""),
            Diagnostic::RetryDelayNotString(RetryKey::MaxDelay) => owned("`#[retry(max_delay = ...)]` expects a string literal"),
            Diagnostic::RetryDelayNotString(_) => owned("`#[retry(initial_delay = ...)]` expects a string literal"),
            Diagnostic::RetryBaseNotPositive => owned("`#[retry(exponential_base = ...)]` expects an integer literal greater than 0"),
            Diagnostic::RetryJitterNotBool => owned("`#[retry(jitter = ...)]` expects a boolean literal"),
            Diagnostic::RetryUnsupported => owned("unsupported `#[retry]` argument"),
            Diagnostic::RetryNotAsync => owned("`#[retry]` can only be used on async functions"),
            Diagnostic::RetryTooManyTimeouts => owned("`#[retry]` supports at most one `#[timeout]` attribute"),
            Diagnostic::TimeoutArgCount => owned("`#[timeout(...)]` expects exactly one duration string"),
            Diagnostic::TimeoutNotDuration => owned("`#[timeout(...)]` expects a duration string like \"500ms\", \"1s\", \"2m\", or \"1h\""),
            Diagnostic::TimeoutNotString => owned("`#[timeout(...)]` expects a string literal"),
            Diagnostic::TimeoutNotAsync => owned("`#[timeout]` can only be used on async functions"),
            Diagnostic::SingletonInitNotPath => owned("`#[singleton(init = ...)]` expects a zero-argument function path"),
            Diagnostic::SingletonUnsupported => owned("unsupported `#[singleton]` argument"),
            Diagnostic::SingletonNotStruct => owned("`#[singleton]` can only be used on structs"),
            Diagnostic::SingletonStrategyConflict => owned("`#[singleton]` accepts only one init strategy"),
            Diagnostic::SingletonGeneric => owned("`#[singleton]` does not support generic structs"),
            Diagnostic::EnvConfigGlobalDuplicate => owned("duplicate `#[env_config(global = ...)]` argument"),
            Diagnostic::EnvConfigGlobalNotIdent => owned("`#[env_config(global = ...)]` expects an identifier"),
            Diagnostic::EnvConfigDotenvDuplicate => owned("duplicate `#[env_config(dotenv = ...)]` argument"),
            Diagnostic::EnvConfigDotenvInvalid => owned("`#[env_config(dotenv = ...)]` expects a string literal or `false`"),
            Diagnostic::EnvConfigUnsupported => owned("unsupported `#[env_config]` argument"),
            Diagnostic::EnvConfigNotNamedStruct => owned("`EnvConfig` can only be derived for structs with named fields"),
            Diagnostic::EnvConfigGeneric => owned("`EnvConfig` does not support generic structs"),
            Diagnostic::EnvConfigAttrNotNamedStruct => owned("`#[env_config]` can only be used on structs with named fields"),
            Diagnostic::EnvConfigAttrGeneric => owned("`#[env_config]` does not support generic structs"),
            Diagnostic::EnvNameNotString => owned("`#[env(name = ...)]` expects a string literal"),
            Diagnostic::EnvDefaultNotLiteral => owned("`#[env(default = ...)]` expects a literal"),
            Diagnostic::EnvBoundNotNumeric(BoundKey::Min) => owned("`#[env(min = ...)]` expects a numeric literal"),
            Diagnostic::EnvBoundNotNumeric(BoundKey::Max) => owned("`#[env(max = ...)]` expects a numeric literal"),
            Diagnostic::EnvUnsupported => owned("unsupported `#[env]` argument"),
            Diagnostic::EnvOptionalNotOption => owned("`#[env(optional)]` requires an `Option<T>` field"),
            Diagnostic::EnvOptionalWithDefault => owned("`#[env(optional)]` cannot be combined with `#[env(default = ...)]`"),
            Diagnostic::EnvTrimNotString => owned("`#[env(trim)]` requires a `String`, `Option<String>`, `Vec<T>`, or `Option<Vec<T>>` field"),
            Diagnostic::EnvNonEmptyNotString => owned("`#[env(non_empty)]` requires a `String`, `Option<String>`, `Vec<T>`, or `Option<Vec<T>>` field"),
            Diagnostic::EnvBoundOnNonNumeric(BoundKey::Min) => owned("`#[env(min = ...)]` requires an integer or float field"),
            Diagnostic::EnvBoundOnNonNumeric(BoundKey::Max) => owned("`#[env(max = ...)]` requires an integer or float field"),
            Diagnostic::EnvFilterEmptyNotList => owned("`#[env(filter_empty)]` requires a `Vec<T>` or `Option<Vec<T>>` field"),
            Diagnostic::EnvLengthNotCount(BoundKey::Min) => owned("`#[env(min_length = ...)]` expects a non-negative integer literal"),
            Diagnostic::EnvLengthNotCount(BoundKey::Max) => owned("`#[env(max_length = ...)]` expects a non-negative integer literal"),
            Diagnostic::EnvLengthNotList(BoundKey::Min) => owned("`#[env(min_length = ...)]` requires a `Vec<T>` or `Option<Vec<T>>` field"),
            Diagnostic::EnvLengthNotList(BoundKey::Max) => owned("`#[env(max_length = ...)]` requires a `Vec<T>` or `Option<Vec<T>>` field"),
            Diagnostic::EnvEachBoundNotNumeric(BoundKey::Min) => owned("`#[env(each_min = ...)]` expects a numeric literal"),
            Diagnostic::EnvEachBoundNotNumeric(BoundKey::Max) => owned("`#[env(each_max = ...)]` expects a numeric literal"),
            Diagnostic::EnvEachBoundNotList(BoundKey::Min) => owned("`#[env(each_min = ...)]` requires a `Vec<T>` or `Option<Vec<T>>` field with an integer or float item type"),
            Diagnostic::EnvEachBoundNotList(BoundKey::Max) => owned("`#[env(each_max = ...)]` requires a `Vec<T>` or `Option<Vec<T>>` field with an integer or float item type"),
        }
    }
}

/// Whether the argument's name is the given identifier.
pub open spec fn key_is(m: MetaArg, name: Seq<char>) -> bool {
    m.key matches Some(k) && k@ == name
}

/// Whether the argument's name is `name`.
pub fn has_key(m: &MetaArg, name: &str) -> (b: bool)
    ensures
        b == key_is(*m, name@),
{
    match &m.key {
        Some(k) => string_eq(k, name),
        None => false,
    }
}

/// Whether a string holds the same characters as a string slice.
pub fn string_eq(a: &String, b: &str) -> (r: bool)
    ensures
        r == (a@ == b@),
{
    let other = owned(b);
    *a == other
}

} // verus!
