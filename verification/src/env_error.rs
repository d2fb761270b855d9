//! Errors reported when loading configuration from environment variables.
//!
//! A load collects one [`EnvVarError`] per failing variable, in field order,
//! and reports them together as an [`EnvError`].

use vstd::prelude::*;

use crate::text::owned;

verus! {

/// Whether a variable was absent or present with an unusable value.
#[derive(Debug, Clone, Copy, PartialEq, Eq, Structural)]
pub enum EnvErrorKind {
    Missing,
    Invalid,
}

/// The reason given for a required variable that is absent.
pub open spec fn missing_reason() -> Seq<char> {
    "missing required env var"@
}

/// The reason given for a value that could not be used.
pub open spec fn invalid_reason() -> Seq<char> {
    "invalid value"@
}

/// The reason given for a value that is not valid Unicode.
pub open spec fn not_unicode_reason() -> Seq<char> {
    "value is not valid Unicode"@
}

/// The reason given for a value that did not parse as the expected type.
pub open spec fn parse_reason(expected: Seq<char>) -> Seq<char> {
    "invalid value, expected "@ + expected
}

/// The reason given for an empty or whitespace-only value.
pub open spec fn empty_reason() -> Seq<char> {
    "must not be empty or whitespace only"@
}

/// The reason given for a NaN value.
pub open spec fn nan_reason() -> Seq<char> {
    "must not be NaN"@
}

/// The reason given for a value below its lower bound (the bound as displayed).
pub open spec fn below_min_reason(min: Seq<char>) -> Seq<char> {
    "must be greater than or equal to "@ + min
}

/// The reason given for a value above its upper bound (the bound as displayed).
pub open spec fn above_max_reason(max: Seq<char>) -> Seq<char> {
    "must be less than or equal to "@ + max
}

/// How one failing variable is displayed: `NAME: reason`.
pub open spec fn var_error_text(name: Seq<char>, reason: Seq<char>) -> Seq<char> {
    name + ": "@ + reason
}

/// The items joined with `sep` between consecutive items.
pub open spec fn joined(items: Seq<Seq<char>>, sep: Seq<char>) -> Seq<char>
    decreases items.len(),
{
    if items.len() == 0 {
        Seq::empty()
    } else if items.len() == 1 {
        items[0]
    } else {
        joined(items.drop_last(), sep) + sep + items.last()
    }
}

/// One environment variable that could not be loaded.
#[derive(Debug, Clone, PartialEq, Eq)]
pub struct EnvVarError {
    name: String,
    kind: EnvErrorKind,
    reason: String,
}

impl EnvVarError {
    /// The variable's name.
    pub closed spec fn spec_name(&self) -> Seq<char> {
        self.name@
    }

    /// Whether the variable was missing or invalid.
    pub closed spec fn spec_kind(&self) -> EnvErrorKind {
        self.kind
    }

    /// Why the variable could not be loaded.
    pub closed spec fn spec_reason(&self) -> Seq<char> {
        self.reason@
    }

    /// How the error is displayed.
    pub open spec fn spec_text(&self) -> Seq<char> {
        var_error_text(self.spec_name(), self.spec_reason())
    }

    /// A required variable that is not set.
    pub fn missing(name: &str) -> (e: Self)
        ensures
            e.spec_name() == name@,
            e.spec_kind() == EnvErrorKind::Missing,
            e.spec_reason() == missing_reason(),
    {
        EnvVarError { name: owned(name), kind: EnvErrorKind::Missing, reason: owned("missing required env var") }
    }

    /// A variable whose value could not be used.
    pub fn invalid(name: &str) -> (e: Self)
        ensures
            e.spec_name() == name@,
            e.spec_kind() == EnvErrorKind::Invalid,
            e.spec_reason() == invalid_reason(),
    {
        Self::invalid_with_reason(name, owned("invalid value"))
    }

    /// A variable whose value is not valid Unicode.
    pub fn invalid_not_unicode(name: &str) -> (e: Self)
        ensures
            e.spec_name() == name@,
            e.spec_kind() == EnvErrorKind::Invalid,
            e.spec_reason() == not_unicode_reason(),
    {
        Self::invalid_with_reason(name, owned("value is not valid Unicode"))
    }

    /// A variable whose value did not parse as `expected` (its displayed form).
    pub fn invalid_parse(name: &str, expected: &str) -> (e: Self)
        ensures
            e.spec_name() == name@,
            e.spec_kind() == EnvErrorKind::Invalid,
            e.spec_reason() == parse_reason(expected@),
    {
        let mut reason = owned("invalid value, expected ");
        reason.append(expected);
        Self::invalid_with_reason(name, reason)
    }

    /// A variable whose value is empty or whitespace only.
    pub fn invalid_empty(name: &str) -> (e: Self)
        ensures
            e.spec_name() == name@,
            e.spec_kind() == EnvErrorKind::Invalid,
            e.spec_reason() == empty_reason(),
    {
        Self::invalid_with_reason(name, owned("must not be empty or whitespace only"))
    }

    /// A variable whose value is NaN.
    pub fn invalid_nan(name: &str) -> (e: Self)
        ensures
            e.spec_name() == name@,
            e.spec_kind() == EnvErrorKind::Invalid,
            e.spec_reason() == nan_reason(),
    {
        Self::invalid_with_reason(name, owned("must not be NaN"))
    }

    /// A variable whose value is below `min` (its displayed form).
    pub fn invalid_below_min(name: &str, min: &str) -> (e: Self)
        ensures
            e.spec_name() == name@,
            e.spec_kind() == EnvErrorKind::Invalid,
            e.spec_reason() == below_min_reason(min@),
    {
        let mut reason = owned("must be greater than or equal to ");
        reason.append(min);
        Self::invalid_with_reason(name, reason)
    }

    /// A variable whose value is above `max` (its displayed form).
    pub fn invalid_above_max(name: &str, max: &str) -> (e: Self)
        ensures
            e.spec_name() == name@,
            e.spec_kind() == EnvErrorKind::Invalid,
            e.spec_reason() == above_max_reason(max@),
    {
        let mut reason = owned("must be less than or equal to ");
        reason.append(max);
        Self::invalid_with_reason(name, reason)
    }

    fn invalid_with_reason(name: &str, reason: String) -> (e: Self)
        ensures
            e.spec_name() == name@,
            e.spec_kind() == EnvErrorKind::Invalid,
            e.spec_reason() == reason@,
    {
        EnvVarError { name: owned(name), kind: EnvErrorKind::Invalid, reason }
    }

    /// The variable's name.
    pub fn name(&self) -> (r: &str)
        ensures
            r@ == self.spec_name(),
    {
        self.name.as_str()
    }

    /// Whether the variable was missing or invalid.
    pub fn kind(&self) -> (r: EnvErrorKind)
        ensures
            r == self.spec_kind(),
    {
        self.kind
    }

    /// Why the variable could not be loaded.
    pub fn reason(&self) -> (r: &str)
        ensures
            r@ == self.spec_reason(),
    {
        self.reason.as_str()
    }

    /// The error as displayed: `NAME: reason`.
    pub fn to_string(&self) -> (s: String)
        ensures
            s@ == self.spec_text(),
    {
        let mut s = owned(self.name.as_str());
        s.append(": ");
        s.append(self.reason.as_str());
        s
    }
}

/// All variables that failed in one load, in field order.
#[derive(Debug, Clone, PartialEq, Eq)]
pub struct EnvError {
    errors: Vec<EnvVarError>,
}

/// The displayed form of each error, in order.
pub open spec fn error_texts(errors: Seq<EnvVarError>) -> Seq<Seq<char>> {
    errors.map_values(|e: EnvVarError| e.spec_text())
}

/// How a failed load is displayed.
pub open spec fn env_error_text(errors: Seq<EnvVarError>) -> Seq<char> {
    "failed to load EnvConfig: "@ + joined(error_texts(errors), ", "@)
}

impl View for EnvError {
    type V = Seq<EnvVarError>;

    closed spec fn view(&self) -> Seq<EnvVarError> {
        self.errors@
    }
}

impl EnvError {
    /// Groups the given variable errors.
    pub fn new(errors: Vec<EnvVarError>) -> (e: Self)
        ensures
            e@ == errors@,
    {
        EnvError { errors }
    }

    /// The variable errors, in the order they were collected.
    pub fn errors(&self) -> (r: &[EnvVarError])
        ensures
            r@ == self@,
    {
        self.errors.as_slice()
    }

    /// The error as displayed: `failed to load EnvConfig: A: r1, B: r2`.
    pub fn to_string(&self) -> (s: String)
        ensures
            s@ == env_error_text(self@),
    {
        let mut s = owned("failed to load EnvConfig: ");
        let ghost prefix = s@;
        let ghost texts = error_texts(self.errors@);
        let mut i: usize = 0;
        while i < self.errors.len()
            invariant
                i <= self.errors.len(),
                prefix == "failed to load EnvConfig: "@,
                texts == error_texts(self.errors@),
                s@ == prefix + joined(texts.take(i as int), ", "@),
            decreases self.errors.len() - i,
        {
            if i > 0 {
                s.append(", ");
            }
            let item = self.errors[i].to_string();
            s.append(item.as_str());
            proof {
                let t = texts.take((i + 1) as int);
                assert(t.drop_last() == texts.take(i as int));
                assert(t.last() == item@);
                if i == 0 {
                    assert(t.len() == 1);
                    assert(joined(texts.take(0), ", "@) == Seq::<char>::empty());
                }
            }
            i = i + 1;
        }
        assert(texts.take(self.errors.len() as int) == texts);
        s
    }
}

proof fn lemma_joined_contains(items: Seq<Seq<char>>, sep: Seq<char>, i: int) -> (k: int)
    requires
        0 <= i < items.len(),
    ensures
        0 <= k,
        k + items[i].len() <= joined(items, sep).len(),
        joined(items, sep).subrange(k, k + items[i].len()) == items[i],
    decreases items.len(),
{
    if items.len() == 1 {
        assert(joined(items, sep).subrange(0, items[0].len() as int) == items[0]);
        0
    } else {
        let front = joined(items.drop_last(), sep) + sep;
        assert(joined(items, sep) == front + items.last());
        if i == items.len() - 1 {
            assert((front + items.last()).subrange(front.len() as int, front.len() + items.last().len() as int) == items.last());
            front.len() as int
        } else {
            let k = lemma_joined_contains(items.drop_last(), sep, i);
            let inner = joined(items.drop_last(), sep);
            assert(items.drop_last()[i] == items[i]);
            assert((inner + sep + items.last()).subrange(k, k + items[i].len()) == inner.subrange(k, k + items[i].len()));
            k
        }
    }
}

/// The displayed form of a failed load names every failing variable: the
/// text `NAME: reason` of each of its errors appears in it.
pub proof fn lemma_display_lists_every_error(errors: Seq<EnvVarError>, i: int)
    requires
        0 <= i < errors.len(),
    ensures
        exists|k: int|
            0 <= k && k + errors[i].spec_text().len() <= env_error_text(errors).len() && #[trigger] env_error_text(
                errors,
            ).subrange(k, k + errors[i].spec_text().len()) == errors[i].spec_text(),
{
    let texts = error_texts(errors);
    let k = lemma_joined_contains(texts, ", "@, i);
    let prefix = "failed to load EnvConfig: "@;
    let whole = prefix + joined(texts, ", "@);
    assert(texts[i] == errors[i].spec_text());
    assert(whole.subrange(prefix.len() + k, prefix.len() + k + texts[i].len()) == joined(texts, ", "@).subrange(
        k,
        k + texts[i].len(),
    ));
    assert(env_error_text(errors).subrange(prefix.len() + k, prefix.len() + k + errors[i].spec_text().len())
        == errors[i].spec_text());
}

} // verus!
