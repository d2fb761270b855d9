//! What a generated `load()` does with each field at run time: how the
//! variable's lookup becomes the text to parse, a `None`, or an error, and
//! how the errors of all fields are collected in field order.

use vstd::prelude::*;

use crate::env_error::{invalid_reason, missing_reason, EnvError, EnvErrorKind, EnvVarError};
use crate::text::owned;
use crate::list::{any_blank, comma_split, has_blank, list_items, split_list};
use crate::whitespace::{blank, trim_whitespace, trimmed};

verus! {

/// What reading a variable from the environment gave.
pub enum EnvLookup {
    /// The variable is set to this value.
    Present(String),
    /// The variable is not set.
    NotPresent,
    /// The variable is set to a value that is not valid Unicode.
    NotUnicode,
}

/// What stands in for a variable that is not set.
pub enum MissingPolicy {
    /// Nothing: the variable is reported missing.
    Required,
    /// The default literal, by its displayed text.
    Default(String),
    /// `None`.
    Optional,
}

/// How a list (`Vec<T>`) field's value is split and checked.
pub struct ListRule {
    /// Whether empty and whitespace-only items are dropped.
    pub filter_empty: bool,
    /// The fewest items accepted.
    pub min_length: Option<usize>,
    /// The most items accepted.
    pub max_length: Option<usize>,
}

/// How one field is read at run time.
pub struct FieldRule {
    /// The variable's name.
    pub name: String,
    pub missing: MissingPolicy,
    /// Whether surrounding whitespace is removed before parsing (from each
    /// item, for a list).
    pub trim: bool,
    /// Whether an empty or whitespace-only value (any such item, for a list)
    /// is rejected.
    pub non_empty: bool,
    /// For a list field, how its comma-separated value is read.
    pub list: Option<ListRule>,
}

/// The next step for one field.
pub enum FieldStep {
    /// Parse this text as the field's type, then check its bounds.
    Parse(String),
    /// Parse each of these items as the list's item type, then check their
    /// bounds.
    ParseItems(Vec<String>),
    /// The field is `None`.
    Absent,
    /// The field failed; its error has been recorded.
    Failed(EnvErrorKind),
}

/// A field's next step, as plain values.
pub enum StepModel {
    Parse(Seq<char>),
    ParseItems(Seq<Seq<char>>),
    Absent,
    Failed(EnvErrorKind),
}

/// A step as plain values.
pub open spec fn step_model(s: FieldStep) -> StepModel {
    match s {
        FieldStep::Parse(t) => StepModel::Parse(t@),
        FieldStep::ParseItems(items) => StepModel::ParseItems(items.deep_view()),
        FieldStep::Absent => StepModel::Absent,
        FieldStep::Failed(k) => StepModel::Failed(k),
    }
}

/// The step for a value that is present (or a default standing in for one).
/// A single value is trimmed when the rule says so, rejected when it must not
/// be empty and is blank, and otherwise parsed. A list value is split at its
/// commas (see `list_items`), rejected when it must not be empty and has a
/// blank item, or when its item count is outside `min_length..=max_length`,
/// and otherwise its items are parsed.
pub open spec fn present_step(rule: FieldRule, raw: Seq<char>) -> StepModel {
    match rule.list {
        None => {
            let value = if rule.trim {
                trimmed(raw)
            } else {
                raw
            };
            if rule.non_empty && trimmed(value).len() == 0 {
                StepModel::Failed(EnvErrorKind::Invalid)
            } else {
                StepModel::Parse(value)
            }
        },
        Some(list) => {
            let items = list_items(raw, rule.trim, list.filter_empty);
            if rule.non_empty && has_blank(items) {
                StepModel::Failed(EnvErrorKind::Invalid)
            } else if list.min_length matches Some(n) && items.len() < n {
                StepModel::Failed(EnvErrorKind::Invalid)
            } else if list.max_length matches Some(n) && items.len() > n {
                StepModel::Failed(EnvErrorKind::Invalid)
            } else {
                StepModel::ParseItems(items)
            }
        },
    }
}

/// The step for a field, given its rule and its variable's lookup.
pub open spec fn field_step(rule: FieldRule, lookup: EnvLookup) -> StepModel {
    match lookup {
        EnvLookup::Present(v) => present_step(rule, v@),
        EnvLookup::NotPresent => match rule.missing {
            MissingPolicy::Required => StepModel::Failed(EnvErrorKind::Missing),
            MissingPolicy::Default(d) => present_step(rule, d@),
            MissingPolicy::Optional => StepModel::Absent,
        },
        EnvLookup::NotUnicode => StepModel::Failed(EnvErrorKind::Invalid),
    }
}

/// Whether `e` is the error recorded for variable `name` failing with `kind`.
pub open spec fn is_field_error(e: EnvVarError, name: Seq<char>, kind: EnvErrorKind) -> bool {
    &&& e.spec_name() == name
    &&& e.spec_kind() == kind
    &&& e.spec_reason() == match kind {
        EnvErrorKind::Missing => missing_reason(),
        EnvErrorKind::Invalid => invalid_reason(),
    }
}

/// The errors of one load, collected field by field.
pub struct EnvLoader {
    errors: Vec<EnvVarError>,
}

impl View for EnvLoader {
    type V = Seq<EnvVarError>;

    closed spec fn view(&self) -> Seq<EnvVarError> {
        self.errors@
    }
}

impl EnvLoader {
    /// A load with no errors yet.
    pub fn new() -> (l: Self)
        ensures
            l@ == Seq::<EnvVarError>::empty(),
    {
        EnvLoader { errors: Vec::new() }
    }

    fn present(&mut self, rule: &FieldRule, raw: &str) -> (step: FieldStep)
        ensures
            step_model(step) == present_step(*rule, raw@),
            step is Failed ==> final(self)@ == old(self)@.push(final(self)@.last()) && is_field_error(
                final(self)@.last(),
                rule.name@,
                EnvErrorKind::Invalid,
            ),
            !(step is Failed) ==> final(self)@ == old(self)@,
    {
        match &rule.list {
            None => {
                let value: String = if rule.trim {
                    trim_whitespace(raw)
                } else {
                    owned(raw)
                };
                if rule.non_empty && blank(value.as_str()) {
                    self.errors.push(EnvVarError::invalid(rule.name.as_str()));
                    return FieldStep::Failed(EnvErrorKind::Invalid);
                }
                FieldStep::Parse(value)
            },
            Some(list) => {
                let items = split_list(raw, rule.trim, list.filter_empty);
                let too_short = match list.min_length {
                    Some(n) => items.len() < n,
                    None => false,
                };
                let too_long = match list.max_length {
                    Some(n) => items.len() > n,
                    None => false,
                };
                if (rule.non_empty && any_blank(&items)) || too_short || too_long {
                    self.errors.push(EnvVarError::invalid(rule.name.as_str()));
                    return FieldStep::Failed(EnvErrorKind::Invalid);
                }
                FieldStep::ParseItems(items)
            },
        }
    }

    /// Takes the next field: decides its step from its rule and its
    /// variable's lookup, recording an error when the step is a failure.
    pub fn begin_field(&mut self, rule: &FieldRule, lookup: &EnvLookup) -> (step: FieldStep)
        ensures
            step_model(step) == field_step(*rule, *lookup),
            step matches FieldStep::Failed(k) ==> final(self)@.len() == old(self)@.len() + 1
                && final(self)@.take(old(self)@.len() as int) == old(self)@ && is_field_error(
                final(self)@.last(),
                rule.name@,
                k,
            ),
            !(step is Failed) ==> final(self)@ == old(self)@,
    {
        match lookup {
            EnvLookup::Present(v) => {
                let step = self.present(rule, v.as_str());
                proof {
                    if step is Failed {
                        assert(self@.take(old(self)@.len() as int) == old(self)@);
                    }
                }
                step
            },
            EnvLookup::NotPresent => match &rule.missing {
                MissingPolicy::Required => {
                    self.errors.push(EnvVarError::missing(rule.name.as_str()));
                    assert(self@.take(old(self)@.len() as int) == old(self)@);
                    FieldStep::Failed(EnvErrorKind::Missing)
                },
                MissingPolicy::Default(d) => {
                    let step = self.present(rule, d.as_str());
                    proof {
                        if step is Failed {
                            assert(self@.take(old(self)@.len() as int) == old(self)@);
                        }
                    }
                    step
                },
                MissingPolicy::Optional => FieldStep::Absent,
            },
            EnvLookup::NotUnicode => {
                self.errors.push(EnvVarError::invalid(rule.name.as_str()));
                assert(self@.take(old(self)@.len() as int) == old(self)@);
                FieldStep::Failed(EnvErrorKind::Invalid)
            },
        }
    }

    /// Records that the field's text did not parse as its type or was
    /// outside its bounds.
    pub fn reject(&mut self, rule: &FieldRule)
        ensures
            final(self)@.len() == old(self)@.len() + 1,
            final(self)@.take(old(self)@.len() as int) == old(self)@,
            is_field_error(final(self)@.last(), rule.name@, EnvErrorKind::Invalid),
    {
        self.errors.push(EnvVarError::invalid(rule.name.as_str()));
        assert(self@.take(old(self)@.len() as int) == old(self)@);
    }

    /// Ends the load: it succeeds when no field failed, and otherwise fails
    /// with every recorded error, in field order.
    pub fn finish(self) -> (r: Result<(), EnvError>)
        ensures
            r is Ok <==> self@.len() == 0,
            r matches Err(e) ==> e@ == self@,
    {
        if self.errors.len() == 0 {
            Ok(())
        } else {
            Err(EnvError::new(self.errors))
        }
    }
}

/// A required variable that is not set is reported missing.
pub proof fn lemma_missing_required_is_reported(rule: FieldRule)
    requires
        rule.missing is Required,
    ensures
        field_step(rule, EnvLookup::NotPresent) == StepModel::Failed(EnvErrorKind::Missing),
{
}

/// A default stands in exactly for a variable set to the default's text.
pub proof fn lemma_default_stands_in_for_value(rule: FieldRule, default_text: String)
    requires
        rule.missing == MissingPolicy::Default(default_text),
    ensures
        field_step(rule, EnvLookup::NotPresent) == field_step(rule, EnvLookup::Present(default_text)),
{
}

/// A value that is set is used whatever stands in for an unset one: the
/// default (or optionality) matters only when the variable is unset.
pub proof fn lemma_present_value_ignores_fallback(rule: FieldRule, other: FieldRule, value: String)
    requires
        rule.name == other.name,
        rule.trim == other.trim,
        rule.non_empty == other.non_empty,
        rule.list == other.list,
    ensures
        field_step(rule, EnvLookup::Present(value)) == field_step(other, EnvLookup::Present(value)),
{
}

/// An optional variable that is not set loads as `None`, with no error.
pub proof fn lemma_missing_optional_is_none(rule: FieldRule)
    requires
        rule.missing is Optional,
    ensures
        field_step(rule, EnvLookup::NotPresent) == StepModel::Absent,
{
}

/// Without `trim` and `non_empty`, a set variable's value is parsed exactly as
/// it is; in particular an empty value counts as present.
pub proof fn lemma_plain_value_parsed_verbatim(rule: FieldRule, value: String)
    requires
        !rule.trim,
        !rule.non_empty,
        rule.list is None,
    ensures
        field_step(rule, EnvLookup::Present(value)) == StepModel::Parse(value@),
{
}

/// A value that is not valid Unicode is invalid, whatever the rule.
pub proof fn lemma_not_unicode_is_invalid(rule: FieldRule)
    ensures
        field_step(rule, EnvLookup::NotUnicode) == StepModel::Failed(EnvErrorKind::Invalid),
{
}

/// A list value with no item rules set is parsed item by item, as the
/// pieces between its commas.
pub proof fn lemma_list_value_split_at_commas(rule: FieldRule, value: String)
    requires
        !rule.trim,
        !rule.non_empty,
        rule.list == Some(ListRule { filter_empty: false, min_length: None, max_length: None }),
    ensures
        field_step(rule, EnvLookup::Present(value)) == StepModel::ParseItems(comma_split(value@)),
{
}

/// One field of a load: its rule, its variable's lookup, and whether the
/// generated code accepted the text it was given to parse (it parsed as the
/// field's type and, for a list, every item did, within the bounds).
pub struct FieldRun {
    pub rule: FieldRule,
    pub lookup: EnvLookup,
    pub accepted: bool,
}

/// How a field of a load fails, if it does.
pub open spec fn field_failure(run: FieldRun) -> Option<EnvErrorKind> {
    match field_step(run.rule, run.lookup) {
        StepModel::Failed(k) => Some(k),
        StepModel::Absent => None,
        _ => if run.accepted {
            None
        } else {
            Some(EnvErrorKind::Invalid)
        },
    }
}

/// The failing fields of a load, in field order, by variable name and kind.
pub open spec fn load_failures(runs: Seq<FieldRun>) -> Seq<(Seq<char>, EnvErrorKind)>
    decreases runs.len(),
{
    if runs.len() == 0 {
        Seq::empty()
    } else {
        let prev = load_failures(runs.drop_last());
        match field_failure(runs.last()) {
            Some(k) => prev.push((runs.last().rule.name@, k)),
            None => prev,
        }
    }
}

/// Recorded errors by variable name and kind.
pub open spec fn error_models(errors: Seq<EnvVarError>) -> Seq<(Seq<char>, EnvErrorKind)> {
    errors.map_values(|e: EnvVarError| (e.spec_name(), e.spec_kind()))
}

/// Whether every recorded error gives the reason of its kind.
pub open spec fn reasons_fit(errors: Seq<EnvVarError>) -> bool {
    forall|i: int| 0 <= i < errors.len() ==> is_field_error(#[trigger] errors[i], errors[i].spec_name(), errors[i].spec_kind())
}

/// What the errors of a load become over one field: one error more, for
/// that field, when it fails, and unchanged otherwise.
pub open spec fn field_recorded(before: Seq<EnvVarError>, after: Seq<EnvVarError>, run: FieldRun) -> bool {
    match field_failure(run) {
        Some(k) => after.len() == before.len() + 1 && after.take(before.len() as int) == before
            && is_field_error(after.last(), run.rule.name@, k),
        None => after == before,
    }
}

/// One field of a load, as the generated code runs it: `begin_field` (errors
/// `before` to `mid`, giving `step`), then `reject` (errors `mid` to `after`)
/// exactly when the step is to parse and the parse or its bounds failed.
/// The errors then change as `field_recorded` says.
pub proof fn lemma_field_recorded(
    before: Seq<EnvVarError>,
    mid: Seq<EnvVarError>,
    after: Seq<EnvVarError>,
    run: FieldRun,
    step: StepModel,
)
    requires
        step == field_step(run.rule, run.lookup),
        step matches StepModel::Failed(k) ==> mid.len() == before.len() + 1 && mid.take(before.len() as int)
            == before && is_field_error(mid.last(), run.rule.name@, k),
        !(step is Failed) ==> mid == before,
        ((step is Parse || step is ParseItems) && !run.accepted) ==> after.len() == mid.len() + 1 && after.take(
            mid.len() as int,
        ) == mid && is_field_error(after.last(), run.rule.name@, EnvErrorKind::Invalid),
        !((step is Parse || step is ParseItems) && !run.accepted) ==> after == mid,
    ensures
        field_recorded(before, after, run),
{
}

proof fn lemma_load_prefix(runs: Seq<FieldRun>, loads: Seq<Seq<EnvVarError>>, k: int)
    requires
        loads.len() == runs.len() + 1,
        loads[0].len() == 0,
        forall|i: int| 0 <= i < runs.len() ==> field_recorded(#[trigger] loads[i], loads[i + 1], runs[i]),
        0 <= k <= runs.len(),
    ensures
        error_models(loads[k]) == load_failures(runs.take(k)),
        reasons_fit(loads[k]),
    decreases k,
{
    if k == 0 {
        assert(error_models(loads[0]) =~= Seq::empty());
        assert(runs.take(0) =~= Seq::<FieldRun>::empty());
    } else {
        lemma_load_prefix(runs, loads, k - 1);
        let t = runs.take(k);
        assert(t.drop_last() =~= runs.take(k - 1));
        assert(t.last() == runs[k - 1]);
        assert(field_recorded(loads[k - 1], loads[k], runs[k - 1]));
        let before = loads[k - 1];
        let after = loads[k];
        match field_failure(runs[k - 1]) {
            Some(kind) => {
                assert(after =~= before.push(after.last()));
                assert(error_models(after) =~= error_models(before).push((runs[k - 1].rule.name@, kind)));
                assert forall|i: int| 0 <= i < after.len() implies is_field_error(
                    #[trigger] after[i],
                    after[i].spec_name(),
                    after[i].spec_kind(),
                ) by {
                    if i < before.len() {
                        assert(after[i] == before[i]);
                    }
                }
            },
            None => {},
        }
    }
}

proof fn lemma_failures_empty(runs: Seq<FieldRun>)
    ensures
        load_failures(runs).len() == 0 <==> forall|i: int| 0 <= i < runs.len() ==> #[trigger] field_failure(runs[i]) is None,
    decreases runs.len(),
{
    if runs.len() > 0 {
        lemma_failures_empty(runs.drop_last());
        if forall|i: int| 0 <= i < runs.len() ==> #[trigger] field_failure(runs[i]) is None {
            assert forall|i: int| 0 <= i < runs.drop_last().len() implies #[trigger] field_failure(runs.drop_last()[i]) is None by {
                assert(runs.drop_last()[i] == runs[i]);
            }
            assert(field_failure(runs[runs.len() - 1]) is None);
        } else {
            let i = choose|i: int| 0 <= i < runs.len() && !(#[trigger] field_failure(runs[i]) is None);
            if i < runs.len() - 1 {
                assert(runs.drop_last()[i] == runs[i]);
                assert(load_failures(runs.drop_last()).len() > 0);
            }
        }
    }
}

/// A whole load: when every field has been taken in declaration order (each
/// as `lemma_field_recorded` describes), the errors recorded are exactly the
/// failing fields, one each, in declaration order, by variable name and
/// kind, each with its kind's reason; and there are none (so `finish`
/// succeeds) exactly when no field fails.
pub proof fn lemma_load_reports_failures_in_order(runs: Seq<FieldRun>, loads: Seq<Seq<EnvVarError>>)
    requires
        loads.len() == runs.len() + 1,
        loads[0].len() == 0,
        forall|i: int| 0 <= i < runs.len() ==> field_recorded(#[trigger] loads[i], loads[i + 1], runs[i]),
    ensures
        error_models(loads.last()) == load_failures(runs),
        reasons_fit(loads.last()),
        loads.last().len() == 0 <==> forall|i: int| 0 <= i < runs.len() ==> #[trigger] field_failure(runs[i]) is None,
{
    lemma_load_prefix(runs, loads, runs.len() as int);
    assert(runs.take(runs.len() as int) =~= runs);
    lemma_failures_empty(runs);
    assert(error_models(loads.last()).len() == loads.last().len());
}

/// A list's length bounds are inclusive: without `non_empty`, a present list
/// value fails exactly when its item count is below `min_length` or above
/// `max_length`, and otherwise its items are parsed.
pub proof fn lemma_list_length_bounds_inclusive(rule: FieldRule, value: String)
    requires
        rule.list is Some,
        !rule.non_empty,
    ensures
        ({
            let list = rule.list.unwrap();
            let count = list_items(value@, rule.trim, list.filter_empty).len();
            let short = list.min_length matches Some(n) && count < n;
            let long = list.max_length matches Some(m) && count > m;
            &&& (short || long) <==> field_step(rule, EnvLookup::Present(value)) is Failed
            &&& !(short || long) ==> field_step(rule, EnvLookup::Present(value)) == StepModel::ParseItems(
                list_items(value@, rule.trim, list.filter_empty),
            )
            &&& (list.min_length == Some(count as usize) && !long) ==> field_step(rule, EnvLookup::Present(value))
                is ParseItems
        }),
{
}

} // verus!
