//! The `EnvConfig` derive and the `#[env_config]` attribute: their
//! container arguments, their per-field `#[env(...)]` arguments, and the
//! plan each field is loaded by.

use vstd::prelude::*;

use crate::decimal::bounded_decimal;
use crate::retry::parse_usize_digits;
use crate::macro_args::{has_key, key_is, string_eq, ArgError, ArgValue, BoundKey, Diagnostic, ErrorAt, MetaArg, MetaForm};
use crate::naming::{env_name_for, env_name_from_field_ident};
use crate::text::owned;

verus! {

// ---------------------------------------------------------------------------
// Container arguments: `#[env_config(global = NAME, dotenv = ...)]`
// ---------------------------------------------------------------------------

/// Which `.env` file is read before the variables.
pub enum DotenvMode {
    /// The default `.env` file.
    Default,
    /// The named file instead.
    File(String),
    /// No file.
    Disabled,
}

/// The container arguments.
pub struct EnvConfigArgs {
    /// The name of a lazily loaded global instance, if one is wanted.
    pub global: Option<String>,
    pub dotenv: DotenvMode,
    pub has_dotenv: bool,
}

/// The container settings an argument can name.
#[derive(Debug, Clone, Copy, PartialEq, Eq, Structural)]
pub enum ConfigKey {
    Global,
    Dotenv,
}

/// The container setting an argument names, if it is `key = value` with a
/// known key.
pub open spec fn config_key_of(m: MetaArg) -> Option<ConfigKey> {
    match m.form {
        MetaForm::NameValue(_) => if key_is(m, "global"@) {
            Some(ConfigKey::Global)
        } else if key_is(m, "dotenv"@) {
            Some(ConfigKey::Dotenv)
        } else {
            None
        },
        _ => None,
    }
}

/// Whether an argument before index `i` names `k`.
pub open spec fn config_key_seen(metas: Seq<MetaArg>, i: int, k: ConfigKey) -> bool {
    exists|j: int| 0 <= j < i && #[trigger] config_key_of(metas[j]) == Some(k)
}

/// The identifier a `global = ...` value names: a path of one segment.
pub open spec fn global_ident(v: ArgValue) -> Option<Seq<char>> {
    match v {
        ArgValue::Path(segments) => if segments@.len() == 1 {
            Some(segments@[0]@)
        } else {
            None
        },
        _ => None,
    }
}

/// Whether a `dotenv = ...` value is accepted: a string literal or `false`.
pub open spec fn dotenv_value_ok(v: ArgValue) -> bool {
    match v {
        ArgValue::Str(_) => true,
        ArgValue::Bool(b) => !b,
        _ => false,
    }
}

/// The rejection of the container argument at index `i`, if it is rejected.
pub open spec fn config_arg_error(metas: Seq<MetaArg>, i: int) -> Option<ArgError> {
    let m = metas[i];
    match (config_key_of(m), m.form) {
        (Some(ConfigKey::Global), MetaForm::NameValue(v)) => if config_key_seen(metas, i, ConfigKey::Global) {
            Some(ArgError { diagnostic: Diagnostic::EnvConfigGlobalDuplicate, at: ErrorAt::Argument(i as usize) })
        } else if global_ident(v) is None {
            Some(ArgError { diagnostic: Diagnostic::EnvConfigGlobalNotIdent, at: ErrorAt::ArgumentValue(i as usize) })
        } else {
            None
        },
        (Some(ConfigKey::Dotenv), MetaForm::NameValue(v)) => if config_key_seen(metas, i, ConfigKey::Dotenv) {
            Some(ArgError { diagnostic: Diagnostic::EnvConfigDotenvDuplicate, at: ErrorAt::Argument(i as usize) })
        } else if !dotenv_value_ok(v) {
            Some(ArgError { diagnostic: Diagnostic::EnvConfigDotenvInvalid, at: ErrorAt::ArgumentValue(i as usize) })
        } else {
            None
        },
        _ => Some(ArgError { diagnostic: Diagnostic::EnvConfigUnsupported, at: ErrorAt::Argument(i as usize) }),
    }
}

/// Whether `args` holds what the (accepted) arguments set: the global name
/// and the dotenv mode where an argument sets them, and no global and the
/// default `.env` file where none does.
pub open spec fn config_args_match(metas: Seq<MetaArg>, args: EnvConfigArgs) -> bool {
    &&& args.has_dotenv == config_key_seen(metas, metas.len() as int, ConfigKey::Dotenv)
    &&& !config_key_seen(metas, metas.len() as int, ConfigKey::Global) ==> args.global is None
    &&& !config_key_seen(metas, metas.len() as int, ConfigKey::Dotenv) ==> args.dotenv is Default
    &&& forall|i: int| 0 <= i < metas.len() ==> match (#[trigger] config_key_of(metas[i]), metas[i].form) {
        (Some(ConfigKey::Global), MetaForm::NameValue(v)) => args.global matches Some(g) && global_ident(v)
            == Some(g@),
        (Some(ConfigKey::Dotenv), MetaForm::NameValue(v)) => match v {
            ArgValue::Str(s) => args.dotenv matches DotenvMode::File(f) && f@ == s@,
            _ => args.dotenv is Disabled,
        },
        _ => true,
    }
}

fn config_key(m: &MetaArg) -> (k: Option<ConfigKey>)
    ensures
        k == config_key_of(*m),
{
    match &m.form {
        MetaForm::NameValue(_) => if has_key(m, "global") {
            Some(ConfigKey::Global)
        } else if has_key(m, "dotenv") {
            Some(ConfigKey::Dotenv)
        } else {
            None
        },
        _ => None,
    }
}

/// Reads the container arguments of `EnvConfig` (all `#[env_config(...)]`
/// lists, in order). Each argument must be `global = <identifier>` or
/// `dotenv = "<file>"` / `dotenv = false`, each at most once; the first
/// rejected argument is reported.
#[verifier::rlimit(40)]
#[verifier::spinoff_prover]
pub fn parse_env_config_args(metas: &Vec<MetaArg>) -> (r: Result<EnvConfigArgs, ArgError>)
    ensures
        r is Ok <==> (forall|i: int| 0 <= i < metas@.len() ==> config_arg_error(metas@, i) is None),
        r matches Err(e) ==> exists|i: int|
            0 <= i < metas@.len() && config_arg_error(metas@, i) == Some(e) && (forall|j: int|
                0 <= j < i ==> config_arg_error(metas@, j) is None),
        r matches Ok(a) ==> config_args_match(metas@, a),
{
    let mut args = EnvConfigArgs { global: None, dotenv: DotenvMode::Default, has_dotenv: false };
    let mut i: usize = 0;
    while i < metas.len()
        invariant
            i <= metas@.len(),
            forall|j: int| 0 <= j < i ==> config_arg_error(metas@, j) is None,
            args.global is Some == config_key_seen(metas@, i as int, ConfigKey::Global),
            config_args_match(metas@.take(i as int), args),
        decreases metas.len() - i,
    {
        let ghost pre = metas@.take(i as int);
        let ghost post = metas@.take(i + 1);
        proof {
            assert forall|k: ConfigKey| config_key_seen(pre, pre.len() as int, k) == config_key_seen(metas@, i as int, k) by {
                if config_key_seen(pre, pre.len() as int, k) {
                    let j = choose|j: int| 0 <= j < pre.len() && #[trigger] config_key_of(pre[j]) == Some(k);
                    assert(pre[j] == metas@[j]);
                }
                if config_key_seen(metas@, i as int, k) {
                    let j = choose|j: int| 0 <= j < i && #[trigger] config_key_of(metas@[j]) == Some(k);
                    assert(pre[j] == metas@[j]);
                }
            }
            assert forall|k: ConfigKey| config_key_seen(post, post.len() as int, k) == (config_key_seen(metas@, i as int, k) || config_key_of(metas@[i as int]) == Some(k)) by {
                if config_key_seen(post, post.len() as int, k) {
                    let j = choose|j: int| 0 <= j < post.len() && #[trigger] config_key_of(post[j]) == Some(k);
                    assert(post[j] == metas@[j]);
                }
                if config_key_seen(metas@, i as int, k) {
                    let j = choose|j: int| 0 <= j < i && #[trigger] config_key_of(metas@[j]) == Some(k);
                    assert(post[j] == metas@[j]);
                }
                if config_key_of(metas@[i as int]) == Some(k) {
                    assert(post[i as int] == metas@[i as int]);
                }
            }
        }
        let m = &metas[i];
        let ghost old_args_global = args.global;
        match (config_key(m), &m.form) {
            (Some(ConfigKey::Global), MetaForm::NameValue(v)) => {
                if args.global.is_some() {
                    return Err(ArgError { diagnostic: Diagnostic::EnvConfigGlobalDuplicate, at: ErrorAt::Argument(i) });
                }
                match v {
                    ArgValue::Path(segments) => {
                        if segments.len() == 1 {
                            args.global = Some(owned(segments[0].as_str()));
                        } else {
                            return Err(ArgError { diagnostic: Diagnostic::EnvConfigGlobalNotIdent, at: ErrorAt::ArgumentValue(i) });
                        }
                    },
                    _ => {
                        return Err(ArgError { diagnostic: Diagnostic::EnvConfigGlobalNotIdent, at: ErrorAt::ArgumentValue(i) });
                    },
                }
            },
            (Some(ConfigKey::Dotenv), MetaForm::NameValue(v)) => {
                if args.has_dotenv {
                    return Err(ArgError { diagnostic: Diagnostic::EnvConfigDotenvDuplicate, at: ErrorAt::Argument(i) });
                }
                match v {
                    ArgValue::Str(s) => {
                        args.dotenv = DotenvMode::File(owned(s.as_str()));
                    },
                    ArgValue::Bool(b) => {
                        if !*b {
                            args.dotenv = DotenvMode::Disabled;
                        } else {
                            return Err(ArgError { diagnostic: Diagnostic::EnvConfigDotenvInvalid, at: ErrorAt::ArgumentValue(i) });
                        }
                    },
                    _ => {
                        return Err(ArgError { diagnostic: Diagnostic::EnvConfigDotenvInvalid, at: ErrorAt::ArgumentValue(i) });
                    },
                }
                args.has_dotenv = true;
            },
            _ => {
                return Err(ArgError { diagnostic: Diagnostic::EnvConfigUnsupported, at: ErrorAt::Argument(i) });
            },
        }
        proof {
            assert(config_arg_error(metas@, i as int) is None);
            assert forall|j: int| 0 <= j < post.len() implies match (#[trigger] config_key_of(post[j]), post[j].form) {
                (Some(ConfigKey::Global), MetaForm::NameValue(v)) => args.global matches Some(g) && global_ident(v)
                    == Some(g@),
                (Some(ConfigKey::Dotenv), MetaForm::NameValue(v)) => match v {
                    ArgValue::Str(s) => args.dotenv matches DotenvMode::File(f) && f@ == s@,
                    _ => args.dotenv is Disabled,
                },
                _ => true,
            } by {
                assert(post[j] == metas@[j]);
                if j < i {
                    assert(pre[j] == metas@[j]);
                    if config_key_of(metas@[j]) is Some && config_key_of(metas@[j]) == config_key_of(metas@[i as int]) {
                        assert(config_key_seen(metas@, i as int, config_key_of(metas@[j]).unwrap()));
                    }
                }
            }
        }
        i = i + 1;
    }
    assert(metas@.take(metas@.len() as int) == metas@);
    Ok(args)
}

// ---------------------------------------------------------------------------
// Field arguments: `#[env(name = "...", default = ..., min = ..., max = ...,
// optional, trim, non_empty)]`
// ---------------------------------------------------------------------------

/// The settings a field argument can give.
#[derive(Debug, Clone, Copy, PartialEq, Eq, Structural)]
pub enum FieldArgKind {
    Name,
    Default,
    Min,
    Max,
    Optional,
    Trim,
    NonEmpty,
    FilterEmpty,
    MinLength,
    MaxLength,
    EachMin,
    EachMax,
}

/// Whether a value is a literal.
pub open spec fn is_literal(v: ArgValue) -> bool {
    match v {
        ArgValue::Int(_) | ArgValue::Float(_) | ArgValue::Str(_) | ArgValue::Bool(_) | ArgValue::OtherLit => true,
        _ => false,
    }
}

/// Whether a value is a numeric literal, possibly negated (any number of times).
pub open spec fn is_numeric_bound(v: ArgValue) -> bool
    decreases v,
{
    match v {
        ArgValue::Int(_) | ArgValue::Float(_) => true,
        ArgValue::Neg(inner) => is_numeric_bound(*inner),
        _ => false,
    }
}

/// Whether a bound expression is a numeric literal, possibly negated.
pub fn is_numeric_bound_expr(v: &ArgValue) -> (b: bool)
    ensures
        b == is_numeric_bound(*v),
    decreases v,
{
    match v {
        ArgValue::Int(_) | ArgValue::Float(_) => true,
        ArgValue::Neg(inner) => is_numeric_bound_expr(&**inner),
        _ => false,
    }
}

/// Why a `min_length` / `max_length` value is rejected, if it is: it must be
/// an integer literal that fits in `usize`.
pub open spec fn length_error(v: ArgValue, key: BoundKey) -> Option<Diagnostic> {
    match v {
        ArgValue::Int(d) => if bounded_decimal(d@, usize::MAX as nat) is Some {
            None
        } else {
            Some(Diagnostic::IntegerTooLarge)
        },
        _ => Some(Diagnostic::EnvLengthNotCount(key)),
    }
}

/// What the field argument at index `i` sets, or why it is rejected.
pub open spec fn field_arg_kind(m: MetaArg, i: usize) -> Result<FieldArgKind, ArgError> {
    let unsupported = Err(ArgError { diagnostic: Diagnostic::EnvUnsupported, at: ErrorAt::Argument(i) });
    match m.form {
        MetaForm::NameValue(v) => if key_is(m, "name"@) {
            if v is Str {
                Ok(FieldArgKind::Name)
            } else {
                Err(ArgError { diagnostic: Diagnostic::EnvNameNotString, at: ErrorAt::ArgumentValue(i) })
            }
        } else if key_is(m, "default"@) {
            if is_literal(v) {
                Ok(FieldArgKind::Default)
            } else {
                Err(ArgError { diagnostic: Diagnostic::EnvDefaultNotLiteral, at: ErrorAt::ArgumentValue(i) })
            }
        } else if key_is(m, "min"@) {
            if is_numeric_bound(v) {
                Ok(FieldArgKind::Min)
            } else {
                Err(ArgError { diagnostic: Diagnostic::EnvBoundNotNumeric(BoundKey::Min), at: ErrorAt::ArgumentValue(i) })
            }
        } else if key_is(m, "max"@) {
            if is_numeric_bound(v) {
                Ok(FieldArgKind::Max)
            } else {
                Err(ArgError { diagnostic: Diagnostic::EnvBoundNotNumeric(BoundKey::Max), at: ErrorAt::ArgumentValue(i) })
            }
        } else if key_is(m, "min_length"@) {
            match length_error(v, BoundKey::Min) {
                None => Ok(FieldArgKind::MinLength),
                Some(d) => Err(ArgError { diagnostic: d, at: ErrorAt::ArgumentValue(i) }),
            }
        } else if key_is(m, "max_length"@) {
            match length_error(v, BoundKey::Max) {
                None => Ok(FieldArgKind::MaxLength),
                Some(d) => Err(ArgError { diagnostic: d, at: ErrorAt::ArgumentValue(i) }),
            }
        } else if key_is(m, "each_min"@) {
            if is_numeric_bound(v) {
                Ok(FieldArgKind::EachMin)
            } else {
                Err(ArgError { diagnostic: Diagnostic::EnvEachBoundNotNumeric(BoundKey::Min), at: ErrorAt::ArgumentValue(i) })
            }
        } else if key_is(m, "each_max"@) {
            if is_numeric_bound(v) {
                Ok(FieldArgKind::EachMax)
            } else {
                Err(ArgError { diagnostic: Diagnostic::EnvEachBoundNotNumeric(BoundKey::Max), at: ErrorAt::ArgumentValue(i) })
            }
        } else {
            unsupported
        },
        MetaForm::Path => if key_is(m, "optional"@) {
            Ok(FieldArgKind::Optional)
        } else if key_is(m, "trim"@) {
            Ok(FieldArgKind::Trim)
        } else if key_is(m, "non_empty"@) {
            Ok(FieldArgKind::NonEmpty)
        } else if key_is(m, "filter_empty"@) {
            Ok(FieldArgKind::FilterEmpty)
        } else {
            unsupported
        },
        MetaForm::List => unsupported,
    }
}

/// The first rejection among the first `n` field arguments.
pub open spec fn first_field_arg_error(metas: Seq<MetaArg>, n: int) -> Option<ArgError>
    decreases n,
{
    if n <= 0 {
        None
    } else {
        match first_field_arg_error(metas, n - 1) {
            Some(e) => Some(e),
            None => match field_arg_kind(metas[n - 1], (n - 1) as usize) {
                Err(e) => Some(e),
                Ok(_) => None,
            },
        }
    }
}

/// The index of the last of the first `n` arguments that sets `k`; a later
/// argument overrides an earlier one.
pub open spec fn last_setting(metas: Seq<MetaArg>, n: int, k: FieldArgKind) -> Option<int>
    decreases n,
{
    if n <= 0 {
        None
    } else if field_arg_kind(metas[n - 1], (n - 1) as usize) == Ok::<FieldArgKind, ArgError>(k) {
        Some(n - 1)
    } else {
        last_setting(metas, n - 1, k)
    }
}

/// The field arguments read: the name, and for the other settings the index
/// of the argument that gave them (its value is read from there).
pub struct EnvFieldArgs {
    pub name: Option<String>,
    pub default: Option<usize>,
    pub optional: Option<usize>,
    pub trim: Option<usize>,
    pub non_empty: Option<usize>,
    pub min: Option<usize>,
    pub max: Option<usize>,
    pub filter_empty: Option<usize>,
    pub min_length: Option<usize>,
    pub max_length: Option<usize>,
    pub each_min: Option<usize>,
    pub each_max: Option<usize>,
}

/// The string literal value of an argument, if it has one.
pub open spec fn str_value(m: MetaArg) -> Option<Seq<char>> {
    match m.form {
        MetaForm::NameValue(ArgValue::Str(s)) => Some(s@),
        _ => None,
    }
}

/// An optional index as an optional integer.
pub open spec fn index_of(x: Option<usize>) -> Option<int> {
    match x {
        Some(i) => Some(i as int),
        None => None,
    }
}

/// Whether `a` holds what the first `n` arguments set.
pub open spec fn field_args_match(metas: Seq<MetaArg>, n: int, a: EnvFieldArgs) -> bool {
    &&& match last_setting(metas, n, FieldArgKind::Name) {
        Some(j) => a.name matches Some(s) && str_value(metas[j]) == Some(s@),
        None => a.name is None,
    }
    &&& index_of(a.default) == last_setting(metas, n, FieldArgKind::Default)
    &&& index_of(a.optional) == last_setting(metas, n, FieldArgKind::Optional)
    &&& index_of(a.trim) == last_setting(metas, n, FieldArgKind::Trim)
    &&& index_of(a.non_empty) == last_setting(metas, n, FieldArgKind::NonEmpty)
    &&& index_of(a.min) == last_setting(metas, n, FieldArgKind::Min)
    &&& index_of(a.max) == last_setting(metas, n, FieldArgKind::Max)
    &&& index_of(a.filter_empty) == last_setting(metas, n, FieldArgKind::FilterEmpty)
    &&& index_of(a.min_length) == last_setting(metas, n, FieldArgKind::MinLength)
    &&& index_of(a.max_length) == last_setting(metas, n, FieldArgKind::MaxLength)
    &&& index_of(a.each_min) == last_setting(metas, n, FieldArgKind::EachMin)
    &&& index_of(a.each_max) == last_setting(metas, n, FieldArgKind::EachMax)
}

fn check_length(v: &ArgValue, key: BoundKey) -> (d: Option<Diagnostic>)
    ensures
        d == length_error(*v, key),
{
    match v {
        ArgValue::Int(digits) => match parse_usize_digits(digits) {
            Some(_) => None,
            None => Some(Diagnostic::IntegerTooLarge),
        },
        _ => Some(Diagnostic::EnvLengthNotCount(key)),
    }
}

fn field_arg(m: &MetaArg, i: usize) -> (r: Result<FieldArgKind, ArgError>)
    ensures
        r == field_arg_kind(*m, i),
{
    match &m.form {
        MetaForm::NameValue(v) => if has_key(m, "name") {
            match v {
                ArgValue::Str(_) => Ok(FieldArgKind::Name),
                _ => Err(ArgError { diagnostic: Diagnostic::EnvNameNotString, at: ErrorAt::ArgumentValue(i) }),
            }
        } else if has_key(m, "default") {
            match v {
                ArgValue::Int(_) | ArgValue::Float(_) | ArgValue::Str(_) | ArgValue::Bool(_) | ArgValue::OtherLit => Ok(FieldArgKind::Default),
                _ => Err(ArgError { diagnostic: Diagnostic::EnvDefaultNotLiteral, at: ErrorAt::ArgumentValue(i) }),
            }
        } else if has_key(m, "min") {
            if is_numeric_bound_expr(v) {
                Ok(FieldArgKind::Min)
            } else {
                Err(ArgError { diagnostic: Diagnostic::EnvBoundNotNumeric(BoundKey::Min), at: ErrorAt::ArgumentValue(i) })
            }
        } else if has_key(m, "max") {
            if is_numeric_bound_expr(v) {
                Ok(FieldArgKind::Max)
            } else {
                Err(ArgError { diagnostic: Diagnostic::EnvBoundNotNumeric(BoundKey::Max), at: ErrorAt::ArgumentValue(i) })
            }
        } else if has_key(m, "min_length") {
            match check_length(v, BoundKey::Min) {
                None => Ok(FieldArgKind::MinLength),
                Some(d) => Err(ArgError { diagnostic: d, at: ErrorAt::ArgumentValue(i) }),
            }
        } else if has_key(m, "max_length") {
            match check_length(v, BoundKey::Max) {
                None => Ok(FieldArgKind::MaxLength),
                Some(d) => Err(ArgError { diagnostic: d, at: ErrorAt::ArgumentValue(i) }),
            }
        } else if has_key(m, "each_min") {
            if is_numeric_bound_expr(v) {
                Ok(FieldArgKind::EachMin)
            } else {
                Err(ArgError { diagnostic: Diagnostic::EnvEachBoundNotNumeric(BoundKey::Min), at: ErrorAt::ArgumentValue(i) })
            }
        } else if has_key(m, "each_max") {
            if is_numeric_bound_expr(v) {
                Ok(FieldArgKind::EachMax)
            } else {
                Err(ArgError { diagnostic: Diagnostic::EnvEachBoundNotNumeric(BoundKey::Max), at: ErrorAt::ArgumentValue(i) })
            }
        } else {
            Err(ArgError { diagnostic: Diagnostic::EnvUnsupported, at: ErrorAt::Argument(i) })
        },
        MetaForm::Path => if has_key(m, "optional") {
            Ok(FieldArgKind::Optional)
        } else if has_key(m, "trim") {
            Ok(FieldArgKind::Trim)
        } else if has_key(m, "non_empty") {
            Ok(FieldArgKind::NonEmpty)
        } else if has_key(m, "filter_empty") {
            Ok(FieldArgKind::FilterEmpty)
        } else {
            Err(ArgError { diagnostic: Diagnostic::EnvUnsupported, at: ErrorAt::Argument(i) })
        },
        MetaForm::List => Err(ArgError { diagnostic: Diagnostic::EnvUnsupported, at: ErrorAt::Argument(i) }),
    }
}

/// Reads a field's `#[env(...)]` arguments (all lists, in order). The first
/// rejected argument is reported; otherwise each setting comes from the last
/// argument that gives it.
#[verifier::rlimit(40)]
#[verifier::spinoff_prover]
pub fn parse_env_field_args(metas: &Vec<MetaArg>) -> (r: Result<EnvFieldArgs, ArgError>)
    ensures
        r matches Err(e) ==> first_field_arg_error(metas@, metas@.len() as int) == Some(e),
        r is Ok ==> first_field_arg_error(metas@, metas@.len() as int) is None,
        r matches Ok(a) ==> field_args_match(metas@, metas@.len() as int, a),
{
    let mut args = EnvFieldArgs {
        name: None,
        default: None,
        optional: None,
        trim: None,
        non_empty: None,
        min: None,
        max: None,
        filter_empty: None,
        min_length: None,
        max_length: None,
        each_min: None,
        each_max: None,
    };
    let mut i: usize = 0;
    while i < metas.len()
        invariant
            i <= metas@.len(),
            first_field_arg_error(metas@, i as int) is None,
            field_args_match(metas@, i as int, args),
        decreases metas.len() - i,
    {
        let m = &metas[i];
        match field_arg(m, i) {
            Err(e) => {
                proof {
                    lemma_first_error_persists(metas@, i + 1, metas@.len() as int);
                }
                return Err(e);
            },
            Ok(FieldArgKind::Name) => {
                match &m.form {
                    MetaForm::NameValue(ArgValue::Str(s)) => {
                        args.name = Some(owned(s.as_str()));
                    },
                    _ => {},
                }
            },
            Ok(FieldArgKind::Default) => {
                args.default = Some(i);
            },
            Ok(FieldArgKind::Min) => {
                args.min = Some(i);
            },
            Ok(FieldArgKind::Max) => {
                args.max = Some(i);
            },
            Ok(FieldArgKind::Optional) => {
                args.optional = Some(i);
            },
            Ok(FieldArgKind::Trim) => {
                args.trim = Some(i);
            },
            Ok(FieldArgKind::NonEmpty) => {
                args.non_empty = Some(i);
            },
            Ok(FieldArgKind::FilterEmpty) => {
                args.filter_empty = Some(i);
            },
            Ok(FieldArgKind::MinLength) => {
                args.min_length = Some(i);
            },
            Ok(FieldArgKind::MaxLength) => {
                args.max_length = Some(i);
            },
            Ok(FieldArgKind::EachMin) => {
                args.each_min = Some(i);
            },
            Ok(FieldArgKind::EachMax) => {
                args.each_max = Some(i);
            },
        }
        i = i + 1;
    }
    Ok(args)
}

proof fn lemma_first_error_persists(metas: Seq<MetaArg>, n: int, m: int)
    requires
        0 < n <= m,
        first_field_arg_error(metas, n) is Some,
    ensures
        first_field_arg_error(metas, m) == first_field_arg_error(metas, n),
    decreases m - n,
{
    if m > n {
        lemma_first_error_persists(metas, n, m - 1);
    }
}

// ---------------------------------------------------------------------------
// Field plans: how each field is loaded
// ---------------------------------------------------------------------------

/// What the macros read of a field's type: the identifier of its path's last
/// segment (when the type is a path); when that segment has angle brackets
/// whose first argument is a type, that argument's last identifier (when it
/// is a path); and, one level further in, the same of that argument's own
/// first type argument (for `Option<Vec<T>>`, the `T`).
pub struct TypeShape {
    pub last_ident: Option<String>,
    pub first_type_arg: Option<Option<String>>,
    pub inner_first_type_arg: Option<Option<String>>,
}

/// A named field of the configuration struct.
pub struct FieldDecl {
    pub ident: String,
    pub ty: TypeShape,
    /// The arguments of all its `#[env(...)]` attributes, in order.
    pub env_metas: Vec<MetaArg>,
}

/// How a field's value is found.
#[derive(Debug, Clone, Copy, PartialEq, Eq, Structural)]
pub enum FieldModePlan {
    /// The variable must be set.
    Required,
    /// A default literal stands in for an unset variable.
    Default,
    /// An `Option<T>` field with a default literal: `Some` of the variable's
    /// value or of the default.
    DefaultOption,
    /// An `Option<T>` field: `None` when the variable is unset.
    Optional,
}

/// How a field is loaded.
pub struct EnvFieldPlan {
    /// The variable read.
    pub env_name: String,
    pub mode: FieldModePlan,
    /// The index of the `default = ...` argument.
    pub default: Option<usize>,
    pub trim: bool,
    pub non_empty: bool,
    /// The index of the `min = ...` argument.
    pub min: Option<usize>,
    /// The index of the `max = ...` argument.
    pub max: Option<usize>,
    /// Whether the value is a comma-separated list (`Vec<T>`).
    pub list: bool,
    pub filter_empty: bool,
    /// The index of the `min_length = ...` argument.
    pub min_length: Option<usize>,
    /// The index of the `max_length = ...` argument.
    pub max_length: Option<usize>,
    /// The index of the `each_min = ...` argument.
    pub each_min: Option<usize>,
    /// The index of the `each_max = ...` argument.
    pub each_max: Option<usize>,
}

/// The plan of a field, as plain values.
pub struct FieldPlanModel {
    pub env_name: Seq<char>,
    pub mode: FieldModePlan,
    pub default: Option<int>,
    pub trim: bool,
    pub non_empty: bool,
    pub min: Option<int>,
    pub max: Option<int>,
    pub list: bool,
    pub filter_empty: bool,
    pub min_length: Option<int>,
    pub max_length: Option<int>,
    pub each_min: Option<int>,
    pub each_max: Option<int>,
}

/// An optional string as optional characters.
pub open spec fn opt_chars(o: Option<String>) -> Option<Seq<char>> {
    match o {
        Some(s) => Some(s@),
        None => None,
    }
}

/// A type argument's identifier, when there is a type argument with one.
pub open spec fn arg_ident(a: Option<Option<String>>) -> Option<Seq<char>> {
    match a {
        Some(inner) => opt_chars(inner),
        None => None,
    }
}

/// The type inside `Option<...>`, by its last identifier, when the field's
/// type is an `Option` with a type argument.
pub open spec fn option_inner(ty: TypeShape) -> Option<Option<Seq<char>>> {
    if opt_chars(ty.last_ident) == Some("Option"@) {
        match ty.first_type_arg {
            Some(inner) => Some(opt_chars(inner)),
            None => None,
        }
    } else {
        None
    }
}

/// Whether a type (by its last identifier) is `String`.
pub open spec fn is_string_type(ident: Option<Seq<char>>) -> bool {
    ident == Some("String"@)
}

/// Whether a type (by its last identifier) is `Vec`: a list.
pub open spec fn is_list_type(ident: Option<Seq<char>>) -> bool {
    ident == Some("Vec"@)
}

/// Whether a type (by its last identifier) is a primitive integer or float.
pub open spec fn is_numeric_type(ident: Option<Seq<char>>) -> bool {
    match ident {
        Some(t) => t == "u8"@ || t == "u16"@ || t == "u32"@ || t == "u64"@ || t == "u128"@ || t == "usize"@
            || t == "i8"@ || t == "i16"@ || t == "i32"@ || t == "i64"@ || t == "i128"@ || t == "isize"@
            || t == "f32"@ || t == "f64"@,
        None => false,
    }
}

/// The field's mode, from its `default` and `optional` arguments and its type.
pub open spec fn field_mode(default: Option<int>, optional: Option<int>, inner: Option<Option<Seq<char>>>) -> Result<
    FieldModePlan,
    ArgError,
> {
    match (default, optional, inner) {
        (Some(_), None, None) => Ok(FieldModePlan::Default),
        (Some(_), None, Some(_)) => Ok(FieldModePlan::DefaultOption),
        (None, _, Some(_)) => Ok(FieldModePlan::Optional),
        (None, Some(o), None) => Err(ArgError { diagnostic: Diagnostic::EnvOptionalNotOption, at: ErrorAt::Argument(o as usize) }),
        (Some(_), Some(o), _) => Err(ArgError { diagnostic: Diagnostic::EnvOptionalWithDefault, at: ErrorAt::Argument(o as usize) }),
        (None, None, None) => Ok(FieldModePlan::Required),
    }
}

/// The type a field's value is parsed as: the field's own type, or the type
/// inside its `Option`.
pub open spec fn parsed_type(mode: FieldModePlan, ty: TypeShape) -> Option<Seq<char>> {
    match mode {
        FieldModePlan::Required | FieldModePlan::Default => opt_chars(ty.last_ident),
        _ => option_inner(ty).unwrap(),
    }
}

/// The item type of a list field (`Vec<T>` or `Option<Vec<T>>`), by its last
/// identifier.
pub open spec fn list_item_type(mode: FieldModePlan, ty: TypeShape) -> Option<Seq<char>> {
    match mode {
        FieldModePlan::Required | FieldModePlan::Default => arg_ident(ty.first_type_arg),
        _ => arg_ident(ty.inner_first_type_arg),
    }
}

/// The first rule that the field's type does not allow, if any.
pub open spec fn type_rule_error(
    args: FieldArgIndices,
    parsed: Option<Seq<char>>,
    item: Option<Seq<char>>,
) -> Option<ArgError> {
    let string_or_list = is_string_type(parsed) || is_list_type(parsed);
    if args.trim is Some && !string_or_list {
        Some(ArgError { diagnostic: Diagnostic::EnvTrimNotString, at: ErrorAt::Argument(args.trim.unwrap() as usize) })
    } else if args.non_empty is Some && !string_or_list {
        Some(ArgError { diagnostic: Diagnostic::EnvNonEmptyNotString, at: ErrorAt::Argument(args.non_empty.unwrap() as usize) })
    } else if args.filter_empty is Some && !is_list_type(parsed) {
        Some(ArgError { diagnostic: Diagnostic::EnvFilterEmptyNotList, at: ErrorAt::Argument(args.filter_empty.unwrap() as usize) })
    } else if args.min is Some && !is_numeric_type(parsed) {
        Some(ArgError { diagnostic: Diagnostic::EnvBoundOnNonNumeric(BoundKey::Min), at: ErrorAt::ArgumentValue(args.min.unwrap() as usize) })
    } else if args.max is Some && !is_numeric_type(parsed) {
        Some(ArgError { diagnostic: Diagnostic::EnvBoundOnNonNumeric(BoundKey::Max), at: ErrorAt::ArgumentValue(args.max.unwrap() as usize) })
    } else if args.min_length is Some && !is_list_type(parsed) {
        Some(ArgError { diagnostic: Diagnostic::EnvLengthNotList(BoundKey::Min), at: ErrorAt::ArgumentValue(args.min_length.unwrap() as usize) })
    } else if args.max_length is Some && !is_list_type(parsed) {
        Some(ArgError { diagnostic: Diagnostic::EnvLengthNotList(BoundKey::Max), at: ErrorAt::ArgumentValue(args.max_length.unwrap() as usize) })
    } else if args.each_min is Some && !(is_list_type(parsed) && is_numeric_type(item)) {
        Some(ArgError { diagnostic: Diagnostic::EnvEachBoundNotList(BoundKey::Min), at: ErrorAt::ArgumentValue(args.each_min.unwrap() as usize) })
    } else if args.each_max is Some && !(is_list_type(parsed) && is_numeric_type(item)) {
        Some(ArgError { diagnostic: Diagnostic::EnvEachBoundNotList(BoundKey::Max), at: ErrorAt::ArgumentValue(args.each_max.unwrap() as usize) })
    } else {
        None
    }
}

/// The indices of the arguments that give each rule, as plain values.
pub struct FieldArgIndices {
    pub trim: Option<int>,
    pub non_empty: Option<int>,
    pub filter_empty: Option<int>,
    pub min: Option<int>,
    pub max: Option<int>,
    pub min_length: Option<int>,
    pub max_length: Option<int>,
    pub each_min: Option<int>,
    pub each_max: Option<int>,
}

/// Which argument gives each rule, among the first `n`.
pub open spec fn arg_indices(metas: Seq<MetaArg>, n: int) -> FieldArgIndices {
    FieldArgIndices {
        trim: last_setting(metas, n, FieldArgKind::Trim),
        non_empty: last_setting(metas, n, FieldArgKind::NonEmpty),
        filter_empty: last_setting(metas, n, FieldArgKind::FilterEmpty),
        min: last_setting(metas, n, FieldArgKind::Min),
        max: last_setting(metas, n, FieldArgKind::Max),
        min_length: last_setting(metas, n, FieldArgKind::MinLength),
        max_length: last_setting(metas, n, FieldArgKind::MaxLength),
        each_min: last_setting(metas, n, FieldArgKind::EachMin),
        each_max: last_setting(metas, n, FieldArgKind::EachMax),
    }
}

/// How a field is loaded, or why it is rejected.
pub open spec fn field_plan_spec(decl: FieldDecl) -> Result<FieldPlanModel, ArgError> {
    let metas = decl.env_metas@;
    let n = metas.len() as int;
    match first_field_arg_error(metas, n) {
        Some(e) => Err(e),
        None => {
            let default = last_setting(metas, n, FieldArgKind::Default);
            let optional = last_setting(metas, n, FieldArgKind::Optional);
            let a = arg_indices(metas, n);
            let env_name = match last_setting(metas, n, FieldArgKind::Name) {
                Some(j) => str_value(metas[j]).unwrap(),
                None => env_name_for(decl.ident@),
            };
            match field_mode(default, optional, option_inner(decl.ty)) {
                Err(e) => Err(e),
                Ok(mode) => {
                    let pt = parsed_type(mode, decl.ty);
                    match type_rule_error(a, pt, list_item_type(mode, decl.ty)) {
                        Some(e) => Err(e),
                        None => Ok(FieldPlanModel {
                            env_name,
                            mode,
                            default,
                            trim: a.trim is Some,
                            non_empty: a.non_empty is Some,
                            min: a.min,
                            max: a.max,
                            list: is_list_type(pt),
                            filter_empty: a.filter_empty is Some,
                            min_length: a.min_length,
                            max_length: a.max_length,
                            each_min: a.each_min,
                            each_max: a.each_max,
                        }),
                    }
                },
            }
        },
    }
}

/// A plan as plain values.
pub open spec fn plan_model(p: EnvFieldPlan) -> FieldPlanModel {
    FieldPlanModel {
        env_name: p.env_name@,
        mode: p.mode,
        default: index_of(p.default),
        trim: p.trim,
        non_empty: p.non_empty,
        min: index_of(p.min),
        max: index_of(p.max),
        list: p.list,
        filter_empty: p.filter_empty,
        min_length: index_of(p.min_length),
        max_length: index_of(p.max_length),
        each_min: index_of(p.each_min),
        each_max: index_of(p.each_max),
    }
}

fn opt_string_is(o: &Option<String>, lit: &str) -> (b: bool)
    ensures
        b == (opt_chars(*o) == Some(lit@)),
{
    match o {
        Some(s) => string_eq(s, lit),
        None => false,
    }
}

fn option_inner_ident(ty: &TypeShape) -> (r: Option<&Option<String>>)
    ensures
        r is Some == option_inner(*ty) is Some,
        r matches Some(inner) ==> option_inner(*ty) == Some(opt_chars(*inner)),
{
    if opt_string_is(&ty.last_ident, "Option") {
        match &ty.first_type_arg {
            Some(inner) => Some(inner),
            None => None,
        }
    } else {
        None
    }
}

fn arg_ident_is_numeric(a: &Option<Option<String>>) -> (b: bool)
    ensures
        b == is_numeric_type(arg_ident(*a)),
{
    match a {
        Some(inner) => is_numeric_ident(inner),
        None => false,
    }
}

fn is_string_ident(ident: &Option<String>) -> (b: bool)
    ensures
        b == is_string_type(opt_chars(*ident)),
{
    opt_string_is(ident, "String")
}

fn is_list_ident(ident: &Option<String>) -> (b: bool)
    ensures
        b == is_list_type(opt_chars(*ident)),
{
    opt_string_is(ident, "Vec")
}

fn is_numeric_ident(ident: &Option<String>) -> (b: bool)
    ensures
        b == is_numeric_type(opt_chars(*ident)),
{
    opt_string_is(ident, "u8") || opt_string_is(ident, "u16") || opt_string_is(ident, "u32")
        || opt_string_is(ident, "u64") || opt_string_is(ident, "u128") || opt_string_is(ident, "usize")
        || opt_string_is(ident, "i8") || opt_string_is(ident, "i16") || opt_string_is(ident, "i32")
        || opt_string_is(ident, "i64") || opt_string_is(ident, "i128") || opt_string_is(ident, "isize")
        || opt_string_is(ident, "f32") || opt_string_is(ident, "f64")
}

/// Decides how one field is loaded: the variable's name (the `name`
/// argument, else the name derived from the identifier), the mode (required,
/// default, optional), whether the value is a comma-separated list
/// (`Vec<T>`), and whether `trim`, `non_empty`, `filter_empty`, `min`,
/// `max`, `min_length`, `max_length`, `each_min` and `each_max` are allowed on
/// the field's type.
#[verifier::rlimit(40)]
#[verifier::spinoff_prover]
pub fn plan_env_field(decl: &FieldDecl) -> (r: Result<EnvFieldPlan, ArgError>)
    ensures
        match field_plan_spec(*decl) {
            Ok(m) => r matches Ok(p) && plan_model(p) == m,
            Err(e) => r == Err::<EnvFieldPlan, ArgError>(e),
        },
{
    let args = match parse_env_field_args(&decl.env_metas) {
        Ok(a) => a,
        Err(e) => {
            return Err(e);
        },
    };
    let env_name = match &args.name {
        Some(n) => owned(n.as_str()),
        None => env_name_from_field_ident(decl.ident.as_str()),
    };
    let inner = option_inner_ident(&decl.ty);
    let mode = match (args.default, args.optional, inner) {
        (Some(_), None, None) => FieldModePlan::Default,
        (Some(_), None, Some(_)) => FieldModePlan::DefaultOption,
        (None, _, Some(_)) => FieldModePlan::Optional,
        (None, Some(o), None) => {
            return Err(ArgError { diagnostic: Diagnostic::EnvOptionalNotOption, at: ErrorAt::Argument(o) });
        },
        (Some(_), Some(o), _) => {
            return Err(ArgError { diagnostic: Diagnostic::EnvOptionalWithDefault, at: ErrorAt::Argument(o) });
        },
        (None, None, None) => FieldModePlan::Required,
    };
    let (parse_ty, item): (&Option<String>, &Option<Option<String>>) = match mode {
        FieldModePlan::Required | FieldModePlan::Default => (&decl.ty.last_ident, &decl.ty.first_type_arg),
        _ => (inner.unwrap(), &decl.ty.inner_first_type_arg),
    };
    let string_or_list = is_string_ident(parse_ty) || is_list_ident(parse_ty);
    let list = is_list_ident(parse_ty);
    let numeric = is_numeric_ident(parse_ty);
    let numeric_items = list && arg_ident_is_numeric(item);
    if let Some(t) = args.trim {
        if !string_or_list {
            return Err(ArgError { diagnostic: Diagnostic::EnvTrimNotString, at: ErrorAt::Argument(t) });
        }
    }
    if let Some(t) = args.non_empty {
        if !string_or_list {
            return Err(ArgError { diagnostic: Diagnostic::EnvNonEmptyNotString, at: ErrorAt::Argument(t) });
        }
    }
    if let Some(t) = args.filter_empty {
        if !list {
            return Err(ArgError { diagnostic: Diagnostic::EnvFilterEmptyNotList, at: ErrorAt::Argument(t) });
        }
    }
    if let Some(t) = args.min {
        if !numeric {
            return Err(ArgError { diagnostic: Diagnostic::EnvBoundOnNonNumeric(BoundKey::Min), at: ErrorAt::ArgumentValue(t) });
        }
    }
    if let Some(t) = args.max {
        if !numeric {
            return Err(ArgError { diagnostic: Diagnostic::EnvBoundOnNonNumeric(BoundKey::Max), at: ErrorAt::ArgumentValue(t) });
        }
    }
    if let Some(t) = args.min_length {
        if !list {
            return Err(ArgError { diagnostic: Diagnostic::EnvLengthNotList(BoundKey::Min), at: ErrorAt::ArgumentValue(t) });
        }
    }
    if let Some(t) = args.max_length {
        if !list {
            return Err(ArgError { diagnostic: Diagnostic::EnvLengthNotList(BoundKey::Max), at: ErrorAt::ArgumentValue(t) });
        }
    }
    if let Some(t) = args.each_min {
        if !numeric_items {
            return Err(ArgError { diagnostic: Diagnostic::EnvEachBoundNotList(BoundKey::Min), at: ErrorAt::ArgumentValue(t) });
        }
    }
    if let Some(t) = args.each_max {
        if !numeric_items {
            return Err(ArgError { diagnostic: Diagnostic::EnvEachBoundNotList(BoundKey::Max), at: ErrorAt::ArgumentValue(t) });
        }
    }
    Ok(EnvFieldPlan {
        env_name,
        mode,
        default: args.default,
        trim: args.trim.is_some(),
        non_empty: args.non_empty.is_some(),
        min: args.min,
        max: args.max,
        list,
        filter_empty: args.filter_empty.is_some(),
        min_length: args.min_length,
        max_length: args.max_length,
        each_min: args.each_min,
        each_max: args.each_max,
    })
}

/// Decides how every field is loaded, in order; the first rejected field is
/// reported with its index.
pub fn plan_env_fields(decls: &Vec<FieldDecl>) -> (r: Result<Vec<EnvFieldPlan>, (usize, ArgError)>)
    ensures
        r matches Ok(plans) ==> plans@.len() == decls@.len() && forall|i: int|
            0 <= i < decls@.len() ==> field_plan_spec(#[trigger] decls@[i]) == Ok::<FieldPlanModel, ArgError>(
                plan_model(plans@[i]),
            ),
        r matches Err((k, e)) ==> k < decls@.len() && field_plan_spec(decls@[k as int]) == Err::<
            FieldPlanModel,
            ArgError,
        >(e) && forall|i: int| 0 <= i < k ==> #[trigger] field_plan_spec(decls@[i]) is Ok,
{
    let mut plans: Vec<EnvFieldPlan> = Vec::new();
    let mut i: usize = 0;
    while i < decls.len()
        invariant
            i <= decls@.len(),
            plans@.len() == i,
            forall|j: int| 0 <= j < i ==> field_plan_spec(#[trigger] decls@[j]) == Ok::<FieldPlanModel, ArgError>(
                plan_model(plans@[j]),
            ),
        decreases decls.len() - i,
    {
        match plan_env_field(&decls[i]) {
            Ok(p) => {
                plans.push(p);
            },
            Err(e) => {
                return Err((i, e));
            },
        }
        i = i + 1;
    }
    Ok(plans)
}

/// Decides whether `EnvConfig` (derived, or generated by `#[env_config]`)
/// applies to the annotated item: a struct with named fields and no generics.
pub fn check_env_config_target(is_attribute: bool, is_named_struct: bool, has_generics: bool) -> (r: Result<
    (),
    ArgError,
>)
    ensures
        r is Ok <==> is_named_struct && !has_generics,
        is_attribute && !is_named_struct ==> r == Err::<(), ArgError>(ArgError { diagnostic: Diagnostic::EnvConfigAttrNotNamedStruct, at: ErrorAt::CallSite }),
        is_attribute && is_named_struct && has_generics ==> r == Err::<(), ArgError>(ArgError { diagnostic: Diagnostic::EnvConfigAttrGeneric, at: ErrorAt::CallSite }),
        !is_attribute && has_generics ==> r == Err::<(), ArgError>(ArgError { diagnostic: Diagnostic::EnvConfigGeneric, at: ErrorAt::ItemIdent }),
        !is_attribute && !has_generics && !is_named_struct ==> r == Err::<(), ArgError>(ArgError { diagnostic: Diagnostic::EnvConfigNotNamedStruct, at: ErrorAt::ItemIdent }),
{
    if is_attribute {
        if !is_named_struct {
            return Err(ArgError { diagnostic: Diagnostic::EnvConfigAttrNotNamedStruct, at: ErrorAt::CallSite });
        }
        if has_generics {
            return Err(ArgError { diagnostic: Diagnostic::EnvConfigAttrGeneric, at: ErrorAt::CallSite });
        }
    } else {
        if has_generics {
            return Err(ArgError { diagnostic: Diagnostic::EnvConfigGeneric, at: ErrorAt::ItemIdent });
        }
        if !is_named_struct {
            return Err(ArgError { diagnostic: Diagnostic::EnvConfigNotNamedStruct, at: ErrorAt::ItemIdent });
        }
    }
    Ok(())
}

/// The `.env` file a load reads first, if any: `.env` by default, the named
/// file when one is given, none when disabled.
pub open spec fn dotenv_file_spec(mode: DotenvMode) -> Option<Seq<char>> {
    match mode {
        DotenvMode::Default => Some(".env"@),
        DotenvMode::File(f) => Some(f@),
        DotenvMode::Disabled => None,
    }
}

/// The `.env` file a load reads first, if any.
pub fn dotenv_file(mode: &DotenvMode) -> (r: Option<String>)
    ensures
        opt_chars(r) == dotenv_file_spec(*mode),
{
    match mode {
        DotenvMode::Default => Some(owned(".env")),
        DotenvMode::File(f) => Some(owned(f.as_str())),
        DotenvMode::Disabled => None,
    }
}

/// Whether a type name is one of Rust's primitive integer or float types.
pub open spec fn is_primitive_number_name(t: Seq<char>) -> bool {
    t == "u8"@ || t == "u16"@ || t == "u32"@ || t == "u64"@ || t == "u128"@ || t == "usize"@ || t == "i8"@
        || t == "i16"@ || t == "i32"@ || t == "i64"@ || t == "i128"@ || t == "isize"@ || t == "f32"@ || t
        == "f64"@
}

/// Bounds are allowed on every primitive integer and float field, and only
/// there: a required field of type `t` whose only arguments are
/// `min = <number>` and `max = <number>` is planned, with its derived variable
/// name and both bounds, exactly when `t` is a primitive integer or float
/// type; otherwise the `min` bound is refused.
pub proof fn lemma_bounds_allowed_on_every_number_type(decl: FieldDecl, t: String)
    requires
        decl.ty.last_ident == Some(t),
        t@ != "Option"@,
        decl.env_metas@.len() == 2,
        decl.env_metas@[0].key matches Some(k) && k@ == "min"@,
        decl.env_metas@[0].form matches MetaForm::NameValue(v) && is_numeric_bound(v),
        decl.env_metas@[1].key matches Some(k) && k@ == "max"@,
        decl.env_metas@[1].form matches MetaForm::NameValue(v) && is_numeric_bound(v),
    ensures
        is_primitive_number_name(t@) ==> field_plan_spec(decl) == Ok::<FieldPlanModel, ArgError>(
            FieldPlanModel {
                env_name: env_name_for(decl.ident@),
                mode: FieldModePlan::Required,
                default: None,
                trim: false,
                non_empty: false,
                min: Some(0),
                max: Some(1),
                list: false,
                filter_empty: false,
                min_length: None,
                max_length: None,
                each_min: None,
                each_max: None,
            },
        ),
        !is_primitive_number_name(t@) ==> field_plan_spec(decl) == Err::<FieldPlanModel, ArgError>(
            ArgError { diagnostic: Diagnostic::EnvBoundOnNonNumeric(BoundKey::Min), at: ErrorAt::ArgumentValue(0) },
        ),
{
    reveal_strlit("min");
    reveal_strlit("max");
    reveal_strlit("name");
    reveal_strlit("default");
    reveal_strlit("Vec");
    reveal_strlit("String");
    let metas = decl.env_metas@;
    assert("min"@ != "name"@) by {
        assert("min"@.len() != "name"@.len());
    }
    assert("min"@ != "default"@) by {
        assert("min"@.len() != "default"@.len());
    }
    assert("max"@ != "name"@) by {
        assert("max"@.len() != "name"@.len());
    }
    assert("max"@ != "default"@) by {
        assert("max"@.len() != "default"@.len());
    }
    assert("max"@ != "min"@) by {
        assert("max"@[1] != "min"@[1]);
    }
    assert(field_arg_kind(metas[0], 0) == Ok::<FieldArgKind, ArgError>(FieldArgKind::Min));
    assert(field_arg_kind(metas[1], 1) == Ok::<FieldArgKind, ArgError>(FieldArgKind::Max));
    reveal_with_fuel(first_field_arg_error, 3);
    assert(first_field_arg_error(metas, 2) is None);
    reveal_with_fuel(last_setting, 3);
    assert(last_setting(metas, 2, FieldArgKind::Min) == Some(0int));
    assert(last_setting(metas, 2, FieldArgKind::Max) == Some(1int));
    assert(option_inner(decl.ty) is None);
    if is_primitive_number_name(t@) {
        reveal_strlit("u8");
        reveal_strlit("u16");
        reveal_strlit("u32");
        reveal_strlit("u64");
        reveal_strlit("u128");
        reveal_strlit("usize");
        reveal_strlit("i8");
        reveal_strlit("i16");
        reveal_strlit("i32");
        reveal_strlit("i64");
        reveal_strlit("i128");
        reveal_strlit("isize");
        reveal_strlit("f32");
        reveal_strlit("f64");
        assert(t@.len() <= 5 && t@[0] != 'V');
        assert(t@ != "String"@) by {
            assert("String"@.len() == 6);
        }
        assert(t@ != "Vec"@) by {
            assert("Vec"@[0] == 'V');
        }
        assert(is_numeric_type(Some(t@)));
    }
}

} // verus!
