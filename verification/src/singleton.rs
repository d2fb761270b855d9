//! The `#[singleton]` attribute: which constructor builds the shared
//! instance, and when the attribute is rejected.

use vstd::prelude::*;

use crate::macro_args::{key_is, ArgError, ArgValue, Diagnostic, ErrorAt, MetaArg, MetaForm};
use crate::text::{copy_strings, owned};

verus! {

/// How the shared instance is constructed.
pub enum InitStrategy {
    /// `Type::new()`.
    New,
    /// `Type::default()`.
    Default,
    /// A zero-argument function, by the identifiers of its path.
    Custom(Vec<String>),
}

/// The arguments of `#[singleton(...)]`: the first strategy named, and
/// whether more than one was named.
pub struct SingletonArgs {
    pub strategy: InitStrategy,
    pub has_strategy_conflict: bool,
}

/// Whether the argument names a strategy: `default`, or `init = path`.
pub open spec fn names_strategy(m: MetaArg) -> bool {
    ||| (m.form is Path && key_is(m, "default"@))
    ||| (key_is(m, "init"@) && m.form matches MetaForm::NameValue(ArgValue::Path(_)))
}

/// The rejection of the argument at index `i`, if it is rejected.
pub open spec fn singleton_arg_error(m: MetaArg, i: usize) -> Option<ArgError> {
    if m.form is Path && key_is(m, "default"@) {
        None
    } else if key_is(m, "init"@) && m.form is NameValue {
        match m.form {
            MetaForm::NameValue(ArgValue::Path(_)) => None,
            _ => Some(ArgError { diagnostic: Diagnostic::SingletonInitNotPath, at: ErrorAt::ArgumentValue(i) }),
        }
    } else {
        Some(ArgError { diagnostic: Diagnostic::SingletonUnsupported, at: ErrorAt::Argument(i) })
    }
}

/// Whether `s` is the strategy that argument `m` names.
pub open spec fn is_strategy_of(s: InitStrategy, m: MetaArg) -> bool {
    match s {
        InitStrategy::New => false,
        InitStrategy::Default => m.form is Path && key_is(m, "default"@),
        InitStrategy::Custom(path) => key_is(m, "init"@) && match m.form {
            MetaForm::NameValue(ArgValue::Path(segments)) => path.deep_view() == segments.deep_view(),
            _ => false,
        },
    }
}

fn copy_strategy_of(m: &MetaArg) -> (s: InitStrategy)
    requires
        names_strategy(*m),
    ensures
        is_strategy_of(s, *m),
{
    match &m.form {
        MetaForm::NameValue(ArgValue::Path(segments)) => {
            if crate::macro_args::has_key(m, "init") {
                InitStrategy::Custom(copy_strings(segments))
            } else {
                InitStrategy::Default
            }
        },
        _ => InitStrategy::Default,
    }
}

/// Records a strategy: the first one named is kept, and naming another one
/// marks a conflict.
pub fn set_strategy(current: &mut Option<InitStrategy>, next: InitStrategy, has_conflict: &mut bool)
    ensures
        (*old(current)) is Some ==> *final(current) == *old(current) && *final(has_conflict),
        (*old(current)) is None ==> *final(current) == Some(next) && *final(has_conflict) == *old(has_conflict),
{
    if current.is_some() {
        *has_conflict = true;
        return;
    }
    *current = Some(next);
}

/// Reads the arguments of `#[singleton(...)]`. Each argument must be
/// `default` or `init = path`; the first rejected argument is reported.
/// The strategy is the first one named (`new` when none is), and naming more
/// than one marks a conflict.
#[verifier::rlimit(40)]
#[verifier::spinoff_prover]
pub fn parse_singleton_args(metas: &Vec<MetaArg>) -> (r: Result<SingletonArgs, ArgError>)
    ensures
        r is Ok <==> (forall|i: int| 0 <= i < metas@.len() ==> singleton_arg_error(metas@[i], i as usize) is None),
        r matches Err(e) ==> exists|i: int|
            0 <= i < metas@.len() && singleton_arg_error(metas@[i], i as usize) == Some(e) && (forall|j: int|
                0 <= j < i ==> singleton_arg_error(metas@[j], j as usize) is None),
        r matches Ok(a) ==> {
            &&& metas@.len() == 0 ==> a.strategy is New
            &&& metas@.len() > 0 ==> is_strategy_of(a.strategy, metas@[0])
            &&& a.has_strategy_conflict == (metas@.len() >= 2)
        },
{
    let mut strategy: Option<InitStrategy> = None;
    let mut has_strategy_conflict = false;
    let mut i: usize = 0;
    while i < metas.len()
        invariant
            i <= metas@.len(),
            forall|j: int| 0 <= j < i ==> singleton_arg_error(metas@[j], j as usize) is None,
            i == 0 <==> strategy is None,
            strategy matches Some(s) ==> is_strategy_of(s, metas@[0]),
            has_strategy_conflict == (i >= 2),
        decreases metas.len() - i,
    {
        let m = &metas[i];
        let is_default = match &m.form {
            MetaForm::Path => crate::macro_args::has_key(m, "default"),
            _ => false,
        };
        if !is_default {
            let is_init = match &m.form {
                MetaForm::NameValue(_) => crate::macro_args::has_key(m, "init"),
                _ => false,
            };
            if !is_init {
                return Err(ArgError { diagnostic: Diagnostic::SingletonUnsupported, at: ErrorAt::Argument(i) });
            }
            match &m.form {
                MetaForm::NameValue(ArgValue::Path(_)) => {},
                _ => {
                    return Err(ArgError { diagnostic: Diagnostic::SingletonInitNotPath, at: ErrorAt::ArgumentValue(i) });
                },
            }
        }
        let next = copy_strategy_of(m);
        set_strategy(&mut strategy, next, &mut has_strategy_conflict);
        i = i + 1;
    }
    let strategy = match strategy {
        Some(s) => s,
        None => InitStrategy::New,
    };
    Ok(SingletonArgs { strategy, has_strategy_conflict })
}

/// A constructor path with a leading `Self` segment replaced by the type's
/// identifier.
pub open spec fn normalized_path(path: Seq<Seq<char>>, type_ident: Seq<char>) -> Seq<Seq<char>> {
    if path.len() > 0 && path[0] == "Self"@ {
        path.update(0, type_ident)
    } else {
        path
    }
}

/// Replaces a leading `Self` segment of a constructor path by the type's
/// identifier.
pub fn normalize_init_path(path: &mut Vec<String>, type_ident: &str)
    ensures
        final(path).deep_view() == normalized_path(old(path).deep_view(), type_ident@),
{
    if path.len() > 0 {
        let is_self = crate::macro_args::string_eq(&path[0], "Self");
        if is_self {
            path.set(0, owned(type_ident));
            assert(path.deep_view() == old(path).deep_view().update(0, type_ident@));
        }
    }
}

/// The path of the function that constructs the shared instance.
pub open spec fn init_path_spec(strategy: InitStrategy, type_ident: Seq<char>) -> Seq<Seq<char>> {
    match strategy {
        InitStrategy::New => seq![type_ident, "new"@],
        InitStrategy::Default => seq![type_ident, "default"@],
        InitStrategy::Custom(path) => normalized_path(path.deep_view(), type_ident),
    }
}

/// The path of the function that constructs the shared instance:
/// `Type::new`, `Type::default`, or the given path with `Self` resolved.
pub fn init_path(strategy: &InitStrategy, type_ident: &str) -> (p: Vec<String>)
    ensures
        p.deep_view() == init_path_spec(*strategy, type_ident@),
{
    match strategy {
        InitStrategy::New => {
            let mut p: Vec<String> = Vec::new();
            p.push(owned(type_ident));
            p.push(owned("new"));
            assert(p.deep_view() == seq![type_ident@, "new"@]);
            p
        },
        InitStrategy::Default => {
            let mut p: Vec<String> = Vec::new();
            p.push(owned(type_ident));
            p.push(owned("default"));
            assert(p.deep_view() == seq![type_ident@, "default"@]);
            p
        },
        InitStrategy::Custom(path) => {
            let mut p = copy_strings(path);
            normalize_init_path(&mut p, type_ident);
            p
        },
    }
}

/// Decides how `#[singleton]` expands: it applies only to structs, with a
/// single strategy and no generics; the result is the constructor's path.
pub fn plan_singleton(is_struct: bool, args: &SingletonArgs, has_generics: bool, type_ident: &str) -> (r: Result<
    Vec<String>,
    ArgError,
>)
    ensures
        !is_struct ==> r == Err::<Vec<String>, ArgError>(ArgError { diagnostic: Diagnostic::SingletonNotStruct, at: ErrorAt::Item }),
        is_struct && args.has_strategy_conflict ==> r == Err::<Vec<String>, ArgError>(ArgError {
            diagnostic: Diagnostic::SingletonStrategyConflict,
            at: ErrorAt::ItemIdent,
        }),
        is_struct && !args.has_strategy_conflict && has_generics ==> r == Err::<Vec<String>, ArgError>(ArgError {
            diagnostic: Diagnostic::SingletonGeneric,
            at: ErrorAt::ItemIdent,
        }),
        is_struct && !args.has_strategy_conflict && !has_generics ==> (r matches Ok(p) && p.deep_view()
            == init_path_spec(args.strategy, type_ident@)),
{
    if !is_struct {
        return Err(ArgError { diagnostic: Diagnostic::SingletonNotStruct, at: ErrorAt::Item });
    }
    if args.has_strategy_conflict {
        return Err(ArgError { diagnostic: Diagnostic::SingletonStrategyConflict, at: ErrorAt::ItemIdent });
    }
    if has_generics {
        return Err(ArgError { diagnostic: Diagnostic::SingletonGeneric, at: ErrorAt::ItemIdent });
    }
    Ok(init_path(&args.strategy, type_ident))
}

/// A custom constructor path is used as written, except that a leading
/// `Self` names the annotated type: the path keeps its length, every segment
/// after the first is kept, and the first is kept unless it is `Self`.
pub proof fn lemma_custom_path_used_as_written(path: Vec<String>, type_ident: Seq<char>)
    ensures
        init_path_spec(InitStrategy::Custom(path), type_ident).len() == path.deep_view().len(),
        forall|i: int|
            1 <= i < path.deep_view().len() ==> #[trigger] init_path_spec(InitStrategy::Custom(path), type_ident)[i]
                == path.deep_view()[i],
        path.deep_view().len() > 0 && path.deep_view()[0] != "Self"@ ==> init_path_spec(
            InitStrategy::Custom(path),
            type_ident,
        ) == path.deep_view(),
        path.deep_view().len() > 0 && path.deep_view()[0] == "Self"@ ==> init_path_spec(
            InitStrategy::Custom(path),
            type_ident,
        )[0] == type_ident,
{
}

} // verus!
