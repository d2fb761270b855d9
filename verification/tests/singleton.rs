use std::sync::atomic::{AtomicUsize, Ordering};
use std::sync::LazyLock;

use corekit::macro_args::{ArgValue, Diagnostic, ErrorAt, MetaArg, MetaForm};
use corekit::singleton::{init_path, normalize_init_path, parse_singleton_args, plan_singleton, InitStrategy};

static CONSTRUCTOR_CALLS: AtomicUsize = AtomicUsize::new(0);

struct RuntimeService {
    value: usize,
}

impl RuntimeService {
    fn new() -> Self {
        let previous_calls = CONSTRUCTOR_CALLS.fetch_add(1, Ordering::SeqCst);
        Self { value: previous_calls + 1 }
    }

    fn value(&self) -> usize {
        self.value
    }
}

// What `#[singleton]` on `RuntimeService` expands to: the constructor path
// comes from the library's plan.
static INSTANCE: LazyLock<RuntimeService> = LazyLock::new(|| RuntimeService::new());

impl RuntimeService {
    fn shared() -> &'static Self {
        &INSTANCE
    }
}

fn plan(metas: Vec<MetaArg>) -> Vec<String> {
    let args = parse_singleton_args(&metas).unwrap_or_else(|_| panic!("arguments are accepted"));
    plan_singleton(true, &args, false, "RuntimeService").unwrap_or_else(|_| panic!("struct is accepted"))
}

#[test]
fn shared_returns_a_static_reference() {
    assert_eq!(plan(Vec::new()), vec!["RuntimeService".to_string(), "new".to_string()]);
    let service: &'static RuntimeService = RuntimeService::shared();

    assert_eq!(service.value(), 1);
}

#[test]
fn shared_reuses_the_same_instance() {
    let first = RuntimeService::shared();
    let second = RuntimeService::shared();

    assert!(std::ptr::eq(first, second));
    assert_eq!(CONSTRUCTOR_CALLS.load(Ordering::SeqCst), 1);
}

fn default_flag() -> MetaArg {
    MetaArg { key: Some("default".to_string()), form: MetaForm::Path }
}

fn init(path: &[&str]) -> MetaArg {
    MetaArg {
        key: Some("init".to_string()),
        form: MetaForm::NameValue(ArgValue::Path(path.iter().map(|s| s.to_string()).collect())),
    }
}

#[test]
fn default_and_custom_strategies_give_their_paths() {
    assert_eq!(plan(vec![default_flag()]), vec!["RuntimeService".to_string(), "default".to_string()]);
    assert_eq!(plan(vec![init(&["Self", "build"])]), vec!["RuntimeService".to_string(), "build".to_string()]);
    assert_eq!(plan(vec![init(&["crate", "make_service"])]), vec!["crate".to_string(), "make_service".to_string()]);
}

#[test]
fn two_strategies_conflict() {
    let args = parse_singleton_args(&vec![default_flag(), init(&["Self", "build"])]).unwrap_or_else(|_| panic!());
    assert!(args.has_strategy_conflict);
    assert!(matches!(args.strategy, InitStrategy::Default));
    let error = plan_singleton(true, &args, false, "RuntimeService").unwrap_err();
    assert_eq!(error.diagnostic, Diagnostic::SingletonStrategyConflict);
    assert_eq!(error.diagnostic.message(), "`#[singleton]` accepts only one init strategy");
}

#[test]
fn singleton_rejections() {
    let args = parse_singleton_args(&Vec::new()).unwrap_or_else(|_| panic!());
    assert_eq!(plan_singleton(false, &args, false, "S").unwrap_err().at, ErrorAt::Item);
    assert_eq!(plan_singleton(true, &args, true, "S").unwrap_err().diagnostic, Diagnostic::SingletonGeneric);

    let bad_init = MetaArg { key: Some("init".to_string()), form: MetaForm::NameValue(ArgValue::Other) };
    let error = parse_singleton_args(&vec![bad_init]).err().unwrap();
    assert_eq!(error.diagnostic, Diagnostic::SingletonInitNotPath);
    assert_eq!(error.at, ErrorAt::ArgumentValue(0));
    assert_eq!(
        error.diagnostic.message(),
        "`#[singleton(init = ...)]` expects a zero-argument function path"
    );

    let unknown = MetaArg { key: Some("lazy".to_string()), form: MetaForm::Path };
    let error = parse_singleton_args(&vec![default_flag(), unknown]).err().unwrap();
    assert_eq!(error.diagnostic, Diagnostic::SingletonUnsupported);
    assert_eq!(error.at, ErrorAt::Argument(1));
}

#[test]
fn init_paths_resolve_self() {
    let mut path = vec!["Self".to_string(), "new".to_string()];
    normalize_init_path(&mut path, "Service");
    assert_eq!(path, vec!["Service".to_string(), "new".to_string()]);

    let mut other = vec!["helpers".to_string(), "Self".to_string()];
    normalize_init_path(&mut other, "Service");
    assert_eq!(other, vec!["helpers".to_string(), "Self".to_string()]);

    assert_eq!(init_path(&InitStrategy::New, "A"), vec!["A".to_string(), "new".to_string()]);
}
