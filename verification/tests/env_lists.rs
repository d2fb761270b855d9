use corekit::env_config::{plan_env_field, FieldDecl, FieldModePlan, TypeShape};
use corekit::env_load::{EnvLoader, EnvLookup, FieldRule, FieldStep, ListRule, MissingPolicy};
use corekit::list::{split_commas, split_list};
use corekit::macro_args::{ArgError, ArgValue, BoundKey, Diagnostic, ErrorAt, MetaArg, MetaForm};
use corekit::whitespace::{blank, trim_whitespace};
use corekit::EnvErrorKind;

fn name_value(key: &str, value: ArgValue) -> MetaArg {
    MetaArg { key: Some(key.to_string()), form: MetaForm::NameValue(value) }
}

fn flag(key: &str) -> MetaArg {
    MetaArg { key: Some(key.to_string()), form: MetaForm::Path }
}

fn int_lit(digits: &str) -> ArgValue {
    ArgValue::Int(digits.to_string())
}

fn shape(outer: &str, arg: Option<&str>, inner: Option<&str>) -> TypeShape {
    TypeShape {
        last_ident: Some(outer.to_string()),
        first_type_arg: arg.map(|a| Some(a.to_string())),
        inner_first_type_arg: inner.map(|a| Some(a.to_string())),
    }
}

fn decl(ident: &str, ty: TypeShape, metas: Vec<MetaArg>) -> FieldDecl {
    FieldDecl { ident: ident.to_string(), ty, env_metas: metas }
}

fn rejection(ident: &str, ty: TypeShape, metas: Vec<MetaArg>) -> (Diagnostic, ErrorAt, String) {
    match plan_env_field(&decl(ident, ty, metas)) {
        Ok(_) => panic!("field was accepted"),
        Err(ArgError { diagnostic, at }) => (diagnostic, at, diagnostic.message()),
    }
}

fn strings(items: &[&str]) -> Vec<String> {
    items.iter().map(|s| s.to_string()).collect()
}

// The fields of a struct that uses every list rule are all accepted.
#[test]
fn vec_rules_are_accepted_on_vec_fields() {
    let names = plan_env_field(&decl(
        "names",
        shape("Vec", Some("String"), None),
        vec![flag("trim"), flag("filter_empty"), flag("non_empty"), name_value("min_length", int_lit("1")), name_value("max_length", int_lit("3"))],
    ))
    .unwrap();
    assert!(names.list && names.trim && names.filter_empty && names.non_empty);
    assert_eq!((names.min_length, names.max_length), (Some(3), Some(4)));
    assert_eq!(names.mode, FieldModePlan::Required);

    let ports = plan_env_field(&decl(
        "ports",
        shape("Vec", Some("u16"), None),
        vec![flag("trim"), flag("filter_empty"), name_value("each_min", int_lit("1")), name_value("each_max", int_lit("10"))],
    ))
    .unwrap();
    assert_eq!((ports.each_min, ports.each_max), (Some(2), Some(3)));

    let flags = plan_env_field(&decl("flags", shape("Option", Some("Vec"), Some("bool")), vec![flag("trim"), flag("filter_empty")])).unwrap();
    assert!(flags.list);
    assert_eq!(flags.mode, FieldModePlan::Optional);

    let modes = plan_env_field(&decl(
        "modes",
        shape("Vec", Some("Mode"), None),
        vec![name_value("default", ArgValue::Str("fast,safe".to_string())), flag("trim"), flag("filter_empty")],
    ))
    .unwrap();
    assert_eq!(modes.mode, FieldModePlan::Default);
    assert_eq!(modes.env_name, "MODES");

    let scalar = plan_env_field(&decl("port", shape("u16", None, None), Vec::new())).unwrap();
    assert!(!scalar.list);
}

#[test]
fn vec_rules_are_rejected_where_they_do_not_apply() {
    let string = || shape("String", None, None);
    assert_eq!(
        rejection("database_url", string(), vec![flag("filter_empty")]),
        (Diagnostic::EnvFilterEmptyNotList, ErrorAt::Argument(0), "`#[env(filter_empty)]` requires a `Vec<T>` or `Option<Vec<T>>` field".to_string())
    );
    assert_eq!(
        rejection("database_url", string(), vec![name_value("min_length", int_lit("1"))]).2,
        "`#[env(min_length = ...)]` requires a `Vec<T>` or `Option<Vec<T>>` field"
    );
    assert_eq!(
        rejection("database_url", string(), vec![name_value("max_length", int_lit("1"))]),
        (
            Diagnostic::EnvLengthNotList(BoundKey::Max),
            ErrorAt::ArgumentValue(0),
            "`#[env(max_length = ...)]` requires a `Vec<T>` or `Option<Vec<T>>` field".to_string()
        )
    );
    assert_eq!(
        rejection("ports", shape("Vec", Some("u16"), None), vec![name_value("min", int_lit("1"))]).2,
        "`#[env(min = ...)]` requires an integer or float field"
    );
    assert_eq!(
        rejection("worker_count", shape("u16", None, None), vec![name_value("each_min", int_lit("1"))]).2,
        "`#[env(each_min = ...)]` requires a `Vec<T>` or `Option<Vec<T>>` field with an integer or float item type"
    );
    assert_eq!(
        rejection("names", shape("Vec", Some("String"), None), vec![name_value("each_max", int_lit("1"))]).2,
        "`#[env(each_max = ...)]` requires a `Vec<T>` or `Option<Vec<T>>` field with an integer or float item type"
    );
    assert_eq!(
        rejection("names", shape("Vec", Some("String"), None), vec![name_value("min_length", ArgValue::Neg(Box::new(int_lit("1"))))]),
        (
            Diagnostic::EnvLengthNotCount(BoundKey::Min),
            ErrorAt::ArgumentValue(0),
            "`#[env(min_length = ...)]` expects a non-negative integer literal".to_string()
        )
    );
    assert_eq!(
        rejection("names", shape("Vec", Some("String"), None), vec![name_value("each_min", ArgValue::Str("1".to_string()))]).2,
        "`#[env(each_min = ...)]` expects a numeric literal"
    );
    assert_eq!(
        rejection("worker_count", shape("u16", None, None), vec![flag("trim")]).2,
        "`#[env(trim)]` requires a `String`, `Option<String>`, `Vec<T>`, or `Option<Vec<T>>` field"
    );
    assert_eq!(
        rejection("worker_count", shape("Option", Some("u16"), None), vec![flag("non_empty")]).2,
        "`#[env(non_empty)]` requires a `String`, `Option<String>`, `Vec<T>`, or `Option<Vec<T>>` field"
    );
    assert_eq!(
        rejection("database_url", string(), vec![name_value("rename", ArgValue::Str("DATABASE_URL".to_string()))]).2,
        "unsupported `#[env]` argument"
    );
}

#[test]
fn list_values_split_at_commas() {
    assert_eq!(split_commas("a,b,c"), strings(&["a", "b", "c"]));
    assert_eq!(split_commas("a,,b,"), strings(&["a", "", "b", ""]));
    assert_eq!(split_commas(""), strings(&[""]));
    assert_eq!(split_list(" a , ,b ", true, true), strings(&["a", "b"]));
    assert_eq!(split_list(" a , ,b ", true, false), strings(&["a", "", "b"]));
    assert_eq!(split_list(" a , ,b ", false, true), strings(&[" a ", "b "]));
    assert_eq!(split_list("", false, true), Vec::<String>::new());
}

#[test]
fn trimming_removes_unicode_whitespace() {
    assert_eq!(trim_whitespace("  x "), "x");
    assert_eq!(trim_whitespace("\t\u{3000}a b\u{2028}\n"), "a b");
    assert_eq!(trim_whitespace("   "), "");
    assert_eq!(trim_whitespace("x"), "x");
    assert!(blank(" \u{a0}\r"));
    assert!(blank(""));
    assert!(!blank(" . "));
}

fn list_rule(non_empty: bool, filter_empty: bool, min_length: Option<usize>, max_length: Option<usize>) -> FieldRule {
    FieldRule {
        name: "PORTS".to_string(),
        missing: MissingPolicy::Default("80,443".to_string()),
        trim: true,
        non_empty,
        list: Some(ListRule { filter_empty, min_length, max_length }),
    }
}

fn step(rule: &FieldRule, value: Option<&str>) -> (Result<Vec<String>, EnvErrorKind>, usize) {
    let mut loader = EnvLoader::new();
    let lookup = match value {
        Some(v) => EnvLookup::Present(v.to_string()),
        None => EnvLookup::NotPresent,
    };
    let result = match loader.begin_field(rule, &lookup) {
        FieldStep::ParseItems(items) => Ok(items),
        FieldStep::Failed(kind) => Err(kind),
        FieldStep::Parse(_) | FieldStep::Absent => panic!("a list field gives items"),
    };
    let recorded = match loader.finish() {
        Ok(()) => 0,
        Err(error) => error.errors().len(),
    };
    (result, recorded)
}

#[test]
fn list_fields_check_items_and_length() {
    assert_eq!(step(&list_rule(false, true, None, None), Some(" 1, 2 ,,3 ")), (Ok(strings(&["1", "2", "3"])), 0));
    assert_eq!(step(&list_rule(false, true, None, None), None), (Ok(strings(&["80", "443"])), 0));
    assert_eq!(step(&list_rule(true, false, None, None), Some("1,,2")), (Err(EnvErrorKind::Invalid), 1));
    assert_eq!(step(&list_rule(true, true, None, None), Some("1,,2")), (Ok(strings(&["1", "2"])), 0));
    assert_eq!(step(&list_rule(false, true, Some(1), Some(3)), Some(" , ")), (Err(EnvErrorKind::Invalid), 1));
    assert_eq!(step(&list_rule(false, true, Some(1), Some(3)), Some("1,2,3,4")), (Err(EnvErrorKind::Invalid), 1));
    assert_eq!(step(&list_rule(false, true, Some(1), Some(3)), Some("1,2,3")), (Ok(strings(&["1", "2", "3"])), 0));
}

// A whole load: every failing field gives one error, in field order, and
// the load succeeds only when none fails.
#[test]
fn a_load_reports_each_failing_field_once_in_order() {
    let scalar = |name: &str, missing: MissingPolicy| FieldRule { name: name.to_string(), missing, trim: false, non_empty: false, list: None };
    let rules = [
        scalar("A", MissingPolicy::Required),
        scalar("B", MissingPolicy::Default("7".to_string())),
        scalar("C", MissingPolicy::Required),
        scalar("D", MissingPolicy::Optional),
        list_rule(false, true, Some(1), None),
    ];
    let lookups = [
        EnvLookup::NotPresent,
        EnvLookup::NotPresent,
        EnvLookup::Present("x".to_string()),
        EnvLookup::NotPresent,
        EnvLookup::Present(",".to_string()),
    ];
    let mut loader = EnvLoader::new();
    for (rule, lookup) in rules.iter().zip(lookups.iter()) {
        if let FieldStep::Parse(text) = loader.begin_field(rule, lookup) {
            if text.parse::<u16>().is_err() {
                loader.reject(rule);
            }
        }
    }
    let error = loader.finish().unwrap_err();
    let found: Vec<(&str, EnvErrorKind)> = error.errors().iter().map(|e| (e.name(), e.kind())).collect();
    assert_eq!(
        found,
        vec![("A", EnvErrorKind::Missing), ("C", EnvErrorKind::Invalid), ("PORTS", EnvErrorKind::Invalid)]
    );
}
