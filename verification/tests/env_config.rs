use corekit::env_config::{
    check_env_config_target, dotenv_file, parse_env_config_args, plan_env_fields, DotenvMode, EnvFieldPlan,
    FieldDecl, FieldModePlan, TypeShape,
};
use corekit::env_load::{EnvLoader, EnvLookup, FieldRule, FieldStep, MissingPolicy};
use corekit::macro_args::{ArgValue, MetaArg, MetaForm};
use corekit::{EnvError, EnvErrorKind, SecretString};

// A field of a configuration struct as the derive sees it, plus the text its
// default literal displays as (what the generated code passes at run time).
struct Field {
    ident: &'static str,
    ty: &'static str,
    metas: Vec<MetaArg>,
    default_text: Option<&'static str>,
}

#[derive(Debug, PartialEq)]
enum Value {
    Str(String),
    U16(u16),
    U64(u64),
    I32(i32),
    Bool(bool),
    F64(f64),
    Secret(String),
    Missing,
}

fn field(ident: &'static str, ty: &'static str) -> Field {
    Field { ident, ty, metas: Vec::new(), default_text: None }
}

fn with_metas(mut f: Field, metas: Vec<MetaArg>) -> Field {
    f.metas = metas;
    f
}

fn with_default(mut f: Field, value: ArgValue, text: &'static str) -> Field {
    f.metas.push(name_value("default", value));
    f.default_text = Some(text);
    f
}

fn name_value(key: &str, value: ArgValue) -> MetaArg {
    MetaArg { key: Some(key.to_string()), form: MetaForm::NameValue(value) }
}

fn flag(key: &str) -> MetaArg {
    MetaArg { key: Some(key.to_string()), form: MetaForm::Path }
}

fn shape(ty: &str) -> TypeShape {
    match ty.strip_prefix("Option<").and_then(|rest| rest.strip_suffix('>')) {
        Some(inner) => TypeShape {
            last_ident: Some("Option".to_string()),
            first_type_arg: Some(Some(inner.to_string())),
            inner_first_type_arg: None,
        },
        None => TypeShape { last_ident: Some(ty.to_string()), first_type_arg: None, inner_first_type_arg: None },
    }
}

fn inner_type(ty: &'static str) -> &'static str {
    ty.strip_prefix("Option<").and_then(|rest| rest.strip_suffix('>')).unwrap_or(ty)
}

fn parse_as(ty: &str, text: &str) -> Option<Value> {
    match ty {
        "String" => Some(Value::Str(text.to_string())),
        "u16" => text.parse().ok().map(Value::U16),
        "u64" => text.parse().ok().map(Value::U64),
        "i32" => text.parse().ok().map(Value::I32),
        "bool" => text.parse().ok().map(Value::Bool),
        "f64" => text.parse().ok().map(Value::F64),
        "SecretString" => text.parse::<SecretString>().ok().map(|s| Value::Secret(s.expose().to_string())),
        _ => None,
    }
}

fn plans(fields: &[Field]) -> Vec<EnvFieldPlan> {
    let decls: Vec<FieldDecl> = fields
        .iter()
        .map(|f| FieldDecl { ident: f.ident.to_string(), ty: shape(f.ty), env_metas: clone_metas(&f.metas) })
        .collect();
    plan_env_fields(&decls).unwrap_or_else(|_| panic!("fields are accepted"))
}

fn clone_metas(metas: &[MetaArg]) -> Vec<MetaArg> {
    metas
        .iter()
        .map(|m| MetaArg {
            key: m.key.clone(),
            form: match &m.form {
                MetaForm::Path => MetaForm::Path,
                MetaForm::List => MetaForm::List,
                MetaForm::NameValue(v) => MetaForm::NameValue(clone_value(v)),
            },
        })
        .collect()
}

fn clone_value(v: &ArgValue) -> ArgValue {
    match v {
        ArgValue::Int(d) => ArgValue::Int(d.clone()),
        ArgValue::Float(d) => ArgValue::Float(d.clone()),
        ArgValue::Str(s) => ArgValue::Str(s.clone()),
        ArgValue::Bool(b) => ArgValue::Bool(*b),
        ArgValue::OtherLit => ArgValue::OtherLit,
        ArgValue::Path(p) => ArgValue::Path(p.clone()),
        ArgValue::Neg(inner) => ArgValue::Neg(Box::new(clone_value(inner))),
        ArgValue::Other => ArgValue::Other,
    }
}

// What a generated `load()` does: every field in order, errors collected.
// `env` holds the process environment; `dotenv` the files of the working
// directory; `mode` the container's dotenv setting.
fn load_with(
    fields: &[Field],
    env: &[(&str, Option<&str>)],
    dotenv: &[(&str, &str)],
    mode: DotenvMode,
) -> Result<Vec<Value>, EnvError> {
    let mut from_file: Vec<(String, String)> = Vec::new();
    if let Some(name) = dotenv_file(&mode) {
        if let Some((_, contents)) = dotenv.iter().find(|(file, _)| *file == name) {
            for item in dotenvy::from_read_iter(contents.as_bytes()) {
                from_file.push(item.unwrap());
            }
        }
    }
    let lookup = |name: &str| -> EnvLookup {
        match env.iter().find(|(n, _)| *n == name).and_then(|(_, v)| *v) {
            Some(v) => EnvLookup::Present(v.to_string()),
            None => match from_file.iter().find(|(n, _)| n == name) {
                Some((_, v)) => EnvLookup::Present(v.clone()),
                None => EnvLookup::NotPresent,
            },
        }
    };

    let mut loader = EnvLoader::new();
    let mut values = Vec::new();
    for (f, plan) in fields.iter().zip(plans(fields)) {
        let missing = match plan.mode {
            FieldModePlan::Required => MissingPolicy::Required,
            FieldModePlan::Default | FieldModePlan::DefaultOption => {
                MissingPolicy::Default(f.default_text.expect("default text").to_string())
            }
            FieldModePlan::Optional => MissingPolicy::Optional,
        };
        let rule = FieldRule { name: plan.env_name.clone(), missing, trim: plan.trim, non_empty: plan.non_empty, list: None };
        let value = match loader.begin_field(&rule, &lookup(plan.env_name.as_str())) {
            FieldStep::Parse(text) => match parse_as(inner_type(f.ty), &text) {
                Some(v) => v,
                None => {
                    loader.reject(&rule);
                    Value::Missing
                }
            },
            FieldStep::ParseItems(_) => unreachable!("no list fields here"),
            FieldStep::Absent => Value::Missing,
            FieldStep::Failed(_) => Value::Missing,
        };
        values.push(value);
    }
    loader.finish().map(|()| values)
}

fn load(fields: &[Field], env: &[(&str, Option<&str>)]) -> Result<Vec<Value>, EnvError> {
    load_with(fields, env, &[], DotenvMode::Default)
}

fn required_primitives() -> Vec<Field> {
    vec![
        field("corekit_test_service_url", "String"),
        field("corekit_test_worker_count", "u16"),
        field("corekit_test_signed_limit", "i32"),
        field("corekit_test_feature_enabled", "bool"),
        field("corekit_test_ratio", "f64"),
    ]
}

fn default_env() -> Vec<Field> {
    vec![
        with_default(field("corekit_default_video_max_duration_s", "u64"), ArgValue::Int("90".to_string()), "90"),
        with_default(field("corekit_default_dev_mode", "bool"), ArgValue::Bool(false), "false"),
        with_default(field("corekit_default_log_level", "String"), ArgValue::Str("info".to_string()), "info"),
    ]
}

fn optional_env() -> Vec<Field> {
    vec![
        field("corekit_optional_sentry_dsn", "Option<String>"),
        field("corekit_optional_worker_count", "Option<u16>"),
        with_metas(field("corekit_optional_feature_enabled", "Option<bool>"), vec![flag("optional")]),
    ]
}

fn dotenv_env() -> Vec<Field> {
    vec![field("corekit_dotenv_database_url", "String"), field("corekit_dotenv_worker_count", "u16")]
}

fn all_env_vars_absent() -> [(&'static str, Option<&'static str>); 5] {
    [
        ("COREKIT_TEST_SERVICE_URL", None),
        ("COREKIT_TEST_WORKER_COUNT", None),
        ("COREKIT_TEST_SIGNED_LIMIT", None),
        ("COREKIT_TEST_FEATURE_ENABLED", None),
        ("COREKIT_TEST_RATIO", None),
    ]
}

fn all_default_env_vars_absent() -> [(&'static str, Option<&'static str>); 3] {
    [
        ("COREKIT_DEFAULT_VIDEO_MAX_DURATION_S", None),
        ("COREKIT_DEFAULT_DEV_MODE", None),
        ("COREKIT_DEFAULT_LOG_LEVEL", None),
    ]
}

fn all_optional_env_vars_absent() -> [(&'static str, Option<&'static str>); 3] {
    [
        ("COREKIT_OPTIONAL_SENTRY_DSN", None),
        ("COREKIT_OPTIONAL_WORKER_COUNT", None),
        ("COREKIT_OPTIONAL_FEATURE_ENABLED", None),
    ]
}

fn all_dotenv_env_vars_absent() -> [(&'static str, Option<&'static str>); 2] {
    [("COREKIT_DOTENV_DATABASE_URL", None), ("COREKIT_DOTENV_WORKER_COUNT", None)]
}

fn container(metas: Vec<MetaArg>) -> (Option<String>, DotenvMode) {
    let args = parse_env_config_args(&metas).unwrap_or_else(|_| panic!("container arguments are accepted"));
    (args.global, args.dotenv)
}

fn global_arg(name: &str) -> MetaArg {
    name_value("global", ArgValue::Path(vec![name.to_string()]))
}

#[test]
fn load_reads_required_primitive_fields_from_screaming_snake_case_env_names() {
    let config = load(
        &required_primitives(),
        &[
            ("COREKIT_TEST_SERVICE_URL", Some("https://example.com")),
            ("COREKIT_TEST_WORKER_COUNT", Some("12")),
            ("COREKIT_TEST_SIGNED_LIMIT", Some("-7")),
            ("COREKIT_TEST_FEATURE_ENABLED", Some("true")),
            ("COREKIT_TEST_RATIO", Some("0.75")),
        ],
    )
    .unwrap();

    assert_eq!(config[0], Value::Str("https://example.com".to_string()));
    assert_eq!(config[1], Value::U16(12));
    assert_eq!(config[2], Value::I32(-7));
    assert_eq!(config[3], Value::Bool(true));
    assert_eq!(config[4], Value::F64(0.75));
}

#[test]
fn uppercase_fields_map_to_the_same_uppercase_env_names() {
    let fields = vec![field("COREKIT_UPPER_DATABASE_URL", "String"), field("COREKIT_UPPER_WORKER_COUNT", "u16")];
    let config = load(
        &fields,
        &[("COREKIT_UPPER_DATABASE_URL", Some("postgres://upper")), ("COREKIT_UPPER_WORKER_COUNT", Some("3"))],
    )
    .unwrap();

    assert_eq!(config[0], Value::Str("postgres://upper".to_string()));
    assert_eq!(config[1], Value::U16(3));
}

#[test]
fn env_name_attribute_overrides_the_default_field_mapping() {
    let fields = vec![with_metas(
        field("database_url", "String"),
        vec![name_value("name", ArgValue::Str("COREKIT_CUSTOM_DATABASE_URL".to_string()))],
    )];
    let config = load(&fields, &[("COREKIT_CUSTOM_DATABASE_URL", Some("postgres://custom"))]).unwrap();

    assert_eq!(config[0], Value::Str("postgres://custom".to_string()));
}

#[test]
fn treats_empty_string_as_present_for_required_string_fields() {
    let config = load(
        &required_primitives(),
        &[
            ("COREKIT_TEST_SERVICE_URL", Some("")),
            ("COREKIT_TEST_WORKER_COUNT", Some("1")),
            ("COREKIT_TEST_SIGNED_LIMIT", Some("0")),
            ("COREKIT_TEST_FEATURE_ENABLED", Some("false")),
            ("COREKIT_TEST_RATIO", Some("1.0")),
        ],
    )
    .unwrap();

    assert_eq!(config[0], Value::Str(String::new()));
    assert_eq!(config[3], Value::Bool(false));
}

#[test]
fn collects_all_missing_required_env_vars_in_field_order() {
    let error = load(&required_primitives(), &all_env_vars_absent()).unwrap_err();
    let errors = error.errors();

    assert_eq!(errors.len(), 5);
    assert_eq!(errors[0].name(), "COREKIT_TEST_SERVICE_URL");
    assert_eq!(errors[0].kind(), EnvErrorKind::Missing);
    assert_eq!(errors[1].name(), "COREKIT_TEST_WORKER_COUNT");
    assert_eq!(errors[1].kind(), EnvErrorKind::Missing);
    assert_eq!(errors[2].name(), "COREKIT_TEST_SIGNED_LIMIT");
    assert_eq!(errors[2].kind(), EnvErrorKind::Missing);
    assert_eq!(errors[3].name(), "COREKIT_TEST_FEATURE_ENABLED");
    assert_eq!(errors[3].kind(), EnvErrorKind::Missing);
    assert_eq!(errors[4].name(), "COREKIT_TEST_RATIO");
    assert_eq!(errors[4].kind(), EnvErrorKind::Missing);
}

#[test]
fn collects_all_invalid_required_values_in_field_order() {
    let error = load(
        &required_primitives(),
        &[
            ("COREKIT_TEST_SERVICE_URL", Some("https://example.com")),
            ("COREKIT_TEST_WORKER_COUNT", Some("-1")),
            ("COREKIT_TEST_SIGNED_LIMIT", Some("not-an-int")),
            ("COREKIT_TEST_FEATURE_ENABLED", Some("yes")),
            ("COREKIT_TEST_RATIO", Some("not-a-float")),
        ],
    )
    .unwrap_err();
    let errors = error.errors();

    assert_eq!(errors.len(), 4);
    assert_eq!(errors[0].name(), "COREKIT_TEST_WORKER_COUNT");
    assert_eq!(errors[0].kind(), EnvErrorKind::Invalid);
    assert_eq!(errors[1].name(), "COREKIT_TEST_SIGNED_LIMIT");
    assert_eq!(errors[1].kind(), EnvErrorKind::Invalid);
    assert_eq!(errors[2].name(), "COREKIT_TEST_FEATURE_ENABLED");
    assert_eq!(errors[2].kind(), EnvErrorKind::Invalid);
    assert_eq!(errors[3].name(), "COREKIT_TEST_RATIO");
    assert_eq!(errors[3].kind(), EnvErrorKind::Invalid);
}

#[test]
fn reports_missing_and_invalid_values_together() {
    let error = load(
        &required_primitives(),
        &[
            ("COREKIT_TEST_SERVICE_URL", None),
            ("COREKIT_TEST_WORKER_COUNT", Some("not-a-u16")),
            ("COREKIT_TEST_SIGNED_LIMIT", Some("10")),
            ("COREKIT_TEST_FEATURE_ENABLED", None),
            ("COREKIT_TEST_RATIO", Some("2.5")),
        ],
    )
    .unwrap_err();
    let errors = error.errors();

    assert_eq!(errors.len(), 3);
    assert_eq!(errors[0].name(), "COREKIT_TEST_SERVICE_URL");
    assert_eq!(errors[0].kind(), EnvErrorKind::Missing);
    assert_eq!(errors[1].name(), "COREKIT_TEST_WORKER_COUNT");
    assert_eq!(errors[1].kind(), EnvErrorKind::Invalid);
    assert_eq!(errors[2].name(), "COREKIT_TEST_FEATURE_ENABLED");
    assert_eq!(errors[2].kind(), EnvErrorKind::Missing);
}

#[test]
fn error_display_lists_all_failed_env_var_names() {
    let message = load(&required_primitives(), &all_env_vars_absent()).unwrap_err().to_string();

    assert!(message.contains("COREKIT_TEST_SERVICE_URL"));
    assert!(message.contains("COREKIT_TEST_WORKER_COUNT"));
    assert!(message.contains("COREKIT_TEST_SIGNED_LIMIT"));
    assert!(message.contains("COREKIT_TEST_FEATURE_ENABLED"));
    assert!(message.contains("COREKIT_TEST_RATIO"));
}

#[test]
fn error_display_has_exact_form() {
    let message = load(&required_primitives()[..2], &all_env_vars_absent()).unwrap_err().to_string();

    assert_eq!(
        message,
        "failed to load EnvConfig: COREKIT_TEST_SERVICE_URL: missing required env var, \
         COREKIT_TEST_WORKER_COUNT: missing required env var"
    );
}

#[test]
fn global_env_can_be_read_with_field_access() {
    let (global, _) = container(vec![global_arg("corekit_global_env")]);
    assert_eq!(global.as_deref(), Some("corekit_global_env"));

    let fields = vec![
        field("COREKIT_GLOBAL_DATABASE_URL", "String"),
        field("COREKIT_GLOBAL_OPENAI_API_KEY", "SecretString"),
        field("COREKIT_GLOBAL_DEV_MODE", "bool"),
        field("COREKIT_GLOBAL_WORKER_COUNT", "u16"),
    ];
    let config = load(
        &fields,
        &[
            ("COREKIT_GLOBAL_DATABASE_URL", Some("postgres://global")),
            ("COREKIT_GLOBAL_OPENAI_API_KEY", Some("sk-global-secret")),
            ("COREKIT_GLOBAL_DEV_MODE", Some("true")),
            ("COREKIT_GLOBAL_WORKER_COUNT", Some("8")),
        ],
    )
    .unwrap();

    assert_eq!(config[0], Value::Str("postgres://global".to_string()));
    assert_eq!(config[1], Value::Secret("sk-global-secret".to_string()));
    assert_eq!(config[2], Value::Bool(true));
    assert_eq!(config[3], Value::U16(8));
}

#[test]
fn defaults_are_used_when_env_vars_are_missing() {
    let config = load(&default_env(), &all_default_env_vars_absent()).unwrap();

    assert_eq!(config[0], Value::U64(90));
    assert_eq!(config[1], Value::Bool(false));
    assert_eq!(config[2], Value::Str("info".to_string()));
}

#[test]
fn env_values_override_defaults_when_present() {
    let config = load(
        &default_env(),
        &[
            ("COREKIT_DEFAULT_VIDEO_MAX_DURATION_S", Some("120")),
            ("COREKIT_DEFAULT_DEV_MODE", Some("true")),
            ("COREKIT_DEFAULT_LOG_LEVEL", Some("debug")),
        ],
    )
    .unwrap();

    assert_eq!(config[0], Value::U64(120));
    assert_eq!(config[1], Value::Bool(true));
    assert_eq!(config[2], Value::Str("debug".to_string()));
}

#[test]
fn present_invalid_values_fail_even_when_defaults_exist() {
    let error = load(
        &default_env(),
        &[
            ("COREKIT_DEFAULT_VIDEO_MAX_DURATION_S", Some("not-a-duration")),
            ("COREKIT_DEFAULT_DEV_MODE", Some("true")),
            ("COREKIT_DEFAULT_LOG_LEVEL", None),
        ],
    )
    .unwrap_err();
    let errors = error.errors();

    assert_eq!(errors.len(), 1);
    assert_eq!(errors[0].name(), "COREKIT_DEFAULT_VIDEO_MAX_DURATION_S");
    assert_eq!(errors[0].kind(), EnvErrorKind::Invalid);
}

#[test]
fn missing_option_fields_load_as_none() {
    let config = load(&optional_env(), &all_optional_env_vars_absent()).unwrap();

    assert_eq!(config[0], Value::Missing);
    assert_eq!(config[1], Value::Missing);
    assert_eq!(config[2], Value::Missing);
}

#[test]
fn present_option_fields_load_as_some_values() {
    let config = load(
        &optional_env(),
        &[
            ("COREKIT_OPTIONAL_SENTRY_DSN", Some("https://sentry.example")),
            ("COREKIT_OPTIONAL_WORKER_COUNT", Some("7")),
            ("COREKIT_OPTIONAL_FEATURE_ENABLED", Some("true")),
        ],
    )
    .unwrap();

    assert_eq!(config[0], Value::Str("https://sentry.example".to_string()));
    assert_eq!(config[1], Value::U16(7));
    assert_eq!(config[2], Value::Bool(true));
}

#[test]
fn present_invalid_option_values_fail() {
    let error = load(
        &optional_env(),
        &[
            ("COREKIT_OPTIONAL_SENTRY_DSN", None),
            ("COREKIT_OPTIONAL_WORKER_COUNT", Some("not-a-u16")),
            ("COREKIT_OPTIONAL_FEATURE_ENABLED", Some("yes")),
        ],
    )
    .unwrap_err();
    let errors = error.errors();

    assert_eq!(errors.len(), 2);
    assert_eq!(errors[0].name(), "COREKIT_OPTIONAL_WORKER_COUNT");
    assert_eq!(errors[0].kind(), EnvErrorKind::Invalid);
    assert_eq!(errors[1].name(), "COREKIT_OPTIONAL_FEATURE_ENABLED");
    assert_eq!(errors[1].kind(), EnvErrorKind::Invalid);
}

#[test]
fn load_reads_values_from_dotenv_file() {
    let config = load_with(
        &dotenv_env(),
        &all_dotenv_env_vars_absent(),
        &[(".env", "COREKIT_DOTENV_DATABASE_URL=postgres://dotenv\nCOREKIT_DOTENV_WORKER_COUNT=4\n")],
        DotenvMode::Default,
    )
    .unwrap();

    assert_eq!(config[0], Value::Str("postgres://dotenv".to_string()));
    assert_eq!(config[1], Value::U16(4));
}

#[test]
fn process_env_values_override_dotenv_values() {
    let config = load_with(
        &dotenv_env(),
        &[("COREKIT_DOTENV_DATABASE_URL", Some("postgres://process")), ("COREKIT_DOTENV_WORKER_COUNT", None)],
        &[(".env", "COREKIT_DOTENV_DATABASE_URL=postgres://dotenv\nCOREKIT_DOTENV_WORKER_COUNT=4\n")],
        DotenvMode::Default,
    )
    .unwrap();

    assert_eq!(config[0], Value::Str("postgres://process".to_string()));
    assert_eq!(config[1], Value::U16(4));
}

#[test]
fn custom_dotenv_filename_is_loaded_when_configured() {
    let (_, mode) = container(vec![name_value("dotenv", ArgValue::Str(".env.test".to_string()))]);
    let fields = vec![field("corekit_custom_dotenv_database_url", "String")];
    let config = load_with(
        &fields,
        &[("COREKIT_CUSTOM_DOTENV_DATABASE_URL", None)],
        &[(".env.test", "COREKIT_CUSTOM_DOTENV_DATABASE_URL=postgres://custom-dotenv\n")],
        mode,
    )
    .unwrap();

    assert_eq!(config[0], Value::Str("postgres://custom-dotenv".to_string()));
}

#[test]
fn default_dotenv_file_is_not_loaded_when_custom_dotenv_filename_is_configured() {
    let (_, mode) = container(vec![name_value("dotenv", ArgValue::Str(".env.test".to_string()))]);
    let fields = vec![field("corekit_custom_dotenv_database_url", "String")];
    let error = load_with(
        &fields,
        &[("COREKIT_CUSTOM_DOTENV_DATABASE_URL", None)],
        &[(".env", "COREKIT_CUSTOM_DOTENV_DATABASE_URL=postgres://default-dotenv\n")],
        mode,
    )
    .unwrap_err();
    let errors = error.errors();

    assert_eq!(errors.len(), 1);
    assert_eq!(errors[0].name(), "COREKIT_CUSTOM_DOTENV_DATABASE_URL");
    assert_eq!(errors[0].kind(), EnvErrorKind::Missing);
}

#[test]
fn dotenv_loading_can_be_disabled() {
    let (_, mode) = container(vec![name_value("dotenv", ArgValue::Bool(false))]);
    let fields = vec![field("corekit_disabled_dotenv_database_url", "String")];
    let error = load_with(
        &fields,
        &[("COREKIT_DISABLED_DOTENV_DATABASE_URL", None)],
        &[(".env", "COREKIT_DISABLED_DOTENV_DATABASE_URL=postgres://disabled-dotenv\n")],
        mode,
    )
    .unwrap_err();
    let errors = error.errors();

    assert_eq!(errors.len(), 1);
    assert_eq!(errors[0].name(), "COREKIT_DISABLED_DOTENV_DATABASE_URL");
    assert_eq!(errors[0].kind(), EnvErrorKind::Missing);
}

#[test]
fn process_env_values_still_work_when_dotenv_loading_is_disabled() {
    let (_, mode) = container(vec![name_value("dotenv", ArgValue::Bool(false))]);
    let fields = vec![field("corekit_disabled_dotenv_database_url", "String")];
    let config = load_with(
        &fields,
        &[("COREKIT_DISABLED_DOTENV_DATABASE_URL", Some("postgres://process"))],
        &[(".env", "COREKIT_DISABLED_DOTENV_DATABASE_URL=postgres://disabled-dotenv\n")],
        mode,
    )
    .unwrap();

    assert_eq!(config[0], Value::Str("postgres://process".to_string()));
}

#[test]
fn attribute_macro_loads_env_and_generates_global_access() {
    assert!(check_env_config_target(true, true, false).is_ok());
    let (global, mode) =
        container(vec![global_arg("corekit_attribute_global_env"), name_value("dotenv", ArgValue::Bool(false))]);
    assert_eq!(global.as_deref(), Some("corekit_attribute_global_env"));

    let fields = vec![
        field("COREKIT_ATTRIBUTE_DATABASE_URL", "String"),
        field("COREKIT_ATTRIBUTE_API_KEY", "SecretString"),
        with_default(field("COREKIT_ATTRIBUTE_DEV_MODE", "bool"), ArgValue::Bool(false), "false"),
        field("COREKIT_ATTRIBUTE_SENTRY_DSN", "Option<String>"),
    ];
    let loaded = load_with(
        &fields,
        &[
            ("COREKIT_ATTRIBUTE_DATABASE_URL", Some("postgres://attribute")),
            ("COREKIT_ATTRIBUTE_API_KEY", Some("sk-attribute")),
            ("COREKIT_ATTRIBUTE_DEV_MODE", None),
            ("COREKIT_ATTRIBUTE_SENTRY_DSN", None),
        ],
        &[],
        mode,
    )
    .unwrap();

    assert_eq!(loaded[0], Value::Str("postgres://attribute".to_string()));
    assert_eq!(loaded[1], Value::Secret("sk-attribute".to_string()));
    assert_eq!(loaded[2], Value::Bool(false));
    assert_eq!(loaded[3], Value::Missing);
}

#[test]
fn trimmed_and_non_empty_fields_follow_their_rules() {
    let fields = vec![
        with_metas(field("database_url", "String"), vec![flag("trim")]),
        with_metas(field("api_key", "String"), vec![flag("non_empty")]),
        with_default(
            with_metas(field("log_level", "String"), vec![flag("trim"), flag("non_empty")]),
            ArgValue::Str("  info  ".to_string()),
            "  info  ",
        ),
    ];
    let config = load(&fields, &[("DATABASE_URL", Some("  postgres://x \n")), ("API_KEY", Some(" k "))]).unwrap();
    assert_eq!(config[0], Value::Str("postgres://x".to_string()));
    assert_eq!(config[1], Value::Str(" k ".to_string()));
    assert_eq!(config[2], Value::Str("info".to_string()));

    let error = load(&fields, &[("DATABASE_URL", Some("x")), ("API_KEY", Some(" \t "))]).unwrap_err();
    assert_eq!(error.errors().len(), 1);
    assert_eq!(error.errors()[0].name(), "API_KEY");
    assert_eq!(error.errors()[0].kind(), EnvErrorKind::Invalid);
    assert_eq!(error.errors()[0].reason(), "invalid value");
}

#[test]
fn not_unicode_values_are_invalid() {
    let rule = FieldRule {
        name: "X".to_string(),
        missing: MissingPolicy::Default("1".to_string()),
        trim: false,
        non_empty: false,
        list: None,
    };
    let mut loader = EnvLoader::new();
    assert!(matches!(loader.begin_field(&rule, &EnvLookup::NotUnicode), FieldStep::Failed(EnvErrorKind::Invalid)));
    let error = loader.finish().unwrap_err();
    assert_eq!(error.errors()[0].name(), "X");
    assert_eq!(error.errors()[0].reason(), "invalid value");
}

#[test]
fn dotenv_file_follows_the_container_setting() {
    assert_eq!(dotenv_file(&DotenvMode::Default).as_deref(), Some(".env"));
    assert_eq!(dotenv_file(&DotenvMode::File(".env.local".to_string())).as_deref(), Some(".env.local"));
    assert_eq!(dotenv_file(&DotenvMode::Disabled), None);
}
