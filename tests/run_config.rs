use jinja_run_config::config_map::ConfigMap;
use jinja_run_config::run_config::{CallArgs, ConfigError, ModelNode, RunConfig};
use jinja_run_config::value::Value;
use std::sync::Arc;

fn s(t: &str) -> Value {
    Value::Str(t.to_string())
}

fn sample_map() -> ConfigMap {
    ConfigMap::new()
        .insert("materialized".to_string(), s("table"))
        .insert("enabled".to_string(), Value::Bool(true))
        .insert("schema".to_string(), Value::Null)
        .insert("threads".to_string(), Value::Int(4))
}

fn sample() -> RunConfig {
    RunConfig::new(sample_map())
}

fn positional(args: Vec<Value>) -> CallArgs {
    CallArgs::new(args)
}

fn no_args() -> CallArgs {
    CallArgs::new(Vec::new())
}

fn model_of(c: &RunConfig) -> Arc<ModelNode> {
    match c.get_value(&s("model")) {
        Some(Value::Model(node)) => node,
        other => panic!("model attribute gave {:?}", other),
    }
}

#[test]
fn bound_key_reads_back() {
    let c = sample();
    assert_eq!(c.get_value(&s("materialized")), Some(s("table")));
    assert_eq!(c.get_value(&s("threads")), Some(Value::Int(4)));
    let r = c.call_method("get", &positional(vec![s("materialized")]));
    assert_eq!(r, Ok(s("table")));
    let r = c.call_method("get", &positional(vec![s("enabled"), Value::Bool(false)]));
    assert_eq!(r, Ok(Value::Bool(true)));
}

#[test]
fn absent_key_gives_default() {
    let c = sample();
    assert_eq!(c.get_value(&s("missing")), None);
    let r = c.call_method("get", &positional(vec![s("missing")]));
    assert_eq!(r, Ok(Value::Null));
    let r = c.call_method("get", &positional(vec![s("missing"), s("fallback")]));
    assert_eq!(r, Ok(s("fallback")));
}

#[test]
fn null_binding_counts_as_absent() {
    let c = sample();
    assert_eq!(c.get_value(&s("schema")), Some(Value::Null));
    let r = c.call_method("get", &positional(vec![s("schema"), s("analytics")]));
    assert_eq!(r, Ok(s("analytics")));
    let r = c.call_method("get", &positional(vec![s("schema")]));
    assert_eq!(r, Ok(Value::Null));
}

#[test]
fn named_arguments_are_read_by_name() {
    let c = sample();
    let named = ConfigMap::new()
        .insert("default".to_string(), Value::Int(7))
        .insert("name".to_string(), s("missing"));
    let r = c.call_method("get", &CallArgs::with_named(Vec::new(), named));
    assert_eq!(r, Ok(Value::Int(7)));
    let named = ConfigMap::new().insert("default".to_string(), Value::Int(7));
    let r = c.call_method("get", &CallArgs::with_named(vec![s("threads")], named));
    assert_eq!(r, Ok(Value::Int(4)));
}

#[test]
fn set_is_a_noop() {
    let c = sample();
    let before = c.config.as_ref().clone();
    let r = c.call_method("set", &positional(vec![s("materialized"), s("view")]));
    assert_eq!(r, Ok(s("")));
    assert_eq!(*c.config, before);
    assert_eq!(c.get_value(&s("materialized")), Some(s("table")));
}

#[test]
fn require_never_fails() {
    let c = sample();
    assert_eq!(c.call_method("require", &positional(vec![s("threads")])), Ok(s("")));
    assert_eq!(c.call_method("require", &positional(vec![s("nowhere")])), Ok(s("")));
}

#[test]
fn missing_or_bad_name_argument() {
    let c = sample();
    for method in ["get", "set", "require"] {
        match c.call_method(method, &no_args()) {
            Err(ConfigError::ArgumentError { param }) => assert_eq!(param, "name"),
            other => panic!("{} gave {:?}", method, other),
        }
    }
    match c.call_method("get", &positional(vec![Value::Int(3)])) {
        Err(ConfigError::ArgumentError { param }) => assert_eq!(param, "name"),
        other => panic!("gave {:?}", other),
    }
}

#[test]
fn facade_config_is_whole_map() {
    for map in [ConfigMap::new(), sample_map()] {
        let c = RunConfig::new(map.clone());
        let node = model_of(&c);
        assert_eq!(node.get_value(&s("config")), Some(Value::Dict(Arc::new(map))));
    }
}

#[test]
fn facade_forwards_other_keys() {
    let c = sample();
    let node = model_of(&c);
    for key in ["materialized", "enabled", "schema", "threads", "missing"] {
        assert_eq!(node.get_value(&s(key)), c.get_value(&s(key)));
    }
    assert_eq!(node.get_value(&Value::Int(1)), None);
}

#[test]
fn non_string_key_reads_nothing() {
    let c = sample();
    assert_eq!(c.get_value(&Value::Int(0)), None);
    assert_eq!(c.get_value(&Value::Null), None);
}

#[test]
fn persist_docs_flags_from_mapping() {
    let docs = ConfigMap::new()
        .insert("relation".to_string(), Value::Bool(true))
        .insert("columns".to_string(), Value::Bool(false));
    let c = RunConfig::new(
        sample_map().insert("persist_docs".to_string(), Value::Dict(Arc::new(docs))),
    );
    assert_eq!(c.call_method("persist_relation_docs", &no_args()), Ok(Value::Bool(true)));
    assert_eq!(c.call_method("persist_column_docs", &no_args()), Ok(Value::Bool(false)));
}

#[test]
fn persist_docs_missing_entries_are_false() {
    let docs = ConfigMap::new().insert("columns".to_string(), Value::Bool(true));
    let c = RunConfig::new(ConfigMap::new().insert("persist_docs".to_string(), Value::Dict(Arc::new(docs))));
    assert_eq!(c.call_method("persist_relation_docs", &no_args()), Ok(Value::Bool(false)));
    assert_eq!(c.call_method("persist_column_docs", &no_args()), Ok(Value::Bool(true)));
}

#[test]
fn no_persist_docs_is_false() {
    let c = sample();
    assert_eq!(c.call_method("persist_relation_docs", &no_args()), Ok(Value::Bool(false)));
    assert_eq!(c.call_method("persist_column_docs", &no_args()), Ok(Value::Bool(false)));
    let c = RunConfig::new(ConfigMap::new().insert("persist_docs".to_string(), Value::Null));
    assert_eq!(c.call_method("persist_relation_docs", &no_args()), Ok(Value::Bool(false)));
    assert_eq!(c.call_method("persist_column_docs", &no_args()), Ok(Value::Bool(false)));
}

#[test]
fn persist_docs_string_is_invalid() {
    let c = RunConfig::new(sample_map().insert("persist_docs".to_string(), s("oops")));
    for method in ["persist_relation_docs", "persist_column_docs"] {
        match c.call_method(method, &no_args()) {
            Err(ConfigError::InvalidConfig { message }) => {
                assert_eq!(message, "persist_docs must be a dictionary")
            }
            other => panic!("{} gave {:?}", method, other),
        }
    }
}

#[test]
fn unknown_method_is_named() {
    let c = sample();
    for method in ["gett", "", "config", "persist_docs"] {
        match c.call_method(method, &positional(vec![s("threads")])) {
            Err(ConfigError::UnknownMethod { object, method: m }) => {
                assert_eq!(object, "RunConfig");
                assert_eq!(m, method);
            }
            other => panic!("{} gave {:?}", method, other),
        }
    }
}

#[test]
fn insert_replaces_in_place() {
    let m = sample_map().insert("enabled".to_string(), Value::Bool(false));
    assert_eq!(m.len(), 4);
    assert_eq!(m.get("enabled"), Some(&Value::Bool(false)));
    assert_eq!(m.pairs()[1].0, "enabled");
    let m = m.insert("alias".to_string(), s("a"));
    assert_eq!(m.len(), 5);
    assert_eq!(m.pairs()[4].0, "alias");
}

#[test]
fn value_helpers() {
    assert!(Value::Null.is_none());
    assert!(!Value::Undefined.is_none());
    assert_eq!(s("x").as_str(), Some(&"x".to_string()));
    assert_eq!(Value::Int(1).as_str(), None);
    let list = Value::List(Arc::new(vec![Value::Int(1), s("two")]));
    assert_eq!(list.copy(), list);
}
