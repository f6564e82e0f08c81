//! The `config` object of a render and the `model` facade built from it.

use crate::config_map::ConfigMap;
use crate::value::{same_text, share, Value};
use std::sync::Arc;
use vstd::prelude::*;

verus! {

/// What the `config` attribute of the model facade presents: the whole map.
#[derive(Debug, Clone, PartialEq)]
pub struct ModelConfig {
    pub config: Arc<ConfigMap>,
}

impl ModelConfig {
    /// The map as a mapping value.
    pub fn into_value(self) -> (r: Value)
        ensures
            r == Value::Dict(self.config),
    {
        Value::Dict(self.config)
    }
}

/// The object that the `model` attribute yields: the same map, reachable as
/// `model.config.<key>` and, directly, as `model.<key>`.
#[derive(Debug, Clone, PartialEq)]
pub struct ModelNode {
    pub config: Arc<ConfigMap>,
}

impl ModelNode {
    /// What reading attribute `key` yields.
    pub open spec fn attr(&self, key: Value) -> Option<Value> {
        match key {
            Value::Str(s) => if s@ == "config"@ {
                Some(Value::Dict(self.config))
            } else {
                self.config.lookup(s@)
            },
            _ => None,
        }
    }

    /// Reads attribute `key`: `config` is the whole map, any other string
    /// key is looked up in it, and a key that is not a string yields nothing.
    pub fn get_value(&self, key: &Value) -> (r: Option<Value>)
        ensures
            r == self.attr(*key),
    {
        match key.as_str() {
            Some(s) => {
                if same_text(s, "config") {
                    Some(ModelConfig { config: share(&self.config) }.into_value())
                } else {
                    match self.config.get(s.as_str()) {
                        Some(v) => Some(v.copy()),
                        None => None,
                    }
                }
            },
            None => None,
        }
    }
}

/// The shared `config` object of one render.
#[derive(Debug, Clone, PartialEq)]
pub struct RunConfig {
    /// The node's resolved configuration.
    pub config: Arc<ConfigMap>,
}

/// The methods that templates may call on the config object.
#[derive(Debug, Clone, PartialEq)]
pub enum Method {
    Get,
    SetKey,
    Require,
    PersistRelationDocs,
    PersistColumnDocs,
}

/// The method that `name` calls, if it is one of the five.
pub open spec fn method_named(name: Seq<char>) -> Option<Method> {
    if name == "get"@ {
        Some(Method::Get)
    } else if name == "set"@ {
        Some(Method::SetKey)
    } else if name == "require"@ {
        Some(Method::Require)
    } else if name == "persist_relation_docs"@ {
        Some(Method::PersistRelationDocs)
    } else if name == "persist_column_docs"@ {
        Some(Method::PersistColumnDocs)
    } else {
        None
    }
}

impl Method {
    /// Recognizes a method name.
    pub fn from_name(name: &str) -> (r: Option<Method>)
        ensures
            r == method_named(name@),
    {
        let n = name.to_owned();
        if same_text(&n, "get") {
            Some(Method::Get)
        } else if same_text(&n, "set") {
            Some(Method::SetKey)
        } else if same_text(&n, "require") {
            Some(Method::Require)
        } else if same_text(&n, "persist_relation_docs") {
            Some(Method::PersistRelationDocs)
        } else if same_text(&n, "persist_column_docs") {
            Some(Method::PersistColumnDocs)
        } else {
            None
        }
    }
}

/// Why a method call failed.
#[derive(Debug, Clone, PartialEq)]
pub enum ConfigError {
    /// A setting holds a value of the wrong shape.
    InvalidConfig { message: String },
    /// The object has no method of that name.
    UnknownMethod { object: String, method: String },
    /// A required argument is missing or is not of the expected kind.
    ArgumentError { param: String },
}

/// The arguments of a method call: positional ones, then named ones.
#[derive(Debug, Clone, PartialEq)]
pub struct CallArgs {
    pub positional: Vec<Value>,
    pub named: ConfigMap,
}

impl CallArgs {
    /// The argument of parameter `name`, declared at position `pos`: given by
    /// name if it was, else by position.
    pub open spec fn arg(&self, pos: int, name: Seq<char>) -> Option<Value> {
        match self.named.lookup(name) {
            Some(v) => Some(v),
            None => if 0 <= pos < self.positional@.len() {
                Some(self.positional@[pos])
            } else {
                None
            },
        }
    }

    /// The text of that argument, where it is a string.
    pub open spec fn text_arg(&self, pos: int, name: Seq<char>) -> Option<String> {
        match self.arg(pos, name) {
            Some(Value::Str(s)) => Some(s),
            _ => None,
        }
    }

    /// Only positional arguments.
    pub fn new(positional: Vec<Value>) -> (r: CallArgs)
        ensures
            r.positional == positional,
            forall|k: Seq<char>| #[trigger] r.named.lookup(k) is None,
    {
        CallArgs { positional, named: ConfigMap::new() }
    }

    /// Positional and named arguments.
    pub fn with_named(positional: Vec<Value>, named: ConfigMap) -> (r: CallArgs)
        ensures
            r.positional == positional,
            r.named == named,
    {
        CallArgs { positional, named }
    }

    /// The argument of parameter `name` at position `pos`.
    pub fn get_arg(&self, pos: usize, name: &str) -> (r: Option<Value>)
        ensures
            r == self.arg(pos as int, name@),
    {
        match self.named.get(name) {
            Some(v) => Some(v.copy()),
            None => if pos < self.positional.len() {
                Some(self.positional[pos].copy())
            } else {
                None
            },
        }
    }

    /// The text of the required string parameter `name` at position `pos`.
    pub fn text(&self, pos: usize, name: &str) -> (r: Result<String, ConfigError>)
        ensures
            match self.text_arg(pos as int, name@) {
                Some(s) => r == Ok::<String, ConfigError>(s),
                None => r matches Err(ConfigError::ArgumentError { param }) && param@ == name@,
            },
    {
        match self.get_arg(pos, name) {
            Some(Value::Str(s)) => Ok(s),
            _ => Err(ConfigError::ArgumentError { param: name.to_owned() }),
        }
    }
}

/// The value of `get`: the binding when there is one and it is not null,
/// the default otherwise.
pub open spec fn bound_or(bound: Option<Value>, default: Value) -> Value {
    match bound {
        Some(v) => if v is Null {
            default
        } else {
            v
        },
        None => default,
    }
}

/// The default argument of `get`, null when none is given.
pub open spec fn default_arg(args: CallArgs) -> Value {
    match args.arg(1, "default"@) {
        Some(d) => d,
        None => Value::Null,
    }
}

/// Whether `r` is the empty string.
pub open spec fn is_empty_text(r: Result<Value, ConfigError>) -> bool {
    r matches Ok(Value::Str(s)) && s@.len() == 0
}

impl RunConfig {
    /// A config object over `config`.
    pub fn new(config: ConfigMap) -> (r: RunConfig)
        ensures
            *r.config == config,
    {
        RunConfig { config: Arc::new(config) }
    }

    /// Whether reading `key` builds the model facade.
    pub open spec fn is_model_key(key: Value) -> bool {
        key matches Value::Str(s) && s@ == "model"@
    }

    /// What reading attribute `key` yields, for any key but `model`.
    pub open spec fn attr(&self, key: Value) -> Option<Value> {
        match key {
            Value::Str(s) => self.config.lookup(s@),
            _ => None,
        }
    }

    /// The `persist_docs` setting, where it is bound to something other than null.
    pub open spec fn persist_docs(&self) -> Option<Value> {
        match self.config.lookup("persist_docs"@) {
            Some(v) => if v is Null {
                None
            } else {
                Some(v)
            },
            None => None,
        }
    }

    /// The outcome of reading `entry` of `persist_docs`: false when the
    /// setting or the entry is missing, an error when the setting is not a
    /// mapping.
    pub open spec fn persist_entry_result(
        &self,
        entry: Seq<char>,
        r: Result<Value, ConfigError>,
    ) -> bool {
        match self.persist_docs() {
            None => r == Ok::<Value, ConfigError>(Value::Bool(false)),
            Some(Value::Dict(m)) => r == Ok::<Value, ConfigError>(
                match m.lookup(entry) {
                    Some(v) => v,
                    None => Value::Bool(false),
                },
            ),
            Some(_) => r matches Err(ConfigError::InvalidConfig { message }) && message@
                == "persist_docs must be a dictionary"@,
        }
    }

    /// Whether `r` is the outcome of calling method `name` with `args`.
    pub open spec fn call_result(
        &self,
        name: Seq<char>,
        args: CallArgs,
        r: Result<Value, ConfigError>,
    ) -> bool {
        match method_named(name) {
            None => r matches Err(ConfigError::UnknownMethod { object, method }) && object@
                == "RunConfig"@ && method@ == name,
            Some(m) => match args.text_arg(0, "name"@) {
                None if (m is Get || m is SetKey || m is Require) => r matches Err(
                    ConfigError::ArgumentError { param },
                ) && param@ == "name"@,
                key => match m {
                    Method::Get => r == Ok::<Value, ConfigError>(
                        bound_or(self.config.lookup(key->0@), default_arg(args)),
                    ),
                    Method::SetKey | Method::Require => is_empty_text(r),
                    Method::PersistRelationDocs => self.persist_entry_result("relation"@, r),
                    Method::PersistColumnDocs => self.persist_entry_result("columns"@, r),
                },
            },
        }
    }

    /// Reads attribute `key`. `model` yields a fresh facade over the same
    /// map; any other string key is looked up in the map; a key that is not a
    /// string yields nothing.
    pub fn get_value(&self, key: &Value) -> (r: Option<Value>)
        ensures
            Self::is_model_key(*key) ==> (r matches Some(Value::Model(node)) && node.config
                == self.config),
            !Self::is_model_key(*key) ==> r == self.attr(*key),
    {
        match key.as_str() {
            Some(s) => {
                if same_text(s, "model") {
                    Some(Value::Model(Arc::new(ModelNode { config: share(&self.config) })))
                } else {
                    match self.config.get(s.as_str()) {
                        Some(v) => Some(v.copy()),
                        None => None,
                    }
                }
            },
            None => None,
        }
    }

    /// Reads `entry` of the `persist_docs` setting.
    fn persist_entry(&self, entry: &str) -> (r: Result<Value, ConfigError>)
        ensures
            self.persist_entry_result(entry@, r),
    {
        let docs = match self.config.get("persist_docs") {
            Some(v) => if v.is_none() {
                None
            } else {
                Some(v)
            },
            None => None,
        };
        match docs {
            None => Ok(Value::Bool(false)),
            Some(Value::Dict(m)) => match m.get(entry) {
                Some(v) => Ok(v.copy()),
                None => Ok(Value::Bool(false)),
            },
            Some(_) => Err(
                ConfigError::InvalidConfig {
                    message: "persist_docs must be a dictionary".to_owned(),
                },
            ),
        }
    }

    /// Calls method `name` with `args`.
    pub fn call_method(&self, name: &str, args: &CallArgs) -> (r: Result<Value, ConfigError>)
        ensures
            self.call_result(name@, *args, r),
    {
        match Method::from_name(name) {
            None => Err(
                ConfigError::UnknownMethod {
                    object: "RunConfig".to_owned(),
                    method: name.to_owned(),
                },
            ),
            Some(Method::Get) => {
                let key = match args.text(0, "name") {
                    Ok(k) => k,
                    Err(e) => {
                        return Err(e);
                    },
                };
                let default = match args.get_arg(1, "default") {
                    Some(d) => d,
                    None => Value::Null,
                };
                match self.config.get(key.as_str()) {
                    Some(v) => if v.is_none() {
                        Ok(default)
                    } else {
                        Ok(v.copy())
                    },
                    None => Ok(default),
                }
            },
            Some(Method::SetKey) | Some(Method::Require) => match args.text(0, "name") {
                Ok(_) => Ok(Value::Str(String::new())),
                Err(e) => Err(e),
            },
            Some(Method::PersistRelationDocs) => self.persist_entry("relation"),
            Some(Method::PersistColumnDocs) => self.persist_entry("columns"),
        }
    }
}

} // verus!
