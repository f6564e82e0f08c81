//! Laws that relate attribute reads and method calls on the config object.

use crate::run_config::{
    default_arg, is_empty_text, method_named, CallArgs, ConfigError, Method, ModelNode, RunConfig,
};
use crate::value::Value;
use vstd::prelude::*;

verus! {

/// Each of the five names selects its own method.
proof fn lemma_method_names()
    ensures
        method_named("get"@) == Some(Method::Get),
        method_named("set"@) == Some(Method::SetKey),
        method_named("require"@) == Some(Method::Require),
        method_named("persist_relation_docs"@) == Some(Method::PersistRelationDocs),
        method_named("persist_column_docs"@) == Some(Method::PersistColumnDocs),
{
    reveal_strlit("get");
    reveal_strlit("set");
    reveal_strlit("require");
    reveal_strlit("persist_relation_docs");
    reveal_strlit("persist_column_docs");
    assert("set"@[0] != "get"@[0]);
    assert("require"@.len() != "get"@.len());
    assert("persist_relation_docs"@.len() != "require"@.len());
    assert("persist_column_docs"@.len() != "persist_relation_docs"@.len());
}

/// A key bound to a value other than null reads as that value, both as an
/// attribute and through `get` (`model` aside, which reads as the facade).
pub proof fn law_bound_key_reads_back(
    c: RunConfig,
    k: String,
    v: Value,
    args: CallArgs,
    r: Result<Value, ConfigError>,
)
    requires
        c.config.lookup(k@) == Some(v),
        v !is Null,
        args.text_arg(0, "name"@) == Some(k),
        c.call_result("get"@, args, r),
    ensures
        k@ != "model"@ ==> !RunConfig::is_model_key(Value::Str(k)) && c.attr(Value::Str(k))
            == Some(v),
        r == Ok::<Value, ConfigError>(v),
{
}

/// An unbound key reads as nothing, and `get` yields the default argument,
/// null when none is given.
pub proof fn law_absent_key_gives_default(
    c: RunConfig,
    k: String,
    args: CallArgs,
    r: Result<Value, ConfigError>,
)
    requires
        c.config.lookup(k@) is None,
        args.text_arg(0, "name"@) == Some(k),
        c.call_result("get"@, args, r),
    ensures
        k@ != "model"@ ==> c.attr(Value::Str(k)) is None,
        r == Ok::<Value, ConfigError>(default_arg(args)),
        args.arg(1, "default"@) is None ==> r == Ok::<Value, ConfigError>(Value::Null),
{
}

/// A key bound to null counts as absent: `get` yields the default given.
pub proof fn law_null_is_absent(
    c: RunConfig,
    k: String,
    d: Value,
    args: CallArgs,
    r: Result<Value, ConfigError>,
)
    requires
        c.config.lookup(k@) == Some(Value::Null),
        args.text_arg(0, "name"@) == Some(k),
        args.arg(1, "default"@) == Some(d),
        c.call_result("get"@, args, r),
    ensures
        r == Ok::<Value, ConfigError>(d),
{
}

/// `set` with a name answers the empty string, whatever the map holds; it
/// takes the object by shared reference, so the map stays as it was.
pub proof fn law_set_is_noop(c: RunConfig, args: CallArgs, r: Result<Value, ConfigError>)
    requires
        args.text_arg(0, "name"@) is Some,
        c.call_result("set"@, args, r),
    ensures
        is_empty_text(r),
{
    lemma_method_names();
}

/// `require` with a name answers the empty string, bound or not.
pub proof fn law_require_never_fails(c: RunConfig, args: CallArgs, r: Result<Value, ConfigError>)
    requires
        args.text_arg(0, "name"@) is Some,
        c.call_result("require"@, args, r),
    ensures
        is_empty_text(r),
{
    lemma_method_names();
}

/// The `config` attribute of the model facade is the whole original map.
pub proof fn law_facade_config_is_map(c: RunConfig, node: ModelNode, key: Value)
    requires
        node.config == c.config,
        key matches Value::Str(s) && s@ == "config"@,
    ensures
        node.attr(key) == Some(Value::Dict(c.config)),
{
}

/// Any other attribute of the model facade reads as on the config object
/// (`model` aside, which the config object answers with the facade).
pub proof fn law_facade_forwards(c: RunConfig, node: ModelNode, key: Value)
    requires
        node.config == c.config,
        !(key matches Value::Str(s) && (s@ == "config"@ || s@ == "model"@)),
    ensures
        node.attr(key) == c.attr(key),
        !RunConfig::is_model_key(key),
{
}

/// Without a `persist_docs` setting both documentation flags are false.
pub proof fn law_no_persist_docs_is_false(
    c: RunConfig,
    args: CallArgs,
    relation: Result<Value, ConfigError>,
    columns: Result<Value, ConfigError>,
)
    requires
        c.config.lookup("persist_docs"@) is None,
        c.call_result("persist_relation_docs"@, args, relation),
        c.call_result("persist_column_docs"@, args, columns),
    ensures
        relation == Ok::<Value, ConfigError>(Value::Bool(false)),
        columns == Ok::<Value, ConfigError>(Value::Bool(false)),
{
    lemma_method_names();
}

/// A `persist_docs` setting that is neither null nor a mapping (a string,
/// say) makes both documentation flags fail as invalid configuration.
pub proof fn law_persist_docs_must_be_mapping(
    c: RunConfig,
    v: Value,
    args: CallArgs,
    relation: Result<Value, ConfigError>,
    columns: Result<Value, ConfigError>,
)
    requires
        c.config.lookup("persist_docs"@) == Some(v),
        v !is Null,
        v !is Dict,
        c.call_result("persist_relation_docs"@, args, relation),
        c.call_result("persist_column_docs"@, args, columns),
    ensures
        relation is Err && relation->Err_0 is InvalidConfig,
        columns is Err && columns->Err_0 is InvalidConfig,
{
    lemma_method_names();
}

/// A name outside the five methods fails as an unknown method of
/// `RunConfig`, naming the method attempted.
pub proof fn law_unknown_method(
    c: RunConfig,
    name: Seq<char>,
    args: CallArgs,
    r: Result<Value, ConfigError>,
)
    requires
        name != "get"@,
        name != "set"@,
        name != "require"@,
        name != "persist_relation_docs"@,
        name != "persist_column_docs"@,
        c.call_result(name, args, r),
    ensures
        method_named(name) is None,
        r matches Err(ConfigError::UnknownMethod { object, method }) && object@ == "RunConfig"@
            && method@ == name,
{
}

} // verus!
