//! Dynamic values that templates read and hand back.

use std::sync::Arc;
use vstd::prelude::*;

verus! {

/// A dynamic template value.
///
/// Nested sequences and mappings sit behind `Arc`, so copying a value only
/// shares what it points to.
#[derive(Debug, Clone, PartialEq)]
pub enum Value {
    /// Nothing was bound (distinct from an explicit null).
    Undefined,
    /// An explicit null.
    Null,
    Bool(bool),
    Int(i128),
    /// A double, kept by its IEEE 754 bit pattern.
    FloatBits(u64),
    Str(String),
    List(Arc<Vec<Value>>),
    Dict(Arc<crate::config_map::ConfigMap>),
    /// The model facade handed out for the `model` attribute.
    Model(Arc<crate::run_config::ModelNode>),
    /// An object of the embedding engine, known here only by its handle.
    Handle(u64),
}

/// Relies on `Arc::clone` (std): the new pointer refers to the same
/// allocation, so it points to the same value.
#[verifier::external_body]
pub(crate) fn share<T>(p: &Arc<T>) -> (r: Arc<T>)
    ensures
        r == *p,
{
    Arc::clone(p)
}

/// Whether `s` holds exactly the text `w`.
pub fn same_text(s: &String, w: &str) -> (r: bool)
    ensures
        r == (s@ == w@),
{
    let owned = w.to_owned();
    *s == owned
}

impl Value {
    /// The structural null check: true of an explicit null only.
    pub fn is_none(&self) -> (r: bool)
        ensures
            r == (*self is Null),
    {
        match self {
            Value::Null => true,
            _ => false,
        }
    }

    /// The text of a string value.
    pub fn as_str(&self) -> (r: Option<&String>)
        ensures
            match *self {
                Value::Str(s) => r == Some(&s),
                _ => r is None,
            },
    {
        match self {
            Value::Str(s) => Some(s),
            _ => None,
        }
    }

    /// A copy of this value; nested data is shared, not duplicated.
    pub fn copy(&self) -> (r: Value)
        ensures
            r == *self,
    {
        match self {
            Value::Undefined => Value::Undefined,
            Value::Null => Value::Null,
            Value::Bool(b) => Value::Bool(*b),
            Value::Int(i) => Value::Int(*i),
            Value::FloatBits(b) => Value::FloatBits(*b),
            Value::Str(s) => Value::Str(s.clone()),
            Value::List(items) => Value::List(share(items)),
            Value::Dict(m) => Value::Dict(share(m)),
            Value::Model(n) => Value::Model(share(n)),
            Value::Handle(h) => Value::Handle(*h),
        }
    }
}

} // verus!
