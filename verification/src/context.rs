use vstd::prelude::*;

use crate::value::{Value, ValueV, value_view};

verus! {

/// A persistent mapping from variable names to runtime values.
/// Extension and merge build new mappings; a mapping already in hand
/// is never changed, so a closure's captured context stays as it was.
///
/// The struct holds an `im::hashmap::HashMap<String, Value>`, a
/// persistent, structurally shared map. It is opaque to the verifier
/// because `Value` is recursive through this very type; its contents
/// are exposed to specifications through `ctx_model` and the trusted
/// operations below.
#[verifier::external_body]
pub struct Context {
    inner: im::hashmap::HashMap<String, Value>,
}

/// The mathematical contents of a context: which name is bound to the
/// image of which value.
pub uninterp spec fn ctx_model(c: Context) -> Map<Seq<char>, ValueV>;

/// The contents of a context with no bindings.
pub open spec fn empty_env() -> Map<Seq<char>, ValueV> {
    Map::empty()
}

/// Relies on im::hashmap::HashMap::new: the new map is empty.
#[verifier::external_body]
pub fn context_new() -> (ctx: Context)
    ensures
        ctx_model(ctx) == empty_env(),
{
    Context { inner: im::hashmap::HashMap::new() }
}

/// Relies on im::hashmap::HashMap::update: returns a copy of the map
/// with one binding added or replaced; the map it is called on is not
/// changed. Two `String`s are one key exactly when their characters
/// agree, so contents are keyed here by character sequence.
#[verifier::external_body]
pub fn context_extend(c: &Context, name: &String, value: &Value) -> (r: Context)
    ensures
        ctx_model(r) == ctx_model(*c).insert(name@, value_view(*value)),
{
    Context { inner: c.inner.update(name.clone(), value.clone()) }
}

/// Relies on im::hashmap::HashMap::get: returns the value bound to the
/// name, if one is. The returned value is a copy of the stored one and
/// has the stored one's image.
#[verifier::external_body]
pub fn context_get(c: &Context, name: &String) -> (r: Option<Value>)
    ensures
        match r {
            Some(v) => ctx_model(*c).contains_key(name@) && value_view(v) == ctx_model(*c)[name@],
            None => !ctx_model(*c).contains_key(name@),
        },
{
    match c.inner.get(name) {
        Some(v) => Some(v.clone()),
        None => None,
    }
}

/// Relies on im::hashmap::HashMap::union_with: the union of the two
/// maps, deciding each collision with the given closure; the closure
/// here picks the value of `a`, so where a name is bound in both the
/// binding of `a` is kept.
#[verifier::external_body]
pub fn context_union(a: &Context, b: &Context) -> (r: Context)
    ensures
        ctx_model(r) == ctx_model(*b).union_prefer_right(ctx_model(*a)),
{
    Context { inner: a.inner.clone().union_with(b.inner.clone(), |kept, _| kept) }
}

impl Clone for Context {
    /// Relies on im::hashmap::HashMap::clone: a copy with the same
    /// contents, sharing structure with the original.
    #[verifier::external_body]
    fn clone(&self) -> (res: Self)
        ensures
            ctx_model(res) == ctx_model(*self),
    {
        Context { inner: self.inner.clone() }
    }
}

} // verus!
