use vstd::prelude::*;

use vstd::string::StringExecFns;

use crate::ast::{Location, Term, TermV, Var, VarV, term_view};
use crate::text::{int_str, int_text, render, render_v};
use crate::value::{Value, ValueV, value_view};

verus! {

/// Image of a parameter list.
pub open spec fn vars_view(s: Seq<Var>) -> Seq<VarV> {
    Seq::new(s.len(), |i: int| s[i]@)
}

/// Image of an argument list.
pub open spec fn terms_view(s: Seq<Term>) -> Seq<TermV> {
    Seq::new(
        s.len(),
        |i: int|
            if 0 <= i < s.len() {
                term_view(s[i])
            } else {
                arbitrary()
            },
    )
}

/// Decides whether two locations have the same content.
fn loc_eq(a: &Location, b: &Location) -> (r: bool)
    ensures
        r == (a@ == b@),
{
    let r = a.start == b.start && a.end == b.end && a.filename == b.filename;
    proof {
        if r {
            assert(a@ =~= b@);
        }
    }
    r
}

/// Decides whether two names have the same content.
fn var_eq(a: &Var, b: &Var) -> (r: bool)
    ensures
        r == (a@ == b@),
{
    let r = a.text == b.text && loc_eq(&a.location, &b.location);
    proof {
        if r {
            assert(a@ =~= b@);
        }
    }
    r
}

/// Decides whether two parameter lists have the same content.
#[verifier::loop_isolation(false)]
fn vars_eq(a: &Vec<Var>, b: &Vec<Var>) -> (r: bool)
    ensures
        r == (vars_view(a@) == vars_view(b@)),
{
    if a.len() != b.len() {
        proof {
            assert(vars_view(a@).len() != vars_view(b@).len());
        }
        return false;
    }
    let mut i: usize = 0;
    while i < a.len()
        invariant
            i <= a@.len(),
            forall|j: int| 0 <= j < i ==> a@[j]@ == b@[j]@,
        decreases a@.len() - i,
    {
        if !var_eq(&a[i], &b[i]) {
            proof {
                assert(vars_view(a@)[i as int] != vars_view(b@)[i as int]);
            }
            return false;
        }
        i = i + 1;
    }
    proof {
        assert(vars_view(a@) =~= vars_view(b@));
    }
    true
}

/// Decides whether two term trees have the same content, source
/// locations included.
#[verifier::loop_isolation(false)]
pub fn term_eq(a: &Term, b: &Term) -> (r: bool)
    ensures
        r == (a@ == b@),
    decreases a,
{
    match (a, b) {
        (Term::Int(x), Term::Int(y)) => {
            let r = x.value == y.value && loc_eq(&x.location, &y.location);
            proof {
                if r {
                    assert(a@ =~= b@);
                }
            }
            r
        },
        (Term::Str(x), Term::Str(y)) => {
            let r = x.value == y.value && loc_eq(&x.location, &y.location);
            proof {
                if r {
                    assert(a@ =~= b@);
                }
            }
            r
        },
        (Term::Bool(x), Term::Bool(y)) => {
            let r = x.value == y.value && loc_eq(&x.location, &y.location);
            proof {
                if r {
                    assert(a@ =~= b@);
                }
            }
            r
        },
        (Term::Var(x), Term::Var(y)) => {
            let r = var_eq(x, y);
            proof {
                if r {
                    assert(a@ =~= b@);
                }
            }
            r
        },
        (Term::Let(x), Term::Let(y)) => {
            let r = var_eq(&x.name, &y.name) && term_eq(&x.value, &y.value) && term_eq(
                &x.next,
                &y.next,
            ) && loc_eq(&x.location, &y.location);
            proof {
                if r {
                    assert(a@ =~= b@);
                }
            }
            r
        },
        (Term::Function(x), Term::Function(y)) => {
            let r = vars_eq(&x.parameters, &y.parameters) && term_eq(&x.value, &y.value) && loc_eq(
                &x.location,
                &y.location,
            );
            proof {
                if r {
                    assert(a@ =~= b@);
                } else {
                    assert(a@ != b@);
                }
            }
            r
        },
        (Term::Call(x), Term::Call(y)) => {
            if !(term_eq(&x.callee, &y.callee) && loc_eq(&x.location, &y.location)) {
                return false;
            }
            if x.arguments.len() != y.arguments.len() {
                proof {
                    assert(a@->Call_arguments.len() == x.arguments@.len());
                    assert(b@->Call_arguments.len() == y.arguments@.len());
                }
                return false;
            }
            let mut i: usize = 0;
            while i < x.arguments.len()
                invariant
                    i <= x.arguments@.len(),
                    forall|j: int|
                        0 <= j < i ==> term_view(x.arguments@[j]) == term_view(y.arguments@[j]),
                decreases x.arguments@.len() - i,
            {
                proof {
                    assert(decreases_to!(*a => x.arguments));
                    assert(decreases_to!(x.arguments => x.arguments@[i as int]));
                }
                if !term_eq(&x.arguments[i], &y.arguments[i]) {
                    proof {
                        assert(a@->Call_arguments[i as int] == term_view(x.arguments@[i as int]));
                        assert(b@->Call_arguments[i as int] == term_view(y.arguments@[i as int]));
                    }
                    return false;
                }
                i = i + 1;
            }
            proof {
                assert(a@->Call_arguments =~= b@->Call_arguments);
                assert(a@ =~= b@);
            }
            true
        },
        (Term::If(x), Term::If(y)) => {
            let r = term_eq(&x.condition, &y.condition) && term_eq(&x.then_branch, &y.then_branch)
                && term_eq(&x.otherwise, &y.otherwise) && loc_eq(&x.location, &y.location);
            proof {
                if r {
                    assert(a@ =~= b@);
                }
            }
            r
        },
        (Term::Binary(x), Term::Binary(y)) => {
            let r = x.op == y.op && term_eq(&x.lhs, &y.lhs) && term_eq(&x.rhs, &y.rhs) && loc_eq(
                &x.location,
                &y.location,
            );
            proof {
                if r {
                    assert(a@ =~= b@);
                }
            }
            r
        },
        (Term::Tuple(x), Term::Tuple(y)) => {
            let r = term_eq(&x.first, &y.first) && term_eq(&x.second, &y.second) && loc_eq(
                &x.location,
                &y.location,
            );
            proof {
                if r {
                    assert(a@ =~= b@);
                }
            }
            r
        },
        (Term::First(x), Term::First(y)) => {
            let r = term_eq(&x.value, &y.value) && loc_eq(&x.location, &y.location);
            proof {
                if r {
                    assert(a@ =~= b@);
                }
            }
            r
        },
        (Term::Second(x), Term::Second(y)) => {
            let r = term_eq(&x.value, &y.value) && loc_eq(&x.location, &y.location);
            proof {
                if r {
                    assert(a@ =~= b@);
                }
            }
            r
        },
        (Term::Print(x), Term::Print(y)) => {
            let r = term_eq(&x.value, &y.value) && loc_eq(&x.location, &y.location);
            proof {
                if r {
                    assert(a@ =~= b@);
                }
            }
            r
        },
        _ => false,
    }
}

/// The key component contributed by one argument value: the value's
/// kind together with its canonical text, or nothing for a closure,
/// which contributes no key. Two values contribute one component
/// exactly when kind and text agree; in particular every closure
/// inside a tuple renders as the fixed token `[closure]`, so tuples
/// that differ only in an enclosed closure share a component.
pub open spec fn value_key_v(v: ValueV) -> Option<Seq<char>> {
    match v {
        ValueV::Closure { .. } => None,
        ValueV::Int(n) => Some("Int("@ + int_str(n as int) + ")"@),
        ValueV::Str(s) => Some("Str("@ + s + ")"@),
        ValueV::Bool(b) => Some(
            "Bool("@ + (if b {
                "true"@
            } else {
                "false"@
            }) + ")"@,
        ),
        ValueV::Tuple(..) => Some("Tuple("@ + render_v(v) + ")"@),
    }
}

/// Computes the key component of one argument value.
pub fn value_key(v: &Value) -> (r: Option<String>)
    ensures
        match r {
            Some(s) => value_key_v(v@) == Some(s@),
            None => value_key_v(v@) is None,
        },
{
    match v {
        Value::Closure(_) => None,
        Value::Int(n) => {
            let mut s = String::from_str("Int(");
            let d = int_text(*n);
            s.append(d.as_str());
            s.append(")");
            Some(s)
        },
        Value::Str(t) => {
            let mut s = String::from_str("Str(");
            s.append(t.as_str());
            s.append(")");
            Some(s)
        },
        Value::Bool(b) => {
            let mut s = String::from_str("Bool(");
            s.append(if *b {
                "true"
            } else {
                "false"
            });
            s.append(")");
            Some(s)
        },
        Value::Tuple(_) => {
            let mut s = String::from_str("Tuple(");
            let d = render(v);
            s.append(d.as_str());
            s.append(")");
            Some(s)
        },
    }
}

/// A memoization key: the body of the called function, compared by
/// content, and the key components of the arguments in order. The
/// captured environment of the callee is deliberately not part of the
/// key.
pub struct CacheKey {
    pub body: Box<Term>,
    pub args: Vec<String>,
}

/// Mathematical image of a cache key.
#[verifier::ext_equal]
pub struct CacheKeyV {
    pub body: TermV,
    pub args: Seq<Seq<char>>,
}

impl View for CacheKey {
    type V = CacheKeyV;

    open spec fn view(&self) -> CacheKeyV {
        CacheKeyV {
            body: term_view(*self.body),
            args: Seq::new(self.args@.len(), |i: int| self.args@[i]@),
        }
    }
}

/// The key of a call, if it has one: built from the callee's body and
/// the argument values alone. A call with any closure argument has no
/// key and is never memoized.
pub open spec fn cache_key_v(body: TermV, args: Seq<ValueV>) -> Option<CacheKeyV> {
    if forall|i: int| 0 <= i < args.len() ==> value_key_v(#[trigger] args[i]) is Some {
        Some(
            CacheKeyV {
                body,
                args: Seq::new(
                    args.len(),
                    |i: int|
                        if 0 <= i < args.len() {
                            value_key_v(args[i])->0
                        } else {
                            arbitrary()
                        },
                ),
            },
        )
    } else {
        None
    }
}

/// Derives the memoization key of a call from the callee's body and
/// the evaluated arguments, or nothing when an argument is a closure.
#[verifier::loop_isolation(false)]
pub fn cache_key(body: &Term, arguments: &Vec<Value>) -> (r: Option<CacheKey>)
    ensures
        match r {
            Some(k) => cache_key_v(body@, values_view(arguments@)) == Some(k@),
            None => cache_key_v(body@, values_view(arguments@)) is None,
        },
{
    let mut parts: Vec<String> = Vec::new();
    let mut i: usize = 0;
    while i < arguments.len()
        invariant
            i <= arguments@.len(),
            parts@.len() == i as int,
            forall|j: int|
                0 <= j < i ==> value_key_v(value_view(arguments@[j])) == Some(parts@[j]@),
        decreases arguments@.len() - i,
    {
        match value_key(&arguments[i]) {
            Some(s) => {
                parts.push(s);
            },
            None => {
                proof {
                    assert(!(value_key_v(#[trigger] values_view(arguments@)[i as int]) is Some));
                }
                return None;
            },
        }
        i = i + 1;
    }
    let k = CacheKey { body: Box::new(body.clone()), args: parts };
    proof {
        let vs = values_view(arguments@);
        assert(forall|j: int| 0 <= j < vs.len() ==> value_key_v(#[trigger] vs[j]) is Some);
        assert(cache_key_v(body@, vs)->0 =~= k@);
    }
    Some(k)
}

/// Image of an argument list of values.
pub open spec fn values_view(s: Seq<Value>) -> Seq<ValueV> {
    Seq::new(
        s.len(),
        |i: int|
            if 0 <= i < s.len() {
                value_view(s[i])
            } else {
                arbitrary()
            },
    )
}

/// Decides whether two memoization keys are the same.
#[verifier::loop_isolation(false)]
pub fn key_eq(a: &CacheKey, b: &CacheKey) -> (r: bool)
    ensures
        r == (a@ == b@),
{
    if !term_eq(&a.body, &b.body) {
        return false;
    }
    if a.args.len() != b.args.len() {
        proof {
            assert(a@.args.len() != b@.args.len());
        }
        return false;
    }
    let mut i: usize = 0;
    while i < a.args.len()
        invariant
            i <= a.args@.len(),
            forall|j: int| 0 <= j < i ==> a.args@[j]@ == b.args@[j]@,
        decreases a.args@.len() - i,
    {
        if !(a.args[i] == b.args[i]) {
            proof {
                assert(a@.args[i as int] != b@.args[i as int]);
            }
            return false;
        }
        i = i + 1;
    }
    proof {
        assert(a@.args =~= b@.args);
        assert(a@ =~= b@);
    }
    true
}

/// The contents of a list of cache entries, later entries over
/// earlier ones.
pub open spec fn entries_model(s: Seq<(CacheKey, Value)>) -> Map<CacheKeyV, ValueV>
    decreases s.len(),
{
    if s.len() == 0 {
        Map::empty()
    } else {
        entries_model(s.drop_last()).insert(s.last().0@, value_view(s.last().1))
    }
}

/// The memoization cache: a mapping from call keys to the values the
/// calls returned. Entries are only ever added, never removed; when a
/// key is stored twice, the later entry wins.
pub struct Cache {
    entries: Vec<(CacheKey, Value)>,
}

impl Cache {
    /// The mathematical contents of the cache.
    pub closed spec fn model(&self) -> Map<CacheKeyV, ValueV> {
        entries_model(self.entries@)
    }

    /// An empty cache.
    pub fn new() -> (r: Cache)
        ensures
            r.model() == Map::<CacheKeyV, ValueV>::empty(),
    {
        Cache { entries: Vec::new() }
    }

    /// Looks a key up; returns a value with the image of the value
    /// stored under the key last, or nothing when the key was never
    /// stored.
    #[verifier::loop_isolation(false)]
    pub fn lookup(&self, key: &CacheKey) -> (r: Option<Value>)
        ensures
            match r {
                Some(v) => self.model().contains_key(key@) && value_view(v) == self.model()[key@],
                None => !self.model().contains_key(key@),
            },
    {
        let mut i: usize = self.entries.len();
        while i > 0
            invariant
                i <= self.entries@.len(),
                forall|j: int| i <= j < self.entries@.len() ==> (#[trigger] self.entries@[j]).0@ != key@,
            decreases i,
        {
            i = i - 1;
            if key_eq(&self.entries[i].0, key) {
                let v = self.entries[i].1.clone();
                proof {
                    lemma_entries_model_last_match(self.entries@, i as int, key@);
                }
                return Some(v);
            }
        }
        proof {
            lemma_entries_model_absent(self.entries@, key@);
        }
        None
    }

    /// Stores a value under a key; a later store of the same key
    /// replaces the earlier one in the contents.
    pub fn insert(&mut self, key: CacheKey, value: Value)
        ensures
            final(self).model() == old(self).model().insert(key@, value_view(value)),
    {
        proof {
            let ghost k = key@;
            let ghost v = value_view(value);
            assert(self.entries@.push((key, value)).drop_last() =~= self.entries@);
        }
        self.entries.push((key, value));
    }
}

/// The last entry of a list holding a key gives that key's value in
/// the list's contents.
proof fn lemma_entries_model_last_match(s: Seq<(CacheKey, Value)>, i: int, k: CacheKeyV)
    requires
        0 <= i < s.len(),
        s[i].0@ == k,
        forall|j: int| i < j < s.len() ==> (#[trigger] s[j]).0@ != k,
    ensures
        entries_model(s).contains_key(k),
        entries_model(s)[k] == value_view(s[i].1),
    decreases s.len(),
{
    if i == s.len() - 1 {
    } else {
        lemma_entries_model_last_match(s.drop_last(), i, k);
    }
}

/// A key on no entry of the list is not in its contents.
proof fn lemma_entries_model_absent(s: Seq<(CacheKey, Value)>, k: CacheKeyV)
    requires
        forall|j: int| 0 <= j < s.len() ==> (#[trigger] s[j]).0@ != k,
    ensures
        !entries_model(s).contains_key(k),
    decreases s.len(),
{
    if s.len() > 0 {
        lemma_entries_model_absent(s.drop_last(), k);
    }
}

/// The key of a call is built from the callee's body and the argument
/// values alone: two closures with the same body text get the same
/// key whatever their parameter lists name and whatever each captured
/// when it was created.
pub proof fn lemma_key_ignores_environment(
    params_a: Seq<VarV>,
    env_a: Map<Seq<char>, ValueV>,
    params_b: Seq<VarV>,
    env_b: Map<Seq<char>, ValueV>,
    body: TermV,
    args: Seq<ValueV>,
)
    ensures
        cache_key_v(
            (ValueV::Closure { parameters: params_a, body, env: env_a })->Closure_body,
            args,
        ) == cache_key_v(
            (ValueV::Closure { parameters: params_b, body, env: env_b })->Closure_body,
            args,
        ),
{
}

/// What was stored under a key is exactly what a later lookup of that
/// key finds: a memoized call's second run returns the stored value.
pub proof fn lemma_store_then_lookup(m: Map<CacheKeyV, ValueV>, k: CacheKeyV, v: ValueV)
    ensures
        m.insert(k, v).contains_key(k),
        m.insert(k, v)[k] == v,
{
}

} // verus!
