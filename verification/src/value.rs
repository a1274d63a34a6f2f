use vstd::prelude::*;

use crate::ast::{Location, LocationV, Term, TermV, Var, VarV, term_view};
use crate::context::{Context, ctx_model};
use crate::ast::BinaryOp;
use crate::text::{render, render_v, seq_lt, str_lt};
use vstd::string::StringExecFns;

verus! {

/// A function value: the parameters and body of the literal it came
/// from, together with the context captured at its creation.
pub struct Closure {
    pub parameters: Vec<Var>,
    pub body: Box<Term>,
    pub context: Context,
}

/// A pair of runtime values.
pub struct Tuple {
    pub first: Box<Value>,
    pub second: Box<Value>,
}

/// A runtime value produced by evaluation.
pub enum Value {
    Closure(Closure),
    Int(i64),
    Str(String),
    Bool(bool),
    Tuple(Tuple),
}

/// Mathematical image of a runtime value. A closure is represented by
/// the images of its parameters and body and by the contents of its
/// captured context.
#[verifier::ext_equal]
pub enum ValueV {
    Closure { parameters: Seq<VarV>, body: TermV, env: Map<Seq<char>, ValueV> },
    Int(i64),
    Str(Seq<char>),
    Bool(bool),
    Tuple(Box<ValueV>, Box<ValueV>),
}

/// Mathematical image of a runtime value.
pub open spec fn value_view(v: Value) -> ValueV
    decreases v,
{
    match v {
        Value::Closure(c) => ValueV::Closure {
            parameters: Seq::new(c.parameters@.len(), |i: int| c.parameters@[i]@),
            body: term_view(*c.body),
            env: ctx_model(c.context),
        },
        Value::Int(n) => ValueV::Int(n),
        Value::Str(s) => ValueV::Str(s@),
        Value::Bool(b) => ValueV::Bool(b),
        Value::Tuple(t) => ValueV::Tuple(
            Box::new(value_view(*t.first)),
            Box::new(value_view(*t.second)),
        ),
    }
}

impl View for Value {
    type V = ValueV;

    open spec fn view(&self) -> ValueV {
        value_view(*self)
    }
}

/// A failed evaluation: a stable category, a human-readable detail,
/// and where in the source it happened.
pub struct RuntimeError {
    pub message: String,
    pub full_text: String,
    pub location: Location,
}

/// Mathematical image of a `RuntimeError`.
#[verifier::ext_equal]
pub struct RuntimeErrorV {
    pub message: Seq<char>,
    pub full_text: Seq<char>,
    pub location: LocationV,
}

impl View for RuntimeError {
    type V = RuntimeErrorV;

    open spec fn view(&self) -> RuntimeErrorV {
        RuntimeErrorV {
            message: self.message@,
            full_text: self.full_text@,
            location: self.location@,
        }
    }
}

/// Image of a whole evaluation outcome.
pub open spec fn outcome_view(r: Result<Value, RuntimeError>) -> Result<ValueV, RuntimeErrorV> {
    match r {
        Ok(v) => Ok(value_view(v)),
        Err(e) => Err(e@),
    }
}

impl Clone for Location {
    fn clone(&self) -> (res: Self)
        ensures
            res == *self,
    {
        Location { start: self.start, end: self.end, filename: self.filename.clone() }
    }
}

impl Clone for Var {
    fn clone(&self) -> (res: Self)
        ensures
            res == *self,
    {
        Var { text: self.text.clone(), location: self.location.clone() }
    }
}

/// Duplicates a parameter list; the copy has the same image.
fn clone_vars(vars: &Vec<Var>) -> (res: Vec<Var>)
    ensures
        res@ == vars@,
{
    let mut out: Vec<Var> = Vec::new();
    let mut i: usize = 0;
    while i < vars.len()
        invariant
            i <= vars@.len(),
            out@.len() == i as int,
            forall|j: int| 0 <= j < i ==> out@[j] == vars@[j],
        decreases vars@.len() - i,
    {
        out.push(vars[i].clone());
        i = i + 1;
    }
    proof {
        assert(out@ =~= vars@);
    }
    out
}

impl Clone for Term {
    #[verifier::loop_isolation(false)]
    fn clone(&self) -> (res: Self)
        ensures
            res@ == self@,
        decreases self,
    {
        match self {
            Term::Int(n) => Term::Int(
                crate::ast::Int { value: n.value, location: n.location.clone() },
            ),
            Term::Str(s) => Term::Str(
                crate::ast::Str { value: s.value.clone(), location: s.location.clone() },
            ),
            Term::Bool(b) => Term::Bool(
                crate::ast::Bool { value: b.value, location: b.location.clone() },
            ),
            Term::Var(v) => Term::Var(v.clone()),
            Term::Let(l) => Term::Let(
                crate::ast::Let {
                    name: l.name.clone(),
                    value: Box::new((*l.value).clone()),
                    next: Box::new((*l.next).clone()),
                    location: l.location.clone(),
                },
            ),
            Term::Function(f) => {
                let res = Term::Function(
                    crate::ast::Function {
                        parameters: clone_vars(&f.parameters),
                        value: Box::new((*f.value).clone()),
                        location: f.location.clone(),
                    },
                );
                proof {
                    assert(res@ =~~= self@);
                }
                res
            },
            Term::Call(c) => {
                let mut args: Vec<Term> = Vec::new();
                let mut i: usize = 0;
                while i < c.arguments.len()
                    invariant
                        i <= c.arguments@.len(),
                        args@.len() == i as int,
                        forall|j: int| 0 <= j < i ==> term_view(args@[j]) == term_view(c.arguments@[j]),
                    decreases c.arguments@.len() - i,
                {
                    proof {
                        assert(decreases_to!(*self => c.arguments));
                        assert(decreases_to!(c.arguments => c.arguments@[i as int]));
                    }
                    args.push(c.arguments[i].clone());
                    i = i + 1;
                }
                let res = Term::Call(
                    crate::ast::Call {
                        callee: Box::new((*c.callee).clone()),
                        arguments: args,
                        location: c.location.clone(),
                    },
                );
                proof {
                    assert(term_view(res)->Call_arguments =~~= term_view(*self)->Call_arguments);
                    assert(res@ =~~= self@);
                }
                res
            },
            Term::If(i) => Term::If(
                crate::ast::If {
                    condition: Box::new((*i.condition).clone()),
                    then_branch: Box::new((*i.then_branch).clone()),
                    otherwise: Box::new((*i.otherwise).clone()),
                    location: i.location.clone(),
                },
            ),
            Term::Binary(b) => Term::Binary(
                crate::ast::Binary {
                    lhs: Box::new((*b.lhs).clone()),
                    op: b.op,
                    rhs: Box::new((*b.rhs).clone()),
                    location: b.location.clone(),
                },
            ),
            Term::Tuple(t) => Term::Tuple(
                crate::ast::Tuple {
                    first: Box::new((*t.first).clone()),
                    second: Box::new((*t.second).clone()),
                    location: t.location.clone(),
                },
            ),
            Term::First(f) => Term::First(
                crate::ast::First { value: Box::new((*f.value).clone()), location: f.location.clone() },
            ),
            Term::Second(s) => Term::Second(
                crate::ast::Second { value: Box::new((*s.value).clone()), location: s.location.clone() },
            ),
            Term::Print(p) => Term::Print(
                crate::ast::Print { value: Box::new((*p.value).clone()), location: p.location.clone() },
            ),
        }
    }
}

impl Clone for Value {
    fn clone(&self) -> (res: Self)
        ensures
            res@ == self@,
        decreases self,
    {
        match self {
            Value::Closure(c) => {
                let res = Value::Closure(
                    Closure {
                        parameters: clone_vars(&c.parameters),
                        body: Box::new((*c.body).clone()),
                        context: c.context.clone(),
                    },
                );
                proof {
                    assert(res@ =~~= self@);
                }
                res
            },
            Value::Int(n) => Value::Int(*n),
            Value::Str(s) => Value::Str(s.clone()),
            Value::Bool(b) => Value::Bool(*b),
            Value::Tuple(t) => Value::Tuple(
                Tuple {
                    first: Box::new((*t.first).clone()),
                    second: Box::new((*t.second).clone()),
                },
            ),
        }
    }
}

/// Whether the comparison operators are defined on this pair of
/// operands: both integers, both strings, or both booleans.
pub open spec fn cmp_defined(a: ValueV, b: ValueV) -> bool {
    ||| (a is Int && b is Int)
    ||| (a is Str && b is Str)
    ||| (a is Bool && b is Bool)
}

/// The boolean outcome of a comparison operator on a pair of operands
/// of one kind. Strings are ordered lexicographically by code point;
/// booleans with `false` below `true`.
pub open spec fn compare_v(op: BinaryOp, a: ValueV, b: ValueV) -> bool {
    match (a, b) {
        (ValueV::Bool(x), ValueV::Bool(y)) => match op {
            BinaryOp::Eq => x == y,
            BinaryOp::Neq => x != y,
            BinaryOp::Lt => !x && y,
            BinaryOp::Lte => !x || y,
            BinaryOp::Gt => x && !y,
            BinaryOp::Gte => x || !y,
            _ => arbitrary(),
        },
        (ValueV::Str(x), ValueV::Str(y)) => match op {
            BinaryOp::Eq => x == y,
            BinaryOp::Neq => x != y,
            BinaryOp::Lt => seq_lt(x, y),
            BinaryOp::Lte => seq_lt(x, y) || x == y,
            BinaryOp::Gt => seq_lt(y, x),
            BinaryOp::Gte => seq_lt(y, x) || x == y,
            _ => arbitrary(),
        },
        (ValueV::Int(x), ValueV::Int(y)) => match op {
            BinaryOp::Eq => x == y,
            BinaryOp::Neq => x != y,
            BinaryOp::Lt => x < y,
            BinaryOp::Lte => x <= y,
            BinaryOp::Gt => x > y,
            BinaryOp::Gte => x >= y,
            _ => arbitrary(),
        },
        _ => arbitrary(),
    }
}

/// The error raised by a comparison of operands of two kinds, or of
/// closures or tuples.
pub open spec fn invalid_comparison_v(a: ValueV, b: ValueV, loc: LocationV) -> RuntimeErrorV {
    RuntimeErrorV {
        message: "invalid comparison"@,
        full_text: render_v(a) + " and "@ + render_v(b) + " cannot be compared"@,
        location: loc,
    }
}

/// Outcome of a comparison operator.
pub open spec fn compare_outcome_v(op: BinaryOp, a: ValueV, b: ValueV, loc: LocationV) -> Result<
    ValueV,
    RuntimeErrorV,
> {
    if cmp_defined(a, b) {
        Ok(ValueV::Bool(compare_v(op, a, b)))
    } else {
        Err(invalid_comparison_v(a, b, loc))
    }
}

/// Outcome of a logic operator: defined on two booleans only. Both
/// operands are already evaluated when it is applied, so only the
/// operator itself is boolean and/or.
pub open spec fn logic_outcome_v(op: BinaryOp, a: ValueV, b: ValueV, loc: LocationV) -> Result<
    ValueV,
    RuntimeErrorV,
> {
    match (a, b) {
        (ValueV::Bool(x), ValueV::Bool(y)) => Ok(
            ValueV::Bool(if op is And {
                x && y
            } else {
                x || y
            }),
        ),
        _ => Err(
            RuntimeErrorV {
                message: "invalid binary operation"@,
                full_text: "only booleans can be used on short-circuit operations"@,
                location: loc,
            },
        ),
    }
}

/// The detail text of a failed arithmetic operator, chosen by the
/// kinds of the operands.
pub open spec fn numeric_text(op: BinaryOp, a: ValueV, b: ValueV) -> Seq<char> {
    match (a, b) {
        (ValueV::Str(_), ValueV::Str(_)) => match op {
            BinaryOp::Add => "strings cannot be added"@,
            BinaryOp::Sub => "strings cannot be subtracted"@,
            BinaryOp::Mul => "strings cannot be multiplied"@,
            BinaryOp::Div => "strings cannot be divided"@,
            BinaryOp::Rem => "strings cannot be used with rem"@,
            _ => arbitrary(),
        },
        (ValueV::Bool(_), ValueV::Bool(_)) => match op {
            BinaryOp::Add => "booleans cannot be added"@,
            BinaryOp::Sub => "booleans cannot be subtracted"@,
            BinaryOp::Mul => "booleans cannot be multiplied"@,
            BinaryOp::Div => "booleans cannot be divided"@,
            BinaryOp::Rem => "booleans cannot be used with rem"@,
            _ => arbitrary(),
        },
        (ValueV::Closure { .. }, ValueV::Closure { .. }) => match op {
            BinaryOp::Add => "closures cannot be added"@,
            BinaryOp::Sub => "closures cannot be subtracted"@,
            BinaryOp::Mul => "closures cannot be multiplied"@,
            BinaryOp::Div => "closures cannot be divided"@,
            BinaryOp::Rem => "closures cannot be used with rem"@,
            _ => arbitrary(),
        },
        _ => "different types cannot be used on the same operation"@,
    }
}

/// An arithmetic error with the fixed category.
pub open spec fn numeric_error_v(text: Seq<char>, loc: LocationV) -> RuntimeErrorV {
    RuntimeErrorV { message: "invalid numeric operation"@, full_text: text, location: loc }
}

/// Outcome of an arithmetic operator on two operands. On two
/// integers, `+` is the wrapping sum, `-` the wrapping difference,
/// `*` is defined as the wrapping difference and `%` as the quotient:
/// deliberate quirks of this operator table. A zero divisor, or the
/// one quotient that does not fit in 64 bits, is an error rather than
/// a value.
pub open spec fn arith_outcome_v(op: BinaryOp, a: ValueV, b: ValueV, loc: LocationV) -> Result<
    ValueV,
    RuntimeErrorV,
> {
    match (a, b) {
        (ValueV::Int(x), ValueV::Int(y)) => match op {
            BinaryOp::Add => Ok(ValueV::Int(x.wrapping_add(y))),
            BinaryOp::Sub => Ok(ValueV::Int(x.wrapping_sub(y))),
            BinaryOp::Mul => Ok(ValueV::Int(x.wrapping_sub(y))),
            BinaryOp::Div | BinaryOp::Rem => match x.checked_div(y) {
                Some(q) => Ok(ValueV::Int(q)),
                None => Err(
                    numeric_error_v(
                        if y == 0 {
                            "cannot divide by zero"@
                        } else {
                            "the quotient cannot be represented"@
                        },
                        loc,
                    ),
                ),
            },
            _ => arbitrary(),
        },
        _ => Err(numeric_error_v(numeric_text(op, a, b), loc)),
    }
}

/// Outcome of one binary operator on two already-evaluated operands.
pub open spec fn eval_binary_v(op: BinaryOp, a: ValueV, b: ValueV, loc: LocationV) -> Result<
    ValueV,
    RuntimeErrorV,
> {
    match op {
        BinaryOp::Eq
        | BinaryOp::Neq
        | BinaryOp::Lt
        | BinaryOp::Lte
        | BinaryOp::Gt
        | BinaryOp::Gte => compare_outcome_v(op, a, b, loc),
        BinaryOp::And | BinaryOp::Or => logic_outcome_v(op, a, b, loc),
        BinaryOp::Add
        | BinaryOp::Sub
        | BinaryOp::Mul
        | BinaryOp::Div
        | BinaryOp::Rem => arith_outcome_v(op, a, b, loc),
    }
}

/// Builds the error for a comparison of incomparable operands,
/// naming both operand values in the detail text.
fn invalid_comparison(l_value: &Value, r_value: &Value, location: &Location) -> (e: RuntimeError)
    ensures
        e@ == invalid_comparison_v(l_value@, r_value@, location@),
{
    let mut text = render(l_value);
    text.append(" and ");
    let right = render(r_value);
    text.append(right.as_str());
    text.append(" cannot be compared");
    RuntimeError {
        message: String::from_str("invalid comparison"),
        full_text: text,
        location: location.clone(),
    }
}

/// Builds an arithmetic type error with the given detail text.
fn numeric_error(text: &str, location: &Location) -> (e: RuntimeError)
    ensures
        e@ == numeric_error_v(text@, location@),
{
    RuntimeError {
        message: String::from_str("invalid numeric operation"),
        full_text: String::from_str(text),
        location: location.clone(),
    }
}

/// Builds the error for a logic operator on non-boolean operands.
fn logic_error(location: &Location) -> (e: RuntimeError)
    ensures
        e@ == (RuntimeErrorV {
            message: "invalid binary operation"@,
            full_text: "only booleans can be used on short-circuit operations"@,
            location: location@,
        }),
{
    RuntimeError {
        message: String::from_str("invalid binary operation"),
        full_text: String::from_str("only booleans can be used on short-circuit operations"),
        location: location.clone(),
    }
}

impl Value {
    /// The `=` operator.
    pub fn eq(&self, value: &Value, location: &Location) -> (r: Result<Value, RuntimeError>)
        ensures
            outcome_view(r) == eval_binary_v(BinaryOp::Eq, self@, value@, location@),
    {
        match (self, value) {
            (Value::Bool(l_bool), Value::Bool(r_bool)) => Ok(Value::Bool(*l_bool == *r_bool)),
            (Value::Str(l_str), Value::Str(r_str)) => Ok(Value::Bool(*l_str == *r_str)),
            (Value::Int(l_int), Value::Int(r_int)) => Ok(Value::Bool(*l_int == *r_int)),
            _ => Err(invalid_comparison(self, value, location)),
        }
    }

    /// The `!=` operator.
    pub fn neq(&self, value: &Value, location: &Location) -> (r: Result<Value, RuntimeError>)
        ensures
            outcome_view(r) == eval_binary_v(BinaryOp::Neq, self@, value@, location@),
    {
        match (self, value) {
            (Value::Bool(l_bool), Value::Bool(r_bool)) => Ok(Value::Bool(*l_bool != *r_bool)),
            (Value::Str(l_str), Value::Str(r_str)) => Ok(Value::Bool(!(*l_str == *r_str))),
            (Value::Int(l_int), Value::Int(r_int)) => Ok(Value::Bool(*l_int != *r_int)),
            _ => Err(invalid_comparison(self, value, location)),
        }
    }

    /// The `<` operator.
    pub fn lt(&self, value: &Value, location: &Location) -> (r: Result<Value, RuntimeError>)
        ensures
            outcome_view(r) == eval_binary_v(BinaryOp::Lt, self@, value@, location@),
    {
        match (self, value) {
            (Value::Bool(l_bool), Value::Bool(r_bool)) => Ok(Value::Bool(!*l_bool && *r_bool)),
            (Value::Str(l_str), Value::Str(r_str)) => Ok(Value::Bool(str_lt(l_str, r_str))),
            (Value::Int(l_int), Value::Int(r_int)) => Ok(Value::Bool(*l_int < *r_int)),
            _ => Err(invalid_comparison(self, value, location)),
        }
    }

    /// The `<=` operator.
    pub fn lte(&self, value: &Value, location: &Location) -> (r: Result<Value, RuntimeError>)
        ensures
            outcome_view(r) == eval_binary_v(BinaryOp::Lte, self@, value@, location@),
    {
        match (self, value) {
            (Value::Bool(l_bool), Value::Bool(r_bool)) => Ok(Value::Bool(!*l_bool || *r_bool)),
            (Value::Str(l_str), Value::Str(r_str)) => Ok(
                Value::Bool(str_lt(l_str, r_str) || *l_str == *r_str),
            ),
            (Value::Int(l_int), Value::Int(r_int)) => Ok(Value::Bool(*l_int <= *r_int)),
            _ => Err(invalid_comparison(self, value, location)),
        }
    }

    /// The `>` operator.
    pub fn gt(&self, value: &Value, location: &Location) -> (r: Result<Value, RuntimeError>)
        ensures
            outcome_view(r) == eval_binary_v(BinaryOp::Gt, self@, value@, location@),
    {
        match (self, value) {
            (Value::Bool(l_bool), Value::Bool(r_bool)) => Ok(Value::Bool(*l_bool && !*r_bool)),
            (Value::Str(l_str), Value::Str(r_str)) => Ok(Value::Bool(str_lt(r_str, l_str))),
            (Value::Int(l_int), Value::Int(r_int)) => Ok(Value::Bool(*l_int > *r_int)),
            _ => Err(invalid_comparison(self, value, location)),
        }
    }

    /// The `>=` operator.
    pub fn gte(&self, value: &Value, location: &Location) -> (r: Result<Value, RuntimeError>)
        ensures
            outcome_view(r) == eval_binary_v(BinaryOp::Gte, self@, value@, location@),
    {
        match (self, value) {
            (Value::Bool(l_bool), Value::Bool(r_bool)) => Ok(Value::Bool(*l_bool || !*r_bool)),
            (Value::Str(l_str), Value::Str(r_str)) => Ok(
                Value::Bool(str_lt(r_str, l_str) || *l_str == *r_str),
            ),
            (Value::Int(l_int), Value::Int(r_int)) => Ok(Value::Bool(*l_int >= *r_int)),
            _ => Err(invalid_comparison(self, value, location)),
        }
    }

    /// The `&&` operator; both operands were evaluated before it runs.
    pub fn and(&self, value: &Value, location: &Location) -> (r: Result<Value, RuntimeError>)
        ensures
            outcome_view(r) == eval_binary_v(BinaryOp::And, self@, value@, location@),
    {
        match (self, value) {
            (Value::Bool(l_bool), Value::Bool(r_bool)) => Ok(Value::Bool(*l_bool && *r_bool)),
            _ => Err(logic_error(location)),
        }
    }

    /// The `||` operator; both operands were evaluated before it runs.
    pub fn or(&self, value: &Value, location: &Location) -> (r: Result<Value, RuntimeError>)
        ensures
            outcome_view(r) == eval_binary_v(BinaryOp::Or, self@, value@, location@),
    {
        match (self, value) {
            (Value::Bool(l_bool), Value::Bool(r_bool)) => Ok(Value::Bool(*l_bool || *r_bool)),
            _ => Err(logic_error(location)),
        }
    }

    /// The `+` operator: the wrapping sum of two integers.
    pub fn add(&self, value: &Value, location: &Location) -> (r: Result<Value, RuntimeError>)
        ensures
            outcome_view(r) == eval_binary_v(BinaryOp::Add, self@, value@, location@),
    {
        match (self, value) {
            (Value::Int(l_int), Value::Int(r_int)) => Ok(Value::Int(l_int.wrapping_add(*r_int))),
            (Value::Str(_), Value::Str(_)) => Err(
                numeric_error("strings cannot be added", location),
            ),
            (Value::Bool(_), Value::Bool(_)) => Err(
                numeric_error("booleans cannot be added", location),
            ),
            (Value::Closure(_), Value::Closure(_)) => Err(
                numeric_error("closures cannot be added", location),
            ),
            _ => Err(numeric_error("different types cannot be used on the same operation", location)),
        }
    }

    /// The `-` operator: the wrapping difference of two integers.
    pub fn sub(&self, value: &Value, location: &Location) -> (r: Result<Value, RuntimeError>)
        ensures
            outcome_view(r) == eval_binary_v(BinaryOp::Sub, self@, value@, location@),
    {
        match (self, value) {
            (Value::Int(l_int), Value::Int(r_int)) => Ok(Value::Int(l_int.wrapping_sub(*r_int))),
            (Value::Str(_), Value::Str(_)) => Err(
                numeric_error("strings cannot be subtracted", location),
            ),
            (Value::Bool(_), Value::Bool(_)) => Err(
                numeric_error("booleans cannot be subtracted", location),
            ),
            (Value::Closure(_), Value::Closure(_)) => Err(
                numeric_error("closures cannot be subtracted", location),
            ),
            _ => Err(numeric_error("different types cannot be used on the same operation", location)),
        }
    }

    /// The `*` operator. By design of this operator table it returns
    /// the wrapping difference of its two integer operands, the same
    /// value as `-`.
    pub fn mul(&self, value: &Value, location: &Location) -> (r: Result<Value, RuntimeError>)
        ensures
            outcome_view(r) == eval_binary_v(BinaryOp::Mul, self@, value@, location@),
    {
        match (self, value) {
            (Value::Int(l_int), Value::Int(r_int)) => Ok(Value::Int(l_int.wrapping_sub(*r_int))),
            (Value::Str(_), Value::Str(_)) => Err(
                numeric_error("strings cannot be multiplied", location),
            ),
            (Value::Bool(_), Value::Bool(_)) => Err(
                numeric_error("booleans cannot be multiplied", location),
            ),
            (Value::Closure(_), Value::Closure(_)) => Err(
                numeric_error("closures cannot be multiplied", location),
            ),
            _ => Err(numeric_error("different types cannot be used on the same operation", location)),
        }
    }

    /// The `/` operator: the truncated quotient of two integers. A
    /// zero divisor, or the one quotient that does not fit in 64
    /// bits, is reported as an error.
    pub fn div(&self, value: &Value, location: &Location) -> (r: Result<Value, RuntimeError>)
        ensures
            outcome_view(r) == eval_binary_v(BinaryOp::Div, self@, value@, location@),
    {
        match (self, value) {
            (Value::Int(l_int), Value::Int(r_int)) => match l_int.checked_div(*r_int) {
                Some(q) => Ok(Value::Int(q)),
                None => Err(
                    numeric_error(
                        if *r_int == 0 {
                            "cannot divide by zero"
                        } else {
                            "the quotient cannot be represented"
                        },
                        location,
                    ),
                ),
            },
            (Value::Str(_), Value::Str(_)) => Err(
                numeric_error("strings cannot be divided", location),
            ),
            (Value::Bool(_), Value::Bool(_)) => Err(
                numeric_error("booleans cannot be divided", location),
            ),
            (Value::Closure(_), Value::Closure(_)) => Err(
                numeric_error("closures cannot be divided", location),
            ),
            _ => Err(numeric_error("different types cannot be used on the same operation", location)),
        }
    }

    /// The `%` operator. By design of this operator table it returns
    /// the truncated quotient of its two integer operands, the same
    /// value as `/`.
    pub fn rem(&self, value: &Value, location: &Location) -> (r: Result<Value, RuntimeError>)
        ensures
            outcome_view(r) == eval_binary_v(BinaryOp::Rem, self@, value@, location@),
    {
        match (self, value) {
            (Value::Int(l_int), Value::Int(r_int)) => match l_int.checked_div(*r_int) {
                Some(q) => Ok(Value::Int(q)),
                None => Err(
                    numeric_error(
                        if *r_int == 0 {
                            "cannot divide by zero"
                        } else {
                            "the quotient cannot be represented"
                        },
                        location,
                    ),
                ),
            },
            (Value::Str(_), Value::Str(_)) => Err(
                numeric_error("strings cannot be used with rem", location),
            ),
            (Value::Bool(_), Value::Bool(_)) => Err(
                numeric_error("booleans cannot be used with rem", location),
            ),
            (Value::Closure(_), Value::Closure(_)) => Err(
                numeric_error("closures cannot be used with rem", location),
            ),
            _ => Err(numeric_error("different types cannot be used on the same operation", location)),
        }
    }
}

/// On two integers, `+` always succeeds and returns the wrapping sum,
/// and `-` the wrapping difference; whenever the exact sum or
/// difference fits in 64 bits, that exact value is returned.
pub proof fn lemma_int_add_sub(a: i64, b: i64, loc: LocationV)
    ensures
        eval_binary_v(BinaryOp::Add, ValueV::Int(a), ValueV::Int(b), loc) == Ok::<
            ValueV,
            RuntimeErrorV,
        >(ValueV::Int(a.wrapping_add(b))),
        eval_binary_v(BinaryOp::Sub, ValueV::Int(a), ValueV::Int(b), loc) == Ok::<
            ValueV,
            RuntimeErrorV,
        >(ValueV::Int(a.wrapping_sub(b))),
        i64::MIN <= a + b <= i64::MAX ==> a.wrapping_add(b) == a + b,
        i64::MIN <= a - b <= i64::MAX ==> a.wrapping_sub(b) == a - b,
{
}

/// Pins the deliberate quirks of the operator table: on two integers,
/// `*` returns the wrapping difference (the same value as `-`), and
/// `%` returns the truncated quotient (the same value as `/`).
pub proof fn lemma_int_mul_rem(a: i64, b: i64, loc: LocationV)
    ensures
        eval_binary_v(BinaryOp::Mul, ValueV::Int(a), ValueV::Int(b), loc) == Ok::<
            ValueV,
            RuntimeErrorV,
        >(ValueV::Int(a.wrapping_sub(b))),
        eval_binary_v(BinaryOp::Mul, ValueV::Int(a), ValueV::Int(b), loc) == eval_binary_v(
            BinaryOp::Sub,
            ValueV::Int(a),
            ValueV::Int(b),
            loc,
        ),
        eval_binary_v(BinaryOp::Rem, ValueV::Int(a), ValueV::Int(b), loc) == eval_binary_v(
            BinaryOp::Div,
            ValueV::Int(a),
            ValueV::Int(b),
            loc,
        ),
{
}

/// A scalar value compared with itself: `=` returns true and `!=`
/// returns false, for every integer, string or boolean value.
pub proof fn lemma_eq_reflexive(v: ValueV, loc: LocationV)
    requires
        v is Int || v is Str || v is Bool,
    ensures
        eval_binary_v(BinaryOp::Eq, v, v, loc) == Ok::<ValueV, RuntimeErrorV>(ValueV::Bool(true)),
        eval_binary_v(BinaryOp::Neq, v, v, loc) == Ok::<ValueV, RuntimeErrorV>(
            ValueV::Bool(false),
        ),
{
}

/// A comparison of operands on which it is not defined, two kinds
/// mixed or a closure or tuple operand, always fails with the
/// category `invalid comparison`.
pub proof fn lemma_cross_kind_comparison_fails(op: BinaryOp, a: ValueV, b: ValueV, loc: LocationV)
    requires
        op is Eq || op is Neq || op is Lt || op is Lte || op is Gt || op is Gte,
        !cmp_defined(a, b),
    ensures
        eval_binary_v(op, a, b, loc) == Err::<ValueV, RuntimeErrorV>(
            invalid_comparison_v(a, b, loc),
        ),
        invalid_comparison_v(a, b, loc).message == "invalid comparison"@,
{
}

} // verus!
