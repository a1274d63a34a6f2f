use std::io::Write;
use vstd::prelude::*;

use vstd::string::StringExecFns;

use crate::ast::{
    Binary, BinaryOp, Call, File, First, Function, If, Let, Location, LocationV, Print, Second,
    Term, TermV, Var, VarV, term_view,
};
use crate::cache::{Cache, CacheKey, CacheKeyV, cache_key, cache_key_v, terms_view, values_view, vars_view};
use crate::context::{Context, context_extend, context_get, context_new, context_union, ctx_model};
use crate::semantics::{
    ConfigV, FrameV, StepV, apply_step_v, dispatch_v, finish_call_v, halted, lemma_finish_cur_blind,
    lemma_halt_is_final, pending_step_v, rev_terms_v, run_v, step_v,
};
use crate::text::{dec_digits, render, render_v};
use crate::value::{Closure, RuntimeError, RuntimeErrorV, Tuple, Value, ValueV, value_view,
    outcome_view, eval_binary_v};

verus! {

/// Whether calls of a function with this body may be memoized. The
/// test is deliberately shallow: it unwraps nested function literals
/// and asks only whether the innermost body is itself a print node;
/// a print buried under a binding, branch, call, operator or tuple is
/// not seen, and such a body counts as pure.
pub open spec fn is_pure_v(t: TermV) -> bool
    decreases t,
{
    match t {
        TermV::Function { value, .. } => is_pure_v(*value),
        TermV::Print { .. } => false,
        _ => true,
    }
}

/// Decides whether a function body counts as pure.
pub fn is_pure(term: &Term) -> (r: bool)
    ensures
        r == is_pure_v(term@),
    decreases term,
{
    match term {
        Term::Function(function) => is_pure(&function.value),
        Term::Print(_) => false,
        _ => true,
    }
}

/// The purity test never looks inside a body that is not itself a
/// function literal or a print node: whatever such a body contains,
/// it counts as pure.
pub proof fn lemma_purity_is_shallow(t: TermV)
    requires
        !(t is Function),
        !(t is Print),
    ensures
        is_pure_v(t),
{
}

/// Binds parameters to arguments pairwise, left to right, until one
/// list runs out; a later binding of a repeated name wins.
pub open spec fn bind_params(
    env: Map<Seq<char>, ValueV>,
    params: Seq<VarV>,
    args: Seq<ValueV>,
) -> Map<Seq<char>, ValueV>
    decreases params.len(),
{
    if params.len() == 0 || args.len() == 0 {
        env
    } else {
        bind_params(env.insert(params[0].text, args[0]), params.skip(1), args.skip(1))
    }
}

/// The error for a call whose argument count differs from the
/// parameter count: the counts in the text are those left over after
/// the pairwise binding.
pub open spec fn arity_error_v(np: nat, na: nat, loc: LocationV) -> RuntimeErrorV {
    RuntimeErrorV {
        message: "invalid arguments"@,
        full_text: "expecting "@ + dec_digits(if np > na {
            (np - na) as nat
        } else {
            0
        }) + " arguments but got "@ + dec_digits(if na > np {
            (na - np) as nat
        } else {
            0
        }),
        location: loc,
    }
}

/// Outcome of assembling a call's environment: the bindings added to
/// the base environment when the counts agree, the arity error when
/// they do not.
pub open spec fn update_context_v(
    env: Map<Seq<char>, ValueV>,
    params: Seq<VarV>,
    args: Seq<ValueV>,
    loc: LocationV,
) -> Result<Map<Seq<char>, ValueV>, RuntimeErrorV> {
    if params.len() == args.len() {
        Ok(bind_params(env, params, args))
    } else {
        Err(arity_error_v(params.len(), args.len(), loc))
    }
}

/// Extends a call's base context with one binding per parameter, in
/// parameter order; fails with `invalid arguments` when the counts
/// differ.
#[verifier::loop_isolation(false)]
fn update_context(
    parameters: &Vec<Var>,
    arguments: &Vec<Value>,
    acc: Context,
    location: Location,
) -> (r: Result<Context, RuntimeError>)
    ensures
        match r {
            Ok(c) => ctx_model(c) == update_context_v(
                ctx_model(acc),
                vars_view(parameters@),
                values_view(arguments@),
                location@,
            )->Ok_0,
            Err(e) => e@ == update_context_v(
                ctx_model(acc),
                vars_view(parameters@),
                values_view(arguments@),
                location@,
            )->Err_0,
        },
        r is Ok <==> parameters@.len() == arguments@.len(),
{
    let ghost ps = vars_view(parameters@);
    let ghost vs = values_view(arguments@);
    let short: usize = if parameters.len() < arguments.len() {
        parameters.len()
    } else {
        arguments.len()
    };
    let mut cur = acc;
    let mut i: usize = 0;
    proof {
        assert(ps.skip(0) =~= ps);
        assert(vs.skip(0) =~= vs);
    }
    while i < short
        invariant
            i <= short,
            bind_params(ctx_model(acc), ps, vs) == bind_params(
                ctx_model(cur),
                ps.skip(i as int),
                vs.skip(i as int),
            ),
        decreases short - i,
    {
        cur = context_extend(&cur, &parameters[i].text, &arguments[i]);
        proof {
            assert(ps.skip(i as int).skip(1) =~= ps.skip(i + 1));
            assert(vs.skip(i as int).skip(1) =~= vs.skip(i + 1));
        }
        i = i + 1;
    }
    if parameters.len() == arguments.len() {
        proof {
            assert(ps.skip(i as int).len() == 0);
        }
        Ok(cur)
    } else {
        let missing: usize = if parameters.len() > arguments.len() {
            parameters.len() - arguments.len()
        } else {
            0
        };
        let extra: usize = if arguments.len() > parameters.len() {
            arguments.len() - parameters.len()
        } else {
            0
        };
        let mut text = String::from_str("expecting ");
        let m = crate::text::dec_str(missing as u64);
        text.append(m.as_str());
        text.append(" arguments but got ");
        let x = crate::text::dec_str(extra as u64);
        text.append(x.as_str());
        Err(
            RuntimeError {
                message: String::from_str("invalid arguments"),
                full_text: text,
                location,
            },
        )
    }
}

/// The error for a variable not bound in the current context: the
/// message is the bare category, the detail names the variable.
pub open spec fn unbound_error_v(name: Seq<char>, loc: LocationV) -> RuntimeErrorV {
    RuntimeErrorV {
        message: "unbound variable"@,
        full_text: "variable \""@ + name + "\" was not defined in the current scope"@,
        location: loc,
    }
}

/// Builds the error for an unbound variable.
fn unbound_error(name: &String, location: Location) -> (e: RuntimeError)
    ensures
        e@ == unbound_error_v(name@, location@),
{
    let mut text = String::from_str("variable \"");
    text.append(name.as_str());
    text.append("\" was not defined in the current scope");
    RuntimeError { message: String::from_str("unbound variable"), full_text: text, location }
}

/// Looking a variable up in a context: its value when bound, the
/// `unbound variable` error when not.
pub open spec fn var_lookup_v(env: Map<Seq<char>, ValueV>, v: VarV) -> Result<
    ValueV,
    RuntimeErrorV,
> {
    if env.contains_key(v.text) {
        Ok(env[v.text])
    } else {
        Err(unbound_error_v(v.text, v.location))
    }
}

/// The error for a condition that is not a boolean.
pub open spec fn if_error_v(v: ValueV, loc: LocationV) -> RuntimeErrorV {
    RuntimeErrorV {
        message: "invalid if condition"@,
        full_text: render_v(v) + " can't be used as an if condition. use a boolean instead"@,
        location: loc,
    }
}

/// Builds the error for a non-boolean condition.
fn if_error(v: &Value, location: &Location) -> (e: RuntimeError)
    ensures
        e@ == if_error_v(v@, location@),
{
    let mut text = render(v);
    text.append(" can't be used as an if condition. use a boolean instead");
    RuntimeError {
        message: String::from_str("invalid if condition"),
        full_text: text,
        location: location.clone(),
    }
}

/// The error for calling a value that is not a closure.
pub open spec fn call_error_v(v: ValueV, loc: LocationV) -> RuntimeErrorV {
    RuntimeErrorV {
        message: "invalid function call"@,
        full_text: render_v(v) + " cannot be called as a function"@,
        location: loc,
    }
}

/// Builds the error for a callee that is not a closure.
fn call_error(v: &Value, location: &Location) -> (e: RuntimeError)
    ensures
        e@ == call_error_v(v@, location@),
{
    let mut text = render(v);
    text.append(" cannot be called as a function");
    RuntimeError {
        message: String::from_str("invalid function call"),
        full_text: text,
        location: location.clone(),
    }
}

/// Projecting the first component: defined on tuples only.
pub open spec fn first_proj_v(v: ValueV, loc: LocationV) -> Result<ValueV, RuntimeErrorV> {
    match v {
        ValueV::Tuple(f, _) => Ok(*f),
        _ => Err(
            RuntimeErrorV {
                message: "invalid expression"@,
                full_text: "cannot use first operation from anything but a tuple"@,
                location: loc,
            },
        ),
    }
}

/// Projecting the second component: defined on tuples only.
pub open spec fn second_proj_v(v: ValueV, loc: LocationV) -> Result<ValueV, RuntimeErrorV> {
    match v {
        ValueV::Tuple(_, s) => Ok(*s),
        _ => Err(
            RuntimeErrorV {
                message: "invalid expression"@,
                full_text: "cannot use second operation from anything but a tuple"@,
                location: loc,
            },
        ),
    }
}

/// The interpreter's state over one run: the context the next step
/// evaluates under, the memoization cache, and the lines printed so
/// far, oldest first.
pub struct Interpreter {
    context: Context,
    cache: Cache,
    output: Vec<String>,
}

impl Interpreter {
    /// The contents of the current context.
    pub closed spec fn ctx(&self) -> Map<Seq<char>, ValueV> {
        ctx_model(self.context)
    }

    /// The contents of the memoization cache.
    pub closed spec fn cache_model(&self) -> Map<CacheKeyV, ValueV> {
        self.cache.model()
    }

    /// The lines printed so far, oldest first.
    pub closed spec fn out_model(&self) -> Seq<Seq<char>> {
        Seq::new(self.output@.len(), |i: int| self.output@[i]@)
    }

    /// A fresh interpreter: empty context, empty cache, no output.
    pub fn new() -> (r: Interpreter)
        ensures
            r.ctx() == crate::context::empty_env(),
            r.cache_model() == Map::<CacheKeyV, ValueV>::empty(),
            r.out_model() == Seq::<Seq<char>>::empty(),
    {
        let r = Interpreter { context: context_new(), cache: Cache::new(), output: Vec::new() };
        proof {
            assert(r.out_model() =~= Seq::<Seq<char>>::empty());
        }
        r
    }

    /// The lines printed so far, oldest first.
    pub fn output(&self) -> (r: &Vec<String>)
        ensures
            r@.len() == self.out_model().len(),
            forall|i: int| 0 <= i < r@.len() ==> r@[i]@ == self.out_model()[i],
    {
        &self.output
    }
}

impl Default for Interpreter {
    fn default() -> (r: Interpreter)
        ensures
            r.ctx() == crate::context::empty_env(),
            r.cache_model() == Map::<CacheKeyV, ValueV>::empty(),
            r.out_model() == Seq::<Seq<char>>::empty(),
    {
        Interpreter::new()
    }
}

/// Relies on std::io::Stdout through the writeln macro: writes the
/// line and a newline to standard output.
#[verifier::external_body]
fn emit_line(line: &String) {
    let mut out = std::io::stdout();
    let _ = writeln!(out, "{}", line);
}

/// One suspended piece of work, waiting for the value of the
/// sub-expression under evaluation.
pub enum Frame {
    /// After a binding's value: bind the name and continue with the
    /// body of the `let`.
    LetNext { name: String, next: Box<Term>, saved: Context },
    /// After a condition: take one branch, or fail on a non-boolean.
    IfBranch { then_branch: Box<Term>, otherwise: Box<Term>, saved: Context, cond_loc: Location },
    /// After a left operand: evaluate the right operand.
    BinaryRhs { op: BinaryOp, rhs: Box<Term>, saved: Context, loc: Location },
    /// After both operands: apply the operator.
    BinaryApply { op: BinaryOp, lhs: Value, loc: Location },
    /// After a pair's first component: evaluate the second.
    TupleSecond { second: Box<Term>, saved: Context },
    /// After both components: build the pair.
    TupleMake { first: Value },
    /// After a projection operand: take the first component.
    FirstProj { loc: Location },
    /// After a projection operand: take the second component.
    SecondProj { loc: Location },
    /// After a print operand: emit the value and yield it.
    PrintValue,
    /// After a callee: check it is a closure and start on the
    /// arguments.
    CallCallee { arguments: Vec<Term>, saved: Context, loc: Location },
    /// After one argument: evaluate the rest, then enter the body.
    CallArg { remaining: Vec<Term>, done: Vec<Value>, callee: Closure, merged: Context, loc: Location },
    /// After a memoized body: store the value under the key.
    MemoStore { key: CacheKey },
}

/// One step of work: a node of the program tree about to be taken
/// apart.
pub enum Bounce {
    Let(Let),
    Function(Function),
    Call(Call),
    If(If),
    Binary(Binary),
    Var(Var),
    Tuple(crate::ast::Tuple),
    First(First),
    Second(Second),
    Print(Print),
}

/// Either more work, or a finished outcome.
pub enum Trampoline {
    Bounce(Bounce),
    Land(Result<Value, RuntimeError>),
}

/// The tree node a step holds.
pub open spec fn bounce_term(b: Bounce) -> TermV {
    match b {
        Bounce::Let(l) => term_view(Term::Let(l)),
        Bounce::Function(f) => term_view(Term::Function(f)),
        Bounce::Call(c) => term_view(Term::Call(c)),
        Bounce::If(i) => term_view(Term::If(i)),
        Bounce::Binary(x) => term_view(Term::Binary(x)),
        Bounce::Var(v) => term_view(Term::Var(v)),
        Bounce::Tuple(t) => term_view(Term::Tuple(t)),
        Bounce::First(f) => term_view(Term::First(f)),
        Bounce::Second(s) => term_view(Term::Second(s)),
        Bounce::Print(p) => term_view(Term::Print(p)),
    }
}

/// The outcome a landed trampoline carries, if it has landed.
pub open spec fn land_result(t: Trampoline) -> Option<Result<ValueV, RuntimeErrorV>> {
    match t {
        Trampoline::Land(res) => Some(outcome_view(res)),
        Trampoline::Bounce(_) => None,
    }
}

/// The tree node a trampoline still has to take apart, if any.
pub open spec fn pending_term(t: Trampoline) -> Option<TermV> {
    match t {
        Trampoline::Bounce(b) => Some(bounce_term(b)),
        Trampoline::Land(_) => None,
    }
}

/// The machine-level image of a trampoline.
pub open spec fn tramp_view(t: Trampoline) -> StepV {
    match t {
        Trampoline::Bounce(b) => StepV::Pending(bounce_term(b)),
        Trampoline::Land(res) => StepV::Landed(outcome_view(res)),
    }
}

/// The machine-level image of one suspended frame.
pub open spec fn frame_v(f: Frame) -> FrameV {
    match f {
        Frame::LetNext { name, next, saved } => FrameV::LetNext {
            name: name@,
            next: term_view(*next),
            saved: ctx_model(saved),
        },
        Frame::IfBranch { then_branch, otherwise, saved, cond_loc } => FrameV::IfBranch {
            then_branch: term_view(*then_branch),
            otherwise: term_view(*otherwise),
            saved: ctx_model(saved),
            cond_loc: cond_loc@,
        },
        Frame::BinaryRhs { op, rhs, saved, loc } => FrameV::BinaryRhs {
            op,
            rhs: term_view(*rhs),
            saved: ctx_model(saved),
            loc: loc@,
        },
        Frame::BinaryApply { op, lhs, loc } => FrameV::BinaryApply { op, lhs: lhs@, loc: loc@ },
        Frame::TupleSecond { second, saved } => FrameV::TupleSecond {
            second: term_view(*second),
            saved: ctx_model(saved),
        },
        Frame::TupleMake { first } => FrameV::TupleMake { first: first@ },
        Frame::FirstProj { loc } => FrameV::FirstProj { loc: loc@ },
        Frame::SecondProj { loc } => FrameV::SecondProj { loc: loc@ },
        Frame::PrintValue => FrameV::PrintValue,
        Frame::CallCallee { arguments, saved, loc } => FrameV::CallCallee {
            arguments: terms_view(arguments@),
            saved: ctx_model(saved),
            loc: loc@,
        },
        Frame::CallArg { remaining, done, callee, merged, loc } => FrameV::CallArg {
            remaining_rev: terms_view(remaining@),
            done: values_view(done@),
            callee: value_view(Value::Closure(callee)),
            merged: ctx_model(merged),
            loc: loc@,
        },
        Frame::MemoStore { key } => FrameV::MemoStore { key: key@ },
    }
}

/// The machine-level image of a frame stack, innermost last.
pub open spec fn frames_view(s: Seq<Frame>) -> Seq<FrameV> {
    Seq::new(s.len(), |i: int| frame_v(s[i]))
}

/// The machine state held by a trampoline, a frame stack and an
/// interpreter.
pub open spec fn config_of(cur: StepV, frames: Seq<Frame>, i: Interpreter) -> ConfigV {
    ConfigV {
        cur,
        frames: frames_view(frames),
        env: i.ctx(),
        cache: i.cache_model(),
        out: i.out_model(),
    }
}

/// What turning one term into a trampoline must give: a literal lands
/// at once with its value; every other node becomes the step that
/// takes that very node apart.
pub open spec fn dispatch_ok(tv: TermV, t: Trampoline) -> bool {
    match tv {
        TermV::Int { value, .. } => land_result(t) == Some(Ok::<ValueV, RuntimeErrorV>(ValueV::Int(value))),
        TermV::Str { value, .. } => land_result(t) == Some(Ok::<ValueV, RuntimeErrorV>(ValueV::Str(value))),
        TermV::Bool { value, .. } => land_result(t) == Some(Ok::<ValueV, RuntimeErrorV>(ValueV::Bool(value))),
        _ => pending_term(t) == Some(tv),
    }
}

/// Turns one term into its trampoline: literals land, everything else
/// bounces.
fn dispatch(term: Box<Term>) -> (t: Trampoline)
    ensures
        dispatch_ok(term@, t),
        tramp_view(t) == dispatch_v(term@),
{
    match *term {
        Term::Int(n) => Trampoline::Land(Ok(Value::Int(n.value))),
        Term::Str(s) => Trampoline::Land(Ok(Value::Str(s.value))),
        Term::Bool(b) => Trampoline::Land(Ok(Value::Bool(b.value))),
        Term::Let(let_) => Trampoline::let_(let_),
        Term::Function(function) => Trampoline::function(function),
        Term::Call(call) => Trampoline::call(call),
        Term::If(if_) => Trampoline::if_(if_),
        Term::Binary(binary) => Trampoline::binary(binary),
        Term::Var(var) => Trampoline::var(var),
        Term::Tuple(tuple) => Trampoline::tuple(tuple),
        Term::First(first) => Trampoline::first(first),
        Term::Second(second) => Trampoline::second(second),
        Term::Print(print) => Trampoline::print(print),
    }
}

impl Trampoline {
    pub fn let_(let_: Let) -> (t: Trampoline)
        ensures
            pending_term(t) == Some(term_view(Term::Let(let_))),
    {
        Trampoline::Bounce(Bounce::Let(let_))
    }

    pub fn function(function: Function) -> (t: Trampoline)
        ensures
            pending_term(t) == Some(term_view(Term::Function(function))),
    {
        Trampoline::Bounce(Bounce::Function(function))
    }

    pub fn call(call: Call) -> (t: Trampoline)
        ensures
            pending_term(t) == Some(term_view(Term::Call(call))),
    {
        Trampoline::Bounce(Bounce::Call(call))
    }

    pub fn if_(if_: If) -> (t: Trampoline)
        ensures
            pending_term(t) == Some(term_view(Term::If(if_))),
    {
        Trampoline::Bounce(Bounce::If(if_))
    }

    pub fn binary(binary: Binary) -> (t: Trampoline)
        ensures
            pending_term(t) == Some(term_view(Term::Binary(binary))),
    {
        Trampoline::Bounce(Bounce::Binary(binary))
    }

    pub fn var(var: Var) -> (t: Trampoline)
        ensures
            pending_term(t) == Some(term_view(Term::Var(var))),
    {
        Trampoline::Bounce(Bounce::Var(var))
    }

    pub fn tuple(tuple: crate::ast::Tuple) -> (t: Trampoline)
        ensures
            pending_term(t) == Some(term_view(Term::Tuple(tuple))),
    {
        Trampoline::Bounce(Bounce::Tuple(tuple))
    }

    pub fn first(first: First) -> (t: Trampoline)
        ensures
            pending_term(t) == Some(term_view(Term::First(first))),
    {
        Trampoline::Bounce(Bounce::First(first))
    }

    pub fn second(second: Second) -> (t: Trampoline)
        ensures
            pending_term(t) == Some(term_view(Term::Second(second))),
    {
        Trampoline::Bounce(Bounce::Second(second))
    }

    pub fn print(print: Print) -> (t: Trampoline)
        ensures
            pending_term(t) == Some(term_view(Term::Print(print))),
    {
        Trampoline::Bounce(Bounce::Print(print))
    }
}

/// What a step must leave in a pushed frame: the work saved for later
/// and the contents of the context to resume under.
pub open spec fn frame_saves(b: Bounce, f: Frame, env: Map<Seq<char>, ValueV>) -> bool {
    match (b, f) {
        (Bounce::Let(l), Frame::LetNext { name, next, saved }) => name@ == l.name.text@
            && term_view(*next) == term_view(*l.next) && ctx_model(saved) == env,
        (
            Bounce::If(i),
            Frame::IfBranch { then_branch, otherwise, saved, cond_loc },
        ) => term_view(*then_branch) == term_view(*i.then_branch) && term_view(*otherwise)
            == term_view(*i.otherwise) && ctx_model(saved) == env && cond_loc@
            == i.condition.loc_spec(),
        (Bounce::Binary(x), Frame::BinaryRhs { op, rhs, saved, loc }) => op == x.op && term_view(
            *rhs,
        ) == term_view(*x.rhs) && ctx_model(saved) == env && loc@ == x.lhs.loc_spec(),
        (Bounce::Tuple(t), Frame::TupleSecond { second, saved }) => term_view(*second)
            == term_view(*t.second) && ctx_model(saved) == env,
        (Bounce::First(fi), Frame::FirstProj { loc }) => loc@ == fi.location@,
        (Bounce::Second(se), Frame::SecondProj { loc }) => loc@ == se.location@,
        (Bounce::Print(_), Frame::PrintValue) => true,
        (Bounce::Call(c), Frame::CallCallee { arguments, saved, loc }) => crate::cache::terms_view(
            arguments@,
        ) == crate::cache::terms_view(c.arguments@) && ctx_model(saved) == env && loc@
            == c.location@,
        _ => false,
    }
}

/// The sub-expression a step evaluates first.
pub open spec fn eager_subterm(b: Bounce) -> TermV {
    match b {
        Bounce::Let(l) => term_view(*l.value),
        Bounce::If(i) => term_view(*i.condition),
        Bounce::Binary(x) => term_view(*x.lhs),
        Bounce::Tuple(t) => term_view(*t.first),
        Bounce::First(f) => term_view(*f.value),
        Bounce::Second(s) => term_view(*s.value),
        Bounce::Print(p) => term_view(*p.value),
        Bounce::Call(c) => term_view(*c.callee),
        _ => arbitrary(),
    }
}

impl Bounce {
    /// Performs one step. A function literal lands as a closure over
    /// the current context and a variable lands as its binding; every
    /// other step saves its continuation as a frame and hands back
    /// its first sub-expression.
    #[verifier::rlimit(100)]
    pub fn run(self, interpreter: &Interpreter, frames: &mut Vec<Frame>) -> (r: Result<
        Trampoline,
        RuntimeError,
    >)
        ensures
            match self {
                Bounce::Function(f) => final(frames)@ == old(frames)@ && (r matches Ok(t)
                    && land_result(t) == Some(
                    Ok::<ValueV, RuntimeErrorV>(
                        ValueV::Closure {
                            parameters: crate::cache::vars_view(f.parameters@),
                            body: term_view(*f.value),
                            env: interpreter.ctx(),
                        },
                    ),
                )),
                Bounce::Var(v) => final(frames)@ == old(frames)@ && (r matches Ok(t)
                    && land_result(t) == Some(var_lookup_v(interpreter.ctx(), v@))),
                _ => final(frames)@.len() == old(frames)@.len() + 1 && final(frames)@.drop_last()
                    == old(frames)@ && frame_saves(self, final(frames)@.last(), interpreter.ctx())
                    && (r matches Ok(t) && dispatch_ok(eager_subterm(self), t)),
            },
            ({
                let succ = pending_step_v(
                    bounce_term(self),
                    config_of(
                        StepV::Pending(bounce_term(self)),
                        old(frames)@,
                        *interpreter,
                    ),
                );
                frames_view(final(frames)@) =~~= succ.frames && (r matches Ok(t) && tramp_view(
                    t,
                ) =~~= succ.cur)
            }),
    {
        match self {
            Bounce::Let(let_) => {
                frames.push(
                    Frame::LetNext {
                        name: let_.name.text,
                        next: let_.next,
                        saved: interpreter.context.clone(),
                    },
                );
                proof {
                    assert(frames@.drop_last() =~= old(frames)@);
                    assert(frames_view(frames@) =~= frames_view(old(frames)@).push(
                        frame_v(frames@.last()),
                    ));
                }
                Ok(dispatch(let_.value))
            },
            Bounce::Function(function) => {
                let closure = Closure {
                    parameters: function.parameters,
                    body: function.value,
                    context: interpreter.context.clone(),
                };
                let out = Value::Closure(closure);
                proof {
                    assert(value_view(out) =~~= ValueV::Closure {
                        parameters: crate::cache::vars_view(function.parameters@),
                        body: term_view(*function.value),
                        env: interpreter.ctx(),
                    });
                }
                Ok(Trampoline::Land(Ok(out)))
            },
            Bounce::Call(call) => {
                frames.push(
                    Frame::CallCallee {
                        arguments: call.arguments,
                        saved: interpreter.context.clone(),
                        loc: call.location,
                    },
                );
                proof {
                    assert(frames@.drop_last() =~= old(frames)@);
                    assert(frames_view(frames@) =~= frames_view(old(frames)@).push(
                        frame_v(frames@.last()),
                    ));
                }
                Ok(dispatch(call.callee))
            },
            Bounce::If(if_) => {
                let cond_loc = if_.condition.location().clone();
                frames.push(
                    Frame::IfBranch {
                        then_branch: if_.then_branch,
                        otherwise: if_.otherwise,
                        saved: interpreter.context.clone(),
                        cond_loc,
                    },
                );
                proof {
                    assert(frames@.drop_last() =~= old(frames)@);
                    assert(frames_view(frames@) =~= frames_view(old(frames)@).push(
                        frame_v(frames@.last()),
                    ));
                }
                Ok(dispatch(if_.condition))
            },
            Bounce::Binary(binary) => {
                let loc = binary.lhs.location().clone();
                frames.push(
                    Frame::BinaryRhs {
                        op: binary.op,
                        rhs: binary.rhs,
                        saved: interpreter.context.clone(),
                        loc,
                    },
                );
                proof {
                    assert(frames@.drop_last() =~= old(frames)@);
                    assert(frames_view(frames@) =~= frames_view(old(frames)@).push(
                        frame_v(frames@.last()),
                    ));
                }
                Ok(dispatch(binary.lhs))
            },
            Bounce::Var(var) => {
                match context_get(&interpreter.context, &var.text) {
                    Some(v) => Ok(Trampoline::Land(Ok(v))),
                    None => Ok(Trampoline::Land(Err(unbound_error(&var.text, var.location)))),
                }
            },
            Bounce::Tuple(tuple) => {
                frames.push(
                    Frame::TupleSecond { second: tuple.second, saved: interpreter.context.clone() },
                );
                proof {
                    assert(frames@.drop_last() =~= old(frames)@);
                    assert(frames_view(frames@) =~= frames_view(old(frames)@).push(
                        frame_v(frames@.last()),
                    ));
                }
                Ok(dispatch(tuple.first))
            },
            Bounce::First(first) => {
                frames.push(Frame::FirstProj { loc: first.location });
                proof {
                    assert(frames@.drop_last() =~= old(frames)@);
                    assert(frames_view(frames@) =~= frames_view(old(frames)@).push(
                        frame_v(frames@.last()),
                    ));
                }
                Ok(dispatch(first.value))
            },
            Bounce::Second(second) => {
                frames.push(Frame::SecondProj { loc: second.location });
                proof {
                    assert(frames@.drop_last() =~= old(frames)@);
                    assert(frames_view(frames@) =~= frames_view(old(frames)@).push(
                        frame_v(frames@.last()),
                    ));
                }
                Ok(dispatch(second.value))
            },
            Bounce::Print(print) => {
                frames.push(Frame::PrintValue);
                proof {
                    assert(frames@.drop_last() =~= old(frames)@);
                    assert(frames_view(frames@) =~= frames_view(old(frames)@).push(
                        frame_v(frames@.last()),
                    ));
                }
                Ok(dispatch(print.value))
            },
        }
    }
}

/// Reverses an argument list, so that arguments can be popped from
/// the end in source order.
#[verifier::loop_isolation(false)]
fn reverse_terms(v: Vec<Term>) -> (r: Vec<Term>)
    ensures
        r@.len() == v@.len(),
        forall|i: int| 0 <= i < v@.len() ==> r@[i] == v@[v@.len() - 1 - i],
{
    let mut src = v;
    let ghost orig = src@;
    let mut out: Vec<Term> = Vec::new();
    proof {
        assert(src@ =~= orig.take(src@.len() as int));
    }
    while src.len() > 0
        invariant
            src@ == orig.take(src@.len() as int),
            out@.len() + src@.len() == orig.len(),
            forall|i: int| 0 <= i < out@.len() ==> out@[i] == orig[orig.len() - 1 - i],
        decreases src@.len(),
    {
        let t = src.pop().unwrap();
        proof {
            assert(orig.take(src@.len() as int + 1).last() == orig[orig.len() - 1 - out@.len()]);
            assert(orig.take(src@.len() as int + 1).drop_last() =~= orig.take(src@.len() as int));
        }
        out.push(t);
    }
    out
}

/// Enters a closure's body once the callee and every argument are
/// evaluated: binds the parameters over the merged context, fails on
/// an argument-count mismatch, and goes through the memoization cache
/// when the body counts as pure and every argument has a key.
#[verifier::rlimit(100)]
fn finish_call(
    closure: Closure,
    arguments: Vec<Value>,
    merged: Context,
    location: Location,
    interpreter: &mut Interpreter,
    frames: &mut Vec<Frame>,
) -> (r: Result<Trampoline, RuntimeError>)
    ensures
        final(interpreter).out_model() == old(interpreter).out_model(),
        ({
            let succ = finish_call_v(
                value_view(Value::Closure(closure)),
                values_view(arguments@),
                ctx_model(merged),
                location@,
                config_of(arbitrary(), old(frames)@, *old(interpreter)),
            );
            &&& frames_view(final(frames)@) =~~= succ.frames
            &&& final(interpreter).ctx() =~~= succ.env
            &&& final(interpreter).cache_model() =~~= succ.cache
            &&& final(interpreter).out_model() =~~= succ.out
            &&& match r {
                Ok(t) => tramp_view(t) =~~= succ.cur,
                Err(e) => succ.cur =~~= StepV::Landed(Err(e@)),
            }
        }),
        match update_context_v(
            ctx_model(merged),
            vars_view(closure.parameters@),
            values_view(arguments@),
            location@,
        ) {
            Err(e) => (r matches Err(e2) && e2@ == e) && final(interpreter).cache_model() == old(interpreter).cache_model() && final(frames)@ == old(frames)@,
            Ok(env_bound) => final(interpreter).ctx() == env_bound && final(interpreter).cache_model() == old(interpreter).cache_model() && match call_key_v(
                term_view(*closure.body),
                values_view(arguments@),
            ) {
                Some(k) => if old(interpreter).cache_model().contains_key(k) {
                    final(frames)@ == old(frames)@ && (r matches Ok(t) && land_result(t) == Some(
                        Ok::<ValueV, RuntimeErrorV>(old(interpreter).cache_model()[k]),
                    ))
                } else {
                    final(frames)@.len() == old(frames)@.len() + 1 && final(frames)@.drop_last()
                        == old(frames)@ && (final(frames)@.last() matches Frame::MemoStore { key }
                        && key@ == k) && (r matches Ok(t) && dispatch_ok(
                        term_view(*closure.body),
                        t,
                    ))
                },
                None => final(frames)@ == old(frames)@ && (r matches Ok(t) && dispatch_ok(
                    term_view(*closure.body),
                    t,
                )),
            },
        },
{
    proof {
        assert(vars_view(closure.parameters@) =~= value_view(
            Value::Closure(closure),
        )->Closure_parameters);
    }
    let extended = match update_context(&closure.parameters, &arguments, merged, location) {
        Ok(c) => c,
        Err(e) => {
            return Err(e);
        },
    };
    interpreter.context = extended;
    if is_pure(&closure.body) {
        match cache_key(&closure.body, &arguments) {
            Some(k) => {
                match interpreter.cache.lookup(&k) {
                    Some(v) => Ok(Trampoline::Land(Ok(v))),
                    None => {
                        frames.push(Frame::MemoStore { key: k });
                        proof {
                            assert(frames@.drop_last() =~= old(frames)@);
                            assert(frames_view(frames@) =~~= frames_view(old(frames)@).push(
                                frame_v(frames@.last()),
                            ));
                        }
                        Ok(dispatch(closure.body))
                    },
                }
            },
            None => Ok(dispatch(closure.body)),
        }
    } else {
        Ok(dispatch(closure.body))
    }
}

/// The memoization key a call gets, if any: none when the body is
/// impure, none when an argument is a closure.
pub open spec fn call_key_v(body: TermV, args: Seq<ValueV>) -> Option<CacheKeyV> {
    if is_pure_v(body) {
        cache_key_v(body, args)
    } else {
        None
    }
}

/// Resumes one suspended frame with the value of the sub-expression
/// it was waiting for.
#[verifier::rlimit(100)]
fn apply_frame(
    frame: Frame,
    value: Value,
    interpreter: &mut Interpreter,
    frames: &mut Vec<Frame>,
) -> (r: Result<Trampoline, RuntimeError>)
    ensures
        ({
            let succ = apply_step_v(
                frame_v(frame),
                value@,
                config_of(StepV::Landed(Ok(value@)), old(frames)@, *old(interpreter)),
            );
            &&& frames_view(final(frames)@) =~~= succ.frames
            &&& final(interpreter).ctx() =~~= succ.env
            &&& final(interpreter).cache_model() =~~= succ.cache
            &&& final(interpreter).out_model() =~~= succ.out
            &&& match r {
                Ok(t) => tramp_view(t) =~~= succ.cur,
                Err(e) => succ.cur =~~= StepV::Landed(Err(e@)),
            }
        }),
        match frame {
            Frame::LetNext { name, next, saved } => final(interpreter).ctx() == ctx_model(
                saved,
            ).insert(name@, value@) && final(interpreter).cache_model() == old(interpreter).cache_model() && final(interpreter).out_model() == old(interpreter).out_model()
                && final(frames)@ == old(frames)@ && (r matches Ok(t) && dispatch_ok(
                term_view(*next),
                t,
            )),
            Frame::IfBranch { then_branch, otherwise, saved, cond_loc } => final(interpreter).cache_model() == old(interpreter).cache_model() && final(interpreter).out_model()
                == old(interpreter).out_model() && match value@ {
                ValueV::Bool(b) => final(interpreter).ctx() == ctx_model(saved) && final(frames)@
                    == old(frames)@ && (r matches Ok(t) && dispatch_ok(
                    if b {
                        term_view(*then_branch)
                    } else {
                        term_view(*otherwise)
                    },
                    t,
                )),
                _ => r matches Err(e) && e@ == if_error_v(value@, cond_loc@),
            },
            Frame::BinaryRhs { op, rhs, saved, loc } => final(interpreter).ctx() == ctx_model(saved)
                && final(interpreter).cache_model() == old(interpreter).cache_model() && final(interpreter).out_model() == old(interpreter).out_model() && final(frames)@.len() == old(frames)@.len() + 1 && final(frames)@.drop_last() == old(frames)@ && (final(frames)@.last()
                matches Frame::BinaryApply { op: op2, lhs, loc: loc2 } && op2 == op && lhs@
                == value@ && loc2@ == loc@) && (r matches Ok(t) && dispatch_ok(term_view(*rhs), t)),
            Frame::BinaryApply { op, lhs, loc } => final(interpreter).ctx() == old(interpreter).ctx() && final(interpreter).cache_model() == old(interpreter).cache_model() && final(interpreter).out_model() == old(interpreter).out_model() && final(frames)@ == old(frames)@ && (r
                matches Ok(t) && land_result(t) == Some(eval_binary_v(op, lhs@, value@, loc@))),
            Frame::TupleSecond { second, saved } => final(interpreter).ctx() == ctx_model(saved)
                && final(interpreter).cache_model() == old(interpreter).cache_model() && final(interpreter).out_model() == old(interpreter).out_model() && final(frames)@.len() == old(frames)@.len() + 1 && final(frames)@.drop_last() == old(frames)@ && (final(frames)@.last()
                matches Frame::TupleMake { first } && first@ == value@) && (r matches Ok(t)
                && dispatch_ok(term_view(*second), t)),
            Frame::TupleMake { first } => final(interpreter).ctx() == old(interpreter).ctx()
                && final(interpreter).cache_model() == old(interpreter).cache_model() && final(interpreter).out_model() == old(interpreter).out_model() && final(frames)@ == old(frames)@ && (r
                matches Ok(t) && land_result(t) == Some(
                Ok::<ValueV, RuntimeErrorV>(ValueV::Tuple(Box::new(first@), Box::new(value@))),
            )),
            Frame::FirstProj { loc } => final(interpreter).ctx() == old(interpreter).ctx() && final(interpreter).cache_model() == old(interpreter).cache_model() && final(interpreter).out_model()
                == old(interpreter).out_model() && final(frames)@ == old(frames)@ && (r matches Ok(
                t,
            ) && land_result(t) == Some(first_proj_v(value@, loc@))),
            Frame::SecondProj { loc } => final(interpreter).ctx() == old(interpreter).ctx()
                && final(interpreter).cache_model() == old(interpreter).cache_model() && final(interpreter).out_model() == old(interpreter).out_model() && final(frames)@ == old(frames)@ && (r
                matches Ok(t) && land_result(t) == Some(second_proj_v(value@, loc@))),
            Frame::PrintValue => final(interpreter).ctx() == old(interpreter).ctx() && final(interpreter).cache_model() == old(interpreter).cache_model() && final(interpreter).out_model()
                == old(interpreter).out_model().push(render_v(value@)) && final(frames)@ == old(frames)@ && (r matches Ok(t) && land_result(t) == Some(Ok::<ValueV, RuntimeErrorV>(value@))),
            Frame::CallCallee { arguments, saved, loc } => final(interpreter).out_model() == old(interpreter).out_model() && final(interpreter).cache_model() == old(interpreter).cache_model() && (
            !(value@ is Closure) ==> (r matches Err(e) && e@ == call_error_v(value@, loc@))),
            Frame::CallArg { remaining, done, callee, merged, loc } => final(interpreter).out_model() == old(interpreter).out_model() && final(interpreter).cache_model()
                == old(interpreter).cache_model(),
            Frame::MemoStore { key } => final(interpreter).ctx() == old(interpreter).ctx() && final(interpreter).cache_model() == old(interpreter).cache_model().insert(key@, value@) && final(interpreter).out_model() == old(interpreter).out_model() && final(frames)@ == old(frames)@ && (r
                matches Ok(t) && land_result(t) == Some(Ok::<ValueV, RuntimeErrorV>(value@))),
        },
{
    match frame {
        Frame::LetNext { name, next, saved } => {
            interpreter.context = context_extend(&saved, &name, &value);
            Ok(dispatch(next))
        },
        Frame::IfBranch { then_branch, otherwise, saved, cond_loc } => {
            match value {
                Value::Bool(b) => {
                    interpreter.context = saved;
                    if b {
                        Ok(dispatch(then_branch))
                    } else {
                        Ok(dispatch(otherwise))
                    }
                },
                other => Err(if_error(&other, &cond_loc)),
            }
        },
        Frame::BinaryRhs { op, rhs, saved, loc } => {
            interpreter.context = saved;
            frames.push(Frame::BinaryApply { op, lhs: value, loc });
            proof {
                assert(frames@.drop_last() =~= old(frames)@);
                assert(frames_view(frames@) =~~= frames_view(old(frames)@).push(
                    frame_v(frames@.last()),
                ));
            }
            Ok(dispatch(rhs))
        },
        Frame::BinaryApply { op, lhs, loc } => {
            let out = match op {
                BinaryOp::Eq => lhs.eq(&value, &loc),
                BinaryOp::Neq => lhs.neq(&value, &loc),
                BinaryOp::Lt => lhs.lt(&value, &loc),
                BinaryOp::Lte => lhs.lte(&value, &loc),
                BinaryOp::Gt => lhs.gt(&value, &loc),
                BinaryOp::Gte => lhs.gte(&value, &loc),
                BinaryOp::And => lhs.and(&value, &loc),
                BinaryOp::Or => lhs.or(&value, &loc),
                BinaryOp::Add => lhs.add(&value, &loc),
                BinaryOp::Sub => lhs.sub(&value, &loc),
                BinaryOp::Mul => lhs.mul(&value, &loc),
                BinaryOp::Div => lhs.div(&value, &loc),
                BinaryOp::Rem => lhs.rem(&value, &loc),
            };
            Ok(Trampoline::Land(out))
        },
        Frame::TupleSecond { second, saved } => {
            interpreter.context = saved;
            frames.push(Frame::TupleMake { first: value });
            proof {
                assert(frames@.drop_last() =~= old(frames)@);
                assert(frames_view(frames@) =~~= frames_view(old(frames)@).push(
                    frame_v(frames@.last()),
                ));
            }
            Ok(dispatch(second))
        },
        Frame::TupleMake { first } => {
            Ok(
                Trampoline::Land(
                    Ok(Value::Tuple(Tuple { first: Box::new(first), second: Box::new(value) })),
                ),
            )
        },
        Frame::FirstProj { loc } => {
            match value {
                Value::Tuple(t) => Ok(Trampoline::Land(Ok(*t.first))),
                other => Ok(
                    Trampoline::Land(
                        Err(
                            proj_error("cannot use first operation from anything but a tuple", &loc),
                        ),
                    ),
                ),
            }
        },
        Frame::SecondProj { loc } => {
            match value {
                Value::Tuple(t) => Ok(Trampoline::Land(Ok(*t.second))),
                other => Ok(
                    Trampoline::Land(
                        Err(
                            proj_error(
                                "cannot use second operation from anything but a tuple",
                                &loc,
                            ),
                        ),
                    ),
                ),
            }
        },
        Frame::PrintValue => {
            let line = render(&value);
            emit_line(&line);
            interpreter.output.push(line);
            proof {
                assert(final(interpreter).out_model() =~= old(interpreter).out_model().push(
                    render_v(value@),
                ));
            }
            Ok(Trampoline::Land(Ok(value)))
        },
        Frame::CallCallee { arguments, saved, loc } => {
            match value {
                Value::Closure(closure) => {
                    let merged = context_union(&closure.context, &saved);
                    let ghost args0 = arguments@;
                    let mut rem = reverse_terms(arguments);
                    match rem.pop() {
                        None => {
                            proof {
                                assert(values_view(Seq::<Value>::empty()) =~= Seq::<
                                    ValueV,
                                >::empty());
                                lemma_finish_cur_blind(
                                    value_view(Value::Closure(closure)),
                                    values_view(Seq::<Value>::empty()),
                                    ctx_model(merged),
                                    loc@,
                                    config_of(arbitrary(), frames@, *interpreter),
                                    config_of(
                                        StepV::Landed(Ok(value@)),
                                        frames@,
                                        *interpreter,
                                    ),
                                );
                            }
                            finish_call(closure, Vec::new(), merged, loc, interpreter, frames)
                        },
                        Some(first_arg) => {
                            proof {
                                assert(terms_view(rem@) =~~= rev_terms_v(
                                    terms_view(args0),
                                ).drop_last());
                                assert(term_view(first_arg) == terms_view(args0)[0]);
                                assert(values_view(Seq::<Value>::empty()) =~= Seq::<
                                    ValueV,
                                >::empty());
                            }
                            interpreter.context = merged.clone();
                            frames.push(
                                Frame::CallArg {
                                    remaining: rem,
                                    done: Vec::new(),
                                    callee: closure,
                                    merged,
                                    loc,
                                },
                            );
                            proof {
                                assert(frames@.drop_last() =~= old(frames)@);
                                assert(frames_view(frames@) =~~= frames_view(old(frames)@).push(
                                    frame_v(frames@.last()),
                                ));
                            }
                            Ok(dispatch(Box::new(first_arg)))
                        },
                    }
                },
                other => Err(call_error(&other, &loc)),
            }
        },
        Frame::CallArg { remaining, done, callee, merged, loc } => {
            let ghost rem0 = remaining@;
            let ghost done0 = done@;
            let mut rem = remaining;
            let mut vals = done;
            vals.push(value);
            proof {
                assert(values_view(vals@) =~~= values_view(done0).push(value@));
            }
            match rem.pop() {
                None => {
                    proof {
                        lemma_finish_cur_blind(
                            value_view(Value::Closure(callee)),
                            values_view(vals@),
                            ctx_model(merged),
                            loc@,
                            config_of(arbitrary(), frames@, *interpreter),
                            config_of(StepV::Landed(Ok(value@)), frames@, *interpreter),
                        );
                    }
                    finish_call(callee, vals, merged, loc, interpreter, frames)
                },
                Some(next_arg) => {
                    proof {
                        assert(terms_view(rem@) =~~= terms_view(rem0).drop_last());
                        assert(term_view(next_arg) == terms_view(rem0).last());
                    }
                    interpreter.context = merged.clone();
                    frames.push(
                        Frame::CallArg {
                            remaining: rem,
                            done: vals,
                            callee,
                            merged,
                            loc,
                        },
                    );
                    proof {
                        assert(frames@.drop_last() =~= old(frames)@);
                        assert(frames_view(frames@) =~~= frames_view(old(frames)@).push(
                            frame_v(frames@.last()),
                        ));
                    }
                    Ok(dispatch(Box::new(next_arg)))
                },
            }
        },
        Frame::MemoStore { key } => {
            interpreter.cache.insert(key, value.clone());
            Ok(Trampoline::Land(Ok(value)))
        },
    }
}

/// Builds the error for projecting anything but a tuple.
fn proj_error(text: &str, location: &Location) -> (e: RuntimeError)
    ensures
        e@ == (RuntimeErrorV {
            message: "invalid expression"@,
            full_text: text@,
            location: location@,
        }),
{
    RuntimeError {
        message: String::from_str("invalid expression"),
        full_text: String::from_str(text),
        location: location.clone(),
    }
}

/// The error returned when the step budget runs out; no run that can
/// finish comes near it.
fn budget_error() -> (e: RuntimeError)
    ensures
        e@.message == "evaluation budget exhausted"@,
{
    RuntimeError {
        message: String::from_str("evaluation budget exhausted"),
        full_text: String::from_str("the evaluation step budget was exhausted"),
        location: Location { start: 0, end: 0, filename: String::new() },
    }
}

impl Trampoline {
    /// Runs the work loop to an outcome. Tail positions, a `let`
    /// body, a chosen branch, a called function's body, continue the
    /// loop without growing the native stack; suspended eager work
    /// waits on an explicit frame stack on the heap. The outcome and
    /// the printed lines are those of the specification machine run
    /// from this work under the interpreter's state. The loop carries
    /// a step budget so that it provably makes progress; only a run
    /// that halts within no step bound at all reaches the budget
    /// error.
    #[verifier::loop_isolation(false)]
    #[verifier::rlimit(100)]
    pub fn run(self, interpreter: &mut Interpreter) -> (r: Result<Value, RuntimeError>)
        ensures
            ({
                let init = config_of(tramp_view(self), Seq::empty(), *old(interpreter));
                ||| (exists|n: nat|
                    halted(#[trigger] run_v(init, n)) && run_v(init, n).cur == StepV::Landed(
                        outcome_view(r),
                    ) && run_v(init, n).out == final(interpreter).out_model())
                ||| ((forall|n: nat| n <= u64::MAX ==> !halted(#[trigger] run_v(init, n))) && (r
                    matches Err(e) && e@.message == "evaluation budget exhausted"@))
            }),
            old(interpreter).out_model().is_prefix_of(final(interpreter).out_model()),
    {
        let ghost init = config_of(tramp_view(self), Seq::empty(), *interpreter);
        let mut frames: Vec<Frame> = Vec::new();
        let mut cur = self;
        let mut fuel: u64 = u64::MAX;
        let ghost mut steps: nat = 0;
        proof {
            assert(frames_view(frames@) =~= frames_view(Seq::empty()));
            assert(init =~~= config_of(tramp_view(cur), frames@, *interpreter));
        }
        loop
            invariant
                steps + fuel == u64::MAX,
                run_v(init, steps) == config_of(tramp_view(cur), frames@, *interpreter),
                forall|m: nat| m < steps ==> !halted(#[trigger] run_v(init, m)),
                old(interpreter).out_model().is_prefix_of(interpreter.out_model()),
            decreases fuel,
        {
            let ghost pre = config_of(tramp_view(cur), frames@, *interpreter);
            match cur {
                Trampoline::Bounce(bounce) => {
                    if fuel == 0 {
                        proof {
                            assert forall|m: nat| m <= u64::MAX implies !halted(
                                #[trigger] run_v(init, m),
                            ) by {
                                if m == steps {
                                    assert(run_v(init, m) == pre);
                                }
                            }
                        }
                        return Err(budget_error());
                    }
                    fuel = fuel - 1;
                    cur = bounce.run(interpreter, &mut frames)?;
                    proof {
                        steps = steps + 1;
                        assert(config_of(tramp_view(cur), frames@, *interpreter) =~~= step_v(pre));
                    }
                },
                Trampoline::Land(res) => {
                    match res {
                        Ok(v) => {
                            match frames.pop() {
                                None => {
                                    proof {
                                        assert(halted(run_v(init, steps)));
                                    }
                                    return Ok(v);
                                },
                                Some(frame) => {
                                    if fuel == 0 {
                                        proof {
                                            assert forall|m: nat|
                                                m <= u64::MAX implies !halted(
                                                #[trigger] run_v(init, m),
                                            ) by {
                                                if m == steps {
                                                    assert(run_v(init, m) == pre);
                                                }
                                            }
                                        }
                                        return Err(budget_error());
                                    }
                                    fuel = fuel - 1;
                                    proof {
                                        assert(pre.frames.last() == frame_v(frame));
                                        assert(frames_view(frames@) =~~= pre.frames.drop_last());
                                    }
                                    match apply_frame(frame, v, interpreter, &mut frames) {
                                        Ok(next) => {
                                            cur = next;
                                            proof {
                                                steps = steps + 1;
                                                assert(config_of(
                                                    tramp_view(cur),
                                                    frames@,
                                                    *interpreter,
                                                ) =~~= step_v(pre));
                                            }
                                        },
                                        Err(e) => {
                                            proof {
                                                assert(run_v(init, steps + 1) == step_v(pre));
                                                assert(step_v(pre) =~~= apply_step_v(
                                                    frame_v(frame),
                                                    v@,
                                                    config_of(
                                                        StepV::Landed(Ok(v@)),
                                                        frames@,
                                                        *interpreter,
                                                    ),
                                                ));
                                                assert(halted(run_v(init, steps + 1)));
                                            }
                                            return Err(e);
                                        },
                                    }
                                },
                            }
                        },
                        Err(e) => {
                            proof {
                                assert(halted(run_v(init, steps)));
                            }
                            return Err(e);
                        },
                    }
                },
            }
        }
    }
}

/// The outcome a program that is one literal must have./// The outcome a program that is one literal must have.
pub open spec fn literal_result(tv: TermV) -> Option<Result<ValueV, RuntimeErrorV>> {
    match tv {
        TermV::Int { value, .. } => Some(Ok(ValueV::Int(value))),
        TermV::Str { value, .. } => Some(Ok(ValueV::Str(value))),
        TermV::Bool { value, .. } => Some(Ok(ValueV::Bool(value))),
        _ => None,
    }
}

/// The machine state a whole program starts from: the dispatched root
/// expression, no frames, an empty context, an empty cache, nothing
/// printed. Evaluation from here is a function of the program tree
/// alone; no state crosses from one run into the next.
pub open spec fn start_config(tv: TermV) -> ConfigV {
    ConfigV {
        cur: dispatch_v(tv),
        frames: Seq::empty(),
        env: crate::context::empty_env(),
        cache: Map::empty(),
        out: Seq::empty(),
    }
}

/// What a whole-program entry point must return: the outcome the
/// specification machine reaches from the program's start state, or,
/// for a run that halts within no step bound at all, the budget
/// error.
pub open spec fn eval_file_ok(tv: TermV, r: Result<Value, RuntimeError>) -> bool {
    ||| (exists|n: nat|
        halted(#[trigger] run_v(start_config(tv), n)) && run_v(start_config(tv), n).cur
            == StepV::Landed(outcome_view(r)))
    ||| ((forall|n: nat| n <= u64::MAX ==> !halted(#[trigger] run_v(start_config(tv), n))) && (r
        matches Err(e) && e@.message == "evaluation budget exhausted"@))
}

/// Evaluates a whole program under a fresh context and cache.
pub fn eval_file(file: File) -> (r: Result<Value, RuntimeError>)
    ensures
        eval_file_ok(term_view(file.expression), r),
        literal_result(term_view(file.expression)) matches Some(res) ==> outcome_view(r) == res,
{
    let ghost tv = term_view(file.expression);
    let mut interpreter = Interpreter::new();
    let t = dispatch(Box::new(file.expression));
    let ghost init = config_of(tramp_view(t), Seq::empty(), interpreter);
    let r = t.run(&mut interpreter);
    proof {
        assert(init =~~= start_config(tv));
        if literal_result(tv) is Some {
            match tv {
                TermV::Int { .. } => {},
                TermV::Str { .. } => {},
                TermV::Bool { .. } => {},
                _ => {},
            }
            assert(run_v(start_config(tv), 0) == start_config(tv));
            assert(halted(start_config(tv)));
            assert(start_config(tv).cur == StepV::Landed(literal_result(tv)->0));
            assert forall|n: nat| #[trigger] run_v(start_config(tv), n) == start_config(tv) by {
                lemma_halt_is_final(start_config(tv), n);
            }
        }
    }
    r
}

impl Interpreter {
    /// Evaluates a whole program on a fresh interpreter.
    pub fn eval_file(file: File) -> (r: Result<Value, RuntimeError>)
        ensures
            eval_file_ok(term_view(file.expression), r),
            literal_result(term_view(file.expression)) matches Some(res) ==> outcome_view(r)
                == res,
    {
        let ghost tv = term_view(file.expression);
        let mut interpreter = Interpreter::default();
        let t = dispatch(Box::new(file.expression));
        let ghost init = config_of(tramp_view(t), Seq::empty(), interpreter);
        let r = t.run(&mut interpreter);
        proof {
            assert(init =~~= start_config(tv));
            if literal_result(tv) is Some {
                match tv {
                    TermV::Int { .. } => {},
                    TermV::Str { .. } => {},
                    TermV::Bool { .. } => {},
                    _ => {},
                }
                assert(run_v(start_config(tv), 0) == start_config(tv));
                assert(halted(start_config(tv)));
                assert(start_config(tv).cur == StepV::Landed(literal_result(tv)->0));
                assert forall|n: nat| #[trigger] run_v(start_config(tv), n) == start_config(
                    tv,
                ) by {
                    lemma_halt_is_final(start_config(tv), n);
                }
            }
        }
        r
    }
}

/// Extending a context is non-destructive. The operation builds new
/// contents and returns them; under them a variable with any other
/// name resolves exactly as it did before, and the contents a closure
/// captured earlier keep every binding they had, so the closure goes
/// on resolving its free names against those contents until the
/// call-time merge rule mixes in the caller's.
pub proof fn lemma_extend_non_destructive(
    env: Map<Seq<char>, ValueV>,
    name: Seq<char>,
    v: ValueV,
    other: VarV,
)
    requires
        other.text != name,
    ensures
        var_lookup_v(env.insert(name, v), other) == var_lookup_v(env, other),
        forall|n: Seq<char>|
            n != name ==> env.insert(name, v).contains_key(n) == env.contains_key(n),
        forall|n: Seq<char>| #![auto]
            n != name && env.contains_key(n) ==> env.insert(name, v)[n] == env[n],
{
}

/// On a call, the closure's own captured bindings win over the
/// caller's current bindings wherever both bind a name; names the
/// capture does not bind leak in from the call site.
pub proof fn lemma_call_merge_precedence(
    captured: Map<Seq<char>, ValueV>,
    current: Map<Seq<char>, ValueV>,
    n: Seq<char>,
)
    ensures
        captured.contains_key(n) ==> current.union_prefer_right(captured).contains_key(n)
            && current.union_prefer_right(captured)[n] == captured[n],
        !captured.contains_key(n) && current.contains_key(n) ==> current.union_prefer_right(
            captured,
        ).contains_key(n) && current.union_prefer_right(captured)[n] == current[n],
{
}

} // verus!
