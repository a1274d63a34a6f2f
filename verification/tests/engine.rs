use treewalk::ast::{
    Binary, BinaryOp, Bool, Call, File, First, Function, If, Int, Let, Location, Print, Second,
    Str, Term, Tuple, Var,
};
use treewalk::engine::{Interpreter, Trampoline, eval_file};
use treewalk::value::{RuntimeError, Value};

fn loc() -> Location {
    Location { start: 0, end: 0, filename: "tests".to_string() }
}

fn num(n: i64) -> Box<Term> {
    Box::new(Term::Int(Int { value: n, location: loc() }))
}

fn text(s: &str) -> Box<Term> {
    Box::new(Term::Str(Str { value: s.to_string(), location: loc() }))
}

fn boolean(b: bool) -> Box<Term> {
    Box::new(Term::Bool(Bool { value: b, location: loc() }))
}

fn var(name: &str) -> Box<Term> {
    Box::new(Term::Var(Var { text: name.to_string(), location: loc() }))
}

fn let_(name: &str, value: Box<Term>, next: Box<Term>) -> Box<Term> {
    Box::new(Term::Let(Let {
        name: Var { text: name.to_string(), location: loc() },
        value,
        next,
        location: loc(),
    }))
}

fn func(params: &[&str], body: Box<Term>) -> Box<Term> {
    let parameters = params
        .iter()
        .map(|p| Var { text: p.to_string(), location: loc() })
        .collect();
    Box::new(Term::Function(Function { parameters, value: body, location: loc() }))
}

fn call(callee: Box<Term>, args: Vec<Term>) -> Box<Term> {
    Box::new(Term::Call(Call { callee, arguments: args, location: loc() }))
}

fn binop(op: BinaryOp, lhs: Box<Term>, rhs: Box<Term>) -> Box<Term> {
    Box::new(Term::Binary(Binary { lhs, op, rhs, location: loc() }))
}

fn iff(condition: Box<Term>, then_branch: Box<Term>, otherwise: Box<Term>) -> Box<Term> {
    Box::new(Term::If(If { condition, then_branch, otherwise, location: loc() }))
}

fn tup(first: Box<Term>, second: Box<Term>) -> Box<Term> {
    Box::new(Term::Tuple(Tuple { first, second, location: loc() }))
}

fn fst(value: Box<Term>) -> Box<Term> {
    Box::new(Term::First(First { value, location: loc() }))
}

fn snd(value: Box<Term>) -> Box<Term> {
    Box::new(Term::Second(Second { value, location: loc() }))
}

fn pr(value: Box<Term>) -> Box<Term> {
    Box::new(Term::Print(Print { value, location: loc() }))
}

fn tramp(t: Box<Term>) -> Trampoline {
    match *t {
        Term::Let(l) => Trampoline::let_(l),
        Term::Function(f) => Trampoline::function(f),
        Term::Call(c) => Trampoline::call(c),
        Term::If(i) => Trampoline::if_(i),
        Term::Binary(b) => Trampoline::binary(b),
        Term::Var(v) => Trampoline::var(v),
        Term::Tuple(t2) => Trampoline::tuple(t2),
        Term::First(f) => Trampoline::first(f),
        Term::Second(s) => Trampoline::second(s),
        Term::Print(p) => Trampoline::print(p),
        _ => panic!("literal programs go through eval_file"),
    }
}

fn run_program(t: Box<Term>) -> (Result<Value, RuntimeError>, Vec<String>) {
    let mut interpreter = Interpreter::default();
    let result = tramp(t).run(&mut interpreter);
    (result, interpreter.output().clone())
}

fn expect_int(result: Result<Value, RuntimeError>) -> i64 {
    match result {
        Ok(Value::Int(n)) => n,
        Ok(_) => panic!("expected an integer value"),
        Err(e) => panic!("expected a value, got error: {}", e.message),
    }
}

fn expect_bool(result: Result<Value, RuntimeError>) -> bool {
    match result {
        Ok(Value::Bool(b)) => b,
        _ => panic!("expected a boolean value"),
    }
}

fn expect_err(result: Result<Value, RuntimeError>) -> RuntimeError {
    match result {
        Err(e) => e,
        Ok(_) => panic!("expected an error"),
    }
}

#[test]
fn add_and_sub_are_exact_when_in_range() {
    let (r, _) = run_program(binop(BinaryOp::Add, num(3), num(4)));
    assert_eq!(expect_int(r), 7);
    let (r, _) = run_program(binop(BinaryOp::Sub, num(3), num(4)));
    assert_eq!(expect_int(r), -1);
}

#[test]
fn add_wraps_at_the_integer_boundary() {
    let (r, _) = run_program(binop(BinaryOp::Add, num(i64::MAX), num(1)));
    assert_eq!(expect_int(r), i64::MIN);
}

#[test]
fn mul_returns_the_difference_by_design() {
    let (r, _) = run_program(binop(BinaryOp::Mul, num(6), num(3)));
    assert_eq!(expect_int(r), 3);
}

#[test]
fn rem_returns_the_quotient_by_design() {
    let (r, _) = run_program(binop(BinaryOp::Rem, num(7), num(2)));
    assert_eq!(expect_int(r), 3);
}

#[test]
fn div_truncates_toward_zero() {
    let (r, _) = run_program(binop(BinaryOp::Div, num(7), num(2)));
    assert_eq!(expect_int(r), 3);
    let (r, _) = run_program(binop(BinaryOp::Div, num(-7), num(2)));
    assert_eq!(expect_int(r), -3);
}

#[test]
fn division_by_zero_is_an_error() {
    let (r, _) = run_program(binop(BinaryOp::Div, num(1), num(0)));
    let e = expect_err(r);
    assert_eq!(e.message, "invalid numeric operation");
    assert_eq!(e.full_text, "cannot divide by zero");
}

#[test]
fn equality_on_one_kind_is_reflexive() {
    let (r, _) = run_program(binop(BinaryOp::Eq, num(1), num(1)));
    assert!(expect_bool(r));
    let (r, _) = run_program(binop(BinaryOp::Eq, text("a"), text("a")));
    assert!(expect_bool(r));
    let (r, _) = run_program(binop(BinaryOp::Neq, boolean(true), boolean(true)));
    assert!(!expect_bool(r));
}

#[test]
fn comparison_across_kinds_fails() {
    let (r, _) = run_program(binop(BinaryOp::Eq, num(1), text("1")));
    let e = expect_err(r);
    assert_eq!(e.message, "invalid comparison");
    assert_eq!(e.full_text, "1 and 1 cannot be compared");
}

#[test]
fn strings_are_ordered_lexicographically() {
    let (r, _) = run_program(binop(BinaryOp::Lt, text("abc"), text("abd")));
    assert!(expect_bool(r));
    let (r, _) = run_program(binop(BinaryOp::Lt, text("b"), text("abc")));
    assert!(!expect_bool(r));
    let (r, _) = run_program(binop(BinaryOp::Lte, text("abc"), text("abc")));
    assert!(expect_bool(r));
}

#[test]
fn logic_operators_need_booleans() {
    let (r, _) = run_program(binop(BinaryOp::And, boolean(true), boolean(false)));
    assert!(!expect_bool(r));
    let (r, _) = run_program(binop(BinaryOp::And, num(1), boolean(true)));
    let e = expect_err(r);
    assert_eq!(e.message, "invalid binary operation");
    assert_eq!(e.full_text, "only booleans can be used on short-circuit operations");
}

#[test]
fn logic_operands_are_evaluated_eagerly() {
    let (r, out) = run_program(binop(BinaryOp::And, boolean(false), pr(boolean(true))));
    assert!(!expect_bool(r));
    assert_eq!(out, vec!["true".to_string()]);
}

#[test]
fn strings_cannot_be_added() {
    let (r, _) = run_program(binop(BinaryOp::Add, text("a"), text("b")));
    let e = expect_err(r);
    assert_eq!(e.message, "invalid numeric operation");
    assert_eq!(e.full_text, "strings cannot be added");
}

#[test]
fn mixed_kinds_cannot_be_added() {
    let (r, _) = run_program(binop(BinaryOp::Add, num(1), boolean(true)));
    let e = expect_err(r);
    assert_eq!(e.message, "invalid numeric operation");
    assert_eq!(e.full_text, "different types cannot be used on the same operation");
}

#[test]
fn unbound_variable_names_it_in_the_detail() {
    let (r, _) = run_program(var("x"));
    let e = expect_err(r);
    assert_eq!(e.message, "unbound variable");
    assert_eq!(e.full_text, "variable \"x\" was not defined in the current scope");
}

#[test]
fn let_binds_and_print_emits_the_sum() {
    let program = let_(
        "x",
        num(1),
        let_("y", num(2), pr(binop(BinaryOp::Add, var("x"), var("y")))),
    );
    let (r, out) = run_program(program);
    assert_eq!(expect_int(r), 3);
    assert_eq!(out, vec!["3".to_string()]);
}

#[test]
fn first_projects_a_call_result() {
    let program = let_(
        "f",
        func(&["a", "b"], tup(var("a"), var("b"))),
        fst(call(var("f"), vec![*num(1), *num(2)])),
    );
    let (r, _) = run_program(program);
    assert_eq!(expect_int(r), 1);
}

#[test]
fn second_projects_the_other_component() {
    let (r, _) = run_program(snd(tup(num(1), num(2))));
    assert_eq!(expect_int(r), 2);
}

#[test]
fn if_takes_the_false_branch() {
    let program = iff(binop(BinaryOp::Eq, num(1), num(2)), boolean(true), boolean(false));
    let (r, _) = run_program(program);
    assert!(!expect_bool(r));
}

#[test]
fn calling_with_too_few_arguments_fails() {
    let program = let_(
        "f",
        func(&["a", "b"], var("a")),
        call(var("f"), vec![*num(1)]),
    );
    let (r, _) = run_program(program);
    let e = expect_err(r);
    assert_eq!(e.message, "invalid arguments");
    assert_eq!(e.full_text, "expecting 1 arguments but got 0");
}

#[test]
fn calling_with_too_many_arguments_fails() {
    let program = let_(
        "f",
        func(&["a"], var("a")),
        call(var("f"), vec![*num(1), *num(2)]),
    );
    let (r, _) = run_program(program);
    let e = expect_err(r);
    assert_eq!(e.message, "invalid arguments");
    assert_eq!(e.full_text, "expecting 0 arguments but got 1");
}

#[test]
fn non_boolean_condition_fails() {
    let (r, _) = run_program(iff(num(1), boolean(true), boolean(false)));
    let e = expect_err(r);
    assert_eq!(e.message, "invalid if condition");
    assert_eq!(e.full_text, "1 can't be used as an if condition. use a boolean instead");
}

#[test]
fn calling_a_non_closure_fails() {
    let program = let_("x", num(1), call(var("x"), vec![]));
    let (r, _) = run_program(program);
    let e = expect_err(r);
    assert_eq!(e.message, "invalid function call");
    assert_eq!(e.full_text, "1 cannot be called as a function");
}

#[test]
fn projecting_a_non_tuple_fails() {
    let (r, _) = run_program(fst(num(1)));
    let e = expect_err(r);
    assert_eq!(e.message, "invalid expression");
    assert_eq!(e.full_text, "cannot use first operation from anything but a tuple");
}

#[test]
fn values_render_canonically() {
    let program = pr(tup(num(1), tup(num(-5), boolean(true))));
    let (_, out) = run_program(program);
    assert_eq!(out, vec!["(1, (-5, true))".to_string()]);
    let (_, out) = run_program(pr(func(&[], num(0))));
    assert_eq!(out, vec!["[closure]".to_string()]);
    let (_, out) = run_program(pr(num(i64::MIN)));
    assert_eq!(out, vec!["-9223372036854775808".to_string()]);
    let (_, out) = run_program(pr(text("raw text")));
    assert_eq!(out, vec!["raw text".to_string()]);
}

#[test]
fn a_closure_resolves_against_its_captured_context() {
    // let x = 1; let f = () -> x; let x = 2; f()
    let program = let_(
        "x",
        num(1),
        let_(
            "f",
            func(&[], var("x")),
            let_("x", num(2), call(var("f"), vec![])),
        ),
    );
    let (r, _) = run_program(program);
    assert_eq!(expect_int(r), 1);
}

#[test]
fn names_bound_after_the_literal_leak_into_the_body() {
    // let f = () -> y; let y = 4; f()
    let program = let_(
        "f",
        func(&[], var("y")),
        let_("y", num(4), call(var("f"), vec![])),
    );
    let (r, _) = run_program(program);
    assert_eq!(expect_int(r), 4);
}

#[test]
fn parameters_shadow_both_contexts() {
    // let x = 1; let f = (x) -> x; f(9)
    let program = let_(
        "x",
        num(1),
        let_("f", func(&["x"], var("x")), call(var("f"), vec![*num(9)])),
    );
    let (r, _) = run_program(program);
    assert_eq!(expect_int(r), 9);
}

fn printing_identity() -> Box<Term> {
    // (n) -> { let y = print(n); y }
    func(&["n"], let_("y", pr(var("n")), var("y")))
}

#[test]
fn memoized_call_suppresses_the_second_print() {
    // let f = (n) -> { let y = print(n); y }; let a = f(7); f(7)
    let program = let_(
        "f",
        printing_identity(),
        let_(
            "a",
            call(var("f"), vec![*num(7)]),
            call(var("f"), vec![*num(7)]),
        ),
    );
    let (r, out) = run_program(program);
    assert_eq!(expect_int(r), 7);
    assert_eq!(out, vec!["7".to_string()]);
}

#[test]
fn distinct_arguments_are_not_shared() {
    let program = let_(
        "f",
        printing_identity(),
        let_(
            "a",
            call(var("f"), vec![*num(1)]),
            call(var("f"), vec![*num(2)]),
        ),
    );
    let (r, out) = run_program(program);
    assert_eq!(expect_int(r), 2);
    assert_eq!(out, vec!["1".to_string(), "2".to_string()]);
}

#[test]
fn closures_sharing_a_body_collide_in_the_cache() {
    // let mk = (c) -> (x) -> { let y = print(c); y };
    // let g1 = mk(1); let g2 = mk(2); let a = g1(5); g2(5)
    let program = let_(
        "mk",
        func(&["c"], func(&["x"], let_("y", pr(var("c")), var("y")))),
        let_(
            "g1",
            call(var("mk"), vec![*num(1)]),
            let_(
                "g2",
                call(var("mk"), vec![*num(2)]),
                let_(
                    "a",
                    call(var("g1"), vec![*num(5)]),
                    call(var("g2"), vec![*num(5)]),
                ),
            ),
        ),
    );
    let (r, out) = run_program(program);
    // The second closure returns the first closure's cached value and
    // prints nothing: the cache key does not include the captured
    // environment.
    assert_eq!(expect_int(r), 1);
    assert_eq!(out, vec!["1".to_string()]);
}

#[test]
fn closure_arguments_disable_memoization() {
    // let d = () -> 0; let f = (n) -> { let y = print(n); y } applied
    // twice with a closure argument would not be cached; here the
    // printing body takes the closure itself.
    // let f = (k) -> { let y = print(1); y }; let a = f(d); f(d)
    let program = let_(
        "d",
        func(&[], num(0)),
        let_(
            "f",
            func(&["k"], let_("y", pr(num(1)), var("y"))),
            let_(
                "a",
                call(var("f"), vec![*var("d")]),
                call(var("f"), vec![*var("d")]),
            ),
        ),
    );
    let (r, out) = run_program(program);
    assert_eq!(expect_int(r), 1);
    // Both calls really ran: a closure argument has no key.
    assert_eq!(out, vec!["1".to_string(), "1".to_string()]);
}

#[test]
fn tuples_differing_only_in_a_closure_share_a_key() {
    // A closure inside a tuple renders as the fixed token, so the two
    // calls get one key and the second is served from the cache.
    // let d = () -> 0; let e = () -> 1;
    // let f = (p) -> { let y = print(99); y };
    // let a = f((1, d)); f((1, e))
    let program = let_(
        "d",
        func(&[], num(0)),
        let_(
            "e",
            func(&[], num(1)),
            let_(
                "f",
                func(&["p"], let_("y", pr(num(99)), var("y"))),
                let_(
                    "a",
                    call(var("f"), vec![*tup(num(1), var("d"))]),
                    call(var("f"), vec![*tup(num(1), var("e"))]),
                ),
            ),
        ),
    );
    let (r, out) = run_program(program);
    assert_eq!(expect_int(r), 99);
    assert_eq!(out, vec!["99".to_string()]);
}

#[test]
fn deep_tail_recursion_completes() {
    // let d = () -> 0;
    // let f = (n, acc, k) -> if n == 0 { acc } else { f(n - 1, acc + n, k) };
    // f(100000, 0, d)
    let body = iff(
        binop(BinaryOp::Eq, var("n"), num(0)),
        var("acc"),
        call(
            var("f"),
            vec![
                *binop(BinaryOp::Sub, var("n"), num(1)),
                *binop(BinaryOp::Add, var("acc"), var("n")),
                *var("k"),
            ],
        ),
    );
    let program = let_(
        "d",
        func(&[], num(0)),
        let_(
            "f",
            func(&["n", "acc", "k"], body),
            call(var("f"), vec![*num(100_000), *num(0), *var("d")]),
        ),
    );
    let (r, out) = run_program(program);
    assert_eq!(expect_int(r), 5_000_050_000);
    assert_eq!(out.len(), 0);
}

#[test]
fn memoized_tail_recursion_completes() {
    // let f = (n) -> if n == 0 { 0 } else { f(n - 1) }; f(300)
    let body = iff(
        binop(BinaryOp::Eq, var("n"), num(0)),
        num(0),
        call(var("f"), vec![*binop(BinaryOp::Sub, var("n"), num(1))]),
    );
    let program = let_(
        "f",
        func(&["n"], body),
        call(var("f"), vec![*num(300)]),
    );
    let (r, _) = run_program(program);
    assert_eq!(expect_int(r), 0);
}

#[test]
fn eval_file_runs_a_whole_program() {
    let program = let_("x", num(1), let_("y", num(2), binop(BinaryOp::Add, var("x"), var("y"))));
    let file = File { name: "tests".to_string(), expression: *program, location: loc() };
    match eval_file(file) {
        Ok(Value::Int(n)) => assert_eq!(n, 3),
        _ => panic!("expected Int(3)"),
    }
    let lit = File { name: "tests".to_string(), expression: *text("hello"), location: loc() };
    match Interpreter::eval_file(lit) {
        Ok(Value::Str(s)) => assert_eq!(s, "hello"),
        _ => panic!("expected the literal back"),
    }
}
