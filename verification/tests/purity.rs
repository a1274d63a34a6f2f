use treewalk::ast::{Function, Int, Location, Print, Term};

use treewalk::engine::is_pure;

fn location() -> Location {
    Location { start: 0, end: 0, filename: "tests".to_string() }
}

fn int_term() -> Box<Term> {
    Box::new(Term::Int(Int { value: 5, location: location() }))
}

fn function(term: Box<Term>) -> Box<Term> {
    Box::new(Term::Function(Function { parameters: vec![], value: term, location: location() }))
}

fn print() -> Box<Term> {
    Box::new(Term::Print(Print {
        value: Box::new(Term::Int(Int { value: 1, location: location() })),
        location: location(),
    }))
}

#[test]
fn can_infer_function_is_pure() {
    let pure_function = function(int_term());

    let is_pure = is_pure(&pure_function);
    assert!(is_pure);
}

#[test]
fn can_infer_function_is_inpure() {
    // () => print(5)
    let inpure_function = *function(print());

    let is_pure = is_pure(&inpure_function);
    assert!(!is_pure);
}

#[test]
fn can_infer_two_levels_function_is_inpure() {
    // () => print(5)
    let inpure_function = function(function(print()));
    let is_pure = is_pure(&inpure_function);

    assert!(!is_pure);
}

#[test]
fn purity_is_shallow_print_under_let_counts_as_pure() {
    let body = Box::new(Term::Let(treewalk::ast::Let {
        name: treewalk::ast::Var { text: "y".to_string(), location: location() },
        value: print(),
        next: Box::new(Term::Var(treewalk::ast::Var {
            text: "y".to_string(),
            location: location(),
        })),
        location: location(),
    }));
    let f = function(body);
    assert!(is_pure(&f));
}
