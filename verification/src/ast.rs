use vstd::prelude::*;

verus! {

/// A byte range in a named source file; carried by every node of the
/// program tree and used only for error reporting.
pub struct Location {
    pub start: usize,
    pub end: usize,
    pub filename: String,
}

/// Mathematical image of a `Location`.
#[verifier::ext_equal]
pub struct LocationV {
    pub start: nat,
    pub end: nat,
    pub filename: Seq<char>,
}

impl View for Location {
    type V = LocationV;

    open spec fn view(&self) -> LocationV {
        LocationV {
            start: self.start as nat,
            end: self.end as nat,
            filename: self.filename@,
        }
    }
}

/// A variable reference, or a parameter name in a function literal.
pub struct Var {
    pub text: String,
    pub location: Location,
}

/// Mathematical image of a `Var`.
#[verifier::ext_equal]
pub struct VarV {
    pub text: Seq<char>,
    pub location: LocationV,
}

impl View for Var {
    type V = VarV;

    open spec fn view(&self) -> VarV {
        VarV { text: self.text@, location: self.location@ }
    }
}

/// An integer literal.
pub struct Int {
    pub value: i64,
    pub location: Location,
}

/// A string literal.
pub struct Str {
    pub value: String,
    pub location: Location,
}

/// A boolean literal.
pub struct Bool {
    pub value: bool,
    pub location: Location,
}

/// A binding: `let name = value; next`.
pub struct Let {
    pub name: Var,
    pub value: Box<Term>,
    pub next: Box<Term>,
    pub location: Location,
}

/// A function literal with an ordered parameter list and a body.
pub struct Function {
    pub parameters: Vec<Var>,
    pub value: Box<Term>,
    pub location: Location,
}

/// A call of a callee expression on an ordered argument list.
pub struct Call {
    pub callee: Box<Term>,
    pub arguments: Vec<Term>,
    pub location: Location,
}

/// A two-armed conditional.
pub struct If {
    pub condition: Box<Term>,
    pub then_branch: Box<Term>,
    pub otherwise: Box<Term>,
    pub location: Location,
}

/// The binary operators of the language.
#[derive(Clone, Copy, PartialEq, Eq, Structural)]
pub enum BinaryOp {
    Eq,
    Neq,
    Lt,
    Lte,
    Gt,
    Gte,
    And,
    Or,
    Add,
    Sub,
    Mul,
    Div,
    Rem,
}

/// An application of a binary operator to two operand expressions.
pub struct Binary {
    pub lhs: Box<Term>,
    pub op: BinaryOp,
    pub rhs: Box<Term>,
    pub location: Location,
}

/// A pair constructor.
pub struct Tuple {
    pub first: Box<Term>,
    pub second: Box<Term>,
    pub location: Location,
}

/// Projection of the first component of a pair.
pub struct First {
    pub value: Box<Term>,
    pub location: Location,
}

/// Projection of the second component of a pair.
pub struct Second {
    pub value: Box<Term>,
    pub location: Location,
}

/// The one effectful node: prints its operand's value.
pub struct Print {
    pub value: Box<Term>,
    pub location: Location,
}

/// A node of the parsed program tree.
pub enum Term {
    Int(Int),
    Str(Str),
    Bool(Bool),
    Var(Var),
    Let(Let),
    Function(Function),
    Call(Call),
    If(If),
    Binary(Binary),
    Tuple(Tuple),
    First(First),
    Second(Second),
    Print(Print),
}

/// Mathematical image of a `Term`: strings become character sequences
/// and vectors become sequences, so that two trees with the same
/// content have equal images.
#[verifier::ext_equal]
pub enum TermV {
    Int { value: i64, location: LocationV },
    Str { value: Seq<char>, location: LocationV },
    Bool { value: bool, location: LocationV },
    Var { text: Seq<char>, location: LocationV },
    Let { name: VarV, value: Box<TermV>, next: Box<TermV>, location: LocationV },
    Function { parameters: Seq<VarV>, value: Box<TermV>, location: LocationV },
    Call { callee: Box<TermV>, arguments: Seq<TermV>, location: LocationV },
    If { condition: Box<TermV>, then_branch: Box<TermV>, otherwise: Box<TermV>, location: LocationV },
    Binary { lhs: Box<TermV>, op: BinaryOp, rhs: Box<TermV>, location: LocationV },
    Tuple { first: Box<TermV>, second: Box<TermV>, location: LocationV },
    First { value: Box<TermV>, location: LocationV },
    Second { value: Box<TermV>, location: LocationV },
    Print { value: Box<TermV>, location: LocationV },
}

/// Mathematical image of a term tree.
pub open spec fn term_view(t: Term) -> TermV
    decreases t,
{
    match t {
        Term::Int(n) => TermV::Int { value: n.value, location: n.location@ },
        Term::Str(s) => TermV::Str { value: s.value@, location: s.location@ },
        Term::Bool(b) => TermV::Bool { value: b.value, location: b.location@ },
        Term::Var(v) => TermV::Var { text: v.text@, location: v.location@ },
        Term::Let(l) => TermV::Let {
            name: l.name@,
            value: Box::new(term_view(*l.value)),
            next: Box::new(term_view(*l.next)),
            location: l.location@,
        },
        Term::Function(f) => TermV::Function {
            parameters: Seq::new(f.parameters@.len(), |i: int| f.parameters@[i]@),
            value: Box::new(term_view(*f.value)),
            location: f.location@,
        },
        Term::Call(c) => TermV::Call {
            callee: Box::new(term_view(*c.callee)),
            arguments: Seq::new(
                c.arguments@.len(),
                |i: int|
                    if 0 <= i < c.arguments@.len() {
                        term_view(c.arguments@[i])
                    } else {
                        arbitrary()
                    },
            ),
            location: c.location@,
        },
        Term::If(i) => TermV::If {
            condition: Box::new(term_view(*i.condition)),
            then_branch: Box::new(term_view(*i.then_branch)),
            otherwise: Box::new(term_view(*i.otherwise)),
            location: i.location@,
        },
        Term::Binary(b) => TermV::Binary {
            lhs: Box::new(term_view(*b.lhs)),
            op: b.op,
            rhs: Box::new(term_view(*b.rhs)),
            location: b.location@,
        },
        Term::Tuple(t2) => TermV::Tuple {
            first: Box::new(term_view(*t2.first)),
            second: Box::new(term_view(*t2.second)),
            location: t2.location@,
        },
        Term::First(f) => TermV::First { value: Box::new(term_view(*f.value)), location: f.location@ },
        Term::Second(s) => TermV::Second { value: Box::new(term_view(*s.value)), location: s.location@ },
        Term::Print(p) => TermV::Print { value: Box::new(term_view(*p.value)), location: p.location@ },
    }
}

impl View for Term {
    type V = TermV;

    open spec fn view(&self) -> TermV {
        term_view(*self)
    }
}

impl Term {
    /// The source location of this node.
    pub fn location(&self) -> (r: &Location)
        ensures
            r@ == self.loc_spec(),
    {
        match self {
            Term::Int(n) => &n.location,
            Term::Str(s) => &s.location,
            Term::Bool(b) => &b.location,
            Term::Var(v) => &v.location,
            Term::Let(l) => &l.location,
            Term::Function(f) => &f.location,
            Term::Call(c) => &c.location,
            Term::If(i) => &i.location,
            Term::Binary(b) => &b.location,
            Term::Tuple(t) => &t.location,
            Term::First(f) => &f.location,
            Term::Second(s) => &s.location,
            Term::Print(p) => &p.location,
        }
    }

    /// The location recorded in this node's image.
    pub open spec fn loc_spec(&self) -> LocationV {
        termv_loc(self@)
    }
}

/// The location a node's image carries.
pub open spec fn termv_loc(tv: TermV) -> LocationV {
    match tv {
        TermV::Int { location, .. } => location,
        TermV::Str { location, .. } => location,
        TermV::Bool { location, .. } => location,
        TermV::Var { location, .. } => location,
        TermV::Let { location, .. } => location,
        TermV::Function { location, .. } => location,
        TermV::Call { location, .. } => location,
        TermV::If { location, .. } => location,
        TermV::Binary { location, .. } => location,
        TermV::Tuple { location, .. } => location,
        TermV::First { location, .. } => location,
        TermV::Second { location, .. } => location,
        TermV::Print { location, .. } => location,
    }
}

/// A whole parsed program: one root expression and the file it came from.
pub struct File {
    pub name: String,
    pub expression: Term,
    pub location: Location,
}

} // verus!
