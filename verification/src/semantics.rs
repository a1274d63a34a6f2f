use vstd::prelude::*;

use crate::ast::{BinaryOp, LocationV, TermV, termv_loc};
use crate::cache::CacheKeyV;
use crate::engine::{
    arity_error_v, call_error_v, call_key_v, first_proj_v, if_error_v, second_proj_v,
    update_context_v, var_lookup_v,
};
use crate::text::render_v;
use crate::value::{RuntimeErrorV, ValueV, eval_binary_v};

verus! {

/// The work the machine is on: a node still to be taken apart, or a
/// finished outcome waiting for the innermost suspended frame.
#[verifier::ext_equal]
pub enum StepV {
    Pending(TermV),
    Landed(Result<ValueV, RuntimeErrorV>),
}

/// One suspended piece of work, at the level of images. Mirrors the
/// machine's `Frame`, with contexts as their contents.
#[verifier::ext_equal]
pub enum FrameV {
    LetNext { name: Seq<char>, next: TermV, saved: Map<Seq<char>, ValueV> },
    IfBranch {
        then_branch: TermV,
        otherwise: TermV,
        saved: Map<Seq<char>, ValueV>,
        cond_loc: LocationV,
    },
    BinaryRhs { op: BinaryOp, rhs: TermV, saved: Map<Seq<char>, ValueV>, loc: LocationV },
    BinaryApply { op: BinaryOp, lhs: ValueV, loc: LocationV },
    TupleSecond { second: TermV, saved: Map<Seq<char>, ValueV> },
    TupleMake { first: ValueV },
    FirstProj { loc: LocationV },
    SecondProj { loc: LocationV },
    PrintValue,
    CallCallee { arguments: Seq<TermV>, saved: Map<Seq<char>, ValueV>, loc: LocationV },
    CallArg {
        remaining_rev: Seq<TermV>,
        done: Seq<ValueV>,
        callee: ValueV,
        merged: Map<Seq<char>, ValueV>,
        loc: LocationV,
    },
    MemoStore { key: CacheKeyV },
}

/// A whole machine state: the current work, the suspended frames
/// (innermost last), the current context contents, the cache contents
/// and the lines printed so far.
#[verifier::ext_equal]
pub struct ConfigV {
    pub cur: StepV,
    pub frames: Seq<FrameV>,
    pub env: Map<Seq<char>, ValueV>,
    pub cache: Map<CacheKeyV, ValueV>,
    pub out: Seq<Seq<char>>,
}

/// A configuration that takes no more steps: an error, or a value
/// with no suspended frame left.
pub open spec fn halted(c: ConfigV) -> bool {
    match c.cur {
        StepV::Landed(res) => res is Err || c.frames.len() == 0,
        StepV::Pending(_) => false,
    }
}

/// Turning one node into work: a literal lands at once with its
/// value; every other node is pending.
pub open spec fn dispatch_v(tv: TermV) -> StepV {
    match tv {
        TermV::Int { value, .. } => StepV::Landed(Ok(ValueV::Int(value))),
        TermV::Str { value, .. } => StepV::Landed(Ok(ValueV::Str(value))),
        TermV::Bool { value, .. } => StepV::Landed(Ok(ValueV::Bool(value))),
        _ => StepV::Pending(tv),
    }
}

/// An argument list in reverse order, so that the machine takes
/// arguments from the end.
pub open spec fn rev_terms_v(s: Seq<TermV>) -> Seq<TermV> {
    Seq::new(s.len(), |i: int| s[s.len() - 1 - i])
}

/// One step on a pending node: a literal lands; a function literal
/// closes over the current context; a variable resolves in it; every
/// other node suspends its continuation as a frame and turns to its
/// first sub-expression.
pub open spec fn pending_step_v(tv: TermV, c: ConfigV) -> ConfigV {
    match tv {
        TermV::Int { .. } | TermV::Str { .. } | TermV::Bool { .. } => ConfigV {
            cur: dispatch_v(tv),
            frames: c.frames,
            env: c.env,
            cache: c.cache,
            out: c.out,
        },
        TermV::Function { parameters, value, .. } => ConfigV {
            cur: StepV::Landed(
                Ok(ValueV::Closure { parameters, body: *value, env: c.env }),
            ),
            frames: c.frames,
            env: c.env,
            cache: c.cache,
            out: c.out,
        },
        TermV::Var { text, location } => ConfigV {
            cur: StepV::Landed(var_lookup_v(c.env, crate::ast::VarV { text, location })),
            frames: c.frames,
            env: c.env,
            cache: c.cache,
            out: c.out,
        },
        TermV::Let { name, value, next, .. } => ConfigV {
            cur: dispatch_v(*value),
            frames: c.frames.push(
                FrameV::LetNext { name: name.text, next: *next, saved: c.env },
            ),
            env: c.env,
            cache: c.cache,
            out: c.out,
        },
        TermV::If { condition, then_branch, otherwise, .. } => ConfigV {
            cur: dispatch_v(*condition),
            frames: c.frames.push(
                FrameV::IfBranch {
                    then_branch: *then_branch,
                    otherwise: *otherwise,
                    saved: c.env,
                    cond_loc: termv_loc(*condition),
                },
            ),
            env: c.env,
            cache: c.cache,
            out: c.out,
        },
        TermV::Binary { lhs, op, rhs, .. } => ConfigV {
            cur: dispatch_v(*lhs),
            frames: c.frames.push(
                FrameV::BinaryRhs { op, rhs: *rhs, saved: c.env, loc: termv_loc(*lhs) },
            ),
            env: c.env,
            cache: c.cache,
            out: c.out,
        },
        TermV::Tuple { first, second, .. } => ConfigV {
            cur: dispatch_v(*first),
            frames: c.frames.push(FrameV::TupleSecond { second: *second, saved: c.env }),
            env: c.env,
            cache: c.cache,
            out: c.out,
        },
        TermV::First { value, location } => ConfigV {
            cur: dispatch_v(*value),
            frames: c.frames.push(FrameV::FirstProj { loc: location }),
            env: c.env,
            cache: c.cache,
            out: c.out,
        },
        TermV::Second { value, location } => ConfigV {
            cur: dispatch_v(*value),
            frames: c.frames.push(FrameV::SecondProj { loc: location }),
            env: c.env,
            cache: c.cache,
            out: c.out,
        },
        TermV::Print { value, .. } => ConfigV {
            cur: dispatch_v(*value),
            frames: c.frames.push(FrameV::PrintValue),
            env: c.env,
            cache: c.cache,
            out: c.out,
        },
        TermV::Call { callee, arguments, location } => ConfigV {
            cur: dispatch_v(*callee),
            frames: c.frames.push(
                FrameV::CallCallee { arguments, saved: c.env, loc: location },
            ),
            env: c.env,
            cache: c.cache,
            out: c.out,
        },
    }
}

/// Entering a closure's body once every argument is in hand: the
/// parameters are bound over the merged context, an argument-count
/// mismatch fails, and a pure body with a keyed argument list goes
/// through the cache — a hit lands the stored value without entering
/// the body, a miss suspends the store and enters it.
pub open spec fn finish_call_v(
    callee: ValueV,
    args: Seq<ValueV>,
    merged: Map<Seq<char>, ValueV>,
    loc: LocationV,
    c: ConfigV,
) -> ConfigV {
    match update_context_v(merged, callee->Closure_parameters, args, loc) {
        Err(e) => ConfigV {
            cur: StepV::Landed(Err(e)),
            frames: c.frames,
            env: c.env,
            cache: c.cache,
            out: c.out,
        },
        Ok(bound) => match call_key_v(callee->Closure_body, args) {
            Some(k) => if c.cache.contains_key(k) {
                ConfigV {
                    cur: StepV::Landed(Ok(c.cache[k])),
                    frames: c.frames,
                    env: bound,
                    cache: c.cache,
                    out: c.out,
                }
            } else {
                ConfigV {
                    cur: dispatch_v(callee->Closure_body),
                    frames: c.frames.push(FrameV::MemoStore { key: k }),
                    env: bound,
                    cache: c.cache,
                    out: c.out,
                }
            },
            None => ConfigV {
                cur: dispatch_v(callee->Closure_body),
                frames: c.frames,
                env: bound,
                cache: c.cache,
                out: c.out,
            },
        },
    }
}

/// Entering a call reads the frames, context, cache and output of a
/// configuration, never the work field: two configurations that agree
/// on those enter a call the same way.
pub proof fn lemma_finish_cur_blind(
    callee: ValueV,
    args: Seq<ValueV>,
    merged: Map<Seq<char>, ValueV>,
    loc: LocationV,
    c1: ConfigV,
    c2: ConfigV,
)
    requires
        c1.frames == c2.frames,
        c1.env == c2.env,
        c1.cache == c2.cache,
        c1.out == c2.out,
    ensures
        finish_call_v(callee, args, merged, loc, c1) == finish_call_v(callee, args, merged, loc, c2),
{
    match update_context_v(merged, callee->Closure_parameters, args, loc) {
        Err(_) => {
            assert(finish_call_v(callee, args, merged, loc, c1) =~= finish_call_v(
                callee,
                args,
                merged,
                loc,
                c2,
            ));
        },
        Ok(_) => {
            assert(finish_call_v(callee, args, merged, loc, c1) =~= finish_call_v(
                callee,
                args,
                merged,
                loc,
                c2,
            ));
        },
    }
}

/// One step on a landed value and the innermost suspended frame.
/// `c` already holds the remaining frames.
pub open spec fn apply_step_v(f: FrameV, v: ValueV, c: ConfigV) -> ConfigV {
    match f {
        FrameV::LetNext { name, next, saved } => ConfigV {
            cur: dispatch_v(next),
            frames: c.frames,
            env: saved.insert(name, v),
            cache: c.cache,
            out: c.out,
        },
        FrameV::IfBranch { then_branch, otherwise, saved, cond_loc } => match v {
            ValueV::Bool(b) => ConfigV {
                cur: dispatch_v(
                    if b {
                        then_branch
                    } else {
                        otherwise
                    },
                ),
                frames: c.frames,
                env: saved,
                cache: c.cache,
                out: c.out,
            },
            _ => ConfigV {
                cur: StepV::Landed(Err(if_error_v(v, cond_loc))),
                frames: c.frames,
                env: c.env,
                cache: c.cache,
                out: c.out,
            },
        },
        FrameV::BinaryRhs { op, rhs, saved, loc } => ConfigV {
            cur: dispatch_v(rhs),
            frames: c.frames.push(FrameV::BinaryApply { op, lhs: v, loc }),
            env: saved,
            cache: c.cache,
            out: c.out,
        },
        FrameV::BinaryApply { op, lhs, loc } => ConfigV {
            cur: StepV::Landed(eval_binary_v(op, lhs, v, loc)),
            frames: c.frames,
            env: c.env,
            cache: c.cache,
            out: c.out,
        },
        FrameV::TupleSecond { second, saved } => ConfigV {
            cur: dispatch_v(second),
            frames: c.frames.push(FrameV::TupleMake { first: v }),
            env: saved,
            cache: c.cache,
            out: c.out,
        },
        FrameV::TupleMake { first } => ConfigV {
            cur: StepV::Landed(Ok(ValueV::Tuple(Box::new(first), Box::new(v)))),
            frames: c.frames,
            env: c.env,
            cache: c.cache,
            out: c.out,
        },
        FrameV::FirstProj { loc } => ConfigV {
            cur: StepV::Landed(first_proj_v(v, loc)),
            frames: c.frames,
            env: c.env,
            cache: c.cache,
            out: c.out,
        },
        FrameV::SecondProj { loc } => ConfigV {
            cur: StepV::Landed(second_proj_v(v, loc)),
            frames: c.frames,
            env: c.env,
            cache: c.cache,
            out: c.out,
        },
        FrameV::PrintValue => ConfigV {
            cur: StepV::Landed(Ok(v)),
            frames: c.frames,
            env: c.env,
            cache: c.cache,
            out: c.out.push(render_v(v)),
        },
        FrameV::CallCallee { arguments, saved, loc } => match v {
            ValueV::Closure { .. } => {
                let merged = saved.union_prefer_right(v->Closure_env);
                if arguments.len() == 0 {
                    finish_call_v(v, Seq::empty(), merged, loc, c)
                } else {
                    ConfigV {
                        cur: dispatch_v(arguments[0]),
                        frames: c.frames.push(
                            FrameV::CallArg {
                                remaining_rev: rev_terms_v(arguments).drop_last(),
                                done: Seq::empty(),
                                callee: v,
                                merged,
                                loc,
                            },
                        ),
                        env: merged,
                        cache: c.cache,
                        out: c.out,
                    }
                }
            },
            _ => ConfigV {
                cur: StepV::Landed(Err(call_error_v(v, loc))),
                frames: c.frames,
                env: c.env,
                cache: c.cache,
                out: c.out,
            },
        },
        FrameV::CallArg { remaining_rev, done, callee, merged, loc } => {
            if remaining_rev.len() > 0 {
                ConfigV {
                    cur: dispatch_v(remaining_rev.last()),
                    frames: c.frames.push(
                        FrameV::CallArg {
                            remaining_rev: remaining_rev.drop_last(),
                            done: done.push(v),
                            callee,
                            merged,
                            loc,
                        },
                    ),
                    env: merged,
                    cache: c.cache,
                    out: c.out,
                }
            } else {
                finish_call_v(callee, done.push(v), merged, loc, c)
            }
        },
        FrameV::MemoStore { key } => ConfigV {
            cur: StepV::Landed(Ok(v)),
            frames: c.frames,
            env: c.env,
            cache: c.cache.insert(key, v),
            out: c.out,
        },
    }
}

/// A call whose body counts as pure, whose arguments have a key, and
/// whose key is already stored lands the stored value at once: the
/// body is not entered, so no print can run again, and the frames,
/// cache and output are left as they were.
pub proof fn lemma_memo_hit_returns_stored(
    callee: ValueV,
    args: Seq<ValueV>,
    merged: Map<Seq<char>, ValueV>,
    loc: LocationV,
    c: ConfigV,
)
    requires
        update_context_v(merged, callee->Closure_parameters, args, loc) is Ok,
        call_key_v(callee->Closure_body, args) is Some,
        c.cache.contains_key(call_key_v(callee->Closure_body, args)->0),
    ensures
        finish_call_v(callee, args, merged, loc, c).cur == StepV::Landed(
            Ok(c.cache[call_key_v(callee->Closure_body, args)->0]),
        ),
        finish_call_v(callee, args, merged, loc, c).frames == c.frames,
        finish_call_v(callee, args, merged, loc, c).cache == c.cache,
        finish_call_v(callee, args, merged, loc, c).out == c.out,
{
}

/// One step of the machine. Halted configurations step to themselves,
/// so the outcome read at any later step is the first outcome.
pub open spec fn step_v(c: ConfigV) -> ConfigV {
    if halted(c) {
        c
    } else {
        match c.cur {
            StepV::Pending(tv) => pending_step_v(tv, c),
            StepV::Landed(res) => apply_step_v(
                c.frames.last(),
                res->Ok_0,
                ConfigV {
                    cur: c.cur,
                    frames: c.frames.drop_last(),
                    env: c.env,
                    cache: c.cache,
                    out: c.out,
                },
            ),
        }
    }
}

/// The machine after a number of steps.
pub open spec fn run_v(c: ConfigV, n: nat) -> ConfigV
    decreases n,
{
    if n == 0 {
        c
    } else {
        step_v(run_v(c, (n - 1) as nat))
    }
}

/// A halted configuration stays put: whatever step the outcome is
/// read at, it is the first outcome the machine reached.
pub proof fn lemma_halt_is_final(c: ConfigV, n: nat)
    requires
        halted(c),
    ensures
        run_v(c, n) == c,
    decreases n,
{
    if n > 0 {
        lemma_halt_is_final(c, (n - 1) as nat);
    }
}

} // verus!
