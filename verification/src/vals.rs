use vstd::prelude::*;

use crate::terms::{Stmt, Term};
use std::rc::Rc;

verus! {

// the value environment, a persistent map from names to values

/// The value environment: a persistent chain of bindings. Insertion returns
/// a new environment whose tail is shared with the old one, which stays
/// valid and unchanged; lookup takes the newest binding of a name, so a new
/// binding shadows an older one without deleting it.
#[derive(Debug)]
pub struct ValContext {
    pub node: Rc<CtxNode>,
}

#[derive(Debug)]
pub enum CtxNode {
    Empty,
    Entry { rest: ValContext, name: String, val: Val },
}

impl ValContext {
    /// The bindings as a mathematical map: the newest binding of each name.
    pub open spec fn as_map(self) -> Map<Seq<char>, Val>
        decreases self,
    {
        match *self.node {
            CtxNode::Empty => Map::empty(),
            CtxNode::Entry { rest, name, val } => rest.as_map().insert(name@, val),
        }
    }

    /// The environment with one more binding, as a mathematical value.
    pub open spec fn spec_extended(self, name: String, val: Val) -> ValContext {
        ValContext { node: Rc::new(CtxNode::Entry { rest: self, name, val }) }
    }

    /// The empty environment.
    pub fn empty() -> (c: ValContext)
        ensures
            c == (ValContext { node: Rc::new(CtxNode::Empty) }),
            c.as_map() == Map::<Seq<char>, Val>::empty(),
    {
        ValContext { node: Rc::new(CtxNode::Empty) }
    }

    /// An equal environment sharing the same bindings.
    pub fn dup(&self) -> (c: ValContext)
        ensures
            c == *self,
    {
        ValContext { node: Rc::clone(&self.node) }
    }

    /// A new environment with `name` bound to `val`; the old environment is
    /// shared as the tail of the new one and is left unchanged.
    pub fn insert(&self, name: &String, val: Val) -> (c: ValContext)
        ensures
            c == self.spec_extended(*name, val),
            c.as_map() == self.as_map().insert(name@, val),
    {
        ValContext { node: Rc::new(CtxNode::Entry { rest: self.dup(), name: name.clone(), val }) }
    }

    /// Look `name` up: the newest binding wins.
    pub fn get(&self, name: &String) -> (r: Option<&Val>)
        ensures
            match r {
                Some(v) => self.as_map().contains_key(name@) && *v == self.as_map()[name@],
                None => !self.as_map().contains_key(name@),
            },
        decreases *self,
    {
        match &*self.node {
            CtxNode::Empty => None,
            CtxNode::Entry { rest, name: n, val } => if *n == *name {
                Some(val)
            } else {
                rest.get(name)
            },
        }
    }
}

// values

/// A runtime value: a primitive, a closure capturing its environment by
/// shared reference, or a native (host-supplied) function.
#[derive(Debug)]
pub enum Val {
    Abs { val_ctx: ValContext, param: String, body: Rc<Term> },
    Native(NativeFn),
    Bool(bool),
    Int(i32),
    Unit,
}

/// A native function: the operation, with the arguments it has collected so
/// far. Handing it one argument at a time makes every partial application a
/// first-class value.
#[derive(Debug)]
pub enum NativeFn {
    /// Awaiting its first argument.
    Fun(NativeOp),
    /// A binary operation that has received its first argument.
    Part1(NativeOp, Box<Val>),
}

/// The native operations a host can bind: boolean connectives, integer
/// arithmetic and comparison, and printing an integer.
#[derive(Clone, Copy, Debug, PartialEq, Eq, Structural)]
pub enum NativeOp {
    Not,
    And,
    Or,
    Xor,
    Neg,
    Add,
    Mul,
    Div,
    Mod,
    Eq,
    Gt,
    Gte,
    Lt,
    Lte,
    Shl,
    Shr,
    Print,
}

/// How many arguments a native operation takes.
pub open spec fn op_arity(op: NativeOp) -> nat {
    match op {
        NativeOp::Not | NativeOp::Neg | NativeOp::Print => 1,
        _ => 2,
    }
}

impl Val {
    /// A native function value for the given operation.
    pub fn native(op: NativeOp) -> (v: Val)
        ensures
            v == Val::Native(NativeFn::Fun(op)),
    {
        Val::Native(NativeFn::Fun(op))
    }

    /// A native function value for a unary operation.
    pub fn op1(op: NativeOp) -> (v: Val)
        requires
            op_arity(op) == 1,
        ensures
            v == Val::Native(NativeFn::Fun(op)),
    {
        Val::native(op)
    }

    /// A native function value for a binary operation, applied one argument
    /// at a time.
    pub fn op2(op: NativeOp) -> (v: Val)
        requires
            op_arity(op) == 2,
        ensures
            v == Val::Native(NativeFn::Fun(op)),
    {
        Val::native(op)
    }

    /// An equal copy of this value; a closure's captured environment and
    /// body are shared, not copied.
    pub fn dup(&self) -> (r: Val)
        ensures
            r == *self,
        decreases *self,
    {
        match self {
            Val::Abs { val_ctx, param, body } => Val::Abs {
                val_ctx: val_ctx.dup(),
                param: param.clone(),
                body: Rc::clone(body),
            },
            Val::Native(NativeFn::Fun(op)) => Val::Native(NativeFn::Fun(*op)),
            Val::Native(NativeFn::Part1(op, a)) => Val::Native(
                NativeFn::Part1(*op, Box::new(a.dup())),
            ),
            Val::Bool(b) => Val::Bool(*b),
            Val::Int(i) => Val::Int(*i),
            Val::Unit => Val::Unit,
        }
    }
}

/// The display form of a value: functions print opaquely, booleans as
/// "True" and "False", integers in decimal, unit as "Unit".
pub open spec fn val_text(v: Val) -> Seq<char> {
    match v {
        Val::Abs { .. } => seq!['<', 'f', 'u', 'n', '>'],
        Val::Native(_) => seq!['<', 'f', 'u', 'n', '>'],
        Val::Bool(b) => if b {
            seq!['T', 'r', 'u', 'e']
        } else {
            seq!['F', 'a', 'l', 's', 'e']
        },
        Val::Int(i) => crate::text::decimal(i as int),
        Val::Unit => seq!['U', 'n', 'i', 't'],
    }
}

impl Val {
    /// Render this value in its display form.
    pub fn to_text(&self) -> (r: String)
        ensures
            r@ == val_text(*self),
    {
        match self {
            Val::Abs { .. } | Val::Native(_) => {
                proof {
                    reveal_strlit("<fun>");
                }
                let r: String = "<fun>".to_owned();
                proof {
                    assert(r@ =~= val_text(*self));
                }
                r
            },
            Val::Bool(b) => {
                proof {
                    reveal_strlit("True");
                    reveal_strlit("False");
                }
                let r: String = if *b {
                    "True".to_owned()
                } else {
                    "False".to_owned()
                };
                proof {
                    assert(r@ =~= val_text(*self));
                }
                r
            },
            Val::Int(i) => crate::text::int_to_text(*i),
            Val::Unit => {
                proof {
                    reveal_strlit("Unit");
                }
                let r: String = "Unit".to_owned();
                proof {
                    assert(r@ =~= val_text(*self));
                }
                r
            },
        }
    }
}

// evaluation errors

/// Why evaluation fails. The language's own rules fail only by running out
/// of fuel; the other errors come from native operations. `Fatal` marks an
/// ill-typed term reaching the evaluator — the typing precondition was
/// violated — and is never produced for a term that type-checks.
#[derive(Clone, Copy, Debug, PartialEq, Eq, Structural)]
pub enum ValError {
    DivisionByZero,
    ShiftOutOfRange,
    OutOfFuel,
    Fatal,
}

pub type ValResult<T> = Result<T, ValError>;

// the evaluation rules, as one mathematical function

/// What a unary native operation returns, with what it prints.
pub open spec fn sem_op1(op: NativeOp, a: Val) -> (Result<Val, ValError>, Seq<i32>) {
    match (op, a) {
        (NativeOp::Not, Val::Bool(x)) => (Ok(Val::Bool(!x)), Seq::empty()),
        (NativeOp::Neg, Val::Int(x)) => (Ok(Val::Int((0i32).wrapping_sub(x))), Seq::empty()),
        (NativeOp::Print, Val::Int(x)) => (Ok(Val::Unit), seq![x]),
        _ => (Err(ValError::Fatal), Seq::empty()),
    }
}

/// What a binary native operation returns. Addition and multiplication
/// wrap around; division and remainder reject a zero divisor; shifts
/// reject a shift amount outside 0..32.
pub open spec fn sem_op2(op: NativeOp, a: Val, b: Val) -> (Result<Val, ValError>, Seq<i32>) {
    match (op, a, b) {
        (NativeOp::And, Val::Bool(x), Val::Bool(y)) => (Ok(Val::Bool(x && y)), Seq::empty()),
        (NativeOp::Or, Val::Bool(x), Val::Bool(y)) => (Ok(Val::Bool(x || y)), Seq::empty()),
        (NativeOp::Xor, Val::Bool(x), Val::Bool(y)) => (Ok(Val::Bool(x != y)), Seq::empty()),
        (NativeOp::Add, Val::Int(x), Val::Int(y)) => (Ok(Val::Int(x.wrapping_add(y))), Seq::empty()),
        (NativeOp::Mul, Val::Int(x), Val::Int(y)) => (Ok(Val::Int(x.wrapping_mul(y))), Seq::empty()),
        (NativeOp::Div, Val::Int(x), Val::Int(y)) => if y == 0 {
            (Err(ValError::DivisionByZero), Seq::empty())
        } else {
            match x.checked_div(y) {
                Some(v) => (Ok(Val::Int(v)), Seq::empty()),
                None => (Ok(Val::Int(i32::MIN)), Seq::empty()),
            }
        },
        (NativeOp::Mod, Val::Int(x), Val::Int(y)) => if y == 0 {
            (Err(ValError::DivisionByZero), Seq::empty())
        } else {
            match x.checked_rem(y) {
                Some(v) => (Ok(Val::Int(v)), Seq::empty()),
                None => (Ok(Val::Int(0)), Seq::empty()),
            }
        },
        (NativeOp::Eq, Val::Int(x), Val::Int(y)) => (Ok(Val::Bool(x == y)), Seq::empty()),
        (NativeOp::Gt, Val::Int(x), Val::Int(y)) => (Ok(Val::Bool(x > y)), Seq::empty()),
        (NativeOp::Gte, Val::Int(x), Val::Int(y)) => (Ok(Val::Bool(x >= y)), Seq::empty()),
        (NativeOp::Lt, Val::Int(x), Val::Int(y)) => (Ok(Val::Bool(x < y)), Seq::empty()),
        (NativeOp::Lte, Val::Int(x), Val::Int(y)) => (Ok(Val::Bool(x <= y)), Seq::empty()),
        (NativeOp::Shl, Val::Int(x), Val::Int(y)) => if y < 0 || y >= 32 {
            (Err(ValError::ShiftOutOfRange), Seq::empty())
        } else {
            (Ok(Val::Int(x.wrapping_shl(y as u32))), Seq::empty())
        },
        (NativeOp::Shr, Val::Int(x), Val::Int(y)) => if y < 0 || y >= 32 {
            (Err(ValError::ShiftOutOfRange), Seq::empty())
        } else {
            (Ok(Val::Int(x.wrapping_shr(y as u32))), Seq::empty())
        },
        _ => (Err(ValError::Fatal), Seq::empty()),
    }
}

/// The value of `t` in `ctx` with the given fuel, paired with what it
/// prints, in order. Fuel is spent once per function application, so any
/// terminating evaluation succeeds with enough fuel.
pub open spec fn eval_f(t: Term, ctx: ValContext, fuel: nat) -> (Result<Val, ValError>, Seq<i32>)
    decreases fuel, 0nat, t,
{
    match t {
        Term::Var { name } => (
            if ctx.as_map().contains_key(name@) {
                Ok(ctx.as_map()[name@])
            } else {
                Err(ValError::Fatal)
            },
            Seq::empty(),
        ),
        Term::Abs { param_name, param_typ: _, body } => (
            Ok(Val::Abs { val_ctx: ctx, param: param_name, body }),
            Seq::empty(),
        ),
        Term::App { func, arg } => {
            let (fr, out1) = eval_f(*func, ctx, fuel);
            match fr {
                Err(e) => (Err(e), out1),
                Ok(fv) => {
                    let (ar, out2) = eval_f(*arg, ctx, fuel);
                    match ar {
                        Err(e) => (Err(e), out1 + out2),
                        Ok(av) => if fuel == 0 {
                            (Err(ValError::OutOfFuel), out1 + out2)
                        } else {
                            let (r, out3) = apply_f(fv, av, (fuel - 1) as nat);
                            (r, out1 + out2 + out3)
                        },
                    }
                },
            }
        },
        Term::Int(i) => (Ok(Val::Int(i)), Seq::empty()),
        Term::If { cond, t_true, t_false } => {
            let (cr, out1) = eval_f(*cond, ctx, fuel);
            match cr {
                Err(e) => (Err(e), out1),
                Ok(cv) => match cv {
                    Val::Bool(b) => {
                        let (r, out2) = eval_f(if b {
                            *t_true
                        } else {
                            *t_false
                        }, ctx, fuel);
                        (r, out1 + out2)
                    },
                    _ => (Err(ValError::Fatal), out1),
                },
            }
        },
        Term::Sequence(stmts) => stmts_eval(stmts@, ctx, Val::Unit, fuel),
    }
}

/// Applying a value to an argument: a closure binds its parameter (unless it
/// is the placeholder) and evaluates its body; a native function collects the
/// argument and runs once it has them all.
pub open spec fn apply_f(f: Val, arg: Val, fuel: nat) -> (Result<Val, ValError>, Seq<i32>)
    decreases fuel, 1nat, f,
{
    match f {
        Val::Abs { val_ctx, param, body } => {
            let bctx = if param@ == "_"@ {
                val_ctx
            } else {
                val_ctx.spec_extended(param, arg)
            };
            eval_f(*body, bctx, fuel)
        },
        Val::Native(NativeFn::Fun(op)) => if op_arity(op) == 1 {
            sem_op1(op, arg)
        } else {
            (Ok(Val::Native(NativeFn::Part1(op, Box::new(arg)))), Seq::empty())
        },
        Val::Native(NativeFn::Part1(op, a)) => sem_op2(op, *a, arg),
        _ => (Err(ValError::Fatal), Seq::empty()),
    }
}

/// The value of the rest of a statement sequence: `current` is the value of
/// what has run so far, and a `let` extends the environment for the
/// statements after it only.
pub open spec fn stmts_eval(
    stmts: Seq<Stmt>,
    ctx: ValContext,
    current: Val,
    fuel: nat,
) -> (Result<Val, ValError>, Seq<i32>)
    decreases fuel, 0nat, stmts,
{
    if stmts.len() == 0 {
        (Ok(current), Seq::empty())
    } else {
        let t = match stmts[0] {
            Stmt::Term(t) => t,
            Stmt::Let(_, t) => t,
        };
        let (r, out1) = eval_f(t, ctx, fuel);
        match r {
            Err(e) => (Err(e), out1),
            Ok(v) => {
                let c2 = match stmts[0] {
                    Stmt::Term(_) => ctx,
                    Stmt::Let(name, _) => ctx.spec_extended(name, v),
                };
                let (r2, out2) = stmts_eval(stmts.drop_first(), c2, v, fuel);
                (r2, out1 + out2)
            },
        }
    }
}

// the executable evaluator

/// Run a unary native operation.
fn run_op1(op: NativeOp, a: Val, out: &mut Vec<i32>) -> (r: ValResult<Val>)
    ensures
        ({
            let (sr, sout) = sem_op1(op, a);
            r == sr && final(out)@ == old(out)@ + sout
        }),
{
    match (op, a) {
        (NativeOp::Not, Val::Bool(x)) => Ok(Val::Bool(!x)),
        (NativeOp::Neg, Val::Int(x)) => Ok(Val::Int((0i32).wrapping_sub(x))),
        (NativeOp::Print, Val::Int(x)) => {
            out.push(x);
            proof {
                assert(final(out)@ == old(out)@ + seq![x]);
            }
            Ok(Val::Unit)
        },
        _ => Err(ValError::Fatal),
    }
}

/// Run a binary native operation.
fn run_op2(op: NativeOp, a: Val, b: Val) -> (r: ValResult<Val>)
    ensures
        ({
            let (sr, sout) = sem_op2(op, a, b);
            r == sr && sout == Seq::<i32>::empty()
        }),
{
    match (op, a, b) {
        (NativeOp::And, Val::Bool(x), Val::Bool(y)) => Ok(Val::Bool(x && y)),
        (NativeOp::Or, Val::Bool(x), Val::Bool(y)) => Ok(Val::Bool(x || y)),
        (NativeOp::Xor, Val::Bool(x), Val::Bool(y)) => Ok(Val::Bool(x != y)),
        (NativeOp::Add, Val::Int(x), Val::Int(y)) => Ok(Val::Int(x.wrapping_add(y))),
        (NativeOp::Mul, Val::Int(x), Val::Int(y)) => Ok(Val::Int(x.wrapping_mul(y))),
        (NativeOp::Div, Val::Int(x), Val::Int(y)) => if y == 0 {
            Err(ValError::DivisionByZero)
        } else {
            match x.checked_div(y) {
                Some(v) => Ok(Val::Int(v)),
                None => Ok(Val::Int(i32::MIN)),
            }
        },
        (NativeOp::Mod, Val::Int(x), Val::Int(y)) => if y == 0 {
            Err(ValError::DivisionByZero)
        } else {
            match x.checked_rem(y) {
                Some(v) => Ok(Val::Int(v)),
                None => Ok(Val::Int(0)),
            }
        },
        (NativeOp::Eq, Val::Int(x), Val::Int(y)) => Ok(Val::Bool(x == y)),
        (NativeOp::Gt, Val::Int(x), Val::Int(y)) => Ok(Val::Bool(x > y)),
        (NativeOp::Gte, Val::Int(x), Val::Int(y)) => Ok(Val::Bool(x >= y)),
        (NativeOp::Lt, Val::Int(x), Val::Int(y)) => Ok(Val::Bool(x < y)),
        (NativeOp::Lte, Val::Int(x), Val::Int(y)) => Ok(Val::Bool(x <= y)),
        (NativeOp::Shl, Val::Int(x), Val::Int(y)) => if y < 0 || y >= 32 {
            Err(ValError::ShiftOutOfRange)
        } else {
            Ok(Val::Int(x.wrapping_shl(y as u32)))
        },
        (NativeOp::Shr, Val::Int(x), Val::Int(y)) => if y < 0 || y >= 32 {
            Err(ValError::ShiftOutOfRange)
        } else {
            Ok(Val::Int(x.wrapping_shr(y as u32)))
        },
        _ => Err(ValError::Fatal),
    }
}

impl Val {
    /// Apply this value to an argument. What is printed is appended to `out`.
    pub fn apply(&self, arg: Val, fuel: u64, out: &mut Vec<i32>) -> (r: ValResult<Val>)
        ensures
            ({
                let (sr, sout) = apply_f(*self, arg, fuel as nat);
                r == sr && final(out)@ == old(out)@ + sout
            }),
        decreases fuel, 1nat, *self,
    {
        match self {
            Val::Abs { val_ctx, param, body } => {
                let under: String = "_".to_owned();
                if *param == under {
                    body.eval(val_ctx, fuel, out)
                } else {
                    let bctx = val_ctx.insert(param, arg);
                    body.eval(&bctx, fuel, out)
                }
            },
            Val::Native(NativeFn::Fun(op)) => match op {
                NativeOp::Not | NativeOp::Neg | NativeOp::Print => run_op1(*op, arg, out),
                _ => Ok(Val::Native(NativeFn::Part1(*op, Box::new(arg)))),
            },
            Val::Native(NativeFn::Part1(op, a)) => run_op2(*op, a.dup(), arg),
            _ => Err(ValError::Fatal),
        }
    }
}

impl Term {
    /// Evaluate this term in the given environment. Fuel is spent once per
    /// function application; what is printed is appended to `out`, in order.
    /// A term that has type-checked against a matching typing context never
    /// returns `Fatal`.
    pub fn eval(&self, val_ctx: &ValContext, fuel: u64, out: &mut Vec<i32>) -> (r: ValResult<Val>)
        ensures
            ({
                let (sr, sout) = eval_f(*self, *val_ctx, fuel as nat);
                r == sr && final(out)@ == old(out)@ + sout
            }),
        decreases fuel, 0nat, *self,
    {
        match self {
            Term::Var { name } => match val_ctx.get(name) {
                Some(v) => Ok(v.dup()),
                None => Err(ValError::Fatal),
            },
            Term::Abs { param_name, param_typ: _, body } => Ok(
                Val::Abs { val_ctx: val_ctx.dup(), param: param_name.clone(), body: Rc::clone(body) },
            ),
            Term::App { func, arg } => {
                let fv = match func.eval(val_ctx, fuel, out) {
                    Ok(v) => v,
                    Err(e) => {
                        return Err(e);
                    },
                };
                let av = match arg.eval(val_ctx, fuel, out) {
                    Ok(v) => v,
                    Err(e) => {
                        return Err(e);
                    },
                };
                if fuel == 0 {
                    return Err(ValError::OutOfFuel);
                }
                fv.apply(av, fuel - 1, out)
            },
            Term::Int(i) => Ok(Val::Int(*i)),
            Term::If { cond, t_true, t_false } => {
                let cv = match cond.eval(val_ctx, fuel, out) {
                    Ok(v) => v,
                    Err(e) => {
                        return Err(e);
                    },
                };
                match cv {
                    Val::Bool(b) => if b {
                        t_true.eval(val_ctx, fuel, out)
                    } else {
                        t_false.eval(val_ctx, fuel, out)
                    },
                    _ => Err(ValError::Fatal),
                }
            },
            Term::Sequence(stmts) => {
                let ghost out0 = out@;
                let ghost mut done = Seq::<i32>::empty();
                let mut ctx = val_ctx.dup();
                let mut cur = Val::Unit;
                let mut i: usize = 0;
                proof {
                    assert(stmts@.skip(0) =~= stmts@);
                    assert(out0 + done =~= out0);
                }
                while i < stmts.len()
                    invariant
                        *self == Term::Sequence(*stmts),
                        i <= stmts.len(),
                        out0 == old(out)@,
                        out@ == out0 + done,
                        ({
                            let (sr_all, sout_all) = stmts_eval(stmts@, *val_ctx, Val::Unit, fuel as nat);
                            let (sr, sout) = stmts_eval(
                                stmts@.skip(i as int),
                                ctx,
                                cur,
                                fuel as nat,
                            );
                            sr_all == sr && sout_all == done + sout
                        }),
                    decreases stmts.len() - i,
                {
                    proof {
                        assert(stmts@.skip(i as int)[0] == stmts@[i as int]);
                        assert(stmts@.skip(i as int).drop_first() =~= stmts@.skip(i as int + 1));
                        assert(decreases_to!(*self => *stmts));
                        assert(decreases_to!(*stmts => stmts@));
                        assert(decreases_to!(stmts@ => stmts@[i as int]));
                    }
                    let ghost ctx0 = ctx;
                    match &stmts[i] {
                        Stmt::Term(t) => {
                            match t.eval(&ctx, fuel, out) {
                                Ok(v) => {
                                    cur = v;
                                },
                                Err(e) => {
                                    proof {
                                        let (_, souti) = eval_f(*t, ctx, fuel as nat);
                                        assert(out@ =~= out0 + (done + souti));
                                    }
                                    return Err(e);
                                },
                            }
                        },
                        Stmt::Let(name, t) => {
                            match t.eval(&ctx, fuel, out) {
                                Ok(v) => {
                                    let c2 = ctx.insert(name, v.dup());
                                    ctx = c2;
                                    cur = v;
                                },
                                Err(e) => {
                                    proof {
                                        let (_, souti) = eval_f(*t, ctx, fuel as nat);
                                        assert(out@ =~= out0 + (done + souti));
                                    }
                                    return Err(e);
                                },
                            }
                        },
                    }
                    proof {
                        let stmt_t = match stmts@[i as int] {
                            Stmt::Term(t) => t,
                            Stmt::Let(_, t) => t,
                        };
                        let (_, souti) = eval_f(stmt_t, ctx0, fuel as nat);
                        done = done + souti;
                        assert(out@ =~= out0 + done);
                    }
                    i += 1;
                }
                proof {
                    assert(stmts@.skip(i as int) =~= Seq::<Stmt>::empty());
                    let (sr_all, sout_all) = stmts_eval(stmts@, *val_ctx, Val::Unit, fuel as nat);
                    assert(sout_all =~= done);
                    assert(out@ =~= out0 + sout_all);
                }
                Ok(cur)
            },
        }
    }
}

} // verus!
