use vstd::prelude::*;

use std::rc::Rc;

use crate::terms::{Stmt, Term};
use crate::typs::{type_of, stmts_typ, typ_bool, typ_int, typ_unit, TypErrorV, TypV};
use crate::vals::{
    apply_f, eval_f, op_arity, sem_op1, sem_op2, stmts_eval, CtxNode, NativeFn, NativeOp, Val,
    ValContext, ValError,
};

verus! {

/// The term an `Rc` shares, as a mathematical value.
pub open spec fn shared_term(t: Rc<Term>) -> Term {
    *t
}

/// The full curried type of a native operation.
pub open spec fn op_typ(op: NativeOp) -> TypV {
    match op {
        NativeOp::Not => TypV::Func(Box::new(typ_bool()), Box::new(typ_bool())),
        NativeOp::And | NativeOp::Or | NativeOp::Xor => TypV::Func(
            Box::new(typ_bool()),
            Box::new(TypV::Func(Box::new(typ_bool()), Box::new(typ_bool()))),
        ),
        NativeOp::Neg => TypV::Func(Box::new(typ_int()), Box::new(typ_int())),
        NativeOp::Add | NativeOp::Mul | NativeOp::Div | NativeOp::Mod | NativeOp::Shl
            | NativeOp::Shr => TypV::Func(
            Box::new(typ_int()),
            Box::new(TypV::Func(Box::new(typ_int()), Box::new(typ_int()))),
        ),
        NativeOp::Eq | NativeOp::Gt | NativeOp::Gte | NativeOp::Lt | NativeOp::Lte => TypV::Func(
            Box::new(typ_int()),
            Box::new(TypV::Func(Box::new(typ_int()), Box::new(typ_bool()))),
        ),
        NativeOp::Print => TypV::Func(Box::new(typ_int()), Box::new(typ_unit())),
    }
}

/// Typing evidence for one value: the typing contexts chosen for the
/// closures it holds, arranged along the value's structure.
pub enum ValWitness {
    /// For a primitive or a fresh native function: no choice to record.
    Prim,
    /// For a partially applied native: evidence for the stored argument.
    Part(Box<ValWitness>),
    /// For a closure: the typing context its captured environment satisfies,
    /// with the evidence for that environment.
    Clos(Map<Seq<char>, TypV>, Box<EnvWitness>),
}

/// Typing evidence for an environment: one piece of value evidence per
/// binding, along the chain.
pub enum EnvWitness {
    Nil,
    Cons(Box<ValWitness>, Box<EnvWitness>),
}

/// A value has a type, as certified by the given evidence: primitives by
/// their shape; a closure when its captured environment satisfies the
/// recorded typing context and, under it — extended with the parameter
/// unless the parameter is the placeholder — the body has the result type;
/// a native function by its operation's remaining type.
pub open spec fn val_ok_w(w: ValWitness, v: Val, t: TypV) -> bool
    decreases v,
{
    match v {
        Val::Bool(_) => t == typ_bool(),
        Val::Int(_) => t == typ_int(),
        Val::Unit => t == typ_unit(),
        Val::Abs { val_ctx, param, body } => match t {
            TypV::Func(a0, r0) => w matches ValWitness::Clos(g, ew) && env_wf_w(*ew, val_ctx, g)
                && type_of(
                *body,
                if param@ == "_"@ {
                    g
                } else {
                    g.insert(param@, *a0)
                },
            ) == Ok::<TypV, TypErrorV>(*r0),
            _ => false,
        },
        Val::Native(NativeFn::Fun(op)) => t == op_typ(op),
        Val::Native(NativeFn::Part1(op, a)) => match op_typ(op) {
            TypV::Func(a0, r0) => w matches ValWitness::Part(w1) && op_arity(op) == 2 && val_ok_w(
                *w1,
                *a,
                *a0,
            ) && t == *r0,
            _ => false,
        },
    }
}

/// An environment satisfies a typing context, as certified by the given
/// evidence: every name the context types is bound, to a value of that type.
/// A newer binding shadows an older one, so only the newest binding of each
/// name is constrained.
pub open spec fn env_wf_w(ew: EnvWitness, ctx: ValContext, g: Map<Seq<char>, TypV>) -> bool
    decreases ctx,
{
    match *ctx.node {
        CtxNode::Empty => forall|n: Seq<char>| !g.contains_key(n),
        CtxNode::Entry { rest, name, val } => ew matches EnvWitness::Cons(w1, ew2) && (
        g.contains_key(name@) ==> val_ok_w(*w1, val, g[name@])) && env_wf_w(
            *ew2,
            rest,
            g.remove(name@),
        ),
    }
}

/// A value has a type: some typing evidence certifies it.
pub open spec fn val_ok(v: Val, t: TypV) -> bool {
    exists|w: ValWitness| val_ok_w(w, v, t)
}

/// An environment satisfies a typing context: some evidence certifies it.
pub open spec fn env_wf(ctx: ValContext, g: Map<Seq<char>, TypV>) -> bool {
    exists|ew: EnvWitness| env_wf_w(ew, ctx, g)
}

/// In an environment satisfying `g`, every name `g` types is bound to a
/// value of `g`'s type for it.
pub proof fn lemma_env_wf_w_lookup(
    ew: EnvWitness,
    ctx: ValContext,
    g: Map<Seq<char>, TypV>,
    n: Seq<char>,
)
    requires
        env_wf_w(ew, ctx, g),
        g.contains_key(n),
    ensures
        ctx.as_map().contains_key(n),
        val_ok(ctx.as_map()[n], g[n]),
    decreases ctx,
{
    match *ctx.node {
        CtxNode::Empty => {
            assert(false);
        },
        CtxNode::Entry { rest, name, val } => {
            if n == name@ {
                assert(val_ok_w(*ew->Cons_0, val, g[n]));
            } else {
                lemma_env_wf_w_lookup(*ew->Cons_1, rest, g.remove(name@), n);
            }
        },
    }
}

/// The same, from the existential form of the hypothesis.
pub proof fn lemma_env_wf_lookup(ctx: ValContext, g: Map<Seq<char>, TypV>, n: Seq<char>)
    requires
        env_wf(ctx, g),
        g.contains_key(n),
    ensures
        ctx.as_map().contains_key(n),
        val_ok(ctx.as_map()[n], g[n]),
{
    let ew = choose|ew: EnvWitness| env_wf_w(ew, ctx, g);
    lemma_env_wf_w_lookup(ew, ctx, g, n);
}

/// Evidence that an environment satisfies a typing context also certifies
/// any restriction of that context.
pub proof fn lemma_env_wf_w_mono(
    ew: EnvWitness,
    ctx: ValContext,
    g1: Map<Seq<char>, TypV>,
    g2: Map<Seq<char>, TypV>,
)
    requires
        env_wf_w(ew, ctx, g1),
        forall|n: Seq<char>| #[trigger] g2.contains_key(n) ==> g1.contains_key(n) && g2[n] == g1[n],
    ensures
        env_wf_w(ew, ctx, g2),
    decreases ctx,
{
    match *ctx.node {
        CtxNode::Empty => {},
        CtxNode::Entry { rest, name, val } => {
            lemma_env_wf_w_mono(*ew->Cons_1, rest, g1.remove(name@), g2.remove(name@));
        },
    }
}

/// Binding one more name to a value of the right type keeps an environment
/// well formed for the correspondingly extended typing context.
pub proof fn lemma_env_wf_insert(
    ctx: ValContext,
    g: Map<Seq<char>, TypV>,
    name: String,
    v: Val,
    t: TypV,
)
    requires
        env_wf(ctx, g),
        val_ok(v, t),
    ensures
        env_wf(ctx.spec_extended(name, v), g.insert(name@, t)),
{
    let ew = choose|ew: EnvWitness| env_wf_w(ew, ctx, g);
    let w = choose|w: ValWitness| val_ok_w(w, v, t);
    let g2 = g.insert(name@, t);
    assert(g2.remove(name@) =~= g.remove(name@));
    lemma_env_wf_w_mono(ew, ctx, g, g.remove(name@));
    let ew2 = EnvWitness::Cons(Box::new(w), Box::new(ew));
    assert(env_wf_w(ew2, ctx.spec_extended(name, v), g2));
}

/// A value of boolean type is a boolean, of integer type an integer, of unit
/// type the unit value: the atomic types name distinct values.
pub proof fn lemma_val_shape(v: Val)
    ensures
        val_ok(v, typ_bool()) ==> v is Bool,
        val_ok(v, typ_int()) ==> v is Int,
        val_ok(v, typ_unit()) ==> v is Unit,
{
    reveal_strlit("Bool");
    reveal_strlit("Int");
    reveal_strlit("Unit");
    assert("Bool"@.len() == 4 && "Int"@.len() == 3 && "Unit"@.len() == 4);
    assert("Bool"@[0] == 'B' && "Unit"@[0] == 'U');
}

/// Soundness of evaluation: a term that type-checks never reaches the fatal
/// (ill-typed) path, whatever the fuel; when it yields a value, the value
/// has the term's type.
pub proof fn lemma_eval_sound(
    t: Term,
    ctx: ValContext,
    g: Map<Seq<char>, TypV>,
    ty: TypV,
    fuel: nat,
)
    requires
        type_of(t, g) == Ok::<TypV, TypErrorV>(ty),
        env_wf(ctx, g),
    ensures
        eval_f(t, ctx, fuel).0 is Ok ==> val_ok(eval_f(t, ctx, fuel).0->Ok_0, ty),
        eval_f(t, ctx, fuel).0 is Err ==> eval_f(t, ctx, fuel).0->Err_0 != ValError::Fatal,
    decreases fuel, 0nat, t,
{
    match t {
        Term::Var { name } => {
            lemma_env_wf_lookup(ctx, g, name@);
        },
        Term::Abs { param_name, param_typ, body } => {
            let benv = if param_name@ == "_"@ {
                g
            } else {
                g.insert(param_name@, param_typ@)
            };
            let bt = type_of(shared_term(body), benv)->Ok_0;
            let clos = Val::Abs { val_ctx: ctx, param: param_name, body };
            let tt = TypV::Func(Box::new(param_typ@), Box::new(bt));
            let ew = choose|ew: EnvWitness| env_wf_w(ew, ctx, g);
            let w = ValWitness::Clos(g, Box::new(ew));
            assert(val_ok_w(w, clos, tt));
            assert(val_ok(clos, tt));
        },
        Term::App { func, arg } => {
            let ft = type_of(shared_term(func), g)->Ok_0;
            let at = type_of(shared_term(arg), g)->Ok_0;
            lemma_eval_sound(shared_term(func), ctx, g, ft, fuel);
            let (fr, _) = eval_f(shared_term(func), ctx, fuel);
            if fr is Ok {
                lemma_eval_sound(shared_term(arg), ctx, g, at, fuel);
                let (ar, _) = eval_f(shared_term(arg), ctx, fuel);
                if ar is Ok && fuel > 0 {
                    lemma_apply_sound(fr->Ok_0, ar->Ok_0, at, ty, (fuel - 1) as nat);
                }
            }
        },
        Term::Int(i) => {
            assert(val_ok_w(ValWitness::Prim, Val::Int(i), typ_int()));
            assert(val_ok(Val::Int(i), typ_int()));
        },
        Term::If { cond, t_true, t_false } => {
            lemma_eval_sound(shared_term(cond), ctx, g, typ_bool(), fuel);
            let (cr, _) = eval_f(shared_term(cond), ctx, fuel);
            if cr is Ok {
                lemma_val_shape(cr->Ok_0);
                lemma_eval_sound(shared_term(t_true), ctx, g, ty, fuel);
                lemma_eval_sound(shared_term(t_false), ctx, g, ty, fuel);
            }
        },
        Term::Sequence(stmts) => {
            assert(val_ok_w(ValWitness::Prim, Val::Unit, typ_unit()));
            lemma_stmts_sound(stmts@, ctx, g, Val::Unit, typ_unit(), ty, fuel);
        },
    }
}

/// Soundness of application: applying a value of arrow type to a value of
/// the argument type never reaches the fatal path, and a result value has
/// the arrow's result type.
pub proof fn lemma_apply_sound(f: Val, arg: Val, at: TypV, rt: TypV, fuel: nat)
    requires
        val_ok(f, TypV::Func(Box::new(at), Box::new(rt))),
        val_ok(arg, at),
    ensures
        apply_f(f, arg, fuel).0 is Ok ==> val_ok(apply_f(f, arg, fuel).0->Ok_0, rt),
        apply_f(f, arg, fuel).0 is Err ==> apply_f(f, arg, fuel).0->Err_0 != ValError::Fatal,
    decreases fuel, 1nat, f,
{
    let tt = TypV::Func(Box::new(at), Box::new(rt));
    let w = choose|w: ValWitness| val_ok_w(w, f, tt);
    match f {
        Val::Abs { val_ctx, param, body } => {
            let g = w->Clos_0;
            let ew = w->Clos_1;
            assert(env_wf_w(*ew, val_ctx, g));
            assert(env_wf(val_ctx, g));
            if param@ == "_"@ {
                lemma_eval_sound(shared_term(body), val_ctx, g, rt, fuel);
            } else {
                lemma_env_wf_insert(val_ctx, g, param, arg, at);
                lemma_eval_sound(
                    shared_term(body),
                    val_ctx.spec_extended(param, arg),
                    g.insert(param@, at),
                    rt,
                    fuel,
                );
            }
        },
        Val::Native(NativeFn::Fun(op)) => {
            lemma_val_shape(arg);
            if op_arity(op) == 1 {
                let (r0, _) = sem_op1(op, arg);
                if r0 is Ok {
                    assert(val_ok_w(ValWitness::Prim, r0->Ok_0, rt));
                    assert(val_ok(r0->Ok_0, rt));
                }
            } else {
                let warg = choose|w2: ValWitness| val_ok_w(w2, arg, at);
                let part = Val::Native(NativeFn::Part1(op, Box::new(arg)));
                assert(val_ok_w(ValWitness::Part(Box::new(warg)), part, rt));
                assert(val_ok(part, rt));
            }
        },
        Val::Native(NativeFn::Part1(op, a)) => {
            lemma_val_shape(arg);
            let a0 = op_typ(op)->Func_0;
            assert(val_ok_w(*w->Part_0, *a, *a0));
            assert(val_ok(*a, *a0));
            lemma_val_shape(*a);
            let (r0, _) = sem_op2(op, *a, arg);
            if r0 is Ok {
                assert(val_ok_w(ValWitness::Prim, r0->Ok_0, rt));
                assert(val_ok(r0->Ok_0, rt));
            }
        },
        _ => {},
    }
}

/// Soundness of statement sequences.
pub proof fn lemma_stmts_sound(
    stmts: Seq<Stmt>,
    ctx: ValContext,
    g: Map<Seq<char>, TypV>,
    current: Val,
    cur_t: TypV,
    ty: TypV,
    fuel: nat,
)
    requires
        stmts_typ(stmts, g, cur_t) == Ok::<TypV, TypErrorV>(ty),
        env_wf(ctx, g),
        val_ok(current, cur_t),
    ensures
        stmts_eval(stmts, ctx, current, fuel).0 is Ok ==> val_ok(
            stmts_eval(stmts, ctx, current, fuel).0->Ok_0,
            ty,
        ),
        stmts_eval(stmts, ctx, current, fuel).0 is Err ==> stmts_eval(
            stmts,
            ctx,
            current,
            fuel,
        ).0->Err_0 != ValError::Fatal,
    decreases fuel, 0nat, stmts,
{
    if stmts.len() == 0 {
    } else {
        match stmts[0] {
            Stmt::Term(t) => {
                let t0 = type_of(t, g)->Ok_0;
                lemma_eval_sound(t, ctx, g, t0, fuel);
                let (r, _) = eval_f(t, ctx, fuel);
                if r is Ok {
                    lemma_stmts_sound(stmts.drop_first(), ctx, g, r->Ok_0, t0, ty, fuel);
                }
            },
            Stmt::Let(name, t) => {
                let t0 = type_of(t, g)->Ok_0;
                lemma_eval_sound(t, ctx, g, t0, fuel);
                let (r, _) = eval_f(t, ctx, fuel);
                if r is Ok {
                    let v = r->Ok_0;
                    lemma_env_wf_insert(ctx, g, name, v, t0);
                    lemma_stmts_sound(
                        stmts.drop_first(),
                        ctx.spec_extended(name, v),
                        g.insert(name@, t0),
                        v,
                        t0,
                        ty,
                        fuel,
                    );
                }
            },
        }
    }
}

} // verus!
