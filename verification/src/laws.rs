use vstd::prelude::*;

use std::rc::Rc;

use crate::soundness::shared_term;
use crate::terms::{Stmt, Term};
use crate::typs::{type_of, Typ, TypErrorV, TypV};
use crate::vals::{apply_f, eval_f, stmts_eval, Val, ValContext, ValError};

verus! {

/// Environment non-interference: inserting a binding builds a new
/// environment and leaves the old one — and so everything a closure
/// captured before the insertion — untouched. The new environment's
/// bindings are the old ones plus the inserted name; every other name keeps
/// the binding it had, and any evaluation against the old environment is an
/// evaluation against the very same value as before, since an environment
/// value is never mutated.
pub proof fn lemma_insert_non_interference(ctx: ValContext, name: String, v: Val)
    ensures
        ctx.spec_extended(name, v).as_map() == ctx.as_map().insert(name@, v),
        forall|n: Seq<char>|
            n != name@ ==> #[trigger] ctx.spec_extended(name, v).as_map().contains_key(n)
                == ctx.as_map().contains_key(n),
        forall|n: Seq<char>|
            n != name@ && ctx.as_map().contains_key(n) ==> #[trigger] ctx.spec_extended(
                name,
                v,
            ).as_map()[n] == ctx.as_map()[n],
{
}

/// Placeholder parameter, evaluation half: applying a function whose
/// parameter is the placeholder evaluates its body in the captured
/// environment itself, whatever the argument — nothing is bound.
pub proof fn lemma_placeholder_binds_nothing(
    ctx: ValContext,
    param: String,
    body: Rc<Term>,
    arg: Val,
    fuel: nat,
)
    requires
        param@ == "_"@,
    ensures
        apply_f(Val::Abs { val_ctx: ctx, param, body }, arg, fuel) == eval_f(
            shared_term(body),
            ctx,
            fuel,
        ),
{
}

/// Placeholder parameter, typing half: the placeholder never extends the
/// typing context, so a body that references the placeholder name still
/// fails with it undefined when no outer binding exists.
pub proof fn lemma_placeholder_not_bound(
    param: String,
    pt: Typ,
    name: String,
    g: Map<Seq<char>, TypV>,
)
    requires
        param@ == "_"@,
        name@ == "_"@,
        !g.contains_key("_"@),
    ensures
        type_of(
            Term::Abs { param_name: param, param_typ: pt, body: Rc::new(Term::Var { name }) },
            g,
        ) == Err::<TypV, TypErrorV>(TypErrorV::Undefined(name@)),
{
    reveal_with_fuel(type_of, 2);
}

/// Shadowing: a `let` in a sequence evaluates its own term in the
/// environment as it stood — the outer binding of the name, if any, is what
/// preceding statements and the `let`'s own term see — and only the
/// statements after it run under the new binding, which shadows without
/// deleting: the newest binding wins in the extended environment, and the
/// original environment still holds the outer one.
pub proof fn lemma_let_shadows(
    stmts: Seq<Stmt>,
    name: String,
    t: Term,
    ctx: ValContext,
    current: Val,
    fuel: nat,
)
    requires
        stmts.len() > 0,
        stmts[0] == Stmt::Let(name, t),
        eval_f(t, ctx, fuel).0 is Ok,
    ensures
        ({
            let (r, out1) = eval_f(t, ctx, fuel);
            let ext = ctx.spec_extended(name, r->Ok_0);
            let (r2, out2) = stmts_eval(stmts.drop_first(), ext, r->Ok_0, fuel);
            &&& stmts_eval(stmts, ctx, current, fuel) == (r2, out1 + out2)
            &&& ext.as_map() == ctx.as_map().insert(name@, r->Ok_0)
        }),
{
}

/// Short-circuit: when the condition of a conditional evaluates to a
/// boolean, only the taken branch runs; the other branch contributes no
/// effect, so what the conditional prints is what the condition printed
/// followed by what the taken branch printed.
pub proof fn lemma_if_short_circuit(
    cond: Rc<Term>,
    t_true: Rc<Term>,
    t_false: Rc<Term>,
    ctx: ValContext,
    fuel: nat,
)
    ensures
        ({
            let (cr, out1) = eval_f(shared_term(cond), ctx, fuel);
            let (rt, out_t) = eval_f(shared_term(t_true), ctx, fuel);
            let (rf, out_f) = eval_f(shared_term(t_false), ctx, fuel);
            &&& cr == Ok::<Val, ValError>(Val::Bool(true)) ==> eval_f(
                Term::If { cond, t_true, t_false },
                ctx,
                fuel,
            ) == (rt, out1 + out_t)
            &&& cr == Ok::<Val, ValError>(Val::Bool(false)) ==> eval_f(
                Term::If { cond, t_true, t_false },
                ctx,
                fuel,
            ) == (rf, out1 + out_f)
        }),
{
}

/// Fuel is immaterial to a finished run: a result other than running out of
/// fuel is the same at every larger fuel. So an evaluation that terminates
/// at some fuel has that same outcome at all larger fuels.
pub proof fn lemma_eval_fuel_mono(t: Term, ctx: ValContext, n: nat, m: nat)
    requires
        n <= m,
        eval_f(t, ctx, n).0 != Err::<Val, ValError>(ValError::OutOfFuel),
    ensures
        eval_f(t, ctx, m) == eval_f(t, ctx, n),
    decreases n, 0nat, t,
{
    match t {
        Term::Var { .. } => {},
        Term::Abs { .. } => {},
        Term::Int(_) => {},
        Term::App { func, arg } => {
            let (fr, _) = eval_f(shared_term(func), ctx, n);
            lemma_eval_fuel_mono(shared_term(func), ctx, n, m);
            if fr is Ok {
                let (ar, _) = eval_f(shared_term(arg), ctx, n);
                lemma_eval_fuel_mono(shared_term(arg), ctx, n, m);
                if ar is Ok {
                    lemma_apply_fuel_mono(fr->Ok_0, ar->Ok_0, (n - 1) as nat, (m - 1) as nat);
                }
            }
        },
        Term::If { cond, t_true, t_false } => {
            let (cr, _) = eval_f(shared_term(cond), ctx, n);
            lemma_eval_fuel_mono(shared_term(cond), ctx, n, m);
            if cr is Ok {
                match cr->Ok_0 {
                    Val::Bool(b) => {
                        if b {
                            lemma_eval_fuel_mono(shared_term(t_true), ctx, n, m);
                        } else {
                            lemma_eval_fuel_mono(shared_term(t_false), ctx, n, m);
                        }
                    },
                    _ => {},
                }
            }
        },
        Term::Sequence(stmts) => {
            lemma_stmts_fuel_mono(stmts@, ctx, Val::Unit, n, m);
        },
    }
}

/// The same, for application.
pub proof fn lemma_apply_fuel_mono(f: Val, arg: Val, n: nat, m: nat)
    requires
        n <= m,
        apply_f(f, arg, n).0 != Err::<Val, ValError>(ValError::OutOfFuel),
    ensures
        apply_f(f, arg, m) == apply_f(f, arg, n),
    decreases n, 1nat, f,
{
    match f {
        Val::Abs { val_ctx, param, body } => {
            if param@ == "_"@ {
                lemma_eval_fuel_mono(shared_term(body), val_ctx, n, m);
            } else {
                lemma_eval_fuel_mono(
                    shared_term(body),
                    val_ctx.spec_extended(param, arg),
                    n,
                    m,
                );
            }
        },
        _ => {},
    }
}

/// The same, for statement sequences.
pub proof fn lemma_stmts_fuel_mono(
    stmts: Seq<Stmt>,
    ctx: ValContext,
    current: Val,
    n: nat,
    m: nat,
)
    requires
        n <= m,
        stmts_eval(stmts, ctx, current, n).0 != Err::<Val, ValError>(ValError::OutOfFuel),
    ensures
        stmts_eval(stmts, ctx, current, m) == stmts_eval(stmts, ctx, current, n),
    decreases n, 0nat, stmts,
{
    if stmts.len() == 0 {
    } else {
        let t = match stmts[0] {
            Stmt::Term(t) => t,
            Stmt::Let(_, t) => t,
        };
        let (r, _) = eval_f(t, ctx, n);
        lemma_eval_fuel_mono(t, ctx, n, m);
        if r is Ok {
            let c2 = match stmts[0] {
                Stmt::Term(_) => ctx,
                Stmt::Let(name, _) => ctx.spec_extended(name, r->Ok_0),
            };
            lemma_stmts_fuel_mono(stmts.drop_first(), c2, r->Ok_0, n, m);
        }
    }
}

} // verus!
