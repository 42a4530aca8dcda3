pub mod ast;
pub mod laws;
pub mod soundness;
pub mod terms;
pub mod text;
pub mod typs;
pub mod vals;

use vstd::prelude::*;

use crate::soundness::{
    env_wf, env_wf_w, lemma_env_wf_insert, lemma_eval_sound, op_typ, val_ok, val_ok_w, EnvWitness,
    ValWitness,
};
use crate::terms::Term;
use crate::typs::{
    typ_ctx_insert, typ_ctx_new, typ_env_of, typ_res_matches, type_of, typ_unit, Typ, TypContext,
    TypError, TypErrorV, TypResult, TypV,
};
use crate::vals::{eval_f, NativeFn, NativeOp, Val, ValContext, ValError, ValResult};

verus! {

// errors

/// Why running a term fails: it does not type-check, or a native operation
/// fails during evaluation.
#[derive(Debug)]
pub enum ProgramError {
    TypError(TypError),
    ValError(ValError),
}

pub type ProgramResult<T> = Result<T, ProgramError>;

// the program context

/// A typing context and a value environment kept in lockstep: every name is
/// bound in both, to a type matching the value's shape. Extension returns a
/// new context; the old one stays valid and unchanged.
pub struct ProgramContext {
    pub typ_ctx: TypContext,
    pub val_ctx: ValContext,
}

impl ProgramContext {
    /// The types bound, by name.
    pub open spec fn typ_env(self) -> Map<Seq<char>, TypV> {
        typ_env_of(self.typ_ctx)
    }

    /// The values bound, by name.
    pub open spec fn val_env(self) -> Map<Seq<char>, Val> {
        self.val_ctx.as_map()
    }

    /// The lockstep invariant: every typed name is bound to a value of that
    /// type.
    pub open spec fn wf(self) -> bool {
        env_wf(self.val_ctx, self.typ_env())
    }

    /// The empty context.
    pub fn empty() -> (c: Self)
        ensures
            forall|n: Seq<char>| !c.typ_env().contains_key(n),
            c.val_env() == Map::<Seq<char>, Val>::empty(),
            c.wf(),
    {
        let c = ProgramContext { typ_ctx: typ_ctx_new(), val_ctx: ValContext::empty() };
        proof {
            assert(env_wf_w(EnvWitness::Nil, c.val_ctx, c.typ_env()));
        }
        c
    }

    /// The value and type bound to `name`, present exactly when both sides
    /// hold the name.
    pub fn get_val(&self, name: &str) -> (r: Option<(Val, Typ)>)
        ensures
            match r {
                Some((v, t)) => self.val_env().contains_key(name@) && v == self.val_env()[name@]
                    && self.typ_env().contains_key(name@) && t@ == self.typ_env()[name@],
                None => !(self.val_env().contains_key(name@) && self.typ_env().contains_key(
                    name@,
                )),
            },
    {
        let key: String = name.to_owned();
        let v = match self.val_ctx.get(&key) {
            Some(v) => v.dup(),
            None => {
                return None;
            },
        };
        let t = match crate::typs::typ_ctx_get(&self.typ_ctx, &key) {
            Some(t) => t.dup(),
            None => {
                return None;
            },
        };
        Some((v, t))
    }

    /// Bind `name` to the given type and value directly, bypassing
    /// type-checking: the caller supplies them together, as when seeding the
    /// built-in primitives. The invariant is kept when the value has the
    /// type.
    pub fn insert_val(&self, name: &str, typ: &Typ, val: &Val) -> (c: Self)
        ensures
            c.typ_env() == self.typ_env().insert(name@, typ@),
            c.val_env() == self.val_env().insert(name@, *val),
            self.wf() && val_ok(*val, typ@) ==> c.wf(),
    {
        let key: String = name.to_owned();
        let c = ProgramContext {
            typ_ctx: typ_ctx_insert(&self.typ_ctx, &key, typ.dup()),
            val_ctx: self.val_ctx.insert(&key, val.dup()),
        };
        proof {
            if self.wf() && val_ok(*val, typ@) {
                lemma_env_wf_insert(self.val_ctx, self.typ_env(), key, *val, typ@);
            }
        }
        c
    }

    /// Type-check a term against this context.
    pub fn typ(&self, term: &Term) -> (r: TypResult<Typ>)
        ensures
            typ_res_matches(r, type_of(*term, self.typ_env())),
    {
        term.typ(&self.typ_ctx)
    }

    /// Evaluate a term against this context. Fuel is spent once per function
    /// application; what is printed is appended to `out`, in order.
    pub fn eval(&self, term: &Term, fuel: u64, out: &mut Vec<i32>) -> (r: ValResult<Val>)
        ensures
            ({
                let (sr, sout) = eval_f(*term, self.val_ctx, fuel as nat);
                r == sr && final(out)@ == old(out)@ + sout
            }),
    {
        term.eval(&self.val_ctx, fuel, out)
    }

    /// Type-check a term and, only on success, evaluate it: a type failure
    /// short-circuits before any evaluation, so no effect occurs for a term
    /// that fails to type-check.
    pub fn run(&self, term: &Term, fuel: u64, out: &mut Vec<i32>) -> (r: ProgramResult<(Typ, Val)>)
        ensures
            type_of(*term, self.typ_env()) is Err ==> final(out)@ == old(out)@ && (
            r matches Err(ProgramError::TypError(e)) && e@ == type_of(
                *term,
                self.typ_env(),
            )->Err_0),
            type_of(*term, self.typ_env()) is Ok ==> ({
                let (sr, sout) = eval_f(*term, self.val_ctx, fuel as nat);
                final(out)@ == old(out)@ + sout && match sr {
                    Ok(v) => r matches Ok(p) && p.0@ == type_of(*term, self.typ_env())->Ok_0
                        && p.1 == v,
                    Err(e) => r matches Err(ProgramError::ValError(e2)) && e2 == e,
                }
            }),
            self.wf() && type_of(*term, self.typ_env()) is Ok && r is Err ==> !(
            r matches Err(ProgramError::ValError(ValError::Fatal))),
            self.wf() && type_of(*term, self.typ_env()) is Ok && r is Ok ==> val_ok(
                r->Ok_0.1,
                r->Ok_0.0@,
            ),
    {
        let t = match self.typ(term) {
            Ok(t) => t,
            Err(e) => {
                return Err(ProgramError::TypError(e));
            },
        };
        proof {
            if self.wf() {
                lemma_eval_sound(
                    *term,
                    self.val_ctx,
                    self.typ_env(),
                    type_of(*term, self.typ_env())->Ok_0,
                    fuel as nat,
                );
            }
        }
        match self.eval(term, fuel, out) {
            Ok(v) => Ok((t, v)),
            Err(e) => Err(ProgramError::ValError(e)),
        }
    }

    /// Run a term and, on success, bind `name` to its type and value in both
    /// environments at once.
    pub fn insert_term(&self, name: &str, term: &Term, fuel: u64, out: &mut Vec<i32>) -> (r:
        ProgramResult<Self>)
        ensures
            type_of(*term, self.typ_env()) is Err ==> final(out)@ == old(out)@ && (
            r matches Err(ProgramError::TypError(e)) && e@ == type_of(
                *term,
                self.typ_env(),
            )->Err_0),
            type_of(*term, self.typ_env()) is Ok ==> ({
                let (sr, sout) = eval_f(*term, self.val_ctx, fuel as nat);
                final(out)@ == old(out)@ + sout && match sr {
                    Ok(v) => r matches Ok(c) && c.typ_env() == self.typ_env().insert(
                        name@,
                        type_of(*term, self.typ_env())->Ok_0,
                    ) && c.val_env() == self.val_env().insert(name@, v),
                    Err(e) => r matches Err(ProgramError::ValError(e2)) && e2 == e,
                }
            }),
            self.wf() && type_of(*term, self.typ_env()) is Ok && r is Err ==> !(
            r matches Err(ProgramError::ValError(ValError::Fatal))),
            self.wf() && r is Ok ==> r->Ok_0.wf(),
    {
        let (t, v) = match self.run(term, fuel, out) {
            Ok(p) => p,
            Err(e) => {
                return Err(e);
            },
        };
        Ok(self.insert_val(name, &t, &v))
    }
}

// the built-in primitives

/// The types of the built-in primitives. A later binding of a name replaces
/// an earlier one, so the second `neg` — a binary operation with addition
/// semantics, kept as the reference set has it — wins.
pub open spec fn builtin_typ_env() -> Map<Seq<char>, TypV> {
    Map::empty()
        .insert("Unit"@, typ_unit())
        .insert("not"@, op_typ(NativeOp::Not))
        .insert("and"@, op_typ(NativeOp::And))
        .insert("or"@, op_typ(NativeOp::Or))
        .insert("xor"@, op_typ(NativeOp::Xor))
        .insert("neg"@, op_typ(NativeOp::Neg))
        .insert("add"@, op_typ(NativeOp::Add))
        .insert("neg"@, op_typ(NativeOp::Add))
        .insert("mul"@, op_typ(NativeOp::Mul))
        .insert("div"@, op_typ(NativeOp::Div))
        .insert("mod"@, op_typ(NativeOp::Mod))
        .insert("eq"@, op_typ(NativeOp::Eq))
        .insert("gt"@, op_typ(NativeOp::Gt))
        .insert("gte"@, op_typ(NativeOp::Gte))
        .insert("lt"@, op_typ(NativeOp::Lt))
        .insert("lte"@, op_typ(NativeOp::Lte))
        .insert("shl"@, op_typ(NativeOp::Shl))
        .insert("shr"@, op_typ(NativeOp::Shr))
}

/// The values of the built-in primitives, in lockstep with their types.
pub open spec fn builtin_val_env() -> Map<Seq<char>, Val> {
    Map::empty()
        .insert("Unit"@, Val::Unit)
        .insert("not"@, Val::Native(NativeFn::Fun(NativeOp::Not)))
        .insert("and"@, Val::Native(NativeFn::Fun(NativeOp::And)))
        .insert("or"@, Val::Native(NativeFn::Fun(NativeOp::Or)))
        .insert("xor"@, Val::Native(NativeFn::Fun(NativeOp::Xor)))
        .insert("neg"@, Val::Native(NativeFn::Fun(NativeOp::Neg)))
        .insert("add"@, Val::Native(NativeFn::Fun(NativeOp::Add)))
        .insert("neg"@, Val::Native(NativeFn::Fun(NativeOp::Add)))
        .insert("mul"@, Val::Native(NativeFn::Fun(NativeOp::Mul)))
        .insert("div"@, Val::Native(NativeFn::Fun(NativeOp::Div)))
        .insert("mod"@, Val::Native(NativeFn::Fun(NativeOp::Mod)))
        .insert("eq"@, Val::Native(NativeFn::Fun(NativeOp::Eq)))
        .insert("gt"@, Val::Native(NativeFn::Fun(NativeOp::Gt)))
        .insert("gte"@, Val::Native(NativeFn::Fun(NativeOp::Gte)))
        .insert("lt"@, Val::Native(NativeFn::Fun(NativeOp::Lt)))
        .insert("lte"@, Val::Native(NativeFn::Fun(NativeOp::Lte)))
        .insert("shl"@, Val::Native(NativeFn::Fun(NativeOp::Shl)))
        .insert("shr"@, Val::Native(NativeFn::Fun(NativeOp::Shr)))
}

/// A fresh native function value has its operation's type.
proof fn lemma_native_ok(op: NativeOp)
    ensures
        val_ok(Val::Native(NativeFn::Fun(op)), op_typ(op)),
{
    assert(val_ok_w(ValWitness::Prim, Val::Native(NativeFn::Fun(op)), op_typ(op)));
}

impl Default for ProgramContext {
    /// The context holding the built-in primitive set: unit, the boolean
    /// connectives, and integer arithmetic and comparison.
    fn default() -> (c: Self)
        ensures
            c.typ_env() == builtin_typ_env(),
            c.val_env() == builtin_val_env(),
            c.wf(),
    {
        proof {
            assert(val_ok_w(ValWitness::Prim, Val::Unit, typ_unit()));
            lemma_native_ok(NativeOp::Not);
            lemma_native_ok(NativeOp::And);
            lemma_native_ok(NativeOp::Or);
            lemma_native_ok(NativeOp::Xor);
            lemma_native_ok(NativeOp::Neg);
            lemma_native_ok(NativeOp::Add);
            lemma_native_ok(NativeOp::Mul);
            lemma_native_ok(NativeOp::Div);
            lemma_native_ok(NativeOp::Mod);
            lemma_native_ok(NativeOp::Eq);
            lemma_native_ok(NativeOp::Gt);
            lemma_native_ok(NativeOp::Gte);
            lemma_native_ok(NativeOp::Lt);
            lemma_native_ok(NativeOp::Lte);
            lemma_native_ok(NativeOp::Shl);
            lemma_native_ok(NativeOp::Shr);
        }
        let int_t = Typ::atom("Int");
        let bool_t = Typ::atom("Bool");
        let ii = Typ::func(int_t.dup(), int_t.dup());
        let iii = Typ::func(int_t.dup(), Typ::func(int_t.dup(), int_t.dup()));
        let iib = Typ::func(int_t.dup(), Typ::func(int_t.dup(), bool_t.dup()));
        let bb = Typ::func(bool_t.dup(), bool_t.dup());
        let bbb = Typ::func(bool_t.dup(), Typ::func(bool_t.dup(), bool_t.dup()));
        ProgramContext::empty()
            .insert_val("Unit", &Typ::atom("Unit"), &Val::Unit)
            .insert_val("not", &bb, &Val::op1(NativeOp::Not))
            .insert_val("and", &bbb, &Val::op2(NativeOp::And))
            .insert_val("or", &bbb, &Val::op2(NativeOp::Or))
            .insert_val("xor", &bbb, &Val::op2(NativeOp::Xor))
            .insert_val("neg", &ii, &Val::op1(NativeOp::Neg))
            .insert_val("add", &iii, &Val::op2(NativeOp::Add))
            .insert_val("neg", &iii, &Val::op2(NativeOp::Add))
            .insert_val("mul", &iii, &Val::op2(NativeOp::Mul))
            .insert_val("div", &iii, &Val::op2(NativeOp::Div))
            .insert_val("mod", &iii, &Val::op2(NativeOp::Mod))
            .insert_val("eq", &iib, &Val::op2(NativeOp::Eq))
            .insert_val("gt", &iib, &Val::op2(NativeOp::Gt))
            .insert_val("gte", &iib, &Val::op2(NativeOp::Gte))
            .insert_val("lt", &iib, &Val::op2(NativeOp::Lt))
            .insert_val("lte", &iib, &Val::op2(NativeOp::Lte))
            .insert_val("shl", &iii, &Val::op2(NativeOp::Shl))
            .insert_val("shr", &iii, &Val::op2(NativeOp::Shr))
    }
}

} // verus!
