use vstd::prelude::*;

use crate::terms::Term;
use crate::typs::{
    typ_ctx_dup, typ_ctx_get, typ_ctx_insert, typ_env_of, type_of, typ_unit, Typ, TypError,
    TypErrorV, TypV,
};
use crate::vals::{apply_f, eval_f, Val, ValContext, ValError};
use crate::ProgramContext;

verus! {

/// A top-level declaration: a named type (recognized but not supported) or
/// a named term.
#[derive(Debug)]
pub enum Decl {
    Type(String, Typ),
    Let(String, Term),
}

impl Decl {
    /// A type declaration.
    pub fn type_(name: &str, typ: Typ) -> (d: Decl)
        ensures
            d matches Decl::Type(n, t) && n@ == name@ && t == typ,
    {
        Decl::Type(name.to_owned(), typ)
    }

    /// A term declaration.
    pub fn let_(name: &str, term: Term) -> (d: Decl)
        ensures
            d matches Decl::Let(n, t) && n@ == name@ && t == term,
    {
        Decl::Let(name.to_owned(), term)
    }
}

/// Why loading and running a declaration list fails.
#[derive(Debug)]
pub enum DriverError {
    /// Named type declarations are recognized but not supported.
    TypeDeclUnsupported(String),
    /// The name is already bound at the top level.
    DuplicateName(String),
    /// A declaration follows the entry point.
    DefinedAfterMain(String),
    /// A declaration's term does not type-check.
    DeclTypError(TypError),
    /// A declaration's term fails to evaluate.
    DeclEvalError(ValError),
    /// No entry point is declared.
    NoMain,
    /// The entry point does not type-check.
    MainTypError(TypError),
    /// The entry point's type is not `Unit -> Unit`.
    BadMainType(Typ),
    /// Running the entry point fails.
    EvalError(ValError),
}

/// The mathematical form of a `DriverError`.
pub enum DriverErrorV {
    TypeDeclUnsupported(Seq<char>),
    DuplicateName(Seq<char>),
    DefinedAfterMain(Seq<char>),
    DeclTypError(TypErrorV),
    DeclEvalError(ValError),
    NoMain,
    MainTypError(TypErrorV),
    BadMainType(TypV),
    EvalError(ValError),
}

impl DriverError {
    pub open spec fn model(self) -> DriverErrorV {
        match self {
            DriverError::TypeDeclUnsupported(s) => DriverErrorV::TypeDeclUnsupported(s@),
            DriverError::DuplicateName(s) => DriverErrorV::DuplicateName(s@),
            DriverError::DefinedAfterMain(s) => DriverErrorV::DefinedAfterMain(s@),
            DriverError::DeclTypError(e) => DriverErrorV::DeclTypError(e@),
            DriverError::DeclEvalError(e) => DriverErrorV::DeclEvalError(e),
            DriverError::NoMain => DriverErrorV::NoMain,
            DriverError::MainTypError(e) => DriverErrorV::MainTypError(e@),
            DriverError::BadMainType(t) => DriverErrorV::BadMainType(t@),
            DriverError::EvalError(e) => DriverErrorV::EvalError(e),
        }
    }
}

impl View for DriverError {
    type V = DriverErrorV;

    open spec fn view(&self) -> DriverErrorV {
        self.model()
    }
}

/// The type of the entry point: `Unit -> Unit`.
pub open spec fn main_typ() -> TypV {
    TypV::Func(Box::new(typ_unit()), Box::new(typ_unit()))
}

/// Folding a declaration list into a context and running the entry point,
/// as one mathematical function: each `let` is type-checked and evaluated,
/// then bound for the following declarations; no name may be declared twice;
/// the entry point `main` must come last, have type `Unit -> Unit`, and is
/// applied to the unit value.
pub open spec fn drive(
    decls: Seq<Decl>,
    tmap: Map<Seq<char>, TypV>,
    vctx: ValContext,
    main: Option<Term>,
    fuel: nat,
) -> (Result<(), DriverErrorV>, Seq<i32>)
    decreases decls,
{
    if decls.len() == 0 {
        match main {
            None => (Err(DriverErrorV::NoMain), Seq::empty()),
            Some(m) => match type_of(m, tmap) {
                Err(e) => (Err(DriverErrorV::MainTypError(e)), Seq::empty()),
                Ok(ty) => if ty != main_typ() {
                    (Err(DriverErrorV::BadMainType(ty)), Seq::empty())
                } else {
                    let (mr, out1) = eval_f(m, vctx, fuel);
                    match mr {
                        Err(e) => (Err(DriverErrorV::EvalError(e)), out1),
                        Ok(mv) => if fuel == 0 {
                            (Err(DriverErrorV::EvalError(ValError::OutOfFuel)), out1)
                        } else {
                            let (ar, out2) = apply_f(mv, Val::Unit, (fuel - 1) as nat);
                            match ar {
                                Err(e) => (Err(DriverErrorV::EvalError(e)), out1 + out2),
                                Ok(_) => (Ok(()), out1 + out2),
                            }
                        },
                    }
                },
            },
        }
    } else {
        match decls[0] {
            Decl::Type(name, _) => (Err(DriverErrorV::TypeDeclUnsupported(name@)), Seq::empty()),
            Decl::Let(name, term) => if tmap.contains_key(name@) {
                (Err(DriverErrorV::DuplicateName(name@)), Seq::empty())
            } else if main is Some {
                (Err(DriverErrorV::DefinedAfterMain(name@)), Seq::empty())
            } else if name@ == "main"@ {
                drive(decls.drop_first(), tmap, vctx, Some(term), fuel)
            } else {
                match type_of(term, tmap) {
                    Err(e) => (Err(DriverErrorV::DeclTypError(e)), Seq::empty()),
                    Ok(ty) => {
                        let (r, out1) = eval_f(term, vctx, fuel);
                        match r {
                            Err(e) => (Err(DriverErrorV::DeclEvalError(e)), out1),
                            Ok(v) => {
                                let (r2, out2) = drive(
                                    decls.drop_first(),
                                    tmap.insert(name@, ty),
                                    vctx.spec_extended(name, v),
                                    None,
                                    fuel,
                                );
                                (r2, out1 + out2)
                            },
                        }
                    },
                }
            },
        }
    }
}

impl ProgramContext {
    /// Fold a declaration list into this context and run the entry point:
    /// each `let` is run and bound for the declarations after it; no name
    /// may be declared twice; `main` must be the last declaration and have
    /// type `Unit -> Unit`, and its value is applied to the unit value. What
    /// is printed is appended to `out`, in order.
    pub fn run_program(&self, decls: &Vec<Decl>, fuel: u64, out: &mut Vec<i32>) -> (r: Result<
        (),
        DriverError,
    >)
        ensures
            ({
                let (sr, sout) = drive(decls@, self.typ_env(), self.val_ctx, None, fuel as nat);
                &&& (match (r, sr) {
                    (Ok(()), Ok(())) => true,
                    (Err(e), Err(ev)) => e@ == ev,
                    _ => false,
                })
                &&& final(out)@ == old(out)@ + sout
            }),
    {
        let ghost out0 = out@;
        let ghost mut done = Seq::<i32>::empty();
        let mut typ_ctx = typ_ctx_dup(&self.typ_ctx);
        let mut val_ctx = self.val_ctx.dup();
        let mut main: Option<&Term> = None;
        let mut i: usize = 0;
        proof {
            assert(decls@.skip(0) =~= decls@);
            assert(out0 + done =~= out0);
        }
        while i < decls.len()
            invariant
                i <= decls.len(),
                out0 == old(out)@,
                out@ == out0 + done,
                ({
                    let (sr_all, sout_all) = drive(
                        decls@,
                        self.typ_env(),
                        self.val_ctx,
                        None,
                        fuel as nat,
                    );
                    let (sr, sout) = drive(
                        decls@.skip(i as int),
                        typ_env_of(typ_ctx),
                        val_ctx,
                        match main {
                            Some(m) => Some(*m),
                            None => None,
                        },
                        fuel as nat,
                    );
                    sr_all == sr && sout_all == done + sout
                }),
            decreases decls.len() - i,
        {
            proof {
                assert(decls@.skip(i as int)[0] == decls@[i as int]);
                assert(decls@.skip(i as int).drop_first() =~= decls@.skip(i as int + 1));
            }
            let ghost ctx0 = val_ctx;
            match &decls[i] {
                Decl::Type(name, _) => {
                    return Err(DriverError::TypeDeclUnsupported(name.clone()));
                },
                Decl::Let(name, term) => {
                    if typ_ctx_get(&typ_ctx, name).is_some() {
                        return Err(DriverError::DuplicateName(name.clone()));
                    }
                    if main.is_some() {
                        return Err(DriverError::DefinedAfterMain(name.clone()));
                    }
                    let main_name: String = "main".to_owned();
                    if *name == main_name {
                        main = Some(term);
                    } else {
                        let ty = match term.typ(&typ_ctx) {
                            Ok(t) => t,
                            Err(e) => {
                                return Err(DriverError::DeclTypError(e));
                            },
                        };
                        let v = match term.eval(&val_ctx, fuel, out) {
                            Ok(v) => v,
                            Err(e) => {
                                proof {
                                    let (_, souti) = eval_f(*term, ctx0, fuel as nat);
                                    done = done + souti;
                                    assert(out@ =~= out0 + done);
                                }
                                return Err(DriverError::DeclEvalError(e));
                            },
                        };
                        proof {
                            let (_, souti) = eval_f(*term, ctx0, fuel as nat);
                            done = done + souti;
                            assert(out@ =~= out0 + done);
                        }
                        typ_ctx = typ_ctx_insert(&typ_ctx, name, ty);
                        let c2 = val_ctx.insert(name, v);
                        val_ctx = c2;
                    }
                },
            }
            i += 1;
        }
        proof {
            assert(decls@.skip(i as int) =~= Seq::<Decl>::empty());
        }
        match main {
            None => Err(DriverError::NoMain),
            Some(m) => {
                let mt = match m.typ(&typ_ctx) {
                    Ok(t) => t,
                    Err(e) => {
                        return Err(DriverError::MainTypError(e));
                    },
                };
                let uu = Typ::func(Typ::atom("Unit"), Typ::atom("Unit"));
                if !mt.equals(&uu) {
                    return Err(DriverError::BadMainType(mt));
                }
                let ghost ctx1 = val_ctx;
                let mv = match m.eval(&val_ctx, fuel, out) {
                    Ok(v) => v,
                    Err(e) => {
                        proof {
                            let (_, souti) = eval_f(*m, ctx1, fuel as nat);
                            done = done + souti;
                            assert(out@ =~= out0 + done);
                        }
                        return Err(DriverError::EvalError(e));
                    },
                };
                proof {
                    let (_, souti) = eval_f(*m, ctx1, fuel as nat);
                    done = done + souti;
                    assert(out@ =~= out0 + done);
                }
                if fuel == 0 {
                    return Err(DriverError::EvalError(ValError::OutOfFuel));
                }
                match mv.apply(Val::Unit, fuel - 1, out) {
                    Ok(_) => {
                        proof {
                            let (_, souta) = apply_f(mv, Val::Unit, (fuel - 1) as nat);
                            assert(out@ =~= out0 + (done + souta));
                        }
                        Ok(())
                    },
                    Err(e) => {
                        proof {
                            let (_, souta) = apply_f(mv, Val::Unit, (fuel - 1) as nat);
                            assert(out@ =~= out0 + (done + souta));
                        }
                        Err(DriverError::EvalError(e))
                    },
                }
            },
        }
    }
}

} // verus!
