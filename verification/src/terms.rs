use vstd::prelude::*;

use crate::text::int_to_text;
use crate::text::decimal;
use crate::typs::typ_text;
use crate::typs::Typ;
use std::rc::Rc;

verus! {

/// An expression of the language. Subterms are shared through `Rc`, so a
/// closure can capture a body without copying it.
#[derive(Debug)]
pub enum Term {
    Var { name: String },
    Abs { param_name: String, param_typ: Typ, body: Rc<Term> },
    App { func: Rc<Term>, arg: Rc<Term> },
    Int(i32),
    If { cond: Rc<Term>, t_true: Rc<Term>, t_false: Rc<Term> },
    Sequence(Vec<Stmt>),
}

/// One statement of a sequence: a bare term, or a `let` binding that is
/// visible to the following statements of the same sequence only.
#[derive(Debug)]
pub enum Stmt {
    Term(Term),
    Let(String, Term),
}

impl Term {
    /// A variable reference.
    pub fn var(name: &str) -> (t: Term)
        ensures
            t matches Term::Var { name: n } && n@ == name@,
    {
        Term::Var { name: name.to_owned() }
    }

    /// A single-parameter function with an explicit parameter type.
    pub fn abs(param_name: &str, param_typ: Typ, body: Term) -> (t: Term)
        ensures
            t matches Term::Abs { param_name: p, param_typ: pt, body: b }
                && p@ == param_name@ && pt == param_typ && b == body,
    {
        Term::Abs { param_name: param_name.to_owned(), param_typ, body: Rc::new(body) }
    }

    /// An application of `func` to `arg`.
    pub fn app(func: Term, arg: Term) -> (t: Term)
        ensures
            t == (Term::App { func: Rc::new(func), arg: Rc::new(arg) }),
    {
        Term::App { func: Rc::new(func), arg: Rc::new(arg) }
    }

    /// An integer literal.
    pub fn int_(i: i32) -> (t: Term)
        ensures
            t == Term::Int(i),
    {
        Term::Int(i)
    }

    /// A conditional.
    pub fn if_(cond: Term, t_true: Term, t_false: Term) -> (t: Term)
        ensures
            t == (Term::If {
                cond: Rc::new(cond),
                t_true: Rc::new(t_true),
                t_false: Rc::new(t_false),
            }),
    {
        Term::If { cond: Rc::new(cond), t_true: Rc::new(t_true), t_false: Rc::new(t_false) }
    }

    /// A sequence of statements.
    pub fn seq(stmts: Vec<Stmt>) -> (t: Term)
        ensures
            t == Term::Sequence(stmts),
    {
        Term::Sequence(stmts)
    }
}


/// The display form of a term.
pub open spec fn term_text(t: Term) -> Seq<char>
    decreases t,
{
    match t {
        Term::Var { name } => name@,
        Term::Abs { param_name, param_typ, body } => seq!['(', 'f', 'u', 'n', ' '] + param_name@
            + seq![':'] + typ_text(param_typ) + seq![' ', '=', '>', ' '] + term_text(*body)
            + seq![')'],
        Term::App { func, arg } => seq!['('] + term_text(*func) + seq![' '] + term_text(*arg)
            + seq![')'],
        Term::Int(i) => decimal(i as int),
        Term::If { cond, t_true, t_false } => seq!['(', 'i', 'f', ' '] + term_text(*cond)
            + seq![' ', 't', 'h', 'e', 'n', ' '] + term_text(*t_true)
            + seq![' ', 'e', 'l', 's', 'e', ' '] + term_text(*t_false) + seq![')'],
        Term::Sequence(stmts) => seq!['{'] + stmts_text(stmts@) + seq!['}'],
    }
}

/// The display form of the statements of a sequence, each followed by a
/// semicolon.
pub open spec fn stmts_text(stmts: Seq<Stmt>) -> Seq<char>
    decreases stmts,
{
    if stmts.len() == 0 {
        Seq::empty()
    } else {
        let head = match stmts[0] {
            Stmt::Term(t) => term_text(t),
            Stmt::Let(n, t) => seq!['l', 'e', 't', ' '] + n@ + seq![' ', '=', ' '] + term_text(t),
        };
        head + seq![';', ' '] + stmts_text(stmts.drop_first())
    }
}

impl Term {
    /// Render this term in its display form.
    pub fn to_text(&self) -> (r: String)
        ensures
            r@ == term_text(*self),
        decreases *self,
    {
        match self {
            Term::Var { name } => name.clone(),
            Term::Abs { param_name, param_typ, body } => {
                proof {
                    reveal_strlit("(fun ");
                    reveal_strlit(":");
                    reveal_strlit(" => ");
                    reveal_strlit(")");
                }
                let mut r: String = "(fun ".to_owned();
                r.append(param_name.as_str());
                r.append(":");
                let tt = param_typ.to_text();
                r.append(tt.as_str());
                r.append(" => ");
                let bt = body.to_text();
                r.append(bt.as_str());
                r.append(")");
                proof {
                    assert(r@ =~= term_text(*self));
                }
                r
            },
            Term::App { func, arg } => {
                proof {
                    reveal_strlit("(");
                    reveal_strlit(" ");
                    reveal_strlit(")");
                }
                let mut r: String = "(".to_owned();
                let ft = func.to_text();
                r.append(ft.as_str());
                r.append(" ");
                let at = arg.to_text();
                r.append(at.as_str());
                r.append(")");
                proof {
                    assert(r@ =~= term_text(*self));
                }
                r
            },
            Term::Int(i) => int_to_text(*i),
            Term::If { cond, t_true, t_false } => {
                proof {
                    reveal_strlit("(if ");
                    reveal_strlit(" then ");
                    reveal_strlit(" else ");
                    reveal_strlit(")");
                }
                let mut r: String = "(if ".to_owned();
                let ct = cond.to_text();
                r.append(ct.as_str());
                r.append(" then ");
                let tt = t_true.to_text();
                r.append(tt.as_str());
                r.append(" else ");
                let ft = t_false.to_text();
                r.append(ft.as_str());
                r.append(")");
                proof {
                    assert(r@ =~= term_text(*self));
                }
                r
            },
            Term::Sequence(stmts) => {
                proof {
                    reveal_strlit("{");
                    reveal_strlit("}");
                    reveal_strlit("let ");
                    reveal_strlit(" = ");
                    reveal_strlit("; ");
                }
                let mut r: String = "{".to_owned();
                let ghost mut done_text = Seq::<char>::empty();
                let mut i: usize = 0;
                proof {
                    assert(stmts@.skip(0) =~= stmts@);
                    assert(r@ =~= seq!['{'] + done_text);
                }
                while i < stmts.len()
                    invariant
                        *self == Term::Sequence(*stmts),
                        i <= stmts.len(),
                        r@ == seq!['{'] + done_text,
                        stmts_text(stmts@) == done_text + stmts_text(stmts@.skip(i as int)),
                    decreases stmts.len() - i,
                {
                    proof {
                        assert(stmts@.skip(i as int)[0] == stmts@[i as int]);
                        assert(stmts@.skip(i as int).drop_first() =~= stmts@.skip(i as int + 1));
                        assert(decreases_to!(*self => (*self)->Sequence_0));
                        assert((*self)->Sequence_0 == *stmts);
                        assert(decreases_to!(*stmts => stmts@));
                        assert(decreases_to!(stmts@ => stmts@[i as int]));
                    }
                    proof {
                        reveal_strlit("let ");
                        reveal_strlit(" = ");
                        reveal_strlit("; ");
                    }
                    match &stmts[i] {
                        Stmt::Term(t) => {
                            let st = t.to_text();
                            r.append(st.as_str());
                        },
                        Stmt::Let(n, t) => {
                            r.append("let ");
                            r.append(n.as_str());
                            r.append(" = ");
                            let st = t.to_text();
                            r.append(st.as_str());
                        },
                    }
                    r.append("; ");
                    proof {
                        let head = match stmts@[i as int] {
                            Stmt::Term(t) => term_text(t),
                            Stmt::Let(n, t) => seq!['l', 'e', 't', ' '] + n@ + seq![' ', '=', ' ']
                                + term_text(t),
                        };
                        done_text = done_text + head + seq![';', ' '];
                        assert(r@ =~= seq!['{'] + done_text);
                        assert(stmts_text(stmts@) =~= done_text + stmts_text(
                            stmts@.skip(i as int + 1),
                        ));
                    }
                    i += 1;
                }
                r.append("}");
                proof {
                    assert(stmts@.skip(i as int) =~= Seq::<Stmt>::empty());
                    assert(r@ =~= term_text(*self));
                }
                r
            },
        }
    }
}

impl Stmt {
    /// A bare-term statement.
    pub fn term(t: Term) -> (s: Stmt)
        ensures
            s == Stmt::Term(t),
    {
        Stmt::Term(t)
    }

    /// A `let` statement binding `name` for the rest of the sequence.
    pub fn let_(name: &str, t: Term) -> (s: Stmt)
        ensures
            s matches Stmt::Let(n, t2) && n@ == name@ && t2 == t,
    {
        Stmt::Let(name.to_owned(), t)
    }
}

} // verus!
