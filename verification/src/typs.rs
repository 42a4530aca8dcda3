use vstd::prelude::*;

use crate::terms::{Stmt, Term};

verus! {

/// A type of the language: an atomic named type or a function arrow.
#[derive(Debug)]
pub enum Typ {
    Atom(String),
    Func { from: Box<Typ>, to: Box<Typ> },
}

/// The mathematical form of a `Typ`: names are character sequences.
pub enum TypV {
    Atom(Seq<char>),
    Func(Box<TypV>, Box<TypV>),
}

impl Typ {
    pub open spec fn model(self) -> TypV
        decreases self,
    {
        match self {
            Typ::Atom(s) => TypV::Atom(s@),
            Typ::Func { from, to } => TypV::Func(Box::new(from.model()), Box::new(to.model())),
        }
    }
}

impl View for Typ {
    type V = TypV;

    open spec fn view(&self) -> TypV {
        self.model()
    }
}

pub open spec fn typ_int() -> TypV {
    TypV::Atom("Int"@)
}

pub open spec fn typ_bool() -> TypV {
    TypV::Atom("Bool"@)
}

pub open spec fn typ_unit() -> TypV {
    TypV::Atom("Unit"@)
}

impl Typ {
    /// An atomic type with the given name.
    pub fn atom(name: &str) -> (t: Typ)
        ensures
            t matches Typ::Atom(s) && s@ == name@,
            t@ == TypV::Atom(name@),
    {
        Typ::Atom(name.to_owned())
    }

    /// The function type `from -> to`.
    pub fn func(from: Typ, to: Typ) -> (t: Typ)
        ensures
            t == (Typ::Func { from: Box::new(from), to: Box::new(to) }),
            t@ == TypV::Func(Box::new(from@), Box::new(to@)),
    {
        Typ::Func { from: Box::new(from), to: Box::new(to) }
    }

    /// An equal copy of this type.
    pub fn dup(&self) -> (r: Typ)
        ensures
            r == *self,
        decreases *self,
    {
        match self {
            Typ::Atom(s) => Typ::Atom(s.clone()),
            Typ::Func { from, to } => Typ::Func {
                from: Box::new(from.dup()),
                to: Box::new(to.dup()),
            },
        }
    }

    /// Structural equality: atoms are equal when their names are, arrows when
    /// both components are.
    pub fn equals(&self, other: &Typ) -> (r: bool)
        ensures
            r == (self@ == other@),
        decreases *self,
    {
        match (self, other) {
            (Typ::Atom(a), Typ::Atom(b)) => *a == *b,
            (Typ::Func { from: f1, to: t1 }, Typ::Func { from: f2, to: t2 }) => f1.equals(f2)
                && t1.equals(t2),
            _ => false,
        }
    }
}

/// The display form of a type: an atom is its name; an arrow type prints as
/// "(from -> to)".
pub open spec fn typ_text(t: Typ) -> Seq<char>
    decreases t,
{
    match t {
        Typ::Atom(s) => s@,
        Typ::Func { from, to } => seq!['('] + typ_text(*from) + seq![' ', '-', '>', ' ']
            + typ_text(*to) + seq![')'],
    }
}

impl Typ {
    /// Render this type in its display form.
    pub fn to_text(&self) -> (r: String)
        ensures
            r@ == typ_text(*self),
        decreases *self,
    {
        match self {
            Typ::Atom(s) => s.clone(),
            Typ::Func { from, to } => {
                proof {
                    reveal_strlit("(");
                    reveal_strlit(" -> ");
                    reveal_strlit(")");
                }
                let mut r: String = "(".to_owned();
                let f = from.to_text();
                r.append(f.as_str());
                r.append(" -> ");
                let t2 = to.to_text();
                r.append(t2.as_str());
                r.append(")");
                proof {
                    assert(r@ =~= typ_text(*self));
                }
                r
            },
        }
    }
}

// typing errors

/// Why a term fails to type-check.
#[derive(Debug)]
pub enum TypError {
    /// A variable is not bound in the typing context.
    Undefined(String),
    /// Two types that were required to be equal are not: expected, then found.
    Mismatch(Typ, Typ),
    /// A term was required to have a type of a certain shape: the shape's
    /// description, then the type found.
    Expected(String, Typ),
}

/// The mathematical form of a `TypError`.
pub enum TypErrorV {
    Undefined(Seq<char>),
    Mismatch(TypV, TypV),
    Expected(Seq<char>, TypV),
}

impl TypError {
    pub open spec fn model(self) -> TypErrorV {
        match self {
            TypError::Undefined(s) => TypErrorV::Undefined(s@),
            TypError::Mismatch(a, b) => TypErrorV::Mismatch(a@, b@),
            TypError::Expected(s, t) => TypErrorV::Expected(s@, t@),
        }
    }
}

impl View for TypError {
    type V = TypErrorV;

    open spec fn view(&self) -> TypErrorV {
        self.model()
    }
}

/// The display form of a typing error.
pub open spec fn typ_error_text(e: TypError) -> Seq<char> {
    match e {
        TypError::Undefined(v) => "Variable \""@ + v@ + "\" isn't defined"@,
        TypError::Mismatch(exp, rec) => "Expected type \""@ + typ_text(exp) + "\" but found \""@
            + typ_text(rec) + "\""@,
        TypError::Expected(exp, rec) => "Expected "@ + exp@ + " but found \""@ + typ_text(rec)
            + "\""@,
    }
}

impl TypError {
    /// Render this error in its display form.
    pub fn to_text(&self) -> (r: String)
        ensures
            r@ == typ_error_text(*self),
    {
        match self {
            TypError::Undefined(v) => {
                let mut r: String = "Variable \"".to_owned();
                r.append(v.as_str());
                r.append("\" isn't defined");
                proof {
                    assert(r@ =~= typ_error_text(*self));
                }
                r
            },
            TypError::Mismatch(exp, rec) => {
                let mut r: String = "Expected type \"".to_owned();
                let e1 = exp.to_text();
                r.append(e1.as_str());
                r.append("\" but found \"");
                let e2 = rec.to_text();
                r.append(e2.as_str());
                r.append("\"");
                proof {
                    assert(r@ =~= typ_error_text(*self));
                }
                r
            },
            TypError::Expected(exp, rec) => {
                let mut r: String = "Expected ".to_owned();
                r.append(exp.as_str());
                r.append(" but found \"");
                let e2 = rec.to_text();
                r.append(e2.as_str());
                r.append("\"");
                proof {
                    assert(r@ =~= typ_error_text(*self));
                }
                r
            },
        }
    }
}

pub type TypResult<T> = Result<T, TypError>;

// the typing context, a persistent map from names to types

/// The typing context: a persistent map from names to types. Insertion
/// returns a new map and leaves the old one valid and unchanged. The types
/// are held under `Rc` so that the map's structural sharing never copies
/// them.
pub type TypContext = immutable_map::TreeMap<String, std::rc::Rc<Typ>>;

#[verifier::external_type_specification]
#[verifier::external_body]
#[verifier::reject_recursive_types(K)]
#[verifier::reject_recursive_types(V)]
pub struct ExTreeMap<K, V>(immutable_map::TreeMap<K, V>);

/// What a typing context holds: the types, in their mathematical form, keyed
/// by the bound names.
pub uninterp spec fn typ_env_of(m: TypContext) -> Map<Seq<char>, TypV>;

/// Relies on immutable_map::TreeMap::new, which makes an empty map.
#[verifier::external_body]
pub(crate) fn typ_ctx_new() -> (m: TypContext)
    ensures
        forall|n: Seq<char>| !typ_env_of(m).contains_key(n),
{
    immutable_map::TreeMap::new()
}

/// Relies on immutable_map::TreeMap::get, which returns the value stored
/// under the key, or None when the key is absent.
#[verifier::external_body]
pub(crate) fn typ_ctx_get<'a>(m: &'a TypContext, name: &String) -> (r: Option<&'a Typ>)
    ensures
        match r {
            Some(t) => typ_env_of(*m).contains_key(name@) && t@ == typ_env_of(*m)[name@],
            None => !typ_env_of(*m).contains_key(name@),
        },
{
    m.get(name).map(|t| t.as_ref())
}

/// Relies on immutable_map::TreeMap::insert, which returns a new map holding
/// the binding in addition to everything the old map held, replacing any
/// previous binding of the same key; the old map is untouched.
#[verifier::external_body]
pub(crate) fn typ_ctx_insert(m: &TypContext, name: &String, t: Typ) -> (r: TypContext)
    ensures
        typ_env_of(r) == typ_env_of(*m).insert(name@, t@),
{
    m.insert(name.clone(), std::rc::Rc::new(t))
}

/// Relies on immutable_map::TreeMap::clone (derived), which clones the shared
/// root handle: the copy holds the same bindings.
#[verifier::external_body]
pub(crate) fn typ_ctx_dup(m: &TypContext) -> (r: TypContext)
    ensures
        typ_env_of(r) == typ_env_of(*m),
{
    m.clone()
}

// the typing rules

/// The type of `t` in `env`, or the typing error, as one mathematical
/// function. This is the language's typing relation.
pub open spec fn type_of(t: Term, env: Map<Seq<char>, TypV>) -> Result<TypV, TypErrorV>
    decreases t,
{
    match t {
        Term::Var { name } => if env.contains_key(name@) {
            Ok(env[name@])
        } else {
            Err(TypErrorV::Undefined(name@))
        },
        Term::Abs { param_name, param_typ, body } => {
            let benv = if param_name@ == "_"@ {
                env
            } else {
                env.insert(param_name@, param_typ@)
            };
            match type_of(*body, benv) {
                Ok(bt) => Ok(TypV::Func(Box::new(param_typ@), Box::new(bt))),
                Err(e) => Err(e),
            }
        },
        Term::App { func, arg } => match type_of(*func, env) {
            Err(e) => Err(e),
            Ok(ft) => match type_of(*arg, env) {
                Err(e) => Err(e),
                Ok(at) => match ft {
                    TypV::Func(from, to) => if *from == at {
                        Ok(*to)
                    } else {
                        Err(TypErrorV::Mismatch(*from, at))
                    },
                    _ => Err(TypErrorV::Expected("arrow type"@, ft)),
                },
            },
        },
        Term::Int(_) => Ok(typ_int()),
        Term::If { cond, t_true, t_false } => match type_of(*cond, env) {
            Err(e) => Err(e),
            Ok(ct) => if ct != typ_bool() {
                Err(TypErrorV::Mismatch(typ_bool(), ct))
            } else {
                match type_of(*t_true, env) {
                    Err(e) => Err(e),
                    Ok(tt) => match type_of(*t_false, env) {
                        Err(e) => Err(e),
                        Ok(ft) => if tt == ft {
                            Ok(tt)
                        } else {
                            Err(TypErrorV::Mismatch(tt, ft))
                        },
                    },
                }
            },
        },
        Term::Sequence(stmts) => stmts_typ(stmts@, env, typ_unit()),
    }
}

/// The type of the rest of a statement sequence: `current` is the type of
/// what has been seen so far, and a `let` extends the context for the
/// statements after it only.
pub open spec fn stmts_typ(
    stmts: Seq<Stmt>,
    env: Map<Seq<char>, TypV>,
    current: TypV,
) -> Result<TypV, TypErrorV>
    decreases stmts,
{
    if stmts.len() == 0 {
        Ok(current)
    } else {
        match stmts[0] {
            Stmt::Term(t) => match type_of(t, env) {
                Ok(ty) => stmts_typ(stmts.drop_first(), env, ty),
                Err(e) => Err(e),
            },
            Stmt::Let(name, t) => match type_of(t, env) {
                Ok(ty) => stmts_typ(stmts.drop_first(), env.insert(name@, ty), ty),
                Err(e) => Err(e),
            },
        }
    }
}

/// An executable typing result matches the mathematical one when both sides
/// agree, up to the view of the type or error.
pub open spec fn typ_res_matches(r: Result<Typ, TypError>, s: Result<TypV, TypErrorV>) -> bool {
    match (r, s) {
        (Ok(t), Ok(tv)) => t@ == tv,
        (Err(e), Err(ev)) => e@ == ev,
        _ => false,
    }
}

impl Term {
    /// Type-check this term in the given context.
    pub fn typ(&self, typ_ctx: &TypContext) -> (r: TypResult<Typ>)
        ensures
            typ_res_matches(r, type_of(*self, typ_env_of(*typ_ctx))),
        decreases *self,
    {
        match self {
            Term::Var { name } => match typ_ctx_get(typ_ctx, name) {
                Some(t) => Ok(t.dup()),
                None => Err(TypError::Undefined(name.clone())),
            },
            Term::Abs { param_name, param_typ, body } => {
                let under: String = "_".to_owned();
                let bt = if *param_name == under {
                    body.typ(typ_ctx)
                } else {
                    let benv = typ_ctx_insert(typ_ctx, param_name, param_typ.dup());
                    body.typ(&benv)
                };
                match bt {
                    Ok(bt) => Ok(Typ::func(param_typ.dup(), bt)),
                    Err(e) => Err(e),
                }
            },
            Term::App { func, arg } => {
                let ft = match func.typ(typ_ctx) {
                    Ok(t) => t,
                    Err(e) => {
                        return Err(e);
                    },
                };
                let at = match arg.typ(typ_ctx) {
                    Ok(t) => t,
                    Err(e) => {
                        return Err(e);
                    },
                };
                match ft {
                    Typ::Func { from, to } => if from.equals(&at) {
                        Ok(*to)
                    } else {
                        Err(TypError::Mismatch(*from, at))
                    },
                    _ => Err(TypError::Expected("arrow type".to_owned(), ft)),
                }
            },
            Term::Int(_) => Ok(Typ::atom("Int")),
            Term::If { cond, t_true, t_false } => {
                let ct = match cond.typ(typ_ctx) {
                    Ok(t) => t,
                    Err(e) => {
                        return Err(e);
                    },
                };
                let bool_t = Typ::atom("Bool");
                if !ct.equals(&bool_t) {
                    return Err(TypError::Mismatch(bool_t, ct));
                }
                let tt = match t_true.typ(typ_ctx) {
                    Ok(t) => t,
                    Err(e) => {
                        return Err(e);
                    },
                };
                let ft = match t_false.typ(typ_ctx) {
                    Ok(t) => t,
                    Err(e) => {
                        return Err(e);
                    },
                };
                if tt.equals(&ft) {
                    Ok(tt)
                } else {
                    Err(TypError::Mismatch(tt, ft))
                }
            },
            Term::Sequence(stmts) => {
                let ghost g0 = typ_env_of(*typ_ctx);
                let mut env = typ_ctx_dup(typ_ctx);
                let mut cur = Typ::atom("Unit");
                let mut i: usize = 0;
                proof {
                    assert(stmts@.skip(0) =~= stmts@);
                }
                while i < stmts.len()
                    invariant
                        *self == Term::Sequence(*stmts),
                        g0 == typ_env_of(*typ_ctx),
                        i <= stmts.len(),
                        stmts_typ(stmts@.skip(i as int), typ_env_of(env), cur@) == stmts_typ(
                            stmts@,
                            g0,
                            typ_unit(),
                        ),
                    decreases stmts.len() - i,
                {
                    proof {
                        assert(stmts@.skip(i as int)[0] == stmts@[i as int]);
                        assert(stmts@.skip(i as int).drop_first() =~= stmts@.skip(i as int + 1));
                        assert(decreases_to!(*self => *stmts));
                        assert(decreases_to!(*stmts => stmts@));
                        assert(decreases_to!(stmts@ => stmts@[i as int]));
                    }
                    match &stmts[i] {
                        Stmt::Term(t) => {
                            match t.typ(&env) {
                                Ok(ty) => {
                                    cur = ty;
                                },
                                Err(e) => {
                                    return Err(e);
                                },
                            }
                        },
                        Stmt::Let(name, t) => {
                            match t.typ(&env) {
                                Ok(ty) => {
                                    env = typ_ctx_insert(&env, name, ty.dup());
                                    cur = ty;
                                },
                                Err(e) => {
                                    return Err(e);
                                },
                            }
                        },
                    }
                    i += 1;
                }
                proof {
                    assert(stmts@.skip(i as int) =~= Seq::<Stmt>::empty());
                }
                Ok(cur)
            },
        }
    }
}

} // verus!
