use fun::terms::{Stmt, Term};
use fun::typs::{Typ, TypError};
use fun::vals::{NativeOp, Val, ValContext, ValError};
use fun::ProgramContext;

const FUEL: u64 = 10_000;

fn app2(f: Term, a: Term, b: Term) -> Term {
    Term::app(Term::app(f, a), b)
}

#[test]
fn typ_of_identity_abs() {
    let ctx = ProgramContext::empty();
    let term = Term::abs("x", Typ::atom("Int"), Term::var("x"));
    let t = ctx.typ(&term).unwrap();
    let expected = Typ::func(Typ::atom("Int"), Typ::atom("Int"));
    assert!(t.equals(&expected));
}

#[test]
fn eval_identity_applied_to_five() {
    let ctx = ProgramContext::empty();
    let term = Term::app(Term::abs("x", Typ::atom("Int"), Term::var("x")), Term::int_(5));
    let mut out = Vec::new();
    let v = ctx.eval(&term, FUEL, &mut out).unwrap();
    assert!(matches!(v, Val::Int(5)));
    assert!(out.is_empty());
}

#[test]
fn typ_of_int_applied_to_int_is_expected_error() {
    let ctx = ProgramContext::empty();
    let term = Term::app(Term::int_(1), Term::int_(2));
    let e = ctx.typ(&term).unwrap_err();
    match e {
        TypError::Expected(what, Typ::Atom(found)) => {
            assert_eq!(what, "arrow type");
            assert_eq!(found, "Int");
        },
        other => panic!("wrong error: {:?}", other),
    }
}

#[test]
fn typ_of_unbound_var_is_undefined() {
    let ctx = ProgramContext::empty();
    let e = ctx.typ(&Term::var("zzz")).unwrap_err();
    assert!(matches!(e, TypError::Undefined(n) if n == "zzz"));
}

#[test]
fn typ_of_if_with_int_condition_is_mismatch() {
    let ctx = ProgramContext::empty();
    let term = Term::if_(Term::int_(1), Term::int_(2), Term::int_(3));
    let e = ctx.typ(&term).unwrap_err();
    match e {
        TypError::Mismatch(Typ::Atom(expected), Typ::Atom(found)) => {
            assert_eq!(expected, "Bool");
            assert_eq!(found, "Int");
        },
        other => panic!("wrong error: {:?}", other),
    }
}

#[test]
fn typ_of_argument_mismatch() {
    let ctx = ProgramContext::default();
    // not : Bool -> Bool applied to an Int
    let term = Term::app(Term::var("not"), Term::int_(3));
    let e = ctx.typ(&term).unwrap_err();
    match e {
        TypError::Mismatch(Typ::Atom(expected), Typ::Atom(found)) => {
            assert_eq!(expected, "Bool");
            assert_eq!(found, "Int");
        },
        other => panic!("wrong error: {:?}", other),
    }
}

#[test]
fn eval_of_ill_typed_application_is_fatal() {
    let ctx = ProgramContext::empty();
    let term = Term::app(Term::int_(1), Term::int_(2));
    let mut out = Vec::new();
    let e = ctx.eval(&term, FUEL, &mut out).unwrap_err();
    assert_eq!(e, ValError::Fatal);
}

#[test]
fn eval_sequence_with_let() {
    let ctx = ProgramContext::empty();
    let term = Term::seq(vec![
        Stmt::let_("a", Term::int_(1)),
        Stmt::term(Term::var("a")),
    ]);
    let mut out = Vec::new();
    let v = ctx.eval(&term, FUEL, &mut out).unwrap();
    assert!(matches!(v, Val::Int(1)));
}

#[test]
fn eval_sequence_with_shadowing_let() {
    let ctx = ProgramContext::empty();
    let term = Term::seq(vec![
        Stmt::let_("a", Term::int_(1)),
        Stmt::let_("a", Term::int_(2)),
        Stmt::term(Term::var("a")),
    ]);
    let mut out = Vec::new();
    let v = ctx.eval(&term, FUEL, &mut out).unwrap();
    assert!(matches!(v, Val::Int(2)));
}

#[test]
fn eval_empty_sequence_is_unit() {
    let ctx = ProgramContext::empty();
    let mut out = Vec::new();
    let v = ctx.eval(&Term::seq(vec![]), FUEL, &mut out).unwrap();
    assert!(matches!(v, Val::Unit));
}

#[test]
fn let_shadows_for_later_statements_only() {
    // The statement before the inner let sees the outer binding; the one
    // after it sees the new binding.
    let ctx = ProgramContext::empty().insert_val("x", &Typ::atom("Int"), &Val::Int(1));
    let before = Term::seq(vec![Stmt::term(Term::var("x"))]);
    let mut out = Vec::new();
    let v = ctx.eval(&before, FUEL, &mut out).unwrap();
    assert!(matches!(v, Val::Int(1)));
    let term = Term::seq(vec![
        Stmt::let_("sum", Term::var("x")),
        Stmt::let_("x", Term::int_(2)),
        Stmt::term(app2(Term::var("add"), Term::var("x"), Term::var("sum"))),
    ]);
    let ctx2 = ProgramContext::default().insert_val("x", &Typ::atom("Int"), &Val::Int(1));
    let v2 = ctx2.eval(&term, FUEL, &mut out).unwrap();
    match v2 {
        Val::Int(i) => assert_eq!(i, 3),
        other => panic!("wrong value: {:?}", other),
    }
}

#[test]
fn environment_non_interference() {
    // A closure captures the context as it was; a later insertion into a
    // derived context does not change what the closure sees.
    let c1 = ProgramContext::empty().insert_val("x", &Typ::atom("Int"), &Val::Int(1));
    let mut out = Vec::new();
    let f = c1
        .eval(&Term::abs("y", Typ::atom("Int"), Term::var("x")), FUEL, &mut out)
        .unwrap();
    let c2 = c1.insert_val("x", &Typ::atom("Int"), &Val::Int(2));
    let v = f.apply(Val::Int(0), FUEL, &mut out).unwrap();
    assert!(matches!(v, Val::Int(1)));
    // The original context still answers as before the insertion.
    let v1 = c1.eval(&Term::var("x"), FUEL, &mut out).unwrap();
    assert!(matches!(v1, Val::Int(1)));
    // And the derived context holds the new binding.
    let v2 = c2.eval(&Term::var("x"), FUEL, &mut out).unwrap();
    assert!(matches!(v2, Val::Int(2)));
}

#[test]
fn placeholder_param_binds_nothing() {
    let ctx = ProgramContext::empty();
    let term = Term::app(Term::abs("_", Typ::atom("Int"), Term::int_(7)), Term::int_(5));
    let mut out = Vec::new();
    let v = ctx.eval(&term, FUEL, &mut out).unwrap();
    assert!(matches!(v, Val::Int(7)));
}

#[test]
fn placeholder_body_reference_fails_typing() {
    let ctx = ProgramContext::empty();
    let term = Term::abs("_", Typ::atom("Int"), Term::var("_"));
    let e = ctx.typ(&term).unwrap_err();
    assert!(matches!(e, TypError::Undefined(n) if n == "_"));
}

#[test]
fn placeholder_does_not_shadow_outer_binding() {
    // An outer binding literally named "_" stays visible inside an
    // abstraction whose parameter is the placeholder.
    let ctx = ProgramContext::empty().insert_val("_", &Typ::atom("Int"), &Val::Int(9));
    let t = ctx
        .typ(&Term::abs("_", Typ::atom("Bool"), Term::var("_")))
        .unwrap();
    let expected = Typ::func(Typ::atom("Bool"), Typ::atom("Int"));
    assert!(t.equals(&expected));
}

#[test]
fn if_true_does_not_evaluate_false_branch() {
    let ctx = ProgramContext::default().insert_val(
        "print",
        &Typ::func(Typ::atom("Int"), Typ::atom("Unit")),
        &Val::op1(NativeOp::Print),
    );
    let cond = Term::app(Term::var("not"), app2(Term::var("eq"), Term::int_(1), Term::int_(2)));
    let term = Term::if_(
        cond,
        Term::app(Term::var("print"), Term::int_(1)),
        Term::app(Term::var("print"), Term::int_(0)),
    );
    let mut out = Vec::new();
    let v = ctx.eval(&term, FUEL, &mut out).unwrap();
    assert!(matches!(v, Val::Unit));
    assert_eq!(out, vec![1]);
}

#[test]
fn soundness_scenario_typed_term_never_fatal() {
    // A term that type-checks evaluates without the fatal error, and the
    // value's shape matches the type.
    let ctx = ProgramContext::default();
    let term = app2(Term::var("lt"), Term::int_(1), Term::int_(2));
    let mut out = Vec::new();
    let (t, v) = ctx.run(&term, FUEL, &mut out).unwrap();
    assert!(t.equals(&Typ::atom("Bool")));
    assert!(matches!(v, Val::Bool(true)));
}

#[test]
fn run_does_not_evaluate_on_type_error() {
    let ctx = ProgramContext::default().insert_val(
        "print",
        &Typ::func(Typ::atom("Int"), Typ::atom("Unit")),
        &Val::op1(NativeOp::Print),
    );
    // The sequence would print if it were evaluated, but its last statement
    // fails to type-check.
    let term = Term::seq(vec![
        Stmt::term(Term::app(Term::var("print"), Term::int_(3))),
        Stmt::term(Term::var("nowhere")),
    ]);
    let mut out = Vec::new();
    let r = ctx.run(&term, FUEL, &mut out);
    assert!(r.is_err());
    assert!(out.is_empty());
}

#[test]
fn arithmetic_exact_values() {
    let ctx = ProgramContext::default();
    let mut out = Vec::new();
    let cases: Vec<(Term, i32)> = vec![
        (app2(Term::var("add"), Term::int_(40), Term::int_(2)), 42),
        (app2(Term::var("mul"), Term::int_(-6), Term::int_(7)), -42),
        (app2(Term::var("div"), Term::int_(-7), Term::int_(2)), -3),
        (app2(Term::var("mod"), Term::int_(-7), Term::int_(3)), -1),
        (app2(Term::var("shl"), Term::int_(1), Term::int_(3)), 8),
        (app2(Term::var("shr"), Term::int_(-8), Term::int_(1)), -4),
    ];
    for (term, expected) in cases {
        let v = ctx.eval(&term, FUEL, &mut out).unwrap();
        match v {
            Val::Int(i) => assert_eq!(i, expected),
            other => panic!("wrong value: {:?}", other),
        }
    }
}

#[test]
fn boolean_ops_exact_values() {
    let ctx = ProgramContext::default();
    let mut out = Vec::new();
    let tru = || app2(Term::var("eq"), Term::int_(1), Term::int_(1));
    let fls = || app2(Term::var("eq"), Term::int_(1), Term::int_(2));
    let v = ctx
        .eval(&app2(Term::var("xor"), tru(), fls()), FUEL, &mut out)
        .unwrap();
    assert!(matches!(v, Val::Bool(true)));
    let v = ctx
        .eval(&app2(Term::var("and"), tru(), fls()), FUEL, &mut out)
        .unwrap();
    assert!(matches!(v, Val::Bool(false)));
    let v = ctx.eval(&Term::app(Term::var("not"), fls()), FUEL, &mut out).unwrap();
    assert!(matches!(v, Val::Bool(true)));
}

#[test]
fn division_by_zero_is_an_error() {
    let ctx = ProgramContext::default();
    let mut out = Vec::new();
    let term = app2(Term::var("div"), Term::int_(1), Term::int_(0));
    let e = ctx.eval(&term, FUEL, &mut out).unwrap_err();
    assert_eq!(e, ValError::DivisionByZero);
}

#[test]
fn remainder_by_zero_is_an_error() {
    let ctx = ProgramContext::default();
    let mut out = Vec::new();
    let term = app2(Term::var("mod"), Term::int_(5), Term::int_(0));
    let e = ctx.eval(&term, FUEL, &mut out).unwrap_err();
    assert_eq!(e, ValError::DivisionByZero);
}

#[test]
fn oversized_shift_is_an_error() {
    let ctx = ProgramContext::default();
    let mut out = Vec::new();
    let term = app2(Term::var("shl"), Term::int_(1), Term::int_(40));
    let e = ctx.eval(&term, FUEL, &mut out).unwrap_err();
    assert_eq!(e, ValError::ShiftOutOfRange);
}

#[test]
fn no_fuel_is_an_error() {
    let ctx = ProgramContext::empty();
    let term = Term::app(Term::abs("x", Typ::atom("Int"), Term::var("x")), Term::int_(5));
    let mut out = Vec::new();
    let e = ctx.eval(&term, 0, &mut out).unwrap_err();
    assert_eq!(e, ValError::OutOfFuel);
}

#[test]
fn wrapping_addition() {
    let ctx = ProgramContext::default();
    let mut out = Vec::new();
    let term = app2(Term::var("add"), Term::int_(i32::MAX), Term::int_(1));
    let v = ctx.eval(&term, FUEL, &mut out).unwrap();
    match v {
        Val::Int(i) => assert_eq!(i, i32::MIN),
        other => panic!("wrong value: {:?}", other),
    }
}

#[test]
fn second_neg_binding_wins_and_adds() {
    // The built-in set binds "neg" twice; the later binding is a binary
    // operation with addition semantics, and the later binding wins.
    let ctx = ProgramContext::default();
    let mut out = Vec::new();
    let (t, v) = ctx
        .run(&app2(Term::var("neg"), Term::int_(2), Term::int_(3)), FUEL, &mut out)
        .unwrap();
    assert!(t.equals(&Typ::atom("Int")));
    match v {
        Val::Int(i) => assert_eq!(i, 5),
        other => panic!("wrong value: {:?}", other),
    }
}

#[test]
fn partial_application_is_a_value() {
    let ctx = ProgramContext::default();
    let mut out = Vec::new();
    let term = Term::app(Term::var("add"), Term::int_(40));
    let v = ctx.eval(&term, FUEL, &mut out).unwrap();
    assert!(matches!(v, Val::Native(_)));
    let r = v.apply(Val::Int(2), FUEL, &mut out).unwrap();
    assert!(matches!(r, Val::Int(42)));
}

#[test]
fn get_val_present_in_both_environments() {
    let ctx = ProgramContext::empty().insert_val("x", &Typ::atom("Int"), &Val::Int(3));
    let (v, t) = ctx.get_val("x").unwrap();
    assert!(matches!(v, Val::Int(3)));
    assert!(t.equals(&Typ::atom("Int")));
    assert!(ctx.get_val("y").is_none());
}

#[test]
fn insert_val_replaces_earlier_binding() {
    let ctx = ProgramContext::empty()
        .insert_val("x", &Typ::atom("Int"), &Val::Int(3))
        .insert_val("x", &Typ::atom("Bool"), &Val::Bool(true));
    let (v, t) = ctx.get_val("x").unwrap();
    assert!(matches!(v, Val::Bool(true)));
    assert!(t.equals(&Typ::atom("Bool")));
}

#[test]
fn closure_display_types() {
    // A curried two-argument function types right-associatively.
    let ctx = ProgramContext::empty();
    let term = Term::abs(
        "x",
        Typ::atom("Int"),
        Term::abs("y", Typ::atom("Bool"), Term::var("x")),
    );
    let t = ctx.typ(&term).unwrap();
    let expected = Typ::func(
        Typ::atom("Int"),
        Typ::func(Typ::atom("Bool"), Typ::atom("Int")),
    );
    assert!(t.equals(&expected));
}

#[test]
fn val_context_lookup_newest_wins() {
    let c = ValContext::empty();
    let name: String = "k".to_owned();
    let c1 = c.insert(&name, Val::Int(1));
    let c2 = c1.insert(&name, Val::Int(2));
    assert!(matches!(c2.get(&name), Some(Val::Int(2))));
    assert!(matches!(c1.get(&name), Some(Val::Int(1))));
    assert!(c.get(&name).is_none());
}
