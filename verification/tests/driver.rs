use fun::ast::{Decl, DriverError};
use fun::terms::Term;
use fun::typs::Typ;
use fun::vals::{NativeOp, Val};
use fun::ProgramContext;

const FUEL: u64 = 10_000;

fn base_context() -> ProgramContext {
    ProgramContext::default().insert_val(
        "print",
        &Typ::func(Typ::atom("Int"), Typ::atom("Unit")),
        &Val::op1(NativeOp::Print),
    )
}

fn inc_main_program() -> Vec<Decl> {
    // let inc = fun x:Int => add x 1
    // let main = fun _:Unit => print (inc 41)
    vec![
        Decl::let_(
            "inc",
            Term::abs(
                "x",
                Typ::atom("Int"),
                Term::app(Term::app(Term::var("add"), Term::var("x")), Term::int_(1)),
            ),
        ),
        Decl::let_(
            "main",
            Term::abs(
                "_",
                Typ::atom("Unit"),
                Term::app(Term::var("print"), Term::app(Term::var("inc"), Term::int_(41))),
            ),
        ),
    ]
}

#[test]
fn program_prints_forty_two() {
    let ctx = base_context();
    let mut out = Vec::new();
    let r = ctx.run_program(&inc_main_program(), FUEL, &mut out);
    assert!(r.is_ok());
    assert_eq!(out, vec![42]);
}

#[test]
fn declaration_after_main_is_rejected_before_evaluation() {
    let ctx = base_context();
    let mut decls = inc_main_program();
    decls.push(Decl::let_("late", Term::int_(1)));
    let mut out = Vec::new();
    let e = ctx.run_program(&decls, FUEL, &mut out).unwrap_err();
    assert!(matches!(e, DriverError::DefinedAfterMain(n) if n == "late"));
    assert!(out.is_empty());
}

#[test]
fn duplicate_declaration_is_rejected() {
    let ctx = base_context();
    let decls = vec![
        Decl::let_("a", Term::int_(1)),
        Decl::let_("a", Term::int_(2)),
    ];
    let mut out = Vec::new();
    let e = ctx.run_program(&decls, FUEL, &mut out).unwrap_err();
    assert!(matches!(e, DriverError::DuplicateName(n) if n == "a"));
}

#[test]
fn missing_main_is_rejected() {
    let ctx = base_context();
    let decls = vec![Decl::let_("a", Term::int_(1))];
    let mut out = Vec::new();
    let e = ctx.run_program(&decls, FUEL, &mut out).unwrap_err();
    assert!(matches!(e, DriverError::NoMain));
}

#[test]
fn mistyped_main_is_rejected() {
    let ctx = base_context();
    let decls = vec![Decl::let_("main", Term::int_(1))];
    let mut out = Vec::new();
    let e = ctx.run_program(&decls, FUEL, &mut out).unwrap_err();
    assert!(matches!(e, DriverError::BadMainType(_)));
}

#[test]
fn type_declarations_are_rejected() {
    let ctx = base_context();
    let decls = vec![Decl::type_("MyInt", Typ::atom("Int"))];
    let mut out = Vec::new();
    let e = ctx.run_program(&decls, FUEL, &mut out).unwrap_err();
    assert!(matches!(e, DriverError::TypeDeclUnsupported(n) if n == "MyInt"));
}

#[test]
fn ill_typed_declaration_is_rejected() {
    let ctx = base_context();
    let decls = vec![Decl::let_("a", Term::var("nowhere"))];
    let mut out = Vec::new();
    let e = ctx.run_program(&decls, FUEL, &mut out).unwrap_err();
    assert!(matches!(e, DriverError::DeclTypError(_)));
}

#[test]
fn declarations_see_earlier_declarations() {
    let ctx = base_context();
    let decls = vec![
        Decl::let_("a", Term::int_(20)),
        Decl::let_(
            "b",
            Term::app(Term::app(Term::var("add"), Term::var("a")), Term::var("a")),
        ),
        Decl::let_(
            "main",
            Term::abs(
                "_",
                Typ::atom("Unit"),
                Term::app(Term::var("print"), Term::var("b")),
            ),
        ),
    ];
    let mut out = Vec::new();
    let r = ctx.run_program(&decls, FUEL, &mut out);
    assert!(r.is_ok());
    assert_eq!(out, vec![40]);
}

#[test]
fn top_level_effects_happen_in_order() {
    let ctx = base_context();
    let decls = vec![
        Decl::let_("a", Term::app(Term::var("print"), Term::int_(1))),
        Decl::let_("b", Term::app(Term::var("print"), Term::int_(2))),
        Decl::let_(
            "main",
            Term::abs(
                "_",
                Typ::atom("Unit"),
                Term::app(Term::var("print"), Term::int_(3)),
            ),
        ),
    ];
    let mut out = Vec::new();
    let r = ctx.run_program(&decls, FUEL, &mut out);
    assert!(r.is_ok());
    assert_eq!(out, vec![1, 2, 3]);
}
