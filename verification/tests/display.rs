use fun::terms::{Stmt, Term};
use fun::typs::Typ;
use fun::vals::Val;
use fun::ProgramContext;

#[test]
fn typ_display_forms() {
    assert_eq!(Typ::atom("Int").to_text(), "Int");
    let t = Typ::func(Typ::atom("Int"), Typ::atom("Bool"));
    assert_eq!(t.to_text(), "(Int -> Bool)");
    let t2 = Typ::func(Typ::atom("Int"), Typ::func(Typ::atom("Int"), Typ::atom("Int")));
    assert_eq!(t2.to_text(), "(Int -> (Int -> Int))");
}

#[test]
fn term_display_forms() {
    assert_eq!(Term::var("x").to_text(), "x");
    assert_eq!(
        Term::abs("x", Typ::atom("Int"), Term::var("x")).to_text(),
        "(fun x:Int => x)"
    );
    assert_eq!(Term::app(Term::var("f"), Term::var("y")).to_text(), "(f y)");
    assert_eq!(Term::int_(-42).to_text(), "-42");
    assert_eq!(
        Term::if_(Term::var("b"), Term::int_(1), Term::int_(2)).to_text(),
        "(if b then 1 else 2)"
    );
    assert_eq!(
        Term::seq(vec![
            Stmt::let_("a", Term::int_(1)),
            Stmt::term(Term::var("a")),
        ])
        .to_text(),
        "{let a = 1; a; }"
    );
}

#[test]
fn val_display_forms() {
    assert_eq!(Val::Int(-5).to_text(), "-5");
    assert_eq!(Val::Int(0).to_text(), "0");
    assert_eq!(Val::Int(i32::MIN).to_text(), "-2147483648");
    assert_eq!(Val::Bool(true).to_text(), "True");
    assert_eq!(Val::Bool(false).to_text(), "False");
    assert_eq!(Val::Unit.to_text(), "Unit");
    let ctx = ProgramContext::default();
    let (f, _) = ctx.get_val("add").unwrap();
    assert_eq!(f.to_text(), "<fun>");
}

#[test]
fn typ_error_display_forms() {
    let ctx = ProgramContext::empty();
    let e = ctx.typ(&Term::var("zzz")).unwrap_err();
    assert_eq!(e.to_text(), "Variable \"zzz\" isn't defined");
    let e = ctx.typ(&Term::app(Term::int_(1), Term::int_(2))).unwrap_err();
    assert_eq!(e.to_text(), "Expected arrow type but found \"Int\"");
    let e = ctx
        .typ(&Term::if_(Term::int_(1), Term::int_(2), Term::int_(3)))
        .unwrap_err();
    assert_eq!(e.to_text(), "Expected type \"Bool\" but found \"Int\"");
}
