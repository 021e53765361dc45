use riscv_pil::ast::Argument;
use riscv_pil::ast::BinaryOpKind;
use riscv_pil::ast::Expression;
use riscv_pil::ast::Statement;
use riscv_pil::FunctionKind;
use riscv_pil::Register;
use riscv_pil::data::SymbolTable;
use riscv_pil::subst::fold_expression;
use riscv_pil::subst::substitute_symbols_with_values;

fn table(entries: Vec<(&str, u32)>) -> SymbolTable {
    let mut t = SymbolTable::new();
    for (name, addr) in entries {
        t.push(String::from(name), addr);
    }
    t
}

fn num(n: i64) -> Expression {
    Expression::Number(n)
}

fn sym(s: &str) -> Expression {
    Expression::Symbol(String::from(s))
}

fn expect_number(e: &Expression, expected: i64) {
    match e {
        Expression::Number(n) => assert_eq!(*n, expected),
        _ => panic!("expected the expression to fold to a number"),
    }
}

#[test]
fn resolved_symbol_becomes_its_address() {
    let t = table(vec![("msg", 0x10100)]);
    let folded = fold_expression(&sym("msg"), &t);
    expect_number(&folded, 0x10100);
}

#[test]
fn code_label_stays_unresolved() {
    let t = table(vec![("msg", 0x10100)]);
    let folded = fold_expression(&sym("code_label"), &t);
    assert!(matches!(folded, Expression::Symbol(l) if l == "code_label"));
}

#[test]
fn constant_operators_fold() {
    let t = table(vec![]);
    let e = Expression::BinaryOp(
        BinaryOpKind::Add,
        Box::new(num(40)),
        Box::new(num(2)),
    );
    expect_number(&fold_expression(&e, &t), 42);
    let e = Expression::BinaryOp(
        BinaryOpKind::Div,
        Box::new(num(-7)),
        Box::new(num(2)),
    );
    expect_number(&fold_expression(&e, &t), -3);
    let e = Expression::BinaryOp(
        BinaryOpKind::Mod,
        Box::new(num(-7)),
        Box::new(num(2)),
    );
    expect_number(&fold_expression(&e, &t), -1);
    let e = Expression::BinaryOp(
        BinaryOpKind::LeftShift,
        Box::new(num(3)),
        Box::new(num(4)),
    );
    expect_number(&fold_expression(&e, &t), 48);
}

#[test]
fn address_halves_fold() {
    let t = table(vec![("obj", 0x12345)]);
    let hi = Expression::FunctionOp(FunctionKind::HiDataRef, Box::new(sym("obj")));
    expect_number(&fold_expression(&hi, &t), 0x12);
    let lo = Expression::FunctionOp(FunctionKind::LoDataRef, Box::new(sym("obj")));
    expect_number(&fold_expression(&lo, &t), 0x345);
}

#[test]
fn division_by_zero_is_left_unfolded() {
    let t = table(vec![]);
    let e = Expression::BinaryOp(
        BinaryOpKind::Div,
        Box::new(num(5)),
        Box::new(num(0)),
    );
    assert!(matches!(
        fold_expression(&e, &t),
        Expression::BinaryOp(BinaryOpKind::Div, _, _)
    ));
}

fn stream() -> Vec<Statement> {
    vec![
        Statement::Label(String::from("start")),
        Statement::Instruction(
            String::from("li"),
            vec![
                Argument::Register(Register::new(5)),
                Argument::Expression(Expression::BinaryOp(
                    BinaryOpKind::Add,
                    Box::new(sym("msg")),
                    Box::new(num(4)),
                )),
            ],
        ),
    ]
}

fn immediate_of(s: &Statement) -> &Expression {
    match s {
        Statement::Instruction(_, args) => match &args[1] {
            Argument::Expression(e) => e,
            _ => panic!("expected an expression argument"),
        },
        _ => panic!("expected an instruction"),
    }
}

// Idempotence of substitution: a second run on an already-substituted stream
// changes nothing.
#[test]
fn substitution_is_idempotent() {
    let t = table(vec![("msg", 0x100)]);
    let once = substitute_symbols_with_values(stream(), &t);
    expect_number(immediate_of(&once[1]), 0x104);
    let twice = substitute_symbols_with_values(once, &t);
    expect_number(immediate_of(&twice[1]), 0x104);
    match &twice[0] {
        Statement::Label(l) => assert_eq!(l, "start"),
        _ => panic!("expected the label to survive"),
    }
}
