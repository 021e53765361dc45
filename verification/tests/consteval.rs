use riscv_pil::consteval::Analyzed;
use riscv_pil::consteval::BinaryOperator;
use riscv_pil::consteval::Constant;
use riscv_pil::consteval::Expression;
use riscv_pil::consteval::Polynomial;
use riscv_pil::consteval::generate;

fn num(n: i128) -> Expression {
    Expression::Number(n)
}

fn var() -> Expression {
    Expression::LocalVariableReference(0)
}

fn constant(name: &str) -> Expression {
    Expression::Constant(String::from(name))
}

fn bin(l: Expression, op: BinaryOperator, r: Expression) -> Expression {
    Expression::BinaryOperation(Box::new(l), op, Box::new(r))
}

fn sub(l: Expression, r: Expression) -> Expression {
    bin(l, BinaryOperator::Sub, r)
}

fn div(l: Expression, r: Expression) -> Expression {
    bin(l, BinaryOperator::Div, r)
}

fn mul(l: Expression, r: Expression) -> Expression {
    bin(l, BinaryOperator::Mul, r)
}

fn call(name: &str, arg: Expression) -> Expression {
    Expression::FunctionCall(String::from(name), Box::new(arg))
}

fn analyzed(constants: Vec<(&str, i128)>, polys: Vec<(&str, i128, Option<Expression>)>) -> Analyzed {
    Analyzed {
        constants: constants
            .into_iter()
            .map(|(name, value)| Constant { name: String::from(name), value })
            .collect(),
        polys: polys
            .into_iter()
            .map(|(name, degree, value)| Polynomial {
                absolute_name: String::from(name),
                degree,
                value,
            })
            .collect(),
    }
}

// `pol constant LAST(i) { 1 - (i - (%N - 1)) / (i - (%N - 1)) }` with %N = 8.
fn last_body() -> Expression {
    let shifted = |_: ()| sub(var(), sub(constant("%N"), num(1)));
    sub(num(1), div(shifted(()), shifted(())))
}

#[test]
pub fn test_last() {
    let analyzed = analyzed(vec![("%N", 8)], vec![("F.LAST", 8, Some(last_body()))]);
    let (constants, degree) = generate(&analyzed);
    assert_eq!(degree, 8);
    assert_eq!(
        constants,
        vec![("F.LAST".to_string(), vec![0, 0, 0, 0, 0, 0, 0, 1])]
    );
}

// `pol constant EVEN(i) { 2 * (i - 1) }` with %N = 8.
#[test]
pub fn test_counter() {
    let body = mul(num(2), sub(var(), num(1)));
    let analyzed = analyzed(vec![("%N", 8)], vec![("F.EVEN", 8, Some(body))]);
    let (constants, degree) = generate(&analyzed);
    assert_eq!(degree, 8);
    assert_eq!(
        constants,
        vec![("F.EVEN".to_string(), vec![-2, 0, 2, 4, 6, 8, 10, 12])]
    );
}

// `macro minus_one(X) { X - 1 }; pol constant EVEN(i) { 2 * minus_one(i) }`:
// the macro expands to the same body as the counter above.
#[test]
pub fn test_macro() {
    let minus_one = |x: Expression| sub(x, num(1));
    let body = mul(num(2), minus_one(var()));
    let analyzed = analyzed(vec![("%N", 8)], vec![("F.EVEN", 8, Some(body))]);
    let (constants, degree) = generate(&analyzed);
    assert_eq!(degree, 8);
    assert_eq!(
        constants,
        vec![("F.EVEN".to_string(), vec![-2, 0, 2, 4, 6, 8, 10, 12])]
    );
}

// Nested macros: `ite(is_equal(i, 10), 1, 0)` expanded by hand, with
// `is_nonzero(X) = X / X`, `is_zero(X) = 1 - is_nonzero(X)`,
// `is_one(X) = is_zero(1 - X)`, `is_equal(A, B) = is_zero(A - B)`,
// `ite(C, T, F) = is_one(C) * T + is_zero(C) * F`, and %N = 12.
#[test]
pub fn test_macro_double() {
    let is_nonzero = |x: Expression, y: Expression| div(x, y);
    let is_zero = |x: Expression, y: Expression| sub(num(1), is_nonzero(x, y));
    let c = |_: ()| is_zero(sub(var(), num(10)), sub(var(), num(10)));
    let is_one_c = is_zero(sub(num(1), c(())), sub(num(1), c(())));
    let is_zero_c = is_zero(c(()), c(()));
    let body = bin(
        mul(is_one_c, num(1)),
        BinaryOperator::Add,
        mul(is_zero_c, num(0)),
    );
    let analyzed = analyzed(vec![("%N", 12)], vec![("F.TEN", 12, Some(body))]);
    let (constants, degree) = generate(&analyzed);
    assert_eq!(degree, 12);
    assert_eq!(
        constants,
        vec![("F.TEN".to_string(), [[0; 10].to_vec(), [1, 0].to_vec()].concat())]
    );
}

// Columns calling earlier columns: `seq(i) { i }`, `doub(i) { seq((2 * i) %
// %N) + 1 }`, `half_nibble(i) { i & 0x7 }`, `doubled_half_nibble(i) {
// half_nibble(i / 2) }`, with %N = 10.
#[test]
pub fn test_poly_call() {
    let seq_body = var();
    let doub_body = bin(
        call("F.seq", bin(mul(num(2), var()), BinaryOperator::Mod, constant("%N"))),
        BinaryOperator::Add,
        num(1),
    );
    let half_nibble_body = bin(var(), BinaryOperator::BinaryAnd, num(0x7));
    let doubled_half_nibble_body = call("F.half_nibble", div(var(), num(2)));
    let analyzed = analyzed(
        vec![("%N", 10)],
        vec![
            ("F.seq", 10, Some(seq_body)),
            ("F.doub", 10, Some(doub_body)),
            ("F.half_nibble", 10, Some(half_nibble_body)),
            ("F.doubled_half_nibble", 10, Some(doubled_half_nibble_body)),
        ],
    );
    let (constants, degree) = generate(&analyzed);
    assert_eq!(degree, 10);
    assert_eq!(constants.len(), 4);
    assert_eq!(
        constants[0],
        ("F.seq".to_string(), (0..=9i128).collect::<Vec<_>>())
    );
    assert_eq!(
        constants[1],
        ("F.doub".to_string(), [1i128, 3, 5, 7, 9, 1, 3, 5, 7, 9].to_vec())
    );
    assert_eq!(
        constants[2],
        ("F.half_nibble".to_string(), [0i128, 1, 2, 3, 4, 5, 6, 7, 0, 1].to_vec())
    );
    assert_eq!(
        constants[3],
        ("F.doubled_half_nibble".to_string(), [0i128, 0, 1, 1, 2, 2, 3, 3, 4, 4].to_vec())
    );
}

#[test]
fn no_defined_polynomial_gives_zero_degree() {
    let analyzed = analyzed(vec![], vec![("F.declared", 8, None)]);
    let (constants, degree) = generate(&analyzed);
    assert_eq!(degree, 0);
    assert!(constants.is_empty());
}
