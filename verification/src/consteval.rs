//! The constant-polynomial evaluator: computes the value columns of all
//! constant polynomials that are defined (not just declared), one value per
//! row index up to the shared degree, with earlier columns available to later
//! definitions by name.
use vstd::prelude::*;

use crate::subst::trunc_div;
use crate::subst::trunc_rem;
use crate::subst::abs_int;

verus! {

use vstd::string::StringExecFns;
use vstd::arithmetic::power::pow;
use crate::text::str_eq;

/// The number type of constant-polynomial values.
pub open spec fn in_i128(x: int) -> bool {
    i128::MIN <= x <= i128::MAX
}

/// Unary operators of constant-polynomial expressions.
#[derive(Clone, Copy, PartialEq, Eq, Structural, Debug)]
pub enum UnaryOperator {
    Plus,
    Minus,
}

/// Binary operators of constant-polynomial expressions.
#[derive(Clone, Copy, PartialEq, Eq, Structural, Debug)]
pub enum BinaryOperator {
    Add,
    Sub,
    Mul,
    Div,
    Pow,
    Mod,
    BinaryAnd,
    BinaryOr,
    ShiftLeft,
    ShiftRight,
}

/// A constant-polynomial expression: named constants, the row variable,
/// literals, operators, and calls of previously defined columns.
pub enum Expression {
    Constant(String),
    PolynomialReference(String),
    LocalVariableReference(u64),
    PublicReference(String),
    Number(i128),
    BinaryOperation(Box<Expression>, BinaryOperator, Box<Expression>),
    UnaryOperation(UnaryOperator, Box<Expression>),
    FunctionCall(String, Box<Expression>),
}

/// One named constant.
pub struct Constant {
    pub name: String,
    pub value: i128,
}

/// One constant polynomial: its absolute name, its degree, and its defining
/// expression when it has one.
pub struct Polynomial {
    pub absolute_name: String,
    pub degree: i128,
    pub value: Option<Expression>,
}

/// The analyzed input: the named constants and the constant polynomials in
/// source order.
pub struct Analyzed {
    pub constants: Vec<Constant>,
    pub polys: Vec<Polynomial>,
}

/// The value of the first constant with the given name.
pub open spec fn lookup_constant(constants: Seq<Constant>, name: Seq<char>) -> Option<int>
    decreases constants.len(),
{
    if constants.len() == 0 {
        None
    } else if constants[0].name@ == name {
        Some(constants[0].value as int)
    } else {
        lookup_constant(constants.drop_first(), name)
    }
}

/// The computed columns, by name.
pub open spec fn cols_view(cols: Seq<(String, Vec<i128>)>) -> Seq<(Seq<char>, Seq<i128>)> {
    cols.map_values(|c: (String, Vec<i128>)| (c.0@, c.1@))
}

/// The first column with the given name.
pub open spec fn lookup_column(cols: Seq<(Seq<char>, Seq<i128>)>, name: Seq<char>) -> Option<
    Seq<i128>,
>
    decreases cols.len(),
{
    if cols.len() == 0 {
        None
    } else if cols[0].0 == name {
        Some(cols[0].1)
    } else {
        lookup_column(cols.drop_first(), name)
    }
}

/// What a binary operator computes: exact integer arithmetic; division with a
/// zero dividend is zero; bitwise and shift operators act on the 128-bit
/// two's-complement form.
pub open spec fn eval_binop(op: BinaryOperator, l: int, r: int) -> int {
    match op {
        BinaryOperator::Add => l + r,
        BinaryOperator::Sub => l - r,
        BinaryOperator::Mul => l * r,
        BinaryOperator::Div => if l == 0 {
            0
        } else {
            trunc_div(l, r)
        },
        BinaryOperator::Pow => pow(l, r as nat),
        BinaryOperator::Mod => trunc_rem(l, r),
        BinaryOperator::BinaryAnd => ((((l as i128) as u128) & ((r as i128) as u128)) as i128)
            as int,
        BinaryOperator::BinaryOr => ((((l as i128) as u128) | ((r as i128) as u128)) as i128)
            as int,
        BinaryOperator::ShiftLeft => (((l as i128) << (r as i128)) as i128) as int,
        BinaryOperator::ShiftRight => (((l as i128) >> (r as i128)) as i128) as int,
    }
}

/// When a binary operator can be computed by the host integers: the result
/// (and for powers every intermediate power) representable, divisors nonzero
/// where the dividend is not, shift amounts within the width.
pub open spec fn binop_ok(op: BinaryOperator, l: int, r: int) -> bool {
    match op {
        BinaryOperator::Add => in_i128(l + r),
        BinaryOperator::Sub => in_i128(l - r),
        BinaryOperator::Mul => in_i128(l * r),
        BinaryOperator::Div => l == 0 || (r != 0 && in_i128(trunc_div(l, r))),
        BinaryOperator::Pow => 0 <= r <= u32::MAX && (forall|k: int|
            0 <= k <= r ==> in_i128(#[trigger] pow(l, k as nat))),
        BinaryOperator::Mod => r != 0 && in_i128(trunc_div(l, r)),
        BinaryOperator::BinaryAnd => true,
        BinaryOperator::BinaryOr => true,
        BinaryOperator::ShiftLeft => 0 <= r < 128,
        BinaryOperator::ShiftRight => 0 <= r < 128,
    }
}

/// The value of an expression at the given row variables, over the given
/// constants and previously computed columns.
pub open spec fn eval_val(
    e: Expression,
    consts: Seq<Constant>,
    vars: Seq<i128>,
    cols: Seq<(Seq<char>, Seq<i128>)>,
) -> int
    decreases e,
{
    match e {
        Expression::Constant(name) => match lookup_constant(consts, name@) {
            Some(v) => v,
            None => 0,
        },
        Expression::PolynomialReference(_) => 0,
        Expression::LocalVariableReference(i) => if (i as int) < vars.len() {
            vars[i as int] as int
        } else {
            0
        },
        Expression::PublicReference(_) => 0,
        Expression::Number(n) => n as int,
        Expression::BinaryOperation(l, op, r) => eval_binop(
            op,
            eval_val(*l, consts, vars, cols),
            eval_val(*r, consts, vars, cols),
        ),
        Expression::UnaryOperation(op, inner) => match op {
            UnaryOperator::Plus => eval_val(*inner, consts, vars, cols),
            UnaryOperator::Minus => -eval_val(*inner, consts, vars, cols),
        },
        Expression::FunctionCall(name, arg) => {
            let a = eval_val(*arg, consts, vars, cols);
            match lookup_column(cols, name@) {
                Some(col) => if 0 <= a < col.len() {
                    col[a] as int
                } else {
                    0
                },
                None => 0,
            }
        },
    }
}

/// When an expression can be evaluated: every name resolves, every index is
/// in range, every operator is computable, and no reference of an unsupported
/// kind occurs.
pub open spec fn eval_ok(
    e: Expression,
    consts: Seq<Constant>,
    vars: Seq<i128>,
    cols: Seq<(Seq<char>, Seq<i128>)>,
) -> bool
    decreases e,
{
    match e {
        Expression::Constant(name) => lookup_constant(consts, name@) is Some,
        Expression::PolynomialReference(_) => false,
        Expression::LocalVariableReference(i) => (i as int) < vars.len(),
        Expression::PublicReference(_) => false,
        Expression::Number(_) => true,
        Expression::BinaryOperation(l, op, r) => eval_ok(*l, consts, vars, cols) && eval_ok(
            *r,
            consts,
            vars,
            cols,
        ) && binop_ok(op, eval_val(*l, consts, vars, cols), eval_val(*r, consts, vars, cols)),
        Expression::UnaryOperation(op, inner) => eval_ok(*inner, consts, vars, cols) && (match op {
            UnaryOperator::Plus => true,
            UnaryOperator::Minus => in_i128(-eval_val(*inner, consts, vars, cols)),
        }),
        Expression::FunctionCall(name, arg) => eval_ok(*arg, consts, vars, cols) && (
        match lookup_column(cols, name@) {
            Some(col) => 0 <= eval_val(*arg, consts, vars, cols) < col.len(),
            None => false,
        }),
    }
}

/// The evaluation context: the analyzed input, the previously computed
/// columns, and the row variables.
pub struct Evaluator<'a> {
    pub analyzed: &'a Analyzed,
    pub other_constants: &'a Vec<(String, Vec<i128>)>,
    pub variables: &'a Vec<i128>,
}

fn find_constant(constants: &Vec<Constant>, name: &str) -> (r: Option<i128>)
    ensures
        match r {
            Some(v) => lookup_constant(constants@, name@) == Some(v as int),
            None => lookup_constant(constants@, name@) is None,
        },
{
    let mut i: usize = 0;
    while i < constants.len()
        invariant
            i <= constants.len(),
            forall|j: int| 0 <= j < i ==> constants@[j].name@ != name@,
        decreases constants.len() - i,
    {
        if str_eq(constants[i].name.as_str(), name) {
            proof {
                lemma_lookup_constant_skip(constants@, name@, i as int);
                assert(constants@.skip(i as int)[0] == constants@[i as int]);
            }
            return Some(constants[i].value);
        }
        i += 1;
    }
    proof {
        lemma_lookup_constant_skip(constants@, name@, i as int);
    }
    None
}

proof fn lemma_lookup_constant_skip(constants: Seq<Constant>, name: Seq<char>, i: int)
    requires
        0 <= i <= constants.len(),
        forall|j: int| 0 <= j < i ==> constants[j].name@ != name,
    ensures
        lookup_constant(constants, name) == lookup_constant(constants.skip(i), name),
    decreases i,
{
    if i > 0 {
        lemma_lookup_constant_skip(constants, name, i - 1);
        assert(constants.skip(i - 1).drop_first() =~= constants.skip(i));
        assert(constants.skip(i - 1)[0] == constants[i - 1]);
    } else {
        assert(constants.skip(0) =~= constants);
    }
}

fn find_column<'a>(cols: &'a Vec<(String, Vec<i128>)>, name: &str) -> (r: Option<&'a Vec<i128>>)
    ensures
        match r {
            Some(col) => lookup_column(cols_view(cols@), name@) == Some(col@),
            None => lookup_column(cols_view(cols@), name@) is None,
        },
{
    let ghost cv = cols_view(cols@);
    let mut i: usize = 0;
    while i < cols.len()
        invariant
            i <= cols.len(),
            cv == cols_view(cols@),
            cv.len() == cols@.len(),
            forall|j: int| 0 <= j < i ==> cv[j].0 != name@,
        decreases cols.len() - i,
    {
        proof {
            assert(cv[i as int] == (cols@[i as int].0@, cols@[i as int].1@));
        }
        if str_eq(cols[i].0.as_str(), name) {
            proof {
                lemma_lookup_column_skip(cv, name@, i as int);
                assert(cv.skip(i as int)[0] == cv[i as int]);
            }
            return Some(&cols[i].1);
        }
        i += 1;
    }
    proof {
        lemma_lookup_column_skip(cv, name@, i as int);
    }
    None
}

proof fn lemma_lookup_column_skip(cols: Seq<(Seq<char>, Seq<i128>)>, name: Seq<char>, i: int)
    requires
        0 <= i <= cols.len(),
        forall|j: int| 0 <= j < i ==> cols[j].0 != name,
    ensures
        lookup_column(cols, name) == lookup_column(cols.skip(i), name),
    decreases i,
{
    if i > 0 {
        lemma_lookup_column_skip(cols, name, i - 1);
        assert(cols.skip(i - 1).drop_first() =~= cols.skip(i));
        assert(cols.skip(i - 1)[0] == cols[i - 1]);
    } else {
        assert(cols.skip(0) =~= cols);
    }
}

/// The magnitude of `x`, as an unsigned value (total, also at the minimum).
fn abs_u128(x: i128) -> (r: u128)
    ensures
        r == abs_int(x as int),
{
    if x >= 0 {
        x as u128
    } else if x == i128::MIN {
        0x8000_0000_0000_0000_0000_0000_0000_0000u128
    } else {
        (-x) as u128
    }
}

/// Truncated division on the wide host integers.
fn div_trunc_i128(x: i128, y: i128) -> (r: i128)
    requires
        y != 0,
        in_i128(trunc_div(x as int, y as int)),
    ensures
        r as int == trunc_div(x as int, y as int),
{
    let mx = abs_u128(x);
    let my = abs_u128(y);
    let q = mx / my;
    if (x >= 0) == (y >= 0) {
        q as i128
    } else {
        if q == 0x8000_0000_0000_0000_0000_0000_0000_0000u128 {
            proof {
                assert(trunc_div(x as int, y as int) == -(q as int));
            }
            i128::MIN
        } else {
            proof {
                assert(trunc_div(x as int, y as int) == -(q as int));
            }
            -(q as i128)
        }
    }
}

/// The remainder of a defined truncated division on wide integers fits, with
/// the dividend's sign and the magnitudes' remainder.
proof fn lemma_trunc_rem_magnitudes_i128(x: int, y: int)
    requires
        y != 0,
        in_i128(x),
        in_i128(y),
    ensures
        trunc_rem(x, y) == (if x >= 0 {
            abs_int(x) % abs_int(y)
        } else {
            -(abs_int(x) % abs_int(y))
        }),
        abs_int(trunc_rem(x, y)) < abs_int(y),
        in_i128(trunc_rem(x, y)),
{
    let mx = abs_int(x);
    let my = abs_int(y);
    let q = mx / my;
    assert(mx == my * q + mx % my) by {
        vstd::arithmetic::div_mod::lemma_fundamental_div_mod(mx, my);
    }
    assert(0 <= mx % my < my) by {
        vstd::arithmetic::div_mod::lemma_mod_bound(mx, my);
    }
    if (x >= 0) == (y >= 0) {
        assert(trunc_div(x, y) == q);
        if x >= 0 {
            assert(trunc_rem(x, y) == mx - my * q);
        } else {
            assert(y * q == -(my * q)) by (nonlinear_arith)
                requires
                    y == -my,
            ;
            assert(trunc_rem(x, y) == -(mx - my * q));
        }
    } else {
        assert(trunc_div(x, y) == -q);
        if x >= 0 {
            assert(y * (-q) == my * q) by (nonlinear_arith)
                requires
                    y == -my,
            ;
            assert(trunc_rem(x, y) == mx - my * q);
        } else {
            assert(y * (-q) == -(my * q)) by (nonlinear_arith)
                requires
                    y == my,
            ;
            assert(trunc_rem(x, y) == -(mx - my * q));
        }
    }
}

impl<'a> Evaluator<'a> {
    /// Evaluates one expression at this context's row variables.
    pub fn evaluate(&self, expr: &Expression) -> (r: i128)
        requires
            eval_ok(
                *expr,
                self.analyzed.constants@,
                self.variables@,
                cols_view(self.other_constants@),
            ),
        ensures
            r as int == eval_val(
                *expr,
                self.analyzed.constants@,
                self.variables@,
                cols_view(self.other_constants@),
            ),
        decreases *expr,
    {
        match expr {
            Expression::Constant(name) => {
                match find_constant(&self.analyzed.constants, name.as_str()) {
                    Some(v) => v,
                    None => {
                        proof {
                            assert(false);
                        }
                        0
                    },
                }
            },
            Expression::PolynomialReference(_) => {
                proof {
                    assert(false);
                }
                0
            },
            Expression::LocalVariableReference(i) => {
                let bound = self.variables.len();
                proof {
                    assert((*i as int) < bound as int);
                }
                self.variables[*i as usize]
            },
            Expression::PublicReference(_) => {
                proof {
                    assert(false);
                }
                0
            },
            Expression::Number(n) => *n,
            Expression::BinaryOperation(l, op, r) => {
                let lv = self.evaluate(l);
                let rv = self.evaluate(r);
                self.evaluate_binary_operation(lv, op, rv)
            },
            Expression::UnaryOperation(op, inner) => {
                let v = self.evaluate(inner);
                self.evaluate_unary_operation(op, v)
            },
            Expression::FunctionCall(name, arg) => {
                let a = self.evaluate(arg);
                match find_column(self.other_constants, name.as_str()) {
                    Some(col) => {
                        let bound = col.len();
                        proof {
                            assert((a as int) < bound as int && 0 <= (a as int));
                        }
                        col[a as usize]
                    },
                    None => {
                        proof {
                            assert(false);
                        }
                        0
                    },
                }
            },
        }
    }

    /// Applies one binary operator to two evaluated operands.
    pub fn evaluate_binary_operation(&self, left: i128, op: &BinaryOperator, right: i128) -> (r:
        i128)
        requires
            binop_ok(*op, left as int, right as int),
        ensures
            r as int == eval_binop(*op, left as int, right as int),
    {
        match op {
            BinaryOperator::Add => left + right,
            BinaryOperator::Sub => left - right,
            BinaryOperator::Mul => left * right,
            BinaryOperator::Div => {
                if left == 0 {
                    0
                } else {
                    div_trunc_i128(left, right)
                }
            },
            BinaryOperator::Pow => {
                let mut acc: i128 = 1;
                let mut k: u32 = 0;
                let e = right as u32;
                proof {
                    vstd::arithmetic::power::lemma_pow0(left as int);
                }
                while k < e
                    invariant
                        k <= e,
                        e == right,
                        binop_ok(BinaryOperator::Pow, left as int, right as int),
                        acc as int == pow(left as int, k as nat),
                    decreases e - k,
                {
                    proof {
                        assert(in_i128(pow(left as int, (k + 1) as nat)));
                        vstd::arithmetic::power::lemma_pow1(left as int);
                        assert(pow(left as int, (k + 1) as nat) == pow(left as int, k as nat) * (
                        left as int)) by {
                            vstd::arithmetic::power::lemma_pow_adds(left as int, k as nat, 1nat);
                        }
                    }
                    acc = acc * left;
                    k += 1;
                }
                acc
            },
            BinaryOperator::Mod => {
                proof {
                    lemma_trunc_rem_magnitudes_i128(left as int, right as int);
                }
                let rm = abs_u128(left) % abs_u128(right);
                if left >= 0 {
                    rm as i128
                } else if rm == 0 {
                    0
                } else {
                    -(rm as i128)
                }
            },
            BinaryOperator::BinaryAnd => {
                let lu = #[verifier::truncate] (left as u128);
                let ru = #[verifier::truncate] (right as u128);
                #[verifier::truncate] ((lu & ru) as i128)
            },
            BinaryOperator::BinaryOr => {
                let lu = #[verifier::truncate] (left as u128);
                let ru = #[verifier::truncate] (right as u128);
                #[verifier::truncate] ((lu | ru) as i128)
            },
            BinaryOperator::ShiftLeft => left << right,
            BinaryOperator::ShiftRight => left >> right,
        }
    }

    /// Applies one unary operator to an evaluated operand.
    pub fn evaluate_unary_operation(&self, op: &UnaryOperator, value: i128) -> (r: i128)
        requires
            match op {
                UnaryOperator::Plus => true,
                UnaryOperator::Minus => in_i128(-(value as int)),
            },
        ensures
            r as int == (match op {
                UnaryOperator::Plus => value as int,
                UnaryOperator::Minus => -(value as int),
            }),
    {
        match op {
            UnaryOperator::Plus => value,
            UnaryOperator::Minus => -value,
        }
    }
}

/// The value column of one defined polynomial: its body evaluated at every
/// row index below the degree.
pub open spec fn spec_column_values(
    body: Expression,
    degree: int,
    consts: Seq<Constant>,
    cols: Seq<(Seq<char>, Seq<i128>)>,
) -> Seq<i128> {
    Seq::new(degree as nat, |i: int| eval_val(body, consts, seq![i as i128], cols) as i128)
}

/// Computes one value column.
pub fn generate_values(
    analyzed: &Analyzed,
    degree: i128,
    body: &Expression,
    other_constants: &Vec<(String, Vec<i128>)>,
) -> (r: Vec<i128>)
    requires
        0 <= degree <= usize::MAX,
        forall|i: int|
            0 <= i < degree ==> #[trigger] eval_ok(
                *body,
                analyzed.constants@,
                seq![i as i128],
                cols_view(other_constants@),
            ) && in_i128(
                eval_val(*body, analyzed.constants@, seq![i as i128], cols_view(other_constants@)),
            ),
    ensures
        r@ == spec_column_values(
            *body,
            degree as int,
            analyzed.constants@,
            cols_view(other_constants@),
        ),
{
    let mut r: Vec<i128> = Vec::new();
    let n = degree as usize;
    let mut i: usize = 0;
    while i < n
        invariant
            i <= n,
            n == degree as int,
            0 <= degree <= usize::MAX,
            forall|k: int|
                0 <= k < degree ==> #[trigger] eval_ok(
                    *body,
                    analyzed.constants@,
                    seq![k as i128],
                    cols_view(other_constants@),
                ) && in_i128(
                    eval_val(
                        *body,
                        analyzed.constants@,
                        seq![k as i128],
                        cols_view(other_constants@),
                    ),
                ),
            r@.len() == i,
            forall|k: int|
                0 <= k < i ==> #[trigger] r@[k] as int == eval_val(
                    *body,
                    analyzed.constants@,
                    seq![k as i128],
                    cols_view(other_constants@),
                ),
        decreases n - i,
    {
        let mut variables: Vec<i128> = Vec::new();
        variables.push(i as i128);
        proof {
            assert(variables@ =~= seq![i as i128]);
        }
        let evaluator = Evaluator {
            analyzed,
            other_constants,
            variables: &variables,
        };
        let v = evaluator.evaluate(body);
        r.push(v);
        i += 1;
    }
    proof {
        assert(r@ =~= spec_column_values(
            *body,
            degree as int,
            analyzed.constants@,
            cols_view(other_constants@),
        ));
    }
    r
}

/// Whether the `k`-th polynomial is defined.
pub open spec fn is_defined(analyzed: Analyzed, k: int) -> bool {
    analyzed.polys@[k].value is Some
}

/// Whether any polynomial is defined.
pub open spec fn any_defined(analyzed: Analyzed) -> bool {
    exists|k: int| 0 <= k < analyzed.polys@.len() && is_defined(analyzed, k)
}

/// The position of the first defined polynomial at or after `k`, or the
/// length when none follows.
pub open spec fn first_defined(analyzed: Analyzed, k: int) -> int
    decreases analyzed.polys@.len() - k,
{
    if k < 0 || k >= analyzed.polys@.len() {
        analyzed.polys@.len() as int
    } else if is_defined(analyzed, k) {
        k
    } else {
        first_defined(analyzed, k + 1)
    }
}

/// The degree shared by all defined polynomials: the first defined one's
/// degree, or 0 when none is defined.
pub open spec fn spec_degree(analyzed: Analyzed) -> int {
    if 0 <= first_defined(analyzed, 0) < analyzed.polys@.len() {
        analyzed.polys@[first_defined(analyzed, 0)].degree as int
    } else {
        0
    }
}

/// The columns of the first `k` polynomials: one entry per defined
/// polynomial, in source order, each computed over the columns before it.
pub open spec fn spec_columns_upto(analyzed: Analyzed, k: int) -> Seq<(Seq<char>, Seq<i128>)>
    decreases k, 1int,
{
    if k <= 0 {
        Seq::empty()
    } else {
        spec_columns_upto(analyzed, k - 1) + (match analyzed.polys@[k - 1].value {
            Some(body) => seq![
                (
                    analyzed.polys@[k - 1].absolute_name@,
                    spec_column_values(
                        body,
                        spec_degree(analyzed),
                        analyzed.constants@,
                        spec_columns_upto(analyzed, k - 1),
                    ),
                ),
            ],
            None => Seq::empty(),
        })
    }
}

/// The well-formedness the generator relies on: all defined polynomials share
/// the degree, the degree is a usable length, defined names are distinct, and
/// every body evaluates at every row over the columns before it.
pub open spec fn generate_ok(analyzed: Analyzed) -> bool {
    &&& 0 <= spec_degree(analyzed) <= usize::MAX
    &&& forall|k: int|
        0 <= k < analyzed.polys@.len() && #[trigger] is_defined(analyzed, k)
            ==> analyzed.polys@[k].degree as int == spec_degree(analyzed)
    &&& forall|k1: int, k2: int|
        #![trigger is_defined(analyzed, k1), is_defined(analyzed, k2)]
        0 <= k1 < k2 < analyzed.polys@.len() && is_defined(analyzed, k1) && is_defined(
            analyzed,
            k2,
        ) ==> analyzed.polys@[k1].absolute_name@ != analyzed.polys@[k2].absolute_name@
    &&& forall|k: int, i: int|
        0 <= k < analyzed.polys@.len() && is_defined(analyzed, k) && 0 <= i < spec_degree(analyzed)
            ==> #[trigger] eval_ok(
            analyzed.polys@[k].value->Some_0,
            analyzed.constants@,
            seq![i as i128],
            spec_columns_upto(analyzed, k),
        ) && in_i128(
            eval_val(
                analyzed.polys@[k].value->Some_0,
                analyzed.constants@,
                seq![i as i128],
                spec_columns_upto(analyzed, k),
            ),
        )
}

proof fn lemma_first_defined_some(analyzed: Analyzed, k: int, j: int)
    requires
        0 <= k <= j < analyzed.polys@.len(),
        is_defined(analyzed, j),
    ensures
        k <= first_defined(analyzed, k) <= j,
        is_defined(analyzed, first_defined(analyzed, k)),
    decreases j - k,
{
    if !is_defined(analyzed, k) {
        lemma_first_defined_some(analyzed, k + 1, j);
    }
}

proof fn lemma_first_defined_none(analyzed: Analyzed, k: int)
    requires
        0 <= k <= analyzed.polys@.len(),
        forall|j: int| k <= j < analyzed.polys@.len() ==> !is_defined(analyzed, j),
    ensures
        first_defined(analyzed, k) == analyzed.polys@.len(),
    decreases analyzed.polys@.len() - k,
{
    if k < analyzed.polys@.len() {
        lemma_first_defined_none(analyzed, k + 1);
    }
}

/// Generates the value columns of all defined constant polynomials, in source
/// order, and the shared degree (0 when none is defined).
pub fn generate(analyzed: &Analyzed) -> (r: (Vec<(String, Vec<i128>)>, i128))
    requires
        generate_ok(*analyzed),
    ensures
        cols_view(r.0@) == spec_columns_upto(*analyzed, analyzed.polys@.len() as int),
        r.1 as int == spec_degree(*analyzed),
{
    let mut other_constants: Vec<(String, Vec<i128>)> = Vec::new();
    let mut found_degree: i128 = 0;
    let mut found: bool = false;
    let mut k: usize = 0;
    proof {
        assert(cols_view(other_constants@) =~= spec_columns_upto(*analyzed, 0));
    }
    while k < analyzed.polys.len()
        invariant
            k <= analyzed.polys.len(),
            generate_ok(*analyzed),
            cols_view(other_constants@) == spec_columns_upto(*analyzed, k as int),
            found == (exists|j: int| 0 <= j < k && is_defined(*analyzed, j)),
            found ==> found_degree as int == spec_degree(*analyzed),
            !found ==> found_degree == 0,
        decreases analyzed.polys.len() - k,
    {
        let poly = &analyzed.polys[k];
        match &poly.value {
            Some(body) => {
                proof {
                    assert(is_defined(*analyzed, k as int));
                    lemma_first_defined_some(*analyzed, 0, k as int);
                    assert(analyzed.polys@[k as int].degree as int == spec_degree(*analyzed));
                }
                let values = generate_values(analyzed, poly.degree, body, &other_constants);
                let ghost before = cols_view(other_constants@);
                other_constants.push((poly.absolute_name.clone(), values));
                found_degree = poly.degree;
                found = true;
                proof {
                    assert(cols_view(other_constants@) =~= before.push(
                        (
                            analyzed.polys@[k as int].absolute_name@,
                            spec_column_values(
                                analyzed.polys@[k as int].value->Some_0,
                                spec_degree(*analyzed),
                                analyzed.constants@,
                                before,
                            ),
                        ),
                    ));
                    assert(cols_view(other_constants@) =~= spec_columns_upto(*analyzed, k + 1));
                }
            },
            None => {
                proof {
                    assert(!is_defined(*analyzed, k as int));
                    assert(spec_columns_upto(*analyzed, k + 1) =~= spec_columns_upto(
                        *analyzed,
                        k as int,
                    ));
                }
            },
        }
        k += 1;
    }
    proof {
        if !found {
            lemma_first_defined_none(*analyzed, 0);
        }
    }
    (other_constants, found_degree)
}

} // verus!
