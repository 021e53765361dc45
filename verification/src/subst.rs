//! Symbol substitution (constant folding): once all data addresses are known,
//! every expression in the statement stream is rewritten bottom-up. A symbol
//! naming a resolved data object becomes its address; an operator node whose
//! operands have all become numbers is evaluated immediately, with the same
//! arithmetic the target's runtime instructions perform. Code-label symbols
//! stay unresolved. A node whose evaluation the host integers cannot carry
//! (overflow, division by zero, shift out of range) is left unfolded.
use vstd::prelude::*;

use crate::FunctionKind;
use crate::ast::ArgV;
use crate::ast::Argument;
use crate::ast::BinaryOpKind;
use crate::ast::ExprV;
use crate::ast::Expression;
use crate::ast::Statement;
use crate::ast::StmtV;
use crate::ast::UnaryOpKind;
use crate::ast::args_view;
use crate::ast::stmts_view;
use crate::data::SymbolTable;
use crate::data::spec_lookup;

verus! {

/// Whether a value fits the 64-bit signed host integers that carry constant
/// expressions.
pub open spec fn in_i64(x: int) -> bool {
    i64::MIN <= x <= i64::MAX
}

/// What a unary operator folds to, when its result is representable.
pub open spec fn spec_fold_unary(op: UnaryOpKind, x: int) -> Option<int> {
    match op {
        UnaryOpKind::Negation => if in_i64(-x) {
            Some(-x)
        } else {
            None
        },
    }
}

/// Truncated (round-toward-zero) division, as the host `/` computes it.
pub open spec fn trunc_div(x: int, y: int) -> int {
    if (x >= 0) == (y >= 0) {
        abs_int(x) / abs_int(y)
    } else {
        -(abs_int(x) / abs_int(y))
    }
}

/// The remainder matching truncated division (the sign of the dividend).
pub open spec fn trunc_rem(x: int, y: int) -> int {
    x - y * trunc_div(x, y)
}

pub open spec fn abs_int(x: int) -> int {
    if x >= 0 {
        x
    } else {
        -x
    }
}

/// What a binary operator folds to: bitwise and shift operators as 64-bit
/// bit operations, arithmetic exactly when the result is representable,
/// division and remainder when defined.
pub open spec fn spec_fold_binary(op: BinaryOpKind, x: int, y: int) -> Option<int> {
    match op {
        BinaryOpKind::Or => Some((((x as i64) as u64) | ((y as i64) as u64)) as i64 as int),
        BinaryOpKind::Xor => Some((((x as i64) as u64) ^ ((y as i64) as u64)) as i64 as int),
        BinaryOpKind::And => Some((((x as i64) as u64) & ((y as i64) as u64)) as i64 as int),
        BinaryOpKind::LeftShift => if 0 <= y <= 63 {
            Some(((x as i64) << (y as i64)) as int)
        } else {
            None
        },
        BinaryOpKind::RightShift => if 0 <= y <= 63 {
            Some(((x as i64) >> (y as i64)) as int)
        } else {
            None
        },
        BinaryOpKind::Add => if in_i64(x + y) {
            Some(x + y)
        } else {
            None
        },
        BinaryOpKind::Sub => if in_i64(x - y) {
            Some(x - y)
        } else {
            None
        },
        BinaryOpKind::Mul => if in_i64(x * y) {
            Some(x * y)
        } else {
            None
        },
        BinaryOpKind::Div => if y != 0 && in_i64(trunc_div(x, y)) {
            Some(trunc_div(x, y))
        } else {
            None
        },
        BinaryOpKind::Mod => if y != 0 && in_i64(trunc_div(x, y)) {
            Some(trunc_rem(x, y))
        } else {
            None
        },
    }
}

/// What an address-half operator folds to: the high half is the value shifted
/// right by 12, the low half its bottom 12 bits.
pub open spec fn spec_fold_function(op: FunctionKind, x: int) -> int {
    match op {
        FunctionKind::HiDataRef => ((x as i64) >> 12) as int,
        FunctionKind::LoDataRef => ((x as i64) & 0xfff) as int,
    }
}

/// The bottom-up rewrite of one expression: resolved symbols become numbers,
/// operator nodes over numbers are evaluated where representable.
pub open spec fn spec_subst_expr(e: ExprV, table: Seq<(Seq<char>, u32)>) -> ExprV
    decreases e,
{
    match e {
        ExprV::Number(n) => ExprV::Number(n),
        ExprV::Symbol(s) => match spec_lookup(table, s) {
            Some(p) => ExprV::Number(p as int),
            None => ExprV::Symbol(s),
        },
        ExprV::UnaryOp(op, inner) => {
            let fi = spec_subst_expr(*inner, table);
            match fi {
                ExprV::Number(n) => match spec_fold_unary(op, n) {
                    Some(v) => ExprV::Number(v),
                    None => ExprV::UnaryOp(op, Box::new(fi)),
                },
                _ => ExprV::UnaryOp(op, Box::new(fi)),
            }
        },
        ExprV::BinaryOp(op, a, b) => {
            let fa = spec_subst_expr(*a, table);
            let fb = spec_subst_expr(*b, table);
            match (fa, fb) {
                (ExprV::Number(x), ExprV::Number(y)) => match spec_fold_binary(op, x, y) {
                    Some(v) => ExprV::Number(v),
                    None => ExprV::BinaryOp(op, Box::new(fa), Box::new(fb)),
                },
                _ => ExprV::BinaryOp(op, Box::new(fa), Box::new(fb)),
            }
        },
        ExprV::FunctionOp(op, inner) => {
            let fi = spec_subst_expr(*inner, table);
            match fi {
                ExprV::Number(n) => ExprV::Number(spec_fold_function(op, n)),
                _ => ExprV::FunctionOp(op, Box::new(fi)),
            }
        },
    }
}

/// The rewrite of one argument: its expressions rewritten, registers
/// untouched.
pub open spec fn spec_subst_arg(a: ArgV, table: Seq<(Seq<char>, u32)>) -> ArgV {
    match a {
        ArgV::Register(r) => ArgV::Register(r),
        ArgV::RegOffset(r, e) => ArgV::RegOffset(r, spec_subst_expr(e, table)),
        ArgV::Expression(e) => ArgV::Expression(spec_subst_expr(e, table)),
    }
}

/// The rewrite of one statement: only instruction arguments carry
/// expressions; labels and directives pass through unchanged.
pub open spec fn spec_subst_stmt(s: StmtV, table: Seq<(Seq<char>, u32)>) -> StmtV {
    match s {
        StmtV::Instruction(name, args) => StmtV::Instruction(
            name,
            args.map_values(|a: ArgV| spec_subst_arg(a, table)),
        ),
        _ => s,
    }
}

/// The rewrite of the whole statement stream.
pub open spec fn spec_subst_stmts(stmts: Seq<StmtV>, table: Seq<(Seq<char>, u32)>) -> Seq<StmtV> {
    stmts.map_values(|s: StmtV| spec_subst_stmt(s, table))
}

fn fold_unary(op: UnaryOpKind, x: i64) -> (r: Option<i64>)
    ensures
        match r {
            Some(v) => spec_fold_unary(op, x as int) == Some(v as int),
            None => spec_fold_unary(op, x as int) is None,
        },
{
    match op {
        UnaryOpKind::Negation => {
            if x == i64::MIN {
                None
            } else {
                Some(-x)
            }
        },
    }
}

fn fold_binary(op: BinaryOpKind, x: i64, y: i64) -> (r: Option<i64>)
    ensures
        match r {
            Some(v) => spec_fold_binary(op, x as int, y as int) == Some(v as int),
            None => spec_fold_binary(op, x as int, y as int) is None,
        },
{
    match op {
        BinaryOpKind::Or => {
            let xu = #[verifier::truncate] (x as u64);
            let yu = #[verifier::truncate] (y as u64);
            Some(#[verifier::truncate] ((xu | yu) as i64))
        },
        BinaryOpKind::Xor => {
            let xu = #[verifier::truncate] (x as u64);
            let yu = #[verifier::truncate] (y as u64);
            Some(#[verifier::truncate] ((xu ^ yu) as i64))
        },
        BinaryOpKind::And => {
            let xu = #[verifier::truncate] (x as u64);
            let yu = #[verifier::truncate] (y as u64);
            Some(#[verifier::truncate] ((xu & yu) as i64))
        },
        BinaryOpKind::LeftShift => {
            if 0 <= y && y <= 63 {
                Some(x << y)
            } else {
                None
            }
        },
        BinaryOpKind::RightShift => {
            if 0 <= y && y <= 63 {
                Some(x >> y)
            } else {
                None
            }
        },
        BinaryOpKind::Add => {
            let wide = (x as i128) + (y as i128);
            if i64::MIN as i128 <= wide && wide <= i64::MAX as i128 {
                Some(wide as i64)
            } else {
                None
            }
        },
        BinaryOpKind::Sub => {
            let wide = (x as i128) - (y as i128);
            if i64::MIN as i128 <= wide && wide <= i64::MAX as i128 {
                Some(wide as i64)
            } else {
                None
            }
        },
        BinaryOpKind::Mul => {
            proof {
                assert((x as i128) * (y as i128) <= i128::MAX && i128::MIN <= (x as i128) * (
                y as i128)) by (nonlinear_arith)
                    requires
                        -0x8000_0000_0000_0000 <= x as i128 <= 0x7FFF_FFFF_FFFF_FFFF,
                        -0x8000_0000_0000_0000 <= y as i128 <= 0x7FFF_FFFF_FFFF_FFFF,
                ;
            }
            let wide = (x as i128) * (y as i128);
            if i64::MIN as i128 <= wide && wide <= i64::MAX as i128 {
                Some(wide as i64)
            } else {
                None
            }
        },
        BinaryOpKind::Div => {
            if y == 0 {
                None
            } else {
                let q = div_trunc(x, y);
                match q {
                    Some(v) => Some(v),
                    None => None,
                }
            }
        },
        BinaryOpKind::Mod => {
            if y == 0 {
                None
            } else {
                match div_trunc(x, y) {
                    Some(_) => {
                        proof {
                            lemma_trunc_rem_magnitudes(x as int, y as int);
                        }
                        let rm = abs_u64(x) % abs_u64(y);
                        if x >= 0 {
                            Some(rm as i64)
                        } else if rm == 0 {
                            Some(0)
                        } else {
                            Some(-(rm as i64))
                        }
                    },
                    None => None,
                }
            }
        },
    }
}

/// The magnitude of `x`, as an unsigned value (total, also at the minimum).
fn abs_u64(x: i64) -> (r: u64)
    ensures
        r == abs_int(x as int),
{
    if x >= 0 {
        x as u64
    } else if x == i64::MIN {
        0x8000_0000_0000_0000u64
    } else {
        (-x) as u64
    }
}

/// Truncated division; `None` exactly when the quotient does not fit.
fn div_trunc(x: i64, y: i64) -> (r: Option<i64>)
    requires
        y != 0,
    ensures
        match r {
            Some(v) => in_i64(trunc_div(x as int, y as int)) && v == trunc_div(x as int, y as int),
            None => !in_i64(trunc_div(x as int, y as int)),
        },
{
    let mx = abs_u64(x);
    let my = abs_u64(y);
    let q = mx / my;
    if (x >= 0) == (y >= 0) {
        if q <= i64::MAX as u64 {
            Some(q as i64)
        } else {
            None
        }
    } else {
        if q <= 0x8000_0000_0000_0000u64 {
            proof {
                assert(trunc_div(x as int, y as int) == -(q as int));
            }
            if q == 0x8000_0000_0000_0000u64 {
                Some(i64::MIN)
            } else {
                Some(-(q as i64))
            }
        } else {
            None
        }
    }
}

/// The remainder of a defined truncated division carries the dividend's sign
/// and the magnitudes' remainder, so its magnitude lies below the divisor's
/// and it fits the host integers.
pub proof fn lemma_trunc_rem_magnitudes(x: int, y: int)
    requires
        y != 0,
        in_i64(x),
        in_i64(y),
    ensures
        trunc_rem(x, y) == (if x >= 0 {
            abs_int(x) % abs_int(y)
        } else {
            -(abs_int(x) % abs_int(y))
        }),
        abs_int(trunc_rem(x, y)) < abs_int(y),
        in_i64(trunc_rem(x, y)),
{
    let mx = abs_int(x);
    let my = abs_int(y);
    let q = mx / my;
    assert(mx == my * q + mx % my) by {
        vstd::arithmetic::div_mod::lemma_fundamental_div_mod(mx, my);
    }
    assert(0 <= mx % my < my) by {
        vstd::arithmetic::div_mod::lemma_mod_bound(mx, my);
    }
    if (x >= 0) == (y >= 0) {
        assert(trunc_div(x, y) == q);
        if x >= 0 {
            assert(trunc_rem(x, y) == mx - my * q);
        } else {
            assert(y * q == -(my * q)) by (nonlinear_arith)
                requires
                    y == -my,
            ;
            assert(trunc_rem(x, y) == -(mx - my * q));
        }
    } else {
        assert(trunc_div(x, y) == -q);
        if x >= 0 {
            assert(y * (-q) == my * q) by (nonlinear_arith)
                requires
                    y == -my,
            ;
            assert(trunc_rem(x, y) == mx - my * q);
        } else {
            assert(y * (-q) == -(my * q)) by (nonlinear_arith)
                requires
                    y == my,
            ;
            assert(trunc_rem(x, y) == -(mx - my * q));
        }
    }
}

/// Rewrites one expression bottom-up.
pub fn fold_expression(e: &Expression, table: &SymbolTable) -> (r: Expression)
    ensures
        r@ == spec_subst_expr(e@, table@),
    decreases *e,
{
    match e {
        Expression::Number(n) => Expression::Number(*n),
        Expression::Symbol(s) => {
            match table.get(s.as_str()) {
                Some(p) => Expression::Number(p as i64),
                None => Expression::Symbol(s.clone()),
            }
        },
        Expression::UnaryOp(op, inner) => {
            let fi = fold_expression(inner, table);
            match &fi {
                Expression::Number(n) => {
                    match fold_unary(*op, *n) {
                        Some(v) => Expression::Number(v),
                        None => Expression::UnaryOp(*op, Box::new(fi)),
                    }
                },
                _ => Expression::UnaryOp(*op, Box::new(fi)),
            }
        },
        Expression::BinaryOp(op, a, b) => {
            let fa = fold_expression(a, table);
            let fb = fold_expression(b, table);
            match (&fa, &fb) {
                (Expression::Number(x), Expression::Number(y)) => {
                    match fold_binary(*op, *x, *y) {
                        Some(v) => Expression::Number(v),
                        None => Expression::BinaryOp(*op, Box::new(fa), Box::new(fb)),
                    }
                },
                _ => Expression::BinaryOp(*op, Box::new(fa), Box::new(fb)),
            }
        },
        Expression::FunctionOp(op, inner) => {
            let fi = fold_expression(inner, table);
            match &fi {
                Expression::Number(n) => {
                    match op {
                        FunctionKind::HiDataRef => Expression::Number(*n >> 12u64),
                        FunctionKind::LoDataRef => Expression::Number(*n & 0xfff),
                    }
                },
                _ => Expression::FunctionOp(*op, Box::new(fi)),
            }
        },
    }
}

/// Rewrites every expression of the statement stream bottom-up: symbols with
/// known addresses become numbers and constant operator nodes are folded;
/// everything else, code-label symbols included, is left as it stands.
pub fn substitute_symbols_with_values(
    statements: Vec<Statement>,
    data_positions: &SymbolTable,
) -> (r: Vec<Statement>)
    ensures
        stmts_view(r@) == spec_subst_stmts(stmts_view(statements@), data_positions@),
{
    let ghost sv = stmts_view(statements@);
    let mut r: Vec<Statement> = Vec::new();
    let mut i: usize = 0;
    while i < statements.len()
        invariant
            i <= statements.len(),
            sv == stmts_view(statements@),
            sv.len() == statements@.len(),
            r@.len() == i,
            forall|k: int|
                0 <= k < i ==> #[trigger] r@[k]@ == spec_subst_stmt(sv[k], data_positions@),
        decreases statements.len() - i,
    {
        proof {
            assert(sv[i as int] == statements@[i as int]@);
        }
        let s = match &statements[i] {
            Statement::Instruction(name, args) => {
                let mut new_args: Vec<Argument> = Vec::new();
                let mut j: usize = 0;
                while j < args.len()
                    invariant
                        j <= args.len(),
                        new_args@.len() == j,
                        forall|k: int|
                            0 <= k < j ==> #[trigger] new_args@[k]@ == spec_subst_arg(
                                args@[k]@,
                                data_positions@,
                            ),
                    decreases args.len() - j,
                {
                    let a = match &args[j] {
                        Argument::Register(rr) => Argument::Register(*rr),
                        Argument::RegOffset(rr, e) => Argument::RegOffset(
                            *rr,
                            fold_expression(e, data_positions),
                        ),
                        Argument::Expression(e) => Argument::Expression(
                            fold_expression(e, data_positions),
                        ),
                    };
                    new_args.push(a);
                    j += 1;
                }
                proof {
                    let mapped = args_view(args@).map_values(
                        |a: ArgV| spec_subst_arg(a, data_positions@),
                    );
                    assert forall|k: int| 0 <= k < args@.len() implies args_view(new_args@)[k]
                        == mapped[k] by {
                        assert(new_args@[k]@ == spec_subst_arg(args@[k]@, data_positions@));
                        assert(args_view(new_args@)[k] == new_args@[k]@);
                        assert(args_view(args@)[k] == args@[k]@);
                    }
                    assert(args_view(new_args@) =~= mapped);
                }
                Statement::Instruction(name.clone(), new_args)
            },
            Statement::Label(l) => Statement::Label(l.clone()),
            Statement::Directive(d, args) => Statement::Directive(
                d.clone(),
                crate::ast::clone_arguments(args),
            ),
        };
        proof {
            assert(s@ == spec_subst_stmt(sv[i as int], data_positions@));
        }
        r.push(s);
        i += 1;
    }
    proof {
        assert forall|k: int| 0 <= k < sv.len() implies stmts_view(r@)[k] == spec_subst_stmts(
            sv,
            data_positions@,
        )[k] by {
            assert(r@[k]@ == spec_subst_stmt(sv[k], data_positions@));
            assert(stmts_view(r@)[k] == r@[k]@);
        }
        assert(stmts_view(r@) =~= spec_subst_stmts(sv, data_positions@));
    }
    r
}

/// Idempotence of substitution: rewriting an already-rewritten expression
/// changes nothing.
pub proof fn lemma_subst_expr_idempotent(e: ExprV, table: Seq<(Seq<char>, u32)>)
    ensures
        spec_subst_expr(spec_subst_expr(e, table), table) == spec_subst_expr(e, table),
    decreases e,
{
    match e {
        ExprV::Number(_) => {},
        ExprV::Symbol(_) => {},
        ExprV::UnaryOp(op, inner) => {
            lemma_subst_expr_idempotent(*inner, table);
        },
        ExprV::BinaryOp(op, a, b) => {
            lemma_subst_expr_idempotent(*a, table);
            lemma_subst_expr_idempotent(*b, table);
        },
        ExprV::FunctionOp(op, inner) => {
            lemma_subst_expr_idempotent(*inner, table);
        },
    }
}

/// Idempotence of substitution over the whole stream: running symbol
/// substitution twice gives what one run gives; in particular a second run on
/// an already-fully-substituted stream is a no-op.
pub proof fn lemma_subst_stmts_idempotent(stmts: Seq<StmtV>, table: Seq<(Seq<char>, u32)>)
    ensures
        spec_subst_stmts(spec_subst_stmts(stmts, table), table) == spec_subst_stmts(stmts, table),
{
    let once = spec_subst_stmts(stmts, table);
    assert forall|i: int| 0 <= i < once.len() implies #[trigger] spec_subst_stmt(once[i], table)
        == once[i] by {
        lemma_subst_stmt_idempotent(stmts[i], table);
    }
    assert(spec_subst_stmts(once, table) =~= once);
}

proof fn lemma_subst_stmt_idempotent(s: StmtV, table: Seq<(Seq<char>, u32)>)
    ensures
        spec_subst_stmt(spec_subst_stmt(s, table), table) == spec_subst_stmt(s, table),
{
    match s {
        StmtV::Instruction(name, args) => {
            let once = args.map_values(|a: ArgV| spec_subst_arg(a, table));
            assert forall|i: int| 0 <= i < once.len() implies #[trigger] spec_subst_arg(
                once[i],
                table,
            ) == once[i] by {
                lemma_subst_arg_idempotent(args[i], table);
            }
            assert(once.map_values(|a: ArgV| spec_subst_arg(a, table)) =~= once);
        },
        _ => {},
    }
}

proof fn lemma_subst_arg_idempotent(a: ArgV, table: Seq<(Seq<char>, u32)>)
    ensures
        spec_subst_arg(spec_subst_arg(a, table), table) == spec_subst_arg(a, table),
{
    match a {
        ArgV::Register(_) => {},
        ArgV::RegOffset(_, e) => {
            lemma_subst_expr_idempotent(e, table);
        },
        ArgV::Expression(e) => {
            lemma_subst_expr_idempotent(e, table);
        },
    }
}

/// Whether every expression of the stream is already a plain number.
pub open spec fn fully_substituted(stmts: Seq<StmtV>) -> bool {
    forall|i: int|
        0 <= i < stmts.len() ==> (match #[trigger] stmts[i] {
            StmtV::Instruction(_, args) => forall|j: int|
                0 <= j < args.len() ==> (match #[trigger] args[j] {
                    ArgV::Register(_) => true,
                    ArgV::RegOffset(_, e) => e is Number,
                    ArgV::Expression(e) => e is Number,
                }),
            _ => true,
        })
}

/// Substitution leaves an already-fully-substituted stream untouched: every
/// expression is a number, and a number rewrites to itself.
pub proof fn lemma_subst_fully_substituted(stmts: Seq<StmtV>, table: Seq<(Seq<char>, u32)>)
    requires
        fully_substituted(stmts),
    ensures
        spec_subst_stmts(stmts, table) == stmts,
{
    assert forall|i: int| 0 <= i < stmts.len() implies #[trigger] spec_subst_stmt(stmts[i], table)
        == stmts[i] by {
        match stmts[i] {
            StmtV::Instruction(name, args) => {
                assert forall|j: int| 0 <= j < args.len() implies #[trigger] spec_subst_arg(
                    args[j],
                    table,
                ) == args[j] by {
                    match args[j] {
                        ArgV::Register(_) => {},
                        ArgV::RegOffset(_, e) => {
                            assert(e is Number);
                        },
                        ArgV::Expression(e) => {
                            assert(e is Number);
                        },
                    }
                }
                assert(args.map_values(|a: ArgV| spec_subst_arg(a, table)) =~= args);
            },
            _ => {},
        }
    }
    assert(spec_subst_stmts(stmts, table) =~= stmts);
}

} // verus!
