//! The instruction lowering engine: maps each source mnemonic with its
//! register/number arguments to the structured target lines, eliding all code
//! for instructions whose sole destination is register 0.
use vstd::prelude::*;

use crate::Register;
use crate::ast::ArgV;
use crate::ast::Argument;
use crate::ast::CompileError;
use crate::ast::CompileErrorV;
use crate::ast::ExprV;
use crate::ast::Expression;
use crate::ast::args_view;
use crate::target::TargetInstr;
use crate::target::TargetInstrV;
use crate::target::TargetReg;
use crate::target::TargetOp;
use crate::target::TargetCond;
use crate::target::BinKind;
use crate::target::target_instrs_view;
use crate::text::escape_label;
use crate::text::str_eq;
use crate::text::escape_seq;

verus! {

use vstd::string::StringExecFns;

/// The value of `n` reduced to 32 bits (two's-complement truncation).
pub open spec fn to_u32(n: int) -> u32 {
    (n as i64) as u32
}

/// The 32-bit value `n` reinterpreted as a signed value.
pub open spec fn reinterp_i32(n: u32) -> i32 {
    if n < 0x8000_0000 {
        n as i32
    } else {
        (n - 0x1_0000_0000) as i32
    }
}

/// The target register that carries a source register.
pub open spec fn treg(r: Register) -> TargetReg {
    TargetReg::X(r.spec_value())
}

fn treg_of(r: Register) -> (t: TargetReg)
    ensures
        t == treg(r),
{
    TargetReg::X(r.index())
}

/// Destination-register-zero elision: an instruction whose sole destination
/// is register 0 emits nothing.
pub open spec fn elide(rd: Register, code: Seq<TargetInstrV>) -> Seq<TargetInstrV> {
    if rd.spec_value() == 0 {
        Seq::empty()
    } else {
        code
    }
}

/// Keeps the statement only when `reg`, its destination, is not register 0.
pub fn only_if_no_write_to_zero(statement: TargetInstr, reg: Register) -> (r: Vec<TargetInstr>)
    ensures
        target_instrs_view(r@) == elide(reg, seq![statement@]),
{
    let mut statements: Vec<TargetInstr> = Vec::new();
    statements.push(statement);
    proof {
        assert(target_instrs_view(statements@) =~= seq![statement@]);
    }
    only_if_no_write_to_zero_vec(statements, reg)
}

/// Keeps the statements only when `reg`, their destination, is not
/// register 0.
pub fn only_if_no_write_to_zero_vec(statements: Vec<TargetInstr>, reg: Register) -> (r: Vec<
    TargetInstr,
>)
    ensures
        target_instrs_view(r@) == elide(reg, target_instrs_view(statements@)),
{
    if reg.is_zero() {
        let r: Vec<TargetInstr> = Vec::new();
        proof {
            assert(target_instrs_view(r@) =~= Seq::<TargetInstrV>::empty());
        }
        r
    } else {
        statements
    }
}

/// What a constant operand resolves to: the truncated 32-bit value of a
/// number; anything else is an unresolved constant expression.
pub open spec fn spec_expr_to_number(e: ExprV) -> Result<u32, CompileErrorV> {
    match e {
        ExprV::Number(n) => Ok(to_u32(n)),
        ExprV::Symbol(s) => Err(CompileErrorV::UnresolvedConstant(s)),
        _ => Err(CompileErrorV::UnresolvedConstant("operator expression"@)),
    }
}

/// Resolves an expression that must already be a concrete number.
pub fn expression_to_number(expr: &Expression) -> (r: Result<u32, CompileError>)
    ensures
        match r {
            Ok(v) => spec_expr_to_number(expr@) == Ok::<u32, CompileErrorV>(v),
            Err(e) => spec_expr_to_number(expr@) == Err::<u32, CompileErrorV>(e@),
        },
{
    match expr {
        Expression::Number(n) => {
            let v = #[verifier::truncate] (*n as u32);
            assert(((*n as int) as i64) == *n);
            Ok(v)
        },
        Expression::Symbol(s) => Err(CompileError::UnresolvedConstant(s.clone())),
        _ => Err(CompileError::UnresolvedConstant(String::from_str("operator expression"))),
    }
}

pub open spec fn spec_argument_to_number(a: ArgV) -> Result<u32, CompileErrorV> {
    match a {
        ArgV::Expression(e) => spec_expr_to_number(e),
        _ => Err(CompileErrorV::MalformedOperands("expected numeric expression"@)),
    }
}

/// Resolves an argument that must be a concrete number.
pub fn argument_to_number(x: &Argument) -> (r: Result<u32, CompileError>)
    ensures
        match r {
            Ok(v) => spec_argument_to_number(x@) == Ok::<u32, CompileErrorV>(v),
            Err(e) => spec_argument_to_number(x@) == Err::<u32, CompileErrorV>(e@),
        },
{
    match x {
        Argument::Expression(expr) => expression_to_number(expr),
        _ => Err(CompileError::MalformedOperands(String::from_str("expected numeric expression"))),
    }
}

pub open spec fn spec_argument_to_escaped_symbol(a: ArgV) -> Result<Seq<char>, CompileErrorV> {
    match a {
        ArgV::Expression(ExprV::Symbol(s)) => Ok(escape_seq(s)),
        _ => Err(CompileErrorV::MalformedOperands("expected a symbol"@)),
    }
}

/// Extracts a symbol argument, escaped for the target dialect.
pub fn argument_to_escaped_symbol(x: &Argument) -> (r: Result<String, CompileError>)
    ensures
        match r {
            Ok(v) => spec_argument_to_escaped_symbol(x@) == Ok::<Seq<char>, CompileErrorV>(v@),
            Err(e) => spec_argument_to_escaped_symbol(x@) == Err::<Seq<char>, CompileErrorV>(e@),
        },
{
    match x {
        Argument::Expression(Expression::Symbol(symb)) => Ok(escape_label(symb.as_str())),
        _ => Err(CompileError::MalformedOperands(String::from_str("expected a symbol"))),
    }
}

pub open spec fn spec_r(args: Seq<ArgV>) -> Result<Register, CompileErrorV> {
    if args.len() == 1 {
        match args[0] {
            ArgV::Register(r1) => Ok(r1),
            _ => Err(CompileErrorV::MalformedOperands("expected one register"@)),
        }
    } else {
        Err(CompileErrorV::MalformedOperands("expected one register"@))
    }
}

/// Destructures a one-register argument list.
pub fn r(args: &Vec<Argument>) -> (res: Result<Register, CompileError>)
    ensures
        match res {
            Ok(v) => spec_r(args_view(args@)) == Ok::<Register, CompileErrorV>(v),
            Err(e) => spec_r(args_view(args@)) == Err::<Register, CompileErrorV>(e@),
        },
{
    if args.len() == 1 {
        if let Argument::Register(r1) = &args[0] {
            return Ok(*r1);
        }
    }
    Err(CompileError::MalformedOperands(String::from_str("expected one register")))
}

pub open spec fn spec_rri(args: Seq<ArgV>) -> Result<(Register, Register, u32), CompileErrorV> {
    if args.len() == 3 {
        match (args[0], args[1]) {
            (ArgV::Register(r1), ArgV::Register(r2)) => match spec_argument_to_number(args[2]) {
                Ok(n) => Ok((r1, r2, n)),
                Err(e) => Err(e),
            },
            _ => Err(
                CompileErrorV::MalformedOperands("expected register, register, immediate"@),
            ),
        }
    } else {
        Err(CompileErrorV::MalformedOperands("expected register, register, immediate"@))
    }
}

/// Destructures a register, register, immediate argument list.
pub fn rri(args: &Vec<Argument>) -> (res: Result<(Register, Register, u32), CompileError>)
    ensures
        match res {
            Ok(v) => spec_rri(args_view(args@)) == Ok::<(Register, Register, u32), CompileErrorV>(
                v,
            ),
            Err(e) => spec_rri(args_view(args@)) == Err::<(Register, Register, u32), CompileErrorV>(
                e@,
            ),
        },
{
    if args.len() == 3 {
        if let (Argument::Register(r1), Argument::Register(r2)) = (&args[0], &args[1]) {
            return match argument_to_number(&args[2]) {
                Ok(n) => Ok((*r1, *r2, n)),
                Err(e) => Err(e),
            };
        }
    }
    Err(CompileError::MalformedOperands(String::from_str("expected register, register, immediate")))
}

pub open spec fn spec_rrr(args: Seq<ArgV>) -> Result<(Register, Register, Register), CompileErrorV> {
    if args.len() == 3 {
        match (args[0], args[1], args[2]) {
            (ArgV::Register(r1), ArgV::Register(r2), ArgV::Register(r3)) => Ok((r1, r2, r3)),
            _ => Err(CompileErrorV::MalformedOperands("expected three registers"@)),
        }
    } else {
        Err(CompileErrorV::MalformedOperands("expected three registers"@))
    }
}

/// Destructures a three-register argument list.
pub fn rrr(args: &Vec<Argument>) -> (res: Result<(Register, Register, Register), CompileError>)
    ensures
        match res {
            Ok(v) => spec_rrr(args_view(args@)) == Ok::<
                (Register, Register, Register),
                CompileErrorV,
            >(v),
            Err(e) => spec_rrr(args_view(args@)) == Err::<
                (Register, Register, Register),
                CompileErrorV,
            >(e@),
        },
{
    if args.len() == 3 {
        if let (Argument::Register(r1), Argument::Register(r2), Argument::Register(r3)) = (
            &args[0],
            &args[1],
            &args[2],
        ) {
            return Ok((*r1, *r2, *r3));
        }
    }
    Err(CompileError::MalformedOperands(String::from_str("expected three registers")))
}

pub open spec fn spec_ri(args: Seq<ArgV>) -> Result<(Register, u32), CompileErrorV> {
    if args.len() == 2 {
        match args[0] {
            ArgV::Register(r1) => match spec_argument_to_number(args[1]) {
                Ok(n) => Ok((r1, n)),
                Err(e) => Err(e),
            },
            _ => Err(CompileErrorV::MalformedOperands("expected register, immediate"@)),
        }
    } else {
        Err(CompileErrorV::MalformedOperands("expected register, immediate"@))
    }
}

/// Destructures a register, immediate argument list.
pub fn ri(args: &Vec<Argument>) -> (res: Result<(Register, u32), CompileError>)
    ensures
        match res {
            Ok(v) => spec_ri(args_view(args@)) == Ok::<(Register, u32), CompileErrorV>(v),
            Err(e) => spec_ri(args_view(args@)) == Err::<(Register, u32), CompileErrorV>(e@),
        },
{
    if args.len() == 2 {
        if let Argument::Register(r1) = &args[0] {
            return match argument_to_number(&args[1]) {
                Ok(n) => Ok((*r1, n)),
                Err(e) => Err(e),
            };
        }
    }
    Err(CompileError::MalformedOperands(String::from_str("expected register, immediate")))
}

pub open spec fn spec_rr(args: Seq<ArgV>) -> Result<(Register, Register), CompileErrorV> {
    if args.len() == 2 {
        match (args[0], args[1]) {
            (ArgV::Register(r1), ArgV::Register(r2)) => Ok((r1, r2)),
            _ => Err(CompileErrorV::MalformedOperands("expected two registers"@)),
        }
    } else {
        Err(CompileErrorV::MalformedOperands("expected two registers"@))
    }
}

/// Destructures a two-register argument list.
pub fn rr(args: &Vec<Argument>) -> (res: Result<(Register, Register), CompileError>)
    ensures
        match res {
            Ok(v) => spec_rr(args_view(args@)) == Ok::<(Register, Register), CompileErrorV>(v),
            Err(e) => spec_rr(args_view(args@)) == Err::<(Register, Register), CompileErrorV>(e@),
        },
{
    if args.len() == 2 {
        if let (Argument::Register(r1), Argument::Register(r2)) = (&args[0], &args[1]) {
            return Ok((*r1, *r2));
        }
    }
    Err(CompileError::MalformedOperands(String::from_str("expected two registers")))
}

pub open spec fn spec_rrl(args: Seq<ArgV>) -> Result<
    (Register, Register, Seq<char>),
    CompileErrorV,
> {
    if args.len() == 3 {
        match (args[0], args[1]) {
            (ArgV::Register(r1), ArgV::Register(r2)) => match spec_argument_to_escaped_symbol(
                args[2],
            ) {
                Ok(l) => Ok((r1, r2, l)),
                Err(e) => Err(e),
            },
            _ => Err(CompileErrorV::MalformedOperands("expected register, register, label"@)),
        }
    } else {
        Err(CompileErrorV::MalformedOperands("expected register, register, label"@))
    }
}

/// Destructures a register, register, label argument list; the label comes
/// escaped.
pub fn rrl(args: &Vec<Argument>) -> (res: Result<(Register, Register, String), CompileError>)
    ensures
        match res {
            Ok(v) => spec_rrl(args_view(args@)) == Ok::<
                (Register, Register, Seq<char>),
                CompileErrorV,
            >((v.0, v.1, v.2@)),
            Err(e) => spec_rrl(args_view(args@)) == Err::<
                (Register, Register, Seq<char>),
                CompileErrorV,
            >(e@),
        },
{
    if args.len() == 3 {
        if let (Argument::Register(r1), Argument::Register(r2)) = (&args[0], &args[1]) {
            return match argument_to_escaped_symbol(&args[2]) {
                Ok(l) => Ok((*r1, *r2, l)),
                Err(e) => Err(e),
            };
        }
    }
    Err(CompileError::MalformedOperands(String::from_str("expected register, register, label")))
}

pub open spec fn spec_rl(args: Seq<ArgV>) -> Result<(Register, Seq<char>), CompileErrorV> {
    if args.len() == 2 {
        match args[0] {
            ArgV::Register(r1) => match spec_argument_to_escaped_symbol(args[1]) {
                Ok(l) => Ok((r1, l)),
                Err(e) => Err(e),
            },
            _ => Err(CompileErrorV::MalformedOperands("expected register, label"@)),
        }
    } else {
        Err(CompileErrorV::MalformedOperands("expected register, label"@))
    }
}

/// Destructures a register, label argument list; the label comes escaped.
pub fn rl(args: &Vec<Argument>) -> (res: Result<(Register, String), CompileError>)
    ensures
        match res {
            Ok(v) => spec_rl(args_view(args@)) == Ok::<(Register, Seq<char>), CompileErrorV>(
                (v.0, v.1@),
            ),
            Err(e) => spec_rl(args_view(args@)) == Err::<(Register, Seq<char>), CompileErrorV>(e@),
        },
{
    if args.len() == 2 {
        if let Argument::Register(r1) = &args[0] {
            return match argument_to_escaped_symbol(&args[1]) {
                Ok(l) => Ok((*r1, l)),
                Err(e) => Err(e),
            };
        }
    }
    Err(CompileError::MalformedOperands(String::from_str("expected register, label")))
}

pub open spec fn spec_rro(args: Seq<ArgV>) -> Result<(Register, Register, u32), CompileErrorV> {
    if args.len() == 2 {
        match (args[0], args[1]) {
            (ArgV::Register(r1), ArgV::RegOffset(r2, off)) => match spec_expr_to_number(off) {
                Ok(n) => Ok((r1, r2, n)),
                Err(e) => Err(e),
            },
            _ => Err(
                CompileErrorV::MalformedOperands("expected register, register with offset"@),
            ),
        }
    } else {
        Err(CompileErrorV::MalformedOperands("expected register, register with offset"@))
    }
}

/// Destructures a register plus register-with-offset argument list.
pub fn rro(args: &Vec<Argument>) -> (res: Result<(Register, Register, u32), CompileError>)
    ensures
        match res {
            Ok(v) => spec_rro(args_view(args@)) == Ok::<(Register, Register, u32), CompileErrorV>(
                v,
            ),
            Err(e) => spec_rro(args_view(args@)) == Err::<(Register, Register, u32), CompileErrorV>(
                e@,
            ),
        },
{
    if args.len() == 2 {
        if let (Argument::Register(r1), Argument::RegOffset(r2, off)) = (&args[0], &args[1]) {
            return match expression_to_number(off) {
                Ok(n) => Ok((*r1, *r2, n)),
                Err(e) => Err(e),
            };
        }
    }
    Err(CompileError::MalformedOperands(String::from_str("expected register, register with offset")))
}

/// Whether an executable lowering result matches its specification.
pub open spec fn lower_matches(
    res: Result<Vec<TargetInstr>, CompileError>,
    s: Result<Seq<TargetInstrV>, CompileErrorV>,
) -> bool {
    match res {
        Ok(v) => match s {
            Ok(sv) => target_instrs_view(v@) == sv,
            Err(_) => false,
        },
        Err(e) => match s {
            Ok(_) => false,
            Err(se) => e@ == se,
        },
    }
}

/// Whether an executable group-lowering result matches its specification.
pub open spec fn opt_lower_matches(
    res: Option<Result<Vec<TargetInstr>, CompileError>>,
    s: Option<Result<Seq<TargetInstrV>, CompileErrorV>>,
) -> bool {
    match res {
        Some(rr) => match s {
            Some(ss) => lower_matches(rr, ss),
            None => false,
        },
        None => s is None,
    }
}

fn vec1(a: TargetInstr) -> (r: Vec<TargetInstr>)
    ensures
        target_instrs_view(r@) == seq![a@],
{
    let mut r: Vec<TargetInstr> = Vec::new();
    r.push(a);
    proof {
        assert(target_instrs_view(r@) =~= seq![a@]);
    }
    r
}

fn vec2(a: TargetInstr, b: TargetInstr) -> (r: Vec<TargetInstr>)
    ensures
        target_instrs_view(r@) == seq![a@, b@],
{
    let mut r: Vec<TargetInstr> = Vec::new();
    r.push(a);
    r.push(b);
    proof {
        assert(target_instrs_view(r@) =~= seq![a@, b@]);
    }
    r
}

fn vec3(a: TargetInstr, b: TargetInstr, c: TargetInstr) -> (r: Vec<TargetInstr>)
    ensures
        target_instrs_view(r@) == seq![a@, b@, c@],
{
    let mut r: Vec<TargetInstr> = Vec::new();
    r.push(a);
    r.push(b);
    r.push(c);
    proof {
        assert(target_instrs_view(r@) =~= seq![a@, b@, c@]);
    }
    r
}

fn vec6(
    a: TargetInstr,
    b: TargetInstr,
    c: TargetInstr,
    d: TargetInstr,
    e: TargetInstr,
    f: TargetInstr,
) -> (r: Vec<TargetInstr>)
    ensures
        target_instrs_view(r@) == seq![a@, b@, c@, d@, e@, f@],
{
    let mut r: Vec<TargetInstr> = Vec::new();
    r.push(a);
    r.push(b);
    r.push(c);
    r.push(d);
    r.push(e);
    r.push(f);
    proof {
        assert(target_instrs_view(r@) =~= seq![a@, b@, c@, d@, e@, f@]);
    }
    r
}

/// The constant loads and register moves.
pub open spec fn spec_lower_moves(instr: Seq<char>, args: Seq<ArgV>) -> Option<
    Result<Seq<TargetInstrV>, CompileErrorV>,
> {
    if instr == "li"@ {
        Some(match spec_ri(args) {
            Ok((rd, imm)) => Ok(
                elide(rd, seq![TargetInstrV::Assign(treg(rd), TargetOp::Dec(imm))]),
            ),
            Err(e) => Err(e),
        })
    } else if instr == "lui"@ {
        Some(match spec_ri(args) {
            Ok((rd, imm)) => Ok(
                elide(rd, seq![TargetInstrV::Assign(treg(rd), TargetOp::Dec(imm << 12u32))]),
            ),
            Err(e) => Err(e),
        })
    } else if instr == "la"@ {
        Some(match spec_ri(args) {
            Ok((rd, addr)) => Ok(
                elide(rd, seq![TargetInstrV::Assign(treg(rd), TargetOp::Dec(addr))]),
            ),
            Err(e) => Err(e),
        })
    } else if instr == "mv"@ {
        Some(match spec_rr(args) {
            Ok((rd, rs)) => Ok(
                elide(rd, seq![TargetInstrV::Assign(treg(rd), TargetOp::Reg(treg(rs)))]),
            ),
            Err(e) => Err(e),
        })
    } else {
        None
    }
}

fn lower_moves(instr: &str, args: &Vec<Argument>) -> (res: Option<
    Result<Vec<TargetInstr>, CompileError>,
>)
    ensures
        opt_lower_matches(res, spec_lower_moves(instr@, args_view(args@))),
{
    if str_eq(instr, "li") {
        Some(match ri(args) {
            Ok((rd, imm)) => Ok(
                only_if_no_write_to_zero(
                    TargetInstr::Assign(treg_of(rd), TargetOp::Dec(imm)),
                    rd,
                ),
            ),
            Err(e) => Err(e),
        })
    } else if str_eq(instr, "lui") {
        Some(match ri(args) {
            Ok((rd, imm)) => Ok(
                only_if_no_write_to_zero(
                    TargetInstr::Assign(treg_of(rd), TargetOp::Dec(imm << 12u32)),
                    rd,
                ),
            ),
            Err(e) => Err(e),
        })
    } else if str_eq(instr, "la") {
        Some(match ri(args) {
            Ok((rd, addr)) => Ok(
                only_if_no_write_to_zero(
                    TargetInstr::Assign(treg_of(rd), TargetOp::Dec(addr)),
                    rd,
                ),
            ),
            Err(e) => Err(e),
        })
    } else if str_eq(instr, "mv") {
        Some(match rr(args) {
            Ok((rd, rs)) => Ok(
                only_if_no_write_to_zero(
                    TargetInstr::Assign(treg_of(rd), TargetOp::Reg(treg_of(rs))),
                    rd,
                ),
            ),
            Err(e) => Err(e),
        })
    } else {
        None
    }
}

/// The arithmetic instructions.
pub open spec fn spec_lower_arith(instr: Seq<char>, args: Seq<ArgV>) -> Option<
    Result<Seq<TargetInstrV>, CompileErrorV>,
> {
    if instr == "add"@ {
        Some(match spec_rrr(args) {
            Ok((rd, r1, r2)) => Ok(
                elide(
                    rd,
                    seq![TargetInstrV::WrapAdd(treg(rd), treg(r1), TargetOp::Reg(treg(r2)))],
                ),
            ),
            Err(e) => Err(e),
        })
    } else if instr == "addi"@ {
        Some(match spec_rri(args) {
            Ok((rd, rs, imm)) => Ok(
                elide(rd, seq![TargetInstrV::WrapAdd(treg(rd), treg(rs), TargetOp::Dec(imm))]),
            ),
            Err(e) => Err(e),
        })
    } else if instr == "sub"@ {
        Some(match spec_rrr(args) {
            Ok((rd, r1, r2)) => Ok(
                elide(
                    rd,
                    seq![TargetInstrV::WrapSignedSub(treg(rd), TargetOp::Reg(treg(r1)), treg(r2))],
                ),
            ),
            Err(e) => Err(e),
        })
    } else if instr == "neg"@ {
        Some(match spec_rr(args) {
            Ok((rd, r1)) => Ok(
                elide(
                    rd,
                    seq![TargetInstrV::WrapSignedSub(treg(rd), TargetOp::Dec(0), treg(r1))],
                ),
            ),
            Err(e) => Err(e),
        })
    } else if instr == "mul"@ {
        Some(match spec_rrr(args) {
            Ok((rd, r1, r2)) => Ok(
                elide(
                    rd,
                    seq![
                        TargetInstrV::Binary(
                            BinKind::Mul,
                            treg(rd),
                            TargetOp::Reg(treg(r1)),
                            TargetOp::Reg(treg(r2)),
                        ),
                    ],
                ),
            ),
            Err(e) => Err(e),
        })
    } else if instr == "mulhu"@ {
        Some(match spec_rrr(args) {
            Ok((rd, r1, r2)) => Ok(
                elide(
                    rd,
                    seq![
                        TargetInstrV::Binary(
                            BinKind::Mulhu,
                            treg(rd),
                            TargetOp::Reg(treg(r1)),
                            TargetOp::Reg(treg(r2)),
                        ),
                    ],
                ),
            ),
            Err(e) => Err(e),
        })
    } else if instr == "divu"@ {
        Some(match spec_rrr(args) {
            Ok((rd, r1, r2)) => Ok(
                elide(rd, seq![TargetInstrV::Divu(treg(rd), treg(r1), treg(r2))]),
            ),
            Err(e) => Err(e),
        })
    } else {
        None
    }
}

fn lower_arith(instr: &str, args: &Vec<Argument>) -> (res: Option<
    Result<Vec<TargetInstr>, CompileError>,
>)
    ensures
        opt_lower_matches(res, spec_lower_arith(instr@, args_view(args@))),
{
    if str_eq(instr, "add") {
        Some(match rrr(args) {
            Ok((rd, r1, r2)) => Ok(
                only_if_no_write_to_zero(
                    TargetInstr::WrapAdd(treg_of(rd), treg_of(r1), TargetOp::Reg(treg_of(r2))),
                    rd,
                ),
            ),
            Err(e) => Err(e),
        })
    } else if str_eq(instr, "addi") {
        Some(match rri(args) {
            Ok((rd, rs, imm)) => Ok(
                only_if_no_write_to_zero(
                    TargetInstr::WrapAdd(treg_of(rd), treg_of(rs), TargetOp::Dec(imm)),
                    rd,
                ),
            ),
            Err(e) => Err(e),
        })
    } else if str_eq(instr, "sub") {
        Some(match rrr(args) {
            Ok((rd, r1, r2)) => Ok(
                only_if_no_write_to_zero(
                    TargetInstr::WrapSignedSub(treg_of(rd), TargetOp::Reg(treg_of(r1)), treg_of(r2)),
                    rd,
                ),
            ),
            Err(e) => Err(e),
        })
    } else if str_eq(instr, "neg") {
        Some(match rr(args) {
            Ok((rd, r1)) => Ok(
                only_if_no_write_to_zero(
                    TargetInstr::WrapSignedSub(treg_of(rd), TargetOp::Dec(0), treg_of(r1)),
                    rd,
                ),
            ),
            Err(e) => Err(e),
        })
    } else if str_eq(instr, "mul") {
        Some(match rrr(args) {
            Ok((rd, r1, r2)) => Ok(
                only_if_no_write_to_zero(
                    TargetInstr::Binary(
                        BinKind::Mul,
                        treg_of(rd),
                        TargetOp::Reg(treg_of(r1)),
                        TargetOp::Reg(treg_of(r2)),
                    ),
                    rd,
                ),
            ),
            Err(e) => Err(e),
        })
    } else if str_eq(instr, "mulhu") {
        Some(match rrr(args) {
            Ok((rd, r1, r2)) => Ok(
                only_if_no_write_to_zero(
                    TargetInstr::Binary(
                        BinKind::Mulhu,
                        treg_of(rd),
                        TargetOp::Reg(treg_of(r1)),
                        TargetOp::Reg(treg_of(r2)),
                    ),
                    rd,
                ),
            ),
            Err(e) => Err(e),
        })
    } else if str_eq(instr, "divu") {
        Some(match rrr(args) {
            Ok((rd, r1, r2)) => Ok(
                only_if_no_write_to_zero(
                    TargetInstr::Divu(treg_of(rd), treg_of(r1), treg_of(r2)),
                    rd,
                ),
            ),
            Err(e) => Err(e),
        })
    } else {
        None
    }
}

/// The bitwise instructions.
pub open spec fn spec_lower_bitwise(instr: Seq<char>, args: Seq<ArgV>) -> Option<
    Result<Seq<TargetInstrV>, CompileErrorV>,
> {
    if instr == "xor"@ {
        Some(spec_bin_rrr(BinKind::Xor, args))
    } else if instr == "xori"@ {
        Some(spec_bin_rri(BinKind::Xor, args))
    } else if instr == "and"@ {
        Some(spec_bin_rrr(BinKind::And, args))
    } else if instr == "andi"@ {
        Some(spec_bin_rri(BinKind::And, args))
    } else if instr == "or"@ {
        Some(spec_bin_rrr(BinKind::Or, args))
    } else if instr == "ori"@ {
        Some(spec_bin_rri(BinKind::Or, args))
    } else if instr == "not"@ {
        Some(match spec_rr(args) {
            Ok((rd, rs)) => Ok(elide(rd, seq![TargetInstrV::WrapSignedNot(treg(rd), treg(rs))])),
            Err(e) => Err(e),
        })
    } else {
        None
    }
}

/// A submachine operation on two registers.
pub open spec fn spec_bin_rrr(k: BinKind, args: Seq<ArgV>) -> Result<
    Seq<TargetInstrV>,
    CompileErrorV,
> {
    match spec_rrr(args) {
        Ok((rd, r1, r2)) => Ok(
            elide(
                rd,
                seq![
                    TargetInstrV::Binary(
                        k,
                        treg(rd),
                        TargetOp::Reg(treg(r1)),
                        TargetOp::Reg(treg(r2)),
                    ),
                ],
            ),
        ),
        Err(e) => Err(e),
    }
}

/// A submachine operation on a register and an immediate.
pub open spec fn spec_bin_rri(k: BinKind, args: Seq<ArgV>) -> Result<
    Seq<TargetInstrV>,
    CompileErrorV,
> {
    match spec_rri(args) {
        Ok((rd, r1, imm)) => Ok(
            elide(
                rd,
                seq![
                    TargetInstrV::Binary(k, treg(rd), TargetOp::Reg(treg(r1)), TargetOp::Dec(imm)),
                ],
            ),
        ),
        Err(e) => Err(e),
    }
}

fn lower_bin_rrr(k: BinKind, args: &Vec<Argument>) -> (res: Result<Vec<TargetInstr>, CompileError>)
    ensures
        lower_matches(res, spec_bin_rrr(k, args_view(args@))),
{
    match rrr(args) {
        Ok((rd, r1, r2)) => Ok(
            only_if_no_write_to_zero(
                TargetInstr::Binary(
                    k,
                    treg_of(rd),
                    TargetOp::Reg(treg_of(r1)),
                    TargetOp::Reg(treg_of(r2)),
                ),
                rd,
            ),
        ),
        Err(e) => Err(e),
    }
}

fn lower_bin_rri(k: BinKind, args: &Vec<Argument>) -> (res: Result<Vec<TargetInstr>, CompileError>)
    ensures
        lower_matches(res, spec_bin_rri(k, args_view(args@))),
{
    match rri(args) {
        Ok((rd, r1, imm)) => Ok(
            only_if_no_write_to_zero(
                TargetInstr::Binary(
                    k,
                    treg_of(rd),
                    TargetOp::Reg(treg_of(r1)),
                    TargetOp::Dec(imm),
                ),
                rd,
            ),
        ),
        Err(e) => Err(e),
    }
}

fn lower_bitwise(instr: &str, args: &Vec<Argument>) -> (res: Option<
    Result<Vec<TargetInstr>, CompileError>,
>)
    ensures
        opt_lower_matches(res, spec_lower_bitwise(instr@, args_view(args@))),
{
    if str_eq(instr, "xor") {
        Some(lower_bin_rrr(BinKind::Xor, args))
    } else if str_eq(instr, "xori") {
        Some(lower_bin_rri(BinKind::Xor, args))
    } else if str_eq(instr, "and") {
        Some(lower_bin_rrr(BinKind::And, args))
    } else if str_eq(instr, "andi") {
        Some(lower_bin_rri(BinKind::And, args))
    } else if str_eq(instr, "or") {
        Some(lower_bin_rrr(BinKind::Or, args))
    } else if str_eq(instr, "ori") {
        Some(lower_bin_rri(BinKind::Or, args))
    } else if str_eq(instr, "not") {
        Some(match rr(args) {
            Ok((rd, rs)) => Ok(
                only_if_no_write_to_zero(
                    TargetInstr::WrapSignedNot(treg_of(rd), treg_of(rs)),
                    rd,
                ),
            ),
            Err(e) => Err(e),
        })
    } else {
        None
    }
}

/// The shift instructions. A fixed shift amount above 31 is malformed.
pub open spec fn spec_lower_shift(instr: Seq<char>, args: Seq<ArgV>) -> Option<
    Result<Seq<TargetInstrV>, CompileErrorV>,
> {
    if instr == "slli"@ {
        Some(match spec_rri(args) {
            Ok((rd, rs, amount)) => if amount <= 31 {
                if amount <= 16 {
                    Ok(
                        elide(
                            rd,
                            seq![TargetInstrV::Wrap16Mul(treg(rd), treg(rs), 1u32 << amount)],
                        ),
                    )
                } else {
                    Ok(
                        elide(
                            rd,
                            seq![
                                TargetInstrV::Wrap16Mul(TargetReg::Tmp1, treg(rs), 0x10000),
                                TargetInstrV::Wrap16Mul(
                                    treg(rd),
                                    TargetReg::Tmp1,
                                    1u32 << (amount - 16) as u32,
                                ),
                            ],
                        ),
                    )
                }
            } else {
                Err(CompileErrorV::MalformedOperands("slli"@))
            },
            Err(e) => Err(e),
        })
    } else if instr == "sll"@ {
        Some(match spec_rrr(args) {
            Ok((rd, r1, r2)) => Ok(
                elide(
                    rd,
                    seq![
                        TargetInstrV::Binary(
                            BinKind::And,
                            TargetReg::Tmp1,
                            TargetOp::Reg(treg(r2)),
                            TargetOp::Hex(0x1f),
                        ),
                        TargetInstrV::Binary(
                            BinKind::Shl,
                            treg(rd),
                            TargetOp::Reg(treg(r1)),
                            TargetOp::Reg(TargetReg::Tmp1),
                        ),
                    ],
                ),
            ),
            Err(e) => Err(e),
        })
    } else if instr == "srli"@ {
        Some(match spec_rri(args) {
            Ok((rd, rs, amount)) => if amount <= 31 {
                Ok(
                    elide(
                        rd,
                        seq![
                            TargetInstrV::Binary(
                                BinKind::Shr,
                                treg(rd),
                                TargetOp::Reg(treg(rs)),
                                TargetOp::Dec(amount),
                            ),
                        ],
                    ),
                )
            } else {
                Err(CompileErrorV::MalformedOperands("srli"@))
            },
            Err(e) => Err(e),
        })
    } else if instr == "srl"@ {
        Some(match spec_rrr(args) {
            Ok((rd, r1, r2)) => Ok(
                elide(
                    rd,
                    seq![
                        TargetInstrV::Binary(
                            BinKind::And,
                            TargetReg::Tmp1,
                            TargetOp::Reg(treg(r2)),
                            TargetOp::Hex(0x1f),
                        ),
                        TargetInstrV::Binary(
                            BinKind::Shr,
                            treg(rd),
                            TargetOp::Reg(treg(r1)),
                            TargetOp::Reg(TargetReg::Tmp1),
                        ),
                    ],
                ),
            ),
            Err(e) => Err(e),
        })
    } else if instr == "srai"@ {
        Some(match spec_rri(args) {
            Ok((rd, rs, amount)) => if amount <= 31 {
                Ok(
                    elide(
                        rd,
                        seq![
                            TargetInstrV::ToSigned(TargetReg::Tmp1, treg(rs)),
                            TargetInstrV::IsPositiveInto(
                                TargetReg::Tmp1,
                                TargetCond::Diff(TargetOp::Dec(0), TargetOp::Reg(TargetReg::Tmp1)),
                            ),
                            TargetInstrV::AssignMulHex(TargetReg::Tmp1, TargetReg::Tmp1, 0xffffffff),
                            TargetInstrV::Binary(
                                BinKind::Xor,
                                treg(rd),
                                TargetOp::Reg(TargetReg::Tmp1),
                                TargetOp::Reg(treg(rs)),
                            ),
                            TargetInstrV::Binary(
                                BinKind::Shr,
                                treg(rd),
                                TargetOp::Reg(treg(rd)),
                                TargetOp::Dec(amount),
                            ),
                            TargetInstrV::Binary(
                                BinKind::Xor,
                                treg(rd),
                                TargetOp::Reg(TargetReg::Tmp1),
                                TargetOp::Reg(treg(rd)),
                            ),
                        ],
                    ),
                )
            } else {
                Err(CompileErrorV::MalformedOperands("srai"@))
            },
            Err(e) => Err(e),
        })
    } else {
        None
    }
}

fn lower_shift(instr: &str, args: &Vec<Argument>) -> (res: Option<
    Result<Vec<TargetInstr>, CompileError>,
>)
    ensures
        opt_lower_matches(res, spec_lower_shift(instr@, args_view(args@))),
{
    if str_eq(instr, "slli") {
        Some(match rri(args) {
            Ok((rd, rs, amount)) => if amount <= 31 {
                if amount <= 16 {
                    Ok(
                        only_if_no_write_to_zero(
                            TargetInstr::Wrap16Mul(treg_of(rd), treg_of(rs), 1u32 << amount),
                            rd,
                        ),
                    )
                } else {
                    Ok(
                        only_if_no_write_to_zero_vec(
                            vec2(
                                TargetInstr::Wrap16Mul(TargetReg::Tmp1, treg_of(rs), 0x10000),
                                TargetInstr::Wrap16Mul(
                                    treg_of(rd),
                                    TargetReg::Tmp1,
                                    1u32 << (amount - 16),
                                ),
                            ),
                            rd,
                        ),
                    )
                }
            } else {
                Err(CompileError::MalformedOperands(String::from_str("slli")))
            },
            Err(e) => Err(e),
        })
    } else if str_eq(instr, "sll") {
        Some(match rrr(args) {
            Ok((rd, r1, r2)) => Ok(
                only_if_no_write_to_zero_vec(
                    vec2(
                        TargetInstr::Binary(
                            BinKind::And,
                            TargetReg::Tmp1,
                            TargetOp::Reg(treg_of(r2)),
                            TargetOp::Hex(0x1f),
                        ),
                        TargetInstr::Binary(
                            BinKind::Shl,
                            treg_of(rd),
                            TargetOp::Reg(treg_of(r1)),
                            TargetOp::Reg(TargetReg::Tmp1),
                        ),
                    ),
                    rd,
                ),
            ),
            Err(e) => Err(e),
        })
    } else if str_eq(instr, "srli") {
        Some(match rri(args) {
            Ok((rd, rs, amount)) => if amount <= 31 {
                Ok(
                    only_if_no_write_to_zero(
                        TargetInstr::Binary(
                            BinKind::Shr,
                            treg_of(rd),
                            TargetOp::Reg(treg_of(rs)),
                            TargetOp::Dec(amount),
                        ),
                        rd,
                    ),
                )
            } else {
                Err(CompileError::MalformedOperands(String::from_str("srli")))
            },
            Err(e) => Err(e),
        })
    } else if str_eq(instr, "srl") {
        Some(match rrr(args) {
            Ok((rd, r1, r2)) => Ok(
                only_if_no_write_to_zero_vec(
                    vec2(
                        TargetInstr::Binary(
                            BinKind::And,
                            TargetReg::Tmp1,
                            TargetOp::Reg(treg_of(r2)),
                            TargetOp::Hex(0x1f),
                        ),
                        TargetInstr::Binary(
                            BinKind::Shr,
                            treg_of(rd),
                            TargetOp::Reg(treg_of(r1)),
                            TargetOp::Reg(TargetReg::Tmp1),
                        ),
                    ),
                    rd,
                ),
            ),
            Err(e) => Err(e),
        })
    } else if str_eq(instr, "srai") {
        Some(match rri(args) {
            Ok((rd, rs, amount)) => if amount <= 31 {
                Ok(
                    only_if_no_write_to_zero_vec(
                        vec6(
                            TargetInstr::ToSigned(TargetReg::Tmp1, treg_of(rs)),
                            TargetInstr::IsPositiveInto(
                                TargetReg::Tmp1,
                                TargetCond::Diff(TargetOp::Dec(0), TargetOp::Reg(TargetReg::Tmp1)),
                            ),
                            TargetInstr::AssignMulHex(
                                TargetReg::Tmp1,
                                TargetReg::Tmp1,
                                0xffffffff,
                            ),
                            TargetInstr::Binary(
                                BinKind::Xor,
                                treg_of(rd),
                                TargetOp::Reg(TargetReg::Tmp1),
                                TargetOp::Reg(treg_of(rs)),
                            ),
                            TargetInstr::Binary(
                                BinKind::Shr,
                                treg_of(rd),
                                TargetOp::Reg(treg_of(rd)),
                                TargetOp::Dec(amount),
                            ),
                            TargetInstr::Binary(
                                BinKind::Xor,
                                treg_of(rd),
                                TargetOp::Reg(TargetReg::Tmp1),
                                TargetOp::Reg(treg_of(rd)),
                            ),
                        ),
                        rd,
                    ),
                )
            } else {
                Err(CompileError::MalformedOperands(String::from_str("srai")))
            },
            Err(e) => Err(e),
        })
    } else {
        None
    }
}

/// The comparison instructions.
pub open spec fn spec_lower_cmp(instr: Seq<char>, args: Seq<ArgV>) -> Option<
    Result<Seq<TargetInstrV>, CompileErrorV>,
> {
    if instr == "seqz"@ {
        Some(match spec_rr(args) {
            Ok((rd, rs)) => Ok(elide(rd, seq![TargetInstrV::IsEqualZero(treg(rd), treg(rs))])),
            Err(e) => Err(e),
        })
    } else if instr == "snez"@ {
        Some(match spec_rr(args) {
            Ok((rd, rs)) => Ok(elide(rd, seq![TargetInstrV::IsNotEqualZero(treg(rd), treg(rs))])),
            Err(e) => Err(e),
        })
    } else if instr == "slti"@ {
        Some(match spec_rri(args) {
            Ok((rd, rs, imm)) => Ok(
                elide(
                    rd,
                    seq![
                        TargetInstrV::ToSigned(TargetReg::Tmp1, treg(rs)),
                        TargetInstrV::IsPositive(
                            treg(rd),
                            TargetCond::Diff(
                                TargetOp::SDec(reinterp_i32(imm)),
                                TargetOp::Reg(TargetReg::Tmp1),
                            ),
                        ),
                    ],
                ),
            ),
            Err(e) => Err(e),
        })
    } else if instr == "slt"@ {
        Some(match spec_rrr(args) {
            Ok((rd, r1, r2)) => Ok(
                elide(
                    rd,
                    seq![
                        TargetInstrV::ToSigned(TargetReg::Tmp1, treg(r1)),
                        TargetInstrV::ToSigned(TargetReg::Tmp2, treg(r2)),
                        TargetInstrV::IsPositive(
                            treg(rd),
                            TargetCond::Diff(
                                TargetOp::Reg(TargetReg::Tmp2),
                                TargetOp::Reg(TargetReg::Tmp1),
                            ),
                        ),
                    ],
                ),
            ),
            Err(e) => Err(e),
        })
    } else if instr == "sltiu"@ {
        Some(match spec_rri(args) {
            Ok((rd, rs, imm)) => Ok(
                elide(
                    rd,
                    seq![
                        TargetInstrV::IsPositive(
                            treg(rd),
                            TargetCond::Diff(TargetOp::Dec(imm), TargetOp::Reg(treg(rs))),
                        ),
                    ],
                ),
            ),
            Err(e) => Err(e),
        })
    } else if instr == "sltu"@ {
        Some(match spec_rrr(args) {
            Ok((rd, r1, r2)) => Ok(
                elide(
                    rd,
                    seq![
                        TargetInstrV::IsPositive(
                            treg(rd),
                            TargetCond::Diff(TargetOp::Reg(treg(r2)), TargetOp::Reg(treg(r1))),
                        ),
                    ],
                ),
            ),
            Err(e) => Err(e),
        })
    } else if instr == "sgtz"@ {
        Some(match spec_rr(args) {
            Ok((rd, rs)) => Ok(
                elide(
                    rd,
                    seq![
                        TargetInstrV::ToSigned(TargetReg::Tmp1, treg(rs)),
                        TargetInstrV::IsPositive(
                            treg(rd),
                            TargetCond::One(TargetOp::Reg(TargetReg::Tmp1)),
                        ),
                    ],
                ),
            ),
            Err(e) => Err(e),
        })
    } else {
        None
    }
}

fn reinterp_i32_of(n: u32) -> (r: i32)
    ensures
        r == reinterp_i32(n),
{
    if n < 0x8000_0000 {
        n as i32
    } else {
        let sv: i64 = (n as i64) - 0x1_0000_0000;
        sv as i32
    }
}

fn lower_cmp(instr: &str, args: &Vec<Argument>) -> (res: Option<
    Result<Vec<TargetInstr>, CompileError>,
>)
    ensures
        opt_lower_matches(res, spec_lower_cmp(instr@, args_view(args@))),
{
    if str_eq(instr, "seqz") {
        Some(match rr(args) {
            Ok((rd, rs)) => Ok(
                only_if_no_write_to_zero(
                    TargetInstr::IsEqualZero(treg_of(rd), treg_of(rs)),
                    rd,
                ),
            ),
            Err(e) => Err(e),
        })
    } else if str_eq(instr, "snez") {
        Some(match rr(args) {
            Ok((rd, rs)) => Ok(
                only_if_no_write_to_zero(
                    TargetInstr::IsNotEqualZero(treg_of(rd), treg_of(rs)),
                    rd,
                ),
            ),
            Err(e) => Err(e),
        })
    } else if str_eq(instr, "slti") {
        Some(match rri(args) {
            Ok((rd, rs, imm)) => Ok(
                only_if_no_write_to_zero_vec(
                    vec2(
                        TargetInstr::ToSigned(TargetReg::Tmp1, treg_of(rs)),
                        TargetInstr::IsPositive(
                            treg_of(rd),
                            TargetCond::Diff(
                                TargetOp::SDec(reinterp_i32_of(imm)),
                                TargetOp::Reg(TargetReg::Tmp1),
                            ),
                        ),
                    ),
                    rd,
                ),
            ),
            Err(e) => Err(e),
        })
    } else if str_eq(instr, "slt") {
        Some(match rrr(args) {
            Ok((rd, r1, r2)) => Ok(
                only_if_no_write_to_zero_vec(
                    vec3(
                        TargetInstr::ToSigned(TargetReg::Tmp1, treg_of(r1)),
                        TargetInstr::ToSigned(TargetReg::Tmp2, treg_of(r2)),
                        TargetInstr::IsPositive(
                            treg_of(rd),
                            TargetCond::Diff(
                                TargetOp::Reg(TargetReg::Tmp2),
                                TargetOp::Reg(TargetReg::Tmp1),
                            ),
                        ),
                    ),
                    rd,
                ),
            ),
            Err(e) => Err(e),
        })
    } else if str_eq(instr, "sltiu") {
        Some(match rri(args) {
            Ok((rd, rs, imm)) => Ok(
                only_if_no_write_to_zero(
                    TargetInstr::IsPositive(
                        treg_of(rd),
                        TargetCond::Diff(TargetOp::Dec(imm), TargetOp::Reg(treg_of(rs))),
                    ),
                    rd,
                ),
            ),
            Err(e) => Err(e),
        })
    } else if str_eq(instr, "sltu") {
        Some(match rrr(args) {
            Ok((rd, r1, r2)) => Ok(
                only_if_no_write_to_zero(
                    TargetInstr::IsPositive(
                        treg_of(rd),
                        TargetCond::Diff(TargetOp::Reg(treg_of(r2)), TargetOp::Reg(treg_of(r1))),
                    ),
                    rd,
                ),
            ),
            Err(e) => Err(e),
        })
    } else if str_eq(instr, "sgtz") {
        Some(match rr(args) {
            Ok((rd, rs)) => Ok(
                only_if_no_write_to_zero_vec(
                    vec2(
                        TargetInstr::ToSigned(TargetReg::Tmp1, treg_of(rs)),
                        TargetInstr::IsPositive(
                            treg_of(rd),
                            TargetCond::One(TargetOp::Reg(TargetReg::Tmp1)),
                        ),
                    ),
                    rd,
                ),
            ),
            Err(e) => Err(e),
        })
    } else {
        None
    }
}

/// The branch instructions. Branches are side-effect-only: they are never
/// elided.
pub open spec fn spec_lower_branch(instr: Seq<char>, args: Seq<ArgV>) -> Option<
    Result<Seq<TargetInstrV>, CompileErrorV>,
> {
    if instr == "beq"@ {
        Some(match spec_rrl(args) {
            Ok((r1, r2, label)) => Ok(
                seq![
                    TargetInstrV::BranchIfZero(
                        TargetCond::Diff(TargetOp::Reg(treg(r1)), TargetOp::Reg(treg(r2))),
                        label,
                    ),
                ],
            ),
            Err(e) => Err(e),
        })
    } else if instr == "beqz"@ {
        Some(match spec_rl(args) {
            Ok((r1, label)) => Ok(
                seq![
                    TargetInstrV::BranchIfZero(TargetCond::One(TargetOp::Reg(treg(r1))), label),
                ],
            ),
            Err(e) => Err(e),
        })
    } else if instr == "bgeu"@ {
        Some(match spec_rrl(args) {
            Ok((r1, r2, label)) => Ok(
                seq![
                    TargetInstrV::BranchIfPositive(
                        TargetCond::DiffPlusOne(TargetOp::Reg(treg(r1)), TargetOp::Reg(treg(r2))),
                        label,
                    ),
                ],
            ),
            Err(e) => Err(e),
        })
    } else if instr == "bgez"@ {
        Some(match spec_rl(args) {
            Ok((r1, label)) => Ok(
                seq![
                    TargetInstrV::ToSigned(TargetReg::Tmp1, treg(r1)),
                    TargetInstrV::BranchIfPositive(
                        TargetCond::PlusOne(TargetOp::Reg(TargetReg::Tmp1)),
                        label,
                    ),
                ],
            ),
            Err(e) => Err(e),
        })
    } else if instr == "bltu"@ {
        Some(match spec_rrl(args) {
            Ok((r1, r2, label)) => Ok(
                seq![
                    TargetInstrV::BranchIfPositive(
                        TargetCond::Diff(TargetOp::Reg(treg(r2)), TargetOp::Reg(treg(r1))),
                        label,
                    ),
                ],
            ),
            Err(e) => Err(e),
        })
    } else if instr == "blt"@ {
        Some(match spec_rrl(args) {
            Ok((r1, r2, label)) => Ok(
                seq![
                    TargetInstrV::ToSigned(TargetReg::Tmp1, treg(r1)),
                    TargetInstrV::ToSigned(TargetReg::Tmp2, treg(r2)),
                    TargetInstrV::BranchIfPositive(
                        TargetCond::Diff(
                            TargetOp::Reg(TargetReg::Tmp2),
                            TargetOp::Reg(TargetReg::Tmp1),
                        ),
                        label,
                    ),
                ],
            ),
            Err(e) => Err(e),
        })
    } else if instr == "bge"@ {
        Some(match spec_rrl(args) {
            Ok((r1, r2, label)) => Ok(
                seq![
                    TargetInstrV::ToSigned(TargetReg::Tmp1, treg(r1)),
                    TargetInstrV::ToSigned(TargetReg::Tmp2, treg(r2)),
                    TargetInstrV::BranchIfPositive(
                        TargetCond::DiffPlusOne(
                            TargetOp::Reg(TargetReg::Tmp1),
                            TargetOp::Reg(TargetReg::Tmp2),
                        ),
                        label,
                    ),
                ],
            ),
            Err(e) => Err(e),
        })
    } else if instr == "bltz"@ {
        Some(match spec_rl(args) {
            Ok((r1, label)) => Ok(
                seq![
                    TargetInstrV::BranchIfPositive(
                        TargetCond::MinusTwoPow31PlusOne(TargetOp::Reg(treg(r1))),
                        label,
                    ),
                ],
            ),
            Err(e) => Err(e),
        })
    } else if instr == "blez"@ {
        Some(match spec_rl(args) {
            Ok((r1, label)) => Ok(
                seq![
                    TargetInstrV::ToSigned(TargetReg::Tmp1, treg(r1)),
                    TargetInstrV::BranchIfPositive(
                        TargetCond::NegPlusOne(TargetOp::Reg(TargetReg::Tmp1)),
                        label,
                    ),
                ],
            ),
            Err(e) => Err(e),
        })
    } else if instr == "bgtz"@ {
        Some(match spec_rl(args) {
            Ok((r1, label)) => Ok(
                seq![
                    TargetInstrV::ToSigned(TargetReg::Tmp1, treg(r1)),
                    TargetInstrV::BranchIfPositive(
                        TargetCond::One(TargetOp::Reg(TargetReg::Tmp1)),
                        label,
                    ),
                ],
            ),
            Err(e) => Err(e),
        })
    } else if instr == "bne"@ {
        Some(match spec_rrl(args) {
            Ok((r1, r2, label)) => Ok(
                seq![
                    TargetInstrV::BranchIfNonzero(
                        TargetCond::Diff(TargetOp::Reg(treg(r1)), TargetOp::Reg(treg(r2))),
                        label,
                    ),
                ],
            ),
            Err(e) => Err(e),
        })
    } else if instr == "bnez"@ {
        Some(match spec_rl(args) {
            Ok((r1, label)) => Ok(
                seq![
                    TargetInstrV::BranchIfNonzero(TargetCond::One(TargetOp::Reg(treg(r1))), label),
                ],
            ),
            Err(e) => Err(e),
        })
    } else {
        None
    }
}

fn lower_branch(instr: &str, args: &Vec<Argument>) -> (res: Option<
    Result<Vec<TargetInstr>, CompileError>,
>)
    ensures
        opt_lower_matches(res, spec_lower_branch(instr@, args_view(args@))),
{
    if str_eq(instr, "beq") {
        Some(match rrl(args) {
            Ok((r1, r2, label)) => Ok(
                vec1(
                    TargetInstr::BranchIfZero(
                        TargetCond::Diff(TargetOp::Reg(treg_of(r1)), TargetOp::Reg(treg_of(r2))),
                        label,
                    ),
                ),
            ),
            Err(e) => Err(e),
        })
    } else if str_eq(instr, "beqz") {
        Some(match rl(args) {
            Ok((r1, label)) => Ok(
                vec1(
                    TargetInstr::BranchIfZero(TargetCond::One(TargetOp::Reg(treg_of(r1))), label),
                ),
            ),
            Err(e) => Err(e),
        })
    } else if str_eq(instr, "bgeu") {
        Some(match rrl(args) {
            Ok((r1, r2, label)) => Ok(
                vec1(
                    TargetInstr::BranchIfPositive(
                        TargetCond::DiffPlusOne(
                            TargetOp::Reg(treg_of(r1)),
                            TargetOp::Reg(treg_of(r2)),
                        ),
                        label,
                    ),
                ),
            ),
            Err(e) => Err(e),
        })
    } else if str_eq(instr, "bgez") {
        Some(match rl(args) {
            Ok((r1, label)) => Ok(
                vec2(
                    TargetInstr::ToSigned(TargetReg::Tmp1, treg_of(r1)),
                    TargetInstr::BranchIfPositive(
                        TargetCond::PlusOne(TargetOp::Reg(TargetReg::Tmp1)),
                        label,
                    ),
                ),
            ),
            Err(e) => Err(e),
        })
    } else if str_eq(instr, "bltu") {
        Some(match rrl(args) {
            Ok((r1, r2, label)) => Ok(
                vec1(
                    TargetInstr::BranchIfPositive(
                        TargetCond::Diff(TargetOp::Reg(treg_of(r2)), TargetOp::Reg(treg_of(r1))),
                        label,
                    ),
                ),
            ),
            Err(e) => Err(e),
        })
    } else if str_eq(instr, "blt") {
        Some(match rrl(args) {
            Ok((r1, r2, label)) => Ok(
                vec3(
                    TargetInstr::ToSigned(TargetReg::Tmp1, treg_of(r1)),
                    TargetInstr::ToSigned(TargetReg::Tmp2, treg_of(r2)),
                    TargetInstr::BranchIfPositive(
                        TargetCond::Diff(
                            TargetOp::Reg(TargetReg::Tmp2),
                            TargetOp::Reg(TargetReg::Tmp1),
                        ),
                        label,
                    ),
                ),
            ),
            Err(e) => Err(e),
        })
    } else if str_eq(instr, "bge") {
        Some(match rrl(args) {
            Ok((r1, r2, label)) => Ok(
                vec3(
                    TargetInstr::ToSigned(TargetReg::Tmp1, treg_of(r1)),
                    TargetInstr::ToSigned(TargetReg::Tmp2, treg_of(r2)),
                    TargetInstr::BranchIfPositive(
                        TargetCond::DiffPlusOne(
                            TargetOp::Reg(TargetReg::Tmp1),
                            TargetOp::Reg(TargetReg::Tmp2),
                        ),
                        label,
                    ),
                ),
            ),
            Err(e) => Err(e),
        })
    } else if str_eq(instr, "bltz") {
        Some(match rl(args) {
            Ok((r1, label)) => Ok(
                vec1(
                    TargetInstr::BranchIfPositive(
                        TargetCond::MinusTwoPow31PlusOne(TargetOp::Reg(treg_of(r1))),
                        label,
                    ),
                ),
            ),
            Err(e) => Err(e),
        })
    } else if str_eq(instr, "blez") {
        Some(match rl(args) {
            Ok((r1, label)) => Ok(
                vec2(
                    TargetInstr::ToSigned(TargetReg::Tmp1, treg_of(r1)),
                    TargetInstr::BranchIfPositive(
                        TargetCond::NegPlusOne(TargetOp::Reg(TargetReg::Tmp1)),
                        label,
                    ),
                ),
            ),
            Err(e) => Err(e),
        })
    } else if str_eq(instr, "bgtz") {
        Some(match rl(args) {
            Ok((r1, label)) => Ok(
                vec2(
                    TargetInstr::ToSigned(TargetReg::Tmp1, treg_of(r1)),
                    TargetInstr::BranchIfPositive(
                        TargetCond::One(TargetOp::Reg(TargetReg::Tmp1)),
                        label,
                    ),
                ),
            ),
            Err(e) => Err(e),
        })
    } else if str_eq(instr, "bne") {
        Some(match rrl(args) {
            Ok((r1, r2, label)) => Ok(
                vec1(
                    TargetInstr::BranchIfNonzero(
                        TargetCond::Diff(TargetOp::Reg(treg_of(r1)), TargetOp::Reg(treg_of(r2))),
                        label,
                    ),
                ),
            ),
            Err(e) => Err(e),
        })
    } else if str_eq(instr, "bnez") {
        Some(match rl(args) {
            Ok((r1, label)) => Ok(
                vec1(
                    TargetInstr::BranchIfNonzero(
                        TargetCond::One(TargetOp::Reg(treg_of(r1))),
                        label,
                    ),
                ),
            ),
            Err(e) => Err(e),
        })
    } else {
        None
    }
}

/// Whether a label names a recognized coprocessor stub routine.
pub open spec fn spec_is_stub(l: Seq<char>) -> bool {
    l == "poseidon_coprocessor"@
}

/// The direct instruction that replaces a call to a recognized coprocessor
/// stub, if the label names one.
pub open spec fn spec_try_coprocessor_substitution(l: Seq<char>) -> Option<TargetInstrV> {
    if spec_is_stub(l) {
        Some(TargetInstrV::Poseidon)
    } else {
        None
    }
}

/// Looks up the fixed coprocessor-substitution table.
pub fn try_coprocessor_substitution(label: &str) -> (res: Option<TargetInstr>)
    ensures
        match res {
            Some(t) => spec_try_coprocessor_substitution(label@) == Some(t@),
            None => spec_try_coprocessor_substitution(label@) is None,
        },
{
    if str_eq(label, "poseidon_coprocessor") {
        Some(TargetInstr::Poseidon)
    } else {
        None
    }
}

/// The jump, call and environment instructions.
pub open spec fn spec_lower_jump(instr: Seq<char>, args: Seq<ArgV>) -> Option<
    Result<Seq<TargetInstrV>, CompileErrorV>,
> {
    if instr == "j"@ {
        Some(
            if args.len() == 1 {
                match spec_argument_to_escaped_symbol(args[0]) {
                    Ok(l) => Ok(seq![TargetInstrV::Jump(l)]),
                    Err(e) => Err(e),
                }
            } else {
                Err(CompileErrorV::MalformedOperands("j"@))
            },
        )
    } else if instr == "jr"@ {
        Some(match spec_r(args) {
            Ok(rs) => Ok(seq![TargetInstrV::JumpDyn(treg(rs))]),
            Err(e) => Err(e),
        })
    } else if instr == "jal"@ {
        Some(Err(CompileErrorV::UnsupportedInstruction("jal"@)))
    } else if instr == "jalr"@ {
        Some(match spec_r(args) {
            Ok(rs) => Ok(seq![TargetInstrV::JumpAndLinkDyn(treg(rs))]),
            Err(e) => Err(e),
        })
    } else if instr == "call"@ || instr == "tail"@ {
        Some(
            if args.len() == 1 {
                match args[0] {
                    ArgV::Expression(ExprV::Symbol(l)) => if spec_is_stub(l) {
                        if instr == "call"@ {
                            Ok(seq![TargetInstrV::Poseidon])
                        } else {
                            Ok(seq![TargetInstrV::Poseidon, TargetInstrV::Ret])
                        }
                    } else {
                        if instr == "call"@ {
                            Ok(seq![TargetInstrV::Call(escape_seq(l))])
                        } else {
                            Ok(seq![TargetInstrV::Tail(escape_seq(l))])
                        }
                    },
                    _ => Err(CompileErrorV::MalformedOperands("expected a symbol"@)),
                }
            } else {
                Err(CompileErrorV::MalformedOperands(instr))
            },
        )
    } else if instr == "ecall"@ {
        Some(
            if args.len() == 0 {
                Ok(seq![TargetInstrV::Input])
            } else {
                Err(CompileErrorV::MalformedOperands("ecall"@))
            },
        )
    } else if instr == "ebreak"@ {
        Some(
            if args.len() == 0 {
                Ok(seq![TargetInstrV::PrintChar])
            } else {
                Err(CompileErrorV::MalformedOperands("ebreak"@))
            },
        )
    } else if instr == "ret"@ {
        Some(
            if args.len() == 0 {
                Ok(seq![TargetInstrV::Ret])
            } else {
                Err(CompileErrorV::MalformedOperands("ret"@))
            },
        )
    } else {
        None
    }
}

fn lower_jump(instr: &str, args: &Vec<Argument>) -> (res: Option<
    Result<Vec<TargetInstr>, CompileError>,
>)
    ensures
        opt_lower_matches(res, spec_lower_jump(instr@, args_view(args@))),
{
    if str_eq(instr, "j") {
        Some(
            if args.len() == 1 {
                match argument_to_escaped_symbol(&args[0]) {
                    Ok(l) => Ok(vec1(TargetInstr::Jump(l))),
                    Err(e) => Err(e),
                }
            } else {
                Err(CompileError::MalformedOperands(String::from_str("j")))
            },
        )
    } else if str_eq(instr, "jr") {
        Some(match r(args) {
            Ok(rs) => Ok(vec1(TargetInstr::JumpDyn(treg_of(rs)))),
            Err(e) => Err(e),
        })
    } else if str_eq(instr, "jal") {
        Some(Err(CompileError::UnsupportedInstruction(String::from_str("jal"))))
    } else if str_eq(instr, "jalr") {
        Some(match r(args) {
            Ok(rs) => Ok(vec1(TargetInstr::JumpAndLinkDyn(treg_of(rs)))),
            Err(e) => Err(e),
        })
    } else if str_eq(instr, "call") || str_eq(instr, "tail") {
        let is_call = str_eq(instr, "call");
        Some(
            if args.len() == 1 {
                if let Argument::Expression(Expression::Symbol(l)) = &args[0] {
                    match try_coprocessor_substitution(l.as_str()) {
                        Some(subst) => if is_call {
                            Ok(vec1(subst))
                        } else {
                            Ok(vec2(subst, TargetInstr::Ret))
                        },
                        None => {
                            let esc = escape_label(l.as_str());
                            if is_call {
                                Ok(vec1(TargetInstr::Call(esc)))
                            } else {
                                Ok(vec1(TargetInstr::Tail(esc)))
                            }
                        },
                    }
                } else {
                    Err(CompileError::MalformedOperands(String::from_str("expected a symbol")))
                }
            } else {
                Err(CompileError::MalformedOperands(instr.to_owned()))
            },
        )
    } else if str_eq(instr, "ecall") {
        Some(
            if args.len() == 0 {
                Ok(vec1(TargetInstr::Input))
            } else {
                Err(CompileError::MalformedOperands(String::from_str("ecall")))
            },
        )
    } else if str_eq(instr, "ebreak") {
        Some(
            if args.len() == 0 {
                Ok(vec1(TargetInstr::PrintChar))
            } else {
                Err(CompileError::MalformedOperands(String::from_str("ebreak")))
            },
        )
    } else if str_eq(instr, "ret") {
        Some(
            if args.len() == 0 {
                Ok(vec1(TargetInstr::Ret))
            } else {
                Err(CompileError::MalformedOperands(String::from_str("ret")))
            },
        )
    } else {
        None
    }
}

/// The memory access instructions and the remaining miscellanea. Narrow
/// accesses are emulated over the word-addressed memory by shift-and-mask
/// (loads) or read-modify-write (stores).
pub open spec fn spec_lower_mem(instr: Seq<char>, args: Seq<ArgV>) -> Option<
    Result<Seq<TargetInstrV>, CompileErrorV>,
> {
    if instr == "lw"@ {
        Some(match spec_rro(args) {
            Ok((rd, rs, off)) => Ok(
                elide(
                    rd,
                    seq![
                        TargetInstrV::WrapAdd(TargetReg::Addr, treg(rs), TargetOp::Dec(off)),
                        TargetInstrV::Mload(treg(rd)),
                    ],
                ),
            ),
            Err(e) => Err(e),
        })
    } else if instr == "lb"@ {
        Some(match spec_rro(args) {
            Ok((rd, rs, off)) => Ok(elide(rd, spec_narrow_load_head(rd, rs, off).push(
                TargetInstrV::SignExtendByte(treg(rd), treg(rd)),
            ))),
            Err(e) => Err(e),
        })
    } else if instr == "lbu"@ {
        Some(match spec_rro(args) {
            Ok((rd, rs, off)) => Ok(elide(rd, spec_narrow_load_head(rd, rs, off).push(
                TargetInstrV::Binary(
                    BinKind::And,
                    treg(rd),
                    TargetOp::Reg(treg(rd)),
                    TargetOp::Hex(0xff),
                ),
            ))),
            Err(e) => Err(e),
        })
    } else if instr == "lhu"@ {
        Some(match spec_rro(args) {
            Ok((rd, rs, off)) => Ok(elide(rd, spec_narrow_load_head(rd, rs, off).push(
                TargetInstrV::Binary(
                    BinKind::And,
                    treg(rd),
                    TargetOp::Reg(treg(rd)),
                    TargetOp::Hex(0xffff),
                ),
            ))),
            Err(e) => Err(e),
        })
    } else if instr == "sw"@ {
        Some(match spec_rro(args) {
            Ok((r1, r2, off)) => Ok(
                seq![
                    TargetInstrV::WrapAdd(TargetReg::Addr, treg(r2), TargetOp::Dec(off)),
                    TargetInstrV::Mstore(TargetOp::Reg(treg(r1))),
                ],
            ),
            Err(e) => Err(e),
        })
    } else if instr == "sh"@ {
        Some(match spec_rro(args) {
            Ok((rs, rd, off)) => Ok(spec_narrow_store(rs, rd, off, 0xffff)),
            Err(e) => Err(e),
        })
    } else if instr == "sb"@ {
        Some(match spec_rro(args) {
            Ok((rs, rd, off)) => Ok(spec_narrow_store(rs, rd, off, 0xff)),
            Err(e) => Err(e),
        })
    } else if instr == "nop"@ {
        Some(Ok(Seq::empty()))
    } else if instr == "unimp"@ {
        Some(Ok(seq![TargetInstrV::Fail]))
    } else if instr == "load_dynamic"@ {
        Some(match spec_rl(args) {
            Ok((rd, label)) => Ok(elide(rd, seq![TargetInstrV::LoadLabel(treg(rd), label)])),
            Err(e) => Err(e),
        })
    } else {
        None
    }
}

/// The shared head of a narrow load: compute the unaligned address, load the
/// aligned word, and shift the addressed byte lane down.
pub open spec fn spec_narrow_load_head(rd: Register, rs: Register, off: u32) -> Seq<TargetInstrV> {
    seq![
        TargetInstrV::WrapAdd(TargetReg::Tmp1, treg(rs), TargetOp::Dec(off)),
        TargetInstrV::Binary(
            BinKind::And,
            TargetReg::Addr,
            TargetOp::Reg(TargetReg::Tmp1),
            TargetOp::Hex(0xfffffffc),
        ),
        TargetInstrV::Binary(
            BinKind::And,
            TargetReg::Tmp2,
            TargetOp::Reg(TargetReg::Tmp1),
            TargetOp::Hex(0x3),
        ),
        TargetInstrV::Mload(treg(rd)),
        TargetInstrV::Binary(
            BinKind::Shr,
            treg(rd),
            TargetOp::Reg(treg(rd)),
            TargetOp::ByteShift(TargetReg::Tmp2),
        ),
    ]
}

/// A narrow store: read the aligned word, clear the addressed lane with an
/// inverted mask, merge the new value in, and store the word back.
pub open spec fn spec_narrow_store(rs: Register, rd: Register, off: u32, mask: u32) -> Seq<
    TargetInstrV,
> {
    seq![
        TargetInstrV::WrapAdd(TargetReg::Tmp1, treg(rd), TargetOp::Dec(off)),
        TargetInstrV::Binary(
            BinKind::And,
            TargetReg::Addr,
            TargetOp::Reg(TargetReg::Tmp1),
            TargetOp::Hex(0xfffffffc),
        ),
        TargetInstrV::Binary(
            BinKind::And,
            TargetReg::Tmp2,
            TargetOp::Reg(TargetReg::Tmp1),
            TargetOp::Hex(0x3),
        ),
        TargetInstrV::Mload(TargetReg::Tmp1),
        TargetInstrV::Binary(
            BinKind::Shl,
            TargetReg::Tmp3,
            TargetOp::Hex(mask),
            TargetOp::ByteShift(TargetReg::Tmp2),
        ),
        TargetInstrV::Binary(
            BinKind::Xor,
            TargetReg::Tmp3,
            TargetOp::Reg(TargetReg::Tmp3),
            TargetOp::Hex(0xffffffff),
        ),
        TargetInstrV::Binary(
            BinKind::And,
            TargetReg::Tmp1,
            TargetOp::Reg(TargetReg::Tmp1),
            TargetOp::Reg(TargetReg::Tmp3),
        ),
        TargetInstrV::Binary(
            BinKind::And,
            TargetReg::Tmp3,
            TargetOp::Reg(treg(rs)),
            TargetOp::Hex(mask),
        ),
        TargetInstrV::Binary(
            BinKind::Shl,
            TargetReg::Tmp3,
            TargetOp::Reg(TargetReg::Tmp3),
            TargetOp::ByteShift(TargetReg::Tmp2),
        ),
        TargetInstrV::Binary(
            BinKind::Or,
            TargetReg::Tmp1,
            TargetOp::Reg(TargetReg::Tmp1),
            TargetOp::Reg(TargetReg::Tmp3),
        ),
        TargetInstrV::Mstore(TargetOp::Reg(TargetReg::Tmp1)),
    ]
}

fn narrow_load_head(rd: Register, rs: Register, off: u32) -> (res: Vec<TargetInstr>)
    ensures
        target_instrs_view(res@) == spec_narrow_load_head(rd, rs, off),
{
    let mut code: Vec<TargetInstr> = Vec::new();
    code.push(TargetInstr::WrapAdd(TargetReg::Tmp1, treg_of(rs), TargetOp::Dec(off)));
    code.push(
        TargetInstr::Binary(
            BinKind::And,
            TargetReg::Addr,
            TargetOp::Reg(TargetReg::Tmp1),
            TargetOp::Hex(0xfffffffc),
        ),
    );
    code.push(
        TargetInstr::Binary(
            BinKind::And,
            TargetReg::Tmp2,
            TargetOp::Reg(TargetReg::Tmp1),
            TargetOp::Hex(0x3),
        ),
    );
    code.push(TargetInstr::Mload(treg_of(rd)));
    code.push(
        TargetInstr::Binary(
            BinKind::Shr,
            treg_of(rd),
            TargetOp::Reg(treg_of(rd)),
            TargetOp::ByteShift(TargetReg::Tmp2),
        ),
    );
    proof {
        assert(target_instrs_view(code@) =~= spec_narrow_load_head(rd, rs, off));
    }
    code
}

fn narrow_store(rs: Register, rd: Register, off: u32, mask: u32) -> (res: Vec<TargetInstr>)
    ensures
        target_instrs_view(res@) == spec_narrow_store(rs, rd, off, mask),
{
    let mut code: Vec<TargetInstr> = Vec::new();
    code.push(TargetInstr::WrapAdd(TargetReg::Tmp1, treg_of(rd), TargetOp::Dec(off)));
    code.push(
        TargetInstr::Binary(
            BinKind::And,
            TargetReg::Addr,
            TargetOp::Reg(TargetReg::Tmp1),
            TargetOp::Hex(0xfffffffc),
        ),
    );
    code.push(
        TargetInstr::Binary(
            BinKind::And,
            TargetReg::Tmp2,
            TargetOp::Reg(TargetReg::Tmp1),
            TargetOp::Hex(0x3),
        ),
    );
    code.push(TargetInstr::Mload(TargetReg::Tmp1));
    code.push(
        TargetInstr::Binary(
            BinKind::Shl,
            TargetReg::Tmp3,
            TargetOp::Hex(mask),
            TargetOp::ByteShift(TargetReg::Tmp2),
        ),
    );
    code.push(
        TargetInstr::Binary(
            BinKind::Xor,
            TargetReg::Tmp3,
            TargetOp::Reg(TargetReg::Tmp3),
            TargetOp::Hex(0xffffffff),
        ),
    );
    code.push(
        TargetInstr::Binary(
            BinKind::And,
            TargetReg::Tmp1,
            TargetOp::Reg(TargetReg::Tmp1),
            TargetOp::Reg(TargetReg::Tmp3),
        ),
    );
    code.push(
        TargetInstr::Binary(
            BinKind::And,
            TargetReg::Tmp3,
            TargetOp::Reg(treg_of(rs)),
            TargetOp::Hex(mask),
        ),
    );
    code.push(
        TargetInstr::Binary(
            BinKind::Shl,
            TargetReg::Tmp3,
            TargetOp::Reg(TargetReg::Tmp3),
            TargetOp::ByteShift(TargetReg::Tmp2),
        ),
    );
    code.push(
        TargetInstr::Binary(
            BinKind::Or,
            TargetReg::Tmp1,
            TargetOp::Reg(TargetReg::Tmp1),
            TargetOp::Reg(TargetReg::Tmp3),
        ),
    );
    code.push(TargetInstr::Mstore(TargetOp::Reg(TargetReg::Tmp1)));
    proof {
        assert(target_instrs_view(code@) =~= spec_narrow_store(rs, rd, off, mask));
    }
    code
}

fn lower_mem(instr: &str, args: &Vec<Argument>) -> (res: Option<
    Result<Vec<TargetInstr>, CompileError>,
>)
    ensures
        opt_lower_matches(res, spec_lower_mem(instr@, args_view(args@))),
{
    if str_eq(instr, "lw") {
        Some(match rro(args) {
            Ok((rd, rs, off)) => Ok(
                only_if_no_write_to_zero_vec(
                    vec2(
                        TargetInstr::WrapAdd(TargetReg::Addr, treg_of(rs), TargetOp::Dec(off)),
                        TargetInstr::Mload(treg_of(rd)),
                    ),
                    rd,
                ),
            ),
            Err(e) => Err(e),
        })
    } else if str_eq(instr, "lb") {
        Some(match rro(args) {
            Ok((rd, rs, off)) => {
                let mut code = narrow_load_head(rd, rs, off);
                code.push(TargetInstr::SignExtendByte(treg_of(rd), treg_of(rd)));
                proof {
                    assert(target_instrs_view(code@) =~= spec_narrow_load_head(rd, rs, off).push(
                        TargetInstrV::SignExtendByte(treg(rd), treg(rd)),
                    ));
                }
                Ok(only_if_no_write_to_zero_vec(code, rd))
            },
            Err(e) => Err(e),
        })
    } else if str_eq(instr, "lbu") {
        Some(match rro(args) {
            Ok((rd, rs, off)) => {
                let mut code = narrow_load_head(rd, rs, off);
                code.push(
                    TargetInstr::Binary(
                        BinKind::And,
                        treg_of(rd),
                        TargetOp::Reg(treg_of(rd)),
                        TargetOp::Hex(0xff),
                    ),
                );
                proof {
                    assert(target_instrs_view(code@) =~= spec_narrow_load_head(rd, rs, off).push(
                        TargetInstrV::Binary(
                            BinKind::And,
                            treg(rd),
                            TargetOp::Reg(treg(rd)),
                            TargetOp::Hex(0xff),
                        ),
                    ));
                }
                Ok(only_if_no_write_to_zero_vec(code, rd))
            },
            Err(e) => Err(e),
        })
    } else if str_eq(instr, "lhu") {
        Some(match rro(args) {
            Ok((rd, rs, off)) => {
                let mut code = narrow_load_head(rd, rs, off);
                code.push(
                    TargetInstr::Binary(
                        BinKind::And,
                        treg_of(rd),
                        TargetOp::Reg(treg_of(rd)),
                        TargetOp::Hex(0xffff),
                    ),
                );
                proof {
                    assert(target_instrs_view(code@) =~= spec_narrow_load_head(rd, rs, off).push(
                        TargetInstrV::Binary(
                            BinKind::And,
                            treg(rd),
                            TargetOp::Reg(treg(rd)),
                            TargetOp::Hex(0xffff),
                        ),
                    ));
                }
                Ok(only_if_no_write_to_zero_vec(code, rd))
            },
            Err(e) => Err(e),
        })
    } else if str_eq(instr, "sw") {
        Some(match rro(args) {
            Ok((r1, r2, off)) => Ok(
                vec2(
                    TargetInstr::WrapAdd(TargetReg::Addr, treg_of(r2), TargetOp::Dec(off)),
                    TargetInstr::Mstore(TargetOp::Reg(treg_of(r1))),
                ),
            ),
            Err(e) => Err(e),
        })
    } else if str_eq(instr, "sh") {
        Some(match rro(args) {
            Ok((rs, rd, off)) => Ok(narrow_store(rs, rd, off, 0xffff)),
            Err(e) => Err(e),
        })
    } else if str_eq(instr, "sb") {
        Some(match rro(args) {
            Ok((rs, rd, off)) => Ok(narrow_store(rs, rd, off, 0xff)),
            Err(e) => Err(e),
        })
    } else if str_eq(instr, "nop") {
        let code: Vec<TargetInstr> = Vec::new();
        proof {
            assert(target_instrs_view(code@) =~= Seq::<TargetInstrV>::empty());
        }
        Some(Ok(code))
    } else if str_eq(instr, "unimp") {
        Some(Ok(vec1(TargetInstr::Fail)))
    } else if str_eq(instr, "load_dynamic") {
        Some(match rl(args) {
            Ok((rd, label)) => Ok(
                only_if_no_write_to_zero(TargetInstr::LoadLabel(treg_of(rd), label), rd),
            ),
            Err(e) => Err(e),
        })
    } else {
        None
    }
}

/// The whole lowering table: what each covered mnemonic with its arguments
/// turns into, and the error every uncovered or ill-formed instruction
/// raises.
pub open spec fn spec_lower(instr: Seq<char>, args: Seq<ArgV>) -> Result<
    Seq<TargetInstrV>,
    CompileErrorV,
> {
    match spec_lower_moves(instr, args) {
        Some(res) => res,
        None => match spec_lower_arith(instr, args) {
            Some(res) => res,
            None => match spec_lower_bitwise(instr, args) {
                Some(res) => res,
                None => match spec_lower_shift(instr, args) {
                    Some(res) => res,
                    None => match spec_lower_cmp(instr, args) {
                        Some(res) => res,
                        None => match spec_lower_branch(instr, args) {
                            Some(res) => res,
                            None => match spec_lower_jump(instr, args) {
                                Some(res) => res,
                                None => match spec_lower_mem(instr, args) {
                                    Some(res) => res,
                                    None => Err(CompileErrorV::UnsupportedInstruction(instr)),
                                },
                            },
                        },
                    },
                },
            },
        },
    }
}

/// Lowers one source instruction to the structured target lines.
pub fn lower_instruction(instr: &str, args: &Vec<Argument>) -> (res: Result<
    Vec<TargetInstr>,
    CompileError,
>)
    ensures
        lower_matches(res, spec_lower(instr@, args_view(args@))),
{
    if let Some(res) = lower_moves(instr, args) {
        return res;
    }
    if let Some(res) = lower_arith(instr, args) {
        return res;
    }
    if let Some(res) = lower_bitwise(instr, args) {
        return res;
    }
    if let Some(res) = lower_shift(instr, args) {
        return res;
    }
    if let Some(res) = lower_cmp(instr, args) {
        return res;
    }
    if let Some(res) = lower_branch(instr, args) {
        return res;
    }
    if let Some(res) = lower_jump(instr, args) {
        return res;
    }
    if let Some(res) = lower_mem(instr, args) {
        return res;
    }
    Err(CompileError::UnsupportedInstruction(instr.to_owned()))
}

/// Lowers one source instruction and renders the emitted lines as text.
pub fn process_instruction(instr: &str, args: &Vec<Argument>) -> (res: Result<
    Vec<String>,
    CompileError,
>)
    ensures
        match res {
            Ok(lines) => match spec_lower(instr@, args_view(args@)) {
                Ok(sv) => lines@.len() == sv.len() && forall|i: int|
                    0 <= i < sv.len() ==> lines@[i]@ == crate::target::render_seq(sv[i]),
                Err(_) => false,
            },
            Err(e) => match spec_lower(instr@, args_view(args@)) {
                Ok(_) => false,
                Err(se) => e@ == se,
            },
        },
{
    match lower_instruction(instr, args) {
        Ok(ts) => {
            let lines = crate::target::render_instrs(&ts);
            proof {
                assert(forall|i: int|
                    0 <= i < ts@.len() ==> target_instrs_view(ts@)[i] == ts@[i]@);
            }
            Ok(lines)
        },
        Err(e) => Err(e),
    }
}

} // verus!
