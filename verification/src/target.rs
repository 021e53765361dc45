//! The target assembly dialect: a structured form of every line the lowering
//! can emit, and its verified rendering to program text.
use vstd::prelude::*;

use crate::text::dec_seq;
use crate::text::dec_seq_signed;
use crate::text::dec_u32;
use crate::text::dec_i32;
use crate::text::hex_seq;
use crate::text::hex_u32;

verus! {

use vstd::string::StringExecFns;

/// A register of the target machine: a mapped source register `x0..x31`, one
/// of the three scratch registers, or the memory address register.
#[derive(Clone, Copy, PartialEq, Eq, Structural, Debug)]
pub enum TargetReg {
    X(u8),
    Tmp1,
    Tmp2,
    Tmp3,
    Addr,
}

/// An operand of an emitted expression: a register or a constant rendered in
/// decimal, hexadecimal or signed decimal, or a byte-lane shift amount
/// (`8 * reg`).
#[derive(Clone, Copy, PartialEq, Eq, Structural, Debug)]
pub enum TargetOp {
    Reg(TargetReg),
    Dec(u32),
    Hex(u32),
    SDec(i32),
    ByteShift(TargetReg),
}

/// The argument of a branch or sign-test instruction: a small difference
/// expression over operands.
#[derive(Clone, Copy, PartialEq, Eq, Structural, Debug)]
pub enum TargetCond {
    One(TargetOp),
    Diff(TargetOp, TargetOp),
    DiffPlusOne(TargetOp, TargetOp),
    PlusOne(TargetOp),
    NegPlusOne(TargetOp),
    MinusTwoPow31PlusOne(TargetOp),
}

/// The submachine / wide operations invoked with two operands.
#[derive(Clone, Copy, PartialEq, Eq, Structural, Debug)]
pub enum BinKind {
    And,
    Or,
    Xor,
    Shl,
    Shr,
    Mul,
    Mulhu,
}

/// One line of emitted target assembly, in structured form. Labels are held
/// already escaped.
pub enum TargetInstr {
    /// `{d} <=X= {op};`
    Assign(TargetReg, TargetOp),
    /// `{d} <=X= {s} * 0x{k};`
    AssignMulHex(TargetReg, TargetReg, u32),
    /// `x10 <=X= ${ ("input", x10) };`
    Input,
    /// `x0 <=X= ${ ("print_char", x10) };` followed by a newline
    PrintChar,
    /// `{d} <== wrap({a} + {b});`
    WrapAdd(TargetReg, TargetReg, TargetOp),
    /// `{d} <== wrap_signed({a} - {b});`
    WrapSignedSub(TargetReg, TargetOp, TargetReg),
    /// `{d} <== wrap_signed(-{s} - 1);`
    WrapSignedNot(TargetReg, TargetReg),
    /// `{d} <== wrap16({s} * {k});`
    Wrap16Mul(TargetReg, TargetReg, u32),
    /// `{d} <== {kind}({a}, {b});`
    Binary(BinKind, TargetReg, TargetOp, TargetOp),
    /// `{d} <=Z= divu({a}, {b});`
    Divu(TargetReg, TargetReg, TargetReg),
    /// `{d} <== to_signed({s});`
    ToSigned(TargetReg, TargetReg),
    /// `{d} <== sign_extend_byte({s});`
    SignExtendByte(TargetReg, TargetReg),
    /// `{d} <=Y= is_equal_zero({s});`
    IsEqualZero(TargetReg, TargetReg),
    /// `{d} <=Y= is_not_equal_zero({s});`
    IsNotEqualZero(TargetReg, TargetReg),
    /// `{d} <=Y= is_positive({c});`
    IsPositive(TargetReg, TargetCond),
    /// `{d} <== is_positive({c});`
    IsPositiveInto(TargetReg, TargetCond),
    /// `{d} <== mload();`
    Mload(TargetReg),
    /// `{d} <== load_label({l});`
    LoadLabel(TargetReg, String),
    /// `mstore {op};`
    Mstore(TargetOp),
    /// `x10 <== poseidon(x10, x11);`
    Poseidon,
    /// `branch_if_zero {c}, {l};`
    BranchIfZero(TargetCond, String),
    /// `branch_if_nonzero {c}, {l};`
    BranchIfNonzero(TargetCond, String),
    /// `branch_if_positive {c}, {l};`
    BranchIfPositive(TargetCond, String),
    /// `jump {l};`
    Jump(String),
    /// `jump_dyn {r};`
    JumpDyn(TargetReg),
    /// `jump_and_link_dyn {r};`
    JumpAndLinkDyn(TargetReg),
    /// `call {l};`
    Call(String),
    /// `tail {l};`
    Tail(String),
    /// `ret;`
    Ret,
    /// `fail;`
    Fail,
}

/// The mathematical model of a [`TargetInstr`]: labels as character
/// sequences.
pub ghost enum TargetInstrV {
    Assign(TargetReg, TargetOp),
    AssignMulHex(TargetReg, TargetReg, u32),
    Input,
    PrintChar,
    WrapAdd(TargetReg, TargetReg, TargetOp),
    WrapSignedSub(TargetReg, TargetOp, TargetReg),
    WrapSignedNot(TargetReg, TargetReg),
    Wrap16Mul(TargetReg, TargetReg, u32),
    Binary(BinKind, TargetReg, TargetOp, TargetOp),
    Divu(TargetReg, TargetReg, TargetReg),
    ToSigned(TargetReg, TargetReg),
    SignExtendByte(TargetReg, TargetReg),
    IsEqualZero(TargetReg, TargetReg),
    IsNotEqualZero(TargetReg, TargetReg),
    IsPositive(TargetReg, TargetCond),
    IsPositiveInto(TargetReg, TargetCond),
    Mload(TargetReg),
    LoadLabel(TargetReg, Seq<char>),
    Mstore(TargetOp),
    Poseidon,
    BranchIfZero(TargetCond, Seq<char>),
    BranchIfNonzero(TargetCond, Seq<char>),
    BranchIfPositive(TargetCond, Seq<char>),
    Jump(Seq<char>),
    JumpDyn(TargetReg),
    JumpAndLinkDyn(TargetReg),
    Call(Seq<char>),
    Tail(Seq<char>),
    Ret,
    Fail,
}

pub open spec fn target_instr_view(t: TargetInstr) -> TargetInstrV {
    match t {
        TargetInstr::Assign(d, op) => TargetInstrV::Assign(d, op),
        TargetInstr::AssignMulHex(d, s, k) => TargetInstrV::AssignMulHex(d, s, k),
        TargetInstr::Input => TargetInstrV::Input,
        TargetInstr::PrintChar => TargetInstrV::PrintChar,
        TargetInstr::WrapAdd(d, a, b) => TargetInstrV::WrapAdd(d, a, b),
        TargetInstr::WrapSignedSub(d, a, b) => TargetInstrV::WrapSignedSub(d, a, b),
        TargetInstr::WrapSignedNot(d, s) => TargetInstrV::WrapSignedNot(d, s),
        TargetInstr::Wrap16Mul(d, s, k) => TargetInstrV::Wrap16Mul(d, s, k),
        TargetInstr::Binary(k, d, a, b) => TargetInstrV::Binary(k, d, a, b),
        TargetInstr::Divu(d, a, b) => TargetInstrV::Divu(d, a, b),
        TargetInstr::ToSigned(d, s) => TargetInstrV::ToSigned(d, s),
        TargetInstr::SignExtendByte(d, s) => TargetInstrV::SignExtendByte(d, s),
        TargetInstr::IsEqualZero(d, s) => TargetInstrV::IsEqualZero(d, s),
        TargetInstr::IsNotEqualZero(d, s) => TargetInstrV::IsNotEqualZero(d, s),
        TargetInstr::IsPositive(d, c) => TargetInstrV::IsPositive(d, c),
        TargetInstr::IsPositiveInto(d, c) => TargetInstrV::IsPositiveInto(d, c),
        TargetInstr::Mload(d) => TargetInstrV::Mload(d),
        TargetInstr::LoadLabel(d, l) => TargetInstrV::LoadLabel(d, l@),
        TargetInstr::Mstore(op) => TargetInstrV::Mstore(op),
        TargetInstr::Poseidon => TargetInstrV::Poseidon,
        TargetInstr::BranchIfZero(c, l) => TargetInstrV::BranchIfZero(c, l@),
        TargetInstr::BranchIfNonzero(c, l) => TargetInstrV::BranchIfNonzero(c, l@),
        TargetInstr::BranchIfPositive(c, l) => TargetInstrV::BranchIfPositive(c, l@),
        TargetInstr::Jump(l) => TargetInstrV::Jump(l@),
        TargetInstr::JumpDyn(r) => TargetInstrV::JumpDyn(r),
        TargetInstr::JumpAndLinkDyn(r) => TargetInstrV::JumpAndLinkDyn(r),
        TargetInstr::Call(l) => TargetInstrV::Call(l@),
        TargetInstr::Tail(l) => TargetInstrV::Tail(l@),
        TargetInstr::Ret => TargetInstrV::Ret,
        TargetInstr::Fail => TargetInstrV::Fail,
    }
}

impl View for TargetInstr {
    type V = TargetInstrV;

    open spec fn view(&self) -> TargetInstrV {
        target_instr_view(*self)
    }
}

pub open spec fn target_instrs_view(ts: Seq<TargetInstr>) -> Seq<TargetInstrV> {
    ts.map_values(|t: TargetInstr| target_instr_view(t))
}

/// The rendered name of a target register.
pub open spec fn reg_seq(r: TargetReg) -> Seq<char> {
    match r {
        TargetReg::X(n) => "x"@ + dec_seq(n as nat),
        TargetReg::Tmp1 => "tmp1"@,
        TargetReg::Tmp2 => "tmp2"@,
        TargetReg::Tmp3 => "tmp3"@,
        TargetReg::Addr => "addr"@,
    }
}

/// The rendered form of an operand.
pub open spec fn op_seq(op: TargetOp) -> Seq<char> {
    match op {
        TargetOp::Reg(r) => reg_seq(r),
        TargetOp::Dec(n) => dec_seq(n as nat),
        TargetOp::Hex(n) => "0x"@ + hex_seq(n as nat),
        TargetOp::SDec(n) => dec_seq_signed(n as int),
        TargetOp::ByteShift(r) => "8 * "@ + reg_seq(r),
    }
}

/// The rendered form of a branch condition expression.
pub open spec fn cond_seq(c: TargetCond) -> Seq<char> {
    match c {
        TargetCond::One(a) => op_seq(a),
        TargetCond::Diff(a, b) => op_seq(a) + " - "@ + op_seq(b),
        TargetCond::DiffPlusOne(a, b) => op_seq(a) + " - "@ + op_seq(b) + " + 1"@,
        TargetCond::PlusOne(a) => op_seq(a) + " + 1"@,
        TargetCond::NegPlusOne(a) => "-"@ + op_seq(a) + " + 1"@,
        TargetCond::MinusTwoPow31PlusOne(a) => op_seq(a) + " - 2**31 + 1"@,
    }
}

/// The rendered name of a two-operand machine operation.
pub open spec fn bin_kind_seq(k: BinKind) -> Seq<char> {
    match k {
        BinKind::And => "and"@,
        BinKind::Or => "or"@,
        BinKind::Xor => "xor"@,
        BinKind::Shl => "shl"@,
        BinKind::Shr => "shr"@,
        BinKind::Mul => "mul"@,
        BinKind::Mulhu => "mulhu"@,
    }
}

/// The rendered text of one target assembly line.
pub open spec fn render_seq(t: TargetInstrV) -> Seq<char> {
    match t {
        TargetInstrV::Assign(d, op) => reg_seq(d) + " <=X= "@ + op_seq(op) + ";"@,
        TargetInstrV::AssignMulHex(d, s, k) => reg_seq(d) + " <=X= "@ + reg_seq(s) + " * 0x"@
            + hex_seq(k as nat) + ";"@,
        TargetInstrV::Input => "x10 <=X= ${ (\"input\", x10) };"@,
        TargetInstrV::PrintChar => "x0 <=X= ${ (\"print_char\", x10) };\n"@,
        TargetInstrV::WrapAdd(d, a, b) => reg_seq(d) + " <== wrap("@ + reg_seq(a) + " + "@
            + op_seq(b) + ");"@,
        TargetInstrV::WrapSignedSub(d, a, b) => reg_seq(d) + " <== wrap_signed("@ + op_seq(a)
            + " - "@ + reg_seq(b) + ");"@,
        TargetInstrV::WrapSignedNot(d, s) => reg_seq(d) + " <== wrap_signed(-"@ + reg_seq(s)
            + " - 1);"@,
        TargetInstrV::Wrap16Mul(d, s, k) => reg_seq(d) + " <== wrap16("@ + reg_seq(s) + " * "@
            + dec_seq(k as nat) + ");"@,
        TargetInstrV::Binary(k, d, a, b) => reg_seq(d) + " <== "@ + bin_kind_seq(k) + "("@
            + op_seq(a) + ", "@ + op_seq(b) + ");"@,
        TargetInstrV::Divu(d, a, b) => reg_seq(d) + " <=Z= divu("@ + reg_seq(a) + ", "@
            + reg_seq(b) + ");"@,
        TargetInstrV::ToSigned(d, s) => reg_seq(d) + " <== to_signed("@ + reg_seq(s) + ");"@,
        TargetInstrV::SignExtendByte(d, s) => reg_seq(d) + " <== sign_extend_byte("@ + reg_seq(s)
            + ");"@,
        TargetInstrV::IsEqualZero(d, s) => reg_seq(d) + " <=Y= is_equal_zero("@ + reg_seq(s)
            + ");"@,
        TargetInstrV::IsNotEqualZero(d, s) => reg_seq(d) + " <=Y= is_not_equal_zero("@ + reg_seq(
            s,
        ) + ");"@,
        TargetInstrV::IsPositive(d, c) => reg_seq(d) + " <=Y= is_positive("@ + cond_seq(c)
            + ");"@,
        TargetInstrV::IsPositiveInto(d, c) => reg_seq(d) + " <== is_positive("@ + cond_seq(c)
            + ");"@,
        TargetInstrV::Mload(d) => reg_seq(d) + " <== mload();"@,
        TargetInstrV::LoadLabel(d, l) => reg_seq(d) + " <== load_label("@ + l + ");"@,
        TargetInstrV::Mstore(op) => "mstore "@ + op_seq(op) + ";"@,
        TargetInstrV::Poseidon => "x10 <== poseidon(x10, x11);"@,
        TargetInstrV::BranchIfZero(c, l) => "branch_if_zero "@ + cond_seq(c) + ", "@ + l + ";"@,
        TargetInstrV::BranchIfNonzero(c, l) => "branch_if_nonzero "@ + cond_seq(c) + ", "@ + l
            + ";"@,
        TargetInstrV::BranchIfPositive(c, l) => "branch_if_positive "@ + cond_seq(c) + ", "@ + l
            + ";"@,
        TargetInstrV::Jump(l) => "jump "@ + l + ";"@,
        TargetInstrV::JumpDyn(r) => "jump_dyn "@ + reg_seq(r) + ";"@,
        TargetInstrV::JumpAndLinkDyn(r) => "jump_and_link_dyn "@ + reg_seq(r) + ";"@,
        TargetInstrV::Call(l) => "call "@ + l + ";"@,
        TargetInstrV::Tail(l) => "tail "@ + l + ";"@,
        TargetInstrV::Ret => "ret;"@,
        TargetInstrV::Fail => "fail;"@,
    }
}

/// The rendered texts of a sequence of lines.
pub open spec fn render_all_seq(ts: Seq<TargetInstrV>) -> Seq<Seq<char>> {
    ts.map_values(|t: TargetInstrV| render_seq(t))
}

fn push_reg(s: &mut String, r: TargetReg)
    ensures
        final(s)@ == old(s)@ + reg_seq(r),
{
    match r {
        TargetReg::X(n) => {
            s.append("x");
            let d = dec_u32(n as u32);
            s.append(d.as_str());
        },
        TargetReg::Tmp1 => s.append("tmp1"),
        TargetReg::Tmp2 => s.append("tmp2"),
        TargetReg::Tmp3 => s.append("tmp3"),
        TargetReg::Addr => s.append("addr"),
    }
    proof {
        assert(s@ =~= old(s)@ + reg_seq(r));
    }
}

fn push_op(s: &mut String, op: TargetOp)
    ensures
        final(s)@ == old(s)@ + op_seq(op),
{
    match op {
        TargetOp::Reg(r) => push_reg(s, r),
        TargetOp::Dec(n) => {
            let d = dec_u32(n);
            s.append(d.as_str());
        },
        TargetOp::Hex(n) => {
            s.append("0x");
            let d = hex_u32(n);
            s.append(d.as_str());
        },
        TargetOp::SDec(n) => {
            let d = dec_i32(n);
            s.append(d.as_str());
        },
        TargetOp::ByteShift(r) => {
            s.append("8 * ");
            push_reg(s, r);
        },
    }
    proof {
        assert(s@ =~= old(s)@ + op_seq(op));
    }
}

fn push_cond(s: &mut String, c: TargetCond)
    ensures
        final(s)@ == old(s)@ + cond_seq(c),
{
    match c {
        TargetCond::One(a) => push_op(s, a),
        TargetCond::Diff(a, b) => {
            push_op(s, a);
            s.append(" - ");
            push_op(s, b);
        },
        TargetCond::DiffPlusOne(a, b) => {
            push_op(s, a);
            s.append(" - ");
            push_op(s, b);
            s.append(" + 1");
        },
        TargetCond::PlusOne(a) => {
            push_op(s, a);
            s.append(" + 1");
        },
        TargetCond::NegPlusOne(a) => {
            s.append("-");
            push_op(s, a);
            s.append(" + 1");
        },
        TargetCond::MinusTwoPow31PlusOne(a) => {
            push_op(s, a);
            s.append(" - 2**31 + 1");
        },
    }
    proof {
        assert(s@ =~= old(s)@ + cond_seq(c));
    }
}

fn push_bin_kind(s: &mut String, k: BinKind)
    ensures
        final(s)@ == old(s)@ + bin_kind_seq(k),
{
    match k {
        BinKind::And => s.append("and"),
        BinKind::Or => s.append("or"),
        BinKind::Xor => s.append("xor"),
        BinKind::Shl => s.append("shl"),
        BinKind::Shr => s.append("shr"),
        BinKind::Mul => s.append("mul"),
        BinKind::Mulhu => s.append("mulhu"),
    }
}

/// Renders one structured target line as program text.
pub fn render_instr(t: &TargetInstr) -> (r: String)
    ensures
        r@ == render_seq(t@),
{
    let mut s = String::new();
    match t {
        TargetInstr::Assign(d, op) => {
            push_reg(&mut s, *d);
            s.append(" <=X= ");
            push_op(&mut s, *op);
            s.append(";");
        },
        TargetInstr::AssignMulHex(d, src, k) => {
            push_reg(&mut s, *d);
            s.append(" <=X= ");
            push_reg(&mut s, *src);
            s.append(" * 0x");
            let h = hex_u32(*k);
            s.append(h.as_str());
            s.append(";");
        },
        TargetInstr::Input => {
            s.append("x10 <=X= ${ (\"input\", x10) };");
        },
        TargetInstr::PrintChar => {
            s.append("x0 <=X= ${ (\"print_char\", x10) };\n");
        },
        TargetInstr::WrapAdd(d, a, b) => {
            push_reg(&mut s, *d);
            s.append(" <== wrap(");
            push_reg(&mut s, *a);
            s.append(" + ");
            push_op(&mut s, *b);
            s.append(");");
        },
        TargetInstr::WrapSignedSub(d, a, b) => {
            push_reg(&mut s, *d);
            s.append(" <== wrap_signed(");
            push_op(&mut s, *a);
            s.append(" - ");
            push_reg(&mut s, *b);
            s.append(");");
        },
        TargetInstr::WrapSignedNot(d, src) => {
            push_reg(&mut s, *d);
            s.append(" <== wrap_signed(-");
            push_reg(&mut s, *src);
            s.append(" - 1);");
        },
        TargetInstr::Wrap16Mul(d, src, k) => {
            push_reg(&mut s, *d);
            s.append(" <== wrap16(");
            push_reg(&mut s, *src);
            s.append(" * ");
            let v = dec_u32(*k);
            s.append(v.as_str());
            s.append(");");
        },
        TargetInstr::Binary(k, d, a, b) => {
            push_reg(&mut s, *d);
            s.append(" <== ");
            push_bin_kind(&mut s, *k);
            s.append("(");
            push_op(&mut s, *a);
            s.append(", ");
            push_op(&mut s, *b);
            s.append(");");
        },
        TargetInstr::Divu(d, a, b) => {
            push_reg(&mut s, *d);
            s.append(" <=Z= divu(");
            push_reg(&mut s, *a);
            s.append(", ");
            push_reg(&mut s, *b);
            s.append(");");
        },
        TargetInstr::ToSigned(d, src) => {
            push_reg(&mut s, *d);
            s.append(" <== to_signed(");
            push_reg(&mut s, *src);
            s.append(");");
        },
        TargetInstr::SignExtendByte(d, src) => {
            push_reg(&mut s, *d);
            s.append(" <== sign_extend_byte(");
            push_reg(&mut s, *src);
            s.append(");");
        },
        TargetInstr::IsEqualZero(d, src) => {
            push_reg(&mut s, *d);
            s.append(" <=Y= is_equal_zero(");
            push_reg(&mut s, *src);
            s.append(");");
        },
        TargetInstr::IsNotEqualZero(d, src) => {
            push_reg(&mut s, *d);
            s.append(" <=Y= is_not_equal_zero(");
            push_reg(&mut s, *src);
            s.append(");");
        },
        TargetInstr::IsPositive(d, c) => {
            push_reg(&mut s, *d);
            s.append(" <=Y= is_positive(");
            push_cond(&mut s, *c);
            s.append(");");
        },
        TargetInstr::IsPositiveInto(d, c) => {
            push_reg(&mut s, *d);
            s.append(" <== is_positive(");
            push_cond(&mut s, *c);
            s.append(");");
        },
        TargetInstr::Mload(d) => {
            push_reg(&mut s, *d);
            s.append(" <== mload();");
        },
        TargetInstr::LoadLabel(d, l) => {
            push_reg(&mut s, *d);
            s.append(" <== load_label(");
            s.append(l.as_str());
            s.append(");");
        },
        TargetInstr::Mstore(op) => {
            s.append("mstore ");
            push_op(&mut s, *op);
            s.append(";");
        },
        TargetInstr::Poseidon => {
            s.append("x10 <== poseidon(x10, x11);");
        },
        TargetInstr::BranchIfZero(c, l) => {
            s.append("branch_if_zero ");
            push_cond(&mut s, *c);
            s.append(", ");
            s.append(l.as_str());
            s.append(";");
        },
        TargetInstr::BranchIfNonzero(c, l) => {
            s.append("branch_if_nonzero ");
            push_cond(&mut s, *c);
            s.append(", ");
            s.append(l.as_str());
            s.append(";");
        },
        TargetInstr::BranchIfPositive(c, l) => {
            s.append("branch_if_positive ");
            push_cond(&mut s, *c);
            s.append(", ");
            s.append(l.as_str());
            s.append(";");
        },
        TargetInstr::Jump(l) => {
            s.append("jump ");
            s.append(l.as_str());
            s.append(";");
        },
        TargetInstr::JumpDyn(r) => {
            s.append("jump_dyn ");
            push_reg(&mut s, *r);
            s.append(";");
        },
        TargetInstr::JumpAndLinkDyn(r) => {
            s.append("jump_and_link_dyn ");
            push_reg(&mut s, *r);
            s.append(";");
        },
        TargetInstr::Call(l) => {
            s.append("call ");
            s.append(l.as_str());
            s.append(";");
        },
        TargetInstr::Tail(l) => {
            s.append("tail ");
            s.append(l.as_str());
            s.append(";");
        },
        TargetInstr::Ret => {
            s.append("ret;");
        },
        TargetInstr::Fail => {
            s.append("fail;");
        },
    }
    proof {
        assert(s@ =~= render_seq(t@));
    }
    s
}

/// Renders a sequence of structured target lines.
pub fn render_instrs(ts: &Vec<TargetInstr>) -> (r: Vec<String>)
    ensures
        r@.len() == ts@.len(),
        forall|i: int| 0 <= i < r@.len() ==> r@[i]@ == render_seq(ts@[i]@),
{
    let mut r: Vec<String> = Vec::new();
    let mut i: usize = 0;
    while i < ts.len()
        invariant
            i <= ts.len(),
            r@.len() == i,
            forall|j: int| 0 <= j < i ==> r@[j]@ == render_seq(ts@[j]@),
        decreases ts.len() - i,
    {
        r.push(render_instr(&ts[i]));
        i += 1;
    }
    r
}

} // verus!
