//! A model of the target machine's straight-line instructions, as the
//! preamble's polynomial identities document them: registers and the
//! word-addressed memory hold integers, and each instruction either steps the
//! state or has no satisfying assignment. Values are taken as plain integers;
//! the programs the lowering emits keep them far below the field modulus.
use vstd::prelude::*;

use crate::Register;
use crate::ast::ArgV;
use crate::ast::ExprV;
use crate::lower::spec_lower;
use crate::lower::spec_lower_arith;
use crate::lower::spec_lower_bitwise;
use crate::lower::spec_lower_branch;
use crate::lower::spec_lower_cmp;
use crate::lower::spec_lower_jump;
use crate::lower::spec_lower_mem;
use crate::lower::spec_lower_moves;
use crate::lower::spec_lower_shift;
use crate::lower::treg;
use crate::target::TargetCond;
use crate::target::TargetInstrV;
use crate::target::TargetOp;
use crate::target::TargetReg;

verus! {

broadcast use vstd::string::group_string_axioms;

/// One register file and memory of the target machine.
pub ghost struct TargetState {
    pub regs: Map<TargetReg, int>,
    pub mem: Map<int, int>,
}

/// A register's value.
pub open spec fn reg_val(s: TargetState, r: TargetReg) -> int {
    s.regs[r]
}

/// A memory word; memory is zero-initialized.
pub open spec fn mem_at(s: TargetState, a: int) -> int {
    if s.mem.dom().contains(a) {
        s.mem[a]
    } else {
        0
    }
}

/// Whether a value is a 32-bit word.
pub open spec fn u32r(v: int) -> bool {
    0 <= v < 0x1_0000_0000
}

/// A well-formed state: every register key present, the 32 mapped registers
/// hold 32-bit words, register 0 holds zero, and memory holds 32-bit words.
pub open spec fn wf(s: TargetState) -> bool {
    &&& s.regs.dom().is_full()
    &&& forall|n: u8| u32r(#[trigger] s.regs[TargetReg::X(n)])
    &&& s.regs[TargetReg::X(0)] == 0
    &&& forall|a: int| s.mem.dom().contains(a) ==> u32r(#[trigger] s.mem[a])
}

/// An operand's value.
pub open spec fn op_val(s: TargetState, op: TargetOp) -> int {
    match op {
        TargetOp::Reg(r) => reg_val(s, r),
        TargetOp::Dec(n) => n as int,
        TargetOp::Hex(n) => n as int,
        TargetOp::SDec(n) => n as int,
        TargetOp::ByteShift(r) => 8 * reg_val(s, r),
    }
}

/// A branch condition expression's value.
pub open spec fn cond_val(s: TargetState, c: TargetCond) -> int {
    match c {
        TargetCond::One(a) => op_val(s, a),
        TargetCond::Diff(a, b) => op_val(s, a) - op_val(s, b),
        TargetCond::DiffPlusOne(a, b) => op_val(s, a) - op_val(s, b) + 1,
        TargetCond::PlusOne(a) => op_val(s, a) + 1,
        TargetCond::NegPlusOne(a) => -op_val(s, a) + 1,
        TargetCond::MinusTwoPow31PlusOne(a) => op_val(s, a) - 0x8000_0000 + 1,
    }
}

/// Writes one register; a write into the hard-wired register 0 is satisfiable
/// only with the value zero.
pub open spec fn write_reg(s: TargetState, d: TargetReg, v: int) -> Option<TargetState> {
    if d == TargetReg::X(0) {
        if v == 0 {
            Some(s)
        } else {
            None
        }
    } else {
        Some(TargetState { regs: s.regs.insert(d, v), mem: s.mem })
    }
}

/// A 32-bit two's-complement word reinterpreted as a signed value.
pub open spec fn to_signed_val(v: int) -> int {
    if v < 0x8000_0000 {
        v
    } else {
        v - 0x1_0000_0000
    }
}

/// Sign extension of the low byte to 32 bits.
pub open spec fn sign_extend_byte_val(v: int) -> int {
    v % 0x80 + (if (v / 0x80) % 2 == 1 {
        0xffffff80
    } else {
        0int
    })
}

/// The 32-bit bitwise operations of the binary submachine.
pub open spec fn and32(a: int, b: int) -> int {
    (((a as u32) & (b as u32))) as int
}

pub open spec fn or32(a: int, b: int) -> int {
    (((a as u32) | (b as u32))) as int
}

pub open spec fn xor32(a: int, b: int) -> int {
    (((a as u32) ^ (b as u32))) as int
}

/// The 32-bit shifts of the shift submachine (shift amounts below 32).
pub open spec fn shl32(a: int, b: int) -> int {
    (((a as u32) << (b as u32))) as int
}

pub open spec fn shr32(a: int, b: int) -> int {
    (((a as u32) >> (b as u32))) as int
}

/// The quotient the division instruction constrains: for a zero divisor the
/// fixed sentinel, as the source instruction set documents.
pub open spec fn divu_quotient(y: int, x: int) -> int {
    if x == 0 {
        0xFFFF_FFFF
    } else {
        y / x
    }
}

/// The remainder the division instruction constrains: the dividend itself for
/// a zero divisor.
pub open spec fn divu_remainder(y: int, x: int) -> int {
    if x == 0 {
        y
    } else {
        y % x
    }
}

/// The division instruction's polynomial identities, over 32-bit operands:
/// `x * q + rem = y`, the remainder a 32-bit word and below the divisor when
/// the divisor is non-zero, the quotient the sentinel when it is zero, and
/// the quotient a 32-bit word.
pub open spec fn divu_constraints(y: int, x: int, q: int, rem: int) -> bool {
    &&& x * q + rem == y
    &&& u32r(rem)
    &&& (x != 0 ==> rem < x)
    &&& (x == 0 ==> q == 0xFFFF_FFFF)
    &&& u32r(q)
}

/// The division instruction's constraints pin the quotient and remainder down
/// to exactly the documented values, for every pair of 32-bit operands.
pub proof fn lemma_divu_constraints_unique(y: int, x: int, q: int, rem: int)
    requires
        u32r(y),
        u32r(x),
    ensures
        divu_constraints(y, x, q, rem) <==> (q == divu_quotient(y, x) && rem == divu_remainder(
            y,
            x,
        )),
{
    if x == 0 {
        assert(divu_constraints(y, x, q, rem) ==> (q == divu_quotient(y, x) && rem
            == divu_remainder(y, x))) by {
            if divu_constraints(y, x, q, rem) {
                assert(x * q == 0) by (nonlinear_arith)
                    requires
                        x == 0,
                ;
            }
        }
        if q == divu_quotient(y, x) && rem == divu_remainder(y, x) {
            assert(x * q == 0) by (nonlinear_arith)
                requires
                    x == 0,
            ;
        }
    } else {
        if divu_constraints(y, x, q, rem) {
            vstd::arithmetic::div_mod::lemma_fundamental_div_mod_converse(y, x, q, rem);
        }
        if q == divu_quotient(y, x) && rem == divu_remainder(y, x) {
            vstd::arithmetic::div_mod::lemma_fundamental_div_mod(y, x);
            vstd::arithmetic::div_mod::lemma_mod_bound(y, x);
            assert(q < 0x1_0000_0000) by {
                vstd::arithmetic::div_mod::lemma_div_nonincreasing(y, x);
            }
            assert(q >= 0) by {
                vstd::arithmetic::div_mod::lemma_div_pos_is_pos(y, x);
            }
        }
    }
}

/// Division by zero: a divisor of 0 with dividend 5 yields the sentinel
/// quotient and remainder 5.
pub proof fn lemma_divu_by_zero()
    ensures
        divu_quotient(5, 0) == 0xFFFF_FFFF,
        divu_remainder(5, 0) == 5,
        divu_constraints(5, 0, 0xFFFF_FFFF, 5),
{
    lemma_divu_constraints_unique(5, 0, 0xFFFF_FFFF, 5);
}

/// One step of a straight-line instruction: `None` when the instruction's
/// identities have no satisfying assignment for the state, or when the
/// instruction is not a straight-line data operation.
pub open spec fn step(s: TargetState, t: TargetInstrV) -> Option<TargetState> {
    match t {
        TargetInstrV::Assign(d, op) => write_reg(s, d, op_val(s, op)),
        TargetInstrV::AssignMulHex(d, src, k) => write_reg(s, d, reg_val(s, src) * k),
        TargetInstrV::WrapAdd(d, a, b) => {
            let v = reg_val(s, a) + op_val(s, b);
            if 0 <= v < 0x2_0000_0000 {
                write_reg(s, d, v % 0x1_0000_0000)
            } else {
                None
            }
        },
        TargetInstrV::WrapSignedSub(d, a, b) => {
            let v = op_val(s, a) - reg_val(s, b);
            if -0x1_0000_0000 <= v < 0x1_0000_0000 {
                write_reg(s, d, v % 0x1_0000_0000)
            } else {
                None
            }
        },
        TargetInstrV::WrapSignedNot(d, src) => {
            let v = -reg_val(s, src) - 1;
            if -0x1_0000_0000 <= v < 0x1_0000_0000 {
                write_reg(s, d, v % 0x1_0000_0000)
            } else {
                None
            }
        },
        TargetInstrV::Wrap16Mul(d, src, k) => {
            let v = reg_val(s, src) * k;
            if 0 <= v < 0x1_0000_0000_0000 {
                write_reg(s, d, v % 0x1_0000_0000)
            } else {
                None
            }
        },
        TargetInstrV::Binary(kind, d, a, b) => {
            let va = op_val(s, a);
            let vb = op_val(s, b);
            if u32r(va) && u32r(vb) {
                match kind {
                    crate::target::BinKind::And => write_reg(s, d, and32(va, vb)),
                    crate::target::BinKind::Or => write_reg(s, d, or32(va, vb)),
                    crate::target::BinKind::Xor => write_reg(s, d, xor32(va, vb)),
                    crate::target::BinKind::Shl => if vb < 32 {
                        write_reg(s, d, shl32(va, vb))
                    } else {
                        None
                    },
                    crate::target::BinKind::Shr => if vb < 32 {
                        write_reg(s, d, shr32(va, vb))
                    } else {
                        None
                    },
                    crate::target::BinKind::Mul => write_reg(s, d, (va * vb) % 0x1_0000_0000),
                    crate::target::BinKind::Mulhu => write_reg(s, d, (va * vb) / 0x1_0000_0000),
                }
            } else {
                None
            }
        },
        TargetInstrV::Divu(d, a, b) => {
            let y = reg_val(s, a);
            let x = reg_val(s, b);
            if u32r(y) && u32r(x) {
                write_reg(s, d, divu_quotient(y, x))
            } else {
                None
            }
        },
        TargetInstrV::ToSigned(d, src) => {
            let v = reg_val(s, src);
            if u32r(v) {
                write_reg(s, d, to_signed_val(v))
            } else {
                None
            }
        },
        TargetInstrV::SignExtendByte(d, src) => {
            let v = reg_val(s, src);
            if u32r(v) {
                write_reg(s, d, sign_extend_byte_val(v))
            } else {
                None
            }
        },
        TargetInstrV::IsEqualZero(d, src) => write_reg(
            s,
            d,
            if reg_val(s, src) == 0 {
                1int
            } else {
                0int
            },
        ),
        TargetInstrV::IsNotEqualZero(d, src) => write_reg(
            s,
            d,
            if reg_val(s, src) == 0 {
                0int
            } else {
                1int
            },
        ),
        TargetInstrV::IsPositive(d, c) => {
            let v = cond_val(s, c);
            if -0x1_0000_0000 < v <= 0x1_0000_0000 {
                write_reg(
                    s,
                    d,
                    if v > 0 {
                        1int
                    } else {
                        0int
                    },
                )
            } else {
                None
            }
        },
        TargetInstrV::IsPositiveInto(d, c) => {
            let v = cond_val(s, c);
            if -0x1_0000_0000 < v <= 0x1_0000_0000 {
                write_reg(
                    s,
                    d,
                    if v > 0 {
                        1int
                    } else {
                        0int
                    },
                )
            } else {
                None
            }
        },
        TargetInstrV::Mload(d) => write_reg(s, d, mem_at(s, reg_val(s, TargetReg::Addr))),
        TargetInstrV::Mstore(op) => {
            let v = op_val(s, op);
            if u32r(v) {
                Some(
                    TargetState {
                        regs: s.regs,
                        mem: s.mem.insert(reg_val(s, TargetReg::Addr), v),
                    },
                )
            } else {
                None
            }
        },
        _ => None,
    }
}

/// Executes a straight-line sequence.
pub open spec fn exec_seq(s: TargetState, ts: Seq<TargetInstrV>) -> Option<TargetState>
    decreases ts.len(),
{
    if ts.len() == 0 {
        Some(s)
    } else {
        match step(s, ts[0]) {
            None => None,
            Some(s1) => exec_seq(s1, ts.drop_first()),
        }
    }
}

/// Whether a branch instruction transfers control: decided by its condition
/// expression's value.
pub open spec fn branch_taken(s: TargetState, t: TargetInstrV) -> Option<bool> {
    match t {
        TargetInstrV::BranchIfZero(c, _) => Some(cond_val(s, c) == 0),
        TargetInstrV::BranchIfNonzero(c, _) => Some(cond_val(s, c) != 0),
        TargetInstrV::BranchIfPositive(c, _) => {
            let v = cond_val(s, c);
            if -0x1_0000_0000 < v <= 0x1_0000_0000 {
                Some(v > 0)
            } else {
                None
            }
        },
        _ => None,
    }
}

/// The lowering table's dispatch for this mnemonic reaches its group.
pub proof fn lemma_dispatch_li(args: Seq<ArgV>)
    ensures
        spec_lower_moves("li"@, args) is Some,
        spec_lower("li"@, args) == spec_lower_moves("li"@, args)->Some_0,
{
    reveal_strlit("li");
    assert("li"@.len() == 2);
}

/// The lowering table's dispatch for this mnemonic reaches its group.
pub proof fn lemma_dispatch_lui(args: Seq<ArgV>)
    ensures
        spec_lower_moves("lui"@, args) is Some,
        spec_lower("lui"@, args) == spec_lower_moves("lui"@, args)->Some_0,
{
    reveal_strlit("lui");
    assert("lui"@.len() == 3);
    reveal_strlit("li");
    assert("li"@.len() == 2);
    assert("lui"@ != "li"@);
}

/// The lowering table's dispatch for this mnemonic reaches its group.
pub proof fn lemma_dispatch_la(args: Seq<ArgV>)
    ensures
        spec_lower_moves("la"@, args) is Some,
        spec_lower("la"@, args) == spec_lower_moves("la"@, args)->Some_0,
{
    reveal_strlit("la");
    assert("la"@.len() == 2);
    reveal_strlit("li");
    assert("la"@[1] != "li"@[1]);
    assert("la"@ != "li"@);
    reveal_strlit("lui");
    assert("lui"@.len() == 3);
    assert("la"@ != "lui"@);
}

/// The lowering table's dispatch for this mnemonic reaches its group.
pub proof fn lemma_dispatch_mv(args: Seq<ArgV>)
    ensures
        spec_lower_moves("mv"@, args) is Some,
        spec_lower("mv"@, args) == spec_lower_moves("mv"@, args)->Some_0,
{
    reveal_strlit("mv");
    assert("mv"@.len() == 2);
    reveal_strlit("li");
    assert("mv"@[0] != "li"@[0]);
    assert("mv"@ != "li"@);
    reveal_strlit("lui");
    assert("lui"@.len() == 3);
    assert("mv"@ != "lui"@);
    reveal_strlit("la");
    assert("mv"@[0] != "la"@[0]);
    assert("mv"@ != "la"@);
}

/// The lowering table's dispatch for this mnemonic reaches its group.
pub proof fn lemma_dispatch_add(args: Seq<ArgV>)
    ensures
        spec_lower_arith("add"@, args) is Some,
        spec_lower("add"@, args) == spec_lower_arith("add"@, args)->Some_0,
{
    reveal_strlit("add");
    assert("add"@.len() == 3);
    reveal_strlit("li");
    assert("li"@.len() == 2);
    assert("add"@ != "li"@);
    reveal_strlit("lui");
    assert("add"@[0] != "lui"@[0]);
    assert("add"@ != "lui"@);
    reveal_strlit("la");
    assert("la"@.len() == 2);
    assert("add"@ != "la"@);
    reveal_strlit("mv");
    assert("mv"@.len() == 2);
    assert("add"@ != "mv"@);
}

/// The lowering table's dispatch for this mnemonic reaches its group.
pub proof fn lemma_dispatch_addi(args: Seq<ArgV>)
    ensures
        spec_lower_arith("addi"@, args) is Some,
        spec_lower("addi"@, args) == spec_lower_arith("addi"@, args)->Some_0,
{
    reveal_strlit("addi");
    assert("addi"@.len() == 4);
    reveal_strlit("li");
    assert("li"@.len() == 2);
    assert("addi"@ != "li"@);
    reveal_strlit("lui");
    assert("lui"@.len() == 3);
    assert("addi"@ != "lui"@);
    reveal_strlit("la");
    assert("la"@.len() == 2);
    assert("addi"@ != "la"@);
    reveal_strlit("mv");
    assert("mv"@.len() == 2);
    assert("addi"@ != "mv"@);
    reveal_strlit("add");
    assert("add"@.len() == 3);
    assert("addi"@ != "add"@);
}

/// The lowering table's dispatch for this mnemonic reaches its group.
pub proof fn lemma_dispatch_sub(args: Seq<ArgV>)
    ensures
        spec_lower_arith("sub"@, args) is Some,
        spec_lower("sub"@, args) == spec_lower_arith("sub"@, args)->Some_0,
{
    reveal_strlit("sub");
    assert("sub"@.len() == 3);
    reveal_strlit("li");
    assert("li"@.len() == 2);
    assert("sub"@ != "li"@);
    reveal_strlit("lui");
    assert("sub"@[0] != "lui"@[0]);
    assert("sub"@ != "lui"@);
    reveal_strlit("la");
    assert("la"@.len() == 2);
    assert("sub"@ != "la"@);
    reveal_strlit("mv");
    assert("mv"@.len() == 2);
    assert("sub"@ != "mv"@);
    reveal_strlit("add");
    assert("sub"@[0] != "add"@[0]);
    assert("sub"@ != "add"@);
    reveal_strlit("addi");
    assert("addi"@.len() == 4);
    assert("sub"@ != "addi"@);
}

/// The lowering table's dispatch for this mnemonic reaches its group.
pub proof fn lemma_dispatch_neg(args: Seq<ArgV>)
    ensures
        spec_lower_arith("neg"@, args) is Some,
        spec_lower("neg"@, args) == spec_lower_arith("neg"@, args)->Some_0,
{
    reveal_strlit("neg");
    assert("neg"@.len() == 3);
    reveal_strlit("li");
    assert("li"@.len() == 2);
    assert("neg"@ != "li"@);
    reveal_strlit("lui");
    assert("neg"@[0] != "lui"@[0]);
    assert("neg"@ != "lui"@);
    reveal_strlit("la");
    assert("la"@.len() == 2);
    assert("neg"@ != "la"@);
    reveal_strlit("mv");
    assert("mv"@.len() == 2);
    assert("neg"@ != "mv"@);
    reveal_strlit("add");
    assert("neg"@[0] != "add"@[0]);
    assert("neg"@ != "add"@);
    reveal_strlit("addi");
    assert("addi"@.len() == 4);
    assert("neg"@ != "addi"@);
    reveal_strlit("sub");
    assert("neg"@[0] != "sub"@[0]);
    assert("neg"@ != "sub"@);
}

/// The lowering table's dispatch for this mnemonic reaches its group.
pub proof fn lemma_dispatch_mul(args: Seq<ArgV>)
    ensures
        spec_lower_arith("mul"@, args) is Some,
        spec_lower("mul"@, args) == spec_lower_arith("mul"@, args)->Some_0,
{
    reveal_strlit("mul");
    assert("mul"@.len() == 3);
    reveal_strlit("li");
    assert("li"@.len() == 2);
    assert("mul"@ != "li"@);
    reveal_strlit("lui");
    assert("mul"@[0] != "lui"@[0]);
    assert("mul"@ != "lui"@);
    reveal_strlit("la");
    assert("la"@.len() == 2);
    assert("mul"@ != "la"@);
    reveal_strlit("mv");
    assert("mv"@.len() == 2);
    assert("mul"@ != "mv"@);
    reveal_strlit("add");
    assert("mul"@[0] != "add"@[0]);
    assert("mul"@ != "add"@);
    reveal_strlit("addi");
    assert("addi"@.len() == 4);
    assert("mul"@ != "addi"@);
    reveal_strlit("sub");
    assert("mul"@[0] != "sub"@[0]);
    assert("mul"@ != "sub"@);
    reveal_strlit("neg");
    assert("mul"@[0] != "neg"@[0]);
    assert("mul"@ != "neg"@);
}

/// The lowering table's dispatch for this mnemonic reaches its group.
pub proof fn lemma_dispatch_mulhu(args: Seq<ArgV>)
    ensures
        spec_lower_arith("mulhu"@, args) is Some,
        spec_lower("mulhu"@, args) == spec_lower_arith("mulhu"@, args)->Some_0,
{
    reveal_strlit("mulhu");
    assert("mulhu"@.len() == 5);
    reveal_strlit("li");
    assert("li"@.len() == 2);
    assert("mulhu"@ != "li"@);
    reveal_strlit("lui");
    assert("lui"@.len() == 3);
    assert("mulhu"@ != "lui"@);
    reveal_strlit("la");
    assert("la"@.len() == 2);
    assert("mulhu"@ != "la"@);
    reveal_strlit("mv");
    assert("mv"@.len() == 2);
    assert("mulhu"@ != "mv"@);
    reveal_strlit("add");
    assert("add"@.len() == 3);
    assert("mulhu"@ != "add"@);
    reveal_strlit("addi");
    assert("addi"@.len() == 4);
    assert("mulhu"@ != "addi"@);
    reveal_strlit("sub");
    assert("sub"@.len() == 3);
    assert("mulhu"@ != "sub"@);
    reveal_strlit("neg");
    assert("neg"@.len() == 3);
    assert("mulhu"@ != "neg"@);
    reveal_strlit("mul");
    assert("mul"@.len() == 3);
    assert("mulhu"@ != "mul"@);
}

/// The lowering table's dispatch for this mnemonic reaches its group.
pub proof fn lemma_dispatch_divu(args: Seq<ArgV>)
    ensures
        spec_lower_arith("divu"@, args) is Some,
        spec_lower("divu"@, args) == spec_lower_arith("divu"@, args)->Some_0,
{
    reveal_strlit("divu");
    assert("divu"@.len() == 4);
    reveal_strlit("li");
    assert("li"@.len() == 2);
    assert("divu"@ != "li"@);
    reveal_strlit("lui");
    assert("lui"@.len() == 3);
    assert("divu"@ != "lui"@);
    reveal_strlit("la");
    assert("la"@.len() == 2);
    assert("divu"@ != "la"@);
    reveal_strlit("mv");
    assert("mv"@.len() == 2);
    assert("divu"@ != "mv"@);
    reveal_strlit("add");
    assert("add"@.len() == 3);
    assert("divu"@ != "add"@);
    reveal_strlit("addi");
    assert("divu"@[0] != "addi"@[0]);
    assert("divu"@ != "addi"@);
    reveal_strlit("sub");
    assert("sub"@.len() == 3);
    assert("divu"@ != "sub"@);
    reveal_strlit("neg");
    assert("neg"@.len() == 3);
    assert("divu"@ != "neg"@);
    reveal_strlit("mul");
    assert("mul"@.len() == 3);
    assert("divu"@ != "mul"@);
    reveal_strlit("mulhu");
    assert("mulhu"@.len() == 5);
    assert("divu"@ != "mulhu"@);
}

/// The lowering table's dispatch for this mnemonic reaches its group.
pub proof fn lemma_dispatch_xor(args: Seq<ArgV>)
    ensures
        spec_lower_bitwise("xor"@, args) is Some,
        spec_lower("xor"@, args) == spec_lower_bitwise("xor"@, args)->Some_0,
{
    reveal_strlit("xor");
    assert("xor"@.len() == 3);
    reveal_strlit("li");
    assert("li"@.len() == 2);
    assert("xor"@ != "li"@);
    reveal_strlit("lui");
    assert("xor"@[0] != "lui"@[0]);
    assert("xor"@ != "lui"@);
    reveal_strlit("la");
    assert("la"@.len() == 2);
    assert("xor"@ != "la"@);
    reveal_strlit("mv");
    assert("mv"@.len() == 2);
    assert("xor"@ != "mv"@);
    reveal_strlit("add");
    assert("xor"@[0] != "add"@[0]);
    assert("xor"@ != "add"@);
    reveal_strlit("addi");
    assert("addi"@.len() == 4);
    assert("xor"@ != "addi"@);
    reveal_strlit("sub");
    assert("xor"@[0] != "sub"@[0]);
    assert("xor"@ != "sub"@);
    reveal_strlit("neg");
    assert("xor"@[0] != "neg"@[0]);
    assert("xor"@ != "neg"@);
    reveal_strlit("mul");
    assert("xor"@[0] != "mul"@[0]);
    assert("xor"@ != "mul"@);
    reveal_strlit("mulhu");
    assert("mulhu"@.len() == 5);
    assert("xor"@ != "mulhu"@);
    reveal_strlit("divu");
    assert("divu"@.len() == 4);
    assert("xor"@ != "divu"@);
}

/// The lowering table's dispatch for this mnemonic reaches its group.
pub proof fn lemma_dispatch_xori(args: Seq<ArgV>)
    ensures
        spec_lower_bitwise("xori"@, args) is Some,
        spec_lower("xori"@, args) == spec_lower_bitwise("xori"@, args)->Some_0,
{
    reveal_strlit("xori");
    assert("xori"@.len() == 4);
    reveal_strlit("li");
    assert("li"@.len() == 2);
    assert("xori"@ != "li"@);
    reveal_strlit("lui");
    assert("lui"@.len() == 3);
    assert("xori"@ != "lui"@);
    reveal_strlit("la");
    assert("la"@.len() == 2);
    assert("xori"@ != "la"@);
    reveal_strlit("mv");
    assert("mv"@.len() == 2);
    assert("xori"@ != "mv"@);
    reveal_strlit("add");
    assert("add"@.len() == 3);
    assert("xori"@ != "add"@);
    reveal_strlit("addi");
    assert("xori"@[0] != "addi"@[0]);
    assert("xori"@ != "addi"@);
    reveal_strlit("sub");
    assert("sub"@.len() == 3);
    assert("xori"@ != "sub"@);
    reveal_strlit("neg");
    assert("neg"@.len() == 3);
    assert("xori"@ != "neg"@);
    reveal_strlit("mul");
    assert("mul"@.len() == 3);
    assert("xori"@ != "mul"@);
    reveal_strlit("mulhu");
    assert("mulhu"@.len() == 5);
    assert("xori"@ != "mulhu"@);
    reveal_strlit("divu");
    assert("xori"@[0] != "divu"@[0]);
    assert("xori"@ != "divu"@);
    reveal_strlit("xor");
    assert("xor"@.len() == 3);
    assert("xori"@ != "xor"@);
}

/// The lowering table's dispatch for this mnemonic reaches its group.
pub proof fn lemma_dispatch_and(args: Seq<ArgV>)
    ensures
        spec_lower_bitwise("and"@, args) is Some,
        spec_lower("and"@, args) == spec_lower_bitwise("and"@, args)->Some_0,
{
    reveal_strlit("and");
    assert("and"@.len() == 3);
    reveal_strlit("li");
    assert("li"@.len() == 2);
    assert("and"@ != "li"@);
    reveal_strlit("lui");
    assert("and"@[0] != "lui"@[0]);
    assert("and"@ != "lui"@);
    reveal_strlit("la");
    assert("la"@.len() == 2);
    assert("and"@ != "la"@);
    reveal_strlit("mv");
    assert("mv"@.len() == 2);
    assert("and"@ != "mv"@);
    reveal_strlit("add");
    assert("and"@[1] != "add"@[1]);
    assert("and"@ != "add"@);
    reveal_strlit("addi");
    assert("addi"@.len() == 4);
    assert("and"@ != "addi"@);
    reveal_strlit("sub");
    assert("and"@[0] != "sub"@[0]);
    assert("and"@ != "sub"@);
    reveal_strlit("neg");
    assert("and"@[0] != "neg"@[0]);
    assert("and"@ != "neg"@);
    reveal_strlit("mul");
    assert("and"@[0] != "mul"@[0]);
    assert("and"@ != "mul"@);
    reveal_strlit("mulhu");
    assert("mulhu"@.len() == 5);
    assert("and"@ != "mulhu"@);
    reveal_strlit("divu");
    assert("divu"@.len() == 4);
    assert("and"@ != "divu"@);
    reveal_strlit("xor");
    assert("and"@[0] != "xor"@[0]);
    assert("and"@ != "xor"@);
    reveal_strlit("xori");
    assert("xori"@.len() == 4);
    assert("and"@ != "xori"@);
}

/// The lowering table's dispatch for this mnemonic reaches its group.
pub proof fn lemma_dispatch_andi(args: Seq<ArgV>)
    ensures
        spec_lower_bitwise("andi"@, args) is Some,
        spec_lower("andi"@, args) == spec_lower_bitwise("andi"@, args)->Some_0,
{
    reveal_strlit("andi");
    assert("andi"@.len() == 4);
    reveal_strlit("li");
    assert("li"@.len() == 2);
    assert("andi"@ != "li"@);
    reveal_strlit("lui");
    assert("lui"@.len() == 3);
    assert("andi"@ != "lui"@);
    reveal_strlit("la");
    assert("la"@.len() == 2);
    assert("andi"@ != "la"@);
    reveal_strlit("mv");
    assert("mv"@.len() == 2);
    assert("andi"@ != "mv"@);
    reveal_strlit("add");
    assert("add"@.len() == 3);
    assert("andi"@ != "add"@);
    reveal_strlit("addi");
    assert("andi"@[1] != "addi"@[1]);
    assert("andi"@ != "addi"@);
    reveal_strlit("sub");
    assert("sub"@.len() == 3);
    assert("andi"@ != "sub"@);
    reveal_strlit("neg");
    assert("neg"@.len() == 3);
    assert("andi"@ != "neg"@);
    reveal_strlit("mul");
    assert("mul"@.len() == 3);
    assert("andi"@ != "mul"@);
    reveal_strlit("mulhu");
    assert("mulhu"@.len() == 5);
    assert("andi"@ != "mulhu"@);
    reveal_strlit("divu");
    assert("andi"@[0] != "divu"@[0]);
    assert("andi"@ != "divu"@);
    reveal_strlit("xor");
    assert("xor"@.len() == 3);
    assert("andi"@ != "xor"@);
    reveal_strlit("xori");
    assert("andi"@[0] != "xori"@[0]);
    assert("andi"@ != "xori"@);
    reveal_strlit("and");
    assert("and"@.len() == 3);
    assert("andi"@ != "and"@);
}

/// The lowering table's dispatch for this mnemonic reaches its group.
pub proof fn lemma_dispatch_or(args: Seq<ArgV>)
    ensures
        spec_lower_bitwise("or"@, args) is Some,
        spec_lower("or"@, args) == spec_lower_bitwise("or"@, args)->Some_0,
{
    reveal_strlit("or");
    assert("or"@.len() == 2);
    reveal_strlit("li");
    assert("or"@[0] != "li"@[0]);
    assert("or"@ != "li"@);
    reveal_strlit("lui");
    assert("lui"@.len() == 3);
    assert("or"@ != "lui"@);
    reveal_strlit("la");
    assert("or"@[0] != "la"@[0]);
    assert("or"@ != "la"@);
    reveal_strlit("mv");
    assert("or"@[0] != "mv"@[0]);
    assert("or"@ != "mv"@);
    reveal_strlit("add");
    assert("add"@.len() == 3);
    assert("or"@ != "add"@);
    reveal_strlit("addi");
    assert("addi"@.len() == 4);
    assert("or"@ != "addi"@);
    reveal_strlit("sub");
    assert("sub"@.len() == 3);
    assert("or"@ != "sub"@);
    reveal_strlit("neg");
    assert("neg"@.len() == 3);
    assert("or"@ != "neg"@);
    reveal_strlit("mul");
    assert("mul"@.len() == 3);
    assert("or"@ != "mul"@);
    reveal_strlit("mulhu");
    assert("mulhu"@.len() == 5);
    assert("or"@ != "mulhu"@);
    reveal_strlit("divu");
    assert("divu"@.len() == 4);
    assert("or"@ != "divu"@);
    reveal_strlit("xor");
    assert("xor"@.len() == 3);
    assert("or"@ != "xor"@);
    reveal_strlit("xori");
    assert("xori"@.len() == 4);
    assert("or"@ != "xori"@);
    reveal_strlit("and");
    assert("and"@.len() == 3);
    assert("or"@ != "and"@);
    reveal_strlit("andi");
    assert("andi"@.len() == 4);
    assert("or"@ != "andi"@);
}

/// The lowering table's dispatch for this mnemonic reaches its group.
pub proof fn lemma_dispatch_ori(args: Seq<ArgV>)
    ensures
        spec_lower_bitwise("ori"@, args) is Some,
        spec_lower("ori"@, args) == spec_lower_bitwise("ori"@, args)->Some_0,
{
    reveal_strlit("ori");
    assert("ori"@.len() == 3);
    reveal_strlit("li");
    assert("li"@.len() == 2);
    assert("ori"@ != "li"@);
    reveal_strlit("lui");
    assert("ori"@[0] != "lui"@[0]);
    assert("ori"@ != "lui"@);
    reveal_strlit("la");
    assert("la"@.len() == 2);
    assert("ori"@ != "la"@);
    reveal_strlit("mv");
    assert("mv"@.len() == 2);
    assert("ori"@ != "mv"@);
    reveal_strlit("add");
    assert("ori"@[0] != "add"@[0]);
    assert("ori"@ != "add"@);
    reveal_strlit("addi");
    assert("addi"@.len() == 4);
    assert("ori"@ != "addi"@);
    reveal_strlit("sub");
    assert("ori"@[0] != "sub"@[0]);
    assert("ori"@ != "sub"@);
    reveal_strlit("neg");
    assert("ori"@[0] != "neg"@[0]);
    assert("ori"@ != "neg"@);
    reveal_strlit("mul");
    assert("ori"@[0] != "mul"@[0]);
    assert("ori"@ != "mul"@);
    reveal_strlit("mulhu");
    assert("mulhu"@.len() == 5);
    assert("ori"@ != "mulhu"@);
    reveal_strlit("divu");
    assert("divu"@.len() == 4);
    assert("ori"@ != "divu"@);
    reveal_strlit("xor");
    assert("ori"@[0] != "xor"@[0]);
    assert("ori"@ != "xor"@);
    reveal_strlit("xori");
    assert("xori"@.len() == 4);
    assert("ori"@ != "xori"@);
    reveal_strlit("and");
    assert("ori"@[0] != "and"@[0]);
    assert("ori"@ != "and"@);
    reveal_strlit("andi");
    assert("andi"@.len() == 4);
    assert("ori"@ != "andi"@);
    reveal_strlit("or");
    assert("or"@.len() == 2);
    assert("ori"@ != "or"@);
}

/// The lowering table's dispatch for this mnemonic reaches its group.
pub proof fn lemma_dispatch_not(args: Seq<ArgV>)
    ensures
        spec_lower_bitwise("not"@, args) is Some,
        spec_lower("not"@, args) == spec_lower_bitwise("not"@, args)->Some_0,
{
    reveal_strlit("not");
    assert("not"@.len() == 3);
    reveal_strlit("li");
    assert("li"@.len() == 2);
    assert("not"@ != "li"@);
    reveal_strlit("lui");
    assert("not"@[0] != "lui"@[0]);
    assert("not"@ != "lui"@);
    reveal_strlit("la");
    assert("la"@.len() == 2);
    assert("not"@ != "la"@);
    reveal_strlit("mv");
    assert("mv"@.len() == 2);
    assert("not"@ != "mv"@);
    reveal_strlit("add");
    assert("not"@[0] != "add"@[0]);
    assert("not"@ != "add"@);
    reveal_strlit("addi");
    assert("addi"@.len() == 4);
    assert("not"@ != "addi"@);
    reveal_strlit("sub");
    assert("not"@[0] != "sub"@[0]);
    assert("not"@ != "sub"@);
    reveal_strlit("neg");
    assert("not"@[1] != "neg"@[1]);
    assert("not"@ != "neg"@);
    reveal_strlit("mul");
    assert("not"@[0] != "mul"@[0]);
    assert("not"@ != "mul"@);
    reveal_strlit("mulhu");
    assert("mulhu"@.len() == 5);
    assert("not"@ != "mulhu"@);
    reveal_strlit("divu");
    assert("divu"@.len() == 4);
    assert("not"@ != "divu"@);
    reveal_strlit("xor");
    assert("not"@[0] != "xor"@[0]);
    assert("not"@ != "xor"@);
    reveal_strlit("xori");
    assert("xori"@.len() == 4);
    assert("not"@ != "xori"@);
    reveal_strlit("and");
    assert("not"@[0] != "and"@[0]);
    assert("not"@ != "and"@);
    reveal_strlit("andi");
    assert("andi"@.len() == 4);
    assert("not"@ != "andi"@);
    reveal_strlit("or");
    assert("or"@.len() == 2);
    assert("not"@ != "or"@);
    reveal_strlit("ori");
    assert("not"@[0] != "ori"@[0]);
    assert("not"@ != "ori"@);
}

/// The lowering table's dispatch for this mnemonic reaches its group.
pub proof fn lemma_dispatch_slli(args: Seq<ArgV>)
    ensures
        spec_lower_shift("slli"@, args) is Some,
        spec_lower("slli"@, args) == spec_lower_shift("slli"@, args)->Some_0,
{
    reveal_strlit("slli");
    assert("slli"@.len() == 4);
    reveal_strlit("li");
    assert("li"@.len() == 2);
    assert("slli"@ != "li"@);
    reveal_strlit("lui");
    assert("lui"@.len() == 3);
    assert("slli"@ != "lui"@);
    reveal_strlit("la");
    assert("la"@.len() == 2);
    assert("slli"@ != "la"@);
    reveal_strlit("mv");
    assert("mv"@.len() == 2);
    assert("slli"@ != "mv"@);
    reveal_strlit("add");
    assert("add"@.len() == 3);
    assert("slli"@ != "add"@);
    reveal_strlit("addi");
    assert("slli"@[0] != "addi"@[0]);
    assert("slli"@ != "addi"@);
    reveal_strlit("sub");
    assert("sub"@.len() == 3);
    assert("slli"@ != "sub"@);
    reveal_strlit("neg");
    assert("neg"@.len() == 3);
    assert("slli"@ != "neg"@);
    reveal_strlit("mul");
    assert("mul"@.len() == 3);
    assert("slli"@ != "mul"@);
    reveal_strlit("mulhu");
    assert("mulhu"@.len() == 5);
    assert("slli"@ != "mulhu"@);
    reveal_strlit("divu");
    assert("slli"@[0] != "divu"@[0]);
    assert("slli"@ != "divu"@);
    reveal_strlit("xor");
    assert("xor"@.len() == 3);
    assert("slli"@ != "xor"@);
    reveal_strlit("xori");
    assert("slli"@[0] != "xori"@[0]);
    assert("slli"@ != "xori"@);
    reveal_strlit("and");
    assert("and"@.len() == 3);
    assert("slli"@ != "and"@);
    reveal_strlit("andi");
    assert("slli"@[0] != "andi"@[0]);
    assert("slli"@ != "andi"@);
    reveal_strlit("or");
    assert("or"@.len() == 2);
    assert("slli"@ != "or"@);
    reveal_strlit("ori");
    assert("ori"@.len() == 3);
    assert("slli"@ != "ori"@);
    reveal_strlit("not");
    assert("not"@.len() == 3);
    assert("slli"@ != "not"@);
}

/// The lowering table's dispatch for this mnemonic reaches its group.
pub proof fn lemma_dispatch_sll(args: Seq<ArgV>)
    ensures
        spec_lower_shift("sll"@, args) is Some,
        spec_lower("sll"@, args) == spec_lower_shift("sll"@, args)->Some_0,
{
    reveal_strlit("sll");
    assert("sll"@.len() == 3);
    reveal_strlit("li");
    assert("li"@.len() == 2);
    assert("sll"@ != "li"@);
    reveal_strlit("lui");
    assert("sll"@[0] != "lui"@[0]);
    assert("sll"@ != "lui"@);
    reveal_strlit("la");
    assert("la"@.len() == 2);
    assert("sll"@ != "la"@);
    reveal_strlit("mv");
    assert("mv"@.len() == 2);
    assert("sll"@ != "mv"@);
    reveal_strlit("add");
    assert("sll"@[0] != "add"@[0]);
    assert("sll"@ != "add"@);
    reveal_strlit("addi");
    assert("addi"@.len() == 4);
    assert("sll"@ != "addi"@);
    reveal_strlit("sub");
    assert("sll"@[1] != "sub"@[1]);
    assert("sll"@ != "sub"@);
    reveal_strlit("neg");
    assert("sll"@[0] != "neg"@[0]);
    assert("sll"@ != "neg"@);
    reveal_strlit("mul");
    assert("sll"@[0] != "mul"@[0]);
    assert("sll"@ != "mul"@);
    reveal_strlit("mulhu");
    assert("mulhu"@.len() == 5);
    assert("sll"@ != "mulhu"@);
    reveal_strlit("divu");
    assert("divu"@.len() == 4);
    assert("sll"@ != "divu"@);
    reveal_strlit("xor");
    assert("sll"@[0] != "xor"@[0]);
    assert("sll"@ != "xor"@);
    reveal_strlit("xori");
    assert("xori"@.len() == 4);
    assert("sll"@ != "xori"@);
    reveal_strlit("and");
    assert("sll"@[0] != "and"@[0]);
    assert("sll"@ != "and"@);
    reveal_strlit("andi");
    assert("andi"@.len() == 4);
    assert("sll"@ != "andi"@);
    reveal_strlit("or");
    assert("or"@.len() == 2);
    assert("sll"@ != "or"@);
    reveal_strlit("ori");
    assert("sll"@[0] != "ori"@[0]);
    assert("sll"@ != "ori"@);
    reveal_strlit("not");
    assert("sll"@[0] != "not"@[0]);
    assert("sll"@ != "not"@);
    reveal_strlit("slli");
    assert("slli"@.len() == 4);
    assert("sll"@ != "slli"@);
}

/// The lowering table's dispatch for this mnemonic reaches its group.
pub proof fn lemma_dispatch_srli(args: Seq<ArgV>)
    ensures
        spec_lower_shift("srli"@, args) is Some,
        spec_lower("srli"@, args) == spec_lower_shift("srli"@, args)->Some_0,
{
    reveal_strlit("srli");
    assert("srli"@.len() == 4);
    reveal_strlit("li");
    assert("li"@.len() == 2);
    assert("srli"@ != "li"@);
    reveal_strlit("lui");
    assert("lui"@.len() == 3);
    assert("srli"@ != "lui"@);
    reveal_strlit("la");
    assert("la"@.len() == 2);
    assert("srli"@ != "la"@);
    reveal_strlit("mv");
    assert("mv"@.len() == 2);
    assert("srli"@ != "mv"@);
    reveal_strlit("add");
    assert("add"@.len() == 3);
    assert("srli"@ != "add"@);
    reveal_strlit("addi");
    assert("srli"@[0] != "addi"@[0]);
    assert("srli"@ != "addi"@);
    reveal_strlit("sub");
    assert("sub"@.len() == 3);
    assert("srli"@ != "sub"@);
    reveal_strlit("neg");
    assert("neg"@.len() == 3);
    assert("srli"@ != "neg"@);
    reveal_strlit("mul");
    assert("mul"@.len() == 3);
    assert("srli"@ != "mul"@);
    reveal_strlit("mulhu");
    assert("mulhu"@.len() == 5);
    assert("srli"@ != "mulhu"@);
    reveal_strlit("divu");
    assert("srli"@[0] != "divu"@[0]);
    assert("srli"@ != "divu"@);
    reveal_strlit("xor");
    assert("xor"@.len() == 3);
    assert("srli"@ != "xor"@);
    reveal_strlit("xori");
    assert("srli"@[0] != "xori"@[0]);
    assert("srli"@ != "xori"@);
    reveal_strlit("and");
    assert("and"@.len() == 3);
    assert("srli"@ != "and"@);
    reveal_strlit("andi");
    assert("srli"@[0] != "andi"@[0]);
    assert("srli"@ != "andi"@);
    reveal_strlit("or");
    assert("or"@.len() == 2);
    assert("srli"@ != "or"@);
    reveal_strlit("ori");
    assert("ori"@.len() == 3);
    assert("srli"@ != "ori"@);
    reveal_strlit("not");
    assert("not"@.len() == 3);
    assert("srli"@ != "not"@);
    reveal_strlit("slli");
    assert("srli"@[1] != "slli"@[1]);
    assert("srli"@ != "slli"@);
    reveal_strlit("sll");
    assert("sll"@.len() == 3);
    assert("srli"@ != "sll"@);
}

/// The lowering table's dispatch for this mnemonic reaches its group.
pub proof fn lemma_dispatch_srl(args: Seq<ArgV>)
    ensures
        spec_lower_shift("srl"@, args) is Some,
        spec_lower("srl"@, args) == spec_lower_shift("srl"@, args)->Some_0,
{
    reveal_strlit("srl");
    assert("srl"@.len() == 3);
    reveal_strlit("li");
    assert("li"@.len() == 2);
    assert("srl"@ != "li"@);
    reveal_strlit("lui");
    assert("srl"@[0] != "lui"@[0]);
    assert("srl"@ != "lui"@);
    reveal_strlit("la");
    assert("la"@.len() == 2);
    assert("srl"@ != "la"@);
    reveal_strlit("mv");
    assert("mv"@.len() == 2);
    assert("srl"@ != "mv"@);
    reveal_strlit("add");
    assert("srl"@[0] != "add"@[0]);
    assert("srl"@ != "add"@);
    reveal_strlit("addi");
    assert("addi"@.len() == 4);
    assert("srl"@ != "addi"@);
    reveal_strlit("sub");
    assert("srl"@[1] != "sub"@[1]);
    assert("srl"@ != "sub"@);
    reveal_strlit("neg");
    assert("srl"@[0] != "neg"@[0]);
    assert("srl"@ != "neg"@);
    reveal_strlit("mul");
    assert("srl"@[0] != "mul"@[0]);
    assert("srl"@ != "mul"@);
    reveal_strlit("mulhu");
    assert("mulhu"@.len() == 5);
    assert("srl"@ != "mulhu"@);
    reveal_strlit("divu");
    assert("divu"@.len() == 4);
    assert("srl"@ != "divu"@);
    reveal_strlit("xor");
    assert("srl"@[0] != "xor"@[0]);
    assert("srl"@ != "xor"@);
    reveal_strlit("xori");
    assert("xori"@.len() == 4);
    assert("srl"@ != "xori"@);
    reveal_strlit("and");
    assert("srl"@[0] != "and"@[0]);
    assert("srl"@ != "and"@);
    reveal_strlit("andi");
    assert("andi"@.len() == 4);
    assert("srl"@ != "andi"@);
    reveal_strlit("or");
    assert("or"@.len() == 2);
    assert("srl"@ != "or"@);
    reveal_strlit("ori");
    assert("srl"@[0] != "ori"@[0]);
    assert("srl"@ != "ori"@);
    reveal_strlit("not");
    assert("srl"@[0] != "not"@[0]);
    assert("srl"@ != "not"@);
    reveal_strlit("slli");
    assert("slli"@.len() == 4);
    assert("srl"@ != "slli"@);
    reveal_strlit("sll");
    assert("srl"@[1] != "sll"@[1]);
    assert("srl"@ != "sll"@);
    reveal_strlit("srli");
    assert("srli"@.len() == 4);
    assert("srl"@ != "srli"@);
}

/// The lowering table's dispatch for this mnemonic reaches its group.
pub proof fn lemma_dispatch_srai(args: Seq<ArgV>)
    ensures
        spec_lower_shift("srai"@, args) is Some,
        spec_lower("srai"@, args) == spec_lower_shift("srai"@, args)->Some_0,
{
    reveal_strlit("srai");
    assert("srai"@.len() == 4);
    reveal_strlit("li");
    assert("li"@.len() == 2);
    assert("srai"@ != "li"@);
    reveal_strlit("lui");
    assert("lui"@.len() == 3);
    assert("srai"@ != "lui"@);
    reveal_strlit("la");
    assert("la"@.len() == 2);
    assert("srai"@ != "la"@);
    reveal_strlit("mv");
    assert("mv"@.len() == 2);
    assert("srai"@ != "mv"@);
    reveal_strlit("add");
    assert("add"@.len() == 3);
    assert("srai"@ != "add"@);
    reveal_strlit("addi");
    assert("srai"@[0] != "addi"@[0]);
    assert("srai"@ != "addi"@);
    reveal_strlit("sub");
    assert("sub"@.len() == 3);
    assert("srai"@ != "sub"@);
    reveal_strlit("neg");
    assert("neg"@.len() == 3);
    assert("srai"@ != "neg"@);
    reveal_strlit("mul");
    assert("mul"@.len() == 3);
    assert("srai"@ != "mul"@);
    reveal_strlit("mulhu");
    assert("mulhu"@.len() == 5);
    assert("srai"@ != "mulhu"@);
    reveal_strlit("divu");
    assert("srai"@[0] != "divu"@[0]);
    assert("srai"@ != "divu"@);
    reveal_strlit("xor");
    assert("xor"@.len() == 3);
    assert("srai"@ != "xor"@);
    reveal_strlit("xori");
    assert("srai"@[0] != "xori"@[0]);
    assert("srai"@ != "xori"@);
    reveal_strlit("and");
    assert("and"@.len() == 3);
    assert("srai"@ != "and"@);
    reveal_strlit("andi");
    assert("srai"@[0] != "andi"@[0]);
    assert("srai"@ != "andi"@);
    reveal_strlit("or");
    assert("or"@.len() == 2);
    assert("srai"@ != "or"@);
    reveal_strlit("ori");
    assert("ori"@.len() == 3);
    assert("srai"@ != "ori"@);
    reveal_strlit("not");
    assert("not"@.len() == 3);
    assert("srai"@ != "not"@);
    reveal_strlit("slli");
    assert("srai"@[1] != "slli"@[1]);
    assert("srai"@ != "slli"@);
    reveal_strlit("sll");
    assert("sll"@.len() == 3);
    assert("srai"@ != "sll"@);
    reveal_strlit("srli");
    assert("srai"@[2] != "srli"@[2]);
    assert("srai"@ != "srli"@);
    reveal_strlit("srl");
    assert("srl"@.len() == 3);
    assert("srai"@ != "srl"@);
}

/// The lowering table's dispatch for this mnemonic reaches its group.
pub proof fn lemma_dispatch_seqz(args: Seq<ArgV>)
    ensures
        spec_lower_cmp("seqz"@, args) is Some,
        spec_lower("seqz"@, args) == spec_lower_cmp("seqz"@, args)->Some_0,
{
    reveal_strlit("seqz");
    assert("seqz"@.len() == 4);
    reveal_strlit("li");
    assert("li"@.len() == 2);
    assert("seqz"@ != "li"@);
    reveal_strlit("lui");
    assert("lui"@.len() == 3);
    assert("seqz"@ != "lui"@);
    reveal_strlit("la");
    assert("la"@.len() == 2);
    assert("seqz"@ != "la"@);
    reveal_strlit("mv");
    assert("mv"@.len() == 2);
    assert("seqz"@ != "mv"@);
    reveal_strlit("add");
    assert("add"@.len() == 3);
    assert("seqz"@ != "add"@);
    reveal_strlit("addi");
    assert("seqz"@[0] != "addi"@[0]);
    assert("seqz"@ != "addi"@);
    reveal_strlit("sub");
    assert("sub"@.len() == 3);
    assert("seqz"@ != "sub"@);
    reveal_strlit("neg");
    assert("neg"@.len() == 3);
    assert("seqz"@ != "neg"@);
    reveal_strlit("mul");
    assert("mul"@.len() == 3);
    assert("seqz"@ != "mul"@);
    reveal_strlit("mulhu");
    assert("mulhu"@.len() == 5);
    assert("seqz"@ != "mulhu"@);
    reveal_strlit("divu");
    assert("seqz"@[0] != "divu"@[0]);
    assert("seqz"@ != "divu"@);
    reveal_strlit("xor");
    assert("xor"@.len() == 3);
    assert("seqz"@ != "xor"@);
    reveal_strlit("xori");
    assert("seqz"@[0] != "xori"@[0]);
    assert("seqz"@ != "xori"@);
    reveal_strlit("and");
    assert("and"@.len() == 3);
    assert("seqz"@ != "and"@);
    reveal_strlit("andi");
    assert("seqz"@[0] != "andi"@[0]);
    assert("seqz"@ != "andi"@);
    reveal_strlit("or");
    assert("or"@.len() == 2);
    assert("seqz"@ != "or"@);
    reveal_strlit("ori");
    assert("ori"@.len() == 3);
    assert("seqz"@ != "ori"@);
    reveal_strlit("not");
    assert("not"@.len() == 3);
    assert("seqz"@ != "not"@);
    reveal_strlit("slli");
    assert("seqz"@[1] != "slli"@[1]);
    assert("seqz"@ != "slli"@);
    reveal_strlit("sll");
    assert("sll"@.len() == 3);
    assert("seqz"@ != "sll"@);
    reveal_strlit("srli");
    assert("seqz"@[1] != "srli"@[1]);
    assert("seqz"@ != "srli"@);
    reveal_strlit("srl");
    assert("srl"@.len() == 3);
    assert("seqz"@ != "srl"@);
    reveal_strlit("srai");
    assert("seqz"@[1] != "srai"@[1]);
    assert("seqz"@ != "srai"@);
}

/// The lowering table's dispatch for this mnemonic reaches its group.
pub proof fn lemma_dispatch_snez(args: Seq<ArgV>)
    ensures
        spec_lower_cmp("snez"@, args) is Some,
        spec_lower("snez"@, args) == spec_lower_cmp("snez"@, args)->Some_0,
{
    reveal_strlit("snez");
    assert("snez"@.len() == 4);
    reveal_strlit("li");
    assert("li"@.len() == 2);
    assert("snez"@ != "li"@);
    reveal_strlit("lui");
    assert("lui"@.len() == 3);
    assert("snez"@ != "lui"@);
    reveal_strlit("la");
    assert("la"@.len() == 2);
    assert("snez"@ != "la"@);
    reveal_strlit("mv");
    assert("mv"@.len() == 2);
    assert("snez"@ != "mv"@);
    reveal_strlit("add");
    assert("add"@.len() == 3);
    assert("snez"@ != "add"@);
    reveal_strlit("addi");
    assert("snez"@[0] != "addi"@[0]);
    assert("snez"@ != "addi"@);
    reveal_strlit("sub");
    assert("sub"@.len() == 3);
    assert("snez"@ != "sub"@);
    reveal_strlit("neg");
    assert("neg"@.len() == 3);
    assert("snez"@ != "neg"@);
    reveal_strlit("mul");
    assert("mul"@.len() == 3);
    assert("snez"@ != "mul"@);
    reveal_strlit("mulhu");
    assert("mulhu"@.len() == 5);
    assert("snez"@ != "mulhu"@);
    reveal_strlit("divu");
    assert("snez"@[0] != "divu"@[0]);
    assert("snez"@ != "divu"@);
    reveal_strlit("xor");
    assert("xor"@.len() == 3);
    assert("snez"@ != "xor"@);
    reveal_strlit("xori");
    assert("snez"@[0] != "xori"@[0]);
    assert("snez"@ != "xori"@);
    reveal_strlit("and");
    assert("and"@.len() == 3);
    assert("snez"@ != "and"@);
    reveal_strlit("andi");
    assert("snez"@[0] != "andi"@[0]);
    assert("snez"@ != "andi"@);
    reveal_strlit("or");
    assert("or"@.len() == 2);
    assert("snez"@ != "or"@);
    reveal_strlit("ori");
    assert("ori"@.len() == 3);
    assert("snez"@ != "ori"@);
    reveal_strlit("not");
    assert("not"@.len() == 3);
    assert("snez"@ != "not"@);
    reveal_strlit("slli");
    assert("snez"@[1] != "slli"@[1]);
    assert("snez"@ != "slli"@);
    reveal_strlit("sll");
    assert("sll"@.len() == 3);
    assert("snez"@ != "sll"@);
    reveal_strlit("srli");
    assert("snez"@[1] != "srli"@[1]);
    assert("snez"@ != "srli"@);
    reveal_strlit("srl");
    assert("srl"@.len() == 3);
    assert("snez"@ != "srl"@);
    reveal_strlit("srai");
    assert("snez"@[1] != "srai"@[1]);
    assert("snez"@ != "srai"@);
    reveal_strlit("seqz");
    assert("snez"@[1] != "seqz"@[1]);
    assert("snez"@ != "seqz"@);
}

/// The lowering table's dispatch for this mnemonic reaches its group.
pub proof fn lemma_dispatch_slti(args: Seq<ArgV>)
    ensures
        spec_lower_cmp("slti"@, args) is Some,
        spec_lower("slti"@, args) == spec_lower_cmp("slti"@, args)->Some_0,
{
    reveal_strlit("slti");
    assert("slti"@.len() == 4);
    reveal_strlit("li");
    assert("li"@.len() == 2);
    assert("slti"@ != "li"@);
    reveal_strlit("lui");
    assert("lui"@.len() == 3);
    assert("slti"@ != "lui"@);
    reveal_strlit("la");
    assert("la"@.len() == 2);
    assert("slti"@ != "la"@);
    reveal_strlit("mv");
    assert("mv"@.len() == 2);
    assert("slti"@ != "mv"@);
    reveal_strlit("add");
    assert("add"@.len() == 3);
    assert("slti"@ != "add"@);
    reveal_strlit("addi");
    assert("slti"@[0] != "addi"@[0]);
    assert("slti"@ != "addi"@);
    reveal_strlit("sub");
    assert("sub"@.len() == 3);
    assert("slti"@ != "sub"@);
    reveal_strlit("neg");
    assert("neg"@.len() == 3);
    assert("slti"@ != "neg"@);
    reveal_strlit("mul");
    assert("mul"@.len() == 3);
    assert("slti"@ != "mul"@);
    reveal_strlit("mulhu");
    assert("mulhu"@.len() == 5);
    assert("slti"@ != "mulhu"@);
    reveal_strlit("divu");
    assert("slti"@[0] != "divu"@[0]);
    assert("slti"@ != "divu"@);
    reveal_strlit("xor");
    assert("xor"@.len() == 3);
    assert("slti"@ != "xor"@);
    reveal_strlit("xori");
    assert("slti"@[0] != "xori"@[0]);
    assert("slti"@ != "xori"@);
    reveal_strlit("and");
    assert("and"@.len() == 3);
    assert("slti"@ != "and"@);
    reveal_strlit("andi");
    assert("slti"@[0] != "andi"@[0]);
    assert("slti"@ != "andi"@);
    reveal_strlit("or");
    assert("or"@.len() == 2);
    assert("slti"@ != "or"@);
    reveal_strlit("ori");
    assert("ori"@.len() == 3);
    assert("slti"@ != "ori"@);
    reveal_strlit("not");
    assert("not"@.len() == 3);
    assert("slti"@ != "not"@);
    reveal_strlit("slli");
    assert("slti"@[2] != "slli"@[2]);
    assert("slti"@ != "slli"@);
    reveal_strlit("sll");
    assert("sll"@.len() == 3);
    assert("slti"@ != "sll"@);
    reveal_strlit("srli");
    assert("slti"@[1] != "srli"@[1]);
    assert("slti"@ != "srli"@);
    reveal_strlit("srl");
    assert("srl"@.len() == 3);
    assert("slti"@ != "srl"@);
    reveal_strlit("srai");
    assert("slti"@[1] != "srai"@[1]);
    assert("slti"@ != "srai"@);
    reveal_strlit("seqz");
    assert("slti"@[1] != "seqz"@[1]);
    assert("slti"@ != "seqz"@);
    reveal_strlit("snez");
    assert("slti"@[1] != "snez"@[1]);
    assert("slti"@ != "snez"@);
}

/// The lowering table's dispatch for this mnemonic reaches its group.
pub proof fn lemma_dispatch_slt(args: Seq<ArgV>)
    ensures
        spec_lower_cmp("slt"@, args) is Some,
        spec_lower("slt"@, args) == spec_lower_cmp("slt"@, args)->Some_0,
{
    reveal_strlit("slt");
    assert("slt"@.len() == 3);
    reveal_strlit("li");
    assert("li"@.len() == 2);
    assert("slt"@ != "li"@);
    reveal_strlit("lui");
    assert("slt"@[0] != "lui"@[0]);
    assert("slt"@ != "lui"@);
    reveal_strlit("la");
    assert("la"@.len() == 2);
    assert("slt"@ != "la"@);
    reveal_strlit("mv");
    assert("mv"@.len() == 2);
    assert("slt"@ != "mv"@);
    reveal_strlit("add");
    assert("slt"@[0] != "add"@[0]);
    assert("slt"@ != "add"@);
    reveal_strlit("addi");
    assert("addi"@.len() == 4);
    assert("slt"@ != "addi"@);
    reveal_strlit("sub");
    assert("slt"@[1] != "sub"@[1]);
    assert("slt"@ != "sub"@);
    reveal_strlit("neg");
    assert("slt"@[0] != "neg"@[0]);
    assert("slt"@ != "neg"@);
    reveal_strlit("mul");
    assert("slt"@[0] != "mul"@[0]);
    assert("slt"@ != "mul"@);
    reveal_strlit("mulhu");
    assert("mulhu"@.len() == 5);
    assert("slt"@ != "mulhu"@);
    reveal_strlit("divu");
    assert("divu"@.len() == 4);
    assert("slt"@ != "divu"@);
    reveal_strlit("xor");
    assert("slt"@[0] != "xor"@[0]);
    assert("slt"@ != "xor"@);
    reveal_strlit("xori");
    assert("xori"@.len() == 4);
    assert("slt"@ != "xori"@);
    reveal_strlit("and");
    assert("slt"@[0] != "and"@[0]);
    assert("slt"@ != "and"@);
    reveal_strlit("andi");
    assert("andi"@.len() == 4);
    assert("slt"@ != "andi"@);
    reveal_strlit("or");
    assert("or"@.len() == 2);
    assert("slt"@ != "or"@);
    reveal_strlit("ori");
    assert("slt"@[0] != "ori"@[0]);
    assert("slt"@ != "ori"@);
    reveal_strlit("not");
    assert("slt"@[0] != "not"@[0]);
    assert("slt"@ != "not"@);
    reveal_strlit("slli");
    assert("slli"@.len() == 4);
    assert("slt"@ != "slli"@);
    reveal_strlit("sll");
    assert("slt"@[2] != "sll"@[2]);
    assert("slt"@ != "sll"@);
    reveal_strlit("srli");
    assert("srli"@.len() == 4);
    assert("slt"@ != "srli"@);
    reveal_strlit("srl");
    assert("slt"@[1] != "srl"@[1]);
    assert("slt"@ != "srl"@);
    reveal_strlit("srai");
    assert("srai"@.len() == 4);
    assert("slt"@ != "srai"@);
    reveal_strlit("seqz");
    assert("seqz"@.len() == 4);
    assert("slt"@ != "seqz"@);
    reveal_strlit("snez");
    assert("snez"@.len() == 4);
    assert("slt"@ != "snez"@);
    reveal_strlit("slti");
    assert("slti"@.len() == 4);
    assert("slt"@ != "slti"@);
}

/// The lowering table's dispatch for this mnemonic reaches its group.
pub proof fn lemma_dispatch_sltiu(args: Seq<ArgV>)
    ensures
        spec_lower_cmp("sltiu"@, args) is Some,
        spec_lower("sltiu"@, args) == spec_lower_cmp("sltiu"@, args)->Some_0,
{
    reveal_strlit("sltiu");
    assert("sltiu"@.len() == 5);
    reveal_strlit("li");
    assert("li"@.len() == 2);
    assert("sltiu"@ != "li"@);
    reveal_strlit("lui");
    assert("lui"@.len() == 3);
    assert("sltiu"@ != "lui"@);
    reveal_strlit("la");
    assert("la"@.len() == 2);
    assert("sltiu"@ != "la"@);
    reveal_strlit("mv");
    assert("mv"@.len() == 2);
    assert("sltiu"@ != "mv"@);
    reveal_strlit("add");
    assert("add"@.len() == 3);
    assert("sltiu"@ != "add"@);
    reveal_strlit("addi");
    assert("addi"@.len() == 4);
    assert("sltiu"@ != "addi"@);
    reveal_strlit("sub");
    assert("sub"@.len() == 3);
    assert("sltiu"@ != "sub"@);
    reveal_strlit("neg");
    assert("neg"@.len() == 3);
    assert("sltiu"@ != "neg"@);
    reveal_strlit("mul");
    assert("mul"@.len() == 3);
    assert("sltiu"@ != "mul"@);
    reveal_strlit("mulhu");
    assert("sltiu"@[0] != "mulhu"@[0]);
    assert("sltiu"@ != "mulhu"@);
    reveal_strlit("divu");
    assert("divu"@.len() == 4);
    assert("sltiu"@ != "divu"@);
    reveal_strlit("xor");
    assert("xor"@.len() == 3);
    assert("sltiu"@ != "xor"@);
    reveal_strlit("xori");
    assert("xori"@.len() == 4);
    assert("sltiu"@ != "xori"@);
    reveal_strlit("and");
    assert("and"@.len() == 3);
    assert("sltiu"@ != "and"@);
    reveal_strlit("andi");
    assert("andi"@.len() == 4);
    assert("sltiu"@ != "andi"@);
    reveal_strlit("or");
    assert("or"@.len() == 2);
    assert("sltiu"@ != "or"@);
    reveal_strlit("ori");
    assert("ori"@.len() == 3);
    assert("sltiu"@ != "ori"@);
    reveal_strlit("not");
    assert("not"@.len() == 3);
    assert("sltiu"@ != "not"@);
    reveal_strlit("slli");
    assert("slli"@.len() == 4);
    assert("sltiu"@ != "slli"@);
    reveal_strlit("sll");
    assert("sll"@.len() == 3);
    assert("sltiu"@ != "sll"@);
    reveal_strlit("srli");
    assert("srli"@.len() == 4);
    assert("sltiu"@ != "srli"@);
    reveal_strlit("srl");
    assert("srl"@.len() == 3);
    assert("sltiu"@ != "srl"@);
    reveal_strlit("srai");
    assert("srai"@.len() == 4);
    assert("sltiu"@ != "srai"@);
    reveal_strlit("seqz");
    assert("seqz"@.len() == 4);
    assert("sltiu"@ != "seqz"@);
    reveal_strlit("snez");
    assert("snez"@.len() == 4);
    assert("sltiu"@ != "snez"@);
    reveal_strlit("slti");
    assert("slti"@.len() == 4);
    assert("sltiu"@ != "slti"@);
    reveal_strlit("slt");
    assert("slt"@.len() == 3);
    assert("sltiu"@ != "slt"@);
}

/// The lowering table's dispatch for this mnemonic reaches its group.
pub proof fn lemma_dispatch_sltu(args: Seq<ArgV>)
    ensures
        spec_lower_cmp("sltu"@, args) is Some,
        spec_lower("sltu"@, args) == spec_lower_cmp("sltu"@, args)->Some_0,
{
    reveal_strlit("sltu");
    assert("sltu"@.len() == 4);
    reveal_strlit("li");
    assert("li"@.len() == 2);
    assert("sltu"@ != "li"@);
    reveal_strlit("lui");
    assert("lui"@.len() == 3);
    assert("sltu"@ != "lui"@);
    reveal_strlit("la");
    assert("la"@.len() == 2);
    assert("sltu"@ != "la"@);
    reveal_strlit("mv");
    assert("mv"@.len() == 2);
    assert("sltu"@ != "mv"@);
    reveal_strlit("add");
    assert("add"@.len() == 3);
    assert("sltu"@ != "add"@);
    reveal_strlit("addi");
    assert("sltu"@[0] != "addi"@[0]);
    assert("sltu"@ != "addi"@);
    reveal_strlit("sub");
    assert("sub"@.len() == 3);
    assert("sltu"@ != "sub"@);
    reveal_strlit("neg");
    assert("neg"@.len() == 3);
    assert("sltu"@ != "neg"@);
    reveal_strlit("mul");
    assert("mul"@.len() == 3);
    assert("sltu"@ != "mul"@);
    reveal_strlit("mulhu");
    assert("mulhu"@.len() == 5);
    assert("sltu"@ != "mulhu"@);
    reveal_strlit("divu");
    assert("sltu"@[0] != "divu"@[0]);
    assert("sltu"@ != "divu"@);
    reveal_strlit("xor");
    assert("xor"@.len() == 3);
    assert("sltu"@ != "xor"@);
    reveal_strlit("xori");
    assert("sltu"@[0] != "xori"@[0]);
    assert("sltu"@ != "xori"@);
    reveal_strlit("and");
    assert("and"@.len() == 3);
    assert("sltu"@ != "and"@);
    reveal_strlit("andi");
    assert("sltu"@[0] != "andi"@[0]);
    assert("sltu"@ != "andi"@);
    reveal_strlit("or");
    assert("or"@.len() == 2);
    assert("sltu"@ != "or"@);
    reveal_strlit("ori");
    assert("ori"@.len() == 3);
    assert("sltu"@ != "ori"@);
    reveal_strlit("not");
    assert("not"@.len() == 3);
    assert("sltu"@ != "not"@);
    reveal_strlit("slli");
    assert("sltu"@[2] != "slli"@[2]);
    assert("sltu"@ != "slli"@);
    reveal_strlit("sll");
    assert("sll"@.len() == 3);
    assert("sltu"@ != "sll"@);
    reveal_strlit("srli");
    assert("sltu"@[1] != "srli"@[1]);
    assert("sltu"@ != "srli"@);
    reveal_strlit("srl");
    assert("srl"@.len() == 3);
    assert("sltu"@ != "srl"@);
    reveal_strlit("srai");
    assert("sltu"@[1] != "srai"@[1]);
    assert("sltu"@ != "srai"@);
    reveal_strlit("seqz");
    assert("sltu"@[1] != "seqz"@[1]);
    assert("sltu"@ != "seqz"@);
    reveal_strlit("snez");
    assert("sltu"@[1] != "snez"@[1]);
    assert("sltu"@ != "snez"@);
    reveal_strlit("slti");
    assert("sltu"@[3] != "slti"@[3]);
    assert("sltu"@ != "slti"@);
    reveal_strlit("slt");
    assert("slt"@.len() == 3);
    assert("sltu"@ != "slt"@);
    reveal_strlit("sltiu");
    assert("sltiu"@.len() == 5);
    assert("sltu"@ != "sltiu"@);
}

/// The lowering table's dispatch for this mnemonic reaches its group.
pub proof fn lemma_dispatch_sgtz(args: Seq<ArgV>)
    ensures
        spec_lower_cmp("sgtz"@, args) is Some,
        spec_lower("sgtz"@, args) == spec_lower_cmp("sgtz"@, args)->Some_0,
{
    reveal_strlit("sgtz");
    assert("sgtz"@.len() == 4);
    reveal_strlit("li");
    assert("li"@.len() == 2);
    assert("sgtz"@ != "li"@);
    reveal_strlit("lui");
    assert("lui"@.len() == 3);
    assert("sgtz"@ != "lui"@);
    reveal_strlit("la");
    assert("la"@.len() == 2);
    assert("sgtz"@ != "la"@);
    reveal_strlit("mv");
    assert("mv"@.len() == 2);
    assert("sgtz"@ != "mv"@);
    reveal_strlit("add");
    assert("add"@.len() == 3);
    assert("sgtz"@ != "add"@);
    reveal_strlit("addi");
    assert("sgtz"@[0] != "addi"@[0]);
    assert("sgtz"@ != "addi"@);
    reveal_strlit("sub");
    assert("sub"@.len() == 3);
    assert("sgtz"@ != "sub"@);
    reveal_strlit("neg");
    assert("neg"@.len() == 3);
    assert("sgtz"@ != "neg"@);
    reveal_strlit("mul");
    assert("mul"@.len() == 3);
    assert("sgtz"@ != "mul"@);
    reveal_strlit("mulhu");
    assert("mulhu"@.len() == 5);
    assert("sgtz"@ != "mulhu"@);
    reveal_strlit("divu");
    assert("sgtz"@[0] != "divu"@[0]);
    assert("sgtz"@ != "divu"@);
    reveal_strlit("xor");
    assert("xor"@.len() == 3);
    assert("sgtz"@ != "xor"@);
    reveal_strlit("xori");
    assert("sgtz"@[0] != "xori"@[0]);
    assert("sgtz"@ != "xori"@);
    reveal_strlit("and");
    assert("and"@.len() == 3);
    assert("sgtz"@ != "and"@);
    reveal_strlit("andi");
    assert("sgtz"@[0] != "andi"@[0]);
    assert("sgtz"@ != "andi"@);
    reveal_strlit("or");
    assert("or"@.len() == 2);
    assert("sgtz"@ != "or"@);
    reveal_strlit("ori");
    assert("ori"@.len() == 3);
    assert("sgtz"@ != "ori"@);
    reveal_strlit("not");
    assert("not"@.len() == 3);
    assert("sgtz"@ != "not"@);
    reveal_strlit("slli");
    assert("sgtz"@[1] != "slli"@[1]);
    assert("sgtz"@ != "slli"@);
    reveal_strlit("sll");
    assert("sll"@.len() == 3);
    assert("sgtz"@ != "sll"@);
    reveal_strlit("srli");
    assert("sgtz"@[1] != "srli"@[1]);
    assert("sgtz"@ != "srli"@);
    reveal_strlit("srl");
    assert("srl"@.len() == 3);
    assert("sgtz"@ != "srl"@);
    reveal_strlit("srai");
    assert("sgtz"@[1] != "srai"@[1]);
    assert("sgtz"@ != "srai"@);
    reveal_strlit("seqz");
    assert("sgtz"@[1] != "seqz"@[1]);
    assert("sgtz"@ != "seqz"@);
    reveal_strlit("snez");
    assert("sgtz"@[1] != "snez"@[1]);
    assert("sgtz"@ != "snez"@);
    reveal_strlit("slti");
    assert("sgtz"@[1] != "slti"@[1]);
    assert("sgtz"@ != "slti"@);
    reveal_strlit("slt");
    assert("slt"@.len() == 3);
    assert("sgtz"@ != "slt"@);
    reveal_strlit("sltiu");
    assert("sltiu"@.len() == 5);
    assert("sgtz"@ != "sltiu"@);
    reveal_strlit("sltu");
    assert("sgtz"@[1] != "sltu"@[1]);
    assert("sgtz"@ != "sltu"@);
}

/// The lowering table's dispatch for this mnemonic reaches its group.
pub proof fn lemma_dispatch_beq(args: Seq<ArgV>)
    ensures
        spec_lower_branch("beq"@, args) is Some,
        spec_lower("beq"@, args) == spec_lower_branch("beq"@, args)->Some_0,
{
    reveal_strlit("beq");
    assert("beq"@.len() == 3);
    reveal_strlit("li");
    assert("li"@.len() == 2);
    assert("beq"@ != "li"@);
    reveal_strlit("lui");
    assert("beq"@[0] != "lui"@[0]);
    assert("beq"@ != "lui"@);
    reveal_strlit("la");
    assert("la"@.len() == 2);
    assert("beq"@ != "la"@);
    reveal_strlit("mv");
    assert("mv"@.len() == 2);
    assert("beq"@ != "mv"@);
    reveal_strlit("add");
    assert("beq"@[0] != "add"@[0]);
    assert("beq"@ != "add"@);
    reveal_strlit("addi");
    assert("addi"@.len() == 4);
    assert("beq"@ != "addi"@);
    reveal_strlit("sub");
    assert("beq"@[0] != "sub"@[0]);
    assert("beq"@ != "sub"@);
    reveal_strlit("neg");
    assert("beq"@[0] != "neg"@[0]);
    assert("beq"@ != "neg"@);
    reveal_strlit("mul");
    assert("beq"@[0] != "mul"@[0]);
    assert("beq"@ != "mul"@);
    reveal_strlit("mulhu");
    assert("mulhu"@.len() == 5);
    assert("beq"@ != "mulhu"@);
    reveal_strlit("divu");
    assert("divu"@.len() == 4);
    assert("beq"@ != "divu"@);
    reveal_strlit("xor");
    assert("beq"@[0] != "xor"@[0]);
    assert("beq"@ != "xor"@);
    reveal_strlit("xori");
    assert("xori"@.len() == 4);
    assert("beq"@ != "xori"@);
    reveal_strlit("and");
    assert("beq"@[0] != "and"@[0]);
    assert("beq"@ != "and"@);
    reveal_strlit("andi");
    assert("andi"@.len() == 4);
    assert("beq"@ != "andi"@);
    reveal_strlit("or");
    assert("or"@.len() == 2);
    assert("beq"@ != "or"@);
    reveal_strlit("ori");
    assert("beq"@[0] != "ori"@[0]);
    assert("beq"@ != "ori"@);
    reveal_strlit("not");
    assert("beq"@[0] != "not"@[0]);
    assert("beq"@ != "not"@);
    reveal_strlit("slli");
    assert("slli"@.len() == 4);
    assert("beq"@ != "slli"@);
    reveal_strlit("sll");
    assert("beq"@[0] != "sll"@[0]);
    assert("beq"@ != "sll"@);
    reveal_strlit("srli");
    assert("srli"@.len() == 4);
    assert("beq"@ != "srli"@);
    reveal_strlit("srl");
    assert("beq"@[0] != "srl"@[0]);
    assert("beq"@ != "srl"@);
    reveal_strlit("srai");
    assert("srai"@.len() == 4);
    assert("beq"@ != "srai"@);
    reveal_strlit("seqz");
    assert("seqz"@.len() == 4);
    assert("beq"@ != "seqz"@);
    reveal_strlit("snez");
    assert("snez"@.len() == 4);
    assert("beq"@ != "snez"@);
    reveal_strlit("slti");
    assert("slti"@.len() == 4);
    assert("beq"@ != "slti"@);
    reveal_strlit("slt");
    assert("beq"@[0] != "slt"@[0]);
    assert("beq"@ != "slt"@);
    reveal_strlit("sltiu");
    assert("sltiu"@.len() == 5);
    assert("beq"@ != "sltiu"@);
    reveal_strlit("sltu");
    assert("sltu"@.len() == 4);
    assert("beq"@ != "sltu"@);
    reveal_strlit("sgtz");
    assert("sgtz"@.len() == 4);
    assert("beq"@ != "sgtz"@);
}

/// The lowering table's dispatch for this mnemonic reaches its group.
pub proof fn lemma_dispatch_beqz(args: Seq<ArgV>)
    ensures
        spec_lower_branch("beqz"@, args) is Some,
        spec_lower("beqz"@, args) == spec_lower_branch("beqz"@, args)->Some_0,
{
    reveal_strlit("beqz");
    assert("beqz"@.len() == 4);
    reveal_strlit("li");
    assert("li"@.len() == 2);
    assert("beqz"@ != "li"@);
    reveal_strlit("lui");
    assert("lui"@.len() == 3);
    assert("beqz"@ != "lui"@);
    reveal_strlit("la");
    assert("la"@.len() == 2);
    assert("beqz"@ != "la"@);
    reveal_strlit("mv");
    assert("mv"@.len() == 2);
    assert("beqz"@ != "mv"@);
    reveal_strlit("add");
    assert("add"@.len() == 3);
    assert("beqz"@ != "add"@);
    reveal_strlit("addi");
    assert("beqz"@[0] != "addi"@[0]);
    assert("beqz"@ != "addi"@);
    reveal_strlit("sub");
    assert("sub"@.len() == 3);
    assert("beqz"@ != "sub"@);
    reveal_strlit("neg");
    assert("neg"@.len() == 3);
    assert("beqz"@ != "neg"@);
    reveal_strlit("mul");
    assert("mul"@.len() == 3);
    assert("beqz"@ != "mul"@);
    reveal_strlit("mulhu");
    assert("mulhu"@.len() == 5);
    assert("beqz"@ != "mulhu"@);
    reveal_strlit("divu");
    assert("beqz"@[0] != "divu"@[0]);
    assert("beqz"@ != "divu"@);
    reveal_strlit("xor");
    assert("xor"@.len() == 3);
    assert("beqz"@ != "xor"@);
    reveal_strlit("xori");
    assert("beqz"@[0] != "xori"@[0]);
    assert("beqz"@ != "xori"@);
    reveal_strlit("and");
    assert("and"@.len() == 3);
    assert("beqz"@ != "and"@);
    reveal_strlit("andi");
    assert("beqz"@[0] != "andi"@[0]);
    assert("beqz"@ != "andi"@);
    reveal_strlit("or");
    assert("or"@.len() == 2);
    assert("beqz"@ != "or"@);
    reveal_strlit("ori");
    assert("ori"@.len() == 3);
    assert("beqz"@ != "ori"@);
    reveal_strlit("not");
    assert("not"@.len() == 3);
    assert("beqz"@ != "not"@);
    reveal_strlit("slli");
    assert("beqz"@[0] != "slli"@[0]);
    assert("beqz"@ != "slli"@);
    reveal_strlit("sll");
    assert("sll"@.len() == 3);
    assert("beqz"@ != "sll"@);
    reveal_strlit("srli");
    assert("beqz"@[0] != "srli"@[0]);
    assert("beqz"@ != "srli"@);
    reveal_strlit("srl");
    assert("srl"@.len() == 3);
    assert("beqz"@ != "srl"@);
    reveal_strlit("srai");
    assert("beqz"@[0] != "srai"@[0]);
    assert("beqz"@ != "srai"@);
    reveal_strlit("seqz");
    assert("beqz"@[0] != "seqz"@[0]);
    assert("beqz"@ != "seqz"@);
    reveal_strlit("snez");
    assert("beqz"@[0] != "snez"@[0]);
    assert("beqz"@ != "snez"@);
    reveal_strlit("slti");
    assert("beqz"@[0] != "slti"@[0]);
    assert("beqz"@ != "slti"@);
    reveal_strlit("slt");
    assert("slt"@.len() == 3);
    assert("beqz"@ != "slt"@);
    reveal_strlit("sltiu");
    assert("sltiu"@.len() == 5);
    assert("beqz"@ != "sltiu"@);
    reveal_strlit("sltu");
    assert("beqz"@[0] != "sltu"@[0]);
    assert("beqz"@ != "sltu"@);
    reveal_strlit("sgtz");
    assert("beqz"@[0] != "sgtz"@[0]);
    assert("beqz"@ != "sgtz"@);
    reveal_strlit("beq");
    assert("beq"@.len() == 3);
    assert("beqz"@ != "beq"@);
}

/// The lowering table's dispatch for this mnemonic reaches its group.
pub proof fn lemma_dispatch_bgeu(args: Seq<ArgV>)
    ensures
        spec_lower_branch("bgeu"@, args) is Some,
        spec_lower("bgeu"@, args) == spec_lower_branch("bgeu"@, args)->Some_0,
{
    reveal_strlit("bgeu");
    assert("bgeu"@.len() == 4);
    reveal_strlit("li");
    assert("li"@.len() == 2);
    assert("bgeu"@ != "li"@);
    reveal_strlit("lui");
    assert("lui"@.len() == 3);
    assert("bgeu"@ != "lui"@);
    reveal_strlit("la");
    assert("la"@.len() == 2);
    assert("bgeu"@ != "la"@);
    reveal_strlit("mv");
    assert("mv"@.len() == 2);
    assert("bgeu"@ != "mv"@);
    reveal_strlit("add");
    assert("add"@.len() == 3);
    assert("bgeu"@ != "add"@);
    reveal_strlit("addi");
    assert("bgeu"@[0] != "addi"@[0]);
    assert("bgeu"@ != "addi"@);
    reveal_strlit("sub");
    assert("sub"@.len() == 3);
    assert("bgeu"@ != "sub"@);
    reveal_strlit("neg");
    assert("neg"@.len() == 3);
    assert("bgeu"@ != "neg"@);
    reveal_strlit("mul");
    assert("mul"@.len() == 3);
    assert("bgeu"@ != "mul"@);
    reveal_strlit("mulhu");
    assert("mulhu"@.len() == 5);
    assert("bgeu"@ != "mulhu"@);
    reveal_strlit("divu");
    assert("bgeu"@[0] != "divu"@[0]);
    assert("bgeu"@ != "divu"@);
    reveal_strlit("xor");
    assert("xor"@.len() == 3);
    assert("bgeu"@ != "xor"@);
    reveal_strlit("xori");
    assert("bgeu"@[0] != "xori"@[0]);
    assert("bgeu"@ != "xori"@);
    reveal_strlit("and");
    assert("and"@.len() == 3);
    assert("bgeu"@ != "and"@);
    reveal_strlit("andi");
    assert("bgeu"@[0] != "andi"@[0]);
    assert("bgeu"@ != "andi"@);
    reveal_strlit("or");
    assert("or"@.len() == 2);
    assert("bgeu"@ != "or"@);
    reveal_strlit("ori");
    assert("ori"@.len() == 3);
    assert("bgeu"@ != "ori"@);
    reveal_strlit("not");
    assert("not"@.len() == 3);
    assert("bgeu"@ != "not"@);
    reveal_strlit("slli");
    assert("bgeu"@[0] != "slli"@[0]);
    assert("bgeu"@ != "slli"@);
    reveal_strlit("sll");
    assert("sll"@.len() == 3);
    assert("bgeu"@ != "sll"@);
    reveal_strlit("srli");
    assert("bgeu"@[0] != "srli"@[0]);
    assert("bgeu"@ != "srli"@);
    reveal_strlit("srl");
    assert("srl"@.len() == 3);
    assert("bgeu"@ != "srl"@);
    reveal_strlit("srai");
    assert("bgeu"@[0] != "srai"@[0]);
    assert("bgeu"@ != "srai"@);
    reveal_strlit("seqz");
    assert("bgeu"@[0] != "seqz"@[0]);
    assert("bgeu"@ != "seqz"@);
    reveal_strlit("snez");
    assert("bgeu"@[0] != "snez"@[0]);
    assert("bgeu"@ != "snez"@);
    reveal_strlit("slti");
    assert("bgeu"@[0] != "slti"@[0]);
    assert("bgeu"@ != "slti"@);
    reveal_strlit("slt");
    assert("slt"@.len() == 3);
    assert("bgeu"@ != "slt"@);
    reveal_strlit("sltiu");
    assert("sltiu"@.len() == 5);
    assert("bgeu"@ != "sltiu"@);
    reveal_strlit("sltu");
    assert("bgeu"@[0] != "sltu"@[0]);
    assert("bgeu"@ != "sltu"@);
    reveal_strlit("sgtz");
    assert("bgeu"@[0] != "sgtz"@[0]);
    assert("bgeu"@ != "sgtz"@);
    reveal_strlit("beq");
    assert("beq"@.len() == 3);
    assert("bgeu"@ != "beq"@);
    reveal_strlit("beqz");
    assert("bgeu"@[1] != "beqz"@[1]);
    assert("bgeu"@ != "beqz"@);
}

/// The lowering table's dispatch for this mnemonic reaches its group.
pub proof fn lemma_dispatch_bgez(args: Seq<ArgV>)
    ensures
        spec_lower_branch("bgez"@, args) is Some,
        spec_lower("bgez"@, args) == spec_lower_branch("bgez"@, args)->Some_0,
{
    reveal_strlit("bgez");
    assert("bgez"@.len() == 4);
    reveal_strlit("li");
    assert("li"@.len() == 2);
    assert("bgez"@ != "li"@);
    reveal_strlit("lui");
    assert("lui"@.len() == 3);
    assert("bgez"@ != "lui"@);
    reveal_strlit("la");
    assert("la"@.len() == 2);
    assert("bgez"@ != "la"@);
    reveal_strlit("mv");
    assert("mv"@.len() == 2);
    assert("bgez"@ != "mv"@);
    reveal_strlit("add");
    assert("add"@.len() == 3);
    assert("bgez"@ != "add"@);
    reveal_strlit("addi");
    assert("bgez"@[0] != "addi"@[0]);
    assert("bgez"@ != "addi"@);
    reveal_strlit("sub");
    assert("sub"@.len() == 3);
    assert("bgez"@ != "sub"@);
    reveal_strlit("neg");
    assert("neg"@.len() == 3);
    assert("bgez"@ != "neg"@);
    reveal_strlit("mul");
    assert("mul"@.len() == 3);
    assert("bgez"@ != "mul"@);
    reveal_strlit("mulhu");
    assert("mulhu"@.len() == 5);
    assert("bgez"@ != "mulhu"@);
    reveal_strlit("divu");
    assert("bgez"@[0] != "divu"@[0]);
    assert("bgez"@ != "divu"@);
    reveal_strlit("xor");
    assert("xor"@.len() == 3);
    assert("bgez"@ != "xor"@);
    reveal_strlit("xori");
    assert("bgez"@[0] != "xori"@[0]);
    assert("bgez"@ != "xori"@);
    reveal_strlit("and");
    assert("and"@.len() == 3);
    assert("bgez"@ != "and"@);
    reveal_strlit("andi");
    assert("bgez"@[0] != "andi"@[0]);
    assert("bgez"@ != "andi"@);
    reveal_strlit("or");
    assert("or"@.len() == 2);
    assert("bgez"@ != "or"@);
    reveal_strlit("ori");
    assert("ori"@.len() == 3);
    assert("bgez"@ != "ori"@);
    reveal_strlit("not");
    assert("not"@.len() == 3);
    assert("bgez"@ != "not"@);
    reveal_strlit("slli");
    assert("bgez"@[0] != "slli"@[0]);
    assert("bgez"@ != "slli"@);
    reveal_strlit("sll");
    assert("sll"@.len() == 3);
    assert("bgez"@ != "sll"@);
    reveal_strlit("srli");
    assert("bgez"@[0] != "srli"@[0]);
    assert("bgez"@ != "srli"@);
    reveal_strlit("srl");
    assert("srl"@.len() == 3);
    assert("bgez"@ != "srl"@);
    reveal_strlit("srai");
    assert("bgez"@[0] != "srai"@[0]);
    assert("bgez"@ != "srai"@);
    reveal_strlit("seqz");
    assert("bgez"@[0] != "seqz"@[0]);
    assert("bgez"@ != "seqz"@);
    reveal_strlit("snez");
    assert("bgez"@[0] != "snez"@[0]);
    assert("bgez"@ != "snez"@);
    reveal_strlit("slti");
    assert("bgez"@[0] != "slti"@[0]);
    assert("bgez"@ != "slti"@);
    reveal_strlit("slt");
    assert("slt"@.len() == 3);
    assert("bgez"@ != "slt"@);
    reveal_strlit("sltiu");
    assert("sltiu"@.len() == 5);
    assert("bgez"@ != "sltiu"@);
    reveal_strlit("sltu");
    assert("bgez"@[0] != "sltu"@[0]);
    assert("bgez"@ != "sltu"@);
    reveal_strlit("sgtz");
    assert("bgez"@[0] != "sgtz"@[0]);
    assert("bgez"@ != "sgtz"@);
    reveal_strlit("beq");
    assert("beq"@.len() == 3);
    assert("bgez"@ != "beq"@);
    reveal_strlit("beqz");
    assert("bgez"@[1] != "beqz"@[1]);
    assert("bgez"@ != "beqz"@);
    reveal_strlit("bgeu");
    assert("bgez"@[3] != "bgeu"@[3]);
    assert("bgez"@ != "bgeu"@);
}

/// The lowering table's dispatch for this mnemonic reaches its group.
pub proof fn lemma_dispatch_bltu(args: Seq<ArgV>)
    ensures
        spec_lower_branch("bltu"@, args) is Some,
        spec_lower("bltu"@, args) == spec_lower_branch("bltu"@, args)->Some_0,
{
    reveal_strlit("bltu");
    assert("bltu"@.len() == 4);
    reveal_strlit("li");
    assert("li"@.len() == 2);
    assert("bltu"@ != "li"@);
    reveal_strlit("lui");
    assert("lui"@.len() == 3);
    assert("bltu"@ != "lui"@);
    reveal_strlit("la");
    assert("la"@.len() == 2);
    assert("bltu"@ != "la"@);
    reveal_strlit("mv");
    assert("mv"@.len() == 2);
    assert("bltu"@ != "mv"@);
    reveal_strlit("add");
    assert("add"@.len() == 3);
    assert("bltu"@ != "add"@);
    reveal_strlit("addi");
    assert("bltu"@[0] != "addi"@[0]);
    assert("bltu"@ != "addi"@);
    reveal_strlit("sub");
    assert("sub"@.len() == 3);
    assert("bltu"@ != "sub"@);
    reveal_strlit("neg");
    assert("neg"@.len() == 3);
    assert("bltu"@ != "neg"@);
    reveal_strlit("mul");
    assert("mul"@.len() == 3);
    assert("bltu"@ != "mul"@);
    reveal_strlit("mulhu");
    assert("mulhu"@.len() == 5);
    assert("bltu"@ != "mulhu"@);
    reveal_strlit("divu");
    assert("bltu"@[0] != "divu"@[0]);
    assert("bltu"@ != "divu"@);
    reveal_strlit("xor");
    assert("xor"@.len() == 3);
    assert("bltu"@ != "xor"@);
    reveal_strlit("xori");
    assert("bltu"@[0] != "xori"@[0]);
    assert("bltu"@ != "xori"@);
    reveal_strlit("and");
    assert("and"@.len() == 3);
    assert("bltu"@ != "and"@);
    reveal_strlit("andi");
    assert("bltu"@[0] != "andi"@[0]);
    assert("bltu"@ != "andi"@);
    reveal_strlit("or");
    assert("or"@.len() == 2);
    assert("bltu"@ != "or"@);
    reveal_strlit("ori");
    assert("ori"@.len() == 3);
    assert("bltu"@ != "ori"@);
    reveal_strlit("not");
    assert("not"@.len() == 3);
    assert("bltu"@ != "not"@);
    reveal_strlit("slli");
    assert("bltu"@[0] != "slli"@[0]);
    assert("bltu"@ != "slli"@);
    reveal_strlit("sll");
    assert("sll"@.len() == 3);
    assert("bltu"@ != "sll"@);
    reveal_strlit("srli");
    assert("bltu"@[0] != "srli"@[0]);
    assert("bltu"@ != "srli"@);
    reveal_strlit("srl");
    assert("srl"@.len() == 3);
    assert("bltu"@ != "srl"@);
    reveal_strlit("srai");
    assert("bltu"@[0] != "srai"@[0]);
    assert("bltu"@ != "srai"@);
    reveal_strlit("seqz");
    assert("bltu"@[0] != "seqz"@[0]);
    assert("bltu"@ != "seqz"@);
    reveal_strlit("snez");
    assert("bltu"@[0] != "snez"@[0]);
    assert("bltu"@ != "snez"@);
    reveal_strlit("slti");
    assert("bltu"@[0] != "slti"@[0]);
    assert("bltu"@ != "slti"@);
    reveal_strlit("slt");
    assert("slt"@.len() == 3);
    assert("bltu"@ != "slt"@);
    reveal_strlit("sltiu");
    assert("sltiu"@.len() == 5);
    assert("bltu"@ != "sltiu"@);
    reveal_strlit("sltu");
    assert("bltu"@[0] != "sltu"@[0]);
    assert("bltu"@ != "sltu"@);
    reveal_strlit("sgtz");
    assert("bltu"@[0] != "sgtz"@[0]);
    assert("bltu"@ != "sgtz"@);
    reveal_strlit("beq");
    assert("beq"@.len() == 3);
    assert("bltu"@ != "beq"@);
    reveal_strlit("beqz");
    assert("bltu"@[1] != "beqz"@[1]);
    assert("bltu"@ != "beqz"@);
    reveal_strlit("bgeu");
    assert("bltu"@[1] != "bgeu"@[1]);
    assert("bltu"@ != "bgeu"@);
    reveal_strlit("bgez");
    assert("bltu"@[1] != "bgez"@[1]);
    assert("bltu"@ != "bgez"@);
}

/// The lowering table's dispatch for this mnemonic reaches its group.
pub proof fn lemma_dispatch_blt(args: Seq<ArgV>)
    ensures
        spec_lower_branch("blt"@, args) is Some,
        spec_lower("blt"@, args) == spec_lower_branch("blt"@, args)->Some_0,
{
    reveal_strlit("blt");
    assert("blt"@.len() == 3);
    reveal_strlit("li");
    assert("li"@.len() == 2);
    assert("blt"@ != "li"@);
    reveal_strlit("lui");
    assert("blt"@[0] != "lui"@[0]);
    assert("blt"@ != "lui"@);
    reveal_strlit("la");
    assert("la"@.len() == 2);
    assert("blt"@ != "la"@);
    reveal_strlit("mv");
    assert("mv"@.len() == 2);
    assert("blt"@ != "mv"@);
    reveal_strlit("add");
    assert("blt"@[0] != "add"@[0]);
    assert("blt"@ != "add"@);
    reveal_strlit("addi");
    assert("addi"@.len() == 4);
    assert("blt"@ != "addi"@);
    reveal_strlit("sub");
    assert("blt"@[0] != "sub"@[0]);
    assert("blt"@ != "sub"@);
    reveal_strlit("neg");
    assert("blt"@[0] != "neg"@[0]);
    assert("blt"@ != "neg"@);
    reveal_strlit("mul");
    assert("blt"@[0] != "mul"@[0]);
    assert("blt"@ != "mul"@);
    reveal_strlit("mulhu");
    assert("mulhu"@.len() == 5);
    assert("blt"@ != "mulhu"@);
    reveal_strlit("divu");
    assert("divu"@.len() == 4);
    assert("blt"@ != "divu"@);
    reveal_strlit("xor");
    assert("blt"@[0] != "xor"@[0]);
    assert("blt"@ != "xor"@);
    reveal_strlit("xori");
    assert("xori"@.len() == 4);
    assert("blt"@ != "xori"@);
    reveal_strlit("and");
    assert("blt"@[0] != "and"@[0]);
    assert("blt"@ != "and"@);
    reveal_strlit("andi");
    assert("andi"@.len() == 4);
    assert("blt"@ != "andi"@);
    reveal_strlit("or");
    assert("or"@.len() == 2);
    assert("blt"@ != "or"@);
    reveal_strlit("ori");
    assert("blt"@[0] != "ori"@[0]);
    assert("blt"@ != "ori"@);
    reveal_strlit("not");
    assert("blt"@[0] != "not"@[0]);
    assert("blt"@ != "not"@);
    reveal_strlit("slli");
    assert("slli"@.len() == 4);
    assert("blt"@ != "slli"@);
    reveal_strlit("sll");
    assert("blt"@[0] != "sll"@[0]);
    assert("blt"@ != "sll"@);
    reveal_strlit("srli");
    assert("srli"@.len() == 4);
    assert("blt"@ != "srli"@);
    reveal_strlit("srl");
    assert("blt"@[0] != "srl"@[0]);
    assert("blt"@ != "srl"@);
    reveal_strlit("srai");
    assert("srai"@.len() == 4);
    assert("blt"@ != "srai"@);
    reveal_strlit("seqz");
    assert("seqz"@.len() == 4);
    assert("blt"@ != "seqz"@);
    reveal_strlit("snez");
    assert("snez"@.len() == 4);
    assert("blt"@ != "snez"@);
    reveal_strlit("slti");
    assert("slti"@.len() == 4);
    assert("blt"@ != "slti"@);
    reveal_strlit("slt");
    assert("blt"@[0] != "slt"@[0]);
    assert("blt"@ != "slt"@);
    reveal_strlit("sltiu");
    assert("sltiu"@.len() == 5);
    assert("blt"@ != "sltiu"@);
    reveal_strlit("sltu");
    assert("sltu"@.len() == 4);
    assert("blt"@ != "sltu"@);
    reveal_strlit("sgtz");
    assert("sgtz"@.len() == 4);
    assert("blt"@ != "sgtz"@);
    reveal_strlit("beq");
    assert("blt"@[1] != "beq"@[1]);
    assert("blt"@ != "beq"@);
    reveal_strlit("beqz");
    assert("beqz"@.len() == 4);
    assert("blt"@ != "beqz"@);
    reveal_strlit("bgeu");
    assert("bgeu"@.len() == 4);
    assert("blt"@ != "bgeu"@);
    reveal_strlit("bgez");
    assert("bgez"@.len() == 4);
    assert("blt"@ != "bgez"@);
    reveal_strlit("bltu");
    assert("bltu"@.len() == 4);
    assert("blt"@ != "bltu"@);
}

/// The lowering table's dispatch for this mnemonic reaches its group.
pub proof fn lemma_dispatch_bge(args: Seq<ArgV>)
    ensures
        spec_lower_branch("bge"@, args) is Some,
        spec_lower("bge"@, args) == spec_lower_branch("bge"@, args)->Some_0,
{
    reveal_strlit("bge");
    assert("bge"@.len() == 3);
    reveal_strlit("li");
    assert("li"@.len() == 2);
    assert("bge"@ != "li"@);
    reveal_strlit("lui");
    assert("bge"@[0] != "lui"@[0]);
    assert("bge"@ != "lui"@);
    reveal_strlit("la");
    assert("la"@.len() == 2);
    assert("bge"@ != "la"@);
    reveal_strlit("mv");
    assert("mv"@.len() == 2);
    assert("bge"@ != "mv"@);
    reveal_strlit("add");
    assert("bge"@[0] != "add"@[0]);
    assert("bge"@ != "add"@);
    reveal_strlit("addi");
    assert("addi"@.len() == 4);
    assert("bge"@ != "addi"@);
    reveal_strlit("sub");
    assert("bge"@[0] != "sub"@[0]);
    assert("bge"@ != "sub"@);
    reveal_strlit("neg");
    assert("bge"@[0] != "neg"@[0]);
    assert("bge"@ != "neg"@);
    reveal_strlit("mul");
    assert("bge"@[0] != "mul"@[0]);
    assert("bge"@ != "mul"@);
    reveal_strlit("mulhu");
    assert("mulhu"@.len() == 5);
    assert("bge"@ != "mulhu"@);
    reveal_strlit("divu");
    assert("divu"@.len() == 4);
    assert("bge"@ != "divu"@);
    reveal_strlit("xor");
    assert("bge"@[0] != "xor"@[0]);
    assert("bge"@ != "xor"@);
    reveal_strlit("xori");
    assert("xori"@.len() == 4);
    assert("bge"@ != "xori"@);
    reveal_strlit("and");
    assert("bge"@[0] != "and"@[0]);
    assert("bge"@ != "and"@);
    reveal_strlit("andi");
    assert("andi"@.len() == 4);
    assert("bge"@ != "andi"@);
    reveal_strlit("or");
    assert("or"@.len() == 2);
    assert("bge"@ != "or"@);
    reveal_strlit("ori");
    assert("bge"@[0] != "ori"@[0]);
    assert("bge"@ != "ori"@);
    reveal_strlit("not");
    assert("bge"@[0] != "not"@[0]);
    assert("bge"@ != "not"@);
    reveal_strlit("slli");
    assert("slli"@.len() == 4);
    assert("bge"@ != "slli"@);
    reveal_strlit("sll");
    assert("bge"@[0] != "sll"@[0]);
    assert("bge"@ != "sll"@);
    reveal_strlit("srli");
    assert("srli"@.len() == 4);
    assert("bge"@ != "srli"@);
    reveal_strlit("srl");
    assert("bge"@[0] != "srl"@[0]);
    assert("bge"@ != "srl"@);
    reveal_strlit("srai");
    assert("srai"@.len() == 4);
    assert("bge"@ != "srai"@);
    reveal_strlit("seqz");
    assert("seqz"@.len() == 4);
    assert("bge"@ != "seqz"@);
    reveal_strlit("snez");
    assert("snez"@.len() == 4);
    assert("bge"@ != "snez"@);
    reveal_strlit("slti");
    assert("slti"@.len() == 4);
    assert("bge"@ != "slti"@);
    reveal_strlit("slt");
    assert("bge"@[0] != "slt"@[0]);
    assert("bge"@ != "slt"@);
    reveal_strlit("sltiu");
    assert("sltiu"@.len() == 5);
    assert("bge"@ != "sltiu"@);
    reveal_strlit("sltu");
    assert("sltu"@.len() == 4);
    assert("bge"@ != "sltu"@);
    reveal_strlit("sgtz");
    assert("sgtz"@.len() == 4);
    assert("bge"@ != "sgtz"@);
    reveal_strlit("beq");
    assert("bge"@[1] != "beq"@[1]);
    assert("bge"@ != "beq"@);
    reveal_strlit("beqz");
    assert("beqz"@.len() == 4);
    assert("bge"@ != "beqz"@);
    reveal_strlit("bgeu");
    assert("bgeu"@.len() == 4);
    assert("bge"@ != "bgeu"@);
    reveal_strlit("bgez");
    assert("bgez"@.len() == 4);
    assert("bge"@ != "bgez"@);
    reveal_strlit("bltu");
    assert("bltu"@.len() == 4);
    assert("bge"@ != "bltu"@);
    reveal_strlit("blt");
    assert("bge"@[1] != "blt"@[1]);
    assert("bge"@ != "blt"@);
}

/// The lowering table's dispatch for this mnemonic reaches its group.
pub proof fn lemma_dispatch_bltz(args: Seq<ArgV>)
    ensures
        spec_lower_branch("bltz"@, args) is Some,
        spec_lower("bltz"@, args) == spec_lower_branch("bltz"@, args)->Some_0,
{
    reveal_strlit("bltz");
    assert("bltz"@.len() == 4);
    reveal_strlit("li");
    assert("li"@.len() == 2);
    assert("bltz"@ != "li"@);
    reveal_strlit("lui");
    assert("lui"@.len() == 3);
    assert("bltz"@ != "lui"@);
    reveal_strlit("la");
    assert("la"@.len() == 2);
    assert("bltz"@ != "la"@);
    reveal_strlit("mv");
    assert("mv"@.len() == 2);
    assert("bltz"@ != "mv"@);
    reveal_strlit("add");
    assert("add"@.len() == 3);
    assert("bltz"@ != "add"@);
    reveal_strlit("addi");
    assert("bltz"@[0] != "addi"@[0]);
    assert("bltz"@ != "addi"@);
    reveal_strlit("sub");
    assert("sub"@.len() == 3);
    assert("bltz"@ != "sub"@);
    reveal_strlit("neg");
    assert("neg"@.len() == 3);
    assert("bltz"@ != "neg"@);
    reveal_strlit("mul");
    assert("mul"@.len() == 3);
    assert("bltz"@ != "mul"@);
    reveal_strlit("mulhu");
    assert("mulhu"@.len() == 5);
    assert("bltz"@ != "mulhu"@);
    reveal_strlit("divu");
    assert("bltz"@[0] != "divu"@[0]);
    assert("bltz"@ != "divu"@);
    reveal_strlit("xor");
    assert("xor"@.len() == 3);
    assert("bltz"@ != "xor"@);
    reveal_strlit("xori");
    assert("bltz"@[0] != "xori"@[0]);
    assert("bltz"@ != "xori"@);
    reveal_strlit("and");
    assert("and"@.len() == 3);
    assert("bltz"@ != "and"@);
    reveal_strlit("andi");
    assert("bltz"@[0] != "andi"@[0]);
    assert("bltz"@ != "andi"@);
    reveal_strlit("or");
    assert("or"@.len() == 2);
    assert("bltz"@ != "or"@);
    reveal_strlit("ori");
    assert("ori"@.len() == 3);
    assert("bltz"@ != "ori"@);
    reveal_strlit("not");
    assert("not"@.len() == 3);
    assert("bltz"@ != "not"@);
    reveal_strlit("slli");
    assert("bltz"@[0] != "slli"@[0]);
    assert("bltz"@ != "slli"@);
    reveal_strlit("sll");
    assert("sll"@.len() == 3);
    assert("bltz"@ != "sll"@);
    reveal_strlit("srli");
    assert("bltz"@[0] != "srli"@[0]);
    assert("bltz"@ != "srli"@);
    reveal_strlit("srl");
    assert("srl"@.len() == 3);
    assert("bltz"@ != "srl"@);
    reveal_strlit("srai");
    assert("bltz"@[0] != "srai"@[0]);
    assert("bltz"@ != "srai"@);
    reveal_strlit("seqz");
    assert("bltz"@[0] != "seqz"@[0]);
    assert("bltz"@ != "seqz"@);
    reveal_strlit("snez");
    assert("bltz"@[0] != "snez"@[0]);
    assert("bltz"@ != "snez"@);
    reveal_strlit("slti");
    assert("bltz"@[0] != "slti"@[0]);
    assert("bltz"@ != "slti"@);
    reveal_strlit("slt");
    assert("slt"@.len() == 3);
    assert("bltz"@ != "slt"@);
    reveal_strlit("sltiu");
    assert("sltiu"@.len() == 5);
    assert("bltz"@ != "sltiu"@);
    reveal_strlit("sltu");
    assert("bltz"@[0] != "sltu"@[0]);
    assert("bltz"@ != "sltu"@);
    reveal_strlit("sgtz");
    assert("bltz"@[0] != "sgtz"@[0]);
    assert("bltz"@ != "sgtz"@);
    reveal_strlit("beq");
    assert("beq"@.len() == 3);
    assert("bltz"@ != "beq"@);
    reveal_strlit("beqz");
    assert("bltz"@[1] != "beqz"@[1]);
    assert("bltz"@ != "beqz"@);
    reveal_strlit("bgeu");
    assert("bltz"@[1] != "bgeu"@[1]);
    assert("bltz"@ != "bgeu"@);
    reveal_strlit("bgez");
    assert("bltz"@[1] != "bgez"@[1]);
    assert("bltz"@ != "bgez"@);
    reveal_strlit("bltu");
    assert("bltz"@[3] != "bltu"@[3]);
    assert("bltz"@ != "bltu"@);
    reveal_strlit("blt");
    assert("blt"@.len() == 3);
    assert("bltz"@ != "blt"@);
    reveal_strlit("bge");
    assert("bge"@.len() == 3);
    assert("bltz"@ != "bge"@);
}

/// The lowering table's dispatch for this mnemonic reaches its group.
pub proof fn lemma_dispatch_blez(args: Seq<ArgV>)
    ensures
        spec_lower_branch("blez"@, args) is Some,
        spec_lower("blez"@, args) == spec_lower_branch("blez"@, args)->Some_0,
{
    reveal_strlit("blez");
    assert("blez"@.len() == 4);
    reveal_strlit("li");
    assert("li"@.len() == 2);
    assert("blez"@ != "li"@);
    reveal_strlit("lui");
    assert("lui"@.len() == 3);
    assert("blez"@ != "lui"@);
    reveal_strlit("la");
    assert("la"@.len() == 2);
    assert("blez"@ != "la"@);
    reveal_strlit("mv");
    assert("mv"@.len() == 2);
    assert("blez"@ != "mv"@);
    reveal_strlit("add");
    assert("add"@.len() == 3);
    assert("blez"@ != "add"@);
    reveal_strlit("addi");
    assert("blez"@[0] != "addi"@[0]);
    assert("blez"@ != "addi"@);
    reveal_strlit("sub");
    assert("sub"@.len() == 3);
    assert("blez"@ != "sub"@);
    reveal_strlit("neg");
    assert("neg"@.len() == 3);
    assert("blez"@ != "neg"@);
    reveal_strlit("mul");
    assert("mul"@.len() == 3);
    assert("blez"@ != "mul"@);
    reveal_strlit("mulhu");
    assert("mulhu"@.len() == 5);
    assert("blez"@ != "mulhu"@);
    reveal_strlit("divu");
    assert("blez"@[0] != "divu"@[0]);
    assert("blez"@ != "divu"@);
    reveal_strlit("xor");
    assert("xor"@.len() == 3);
    assert("blez"@ != "xor"@);
    reveal_strlit("xori");
    assert("blez"@[0] != "xori"@[0]);
    assert("blez"@ != "xori"@);
    reveal_strlit("and");
    assert("and"@.len() == 3);
    assert("blez"@ != "and"@);
    reveal_strlit("andi");
    assert("blez"@[0] != "andi"@[0]);
    assert("blez"@ != "andi"@);
    reveal_strlit("or");
    assert("or"@.len() == 2);
    assert("blez"@ != "or"@);
    reveal_strlit("ori");
    assert("ori"@.len() == 3);
    assert("blez"@ != "ori"@);
    reveal_strlit("not");
    assert("not"@.len() == 3);
    assert("blez"@ != "not"@);
    reveal_strlit("slli");
    assert("blez"@[0] != "slli"@[0]);
    assert("blez"@ != "slli"@);
    reveal_strlit("sll");
    assert("sll"@.len() == 3);
    assert("blez"@ != "sll"@);
    reveal_strlit("srli");
    assert("blez"@[0] != "srli"@[0]);
    assert("blez"@ != "srli"@);
    reveal_strlit("srl");
    assert("srl"@.len() == 3);
    assert("blez"@ != "srl"@);
    reveal_strlit("srai");
    assert("blez"@[0] != "srai"@[0]);
    assert("blez"@ != "srai"@);
    reveal_strlit("seqz");
    assert("blez"@[0] != "seqz"@[0]);
    assert("blez"@ != "seqz"@);
    reveal_strlit("snez");
    assert("blez"@[0] != "snez"@[0]);
    assert("blez"@ != "snez"@);
    reveal_strlit("slti");
    assert("blez"@[0] != "slti"@[0]);
    assert("blez"@ != "slti"@);
    reveal_strlit("slt");
    assert("slt"@.len() == 3);
    assert("blez"@ != "slt"@);
    reveal_strlit("sltiu");
    assert("sltiu"@.len() == 5);
    assert("blez"@ != "sltiu"@);
    reveal_strlit("sltu");
    assert("blez"@[0] != "sltu"@[0]);
    assert("blez"@ != "sltu"@);
    reveal_strlit("sgtz");
    assert("blez"@[0] != "sgtz"@[0]);
    assert("blez"@ != "sgtz"@);
    reveal_strlit("beq");
    assert("beq"@.len() == 3);
    assert("blez"@ != "beq"@);
    reveal_strlit("beqz");
    assert("blez"@[1] != "beqz"@[1]);
    assert("blez"@ != "beqz"@);
    reveal_strlit("bgeu");
    assert("blez"@[1] != "bgeu"@[1]);
    assert("blez"@ != "bgeu"@);
    reveal_strlit("bgez");
    assert("blez"@[1] != "bgez"@[1]);
    assert("blez"@ != "bgez"@);
    reveal_strlit("bltu");
    assert("blez"@[2] != "bltu"@[2]);
    assert("blez"@ != "bltu"@);
    reveal_strlit("blt");
    assert("blt"@.len() == 3);
    assert("blez"@ != "blt"@);
    reveal_strlit("bge");
    assert("bge"@.len() == 3);
    assert("blez"@ != "bge"@);
    reveal_strlit("bltz");
    assert("blez"@[2] != "bltz"@[2]);
    assert("blez"@ != "bltz"@);
}

/// The lowering table's dispatch for this mnemonic reaches its group.
pub proof fn lemma_dispatch_bgtz(args: Seq<ArgV>)
    ensures
        spec_lower_branch("bgtz"@, args) is Some,
        spec_lower("bgtz"@, args) == spec_lower_branch("bgtz"@, args)->Some_0,
{
    reveal_strlit("bgtz");
    assert("bgtz"@.len() == 4);
    reveal_strlit("li");
    assert("li"@.len() == 2);
    assert("bgtz"@ != "li"@);
    reveal_strlit("lui");
    assert("lui"@.len() == 3);
    assert("bgtz"@ != "lui"@);
    reveal_strlit("la");
    assert("la"@.len() == 2);
    assert("bgtz"@ != "la"@);
    reveal_strlit("mv");
    assert("mv"@.len() == 2);
    assert("bgtz"@ != "mv"@);
    reveal_strlit("add");
    assert("add"@.len() == 3);
    assert("bgtz"@ != "add"@);
    reveal_strlit("addi");
    assert("bgtz"@[0] != "addi"@[0]);
    assert("bgtz"@ != "addi"@);
    reveal_strlit("sub");
    assert("sub"@.len() == 3);
    assert("bgtz"@ != "sub"@);
    reveal_strlit("neg");
    assert("neg"@.len() == 3);
    assert("bgtz"@ != "neg"@);
    reveal_strlit("mul");
    assert("mul"@.len() == 3);
    assert("bgtz"@ != "mul"@);
    reveal_strlit("mulhu");
    assert("mulhu"@.len() == 5);
    assert("bgtz"@ != "mulhu"@);
    reveal_strlit("divu");
    assert("bgtz"@[0] != "divu"@[0]);
    assert("bgtz"@ != "divu"@);
    reveal_strlit("xor");
    assert("xor"@.len() == 3);
    assert("bgtz"@ != "xor"@);
    reveal_strlit("xori");
    assert("bgtz"@[0] != "xori"@[0]);
    assert("bgtz"@ != "xori"@);
    reveal_strlit("and");
    assert("and"@.len() == 3);
    assert("bgtz"@ != "and"@);
    reveal_strlit("andi");
    assert("bgtz"@[0] != "andi"@[0]);
    assert("bgtz"@ != "andi"@);
    reveal_strlit("or");
    assert("or"@.len() == 2);
    assert("bgtz"@ != "or"@);
    reveal_strlit("ori");
    assert("ori"@.len() == 3);
    assert("bgtz"@ != "ori"@);
    reveal_strlit("not");
    assert("not"@.len() == 3);
    assert("bgtz"@ != "not"@);
    reveal_strlit("slli");
    assert("bgtz"@[0] != "slli"@[0]);
    assert("bgtz"@ != "slli"@);
    reveal_strlit("sll");
    assert("sll"@.len() == 3);
    assert("bgtz"@ != "sll"@);
    reveal_strlit("srli");
    assert("bgtz"@[0] != "srli"@[0]);
    assert("bgtz"@ != "srli"@);
    reveal_strlit("srl");
    assert("srl"@.len() == 3);
    assert("bgtz"@ != "srl"@);
    reveal_strlit("srai");
    assert("bgtz"@[0] != "srai"@[0]);
    assert("bgtz"@ != "srai"@);
    reveal_strlit("seqz");
    assert("bgtz"@[0] != "seqz"@[0]);
    assert("bgtz"@ != "seqz"@);
    reveal_strlit("snez");
    assert("bgtz"@[0] != "snez"@[0]);
    assert("bgtz"@ != "snez"@);
    reveal_strlit("slti");
    assert("bgtz"@[0] != "slti"@[0]);
    assert("bgtz"@ != "slti"@);
    reveal_strlit("slt");
    assert("slt"@.len() == 3);
    assert("bgtz"@ != "slt"@);
    reveal_strlit("sltiu");
    assert("sltiu"@.len() == 5);
    assert("bgtz"@ != "sltiu"@);
    reveal_strlit("sltu");
    assert("bgtz"@[0] != "sltu"@[0]);
    assert("bgtz"@ != "sltu"@);
    reveal_strlit("sgtz");
    assert("bgtz"@[0] != "sgtz"@[0]);
    assert("bgtz"@ != "sgtz"@);
    reveal_strlit("beq");
    assert("beq"@.len() == 3);
    assert("bgtz"@ != "beq"@);
    reveal_strlit("beqz");
    assert("bgtz"@[1] != "beqz"@[1]);
    assert("bgtz"@ != "beqz"@);
    reveal_strlit("bgeu");
    assert("bgtz"@[2] != "bgeu"@[2]);
    assert("bgtz"@ != "bgeu"@);
    reveal_strlit("bgez");
    assert("bgtz"@[2] != "bgez"@[2]);
    assert("bgtz"@ != "bgez"@);
    reveal_strlit("bltu");
    assert("bgtz"@[1] != "bltu"@[1]);
    assert("bgtz"@ != "bltu"@);
    reveal_strlit("blt");
    assert("blt"@.len() == 3);
    assert("bgtz"@ != "blt"@);
    reveal_strlit("bge");
    assert("bge"@.len() == 3);
    assert("bgtz"@ != "bge"@);
    reveal_strlit("bltz");
    assert("bgtz"@[1] != "bltz"@[1]);
    assert("bgtz"@ != "bltz"@);
    reveal_strlit("blez");
    assert("bgtz"@[1] != "blez"@[1]);
    assert("bgtz"@ != "blez"@);
}

/// The lowering table's dispatch for this mnemonic reaches its group.
pub proof fn lemma_dispatch_bne(args: Seq<ArgV>)
    ensures
        spec_lower_branch("bne"@, args) is Some,
        spec_lower("bne"@, args) == spec_lower_branch("bne"@, args)->Some_0,
{
    reveal_strlit("bne");
    assert("bne"@.len() == 3);
    reveal_strlit("li");
    assert("li"@.len() == 2);
    assert("bne"@ != "li"@);
    reveal_strlit("lui");
    assert("bne"@[0] != "lui"@[0]);
    assert("bne"@ != "lui"@);
    reveal_strlit("la");
    assert("la"@.len() == 2);
    assert("bne"@ != "la"@);
    reveal_strlit("mv");
    assert("mv"@.len() == 2);
    assert("bne"@ != "mv"@);
    reveal_strlit("add");
    assert("bne"@[0] != "add"@[0]);
    assert("bne"@ != "add"@);
    reveal_strlit("addi");
    assert("addi"@.len() == 4);
    assert("bne"@ != "addi"@);
    reveal_strlit("sub");
    assert("bne"@[0] != "sub"@[0]);
    assert("bne"@ != "sub"@);
    reveal_strlit("neg");
    assert("bne"@[0] != "neg"@[0]);
    assert("bne"@ != "neg"@);
    reveal_strlit("mul");
    assert("bne"@[0] != "mul"@[0]);
    assert("bne"@ != "mul"@);
    reveal_strlit("mulhu");
    assert("mulhu"@.len() == 5);
    assert("bne"@ != "mulhu"@);
    reveal_strlit("divu");
    assert("divu"@.len() == 4);
    assert("bne"@ != "divu"@);
    reveal_strlit("xor");
    assert("bne"@[0] != "xor"@[0]);
    assert("bne"@ != "xor"@);
    reveal_strlit("xori");
    assert("xori"@.len() == 4);
    assert("bne"@ != "xori"@);
    reveal_strlit("and");
    assert("bne"@[0] != "and"@[0]);
    assert("bne"@ != "and"@);
    reveal_strlit("andi");
    assert("andi"@.len() == 4);
    assert("bne"@ != "andi"@);
    reveal_strlit("or");
    assert("or"@.len() == 2);
    assert("bne"@ != "or"@);
    reveal_strlit("ori");
    assert("bne"@[0] != "ori"@[0]);
    assert("bne"@ != "ori"@);
    reveal_strlit("not");
    assert("bne"@[0] != "not"@[0]);
    assert("bne"@ != "not"@);
    reveal_strlit("slli");
    assert("slli"@.len() == 4);
    assert("bne"@ != "slli"@);
    reveal_strlit("sll");
    assert("bne"@[0] != "sll"@[0]);
    assert("bne"@ != "sll"@);
    reveal_strlit("srli");
    assert("srli"@.len() == 4);
    assert("bne"@ != "srli"@);
    reveal_strlit("srl");
    assert("bne"@[0] != "srl"@[0]);
    assert("bne"@ != "srl"@);
    reveal_strlit("srai");
    assert("srai"@.len() == 4);
    assert("bne"@ != "srai"@);
    reveal_strlit("seqz");
    assert("seqz"@.len() == 4);
    assert("bne"@ != "seqz"@);
    reveal_strlit("snez");
    assert("snez"@.len() == 4);
    assert("bne"@ != "snez"@);
    reveal_strlit("slti");
    assert("slti"@.len() == 4);
    assert("bne"@ != "slti"@);
    reveal_strlit("slt");
    assert("bne"@[0] != "slt"@[0]);
    assert("bne"@ != "slt"@);
    reveal_strlit("sltiu");
    assert("sltiu"@.len() == 5);
    assert("bne"@ != "sltiu"@);
    reveal_strlit("sltu");
    assert("sltu"@.len() == 4);
    assert("bne"@ != "sltu"@);
    reveal_strlit("sgtz");
    assert("sgtz"@.len() == 4);
    assert("bne"@ != "sgtz"@);
    reveal_strlit("beq");
    assert("bne"@[1] != "beq"@[1]);
    assert("bne"@ != "beq"@);
    reveal_strlit("beqz");
    assert("beqz"@.len() == 4);
    assert("bne"@ != "beqz"@);
    reveal_strlit("bgeu");
    assert("bgeu"@.len() == 4);
    assert("bne"@ != "bgeu"@);
    reveal_strlit("bgez");
    assert("bgez"@.len() == 4);
    assert("bne"@ != "bgez"@);
    reveal_strlit("bltu");
    assert("bltu"@.len() == 4);
    assert("bne"@ != "bltu"@);
    reveal_strlit("blt");
    assert("bne"@[1] != "blt"@[1]);
    assert("bne"@ != "blt"@);
    reveal_strlit("bge");
    assert("bne"@[1] != "bge"@[1]);
    assert("bne"@ != "bge"@);
    reveal_strlit("bltz");
    assert("bltz"@.len() == 4);
    assert("bne"@ != "bltz"@);
    reveal_strlit("blez");
    assert("blez"@.len() == 4);
    assert("bne"@ != "blez"@);
    reveal_strlit("bgtz");
    assert("bgtz"@.len() == 4);
    assert("bne"@ != "bgtz"@);
}

/// The lowering table's dispatch for this mnemonic reaches its group.
pub proof fn lemma_dispatch_bnez(args: Seq<ArgV>)
    ensures
        spec_lower_branch("bnez"@, args) is Some,
        spec_lower("bnez"@, args) == spec_lower_branch("bnez"@, args)->Some_0,
{
    reveal_strlit("bnez");
    assert("bnez"@.len() == 4);
    reveal_strlit("li");
    assert("li"@.len() == 2);
    assert("bnez"@ != "li"@);
    reveal_strlit("lui");
    assert("lui"@.len() == 3);
    assert("bnez"@ != "lui"@);
    reveal_strlit("la");
    assert("la"@.len() == 2);
    assert("bnez"@ != "la"@);
    reveal_strlit("mv");
    assert("mv"@.len() == 2);
    assert("bnez"@ != "mv"@);
    reveal_strlit("add");
    assert("add"@.len() == 3);
    assert("bnez"@ != "add"@);
    reveal_strlit("addi");
    assert("bnez"@[0] != "addi"@[0]);
    assert("bnez"@ != "addi"@);
    reveal_strlit("sub");
    assert("sub"@.len() == 3);
    assert("bnez"@ != "sub"@);
    reveal_strlit("neg");
    assert("neg"@.len() == 3);
    assert("bnez"@ != "neg"@);
    reveal_strlit("mul");
    assert("mul"@.len() == 3);
    assert("bnez"@ != "mul"@);
    reveal_strlit("mulhu");
    assert("mulhu"@.len() == 5);
    assert("bnez"@ != "mulhu"@);
    reveal_strlit("divu");
    assert("bnez"@[0] != "divu"@[0]);
    assert("bnez"@ != "divu"@);
    reveal_strlit("xor");
    assert("xor"@.len() == 3);
    assert("bnez"@ != "xor"@);
    reveal_strlit("xori");
    assert("bnez"@[0] != "xori"@[0]);
    assert("bnez"@ != "xori"@);
    reveal_strlit("and");
    assert("and"@.len() == 3);
    assert("bnez"@ != "and"@);
    reveal_strlit("andi");
    assert("bnez"@[0] != "andi"@[0]);
    assert("bnez"@ != "andi"@);
    reveal_strlit("or");
    assert("or"@.len() == 2);
    assert("bnez"@ != "or"@);
    reveal_strlit("ori");
    assert("ori"@.len() == 3);
    assert("bnez"@ != "ori"@);
    reveal_strlit("not");
    assert("not"@.len() == 3);
    assert("bnez"@ != "not"@);
    reveal_strlit("slli");
    assert("bnez"@[0] != "slli"@[0]);
    assert("bnez"@ != "slli"@);
    reveal_strlit("sll");
    assert("sll"@.len() == 3);
    assert("bnez"@ != "sll"@);
    reveal_strlit("srli");
    assert("bnez"@[0] != "srli"@[0]);
    assert("bnez"@ != "srli"@);
    reveal_strlit("srl");
    assert("srl"@.len() == 3);
    assert("bnez"@ != "srl"@);
    reveal_strlit("srai");
    assert("bnez"@[0] != "srai"@[0]);
    assert("bnez"@ != "srai"@);
    reveal_strlit("seqz");
    assert("bnez"@[0] != "seqz"@[0]);
    assert("bnez"@ != "seqz"@);
    reveal_strlit("snez");
    assert("bnez"@[0] != "snez"@[0]);
    assert("bnez"@ != "snez"@);
    reveal_strlit("slti");
    assert("bnez"@[0] != "slti"@[0]);
    assert("bnez"@ != "slti"@);
    reveal_strlit("slt");
    assert("slt"@.len() == 3);
    assert("bnez"@ != "slt"@);
    reveal_strlit("sltiu");
    assert("sltiu"@.len() == 5);
    assert("bnez"@ != "sltiu"@);
    reveal_strlit("sltu");
    assert("bnez"@[0] != "sltu"@[0]);
    assert("bnez"@ != "sltu"@);
    reveal_strlit("sgtz");
    assert("bnez"@[0] != "sgtz"@[0]);
    assert("bnez"@ != "sgtz"@);
    reveal_strlit("beq");
    assert("beq"@.len() == 3);
    assert("bnez"@ != "beq"@);
    reveal_strlit("beqz");
    assert("bnez"@[1] != "beqz"@[1]);
    assert("bnez"@ != "beqz"@);
    reveal_strlit("bgeu");
    assert("bnez"@[1] != "bgeu"@[1]);
    assert("bnez"@ != "bgeu"@);
    reveal_strlit("bgez");
    assert("bnez"@[1] != "bgez"@[1]);
    assert("bnez"@ != "bgez"@);
    reveal_strlit("bltu");
    assert("bnez"@[1] != "bltu"@[1]);
    assert("bnez"@ != "bltu"@);
    reveal_strlit("blt");
    assert("blt"@.len() == 3);
    assert("bnez"@ != "blt"@);
    reveal_strlit("bge");
    assert("bge"@.len() == 3);
    assert("bnez"@ != "bge"@);
    reveal_strlit("bltz");
    assert("bnez"@[1] != "bltz"@[1]);
    assert("bnez"@ != "bltz"@);
    reveal_strlit("blez");
    assert("bnez"@[1] != "blez"@[1]);
    assert("bnez"@ != "blez"@);
    reveal_strlit("bgtz");
    assert("bnez"@[1] != "bgtz"@[1]);
    assert("bnez"@ != "bgtz"@);
    reveal_strlit("bne");
    assert("bne"@.len() == 3);
    assert("bnez"@ != "bne"@);
}

/// The lowering table's dispatch for this mnemonic reaches its group.
pub proof fn lemma_dispatch_j(args: Seq<ArgV>)
    ensures
        spec_lower_jump("j"@, args) is Some,
        spec_lower("j"@, args) == spec_lower_jump("j"@, args)->Some_0,
{
    reveal_strlit("j");
    assert("j"@.len() == 1);
    reveal_strlit("li");
    assert("li"@.len() == 2);
    assert("j"@ != "li"@);
    reveal_strlit("lui");
    assert("lui"@.len() == 3);
    assert("j"@ != "lui"@);
    reveal_strlit("la");
    assert("la"@.len() == 2);
    assert("j"@ != "la"@);
    reveal_strlit("mv");
    assert("mv"@.len() == 2);
    assert("j"@ != "mv"@);
    reveal_strlit("add");
    assert("add"@.len() == 3);
    assert("j"@ != "add"@);
    reveal_strlit("addi");
    assert("addi"@.len() == 4);
    assert("j"@ != "addi"@);
    reveal_strlit("sub");
    assert("sub"@.len() == 3);
    assert("j"@ != "sub"@);
    reveal_strlit("neg");
    assert("neg"@.len() == 3);
    assert("j"@ != "neg"@);
    reveal_strlit("mul");
    assert("mul"@.len() == 3);
    assert("j"@ != "mul"@);
    reveal_strlit("mulhu");
    assert("mulhu"@.len() == 5);
    assert("j"@ != "mulhu"@);
    reveal_strlit("divu");
    assert("divu"@.len() == 4);
    assert("j"@ != "divu"@);
    reveal_strlit("xor");
    assert("xor"@.len() == 3);
    assert("j"@ != "xor"@);
    reveal_strlit("xori");
    assert("xori"@.len() == 4);
    assert("j"@ != "xori"@);
    reveal_strlit("and");
    assert("and"@.len() == 3);
    assert("j"@ != "and"@);
    reveal_strlit("andi");
    assert("andi"@.len() == 4);
    assert("j"@ != "andi"@);
    reveal_strlit("or");
    assert("or"@.len() == 2);
    assert("j"@ != "or"@);
    reveal_strlit("ori");
    assert("ori"@.len() == 3);
    assert("j"@ != "ori"@);
    reveal_strlit("not");
    assert("not"@.len() == 3);
    assert("j"@ != "not"@);
    reveal_strlit("slli");
    assert("slli"@.len() == 4);
    assert("j"@ != "slli"@);
    reveal_strlit("sll");
    assert("sll"@.len() == 3);
    assert("j"@ != "sll"@);
    reveal_strlit("srli");
    assert("srli"@.len() == 4);
    assert("j"@ != "srli"@);
    reveal_strlit("srl");
    assert("srl"@.len() == 3);
    assert("j"@ != "srl"@);
    reveal_strlit("srai");
    assert("srai"@.len() == 4);
    assert("j"@ != "srai"@);
    reveal_strlit("seqz");
    assert("seqz"@.len() == 4);
    assert("j"@ != "seqz"@);
    reveal_strlit("snez");
    assert("snez"@.len() == 4);
    assert("j"@ != "snez"@);
    reveal_strlit("slti");
    assert("slti"@.len() == 4);
    assert("j"@ != "slti"@);
    reveal_strlit("slt");
    assert("slt"@.len() == 3);
    assert("j"@ != "slt"@);
    reveal_strlit("sltiu");
    assert("sltiu"@.len() == 5);
    assert("j"@ != "sltiu"@);
    reveal_strlit("sltu");
    assert("sltu"@.len() == 4);
    assert("j"@ != "sltu"@);
    reveal_strlit("sgtz");
    assert("sgtz"@.len() == 4);
    assert("j"@ != "sgtz"@);
    reveal_strlit("beq");
    assert("beq"@.len() == 3);
    assert("j"@ != "beq"@);
    reveal_strlit("beqz");
    assert("beqz"@.len() == 4);
    assert("j"@ != "beqz"@);
    reveal_strlit("bgeu");
    assert("bgeu"@.len() == 4);
    assert("j"@ != "bgeu"@);
    reveal_strlit("bgez");
    assert("bgez"@.len() == 4);
    assert("j"@ != "bgez"@);
    reveal_strlit("bltu");
    assert("bltu"@.len() == 4);
    assert("j"@ != "bltu"@);
    reveal_strlit("blt");
    assert("blt"@.len() == 3);
    assert("j"@ != "blt"@);
    reveal_strlit("bge");
    assert("bge"@.len() == 3);
    assert("j"@ != "bge"@);
    reveal_strlit("bltz");
    assert("bltz"@.len() == 4);
    assert("j"@ != "bltz"@);
    reveal_strlit("blez");
    assert("blez"@.len() == 4);
    assert("j"@ != "blez"@);
    reveal_strlit("bgtz");
    assert("bgtz"@.len() == 4);
    assert("j"@ != "bgtz"@);
    reveal_strlit("bne");
    assert("bne"@.len() == 3);
    assert("j"@ != "bne"@);
    reveal_strlit("bnez");
    assert("bnez"@.len() == 4);
    assert("j"@ != "bnez"@);
}

/// The lowering table's dispatch for this mnemonic reaches its group.
pub proof fn lemma_dispatch_jr(args: Seq<ArgV>)
    ensures
        spec_lower_jump("jr"@, args) is Some,
        spec_lower("jr"@, args) == spec_lower_jump("jr"@, args)->Some_0,
{
    reveal_strlit("jr");
    assert("jr"@.len() == 2);
    reveal_strlit("li");
    assert("jr"@[0] != "li"@[0]);
    assert("jr"@ != "li"@);
    reveal_strlit("lui");
    assert("lui"@.len() == 3);
    assert("jr"@ != "lui"@);
    reveal_strlit("la");
    assert("jr"@[0] != "la"@[0]);
    assert("jr"@ != "la"@);
    reveal_strlit("mv");
    assert("jr"@[0] != "mv"@[0]);
    assert("jr"@ != "mv"@);
    reveal_strlit("add");
    assert("add"@.len() == 3);
    assert("jr"@ != "add"@);
    reveal_strlit("addi");
    assert("addi"@.len() == 4);
    assert("jr"@ != "addi"@);
    reveal_strlit("sub");
    assert("sub"@.len() == 3);
    assert("jr"@ != "sub"@);
    reveal_strlit("neg");
    assert("neg"@.len() == 3);
    assert("jr"@ != "neg"@);
    reveal_strlit("mul");
    assert("mul"@.len() == 3);
    assert("jr"@ != "mul"@);
    reveal_strlit("mulhu");
    assert("mulhu"@.len() == 5);
    assert("jr"@ != "mulhu"@);
    reveal_strlit("divu");
    assert("divu"@.len() == 4);
    assert("jr"@ != "divu"@);
    reveal_strlit("xor");
    assert("xor"@.len() == 3);
    assert("jr"@ != "xor"@);
    reveal_strlit("xori");
    assert("xori"@.len() == 4);
    assert("jr"@ != "xori"@);
    reveal_strlit("and");
    assert("and"@.len() == 3);
    assert("jr"@ != "and"@);
    reveal_strlit("andi");
    assert("andi"@.len() == 4);
    assert("jr"@ != "andi"@);
    reveal_strlit("or");
    assert("jr"@[0] != "or"@[0]);
    assert("jr"@ != "or"@);
    reveal_strlit("ori");
    assert("ori"@.len() == 3);
    assert("jr"@ != "ori"@);
    reveal_strlit("not");
    assert("not"@.len() == 3);
    assert("jr"@ != "not"@);
    reveal_strlit("slli");
    assert("slli"@.len() == 4);
    assert("jr"@ != "slli"@);
    reveal_strlit("sll");
    assert("sll"@.len() == 3);
    assert("jr"@ != "sll"@);
    reveal_strlit("srli");
    assert("srli"@.len() == 4);
    assert("jr"@ != "srli"@);
    reveal_strlit("srl");
    assert("srl"@.len() == 3);
    assert("jr"@ != "srl"@);
    reveal_strlit("srai");
    assert("srai"@.len() == 4);
    assert("jr"@ != "srai"@);
    reveal_strlit("seqz");
    assert("seqz"@.len() == 4);
    assert("jr"@ != "seqz"@);
    reveal_strlit("snez");
    assert("snez"@.len() == 4);
    assert("jr"@ != "snez"@);
    reveal_strlit("slti");
    assert("slti"@.len() == 4);
    assert("jr"@ != "slti"@);
    reveal_strlit("slt");
    assert("slt"@.len() == 3);
    assert("jr"@ != "slt"@);
    reveal_strlit("sltiu");
    assert("sltiu"@.len() == 5);
    assert("jr"@ != "sltiu"@);
    reveal_strlit("sltu");
    assert("sltu"@.len() == 4);
    assert("jr"@ != "sltu"@);
    reveal_strlit("sgtz");
    assert("sgtz"@.len() == 4);
    assert("jr"@ != "sgtz"@);
    reveal_strlit("beq");
    assert("beq"@.len() == 3);
    assert("jr"@ != "beq"@);
    reveal_strlit("beqz");
    assert("beqz"@.len() == 4);
    assert("jr"@ != "beqz"@);
    reveal_strlit("bgeu");
    assert("bgeu"@.len() == 4);
    assert("jr"@ != "bgeu"@);
    reveal_strlit("bgez");
    assert("bgez"@.len() == 4);
    assert("jr"@ != "bgez"@);
    reveal_strlit("bltu");
    assert("bltu"@.len() == 4);
    assert("jr"@ != "bltu"@);
    reveal_strlit("blt");
    assert("blt"@.len() == 3);
    assert("jr"@ != "blt"@);
    reveal_strlit("bge");
    assert("bge"@.len() == 3);
    assert("jr"@ != "bge"@);
    reveal_strlit("bltz");
    assert("bltz"@.len() == 4);
    assert("jr"@ != "bltz"@);
    reveal_strlit("blez");
    assert("blez"@.len() == 4);
    assert("jr"@ != "blez"@);
    reveal_strlit("bgtz");
    assert("bgtz"@.len() == 4);
    assert("jr"@ != "bgtz"@);
    reveal_strlit("bne");
    assert("bne"@.len() == 3);
    assert("jr"@ != "bne"@);
    reveal_strlit("bnez");
    assert("bnez"@.len() == 4);
    assert("jr"@ != "bnez"@);
    reveal_strlit("j");
    assert("j"@.len() == 1);
    assert("jr"@ != "j"@);
}

/// The lowering table's dispatch for this mnemonic reaches its group.
pub proof fn lemma_dispatch_jal(args: Seq<ArgV>)
    ensures
        spec_lower_jump("jal"@, args) is Some,
        spec_lower("jal"@, args) == spec_lower_jump("jal"@, args)->Some_0,
{
    reveal_strlit("jal");
    assert("jal"@.len() == 3);
    reveal_strlit("li");
    assert("li"@.len() == 2);
    assert("jal"@ != "li"@);
    reveal_strlit("lui");
    assert("jal"@[0] != "lui"@[0]);
    assert("jal"@ != "lui"@);
    reveal_strlit("la");
    assert("la"@.len() == 2);
    assert("jal"@ != "la"@);
    reveal_strlit("mv");
    assert("mv"@.len() == 2);
    assert("jal"@ != "mv"@);
    reveal_strlit("add");
    assert("jal"@[0] != "add"@[0]);
    assert("jal"@ != "add"@);
    reveal_strlit("addi");
    assert("addi"@.len() == 4);
    assert("jal"@ != "addi"@);
    reveal_strlit("sub");
    assert("jal"@[0] != "sub"@[0]);
    assert("jal"@ != "sub"@);
    reveal_strlit("neg");
    assert("jal"@[0] != "neg"@[0]);
    assert("jal"@ != "neg"@);
    reveal_strlit("mul");
    assert("jal"@[0] != "mul"@[0]);
    assert("jal"@ != "mul"@);
    reveal_strlit("mulhu");
    assert("mulhu"@.len() == 5);
    assert("jal"@ != "mulhu"@);
    reveal_strlit("divu");
    assert("divu"@.len() == 4);
    assert("jal"@ != "divu"@);
    reveal_strlit("xor");
    assert("jal"@[0] != "xor"@[0]);
    assert("jal"@ != "xor"@);
    reveal_strlit("xori");
    assert("xori"@.len() == 4);
    assert("jal"@ != "xori"@);
    reveal_strlit("and");
    assert("jal"@[0] != "and"@[0]);
    assert("jal"@ != "and"@);
    reveal_strlit("andi");
    assert("andi"@.len() == 4);
    assert("jal"@ != "andi"@);
    reveal_strlit("or");
    assert("or"@.len() == 2);
    assert("jal"@ != "or"@);
    reveal_strlit("ori");
    assert("jal"@[0] != "ori"@[0]);
    assert("jal"@ != "ori"@);
    reveal_strlit("not");
    assert("jal"@[0] != "not"@[0]);
    assert("jal"@ != "not"@);
    reveal_strlit("slli");
    assert("slli"@.len() == 4);
    assert("jal"@ != "slli"@);
    reveal_strlit("sll");
    assert("jal"@[0] != "sll"@[0]);
    assert("jal"@ != "sll"@);
    reveal_strlit("srli");
    assert("srli"@.len() == 4);
    assert("jal"@ != "srli"@);
    reveal_strlit("srl");
    assert("jal"@[0] != "srl"@[0]);
    assert("jal"@ != "srl"@);
    reveal_strlit("srai");
    assert("srai"@.len() == 4);
    assert("jal"@ != "srai"@);
    reveal_strlit("seqz");
    assert("seqz"@.len() == 4);
    assert("jal"@ != "seqz"@);
    reveal_strlit("snez");
    assert("snez"@.len() == 4);
    assert("jal"@ != "snez"@);
    reveal_strlit("slti");
    assert("slti"@.len() == 4);
    assert("jal"@ != "slti"@);
    reveal_strlit("slt");
    assert("jal"@[0] != "slt"@[0]);
    assert("jal"@ != "slt"@);
    reveal_strlit("sltiu");
    assert("sltiu"@.len() == 5);
    assert("jal"@ != "sltiu"@);
    reveal_strlit("sltu");
    assert("sltu"@.len() == 4);
    assert("jal"@ != "sltu"@);
    reveal_strlit("sgtz");
    assert("sgtz"@.len() == 4);
    assert("jal"@ != "sgtz"@);
    reveal_strlit("beq");
    assert("jal"@[0] != "beq"@[0]);
    assert("jal"@ != "beq"@);
    reveal_strlit("beqz");
    assert("beqz"@.len() == 4);
    assert("jal"@ != "beqz"@);
    reveal_strlit("bgeu");
    assert("bgeu"@.len() == 4);
    assert("jal"@ != "bgeu"@);
    reveal_strlit("bgez");
    assert("bgez"@.len() == 4);
    assert("jal"@ != "bgez"@);
    reveal_strlit("bltu");
    assert("bltu"@.len() == 4);
    assert("jal"@ != "bltu"@);
    reveal_strlit("blt");
    assert("jal"@[0] != "blt"@[0]);
    assert("jal"@ != "blt"@);
    reveal_strlit("bge");
    assert("jal"@[0] != "bge"@[0]);
    assert("jal"@ != "bge"@);
    reveal_strlit("bltz");
    assert("bltz"@.len() == 4);
    assert("jal"@ != "bltz"@);
    reveal_strlit("blez");
    assert("blez"@.len() == 4);
    assert("jal"@ != "blez"@);
    reveal_strlit("bgtz");
    assert("bgtz"@.len() == 4);
    assert("jal"@ != "bgtz"@);
    reveal_strlit("bne");
    assert("jal"@[0] != "bne"@[0]);
    assert("jal"@ != "bne"@);
    reveal_strlit("bnez");
    assert("bnez"@.len() == 4);
    assert("jal"@ != "bnez"@);
    reveal_strlit("j");
    assert("j"@.len() == 1);
    assert("jal"@ != "j"@);
    reveal_strlit("jr");
    assert("jr"@.len() == 2);
    assert("jal"@ != "jr"@);
}

/// The lowering table's dispatch for this mnemonic reaches its group.
pub proof fn lemma_dispatch_jalr(args: Seq<ArgV>)
    ensures
        spec_lower_jump("jalr"@, args) is Some,
        spec_lower("jalr"@, args) == spec_lower_jump("jalr"@, args)->Some_0,
{
    reveal_strlit("jalr");
    assert("jalr"@.len() == 4);
    reveal_strlit("li");
    assert("li"@.len() == 2);
    assert("jalr"@ != "li"@);
    reveal_strlit("lui");
    assert("lui"@.len() == 3);
    assert("jalr"@ != "lui"@);
    reveal_strlit("la");
    assert("la"@.len() == 2);
    assert("jalr"@ != "la"@);
    reveal_strlit("mv");
    assert("mv"@.len() == 2);
    assert("jalr"@ != "mv"@);
    reveal_strlit("add");
    assert("add"@.len() == 3);
    assert("jalr"@ != "add"@);
    reveal_strlit("addi");
    assert("jalr"@[0] != "addi"@[0]);
    assert("jalr"@ != "addi"@);
    reveal_strlit("sub");
    assert("sub"@.len() == 3);
    assert("jalr"@ != "sub"@);
    reveal_strlit("neg");
    assert("neg"@.len() == 3);
    assert("jalr"@ != "neg"@);
    reveal_strlit("mul");
    assert("mul"@.len() == 3);
    assert("jalr"@ != "mul"@);
    reveal_strlit("mulhu");
    assert("mulhu"@.len() == 5);
    assert("jalr"@ != "mulhu"@);
    reveal_strlit("divu");
    assert("jalr"@[0] != "divu"@[0]);
    assert("jalr"@ != "divu"@);
    reveal_strlit("xor");
    assert("xor"@.len() == 3);
    assert("jalr"@ != "xor"@);
    reveal_strlit("xori");
    assert("jalr"@[0] != "xori"@[0]);
    assert("jalr"@ != "xori"@);
    reveal_strlit("and");
    assert("and"@.len() == 3);
    assert("jalr"@ != "and"@);
    reveal_strlit("andi");
    assert("jalr"@[0] != "andi"@[0]);
    assert("jalr"@ != "andi"@);
    reveal_strlit("or");
    assert("or"@.len() == 2);
    assert("jalr"@ != "or"@);
    reveal_strlit("ori");
    assert("ori"@.len() == 3);
    assert("jalr"@ != "ori"@);
    reveal_strlit("not");
    assert("not"@.len() == 3);
    assert("jalr"@ != "not"@);
    reveal_strlit("slli");
    assert("jalr"@[0] != "slli"@[0]);
    assert("jalr"@ != "slli"@);
    reveal_strlit("sll");
    assert("sll"@.len() == 3);
    assert("jalr"@ != "sll"@);
    reveal_strlit("srli");
    assert("jalr"@[0] != "srli"@[0]);
    assert("jalr"@ != "srli"@);
    reveal_strlit("srl");
    assert("srl"@.len() == 3);
    assert("jalr"@ != "srl"@);
    reveal_strlit("srai");
    assert("jalr"@[0] != "srai"@[0]);
    assert("jalr"@ != "srai"@);
    reveal_strlit("seqz");
    assert("jalr"@[0] != "seqz"@[0]);
    assert("jalr"@ != "seqz"@);
    reveal_strlit("snez");
    assert("jalr"@[0] != "snez"@[0]);
    assert("jalr"@ != "snez"@);
    reveal_strlit("slti");
    assert("jalr"@[0] != "slti"@[0]);
    assert("jalr"@ != "slti"@);
    reveal_strlit("slt");
    assert("slt"@.len() == 3);
    assert("jalr"@ != "slt"@);
    reveal_strlit("sltiu");
    assert("sltiu"@.len() == 5);
    assert("jalr"@ != "sltiu"@);
    reveal_strlit("sltu");
    assert("jalr"@[0] != "sltu"@[0]);
    assert("jalr"@ != "sltu"@);
    reveal_strlit("sgtz");
    assert("jalr"@[0] != "sgtz"@[0]);
    assert("jalr"@ != "sgtz"@);
    reveal_strlit("beq");
    assert("beq"@.len() == 3);
    assert("jalr"@ != "beq"@);
    reveal_strlit("beqz");
    assert("jalr"@[0] != "beqz"@[0]);
    assert("jalr"@ != "beqz"@);
    reveal_strlit("bgeu");
    assert("jalr"@[0] != "bgeu"@[0]);
    assert("jalr"@ != "bgeu"@);
    reveal_strlit("bgez");
    assert("jalr"@[0] != "bgez"@[0]);
    assert("jalr"@ != "bgez"@);
    reveal_strlit("bltu");
    assert("jalr"@[0] != "bltu"@[0]);
    assert("jalr"@ != "bltu"@);
    reveal_strlit("blt");
    assert("blt"@.len() == 3);
    assert("jalr"@ != "blt"@);
    reveal_strlit("bge");
    assert("bge"@.len() == 3);
    assert("jalr"@ != "bge"@);
    reveal_strlit("bltz");
    assert("jalr"@[0] != "bltz"@[0]);
    assert("jalr"@ != "bltz"@);
    reveal_strlit("blez");
    assert("jalr"@[0] != "blez"@[0]);
    assert("jalr"@ != "blez"@);
    reveal_strlit("bgtz");
    assert("jalr"@[0] != "bgtz"@[0]);
    assert("jalr"@ != "bgtz"@);
    reveal_strlit("bne");
    assert("bne"@.len() == 3);
    assert("jalr"@ != "bne"@);
    reveal_strlit("bnez");
    assert("jalr"@[0] != "bnez"@[0]);
    assert("jalr"@ != "bnez"@);
    reveal_strlit("j");
    assert("j"@.len() == 1);
    assert("jalr"@ != "j"@);
    reveal_strlit("jr");
    assert("jr"@.len() == 2);
    assert("jalr"@ != "jr"@);
    reveal_strlit("jal");
    assert("jal"@.len() == 3);
    assert("jalr"@ != "jal"@);
}

/// The lowering table's dispatch for this mnemonic reaches its group.
pub proof fn lemma_dispatch_call(args: Seq<ArgV>)
    ensures
        spec_lower_jump("call"@, args) is Some,
        spec_lower("call"@, args) == spec_lower_jump("call"@, args)->Some_0,
{
    reveal_strlit("call");
    assert("call"@.len() == 4);
    reveal_strlit("li");
    assert("li"@.len() == 2);
    assert("call"@ != "li"@);
    reveal_strlit("lui");
    assert("lui"@.len() == 3);
    assert("call"@ != "lui"@);
    reveal_strlit("la");
    assert("la"@.len() == 2);
    assert("call"@ != "la"@);
    reveal_strlit("mv");
    assert("mv"@.len() == 2);
    assert("call"@ != "mv"@);
    reveal_strlit("add");
    assert("add"@.len() == 3);
    assert("call"@ != "add"@);
    reveal_strlit("addi");
    assert("call"@[0] != "addi"@[0]);
    assert("call"@ != "addi"@);
    reveal_strlit("sub");
    assert("sub"@.len() == 3);
    assert("call"@ != "sub"@);
    reveal_strlit("neg");
    assert("neg"@.len() == 3);
    assert("call"@ != "neg"@);
    reveal_strlit("mul");
    assert("mul"@.len() == 3);
    assert("call"@ != "mul"@);
    reveal_strlit("mulhu");
    assert("mulhu"@.len() == 5);
    assert("call"@ != "mulhu"@);
    reveal_strlit("divu");
    assert("call"@[0] != "divu"@[0]);
    assert("call"@ != "divu"@);
    reveal_strlit("xor");
    assert("xor"@.len() == 3);
    assert("call"@ != "xor"@);
    reveal_strlit("xori");
    assert("call"@[0] != "xori"@[0]);
    assert("call"@ != "xori"@);
    reveal_strlit("and");
    assert("and"@.len() == 3);
    assert("call"@ != "and"@);
    reveal_strlit("andi");
    assert("call"@[0] != "andi"@[0]);
    assert("call"@ != "andi"@);
    reveal_strlit("or");
    assert("or"@.len() == 2);
    assert("call"@ != "or"@);
    reveal_strlit("ori");
    assert("ori"@.len() == 3);
    assert("call"@ != "ori"@);
    reveal_strlit("not");
    assert("not"@.len() == 3);
    assert("call"@ != "not"@);
    reveal_strlit("slli");
    assert("call"@[0] != "slli"@[0]);
    assert("call"@ != "slli"@);
    reveal_strlit("sll");
    assert("sll"@.len() == 3);
    assert("call"@ != "sll"@);
    reveal_strlit("srli");
    assert("call"@[0] != "srli"@[0]);
    assert("call"@ != "srli"@);
    reveal_strlit("srl");
    assert("srl"@.len() == 3);
    assert("call"@ != "srl"@);
    reveal_strlit("srai");
    assert("call"@[0] != "srai"@[0]);
    assert("call"@ != "srai"@);
    reveal_strlit("seqz");
    assert("call"@[0] != "seqz"@[0]);
    assert("call"@ != "seqz"@);
    reveal_strlit("snez");
    assert("call"@[0] != "snez"@[0]);
    assert("call"@ != "snez"@);
    reveal_strlit("slti");
    assert("call"@[0] != "slti"@[0]);
    assert("call"@ != "slti"@);
    reveal_strlit("slt");
    assert("slt"@.len() == 3);
    assert("call"@ != "slt"@);
    reveal_strlit("sltiu");
    assert("sltiu"@.len() == 5);
    assert("call"@ != "sltiu"@);
    reveal_strlit("sltu");
    assert("call"@[0] != "sltu"@[0]);
    assert("call"@ != "sltu"@);
    reveal_strlit("sgtz");
    assert("call"@[0] != "sgtz"@[0]);
    assert("call"@ != "sgtz"@);
    reveal_strlit("beq");
    assert("beq"@.len() == 3);
    assert("call"@ != "beq"@);
    reveal_strlit("beqz");
    assert("call"@[0] != "beqz"@[0]);
    assert("call"@ != "beqz"@);
    reveal_strlit("bgeu");
    assert("call"@[0] != "bgeu"@[0]);
    assert("call"@ != "bgeu"@);
    reveal_strlit("bgez");
    assert("call"@[0] != "bgez"@[0]);
    assert("call"@ != "bgez"@);
    reveal_strlit("bltu");
    assert("call"@[0] != "bltu"@[0]);
    assert("call"@ != "bltu"@);
    reveal_strlit("blt");
    assert("blt"@.len() == 3);
    assert("call"@ != "blt"@);
    reveal_strlit("bge");
    assert("bge"@.len() == 3);
    assert("call"@ != "bge"@);
    reveal_strlit("bltz");
    assert("call"@[0] != "bltz"@[0]);
    assert("call"@ != "bltz"@);
    reveal_strlit("blez");
    assert("call"@[0] != "blez"@[0]);
    assert("call"@ != "blez"@);
    reveal_strlit("bgtz");
    assert("call"@[0] != "bgtz"@[0]);
    assert("call"@ != "bgtz"@);
    reveal_strlit("bne");
    assert("bne"@.len() == 3);
    assert("call"@ != "bne"@);
    reveal_strlit("bnez");
    assert("call"@[0] != "bnez"@[0]);
    assert("call"@ != "bnez"@);
    reveal_strlit("j");
    assert("j"@.len() == 1);
    assert("call"@ != "j"@);
    reveal_strlit("jr");
    assert("jr"@.len() == 2);
    assert("call"@ != "jr"@);
    reveal_strlit("jal");
    assert("jal"@.len() == 3);
    assert("call"@ != "jal"@);
    reveal_strlit("jalr");
    assert("call"@[0] != "jalr"@[0]);
    assert("call"@ != "jalr"@);
}

/// The lowering table's dispatch for this mnemonic reaches its group.
pub proof fn lemma_dispatch_tail(args: Seq<ArgV>)
    ensures
        spec_lower_jump("tail"@, args) is Some,
        spec_lower("tail"@, args) == spec_lower_jump("tail"@, args)->Some_0,
{
    reveal_strlit("tail");
    assert("tail"@.len() == 4);
    reveal_strlit("li");
    assert("li"@.len() == 2);
    assert("tail"@ != "li"@);
    reveal_strlit("lui");
    assert("lui"@.len() == 3);
    assert("tail"@ != "lui"@);
    reveal_strlit("la");
    assert("la"@.len() == 2);
    assert("tail"@ != "la"@);
    reveal_strlit("mv");
    assert("mv"@.len() == 2);
    assert("tail"@ != "mv"@);
    reveal_strlit("add");
    assert("add"@.len() == 3);
    assert("tail"@ != "add"@);
    reveal_strlit("addi");
    assert("tail"@[0] != "addi"@[0]);
    assert("tail"@ != "addi"@);
    reveal_strlit("sub");
    assert("sub"@.len() == 3);
    assert("tail"@ != "sub"@);
    reveal_strlit("neg");
    assert("neg"@.len() == 3);
    assert("tail"@ != "neg"@);
    reveal_strlit("mul");
    assert("mul"@.len() == 3);
    assert("tail"@ != "mul"@);
    reveal_strlit("mulhu");
    assert("mulhu"@.len() == 5);
    assert("tail"@ != "mulhu"@);
    reveal_strlit("divu");
    assert("tail"@[0] != "divu"@[0]);
    assert("tail"@ != "divu"@);
    reveal_strlit("xor");
    assert("xor"@.len() == 3);
    assert("tail"@ != "xor"@);
    reveal_strlit("xori");
    assert("tail"@[0] != "xori"@[0]);
    assert("tail"@ != "xori"@);
    reveal_strlit("and");
    assert("and"@.len() == 3);
    assert("tail"@ != "and"@);
    reveal_strlit("andi");
    assert("tail"@[0] != "andi"@[0]);
    assert("tail"@ != "andi"@);
    reveal_strlit("or");
    assert("or"@.len() == 2);
    assert("tail"@ != "or"@);
    reveal_strlit("ori");
    assert("ori"@.len() == 3);
    assert("tail"@ != "ori"@);
    reveal_strlit("not");
    assert("not"@.len() == 3);
    assert("tail"@ != "not"@);
    reveal_strlit("slli");
    assert("tail"@[0] != "slli"@[0]);
    assert("tail"@ != "slli"@);
    reveal_strlit("sll");
    assert("sll"@.len() == 3);
    assert("tail"@ != "sll"@);
    reveal_strlit("srli");
    assert("tail"@[0] != "srli"@[0]);
    assert("tail"@ != "srli"@);
    reveal_strlit("srl");
    assert("srl"@.len() == 3);
    assert("tail"@ != "srl"@);
    reveal_strlit("srai");
    assert("tail"@[0] != "srai"@[0]);
    assert("tail"@ != "srai"@);
    reveal_strlit("seqz");
    assert("tail"@[0] != "seqz"@[0]);
    assert("tail"@ != "seqz"@);
    reveal_strlit("snez");
    assert("tail"@[0] != "snez"@[0]);
    assert("tail"@ != "snez"@);
    reveal_strlit("slti");
    assert("tail"@[0] != "slti"@[0]);
    assert("tail"@ != "slti"@);
    reveal_strlit("slt");
    assert("slt"@.len() == 3);
    assert("tail"@ != "slt"@);
    reveal_strlit("sltiu");
    assert("sltiu"@.len() == 5);
    assert("tail"@ != "sltiu"@);
    reveal_strlit("sltu");
    assert("tail"@[0] != "sltu"@[0]);
    assert("tail"@ != "sltu"@);
    reveal_strlit("sgtz");
    assert("tail"@[0] != "sgtz"@[0]);
    assert("tail"@ != "sgtz"@);
    reveal_strlit("beq");
    assert("beq"@.len() == 3);
    assert("tail"@ != "beq"@);
    reveal_strlit("beqz");
    assert("tail"@[0] != "beqz"@[0]);
    assert("tail"@ != "beqz"@);
    reveal_strlit("bgeu");
    assert("tail"@[0] != "bgeu"@[0]);
    assert("tail"@ != "bgeu"@);
    reveal_strlit("bgez");
    assert("tail"@[0] != "bgez"@[0]);
    assert("tail"@ != "bgez"@);
    reveal_strlit("bltu");
    assert("tail"@[0] != "bltu"@[0]);
    assert("tail"@ != "bltu"@);
    reveal_strlit("blt");
    assert("blt"@.len() == 3);
    assert("tail"@ != "blt"@);
    reveal_strlit("bge");
    assert("bge"@.len() == 3);
    assert("tail"@ != "bge"@);
    reveal_strlit("bltz");
    assert("tail"@[0] != "bltz"@[0]);
    assert("tail"@ != "bltz"@);
    reveal_strlit("blez");
    assert("tail"@[0] != "blez"@[0]);
    assert("tail"@ != "blez"@);
    reveal_strlit("bgtz");
    assert("tail"@[0] != "bgtz"@[0]);
    assert("tail"@ != "bgtz"@);
    reveal_strlit("bne");
    assert("bne"@.len() == 3);
    assert("tail"@ != "bne"@);
    reveal_strlit("bnez");
    assert("tail"@[0] != "bnez"@[0]);
    assert("tail"@ != "bnez"@);
    reveal_strlit("j");
    assert("j"@.len() == 1);
    assert("tail"@ != "j"@);
    reveal_strlit("jr");
    assert("jr"@.len() == 2);
    assert("tail"@ != "jr"@);
    reveal_strlit("jal");
    assert("jal"@.len() == 3);
    assert("tail"@ != "jal"@);
    reveal_strlit("jalr");
    assert("tail"@[0] != "jalr"@[0]);
    assert("tail"@ != "jalr"@);
    reveal_strlit("call");
    assert("tail"@[0] != "call"@[0]);
    assert("tail"@ != "call"@);
}

/// The lowering table's dispatch for this mnemonic reaches its group.
pub proof fn lemma_dispatch_ecall(args: Seq<ArgV>)
    ensures
        spec_lower_jump("ecall"@, args) is Some,
        spec_lower("ecall"@, args) == spec_lower_jump("ecall"@, args)->Some_0,
{
    reveal_strlit("ecall");
    assert("ecall"@.len() == 5);
    reveal_strlit("li");
    assert("li"@.len() == 2);
    assert("ecall"@ != "li"@);
    reveal_strlit("lui");
    assert("lui"@.len() == 3);
    assert("ecall"@ != "lui"@);
    reveal_strlit("la");
    assert("la"@.len() == 2);
    assert("ecall"@ != "la"@);
    reveal_strlit("mv");
    assert("mv"@.len() == 2);
    assert("ecall"@ != "mv"@);
    reveal_strlit("add");
    assert("add"@.len() == 3);
    assert("ecall"@ != "add"@);
    reveal_strlit("addi");
    assert("addi"@.len() == 4);
    assert("ecall"@ != "addi"@);
    reveal_strlit("sub");
    assert("sub"@.len() == 3);
    assert("ecall"@ != "sub"@);
    reveal_strlit("neg");
    assert("neg"@.len() == 3);
    assert("ecall"@ != "neg"@);
    reveal_strlit("mul");
    assert("mul"@.len() == 3);
    assert("ecall"@ != "mul"@);
    reveal_strlit("mulhu");
    assert("ecall"@[0] != "mulhu"@[0]);
    assert("ecall"@ != "mulhu"@);
    reveal_strlit("divu");
    assert("divu"@.len() == 4);
    assert("ecall"@ != "divu"@);
    reveal_strlit("xor");
    assert("xor"@.len() == 3);
    assert("ecall"@ != "xor"@);
    reveal_strlit("xori");
    assert("xori"@.len() == 4);
    assert("ecall"@ != "xori"@);
    reveal_strlit("and");
    assert("and"@.len() == 3);
    assert("ecall"@ != "and"@);
    reveal_strlit("andi");
    assert("andi"@.len() == 4);
    assert("ecall"@ != "andi"@);
    reveal_strlit("or");
    assert("or"@.len() == 2);
    assert("ecall"@ != "or"@);
    reveal_strlit("ori");
    assert("ori"@.len() == 3);
    assert("ecall"@ != "ori"@);
    reveal_strlit("not");
    assert("not"@.len() == 3);
    assert("ecall"@ != "not"@);
    reveal_strlit("slli");
    assert("slli"@.len() == 4);
    assert("ecall"@ != "slli"@);
    reveal_strlit("sll");
    assert("sll"@.len() == 3);
    assert("ecall"@ != "sll"@);
    reveal_strlit("srli");
    assert("srli"@.len() == 4);
    assert("ecall"@ != "srli"@);
    reveal_strlit("srl");
    assert("srl"@.len() == 3);
    assert("ecall"@ != "srl"@);
    reveal_strlit("srai");
    assert("srai"@.len() == 4);
    assert("ecall"@ != "srai"@);
    reveal_strlit("seqz");
    assert("seqz"@.len() == 4);
    assert("ecall"@ != "seqz"@);
    reveal_strlit("snez");
    assert("snez"@.len() == 4);
    assert("ecall"@ != "snez"@);
    reveal_strlit("slti");
    assert("slti"@.len() == 4);
    assert("ecall"@ != "slti"@);
    reveal_strlit("slt");
    assert("slt"@.len() == 3);
    assert("ecall"@ != "slt"@);
    reveal_strlit("sltiu");
    assert("ecall"@[0] != "sltiu"@[0]);
    assert("ecall"@ != "sltiu"@);
    reveal_strlit("sltu");
    assert("sltu"@.len() == 4);
    assert("ecall"@ != "sltu"@);
    reveal_strlit("sgtz");
    assert("sgtz"@.len() == 4);
    assert("ecall"@ != "sgtz"@);
    reveal_strlit("beq");
    assert("beq"@.len() == 3);
    assert("ecall"@ != "beq"@);
    reveal_strlit("beqz");
    assert("beqz"@.len() == 4);
    assert("ecall"@ != "beqz"@);
    reveal_strlit("bgeu");
    assert("bgeu"@.len() == 4);
    assert("ecall"@ != "bgeu"@);
    reveal_strlit("bgez");
    assert("bgez"@.len() == 4);
    assert("ecall"@ != "bgez"@);
    reveal_strlit("bltu");
    assert("bltu"@.len() == 4);
    assert("ecall"@ != "bltu"@);
    reveal_strlit("blt");
    assert("blt"@.len() == 3);
    assert("ecall"@ != "blt"@);
    reveal_strlit("bge");
    assert("bge"@.len() == 3);
    assert("ecall"@ != "bge"@);
    reveal_strlit("bltz");
    assert("bltz"@.len() == 4);
    assert("ecall"@ != "bltz"@);
    reveal_strlit("blez");
    assert("blez"@.len() == 4);
    assert("ecall"@ != "blez"@);
    reveal_strlit("bgtz");
    assert("bgtz"@.len() == 4);
    assert("ecall"@ != "bgtz"@);
    reveal_strlit("bne");
    assert("bne"@.len() == 3);
    assert("ecall"@ != "bne"@);
    reveal_strlit("bnez");
    assert("bnez"@.len() == 4);
    assert("ecall"@ != "bnez"@);
    reveal_strlit("j");
    assert("j"@.len() == 1);
    assert("ecall"@ != "j"@);
    reveal_strlit("jr");
    assert("jr"@.len() == 2);
    assert("ecall"@ != "jr"@);
    reveal_strlit("jal");
    assert("jal"@.len() == 3);
    assert("ecall"@ != "jal"@);
    reveal_strlit("jalr");
    assert("jalr"@.len() == 4);
    assert("ecall"@ != "jalr"@);
    reveal_strlit("call");
    assert("call"@.len() == 4);
    assert("ecall"@ != "call"@);
    reveal_strlit("tail");
    assert("tail"@.len() == 4);
    assert("ecall"@ != "tail"@);
}

/// The lowering table's dispatch for this mnemonic reaches its group.
pub proof fn lemma_dispatch_ebreak(args: Seq<ArgV>)
    ensures
        spec_lower_jump("ebreak"@, args) is Some,
        spec_lower("ebreak"@, args) == spec_lower_jump("ebreak"@, args)->Some_0,
{
    reveal_strlit("ebreak");
    assert("ebreak"@.len() == 6);
    reveal_strlit("li");
    assert("li"@.len() == 2);
    assert("ebreak"@ != "li"@);
    reveal_strlit("lui");
    assert("lui"@.len() == 3);
    assert("ebreak"@ != "lui"@);
    reveal_strlit("la");
    assert("la"@.len() == 2);
    assert("ebreak"@ != "la"@);
    reveal_strlit("mv");
    assert("mv"@.len() == 2);
    assert("ebreak"@ != "mv"@);
    reveal_strlit("add");
    assert("add"@.len() == 3);
    assert("ebreak"@ != "add"@);
    reveal_strlit("addi");
    assert("addi"@.len() == 4);
    assert("ebreak"@ != "addi"@);
    reveal_strlit("sub");
    assert("sub"@.len() == 3);
    assert("ebreak"@ != "sub"@);
    reveal_strlit("neg");
    assert("neg"@.len() == 3);
    assert("ebreak"@ != "neg"@);
    reveal_strlit("mul");
    assert("mul"@.len() == 3);
    assert("ebreak"@ != "mul"@);
    reveal_strlit("mulhu");
    assert("mulhu"@.len() == 5);
    assert("ebreak"@ != "mulhu"@);
    reveal_strlit("divu");
    assert("divu"@.len() == 4);
    assert("ebreak"@ != "divu"@);
    reveal_strlit("xor");
    assert("xor"@.len() == 3);
    assert("ebreak"@ != "xor"@);
    reveal_strlit("xori");
    assert("xori"@.len() == 4);
    assert("ebreak"@ != "xori"@);
    reveal_strlit("and");
    assert("and"@.len() == 3);
    assert("ebreak"@ != "and"@);
    reveal_strlit("andi");
    assert("andi"@.len() == 4);
    assert("ebreak"@ != "andi"@);
    reveal_strlit("or");
    assert("or"@.len() == 2);
    assert("ebreak"@ != "or"@);
    reveal_strlit("ori");
    assert("ori"@.len() == 3);
    assert("ebreak"@ != "ori"@);
    reveal_strlit("not");
    assert("not"@.len() == 3);
    assert("ebreak"@ != "not"@);
    reveal_strlit("slli");
    assert("slli"@.len() == 4);
    assert("ebreak"@ != "slli"@);
    reveal_strlit("sll");
    assert("sll"@.len() == 3);
    assert("ebreak"@ != "sll"@);
    reveal_strlit("srli");
    assert("srli"@.len() == 4);
    assert("ebreak"@ != "srli"@);
    reveal_strlit("srl");
    assert("srl"@.len() == 3);
    assert("ebreak"@ != "srl"@);
    reveal_strlit("srai");
    assert("srai"@.len() == 4);
    assert("ebreak"@ != "srai"@);
    reveal_strlit("seqz");
    assert("seqz"@.len() == 4);
    assert("ebreak"@ != "seqz"@);
    reveal_strlit("snez");
    assert("snez"@.len() == 4);
    assert("ebreak"@ != "snez"@);
    reveal_strlit("slti");
    assert("slti"@.len() == 4);
    assert("ebreak"@ != "slti"@);
    reveal_strlit("slt");
    assert("slt"@.len() == 3);
    assert("ebreak"@ != "slt"@);
    reveal_strlit("sltiu");
    assert("sltiu"@.len() == 5);
    assert("ebreak"@ != "sltiu"@);
    reveal_strlit("sltu");
    assert("sltu"@.len() == 4);
    assert("ebreak"@ != "sltu"@);
    reveal_strlit("sgtz");
    assert("sgtz"@.len() == 4);
    assert("ebreak"@ != "sgtz"@);
    reveal_strlit("beq");
    assert("beq"@.len() == 3);
    assert("ebreak"@ != "beq"@);
    reveal_strlit("beqz");
    assert("beqz"@.len() == 4);
    assert("ebreak"@ != "beqz"@);
    reveal_strlit("bgeu");
    assert("bgeu"@.len() == 4);
    assert("ebreak"@ != "bgeu"@);
    reveal_strlit("bgez");
    assert("bgez"@.len() == 4);
    assert("ebreak"@ != "bgez"@);
    reveal_strlit("bltu");
    assert("bltu"@.len() == 4);
    assert("ebreak"@ != "bltu"@);
    reveal_strlit("blt");
    assert("blt"@.len() == 3);
    assert("ebreak"@ != "blt"@);
    reveal_strlit("bge");
    assert("bge"@.len() == 3);
    assert("ebreak"@ != "bge"@);
    reveal_strlit("bltz");
    assert("bltz"@.len() == 4);
    assert("ebreak"@ != "bltz"@);
    reveal_strlit("blez");
    assert("blez"@.len() == 4);
    assert("ebreak"@ != "blez"@);
    reveal_strlit("bgtz");
    assert("bgtz"@.len() == 4);
    assert("ebreak"@ != "bgtz"@);
    reveal_strlit("bne");
    assert("bne"@.len() == 3);
    assert("ebreak"@ != "bne"@);
    reveal_strlit("bnez");
    assert("bnez"@.len() == 4);
    assert("ebreak"@ != "bnez"@);
    reveal_strlit("j");
    assert("j"@.len() == 1);
    assert("ebreak"@ != "j"@);
    reveal_strlit("jr");
    assert("jr"@.len() == 2);
    assert("ebreak"@ != "jr"@);
    reveal_strlit("jal");
    assert("jal"@.len() == 3);
    assert("ebreak"@ != "jal"@);
    reveal_strlit("jalr");
    assert("jalr"@.len() == 4);
    assert("ebreak"@ != "jalr"@);
    reveal_strlit("call");
    assert("call"@.len() == 4);
    assert("ebreak"@ != "call"@);
    reveal_strlit("tail");
    assert("tail"@.len() == 4);
    assert("ebreak"@ != "tail"@);
    reveal_strlit("ecall");
    assert("ecall"@.len() == 5);
    assert("ebreak"@ != "ecall"@);
}

/// The lowering table's dispatch for this mnemonic reaches its group.
pub proof fn lemma_dispatch_ret(args: Seq<ArgV>)
    ensures
        spec_lower_jump("ret"@, args) is Some,
        spec_lower("ret"@, args) == spec_lower_jump("ret"@, args)->Some_0,
{
    reveal_strlit("ret");
    assert("ret"@.len() == 3);
    reveal_strlit("li");
    assert("li"@.len() == 2);
    assert("ret"@ != "li"@);
    reveal_strlit("lui");
    assert("ret"@[0] != "lui"@[0]);
    assert("ret"@ != "lui"@);
    reveal_strlit("la");
    assert("la"@.len() == 2);
    assert("ret"@ != "la"@);
    reveal_strlit("mv");
    assert("mv"@.len() == 2);
    assert("ret"@ != "mv"@);
    reveal_strlit("add");
    assert("ret"@[0] != "add"@[0]);
    assert("ret"@ != "add"@);
    reveal_strlit("addi");
    assert("addi"@.len() == 4);
    assert("ret"@ != "addi"@);
    reveal_strlit("sub");
    assert("ret"@[0] != "sub"@[0]);
    assert("ret"@ != "sub"@);
    reveal_strlit("neg");
    assert("ret"@[0] != "neg"@[0]);
    assert("ret"@ != "neg"@);
    reveal_strlit("mul");
    assert("ret"@[0] != "mul"@[0]);
    assert("ret"@ != "mul"@);
    reveal_strlit("mulhu");
    assert("mulhu"@.len() == 5);
    assert("ret"@ != "mulhu"@);
    reveal_strlit("divu");
    assert("divu"@.len() == 4);
    assert("ret"@ != "divu"@);
    reveal_strlit("xor");
    assert("ret"@[0] != "xor"@[0]);
    assert("ret"@ != "xor"@);
    reveal_strlit("xori");
    assert("xori"@.len() == 4);
    assert("ret"@ != "xori"@);
    reveal_strlit("and");
    assert("ret"@[0] != "and"@[0]);
    assert("ret"@ != "and"@);
    reveal_strlit("andi");
    assert("andi"@.len() == 4);
    assert("ret"@ != "andi"@);
    reveal_strlit("or");
    assert("or"@.len() == 2);
    assert("ret"@ != "or"@);
    reveal_strlit("ori");
    assert("ret"@[0] != "ori"@[0]);
    assert("ret"@ != "ori"@);
    reveal_strlit("not");
    assert("ret"@[0] != "not"@[0]);
    assert("ret"@ != "not"@);
    reveal_strlit("slli");
    assert("slli"@.len() == 4);
    assert("ret"@ != "slli"@);
    reveal_strlit("sll");
    assert("ret"@[0] != "sll"@[0]);
    assert("ret"@ != "sll"@);
    reveal_strlit("srli");
    assert("srli"@.len() == 4);
    assert("ret"@ != "srli"@);
    reveal_strlit("srl");
    assert("ret"@[0] != "srl"@[0]);
    assert("ret"@ != "srl"@);
    reveal_strlit("srai");
    assert("srai"@.len() == 4);
    assert("ret"@ != "srai"@);
    reveal_strlit("seqz");
    assert("seqz"@.len() == 4);
    assert("ret"@ != "seqz"@);
    reveal_strlit("snez");
    assert("snez"@.len() == 4);
    assert("ret"@ != "snez"@);
    reveal_strlit("slti");
    assert("slti"@.len() == 4);
    assert("ret"@ != "slti"@);
    reveal_strlit("slt");
    assert("ret"@[0] != "slt"@[0]);
    assert("ret"@ != "slt"@);
    reveal_strlit("sltiu");
    assert("sltiu"@.len() == 5);
    assert("ret"@ != "sltiu"@);
    reveal_strlit("sltu");
    assert("sltu"@.len() == 4);
    assert("ret"@ != "sltu"@);
    reveal_strlit("sgtz");
    assert("sgtz"@.len() == 4);
    assert("ret"@ != "sgtz"@);
    reveal_strlit("beq");
    assert("ret"@[0] != "beq"@[0]);
    assert("ret"@ != "beq"@);
    reveal_strlit("beqz");
    assert("beqz"@.len() == 4);
    assert("ret"@ != "beqz"@);
    reveal_strlit("bgeu");
    assert("bgeu"@.len() == 4);
    assert("ret"@ != "bgeu"@);
    reveal_strlit("bgez");
    assert("bgez"@.len() == 4);
    assert("ret"@ != "bgez"@);
    reveal_strlit("bltu");
    assert("bltu"@.len() == 4);
    assert("ret"@ != "bltu"@);
    reveal_strlit("blt");
    assert("ret"@[0] != "blt"@[0]);
    assert("ret"@ != "blt"@);
    reveal_strlit("bge");
    assert("ret"@[0] != "bge"@[0]);
    assert("ret"@ != "bge"@);
    reveal_strlit("bltz");
    assert("bltz"@.len() == 4);
    assert("ret"@ != "bltz"@);
    reveal_strlit("blez");
    assert("blez"@.len() == 4);
    assert("ret"@ != "blez"@);
    reveal_strlit("bgtz");
    assert("bgtz"@.len() == 4);
    assert("ret"@ != "bgtz"@);
    reveal_strlit("bne");
    assert("ret"@[0] != "bne"@[0]);
    assert("ret"@ != "bne"@);
    reveal_strlit("bnez");
    assert("bnez"@.len() == 4);
    assert("ret"@ != "bnez"@);
    reveal_strlit("j");
    assert("j"@.len() == 1);
    assert("ret"@ != "j"@);
    reveal_strlit("jr");
    assert("jr"@.len() == 2);
    assert("ret"@ != "jr"@);
    reveal_strlit("jal");
    assert("ret"@[0] != "jal"@[0]);
    assert("ret"@ != "jal"@);
    reveal_strlit("jalr");
    assert("jalr"@.len() == 4);
    assert("ret"@ != "jalr"@);
    reveal_strlit("call");
    assert("call"@.len() == 4);
    assert("ret"@ != "call"@);
    reveal_strlit("tail");
    assert("tail"@.len() == 4);
    assert("ret"@ != "tail"@);
    reveal_strlit("ecall");
    assert("ecall"@.len() == 5);
    assert("ret"@ != "ecall"@);
    reveal_strlit("ebreak");
    assert("ebreak"@.len() == 6);
    assert("ret"@ != "ebreak"@);
}

/// The lowering table's dispatch for this mnemonic reaches its group.
pub proof fn lemma_dispatch_lw(args: Seq<ArgV>)
    ensures
        spec_lower_mem("lw"@, args) is Some,
        spec_lower("lw"@, args) == spec_lower_mem("lw"@, args)->Some_0,
{
    reveal_strlit("lw");
    assert("lw"@.len() == 2);
    reveal_strlit("li");
    assert("lw"@[1] != "li"@[1]);
    assert("lw"@ != "li"@);
    reveal_strlit("lui");
    assert("lui"@.len() == 3);
    assert("lw"@ != "lui"@);
    reveal_strlit("la");
    assert("lw"@[1] != "la"@[1]);
    assert("lw"@ != "la"@);
    reveal_strlit("mv");
    assert("lw"@[0] != "mv"@[0]);
    assert("lw"@ != "mv"@);
    reveal_strlit("add");
    assert("add"@.len() == 3);
    assert("lw"@ != "add"@);
    reveal_strlit("addi");
    assert("addi"@.len() == 4);
    assert("lw"@ != "addi"@);
    reveal_strlit("sub");
    assert("sub"@.len() == 3);
    assert("lw"@ != "sub"@);
    reveal_strlit("neg");
    assert("neg"@.len() == 3);
    assert("lw"@ != "neg"@);
    reveal_strlit("mul");
    assert("mul"@.len() == 3);
    assert("lw"@ != "mul"@);
    reveal_strlit("mulhu");
    assert("mulhu"@.len() == 5);
    assert("lw"@ != "mulhu"@);
    reveal_strlit("divu");
    assert("divu"@.len() == 4);
    assert("lw"@ != "divu"@);
    reveal_strlit("xor");
    assert("xor"@.len() == 3);
    assert("lw"@ != "xor"@);
    reveal_strlit("xori");
    assert("xori"@.len() == 4);
    assert("lw"@ != "xori"@);
    reveal_strlit("and");
    assert("and"@.len() == 3);
    assert("lw"@ != "and"@);
    reveal_strlit("andi");
    assert("andi"@.len() == 4);
    assert("lw"@ != "andi"@);
    reveal_strlit("or");
    assert("lw"@[0] != "or"@[0]);
    assert("lw"@ != "or"@);
    reveal_strlit("ori");
    assert("ori"@.len() == 3);
    assert("lw"@ != "ori"@);
    reveal_strlit("not");
    assert("not"@.len() == 3);
    assert("lw"@ != "not"@);
    reveal_strlit("slli");
    assert("slli"@.len() == 4);
    assert("lw"@ != "slli"@);
    reveal_strlit("sll");
    assert("sll"@.len() == 3);
    assert("lw"@ != "sll"@);
    reveal_strlit("srli");
    assert("srli"@.len() == 4);
    assert("lw"@ != "srli"@);
    reveal_strlit("srl");
    assert("srl"@.len() == 3);
    assert("lw"@ != "srl"@);
    reveal_strlit("srai");
    assert("srai"@.len() == 4);
    assert("lw"@ != "srai"@);
    reveal_strlit("seqz");
    assert("seqz"@.len() == 4);
    assert("lw"@ != "seqz"@);
    reveal_strlit("snez");
    assert("snez"@.len() == 4);
    assert("lw"@ != "snez"@);
    reveal_strlit("slti");
    assert("slti"@.len() == 4);
    assert("lw"@ != "slti"@);
    reveal_strlit("slt");
    assert("slt"@.len() == 3);
    assert("lw"@ != "slt"@);
    reveal_strlit("sltiu");
    assert("sltiu"@.len() == 5);
    assert("lw"@ != "sltiu"@);
    reveal_strlit("sltu");
    assert("sltu"@.len() == 4);
    assert("lw"@ != "sltu"@);
    reveal_strlit("sgtz");
    assert("sgtz"@.len() == 4);
    assert("lw"@ != "sgtz"@);
    reveal_strlit("beq");
    assert("beq"@.len() == 3);
    assert("lw"@ != "beq"@);
    reveal_strlit("beqz");
    assert("beqz"@.len() == 4);
    assert("lw"@ != "beqz"@);
    reveal_strlit("bgeu");
    assert("bgeu"@.len() == 4);
    assert("lw"@ != "bgeu"@);
    reveal_strlit("bgez");
    assert("bgez"@.len() == 4);
    assert("lw"@ != "bgez"@);
    reveal_strlit("bltu");
    assert("bltu"@.len() == 4);
    assert("lw"@ != "bltu"@);
    reveal_strlit("blt");
    assert("blt"@.len() == 3);
    assert("lw"@ != "blt"@);
    reveal_strlit("bge");
    assert("bge"@.len() == 3);
    assert("lw"@ != "bge"@);
    reveal_strlit("bltz");
    assert("bltz"@.len() == 4);
    assert("lw"@ != "bltz"@);
    reveal_strlit("blez");
    assert("blez"@.len() == 4);
    assert("lw"@ != "blez"@);
    reveal_strlit("bgtz");
    assert("bgtz"@.len() == 4);
    assert("lw"@ != "bgtz"@);
    reveal_strlit("bne");
    assert("bne"@.len() == 3);
    assert("lw"@ != "bne"@);
    reveal_strlit("bnez");
    assert("bnez"@.len() == 4);
    assert("lw"@ != "bnez"@);
    reveal_strlit("j");
    assert("j"@.len() == 1);
    assert("lw"@ != "j"@);
    reveal_strlit("jr");
    assert("lw"@[0] != "jr"@[0]);
    assert("lw"@ != "jr"@);
    reveal_strlit("jal");
    assert("jal"@.len() == 3);
    assert("lw"@ != "jal"@);
    reveal_strlit("jalr");
    assert("jalr"@.len() == 4);
    assert("lw"@ != "jalr"@);
    reveal_strlit("call");
    assert("call"@.len() == 4);
    assert("lw"@ != "call"@);
    reveal_strlit("tail");
    assert("tail"@.len() == 4);
    assert("lw"@ != "tail"@);
    reveal_strlit("ecall");
    assert("ecall"@.len() == 5);
    assert("lw"@ != "ecall"@);
    reveal_strlit("ebreak");
    assert("ebreak"@.len() == 6);
    assert("lw"@ != "ebreak"@);
    reveal_strlit("ret");
    assert("ret"@.len() == 3);
    assert("lw"@ != "ret"@);
}

/// The lowering table's dispatch for this mnemonic reaches its group.
pub proof fn lemma_dispatch_lb(args: Seq<ArgV>)
    ensures
        spec_lower_mem("lb"@, args) is Some,
        spec_lower("lb"@, args) == spec_lower_mem("lb"@, args)->Some_0,
{
    reveal_strlit("lb");
    assert("lb"@.len() == 2);
    reveal_strlit("li");
    assert("lb"@[1] != "li"@[1]);
    assert("lb"@ != "li"@);
    reveal_strlit("lui");
    assert("lui"@.len() == 3);
    assert("lb"@ != "lui"@);
    reveal_strlit("la");
    assert("lb"@[1] != "la"@[1]);
    assert("lb"@ != "la"@);
    reveal_strlit("mv");
    assert("lb"@[0] != "mv"@[0]);
    assert("lb"@ != "mv"@);
    reveal_strlit("add");
    assert("add"@.len() == 3);
    assert("lb"@ != "add"@);
    reveal_strlit("addi");
    assert("addi"@.len() == 4);
    assert("lb"@ != "addi"@);
    reveal_strlit("sub");
    assert("sub"@.len() == 3);
    assert("lb"@ != "sub"@);
    reveal_strlit("neg");
    assert("neg"@.len() == 3);
    assert("lb"@ != "neg"@);
    reveal_strlit("mul");
    assert("mul"@.len() == 3);
    assert("lb"@ != "mul"@);
    reveal_strlit("mulhu");
    assert("mulhu"@.len() == 5);
    assert("lb"@ != "mulhu"@);
    reveal_strlit("divu");
    assert("divu"@.len() == 4);
    assert("lb"@ != "divu"@);
    reveal_strlit("xor");
    assert("xor"@.len() == 3);
    assert("lb"@ != "xor"@);
    reveal_strlit("xori");
    assert("xori"@.len() == 4);
    assert("lb"@ != "xori"@);
    reveal_strlit("and");
    assert("and"@.len() == 3);
    assert("lb"@ != "and"@);
    reveal_strlit("andi");
    assert("andi"@.len() == 4);
    assert("lb"@ != "andi"@);
    reveal_strlit("or");
    assert("lb"@[0] != "or"@[0]);
    assert("lb"@ != "or"@);
    reveal_strlit("ori");
    assert("ori"@.len() == 3);
    assert("lb"@ != "ori"@);
    reveal_strlit("not");
    assert("not"@.len() == 3);
    assert("lb"@ != "not"@);
    reveal_strlit("slli");
    assert("slli"@.len() == 4);
    assert("lb"@ != "slli"@);
    reveal_strlit("sll");
    assert("sll"@.len() == 3);
    assert("lb"@ != "sll"@);
    reveal_strlit("srli");
    assert("srli"@.len() == 4);
    assert("lb"@ != "srli"@);
    reveal_strlit("srl");
    assert("srl"@.len() == 3);
    assert("lb"@ != "srl"@);
    reveal_strlit("srai");
    assert("srai"@.len() == 4);
    assert("lb"@ != "srai"@);
    reveal_strlit("seqz");
    assert("seqz"@.len() == 4);
    assert("lb"@ != "seqz"@);
    reveal_strlit("snez");
    assert("snez"@.len() == 4);
    assert("lb"@ != "snez"@);
    reveal_strlit("slti");
    assert("slti"@.len() == 4);
    assert("lb"@ != "slti"@);
    reveal_strlit("slt");
    assert("slt"@.len() == 3);
    assert("lb"@ != "slt"@);
    reveal_strlit("sltiu");
    assert("sltiu"@.len() == 5);
    assert("lb"@ != "sltiu"@);
    reveal_strlit("sltu");
    assert("sltu"@.len() == 4);
    assert("lb"@ != "sltu"@);
    reveal_strlit("sgtz");
    assert("sgtz"@.len() == 4);
    assert("lb"@ != "sgtz"@);
    reveal_strlit("beq");
    assert("beq"@.len() == 3);
    assert("lb"@ != "beq"@);
    reveal_strlit("beqz");
    assert("beqz"@.len() == 4);
    assert("lb"@ != "beqz"@);
    reveal_strlit("bgeu");
    assert("bgeu"@.len() == 4);
    assert("lb"@ != "bgeu"@);
    reveal_strlit("bgez");
    assert("bgez"@.len() == 4);
    assert("lb"@ != "bgez"@);
    reveal_strlit("bltu");
    assert("bltu"@.len() == 4);
    assert("lb"@ != "bltu"@);
    reveal_strlit("blt");
    assert("blt"@.len() == 3);
    assert("lb"@ != "blt"@);
    reveal_strlit("bge");
    assert("bge"@.len() == 3);
    assert("lb"@ != "bge"@);
    reveal_strlit("bltz");
    assert("bltz"@.len() == 4);
    assert("lb"@ != "bltz"@);
    reveal_strlit("blez");
    assert("blez"@.len() == 4);
    assert("lb"@ != "blez"@);
    reveal_strlit("bgtz");
    assert("bgtz"@.len() == 4);
    assert("lb"@ != "bgtz"@);
    reveal_strlit("bne");
    assert("bne"@.len() == 3);
    assert("lb"@ != "bne"@);
    reveal_strlit("bnez");
    assert("bnez"@.len() == 4);
    assert("lb"@ != "bnez"@);
    reveal_strlit("j");
    assert("j"@.len() == 1);
    assert("lb"@ != "j"@);
    reveal_strlit("jr");
    assert("lb"@[0] != "jr"@[0]);
    assert("lb"@ != "jr"@);
    reveal_strlit("jal");
    assert("jal"@.len() == 3);
    assert("lb"@ != "jal"@);
    reveal_strlit("jalr");
    assert("jalr"@.len() == 4);
    assert("lb"@ != "jalr"@);
    reveal_strlit("call");
    assert("call"@.len() == 4);
    assert("lb"@ != "call"@);
    reveal_strlit("tail");
    assert("tail"@.len() == 4);
    assert("lb"@ != "tail"@);
    reveal_strlit("ecall");
    assert("ecall"@.len() == 5);
    assert("lb"@ != "ecall"@);
    reveal_strlit("ebreak");
    assert("ebreak"@.len() == 6);
    assert("lb"@ != "ebreak"@);
    reveal_strlit("ret");
    assert("ret"@.len() == 3);
    assert("lb"@ != "ret"@);
    reveal_strlit("lw");
    assert("lb"@[1] != "lw"@[1]);
    assert("lb"@ != "lw"@);
}

/// The lowering table's dispatch for this mnemonic reaches its group.
pub proof fn lemma_dispatch_lbu(args: Seq<ArgV>)
    ensures
        spec_lower_mem("lbu"@, args) is Some,
        spec_lower("lbu"@, args) == spec_lower_mem("lbu"@, args)->Some_0,
{
    reveal_strlit("lbu");
    assert("lbu"@.len() == 3);
    reveal_strlit("li");
    assert("li"@.len() == 2);
    assert("lbu"@ != "li"@);
    reveal_strlit("lui");
    assert("lbu"@[1] != "lui"@[1]);
    assert("lbu"@ != "lui"@);
    reveal_strlit("la");
    assert("la"@.len() == 2);
    assert("lbu"@ != "la"@);
    reveal_strlit("mv");
    assert("mv"@.len() == 2);
    assert("lbu"@ != "mv"@);
    reveal_strlit("add");
    assert("lbu"@[0] != "add"@[0]);
    assert("lbu"@ != "add"@);
    reveal_strlit("addi");
    assert("addi"@.len() == 4);
    assert("lbu"@ != "addi"@);
    reveal_strlit("sub");
    assert("lbu"@[0] != "sub"@[0]);
    assert("lbu"@ != "sub"@);
    reveal_strlit("neg");
    assert("lbu"@[0] != "neg"@[0]);
    assert("lbu"@ != "neg"@);
    reveal_strlit("mul");
    assert("lbu"@[0] != "mul"@[0]);
    assert("lbu"@ != "mul"@);
    reveal_strlit("mulhu");
    assert("mulhu"@.len() == 5);
    assert("lbu"@ != "mulhu"@);
    reveal_strlit("divu");
    assert("divu"@.len() == 4);
    assert("lbu"@ != "divu"@);
    reveal_strlit("xor");
    assert("lbu"@[0] != "xor"@[0]);
    assert("lbu"@ != "xor"@);
    reveal_strlit("xori");
    assert("xori"@.len() == 4);
    assert("lbu"@ != "xori"@);
    reveal_strlit("and");
    assert("lbu"@[0] != "and"@[0]);
    assert("lbu"@ != "and"@);
    reveal_strlit("andi");
    assert("andi"@.len() == 4);
    assert("lbu"@ != "andi"@);
    reveal_strlit("or");
    assert("or"@.len() == 2);
    assert("lbu"@ != "or"@);
    reveal_strlit("ori");
    assert("lbu"@[0] != "ori"@[0]);
    assert("lbu"@ != "ori"@);
    reveal_strlit("not");
    assert("lbu"@[0] != "not"@[0]);
    assert("lbu"@ != "not"@);
    reveal_strlit("slli");
    assert("slli"@.len() == 4);
    assert("lbu"@ != "slli"@);
    reveal_strlit("sll");
    assert("lbu"@[0] != "sll"@[0]);
    assert("lbu"@ != "sll"@);
    reveal_strlit("srli");
    assert("srli"@.len() == 4);
    assert("lbu"@ != "srli"@);
    reveal_strlit("srl");
    assert("lbu"@[0] != "srl"@[0]);
    assert("lbu"@ != "srl"@);
    reveal_strlit("srai");
    assert("srai"@.len() == 4);
    assert("lbu"@ != "srai"@);
    reveal_strlit("seqz");
    assert("seqz"@.len() == 4);
    assert("lbu"@ != "seqz"@);
    reveal_strlit("snez");
    assert("snez"@.len() == 4);
    assert("lbu"@ != "snez"@);
    reveal_strlit("slti");
    assert("slti"@.len() == 4);
    assert("lbu"@ != "slti"@);
    reveal_strlit("slt");
    assert("lbu"@[0] != "slt"@[0]);
    assert("lbu"@ != "slt"@);
    reveal_strlit("sltiu");
    assert("sltiu"@.len() == 5);
    assert("lbu"@ != "sltiu"@);
    reveal_strlit("sltu");
    assert("sltu"@.len() == 4);
    assert("lbu"@ != "sltu"@);
    reveal_strlit("sgtz");
    assert("sgtz"@.len() == 4);
    assert("lbu"@ != "sgtz"@);
    reveal_strlit("beq");
    assert("lbu"@[0] != "beq"@[0]);
    assert("lbu"@ != "beq"@);
    reveal_strlit("beqz");
    assert("beqz"@.len() == 4);
    assert("lbu"@ != "beqz"@);
    reveal_strlit("bgeu");
    assert("bgeu"@.len() == 4);
    assert("lbu"@ != "bgeu"@);
    reveal_strlit("bgez");
    assert("bgez"@.len() == 4);
    assert("lbu"@ != "bgez"@);
    reveal_strlit("bltu");
    assert("bltu"@.len() == 4);
    assert("lbu"@ != "bltu"@);
    reveal_strlit("blt");
    assert("lbu"@[0] != "blt"@[0]);
    assert("lbu"@ != "blt"@);
    reveal_strlit("bge");
    assert("lbu"@[0] != "bge"@[0]);
    assert("lbu"@ != "bge"@);
    reveal_strlit("bltz");
    assert("bltz"@.len() == 4);
    assert("lbu"@ != "bltz"@);
    reveal_strlit("blez");
    assert("blez"@.len() == 4);
    assert("lbu"@ != "blez"@);
    reveal_strlit("bgtz");
    assert("bgtz"@.len() == 4);
    assert("lbu"@ != "bgtz"@);
    reveal_strlit("bne");
    assert("lbu"@[0] != "bne"@[0]);
    assert("lbu"@ != "bne"@);
    reveal_strlit("bnez");
    assert("bnez"@.len() == 4);
    assert("lbu"@ != "bnez"@);
    reveal_strlit("j");
    assert("j"@.len() == 1);
    assert("lbu"@ != "j"@);
    reveal_strlit("jr");
    assert("jr"@.len() == 2);
    assert("lbu"@ != "jr"@);
    reveal_strlit("jal");
    assert("lbu"@[0] != "jal"@[0]);
    assert("lbu"@ != "jal"@);
    reveal_strlit("jalr");
    assert("jalr"@.len() == 4);
    assert("lbu"@ != "jalr"@);
    reveal_strlit("call");
    assert("call"@.len() == 4);
    assert("lbu"@ != "call"@);
    reveal_strlit("tail");
    assert("tail"@.len() == 4);
    assert("lbu"@ != "tail"@);
    reveal_strlit("ecall");
    assert("ecall"@.len() == 5);
    assert("lbu"@ != "ecall"@);
    reveal_strlit("ebreak");
    assert("ebreak"@.len() == 6);
    assert("lbu"@ != "ebreak"@);
    reveal_strlit("ret");
    assert("lbu"@[0] != "ret"@[0]);
    assert("lbu"@ != "ret"@);
    reveal_strlit("lw");
    assert("lw"@.len() == 2);
    assert("lbu"@ != "lw"@);
    reveal_strlit("lb");
    assert("lb"@.len() == 2);
    assert("lbu"@ != "lb"@);
}

/// The lowering table's dispatch for this mnemonic reaches its group.
pub proof fn lemma_dispatch_lhu(args: Seq<ArgV>)
    ensures
        spec_lower_mem("lhu"@, args) is Some,
        spec_lower("lhu"@, args) == spec_lower_mem("lhu"@, args)->Some_0,
{
    reveal_strlit("lhu");
    assert("lhu"@.len() == 3);
    reveal_strlit("li");
    assert("li"@.len() == 2);
    assert("lhu"@ != "li"@);
    reveal_strlit("lui");
    assert("lhu"@[1] != "lui"@[1]);
    assert("lhu"@ != "lui"@);
    reveal_strlit("la");
    assert("la"@.len() == 2);
    assert("lhu"@ != "la"@);
    reveal_strlit("mv");
    assert("mv"@.len() == 2);
    assert("lhu"@ != "mv"@);
    reveal_strlit("add");
    assert("lhu"@[0] != "add"@[0]);
    assert("lhu"@ != "add"@);
    reveal_strlit("addi");
    assert("addi"@.len() == 4);
    assert("lhu"@ != "addi"@);
    reveal_strlit("sub");
    assert("lhu"@[0] != "sub"@[0]);
    assert("lhu"@ != "sub"@);
    reveal_strlit("neg");
    assert("lhu"@[0] != "neg"@[0]);
    assert("lhu"@ != "neg"@);
    reveal_strlit("mul");
    assert("lhu"@[0] != "mul"@[0]);
    assert("lhu"@ != "mul"@);
    reveal_strlit("mulhu");
    assert("mulhu"@.len() == 5);
    assert("lhu"@ != "mulhu"@);
    reveal_strlit("divu");
    assert("divu"@.len() == 4);
    assert("lhu"@ != "divu"@);
    reveal_strlit("xor");
    assert("lhu"@[0] != "xor"@[0]);
    assert("lhu"@ != "xor"@);
    reveal_strlit("xori");
    assert("xori"@.len() == 4);
    assert("lhu"@ != "xori"@);
    reveal_strlit("and");
    assert("lhu"@[0] != "and"@[0]);
    assert("lhu"@ != "and"@);
    reveal_strlit("andi");
    assert("andi"@.len() == 4);
    assert("lhu"@ != "andi"@);
    reveal_strlit("or");
    assert("or"@.len() == 2);
    assert("lhu"@ != "or"@);
    reveal_strlit("ori");
    assert("lhu"@[0] != "ori"@[0]);
    assert("lhu"@ != "ori"@);
    reveal_strlit("not");
    assert("lhu"@[0] != "not"@[0]);
    assert("lhu"@ != "not"@);
    reveal_strlit("slli");
    assert("slli"@.len() == 4);
    assert("lhu"@ != "slli"@);
    reveal_strlit("sll");
    assert("lhu"@[0] != "sll"@[0]);
    assert("lhu"@ != "sll"@);
    reveal_strlit("srli");
    assert("srli"@.len() == 4);
    assert("lhu"@ != "srli"@);
    reveal_strlit("srl");
    assert("lhu"@[0] != "srl"@[0]);
    assert("lhu"@ != "srl"@);
    reveal_strlit("srai");
    assert("srai"@.len() == 4);
    assert("lhu"@ != "srai"@);
    reveal_strlit("seqz");
    assert("seqz"@.len() == 4);
    assert("lhu"@ != "seqz"@);
    reveal_strlit("snez");
    assert("snez"@.len() == 4);
    assert("lhu"@ != "snez"@);
    reveal_strlit("slti");
    assert("slti"@.len() == 4);
    assert("lhu"@ != "slti"@);
    reveal_strlit("slt");
    assert("lhu"@[0] != "slt"@[0]);
    assert("lhu"@ != "slt"@);
    reveal_strlit("sltiu");
    assert("sltiu"@.len() == 5);
    assert("lhu"@ != "sltiu"@);
    reveal_strlit("sltu");
    assert("sltu"@.len() == 4);
    assert("lhu"@ != "sltu"@);
    reveal_strlit("sgtz");
    assert("sgtz"@.len() == 4);
    assert("lhu"@ != "sgtz"@);
    reveal_strlit("beq");
    assert("lhu"@[0] != "beq"@[0]);
    assert("lhu"@ != "beq"@);
    reveal_strlit("beqz");
    assert("beqz"@.len() == 4);
    assert("lhu"@ != "beqz"@);
    reveal_strlit("bgeu");
    assert("bgeu"@.len() == 4);
    assert("lhu"@ != "bgeu"@);
    reveal_strlit("bgez");
    assert("bgez"@.len() == 4);
    assert("lhu"@ != "bgez"@);
    reveal_strlit("bltu");
    assert("bltu"@.len() == 4);
    assert("lhu"@ != "bltu"@);
    reveal_strlit("blt");
    assert("lhu"@[0] != "blt"@[0]);
    assert("lhu"@ != "blt"@);
    reveal_strlit("bge");
    assert("lhu"@[0] != "bge"@[0]);
    assert("lhu"@ != "bge"@);
    reveal_strlit("bltz");
    assert("bltz"@.len() == 4);
    assert("lhu"@ != "bltz"@);
    reveal_strlit("blez");
    assert("blez"@.len() == 4);
    assert("lhu"@ != "blez"@);
    reveal_strlit("bgtz");
    assert("bgtz"@.len() == 4);
    assert("lhu"@ != "bgtz"@);
    reveal_strlit("bne");
    assert("lhu"@[0] != "bne"@[0]);
    assert("lhu"@ != "bne"@);
    reveal_strlit("bnez");
    assert("bnez"@.len() == 4);
    assert("lhu"@ != "bnez"@);
    reveal_strlit("j");
    assert("j"@.len() == 1);
    assert("lhu"@ != "j"@);
    reveal_strlit("jr");
    assert("jr"@.len() == 2);
    assert("lhu"@ != "jr"@);
    reveal_strlit("jal");
    assert("lhu"@[0] != "jal"@[0]);
    assert("lhu"@ != "jal"@);
    reveal_strlit("jalr");
    assert("jalr"@.len() == 4);
    assert("lhu"@ != "jalr"@);
    reveal_strlit("call");
    assert("call"@.len() == 4);
    assert("lhu"@ != "call"@);
    reveal_strlit("tail");
    assert("tail"@.len() == 4);
    assert("lhu"@ != "tail"@);
    reveal_strlit("ecall");
    assert("ecall"@.len() == 5);
    assert("lhu"@ != "ecall"@);
    reveal_strlit("ebreak");
    assert("ebreak"@.len() == 6);
    assert("lhu"@ != "ebreak"@);
    reveal_strlit("ret");
    assert("lhu"@[0] != "ret"@[0]);
    assert("lhu"@ != "ret"@);
    reveal_strlit("lw");
    assert("lw"@.len() == 2);
    assert("lhu"@ != "lw"@);
    reveal_strlit("lb");
    assert("lb"@.len() == 2);
    assert("lhu"@ != "lb"@);
    reveal_strlit("lbu");
    assert("lhu"@[1] != "lbu"@[1]);
    assert("lhu"@ != "lbu"@);
}

/// The lowering table's dispatch for this mnemonic reaches its group.
pub proof fn lemma_dispatch_sw(args: Seq<ArgV>)
    ensures
        spec_lower_mem("sw"@, args) is Some,
        spec_lower("sw"@, args) == spec_lower_mem("sw"@, args)->Some_0,
{
    reveal_strlit("sw");
    assert("sw"@.len() == 2);
    reveal_strlit("li");
    assert("sw"@[0] != "li"@[0]);
    assert("sw"@ != "li"@);
    reveal_strlit("lui");
    assert("lui"@.len() == 3);
    assert("sw"@ != "lui"@);
    reveal_strlit("la");
    assert("sw"@[0] != "la"@[0]);
    assert("sw"@ != "la"@);
    reveal_strlit("mv");
    assert("sw"@[0] != "mv"@[0]);
    assert("sw"@ != "mv"@);
    reveal_strlit("add");
    assert("add"@.len() == 3);
    assert("sw"@ != "add"@);
    reveal_strlit("addi");
    assert("addi"@.len() == 4);
    assert("sw"@ != "addi"@);
    reveal_strlit("sub");
    assert("sub"@.len() == 3);
    assert("sw"@ != "sub"@);
    reveal_strlit("neg");
    assert("neg"@.len() == 3);
    assert("sw"@ != "neg"@);
    reveal_strlit("mul");
    assert("mul"@.len() == 3);
    assert("sw"@ != "mul"@);
    reveal_strlit("mulhu");
    assert("mulhu"@.len() == 5);
    assert("sw"@ != "mulhu"@);
    reveal_strlit("divu");
    assert("divu"@.len() == 4);
    assert("sw"@ != "divu"@);
    reveal_strlit("xor");
    assert("xor"@.len() == 3);
    assert("sw"@ != "xor"@);
    reveal_strlit("xori");
    assert("xori"@.len() == 4);
    assert("sw"@ != "xori"@);
    reveal_strlit("and");
    assert("and"@.len() == 3);
    assert("sw"@ != "and"@);
    reveal_strlit("andi");
    assert("andi"@.len() == 4);
    assert("sw"@ != "andi"@);
    reveal_strlit("or");
    assert("sw"@[0] != "or"@[0]);
    assert("sw"@ != "or"@);
    reveal_strlit("ori");
    assert("ori"@.len() == 3);
    assert("sw"@ != "ori"@);
    reveal_strlit("not");
    assert("not"@.len() == 3);
    assert("sw"@ != "not"@);
    reveal_strlit("slli");
    assert("slli"@.len() == 4);
    assert("sw"@ != "slli"@);
    reveal_strlit("sll");
    assert("sll"@.len() == 3);
    assert("sw"@ != "sll"@);
    reveal_strlit("srli");
    assert("srli"@.len() == 4);
    assert("sw"@ != "srli"@);
    reveal_strlit("srl");
    assert("srl"@.len() == 3);
    assert("sw"@ != "srl"@);
    reveal_strlit("srai");
    assert("srai"@.len() == 4);
    assert("sw"@ != "srai"@);
    reveal_strlit("seqz");
    assert("seqz"@.len() == 4);
    assert("sw"@ != "seqz"@);
    reveal_strlit("snez");
    assert("snez"@.len() == 4);
    assert("sw"@ != "snez"@);
    reveal_strlit("slti");
    assert("slti"@.len() == 4);
    assert("sw"@ != "slti"@);
    reveal_strlit("slt");
    assert("slt"@.len() == 3);
    assert("sw"@ != "slt"@);
    reveal_strlit("sltiu");
    assert("sltiu"@.len() == 5);
    assert("sw"@ != "sltiu"@);
    reveal_strlit("sltu");
    assert("sltu"@.len() == 4);
    assert("sw"@ != "sltu"@);
    reveal_strlit("sgtz");
    assert("sgtz"@.len() == 4);
    assert("sw"@ != "sgtz"@);
    reveal_strlit("beq");
    assert("beq"@.len() == 3);
    assert("sw"@ != "beq"@);
    reveal_strlit("beqz");
    assert("beqz"@.len() == 4);
    assert("sw"@ != "beqz"@);
    reveal_strlit("bgeu");
    assert("bgeu"@.len() == 4);
    assert("sw"@ != "bgeu"@);
    reveal_strlit("bgez");
    assert("bgez"@.len() == 4);
    assert("sw"@ != "bgez"@);
    reveal_strlit("bltu");
    assert("bltu"@.len() == 4);
    assert("sw"@ != "bltu"@);
    reveal_strlit("blt");
    assert("blt"@.len() == 3);
    assert("sw"@ != "blt"@);
    reveal_strlit("bge");
    assert("bge"@.len() == 3);
    assert("sw"@ != "bge"@);
    reveal_strlit("bltz");
    assert("bltz"@.len() == 4);
    assert("sw"@ != "bltz"@);
    reveal_strlit("blez");
    assert("blez"@.len() == 4);
    assert("sw"@ != "blez"@);
    reveal_strlit("bgtz");
    assert("bgtz"@.len() == 4);
    assert("sw"@ != "bgtz"@);
    reveal_strlit("bne");
    assert("bne"@.len() == 3);
    assert("sw"@ != "bne"@);
    reveal_strlit("bnez");
    assert("bnez"@.len() == 4);
    assert("sw"@ != "bnez"@);
    reveal_strlit("j");
    assert("j"@.len() == 1);
    assert("sw"@ != "j"@);
    reveal_strlit("jr");
    assert("sw"@[0] != "jr"@[0]);
    assert("sw"@ != "jr"@);
    reveal_strlit("jal");
    assert("jal"@.len() == 3);
    assert("sw"@ != "jal"@);
    reveal_strlit("jalr");
    assert("jalr"@.len() == 4);
    assert("sw"@ != "jalr"@);
    reveal_strlit("call");
    assert("call"@.len() == 4);
    assert("sw"@ != "call"@);
    reveal_strlit("tail");
    assert("tail"@.len() == 4);
    assert("sw"@ != "tail"@);
    reveal_strlit("ecall");
    assert("ecall"@.len() == 5);
    assert("sw"@ != "ecall"@);
    reveal_strlit("ebreak");
    assert("ebreak"@.len() == 6);
    assert("sw"@ != "ebreak"@);
    reveal_strlit("ret");
    assert("ret"@.len() == 3);
    assert("sw"@ != "ret"@);
    reveal_strlit("lw");
    assert("sw"@[0] != "lw"@[0]);
    assert("sw"@ != "lw"@);
    reveal_strlit("lb");
    assert("sw"@[0] != "lb"@[0]);
    assert("sw"@ != "lb"@);
    reveal_strlit("lbu");
    assert("lbu"@.len() == 3);
    assert("sw"@ != "lbu"@);
    reveal_strlit("lhu");
    assert("lhu"@.len() == 3);
    assert("sw"@ != "lhu"@);
}

/// The lowering table's dispatch for this mnemonic reaches its group.
pub proof fn lemma_dispatch_sh(args: Seq<ArgV>)
    ensures
        spec_lower_mem("sh"@, args) is Some,
        spec_lower("sh"@, args) == spec_lower_mem("sh"@, args)->Some_0,
{
    reveal_strlit("sh");
    assert("sh"@.len() == 2);
    reveal_strlit("li");
    assert("sh"@[0] != "li"@[0]);
    assert("sh"@ != "li"@);
    reveal_strlit("lui");
    assert("lui"@.len() == 3);
    assert("sh"@ != "lui"@);
    reveal_strlit("la");
    assert("sh"@[0] != "la"@[0]);
    assert("sh"@ != "la"@);
    reveal_strlit("mv");
    assert("sh"@[0] != "mv"@[0]);
    assert("sh"@ != "mv"@);
    reveal_strlit("add");
    assert("add"@.len() == 3);
    assert("sh"@ != "add"@);
    reveal_strlit("addi");
    assert("addi"@.len() == 4);
    assert("sh"@ != "addi"@);
    reveal_strlit("sub");
    assert("sub"@.len() == 3);
    assert("sh"@ != "sub"@);
    reveal_strlit("neg");
    assert("neg"@.len() == 3);
    assert("sh"@ != "neg"@);
    reveal_strlit("mul");
    assert("mul"@.len() == 3);
    assert("sh"@ != "mul"@);
    reveal_strlit("mulhu");
    assert("mulhu"@.len() == 5);
    assert("sh"@ != "mulhu"@);
    reveal_strlit("divu");
    assert("divu"@.len() == 4);
    assert("sh"@ != "divu"@);
    reveal_strlit("xor");
    assert("xor"@.len() == 3);
    assert("sh"@ != "xor"@);
    reveal_strlit("xori");
    assert("xori"@.len() == 4);
    assert("sh"@ != "xori"@);
    reveal_strlit("and");
    assert("and"@.len() == 3);
    assert("sh"@ != "and"@);
    reveal_strlit("andi");
    assert("andi"@.len() == 4);
    assert("sh"@ != "andi"@);
    reveal_strlit("or");
    assert("sh"@[0] != "or"@[0]);
    assert("sh"@ != "or"@);
    reveal_strlit("ori");
    assert("ori"@.len() == 3);
    assert("sh"@ != "ori"@);
    reveal_strlit("not");
    assert("not"@.len() == 3);
    assert("sh"@ != "not"@);
    reveal_strlit("slli");
    assert("slli"@.len() == 4);
    assert("sh"@ != "slli"@);
    reveal_strlit("sll");
    assert("sll"@.len() == 3);
    assert("sh"@ != "sll"@);
    reveal_strlit("srli");
    assert("srli"@.len() == 4);
    assert("sh"@ != "srli"@);
    reveal_strlit("srl");
    assert("srl"@.len() == 3);
    assert("sh"@ != "srl"@);
    reveal_strlit("srai");
    assert("srai"@.len() == 4);
    assert("sh"@ != "srai"@);
    reveal_strlit("seqz");
    assert("seqz"@.len() == 4);
    assert("sh"@ != "seqz"@);
    reveal_strlit("snez");
    assert("snez"@.len() == 4);
    assert("sh"@ != "snez"@);
    reveal_strlit("slti");
    assert("slti"@.len() == 4);
    assert("sh"@ != "slti"@);
    reveal_strlit("slt");
    assert("slt"@.len() == 3);
    assert("sh"@ != "slt"@);
    reveal_strlit("sltiu");
    assert("sltiu"@.len() == 5);
    assert("sh"@ != "sltiu"@);
    reveal_strlit("sltu");
    assert("sltu"@.len() == 4);
    assert("sh"@ != "sltu"@);
    reveal_strlit("sgtz");
    assert("sgtz"@.len() == 4);
    assert("sh"@ != "sgtz"@);
    reveal_strlit("beq");
    assert("beq"@.len() == 3);
    assert("sh"@ != "beq"@);
    reveal_strlit("beqz");
    assert("beqz"@.len() == 4);
    assert("sh"@ != "beqz"@);
    reveal_strlit("bgeu");
    assert("bgeu"@.len() == 4);
    assert("sh"@ != "bgeu"@);
    reveal_strlit("bgez");
    assert("bgez"@.len() == 4);
    assert("sh"@ != "bgez"@);
    reveal_strlit("bltu");
    assert("bltu"@.len() == 4);
    assert("sh"@ != "bltu"@);
    reveal_strlit("blt");
    assert("blt"@.len() == 3);
    assert("sh"@ != "blt"@);
    reveal_strlit("bge");
    assert("bge"@.len() == 3);
    assert("sh"@ != "bge"@);
    reveal_strlit("bltz");
    assert("bltz"@.len() == 4);
    assert("sh"@ != "bltz"@);
    reveal_strlit("blez");
    assert("blez"@.len() == 4);
    assert("sh"@ != "blez"@);
    reveal_strlit("bgtz");
    assert("bgtz"@.len() == 4);
    assert("sh"@ != "bgtz"@);
    reveal_strlit("bne");
    assert("bne"@.len() == 3);
    assert("sh"@ != "bne"@);
    reveal_strlit("bnez");
    assert("bnez"@.len() == 4);
    assert("sh"@ != "bnez"@);
    reveal_strlit("j");
    assert("j"@.len() == 1);
    assert("sh"@ != "j"@);
    reveal_strlit("jr");
    assert("sh"@[0] != "jr"@[0]);
    assert("sh"@ != "jr"@);
    reveal_strlit("jal");
    assert("jal"@.len() == 3);
    assert("sh"@ != "jal"@);
    reveal_strlit("jalr");
    assert("jalr"@.len() == 4);
    assert("sh"@ != "jalr"@);
    reveal_strlit("call");
    assert("call"@.len() == 4);
    assert("sh"@ != "call"@);
    reveal_strlit("tail");
    assert("tail"@.len() == 4);
    assert("sh"@ != "tail"@);
    reveal_strlit("ecall");
    assert("ecall"@.len() == 5);
    assert("sh"@ != "ecall"@);
    reveal_strlit("ebreak");
    assert("ebreak"@.len() == 6);
    assert("sh"@ != "ebreak"@);
    reveal_strlit("ret");
    assert("ret"@.len() == 3);
    assert("sh"@ != "ret"@);
    reveal_strlit("lw");
    assert("sh"@[0] != "lw"@[0]);
    assert("sh"@ != "lw"@);
    reveal_strlit("lb");
    assert("sh"@[0] != "lb"@[0]);
    assert("sh"@ != "lb"@);
    reveal_strlit("lbu");
    assert("lbu"@.len() == 3);
    assert("sh"@ != "lbu"@);
    reveal_strlit("lhu");
    assert("lhu"@.len() == 3);
    assert("sh"@ != "lhu"@);
    reveal_strlit("sw");
    assert("sh"@[1] != "sw"@[1]);
    assert("sh"@ != "sw"@);
}

/// The lowering table's dispatch for this mnemonic reaches its group.
pub proof fn lemma_dispatch_sb(args: Seq<ArgV>)
    ensures
        spec_lower_mem("sb"@, args) is Some,
        spec_lower("sb"@, args) == spec_lower_mem("sb"@, args)->Some_0,
{
    reveal_strlit("sb");
    assert("sb"@.len() == 2);
    reveal_strlit("li");
    assert("sb"@[0] != "li"@[0]);
    assert("sb"@ != "li"@);
    reveal_strlit("lui");
    assert("lui"@.len() == 3);
    assert("sb"@ != "lui"@);
    reveal_strlit("la");
    assert("sb"@[0] != "la"@[0]);
    assert("sb"@ != "la"@);
    reveal_strlit("mv");
    assert("sb"@[0] != "mv"@[0]);
    assert("sb"@ != "mv"@);
    reveal_strlit("add");
    assert("add"@.len() == 3);
    assert("sb"@ != "add"@);
    reveal_strlit("addi");
    assert("addi"@.len() == 4);
    assert("sb"@ != "addi"@);
    reveal_strlit("sub");
    assert("sub"@.len() == 3);
    assert("sb"@ != "sub"@);
    reveal_strlit("neg");
    assert("neg"@.len() == 3);
    assert("sb"@ != "neg"@);
    reveal_strlit("mul");
    assert("mul"@.len() == 3);
    assert("sb"@ != "mul"@);
    reveal_strlit("mulhu");
    assert("mulhu"@.len() == 5);
    assert("sb"@ != "mulhu"@);
    reveal_strlit("divu");
    assert("divu"@.len() == 4);
    assert("sb"@ != "divu"@);
    reveal_strlit("xor");
    assert("xor"@.len() == 3);
    assert("sb"@ != "xor"@);
    reveal_strlit("xori");
    assert("xori"@.len() == 4);
    assert("sb"@ != "xori"@);
    reveal_strlit("and");
    assert("and"@.len() == 3);
    assert("sb"@ != "and"@);
    reveal_strlit("andi");
    assert("andi"@.len() == 4);
    assert("sb"@ != "andi"@);
    reveal_strlit("or");
    assert("sb"@[0] != "or"@[0]);
    assert("sb"@ != "or"@);
    reveal_strlit("ori");
    assert("ori"@.len() == 3);
    assert("sb"@ != "ori"@);
    reveal_strlit("not");
    assert("not"@.len() == 3);
    assert("sb"@ != "not"@);
    reveal_strlit("slli");
    assert("slli"@.len() == 4);
    assert("sb"@ != "slli"@);
    reveal_strlit("sll");
    assert("sll"@.len() == 3);
    assert("sb"@ != "sll"@);
    reveal_strlit("srli");
    assert("srli"@.len() == 4);
    assert("sb"@ != "srli"@);
    reveal_strlit("srl");
    assert("srl"@.len() == 3);
    assert("sb"@ != "srl"@);
    reveal_strlit("srai");
    assert("srai"@.len() == 4);
    assert("sb"@ != "srai"@);
    reveal_strlit("seqz");
    assert("seqz"@.len() == 4);
    assert("sb"@ != "seqz"@);
    reveal_strlit("snez");
    assert("snez"@.len() == 4);
    assert("sb"@ != "snez"@);
    reveal_strlit("slti");
    assert("slti"@.len() == 4);
    assert("sb"@ != "slti"@);
    reveal_strlit("slt");
    assert("slt"@.len() == 3);
    assert("sb"@ != "slt"@);
    reveal_strlit("sltiu");
    assert("sltiu"@.len() == 5);
    assert("sb"@ != "sltiu"@);
    reveal_strlit("sltu");
    assert("sltu"@.len() == 4);
    assert("sb"@ != "sltu"@);
    reveal_strlit("sgtz");
    assert("sgtz"@.len() == 4);
    assert("sb"@ != "sgtz"@);
    reveal_strlit("beq");
    assert("beq"@.len() == 3);
    assert("sb"@ != "beq"@);
    reveal_strlit("beqz");
    assert("beqz"@.len() == 4);
    assert("sb"@ != "beqz"@);
    reveal_strlit("bgeu");
    assert("bgeu"@.len() == 4);
    assert("sb"@ != "bgeu"@);
    reveal_strlit("bgez");
    assert("bgez"@.len() == 4);
    assert("sb"@ != "bgez"@);
    reveal_strlit("bltu");
    assert("bltu"@.len() == 4);
    assert("sb"@ != "bltu"@);
    reveal_strlit("blt");
    assert("blt"@.len() == 3);
    assert("sb"@ != "blt"@);
    reveal_strlit("bge");
    assert("bge"@.len() == 3);
    assert("sb"@ != "bge"@);
    reveal_strlit("bltz");
    assert("bltz"@.len() == 4);
    assert("sb"@ != "bltz"@);
    reveal_strlit("blez");
    assert("blez"@.len() == 4);
    assert("sb"@ != "blez"@);
    reveal_strlit("bgtz");
    assert("bgtz"@.len() == 4);
    assert("sb"@ != "bgtz"@);
    reveal_strlit("bne");
    assert("bne"@.len() == 3);
    assert("sb"@ != "bne"@);
    reveal_strlit("bnez");
    assert("bnez"@.len() == 4);
    assert("sb"@ != "bnez"@);
    reveal_strlit("j");
    assert("j"@.len() == 1);
    assert("sb"@ != "j"@);
    reveal_strlit("jr");
    assert("sb"@[0] != "jr"@[0]);
    assert("sb"@ != "jr"@);
    reveal_strlit("jal");
    assert("jal"@.len() == 3);
    assert("sb"@ != "jal"@);
    reveal_strlit("jalr");
    assert("jalr"@.len() == 4);
    assert("sb"@ != "jalr"@);
    reveal_strlit("call");
    assert("call"@.len() == 4);
    assert("sb"@ != "call"@);
    reveal_strlit("tail");
    assert("tail"@.len() == 4);
    assert("sb"@ != "tail"@);
    reveal_strlit("ecall");
    assert("ecall"@.len() == 5);
    assert("sb"@ != "ecall"@);
    reveal_strlit("ebreak");
    assert("ebreak"@.len() == 6);
    assert("sb"@ != "ebreak"@);
    reveal_strlit("ret");
    assert("ret"@.len() == 3);
    assert("sb"@ != "ret"@);
    reveal_strlit("lw");
    assert("sb"@[0] != "lw"@[0]);
    assert("sb"@ != "lw"@);
    reveal_strlit("lb");
    assert("sb"@[0] != "lb"@[0]);
    assert("sb"@ != "lb"@);
    reveal_strlit("lbu");
    assert("lbu"@.len() == 3);
    assert("sb"@ != "lbu"@);
    reveal_strlit("lhu");
    assert("lhu"@.len() == 3);
    assert("sb"@ != "lhu"@);
    reveal_strlit("sw");
    assert("sb"@[1] != "sw"@[1]);
    assert("sb"@ != "sw"@);
    reveal_strlit("sh");
    assert("sb"@[1] != "sh"@[1]);
    assert("sb"@ != "sh"@);
}

/// The lowering table's dispatch for this mnemonic reaches its group.
pub proof fn lemma_dispatch_nop(args: Seq<ArgV>)
    ensures
        spec_lower_mem("nop"@, args) is Some,
        spec_lower("nop"@, args) == spec_lower_mem("nop"@, args)->Some_0,
{
    reveal_strlit("nop");
    assert("nop"@.len() == 3);
    reveal_strlit("li");
    assert("li"@.len() == 2);
    assert("nop"@ != "li"@);
    reveal_strlit("lui");
    assert("nop"@[0] != "lui"@[0]);
    assert("nop"@ != "lui"@);
    reveal_strlit("la");
    assert("la"@.len() == 2);
    assert("nop"@ != "la"@);
    reveal_strlit("mv");
    assert("mv"@.len() == 2);
    assert("nop"@ != "mv"@);
    reveal_strlit("add");
    assert("nop"@[0] != "add"@[0]);
    assert("nop"@ != "add"@);
    reveal_strlit("addi");
    assert("addi"@.len() == 4);
    assert("nop"@ != "addi"@);
    reveal_strlit("sub");
    assert("nop"@[0] != "sub"@[0]);
    assert("nop"@ != "sub"@);
    reveal_strlit("neg");
    assert("nop"@[1] != "neg"@[1]);
    assert("nop"@ != "neg"@);
    reveal_strlit("mul");
    assert("nop"@[0] != "mul"@[0]);
    assert("nop"@ != "mul"@);
    reveal_strlit("mulhu");
    assert("mulhu"@.len() == 5);
    assert("nop"@ != "mulhu"@);
    reveal_strlit("divu");
    assert("divu"@.len() == 4);
    assert("nop"@ != "divu"@);
    reveal_strlit("xor");
    assert("nop"@[0] != "xor"@[0]);
    assert("nop"@ != "xor"@);
    reveal_strlit("xori");
    assert("xori"@.len() == 4);
    assert("nop"@ != "xori"@);
    reveal_strlit("and");
    assert("nop"@[0] != "and"@[0]);
    assert("nop"@ != "and"@);
    reveal_strlit("andi");
    assert("andi"@.len() == 4);
    assert("nop"@ != "andi"@);
    reveal_strlit("or");
    assert("or"@.len() == 2);
    assert("nop"@ != "or"@);
    reveal_strlit("ori");
    assert("nop"@[0] != "ori"@[0]);
    assert("nop"@ != "ori"@);
    reveal_strlit("not");
    assert("nop"@[2] != "not"@[2]);
    assert("nop"@ != "not"@);
    reveal_strlit("slli");
    assert("slli"@.len() == 4);
    assert("nop"@ != "slli"@);
    reveal_strlit("sll");
    assert("nop"@[0] != "sll"@[0]);
    assert("nop"@ != "sll"@);
    reveal_strlit("srli");
    assert("srli"@.len() == 4);
    assert("nop"@ != "srli"@);
    reveal_strlit("srl");
    assert("nop"@[0] != "srl"@[0]);
    assert("nop"@ != "srl"@);
    reveal_strlit("srai");
    assert("srai"@.len() == 4);
    assert("nop"@ != "srai"@);
    reveal_strlit("seqz");
    assert("seqz"@.len() == 4);
    assert("nop"@ != "seqz"@);
    reveal_strlit("snez");
    assert("snez"@.len() == 4);
    assert("nop"@ != "snez"@);
    reveal_strlit("slti");
    assert("slti"@.len() == 4);
    assert("nop"@ != "slti"@);
    reveal_strlit("slt");
    assert("nop"@[0] != "slt"@[0]);
    assert("nop"@ != "slt"@);
    reveal_strlit("sltiu");
    assert("sltiu"@.len() == 5);
    assert("nop"@ != "sltiu"@);
    reveal_strlit("sltu");
    assert("sltu"@.len() == 4);
    assert("nop"@ != "sltu"@);
    reveal_strlit("sgtz");
    assert("sgtz"@.len() == 4);
    assert("nop"@ != "sgtz"@);
    reveal_strlit("beq");
    assert("nop"@[0] != "beq"@[0]);
    assert("nop"@ != "beq"@);
    reveal_strlit("beqz");
    assert("beqz"@.len() == 4);
    assert("nop"@ != "beqz"@);
    reveal_strlit("bgeu");
    assert("bgeu"@.len() == 4);
    assert("nop"@ != "bgeu"@);
    reveal_strlit("bgez");
    assert("bgez"@.len() == 4);
    assert("nop"@ != "bgez"@);
    reveal_strlit("bltu");
    assert("bltu"@.len() == 4);
    assert("nop"@ != "bltu"@);
    reveal_strlit("blt");
    assert("nop"@[0] != "blt"@[0]);
    assert("nop"@ != "blt"@);
    reveal_strlit("bge");
    assert("nop"@[0] != "bge"@[0]);
    assert("nop"@ != "bge"@);
    reveal_strlit("bltz");
    assert("bltz"@.len() == 4);
    assert("nop"@ != "bltz"@);
    reveal_strlit("blez");
    assert("blez"@.len() == 4);
    assert("nop"@ != "blez"@);
    reveal_strlit("bgtz");
    assert("bgtz"@.len() == 4);
    assert("nop"@ != "bgtz"@);
    reveal_strlit("bne");
    assert("nop"@[0] != "bne"@[0]);
    assert("nop"@ != "bne"@);
    reveal_strlit("bnez");
    assert("bnez"@.len() == 4);
    assert("nop"@ != "bnez"@);
    reveal_strlit("j");
    assert("j"@.len() == 1);
    assert("nop"@ != "j"@);
    reveal_strlit("jr");
    assert("jr"@.len() == 2);
    assert("nop"@ != "jr"@);
    reveal_strlit("jal");
    assert("nop"@[0] != "jal"@[0]);
    assert("nop"@ != "jal"@);
    reveal_strlit("jalr");
    assert("jalr"@.len() == 4);
    assert("nop"@ != "jalr"@);
    reveal_strlit("call");
    assert("call"@.len() == 4);
    assert("nop"@ != "call"@);
    reveal_strlit("tail");
    assert("tail"@.len() == 4);
    assert("nop"@ != "tail"@);
    reveal_strlit("ecall");
    assert("ecall"@.len() == 5);
    assert("nop"@ != "ecall"@);
    reveal_strlit("ebreak");
    assert("ebreak"@.len() == 6);
    assert("nop"@ != "ebreak"@);
    reveal_strlit("ret");
    assert("nop"@[0] != "ret"@[0]);
    assert("nop"@ != "ret"@);
    reveal_strlit("lw");
    assert("lw"@.len() == 2);
    assert("nop"@ != "lw"@);
    reveal_strlit("lb");
    assert("lb"@.len() == 2);
    assert("nop"@ != "lb"@);
    reveal_strlit("lbu");
    assert("nop"@[0] != "lbu"@[0]);
    assert("nop"@ != "lbu"@);
    reveal_strlit("lhu");
    assert("nop"@[0] != "lhu"@[0]);
    assert("nop"@ != "lhu"@);
    reveal_strlit("sw");
    assert("sw"@.len() == 2);
    assert("nop"@ != "sw"@);
    reveal_strlit("sh");
    assert("sh"@.len() == 2);
    assert("nop"@ != "sh"@);
    reveal_strlit("sb");
    assert("sb"@.len() == 2);
    assert("nop"@ != "sb"@);
}

/// The lowering table's dispatch for this mnemonic reaches its group.
pub proof fn lemma_dispatch_unimp(args: Seq<ArgV>)
    ensures
        spec_lower_mem("unimp"@, args) is Some,
        spec_lower("unimp"@, args) == spec_lower_mem("unimp"@, args)->Some_0,
{
    reveal_strlit("unimp");
    assert("unimp"@.len() == 5);
    reveal_strlit("li");
    assert("li"@.len() == 2);
    assert("unimp"@ != "li"@);
    reveal_strlit("lui");
    assert("lui"@.len() == 3);
    assert("unimp"@ != "lui"@);
    reveal_strlit("la");
    assert("la"@.len() == 2);
    assert("unimp"@ != "la"@);
    reveal_strlit("mv");
    assert("mv"@.len() == 2);
    assert("unimp"@ != "mv"@);
    reveal_strlit("add");
    assert("add"@.len() == 3);
    assert("unimp"@ != "add"@);
    reveal_strlit("addi");
    assert("addi"@.len() == 4);
    assert("unimp"@ != "addi"@);
    reveal_strlit("sub");
    assert("sub"@.len() == 3);
    assert("unimp"@ != "sub"@);
    reveal_strlit("neg");
    assert("neg"@.len() == 3);
    assert("unimp"@ != "neg"@);
    reveal_strlit("mul");
    assert("mul"@.len() == 3);
    assert("unimp"@ != "mul"@);
    reveal_strlit("mulhu");
    assert("unimp"@[0] != "mulhu"@[0]);
    assert("unimp"@ != "mulhu"@);
    reveal_strlit("divu");
    assert("divu"@.len() == 4);
    assert("unimp"@ != "divu"@);
    reveal_strlit("xor");
    assert("xor"@.len() == 3);
    assert("unimp"@ != "xor"@);
    reveal_strlit("xori");
    assert("xori"@.len() == 4);
    assert("unimp"@ != "xori"@);
    reveal_strlit("and");
    assert("and"@.len() == 3);
    assert("unimp"@ != "and"@);
    reveal_strlit("andi");
    assert("andi"@.len() == 4);
    assert("unimp"@ != "andi"@);
    reveal_strlit("or");
    assert("or"@.len() == 2);
    assert("unimp"@ != "or"@);
    reveal_strlit("ori");
    assert("ori"@.len() == 3);
    assert("unimp"@ != "ori"@);
    reveal_strlit("not");
    assert("not"@.len() == 3);
    assert("unimp"@ != "not"@);
    reveal_strlit("slli");
    assert("slli"@.len() == 4);
    assert("unimp"@ != "slli"@);
    reveal_strlit("sll");
    assert("sll"@.len() == 3);
    assert("unimp"@ != "sll"@);
    reveal_strlit("srli");
    assert("srli"@.len() == 4);
    assert("unimp"@ != "srli"@);
    reveal_strlit("srl");
    assert("srl"@.len() == 3);
    assert("unimp"@ != "srl"@);
    reveal_strlit("srai");
    assert("srai"@.len() == 4);
    assert("unimp"@ != "srai"@);
    reveal_strlit("seqz");
    assert("seqz"@.len() == 4);
    assert("unimp"@ != "seqz"@);
    reveal_strlit("snez");
    assert("snez"@.len() == 4);
    assert("unimp"@ != "snez"@);
    reveal_strlit("slti");
    assert("slti"@.len() == 4);
    assert("unimp"@ != "slti"@);
    reveal_strlit("slt");
    assert("slt"@.len() == 3);
    assert("unimp"@ != "slt"@);
    reveal_strlit("sltiu");
    assert("unimp"@[0] != "sltiu"@[0]);
    assert("unimp"@ != "sltiu"@);
    reveal_strlit("sltu");
    assert("sltu"@.len() == 4);
    assert("unimp"@ != "sltu"@);
    reveal_strlit("sgtz");
    assert("sgtz"@.len() == 4);
    assert("unimp"@ != "sgtz"@);
    reveal_strlit("beq");
    assert("beq"@.len() == 3);
    assert("unimp"@ != "beq"@);
    reveal_strlit("beqz");
    assert("beqz"@.len() == 4);
    assert("unimp"@ != "beqz"@);
    reveal_strlit("bgeu");
    assert("bgeu"@.len() == 4);
    assert("unimp"@ != "bgeu"@);
    reveal_strlit("bgez");
    assert("bgez"@.len() == 4);
    assert("unimp"@ != "bgez"@);
    reveal_strlit("bltu");
    assert("bltu"@.len() == 4);
    assert("unimp"@ != "bltu"@);
    reveal_strlit("blt");
    assert("blt"@.len() == 3);
    assert("unimp"@ != "blt"@);
    reveal_strlit("bge");
    assert("bge"@.len() == 3);
    assert("unimp"@ != "bge"@);
    reveal_strlit("bltz");
    assert("bltz"@.len() == 4);
    assert("unimp"@ != "bltz"@);
    reveal_strlit("blez");
    assert("blez"@.len() == 4);
    assert("unimp"@ != "blez"@);
    reveal_strlit("bgtz");
    assert("bgtz"@.len() == 4);
    assert("unimp"@ != "bgtz"@);
    reveal_strlit("bne");
    assert("bne"@.len() == 3);
    assert("unimp"@ != "bne"@);
    reveal_strlit("bnez");
    assert("bnez"@.len() == 4);
    assert("unimp"@ != "bnez"@);
    reveal_strlit("j");
    assert("j"@.len() == 1);
    assert("unimp"@ != "j"@);
    reveal_strlit("jr");
    assert("jr"@.len() == 2);
    assert("unimp"@ != "jr"@);
    reveal_strlit("jal");
    assert("jal"@.len() == 3);
    assert("unimp"@ != "jal"@);
    reveal_strlit("jalr");
    assert("jalr"@.len() == 4);
    assert("unimp"@ != "jalr"@);
    reveal_strlit("call");
    assert("call"@.len() == 4);
    assert("unimp"@ != "call"@);
    reveal_strlit("tail");
    assert("tail"@.len() == 4);
    assert("unimp"@ != "tail"@);
    reveal_strlit("ecall");
    assert("unimp"@[0] != "ecall"@[0]);
    assert("unimp"@ != "ecall"@);
    reveal_strlit("ebreak");
    assert("ebreak"@.len() == 6);
    assert("unimp"@ != "ebreak"@);
    reveal_strlit("ret");
    assert("ret"@.len() == 3);
    assert("unimp"@ != "ret"@);
    reveal_strlit("lw");
    assert("lw"@.len() == 2);
    assert("unimp"@ != "lw"@);
    reveal_strlit("lb");
    assert("lb"@.len() == 2);
    assert("unimp"@ != "lb"@);
    reveal_strlit("lbu");
    assert("lbu"@.len() == 3);
    assert("unimp"@ != "lbu"@);
    reveal_strlit("lhu");
    assert("lhu"@.len() == 3);
    assert("unimp"@ != "lhu"@);
    reveal_strlit("sw");
    assert("sw"@.len() == 2);
    assert("unimp"@ != "sw"@);
    reveal_strlit("sh");
    assert("sh"@.len() == 2);
    assert("unimp"@ != "sh"@);
    reveal_strlit("sb");
    assert("sb"@.len() == 2);
    assert("unimp"@ != "sb"@);
    reveal_strlit("nop");
    assert("nop"@.len() == 3);
    assert("unimp"@ != "nop"@);
}

/// The lowering table's dispatch for this mnemonic reaches its group.
pub proof fn lemma_dispatch_load_dynamic(args: Seq<ArgV>)
    ensures
        spec_lower_mem("load_dynamic"@, args) is Some,
        spec_lower("load_dynamic"@, args) == spec_lower_mem("load_dynamic"@, args)->Some_0,
{
    reveal_strlit("load_dynamic");
    assert("load_dynamic"@.len() == 12);
    reveal_strlit("li");
    assert("li"@.len() == 2);
    assert("load_dynamic"@ != "li"@);
    reveal_strlit("lui");
    assert("lui"@.len() == 3);
    assert("load_dynamic"@ != "lui"@);
    reveal_strlit("la");
    assert("la"@.len() == 2);
    assert("load_dynamic"@ != "la"@);
    reveal_strlit("mv");
    assert("mv"@.len() == 2);
    assert("load_dynamic"@ != "mv"@);
    reveal_strlit("add");
    assert("add"@.len() == 3);
    assert("load_dynamic"@ != "add"@);
    reveal_strlit("addi");
    assert("addi"@.len() == 4);
    assert("load_dynamic"@ != "addi"@);
    reveal_strlit("sub");
    assert("sub"@.len() == 3);
    assert("load_dynamic"@ != "sub"@);
    reveal_strlit("neg");
    assert("neg"@.len() == 3);
    assert("load_dynamic"@ != "neg"@);
    reveal_strlit("mul");
    assert("mul"@.len() == 3);
    assert("load_dynamic"@ != "mul"@);
    reveal_strlit("mulhu");
    assert("mulhu"@.len() == 5);
    assert("load_dynamic"@ != "mulhu"@);
    reveal_strlit("divu");
    assert("divu"@.len() == 4);
    assert("load_dynamic"@ != "divu"@);
    reveal_strlit("xor");
    assert("xor"@.len() == 3);
    assert("load_dynamic"@ != "xor"@);
    reveal_strlit("xori");
    assert("xori"@.len() == 4);
    assert("load_dynamic"@ != "xori"@);
    reveal_strlit("and");
    assert("and"@.len() == 3);
    assert("load_dynamic"@ != "and"@);
    reveal_strlit("andi");
    assert("andi"@.len() == 4);
    assert("load_dynamic"@ != "andi"@);
    reveal_strlit("or");
    assert("or"@.len() == 2);
    assert("load_dynamic"@ != "or"@);
    reveal_strlit("ori");
    assert("ori"@.len() == 3);
    assert("load_dynamic"@ != "ori"@);
    reveal_strlit("not");
    assert("not"@.len() == 3);
    assert("load_dynamic"@ != "not"@);
    reveal_strlit("slli");
    assert("slli"@.len() == 4);
    assert("load_dynamic"@ != "slli"@);
    reveal_strlit("sll");
    assert("sll"@.len() == 3);
    assert("load_dynamic"@ != "sll"@);
    reveal_strlit("srli");
    assert("srli"@.len() == 4);
    assert("load_dynamic"@ != "srli"@);
    reveal_strlit("srl");
    assert("srl"@.len() == 3);
    assert("load_dynamic"@ != "srl"@);
    reveal_strlit("srai");
    assert("srai"@.len() == 4);
    assert("load_dynamic"@ != "srai"@);
    reveal_strlit("seqz");
    assert("seqz"@.len() == 4);
    assert("load_dynamic"@ != "seqz"@);
    reveal_strlit("snez");
    assert("snez"@.len() == 4);
    assert("load_dynamic"@ != "snez"@);
    reveal_strlit("slti");
    assert("slti"@.len() == 4);
    assert("load_dynamic"@ != "slti"@);
    reveal_strlit("slt");
    assert("slt"@.len() == 3);
    assert("load_dynamic"@ != "slt"@);
    reveal_strlit("sltiu");
    assert("sltiu"@.len() == 5);
    assert("load_dynamic"@ != "sltiu"@);
    reveal_strlit("sltu");
    assert("sltu"@.len() == 4);
    assert("load_dynamic"@ != "sltu"@);
    reveal_strlit("sgtz");
    assert("sgtz"@.len() == 4);
    assert("load_dynamic"@ != "sgtz"@);
    reveal_strlit("beq");
    assert("beq"@.len() == 3);
    assert("load_dynamic"@ != "beq"@);
    reveal_strlit("beqz");
    assert("beqz"@.len() == 4);
    assert("load_dynamic"@ != "beqz"@);
    reveal_strlit("bgeu");
    assert("bgeu"@.len() == 4);
    assert("load_dynamic"@ != "bgeu"@);
    reveal_strlit("bgez");
    assert("bgez"@.len() == 4);
    assert("load_dynamic"@ != "bgez"@);
    reveal_strlit("bltu");
    assert("bltu"@.len() == 4);
    assert("load_dynamic"@ != "bltu"@);
    reveal_strlit("blt");
    assert("blt"@.len() == 3);
    assert("load_dynamic"@ != "blt"@);
    reveal_strlit("bge");
    assert("bge"@.len() == 3);
    assert("load_dynamic"@ != "bge"@);
    reveal_strlit("bltz");
    assert("bltz"@.len() == 4);
    assert("load_dynamic"@ != "bltz"@);
    reveal_strlit("blez");
    assert("blez"@.len() == 4);
    assert("load_dynamic"@ != "blez"@);
    reveal_strlit("bgtz");
    assert("bgtz"@.len() == 4);
    assert("load_dynamic"@ != "bgtz"@);
    reveal_strlit("bne");
    assert("bne"@.len() == 3);
    assert("load_dynamic"@ != "bne"@);
    reveal_strlit("bnez");
    assert("bnez"@.len() == 4);
    assert("load_dynamic"@ != "bnez"@);
    reveal_strlit("j");
    assert("j"@.len() == 1);
    assert("load_dynamic"@ != "j"@);
    reveal_strlit("jr");
    assert("jr"@.len() == 2);
    assert("load_dynamic"@ != "jr"@);
    reveal_strlit("jal");
    assert("jal"@.len() == 3);
    assert("load_dynamic"@ != "jal"@);
    reveal_strlit("jalr");
    assert("jalr"@.len() == 4);
    assert("load_dynamic"@ != "jalr"@);
    reveal_strlit("call");
    assert("call"@.len() == 4);
    assert("load_dynamic"@ != "call"@);
    reveal_strlit("tail");
    assert("tail"@.len() == 4);
    assert("load_dynamic"@ != "tail"@);
    reveal_strlit("ecall");
    assert("ecall"@.len() == 5);
    assert("load_dynamic"@ != "ecall"@);
    reveal_strlit("ebreak");
    assert("ebreak"@.len() == 6);
    assert("load_dynamic"@ != "ebreak"@);
    reveal_strlit("ret");
    assert("ret"@.len() == 3);
    assert("load_dynamic"@ != "ret"@);
    reveal_strlit("lw");
    assert("lw"@.len() == 2);
    assert("load_dynamic"@ != "lw"@);
    reveal_strlit("lb");
    assert("lb"@.len() == 2);
    assert("load_dynamic"@ != "lb"@);
    reveal_strlit("lbu");
    assert("lbu"@.len() == 3);
    assert("load_dynamic"@ != "lbu"@);
    reveal_strlit("lhu");
    assert("lhu"@.len() == 3);
    assert("load_dynamic"@ != "lhu"@);
    reveal_strlit("sw");
    assert("sw"@.len() == 2);
    assert("load_dynamic"@ != "sw"@);
    reveal_strlit("sh");
    assert("sh"@.len() == 2);
    assert("load_dynamic"@ != "sh"@);
    reveal_strlit("sb");
    assert("sb"@.len() == 2);
    assert("load_dynamic"@ != "sb"@);
    reveal_strlit("nop");
    assert("nop"@.len() == 3);
    assert("load_dynamic"@ != "nop"@);
    reveal_strlit("unimp");
    assert("unimp"@.len() == 5);
    assert("load_dynamic"@ != "unimp"@);
}

/// Whether a mnemonic names an instruction whose first argument is its
/// register destination.
pub open spec fn has_register_destination(instr: Seq<char>) -> bool {
    ||| instr == "li"@
    ||| instr == "lui"@
    ||| instr == "la"@
    ||| instr == "mv"@
    ||| instr == "add"@
    ||| instr == "addi"@
    ||| instr == "sub"@
    ||| instr == "neg"@
    ||| instr == "mul"@
    ||| instr == "mulhu"@
    ||| instr == "divu"@
    ||| instr == "xor"@
    ||| instr == "xori"@
    ||| instr == "and"@
    ||| instr == "andi"@
    ||| instr == "or"@
    ||| instr == "ori"@
    ||| instr == "not"@
    ||| instr == "slli"@
    ||| instr == "sll"@
    ||| instr == "srli"@
    ||| instr == "srl"@
    ||| instr == "srai"@
    ||| instr == "seqz"@
    ||| instr == "snez"@
    ||| instr == "slti"@
    ||| instr == "slt"@
    ||| instr == "sltiu"@
    ||| instr == "sltu"@
    ||| instr == "sgtz"@
    ||| instr == "lw"@
    ||| instr == "lb"@
    ||| instr == "lbu"@
    ||| instr == "lhu"@
    ||| instr == "load_dynamic"@
}

/// Destination-register-zero elision: every opcode with a register
/// destination, instantiated with destination register 0, lowers to the empty
/// instruction list.
#[verifier::rlimit(100)]
pub proof fn lemma_dest_zero_elision(instr: Seq<char>, args: Seq<ArgV>, rd: Register)
    requires
        has_register_destination(instr),
        args.len() >= 1,
        args[0] == ArgV::Register(rd),
        rd.spec_value() == 0,
        spec_lower(instr, args) is Ok,
    ensures
        spec_lower(instr, args) == Ok::<Seq<TargetInstrV>, crate::ast::CompileErrorV>(
            Seq::empty(),
        ),
{
    if instr == "li"@ {
        lemma_dispatch_li(args);
        assert(spec_lower(instr, args)->Ok_0 =~= Seq::<TargetInstrV>::empty());
    } else if instr == "lui"@ {
        lemma_dispatch_lui(args);
        assert(spec_lower(instr, args)->Ok_0 =~= Seq::<TargetInstrV>::empty());
    } else if instr == "la"@ {
        lemma_dispatch_la(args);
        assert(spec_lower(instr, args)->Ok_0 =~= Seq::<TargetInstrV>::empty());
    } else if instr == "mv"@ {
        lemma_dispatch_mv(args);
        assert(spec_lower(instr, args)->Ok_0 =~= Seq::<TargetInstrV>::empty());
    } else if instr == "add"@ {
        lemma_dispatch_add(args);
        assert(spec_lower(instr, args)->Ok_0 =~= Seq::<TargetInstrV>::empty());
    } else if instr == "addi"@ {
        lemma_dispatch_addi(args);
        assert(spec_lower(instr, args)->Ok_0 =~= Seq::<TargetInstrV>::empty());
    } else if instr == "sub"@ {
        lemma_dispatch_sub(args);
        assert(spec_lower(instr, args)->Ok_0 =~= Seq::<TargetInstrV>::empty());
    } else if instr == "neg"@ {
        lemma_dispatch_neg(args);
        assert(spec_lower(instr, args)->Ok_0 =~= Seq::<TargetInstrV>::empty());
    } else if instr == "mul"@ {
        lemma_dispatch_mul(args);
        assert(spec_lower(instr, args)->Ok_0 =~= Seq::<TargetInstrV>::empty());
    } else if instr == "mulhu"@ {
        lemma_dispatch_mulhu(args);
        assert(spec_lower(instr, args)->Ok_0 =~= Seq::<TargetInstrV>::empty());
    } else if instr == "divu"@ {
        lemma_dispatch_divu(args);
        assert(spec_lower(instr, args)->Ok_0 =~= Seq::<TargetInstrV>::empty());
    } else if instr == "xor"@ {
        lemma_dispatch_xor(args);
        assert(spec_lower(instr, args)->Ok_0 =~= Seq::<TargetInstrV>::empty());
    } else if instr == "xori"@ {
        lemma_dispatch_xori(args);
        assert(spec_lower(instr, args)->Ok_0 =~= Seq::<TargetInstrV>::empty());
    } else if instr == "and"@ {
        lemma_dispatch_and(args);
        assert(spec_lower(instr, args)->Ok_0 =~= Seq::<TargetInstrV>::empty());
    } else if instr == "andi"@ {
        lemma_dispatch_andi(args);
        assert(spec_lower(instr, args)->Ok_0 =~= Seq::<TargetInstrV>::empty());
    } else if instr == "or"@ {
        lemma_dispatch_or(args);
        assert(spec_lower(instr, args)->Ok_0 =~= Seq::<TargetInstrV>::empty());
    } else if instr == "ori"@ {
        lemma_dispatch_ori(args);
        assert(spec_lower(instr, args)->Ok_0 =~= Seq::<TargetInstrV>::empty());
    } else if instr == "not"@ {
        lemma_dispatch_not(args);
        assert(spec_lower(instr, args)->Ok_0 =~= Seq::<TargetInstrV>::empty());
    } else if instr == "slli"@ {
        lemma_dispatch_slli(args);
        assert(spec_lower(instr, args)->Ok_0 =~= Seq::<TargetInstrV>::empty());
    } else if instr == "sll"@ {
        lemma_dispatch_sll(args);
        assert(spec_lower(instr, args)->Ok_0 =~= Seq::<TargetInstrV>::empty());
    } else if instr == "srli"@ {
        lemma_dispatch_srli(args);
        assert(spec_lower(instr, args)->Ok_0 =~= Seq::<TargetInstrV>::empty());
    } else if instr == "srl"@ {
        lemma_dispatch_srl(args);
        assert(spec_lower(instr, args)->Ok_0 =~= Seq::<TargetInstrV>::empty());
    } else if instr == "srai"@ {
        lemma_dispatch_srai(args);
        assert(spec_lower(instr, args)->Ok_0 =~= Seq::<TargetInstrV>::empty());
    } else if instr == "seqz"@ {
        lemma_dispatch_seqz(args);
        assert(spec_lower(instr, args)->Ok_0 =~= Seq::<TargetInstrV>::empty());
    } else if instr == "snez"@ {
        lemma_dispatch_snez(args);
        assert(spec_lower(instr, args)->Ok_0 =~= Seq::<TargetInstrV>::empty());
    } else if instr == "slti"@ {
        lemma_dispatch_slti(args);
        assert(spec_lower(instr, args)->Ok_0 =~= Seq::<TargetInstrV>::empty());
    } else if instr == "slt"@ {
        lemma_dispatch_slt(args);
        assert(spec_lower(instr, args)->Ok_0 =~= Seq::<TargetInstrV>::empty());
    } else if instr == "sltiu"@ {
        lemma_dispatch_sltiu(args);
        assert(spec_lower(instr, args)->Ok_0 =~= Seq::<TargetInstrV>::empty());
    } else if instr == "sltu"@ {
        lemma_dispatch_sltu(args);
        assert(spec_lower(instr, args)->Ok_0 =~= Seq::<TargetInstrV>::empty());
    } else if instr == "sgtz"@ {
        lemma_dispatch_sgtz(args);
        assert(spec_lower(instr, args)->Ok_0 =~= Seq::<TargetInstrV>::empty());
    } else if instr == "lw"@ {
        lemma_dispatch_lw(args);
        assert(spec_lower(instr, args)->Ok_0 =~= Seq::<TargetInstrV>::empty());
    } else if instr == "lb"@ {
        lemma_dispatch_lb(args);
        assert(spec_lower(instr, args)->Ok_0 =~= Seq::<TargetInstrV>::empty());
    } else if instr == "lbu"@ {
        lemma_dispatch_lbu(args);
        assert(spec_lower(instr, args)->Ok_0 =~= Seq::<TargetInstrV>::empty());
    } else if instr == "lhu"@ {
        lemma_dispatch_lhu(args);
        assert(spec_lower(instr, args)->Ok_0 =~= Seq::<TargetInstrV>::empty());
    } else if instr == "load_dynamic"@ {
        lemma_dispatch_load_dynamic(args);
        reveal_strlit("load_dynamic");
        reveal_strlit("sw");
        reveal_strlit("sh");
        reveal_strlit("sb");
        reveal_strlit("nop");
        reveal_strlit("unimp");
        assert("load_dynamic"@.len() == 12);
        assert("sw"@.len() == 2);
        assert("sh"@.len() == 2);
        assert("sb"@.len() == 2);
        assert("nop"@.len() == 3);
        assert("unimp"@.len() == 5);
        assert("load_dynamic"@ != "sw"@);
        assert("load_dynamic"@ != "sh"@);
        assert("load_dynamic"@ != "sb"@);
        assert("load_dynamic"@ != "nop"@);
        assert("load_dynamic"@ != "unimp"@);
        assert(spec_lower(instr, args)->Ok_0 =~= Seq::<TargetInstrV>::empty());
    } else {
    }
}

/// Writing a register preserves well-formedness when the written word is
/// 32-bit, leaves every other register and the memory unchanged, and yields
/// the written value.
pub proof fn lemma_write_reg_wf(s: TargetState, d: TargetReg, v: int)
    requires
        wf(s),
        write_reg(s, d, v) is Some,
        d matches TargetReg::X(_) ==> u32r(v),
    ensures
        wf(write_reg(s, d, v)->Some_0),
        reg_val(write_reg(s, d, v)->Some_0, d) == (if d == TargetReg::X(0) {
            0int
        } else {
            v
        }),
        forall|r: TargetReg| r != d ==> reg_val(write_reg(s, d, v)->Some_0, r) == reg_val(s, r),
        write_reg(s, d, v)->Some_0.mem == s.mem,
{
    if d != TargetReg::X(0) {
        assert(s.regs.insert(d, v).dom() =~= Set::full());
    }
}

/// Lowering `add` and executing the emitted code leaves the destination
/// holding the documented result, for all 32-bit operand values.
pub proof fn lemma_add_executes(s: TargetState, rd: Register, r1: Register, r2: Register)
    requires
        wf(s),
        rd.spec_value() != 0,
    ensures
        ({
            let code = spec_lower("add"@, seq![ArgV::Register(rd), ArgV::Register(r1), ArgV::Register(r2)]);
            let s2 = exec_seq(s, code->Ok_0);
            &&& code is Ok
            &&& s2 is Some
            &&& reg_val(s2->Some_0, treg(rd)) == (reg_val(s, treg(r1)) + reg_val(s, treg(r2))) % 0x1_0000_0000
            &&& forall|n: u8|
                TargetReg::X(n) != treg(rd) ==> reg_val(s2->Some_0, TargetReg::X(n)) == reg_val(
                    s,
                    TargetReg::X(n),
                )
            &&& wf(s2->Some_0)
        }),
{
    let args = seq![ArgV::Register(rd), ArgV::Register(r1), ArgV::Register(r2)];
    lemma_dispatch_add(args);
    reveal_strlit("add");
    assert("add"@.len() == 3);
    let t = TargetInstrV::WrapAdd(treg(rd), treg(r1), TargetOp::Reg(treg(r2)));
    assert(crate::lower::spec_rrr(args) == Ok::<
        (Register, Register, Register),
        crate::ast::CompileErrorV,
    >((rd, r1, r2)));
    assert(spec_lower("add"@, args) == Ok::<Seq<TargetInstrV>, crate::ast::CompileErrorV>(
        seq![t],
    )) by {
        assert(crate::lower::elide(rd, seq![t]) == seq![t]);
    }
    let a = reg_val(s, treg(r1));
    let b = reg_val(s, treg(r2));
    assert(u32r(a) && u32r(b));
    let v = a + b;
    assert(step(s, t) == write_reg(s, treg(rd), v % 0x1_0000_0000));
    assert(treg(rd) != TargetReg::X(0));
    lemma_write_reg_wf(s, treg(rd), v % 0x1_0000_0000);
    let s1 = write_reg(s, treg(rd), v % 0x1_0000_0000)->Some_0;
    assert(seq![t].drop_first() =~= Seq::<TargetInstrV>::empty());
    assert(exec_seq(s1, seq![t].drop_first()) == Some(s1));
    assert(exec_seq(s, seq![t]) == Some(s1));
}

/// Lowering `sub` and executing the emitted code leaves the destination
/// holding the difference with 32-bit two's-complement wraparound, for all 32-bit operand values.
pub proof fn lemma_sub_executes(s: TargetState, rd: Register, r1: Register, r2: Register)
    requires
        wf(s),
        rd.spec_value() != 0,
    ensures
        ({
            let code = spec_lower("sub"@, seq![ArgV::Register(rd), ArgV::Register(r1), ArgV::Register(r2)]);
            let s2 = exec_seq(s, code->Ok_0);
            &&& code is Ok
            &&& s2 is Some
            &&& reg_val(s2->Some_0, treg(rd)) == (reg_val(s, treg(r1)) - reg_val(s, treg(r2))) % 0x1_0000_0000
            &&& forall|n: u8|
                TargetReg::X(n) != treg(rd) ==> reg_val(s2->Some_0, TargetReg::X(n)) == reg_val(
                    s,
                    TargetReg::X(n),
                )
            &&& wf(s2->Some_0)
        }),
{
    let args = seq![ArgV::Register(rd), ArgV::Register(r1), ArgV::Register(r2)];
    lemma_dispatch_sub(args);
    reveal_strlit("sub");
    assert("sub"@.len() == 3);
    reveal_strlit("add");
    assert("sub"@[0] != "add"@[0]);
    assert("sub"@ != "add"@);
    reveal_strlit("addi");
    assert("addi"@.len() == 4);
    assert("sub"@ != "addi"@);
    let t = TargetInstrV::WrapSignedSub(treg(rd), TargetOp::Reg(treg(r1)), treg(r2));
    assert(crate::lower::spec_rrr(args) == Ok::<(Register, Register, Register), crate::ast::CompileErrorV>(
        (rd, r1, r2),
    ));
    assert(spec_lower("sub"@, args) == Ok::<Seq<TargetInstrV>, crate::ast::CompileErrorV>(seq![t])) by {
        assert(crate::lower::elide(rd, seq![t]) == seq![t]);
    }
    let a = reg_val(s, treg(r1));
    let b = reg_val(s, treg(r2));
    assert(u32r(a) && u32r(b));
    let w = (a - b) % 0x1_0000_0000;
    assert(step(s, t) == write_reg(s, treg(rd), w));
    assert(treg(rd) != TargetReg::X(0));
    lemma_write_reg_wf(s, treg(rd), w);
    let s1 = write_reg(s, treg(rd), w)->Some_0;
    assert(seq![t].drop_first() =~= Seq::<TargetInstrV>::empty());
    assert(exec_seq(s1, seq![t].drop_first()) == Some(s1));
    assert(exec_seq(s, seq![t]) == Some(s1));
}

/// Lowering `and` and executing the emitted code leaves the destination
/// holding the bitwise conjunction, for all 32-bit operand values.
pub proof fn lemma_and_executes(s: TargetState, rd: Register, r1: Register, r2: Register)
    requires
        wf(s),
        rd.spec_value() != 0,
    ensures
        ({
            let code = spec_lower("and"@, seq![ArgV::Register(rd), ArgV::Register(r1), ArgV::Register(r2)]);
            let s2 = exec_seq(s, code->Ok_0);
            &&& code is Ok
            &&& s2 is Some
            &&& reg_val(s2->Some_0, treg(rd)) == and32(reg_val(s, treg(r1)), reg_val(s, treg(r2)))
            &&& forall|n: u8|
                TargetReg::X(n) != treg(rd) ==> reg_val(s2->Some_0, TargetReg::X(n)) == reg_val(
                    s,
                    TargetReg::X(n),
                )
            &&& wf(s2->Some_0)
        }),
{
    let args = seq![ArgV::Register(rd), ArgV::Register(r1), ArgV::Register(r2)];
    lemma_dispatch_and(args);
    reveal_strlit("and");
    assert("and"@.len() == 3);
    reveal_strlit("xor");
    assert("and"@[0] != "xor"@[0]);
    assert("and"@ != "xor"@);
    reveal_strlit("xori");
    assert("xori"@.len() == 4);
    assert("and"@ != "xori"@);
    let t = TargetInstrV::Binary(crate::target::BinKind::And, treg(rd), TargetOp::Reg(treg(r1)), TargetOp::Reg(treg(r2)));
    assert(crate::lower::spec_rrr(args) == Ok::<(Register, Register, Register), crate::ast::CompileErrorV>(
        (rd, r1, r2),
    ));
    assert(spec_lower("and"@, args) == Ok::<Seq<TargetInstrV>, crate::ast::CompileErrorV>(seq![t])) by {
        assert(crate::lower::elide(rd, seq![t]) == seq![t]);
    }
    let a = reg_val(s, treg(r1));
    let b = reg_val(s, treg(r2));
    assert(u32r(a) && u32r(b));
    let w = and32(a, b);
    assert(step(s, t) == write_reg(s, treg(rd), w));
    assert(treg(rd) != TargetReg::X(0));
    lemma_write_reg_wf(s, treg(rd), w);
    let s1 = write_reg(s, treg(rd), w)->Some_0;
    assert(seq![t].drop_first() =~= Seq::<TargetInstrV>::empty());
    assert(exec_seq(s1, seq![t].drop_first()) == Some(s1));
    assert(exec_seq(s, seq![t]) == Some(s1));
}

/// Lowering `or` and executing the emitted code leaves the destination
/// holding the bitwise disjunction, for all 32-bit operand values.
pub proof fn lemma_or_executes(s: TargetState, rd: Register, r1: Register, r2: Register)
    requires
        wf(s),
        rd.spec_value() != 0,
    ensures
        ({
            let code = spec_lower("or"@, seq![ArgV::Register(rd), ArgV::Register(r1), ArgV::Register(r2)]);
            let s2 = exec_seq(s, code->Ok_0);
            &&& code is Ok
            &&& s2 is Some
            &&& reg_val(s2->Some_0, treg(rd)) == or32(reg_val(s, treg(r1)), reg_val(s, treg(r2)))
            &&& forall|n: u8|
                TargetReg::X(n) != treg(rd) ==> reg_val(s2->Some_0, TargetReg::X(n)) == reg_val(
                    s,
                    TargetReg::X(n),
                )
            &&& wf(s2->Some_0)
        }),
{
    let args = seq![ArgV::Register(rd), ArgV::Register(r1), ArgV::Register(r2)];
    lemma_dispatch_or(args);
    reveal_strlit("or");
    assert("or"@.len() == 2);
    reveal_strlit("xor");
    assert("xor"@.len() == 3);
    assert("or"@ != "xor"@);
    reveal_strlit("xori");
    assert("xori"@.len() == 4);
    assert("or"@ != "xori"@);
    reveal_strlit("and");
    assert("and"@.len() == 3);
    assert("or"@ != "and"@);
    reveal_strlit("andi");
    assert("andi"@.len() == 4);
    assert("or"@ != "andi"@);
    let t = TargetInstrV::Binary(crate::target::BinKind::Or, treg(rd), TargetOp::Reg(treg(r1)), TargetOp::Reg(treg(r2)));
    assert(crate::lower::spec_rrr(args) == Ok::<(Register, Register, Register), crate::ast::CompileErrorV>(
        (rd, r1, r2),
    ));
    assert(spec_lower("or"@, args) == Ok::<Seq<TargetInstrV>, crate::ast::CompileErrorV>(seq![t])) by {
        assert(crate::lower::elide(rd, seq![t]) == seq![t]);
    }
    let a = reg_val(s, treg(r1));
    let b = reg_val(s, treg(r2));
    assert(u32r(a) && u32r(b));
    let w = or32(a, b);
    assert(step(s, t) == write_reg(s, treg(rd), w));
    assert(treg(rd) != TargetReg::X(0));
    lemma_write_reg_wf(s, treg(rd), w);
    let s1 = write_reg(s, treg(rd), w)->Some_0;
    assert(seq![t].drop_first() =~= Seq::<TargetInstrV>::empty());
    assert(exec_seq(s1, seq![t].drop_first()) == Some(s1));
    assert(exec_seq(s, seq![t]) == Some(s1));
}

/// Lowering `xor` and executing the emitted code leaves the destination
/// holding the bitwise exclusive disjunction, for all 32-bit operand values.
pub proof fn lemma_xor_executes(s: TargetState, rd: Register, r1: Register, r2: Register)
    requires
        wf(s),
        rd.spec_value() != 0,
    ensures
        ({
            let code = spec_lower("xor"@, seq![ArgV::Register(rd), ArgV::Register(r1), ArgV::Register(r2)]);
            let s2 = exec_seq(s, code->Ok_0);
            &&& code is Ok
            &&& s2 is Some
            &&& reg_val(s2->Some_0, treg(rd)) == xor32(reg_val(s, treg(r1)), reg_val(s, treg(r2)))
            &&& forall|n: u8|
                TargetReg::X(n) != treg(rd) ==> reg_val(s2->Some_0, TargetReg::X(n)) == reg_val(
                    s,
                    TargetReg::X(n),
                )
            &&& wf(s2->Some_0)
        }),
{
    let args = seq![ArgV::Register(rd), ArgV::Register(r1), ArgV::Register(r2)];
    lemma_dispatch_xor(args);
    reveal_strlit("xor");
    assert("xor"@.len() == 3);
    let t = TargetInstrV::Binary(crate::target::BinKind::Xor, treg(rd), TargetOp::Reg(treg(r1)), TargetOp::Reg(treg(r2)));
    assert(crate::lower::spec_rrr(args) == Ok::<(Register, Register, Register), crate::ast::CompileErrorV>(
        (rd, r1, r2),
    ));
    assert(spec_lower("xor"@, args) == Ok::<Seq<TargetInstrV>, crate::ast::CompileErrorV>(seq![t])) by {
        assert(crate::lower::elide(rd, seq![t]) == seq![t]);
    }
    let a = reg_val(s, treg(r1));
    let b = reg_val(s, treg(r2));
    assert(u32r(a) && u32r(b));
    let w = xor32(a, b);
    assert(step(s, t) == write_reg(s, treg(rd), w));
    assert(treg(rd) != TargetReg::X(0));
    lemma_write_reg_wf(s, treg(rd), w);
    let s1 = write_reg(s, treg(rd), w)->Some_0;
    assert(seq![t].drop_first() =~= Seq::<TargetInstrV>::empty());
    assert(exec_seq(s1, seq![t].drop_first()) == Some(s1));
    assert(exec_seq(s, seq![t]) == Some(s1));
}

/// Lowering `mul` and executing the emitted code leaves the destination
/// holding the low half of the product, for all 32-bit operand values.
pub proof fn lemma_mul_executes(s: TargetState, rd: Register, r1: Register, r2: Register)
    requires
        wf(s),
        rd.spec_value() != 0,
    ensures
        ({
            let code = spec_lower("mul"@, seq![ArgV::Register(rd), ArgV::Register(r1), ArgV::Register(r2)]);
            let s2 = exec_seq(s, code->Ok_0);
            &&& code is Ok
            &&& s2 is Some
            &&& reg_val(s2->Some_0, treg(rd)) == (reg_val(s, treg(r1)) * reg_val(s, treg(r2))) % 0x1_0000_0000
            &&& forall|n: u8|
                TargetReg::X(n) != treg(rd) ==> reg_val(s2->Some_0, TargetReg::X(n)) == reg_val(
                    s,
                    TargetReg::X(n),
                )
            &&& wf(s2->Some_0)
        }),
{
    let args = seq![ArgV::Register(rd), ArgV::Register(r1), ArgV::Register(r2)];
    lemma_dispatch_mul(args);
    reveal_strlit("mul");
    assert("mul"@.len() == 3);
    reveal_strlit("add");
    assert("mul"@[0] != "add"@[0]);
    assert("mul"@ != "add"@);
    reveal_strlit("addi");
    assert("addi"@.len() == 4);
    assert("mul"@ != "addi"@);
    reveal_strlit("sub");
    assert("mul"@[0] != "sub"@[0]);
    assert("mul"@ != "sub"@);
    reveal_strlit("neg");
    assert("mul"@[0] != "neg"@[0]);
    assert("mul"@ != "neg"@);
    let t = TargetInstrV::Binary(crate::target::BinKind::Mul, treg(rd), TargetOp::Reg(treg(r1)), TargetOp::Reg(treg(r2)));
    assert(crate::lower::spec_rrr(args) == Ok::<(Register, Register, Register), crate::ast::CompileErrorV>(
        (rd, r1, r2),
    ));
    assert(spec_lower("mul"@, args) == Ok::<Seq<TargetInstrV>, crate::ast::CompileErrorV>(seq![t])) by {
        assert(crate::lower::elide(rd, seq![t]) == seq![t]);
    }
    let a = reg_val(s, treg(r1));
    let b = reg_val(s, treg(r2));
    assert(u32r(a) && u32r(b));
    assert(0 <= a * b) by (nonlinear_arith)
        requires
            a >= 0 && b >= 0,
    ;
    let w = (a * b) % 0x1_0000_0000;
    assert(step(s, t) == write_reg(s, treg(rd), w));
    assert(treg(rd) != TargetReg::X(0));
    lemma_write_reg_wf(s, treg(rd), w);
    let s1 = write_reg(s, treg(rd), w)->Some_0;
    assert(seq![t].drop_first() =~= Seq::<TargetInstrV>::empty());
    assert(exec_seq(s1, seq![t].drop_first()) == Some(s1));
    assert(exec_seq(s, seq![t]) == Some(s1));
}

/// Lowering `mulhu` and executing the emitted code leaves the destination
/// holding the high half of the product, for all 32-bit operand values.
pub proof fn lemma_mulhu_executes(s: TargetState, rd: Register, r1: Register, r2: Register)
    requires
        wf(s),
        rd.spec_value() != 0,
    ensures
        ({
            let code = spec_lower("mulhu"@, seq![ArgV::Register(rd), ArgV::Register(r1), ArgV::Register(r2)]);
            let s2 = exec_seq(s, code->Ok_0);
            &&& code is Ok
            &&& s2 is Some
            &&& reg_val(s2->Some_0, treg(rd)) == (reg_val(s, treg(r1)) * reg_val(s, treg(r2))) / 0x1_0000_0000
            &&& forall|n: u8|
                TargetReg::X(n) != treg(rd) ==> reg_val(s2->Some_0, TargetReg::X(n)) == reg_val(
                    s,
                    TargetReg::X(n),
                )
            &&& wf(s2->Some_0)
        }),
{
    let args = seq![ArgV::Register(rd), ArgV::Register(r1), ArgV::Register(r2)];
    lemma_dispatch_mulhu(args);
    reveal_strlit("mulhu");
    assert("mulhu"@.len() == 5);
    reveal_strlit("add");
    assert("add"@.len() == 3);
    assert("mulhu"@ != "add"@);
    reveal_strlit("addi");
    assert("addi"@.len() == 4);
    assert("mulhu"@ != "addi"@);
    reveal_strlit("sub");
    assert("sub"@.len() == 3);
    assert("mulhu"@ != "sub"@);
    reveal_strlit("neg");
    assert("neg"@.len() == 3);
    assert("mulhu"@ != "neg"@);
    reveal_strlit("mul");
    assert("mul"@.len() == 3);
    assert("mulhu"@ != "mul"@);
    let t = TargetInstrV::Binary(crate::target::BinKind::Mulhu, treg(rd), TargetOp::Reg(treg(r1)), TargetOp::Reg(treg(r2)));
    assert(crate::lower::spec_rrr(args) == Ok::<(Register, Register, Register), crate::ast::CompileErrorV>(
        (rd, r1, r2),
    ));
    assert(spec_lower("mulhu"@, args) == Ok::<Seq<TargetInstrV>, crate::ast::CompileErrorV>(seq![t])) by {
        assert(crate::lower::elide(rd, seq![t]) == seq![t]);
    }
    let a = reg_val(s, treg(r1));
    let b = reg_val(s, treg(r2));
    assert(u32r(a) && u32r(b));
    assert(0 <= a * b && a * b < 0x1_0000_0000 * 0x1_0000_0000) by (nonlinear_arith)
        requires
            0 <= a < 0x1_0000_0000 && 0 <= b < 0x1_0000_0000,
    ;
    vstd::arithmetic::div_mod::lemma_div_pos_is_pos(a * b, 0x1_0000_0000);
    vstd::arithmetic::div_mod::lemma_multiply_divide_lt(a * b, 0x1_0000_0000, 0x1_0000_0000);
    let w = (a * b) / 0x1_0000_0000;
    assert(step(s, t) == write_reg(s, treg(rd), w));
    assert(treg(rd) != TargetReg::X(0));
    lemma_write_reg_wf(s, treg(rd), w);
    let s1 = write_reg(s, treg(rd), w)->Some_0;
    assert(seq![t].drop_first() =~= Seq::<TargetInstrV>::empty());
    assert(exec_seq(s1, seq![t].drop_first()) == Some(s1));
    assert(exec_seq(s, seq![t]) == Some(s1));
}

/// Lowering `divu` and executing the emitted code leaves the destination
/// holding the documented quotient (the sentinel for a zero divisor), for all 32-bit operand values.
pub proof fn lemma_divu_executes(s: TargetState, rd: Register, r1: Register, r2: Register)
    requires
        wf(s),
        rd.spec_value() != 0,
    ensures
        ({
            let code = spec_lower("divu"@, seq![ArgV::Register(rd), ArgV::Register(r1), ArgV::Register(r2)]);
            let s2 = exec_seq(s, code->Ok_0);
            &&& code is Ok
            &&& s2 is Some
            &&& reg_val(s2->Some_0, treg(rd)) == divu_quotient(reg_val(s, treg(r1)), reg_val(s, treg(r2)))
            &&& forall|n: u8|
                TargetReg::X(n) != treg(rd) ==> reg_val(s2->Some_0, TargetReg::X(n)) == reg_val(
                    s,
                    TargetReg::X(n),
                )
            &&& wf(s2->Some_0)
        }),
{
    let args = seq![ArgV::Register(rd), ArgV::Register(r1), ArgV::Register(r2)];
    lemma_dispatch_divu(args);
    reveal_strlit("divu");
    assert("divu"@.len() == 4);
    reveal_strlit("add");
    assert("add"@.len() == 3);
    assert("divu"@ != "add"@);
    reveal_strlit("addi");
    assert("divu"@[0] != "addi"@[0]);
    assert("divu"@ != "addi"@);
    reveal_strlit("sub");
    assert("sub"@.len() == 3);
    assert("divu"@ != "sub"@);
    reveal_strlit("neg");
    assert("neg"@.len() == 3);
    assert("divu"@ != "neg"@);
    reveal_strlit("mul");
    assert("mul"@.len() == 3);
    assert("divu"@ != "mul"@);
    reveal_strlit("mulhu");
    assert("mulhu"@.len() == 5);
    assert("divu"@ != "mulhu"@);
    let t = TargetInstrV::Divu(treg(rd), treg(r1), treg(r2));
    assert(crate::lower::spec_rrr(args) == Ok::<(Register, Register, Register), crate::ast::CompileErrorV>(
        (rd, r1, r2),
    ));
    assert(spec_lower("divu"@, args) == Ok::<Seq<TargetInstrV>, crate::ast::CompileErrorV>(seq![t])) by {
        assert(crate::lower::elide(rd, seq![t]) == seq![t]);
    }
    let a = reg_val(s, treg(r1));
    let b = reg_val(s, treg(r2));
    assert(u32r(a) && u32r(b));
    if b != 0 {
        vstd::arithmetic::div_mod::lemma_div_pos_is_pos(a, b);
        vstd::arithmetic::div_mod::lemma_div_nonincreasing(a, b);
    }
    let w = divu_quotient(a, b);
    assert(step(s, t) == write_reg(s, treg(rd), w));
    assert(treg(rd) != TargetReg::X(0));
    lemma_write_reg_wf(s, treg(rd), w);
    let s1 = write_reg(s, treg(rd), w)->Some_0;
    assert(seq![t].drop_first() =~= Seq::<TargetInstrV>::empty());
    assert(exec_seq(s1, seq![t].drop_first()) == Some(s1));
    assert(exec_seq(s, seq![t]) == Some(s1));
}

/// Lowering `sltu` and executing the emitted code leaves the destination
/// holding 1 exactly when the first source is below the second, unsigned, for all 32-bit operand values.
pub proof fn lemma_sltu_executes(s: TargetState, rd: Register, r1: Register, r2: Register)
    requires
        wf(s),
        rd.spec_value() != 0,
    ensures
        ({
            let code = spec_lower("sltu"@, seq![ArgV::Register(rd), ArgV::Register(r1), ArgV::Register(r2)]);
            let s2 = exec_seq(s, code->Ok_0);
            &&& code is Ok
            &&& s2 is Some
            &&& reg_val(s2->Some_0, treg(rd)) == (if reg_val(s, treg(r1)) < reg_val(s, treg(r2)) { 1int } else { 0int })
            &&& forall|n: u8|
                TargetReg::X(n) != treg(rd) ==> reg_val(s2->Some_0, TargetReg::X(n)) == reg_val(
                    s,
                    TargetReg::X(n),
                )
            &&& wf(s2->Some_0)
        }),
{
    let args = seq![ArgV::Register(rd), ArgV::Register(r1), ArgV::Register(r2)];
    lemma_dispatch_sltu(args);
    reveal_strlit("sltu");
    assert("sltu"@.len() == 4);
    reveal_strlit("seqz");
    assert("sltu"@[1] != "seqz"@[1]);
    assert("sltu"@ != "seqz"@);
    reveal_strlit("snez");
    assert("sltu"@[1] != "snez"@[1]);
    assert("sltu"@ != "snez"@);
    reveal_strlit("slti");
    assert("sltu"@[3] != "slti"@[3]);
    assert("sltu"@ != "slti"@);
    reveal_strlit("slt");
    assert("slt"@.len() == 3);
    assert("sltu"@ != "slt"@);
    reveal_strlit("sltiu");
    assert("sltiu"@.len() == 5);
    assert("sltu"@ != "sltiu"@);
    let t = TargetInstrV::IsPositive(treg(rd), TargetCond::Diff(TargetOp::Reg(treg(r2)), TargetOp::Reg(treg(r1))));
    assert(crate::lower::spec_rrr(args) == Ok::<(Register, Register, Register), crate::ast::CompileErrorV>(
        (rd, r1, r2),
    ));
    assert(spec_lower("sltu"@, args) == Ok::<Seq<TargetInstrV>, crate::ast::CompileErrorV>(seq![t])) by {
        assert(crate::lower::elide(rd, seq![t]) == seq![t]);
    }
    let a = reg_val(s, treg(r1));
    let b = reg_val(s, treg(r2));
    assert(u32r(a) && u32r(b));
    let w = (if reg_val(s, treg(r2)) - reg_val(s, treg(r1)) > 0 { 1int } else { 0int });
    assert(step(s, t) == write_reg(s, treg(rd), w));
    assert(treg(rd) != TargetReg::X(0));
    lemma_write_reg_wf(s, treg(rd), w);
    let s1 = write_reg(s, treg(rd), w)->Some_0;
    assert(seq![t].drop_first() =~= Seq::<TargetInstrV>::empty());
    assert(exec_seq(s1, seq![t].drop_first()) == Some(s1));
    assert(exec_seq(s, seq![t]) == Some(s1));
}

/// Lowering `mv` and executing the emitted code leaves a copy of the source register.
pub proof fn lemma_mv_executes(s: TargetState, rd: Register, rs: Register)
    requires
        wf(s),
        rd.spec_value() != 0,
    ensures
        ({
            let code = spec_lower("mv"@, seq![ArgV::Register(rd), ArgV::Register(rs)]);
            let s2 = exec_seq(s, code->Ok_0);
            &&& code is Ok
            &&& s2 is Some
            &&& reg_val(s2->Some_0, treg(rd)) == reg_val(s, treg(rs))
            &&& forall|n: u8|
                TargetReg::X(n) != treg(rd) ==> reg_val(s2->Some_0, TargetReg::X(n)) == reg_val(
                    s,
                    TargetReg::X(n),
                )
            &&& wf(s2->Some_0)
        }),
{
    let args = seq![ArgV::Register(rd), ArgV::Register(rs)];
    lemma_dispatch_mv(args);
    reveal_strlit("mv");
    assert("mv"@.len() == 2);
    reveal_strlit("li");
    assert("mv"@[0] != "li"@[0]);
    assert("mv"@ != "li"@);
    reveal_strlit("lui");
    assert("lui"@.len() == 3);
    assert("mv"@ != "lui"@);
    reveal_strlit("la");
    assert("mv"@[0] != "la"@[0]);
    assert("mv"@ != "la"@);
    let t = TargetInstrV::Assign(treg(rd), TargetOp::Reg(treg(rs)));
    assert(crate::lower::spec_rr(args) == Ok::<(Register, Register), crate::ast::CompileErrorV>((rd, rs)));
    assert(spec_lower("mv"@, args) == Ok::<Seq<TargetInstrV>, crate::ast::CompileErrorV>(seq![t])) by {
        assert(crate::lower::elide(rd, seq![t]) == seq![t]);
    }
    let a = reg_val(s, treg(rs));
    assert(u32r(a));
    let w = reg_val(s, treg(rs));
    assert(step(s, t) == write_reg(s, treg(rd), w));
    assert(treg(rd) != TargetReg::X(0));
    lemma_write_reg_wf(s, treg(rd), w);
    let s1 = write_reg(s, treg(rd), w)->Some_0;
    assert(seq![t].drop_first() =~= Seq::<TargetInstrV>::empty());
    assert(exec_seq(s1, seq![t].drop_first()) == Some(s1));
    assert(exec_seq(s, seq![t]) == Some(s1));
}

/// Lowering `neg` and executing the emitted code leaves the two's-complement negation.
pub proof fn lemma_neg_executes(s: TargetState, rd: Register, rs: Register)
    requires
        wf(s),
        rd.spec_value() != 0,
    ensures
        ({
            let code = spec_lower("neg"@, seq![ArgV::Register(rd), ArgV::Register(rs)]);
            let s2 = exec_seq(s, code->Ok_0);
            &&& code is Ok
            &&& s2 is Some
            &&& reg_val(s2->Some_0, treg(rd)) == (0 - reg_val(s, treg(rs))) % 0x1_0000_0000
            &&& forall|n: u8|
                TargetReg::X(n) != treg(rd) ==> reg_val(s2->Some_0, TargetReg::X(n)) == reg_val(
                    s,
                    TargetReg::X(n),
                )
            &&& wf(s2->Some_0)
        }),
{
    let args = seq![ArgV::Register(rd), ArgV::Register(rs)];
    lemma_dispatch_neg(args);
    reveal_strlit("neg");
    assert("neg"@.len() == 3);
    reveal_strlit("add");
    assert("neg"@[0] != "add"@[0]);
    assert("neg"@ != "add"@);
    reveal_strlit("addi");
    assert("addi"@.len() == 4);
    assert("neg"@ != "addi"@);
    reveal_strlit("sub");
    assert("neg"@[0] != "sub"@[0]);
    assert("neg"@ != "sub"@);
    let t = TargetInstrV::WrapSignedSub(treg(rd), TargetOp::Dec(0), treg(rs));
    assert(crate::lower::spec_rr(args) == Ok::<(Register, Register), crate::ast::CompileErrorV>((rd, rs)));
    assert(spec_lower("neg"@, args) == Ok::<Seq<TargetInstrV>, crate::ast::CompileErrorV>(seq![t])) by {
        assert(crate::lower::elide(rd, seq![t]) == seq![t]);
    }
    let a = reg_val(s, treg(rs));
    assert(u32r(a));
    let w = (0 - reg_val(s, treg(rs))) % 0x1_0000_0000;
    assert(step(s, t) == write_reg(s, treg(rd), w));
    assert(treg(rd) != TargetReg::X(0));
    lemma_write_reg_wf(s, treg(rd), w);
    let s1 = write_reg(s, treg(rd), w)->Some_0;
    assert(seq![t].drop_first() =~= Seq::<TargetInstrV>::empty());
    assert(exec_seq(s1, seq![t].drop_first()) == Some(s1));
    assert(exec_seq(s, seq![t]) == Some(s1));
}

/// Lowering `not` and executing the emitted code leaves the bitwise complement (the value subtracted from the all-ones word).
pub proof fn lemma_not_executes(s: TargetState, rd: Register, rs: Register)
    requires
        wf(s),
        rd.spec_value() != 0,
    ensures
        ({
            let code = spec_lower("not"@, seq![ArgV::Register(rd), ArgV::Register(rs)]);
            let s2 = exec_seq(s, code->Ok_0);
            &&& code is Ok
            &&& s2 is Some
            &&& reg_val(s2->Some_0, treg(rd)) == 0xFFFF_FFFF - reg_val(s, treg(rs))
            &&& forall|n: u8|
                TargetReg::X(n) != treg(rd) ==> reg_val(s2->Some_0, TargetReg::X(n)) == reg_val(
                    s,
                    TargetReg::X(n),
                )
            &&& wf(s2->Some_0)
        }),
{
    let args = seq![ArgV::Register(rd), ArgV::Register(rs)];
    lemma_dispatch_not(args);
    reveal_strlit("not");
    assert("not"@.len() == 3);
    reveal_strlit("xor");
    assert("not"@[0] != "xor"@[0]);
    assert("not"@ != "xor"@);
    reveal_strlit("xori");
    assert("xori"@.len() == 4);
    assert("not"@ != "xori"@);
    reveal_strlit("and");
    assert("not"@[0] != "and"@[0]);
    assert("not"@ != "and"@);
    reveal_strlit("andi");
    assert("andi"@.len() == 4);
    assert("not"@ != "andi"@);
    reveal_strlit("or");
    assert("or"@.len() == 2);
    assert("not"@ != "or"@);
    reveal_strlit("ori");
    assert("not"@[0] != "ori"@[0]);
    assert("not"@ != "ori"@);
    let t = TargetInstrV::WrapSignedNot(treg(rd), treg(rs));
    assert(crate::lower::spec_rr(args) == Ok::<(Register, Register), crate::ast::CompileErrorV>((rd, rs)));
    assert(spec_lower("not"@, args) == Ok::<Seq<TargetInstrV>, crate::ast::CompileErrorV>(seq![t])) by {
        assert(crate::lower::elide(rd, seq![t]) == seq![t]);
    }
    let a = reg_val(s, treg(rs));
    assert(u32r(a));
    let v = -reg_val(s, treg(rs)) - 1;
    assert(v % 0x1_0000_0000 == 0xFFFF_FFFF - reg_val(s, treg(rs))) by {
        vstd::arithmetic::div_mod::lemma_mod_sub_multiples_vanish(
            0xFFFF_FFFF - reg_val(s, treg(rs)),
            0x1_0000_0000,
        );
        vstd::arithmetic::div_mod::lemma_small_mod(
            (0xFFFF_FFFF - reg_val(s, treg(rs))) as nat,
            0x1_0000_0000,
        );
        assert(v == (0xFFFF_FFFF - reg_val(s, treg(rs))) - 0x1_0000_0000);
    }
    let w = 0xFFFF_FFFF - reg_val(s, treg(rs));
    assert(step(s, t) == write_reg(s, treg(rd), w));
    assert(treg(rd) != TargetReg::X(0));
    lemma_write_reg_wf(s, treg(rd), w);
    let s1 = write_reg(s, treg(rd), w)->Some_0;
    assert(seq![t].drop_first() =~= Seq::<TargetInstrV>::empty());
    assert(exec_seq(s1, seq![t].drop_first()) == Some(s1));
    assert(exec_seq(s, seq![t]) == Some(s1));
}

/// Lowering `seqz` and executing the emitted code leaves 1 exactly when the source is zero.
pub proof fn lemma_seqz_executes(s: TargetState, rd: Register, rs: Register)
    requires
        wf(s),
        rd.spec_value() != 0,
    ensures
        ({
            let code = spec_lower("seqz"@, seq![ArgV::Register(rd), ArgV::Register(rs)]);
            let s2 = exec_seq(s, code->Ok_0);
            &&& code is Ok
            &&& s2 is Some
            &&& reg_val(s2->Some_0, treg(rd)) == (if reg_val(s, treg(rs)) == 0 { 1int } else { 0int })
            &&& forall|n: u8|
                TargetReg::X(n) != treg(rd) ==> reg_val(s2->Some_0, TargetReg::X(n)) == reg_val(
                    s,
                    TargetReg::X(n),
                )
            &&& wf(s2->Some_0)
        }),
{
    let args = seq![ArgV::Register(rd), ArgV::Register(rs)];
    lemma_dispatch_seqz(args);
    reveal_strlit("seqz");
    assert("seqz"@.len() == 4);
    let t = TargetInstrV::IsEqualZero(treg(rd), treg(rs));
    assert(crate::lower::spec_rr(args) == Ok::<(Register, Register), crate::ast::CompileErrorV>((rd, rs)));
    assert(spec_lower("seqz"@, args) == Ok::<Seq<TargetInstrV>, crate::ast::CompileErrorV>(seq![t])) by {
        assert(crate::lower::elide(rd, seq![t]) == seq![t]);
    }
    let a = reg_val(s, treg(rs));
    assert(u32r(a));
    let w = (if reg_val(s, treg(rs)) == 0 { 1int } else { 0int });
    assert(step(s, t) == write_reg(s, treg(rd), w));
    assert(treg(rd) != TargetReg::X(0));
    lemma_write_reg_wf(s, treg(rd), w);
    let s1 = write_reg(s, treg(rd), w)->Some_0;
    assert(seq![t].drop_first() =~= Seq::<TargetInstrV>::empty());
    assert(exec_seq(s1, seq![t].drop_first()) == Some(s1));
    assert(exec_seq(s, seq![t]) == Some(s1));
}

/// Lowering `snez` and executing the emitted code leaves 1 exactly when the source is non-zero.
pub proof fn lemma_snez_executes(s: TargetState, rd: Register, rs: Register)
    requires
        wf(s),
        rd.spec_value() != 0,
    ensures
        ({
            let code = spec_lower("snez"@, seq![ArgV::Register(rd), ArgV::Register(rs)]);
            let s2 = exec_seq(s, code->Ok_0);
            &&& code is Ok
            &&& s2 is Some
            &&& reg_val(s2->Some_0, treg(rd)) == (if reg_val(s, treg(rs)) == 0 { 0int } else { 1int })
            &&& forall|n: u8|
                TargetReg::X(n) != treg(rd) ==> reg_val(s2->Some_0, TargetReg::X(n)) == reg_val(
                    s,
                    TargetReg::X(n),
                )
            &&& wf(s2->Some_0)
        }),
{
    let args = seq![ArgV::Register(rd), ArgV::Register(rs)];
    lemma_dispatch_snez(args);
    reveal_strlit("snez");
    assert("snez"@.len() == 4);
    reveal_strlit("seqz");
    assert("snez"@[1] != "seqz"@[1]);
    assert("snez"@ != "seqz"@);
    let t = TargetInstrV::IsNotEqualZero(treg(rd), treg(rs));
    assert(crate::lower::spec_rr(args) == Ok::<(Register, Register), crate::ast::CompileErrorV>((rd, rs)));
    assert(spec_lower("snez"@, args) == Ok::<Seq<TargetInstrV>, crate::ast::CompileErrorV>(seq![t])) by {
        assert(crate::lower::elide(rd, seq![t]) == seq![t]);
    }
    let a = reg_val(s, treg(rs));
    assert(u32r(a));
    let w = (if reg_val(s, treg(rs)) == 0 { 0int } else { 1int });
    assert(step(s, t) == write_reg(s, treg(rd), w));
    assert(treg(rd) != TargetReg::X(0));
    lemma_write_reg_wf(s, treg(rd), w);
    let s1 = write_reg(s, treg(rd), w)->Some_0;
    assert(seq![t].drop_first() =~= Seq::<TargetInstrV>::empty());
    assert(exec_seq(s1, seq![t].drop_first()) == Some(s1));
    assert(exec_seq(s, seq![t]) == Some(s1));
}

/// Lowering `li` and executing the emitted code loads the immediate.
pub proof fn lemma_li_executes(s: TargetState, rd: Register, imm: u32)
    requires
        wf(s),
        rd.spec_value() != 0,
    ensures
        ({
            let code = spec_lower("li"@, seq![ArgV::Register(rd), ArgV::Expression(ExprV::Number(imm as int))]);
            let s2 = exec_seq(s, code->Ok_0);
            &&& code is Ok
            &&& s2 is Some
            &&& reg_val(s2->Some_0, treg(rd)) == imm as int
            &&& forall|n: u8|
                TargetReg::X(n) != treg(rd) ==> reg_val(s2->Some_0, TargetReg::X(n)) == reg_val(
                    s,
                    TargetReg::X(n),
                )
            &&& wf(s2->Some_0)
        }),
{
    let args = seq![ArgV::Register(rd), ArgV::Expression(ExprV::Number(imm as int))];
    lemma_dispatch_li(args);
    assert(crate::lower::to_u32(imm as int) == imm) by {
        assert(((imm as i64) as u32) == imm) by (bit_vector);
        assert((imm as int) as i64 == imm as i64);
    }
    assert(crate::lower::spec_ri(args) == Ok::<(Register, u32), crate::ast::CompileErrorV>(
        (rd, imm),
    ));
    let t = TargetInstrV::Assign(treg(rd), TargetOp::Dec(imm));
    assert(spec_lower("li"@, args) == Ok::<Seq<TargetInstrV>, crate::ast::CompileErrorV>(
        seq![t],
    )) by {
        assert(crate::lower::elide(rd, seq![t]) == seq![t]);
    }
    assert(step(s, t) == write_reg(s, treg(rd), imm as int));
    assert(treg(rd) != TargetReg::X(0));
    lemma_write_reg_wf(s, treg(rd), imm as int);
    let s1 = write_reg(s, treg(rd), imm as int)->Some_0;
    assert(seq![t].drop_first() =~= Seq::<TargetInstrV>::empty());
    assert(exec_seq(s1, seq![t].drop_first()) == Some(s1));
    assert(exec_seq(s, seq![t]) == Some(s1));
}

/// Lowering `lui` and executing the emitted code loads the immediate into the
/// upper half: the value times 2^12, wrapped to 32 bits.
pub proof fn lemma_lui_executes(s: TargetState, rd: Register, imm: u32)
    requires
        wf(s),
        rd.spec_value() != 0,
    ensures
        ({
            let code = spec_lower("lui"@, seq![ArgV::Register(rd), ArgV::Expression(ExprV::Number(imm as int))]);
            let s2 = exec_seq(s, code->Ok_0);
            &&& code is Ok
            &&& s2 is Some
            &&& reg_val(s2->Some_0, treg(rd)) == (imm as int * 0x1000) % 0x1_0000_0000
            &&& wf(s2->Some_0)
        }),
{
    let args = seq![ArgV::Register(rd), ArgV::Expression(ExprV::Number(imm as int))];
    lemma_dispatch_lui(args);
    reveal_strlit("lui");
    reveal_strlit("li");
    assert("lui"@.len() == 3);
    assert("li"@.len() == 2);
    assert("lui"@ != "li"@);
    assert(crate::lower::to_u32(imm as int) == imm) by {
        assert(((imm as i64) as u32) == imm) by (bit_vector);
        assert((imm as int) as i64 == imm as i64);
    }
    assert(crate::lower::spec_ri(args) == Ok::<(Register, u32), crate::ast::CompileErrorV>(
        (rd, imm),
    ));
    let t = TargetInstrV::Assign(treg(rd), TargetOp::Dec(imm << 12u32));
    assert(spec_lower("lui"@, args) == Ok::<Seq<TargetInstrV>, crate::ast::CompileErrorV>(
        seq![t],
    )) by {
        assert(crate::lower::elide(rd, seq![t]) == seq![t]);
    }
    let shifted = imm << 12u32;
    assert(imm << 12u32 == (((imm as u64) * 0x1000) % 0x1_0000_0000) as u32) by (bit_vector);
    assert((((imm as u64) * 0x1000) % 0x1_0000_0000) as u32 as int == ((imm as u64) * 0x1000)
        % 0x1_0000_0000);
    assert((imm as u64 * 0x1000) % 0x1_0000_0000 == (imm as int * 0x1000) % 0x1_0000_0000);
    assert(step(s, t) == write_reg(s, treg(rd), shifted as int));
    assert(treg(rd) != TargetReg::X(0));
    lemma_write_reg_wf(s, treg(rd), shifted as int);
    let s1 = write_reg(s, treg(rd), shifted as int)->Some_0;
    assert(seq![t].drop_first() =~= Seq::<TargetInstrV>::empty());
    assert(exec_seq(s1, seq![t].drop_first()) == Some(s1));
    assert(exec_seq(s, seq![t]) == Some(s1));
}

/// Lowering `addi` and executing the emitted code adds the immediate with
/// 32-bit wraparound.
pub proof fn lemma_addi_executes(s: TargetState, rd: Register, rs: Register, imm: u32)
    requires
        wf(s),
        rd.spec_value() != 0,
    ensures
        ({
            let code = spec_lower("addi"@, seq![ArgV::Register(rd), ArgV::Register(rs), ArgV::Expression(ExprV::Number(imm as int))]);
            let s2 = exec_seq(s, code->Ok_0);
            &&& code is Ok
            &&& s2 is Some
            &&& reg_val(s2->Some_0, treg(rd)) == (reg_val(s, treg(rs)) + imm as int) % 0x1_0000_0000
            &&& wf(s2->Some_0)
        }),
{
    let args = seq![ArgV::Register(rd), ArgV::Register(rs), ArgV::Expression(ExprV::Number(imm as int))];
    lemma_dispatch_addi(args);
    reveal_strlit("addi");
    reveal_strlit("add");
    assert("addi"@.len() == 4);
    assert("add"@.len() == 3);
    assert("addi"@ != "add"@);
    assert(crate::lower::to_u32(imm as int) == imm) by {
        assert(((imm as i64) as u32) == imm) by (bit_vector);
        assert((imm as int) as i64 == imm as i64);
    }
    assert(crate::lower::spec_rri(args) == Ok::<
        (Register, Register, u32),
        crate::ast::CompileErrorV,
    >((rd, rs, imm)));
    let t = TargetInstrV::WrapAdd(treg(rd), treg(rs), TargetOp::Dec(imm));
    assert(spec_lower("addi"@, args) == Ok::<Seq<TargetInstrV>, crate::ast::CompileErrorV>(
        seq![t],
    )) by {
        assert(crate::lower::elide(rd, seq![t]) == seq![t]);
    }
    let a = reg_val(s, treg(rs));
    assert(u32r(a));
    let w = (a + imm as int) % 0x1_0000_0000;
    assert(step(s, t) == write_reg(s, treg(rd), w));
    assert(treg(rd) != TargetReg::X(0));
    lemma_write_reg_wf(s, treg(rd), w);
    let s1 = write_reg(s, treg(rd), w)->Some_0;
    assert(seq![t].drop_first() =~= Seq::<TargetInstrV>::empty());
    assert(exec_seq(s1, seq![t].drop_first()) == Some(s1));
    assert(exec_seq(s, seq![t]) == Some(s1));
}

/// Lowering `sltiu` and executing the emitted code leaves 1 exactly when the
/// source is below the immediate, unsigned.
pub proof fn lemma_sltiu_executes(s: TargetState, rd: Register, rs: Register, imm: u32)
    requires
        wf(s),
        rd.spec_value() != 0,
    ensures
        ({
            let code = spec_lower("sltiu"@, seq![ArgV::Register(rd), ArgV::Register(rs), ArgV::Expression(ExprV::Number(imm as int))]);
            let s2 = exec_seq(s, code->Ok_0);
            &&& code is Ok
            &&& s2 is Some
            &&& reg_val(s2->Some_0, treg(rd)) == (if reg_val(s, treg(rs)) < imm as int { 1int } else { 0int })
            &&& wf(s2->Some_0)
        }),
{
    let args = seq![ArgV::Register(rd), ArgV::Register(rs), ArgV::Expression(ExprV::Number(imm as int))];
    lemma_dispatch_sltiu(args);
    reveal_strlit("sltiu");
    assert("sltiu"@.len() == 5);
    reveal_strlit("seqz");
    assert("seqz"@.len() == 4);
    assert("sltiu"@ != "seqz"@);
    reveal_strlit("snez");
    assert("snez"@.len() == 4);
    assert("sltiu"@ != "snez"@);
    reveal_strlit("slti");
    assert("slti"@.len() == 4);
    assert("sltiu"@ != "slti"@);
    reveal_strlit("slt");
    assert("slt"@.len() == 3);
    assert("sltiu"@ != "slt"@);
    assert(crate::lower::to_u32(imm as int) == imm) by {
        assert(((imm as i64) as u32) == imm) by (bit_vector);
        assert((imm as int) as i64 == imm as i64);
    }
    assert(crate::lower::spec_rri(args) == Ok::<
        (Register, Register, u32),
        crate::ast::CompileErrorV,
    >((rd, rs, imm)));
    let t = TargetInstrV::IsPositive(
        treg(rd),
        TargetCond::Diff(TargetOp::Dec(imm), TargetOp::Reg(treg(rs))),
    );
    assert(spec_lower("sltiu"@, args) == Ok::<Seq<TargetInstrV>, crate::ast::CompileErrorV>(
        seq![t],
    )) by {
        assert(crate::lower::elide(rd, seq![t]) == seq![t]);
    }
    let a = reg_val(s, treg(rs));
    assert(u32r(a));
    let w = (if imm as int - a > 0 { 1int } else { 0int });
    assert(step(s, t) == write_reg(s, treg(rd), w));
    assert(treg(rd) != TargetReg::X(0));
    lemma_write_reg_wf(s, treg(rd), w);
    let s1 = write_reg(s, treg(rd), w)->Some_0;
    assert(seq![t].drop_first() =~= Seq::<TargetInstrV>::empty());
    assert(exec_seq(s1, seq![t].drop_first()) == Some(s1));
    assert(exec_seq(s, seq![t]) == Some(s1));
}

/// Lowering `slt` and executing the emitted three-instruction sequence leaves
/// 1 exactly when the first source is below the second under the signed
/// (two's-complement) reading.
pub proof fn lemma_slt_executes(s: TargetState, rd: Register, r1: Register, r2: Register)
    requires
        wf(s),
        rd.spec_value() != 0,
    ensures
        ({
            let code = spec_lower("slt"@, seq![ArgV::Register(rd), ArgV::Register(r1), ArgV::Register(r2)]);
            let s2 = exec_seq(s, code->Ok_0);
            &&& code is Ok
            &&& s2 is Some
            &&& reg_val(s2->Some_0, treg(rd)) == (if to_signed_val(reg_val(s, treg(r1))) < to_signed_val(reg_val(s, treg(r2))) { 1int } else { 0int })
            &&& wf(s2->Some_0)
        }),
{
    let args = seq![ArgV::Register(rd), ArgV::Register(r1), ArgV::Register(r2)];
    lemma_dispatch_slt(args);
    reveal_strlit("slt");
    assert("slt"@.len() == 3);
    reveal_strlit("seqz");
    assert("seqz"@.len() == 4);
    assert("slt"@ != "seqz"@);
    reveal_strlit("snez");
    assert("snez"@.len() == 4);
    assert("slt"@ != "snez"@);
    reveal_strlit("slti");
    assert("slti"@.len() == 4);
    assert("slt"@ != "slti"@);
    assert(crate::lower::spec_rrr(args) == Ok::<
        (Register, Register, Register),
        crate::ast::CompileErrorV,
    >((rd, r1, r2)));
    let t0 = TargetInstrV::ToSigned(TargetReg::Tmp1, treg(r1));
    let t1 = TargetInstrV::ToSigned(TargetReg::Tmp2, treg(r2));
    let t2 = TargetInstrV::IsPositive(
        treg(rd),
        TargetCond::Diff(TargetOp::Reg(TargetReg::Tmp2), TargetOp::Reg(TargetReg::Tmp1)),
    );
    assert(spec_lower("slt"@, args) == Ok::<Seq<TargetInstrV>, crate::ast::CompileErrorV>(
        seq![t0, t1, t2],
    )) by {
        assert(crate::lower::elide(rd, seq![t0, t1, t2]) == seq![t0, t1, t2]);
    }
    let a = reg_val(s, treg(r1));
    let b = reg_val(s, treg(r2));
    assert(u32r(a) && u32r(b));
    assert(step(s, t0) == write_reg(s, TargetReg::Tmp1, to_signed_val(a)));
    lemma_write_reg_wf_any(s, TargetReg::Tmp1, to_signed_val(a));
    let s1 = write_reg(s, TargetReg::Tmp1, to_signed_val(a))->Some_0;
    assert(reg_val(s1, treg(r2)) == b);
    assert(u32r(reg_val(s1, treg(r2))));
    assert(step(s1, t1) == write_reg(s1, TargetReg::Tmp2, to_signed_val(b)));
    lemma_write_reg_wf_any(s1, TargetReg::Tmp2, to_signed_val(b));
    let s2 = write_reg(s1, TargetReg::Tmp2, to_signed_val(b))->Some_0;
    assert(reg_val(s2, TargetReg::Tmp1) == to_signed_val(a));
    assert(reg_val(s2, TargetReg::Tmp2) == to_signed_val(b));
    let w = (if to_signed_val(b) - to_signed_val(a) > 0 { 1int } else { 0int });
    assert(step(s2, t2) == write_reg(s2, treg(rd), w));
    assert(treg(rd) != TargetReg::X(0));
    assert(forall|n: u8| reg_val(s2, TargetReg::X(n)) == reg_val(s, TargetReg::X(n)));
    assert(wf(s2)) by {
        assert(s2.regs.dom() =~= Set::full());
    }
    lemma_write_reg_wf(s2, treg(rd), w);
    let s3 = write_reg(s2, treg(rd), w)->Some_0;
    assert(seq![t0, t1, t2].drop_first() =~= seq![t1, t2]);
    assert(seq![t1, t2].drop_first() =~= seq![t2]);
    assert(seq![t2].drop_first() =~= Seq::<TargetInstrV>::empty());
    assert(exec_seq(s3, seq![t2].drop_first()) == Some(s3));
    assert(exec_seq(s2, seq![t2]) == Some(s3));
    assert(exec_seq(s1, seq![t1, t2]) == Some(s3));
    assert(exec_seq(s, seq![t0, t1, t2]) == Some(s3));
}

/// Writing a scratch register (which may hold a signed intermediate) leaves
/// every other register and the memory unchanged.
pub proof fn lemma_write_reg_wf_any(s: TargetState, d: TargetReg, v: int)
    requires
        wf(s),
        !(d is X),
    ensures
        write_reg(s, d, v) is Some,
        reg_val(write_reg(s, d, v)->Some_0, d) == v,
        forall|r: TargetReg| r != d ==> reg_val(write_reg(s, d, v)->Some_0, r) == reg_val(s, r),
        write_reg(s, d, v)->Some_0.mem == s.mem,
        write_reg(s, d, v)->Some_0.regs.dom().is_full(),
        forall|n: u8| u32r(#[trigger] write_reg(s, d, v)->Some_0.regs[TargetReg::X(n)]),
        write_reg(s, d, v)->Some_0.regs[TargetReg::X(0)] == 0,
        forall|a: int|
            write_reg(s, d, v)->Some_0.mem.dom().contains(a) ==> u32r(
                #[trigger] write_reg(s, d, v)->Some_0.mem[a],
            ),
{
    assert(s.regs.insert(d, v).dom() =~= Set::full());
}

/// Lowering `beq` and executing its branch condition takes the branch
/// exactly when the two sources hold the same word.
pub proof fn lemma_beq_branches(s: TargetState, r1: Register, r2: Register, l: Seq<char>)
    requires
        wf(s),
    ensures
        ({
            let code = spec_lower("beq"@, seq![ArgV::Register(r1), ArgV::Register(r2), ArgV::Expression(ExprV::Symbol(l))]);
            &&& code is Ok
            &&& code->Ok_0.len() == 1
            &&& branch_taken(s, code->Ok_0[0]) == Some(reg_val(s, treg(r1)) == reg_val(s, treg(r2)))
        }),
{
    let args = seq![ArgV::Register(r1), ArgV::Register(r2), ArgV::Expression(ExprV::Symbol(l))];
    lemma_dispatch_beq(args);
    reveal_strlit("beq");
    assert("beq"@.len() == 3);
    assert(crate::lower::spec_rrl(args) == Ok::<(Register, Register, Seq<char>), crate::ast::CompileErrorV>(
        (r1, r2, crate::text::escape_seq(l)),
    ));
    let t = TargetInstrV::BranchIfZero(TargetCond::Diff(TargetOp::Reg(treg(r1)), TargetOp::Reg(treg(r2))), crate::text::escape_seq(l));
    assert(spec_lower("beq"@, args) == Ok::<Seq<TargetInstrV>, crate::ast::CompileErrorV>(seq![t]));
    let a = reg_val(s, treg(r1));
    let b = reg_val(s, treg(r2));
    assert(u32r(a) && u32r(b));
}

/// Lowering `bne` and executing its branch condition takes the branch
/// exactly when the two sources hold different words.
pub proof fn lemma_bne_branches(s: TargetState, r1: Register, r2: Register, l: Seq<char>)
    requires
        wf(s),
    ensures
        ({
            let code = spec_lower("bne"@, seq![ArgV::Register(r1), ArgV::Register(r2), ArgV::Expression(ExprV::Symbol(l))]);
            &&& code is Ok
            &&& code->Ok_0.len() == 1
            &&& branch_taken(s, code->Ok_0[0]) == Some(reg_val(s, treg(r1)) != reg_val(s, treg(r2)))
        }),
{
    let args = seq![ArgV::Register(r1), ArgV::Register(r2), ArgV::Expression(ExprV::Symbol(l))];
    lemma_dispatch_bne(args);
    reveal_strlit("bne");
    assert("bne"@.len() == 3);
    reveal_strlit("beq");
    assert("bne"@[1] != "beq"@[1]);
    assert("bne"@ != "beq"@);
    reveal_strlit("beqz");
    assert("beqz"@.len() == 4);
    assert("bne"@ != "beqz"@);
    reveal_strlit("bgeu");
    assert("bgeu"@.len() == 4);
    assert("bne"@ != "bgeu"@);
    reveal_strlit("bgez");
    assert("bgez"@.len() == 4);
    assert("bne"@ != "bgez"@);
    reveal_strlit("bltu");
    assert("bltu"@.len() == 4);
    assert("bne"@ != "bltu"@);
    reveal_strlit("blt");
    assert("bne"@[1] != "blt"@[1]);
    assert("bne"@ != "blt"@);
    reveal_strlit("bge");
    assert("bne"@[1] != "bge"@[1]);
    assert("bne"@ != "bge"@);
    reveal_strlit("bltz");
    assert("bltz"@.len() == 4);
    assert("bne"@ != "bltz"@);
    reveal_strlit("blez");
    assert("blez"@.len() == 4);
    assert("bne"@ != "blez"@);
    reveal_strlit("bgtz");
    assert("bgtz"@.len() == 4);
    assert("bne"@ != "bgtz"@);
    assert(crate::lower::spec_rrl(args) == Ok::<(Register, Register, Seq<char>), crate::ast::CompileErrorV>(
        (r1, r2, crate::text::escape_seq(l)),
    ));
    let t = TargetInstrV::BranchIfNonzero(TargetCond::Diff(TargetOp::Reg(treg(r1)), TargetOp::Reg(treg(r2))), crate::text::escape_seq(l));
    assert(spec_lower("bne"@, args) == Ok::<Seq<TargetInstrV>, crate::ast::CompileErrorV>(seq![t]));
    let a = reg_val(s, treg(r1));
    let b = reg_val(s, treg(r2));
    assert(u32r(a) && u32r(b));
}

/// Lowering `bltu` and executing its branch condition takes the branch
/// exactly when the first source is below the second, unsigned.
pub proof fn lemma_bltu_branches(s: TargetState, r1: Register, r2: Register, l: Seq<char>)
    requires
        wf(s),
    ensures
        ({
            let code = spec_lower("bltu"@, seq![ArgV::Register(r1), ArgV::Register(r2), ArgV::Expression(ExprV::Symbol(l))]);
            &&& code is Ok
            &&& code->Ok_0.len() == 1
            &&& branch_taken(s, code->Ok_0[0]) == Some(reg_val(s, treg(r1)) < reg_val(s, treg(r2)))
        }),
{
    let args = seq![ArgV::Register(r1), ArgV::Register(r2), ArgV::Expression(ExprV::Symbol(l))];
    lemma_dispatch_bltu(args);
    reveal_strlit("bltu");
    assert("bltu"@.len() == 4);
    reveal_strlit("beq");
    assert("beq"@.len() == 3);
    assert("bltu"@ != "beq"@);
    reveal_strlit("beqz");
    assert("bltu"@[1] != "beqz"@[1]);
    assert("bltu"@ != "beqz"@);
    reveal_strlit("bgeu");
    assert("bltu"@[1] != "bgeu"@[1]);
    assert("bltu"@ != "bgeu"@);
    reveal_strlit("bgez");
    assert("bltu"@[1] != "bgez"@[1]);
    assert("bltu"@ != "bgez"@);
    assert(crate::lower::spec_rrl(args) == Ok::<(Register, Register, Seq<char>), crate::ast::CompileErrorV>(
        (r1, r2, crate::text::escape_seq(l)),
    ));
    let t = TargetInstrV::BranchIfPositive(TargetCond::Diff(TargetOp::Reg(treg(r2)), TargetOp::Reg(treg(r1))), crate::text::escape_seq(l));
    assert(spec_lower("bltu"@, args) == Ok::<Seq<TargetInstrV>, crate::ast::CompileErrorV>(seq![t]));
    let a = reg_val(s, treg(r1));
    let b = reg_val(s, treg(r2));
    assert(u32r(a) && u32r(b));
}

/// Lowering `bgeu` and executing its branch condition takes the branch
/// exactly when the first source is at or above the second, unsigned.
pub proof fn lemma_bgeu_branches(s: TargetState, r1: Register, r2: Register, l: Seq<char>)
    requires
        wf(s),
    ensures
        ({
            let code = spec_lower("bgeu"@, seq![ArgV::Register(r1), ArgV::Register(r2), ArgV::Expression(ExprV::Symbol(l))]);
            &&& code is Ok
            &&& code->Ok_0.len() == 1
            &&& branch_taken(s, code->Ok_0[0]) == Some(reg_val(s, treg(r1)) >= reg_val(s, treg(r2)))
        }),
{
    let args = seq![ArgV::Register(r1), ArgV::Register(r2), ArgV::Expression(ExprV::Symbol(l))];
    lemma_dispatch_bgeu(args);
    reveal_strlit("bgeu");
    assert("bgeu"@.len() == 4);
    reveal_strlit("beq");
    assert("beq"@.len() == 3);
    assert("bgeu"@ != "beq"@);
    reveal_strlit("beqz");
    assert("bgeu"@[1] != "beqz"@[1]);
    assert("bgeu"@ != "beqz"@);
    assert(crate::lower::spec_rrl(args) == Ok::<(Register, Register, Seq<char>), crate::ast::CompileErrorV>(
        (r1, r2, crate::text::escape_seq(l)),
    ));
    let t = TargetInstrV::BranchIfPositive(TargetCond::DiffPlusOne(TargetOp::Reg(treg(r1)), TargetOp::Reg(treg(r2))), crate::text::escape_seq(l));
    assert(spec_lower("bgeu"@, args) == Ok::<Seq<TargetInstrV>, crate::ast::CompileErrorV>(seq![t]));
    let a = reg_val(s, treg(r1));
    let b = reg_val(s, treg(r2));
    assert(u32r(a) && u32r(b));
}

/// Lowering `beqz` and executing its branch condition takes the branch
/// exactly when the source is zero.
pub proof fn lemma_beqz_branches(s: TargetState, r1: Register, l: Seq<char>)
    requires
        wf(s),
    ensures
        ({
            let code = spec_lower("beqz"@, seq![ArgV::Register(r1), ArgV::Expression(ExprV::Symbol(l))]);
            &&& code is Ok
            &&& code->Ok_0.len() == 1
            &&& branch_taken(s, code->Ok_0[0]) == Some(reg_val(s, treg(r1)) == 0)
        }),
{
    let args = seq![ArgV::Register(r1), ArgV::Expression(ExprV::Symbol(l))];
    lemma_dispatch_beqz(args);
    reveal_strlit("beqz");
    assert("beqz"@.len() == 4);
    reveal_strlit("beq");
    assert("beq"@.len() == 3);
    assert("beqz"@ != "beq"@);
    assert(crate::lower::spec_rl(args) == Ok::<(Register, Seq<char>), crate::ast::CompileErrorV>(
        (r1, crate::text::escape_seq(l)),
    ));
    let t = TargetInstrV::BranchIfZero(TargetCond::One(TargetOp::Reg(treg(r1))), crate::text::escape_seq(l));
    assert(spec_lower("beqz"@, args) == Ok::<Seq<TargetInstrV>, crate::ast::CompileErrorV>(seq![t]));
    let a = reg_val(s, treg(r1));
    assert(u32r(a));
}

/// Lowering `bnez` and executing its branch condition takes the branch
/// exactly when the source is non-zero.
pub proof fn lemma_bnez_branches(s: TargetState, r1: Register, l: Seq<char>)
    requires
        wf(s),
    ensures
        ({
            let code = spec_lower("bnez"@, seq![ArgV::Register(r1), ArgV::Expression(ExprV::Symbol(l))]);
            &&& code is Ok
            &&& code->Ok_0.len() == 1
            &&& branch_taken(s, code->Ok_0[0]) == Some(reg_val(s, treg(r1)) != 0)
        }),
{
    let args = seq![ArgV::Register(r1), ArgV::Expression(ExprV::Symbol(l))];
    lemma_dispatch_bnez(args);
    reveal_strlit("bnez");
    assert("bnez"@.len() == 4);
    reveal_strlit("beq");
    assert("beq"@.len() == 3);
    assert("bnez"@ != "beq"@);
    reveal_strlit("beqz");
    assert("bnez"@[1] != "beqz"@[1]);
    assert("bnez"@ != "beqz"@);
    reveal_strlit("bgeu");
    assert("bnez"@[1] != "bgeu"@[1]);
    assert("bnez"@ != "bgeu"@);
    reveal_strlit("bgez");
    assert("bnez"@[1] != "bgez"@[1]);
    assert("bnez"@ != "bgez"@);
    reveal_strlit("bltu");
    assert("bnez"@[1] != "bltu"@[1]);
    assert("bnez"@ != "bltu"@);
    reveal_strlit("blt");
    assert("blt"@.len() == 3);
    assert("bnez"@ != "blt"@);
    reveal_strlit("bge");
    assert("bge"@.len() == 3);
    assert("bnez"@ != "bge"@);
    reveal_strlit("bltz");
    assert("bnez"@[1] != "bltz"@[1]);
    assert("bnez"@ != "bltz"@);
    reveal_strlit("blez");
    assert("bnez"@[1] != "blez"@[1]);
    assert("bnez"@ != "blez"@);
    reveal_strlit("bgtz");
    assert("bnez"@[1] != "bgtz"@[1]);
    assert("bnez"@ != "bgtz"@);
    reveal_strlit("bne");
    assert("bne"@.len() == 3);
    assert("bnez"@ != "bne"@);
    assert(crate::lower::spec_rl(args) == Ok::<(Register, Seq<char>), crate::ast::CompileErrorV>(
        (r1, crate::text::escape_seq(l)),
    ));
    let t = TargetInstrV::BranchIfNonzero(TargetCond::One(TargetOp::Reg(treg(r1))), crate::text::escape_seq(l));
    assert(spec_lower("bnez"@, args) == Ok::<Seq<TargetInstrV>, crate::ast::CompileErrorV>(seq![t]));
    let a = reg_val(s, treg(r1));
    assert(u32r(a));
}

/// Lowering `bltz` and executing its branch condition takes the branch
/// exactly when the source is negative under the signed reading.
pub proof fn lemma_bltz_branches(s: TargetState, r1: Register, l: Seq<char>)
    requires
        wf(s),
    ensures
        ({
            let code = spec_lower("bltz"@, seq![ArgV::Register(r1), ArgV::Expression(ExprV::Symbol(l))]);
            &&& code is Ok
            &&& code->Ok_0.len() == 1
            &&& branch_taken(s, code->Ok_0[0]) == Some(to_signed_val(reg_val(s, treg(r1))) < 0)
        }),
{
    let args = seq![ArgV::Register(r1), ArgV::Expression(ExprV::Symbol(l))];
    lemma_dispatch_bltz(args);
    reveal_strlit("bltz");
    assert("bltz"@.len() == 4);
    reveal_strlit("beq");
    assert("beq"@.len() == 3);
    assert("bltz"@ != "beq"@);
    reveal_strlit("beqz");
    assert("bltz"@[1] != "beqz"@[1]);
    assert("bltz"@ != "beqz"@);
    reveal_strlit("bgeu");
    assert("bltz"@[1] != "bgeu"@[1]);
    assert("bltz"@ != "bgeu"@);
    reveal_strlit("bgez");
    assert("bltz"@[1] != "bgez"@[1]);
    assert("bltz"@ != "bgez"@);
    reveal_strlit("bltu");
    assert("bltz"@[3] != "bltu"@[3]);
    assert("bltz"@ != "bltu"@);
    reveal_strlit("blt");
    assert("blt"@.len() == 3);
    assert("bltz"@ != "blt"@);
    reveal_strlit("bge");
    assert("bge"@.len() == 3);
    assert("bltz"@ != "bge"@);
    assert(crate::lower::spec_rl(args) == Ok::<(Register, Seq<char>), crate::ast::CompileErrorV>(
        (r1, crate::text::escape_seq(l)),
    ));
    let t = TargetInstrV::BranchIfPositive(TargetCond::MinusTwoPow31PlusOne(TargetOp::Reg(treg(r1))), crate::text::escape_seq(l));
    assert(spec_lower("bltz"@, args) == Ok::<Seq<TargetInstrV>, crate::ast::CompileErrorV>(seq![t]));
    let a = reg_val(s, treg(r1));
    assert(u32r(a));
}

/// Lowering `bgez` and executing the emitted sequence takes the branch
/// exactly when the source is non-negative under the signed reading.
pub proof fn lemma_bgez_branches(s: TargetState, r1: Register, l: Seq<char>)
    requires
        wf(s),
    ensures
        ({
            let code = spec_lower("bgez"@, seq![ArgV::Register(r1), ArgV::Expression(ExprV::Symbol(l))]);
            let s1 = exec_seq(s, code->Ok_0.take(1));
            &&& code is Ok
            &&& code->Ok_0.len() == 2
            &&& s1 is Some
            &&& branch_taken(s1->Some_0, code->Ok_0[1]) == Some(to_signed_val(reg_val(s, treg(r1))) >= 0)
        }),
{
    let args = seq![ArgV::Register(r1), ArgV::Expression(ExprV::Symbol(l))];
    lemma_dispatch_bgez(args);
    reveal_strlit("bgez");
    assert("bgez"@.len() == 4);
    reveal_strlit("beq");
    assert("beq"@.len() == 3);
    assert("bgez"@ != "beq"@);
    reveal_strlit("beqz");
    assert("bgez"@[1] != "beqz"@[1]);
    assert("bgez"@ != "beqz"@);
    reveal_strlit("bgeu");
    assert("bgez"@[3] != "bgeu"@[3]);
    assert("bgez"@ != "bgeu"@);
    assert(crate::lower::spec_rl(args) == Ok::<(Register, Seq<char>), crate::ast::CompileErrorV>(
        (r1, crate::text::escape_seq(l)),
    ));
    let t0 = TargetInstrV::ToSigned(TargetReg::Tmp1, treg(r1));
    let t1 = TargetInstrV::BranchIfPositive(TargetCond::PlusOne(TargetOp::Reg(TargetReg::Tmp1)), crate::text::escape_seq(l));
    assert(spec_lower("bgez"@, args) == Ok::<Seq<TargetInstrV>, crate::ast::CompileErrorV>(seq![t0, t1]));
    let a = reg_val(s, treg(r1));
    assert(u32r(a));
    assert(step(s, t0) == write_reg(s, TargetReg::Tmp1, to_signed_val(a)));
    lemma_write_reg_wf_any(s, TargetReg::Tmp1, to_signed_val(a));
    let s1 = write_reg(s, TargetReg::Tmp1, to_signed_val(a))->Some_0;
    assert(reg_val(s1, TargetReg::Tmp1) == to_signed_val(a));
    assert(seq![t0, t1].take(1) =~= seq![t0]);
    assert(seq![t0].drop_first() =~= Seq::<TargetInstrV>::empty());
    assert(exec_seq(s1, seq![t0].drop_first()) == Some(s1));
    assert(exec_seq(s, seq![t0]) == Some(s1));
    assert(seq![t0, t1][1] == t1);
}

/// Lowering `blez` and executing the emitted sequence takes the branch
/// exactly when the source is at most zero under the signed reading.
pub proof fn lemma_blez_branches(s: TargetState, r1: Register, l: Seq<char>)
    requires
        wf(s),
    ensures
        ({
            let code = spec_lower("blez"@, seq![ArgV::Register(r1), ArgV::Expression(ExprV::Symbol(l))]);
            let s1 = exec_seq(s, code->Ok_0.take(1));
            &&& code is Ok
            &&& code->Ok_0.len() == 2
            &&& s1 is Some
            &&& branch_taken(s1->Some_0, code->Ok_0[1]) == Some(to_signed_val(reg_val(s, treg(r1))) <= 0)
        }),
{
    let args = seq![ArgV::Register(r1), ArgV::Expression(ExprV::Symbol(l))];
    lemma_dispatch_blez(args);
    reveal_strlit("blez");
    assert("blez"@.len() == 4);
    reveal_strlit("beq");
    assert("beq"@.len() == 3);
    assert("blez"@ != "beq"@);
    reveal_strlit("beqz");
    assert("blez"@[1] != "beqz"@[1]);
    assert("blez"@ != "beqz"@);
    reveal_strlit("bgeu");
    assert("blez"@[1] != "bgeu"@[1]);
    assert("blez"@ != "bgeu"@);
    reveal_strlit("bgez");
    assert("blez"@[1] != "bgez"@[1]);
    assert("blez"@ != "bgez"@);
    reveal_strlit("bltu");
    assert("blez"@[2] != "bltu"@[2]);
    assert("blez"@ != "bltu"@);
    reveal_strlit("blt");
    assert("blt"@.len() == 3);
    assert("blez"@ != "blt"@);
    reveal_strlit("bge");
    assert("bge"@.len() == 3);
    assert("blez"@ != "bge"@);
    reveal_strlit("bltz");
    assert("blez"@[2] != "bltz"@[2]);
    assert("blez"@ != "bltz"@);
    assert(crate::lower::spec_rl(args) == Ok::<(Register, Seq<char>), crate::ast::CompileErrorV>(
        (r1, crate::text::escape_seq(l)),
    ));
    let t0 = TargetInstrV::ToSigned(TargetReg::Tmp1, treg(r1));
    let t1 = TargetInstrV::BranchIfPositive(TargetCond::NegPlusOne(TargetOp::Reg(TargetReg::Tmp1)), crate::text::escape_seq(l));
    assert(spec_lower("blez"@, args) == Ok::<Seq<TargetInstrV>, crate::ast::CompileErrorV>(seq![t0, t1]));
    let a = reg_val(s, treg(r1));
    assert(u32r(a));
    assert(step(s, t0) == write_reg(s, TargetReg::Tmp1, to_signed_val(a)));
    lemma_write_reg_wf_any(s, TargetReg::Tmp1, to_signed_val(a));
    let s1 = write_reg(s, TargetReg::Tmp1, to_signed_val(a))->Some_0;
    assert(reg_val(s1, TargetReg::Tmp1) == to_signed_val(a));
    assert(seq![t0, t1].take(1) =~= seq![t0]);
    assert(seq![t0].drop_first() =~= Seq::<TargetInstrV>::empty());
    assert(exec_seq(s1, seq![t0].drop_first()) == Some(s1));
    assert(exec_seq(s, seq![t0]) == Some(s1));
    assert(seq![t0, t1][1] == t1);
}

/// Lowering `bgtz` and executing the emitted sequence takes the branch
/// exactly when the source is strictly positive under the signed reading.
pub proof fn lemma_bgtz_branches(s: TargetState, r1: Register, l: Seq<char>)
    requires
        wf(s),
    ensures
        ({
            let code = spec_lower("bgtz"@, seq![ArgV::Register(r1), ArgV::Expression(ExprV::Symbol(l))]);
            let s1 = exec_seq(s, code->Ok_0.take(1));
            &&& code is Ok
            &&& code->Ok_0.len() == 2
            &&& s1 is Some
            &&& branch_taken(s1->Some_0, code->Ok_0[1]) == Some(to_signed_val(reg_val(s, treg(r1))) > 0)
        }),
{
    let args = seq![ArgV::Register(r1), ArgV::Expression(ExprV::Symbol(l))];
    lemma_dispatch_bgtz(args);
    reveal_strlit("bgtz");
    assert("bgtz"@.len() == 4);
    reveal_strlit("beq");
    assert("beq"@.len() == 3);
    assert("bgtz"@ != "beq"@);
    reveal_strlit("beqz");
    assert("bgtz"@[1] != "beqz"@[1]);
    assert("bgtz"@ != "beqz"@);
    reveal_strlit("bgeu");
    assert("bgtz"@[2] != "bgeu"@[2]);
    assert("bgtz"@ != "bgeu"@);
    reveal_strlit("bgez");
    assert("bgtz"@[2] != "bgez"@[2]);
    assert("bgtz"@ != "bgez"@);
    reveal_strlit("bltu");
    assert("bgtz"@[1] != "bltu"@[1]);
    assert("bgtz"@ != "bltu"@);
    reveal_strlit("blt");
    assert("blt"@.len() == 3);
    assert("bgtz"@ != "blt"@);
    reveal_strlit("bge");
    assert("bge"@.len() == 3);
    assert("bgtz"@ != "bge"@);
    reveal_strlit("bltz");
    assert("bgtz"@[1] != "bltz"@[1]);
    assert("bgtz"@ != "bltz"@);
    reveal_strlit("blez");
    assert("bgtz"@[1] != "blez"@[1]);
    assert("bgtz"@ != "blez"@);
    assert(crate::lower::spec_rl(args) == Ok::<(Register, Seq<char>), crate::ast::CompileErrorV>(
        (r1, crate::text::escape_seq(l)),
    ));
    let t0 = TargetInstrV::ToSigned(TargetReg::Tmp1, treg(r1));
    let t1 = TargetInstrV::BranchIfPositive(TargetCond::One(TargetOp::Reg(TargetReg::Tmp1)), crate::text::escape_seq(l));
    assert(spec_lower("bgtz"@, args) == Ok::<Seq<TargetInstrV>, crate::ast::CompileErrorV>(seq![t0, t1]));
    let a = reg_val(s, treg(r1));
    assert(u32r(a));
    assert(step(s, t0) == write_reg(s, TargetReg::Tmp1, to_signed_val(a)));
    lemma_write_reg_wf_any(s, TargetReg::Tmp1, to_signed_val(a));
    let s1 = write_reg(s, TargetReg::Tmp1, to_signed_val(a))->Some_0;
    assert(reg_val(s1, TargetReg::Tmp1) == to_signed_val(a));
    assert(seq![t0, t1].take(1) =~= seq![t0]);
    assert(seq![t0].drop_first() =~= Seq::<TargetInstrV>::empty());
    assert(exec_seq(s1, seq![t0].drop_first()) == Some(s1));
    assert(exec_seq(s, seq![t0]) == Some(s1));
    assert(seq![t0, t1][1] == t1);
}

/// Lowering `blt` and executing the emitted sequence takes the branch
/// exactly when the first source is below the second under the signed reading.
pub proof fn lemma_blt_branches(s: TargetState, r1: Register, r2: Register, l: Seq<char>)
    requires
        wf(s),
    ensures
        ({
            let code = spec_lower("blt"@, seq![ArgV::Register(r1), ArgV::Register(r2), ArgV::Expression(ExprV::Symbol(l))]);
            let s2 = exec_seq(s, code->Ok_0.take(2));
            &&& code is Ok
            &&& code->Ok_0.len() == 3
            &&& s2 is Some
            &&& branch_taken(s2->Some_0, code->Ok_0[2]) == Some(to_signed_val(reg_val(s, treg(r1))) < to_signed_val(reg_val(s, treg(r2))))
        }),
{
    let args = seq![ArgV::Register(r1), ArgV::Register(r2), ArgV::Expression(ExprV::Symbol(l))];
    lemma_dispatch_blt(args);
    reveal_strlit("blt");
    assert("blt"@.len() == 3);
    reveal_strlit("beq");
    assert("blt"@[1] != "beq"@[1]);
    assert("blt"@ != "beq"@);
    reveal_strlit("beqz");
    assert("beqz"@.len() == 4);
    assert("blt"@ != "beqz"@);
    reveal_strlit("bgeu");
    assert("bgeu"@.len() == 4);
    assert("blt"@ != "bgeu"@);
    reveal_strlit("bgez");
    assert("bgez"@.len() == 4);
    assert("blt"@ != "bgez"@);
    reveal_strlit("bltu");
    assert("bltu"@.len() == 4);
    assert("blt"@ != "bltu"@);
    assert(crate::lower::spec_rrl(args) == Ok::<(Register, Register, Seq<char>), crate::ast::CompileErrorV>(
        (r1, r2, crate::text::escape_seq(l)),
    ));
    let t0 = TargetInstrV::ToSigned(TargetReg::Tmp1, treg(r1));
    let t1 = TargetInstrV::ToSigned(TargetReg::Tmp2, treg(r2));
    let t2 = TargetInstrV::BranchIfPositive(TargetCond::Diff(TargetOp::Reg(TargetReg::Tmp2), TargetOp::Reg(TargetReg::Tmp1)), crate::text::escape_seq(l));
    assert(spec_lower("blt"@, args) == Ok::<Seq<TargetInstrV>, crate::ast::CompileErrorV>(seq![t0, t1, t2]));
    let a = reg_val(s, treg(r1));
    let b = reg_val(s, treg(r2));
    assert(u32r(a) && u32r(b));
    assert(step(s, t0) == write_reg(s, TargetReg::Tmp1, to_signed_val(a)));
    lemma_write_reg_wf_any(s, TargetReg::Tmp1, to_signed_val(a));
    let s1 = write_reg(s, TargetReg::Tmp1, to_signed_val(a))->Some_0;
    assert(reg_val(s1, treg(r2)) == b);
    assert(step(s1, t1) == write_reg(s1, TargetReg::Tmp2, to_signed_val(b)));
    lemma_write_reg_wf_any(s1, TargetReg::Tmp2, to_signed_val(b));
    let s2 = write_reg(s1, TargetReg::Tmp2, to_signed_val(b))->Some_0;
    assert(reg_val(s2, TargetReg::Tmp1) == to_signed_val(a));
    assert(reg_val(s2, TargetReg::Tmp2) == to_signed_val(b));
    assert(seq![t0, t1, t2].take(2) =~= seq![t0, t1]);
    assert(seq![t0, t1].drop_first() =~= seq![t1]);
    assert(seq![t1].drop_first() =~= Seq::<TargetInstrV>::empty());
    assert(exec_seq(s2, seq![t1].drop_first()) == Some(s2));
    assert(exec_seq(s1, seq![t1]) == Some(s2));
    assert(exec_seq(s, seq![t0, t1]) == Some(s2));
    assert(seq![t0, t1, t2][2] == t2);
}

/// Lowering `bge` and executing the emitted sequence takes the branch
/// exactly when the first source is at or above the second under the signed reading.
pub proof fn lemma_bge_branches(s: TargetState, r1: Register, r2: Register, l: Seq<char>)
    requires
        wf(s),
    ensures
        ({
            let code = spec_lower("bge"@, seq![ArgV::Register(r1), ArgV::Register(r2), ArgV::Expression(ExprV::Symbol(l))]);
            let s2 = exec_seq(s, code->Ok_0.take(2));
            &&& code is Ok
            &&& code->Ok_0.len() == 3
            &&& s2 is Some
            &&& branch_taken(s2->Some_0, code->Ok_0[2]) == Some(to_signed_val(reg_val(s, treg(r1))) >= to_signed_val(reg_val(s, treg(r2))))
        }),
{
    let args = seq![ArgV::Register(r1), ArgV::Register(r2), ArgV::Expression(ExprV::Symbol(l))];
    lemma_dispatch_bge(args);
    reveal_strlit("bge");
    assert("bge"@.len() == 3);
    reveal_strlit("beq");
    assert("bge"@[1] != "beq"@[1]);
    assert("bge"@ != "beq"@);
    reveal_strlit("beqz");
    assert("beqz"@.len() == 4);
    assert("bge"@ != "beqz"@);
    reveal_strlit("bgeu");
    assert("bgeu"@.len() == 4);
    assert("bge"@ != "bgeu"@);
    reveal_strlit("bgez");
    assert("bgez"@.len() == 4);
    assert("bge"@ != "bgez"@);
    reveal_strlit("bltu");
    assert("bltu"@.len() == 4);
    assert("bge"@ != "bltu"@);
    reveal_strlit("blt");
    assert("bge"@[1] != "blt"@[1]);
    assert("bge"@ != "blt"@);
    assert(crate::lower::spec_rrl(args) == Ok::<(Register, Register, Seq<char>), crate::ast::CompileErrorV>(
        (r1, r2, crate::text::escape_seq(l)),
    ));
    let t0 = TargetInstrV::ToSigned(TargetReg::Tmp1, treg(r1));
    let t1 = TargetInstrV::ToSigned(TargetReg::Tmp2, treg(r2));
    let t2 = TargetInstrV::BranchIfPositive(TargetCond::DiffPlusOne(TargetOp::Reg(TargetReg::Tmp1), TargetOp::Reg(TargetReg::Tmp2)), crate::text::escape_seq(l));
    assert(spec_lower("bge"@, args) == Ok::<Seq<TargetInstrV>, crate::ast::CompileErrorV>(seq![t0, t1, t2]));
    let a = reg_val(s, treg(r1));
    let b = reg_val(s, treg(r2));
    assert(u32r(a) && u32r(b));
    assert(step(s, t0) == write_reg(s, TargetReg::Tmp1, to_signed_val(a)));
    lemma_write_reg_wf_any(s, TargetReg::Tmp1, to_signed_val(a));
    let s1 = write_reg(s, TargetReg::Tmp1, to_signed_val(a))->Some_0;
    assert(reg_val(s1, treg(r2)) == b);
    assert(step(s1, t1) == write_reg(s1, TargetReg::Tmp2, to_signed_val(b)));
    lemma_write_reg_wf_any(s1, TargetReg::Tmp2, to_signed_val(b));
    let s2 = write_reg(s1, TargetReg::Tmp2, to_signed_val(b))->Some_0;
    assert(reg_val(s2, TargetReg::Tmp1) == to_signed_val(a));
    assert(reg_val(s2, TargetReg::Tmp2) == to_signed_val(b));
    assert(seq![t0, t1, t2].take(2) =~= seq![t0, t1]);
    assert(seq![t0, t1].drop_first() =~= seq![t1]);
    assert(seq![t1].drop_first() =~= Seq::<TargetInstrV>::empty());
    assert(exec_seq(s2, seq![t1].drop_first()) == Some(s2));
    assert(exec_seq(s1, seq![t1]) == Some(s2));
    assert(exec_seq(s, seq![t0, t1]) == Some(s2));
    assert(seq![t0, t1, t2][2] == t2);
}

/// Lowering `srli` and executing the emitted code leaves the logical right
/// shift by the fixed amount.
pub proof fn lemma_srli_executes(s: TargetState, rd: Register, rs: Register, amount: u32)
    requires
        wf(s),
        rd.spec_value() != 0,
        amount <= 31,
    ensures
        ({
            let code = spec_lower("srli"@, seq![ArgV::Register(rd), ArgV::Register(rs), ArgV::Expression(ExprV::Number(amount as int))]);
            let s2 = exec_seq(s, code->Ok_0);
            &&& code is Ok
            &&& s2 is Some
            &&& reg_val(s2->Some_0, treg(rd)) == shr32(reg_val(s, treg(rs)), amount as int)
            &&& wf(s2->Some_0)
        }),
{
    let args = seq![ArgV::Register(rd), ArgV::Register(rs), ArgV::Expression(ExprV::Number(amount as int))];
    lemma_dispatch_srli(args);
    reveal_strlit("srli");
    assert("srli"@.len() == 4);
    reveal_strlit("slli");
    assert("srli"@[1] != "slli"@[1]);
    assert("srli"@ != "slli"@);
    reveal_strlit("sll");
    assert("sll"@.len() == 3);
    assert("srli"@ != "sll"@);
    assert(crate::lower::to_u32(amount as int) == amount) by {
        assert(((amount as i64) as u32) == amount) by (bit_vector);
        assert((amount as int) as i64 == amount as i64);
    }
    assert(crate::lower::spec_rri(args) == Ok::<(Register, Register, u32), crate::ast::CompileErrorV>(
        (rd, rs, amount),
    ));
    let t = TargetInstrV::Binary(crate::target::BinKind::Shr, treg(rd), TargetOp::Reg(treg(rs)), TargetOp::Dec(amount));
    assert(spec_lower("srli"@, args) == Ok::<Seq<TargetInstrV>, crate::ast::CompileErrorV>(seq![t])) by {
        assert(crate::lower::elide(rd, seq![t]) == seq![t]);
    }
    let a = reg_val(s, treg(rs));
    assert(u32r(a));
    let w = shr32(a, amount as int);
    assert(step(s, t) == write_reg(s, treg(rd), w));
    assert(treg(rd) != TargetReg::X(0));
    lemma_write_reg_wf(s, treg(rd), w);
    let s1 = write_reg(s, treg(rd), w)->Some_0;
    assert(seq![t].drop_first() =~= Seq::<TargetInstrV>::empty());
    assert(exec_seq(s1, seq![t].drop_first()) == Some(s1));
    assert(exec_seq(s, seq![t]) == Some(s1));
}

/// Lowering `sll` and executing the emitted pair leaves the left shift by the
/// second source's low five bits, wrapped to 32 bits.
pub proof fn lemma_sll_executes(s: TargetState, rd: Register, r1: Register, r2: Register)
    requires
        wf(s),
        rd.spec_value() != 0,
    ensures
        ({
            let code = spec_lower("sll"@, seq![ArgV::Register(rd), ArgV::Register(r1), ArgV::Register(r2)]);
            let s2 = exec_seq(s, code->Ok_0);
            &&& code is Ok
            &&& s2 is Some
            &&& reg_val(s2->Some_0, treg(rd)) == shl32(
                reg_val(s, treg(r1)),
                and32(reg_val(s, treg(r2)), 0x1f),
            )
            &&& wf(s2->Some_0)
        }),
{
    let args = seq![ArgV::Register(rd), ArgV::Register(r1), ArgV::Register(r2)];
    lemma_dispatch_sll(args);
    reveal_strlit("sll");
    assert("sll"@.len() == 3);
    reveal_strlit("slli");
    assert("slli"@.len() == 4);
    assert("sll"@ != "slli"@);
    assert(crate::lower::spec_rrr(args) == Ok::<(Register, Register, Register), crate::ast::CompileErrorV>(
        (rd, r1, r2),
    ));
    let t0 = TargetInstrV::Binary(crate::target::BinKind::And, TargetReg::Tmp1, TargetOp::Reg(treg(r2)), TargetOp::Hex(0x1f));
    let t1 = TargetInstrV::Binary(crate::target::BinKind::Shl, treg(rd), TargetOp::Reg(treg(r1)), TargetOp::Reg(TargetReg::Tmp1));
    assert(spec_lower("sll"@, args) == Ok::<Seq<TargetInstrV>, crate::ast::CompileErrorV>(seq![t0, t1])) by {
        assert(crate::lower::elide(rd, seq![t0, t1]) == seq![t0, t1]);
    }
    let a = reg_val(s, treg(r1));
    let b = reg_val(s, treg(r2));
    assert(u32r(a) && u32r(b));
    let m = and32(b, 0x1f);
    assert(step(s, t0) == write_reg(s, TargetReg::Tmp1, m));
    lemma_write_reg_wf_any(s, TargetReg::Tmp1, m);
    let s1 = write_reg(s, TargetReg::Tmp1, m)->Some_0;
    assert(reg_val(s1, treg(r1)) == a);
    assert(m < 32 && 0 <= m) by {
        assert(forall|x: u32| #[trigger] (x & 0x1f) < 32) by (bit_vector);
    }
    let w = shl32(a, m);
    assert(step(s1, t1) == write_reg(s1, treg(rd), w));
    assert(treg(rd) != TargetReg::X(0));
    assert(wf(s1)) by {
        assert(s1.regs.dom() =~= Set::full());
    }
    lemma_write_reg_wf(s1, treg(rd), w);
    let s2 = write_reg(s1, treg(rd), w)->Some_0;
    assert(seq![t0, t1].drop_first() =~= seq![t1]);
    assert(seq![t1].drop_first() =~= Seq::<TargetInstrV>::empty());
    assert(exec_seq(s2, seq![t1].drop_first()) == Some(s2));
    assert(exec_seq(s1, seq![t1]) == Some(s2));
    assert(exec_seq(s, seq![t0, t1]) == Some(s2));
}

/// Lowering `srl` and executing the emitted pair leaves the logical right
/// shift by the second source's low five bits.
pub proof fn lemma_srl_executes(s: TargetState, rd: Register, r1: Register, r2: Register)
    requires
        wf(s),
        rd.spec_value() != 0,
    ensures
        ({
            let code = spec_lower("srl"@, seq![ArgV::Register(rd), ArgV::Register(r1), ArgV::Register(r2)]);
            let s2 = exec_seq(s, code->Ok_0);
            &&& code is Ok
            &&& s2 is Some
            &&& reg_val(s2->Some_0, treg(rd)) == shr32(
                reg_val(s, treg(r1)),
                and32(reg_val(s, treg(r2)), 0x1f),
            )
            &&& wf(s2->Some_0)
        }),
{
    let args = seq![ArgV::Register(rd), ArgV::Register(r1), ArgV::Register(r2)];
    lemma_dispatch_srl(args);
    reveal_strlit("srl");
    assert("srl"@.len() == 3);
    reveal_strlit("slli");
    assert("slli"@.len() == 4);
    assert("srl"@ != "slli"@);
    reveal_strlit("sll");
    assert("srl"@[1] != "sll"@[1]);
    assert("srl"@ != "sll"@);
    reveal_strlit("srli");
    assert("srli"@.len() == 4);
    assert("srl"@ != "srli"@);
    assert(crate::lower::spec_rrr(args) == Ok::<(Register, Register, Register), crate::ast::CompileErrorV>(
        (rd, r1, r2),
    ));
    let t0 = TargetInstrV::Binary(crate::target::BinKind::And, TargetReg::Tmp1, TargetOp::Reg(treg(r2)), TargetOp::Hex(0x1f));
    let t1 = TargetInstrV::Binary(crate::target::BinKind::Shr, treg(rd), TargetOp::Reg(treg(r1)), TargetOp::Reg(TargetReg::Tmp1));
    assert(spec_lower("srl"@, args) == Ok::<Seq<TargetInstrV>, crate::ast::CompileErrorV>(seq![t0, t1])) by {
        assert(crate::lower::elide(rd, seq![t0, t1]) == seq![t0, t1]);
    }
    let a = reg_val(s, treg(r1));
    let b = reg_val(s, treg(r2));
    assert(u32r(a) && u32r(b));
    let m = and32(b, 0x1f);
    assert(step(s, t0) == write_reg(s, TargetReg::Tmp1, m));
    lemma_write_reg_wf_any(s, TargetReg::Tmp1, m);
    let s1 = write_reg(s, TargetReg::Tmp1, m)->Some_0;
    assert(reg_val(s1, treg(r1)) == a);
    assert(m < 32 && 0 <= m) by {
        assert(forall|x: u32| #[trigger] (x & 0x1f) < 32) by (bit_vector);
    }
    let w = shr32(a, m);
    assert(step(s1, t1) == write_reg(s1, treg(rd), w));
    assert(treg(rd) != TargetReg::X(0));
    assert(wf(s1)) by {
        assert(s1.regs.dom() =~= Set::full());
    }
    lemma_write_reg_wf(s1, treg(rd), w);
    let s2 = write_reg(s1, treg(rd), w)->Some_0;
    assert(seq![t0, t1].drop_first() =~= seq![t1]);
    assert(seq![t1].drop_first() =~= Seq::<TargetInstrV>::empty());
    assert(exec_seq(s2, seq![t1].drop_first()) == Some(s2));
    assert(exec_seq(s1, seq![t1]) == Some(s2));
    assert(exec_seq(s, seq![t0, t1]) == Some(s2));
}

/// Lowering `lw` and executing the emitted pair loads the memory word at the
/// wrapped byte address.
pub proof fn lemma_lw_executes(s: TargetState, rd: Register, rs: Register, off: u32)
    requires
        wf(s),
        rd.spec_value() != 0,
    ensures
        ({
            let code = spec_lower("lw"@, seq![ArgV::Register(rd), ArgV::RegOffset(rs, ExprV::Number(off as int))]);
            let s2 = exec_seq(s, code->Ok_0);
            &&& code is Ok
            &&& s2 is Some
            &&& reg_val(s2->Some_0, treg(rd)) == mem_at(
                s,
                (reg_val(s, treg(rs)) + off as int) % 0x1_0000_0000,
            )
            &&& s2->Some_0.mem == s.mem
            &&& wf(s2->Some_0)
        }),
{
    let args = seq![ArgV::Register(rd), ArgV::RegOffset(rs, ExprV::Number(off as int))];
    lemma_dispatch_lw(args);
    reveal_strlit("lw");
    assert("lw"@.len() == 2);
    assert(crate::lower::to_u32(off as int) == off) by {
        assert(((off as i64) as u32) == off) by (bit_vector);
        assert((off as int) as i64 == off as i64);
    }
    assert(crate::lower::spec_rro(args) == Ok::<(Register, Register, u32), crate::ast::CompileErrorV>(
        (rd, rs, off),
    ));
    let t0 = TargetInstrV::WrapAdd(TargetReg::Addr, treg(rs), TargetOp::Dec(off));
    let t1 = TargetInstrV::Mload(treg(rd));
    assert(spec_lower("lw"@, args) == Ok::<Seq<TargetInstrV>, crate::ast::CompileErrorV>(seq![t0, t1])) by {
        assert(crate::lower::elide(rd, seq![t0, t1]) == seq![t0, t1]);
    }
    let a = reg_val(s, treg(rs));
    assert(u32r(a));
    let addr = (a + off as int) % 0x1_0000_0000;
    assert(step(s, t0) == write_reg(s, TargetReg::Addr, addr));
    lemma_write_reg_wf_any(s, TargetReg::Addr, addr);
    let s1 = write_reg(s, TargetReg::Addr, addr)->Some_0;
    assert(reg_val(s1, TargetReg::Addr) == addr);
    assert(mem_at(s1, addr) == mem_at(s, addr));
    let w = mem_at(s1, addr);
    assert(u32r(w));
    assert(step(s1, t1) == write_reg(s1, treg(rd), w));
    assert(treg(rd) != TargetReg::X(0));
    assert(wf(s1)) by {
        assert(s1.regs.dom() =~= Set::full());
    }
    lemma_write_reg_wf(s1, treg(rd), w);
    let s2 = write_reg(s1, treg(rd), w)->Some_0;
    assert(seq![t0, t1].drop_first() =~= seq![t1]);
    assert(seq![t1].drop_first() =~= Seq::<TargetInstrV>::empty());
    assert(exec_seq(s2, seq![t1].drop_first()) == Some(s2));
    assert(exec_seq(s1, seq![t1]) == Some(s2));
    assert(exec_seq(s, seq![t0, t1]) == Some(s2));
}

/// Lowering `sw` and executing the emitted pair stores the first source's
/// word at the wrapped byte address, leaving all mapped registers unchanged.
pub proof fn lemma_sw_executes(s: TargetState, r1: Register, r2: Register, off: u32)
    requires
        wf(s),
    ensures
        ({
            let code = spec_lower("sw"@, seq![ArgV::Register(r1), ArgV::RegOffset(r2, ExprV::Number(off as int))]);
            let s2 = exec_seq(s, code->Ok_0);
            &&& code is Ok
            &&& s2 is Some
            &&& s2->Some_0.mem == s.mem.insert(
                (reg_val(s, treg(r2)) + off as int) % 0x1_0000_0000,
                reg_val(s, treg(r1)),
            )
            &&& forall|n: u8|
                reg_val(s2->Some_0, TargetReg::X(n)) == reg_val(s, TargetReg::X(n))
            &&& wf(s2->Some_0)
        }),
{
    let args = seq![ArgV::Register(r1), ArgV::RegOffset(r2, ExprV::Number(off as int))];
    lemma_dispatch_sw(args);
    reveal_strlit("sw");
    assert("sw"@.len() == 2);
    reveal_strlit("lw");
    assert("sw"@[0] != "lw"@[0]);
    assert("sw"@ != "lw"@);
    reveal_strlit("lb");
    assert("sw"@[0] != "lb"@[0]);
    assert("sw"@ != "lb"@);
    reveal_strlit("lbu");
    assert("lbu"@.len() == 3);
    assert("sw"@ != "lbu"@);
    reveal_strlit("lhu");
    assert("lhu"@.len() == 3);
    assert("sw"@ != "lhu"@);
    assert(crate::lower::to_u32(off as int) == off) by {
        assert(((off as i64) as u32) == off) by (bit_vector);
        assert((off as int) as i64 == off as i64);
    }
    assert(crate::lower::spec_rro(args) == Ok::<(Register, Register, u32), crate::ast::CompileErrorV>(
        (r1, r2, off),
    ));
    let t0 = TargetInstrV::WrapAdd(TargetReg::Addr, treg(r2), TargetOp::Dec(off));
    let t1 = TargetInstrV::Mstore(TargetOp::Reg(treg(r1)));
    assert(spec_lower("sw"@, args) == Ok::<Seq<TargetInstrV>, crate::ast::CompileErrorV>(seq![t0, t1]));
    let a = reg_val(s, treg(r2));
    let v = reg_val(s, treg(r1));
    assert(u32r(a) && u32r(v));
    let addr = (a + off as int) % 0x1_0000_0000;
    assert(step(s, t0) == write_reg(s, TargetReg::Addr, addr));
    lemma_write_reg_wf_any(s, TargetReg::Addr, addr);
    let s1 = write_reg(s, TargetReg::Addr, addr)->Some_0;
    assert(reg_val(s1, TargetReg::Addr) == addr);
    assert(reg_val(s1, treg(r1)) == v);
    let s2 = TargetState { regs: s1.regs, mem: s1.mem.insert(addr, v) };
    assert(step(s1, t1) == Some(s2));
    assert(wf(s2)) by {
        assert(s2.regs.dom() =~= Set::full());
        assert(forall|ad: int|
            s2.mem.dom().contains(ad) ==> u32r(#[trigger] s2.mem[ad]));
    }
    assert(seq![t0, t1].drop_first() =~= seq![t1]);
    assert(seq![t1].drop_first() =~= Seq::<TargetInstrV>::empty());
    assert(exec_seq(s2, seq![t1].drop_first()) == Some(s2));
    assert(exec_seq(s1, seq![t1]) == Some(s2));
    assert(exec_seq(s, seq![t0, t1]) == Some(s2));
}

/// Lowering `slli` and executing the emitted code multiplies by two to the
/// shift amount, wrapped to 32 bits (one wrapping step for amounts up to 16,
/// two beyond).
pub proof fn lemma_slli_executes(s: TargetState, rd: Register, rs: Register, amount: u32)
    requires
        wf(s),
        rd.spec_value() != 0,
        amount <= 31,
    ensures
        ({
            let code = spec_lower("slli"@, seq![ArgV::Register(rd), ArgV::Register(rs), ArgV::Expression(ExprV::Number(amount as int))]);
            let s2 = exec_seq(s, code->Ok_0);
            &&& code is Ok
            &&& s2 is Some
            &&& reg_val(s2->Some_0, treg(rd)) == (reg_val(s, treg(rs)) * ((1u32 << amount) as int))
                % 0x1_0000_0000
            &&& wf(s2->Some_0)
        }),
{
    let args = seq![ArgV::Register(rd), ArgV::Register(rs), ArgV::Expression(ExprV::Number(amount as int))];
    lemma_dispatch_slli(args);
    reveal_strlit("slli");
    assert("slli"@.len() == 4);
    assert(crate::lower::to_u32(amount as int) == amount) by {
        assert(((amount as i64) as u32) == amount) by (bit_vector);
        assert((amount as int) as i64 == amount as i64);
    }
    assert(crate::lower::spec_rri(args) == Ok::<(Register, Register, u32), crate::ast::CompileErrorV>(
        (rd, rs, amount),
    ));
    let a = reg_val(s, treg(rs));
    assert(u32r(a));
    if amount <= 16 {
        let k = 1u32 << amount;
        assert(k as int <= 0x10000) by {
            assert(forall|x: u32| x <= 16 ==> #[trigger] (1u32 << x) <= 0x10000) by (bit_vector);
        }
        let t = TargetInstrV::Wrap16Mul(treg(rd), treg(rs), k);
        assert(spec_lower("slli"@, args) == Ok::<Seq<TargetInstrV>, crate::ast::CompileErrorV>(seq![t])) by {
            assert(crate::lower::elide(rd, seq![t]) == seq![t]);
        }
        assert(0 <= a * k && a * k < 0x1_0000_0000_0000) by (nonlinear_arith)
            requires
                0 <= a < 0x1_0000_0000 && 0 <= k as int <= 0x10000,
        ;
        let w = (a * (k as int)) % 0x1_0000_0000;
        assert(step(s, t) == write_reg(s, treg(rd), w));
        assert(treg(rd) != TargetReg::X(0));
        lemma_write_reg_wf(s, treg(rd), w);
        let s1 = write_reg(s, treg(rd), w)->Some_0;
        assert(seq![t].drop_first() =~= Seq::<TargetInstrV>::empty());
        assert(exec_seq(s1, seq![t].drop_first()) == Some(s1));
        assert(exec_seq(s, seq![t]) == Some(s1));
    } else {
        let k2 = 1u32 << (amount - 16);
        assert(k2 as int <= 0x8000) by {
            assert(forall|x: u32| x <= 15 ==> #[trigger] (1u32 << x) <= 0x8000) by (bit_vector);
        }
        let t0 = TargetInstrV::Wrap16Mul(TargetReg::Tmp1, treg(rs), 0x10000);
        let t1 = TargetInstrV::Wrap16Mul(treg(rd), TargetReg::Tmp1, k2);
        assert(spec_lower("slli"@, args) == Ok::<Seq<TargetInstrV>, crate::ast::CompileErrorV>(seq![t0, t1])) by {
            assert(crate::lower::elide(rd, seq![t0, t1]) == seq![t0, t1]);
        }
        assert(0 <= a * 0x10000 && a * 0x10000 < 0x1_0000_0000_0000) by (nonlinear_arith)
            requires
                0 <= a < 0x1_0000_0000,
        ;
        let w1 = (a * 0x10000) % 0x1_0000_0000;
        assert(step(s, t0) == write_reg(s, TargetReg::Tmp1, w1));
        lemma_write_reg_wf_any(s, TargetReg::Tmp1, w1);
        let s1 = write_reg(s, TargetReg::Tmp1, w1)->Some_0;
        assert(reg_val(s1, TargetReg::Tmp1) == w1);
        assert(0 <= w1 * k2 && w1 * k2 < 0x1_0000_0000_0000) by (nonlinear_arith)
            requires
                0 <= w1 < 0x1_0000_0000 && 0 <= k2 as int <= 0x8000,
        ;
        let w2 = (w1 * (k2 as int)) % 0x1_0000_0000;
        assert(step(s1, t1) == write_reg(s1, treg(rd), w2));
        assert(treg(rd) != TargetReg::X(0));
        assert(wf(s1)) by {
            assert(s1.regs.dom() =~= Set::full());
        }
        lemma_write_reg_wf(s1, treg(rd), w2);
        let s2 = write_reg(s1, treg(rd), w2)->Some_0;
        assert(seq![t0, t1].drop_first() =~= seq![t1]);
        assert(seq![t1].drop_first() =~= Seq::<TargetInstrV>::empty());
        assert(exec_seq(s2, seq![t1].drop_first()) == Some(s2));
        assert(exec_seq(s1, seq![t1]) == Some(s2));
        assert(exec_seq(s, seq![t0, t1]) == Some(s2));
        assert(w2 == (a * (0x10000 * (k2 as int))) % 0x1_0000_0000) by {
            vstd::arithmetic::div_mod::lemma_mul_mod_noop_left(
                a * 0x10000,
                k2 as int,
                0x1_0000_0000,
            );
            assert((a * 0x10000) * (k2 as int) == a * (0x10000 * (k2 as int)))
                by (nonlinear_arith);
        }
        assert(0x10000 * (k2 as int) == (1u32 << amount) as int) by {
            assert(16 < amount <= 31);
            assert(0x10000u64 * ((1u32 << (amount - 16) as u32) as u64) == ((1u32 << amount)
                as u64)) by (bit_vector)
                requires
                    16 < amount <= 31,
            ;
        }
    }
}

/// Lowering `srai` and executing the emitted six-instruction sequence leaves
/// the arithmetic (sign-propagating) right shift of the source under the
/// two's-complement reading.
pub proof fn lemma_srai_executes(s: TargetState, rd: Register, rs: Register, amount: u32)
    requires
        wf(s),
        rd.spec_value() != 0,
        amount <= 31,
    ensures
        ({
            let code = spec_lower("srai"@, seq![ArgV::Register(rd), ArgV::Register(rs), ArgV::Expression(ExprV::Number(amount as int))]);
            let s2 = exec_seq(s, code->Ok_0);
            &&& code is Ok
            &&& s2 is Some
            &&& reg_val(s2->Some_0, treg(rd)) == ((((reg_val(s, treg(rs)) as u32) as i32)
                >> amount) as u32) as int
            &&& wf(s2->Some_0)
        }),
{
    let args = seq![ArgV::Register(rd), ArgV::Register(rs), ArgV::Expression(ExprV::Number(amount as int))];
    lemma_dispatch_srai(args);
    reveal_strlit("srai");
    assert("srai"@.len() == 4);
    reveal_strlit("slli");
    assert("srai"@[1] != "slli"@[1]);
    assert("srai"@ != "slli"@);
    reveal_strlit("sll");
    assert("sll"@.len() == 3);
    assert("srai"@ != "sll"@);
    reveal_strlit("srli");
    assert("srai"@[2] != "srli"@[2]);
    assert("srai"@ != "srli"@);
    reveal_strlit("srl");
    assert("srl"@.len() == 3);
    assert("srai"@ != "srl"@);
    assert(crate::lower::to_u32(amount as int) == amount) by {
        assert(((amount as i64) as u32) == amount) by (bit_vector);
        assert((amount as int) as i64 == amount as i64);
    }
    assert(crate::lower::spec_rri(args) == Ok::<(Register, Register, u32), crate::ast::CompileErrorV>(
        (rd, rs, amount),
    ));
    let t0 = TargetInstrV::ToSigned(TargetReg::Tmp1, treg(rs));
    let t1 = TargetInstrV::IsPositiveInto(
        TargetReg::Tmp1,
        TargetCond::Diff(TargetOp::Dec(0), TargetOp::Reg(TargetReg::Tmp1)),
    );
    let t2 = TargetInstrV::AssignMulHex(TargetReg::Tmp1, TargetReg::Tmp1, 0xffffffff);
    let t3 = TargetInstrV::Binary(
        crate::target::BinKind::Xor,
        treg(rd),
        TargetOp::Reg(TargetReg::Tmp1),
        TargetOp::Reg(treg(rs)),
    );
    let t4 = TargetInstrV::Binary(
        crate::target::BinKind::Shr,
        treg(rd),
        TargetOp::Reg(treg(rd)),
        TargetOp::Dec(amount),
    );
    let t5 = TargetInstrV::Binary(
        crate::target::BinKind::Xor,
        treg(rd),
        TargetOp::Reg(TargetReg::Tmp1),
        TargetOp::Reg(treg(rd)),
    );
    assert(spec_lower("srai"@, args) == Ok::<Seq<TargetInstrV>, crate::ast::CompileErrorV>(
        seq![t0, t1, t2, t3, t4, t5],
    )) by {
        assert(crate::lower::elide(rd, seq![t0, t1, t2, t3, t4, t5]) == seq![
            t0,
            t1,
            t2,
            t3,
            t4,
            t5,
        ]);
    }
    let a = reg_val(s, treg(rs));
    assert(u32r(a));
    let sv = to_signed_val(a);
    assert(step(s, t0) == write_reg(s, TargetReg::Tmp1, sv));
    lemma_write_reg_wf_any(s, TargetReg::Tmp1, sv);
    let s1 = write_reg(s, TargetReg::Tmp1, sv)->Some_0;
    let neg: int = if sv < 0 { 1int } else { 0int };
    assert(step(s1, t1) == write_reg(s1, TargetReg::Tmp1, neg));
    lemma_write_reg_wf_any(s1, TargetReg::Tmp1, neg);
    let s2 = write_reg(s1, TargetReg::Tmp1, neg)->Some_0;
    let m: int = neg * 0xffffffff;
    assert(step(s2, t2) == write_reg(s2, TargetReg::Tmp1, m));
    lemma_write_reg_wf_any(s2, TargetReg::Tmp1, m);
    let s3 = write_reg(s2, TargetReg::Tmp1, m)->Some_0;
    assert(m == (if a >= 0x8000_0000 { 0xffffffffint } else { 0int }));
    assert(u32r(m));
    assert(reg_val(s3, treg(rs)) == a);
    let x1 = xor32(m, a);
    assert(step(s3, t3) == write_reg(s3, treg(rd), x1));
    assert(treg(rd) != TargetReg::X(0));
    assert(wf(s3)) by {
        assert(s3.regs.dom() =~= Set::full());
    }
    lemma_write_reg_wf(s3, treg(rd), x1);
    let s4 = write_reg(s3, treg(rd), x1)->Some_0;
    assert(reg_val(s4, treg(rd)) == x1);
    let x2 = shr32(x1, amount as int);
    assert(step(s4, t4) == write_reg(s4, treg(rd), x2));
    lemma_write_reg_wf(s4, treg(rd), x2);
    let s5 = write_reg(s4, treg(rd), x2)->Some_0;
    assert(reg_val(s5, TargetReg::Tmp1) == m);
    let x3 = xor32(m, x2);
    assert(step(s5, t5) == write_reg(s5, treg(rd), x3));
    lemma_write_reg_wf(s5, treg(rd), x3);
    let s6 = write_reg(s5, treg(rd), x3)->Some_0;
    assert(seq![t0, t1, t2, t3, t4, t5].drop_first() =~= seq![t1, t2, t3, t4, t5]);
    assert(seq![t1, t2, t3, t4, t5].drop_first() =~= seq![t2, t3, t4, t5]);
    assert(seq![t2, t3, t4, t5].drop_first() =~= seq![t3, t4, t5]);
    assert(seq![t3, t4, t5].drop_first() =~= seq![t4, t5]);
    assert(seq![t4, t5].drop_first() =~= seq![t5]);
    assert(seq![t5].drop_first() =~= Seq::<TargetInstrV>::empty());
    assert(exec_seq(s6, seq![t5].drop_first()) == Some(s6));
    assert(exec_seq(s5, seq![t5]) == Some(s6));
    assert(exec_seq(s4, seq![t4, t5]) == Some(s6));
    assert(exec_seq(s3, seq![t3, t4, t5]) == Some(s6));
    assert(exec_seq(s2, seq![t2, t3, t4, t5]) == Some(s6));
    assert(exec_seq(s1, seq![t1, t2, t3, t4, t5]) == Some(s6));
    assert(exec_seq(s, seq![t0, t1, t2, t3, t4, t5]) == Some(s6));
    let au = a as u32;
    assert(a == au as int);
    if a >= 0x8000_0000 {
        assert((0xffffffffu32 ^ ((0xffffffffu32 ^ au) >> amount)) == (((au as i32)
            >> amount) as u32)) by (bit_vector)
            requires
                au >= 0x8000_0000 && amount <= 31,
        ;
    } else {
        assert((0u32 ^ ((0u32 ^ au) >> amount)) == (((au as i32) >> amount) as u32))
            by (bit_vector)
            requires
                au < 0x8000_0000 && amount <= 31,
        ;
    }
}

/// Lowering `la` and executing the emitted code loads the resolved address.
pub proof fn lemma_la_executes(s: TargetState, rd: Register, addr: u32)
    requires
        wf(s),
        rd.spec_value() != 0,
    ensures
        ({
            let code = spec_lower("la"@, seq![ArgV::Register(rd), ArgV::Expression(ExprV::Number(addr as int))]);
            let s2 = exec_seq(s, code->Ok_0);
            &&& code is Ok
            &&& s2 is Some
            &&& reg_val(s2->Some_0, treg(rd)) == addr as int
            &&& wf(s2->Some_0)
        }),
{
    let args = seq![ArgV::Register(rd), ArgV::Expression(ExprV::Number(addr as int))];
    lemma_dispatch_la(args);
    reveal_strlit("la");
    assert("la"@.len() == 2);
    reveal_strlit("li");
    assert("la"@[1] != "li"@[1]);
    assert("la"@ != "li"@);
    reveal_strlit("lui");
    assert("lui"@.len() == 3);
    assert("la"@ != "lui"@);
    assert(crate::lower::to_u32(addr as int) == addr) by {
        assert(((addr as i64) as u32) == addr) by (bit_vector);
        assert((addr as int) as i64 == addr as i64);
    }
    assert(crate::lower::spec_ri(args) == Ok::<(Register, u32), crate::ast::CompileErrorV>((rd, addr)));
    let t = TargetInstrV::Assign(treg(rd), TargetOp::Dec(addr));
    assert(spec_lower("la"@, args) == Ok::<Seq<TargetInstrV>, crate::ast::CompileErrorV>(seq![t])) by {
        assert(crate::lower::elide(rd, seq![t]) == seq![t]);
    }
    assert(step(s, t) == write_reg(s, treg(rd), addr as int));
    assert(treg(rd) != TargetReg::X(0));
    lemma_write_reg_wf(s, treg(rd), addr as int);
    let s1 = write_reg(s, treg(rd), addr as int)->Some_0;
    assert(seq![t].drop_first() =~= Seq::<TargetInstrV>::empty());
    assert(exec_seq(s1, seq![t].drop_first()) == Some(s1));
    assert(exec_seq(s, seq![t]) == Some(s1));
}

/// Lowering `slti` and executing the emitted pair leaves 1 exactly when the
/// source, read signed, is below the sign-reinterpreted immediate.
pub proof fn lemma_slti_executes(s: TargetState, rd: Register, rs: Register, imm: u32)
    requires
        wf(s),
        rd.spec_value() != 0,
    ensures
        ({
            let code = spec_lower("slti"@, seq![ArgV::Register(rd), ArgV::Register(rs), ArgV::Expression(ExprV::Number(imm as int))]);
            let s2 = exec_seq(s, code->Ok_0);
            &&& code is Ok
            &&& s2 is Some
            &&& reg_val(s2->Some_0, treg(rd)) == (if to_signed_val(reg_val(s, treg(rs)))
                < crate::lower::reinterp_i32(imm) as int {
                1int
            } else {
                0int
            })
            &&& wf(s2->Some_0)
        }),
{
    let args = seq![ArgV::Register(rd), ArgV::Register(rs), ArgV::Expression(ExprV::Number(imm as int))];
    lemma_dispatch_slti(args);
    reveal_strlit("slti");
    assert("slti"@.len() == 4);
    reveal_strlit("seqz");
    assert("slti"@[1] != "seqz"@[1]);
    assert("slti"@ != "seqz"@);
    reveal_strlit("snez");
    assert("slti"@[1] != "snez"@[1]);
    assert("slti"@ != "snez"@);
    assert(crate::lower::to_u32(imm as int) == imm) by {
        assert(((imm as i64) as u32) == imm) by (bit_vector);
        assert((imm as int) as i64 == imm as i64);
    }
    assert(crate::lower::spec_rri(args) == Ok::<(Register, Register, u32), crate::ast::CompileErrorV>(
        (rd, rs, imm),
    ));
    let si = crate::lower::reinterp_i32(imm);
    let t0 = TargetInstrV::ToSigned(TargetReg::Tmp1, treg(rs));
    let t1 = TargetInstrV::IsPositive(
        treg(rd),
        TargetCond::Diff(TargetOp::SDec(si), TargetOp::Reg(TargetReg::Tmp1)),
    );
    assert(spec_lower("slti"@, args) == Ok::<Seq<TargetInstrV>, crate::ast::CompileErrorV>(seq![t0, t1])) by {
        assert(crate::lower::elide(rd, seq![t0, t1]) == seq![t0, t1]);
    }
    let a = reg_val(s, treg(rs));
    assert(u32r(a));
    assert(step(s, t0) == write_reg(s, TargetReg::Tmp1, to_signed_val(a)));
    lemma_write_reg_wf_any(s, TargetReg::Tmp1, to_signed_val(a));
    let s1 = write_reg(s, TargetReg::Tmp1, to_signed_val(a))->Some_0;
    assert(reg_val(s1, TargetReg::Tmp1) == to_signed_val(a));
    let w = (if si as int - to_signed_val(a) > 0 { 1int } else { 0int });
    assert(step(s1, t1) == write_reg(s1, treg(rd), w));
    assert(treg(rd) != TargetReg::X(0));
    assert(wf(s1)) by {
        assert(s1.regs.dom() =~= Set::full());
    }
    lemma_write_reg_wf(s1, treg(rd), w);
    let s2 = write_reg(s1, treg(rd), w)->Some_0;
    assert(seq![t0, t1].drop_first() =~= seq![t1]);
    assert(seq![t1].drop_first() =~= Seq::<TargetInstrV>::empty());
    assert(exec_seq(s2, seq![t1].drop_first()) == Some(s2));
    assert(exec_seq(s1, seq![t1]) == Some(s2));
    assert(exec_seq(s, seq![t0, t1]) == Some(s2));
}

/// Lowering `sgtz` and executing the emitted pair leaves 1 exactly when the
/// source is strictly positive under the signed reading.
pub proof fn lemma_sgtz_executes(s: TargetState, rd: Register, rs: Register)
    requires
        wf(s),
        rd.spec_value() != 0,
    ensures
        ({
            let code = spec_lower("sgtz"@, seq![ArgV::Register(rd), ArgV::Register(rs)]);
            let s2 = exec_seq(s, code->Ok_0);
            &&& code is Ok
            &&& s2 is Some
            &&& reg_val(s2->Some_0, treg(rd)) == (if to_signed_val(reg_val(s, treg(rs))) > 0 {
                1int
            } else {
                0int
            })
            &&& wf(s2->Some_0)
        }),
{
    let args = seq![ArgV::Register(rd), ArgV::Register(rs)];
    lemma_dispatch_sgtz(args);
    reveal_strlit("sgtz");
    assert("sgtz"@.len() == 4);
    reveal_strlit("seqz");
    assert("sgtz"@[1] != "seqz"@[1]);
    assert("sgtz"@ != "seqz"@);
    reveal_strlit("snez");
    assert("sgtz"@[1] != "snez"@[1]);
    assert("sgtz"@ != "snez"@);
    reveal_strlit("slti");
    assert("sgtz"@[1] != "slti"@[1]);
    assert("sgtz"@ != "slti"@);
    reveal_strlit("slt");
    assert("slt"@.len() == 3);
    assert("sgtz"@ != "slt"@);
    reveal_strlit("sltiu");
    assert("sltiu"@.len() == 5);
    assert("sgtz"@ != "sltiu"@);
    reveal_strlit("sltu");
    assert("sgtz"@[1] != "sltu"@[1]);
    assert("sgtz"@ != "sltu"@);
    assert(crate::lower::spec_rr(args) == Ok::<(Register, Register), crate::ast::CompileErrorV>((rd, rs)));
    let t0 = TargetInstrV::ToSigned(TargetReg::Tmp1, treg(rs));
    let t1 = TargetInstrV::IsPositive(treg(rd), TargetCond::One(TargetOp::Reg(TargetReg::Tmp1)));
    assert(spec_lower("sgtz"@, args) == Ok::<Seq<TargetInstrV>, crate::ast::CompileErrorV>(seq![t0, t1])) by {
        assert(crate::lower::elide(rd, seq![t0, t1]) == seq![t0, t1]);
    }
    let a = reg_val(s, treg(rs));
    assert(u32r(a));
    assert(step(s, t0) == write_reg(s, TargetReg::Tmp1, to_signed_val(a)));
    lemma_write_reg_wf_any(s, TargetReg::Tmp1, to_signed_val(a));
    let s1 = write_reg(s, TargetReg::Tmp1, to_signed_val(a))->Some_0;
    assert(reg_val(s1, TargetReg::Tmp1) == to_signed_val(a));
    let w = (if to_signed_val(a) > 0 { 1int } else { 0int });
    assert(step(s1, t1) == write_reg(s1, treg(rd), w));
    assert(treg(rd) != TargetReg::X(0));
    assert(wf(s1)) by {
        assert(s1.regs.dom() =~= Set::full());
    }
    lemma_write_reg_wf(s1, treg(rd), w);
    let s2 = write_reg(s1, treg(rd), w)->Some_0;
    assert(seq![t0, t1].drop_first() =~= seq![t1]);
    assert(seq![t1].drop_first() =~= Seq::<TargetInstrV>::empty());
    assert(exec_seq(s2, seq![t1].drop_first()) == Some(s2));
    assert(exec_seq(s1, seq![t1]) == Some(s2));
    assert(exec_seq(s, seq![t0, t1]) == Some(s2));
}

/// The byte the word holds at the given lane (memory is little-endian within
/// a word).
pub open spec fn byte_lane(w: int, lane: int) -> int {
    if lane == 0 {
        w % 0x100
    } else if lane == 1 {
        (w / 0x100) % 0x100
    } else if lane == 2 {
        (w / 0x10000) % 0x100
    } else {
        (w / 0x1000000) % 0x100
    }
}

/// The half-word the word holds starting at the given byte lane.
pub open spec fn half_lane(w: int, lane: int) -> int {
    if lane == 0 {
        w % 0x10000
    } else if lane == 1 {
        (w / 0x100) % 0x10000
    } else if lane == 2 {
        (w / 0x10000) % 0x10000
    } else {
        (w / 0x1000000) % 0x10000
    }
}

proof fn lemma_byte_lane_shift(w: int, lane: int)
    requires
        u32r(w),
        0 <= lane < 4,
    ensures
        and32(shr32(w, 8 * lane), 0xff) == byte_lane(w, lane),
        and32(shr32(w, 8 * lane), 0xffff) == half_lane(w, lane),
{
    let wu = w as u32;
    assert(w == wu as int);
    if lane == 0 {
        assert(((wu >> 0u32) & 0xff) == wu % 0x100) by (bit_vector);
        assert(((wu >> 0u32) & 0xffff) == wu % 0x10000) by (bit_vector);
    } else if lane == 1 {
        assert(((wu >> 8u32) & 0xff) == (wu / 0x100) % 0x100) by (bit_vector);
        assert(((wu >> 8u32) & 0xffff) == (wu / 0x100) % 0x10000) by (bit_vector);
    } else if lane == 2 {
        assert(((wu >> 16u32) & 0xff) == (wu / 0x10000) % 0x100) by (bit_vector);
        assert(((wu >> 16u32) & 0xffff) == (wu / 0x10000) % 0x10000) by (bit_vector);
    } else {
        assert(((wu >> 24u32) & 0xff) == (wu / 0x1000000) % 0x100) by (bit_vector);
        assert(((wu >> 24u32) & 0xffff) == (wu / 0x1000000) % 0x10000) by (bit_vector);
    }
}

/// Lowering `lbu` and executing the emitted sequence loads the addressed byte
/// of the aligned memory word, zero-extended: byte accesses are emulated over
/// the word-addressed memory by shift and mask.
#[verifier::rlimit(60)]
pub proof fn lemma_lbu_executes(s: TargetState, rd: Register, rs: Register, off: u32)
    requires
        wf(s),
        rd.spec_value() != 0,
    ensures
        ({
            let code = spec_lower("lbu"@, seq![ArgV::Register(rd), ArgV::RegOffset(rs, ExprV::Number(off as int))]);
            let s2 = exec_seq(s, code->Ok_0);
            let ea = (reg_val(s, treg(rs)) + off as int) % 0x1_0000_0000;
            &&& code is Ok
            &&& s2 is Some
            &&& reg_val(s2->Some_0, treg(rd)) == byte_lane(mem_at(s, ea - ea % 4), ea % 4)
            &&& s2->Some_0.mem == s.mem
            &&& wf(s2->Some_0)
        }),
{
    let args = seq![ArgV::Register(rd), ArgV::RegOffset(rs, ExprV::Number(off as int))];
    lemma_dispatch_lbu(args);
    reveal_strlit("lbu");
    assert("lbu"@.len() == 3);
    reveal_strlit("lw");
    assert("lw"@.len() == 2);
    assert("lbu"@ != "lw"@);
    reveal_strlit("lb");
    assert("lb"@.len() == 2);
    assert("lbu"@ != "lb"@);
    assert(crate::lower::to_u32(off as int) == off) by {
        assert(((off as i64) as u32) == off) by (bit_vector);
        assert((off as int) as i64 == off as i64);
    }
    assert(crate::lower::spec_rro(args) == Ok::<(Register, Register, u32), crate::ast::CompileErrorV>(
        (rd, rs, off),
    ));
    let t0 = TargetInstrV::WrapAdd(TargetReg::Tmp1, treg(rs), TargetOp::Dec(off));
    let t1 = TargetInstrV::Binary(crate::target::BinKind::And, TargetReg::Addr, TargetOp::Reg(TargetReg::Tmp1), TargetOp::Hex(0xfffffffc));
    let t2 = TargetInstrV::Binary(crate::target::BinKind::And, TargetReg::Tmp2, TargetOp::Reg(TargetReg::Tmp1), TargetOp::Hex(0x3));
    let t3 = TargetInstrV::Mload(treg(rd));
    let t4 = TargetInstrV::Binary(crate::target::BinKind::Shr, treg(rd), TargetOp::Reg(treg(rd)), TargetOp::ByteShift(TargetReg::Tmp2));
    let t5 = TargetInstrV::Binary(crate::target::BinKind::And, treg(rd), TargetOp::Reg(treg(rd)), TargetOp::Hex(0xff));
    assert(spec_lower("lbu"@, args) == Ok::<Seq<TargetInstrV>, crate::ast::CompileErrorV>(
        seq![t0, t1, t2, t3, t4, t5],
    )) by {
        assert(crate::lower::spec_narrow_load_head(rd, rs, off).push(
            TargetInstrV::Binary(crate::target::BinKind::And, treg(rd), TargetOp::Reg(treg(rd)), TargetOp::Hex(0xff)),
        ) =~= seq![t0, t1, t2, t3, t4, t5]);
        assert(crate::lower::elide(rd, seq![t0, t1, t2, t3, t4, t5]) == seq![
            t0,
            t1,
            t2,
            t3,
            t4,
            t5,
        ]);
    }
    let a = reg_val(s, treg(rs));
    assert(u32r(a));
    let ea = (a + off as int) % 0x1_0000_0000;
    assert(step(s, t0) == write_reg(s, TargetReg::Tmp1, ea));
    lemma_write_reg_wf_any(s, TargetReg::Tmp1, ea);
    let s1 = write_reg(s, TargetReg::Tmp1, ea)->Some_0;
    assert(reg_val(s1, TargetReg::Tmp1) == ea);
    let aligned = and32(ea, 0xfffffffc);
    assert(step(s1, t1) == write_reg(s1, TargetReg::Addr, aligned));
    lemma_write_reg_wf_any(s1, TargetReg::Addr, aligned);
    let s2 = write_reg(s1, TargetReg::Addr, aligned)->Some_0;
    assert(reg_val(s2, TargetReg::Tmp1) == ea);
    let lane = and32(ea, 0x3);
    assert(step(s2, t2) == write_reg(s2, TargetReg::Tmp2, lane));
    lemma_write_reg_wf_any(s2, TargetReg::Tmp2, lane);
    let s3 = write_reg(s2, TargetReg::Tmp2, lane)->Some_0;
    assert(reg_val(s3, TargetReg::Addr) == aligned);
    assert(mem_at(s3, aligned) == mem_at(s, aligned));
    let w = mem_at(s, aligned);
    assert(u32r(w));
    assert(step(s3, t3) == write_reg(s3, treg(rd), w));
    assert(treg(rd) != TargetReg::X(0));
    assert(wf(s3)) by {
        assert(s3.regs.dom() =~= Set::full());
    }
    lemma_write_reg_wf(s3, treg(rd), w);
    let s4 = write_reg(s3, treg(rd), w)->Some_0;
    assert(reg_val(s4, treg(rd)) == w);
    assert(reg_val(s4, TargetReg::Tmp2) == lane);
    assert(lane == ea % 4 && aligned == ea - ea % 4) by {
        assert(forall|x: u32| #[trigger] (x & 0x3) == x % 4) by (bit_vector);
        assert(forall|x: u32| #[trigger] ((x & 0xfffffffc) + (x & 0x3)) == x) by (bit_vector);
        assert(((ea as u32) & 0xfffffffc) + ((ea as u32) & 0x3) == ea);
    }
    assert(0 <= lane < 4);
    assert(8 * lane < 32);
    let sh = shr32(w, 8 * lane);
    assert(step(s4, t4) == write_reg(s4, treg(rd), sh));
    lemma_write_reg_wf(s4, treg(rd), sh);
    let s5 = write_reg(s4, treg(rd), sh)->Some_0;
    assert(reg_val(s5, treg(rd)) == sh);

    let res = and32(sh, 0xff);
    assert(step(s5, t5) == write_reg(s5, treg(rd), res));
    lemma_write_reg_wf(s5, treg(rd), res);
    let s6 = write_reg(s5, treg(rd), res)->Some_0;
    lemma_byte_lane_shift(w, lane);
    assert(seq![t0, t1, t2, t3, t4, t5].drop_first() =~= seq![t1, t2, t3, t4, t5]);
    assert(seq![t1, t2, t3, t4, t5].drop_first() =~= seq![t2, t3, t4, t5]);
    assert(seq![t2, t3, t4, t5].drop_first() =~= seq![t3, t4, t5]);
    assert(seq![t3, t4, t5].drop_first() =~= seq![t4, t5]);
    assert(seq![t4, t5].drop_first() =~= seq![t5]);
    assert(seq![t5].drop_first() =~= Seq::<TargetInstrV>::empty());
    assert(exec_seq(s6, seq![t5].drop_first()) == Some(s6));
    assert(exec_seq(s5, seq![t5]) == Some(s6));
    assert(exec_seq(s4, seq![t4, t5]) == Some(s6));
    assert(exec_seq(s3, seq![t3, t4, t5]) == Some(s6));
    assert(exec_seq(s2, seq![t2, t3, t4, t5]) == Some(s6));
    assert(exec_seq(s1, seq![t1, t2, t3, t4, t5]) == Some(s6));
    assert(exec_seq(s, seq![t0, t1, t2, t3, t4, t5]) == Some(s6));
}

/// Lowering `lhu` and executing the emitted sequence loads the addressed
/// half-word of the aligned memory word, zero-extended (the emitted code
/// assumes a two-byte-aligned address).
#[verifier::rlimit(60)]
pub proof fn lemma_lhu_executes(s: TargetState, rd: Register, rs: Register, off: u32)
    requires
        wf(s),
        rd.spec_value() != 0,
    ensures
        ({
            let code = spec_lower("lhu"@, seq![ArgV::Register(rd), ArgV::RegOffset(rs, ExprV::Number(off as int))]);
            let s2 = exec_seq(s, code->Ok_0);
            let ea = (reg_val(s, treg(rs)) + off as int) % 0x1_0000_0000;
            &&& code is Ok
            &&& s2 is Some
            &&& reg_val(s2->Some_0, treg(rd)) == half_lane(mem_at(s, ea - ea % 4), ea % 4)
            &&& s2->Some_0.mem == s.mem
            &&& wf(s2->Some_0)
        }),
{
    let args = seq![ArgV::Register(rd), ArgV::RegOffset(rs, ExprV::Number(off as int))];
    lemma_dispatch_lhu(args);
    reveal_strlit("lhu");
    assert("lhu"@.len() == 3);
    reveal_strlit("lw");
    assert("lw"@.len() == 2);
    assert("lhu"@ != "lw"@);
    reveal_strlit("lb");
    assert("lb"@.len() == 2);
    assert("lhu"@ != "lb"@);
    reveal_strlit("lbu");
    assert("lhu"@[1] != "lbu"@[1]);
    assert("lhu"@ != "lbu"@);
    assert(crate::lower::to_u32(off as int) == off) by {
        assert(((off as i64) as u32) == off) by (bit_vector);
        assert((off as int) as i64 == off as i64);
    }
    assert(crate::lower::spec_rro(args) == Ok::<(Register, Register, u32), crate::ast::CompileErrorV>(
        (rd, rs, off),
    ));
    let t0 = TargetInstrV::WrapAdd(TargetReg::Tmp1, treg(rs), TargetOp::Dec(off));
    let t1 = TargetInstrV::Binary(crate::target::BinKind::And, TargetReg::Addr, TargetOp::Reg(TargetReg::Tmp1), TargetOp::Hex(0xfffffffc));
    let t2 = TargetInstrV::Binary(crate::target::BinKind::And, TargetReg::Tmp2, TargetOp::Reg(TargetReg::Tmp1), TargetOp::Hex(0x3));
    let t3 = TargetInstrV::Mload(treg(rd));
    let t4 = TargetInstrV::Binary(crate::target::BinKind::Shr, treg(rd), TargetOp::Reg(treg(rd)), TargetOp::ByteShift(TargetReg::Tmp2));
    let t5 = TargetInstrV::Binary(crate::target::BinKind::And, treg(rd), TargetOp::Reg(treg(rd)), TargetOp::Hex(0xffff));
    assert(spec_lower("lhu"@, args) == Ok::<Seq<TargetInstrV>, crate::ast::CompileErrorV>(
        seq![t0, t1, t2, t3, t4, t5],
    )) by {
        assert(crate::lower::spec_narrow_load_head(rd, rs, off).push(
            TargetInstrV::Binary(crate::target::BinKind::And, treg(rd), TargetOp::Reg(treg(rd)), TargetOp::Hex(0xffff)),
        ) =~= seq![t0, t1, t2, t3, t4, t5]);
        assert(crate::lower::elide(rd, seq![t0, t1, t2, t3, t4, t5]) == seq![
            t0,
            t1,
            t2,
            t3,
            t4,
            t5,
        ]);
    }
    let a = reg_val(s, treg(rs));
    assert(u32r(a));
    let ea = (a + off as int) % 0x1_0000_0000;
    assert(step(s, t0) == write_reg(s, TargetReg::Tmp1, ea));
    lemma_write_reg_wf_any(s, TargetReg::Tmp1, ea);
    let s1 = write_reg(s, TargetReg::Tmp1, ea)->Some_0;
    assert(reg_val(s1, TargetReg::Tmp1) == ea);
    let aligned = and32(ea, 0xfffffffc);
    assert(step(s1, t1) == write_reg(s1, TargetReg::Addr, aligned));
    lemma_write_reg_wf_any(s1, TargetReg::Addr, aligned);
    let s2 = write_reg(s1, TargetReg::Addr, aligned)->Some_0;
    assert(reg_val(s2, TargetReg::Tmp1) == ea);
    let lane = and32(ea, 0x3);
    assert(step(s2, t2) == write_reg(s2, TargetReg::Tmp2, lane));
    lemma_write_reg_wf_any(s2, TargetReg::Tmp2, lane);
    let s3 = write_reg(s2, TargetReg::Tmp2, lane)->Some_0;
    assert(reg_val(s3, TargetReg::Addr) == aligned);
    assert(mem_at(s3, aligned) == mem_at(s, aligned));
    let w = mem_at(s, aligned);
    assert(u32r(w));
    assert(step(s3, t3) == write_reg(s3, treg(rd), w));
    assert(treg(rd) != TargetReg::X(0));
    assert(wf(s3)) by {
        assert(s3.regs.dom() =~= Set::full());
    }
    lemma_write_reg_wf(s3, treg(rd), w);
    let s4 = write_reg(s3, treg(rd), w)->Some_0;
    assert(reg_val(s4, treg(rd)) == w);
    assert(reg_val(s4, TargetReg::Tmp2) == lane);
    assert(lane == ea % 4 && aligned == ea - ea % 4) by {
        assert(forall|x: u32| #[trigger] (x & 0x3) == x % 4) by (bit_vector);
        assert(forall|x: u32| #[trigger] ((x & 0xfffffffc) + (x & 0x3)) == x) by (bit_vector);
        assert(((ea as u32) & 0xfffffffc) + ((ea as u32) & 0x3) == ea);
    }
    assert(0 <= lane < 4);
    assert(8 * lane < 32);
    let sh = shr32(w, 8 * lane);
    assert(step(s4, t4) == write_reg(s4, treg(rd), sh));
    lemma_write_reg_wf(s4, treg(rd), sh);
    let s5 = write_reg(s4, treg(rd), sh)->Some_0;
    assert(reg_val(s5, treg(rd)) == sh);

    let res = and32(sh, 0xffff);
    assert(step(s5, t5) == write_reg(s5, treg(rd), res));
    lemma_write_reg_wf(s5, treg(rd), res);
    let s6 = write_reg(s5, treg(rd), res)->Some_0;
    lemma_byte_lane_shift(w, lane);
    assert(seq![t0, t1, t2, t3, t4, t5].drop_first() =~= seq![t1, t2, t3, t4, t5]);
    assert(seq![t1, t2, t3, t4, t5].drop_first() =~= seq![t2, t3, t4, t5]);
    assert(seq![t2, t3, t4, t5].drop_first() =~= seq![t3, t4, t5]);
    assert(seq![t3, t4, t5].drop_first() =~= seq![t4, t5]);
    assert(seq![t4, t5].drop_first() =~= seq![t5]);
    assert(seq![t5].drop_first() =~= Seq::<TargetInstrV>::empty());
    assert(exec_seq(s6, seq![t5].drop_first()) == Some(s6));
    assert(exec_seq(s5, seq![t5]) == Some(s6));
    assert(exec_seq(s4, seq![t4, t5]) == Some(s6));
    assert(exec_seq(s3, seq![t3, t4, t5]) == Some(s6));
    assert(exec_seq(s2, seq![t2, t3, t4, t5]) == Some(s6));
    assert(exec_seq(s1, seq![t1, t2, t3, t4, t5]) == Some(s6));
    assert(exec_seq(s, seq![t0, t1, t2, t3, t4, t5]) == Some(s6));
}

/// Lowering `lb` and executing the emitted sequence loads the addressed byte
/// of the aligned memory word, sign-extended to 32 bits.
#[verifier::rlimit(60)]
pub proof fn lemma_lb_executes(s: TargetState, rd: Register, rs: Register, off: u32)
    requires
        wf(s),
        rd.spec_value() != 0,
    ensures
        ({
            let code = spec_lower("lb"@, seq![ArgV::Register(rd), ArgV::RegOffset(rs, ExprV::Number(off as int))]);
            let s2 = exec_seq(s, code->Ok_0);
            let ea = (reg_val(s, treg(rs)) + off as int) % 0x1_0000_0000;
            let b = byte_lane(mem_at(s, ea - ea % 4), ea % 4);
            &&& code is Ok
            &&& s2 is Some
            &&& reg_val(s2->Some_0, treg(rd)) == b % 0x80 + (if b >= 0x80 {
                0xffffff80int
            } else {
                0int
            })
            &&& s2->Some_0.mem == s.mem
            &&& wf(s2->Some_0)
        }),
{
    let args = seq![ArgV::Register(rd), ArgV::RegOffset(rs, ExprV::Number(off as int))];
    lemma_dispatch_lb(args);
    reveal_strlit("lb");
    assert("lb"@.len() == 2);
    reveal_strlit("lw");
    assert("lb"@[1] != "lw"@[1]);
    assert("lb"@ != "lw"@);
    assert(crate::lower::to_u32(off as int) == off) by {
        assert(((off as i64) as u32) == off) by (bit_vector);
        assert((off as int) as i64 == off as i64);
    }
    assert(crate::lower::spec_rro(args) == Ok::<(Register, Register, u32), crate::ast::CompileErrorV>(
        (rd, rs, off),
    ));
    let t0 = TargetInstrV::WrapAdd(TargetReg::Tmp1, treg(rs), TargetOp::Dec(off));
    let t1 = TargetInstrV::Binary(crate::target::BinKind::And, TargetReg::Addr, TargetOp::Reg(TargetReg::Tmp1), TargetOp::Hex(0xfffffffc));
    let t2 = TargetInstrV::Binary(crate::target::BinKind::And, TargetReg::Tmp2, TargetOp::Reg(TargetReg::Tmp1), TargetOp::Hex(0x3));
    let t3 = TargetInstrV::Mload(treg(rd));
    let t4 = TargetInstrV::Binary(crate::target::BinKind::Shr, treg(rd), TargetOp::Reg(treg(rd)), TargetOp::ByteShift(TargetReg::Tmp2));
    let t5 = TargetInstrV::SignExtendByte(treg(rd), treg(rd));
    assert(spec_lower("lb"@, args) == Ok::<Seq<TargetInstrV>, crate::ast::CompileErrorV>(
        seq![t0, t1, t2, t3, t4, t5],
    )) by {
        assert(crate::lower::spec_narrow_load_head(rd, rs, off).push(
            TargetInstrV::SignExtendByte(treg(rd), treg(rd)),
        ) =~= seq![t0, t1, t2, t3, t4, t5]);
        assert(crate::lower::elide(rd, seq![t0, t1, t2, t3, t4, t5]) == seq![
            t0,
            t1,
            t2,
            t3,
            t4,
            t5,
        ]);
    }
    let a = reg_val(s, treg(rs));
    assert(u32r(a));
    let ea = (a + off as int) % 0x1_0000_0000;
    assert(step(s, t0) == write_reg(s, TargetReg::Tmp1, ea));
    lemma_write_reg_wf_any(s, TargetReg::Tmp1, ea);
    let s1 = write_reg(s, TargetReg::Tmp1, ea)->Some_0;
    assert(reg_val(s1, TargetReg::Tmp1) == ea);
    let aligned = and32(ea, 0xfffffffc);
    assert(step(s1, t1) == write_reg(s1, TargetReg::Addr, aligned));
    lemma_write_reg_wf_any(s1, TargetReg::Addr, aligned);
    let s2 = write_reg(s1, TargetReg::Addr, aligned)->Some_0;
    assert(reg_val(s2, TargetReg::Tmp1) == ea);
    let lane = and32(ea, 0x3);
    assert(step(s2, t2) == write_reg(s2, TargetReg::Tmp2, lane));
    lemma_write_reg_wf_any(s2, TargetReg::Tmp2, lane);
    let s3 = write_reg(s2, TargetReg::Tmp2, lane)->Some_0;
    assert(reg_val(s3, TargetReg::Addr) == aligned);
    assert(mem_at(s3, aligned) == mem_at(s, aligned));
    let w = mem_at(s, aligned);
    assert(u32r(w));
    assert(step(s3, t3) == write_reg(s3, treg(rd), w));
    assert(treg(rd) != TargetReg::X(0));
    assert(wf(s3)) by {
        assert(s3.regs.dom() =~= Set::full());
    }
    lemma_write_reg_wf(s3, treg(rd), w);
    let s4 = write_reg(s3, treg(rd), w)->Some_0;
    assert(reg_val(s4, treg(rd)) == w);
    assert(reg_val(s4, TargetReg::Tmp2) == lane);
    assert(lane == ea % 4 && aligned == ea - ea % 4) by {
        assert(forall|x: u32| #[trigger] (x & 0x3) == x % 4) by (bit_vector);
        assert(forall|x: u32| #[trigger] ((x & 0xfffffffc) + (x & 0x3)) == x) by (bit_vector);
        assert(((ea as u32) & 0xfffffffc) + ((ea as u32) & 0x3) == ea);
    }
    assert(0 <= lane < 4);
    assert(8 * lane < 32);
    let sh = shr32(w, 8 * lane);
    assert(step(s4, t4) == write_reg(s4, treg(rd), sh));
    lemma_write_reg_wf(s4, treg(rd), sh);
    let s5 = write_reg(s4, treg(rd), sh)->Some_0;
    assert(reg_val(s5, treg(rd)) == sh);

    let res = sign_extend_byte_val(sh);
    assert(step(s5, t5) == write_reg(s5, treg(rd), res));
    lemma_write_reg_wf(s5, treg(rd), res);
    let s6 = write_reg(s5, treg(rd), res)->Some_0;
    lemma_byte_lane_shift(w, lane);
    let b = byte_lane(w, lane);
    assert(b == and32(sh, 0xff));
    assert(b == sh % 0x100) by {
        let shu = sh as u32;
        assert(sh == shu as int);
        assert((shu & 0xff) == shu % 0x100) by (bit_vector);
    }
    assert(res == b % 0x80 + (if b >= 0x80 { 0xffffff80int } else { 0int })) by {
        assert(sh % 0x100 % 0x80 == sh % 0x80) by {
            vstd::arithmetic::div_mod::lemma_mod_mod(sh, 0x80, 2);
        }
        assert((sh / 0x80) % 2 == (b / 0x80) % 2) by {
            assert(sh == 0x100 * (sh / 0x100) + b) by {
                vstd::arithmetic::div_mod::lemma_fundamental_div_mod(sh, 0x100);
            }
            assert(sh / 0x80 == 2 * (sh / 0x100) + b / 0x80) by (nonlinear_arith)
                requires
                    sh == 0x100 * (sh / 0x100) + b && 0 <= b < 0x100,
            ;
            assert((2 * (sh / 0x100) + b / 0x80) % 2 == (b / 0x80) % 2) by {
                vstd::arithmetic::div_mod::lemma_mod_multiples_vanish(sh / 0x100, b / 0x80, 2);
            }
        }
        assert(0 <= b < 0x100);
        assert((b / 0x80) % 2 == (if b >= 0x80 { 1int } else { 0int }));
    }
    assert(seq![t0, t1, t2, t3, t4, t5].drop_first() =~= seq![t1, t2, t3, t4, t5]);
    assert(seq![t1, t2, t3, t4, t5].drop_first() =~= seq![t2, t3, t4, t5]);
    assert(seq![t2, t3, t4, t5].drop_first() =~= seq![t3, t4, t5]);
    assert(seq![t3, t4, t5].drop_first() =~= seq![t4, t5]);
    assert(seq![t4, t5].drop_first() =~= seq![t5]);
    assert(seq![t5].drop_first() =~= Seq::<TargetInstrV>::empty());
    assert(exec_seq(s6, seq![t5].drop_first()) == Some(s6));
    assert(exec_seq(s5, seq![t5]) == Some(s6));
    assert(exec_seq(s4, seq![t4, t5]) == Some(s6));
    assert(exec_seq(s3, seq![t3, t4, t5]) == Some(s6));
    assert(exec_seq(s2, seq![t2, t3, t4, t5]) == Some(s6));
    assert(exec_seq(s1, seq![t1, t2, t3, t4, t5]) == Some(s6));
    assert(exec_seq(s, seq![t0, t1, t2, t3, t4, t5]) == Some(s6));
}


#[verifier::rlimit(100)]
proof fn lemma_exec_eleven(
    s: TargetState,
    code: Seq<TargetInstrV>,
    s1: TargetState,
    s2: TargetState,
    s3: TargetState,
    s4: TargetState,
    s5: TargetState,
    s6: TargetState,
    s7: TargetState,
    s8: TargetState,
    s9: TargetState,
    s10: TargetState,
    s11: TargetState,
)
    requires
        code.len() == 11,
        step(s, code[0]) == Some(s1),
        step(s1, code[1]) == Some(s2),
        step(s2, code[2]) == Some(s3),
        step(s3, code[3]) == Some(s4),
        step(s4, code[4]) == Some(s5),
        step(s5, code[5]) == Some(s6),
        step(s6, code[6]) == Some(s7),
        step(s7, code[7]) == Some(s8),
        step(s8, code[8]) == Some(s9),
        step(s9, code[9]) == Some(s10),
        step(s10, code[10]) == Some(s11),
    ensures
        exec_seq(s, code) == Some(s11),
{
    let c1 = code.drop_first();
    let c2 = c1.drop_first();
    let c3 = c2.drop_first();
    let c4 = c3.drop_first();
    let c5 = c4.drop_first();
    let c6 = c5.drop_first();
    let c7 = c6.drop_first();
    let c8 = c7.drop_first();
    let c9 = c8.drop_first();
    let c10 = c9.drop_first();
    let c11 = c10.drop_first();
    assert(c11.len() == 0);
    assert(c1[0] == code[1] && c2[0] == code[2] && c3[0] == code[3] && c4[0] == code[4] && c5[0]
        == code[5] && c6[0] == code[6] && c7[0] == code[7] && c8[0] == code[8] && c9[0] == code[9]
        && c10[0] == code[10]);
    assert(exec_seq(s11, c11) == Some(s11));
    assert(exec_seq(s10, c10) == Some(s11));
    assert(exec_seq(s9, c9) == Some(s11));
    assert(exec_seq(s8, c8) == Some(s11));
    assert(exec_seq(s7, c7) == Some(s11));
    assert(exec_seq(s6, c6) == Some(s11));
    assert(exec_seq(s5, c5) == Some(s11));
    assert(exec_seq(s4, c4) == Some(s11));
    assert(exec_seq(s3, c3) == Some(s11));
    assert(exec_seq(s2, c2) == Some(s11));
    assert(exec_seq(s1, c1) == Some(s11));
}

/// Lowering `sb` and executing the emitted read-modify-write sequence
/// stores the source's low byte into the addressed lane of the aligned
/// memory word and preserves the word's other bytes.
#[verifier::rlimit(100)]
pub proof fn lemma_sb_executes(s: TargetState, r1: Register, r2: Register, off: u32)
    requires
        wf(s),
    ensures
        ({
            let code = spec_lower("sb"@, seq![ArgV::Register(r1), ArgV::RegOffset(r2, ExprV::Number(off as int))]);
            let s2 = exec_seq(s, code->Ok_0);
            let ea = (reg_val(s, treg(r2)) + off as int) % 0x1_0000_0000;
            &&& code is Ok
            &&& s2 is Some
            &&& s2->Some_0.mem.dom() == s.mem.dom().insert(ea - ea % 4)
            &&& byte_lane(s2->Some_0.mem[ea - ea % 4], ea % 4) == reg_val(s, treg(r1)) % 0x100
            &&& forall|t: int|
                0 <= t < 4 && t != ea % 4 ==> #[trigger] byte_lane(
                    s2->Some_0.mem[ea - ea % 4],
                    t,
                ) == byte_lane(mem_at(s, ea - ea % 4), t)
            &&& forall|ad: int|
                s.mem.dom().contains(ad) && ad != ea - ea % 4 ==> #[trigger] s2->Some_0.mem[ad]
                    == s.mem[ad]
            &&& forall|n: u8|
                reg_val(s2->Some_0, TargetReg::X(n)) == reg_val(s, TargetReg::X(n))
        }),
{
    let args = seq![ArgV::Register(r1), ArgV::RegOffset(r2, ExprV::Number(off as int))];
    lemma_dispatch_sb(args);
    reveal_strlit("sb");
    assert("sb"@.len() == 2);
    reveal_strlit("lw");
    assert("sb"@[0] != "lw"@[0]);
    assert("sb"@ != "lw"@);
    reveal_strlit("lb");
    assert("sb"@[0] != "lb"@[0]);
    assert("sb"@ != "lb"@);
    reveal_strlit("lbu");
    assert("lbu"@.len() == 3);
    assert("sb"@ != "lbu"@);
    reveal_strlit("lhu");
    assert("lhu"@.len() == 3);
    assert("sb"@ != "lhu"@);
    reveal_strlit("sw");
    assert("sb"@[1] != "sw"@[1]);
    assert("sb"@ != "sw"@);
    reveal_strlit("sh");
    assert("sb"@[1] != "sh"@[1]);
    assert("sb"@ != "sh"@);
    assert(crate::lower::to_u32(off as int) == off) by {
        assert(((off as i64) as u32) == off) by (bit_vector);
        assert((off as int) as i64 == off as i64);
    }
    assert(crate::lower::spec_rro(args) == Ok::<
        (Register, Register, u32),
        crate::ast::CompileErrorV,
    >((r1, r2, off)));
    let code = crate::lower::spec_narrow_store(r1, r2, off, 0xff);
    assert(spec_lower("sb"@, args) == Ok::<Seq<TargetInstrV>, crate::ast::CompileErrorV>(
        code,
    ));
    lemma_narrow_store_exec(s, r1, r2, off, 0xff);
    let a = reg_val(s, treg(r2));
    let v = reg_val(s, treg(r1));
    let ea = (a + off as int) % 0x1_0000_0000;
    let lane = ea % 4;
    let w = mem_at(s, ea - ea % 4);
    let s11 = exec_seq(s, code)->Some_0;
    assert(s11.mem.dom() =~= s.mem.dom().insert(ea - ea % 4));
    
    lemma_merge_byte_lane(w, v, lane);
}

/// Lowering `sh` and executing the emitted read-modify-write sequence
/// stores the source's low half-word into the addressed lane of the aligned
/// memory word and preserves the word's other bytes (the emitted code assumes a two-byte-aligned address).
#[verifier::rlimit(100)]
pub proof fn lemma_sh_executes(s: TargetState, r1: Register, r2: Register, off: u32)
    requires
        wf(s),
        (reg_val(s, treg(r2)) + off as int) % 2 == 0,
    ensures
        ({
            let code = spec_lower("sh"@, seq![ArgV::Register(r1), ArgV::RegOffset(r2, ExprV::Number(off as int))]);
            let s2 = exec_seq(s, code->Ok_0);
            let ea = (reg_val(s, treg(r2)) + off as int) % 0x1_0000_0000;
            &&& code is Ok
            &&& s2 is Some
            &&& s2->Some_0.mem.dom() == s.mem.dom().insert(ea - ea % 4)
            &&& half_lane(s2->Some_0.mem[ea - ea % 4], ea % 4) == reg_val(s, treg(r1)) % 0x10000
            &&& forall|t: int|
                0 <= t < 4 && t != ea % 4 && t != ea % 4 + 1 ==> #[trigger] byte_lane(
                    s2->Some_0.mem[ea - ea % 4],
                    t,
                ) == byte_lane(mem_at(s, ea - ea % 4), t)
            &&& forall|ad: int|
                s.mem.dom().contains(ad) && ad != ea - ea % 4 ==> #[trigger] s2->Some_0.mem[ad]
                    == s.mem[ad]
            &&& forall|n: u8|
                reg_val(s2->Some_0, TargetReg::X(n)) == reg_val(s, TargetReg::X(n))
        }),
{
    let args = seq![ArgV::Register(r1), ArgV::RegOffset(r2, ExprV::Number(off as int))];
    lemma_dispatch_sh(args);
    reveal_strlit("sh");
    assert("sh"@.len() == 2);
    reveal_strlit("lw");
    assert("sh"@[0] != "lw"@[0]);
    assert("sh"@ != "lw"@);
    reveal_strlit("lb");
    assert("sh"@[0] != "lb"@[0]);
    assert("sh"@ != "lb"@);
    reveal_strlit("lbu");
    assert("lbu"@.len() == 3);
    assert("sh"@ != "lbu"@);
    reveal_strlit("lhu");
    assert("lhu"@.len() == 3);
    assert("sh"@ != "lhu"@);
    reveal_strlit("sw");
    assert("sh"@[1] != "sw"@[1]);
    assert("sh"@ != "sw"@);
    assert(crate::lower::to_u32(off as int) == off) by {
        assert(((off as i64) as u32) == off) by (bit_vector);
        assert((off as int) as i64 == off as i64);
    }
    assert(crate::lower::spec_rro(args) == Ok::<
        (Register, Register, u32),
        crate::ast::CompileErrorV,
    >((r1, r2, off)));
    let code = crate::lower::spec_narrow_store(r1, r2, off, 0xffff);
    assert(spec_lower("sh"@, args) == Ok::<Seq<TargetInstrV>, crate::ast::CompileErrorV>(
        code,
    ));
    lemma_narrow_store_exec(s, r1, r2, off, 0xffff);
    let a = reg_val(s, treg(r2));
    let v = reg_val(s, treg(r1));
    let ea = (a + off as int) % 0x1_0000_0000;
    let lane = ea % 4;
    let w = mem_at(s, ea - ea % 4);
    let s11 = exec_seq(s, code)->Some_0;
    assert(s11.mem.dom() =~= s.mem.dom().insert(ea - ea % 4));
    assert(lane == 0 || lane == 2) by {
        lemma_even_lane(ea);
    }
    lemma_merge_half_lane(w, v, lane);
}

/// Merging a byte into one lane of a word by mask-clear and
/// shifted insert updates exactly that lane.
proof fn lemma_merge_byte_lane(w: int, v: int, lane: int)
    requires
        u32r(w),
        u32r(v),
        0 <= lane < 4,
    ensures
        ({
            let mask = shl32(0xff, 8 * lane);
            let inv = xor32(mask, 0xffffffff);
            let cleared = and32(w, inv);
            let vb = and32(v, 0xff);
            let shifted = shl32(vb, 8 * lane);
            let nw = or32(cleared, shifted);
            &&& byte_lane(nw, lane) == v % 0x100
            &&& forall|t: int| 0 <= t < 4 && t != lane ==> #[trigger] byte_lane(nw, t) == byte_lane(w, t)
        }),
{
    let mask = shl32(0xff, 8 * lane);
    let inv = xor32(mask, 0xffffffff);
    let cleared = and32(w, inv);
    let vb = and32(v, 0xff);
    let shifted = shl32(vb, 8 * lane);
    let nw = or32(cleared, shifted);
    let wu = w as u32;
    let vu = v as u32;
    assert(w == wu as int && v == vu as int);
    if lane == 0 {
        assert(mask == (0xffu32 << 0u32) as int);
        assert(inv == ((0xffu32 << 0u32) ^ 0xffffffffu32) as int);
        assert(cleared == (wu & ((0xffu32 << 0u32) ^ 0xffffffffu32)) as int);
        assert(vb == (vu & 0xffu32) as int);
        assert(shifted == ((vu & 0xffu32) << 0u32) as int);
        assert(nw == (((wu & ((0xffu32 << 0u32) ^ 0xffffffffu32)) | ((vu & 0xffu32) << 0u32))) as int);
        assert(((((wu & ((0xffu32 << 0u32) ^ 0xffffffffu32)) | ((vu & 0xffu32) << 0u32))) % 0x100) == vu % 0x100 && (((((wu & ((0xffu32 << 0u32) ^ 0xffffffffu32)) | ((vu & 0xffu32) << 0u32))) / 0x100) % 0x100) == ((wu / 0x100) % 0x100) && (((((wu & ((0xffu32 << 0u32) ^ 0xffffffffu32)) | ((vu & 0xffu32) << 0u32))) / 0x10000) % 0x100) == ((wu / 0x10000) % 0x100) && (((((wu & ((0xffu32 << 0u32) ^ 0xffffffffu32)) | ((vu & 0xffu32) << 0u32))) / 0x1000000) % 0x100) == ((wu / 0x1000000) % 0x100)) by (bit_vector);
    }
    if lane == 1 {
        assert(mask == (0xffu32 << 8u32) as int);
        assert(inv == ((0xffu32 << 8u32) ^ 0xffffffffu32) as int);
        assert(cleared == (wu & ((0xffu32 << 8u32) ^ 0xffffffffu32)) as int);
        assert(vb == (vu & 0xffu32) as int);
        assert(shifted == ((vu & 0xffu32) << 8u32) as int);
        assert(nw == (((wu & ((0xffu32 << 8u32) ^ 0xffffffffu32)) | ((vu & 0xffu32) << 8u32))) as int);
        assert((((((wu & ((0xffu32 << 8u32) ^ 0xffffffffu32)) | ((vu & 0xffu32) << 8u32))) / 0x100) % 0x100) == vu % 0x100 && ((((wu & ((0xffu32 << 8u32) ^ 0xffffffffu32)) | ((vu & 0xffu32) << 8u32))) % 0x100) == (wu % 0x100) && (((((wu & ((0xffu32 << 8u32) ^ 0xffffffffu32)) | ((vu & 0xffu32) << 8u32))) / 0x10000) % 0x100) == ((wu / 0x10000) % 0x100) && (((((wu & ((0xffu32 << 8u32) ^ 0xffffffffu32)) | ((vu & 0xffu32) << 8u32))) / 0x1000000) % 0x100) == ((wu / 0x1000000) % 0x100)) by (bit_vector);
    }
    if lane == 2 {
        assert(mask == (0xffu32 << 16u32) as int);
        assert(inv == ((0xffu32 << 16u32) ^ 0xffffffffu32) as int);
        assert(cleared == (wu & ((0xffu32 << 16u32) ^ 0xffffffffu32)) as int);
        assert(vb == (vu & 0xffu32) as int);
        assert(shifted == ((vu & 0xffu32) << 16u32) as int);
        assert(nw == (((wu & ((0xffu32 << 16u32) ^ 0xffffffffu32)) | ((vu & 0xffu32) << 16u32))) as int);
        assert((((((wu & ((0xffu32 << 16u32) ^ 0xffffffffu32)) | ((vu & 0xffu32) << 16u32))) / 0x10000) % 0x100) == vu % 0x100 && ((((wu & ((0xffu32 << 16u32) ^ 0xffffffffu32)) | ((vu & 0xffu32) << 16u32))) % 0x100) == (wu % 0x100) && (((((wu & ((0xffu32 << 16u32) ^ 0xffffffffu32)) | ((vu & 0xffu32) << 16u32))) / 0x100) % 0x100) == ((wu / 0x100) % 0x100) && (((((wu & ((0xffu32 << 16u32) ^ 0xffffffffu32)) | ((vu & 0xffu32) << 16u32))) / 0x1000000) % 0x100) == ((wu / 0x1000000) % 0x100)) by (bit_vector);
    }
    if lane == 3 {
        assert(mask == (0xffu32 << 24u32) as int);
        assert(inv == ((0xffu32 << 24u32) ^ 0xffffffffu32) as int);
        assert(cleared == (wu & ((0xffu32 << 24u32) ^ 0xffffffffu32)) as int);
        assert(vb == (vu & 0xffu32) as int);
        assert(shifted == ((vu & 0xffu32) << 24u32) as int);
        assert(nw == (((wu & ((0xffu32 << 24u32) ^ 0xffffffffu32)) | ((vu & 0xffu32) << 24u32))) as int);
        assert((((((wu & ((0xffu32 << 24u32) ^ 0xffffffffu32)) | ((vu & 0xffu32) << 24u32))) / 0x1000000) % 0x100) == vu % 0x100 && ((((wu & ((0xffu32 << 24u32) ^ 0xffffffffu32)) | ((vu & 0xffu32) << 24u32))) % 0x100) == (wu % 0x100) && (((((wu & ((0xffu32 << 24u32) ^ 0xffffffffu32)) | ((vu & 0xffu32) << 24u32))) / 0x100) % 0x100) == ((wu / 0x100) % 0x100) && (((((wu & ((0xffu32 << 24u32) ^ 0xffffffffu32)) | ((vu & 0xffu32) << 24u32))) / 0x10000) % 0x100) == ((wu / 0x10000) % 0x100)) by (bit_vector);
    }
}

/// Merging a half-word into one lane of a word by mask-clear and
/// shifted insert updates exactly that lane.
proof fn lemma_merge_half_lane(w: int, v: int, lane: int)
    requires
        u32r(w),
        u32r(v),
        lane == 0 || lane == 2,
    ensures
        ({
            let mask = shl32(0xffff, 8 * lane);
            let inv = xor32(mask, 0xffffffff);
            let cleared = and32(w, inv);
            let vb = and32(v, 0xffff);
            let shifted = shl32(vb, 8 * lane);
            let nw = or32(cleared, shifted);
            &&& half_lane(nw, lane) == v % 0x10000
            &&& forall|t: int| 0 <= t < 4 && t != lane && t != lane + 1 ==> #[trigger] byte_lane(nw, t) == byte_lane(w, t)
        }),
{
    let mask = shl32(0xffff, 8 * lane);
    let inv = xor32(mask, 0xffffffff);
    let cleared = and32(w, inv);
    let vb = and32(v, 0xffff);
    let shifted = shl32(vb, 8 * lane);
    let nw = or32(cleared, shifted);
    let wu = w as u32;
    let vu = v as u32;
    assert(w == wu as int && v == vu as int);
    if lane == 0 {
        assert(mask == (0xffffu32 << 0u32) as int);
        assert(inv == ((0xffffu32 << 0u32) ^ 0xffffffffu32) as int);
        assert(cleared == (wu & ((0xffffu32 << 0u32) ^ 0xffffffffu32)) as int);
        assert(vb == (vu & 0xffffu32) as int);
        assert(shifted == ((vu & 0xffffu32) << 0u32) as int);
        assert(nw == (((wu & ((0xffffu32 << 0u32) ^ 0xffffffffu32)) | ((vu & 0xffffu32) << 0u32))) as int);
        assert(((((wu & ((0xffffu32 << 0u32) ^ 0xffffffffu32)) | ((vu & 0xffffu32) << 0u32))) % 0x10000) == vu % 0x10000 && (((((wu & ((0xffffu32 << 0u32) ^ 0xffffffffu32)) | ((vu & 0xffffu32) << 0u32))) / 0x10000) % 0x100) == ((wu / 0x10000) % 0x100) && (((((wu & ((0xffffu32 << 0u32) ^ 0xffffffffu32)) | ((vu & 0xffffu32) << 0u32))) / 0x1000000) % 0x100) == ((wu / 0x1000000) % 0x100)) by (bit_vector);
    }
    if lane == 2 {
        assert(mask == (0xffffu32 << 16u32) as int);
        assert(inv == ((0xffffu32 << 16u32) ^ 0xffffffffu32) as int);
        assert(cleared == (wu & ((0xffffu32 << 16u32) ^ 0xffffffffu32)) as int);
        assert(vb == (vu & 0xffffu32) as int);
        assert(shifted == ((vu & 0xffffu32) << 16u32) as int);
        assert(nw == (((wu & ((0xffffu32 << 16u32) ^ 0xffffffffu32)) | ((vu & 0xffffu32) << 16u32))) as int);
        assert((((((wu & ((0xffffu32 << 16u32) ^ 0xffffffffu32)) | ((vu & 0xffffu32) << 16u32))) / 0x10000) % 0x10000) == vu % 0x10000 && ((((wu & ((0xffffu32 << 16u32) ^ 0xffffffffu32)) | ((vu & 0xffffu32) << 16u32))) % 0x100) == (wu % 0x100) && (((((wu & ((0xffffu32 << 16u32) ^ 0xffffffffu32)) | ((vu & 0xffffu32) << 16u32))) / 0x100) % 0x100) == ((wu / 0x100) % 0x100)) by (bit_vector);
    }
}


proof fn lemma_even_lane(ea: int)
    requires
        ea >= 0,
        ea % 2 == 0,
    ensures
        ea % 4 == 0 || ea % 4 == 2,
{
    let m = ea % 4;
    assert(ea == 4 * (ea / 4) + m) by {
        vstd::arithmetic::div_mod::lemma_fundamental_div_mod(ea, 4);
    }
    assert((4 * (ea / 4) + m) % 2 == m % 2) by (nonlinear_arith);
}


/// Executing the read-modify-write store sequence: the aligned word is
/// rewritten to the mask-merged word, and every mapped register keeps its
/// value.
#[verifier::rlimit(100)]
proof fn lemma_narrow_store_exec(s: TargetState, r1: Register, r2: Register, off: u32, mask: u32)
    requires
        wf(s),
    ensures
        ({
            let code = crate::lower::spec_narrow_store(r1, r2, off, mask);
            let ea = (reg_val(s, treg(r2)) + off as int) % 0x1_0000_0000;
            let lane = ea % 4;
            let w = mem_at(s, ea - ea % 4);
            let nw = or32(
                and32(w, xor32(shl32(mask as int, 8 * lane), 0xffffffff)),
                shl32(and32(reg_val(s, treg(r1)), mask as int), 8 * lane),
            );
            &&& exec_seq(s, code) is Some
            &&& exec_seq(s, code)->Some_0.mem == s.mem.insert(ea - ea % 4, nw)
            &&& u32r(nw)
            &&& u32r(w)
            &&& (forall|n: u8|
                reg_val(exec_seq(s, code)->Some_0, TargetReg::X(n)) == reg_val(s, TargetReg::X(n)))
        }),
{
    let code = crate::lower::spec_narrow_store(r1, r2, off, mask);
    let t0 = code[0];
    let t1 = code[1];
    let t2 = code[2];
    let t3 = code[3];
    let t4 = code[4];
    let t5 = code[5];
    let t6 = code[6];
    let t7 = code[7];
    let t8 = code[8];
    let t9 = code[9];
    let t10 = code[10];
    let a = reg_val(s, treg(r2));
    let v = reg_val(s, treg(r1));
    assert(u32r(a) && u32r(v));
    let ea = (a + off as int) % 0x1_0000_0000;
    assert(step(s, t0) == write_reg(s, TargetReg::Tmp1, ea));
    lemma_write_reg_wf_any(s, TargetReg::Tmp1, ea);
    let s1 = write_reg(s, TargetReg::Tmp1, ea)->Some_0;
    let aligned = and32(ea, 0xfffffffc);
    assert(step(s1, t1) == write_reg(s1, TargetReg::Addr, aligned));
    lemma_write_reg_wf_any(s1, TargetReg::Addr, aligned);
    let s2 = write_reg(s1, TargetReg::Addr, aligned)->Some_0;
    assert(reg_val(s2, TargetReg::Tmp1) == ea);
    let lane = and32(ea, 0x3);
    assert(step(s2, t2) == write_reg(s2, TargetReg::Tmp2, lane));
    lemma_write_reg_wf_any(s2, TargetReg::Tmp2, lane);
    let s3 = write_reg(s2, TargetReg::Tmp2, lane)->Some_0;
    assert(reg_val(s3, TargetReg::Addr) == aligned);
    let w = mem_at(s, aligned);
    assert(mem_at(s3, aligned) == w);
    assert(u32r(w));
    assert(step(s3, t3) == write_reg(s3, TargetReg::Tmp1, w));
    lemma_write_reg_wf_any(s3, TargetReg::Tmp1, w);
    let s4 = write_reg(s3, TargetReg::Tmp1, w)->Some_0;
    assert(lane == ea % 4 && aligned == ea - ea % 4) by {
        assert(forall|x: u32| #[trigger] (x & 0x3) == x % 4) by (bit_vector);
        assert(forall|x: u32| #[trigger] ((x & 0xfffffffc) + (x & 0x3)) == x) by (bit_vector);
        assert(((ea as u32) & 0xfffffffc) + ((ea as u32) & 0x3) == ea);
    }
    assert(0 <= lane < 4);
    assert(8 * lane < 32);
    let mask_sh = shl32(mask as int, 8 * lane);
    assert(reg_val(s4, TargetReg::Tmp2) == lane);
    assert(step(s4, t4) == write_reg(s4, TargetReg::Tmp3, mask_sh));
    lemma_write_reg_wf_any(s4, TargetReg::Tmp3, mask_sh);
    let s5 = write_reg(s4, TargetReg::Tmp3, mask_sh)->Some_0;
    let inv = xor32(mask_sh, 0xffffffff);
    assert(reg_val(s5, TargetReg::Tmp3) == mask_sh);
    assert(step(s5, t5) == write_reg(s5, TargetReg::Tmp3, inv));
    lemma_write_reg_wf_any(s5, TargetReg::Tmp3, inv);
    let s6 = write_reg(s5, TargetReg::Tmp3, inv)->Some_0;
    assert(reg_val(s6, TargetReg::Tmp1) == w);
    let cleared = and32(w, inv);
    assert(step(s6, t6) == write_reg(s6, TargetReg::Tmp1, cleared));
    lemma_write_reg_wf_any(s6, TargetReg::Tmp1, cleared);
    let s7 = write_reg(s6, TargetReg::Tmp1, cleared)->Some_0;
    assert(reg_val(s7, treg(r1)) == v);
    let vb = and32(v, mask as int);
    assert(step(s7, t7) == write_reg(s7, TargetReg::Tmp3, vb));
    lemma_write_reg_wf_any(s7, TargetReg::Tmp3, vb);
    let s8 = write_reg(s7, TargetReg::Tmp3, vb)->Some_0;
    assert(reg_val(s8, TargetReg::Tmp2) == lane);
    assert(reg_val(s8, TargetReg::Tmp3) == vb);
    let shifted = shl32(vb, 8 * lane);
    assert(step(s8, t8) == write_reg(s8, TargetReg::Tmp3, shifted));
    lemma_write_reg_wf_any(s8, TargetReg::Tmp3, shifted);
    let s9 = write_reg(s8, TargetReg::Tmp3, shifted)->Some_0;
    assert(reg_val(s9, TargetReg::Tmp1) == cleared);
    let nw = or32(cleared, shifted);
    assert(step(s9, t9) == write_reg(s9, TargetReg::Tmp1, nw));
    lemma_write_reg_wf_any(s9, TargetReg::Tmp1, nw);
    let s10 = write_reg(s9, TargetReg::Tmp1, nw)->Some_0;
    assert(reg_val(s10, TargetReg::Addr) == aligned);
    assert(reg_val(s10, TargetReg::Tmp1) == nw);
    assert(u32r(nw));
    let s11 = TargetState { regs: s10.regs, mem: s10.mem.insert(aligned, nw) };
    assert(step(s10, t10) == Some(s11));
    lemma_exec_eleven(s, code, s1, s2, s3, s4, s5, s6, s7, s8, s9, s10, s11);
    assert(s10.mem == s.mem);
}

/// Lowering `xori` and executing the emitted code leaves the bitwise
/// combination of the source with the immediate.
pub proof fn lemma_xori_executes(s: TargetState, rd: Register, rs: Register, imm: u32)
    requires
        wf(s),
        rd.spec_value() != 0,
    ensures
        ({
            let code = spec_lower("xori"@, seq![ArgV::Register(rd), ArgV::Register(rs), ArgV::Expression(ExprV::Number(imm as int))]);
            let s2 = exec_seq(s, code->Ok_0);
            &&& code is Ok
            &&& s2 is Some
            &&& reg_val(s2->Some_0, treg(rd)) == xor32(reg_val(s, treg(rs)), imm as int)
            &&& wf(s2->Some_0)
        }),
{
    let args = seq![ArgV::Register(rd), ArgV::Register(rs), ArgV::Expression(ExprV::Number(imm as int))];
    lemma_dispatch_xori(args);
    reveal_strlit("xori");
    assert("xori"@.len() == 4);
    reveal_strlit("xor");
    assert("xor"@.len() == 3);
    assert("xori"@ != "xor"@);
    assert(crate::lower::to_u32(imm as int) == imm) by {
        assert(((imm as i64) as u32) == imm) by (bit_vector);
        assert((imm as int) as i64 == imm as i64);
    }
    assert(crate::lower::spec_rri(args) == Ok::<(Register, Register, u32), crate::ast::CompileErrorV>(
        (rd, rs, imm),
    ));
    let t = TargetInstrV::Binary(crate::target::BinKind::Xor, treg(rd), TargetOp::Reg(treg(rs)), TargetOp::Dec(imm));
    assert(spec_lower("xori"@, args) == Ok::<Seq<TargetInstrV>, crate::ast::CompileErrorV>(seq![t])) by {
        assert(crate::lower::elide(rd, seq![t]) == seq![t]);
    }
    let a = reg_val(s, treg(rs));
    assert(u32r(a));
    let w = xor32(a, imm as int);
    assert(step(s, t) == write_reg(s, treg(rd), w));
    assert(treg(rd) != TargetReg::X(0));
    lemma_write_reg_wf(s, treg(rd), w);
    let s1 = write_reg(s, treg(rd), w)->Some_0;
    assert(seq![t].drop_first() =~= Seq::<TargetInstrV>::empty());
    assert(exec_seq(s1, seq![t].drop_first()) == Some(s1));
    assert(exec_seq(s, seq![t]) == Some(s1));
}

/// Lowering `andi` and executing the emitted code leaves the bitwise
/// combination of the source with the immediate.
pub proof fn lemma_andi_executes(s: TargetState, rd: Register, rs: Register, imm: u32)
    requires
        wf(s),
        rd.spec_value() != 0,
    ensures
        ({
            let code = spec_lower("andi"@, seq![ArgV::Register(rd), ArgV::Register(rs), ArgV::Expression(ExprV::Number(imm as int))]);
            let s2 = exec_seq(s, code->Ok_0);
            &&& code is Ok
            &&& s2 is Some
            &&& reg_val(s2->Some_0, treg(rd)) == and32(reg_val(s, treg(rs)), imm as int)
            &&& wf(s2->Some_0)
        }),
{
    let args = seq![ArgV::Register(rd), ArgV::Register(rs), ArgV::Expression(ExprV::Number(imm as int))];
    lemma_dispatch_andi(args);
    reveal_strlit("andi");
    assert("andi"@.len() == 4);
    reveal_strlit("xor");
    assert("xor"@.len() == 3);
    assert("andi"@ != "xor"@);
    reveal_strlit("xori");
    assert("andi"@[0] != "xori"@[0]);
    assert("andi"@ != "xori"@);
    reveal_strlit("and");
    assert("and"@.len() == 3);
    assert("andi"@ != "and"@);
    assert(crate::lower::to_u32(imm as int) == imm) by {
        assert(((imm as i64) as u32) == imm) by (bit_vector);
        assert((imm as int) as i64 == imm as i64);
    }
    assert(crate::lower::spec_rri(args) == Ok::<(Register, Register, u32), crate::ast::CompileErrorV>(
        (rd, rs, imm),
    ));
    let t = TargetInstrV::Binary(crate::target::BinKind::And, treg(rd), TargetOp::Reg(treg(rs)), TargetOp::Dec(imm));
    assert(spec_lower("andi"@, args) == Ok::<Seq<TargetInstrV>, crate::ast::CompileErrorV>(seq![t])) by {
        assert(crate::lower::elide(rd, seq![t]) == seq![t]);
    }
    let a = reg_val(s, treg(rs));
    assert(u32r(a));
    let w = and32(a, imm as int);
    assert(step(s, t) == write_reg(s, treg(rd), w));
    assert(treg(rd) != TargetReg::X(0));
    lemma_write_reg_wf(s, treg(rd), w);
    let s1 = write_reg(s, treg(rd), w)->Some_0;
    assert(seq![t].drop_first() =~= Seq::<TargetInstrV>::empty());
    assert(exec_seq(s1, seq![t].drop_first()) == Some(s1));
    assert(exec_seq(s, seq![t]) == Some(s1));
}

/// Lowering `ori` and executing the emitted code leaves the bitwise
/// combination of the source with the immediate.
pub proof fn lemma_ori_executes(s: TargetState, rd: Register, rs: Register, imm: u32)
    requires
        wf(s),
        rd.spec_value() != 0,
    ensures
        ({
            let code = spec_lower("ori"@, seq![ArgV::Register(rd), ArgV::Register(rs), ArgV::Expression(ExprV::Number(imm as int))]);
            let s2 = exec_seq(s, code->Ok_0);
            &&& code is Ok
            &&& s2 is Some
            &&& reg_val(s2->Some_0, treg(rd)) == or32(reg_val(s, treg(rs)), imm as int)
            &&& wf(s2->Some_0)
        }),
{
    let args = seq![ArgV::Register(rd), ArgV::Register(rs), ArgV::Expression(ExprV::Number(imm as int))];
    lemma_dispatch_ori(args);
    reveal_strlit("ori");
    assert("ori"@.len() == 3);
    reveal_strlit("xor");
    assert("ori"@[0] != "xor"@[0]);
    assert("ori"@ != "xor"@);
    reveal_strlit("xori");
    assert("xori"@.len() == 4);
    assert("ori"@ != "xori"@);
    reveal_strlit("and");
    assert("ori"@[0] != "and"@[0]);
    assert("ori"@ != "and"@);
    reveal_strlit("andi");
    assert("andi"@.len() == 4);
    assert("ori"@ != "andi"@);
    reveal_strlit("or");
    assert("or"@.len() == 2);
    assert("ori"@ != "or"@);
    assert(crate::lower::to_u32(imm as int) == imm) by {
        assert(((imm as i64) as u32) == imm) by (bit_vector);
        assert((imm as int) as i64 == imm as i64);
    }
    assert(crate::lower::spec_rri(args) == Ok::<(Register, Register, u32), crate::ast::CompileErrorV>(
        (rd, rs, imm),
    ));
    let t = TargetInstrV::Binary(crate::target::BinKind::Or, treg(rd), TargetOp::Reg(treg(rs)), TargetOp::Dec(imm));
    assert(spec_lower("ori"@, args) == Ok::<Seq<TargetInstrV>, crate::ast::CompileErrorV>(seq![t])) by {
        assert(crate::lower::elide(rd, seq![t]) == seq![t]);
    }
    let a = reg_val(s, treg(rs));
    assert(u32r(a));
    let w = or32(a, imm as int);
    assert(step(s, t) == write_reg(s, treg(rd), w));
    assert(treg(rd) != TargetReg::X(0));
    lemma_write_reg_wf(s, treg(rd), w);
    let s1 = write_reg(s, treg(rd), w)->Some_0;
    assert(seq![t].drop_first() =~= Seq::<TargetInstrV>::empty());
    assert(exec_seq(s1, seq![t].drop_first()) == Some(s1));
    assert(exec_seq(s, seq![t]) == Some(s1));
}

} // verus!
