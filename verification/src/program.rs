//! The program assembler: the fixed submachine and preamble templates, the
//! runtime stub source, the large-object layout heuristic, per-statement
//! processing, and the top-level compilation that concatenates everything
//! into the final program text.
use vstd::prelude::*;

use crate::ast::CompileError;
use crate::ast::CompileErrorV;
use crate::ast::ArgV;
use crate::ast::Argument;
use crate::ast::DataObject;
use crate::ast::DataObjectV;
use crate::ast::ExprV;
use crate::ast::Expression;
use crate::ast::Statement;
use crate::ast::StmtV;
use crate::ast::data_objects_view;
use crate::ast::stmts_view;
use crate::data::SymbolTable;
use crate::data::lines_view;
use crate::data::raw_sizes_prefix;
use crate::data::spec_store_data;
use crate::data::store_data_objects;
use crate::data::spec_data_end;
use crate::fuser::replace_dynamic_label_references;
use crate::fuser::spec_fuse;
use crate::lower::process_instruction;
use crate::lower::spec_lower;
use crate::stubs::replace_coprocessor_stubs;
use crate::stubs::spec_replace_coprocessor_stubs;
use crate::subst::spec_subst_stmts;
use crate::subst::substitute_symbols_with_values;
use crate::target::render_all_seq;
use crate::text::dec_seq;
use crate::text::dec_seq_signed;
use crate::text::dec_i64;
use crate::text::dec_u64;
use crate::text::escape_label;
use crate::text::escape_seq;
use crate::text::has_prefix;
use crate::text::quote;
use crate::text::quote_seq;
use crate::text::str_eq;
use crate::text::str_has_prefix;
use crate::Risc;

verus! {

use vstd::string::StringExecFns;

/// The fixed binary/bitwise submachine template.
pub const BINARY_MACHINE: &'static str = r#"
// ================= binary/bitwise instructions =================

machine Binary(latch, function_id) {

    degree 262144;

    function and<0> A, B -> C {
    }

    function or<1> A, B -> C {
    }

    function xor<2> A, B -> C {
    }

    constraints{
        col witness function_id;

        macro is_nonzero(X) { match X { 0 => 0, _ => 1, } };
        macro is_zero(X) { 1 - is_nonzero(X) };

        col fixed latch(i) { is_zero((i % 4) - 3) };
        col fixed FACTOR(i) { 1 << (((i + 1) % 4) * 8) };

        col fixed P_A(i) { i % 256 };
        col fixed P_B(i) { (i >> 8) % 256 };
        col fixed P_operation(i) { (i / (256 * 256)) % 3 };
        col fixed P_C(i) {
            match P_operation(i) {
                0 => P_A(i) & P_B(i),
                1 => P_A(i) | P_B(i),
                2 => P_A(i) ^ P_B(i),
            } & 0xff
        };

        col witness A_byte;
        col witness B_byte;
        col witness C_byte;

        col witness A;
        col witness B;
        col witness C;

        A' = A * (1 - latch) + A_byte * FACTOR;
        B' = B * (1 - latch) + B_byte * FACTOR;
        C' = C * (1 - latch) + C_byte * FACTOR;

        {function_id', A_byte, B_byte, C_byte} in {P_operation, P_A, P_B, P_C};
    }
}
"#;

/// The fixed shift submachine template.
pub const SHIFT_MACHINE: &'static str = r#"
// ================= shift instructions =================

machine Shift(latch, function_id) {
    degree 262144;

    function shl<0> A, B -> C {
    }

    function shr<1> A, B -> C {
    }

    constraints{
        col witness function_id;

        col fixed latch(i) { is_zero((i % 4) - 3) };
        col fixed FACTOR_ROW(i) { (i + 1) % 4 };
        col fixed FACTOR(i) { 1 << (((i + 1) % 4) * 8) };

        col fixed P_A(i) { i % 256 };
        col fixed P_B(i) { (i / 256) % 32 };
        col fixed P_ROW(i) { (i / (256 * 32)) % 4 };
        col fixed P_operation(i) { (i / (256 * 32 * 4)) % 2 };
        col fixed P_C(i) {
            match P_operation(i) {
                0 => (P_A(i) << (P_B(i) + (P_ROW(i) * 8))),
                1 => (P_A(i) << (P_ROW(i) * 8)) >> P_B(i),
            } & 0xffffffff
        };

        col witness A_byte;
        col witness C_part;

        col witness A;
        col witness B;
        col witness C;

        A' = A * (1 - latch) + A_byte * FACTOR;
        (B' - B) * (1 - latch) = 0;
        C' = C * (1 - latch) + C_part;

        // TODO this way, we cannot prove anything that shifts by more than 31 bits.
        {function_id', A_byte, B', FACTOR_ROW, C_part} in {P_operation, P_A, P_B, P_ROW, P_C};
    }
}
"#;



/// The head of the fixed preamble template, before the register
/// declarations.
pub const PREAMBLE_HEAD: &'static str = r#"
    degree 262144;
    reg pc[@pc];
    reg X[<=];
    reg Y[<=];
    reg Z[<=];
    reg tmp1;
    reg tmp2;
    reg tmp3;
"#;

/// The tail of the fixed preamble template: the target's built-in instruction
/// set and memory-consistency constraints.
pub const PREAMBLE_TAIL: &'static str = r#"
    reg addr;

    constraints {
        x0 = 0;
    }

    constraints{
    // ============== iszero check for X =======================
        col witness XInv;
        col witness XIsZero;
        XIsZero = 1 - X * XInv;
        XIsZero * X = 0;
        XIsZero * (1 - XIsZero) = 0;

    // =============== read-write memory =======================
        // Read-write memory. Columns are sorted by m_addr and
        // then by m_step. m_change is 1 if and only if m_addr changes
        // in the next row.
        col witness m_addr;
        col witness m_step;
        col witness m_change;
        col witness m_value;
        // If we have an operation at all (needed because this needs to be a permutation)
        col witness m_op;
        // If the operation is a write operation.
        col witness m_is_write;
        col witness m_is_read;

        // positive numbers (assumed to be much smaller than the field order)
        col fixed POSITIVE(i) { i + 1 };
        col fixed FIRST = [1] + [0]*;
        col fixed LAST(i) { FIRST(i + 1) };
        col fixed STEP(i) { i };

        m_change * (1 - m_change) = 0;

        // if m_change is zero, m_addr has to stay the same.
        (m_addr' - m_addr) * (1 - m_change) = 0;

        // Except for the last row, if m_change is 1, then m_addr has to increase,
        // if it is zero, m_step has to increase.
        (1 - LAST) { m_change * (m_addr' - m_addr) + (1 - m_change) * (m_step' - m_step) } in POSITIVE;

        m_op * (1 - m_op) = 0;
        m_is_write * (1 - m_is_write) = 0;
        m_is_read * (1 - m_is_read) = 0;
        // m_is_write can only be 1 if m_op is 1.
        m_is_write * (1 - m_op) = 0;
        m_is_read * (1 - m_op) = 0;
        m_is_read * m_is_write = 0;


        // If the next line is a read and we stay at the same address, then the
        // value cannot change.
        (1 - m_is_write') * (1 - m_change) * (m_value' - m_value) = 0;

        // If the next line is a read and we have an address change,
        // then the value is zero.
        (1 - m_is_write') * m_change * m_value' = 0;
    }

    // ============== memory instructions ==============

    instr mstore X { { addr, STEP, X } is m_is_write { m_addr, m_step, m_value } }
    instr mload -> X { { addr, STEP, X } is m_is_read { m_addr, m_step, m_value } }

    // ============== control-flow instructions ==============

    instr jump l: label { pc' = l }
    instr load_label l: label -> X { X = l }
    instr jump_dyn X { pc' = X }
    instr jump_and_link_dyn X { pc' = X, x1' = pc + 1 }
    instr call l: label { pc' = l, x1' = pc + 1 }
    // TODO x6 actually stores some relative address, but only part of it.
    instr tail l: label { pc' = l, x6' = l }
    instr ret { pc' = x1 }

    instr branch_if_nonzero X, l: label { pc' = (1 - XIsZero) * l + XIsZero * (pc + 1) }
    instr branch_if_zero X, l: label { pc' = XIsZero * l + (1 - XIsZero) * (pc + 1) }

    // input X is required to be the difference of two 32-bit unsigend values.
    // i.e. -2**32 < X < 2**32
    instr branch_if_positive X, l: label {
        X + 2**32 - 1 = X_b1 + X_b2 * 0x100 + X_b3 * 0x10000 + X_b4 * 0x1000000 + wrap_bit * 2**32,
        pc' = wrap_bit * l + (1 - wrap_bit) * (pc + 1)
    }
    // input X is required to be the difference of two 32-bit unsigend values.
    // i.e. -2**32 < X < 2**32
    instr is_positive X -> Y {
        X + 2**32 - 1 = X_b1 + X_b2 * 0x100 + X_b3 * 0x10000 + X_b4 * 0x1000000 + wrap_bit * 2**32,
        Y = wrap_bit
    }

    // ================= logical instructions =================

    instr is_equal_zero X -> Y { Y = XIsZero }
    instr is_not_equal_zero X -> Y { Y = 1 - XIsZero }

    // ================= coprocessor substitution instructions =================

    instr poseidon Y, Z -> X {
        // Dummy code, to be replaced with actual poseidon code.
        X = 0
    }

    // ================= binary/bitwise instructions =================

    instr and Y, Z -> X = binary.and

    instr or Y, Z -> X = binary.or

    instr xor Y, Z -> X = binary.xor

    // ================= shift instructions =================

    instr shl Y, Z -> X = shift.shl

    instr shr Y, Z -> X = shift.shr

    // ================== wrapping instructions ==============

    // Wraps a value in Y to 32 bits.
    // Requires 0 <= Y < 2**33
    instr wrap Y -> X { Y = X + wrap_bit * 2**32, X = X_b1 + X_b2 * 0x100 + X_b3 * 0x10000 + X_b4 * 0x1000000 }
    // Requires -2**32 <= Y < 2**32
    instr wrap_signed Y -> X { Y + 2**32 = X + wrap_bit * 2**32, X = X_b1 + X_b2 * 0x100 + X_b3 * 0x10000 + X_b4 * 0x1000000 }
    constraints{
        col fixed bytes(i) { i & 0xff };
        col witness X_b1;
        col witness X_b2;
        col witness X_b3;
        col witness X_b4;
        { X_b1 } in { bytes };
        { X_b2 } in { bytes };
        { X_b3 } in { bytes };
        { X_b4 } in { bytes };
        col witness wrap_bit;
        wrap_bit * (1 - wrap_bit) = 0;
    }

    // Input is a 32 bit unsigned number. We check the 7th bit and set all higher bits to that value.
    instr sign_extend_byte Y -> X {
        // wrap_bit is used as sign_bit here.
        Y = Y_7bit + wrap_bit * 0x80 + X_b2 * 0x100 + X_b3 * 0x10000 + X_b4 * 0x1000000,
        X = Y_7bit + wrap_bit * 0xffffff80
    }
    constraints{
        col fixed seven_bit(i) { i & 0x7f };
        col witness Y_7bit;
        { Y_7bit } in { seven_bit };
    }

    // Input is a 32 but unsigned number (0 <= Y < 2**32) interpreted as a two's complement numbers.
    // Returns a signed number (-2**31 <= X < 2**31).
    instr to_signed Y -> X {
        // wrap_bit is used as sign_bit here.
        Y = X_b1 + X_b2 * 0x100 + X_b3 * 0x10000 + Y_7bit * 0x1000000 + wrap_bit * 0x80000000,
        X = Y - wrap_bit * 2**32
    }

    // ======================= assertions =========================

    instr fail { 1 = 0 }

    // Removes up to 16 bits beyond 32
    // TODO is this really safe?
    instr wrap16 Y -> X { Y = Y_b5 * 2**32 + Y_b6 * 2**40 + X, X = X_b1 + X_b2 * 0x100 + X_b3 * 0x10000 + X_b4 * 0x1000000 }
    constraints {
        col witness Y_b5;
        col witness Y_b6;
        col witness Y_b7;
        col witness Y_b8;
        { Y_b5 } in { bytes };
        { Y_b6 } in { bytes };
        { Y_b7 } in { bytes };
        { Y_b8 } in { bytes };

        col witness remainder; 

        col witness REM_b1;
        col witness REM_b2;
        col witness REM_b3;
        col witness REM_b4;
        { REM_b1 } in { bytes };
        { REM_b2 } in { bytes };
        { REM_b3 } in { bytes };
        { REM_b4 } in { bytes };
    }

    // implements Z = Y / X, stores remainder in `remainder`.
    instr divu Y, X -> Z {
        // Y is the known dividend
        // X is the known divisor
        // Z is the unknown quotient
        // main division algorithm;
        // if X is zero, remainder is set to dividend, as per RISC-V specification:
        X * Z + remainder = Y,

        // remainder >= 0:
        remainder = REM_b1 + REM_b2 * 0x100 + REM_b3 * 0x10000 + REM_b4 * 0x1000000,

        // remainder < divisor, conditioned to X not being 0:
        (1 - XIsZero) * (X - remainder - 1 - Y_b5 - Y_b6 * 0x100 - Y_b7 * 0x10000 - Y_b8 * 0x1000000) = 0,

        // in case X is zero, we set quotient according to RISC-V specification
        XIsZero * (Z - 0xffffffff) = 0,

        // quotient is 32 bits:
        Z = X_b1 + X_b2 * 0x100 + X_b3 * 0x10000 + X_b4 * 0x1000000
    }

    // Removes up to 32 bits beyond 32
    // TODO is this really safe?
    instr mul Y, Z -> X {
        Y * Z = X + Y_b5 * 2**32 + Y_b6 * 2**40 + Y_b7 * 2**48 + Y_b8 * 2**56,
        X = X_b1 + X_b2 * 0x100 + X_b3 * 0x10000 + X_b4 * 0x1000000
    }
    // implements (Y * Z) >> 32
    instr mulhu Y, Z -> X {
        Y * Z = X * 2**32 + Y_b5 + Y_b6 * 0x100 + Y_b7 * 0x10000 + Y_b8 * 0x1000000,
        X = X_b1 + X_b2 * 0x100 + X_b3 * 0x10000 + X_b4 * 0x1000000
    }
"#;

/// The runtime stub source: linkage aliases and one real stub body, injected
/// as an extra synthetic input module before reachability pruning.
pub const RUNTIME: &'static str = r#"
.globl __udivdi3@plt
.globl __udivdi3
.set __udivdi3@plt, __udivdi3

.globl memcpy@plt
.globl memcpy
.set memcpy@plt, memcpy

.globl memmove@plt
.globl memmove
.set memmove@plt, memmove

.globl memset@plt
.globl memset
.set memset@plt, memset

.globl memcmp@plt
.globl memcmp
.set memcmp@plt, memcmp

.globl bcmp@plt
.globl bcmp
.set bcmp@plt, bcmp

.globl strlen@plt
.globl strlen
.set strlen@plt, strlen

.globl __rust_alloc
.set __rust_alloc, __rg_alloc

.globl __rust_dealloc
.set __rust_dealloc, __rg_dealloc

.globl __rust_realloc
.set __rust_realloc, __rg_realloc

.globl __rust_alloc_zeroed
.set __rust_alloc_zeroed, __rg_alloc_zeroed

.globl __rust_alloc_error_handler
.set __rust_alloc_error_handler, __rg_oom

.globl poseidon_coprocessor
poseidon_coprocessor:
    ret
"#;

/// Part 1 of the fixed wide-curve arithmetic submachine template.
pub const BLS_ARITH_PART0: &'static str = r#"
// ================= bls_arith instructions =================
// Implements the Arith for BLS12_381 curve.
//
// This code was extracted from: https://github.com/puma314/blspil/blob/main/pil
// and adapted to powdr-pil.

machine BLS12_381(latch, function_id) {

	degree 65536;

	function arith<0> a_0, a_1, a_2, a_3, a_4, a_5,
						a_6, a_7, a_8, a_9, a_10, a_11,
						a_12, a_13, a_14, a_15, a_16, a_17,
						a_18, a_19, a_20, a_21, a_22, a_23,
						b_0, b_1, b_2, b_3, b_4, b_5,
						b_6, b_7, b_8, b_9, b_10, b_11,
						b_12, b_13, b_14, b_15, b_16, b_17,
						b_18, b_19, b_20, b_21, b_22, b_23,
						c_0, c_1, c_2, c_3, c_4, c_5,
						c_6, c_7, c_8, c_9, c_10, c_11,
						c_12, c_13, c_14, c_15, c_16, c_17,
						c_18, c_19, c_20, c_21, c_22, c_23,
						d_0, d_1, d_2, d_3, d_4, d_5,
						d_6, d_7, d_8, d_9, d_10, d_11,
						d_12, d_13, d_14, d_15, d_16, d_17,
						d_18, d_19, d_20, d_21, d_22, d_23,
						e_0, e_1, e_2, e_3, e_4, e_5,
						e_6, e_7, e_8, e_9, e_10, e_11,
						e_12, e_13, e_14, e_15, e_16, e_17,
						e_18, e_19, e_20, e_21, e_22, e_23 -> eq {
	}

	constraints {
		col witness function_id;
		col fixed latch = [1]*;

		/*
			Equations:
			EQ: a * b + c = d * P + e
		*/
		col fixed BYTE2(i) { i & 0xffff };
		// 1 if CLK==0 and 0 if CLK!=0
		col fixed CLK_0 = [1] + [0]*;
		col fixed CLK_1 = [1] + [0]*;
		col fixed CLK_2 = [1] + [0]*;
		col fixed CLK_3 = [1] + [0]*;
		col fixed CLK_4 = [1] + [0]*;
		col fixed CLK_5 = [1] + [0]*;
		col fixed CLK_6 = [1] + [0]*;
		col fixed CLK_7 = [1] + [0]*;
		col fixed CLK_8 = [1] + [0]*;
		col fixed CLK_9 = [1] + [0]*;
		col fixed CLK_10 = [1] + [0]*;
		col fixed CLK_11 = [1] + [0]*;
		col fixed CLK_12 = [1] + [0]*;
		col fixed CLK_13 = [1] + [0]*;
		col fixed CLK_14 = [1] + [0]*;
		col fixed CLK_15 = [1] + [0]*;
		col fixed CLK_16 = [1] + [0]*;
		col fixed CLK_17 = [1] + [0]*;
		col fixed CLK_18 = [1] + [0]*;
		col fixed CLK_19 = [1] + [0]*;
		col fixed CLK_20 = [1] + [0]*;
		col fixed CLK_21 = [1] + [0]*;
		col fixed CLK_22 = [1] + [0]*;
		col fixed CLK_23 = [1] + [0]*;
		col fixed CLK_24 = [1] + [0]*;
		col fixed CLK_25 = [1] + [0]*;
		col fixed CLK_26 = [1] + [0]*;
		col fixed CLK_27 = [1] + [0]*;
		col fixed CLK_28 = [1] + [0]*;
		col fixed CLK_29 = [1] + [0]*;
		col fixed CLK_30 = [1] + [0]*;
		col fixed CLK_31 = [1] + [0]*;
		col fixed CLK_32 = [1] + [0]*;
		col fixed CLK_33 = [1] + [0]*;
		col fixed CLK_34 = [1] + [0]*;
		col fixed CLK_35 = [1] + [0]*;
		col fixed CLK_36 = [1] + [0]*;
		col fixed CLK_37 = [1] + [0]*;
		col fixed CLK_38 = [1] + [0]*;
		col fixed CLK_39 = [1] + [0]*;
		col fixed CLK_40 = [1] + [0]*;
		col fixed CLK_41 = [1] + [0]*;
		col fixed CLK_42 = [1] + [0]*;
		col fixed CLK_43 = [1] + [0]*;
		col fixed CLK_44 = [1] + [0]*;
		col fixed CLK_45 = [1] + [0]*;
		col fixed CLK_46 = [1] + [0]*;
		col fixed CLK_47 = [1] + [0]*;

		/*
		pol commit a[24];
		pol commit b[24];
		pol commit c[24];
		pol commit d[24];
		pol commit e[24];
		*/
		pol commit a_0;
		pol commit a_1;
		pol commit a_2;
		pol commit a_3;
		pol commit a_4;
		pol commit a_5;
		pol commit a_6;
		pol commit a_7;
		pol commit a_8;
		pol commit a_9;
		pol commit a_10;
		pol commit a_11;
		pol commit a_12;
		pol commit a_13;
		pol commit a_14;
		pol commit a_15;
		pol commit a_16;
		pol commit a_17;
		pol commit a_18;
		pol commit a_19;
		pol commit a_20;
		pol commit a_21;
		pol commit a_22;
		pol commit a_23;

		pol commit b_0;
		pol commit b_1;
		pol commit b_2;
		pol commit b_3;
		pol commit b_4;
		pol commit b_5;
		pol commit b_6;
		pol commit b_7;
		pol commit b_8;
		pol commit b_9;
		pol commit b_10;
		pol commit b_11;
		pol commit b_12;
		pol commit b_13;
		pol commit b_14;
		pol commit b_15;
		pol commit b_16;
		pol commit b_17;
		pol commit b_18;
		pol commit b_19;
		pol commit b_20;
		pol commit b_21;
		pol commit b_22;
		pol commit b_23;

		pol commit c_0;
		pol commit c_1;
		pol commit c_2;
		pol commit c_3;
		pol commit c_4;
		pol commit c_5;
		pol commit c_6;
		pol commit c_7;
		pol commit c_8;
		pol commit c_9;
		pol commit c_10;
		pol commit c_11;
		pol commit c_12;
		pol commit c_13;
		pol commit c_14;
		pol commit c_15;
		pol commit c_16;
		pol commit c_17;
		pol commit c_18;
		pol commit c_19;
		pol commit c_20;
		pol commit c_21;
		pol commit c_22;
		pol commit c_23;

		pol commit d_0;
		pol commit d_1;
		pol commit d_2;
		pol commit d_3;
		pol commit d_4;
		pol commit d_5;
		pol commit d_6;
		pol commit d_7;
		pol commit d_8;
		pol commit d_9;
		pol commit d_10;
		pol commit d_11;
		pol commit d_12;
		pol commit d_13;
		pol commit d_14;
		pol commit d_15;
		pol commit d_16;
		pol commit d_17;
		pol commit d_18;
		pol commit d_19;
		pol commit d_20;
		pol commit d_21;
		pol commit d_22;
		pol commit d_23;

		pol commit e_0;
		pol commit e_1;
		pol commit e_2;
		pol commit e_3;
		pol commit e_4;
		pol commit e_5;
		pol commit e_6;
		pol commit e_7;
		pol commit e_8;
		pol commit e_9;
		pol commit e_10;
		pol commit e_11;
		pol commit e_12;
		pol commit e_13;
		pol commit e_14;
		pol commit e_15;
		pol commit e_16;
		pol commit e_17;
		pol commit e_18;
		pol commit e_19;
		pol commit e_20;
		pol commit e_21;
		pol commit e_22;
		pol commit e_23;

		/****
		* LATCH POLS: a,b,c,d,e
		*****/
		a_0' * (1-CLK_47) = a_0 * (1-CLK_47);
		a_1' * (1-CLK_47) = a_1 * (1-CLK_47);
		a_2' * (1-CLK_47) = a_2 * (1-CLK_47);
		a_3' * (1-CLK_47) = a_3 * (1-CLK_47);
		a_4' * (1-CLK_47) = a_4 * (1-CLK_47);
		a_5' * (1-CLK_47) = a_5 * (1-CLK_47);
		a_6' * (1-CLK_47) = a_6 * (1-CLK_47);
		a_7' * (1-CLK_47) = a_7 * (1-CLK_47);
		a_8' * (1-CLK_47) = a_8 * (1-CLK_47);
		a_9' * (1-CLK_47) = a_9 * (1-CLK_47);
		a_10' * (1-CLK_47) = a_10 * (1-CLK_47);
		a_11' * (1-CLK_47) = a_11 * (1-CLK_47);
		a_12' * (1-CLK_47) = a_12 * (1-CLK_47);
		a_13' * (1-CLK_47) = a_13 * (1-CLK_47);
		a_14' * (1-CLK_47) = a_14 * (1-CLK_47);
		a_15' * (1-CLK_47) = a_15 * (1-CLK_47);
		a_16' * (1-CLK_47) = a_16 * (1-CLK_47);
		a_17' * (1-CLK_47) = a_17 * (1-CLK_47);
		a_18' * (1-CLK_47) = a_18 * (1-CLK_47);
		a_19' * (1-CLK_47) = a_19 * (1-CLK_47);
		a_20' * (1-CLK_47) = a_20 * (1-CLK_47);
		a_21' * (1-CLK_47) = a_21 * (1-CLK_47);
		a_22' * (1-CLK_47) = a_22 * (1-CLK_47);
		a_23' * (1-CLK_47) = a_23 * (1-CLK_47);

		b_0' * (1-CLK_47) = b_0 * (1-CLK_47);
		b_1' * (1-CLK_47) = b_1 * (1-CLK_47);
		b_2' * (1-CLK_47) = b_2 * (1-CLK_47);
		b_3' * (1-CLK_47) = b_3 * (1-CLK_47);
		b_4' * (1-CLK_47) = b_4 * (1-CLK_47);
		b_5' * (1-CLK_47) = b_5 * (1-CLK_47);
		b_6' * (1-CLK_47) = b_6 * (1-CLK_47);
		b_7' * (1-CLK_47) = b_7 * (1-CLK_47);
		b_8' * (1-CLK_47) = b_8 * (1-CLK_47);
		b_9' * (1-CLK_47) = b_9 * (1-CLK_47);
		b_10' * (1-CLK_47) = b_10 * (1-CLK_47);
		b_11' * (1-CLK_47) = b_11 * (1-CLK_47);
		b_12' * (1-CLK_47) = b_12 * (1-CLK_47);
		b_13' * (1-CLK_47) = b_13 * (1-CLK_47);
		b_14' * (1-CLK_47) = b_14 * (1-CLK_47);
		b_15' * (1-CLK_47) = b_15 * (1-CLK_47);
		b_16' * (1-CLK_47) = b_16 * (1-CLK_47);
		b_17' * (1-CLK_47) = b_17 * (1-CLK_47);
		b_18' * (1-CLK_47) = b_18"#;

/// Part 2 of the fixed wide-curve arithmetic submachine template.
pub const BLS_ARITH_PART1: &'static str = r#" * (1-CLK_47);
		b_19' * (1-CLK_47) = b_19 * (1-CLK_47);
		b_20' * (1-CLK_47) = b_20 * (1-CLK_47);
		b_21' * (1-CLK_47) = b_21 * (1-CLK_47);
		b_22' * (1-CLK_47) = b_22 * (1-CLK_47);
		b_23' * (1-CLK_47) = b_23 * (1-CLK_47);

		c_0' * (1-CLK_47) = c_0 * (1-CLK_47);
		c_1' * (1-CLK_47) = c_1 * (1-CLK_47);
		c_2' * (1-CLK_47) = c_2 * (1-CLK_47);
		c_3' * (1-CLK_47) = c_3 * (1-CLK_47);
		c_4' * (1-CLK_47) = c_4 * (1-CLK_47);
		c_5' * (1-CLK_47) = c_5 * (1-CLK_47);
		c_6' * (1-CLK_47) = c_6 * (1-CLK_47);
		c_7' * (1-CLK_47) = c_7 * (1-CLK_47);
		c_8' * (1-CLK_47) = c_8 * (1-CLK_47);
		c_9' * (1-CLK_47) = c_9 * (1-CLK_47);
		c_10' * (1-CLK_47) = c_10 * (1-CLK_47);
		c_11' * (1-CLK_47) = c_11 * (1-CLK_47);
		c_12' * (1-CLK_47) = c_12 * (1-CLK_47);
		c_13' * (1-CLK_47) = c_13 * (1-CLK_47);
		c_14' * (1-CLK_47) = c_14 * (1-CLK_47);
		c_15' * (1-CLK_47) = c_15 * (1-CLK_47);
		c_16' * (1-CLK_47) = c_16 * (1-CLK_47);
		c_17' * (1-CLK_47) = c_17 * (1-CLK_47);
		c_18' * (1-CLK_47) = c_18 * (1-CLK_47);
		c_19' * (1-CLK_47) = c_19 * (1-CLK_47);
		c_20' * (1-CLK_47) = c_20 * (1-CLK_47);
		c_21' * (1-CLK_47) = c_21 * (1-CLK_47);
		c_22' * (1-CLK_47) = c_22 * (1-CLK_47);
		c_23' * (1-CLK_47) = c_23 * (1-CLK_47);

		d_0' * (1-CLK_47) = d_0 * (1-CLK_47);
		d_1' * (1-CLK_47) = d_1 * (1-CLK_47);
		d_2' * (1-CLK_47) = d_2 * (1-CLK_47);
		d_3' * (1-CLK_47) = d_3 * (1-CLK_47);
		d_4' * (1-CLK_47) = d_4 * (1-CLK_47);
		d_5' * (1-CLK_47) = d_5 * (1-CLK_47);
		d_6' * (1-CLK_47) = d_6 * (1-CLK_47);
		d_7' * (1-CLK_47) = d_7 * (1-CLK_47);
		d_8' * (1-CLK_47) = d_8 * (1-CLK_47);
		d_9' * (1-CLK_47) = d_9 * (1-CLK_47);
		d_10' * (1-CLK_47) = d_10 * (1-CLK_47);
		d_11' * (1-CLK_47) = d_11 * (1-CLK_47);
		d_12' * (1-CLK_47) = d_12 * (1-CLK_47);
		d_13' * (1-CLK_47) = d_13 * (1-CLK_47);
		d_14' * (1-CLK_47) = d_14 * (1-CLK_47);
		d_15' * (1-CLK_47) = d_15 * (1-CLK_47);
		d_16' * (1-CLK_47) = d_16 * (1-CLK_47);
		d_17' * (1-CLK_47) = d_17 * (1-CLK_47);
		d_18' * (1-CLK_47) = d_18 * (1-CLK_47);
		d_19' * (1-CLK_47) = d_19 * (1-CLK_47);
		d_20' * (1-CLK_47) = d_20 * (1-CLK_47);
		d_21' * (1-CLK_47) = d_21 * (1-CLK_47);
		d_22' * (1-CLK_47) = d_22 * (1-CLK_47);
		d_23' * (1-CLK_47) = d_23 * (1-CLK_47);

		e_0' * (1-CLK_47) = e_0 * (1-CLK_47);
		e_1' * (1-CLK_47) = e_1 * (1-CLK_47);
		e_2' * (1-CLK_47) = e_2 * (1-CLK_47);
		e_3' * (1-CLK_47) = e_3 * (1-CLK_47);
		e_4' * (1-CLK_47) = e_4 * (1-CLK_47);
		e_5' * (1-CLK_47) = e_5 * (1-CLK_47);
		e_6' * (1-CLK_47) = e_6 * (1-CLK_47);
		e_7' * (1-CLK_47) = e_7 * (1-CLK_47);
		e_8' * (1-CLK_47) = e_8 * (1-CLK_47);
		e_9' * (1-CLK_47) = e_9 * (1-CLK_47);
		e_10' * (1-CLK_47) = e_10 * (1-CLK_47);
		e_11' * (1-CLK_47) = e_11 * (1-CLK_47);
		e_12' * (1-CLK_47) = e_12 * (1-CLK_47);
		e_13' * (1-CLK_47) = e_13 * (1-CLK_47);
		e_14' * (1-CLK_47) = e_14 * (1-CLK_47);
		e_15' * (1-CLK_47) = e_15 * (1-CLK_47);
		e_16' * (1-CLK_47) = e_16 * (1-CLK_47);
		e_17' * (1-CLK_47) = e_17 * (1-CLK_47);
		e_18' * (1-CLK_47) = e_18 * (1-CLK_47);
		e_19' * (1-CLK_47) = e_19 * (1-CLK_47);
		e_20' * (1-CLK_47) = e_20 * (1-CLK_47);
		e_21' * (1-CLK_47) = e_21 * (1-CLK_47);
		e_22' * (1-CLK_47) = e_22 * (1-CLK_47);
		e_23' * (1-CLK_47) = e_23 * (1-CLK_47);

		/****
		* RANGE CHECK A,B,C,Q
		*****/
		a_0*CLK_0 + a_1*CLK_1 + a_2*CLK_2 + a_3*CLK_3 + a_4*CLK_4 + a_5*CLK_5 + a_6*CLK_6 + a_7*CLK_7
			+ a_8*CLK_8 + a_9*CLK_9 + a_10*CLK_10 + a_11*CLK_11 + a_12*CLK_12 + a_13*CLK_13 + a_14*CLK_14 + a_15*CLK_15
			+ a_16*CLK_16 + a_17*CLK_17 + a_18*CLK_18 + a_19*CLK_19 + a_20*CLK_20 + a_21*CLK_21 + a_22*CLK_22 + a_23*CLK_23
			+ b_0*CLK_24 + b_1*CLK_25 + b_2*CLK_26 + b_3*CLK_27 + b_4*CLK_28 + b_5*CLK_29 + b_6*CLK_30 + b_7*CLK_31
			+ b_8*CLK_32 + b_9*CLK_33 + b_10*CLK_34 + b_11*CLK_35 + b_12*CLK_36 + b_13*CLK_37 + b_14*CLK_38 + b_15*CLK_39
			+ b_16*CLK_40 + b_17*CLK_41 + b_18*CLK_42 + b_19*CLK_43 + b_20*CLK_44 + b_21*CLK_45 + b_22*CLK_46 + b_23*CLK_47 in BYTE2;
			c_0*CLK_0 + c_1*CLK_1 + c_2*CLK_2 + c_3*CLK_3 + c_4*CLK_4 + c_5*CLK_5 + c_6*CLK_6 + c_7*CLK_7
			+ c_8*CLK_8 + c_9*CLK_9 + c_10*CLK_10 + c_11*CLK_11 + c_12*CLK_12 + c_13*CLK_13 + c_14*CLK_14 + c_15*CLK_15
			+ c_16*CLK_16 + c_17*CLK_17 + c_18*CLK_18 + c_19*CLK_19 + c_20*CLK_20 + c_21*CLK_21 + c_22*CLK_22 + c_23*CLK_23
			+ d_0*CLK_24 + d_1*CLK_25 + d_2*CLK_26 + d_3*CLK_27 + d_4*CLK_28 + d_5*CLK_29 + d_6*CLK_30 + d_7*CLK_31
			+ d_8*CLK_32 + d_9*CLK_33 + d_10*CLK_34 + d_11*CLK_35 + d_12*CLK_36 + d_13*CLK_37 + d_14*CLK_38 + d_15*CLK_39
			+ d_16*CLK_40 + d_17*CLK_41 + d_18*CLK_42 + d_19*CLK_43 + d_20*CLK_44 + d_21*CLK_45 + d_22*CLK_46 + d_23*CLK_47 in BYTE2;
			e_0*CLK_0 + e_1*CLK_1 + e_2*CLK_2 + e_3*CLK_3 + e_4*CLK_4 + e_5*CLK_5 + e_6*CLK_6 + e_7*CLK_7
			+ e_8*CLK_8 + e_9*CLK_9 + e_10*CLK_10 + e_11*CLK_11 + e_12*CLK_12 + e_13*CLK_13 + e_14*CLK_14 + e_15*CLK_15
			+ e_16*CLK_16 + e_17*CLK_17 + e_18*CLK_18 + e_19*CLK_19 + e_20*CLK_20 + e_21*CLK_21 + e_22*CLK_22 + e_23*CLK_23 in BYTE2;

		/*******
		* EQ: A * B + C = D * P + E
		*******/
		/*
		pol eq_0 =
			(a[0] * b[0] - 43691 * d[0])
			+ c[0] - e[0];
		*/
		col witness eq_0;
		col witness eq_1;
		col witness eq_2;
		col witness eq_3;
		col witness eq_4;
		col witness eq_5;
		col witness eq_6;
		col witness eq_7;
		col witness eq_8;
		col witness eq_9;
		col witness eq_10;
		col witness eq_11;
		col witness eq_12;
		col witness eq_13;
		col witness eq_14;
		col witness eq_15;
		col witness eq_16;
		col witness eq_17;
		col witness eq_18;
		col witness eq_19;
		col witness eq_20;
		col witness eq_21;
		col witness eq_22;
		col witness eq_23;
		col witness eq_24;
		col witness eq_25;
		col witness eq_26;
		col witness eq_27;
		col witness eq_28;
		col witness eq_29;
		col witness eq_30;
		col witness eq_31;
		col witness eq_32;
		col witness eq_33;
		col witness eq_34;
		col witness eq_35;
		col witness eq_36;
		col witness eq_37;
		col witness eq_38;
		col witness eq_39;
		col witness eq_40;
		col witness eq_41;
		col witness eq_42;
		col witness eq_43;
		col witness eq_44;
		col witness eq_45;
		col witness eq_46;
		col witness eq_47;

		eq_0 =
			(a_0 * b_0 - 43691 * d_0)
			+ c_0 - e_0;

		eq_1 =
			(a_0 * b_1 - 43691 * d_1) +
			(a_1 * b_0 - 65535 * d_0)
			+ c_1 - e_1;
		eq_2 =
			(a_0 * b_2 - 43691 * d_2) +
			(a_1 * b_1 - 65535 * d_1) +
			(a_2 * b_0 - 65535 * d_0)
			+ c_2 - e_2;
		eq_3 =
			(a_0 * b_3 - 43691 * d_3) +
			(a_1 * b_2 - 65535 * d_2) +
			(a_2 * b_1 - 65535 * d_1) +
			(a_3 * b_0 - 47614 * d_0)
			+ c_3 - e_3;
		eq_4 =
			(a_0 * b_4 - 43691 * d_4) +
			(a_1 * b_3 - 65535 * d_3) +
			(a_2 * b_2 - 65535 * d_2) +
			(a_3 * b_1 - 47614 * d_1) +
			(a_4 * b_0 - 65535 * d_0)
			+ c_4 - e_4;
		eq_5 =
			(a_0 * b_5 - 43691 * d_5) +
			(a_1 * b_4 - 65535 * d_4) +
			(a_2 * b_3 - 65535 * d_3) +
			(a_3 * b_2 - 47614 * d_2) +
			(a_4 * b_1 - 65535 * d_1) +
			(a_5 * b_0 - 45395 * d_0)
			+ c_5 - e_5;
		eq_6 =
			(a_0 * b_6 - 43691 * d_6) +
			(a_1 * b_5 - 65535 * d_5) +
			(a_2 * b_4 - 65535 * d_4) +
			(a_3 * b_3 - 47614 * d_3) +
			(a_4 * b_2 - 65535 * d_2) +
			(a_5 * b_1 - 453"#;

/// Part 3 of the fixed wide-curve arithmetic submachine template.
pub const BLS_ARITH_PART2: &'static str = r#"95 * d_1) +
			(a_6 * b_0 - 65534 * d_0)
			+ c_6 - e_6;
		eq_7 =
			(a_0 * b_7 - 43691 * d_7) +
			(a_1 * b_6 - 65535 * d_6) +
			(a_2 * b_5 - 65535 * d_5) +
			(a_3 * b_4 - 47614 * d_4) +
			(a_4 * b_3 - 65535 * d_3) +
			(a_5 * b_2 - 45395 * d_2) +
			(a_6 * b_1 - 65534 * d_1) +
			(a_7 * b_0 - 7851 * d_0)
			+ c_7 - e_7;
		eq_8 =
			(a_0 * b_8 - 43691 * d_8) +
			(a_1 * b_7 - 65535 * d_7) +
			(a_2 * b_6 - 65535 * d_6) +
			(a_3 * b_5 - 47614 * d_5) +
			(a_4 * b_4 - 65535 * d_4) +
			(a_5 * b_3 - 45395 * d_3) +
			(a_6 * b_2 - 65534 * d_2) +
			(a_7 * b_1 - 7851 * d_1) +
			(a_8 * b_0 - 63012 * d_0)
			+ c_8 - e_8;
		eq_9 =
			(a_0 * b_9 - 43691 * d_9) +
			(a_1 * b_8 - 65535 * d_8) +
			(a_2 * b_7 - 65535 * d_7) +
			(a_3 * b_6 - 47614 * d_6) +
			(a_4 * b_5 - 65535 * d_5) +
			(a_5 * b_4 - 45395 * d_4) +
			(a_6 * b_3 - 65534 * d_3) +
			(a_7 * b_2 - 7851 * d_2) +
			(a_8 * b_1 - 63012 * d_1) +
			(a_9 * b_0 - 63152 * d_0)
			+ c_9 - e_9;
		eq_10 =
			(a_0 * b_10 - 43691 * d_10) +
			(a_1 * b_9 - 65535 * d_9) +
			(a_2 * b_8 - 65535 * d_8) +
			(a_3 * b_7 - 47614 * d_7) +
			(a_4 * b_6 - 65535 * d_6) +
			(a_5 * b_5 - 45395 * d_5) +
			(a_6 * b_4 - 65534 * d_4) +
			(a_7 * b_3 - 7851 * d_3) +
			(a_8 * b_2 - 63012 * d_2) +
			(a_9 * b_1 - 63152 * d_1) +
			(a_10 * b_0 - 53920 * d_0)
			+ c_10 - e_10;
		eq_11 =
			(a_0 * b_11 - 43691 * d_11) +
			(a_1 * b_10 - 65535 * d_10) +
			(a_2 * b_9 - 65535 * d_9) +
			(a_3 * b_8 - 47614 * d_8) +
			(a_4 * b_7 - 65535 * d_7) +
			(a_5 * b_6 - 45395 * d_6) +
			(a_6 * b_5 - 65534 * d_5) +
			(a_7 * b_4 - 7851 * d_4) +
			(a_8 * b_3 - 63012 * d_3) +
			(a_9 * b_2 - 63152 * d_2) +
			(a_10 * b_1 - 53920 * d_1) +
			(a_11 * b_0 - 26416 * d_0)
			+ c_11 - e_11;
		eq_12 =
			(a_0 * b_12 - 43691 * d_12) +
			(a_1 * b_11 - 65535 * d_11) +
			(a_2 * b_10 - 65535 * d_10) +
			(a_3 * b_9 - 47614 * d_9) +
			(a_4 * b_8 - 65535 * d_8) +
			(a_5 * b_7 - 45395 * d_7) +
			(a_6 * b_6 - 65534 * d_6) +
			(a_7 * b_5 - 7851 * d_5) +
			(a_8 * b_4 - 63012 * d_4) +
			(a_9 * b_3 - 63152 * d_3) +
			(a_10 * b_2 - 53920 * d_2) +
			(a_11 * b_1 - 26416 * d_1) +
			(a_12 * b_0 - 4799 * d_0)
			+ c_12 - e_12;
		eq_13 =
			(a_0 * b_13 - 43691 * d_13) +
			(a_1 * b_12 - 65535 * d_12) +
			(a_2 * b_11 - 65535 * d_11) +
			(a_3 * b_10 - 47614 * d_10) +
			(a_4 * b_9 - 65535 * d_9) +
			(a_5 * b_8 - 45395 * d_8) +
			(a_6 * b_7 - 65534 * d_7) +
			(a_7 * b_6 - 7851 * d_6) +
			(a_8 * b_5 - 63012 * d_5) +
			(a_9 * b_4 - 63152 * d_4) +
			(a_10 * b_3 - 53920 * d_3) +
			(a_11 * b_2 - 26416 * d_2) +
			(a_12 * b_1 - 4799 * d_1) +
			(a_13 * b_0 - 62341 * d_0)
			+ c_13 - e_13;
		eq_14 =
			(a_0 * b_14 - 43691 * d_14) +
			(a_1 * b_13 - 65535 * d_13) +
			(a_2 * b_12 - 65535 * d_12) +
			(a_3 * b_11 - 47614 * d_11) +
			(a_4 * b_10 - 65535 * d_10) +
			(a_5 * b_9 - 45395 * d_9) +
			(a_6 * b_8 - 65534 * d_8) +
			(a_7 * b_7 - 7851 * d_7) +
			(a_8 * b_6 - 63012 * d_6) +
			(a_9 * b_5 - 63152 * d_5) +
			(a_10 * b_4 - 53920 * d_4) +
			(a_11 * b_3 - 26416 * d_3) +
			(a_12 * b_2 - 4799 * d_2) +
			(a_13 * b_1 - 62341 * d_1) +
			(a_14 * b_0 - 19332 * d_0)
			+ c_14 - e_14;
		eq_15 =
			(a_0 * b_15 - 43691 * d_15) +
			(a_1 * b_14 - 65535 * d_14) +
			(a_2 * b_13 - 65535 * d_13) +
			(a_3 * b_12 - 47614 * d_12) +
			(a_4 * b_11 - 65535 * d_11) +
			(a_5 * b_10 - 45395 * d_10) +
			(a_6 * b_9 - 65534 * d_9) +
			(a_7 * b_8 - 7851 * d_8) +
			(a_8 * b_7 - 63012 * d_7) +
			(a_9 * b_6 - 63152 * d_6) +
			(a_10 * b_5 - 53920 * d_5) +
			(a_11 * b_4 - 26416 * d_4) +
			(a_12 * b_3 - 4799 * d_3) +
			(a_13 * b_2 - 62341 * d_2) +
			(a_14 * b_1 - 19332 * d_1) +
			(a_15 * b_0 - 25719 * d_0)
			+ c_15 - e_15;
		eq_16 =
			(a_0 * b_16 - 43691 * d_16) +
			(a_1 * b_15 - 65535 * d_15) +
			(a_2 * b_14 - 65535 * d_14) +
			(a_3 * b_13 - 47614 * d_13) +
			(a_4 * b_12 - 65535 * d_12) +
			(a_5 * b_11 - 45395 * d_11) +
			(a_6 * b_10 - 65534 * d_10) +
			(a_7 * b_9 - 7851 * d_9) +
			(a_8 * b_8 - 63012 * d_8) +
			(a_9 * b_7 - 63152 * d_7) +
			(a_10 * b_6 - 53920 * d_6) +
			(a_11 * b_5 - 26416 * d_5) +
			(a_12 * b_4 - 4799 * d_4) +
			(a_13 * b_3 - 62341 * d_3) +
			(a_14 * b_2 - 19332 * d_2) +
			(a_15 * b_1 - 25719 * d_1) +
			(a_16 * b_0 - 44247 * d_0)
			+ c_16 - e_16;
		eq_17 =
			(a_0 * b_17 - 43691 * d_17) +
			(a_1 * b_16 - 65535 * d_16) +
			(a_2 * b_15 - 65535 * d_15) +
			(a_3 * b_14 - 47614 * d_14) +
			(a_4 * b_13 - 65535 * d_13) +
			(a_5 * b_12 - 45395 * d_12) +
			(a_6 * b_11 - 65534 * d_11) +
			(a_7 * b_10 - 7851 * d_10) +
			(a_8 * b_9 - 63012 * d_9) +
			(a_9 * b_8 - 63152 * d_8) +
			(a_10 * b_7 - 53920 * d_7) +
			(a_11 * b_6 - 26416 * d_6) +
			(a_12 * b_5 - 4799 * d_5) +
			(a_13 * b_4 - 62341 * d_4) +
			(a_14 * b_3 - 19332 * d_3) +
			(a_15 * b_2 - 25719 * d_2) +
			(a_16 * b_1 - 44247 * d_1) +
			(a_17 * b_0 - 17227 * d_0)
			+ c_17 - e_17;
		eq_18 =
			(a_0 * b_18 - 43691 * d_18) +
			(a_1 * b_17 - 65535 * d_17) +
			(a_2 * b_16 - 65535 * d_16) +
			(a_3 * b_15 - 47614 * d_15) +
			(a_4 * b_14 - 65535 * d_14) +
			(a_5 * b_13 - 45395 * d_13) +
			(a_6 * b_12 - 65534 * d_12) +
			(a_7 * b_11 - 7851 * d_11) +
			(a_8 * b_10 - 63012 * d_10) +
			(a_9 * b_9 - 63152 * d_9) +
			(a_10 * b_8 - 53920 * d_8) +
			(a_11 * b_7 - 26416 * d_7) +
			(a_12 * b_6 - 4799 * d_6) +
			(a_13 * b_5 - 62341 * d_5) +
			(a_14 * b_4 - 19332 * d_4) +
			(a_15 * b_3 - 25719 * d_3) +
			(a_16 * b_2 - 44247 * d_2) +
			(a_17 * b_1 - 17227 * d_1) +
			(a_18 * b_0 - 42934 * d_0)
			+ c_18 - e_18;
		eq_19 =
			(a_0 * b_19 - 43691 * d_19) +
			(a_1 * b_18 - 65535 * d_18) +
			(a_2 * b_17 - 65535 * d_17) +
			(a_3 * b_16 - 47614 * d_16) +
			(a_4 * b_15 - 65535 * d_15) +
			(a_5 * b_14 - 45395 * d_14) +
			(a_6 * b_13 - 65534 * d_13) +
			(a_7 * b_12 - 7851 * d_12) +
			(a_8 * b_11 - 63012 * d_11) +
			(a_9 * b_10 - 63152 * d_10) +
			(a_10 * b_9 - 53920 * d_9) +
			(a_11 * b_8 - 26416 * d_8) +
			(a_12 * b_7 - 4799 * d_7) +
			(a_13 * b_6 - 62341 * d_6) +
			(a_14 * b_5 - 19332 * d_5) +
			(a_15 * b_4 - 25719 * d_4) +
			(a_16 * b_3 - 44247 * d_3) +
			(a_17 * b_2 - 17227 * d_2) +
			(a_18 * b_1 - 42934 * d_1) +
			(a_19 * b_0 - 19227 * d_0)
			+ c_19 - e_19;
		eq_20 =
			(a_0 * b_20 - 43691 * d_20) +
			(a_1 * b_19 - 65535 * d_19) +
			(a_2 * b_18 - 65535 * d_18) +
			(a_3 * b_17 - 47614 * d_17) +
			(a_4 * b_16 - 65535 * d_16) +
			(a_5 * b_15 - 45395 * d_15) +
			(a_6 * b_14 - 65534 * d_14) +
			(a_7 * b_13 - 7851 * d_13) +
			(a_8 * b_12 - 63012 * d_12) +
			(a_9 * b_11 - 63152 * d_11) +
			(a_10 * b_10 - 53920 * d_10) +
			(a_11 * b_9 - 26416 * d_9) +
			(a_12 * b_8 - 4799 * d_8) +
			(a_13 * b_7 - 62341 * d_7) +
			(a_14 * b_6 - 19332 * d_6) +
			(a_15 * b_5 - 25719 * d_5) +
			(a_16 * b_4 - 44247 * d_4) +
			(a_17 * b_3 - 17227 * d_3) +
			(a_18 * b_2 - 42934 * d_2) +
			(a_19 * b_1 - 19227 * d_1) +
			(a_20 * b_0 - 59034 * d_0)
			+ c_20 - e_20;
		eq_21 =
			(a_0 * b_21 - 43691 * d_21) +
			(a_1 * b_20 - 65535 * d_20) +
			(a_2 * b_19 - 65535 * d_19) +
			(a_3 * b"#;

/// Part 4 of the fixed wide-curve arithmetic submachine template.
pub const BLS_ARITH_PART3: &'static str = r#"_18 - 47614 * d_18) +
			(a_4 * b_17 - 65535 * d_17) +
			(a_5 * b_16 - 45395 * d_16) +
			(a_6 * b_15 - 65534 * d_15) +
			(a_7 * b_14 - 7851 * d_14) +
			(a_8 * b_13 - 63012 * d_13) +
			(a_9 * b_12 - 63152 * d_12) +
			(a_10 * b_11 - 53920 * d_11) +
			(a_11 * b_10 - 26416 * d_10) +
			(a_12 * b_9 - 4799 * d_9) +
			(a_13 * b_8 - 62341 * d_8) +
			(a_14 * b_7 - 19332 * d_7) +
			(a_15 * b_6 - 25719 * d_6) +
			(a_16 * b_5 - 44247 * d_5) +
			(a_17 * b_4 - 17227 * d_4) +
			(a_18 * b_3 - 42934 * d_3) +
			(a_19 * b_2 - 19227 * d_2) +
			(a_20 * b_1 - 59034 * d_1) +
			(a_21 * b_0 - 14719 * d_0)
			+ c_21 - e_21;
		eq_22 =
			(a_0 * b_22 - 43691 * d_22) +
			(a_1 * b_21 - 65535 * d_21) +
			(a_2 * b_20 - 65535 * d_20) +
			(a_3 * b_19 - 47614 * d_19) +
			(a_4 * b_18 - 65535 * d_18) +
			(a_5 * b_17 - 45395 * d_17) +
			(a_6 * b_16 - 65534 * d_16) +
			(a_7 * b_15 - 7851 * d_15) +
			(a_8 * b_14 - 63012 * d_14) +
			(a_9 * b_13 - 63152 * d_13) +
			(a_10 * b_12 - 53920 * d_12) +
			(a_11 * b_11 - 26416 * d_11) +
			(a_12 * b_10 - 4799 * d_10) +
			(a_13 * b_9 - 62341 * d_9) +
			(a_14 * b_8 - 19332 * d_8) +
			(a_15 * b_7 - 25719 * d_7) +
			(a_16 * b_6 - 44247 * d_6) +
			(a_17 * b_5 - 17227 * d_5) +
			(a_18 * b_4 - 42934 * d_4) +
			(a_19 * b_3 - 19227 * d_3) +
			(a_20 * b_2 - 59034 * d_2) +
			(a_21 * b_1 - 14719 * d_1) +
			(a_22 * b_0 - 4586 * d_0)
			+ c_22 - e_22;
		eq_23 =
			(a_0 * b_23 - 43691 * d_23) +
			(a_1 * b_22 - 65535 * d_22) +
			(a_2 * b_21 - 65535 * d_21) +
			(a_3 * b_20 - 47614 * d_20) +
			(a_4 * b_19 - 65535 * d_19) +
			(a_5 * b_18 - 45395 * d_18) +
			(a_6 * b_17 - 65534 * d_17) +
			(a_7 * b_16 - 7851 * d_16) +
			(a_8 * b_15 - 63012 * d_15) +
			(a_9 * b_14 - 63152 * d_14) +
			(a_10 * b_13 - 53920 * d_13) +
			(a_11 * b_12 - 26416 * d_12) +
			(a_12 * b_11 - 4799 * d_11) +
			(a_13 * b_10 - 62341 * d_10) +
			(a_14 * b_9 - 19332 * d_9) +
			(a_15 * b_8 - 25719 * d_8) +
			(a_16 * b_7 - 44247 * d_7) +
			(a_17 * b_6 - 17227 * d_6) +
			(a_18 * b_5 - 42934 * d_5) +
			(a_19 * b_4 - 19227 * d_4) +
			(a_20 * b_3 - 59034 * d_3) +
			(a_21 * b_2 - 14719 * d_2) +
			(a_22 * b_1 - 4586 * d_1) +
			(a_23 * b_0 - 6657 * d_0)
			+ c_23 - e_23;
		eq_24 =
			(a_1 * b_23 - 65535 * d_23) +
			(a_2 * b_22 - 65535 * d_22) +
			(a_3 * b_21 - 47614 * d_21) +
			(a_4 * b_20 - 65535 * d_20) +
			(a_5 * b_19 - 45395 * d_19) +
			(a_6 * b_18 - 65534 * d_18) +
			(a_7 * b_17 - 7851 * d_17) +
			(a_8 * b_16 - 63012 * d_16) +
			(a_9 * b_15 - 63152 * d_15) +
			(a_10 * b_14 - 53920 * d_14) +
			(a_11 * b_13 - 26416 * d_13) +
			(a_12 * b_12 - 4799 * d_12) +
			(a_13 * b_11 - 62341 * d_11) +
			(a_14 * b_10 - 19332 * d_10) +
			(a_15 * b_9 - 25719 * d_9) +
			(a_16 * b_8 - 44247 * d_8) +
			(a_17 * b_7 - 17227 * d_7) +
			(a_18 * b_6 - 42934 * d_6) +
			(a_19 * b_5 - 19227 * d_5) +
			(a_20 * b_4 - 59034 * d_4) +
			(a_21 * b_3 - 14719 * d_3) +
			(a_22 * b_2 - 4586 * d_2) +
			(a_23 * b_1 - 6657 * d_1);
		eq_25 =
			(a_2 * b_23 - 65535 * d_23) +
			(a_3 * b_22 - 47614 * d_22) +
			(a_4 * b_21 - 65535 * d_21) +
			(a_5 * b_20 - 45395 * d_20) +
			(a_6 * b_19 - 65534 * d_19) +
			(a_7 * b_18 - 7851 * d_18) +
			(a_8 * b_17 - 63012 * d_17) +
			(a_9 * b_16 - 63152 * d_16) +
			(a_10 * b_15 - 53920 * d_15) +
			(a_11 * b_14 - 26416 * d_14) +
			(a_12 * b_13 - 4799 * d_13) +
			(a_13 * b_12 - 62341 * d_12) +
			(a_14 * b_11 - 19332 * d_11) +
			(a_15 * b_10 - 25719 * d_10) +
			(a_16 * b_9 - 44247 * d_9) +
			(a_17 * b_8 - 17227 * d_8) +
			(a_18 * b_7 - 42934 * d_7) +
			(a_19 * b_6 - 19227 * d_6) +
			(a_20 * b_5 - 59034 * d_5) +
			(a_21 * b_4 - 14719 * d_4) +
			(a_22 * b_3 - 4586 * d_3) +
			(a_23 * b_2 - 6657 * d_2);
		eq_26 =
			(a_3 * b_23 - 47614 * d_23) +
			(a_4 * b_22 - 65535 * d_22) +
			(a_5 * b_21 - 45395 * d_21) +
			(a_6 * b_20 - 65534 * d_20) +
			(a_7 * b_19 - 7851 * d_19) +
			(a_8 * b_18 - 63012 * d_18) +
			(a_9 * b_17 - 63152 * d_17) +
			(a_10 * b_16 - 53920 * d_16) +
			(a_11 * b_15 - 26416 * d_15) +
			(a_12 * b_14 - 4799 * d_14) +
			(a_13 * b_13 - 62341 * d_13) +
			(a_14 * b_12 - 19332 * d_12) +
			(a_15 * b_11 - 25719 * d_11) +
			(a_16 * b_10 - 44247 * d_10) +
			(a_17 * b_9 - 17227 * d_9) +
			(a_18 * b_8 - 42934 * d_8) +
			(a_19 * b_7 - 19227 * d_7) +
			(a_20 * b_6 - 59034 * d_6) +
			(a_21 * b_5 - 14719 * d_5) +
			(a_22 * b_4 - 4586 * d_4) +
			(a_23 * b_3 - 6657 * d_3);
		eq_27 =
			(a_4 * b_23 - 65535 * d_23) +
			(a_5 * b_22 - 45395 * d_22) +
			(a_6 * b_21 - 65534 * d_21) +
			(a_7 * b_20 - 7851 * d_20) +
			(a_8 * b_19 - 63012 * d_19) +
			(a_9 * b_18 - 63152 * d_18) +
			(a_10 * b_17 - 53920 * d_17) +
			(a_11 * b_16 - 26416 * d_16) +
			(a_12 * b_15 - 4799 * d_15) +
			(a_13 * b_14 - 62341 * d_14) +
			(a_14 * b_13 - 19332 * d_13) +
			(a_15 * b_12 - 25719 * d_12) +
			(a_16 * b_11 - 44247 * d_11) +
			(a_17 * b_10 - 17227 * d_10) +
			(a_18 * b_9 - 42934 * d_9) +
			(a_19 * b_8 - 19227 * d_8) +
			(a_20 * b_7 - 59034 * d_7) +
			(a_21 * b_6 - 14719 * d_6) +
			(a_22 * b_5 - 4586 * d_5) +
			(a_23 * b_4 - 6657 * d_4);
		eq_28 =
			(a_5 * b_23 - 45395 * d_23) +
			(a_6 * b_22 - 65534 * d_22) +
			(a_7 * b_21 - 7851 * d_21) +
			(a_8 * b_20 - 63012 * d_20) +
			(a_9 * b_19 - 63152 * d_19) +
			(a_10 * b_18 - 53920 * d_18) +
			(a_11 * b_17 - 26416 * d_17) +
			(a_12 * b_16 - 4799 * d_16) +
			(a_13 * b_15 - 62341 * d_15) +
			(a_14 * b_14 - 19332 * d_14) +
			(a_15 * b_13 - 25719 * d_13) +
			(a_16 * b_12 - 44247 * d_12) +
			(a_17 * b_11 - 17227 * d_11) +
			(a_18 * b_10 - 42934 * d_10) +
			(a_19 * b_9 - 19227 * d_9) +
			(a_20 * b_8 - 59034 * d_8) +
			(a_21 * b_7 - 14719 * d_7) +
			(a_22 * b_6 - 4586 * d_6) +
			(a_23 * b_5 - 6657 * d_5);
		eq_29 =
			(a_6 * b_23 - 65534 * d_23) +
			(a_7 * b_22 - 7851 * d_22) +
			(a_8 * b_21 - 63012 * d_21) +
			(a_9 * b_20 - 63152 * d_20) +
			(a_10 * b_19 - 53920 * d_19) +
			(a_11 * b_18 - 26416 * d_18) +
			(a_12 * b_17 - 4799 * d_17) +
			(a_13 * b_16 - 62341 * d_16) +
			(a_14 * b_15 - 19332 * d_15) +
			(a_15 * b_14 - 25719 * d_14) +
			(a_16 * b_13 - 44247 * d_13) +
			(a_17 * b_12 - 17227 * d_12) +
			(a_18 * b_11 - 42934 * d_11) +
			(a_19 * b_10 - 19227 * d_10) +
			(a_20 * b_9 - 59034 * d_9) +
			(a_21 * b_8 - 14719 * d_8) +
			(a_22 * b_7 - 4586 * d_7) +
			(a_23 * b_6 - 6657 * d_6);
		eq_30 =
			(a_7 * b_23 - 7851 * d_23) +
			(a_8 * b_22 - 63012 * d_22) +
			(a_9 * b_21 - 63152 * d_21) +
			(a_10 * b_20 - 53920 * d_20) +
			(a_11 * b_19 - 26416 * d_19) +
			(a_12 * b_18 - 4799 * d_18) +
			(a_13 * b_17 - 62341 * d_17) +
			(a_14 * b_16 - 19332 * d_16) +
			(a_15 * b_15 - 25719 * d_15) +
			(a_16 * b_14 - 44247 * d_14) +
			(a_17 * b_13 - 17227 * d_13) +
			(a_18 * b_12 - 42934 * d_12) +
			(a_19 * b_11 - 19227 * d_11) +
			(a_20 * b_10 - 59034 * d_10) +
			(a_21 * b_9 - 14719 * d_9) +
			(a_22 * b_8 - 4586 * d_8) +
			(a_23 * b_7 - 6657 * d_7);
		eq_31 =
			(a_8 * b_23 - 63012 * d_23) +
			(a_9 * b_22 - 63152 * d_22) +
			(a_10 * b_21 - 53920 * d_21) +
			(a_11 * b_20 "#;

/// Part 5 of the fixed wide-curve arithmetic submachine template.
pub const BLS_ARITH_PART4: &'static str = r#"- 26416 * d_20) +
			(a_12 * b_19 - 4799 * d_19) +
			(a_13 * b_18 - 62341 * d_18) +
			(a_14 * b_17 - 19332 * d_17) +
			(a_15 * b_16 - 25719 * d_16) +
			(a_16 * b_15 - 44247 * d_15) +
			(a_17 * b_14 - 17227 * d_14) +
			(a_18 * b_13 - 42934 * d_13) +
			(a_19 * b_12 - 19227 * d_12) +
			(a_20 * b_11 - 59034 * d_11) +
			(a_21 * b_10 - 14719 * d_10) +
			(a_22 * b_9 - 4586 * d_9) +
			(a_23 * b_8 - 6657 * d_8);
		eq_32 =
			(a_9 * b_23 - 63152 * d_23) +
			(a_10 * b_22 - 53920 * d_22) +
			(a_11 * b_21 - 26416 * d_21) +
			(a_12 * b_20 - 4799 * d_20) +
			(a_13 * b_19 - 62341 * d_19) +
			(a_14 * b_18 - 19332 * d_18) +
			(a_15 * b_17 - 25719 * d_17) +
			(a_16 * b_16 - 44247 * d_16) +
			(a_17 * b_15 - 17227 * d_15) +
			(a_18 * b_14 - 42934 * d_14) +
			(a_19 * b_13 - 19227 * d_13) +
			(a_20 * b_12 - 59034 * d_12) +
			(a_21 * b_11 - 14719 * d_11) +
			(a_22 * b_10 - 4586 * d_10) +
			(a_23 * b_9 - 6657 * d_9);
		eq_33 =
			(a_10 * b_23 - 53920 * d_23) +
			(a_11 * b_22 - 26416 * d_22) +
			(a_12 * b_21 - 4799 * d_21) +
			(a_13 * b_20 - 62341 * d_20) +
			(a_14 * b_19 - 19332 * d_19) +
			(a_15 * b_18 - 25719 * d_18) +
			(a_16 * b_17 - 44247 * d_17) +
			(a_17 * b_16 - 17227 * d_16) +
			(a_18 * b_15 - 42934 * d_15) +
			(a_19 * b_14 - 19227 * d_14) +
			(a_20 * b_13 - 59034 * d_13) +
			(a_21 * b_12 - 14719 * d_12) +
			(a_22 * b_11 - 4586 * d_11) +
			(a_23 * b_10 - 6657 * d_10);
		eq_34 =
			(a_11 * b_23 - 26416 * d_23) +
			(a_12 * b_22 - 4799 * d_22) +
			(a_13 * b_21 - 62341 * d_21) +
			(a_14 * b_20 - 19332 * d_20) +
			(a_15 * b_19 - 25719 * d_19) +
			(a_16 * b_18 - 44247 * d_18) +
			(a_17 * b_17 - 17227 * d_17) +
			(a_18 * b_16 - 42934 * d_16) +
			(a_19 * b_15 - 19227 * d_15) +
			(a_20 * b_14 - 59034 * d_14) +
			(a_21 * b_13 - 14719 * d_13) +
			(a_22 * b_12 - 4586 * d_12) +
			(a_23 * b_11 - 6657 * d_11);
		eq_35 =
			(a_12 * b_23 - 4799 * d_23) +
			(a_13 * b_22 - 62341 * d_22) +
			(a_14 * b_21 - 19332 * d_21) +
			(a_15 * b_20 - 25719 * d_20) +
			(a_16 * b_19 - 44247 * d_19) +
			(a_17 * b_18 - 17227 * d_18) +
			(a_18 * b_17 - 42934 * d_17) +
			(a_19 * b_16 - 19227 * d_16) +
			(a_20 * b_15 - 59034 * d_15) +
			(a_21 * b_14 - 14719 * d_14) +
			(a_22 * b_13 - 4586 * d_13) +
			(a_23 * b_12 - 6657 * d_12);
		eq_36 =
			(a_13 * b_23 - 62341 * d_23) +
			(a_14 * b_22 - 19332 * d_22) +
			(a_15 * b_21 - 25719 * d_21) +
			(a_16 * b_20 - 44247 * d_20) +
			(a_17 * b_19 - 17227 * d_19) +
			(a_18 * b_18 - 42934 * d_18) +
			(a_19 * b_17 - 19227 * d_17) +
			(a_20 * b_16 - 59034 * d_16) +
			(a_21 * b_15 - 14719 * d_15) +
			(a_22 * b_14 - 4586 * d_14) +
			(a_23 * b_13 - 6657 * d_13);
		eq_37 =
			(a_14 * b_23 - 19332 * d_23) +
			(a_15 * b_22 - 25719 * d_22) +
			(a_16 * b_21 - 44247 * d_21) +
			(a_17 * b_20 - 17227 * d_20) +
			(a_18 * b_19 - 42934 * d_19) +
			(a_19 * b_18 - 19227 * d_18) +
			(a_20 * b_17 - 59034 * d_17) +
			(a_21 * b_16 - 14719 * d_16) +
			(a_22 * b_15 - 4586 * d_15) +
			(a_23 * b_14 - 6657 * d_14);
		eq_38 =
			(a_15 * b_23 - 25719 * d_23) +
			(a_16 * b_22 - 44247 * d_22) +
			(a_17 * b_21 - 17227 * d_21) +
			(a_18 * b_20 - 42934 * d_20) +
			(a_19 * b_19 - 19227 * d_19) +
			(a_20 * b_18 - 59034 * d_18) +
			(a_21 * b_17 - 14719 * d_17) +
			(a_22 * b_16 - 4586 * d_16) +
			(a_23 * b_15 - 6657 * d_15);
		eq_39 =
			(a_16 * b_23 - 44247 * d_23) +
			(a_17 * b_22 - 17227 * d_22) +
			(a_18 * b_21 - 42934 * d_21) +
			(a_19 * b_20 - 19227 * d_20) +
			(a_20 * b_19 - 59034 * d_19) +
			(a_21 * b_18 - 14719 * d_18) +
			(a_22 * b_17 - 4586 * d_17) +
			(a_23 * b_16 - 6657 * d_16);
		eq_40 =
			(a_17 * b_23 - 17227 * d_23) +
			(a_18 * b_22 - 42934 * d_22) +
			(a_19 * b_21 - 19227 * d_21) +
			(a_20 * b_20 - 59034 * d_20) +
			(a_21 * b_19 - 14719 * d_19) +
			(a_22 * b_18 - 4586 * d_18) +
			(a_23 * b_17 - 6657 * d_17);
		eq_41 =
			(a_18 * b_23 - 42934 * d_23) +
			(a_19 * b_22 - 19227 * d_22) +
			(a_20 * b_21 - 59034 * d_21) +
			(a_21 * b_20 - 14719 * d_20) +
			(a_22 * b_19 - 4586 * d_19) +
			(a_23 * b_18 - 6657 * d_18);
		eq_42 =
			(a_19 * b_23 - 19227 * d_23) +
			(a_20 * b_22 - 59034 * d_22) +
			(a_21 * b_21 - 14719 * d_21) +
			(a_22 * b_20 - 4586 * d_20) +
			(a_23 * b_19 - 6657 * d_19);
		eq_43 =
			(a_20 * b_23 - 59034 * d_23) +
			(a_21 * b_22 - 14719 * d_22) +
			(a_22 * b_21 - 4586 * d_21) +
			(a_23 * b_20 - 6657 * d_20);
		eq_44 =
			(a_21 * b_23 - 14719 * d_23) +
			(a_22 * b_22 - 4586 * d_22) +
			(a_23 * b_21 - 6657 * d_21);
		eq_45 =
			(a_22 * b_23 - 4586 * d_23) +
			(a_23 * b_22 - 6657 * d_22);
		eq_46 =
			(a_23 * b_23 - 6657 * d_23);
		eq_47 = 0;

		col witness eq;
		eq = eq_0*CLK_0 + eq_1*CLK_1 + eq_2*CLK_2 + eq_3*CLK_3 + eq_4*CLK_4 + eq_5*CLK_5 + eq_6*CLK_6 + eq_7*CLK_7
			+ eq_8*CLK_8 + eq_9*CLK_9 + eq_10*CLK_10 + eq_11*CLK_11 + eq_12*CLK_12 + eq_13*CLK_13 + eq_14*CLK_14 + eq_15*CLK_15
			+ eq_16*CLK_16 + eq_17*CLK_17 + eq_18*CLK_18 + eq_19*CLK_19 + eq_20*CLK_20 + eq_21*CLK_21 + eq_22*CLK_22 + eq_23*CLK_23
			+ eq_24*CLK_24 + eq_25*CLK_25 + eq_26*CLK_26 + eq_27*CLK_27 + eq_28*CLK_28 + eq_29*CLK_29 + eq_30*CLK_30 + eq_31*CLK_31
			+ eq_32*CLK_32 + eq_33*CLK_33 + eq_34*CLK_34 + eq_35*CLK_35 + eq_36*CLK_36 + eq_37*CLK_37 + eq_38*CLK_38 + eq_39*CLK_39
			+ eq_40*CLK_40 + eq_41*CLK_41 + eq_42*CLK_42 + eq_43*CLK_43 + eq_44*CLK_44 + eq_45*CLK_45 + eq_46*CLK_46 + eq_47*CLK_47;

		// pol commit carry;
		col fixed carry = [0]*;

		// TODO fix carry
		// eq + carry = carry' * 2**16;

		eq * carry = 0;  // REMOVE

		// NOTE: non complete PIL, missing implement carry range check
   }
}
"#;

/// The whole wide-curve arithmetic submachine template.
pub open spec fn spec_bls_arith_machine() -> Seq<char> {
    BLS_ARITH_PART0@ + BLS_ARITH_PART1@ + BLS_ARITH_PART2@ + BLS_ARITH_PART3@ + BLS_ARITH_PART4@
}

/// Builds the wide-curve arithmetic submachine template.
pub fn bls_arith_machine() -> (r: String)
    ensures
        r@ == spec_bls_arith_machine(),
{
    let mut s = String::from_str(BLS_ARITH_PART0);
    s.append(BLS_ARITH_PART1);
    s.append(BLS_ARITH_PART2);
    s.append(BLS_ARITH_PART3);
    s.append(BLS_ARITH_PART4);
    proof {
        assert(s@ =~= spec_bls_arith_machine());
    }
    s
}

/// The fixed submachine definition templates, in the order they are emitted.
pub fn machine_decls() -> (r: Vec<String>)
    ensures
        r@.len() == 3,
        r@[0]@ == BINARY_MACHINE@,
        r@[1]@ == SHIFT_MACHINE@,
        r@[2]@ == spec_bls_arith_machine(),
{
    let mut r: Vec<String> = Vec::new();
    r.push(String::from_str(BINARY_MACHINE));
    r.push(String::from_str(SHIFT_MACHINE));
    r.push(bls_arith_machine());
    r
}

/// The runtime stub source text.
pub fn runtime() -> (r: &'static str)
    ensures
        r@ == RUNTIME@,
{
    RUNTIME
}

/// The declarations of the 32 mapped registers.
pub open spec fn spec_reg_decls(n: nat) -> Seq<char>
    decreases n,
{
    if n == 0 {
        Seq::empty()
    } else {
        spec_reg_decls((n - 1) as nat) + "\t\treg x"@ + dec_seq((n - 1) as nat) + ";\n"@
    }
}

/// The whole preamble: its fixed head, the 32 register declarations, and the
/// fixed instruction-set tail.
pub open spec fn spec_preamble() -> Seq<char> {
    PREAMBLE_HEAD@ + spec_reg_decls(32) + PREAMBLE_TAIL@
}

/// Builds the preamble text.
pub fn preamble() -> (r: String)
    ensures
        r@ == spec_preamble(),
{
    let mut s = String::from_str(PREAMBLE_HEAD);
    let mut i: u32 = 0;
    while i < 32
        invariant
            i <= 32,
            s@ == PREAMBLE_HEAD@ + spec_reg_decls(i as nat),
        decreases 32 - i,
    {
        s.append("\t\treg x");
        let d = crate::text::dec_u32(i);
        s.append(d.as_str());
        s.append(";\n");
        proof {
            assert(s@ =~= PREAMBLE_HEAD@ + spec_reg_decls((i + 1) as nat));
        }
        i += 1;
    }
    s.append(PREAMBLE_TAIL);
    proof {
        assert(s@ =~= spec_preamble());
    }
    s
}

/// The three lines that invoke every declared submachine once, so that every
/// submachine is exercised at least once per program run.
pub open spec fn spec_call_every_submachine() -> Seq<Seq<char>> {
    seq!["x10 <== and(x10, x10);"@, "x10 <== shl(x10, x10);"@, "x10 <=X= 0;"@]
}

/// Emits one invocation per submachine.
pub fn call_every_submachine() -> (r: Vec<String>)
    ensures
        lines_view(r@) == spec_call_every_submachine(),
{
    let mut r: Vec<String> = Vec::new();
    r.push(String::from_str("x10 <== and(x10, x10);"));
    r.push(String::from_str("x10 <== shl(x10, x10);"));
    r.push(String::from_str("x10 <=X= 0;"));
    proof {
        assert(lines_view(r@) =~= spec_call_every_submachine());
    }
    r
}

/// The parts joined by the separator.
pub open spec fn join_seq(parts: Seq<Seq<char>>, sep: Seq<char>) -> Seq<char>
    decreases parts.len(),
{
    if parts.len() == 0 {
        Seq::empty()
    } else if parts.len() == 1 {
        parts[0]
    } else {
        parts[0] + sep + join_seq(parts.drop_first(), sep)
    }
}

proof fn lemma_join_snoc(parts: Seq<Seq<char>>, sep: Seq<char>, i: int)
    requires
        0 <= i < parts.len(),
    ensures
        join_seq(parts.take(i + 1), sep) == (if i == 0 {
            parts[0]
        } else {
            join_seq(parts.take(i), sep) + sep + parts[i]
        }),
    decreases i,
{
    if i == 0 {
        assert(parts.take(1).len() == 1);
        assert(parts.take(1)[0] == parts[0]);
    } else {
        lemma_join_snoc(parts.drop_first(), sep, i - 1);
        assert(parts.take(i + 1).drop_first() =~= parts.drop_first().take(i));
        assert(parts.take(i).drop_first() =~= parts.drop_first().take(i - 1));
        assert(parts.take(i + 1)[0] == parts[0]);
        assert(parts.take(i)[0] == parts[0]);
        assert(parts.drop_first()[i - 1] == parts[i]);
        if i == 1 {
            assert(join_seq(parts.take(2), sep) =~= join_seq(parts.take(1), sep) + sep
                + parts[1]);
        } else {
            assert(join_seq(parts.take(i + 1), sep) =~= join_seq(parts.take(i), sep) + sep
                + parts[i]);
        }
    }
}

/// Joins rendered lines with a separator.
fn join_strings(parts: &Vec<String>, sep: &str) -> (r: String)
    ensures
        r@ == join_seq(lines_view(parts@), sep@),
{
    let ghost pv = lines_view(parts@);
    let mut s = String::new();
    let mut i: usize = 0;
    while i < parts.len()
        invariant
            i <= parts.len(),
            pv == lines_view(parts@),
            pv.len() == parts@.len(),
            s@ == join_seq(pv.take(i as int), sep@),
        decreases parts.len() - i,
    {
        proof {
            assert(pv[i as int] == parts@[i as int]@);
        }
        if i > 0 {
            s.append(sep);
        }
        s.append(parts[i].as_str());
        proof {
            lemma_join_snoc(pv, sep@, i as int);
            if i == 0 {
                assert(s@ =~= join_seq(pv.take(1), sep@));
            } else {
                assert(s@ =~= join_seq(pv.take(i + 1), sep@));
            }
        }
        i += 1;
    }
    proof {
        assert(pv.take(pv.len() as int) =~= pv);
    }
    s
}

/// The views of a list of fixed texts.
pub open spec fn strs_view(parts: Seq<&str>) -> Seq<Seq<char>> {
    parts.map_values(|p: &str| p@)
}

/// Joins fixed texts with a separator.
fn join_strs(parts: &Vec<&str>, sep: &str) -> (r: String)
    ensures
        r@ == join_seq(strs_view(parts@), sep@),
{
    let ghost pv = strs_view(parts@);
    let mut s = String::new();
    let mut i: usize = 0;
    while i < parts.len()
        invariant
            i <= parts.len(),
            pv == strs_view(parts@),
            pv.len() == parts@.len(),
            s@ == join_seq(pv.take(i as int), sep@),
        decreases parts.len() - i,
    {
        proof {
            assert(pv[i as int] == parts@[i as int]@);
        }
        if i > 0 {
            s.append(sep);
        }
        s.append(parts[i]);
        proof {
            lemma_join_snoc(pv, sep@, i as int);
            if i == 0 {
                assert(s@ =~= join_seq(pv.take(1), sep@));
            } else {
                assert(s@ =~= join_seq(pv.take(i + 1), sep@));
            }
        }
        i += 1;
    }
    proof {
        assert(pv.take(pv.len() as int) =~= pv);
    }
    s
}

/// One submachine instantiation line.
pub open spec fn spec_submachine_decl(instance: Seq<char>, ty: Seq<char>) -> Seq<char> {
    "\t\t"@ + ty + " "@ + instance + ";"@
}

/// The final program text: the submachine templates, the main machine with
/// its submachine instances and preamble, and the program body, one line per
/// emitted statement.
pub open spec fn spec_riscv_machine(
    machines: Seq<Seq<char>>,
    preamble_text: Seq<char>,
    submachines: Seq<(Seq<char>, Seq<char>)>,
    program: Seq<Seq<char>>,
) -> Seq<char> {
    "\n"@ + join_seq(machines, "\n"@) + "\nmachine Main {\n"@ + join_seq(
        submachines.map_values(|p: (Seq<char>, Seq<char>)| spec_submachine_decl(p.0, p.1)),
        "\n"@,
    ) + "\n\n"@ + preamble_text + "\n\n    function main {\n"@ + join_seq(
        program.map_values(|l: Seq<char>| "\t\t"@ + l),
        "\n"@,
    ) + "\n    }\n}    \n"@
}

/// Concatenates the machine templates, the main machine frame, the preamble
/// and the program body into the final program text.
pub fn riscv_machine(
    machines: &Vec<String>,
    preamble_text: &str,
    submachines: &Vec<(&str, &str)>,
    program: Vec<String>,
) -> (r: String)
    ensures
        r@ == spec_riscv_machine(
            lines_view(machines@),
            preamble_text@,
            submachines@.map_values(|p: (&str, &str)| (p.0@, p.1@)),
            lines_view(program@),
        ),
{
    let ghost subsv = submachines@.map_values(|p: (&str, &str)| (p.0@, p.1@));
    let mut s = String::from_str("\n");
    let joined_machines = join_strings(machines, "\n");
    s.append(joined_machines.as_str());
    s.append("\nmachine Main {\n");
    let mut decls: Vec<String> = Vec::new();
    let mut i: usize = 0;
    while i < submachines.len()
        invariant
            i <= submachines.len(),
            subsv == submachines@.map_values(|p: (&str, &str)| (p.0@, p.1@)),
            subsv.len() == submachines@.len(),
            decls@.len() == i,
            forall|k: int|
                0 <= k < i ==> #[trigger] decls@[k]@ == spec_submachine_decl(
                    subsv[k].0,
                    subsv[k].1,
                ),
        decreases submachines.len() - i,
    {
        let mut d = String::from_str("\t\t");
        d.append(submachines[i].1);
        d.append(" ");
        d.append(submachines[i].0);
        d.append(";");
        proof {
            assert(subsv[i as int] == (submachines@[i as int].0@, submachines@[i as int].1@));
            assert(d@ =~= spec_submachine_decl(subsv[i as int].0, subsv[i as int].1));
        }
        decls.push(d);
        i += 1;
    }
    proof {
        assert(lines_view(decls@) =~= subsv.map_values(
            |p: (Seq<char>, Seq<char>)| spec_submachine_decl(p.0, p.1),
        ));
    }
    let joined_decls = join_strings(&decls, "\n");
    s.append(joined_decls.as_str());
    s.append("\n\n");
    s.append(preamble_text);
    s.append("\n\n    function main {\n");
    let mut prefixed: Vec<String> = Vec::new();
    let mut i: usize = 0;
    while i < program.len()
        invariant
            i <= program.len(),
            prefixed@.len() == i,
            forall|k: int|
                0 <= k < i ==> #[trigger] prefixed@[k]@ == "\t\t"@ + program@[k]@,
        decreases program.len() - i,
    {
        let mut line = String::from_str("\t\t");
        line.append(program[i].as_str());
        prefixed.push(line);
        i += 1;
    }
    proof {
        assert(lines_view(prefixed@) =~= lines_view(program@).map_values(
            |l: Seq<char>| "\t\t"@ + l,
        ));
    }
    let joined_prog = join_strings(&prefixed, "\n");
    s.append(joined_prog.as_str());
    s.append("\n    }\n}    \n");
    proof {
        assert(s@ =~= spec_riscv_machine(
            lines_view(machines@),
            preamble_text@,
            subsv,
            lines_view(program@),
        ));
    }
    s
}

/// The number inside an argument, if the argument is a number expression.
pub open spec fn arg_num(a: ArgV) -> Option<int> {
    match a {
        ArgV::Expression(ExprV::Number(n)) => Some(n),
        _ => None,
    }
}

fn arg_number_literal(a: &Argument) -> (r: Option<i64>)
    ensures
        match r {
            Some(n) => arg_num(a@) == Some(n as int),
            None => arg_num(a@) is None,
        },
{
    match a {
        Argument::Expression(e) => {
            match e {
                Expression::Number(n) => Some(*n),
                Expression::Symbol(_) => None,
                Expression::UnaryOp(_, _) => None,
                Expression::BinaryOp(_, _, _) => None,
                Expression::FunctionOp(_, _) => None,
            }
        },
        _ => None,
    }
}

/// What one statement contributes to the program body: a label line, a debug
/// location for a `.loc` directive, nothing for `.file` and unwind-table
/// directives, the indented lowering of an instruction; any other leftover
/// directive is a fatal error.
pub open spec fn spec_process_statement(s: StmtV) -> Result<Seq<Seq<char>>, CompileErrorV> {
    match s {
        StmtV::Label(l) => Ok(seq![escape_seq(l) + "::"@]),
        StmtV::Directive(d, args) => {
            if d == ".loc"@ && args.len() >= 3 && arg_num(args[0]) is Some && arg_num(args[1])
                is Some && arg_num(args[2]) is Some {
                Ok(
                    seq![
                        "  debug loc "@ + dec_seq_signed(arg_num(args[0])->Some_0) + " "@
                            + dec_seq_signed(arg_num(args[1])->Some_0) + " "@ + dec_seq_signed(
                            arg_num(args[2])->Some_0,
                        ) + ";"@,
                    ],
                )
            } else if d == ".file"@ {
                Ok(Seq::empty())
            } else if has_prefix(d, ".cfi_"@) {
                Ok(Seq::empty())
            } else {
                Err(CompileErrorV::UnsupportedInstruction(d))
            }
        },
        StmtV::Instruction(name, args) => match spec_lower(name, args) {
            Ok(code) => Ok(render_all_seq(code).map_values(|l: Seq<char>| "  "@ + l)),
            Err(e) => Err(e),
        },
    }
}

/// Turns one statement into its emitted program lines.
pub fn process_statement(s: &Statement) -> (res: Result<Vec<String>, CompileError>)
    ensures
        match res {
            Ok(lines) => spec_process_statement(s@) == Ok::<Seq<Seq<char>>, CompileErrorV>(
                lines_view(lines@),
            ),
            Err(e) => spec_process_statement(s@) == Err::<Seq<Seq<char>>, CompileErrorV>(e@),
        },
{
    match s {
        Statement::Label(l) => {
            let mut line = escape_label(l.as_str());
            line.append("::");
            let mut r: Vec<String> = Vec::new();
            r.push(line);
            proof {
                assert(lines_view(r@) =~= seq![escape_seq(l@) + "::"@]);
            }
            Ok(r)
        },
        Statement::Directive(d, args) => {
            if str_eq(d.as_str(), ".loc") && args.len() >= 3 {
                let f0 = arg_number_literal(&args[0]);
                let f1 = arg_number_literal(&args[1]);
                let f2 = arg_number_literal(&args[2]);
                proof {
                    assert(crate::ast::args_view(args@)[0] == args@[0]@);
                    assert(crate::ast::args_view(args@)[1] == args@[1]@);
                    assert(crate::ast::args_view(args@)[2] == args@[2]@);
                }
                match (f0, f1, f2) {
                    (Some(file), Some(line_no), Some(column)) => {
                        let mut line = String::from_str("  debug loc ");
                        let df = dec_i64(file);
                        line.append(df.as_str());
                        line.append(" ");
                        let dl = dec_i64(line_no);
                        line.append(dl.as_str());
                        line.append(" ");
                        let dc = dec_i64(column);
                        line.append(dc.as_str());
                        line.append(";");
                        let mut r: Vec<String> = Vec::new();
                        r.push(line);
                        proof {
                            let argsv = crate::ast::args_view(args@);
                            assert(lines_view(r@) =~= seq![
                                "  debug loc "@ + dec_seq_signed(arg_num(argsv[0])->Some_0) + " "@
                                    + dec_seq_signed(arg_num(argsv[1])->Some_0) + " "@
                                    + dec_seq_signed(arg_num(argsv[2])->Some_0) + ";"@,
                            ]);
                        }
                        return Ok(r);
                    },
                    _ => {},
                }
            }
            if str_eq(d.as_str(), ".file") {
                let r: Vec<String> = Vec::new();
                proof {
                    assert(lines_view(r@) =~= Seq::<Seq<char>>::empty());
                }
                return Ok(r);
            }
            if str_has_prefix(d.as_str(), ".cfi_") {
                let r: Vec<String> = Vec::new();
                proof {
                    assert(lines_view(r@) =~= Seq::<Seq<char>>::empty());
                }
                return Ok(r);
            }
            Err(CompileError::UnsupportedInstruction(d.clone()))
        },
        Statement::Instruction(name, args) => {
            match process_instruction(name.as_str(), args) {
                Ok(lines) => {
                    let mut prefixed: Vec<String> = Vec::new();
                    let mut i: usize = 0;
                    while i < lines.len()
                        invariant
                            i <= lines.len(),
                            prefixed@.len() == i,
                            forall|k: int|
                                0 <= k < i ==> #[trigger] prefixed@[k]@ == "  "@ + lines@[k]@,
                        decreases lines.len() - i,
                    {
                        let mut line = String::from_str("  ");
                        line.append(lines[i].as_str());
                        prefixed.push(line);
                        i += 1;
                    }
                    proof {
                        match spec_lower(name@, crate::ast::args_view(args@)) {
                            Ok(code) => {
                                assert(lines_view(prefixed@) =~= render_all_seq(code).map_values(
                                    |l: Seq<char>| "  "@ + l,
                                ));
                            },
                            Err(_) => {
                                assert(false);
                            },
                        }
                    }
                    Ok(prefixed)
                },
                Err(e) => Err(e),
            }
        },
    }
}

/// What the statements from index `i` on contribute to the program body.
pub open spec fn spec_process_from(stmts: Seq<StmtV>, i: int) -> Result<
    Seq<Seq<char>>,
    CompileErrorV,
>
    decreases stmts.len() - i,
{
    if i < 0 || i >= stmts.len() {
        Ok(Seq::empty())
    } else {
        match spec_process_statement(stmts[i]) {
            Err(e) => Err(e),
            Ok(lines) => match spec_process_from(stmts, i + 1) {
                Err(e) => Err(e),
                Ok(rest) => Ok(lines + rest),
            },
        }
    }
}

/// Turns the whole statement stream into its emitted program lines, stopping
/// at the first fatal error.
pub fn process_statements(statements: &Vec<Statement>) -> (res: Result<Vec<String>, CompileError>)
    ensures
        match res {
            Ok(lines) => spec_process_from(stmts_view(statements@), 0) == Ok::<
                Seq<Seq<char>>,
                CompileErrorV,
            >(lines_view(lines@)),
            Err(e) => spec_process_from(stmts_view(statements@), 0) == Err::<
                Seq<Seq<char>>,
                CompileErrorV,
            >(e@),
        },
{
    let ghost sv = stmts_view(statements@);
    let mut all_lines: Vec<String> = Vec::new();
    proof {
        assert(lines_view(all_lines@) =~= Seq::<Seq<char>>::empty());
        match spec_process_from(sv, 0) {
            Ok(rest) => {
                assert(lines_view(all_lines@) + rest =~= rest);
            },
            Err(_) => {},
        }
    }
    let mut i: usize = 0;
    while i < statements.len()
        invariant
            i <= statements.len(),
            sv == stmts_view(statements@),
            sv.len() == statements@.len(),
            spec_process_from(sv, 0) == (match spec_process_from(sv, i as int) {
                Ok(rest) => Ok::<Seq<Seq<char>>, CompileErrorV>(lines_view(all_lines@) + rest),
                Err(e) => Err::<Seq<Seq<char>>, CompileErrorV>(e),
            }),
        decreases statements.len() - i,
    {
        proof {
            assert(sv[i as int] == statements@[i as int]@);
        }
        let lines = match process_statement(&statements[i]) {
            Ok(lines) => lines,
            Err(e) => {
                proof {
                    assert(spec_process_from(sv, i as int) == Err::<
                        Seq<Seq<char>>,
                        CompileErrorV,
                    >(e@));
                }
                return Err(e);
            },
        };
        let mut k: usize = 0;
        let ghost snapshot = all_lines@;
        while k < lines.len()
            invariant
                k <= lines.len(),
                all_lines@ == snapshot + lines@.take(k as int),
            decreases lines.len() - k,
        {
            let line = lines[k].clone();
            all_lines.push(line);
            proof {
                assert(all_lines@ =~= snapshot + lines@.take(k + 1));
            }
            k += 1;
        }
        proof {
            assert(lines@.take(lines@.len() as int) =~= lines@);
            assert(all_lines@ == snapshot + lines@);
            let li = lines_view(lines@);
            assert(lines_view(snapshot + lines@) =~= lines_view(snapshot) + li);
            match spec_process_from(sv, i + 1) {
                Ok(rest) => {
                    assert((lines_view(snapshot) + li) + rest =~= lines_view(snapshot) + (li
                        + rest));
                },
                Err(_) => {},
            }
        }
        i += 1;
    }
    proof {
        match spec_process_from(sv, sv.len() as int) {
            Ok(rest) => {
                assert(lines_view(all_lines@) + rest =~= lines_view(all_lines@));
            },
            Err(_) => {},
        }
    }
    Ok(all_lines)
}

/// Appends one line to the program body.
fn push_line(program: &mut Vec<String>, line: String)
    ensures
        lines_view(final(program)@) == lines_view(old(program)@).push(line@),
{
    program.push(line);
    proof {
        assert(lines_view(final(program)@) =~= lines_view(old(program)@).push(line@));
    }
}

/// One input module's debug-file record: its numeric id and its directory and
/// file names.
pub struct DebugFile {
    pub id: u64,
    pub dir: String,
    pub file: String,
}

/// The mathematical model of a [`DebugFile`].
pub ghost struct DebugFileV {
    pub id: u64,
    pub dir: Seq<char>,
    pub file: Seq<char>,
}

impl View for DebugFile {
    type V = DebugFileV;

    open spec fn view(&self) -> DebugFileV {
        DebugFileV { id: self.id, dir: self.dir@, file: self.file@ }
    }
}

pub open spec fn debug_files_view(files: Seq<DebugFile>) -> Seq<DebugFileV> {
    files.map_values(|f: DebugFile| f.view())
}

/// The emitted declaration of one debug file: its id and its quoted directory
/// and file names.
pub open spec fn spec_debug_file_line(f: DebugFileV) -> Seq<char> {
    "debug file "@ + dec_seq(f.id as nat) + " "@ + quote_seq(f.dir) + " "@ + quote_seq(f.file)
        + ";"@
}

/// The raw (unrounded) byte size of one object's chunks.
pub open spec fn raw_object_size(values: Seq<crate::ast::DataValueV>) -> int {
    raw_sizes_prefix(values, values.len() as int)
}

/// Whether an object exceeds the large-object threshold.
pub open spec fn oversized(o: DataObjectV) -> bool {
    raw_object_size(o.values) > 0x2000
}

/// How many of the first `i` objects exceed the threshold.
pub open spec fn count_oversized(objs: Seq<DataObjectV>, i: int) -> int
    decreases i,
{
    if i <= 0 {
        0
    } else {
        count_oversized(objs, i - 1) + (if oversized(objs[i - 1]) {
            1int
        } else {
            0int
        })
    }
}

/// The position of the first oversized object at or after `i`, or the length
/// when none follows.
pub open spec fn first_oversized(objs: Seq<DataObjectV>, i: int) -> int
    decreases objs.len() - i,
{
    if i < 0 || i >= objs.len() {
        objs.len() as int
    } else if oversized(objs[i]) {
        i
    } else {
        first_oversized(objs, i + 1)
    }
}

/// The layout order: as supplied, except that when exactly one object exceeds
/// the threshold it moves to the end (a single gigantic object is typically a
/// heap; placing it last keeps all other addresses small). With two or more
/// oversized objects the order is deliberately left as supplied.
pub open spec fn spec_reorder(objs: Seq<DataObjectV>) -> Seq<DataObjectV> {
    if count_oversized(objs, objs.len() as int) == 1 {
        let i = first_oversized(objs, 0);
        objs.remove(i).push(objs[i])
    } else {
        objs
    }
}

/// The raw size of one object, saturating at the integer limit (the result is
/// only compared against the threshold).
fn raw_object_size_saturating(values: &Vec<crate::ast::DataValue>) -> (r: u64)
    ensures
        r as int == raw_object_size(crate::ast::data_values_view(values@)) || (r == u64::MAX
            && raw_object_size(crate::ast::data_values_view(values@)) >= u64::MAX),
{
    let ghost vv = crate::ast::data_values_view(values@);
    let mut acc: u64 = 0;
    let mut j: usize = 0;
    while j < values.len()
        invariant
            j <= values.len(),
            vv == crate::ast::data_values_view(values@),
            vv.len() == values@.len(),
            acc as int == raw_sizes_prefix(vv, j as int) || (acc == u64::MAX && raw_sizes_prefix(
                vv,
                j as int,
            ) >= u64::MAX),
        decreases values.len() - j,
    {
        proof {
            assert(vv[j as int] == values@[j as int]@);
        }
        let sz = values[j].size();
        let szw = sz as u64;
        if acc > u64::MAX - szw {
            acc = u64::MAX;
        } else {
            acc = acc + szw;
        }
        j += 1;
    }
    acc
}

/// Moves the single oversized object, if there is exactly one, to the end of
/// the layout order.
pub fn reorder_large_object(objects: Vec<DataObject>) -> (r: Vec<DataObject>)
    ensures
        data_objects_view(r@) == spec_reorder(data_objects_view(objects@)),
{
    let ghost objs = data_objects_view(objects@);
    let mut count: usize = 0;
    let mut first: usize = 0;
    let mut i: usize = 0;
    while i < objects.len()
        invariant
            i <= objects.len(),
            objs == data_objects_view(objects@),
            objs.len() == objects@.len(),
            count <= i,
            count as int == count_oversized(objs, i as int),
            count > 0 ==> (first < i && first_oversized(objs, 0) == first as int),
            count == 0 ==> first_oversized(objs, 0) == first_oversized(objs, i as int),
        decreases objects.len() - i,
    {
        proof {
            assert(objs[i as int] == objects@[i as int]@);
        }
        let size = raw_object_size_saturating(&objects[i].values);
        if size > 0x2000 {
            proof {
                assert(oversized(objs[i as int]));
            }
            if count == 0 {
                first = i;
            }
            count = count + 1;
        } else {
            proof {
                assert(!oversized(objs[i as int]));
            }
        }
        i += 1;
    }
    if count == 1 {
        proof {
            assert(first_oversized(objs, 0) == first as int);
        }
        let mut objects = objects;
        let moved = objects.remove(first);
        objects.push(moved);
        proof {
            assert(data_objects_view(objects@) =~= spec_reorder(objs));
        }
        objects
    } else {
        proof {
            assert(spec_reorder(objs) == objs);
        }
        objects
    }
}

/// The stack grows down from this start address.
pub const STACK_START: u32 = 0x10000;

/// Static data grows up from this start address.
pub const DATA_START: u32 = 0x10100;

/// The whole compilation, from the pruned statement stream, the data-object
/// table and the debug-file records to the final program text: fuse dynamic
/// references, remove linkage stubs, lay out and serialize the data objects,
/// fold the now-known addresses into the statements, lower every statement,
/// and assemble the result with the fixed templates.
pub open spec fn spec_compile(
    stmts: Seq<StmtV>,
    objs: Seq<DataObjectV>,
    files: Seq<DebugFileV>,
) -> Result<Seq<char>, CompileErrorV> {
    let fused = spec_fuse(stmts, objs);
    let stripped = spec_replace_coprocessor_stubs(fused);
    let reordered = spec_reorder(objs);
    match spec_store_data(reordered, DATA_START as int) {
        Err(e) => Err(e),
        Ok(stored) => {
            let substituted = spec_subst_stmts(stripped, stored.1);
            match spec_process_from(substituted, 0) {
                Err(e) => Err(e),
                Ok(body) => Ok(
                    spec_riscv_machine(
                        seq![BINARY_MACHINE@, SHIFT_MACHINE@, spec_bls_arith_machine()],
                        spec_preamble(),
                        seq![("binary"@, "Binary"@), ("shift"@, "Shift"@)],
                        files.map_values(|f: DebugFileV| spec_debug_file_line(f)) + seq![
                            "call __data_init;"@,
                        ] + spec_call_every_submachine() + seq![
                            "// Set stack pointer\nx2 <=X= 65536;"@,
                            "call __runtime_start;"@,
                            "return;"@,
                        ] + body + seq![
                            "// This is the data initialization routine.\n__data_init::"@,
                        ] + stored.0 + seq![
                            "// This is the end of the data initialization routine.\nret;"@,
                        ],
                    ),
                ),
            }
        },
    }
}

impl Risc {
    /// Compiles the pruned statement stream with its data-object table into
    /// the final program text for one target machine.
    pub fn compile(
        statements: Vec<Statement>,
        objects: Vec<DataObject>,
        file_ids: Vec<DebugFile>,
    ) -> (res: Result<String, CompileError>)
        requires
            spec_data_end(spec_reorder(data_objects_view(objects@)), DATA_START as int)
                <= 0xFFFF_FFFC,
        ensures
            match res {
                Ok(text) => spec_compile(
                    stmts_view(statements@),
                    data_objects_view(objects@),
                    debug_files_view(file_ids@),
                ) == Ok::<Seq<char>, CompileErrorV>(text@),
                Err(e) => spec_compile(
                    stmts_view(statements@),
                    data_objects_view(objects@),
                    debug_files_view(file_ids@),
                ) == Err::<Seq<char>, CompileErrorV>(e@),
            },
    {
        let ghost sv = stmts_view(statements@);
        let ghost objs = data_objects_view(objects@);
        let ghost filesv = debug_files_view(file_ids@);
        let statements = replace_dynamic_label_references(statements, &objects);
        let statements = replace_coprocessor_stubs(statements);
        let objects = reorder_large_object(objects);
        let (data_code, data_positions) = match store_data_objects(&objects, DATA_START) {
            Ok(out) => out,
            Err(e) => {
                return Err(e);
            },
        };
        let statements = substitute_symbols_with_values(statements, &data_positions);
        let body = match process_statements(&statements) {
            Ok(lines) => lines,
            Err(e) => {
                return Err(e);
            },
        };
        // Assemble the program body.
        let mut program: Vec<String> = Vec::new();
        let mut i: usize = 0;
        while i < file_ids.len()
            invariant
                i <= file_ids.len(),
                filesv == debug_files_view(file_ids@),
                filesv.len() == file_ids@.len(),
                program@.len() == i,
                forall|k: int|
                    0 <= k < i ==> #[trigger] program@[k]@ == spec_debug_file_line(filesv[k]),
            decreases file_ids.len() - i,
        {
            proof {
                assert(filesv[i as int] == file_ids@[i as int]@);
            }
            let mut line = String::from_str("debug file ");
            let d = dec_u64(file_ids[i].id);
            line.append(d.as_str());
            line.append(" ");
            let qd = quote(file_ids[i].dir.as_str());
            line.append(qd.as_str());
            line.append(" ");
            let qf = quote(file_ids[i].file.as_str());
            line.append(qf.as_str());
            line.append(";");
            proof {
                assert(line@ =~= spec_debug_file_line(filesv[i as int]));
            }
            program.push(line);
            i += 1;
        }
        let ghost file_lines = filesv.map_values(|f: DebugFileV| spec_debug_file_line(f));
        proof {
            assert(lines_view(program@) =~= file_lines);
        }
        push_line(&mut program, String::from_str("call __data_init;"));
        let ghost stage1 = file_lines + seq!["call __data_init;"@];
        proof {
            assert(lines_view(program@) =~= stage1);
        }
        let submachine_calls = call_every_submachine();
        let mut j: usize = 0;
        while j < submachine_calls.len()
            invariant
                j <= submachine_calls.len(),
                lines_view(submachine_calls@) == spec_call_every_submachine(),
                submachine_calls@.len() == 3,
                lines_view(program@) == stage1 + lines_view(submachine_calls@).take(j as int),
            decreases submachine_calls.len() - j,
        {
            let line = submachine_calls[j].clone();
            push_line(&mut program, line);
            proof {
                let lv = lines_view(submachine_calls@);
                assert(lv[j as int] == submachine_calls@[j as int]@);
                assert(lv.take(j + 1) =~= lv.take(j as int).push(lv[j as int]));
                assert(lines_view(program@) =~= stage1 + lv.take(j + 1));
            }
            j += 1;
        }
        proof {
            assert(lines_view(submachine_calls@).take(3) =~= spec_call_every_submachine());
        }
        push_line(&mut program, String::from_str("// Set stack pointer\nx2 <=X= 65536;"));
        push_line(&mut program, String::from_str("call __runtime_start;"));
        push_line(&mut program, String::from_str("return;"));
        let ghost stage2 = stage1 + spec_call_every_submachine() + seq![
            "// Set stack pointer\nx2 <=X= 65536;"@,
            "call __runtime_start;"@,
            "return;"@,
        ];
        proof {
            assert(lines_view(program@) =~= stage2);
        }
        let mut j: usize = 0;
        while j < body.len()
            invariant
                j <= body.len(),
                lines_view(program@) == stage2 + lines_view(body@).take(j as int),
            decreases body.len() - j,
        {
            let line = body[j].clone();
            push_line(&mut program, line);
            proof {
                let lv = lines_view(body@);
                assert(lv[j as int] == body@[j as int]@);
                assert(lv.take(j + 1) =~= lv.take(j as int).push(lv[j as int]));
                assert(lines_view(program@) =~= stage2 + lv.take(j + 1));
            }
            j += 1;
        }
        push_line(
            &mut program,
            String::from_str("// This is the data initialization routine.\n__data_init::"),
        );
        let ghost stage3 = stage2 + lines_view(body@) + seq![
            "// This is the data initialization routine.\n__data_init::"@,
        ];
        proof {
            assert(lines_view(body@).take(body@.len() as int) =~= lines_view(body@));
            assert(lines_view(program@) =~= stage3);
        }
        let mut j: usize = 0;
        while j < data_code.len()
            invariant
                j <= data_code.len(),
                lines_view(program@) == stage3 + lines_view(data_code@).take(j as int),
            decreases data_code.len() - j,
        {
            let line = data_code[j].clone();
            push_line(&mut program, line);
            proof {
                let lv = lines_view(data_code@);
                assert(lv[j as int] == data_code@[j as int]@);
                assert(lv.take(j + 1) =~= lv.take(j as int).push(lv[j as int]));
                assert(lines_view(program@) =~= stage3 + lv.take(j + 1));
            }
            j += 1;
        }
        push_line(
            &mut program,
            String::from_str("// This is the end of the data initialization routine.\nret;"),
        );
        let ghost full_program = lines_view(program@);
        proof {
            assert(lines_view(data_code@).take(data_code@.len() as int) =~= lines_view(
                data_code@,
            ));
            assert(full_program =~= stage3 + lines_view(data_code@) + seq![
                "// This is the end of the data initialization routine.\nret;"@,
            ]);
            assert(full_program =~= file_lines + seq!["call __data_init;"@]
                + spec_call_every_submachine() + seq![
                "// Set stack pointer\nx2 <=X= 65536;"@,
                "call __runtime_start;"@,
                "return;"@,
            ] + lines_view(body@) + seq![
                "// This is the data initialization routine.\n__data_init::"@,
            ] + lines_view(data_code@) + seq![
                "// This is the end of the data initialization routine.\nret;"@,
            ]);
        }
        let machines = machine_decls();
        let preamble_text = preamble();
        let mut submachines: Vec<(&str, &str)> = Vec::new();
        submachines.push(("binary", "Binary"));
        submachines.push(("shift", "Shift"));
        proof {
            assert(lines_view(machines@) =~= seq![
                BINARY_MACHINE@,
                SHIFT_MACHINE@,
                spec_bls_arith_machine(),
            ]);
            assert(submachines@.map_values(|p: (&str, &str)| (p.0@, p.1@)) =~= seq![
                ("binary"@, "Binary"@),
                ("shift"@, "Shift"@),
            ]);
        }
        let text = riscv_machine(&machines, preamble_text.as_str(), &submachines, program);
        Ok(text)
    }
}

} // verus!
