use riscv_pil::Register;
use riscv_pil::ast::Argument;
use riscv_pil::ast::CompileError;
use riscv_pil::ast::Expression;
use riscv_pil::lower::process_instruction;

fn reg(n: u8) -> Argument {
    Argument::Register(Register::new(n))
}

fn imm(n: i64) -> Argument {
    Argument::Expression(Expression::Number(n))
}

fn off(r: u8, n: i64) -> Argument {
    Argument::RegOffset(Register::new(r), Expression::Number(n))
}

fn sym(s: &str) -> Argument {
    Argument::Expression(Expression::Symbol(String::from(s)))
}

fn lower(instr: &str, args: Vec<Argument>) -> Vec<String> {
    process_instruction(instr, &args).expect("expected this instruction to lower")
}

#[test]
fn simple_loads_and_moves() {
    assert_eq!(lower("li", vec![reg(5), imm(42)]), vec!["x5 <=X= 42;"]);
    assert_eq!(lower("lui", vec![reg(5), imm(1)]), vec!["x5 <=X= 4096;"]);
    assert_eq!(lower("mv", vec![reg(7), reg(8)]), vec!["x7 <=X= x8;"]);
}

#[test]
fn arithmetic_lowering() {
    assert_eq!(
        lower("add", vec![reg(1), reg(2), reg(3)]),
        vec!["x1 <== wrap(x2 + x3);"]
    );
    assert_eq!(
        lower("addi", vec![reg(1), reg(2), imm(100)]),
        vec!["x1 <== wrap(x2 + 100);"]
    );
    assert_eq!(
        lower("sub", vec![reg(1), reg(2), reg(3)]),
        vec!["x1 <== wrap_signed(x2 - x3);"]
    );
    assert_eq!(
        lower("neg", vec![reg(1), reg(2)]),
        vec!["x1 <== wrap_signed(0 - x2);"]
    );
    assert_eq!(
        lower("divu", vec![reg(1), reg(2), reg(3)]),
        vec!["x1 <=Z= divu(x2, x3);"]
    );
    assert_eq!(
        lower("mulhu", vec![reg(1), reg(2), reg(3)]),
        vec!["x1 <== mulhu(x2, x3);"]
    );
}

#[test]
fn bitwise_and_shift_lowering() {
    assert_eq!(
        lower("xori", vec![reg(1), reg(2), imm(255)]),
        vec!["x1 <== xor(x2, 255);"]
    );
    assert_eq!(
        lower("sll", vec![reg(1), reg(2), reg(3)]),
        vec!["tmp1 <== and(x3, 0x1f);", "x1 <== shl(x2, tmp1);"]
    );
    assert_eq!(
        lower("slli", vec![reg(1), reg(2), imm(4)]),
        vec!["x1 <== wrap16(x2 * 16);"]
    );
    assert_eq!(
        lower("slli", vec![reg(1), reg(2), imm(20)]),
        vec!["tmp1 <== wrap16(x2 * 65536);", "x1 <== wrap16(tmp1 * 16);"]
    );
    assert_eq!(
        lower("srai", vec![reg(1), reg(2), imm(3)]),
        vec![
            "tmp1 <== to_signed(x2);",
            "tmp1 <== is_positive(0 - tmp1);",
            "tmp1 <=X= tmp1 * 0xffffffff;",
            "x1 <== xor(tmp1, x2);",
            "x1 <== shr(x1, 3);",
            "x1 <== xor(tmp1, x1);",
        ]
    );
}

#[test]
fn comparison_lowering() {
    assert_eq!(
        lower("slti", vec![reg(1), reg(2), imm(0xffffffff)]),
        vec!["tmp1 <== to_signed(x2);", "x1 <=Y= is_positive(-1 - tmp1);"]
    );
    assert_eq!(
        lower("sltu", vec![reg(1), reg(2), reg(3)]),
        vec!["x1 <=Y= is_positive(x3 - x2);"]
    );
    assert_eq!(
        lower("seqz", vec![reg(1), reg(2)]),
        vec!["x1 <=Y= is_equal_zero(x2);"]
    );
}

#[test]
fn branch_lowering() {
    assert_eq!(
        lower("beq", vec![reg(1), reg(2), sym("target")]),
        vec!["branch_if_zero x1 - x2, target;"]
    );
    assert_eq!(
        lower("bltz", vec![reg(1), sym("a.b")]),
        vec!["branch_if_positive x1 - 2**31 + 1, a_dot_b;"]
    );
    assert_eq!(
        lower("bge", vec![reg(1), reg(2), sym("t")]),
        vec![
            "tmp1 <== to_signed(x1);",
            "tmp2 <== to_signed(x2);",
            "branch_if_positive tmp1 - tmp2 + 1, t;",
        ]
    );
}

#[test]
fn memory_lowering() {
    assert_eq!(
        lower("lw", vec![reg(1), off(2, 8)]),
        vec!["addr <== wrap(x2 + 8);", "x1 <== mload();"]
    );
    assert_eq!(
        lower("sw", vec![reg(1), off(2, 8)]),
        vec!["addr <== wrap(x2 + 8);", "mstore x1;"]
    );
    assert_eq!(
        lower("lb", vec![reg(1), off(2, 0)]),
        vec![
            "tmp1 <== wrap(x2 + 0);",
            "addr <== and(tmp1, 0xfffffffc);",
            "tmp2 <== and(tmp1, 0x3);",
            "x1 <== mload();",
            "x1 <== shr(x1, 8 * tmp2);",
            "x1 <== sign_extend_byte(x1);",
        ]
    );
    assert_eq!(lower("sb", vec![reg(1), off(2, 0)]).len(), 11);
}

#[test]
fn call_and_stub_substitution() {
    assert_eq!(lower("call", vec![sym("f")]), vec!["call f;"]);
    assert_eq!(
        lower("call", vec![sym("poseidon_coprocessor")]),
        vec!["x10 <== poseidon(x10, x11);"]
    );
    assert_eq!(
        lower("tail", vec![sym("poseidon_coprocessor")]),
        vec!["x10 <== poseidon(x10, x11);", "ret;"]
    );
    assert_eq!(lower("ret", vec![]), vec!["ret;"]);
    assert_eq!(lower("nop", vec![]), Vec::<String>::new());
    assert_eq!(lower("unimp", vec![]), vec!["fail;"]);
}

#[test]
fn destination_register_zero_elides_all_code() {
    let dest_zero_cases: Vec<(&str, Vec<Argument>)> = vec![
        ("li", vec![reg(0), imm(1)]),
        ("lui", vec![reg(0), imm(1)]),
        ("la", vec![reg(0), imm(1)]),
        ("mv", vec![reg(0), reg(1)]),
        ("add", vec![reg(0), reg(1), reg(2)]),
        ("addi", vec![reg(0), reg(1), imm(1)]),
        ("sub", vec![reg(0), reg(1), reg(2)]),
        ("neg", vec![reg(0), reg(1)]),
        ("mul", vec![reg(0), reg(1), reg(2)]),
        ("mulhu", vec![reg(0), reg(1), reg(2)]),
        ("divu", vec![reg(0), reg(1), reg(2)]),
        ("xor", vec![reg(0), reg(1), reg(2)]),
        ("xori", vec![reg(0), reg(1), imm(1)]),
        ("and", vec![reg(0), reg(1), reg(2)]),
        ("andi", vec![reg(0), reg(1), imm(1)]),
        ("or", vec![reg(0), reg(1), reg(2)]),
        ("ori", vec![reg(0), reg(1), imm(1)]),
        ("not", vec![reg(0), reg(1)]),
        ("slli", vec![reg(0), reg(1), imm(4)]),
        ("sll", vec![reg(0), reg(1), reg(2)]),
        ("srli", vec![reg(0), reg(1), imm(4)]),
        ("srl", vec![reg(0), reg(1), reg(2)]),
        ("srai", vec![reg(0), reg(1), imm(4)]),
        ("seqz", vec![reg(0), reg(1)]),
        ("snez", vec![reg(0), reg(1)]),
        ("slti", vec![reg(0), reg(1), imm(1)]),
        ("slt", vec![reg(0), reg(1), reg(2)]),
        ("sltiu", vec![reg(0), reg(1), imm(1)]),
        ("sltu", vec![reg(0), reg(1), reg(2)]),
        ("sgtz", vec![reg(0), reg(1)]),
        ("lw", vec![reg(0), off(1, 0)]),
        ("lb", vec![reg(0), off(1, 0)]),
        ("lbu", vec![reg(0), off(1, 0)]),
        ("lhu", vec![reg(0), off(1, 0)]),
        ("load_dynamic", vec![reg(0), sym("l")]),
    ];
    for (instr, args) in dest_zero_cases {
        let lines = process_instruction(instr, &args)
            .expect("a destination-register instruction lowers");
        assert!(lines.is_empty(), "{instr} with destination register 0 must emit nothing");
    }
    // Side-effect-only instructions are exempt: register 0 as a source still
    // emits the branch evaluation.
    let branch = process_instruction("beqz", &vec![reg(0), sym("t")]).unwrap();
    assert_eq!(branch, vec!["branch_if_zero x0, t;"]);
}

#[test]
fn unknown_instruction_is_an_error() {
    let e = process_instruction("frobnicate", &vec![]).unwrap_err();
    assert!(matches!(e, CompileError::UnsupportedInstruction(_)));
    assert_eq!(
        e.message(),
        "unsupported instruction: frobnicate".to_string()
    );
    let e = process_instruction("jal", &vec![reg(1), sym("t")]).unwrap_err();
    assert!(matches!(e, CompileError::UnsupportedInstruction(_)));
}

#[test]
fn malformed_operands_are_an_error() {
    let e = process_instruction("add", &vec![reg(1), reg(2)]).unwrap_err();
    assert!(matches!(e, CompileError::MalformedOperands(_)));
    let e = process_instruction("slli", &vec![reg(1), reg(2), imm(32)]).unwrap_err();
    assert!(matches!(e, CompileError::MalformedOperands(_)));
    let e = process_instruction("ecall", &vec![reg(1)]).unwrap_err();
    assert!(matches!(e, CompileError::MalformedOperands(_)));
}

#[test]
fn unresolved_constant_is_an_error() {
    let e = process_instruction("li", &vec![reg(1), sym("unresolved")]).unwrap_err();
    assert!(matches!(e, CompileError::UnresolvedConstant(_)));
}
