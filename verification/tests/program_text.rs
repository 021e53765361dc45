use riscv_pil::Risc;
use riscv_pil::Register;
use riscv_pil::ast::Argument;
use riscv_pil::ast::DataObject;
use riscv_pil::ast::DataValue;
use riscv_pil::ast::Expression;
use riscv_pil::ast::Statement;
use riscv_pil::program::DebugFile;
use riscv_pil::program::machine_decls;
use riscv_pil::program::preamble;
use riscv_pil::program::process_statement;
use riscv_pil::program::runtime;
use riscv_pil::text::dec_u32;
use riscv_pil::text::dec_i64;
use riscv_pil::text::escape_label;
use riscv_pil::text::hex_u32;
use riscv_pil::text::quote;

#[test]
fn text_rendering_helpers() {
    assert_eq!(dec_u32(0), "0");
    assert_eq!(dec_u32(65536), "65536");
    assert_eq!(dec_i64(-42), "-42");
    assert_eq!(hex_u32(0x1010c), "1010c");
    assert_eq!(escape_label("a.b/c"), "a_dot_b_slash_c");
    assert_eq!(quote(r#"di\r"qu"#), r#""di\\r\"qu""#);
}

#[test]
fn fixed_templates_are_complete() {
    let machines = machine_decls();
    assert_eq!(machines.len(), 3);
    assert!(machines[0].contains("machine Binary(latch, function_id)"));
    assert!(machines[1].contains("machine Shift(latch, function_id)"));
    let pre = preamble();
    assert!(pre.contains("\t\treg x0;\n"));
    assert!(pre.contains("\t\treg x31;\n"));
    assert!(pre.contains("instr divu Y, X -> Z"));
    assert!(runtime().contains("poseidon_coprocessor:"));
}

#[test]
fn statements_become_program_lines() {
    let label = Statement::Label(String::from("f.init"));
    assert_eq!(process_statement(&label).unwrap(), vec!["f_dot_init::"]);
    let loc = Statement::Directive(
        String::from(".loc"),
        vec![
            Argument::Expression(Expression::Number(1)),
            Argument::Expression(Expression::Number(7)),
            Argument::Expression(Expression::Number(3)),
        ],
    );
    assert_eq!(process_statement(&loc).unwrap(), vec!["  debug loc 1 7 3;"]);
    let cfi = Statement::Directive(String::from(".cfi_startproc"), vec![]);
    assert_eq!(process_statement(&cfi).unwrap(), Vec::<String>::new());
    let leftover = Statement::Directive(String::from(".weird"), vec![]);
    assert!(process_statement(&leftover).is_err());
    let instr = Statement::Instruction(
        String::from("mv"),
        vec![
            Argument::Register(Register::new(1)),
            Argument::Register(Register::new(2)),
        ],
    );
    assert_eq!(process_statement(&instr).unwrap(), vec!["  x1 <=X= x2;"]);
}

#[test]
fn compile_assembles_a_whole_program() {
    let statements = vec![
        Statement::Label(String::from("__runtime_start")),
        Statement::Instruction(
            String::from("li"),
            vec![
                Argument::Register(Register::new(10)),
                Argument::Expression(Expression::Symbol(String::from("msg"))),
            ],
        ),
        Statement::Instruction(String::from("ret"), vec![]),
    ];
    let objects = vec![DataObject {
        name: String::from("msg"),
        values: vec![DataValue::Direct(vec![1, 2, 3, 4])],
    }];
    let files = vec![DebugFile {
        id: 1,
        dir: String::from("/src"),
        file: String::from("main.s"),
    }];
    let text = Risc::compile(statements, objects, files).unwrap();
    assert!(text.contains("machine Main {"));
    assert!(text.contains("\t\tBinary binary;"));
    assert!(text.contains("\t\tShift shift;"));
    assert!(text.contains("\t\tdebug file 1 \"/src\" \"main.s\";"));
    assert!(text.contains("\t\tcall __data_init;"));
    assert!(text.contains("// Set stack pointer\nx2 <=X= 65536;"));
    assert!(text.contains("\t\tcall __runtime_start;"));
    assert!(text.contains("__runtime_start::"));
    // The data address 0x10100 was substituted into the immediate.
    assert!(text.contains("  x10 <=X= 65792;"));
    assert!(text.contains("// data msg\naddr <=X= 0x10100;"));
    assert!(text.contains("mstore 0x4030201;"));
    assert!(text.ends_with("}    \n"));
}

#[test]
fn compile_reports_the_first_fatal_error() {
    let statements = vec![Statement::Instruction(String::from("frobnicate"), vec![])];
    let e = Risc::compile(statements, vec![], vec![]).unwrap_err();
    assert_eq!(e.message(), "unsupported instruction: frobnicate");
}
