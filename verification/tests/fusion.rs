use riscv_pil::FunctionKind;
use riscv_pil::Register;
use riscv_pil::ast::Argument;
use riscv_pil::ast::DataObject;
use riscv_pil::ast::DataValue;
use riscv_pil::ast::Expression;
use riscv_pil::ast::Statement;
use riscv_pil::fuser::replace_dynamic_label_references;

fn lui(rd: u8, label: &str) -> Statement {
    Statement::Instruction(
        String::from("lui"),
        vec![
            Argument::Register(Register::new(rd)),
            Argument::Expression(Expression::FunctionOp(
                FunctionKind::HiDataRef,
                Box::new(Expression::Symbol(String::from(label))),
            )),
        ],
    )
}

fn addi_lo(rd: u8, rs: u8, label: &str) -> Statement {
    Statement::Instruction(
        String::from("addi"),
        vec![
            Argument::Register(Register::new(rd)),
            Argument::Register(Register::new(rs)),
            Argument::Expression(Expression::FunctionOp(
                FunctionKind::LoDataRef,
                Box::new(Expression::Symbol(String::from(label))),
            )),
        ],
    )
}

fn data_object(name: &str) -> DataObject {
    DataObject { name: String::from(name), values: vec![DataValue::Zero(4)] }
}

fn instruction_names(stmts: &[Statement]) -> Vec<String> {
    stmts
        .iter()
        .filter_map(|s| match s {
            Statement::Instruction(name, _) => Some(name.clone()),
            _ => None,
        })
        .collect()
}

#[test]
fn fuses_hi_lo_pair_into_one_pseudo_instruction() {
    let stmts = vec![lui(10, "L"), addi_lo(26, 10, "L")];
    let out = replace_dynamic_label_references(stmts, &vec![]);
    assert_eq!(instruction_names(&out), vec!["load_dynamic".to_string()]);
    match &out[0] {
        Statement::Instruction(_, args) => {
            assert!(matches!(&args[0], Argument::Register(r) if r.index() == 26));
            assert!(
                matches!(&args[1], Argument::Expression(Expression::Symbol(l)) if l == "L")
            );
        }
        _ => panic!("expected an instruction"),
    }
}

#[test]
fn fuses_across_intervening_labels_and_directives() {
    let stmts = vec![
        lui(10, "L"),
        Statement::Label(String::from("between")),
        Statement::Directive(String::from(".file"), vec![]),
        addi_lo(26, 10, "L"),
    ];
    let out = replace_dynamic_label_references(stmts, &vec![]);
    assert_eq!(out.len(), 3);
    assert_eq!(instruction_names(&out), vec!["load_dynamic".to_string()]);
}

#[test]
fn does_not_fuse_when_registers_differ() {
    let stmts = vec![lui(10, "L"), addi_lo(26, 11, "L")];
    let out = replace_dynamic_label_references(stmts, &vec![]);
    assert_eq!(instruction_names(&out), vec!["lui".to_string(), "addi".to_string()]);
}

#[test]
fn does_not_fuse_a_data_object_reference() {
    let stmts = vec![lui(10, "L"), addi_lo(26, 10, "L")];
    let out = replace_dynamic_label_references(stmts, &vec![data_object("L")]);
    assert_eq!(instruction_names(&out), vec!["lui".to_string(), "addi".to_string()]);
}

#[test]
fn does_not_fuse_different_symbols() {
    let stmts = vec![lui(10, "L1"), addi_lo(26, 10, "L2")];
    let out = replace_dynamic_label_references(stmts, &vec![]);
    assert_eq!(instruction_names(&out), vec!["lui".to_string(), "addi".to_string()]);
}
