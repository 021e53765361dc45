use riscv_pil::Register;
use riscv_pil::ast::Statement;
use riscv_pil::stubs::remove_matching_and_next;
use riscv_pil::stubs::replace_coprocessor_stubs;

#[test]
fn test_remove_matching_and_next_integers() {
    assert_eq!(
        remove_matching_and_next(vec![0, 1, 2, 0, 2, 0, 0, 3, 2, 1], |i: &i32| *i == 0),
        vec![2, 2, 1]
    );
}

#[test]
fn test_remove_matching_and_next_strings() {
    assert_eq!(
        remove_matching_and_next(
            vec![
                "croissant",
                "pain au chocolat",
                "chausson aux pommes",
                "croissant" // corner case: if the label is at the end of the program
            ],
            |s: &&str| *s == "croissant"
        ),
        vec!["chausson aux pommes"]
    );
}

fn label(name: &str) -> Statement {
    Statement::Label(String::from(name))
}

fn instr(name: &str) -> Statement {
    Statement::Instruction(String::from(name), Vec::new())
}

fn is_label(s: &Statement, name: &str) -> bool {
    match s {
        Statement::Label(l) => l == name,
        _ => false,
    }
}

fn is_instr(s: &Statement, name: &str) -> bool {
    match s {
        Statement::Instruction(i, _) => i == name,
        _ => false,
    }
}

#[test]
fn stub_label_and_body_removed() {
    let stmts = vec![
        label("keep"),
        instr("ret"),
        label("poseidon_coprocessor"),
        instr("ret"),
        instr("nop"),
    ];
    let out = replace_coprocessor_stubs(stmts);
    assert_eq!(out.len(), 3);
    assert!(is_label(&out[0], "keep"));
    assert!(is_instr(&out[1], "ret"));
    assert!(is_instr(&out[2], "nop"));
}

#[test]
fn stub_label_at_end_removed() {
    let stmts = vec![label("keep"), instr("ret"), label("poseidon_coprocessor")];
    let out = replace_coprocessor_stubs(stmts);
    assert_eq!(out.len(), 2);
    assert!(is_label(&out[0], "keep"));
    assert!(is_instr(&out[1], "ret"));
}

#[test]
fn register_zero_is_zero() {
    assert!(Register::new(0).is_zero());
    assert!(!Register::new(5).is_zero());
    assert_eq!(Register::new(17).index(), 17);
}
