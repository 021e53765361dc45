use riscv_pil::ast::CompileError;
use riscv_pil::ast::DataObject;
use riscv_pil::ast::DataValue;
use riscv_pil::data::store_data_objects;
use riscv_pil::program::reorder_large_object;

fn msg() -> DataObject {
    DataObject {
        name: String::from("msg"),
        values: vec![DataValue::Direct(vec![
            104, 101, 108, 108, 111, 32, 119, 111, 114, 108, 100, 33,
        ])],
    }
}

fn heap() -> DataObject {
    DataObject { name: String::from("heap"), values: vec![DataValue::Zero(0x3000)] }
}

// Data layout determinism: `msg` (12 direct bytes) and `heap` (0x3000 zero
// bytes) supplied in that order with start address 0x10100: `heap` exceeds
// the 0x2000 threshold and moves last, `msg` sits at 0x10100, and `heap`
// follows at the next multiple-of-4 address.
#[test]
fn layout_places_msg_first_and_heap_last() {
    let objects = reorder_large_object(vec![heap(), msg()]);
    assert_eq!(objects[0].name, "msg");
    assert_eq!(objects[1].name, "heap");
    let (_, positions) = store_data_objects(&objects, 0x10100).unwrap();
    assert_eq!(positions.get("msg"), Some(0x10100));
    assert_eq!(positions.get("heap"), Some(0x1010c));
    assert_eq!(positions.get("absent"), None);
}

#[test]
fn layout_is_deterministic() {
    let once = store_data_objects(&reorder_large_object(vec![msg(), heap()]), 0x10100).unwrap();
    let again = store_data_objects(&reorder_large_object(vec![msg(), heap()]), 0x10100).unwrap();
    assert_eq!(once.0, again.0);
    assert_eq!(once.1.get("heap"), again.1.get("heap"));
}

#[test]
fn two_oversized_objects_keep_their_order() {
    let objects = reorder_large_object(vec![heap(), msg(), heap()]);
    assert_eq!(objects[0].name, "heap");
    assert_eq!(objects[1].name, "msg");
    assert_eq!(objects[2].name, "heap");
}

#[test]
fn start_address_rounds_up_to_a_multiple_of_eight() {
    let (_, positions) = store_data_objects(&vec![msg()], 0x10101).unwrap();
    assert_eq!(positions.get("msg"), Some(0x10108));
}

#[test]
fn zero_runs_emit_no_code_and_nonzero_words_are_stored() {
    let objects = vec![DataObject {
        name: String::from("mixed"),
        values: vec![
            DataValue::Zero(8),
            DataValue::Direct(vec![1, 0, 0, 0, 0, 0, 0, 0, 2]),
        ],
    }];
    let (code, _) = store_data_objects(&objects, 0x1000).unwrap();
    // The zero run and the all-zero middle word emit nothing; the first line
    // carries the object comment.
    assert_eq!(
        code,
        vec![
            "// data mixed\naddr <=X= 0x1008;".to_string(),
            "mstore 0x1;".to_string(),
            "addr <=X= 0x1010;".to_string(),
            "mstore 0x2;".to_string(),
        ]
    );
}

#[test]
fn reference_to_data_object_stores_its_address() {
    let objects = vec![
        DataObject {
            name: String::from("a"),
            values: vec![DataValue::Reference(String::from("b"))],
        },
        DataObject {
            name: String::from("b"),
            values: vec![DataValue::Reference(String::from("code.label"))],
        },
    ];
    let (code, positions) = store_data_objects(&objects, 0x1000).unwrap();
    assert_eq!(positions.get("a"), Some(0x1000));
    assert_eq!(positions.get("b"), Some(0x1004));
    assert_eq!(
        code,
        vec![
            "// data a\naddr <=X= 0x1000;".to_string(),
            "mstore 0x1004;".to_string(),
            "// data b\naddr <=X= 0x1004;".to_string(),
            "tmp1 <== load_label(code_dot_label);".to_string(),
            "mstore tmp1;".to_string(),
        ]
    );
}

#[test]
fn offset_chunk_is_an_unimplemented_relocation() {
    let objects = vec![DataObject {
        name: String::from("bad"),
        values: vec![DataValue::Offset(String::from("a"), String::from("b"))],
    }];
    let e = store_data_objects(&objects, 0x1000).unwrap_err();
    assert!(matches!(e, CompileError::UnimplementedRelocation));
}
