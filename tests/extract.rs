use rustdoc_types::FunctionSignature;
use wasm_xlsxwriter::extract::{extract_crate_items, IndexItem, IndexItemKind};

fn sig() -> FunctionSignature {
    FunctionSignature { inputs: vec![], output: None, is_c_variadic: false }
}

fn item(id: u32, name: Option<&str>, is_public: bool, inner: IndexItemKind) -> IndexItem {
    IndexItem {
        id,
        name: name.map(|n| n.to_string()),
        is_public,
        docs: name.map(|n| format!("Docs of {}.", n)),
        inner,
    }
}

fn function(inputs: &[&str]) -> IndexItemKind {
    IndexItemKind::Function {
        input_names: inputs.iter().map(|s| s.to_string()).collect(),
        sig: sig(),
    }
}

fn sample() -> Vec<IndexItem> {
    vec![
        item(1, Some("Workbook"), true, IndexItemKind::Struct),
        item(2, Some("Format"), true, IndexItemKind::Struct),
        item(3, Some("Hidden"), false, IndexItemKind::Struct),
        item(4, Some("FormatAlign"), true, IndexItemKind::Enum),
        item(5, Some("Color"), true, IndexItemKind::Enum),
        item(10, None, false, IndexItemKind::Impl { for_id: Some(2), items: vec![11, 12, 13, 14, 15, 99] }),
        item(11, Some("set_italic"), true, function(&["self"])),
        item(12, Some("new"), true, function(&[])),
        item(13, Some("clone"), true, function(&["self"])),
        item(14, Some("set_bold"), true, function(&["self", "enable"])),
        item(15, Some("private_helper"), false, function(&["self"])),
        item(20, None, false, IndexItemKind::Impl { for_id: Some(1), items: vec![21] }),
        item(21, Some("add_worksheet"), true, function(&["self"])),
        item(30, None, false, IndexItemKind::Impl { for_id: Some(3), items: vec![21] }),
        item(40, None, false, IndexItemKind::Impl { for_id: None, items: vec![11] }),
    ]
}

#[test]
fn extract_finds_public_structs_sorted_by_name() {
    let r = extract_crate_items(&sample());
    let names: Vec<&str> = r.structs.iter().map(|s| s.name.as_str()).collect();
    assert_eq!(names, vec!["Format", "Workbook"]);
    assert_eq!(r.structs[0].doc.as_deref(), Some("Docs of Format."));
}

#[test]
fn extract_sorts_methods_and_skips_standard_ones() {
    let r = extract_crate_items(&sample());
    let format = &r.structs[0];
    let methods: Vec<&str> = format.methods.iter().map(|m| m.method_name.as_str()).collect();
    assert_eq!(methods, vec!["set_bold", "set_italic"]);
    assert!(format.methods.iter().all(|m| m.struct_name == "Format" && m.sig.is_some()));
    let functions: Vec<&str> = format.functions.iter().map(|f| f.name.as_str()).collect();
    assert_eq!(functions, vec!["new"]);
    assert_eq!(format.functions[0].module_name, "Format");
    let workbook = &r.structs[1];
    assert_eq!(workbook.methods.len(), 1);
    assert_eq!(workbook.methods[0].method_name, "add_worksheet");
    assert!(workbook.functions.is_empty());
}

#[test]
fn extract_sorts_enums() {
    let r = extract_crate_items(&sample());
    let names: Vec<&str> = r.enums.iter().map(|e| e.name.as_str()).collect();
    assert_eq!(names, vec!["Color", "FormatAlign"]);
}

#[test]
fn extract_of_empty_index() {
    let r = extract_crate_items(&vec![]);
    assert!(r.structs.is_empty());
    assert!(r.enums.is_empty());
}

#[test]
fn extract_keeps_later_struct_of_an_id() {
    let index = vec![
        item(1, Some("Old"), true, IndexItemKind::Struct),
        item(1, Some("New"), true, IndexItemKind::Struct),
    ];
    let r = extract_crate_items(&index);
    assert_eq!(r.structs.len(), 1);
    assert_eq!(r.structs[0].name, "New");
}
