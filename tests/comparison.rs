use wasm_xlsxwriter::comparison::{
    compare_methods, ComparisonResults, EnumComparison, MigrationStatus, StructComparison,
};
use wasm_xlsxwriter::items::{EnumInfo, ExtractedItems, FunctionInfo, MethodInfo, StructInfo};
use wasm_xlsxwriter::report::comparison_report;

fn method(owner: &str, name: &str) -> MethodInfo {
    MethodInfo {
        method_name: name.to_string(),
        doc: None,
        sig: None,
        struct_name: owner.to_string(),
    }
}

fn function(owner: &str, name: &str) -> FunctionInfo {
    FunctionInfo {
        name: name.to_string(),
        doc: None,
        sig: None,
        module_name: owner.to_string(),
    }
}

fn item(name: &str, methods: &[&str], functions: &[&str]) -> StructInfo {
    StructInfo {
        name: name.to_string(),
        doc: None,
        methods: methods.iter().map(|m| method(name, m)).collect(),
        functions: functions.iter().map(|f| function(name, f)).collect(),
    }
}

fn enum_item(name: &str) -> EnumInfo {
    EnumInfo {
        name: name.to_string(),
        doc: None,
    }
}

fn strings(v: &[&str]) -> Vec<String> {
    v.iter().map(|s| s.to_string()).collect()
}

fn sample() -> (ExtractedItems, ExtractedItems) {
    let wasm = ExtractedItems {
        structs: vec![
            item("Format", &["set_italic", "set_bold", "lock"], &["new"]),
            item("Workbook", &["add_worksheet"], &["new"]),
            item("Color", &[], &[]),
        ],
        enums: vec![enum_item("FormatAlign"), enum_item("Extra")],
    };
    let rust = ExtractedItems {
        structs: vec![
            item("Workbook", &["add_worksheet"], &["new"]),
            item("Format", &["set_bold", "set_italic", "set_font_name"], &["new"]),
            item("Chart", &["add_series"], &["new"]),
            item("Empty", &[], &[]),
        ],
        enums: vec![enum_item("FormatAlign"), enum_item("Color"), enum_item("ChartType")],
    };
    (wasm, rust)
}

#[test]
fn compare_methods_classifies_structs() {
    let (wasm, rust) = sample();
    let r = compare_methods(&wasm, &rust);
    let names: Vec<&str> = r.structs.iter().map(|c| c.name.as_str()).collect();
    assert_eq!(names, vec!["Chart", "Format", "Workbook"]);

    let chart = &r.structs[0];
    assert_eq!(chart.status, MigrationStatus::NotMigrated);
    assert_eq!(chart.rust_only_methods, strings(&["add_series"]));
    assert_eq!(chart.rust_only_functions, strings(&["new"]));
    assert!(chart.common_methods.is_empty());

    let format = &r.structs[1];
    assert_eq!(format.status, MigrationStatus::PartiallyMigrated);
    assert_eq!(format.common_methods, strings(&["set_bold", "set_italic"]));
    assert_eq!(format.wasm_only_methods, strings(&["lock"]));
    assert_eq!(format.rust_only_methods, strings(&["set_font_name"]));
    assert_eq!(format.common_functions, strings(&["new"]));
    assert!(format.wasm_only_functions.is_empty());
    assert!(format.rust_only_functions.is_empty());

    let workbook = &r.structs[2];
    assert_eq!(workbook.status, MigrationStatus::FullyMigrated);
}

#[test]
fn compare_methods_classifies_enums() {
    let (wasm, rust) = sample();
    let r = compare_methods(&wasm, &rust);
    let got: Vec<(&str, MigrationStatus)> =
        r.enums.iter().map(|e| (e.name.as_str(), e.status)).collect();
    assert_eq!(
        got,
        vec![
            ("ChartType", MigrationStatus::NotMigrated),
            ("Color", MigrationStatus::FullyMigrated),
            ("Extra", MigrationStatus::NotMigrated),
            ("FormatAlign", MigrationStatus::FullyMigrated),
        ]
    );
}

#[test]
fn compare_methods_on_empty_crates() {
    let empty = || ExtractedItems { structs: vec![], enums: vec![] };
    let r = compare_methods(&empty(), &empty());
    assert!(r.structs.is_empty());
    assert!(r.enums.is_empty());
}

#[test]
fn compare_methods_later_struct_of_a_name_wins() {
    let wasm = ExtractedItems { structs: vec![], enums: vec![] };
    let rust = ExtractedItems {
        structs: vec![item("Dup", &["first"], &[]), item("Dup", &["second"], &[])],
        enums: vec![],
    };
    let r = compare_methods(&wasm, &rust);
    assert_eq!(r.structs.len(), 1);
    assert_eq!(r.structs[0].rust_only_methods, strings(&["second"]));
}

#[test]
fn report_lists_counts_and_details() {
    let (wasm, rust) = sample();
    let r = compare_methods(&wasm, &rust);
    let report = comparison_report(&r);
    let lines = [
        "# Method Comparison Report: rustxlsxwriter to wasm-xlsxwriter Migration",
        "",
        "## Summary",
        "  - ✅ Fully Migrated Structs: 1",
        "  - ⚠️ Partially Migrated Structs: 1",
        "  - ❌ Not Migrated Structs: 1",
        "  - ✅ Migrated Enums: 2",
        "  - ❌ Not Migrated Enums: 2",
        "  - ✅ Total Migrated Methods: 3",
        "  - ❌ Total Not Migrated Methods: 2",
        "  - ✅ Total Migrated Functions: 2",
        "  - ❌ Total Not Migrated Functions: 1",
        "## Details of Structs",
        "  ### ✅ Workbook",
        "  ### ⚠️ Format",
        "    Summary",
        "      - Migrated methods: 2",
        "      - Not migrated methods: 1",
        "      - Migrated functions: 1",
        "      - Not migrated functions: 0",
        "    ❌ Methods Not Yet Migrated",
        "      - set_font_name",
        "  ### ❌ Chart",
        "    Summary",
        "      - Migrated methods: 0",
        "      - Not migrated methods: 1",
        "      - Migrated functions: 0",
        "      - Not migrated functions: 1",
        "    ❌ Methods Not Yet Migrated",
        "      - add_series",
        "    ❌ Functions Not Yet Migrated",
        "      - new",
        "",
        "## ✅ Migrated Enums",
        "  - Color",
        "  - FormatAlign",
        "",
        "## ❌ Not Migrated Enums",
        "  - ChartType",
        "  - Extra",
    ];
    let expected: String = lines.iter().map(|l| format!("{}\n", l)).collect();
    assert_eq!(report, expected);
}

#[test]
fn report_prints_multi_digit_counts() {
    let many: Vec<String> = (0..123).map(|i| format!("m{}", i)).collect();
    let r = ComparisonResults {
        structs: vec![StructComparison {
            name: "Big".to_string(),
            status: MigrationStatus::FullyMigrated,
            common_methods: many,
            wasm_only_methods: vec![],
            rust_only_methods: vec![],
            common_functions: vec![],
            wasm_only_functions: vec![],
            rust_only_functions: vec![],
        }],
        enums: vec![EnumComparison { name: "E".to_string(), status: MigrationStatus::NotMigrated }],
    };
    let report = comparison_report(&r);
    assert!(report.contains("  - ✅ Total Migrated Methods: 123\n"));
    assert!(report.contains("  ### ✅ Big\n"));
    assert!(report.ends_with("\n## ❌ Not Migrated Enums\n  - E\n"));
}
