use rust_xlsxwriter as xlsx;
use wasm_xlsxwriter::bridge::{
    ChartLineDashType, ChartType, Color, FormatAlign, FormatBorder, ObjectMovement, TableStyle,
};

#[test]
fn dash_types_map_to_their_counterparts() {
    assert!(xlsx::ChartLineDashType::from(ChartLineDashType::Solid) == xlsx::ChartLineDashType::Solid);
    assert!(
        xlsx::ChartLineDashType::from(ChartLineDashType::LongDashDotDot)
            == xlsx::ChartLineDashType::LongDashDotDot
    );
}

#[test]
fn table_styles_map_to_their_counterparts() {
    assert!(xlsx::TableStyle::from(TableStyle::NoStyle) == xlsx::TableStyle::None);
    assert!(xlsx::TableStyle::from(TableStyle::Medium9) == xlsx::TableStyle::Medium9);
    assert!(xlsx::TableStyle::from(TableStyle::Dark11) == xlsx::TableStyle::Dark11);
}

#[test]
fn colors_keep_their_values() {
    assert_eq!(xlsx::Color::from(Color::RGB(0x12_34_56)), xlsx::Color::RGB(0x12_34_56));
    assert_eq!(xlsx::Color::from(Color::Theme(3, 4)), xlsx::Color::Theme(3, 4));
    assert_eq!(xlsx::Color::from(Color::Navy), xlsx::Color::Navy);
    assert_eq!(xlsx::Color::from(Color::default()), xlsx::Color::Default);
}

#[test]
fn format_enums_map_to_their_counterparts() {
    assert_eq!(xlsx::FormatAlign::from(FormatAlign::Center), xlsx::FormatAlign::Center);
    assert_eq!(xlsx::FormatBorder::from(FormatBorder::NoBorder), xlsx::FormatBorder::None);
    assert_eq!(xlsx::FormatBorder::from(FormatBorder::Thin), xlsx::FormatBorder::Thin);
    assert!(xlsx::ObjectMovement::from(ObjectMovement::DontMoveOrSizeWithCells)
        == xlsx::ObjectMovement::DontMoveOrSizeWithCells);
    assert!(matches!(xlsx::ChartType::from(ChartType::Pie), xlsx::ChartType::Pie));
}
