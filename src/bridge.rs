//! The enumerations that the bindings offer and their counterparts in the
//! spreadsheet library, variant for variant.
use vstd::prelude::*;
use rust_xlsxwriter::ChartDataLabelPosition as XlsxChartDataLabelPosition;
use rust_xlsxwriter::ChartEmptyCells as XlsxChartEmptyCells;
use rust_xlsxwriter::ChartGradientFillType as XlsxChartGradientFillType;
use rust_xlsxwriter::ChartLegendPosition as XlsxChartLegendPosition;
use rust_xlsxwriter::ChartLineDashType as XlsxChartLineDashType;
use rust_xlsxwriter::ChartMarkerType as XlsxChartMarkerType;
use rust_xlsxwriter::ChartType as XlsxChartType;
use rust_xlsxwriter::FormatAlign as XlsxFormatAlign;
use rust_xlsxwriter::FormatBorder as XlsxFormatBorder;
use rust_xlsxwriter::FormatDiagonalBorder as XlsxFormatDiagonalBorder;
use rust_xlsxwriter::FormatPattern as XlsxFormatPattern;
use rust_xlsxwriter::FormatScript as XlsxFormatScript;
use rust_xlsxwriter::FormatUnderline as XlsxFormatUnderline;
use rust_xlsxwriter::HeaderImagePosition as XlsxHeaderImagePosition;
use rust_xlsxwriter::ObjectMovement as XlsxObjectMovement;
use rust_xlsxwriter::TableStyle as XlsxTableStyle;
use rust_xlsxwriter::Color as XlsxColor;

verus! {

#[verifier::external_type_specification]
pub struct ExXlsxChartDataLabelPosition(XlsxChartDataLabelPosition);

/// The position of the data labels of a chart series.
#[derive(Debug, Clone, Copy, PartialEq, Eq, Structural)]
pub enum ChartDataLabelPosition {
    Default,
    Center,
    Right,
    Left,
    Above,
    Below,
    InsideBase,
    InsideEnd,
    OutsideEnd,
    BestFit,
}

/// The counterpart of each variant in the spreadsheet library.
pub open spec fn chart_data_label_position_in_library(value: ChartDataLabelPosition) -> XlsxChartDataLabelPosition {
    match value {
        ChartDataLabelPosition::Default => XlsxChartDataLabelPosition::Default,
        ChartDataLabelPosition::Center => XlsxChartDataLabelPosition::Center,
        ChartDataLabelPosition::Right => XlsxChartDataLabelPosition::Right,
        ChartDataLabelPosition::Left => XlsxChartDataLabelPosition::Left,
        ChartDataLabelPosition::Above => XlsxChartDataLabelPosition::Above,
        ChartDataLabelPosition::Below => XlsxChartDataLabelPosition::Below,
        ChartDataLabelPosition::InsideBase => XlsxChartDataLabelPosition::InsideBase,
        ChartDataLabelPosition::InsideEnd => XlsxChartDataLabelPosition::InsideEnd,
        ChartDataLabelPosition::OutsideEnd => XlsxChartDataLabelPosition::OutsideEnd,
        ChartDataLabelPosition::BestFit => XlsxChartDataLabelPosition::BestFit,
    }
}

impl From<ChartDataLabelPosition> for XlsxChartDataLabelPosition {
    fn from(value: ChartDataLabelPosition) -> (r: Self)
        ensures
            r == chart_data_label_position_in_library(value),
    {
        match value {
            ChartDataLabelPosition::Default => XlsxChartDataLabelPosition::Default,
            ChartDataLabelPosition::Center => XlsxChartDataLabelPosition::Center,
            ChartDataLabelPosition::Right => XlsxChartDataLabelPosition::Right,
            ChartDataLabelPosition::Left => XlsxChartDataLabelPosition::Left,
            ChartDataLabelPosition::Above => XlsxChartDataLabelPosition::Above,
            ChartDataLabelPosition::Below => XlsxChartDataLabelPosition::Below,
            ChartDataLabelPosition::InsideBase => XlsxChartDataLabelPosition::InsideBase,
            ChartDataLabelPosition::InsideEnd => XlsxChartDataLabelPosition::InsideEnd,
            ChartDataLabelPosition::OutsideEnd => XlsxChartDataLabelPosition::OutsideEnd,
            ChartDataLabelPosition::BestFit => XlsxChartDataLabelPosition::BestFit,
        }
    }
}

impl vstd::std_specs::convert::FromSpecImpl<ChartDataLabelPosition> for XlsxChartDataLabelPosition {
    open spec fn obeys_from_spec() -> bool {
        true
    }

    open spec fn from_spec(value: ChartDataLabelPosition) -> Self {
        chart_data_label_position_in_library(value)
    }
}

#[verifier::external_type_specification]
pub struct ExXlsxChartEmptyCells(XlsxChartEmptyCells);

/// How a chart shows empty cells of its data.
#[derive(Debug, Clone, Copy, PartialEq, Eq, Structural)]
pub enum ChartEmptyCells {
    Gaps,
    Zero,
    Connected,
}

/// The counterpart of each variant in the spreadsheet library.
pub open spec fn chart_empty_cells_in_library(value: ChartEmptyCells) -> XlsxChartEmptyCells {
    match value {
        ChartEmptyCells::Gaps => XlsxChartEmptyCells::Gaps,
        ChartEmptyCells::Zero => XlsxChartEmptyCells::Zero,
        ChartEmptyCells::Connected => XlsxChartEmptyCells::Connected,
    }
}

impl From<ChartEmptyCells> for XlsxChartEmptyCells {
    fn from(value: ChartEmptyCells) -> (r: Self)
        ensures
            r == chart_empty_cells_in_library(value),
    {
        match value {
            ChartEmptyCells::Gaps => XlsxChartEmptyCells::Gaps,
            ChartEmptyCells::Zero => XlsxChartEmptyCells::Zero,
            ChartEmptyCells::Connected => XlsxChartEmptyCells::Connected,
        }
    }
}

impl vstd::std_specs::convert::FromSpecImpl<ChartEmptyCells> for XlsxChartEmptyCells {
    open spec fn obeys_from_spec() -> bool {
        true
    }

    open spec fn from_spec(value: ChartEmptyCells) -> Self {
        chart_empty_cells_in_library(value)
    }
}

#[verifier::external_type_specification]
pub struct ExXlsxChartGradientFillType(XlsxChartGradientFillType);

/// The kind of a chart gradient fill.
#[derive(Debug, Clone, Copy, PartialEq, Eq, Structural)]
pub enum ChartGradientFillType {
    Linear,
    Radial,
    Rectangular,
    Path,
}

/// The counterpart of each variant in the spreadsheet library.
pub open spec fn chart_gradient_fill_type_in_library(value: ChartGradientFillType) -> XlsxChartGradientFillType {
    match value {
        ChartGradientFillType::Linear => XlsxChartGradientFillType::Linear,
        ChartGradientFillType::Radial => XlsxChartGradientFillType::Radial,
        ChartGradientFillType::Rectangular => XlsxChartGradientFillType::Rectangular,
        ChartGradientFillType::Path => XlsxChartGradientFillType::Path,
    }
}

impl From<ChartGradientFillType> for XlsxChartGradientFillType {
    fn from(value: ChartGradientFillType) -> (r: Self)
        ensures
            r == chart_gradient_fill_type_in_library(value),
    {
        match value {
            ChartGradientFillType::Linear => XlsxChartGradientFillType::Linear,
            ChartGradientFillType::Radial => XlsxChartGradientFillType::Radial,
            ChartGradientFillType::Rectangular => XlsxChartGradientFillType::Rectangular,
            ChartGradientFillType::Path => XlsxChartGradientFillType::Path,
        }
    }
}

impl vstd::std_specs::convert::FromSpecImpl<ChartGradientFillType> for XlsxChartGradientFillType {
    open spec fn obeys_from_spec() -> bool {
        true
    }

    open spec fn from_spec(value: ChartGradientFillType) -> Self {
        chart_gradient_fill_type_in_library(value)
    }
}

#[verifier::external_type_specification]
pub struct ExXlsxChartLegendPosition(XlsxChartLegendPosition);

/// The position of a chart legend.
#[derive(Debug, Clone, Copy, PartialEq, Eq, Structural)]
pub enum ChartLegendPosition {
    Bottom,
    Left,
    Right,
    Top,
}

/// The counterpart of each variant in the spreadsheet library.
pub open spec fn chart_legend_position_in_library(value: ChartLegendPosition) -> XlsxChartLegendPosition {
    match value {
        ChartLegendPosition::Bottom => XlsxChartLegendPosition::Bottom,
        ChartLegendPosition::Left => XlsxChartLegendPosition::Left,
        ChartLegendPosition::Right => XlsxChartLegendPosition::Right,
        ChartLegendPosition::Top => XlsxChartLegendPosition::Top,
    }
}

impl From<ChartLegendPosition> for XlsxChartLegendPosition {
    fn from(value: ChartLegendPosition) -> (r: Self)
        ensures
            r == chart_legend_position_in_library(value),
    {
        match value {
            ChartLegendPosition::Bottom => XlsxChartLegendPosition::Bottom,
            ChartLegendPosition::Left => XlsxChartLegendPosition::Left,
            ChartLegendPosition::Right => XlsxChartLegendPosition::Right,
            ChartLegendPosition::Top => XlsxChartLegendPosition::Top,
        }
    }
}

impl vstd::std_specs::convert::FromSpecImpl<ChartLegendPosition> for XlsxChartLegendPosition {
    open spec fn obeys_from_spec() -> bool {
        true
    }

    open spec fn from_spec(value: ChartLegendPosition) -> Self {
        chart_legend_position_in_library(value)
    }
}

#[verifier::external_type_specification]
pub struct ExXlsxChartLineDashType(XlsxChartLineDashType);

/// The dash type of a chart line or border.
#[derive(Debug, Clone, Copy, PartialEq, Eq, Structural)]
pub enum ChartLineDashType {
    Solid,
    RoundDot,
    SquareDot,
    Dash,
    DashDot,
    LongDash,
    LongDashDot,
    LongDashDotDot,
}

/// The counterpart of each variant in the spreadsheet library.
pub open spec fn chart_line_dash_type_in_library(value: ChartLineDashType) -> XlsxChartLineDashType {
    match value {
        ChartLineDashType::Solid => XlsxChartLineDashType::Solid,
        ChartLineDashType::RoundDot => XlsxChartLineDashType::RoundDot,
        ChartLineDashType::SquareDot => XlsxChartLineDashType::SquareDot,
        ChartLineDashType::Dash => XlsxChartLineDashType::Dash,
        ChartLineDashType::DashDot => XlsxChartLineDashType::DashDot,
        ChartLineDashType::LongDash => XlsxChartLineDashType::LongDash,
        ChartLineDashType::LongDashDot => XlsxChartLineDashType::LongDashDot,
        ChartLineDashType::LongDashDotDot => XlsxChartLineDashType::LongDashDotDot,
    }
}

impl From<ChartLineDashType> for XlsxChartLineDashType {
    fn from(value: ChartLineDashType) -> (r: Self)
        ensures
            r == chart_line_dash_type_in_library(value),
    {
        match value {
            ChartLineDashType::Solid => XlsxChartLineDashType::Solid,
            ChartLineDashType::RoundDot => XlsxChartLineDashType::RoundDot,
            ChartLineDashType::SquareDot => XlsxChartLineDashType::SquareDot,
            ChartLineDashType::Dash => XlsxChartLineDashType::Dash,
            ChartLineDashType::DashDot => XlsxChartLineDashType::DashDot,
            ChartLineDashType::LongDash => XlsxChartLineDashType::LongDash,
            ChartLineDashType::LongDashDot => XlsxChartLineDashType::LongDashDot,
            ChartLineDashType::LongDashDotDot => XlsxChartLineDashType::LongDashDotDot,
        }
    }
}

impl vstd::std_specs::convert::FromSpecImpl<ChartLineDashType> for XlsxChartLineDashType {
    open spec fn obeys_from_spec() -> bool {
        true
    }

    open spec fn from_spec(value: ChartLineDashType) -> Self {
        chart_line_dash_type_in_library(value)
    }
}

#[verifier::external_type_specification]
pub struct ExXlsxChartMarkerType(XlsxChartMarkerType);

/// The shape of the markers of a chart series.
#[derive(Debug, Clone, Copy, PartialEq, Eq, Structural)]
pub enum ChartMarkerType {
    Square,
    Diamond,
    Triangle,
    X,
    Star,
    ShortDash,
    LongDash,
    Circle,
    PlusSign,
}

/// The counterpart of each variant in the spreadsheet library.
pub open spec fn chart_marker_type_in_library(value: ChartMarkerType) -> XlsxChartMarkerType {
    match value {
        ChartMarkerType::Square => XlsxChartMarkerType::Square,
        ChartMarkerType::Diamond => XlsxChartMarkerType::Diamond,
        ChartMarkerType::Triangle => XlsxChartMarkerType::Triangle,
        ChartMarkerType::X => XlsxChartMarkerType::X,
        ChartMarkerType::Star => XlsxChartMarkerType::Star,
        ChartMarkerType::ShortDash => XlsxChartMarkerType::ShortDash,
        ChartMarkerType::LongDash => XlsxChartMarkerType::LongDash,
        ChartMarkerType::Circle => XlsxChartMarkerType::Circle,
        ChartMarkerType::PlusSign => XlsxChartMarkerType::PlusSign,
    }
}

impl From<ChartMarkerType> for XlsxChartMarkerType {
    fn from(value: ChartMarkerType) -> (r: Self)
        ensures
            r == chart_marker_type_in_library(value),
    {
        match value {
            ChartMarkerType::Square => XlsxChartMarkerType::Square,
            ChartMarkerType::Diamond => XlsxChartMarkerType::Diamond,
            ChartMarkerType::Triangle => XlsxChartMarkerType::Triangle,
            ChartMarkerType::X => XlsxChartMarkerType::X,
            ChartMarkerType::Star => XlsxChartMarkerType::Star,
            ChartMarkerType::ShortDash => XlsxChartMarkerType::ShortDash,
            ChartMarkerType::LongDash => XlsxChartMarkerType::LongDash,
            ChartMarkerType::Circle => XlsxChartMarkerType::Circle,
            ChartMarkerType::PlusSign => XlsxChartMarkerType::PlusSign,
        }
    }
}

impl vstd::std_specs::convert::FromSpecImpl<ChartMarkerType> for XlsxChartMarkerType {
    open spec fn obeys_from_spec() -> bool {
        true
    }

    open spec fn from_spec(value: ChartMarkerType) -> Self {
        chart_marker_type_in_library(value)
    }
}

#[verifier::external_type_specification]
pub struct ExXlsxChartType(XlsxChartType);

/// The kind of a chart.
#[derive(Debug, Clone, Copy, PartialEq, Eq, Structural)]
pub enum ChartType {
    Area,
    AreaStacked,
    AreaPercentStacked,
    Bar,
    BarStacked,
    BarPercentStacked,
    Column,
    ColumnStacked,
    ColumnPercentStacked,
    Doughnut,
    Line,
    LineStacked,
    LinePercentStacked,
    Pie,
    Radar,
    RadarWithMarkers,
    RadarFilled,
    Scatter,
    ScatterStraight,
    ScatterStraightWithMarkers,
    ScatterSmooth,
    ScatterSmoothWithMarkers,
    Stock,
}

/// The counterpart of each variant in the spreadsheet library.
pub open spec fn chart_type_in_library(value: ChartType) -> XlsxChartType {
    match value {
        ChartType::Area => XlsxChartType::Area,
        ChartType::AreaStacked => XlsxChartType::AreaStacked,
        ChartType::AreaPercentStacked => XlsxChartType::AreaPercentStacked,
        ChartType::Bar => XlsxChartType::Bar,
        ChartType::BarStacked => XlsxChartType::BarStacked,
        ChartType::BarPercentStacked => XlsxChartType::BarPercentStacked,
        ChartType::Column => XlsxChartType::Column,
        ChartType::ColumnStacked => XlsxChartType::ColumnStacked,
        ChartType::ColumnPercentStacked => XlsxChartType::ColumnPercentStacked,
        ChartType::Doughnut => XlsxChartType::Doughnut,
        ChartType::Line => XlsxChartType::Line,
        ChartType::LineStacked => XlsxChartType::LineStacked,
        ChartType::LinePercentStacked => XlsxChartType::LinePercentStacked,
        ChartType::Pie => XlsxChartType::Pie,
        ChartType::Radar => XlsxChartType::Radar,
        ChartType::RadarWithMarkers => XlsxChartType::RadarWithMarkers,
        ChartType::RadarFilled => XlsxChartType::RadarFilled,
        ChartType::Scatter => XlsxChartType::Scatter,
        ChartType::ScatterStraight => XlsxChartType::ScatterStraight,
        ChartType::ScatterStraightWithMarkers => XlsxChartType::ScatterStraightWithMarkers,
        ChartType::ScatterSmooth => XlsxChartType::ScatterSmooth,
        ChartType::ScatterSmoothWithMarkers => XlsxChartType::ScatterSmoothWithMarkers,
        ChartType::Stock => XlsxChartType::Stock,
    }
}

impl From<ChartType> for XlsxChartType {
    fn from(value: ChartType) -> (r: Self)
        ensures
            r == chart_type_in_library(value),
    {
        match value {
            ChartType::Area => XlsxChartType::Area,
            ChartType::AreaStacked => XlsxChartType::AreaStacked,
            ChartType::AreaPercentStacked => XlsxChartType::AreaPercentStacked,
            ChartType::Bar => XlsxChartType::Bar,
            ChartType::BarStacked => XlsxChartType::BarStacked,
            ChartType::BarPercentStacked => XlsxChartType::BarPercentStacked,
            ChartType::Column => XlsxChartType::Column,
            ChartType::ColumnStacked => XlsxChartType::ColumnStacked,
            ChartType::ColumnPercentStacked => XlsxChartType::ColumnPercentStacked,
            ChartType::Doughnut => XlsxChartType::Doughnut,
            ChartType::Line => XlsxChartType::Line,
            ChartType::LineStacked => XlsxChartType::LineStacked,
            ChartType::LinePercentStacked => XlsxChartType::LinePercentStacked,
            ChartType::Pie => XlsxChartType::Pie,
            ChartType::Radar => XlsxChartType::Radar,
            ChartType::RadarWithMarkers => XlsxChartType::RadarWithMarkers,
            ChartType::RadarFilled => XlsxChartType::RadarFilled,
            ChartType::Scatter => XlsxChartType::Scatter,
            ChartType::ScatterStraight => XlsxChartType::ScatterStraight,
            ChartType::ScatterStraightWithMarkers => XlsxChartType::ScatterStraightWithMarkers,
            ChartType::ScatterSmooth => XlsxChartType::ScatterSmooth,
            ChartType::ScatterSmoothWithMarkers => XlsxChartType::ScatterSmoothWithMarkers,
            ChartType::Stock => XlsxChartType::Stock,
        }
    }
}

impl vstd::std_specs::convert::FromSpecImpl<ChartType> for XlsxChartType {
    open spec fn obeys_from_spec() -> bool {
        true
    }

    open spec fn from_spec(value: ChartType) -> Self {
        chart_type_in_library(value)
    }
}

#[verifier::external_type_specification]
pub struct ExXlsxFormatAlign(XlsxFormatAlign);

/// The horizontal or vertical alignment of a cell format.
#[derive(Debug, Clone, Copy, PartialEq, Eq, Structural)]
pub enum FormatAlign {
    General,
    Left,
    Center,
    Right,
    Fill,
    Justify,
    CenterAcross,
    Distributed,
    Top,
    Bottom,
    VerticalCenter,
    VerticalJustify,
    VerticalDistributed,
}

/// The counterpart of each variant in the spreadsheet library.
pub open spec fn format_align_in_library(value: FormatAlign) -> XlsxFormatAlign {
    match value {
        FormatAlign::General => XlsxFormatAlign::General,
        FormatAlign::Left => XlsxFormatAlign::Left,
        FormatAlign::Center => XlsxFormatAlign::Center,
        FormatAlign::Right => XlsxFormatAlign::Right,
        FormatAlign::Fill => XlsxFormatAlign::Fill,
        FormatAlign::Justify => XlsxFormatAlign::Justify,
        FormatAlign::CenterAcross => XlsxFormatAlign::CenterAcross,
        FormatAlign::Distributed => XlsxFormatAlign::Distributed,
        FormatAlign::Top => XlsxFormatAlign::Top,
        FormatAlign::Bottom => XlsxFormatAlign::Bottom,
        FormatAlign::VerticalCenter => XlsxFormatAlign::VerticalCenter,
        FormatAlign::VerticalJustify => XlsxFormatAlign::VerticalJustify,
        FormatAlign::VerticalDistributed => XlsxFormatAlign::VerticalDistributed,
    }
}

impl From<FormatAlign> for XlsxFormatAlign {
    fn from(value: FormatAlign) -> (r: Self)
        ensures
            r == format_align_in_library(value),
    {
        match value {
            FormatAlign::General => XlsxFormatAlign::General,
            FormatAlign::Left => XlsxFormatAlign::Left,
            FormatAlign::Center => XlsxFormatAlign::Center,
            FormatAlign::Right => XlsxFormatAlign::Right,
            FormatAlign::Fill => XlsxFormatAlign::Fill,
            FormatAlign::Justify => XlsxFormatAlign::Justify,
            FormatAlign::CenterAcross => XlsxFormatAlign::CenterAcross,
            FormatAlign::Distributed => XlsxFormatAlign::Distributed,
            FormatAlign::Top => XlsxFormatAlign::Top,
            FormatAlign::Bottom => XlsxFormatAlign::Bottom,
            FormatAlign::VerticalCenter => XlsxFormatAlign::VerticalCenter,
            FormatAlign::VerticalJustify => XlsxFormatAlign::VerticalJustify,
            FormatAlign::VerticalDistributed => XlsxFormatAlign::VerticalDistributed,
        }
    }
}

impl vstd::std_specs::convert::FromSpecImpl<FormatAlign> for XlsxFormatAlign {
    open spec fn obeys_from_spec() -> bool {
        true
    }

    open spec fn from_spec(value: FormatAlign) -> Self {
        format_align_in_library(value)
    }
}

#[verifier::external_type_specification]
pub struct ExXlsxFormatBorder(XlsxFormatBorder);

/// The line style of a cell border.
#[derive(Debug, Clone, Copy, PartialEq, Eq, Structural)]
pub enum FormatBorder {
    NoBorder,
    Thin,
    Medium,
    Dashed,
    Dotted,
    Thick,
    Double,
    Hair,
    MediumDashed,
    DashDot,
    MediumDashDot,
    DashDotDot,
    MediumDashDotDot,
    SlantDashDot,
}

/// The counterpart of each variant in the spreadsheet library.
pub open spec fn format_border_in_library(value: FormatBorder) -> XlsxFormatBorder {
    match value {
        FormatBorder::NoBorder => XlsxFormatBorder::None,
        FormatBorder::Thin => XlsxFormatBorder::Thin,
        FormatBorder::Medium => XlsxFormatBorder::Medium,
        FormatBorder::Dashed => XlsxFormatBorder::Dashed,
        FormatBorder::Dotted => XlsxFormatBorder::Dotted,
        FormatBorder::Thick => XlsxFormatBorder::Thick,
        FormatBorder::Double => XlsxFormatBorder::Double,
        FormatBorder::Hair => XlsxFormatBorder::Hair,
        FormatBorder::MediumDashed => XlsxFormatBorder::MediumDashed,
        FormatBorder::DashDot => XlsxFormatBorder::DashDot,
        FormatBorder::MediumDashDot => XlsxFormatBorder::MediumDashDot,
        FormatBorder::DashDotDot => XlsxFormatBorder::DashDotDot,
        FormatBorder::MediumDashDotDot => XlsxFormatBorder::MediumDashDotDot,
        FormatBorder::SlantDashDot => XlsxFormatBorder::SlantDashDot,
    }
}

impl From<FormatBorder> for XlsxFormatBorder {
    fn from(value: FormatBorder) -> (r: Self)
        ensures
            r == format_border_in_library(value),
    {
        match value {
            FormatBorder::NoBorder => XlsxFormatBorder::None,
            FormatBorder::Thin => XlsxFormatBorder::Thin,
            FormatBorder::Medium => XlsxFormatBorder::Medium,
            FormatBorder::Dashed => XlsxFormatBorder::Dashed,
            FormatBorder::Dotted => XlsxFormatBorder::Dotted,
            FormatBorder::Thick => XlsxFormatBorder::Thick,
            FormatBorder::Double => XlsxFormatBorder::Double,
            FormatBorder::Hair => XlsxFormatBorder::Hair,
            FormatBorder::MediumDashed => XlsxFormatBorder::MediumDashed,
            FormatBorder::DashDot => XlsxFormatBorder::DashDot,
            FormatBorder::MediumDashDot => XlsxFormatBorder::MediumDashDot,
            FormatBorder::DashDotDot => XlsxFormatBorder::DashDotDot,
            FormatBorder::MediumDashDotDot => XlsxFormatBorder::MediumDashDotDot,
            FormatBorder::SlantDashDot => XlsxFormatBorder::SlantDashDot,
        }
    }
}

impl vstd::std_specs::convert::FromSpecImpl<FormatBorder> for XlsxFormatBorder {
    open spec fn obeys_from_spec() -> bool {
        true
    }

    open spec fn from_spec(value: FormatBorder) -> Self {
        format_border_in_library(value)
    }
}

#[verifier::external_type_specification]
pub struct ExXlsxFormatDiagonalBorder(XlsxFormatDiagonalBorder);

/// The direction of a cell's diagonal border.
#[derive(Debug, Clone, Copy, PartialEq, Eq, Structural)]
pub enum FormatDiagonalBorder {
    NoDiagonalBorder,
    BorderUp,
    BorderDown,
    BorderUpDown,
}

/// The counterpart of each variant in the spreadsheet library.
pub open spec fn format_diagonal_border_in_library(value: FormatDiagonalBorder) -> XlsxFormatDiagonalBorder {
    match value {
        FormatDiagonalBorder::NoDiagonalBorder => XlsxFormatDiagonalBorder::None,
        FormatDiagonalBorder::BorderUp => XlsxFormatDiagonalBorder::BorderUp,
        FormatDiagonalBorder::BorderDown => XlsxFormatDiagonalBorder::BorderDown,
        FormatDiagonalBorder::BorderUpDown => XlsxFormatDiagonalBorder::BorderUpDown,
    }
}

impl From<FormatDiagonalBorder> for XlsxFormatDiagonalBorder {
    fn from(value: FormatDiagonalBorder) -> (r: Self)
        ensures
            r == format_diagonal_border_in_library(value),
    {
        match value {
            FormatDiagonalBorder::NoDiagonalBorder => XlsxFormatDiagonalBorder::None,
            FormatDiagonalBorder::BorderUp => XlsxFormatDiagonalBorder::BorderUp,
            FormatDiagonalBorder::BorderDown => XlsxFormatDiagonalBorder::BorderDown,
            FormatDiagonalBorder::BorderUpDown => XlsxFormatDiagonalBorder::BorderUpDown,
        }
    }
}

impl vstd::std_specs::convert::FromSpecImpl<FormatDiagonalBorder> for XlsxFormatDiagonalBorder {
    open spec fn obeys_from_spec() -> bool {
        true
    }

    open spec fn from_spec(value: FormatDiagonalBorder) -> Self {
        format_diagonal_border_in_library(value)
    }
}

#[verifier::external_type_specification]
pub struct ExXlsxFormatPattern(XlsxFormatPattern);

/// The fill pattern of a cell format.
#[derive(Debug, Clone, Copy, PartialEq, Eq, Structural)]
pub enum FormatPattern {
    NoPattern,
    Solid,
    MediumGray,
    DarkGray,
    LightGray,
    DarkHorizontal,
    DarkVertical,
    DarkDown,
    DarkUp,
    DarkGrid,
    DarkTrellis,
    LightHorizontal,
    LightVertical,
    LightDown,
    LightUp,
    LightGrid,
    LightTrellis,
    Gray125,
    Gray0625,
}

/// The counterpart of each variant in the spreadsheet library.
pub open spec fn format_pattern_in_library(value: FormatPattern) -> XlsxFormatPattern {
    match value {
        FormatPattern::NoPattern => XlsxFormatPattern::None,
        FormatPattern::Solid => XlsxFormatPattern::Solid,
        FormatPattern::MediumGray => XlsxFormatPattern::MediumGray,
        FormatPattern::DarkGray => XlsxFormatPattern::DarkGray,
        FormatPattern::LightGray => XlsxFormatPattern::LightGray,
        FormatPattern::DarkHorizontal => XlsxFormatPattern::DarkHorizontal,
        FormatPattern::DarkVertical => XlsxFormatPattern::DarkVertical,
        FormatPattern::DarkDown => XlsxFormatPattern::DarkDown,
        FormatPattern::DarkUp => XlsxFormatPattern::DarkUp,
        FormatPattern::DarkGrid => XlsxFormatPattern::DarkGrid,
        FormatPattern::DarkTrellis => XlsxFormatPattern::DarkTrellis,
        FormatPattern::LightHorizontal => XlsxFormatPattern::LightHorizontal,
        FormatPattern::LightVertical => XlsxFormatPattern::LightVertical,
        FormatPattern::LightDown => XlsxFormatPattern::LightDown,
        FormatPattern::LightUp => XlsxFormatPattern::LightUp,
        FormatPattern::LightGrid => XlsxFormatPattern::LightGrid,
        FormatPattern::LightTrellis => XlsxFormatPattern::LightTrellis,
        FormatPattern::Gray125 => XlsxFormatPattern::Gray125,
        FormatPattern::Gray0625 => XlsxFormatPattern::Gray0625,
    }
}

impl From<FormatPattern> for XlsxFormatPattern {
    fn from(value: FormatPattern) -> (r: Self)
        ensures
            r == format_pattern_in_library(value),
    {
        match value {
            FormatPattern::NoPattern => XlsxFormatPattern::None,
            FormatPattern::Solid => XlsxFormatPattern::Solid,
            FormatPattern::MediumGray => XlsxFormatPattern::MediumGray,
            FormatPattern::DarkGray => XlsxFormatPattern::DarkGray,
            FormatPattern::LightGray => XlsxFormatPattern::LightGray,
            FormatPattern::DarkHorizontal => XlsxFormatPattern::DarkHorizontal,
            FormatPattern::DarkVertical => XlsxFormatPattern::DarkVertical,
            FormatPattern::DarkDown => XlsxFormatPattern::DarkDown,
            FormatPattern::DarkUp => XlsxFormatPattern::DarkUp,
            FormatPattern::DarkGrid => XlsxFormatPattern::DarkGrid,
            FormatPattern::DarkTrellis => XlsxFormatPattern::DarkTrellis,
            FormatPattern::LightHorizontal => XlsxFormatPattern::LightHorizontal,
            FormatPattern::LightVertical => XlsxFormatPattern::LightVertical,
            FormatPattern::LightDown => XlsxFormatPattern::LightDown,
            FormatPattern::LightUp => XlsxFormatPattern::LightUp,
            FormatPattern::LightGrid => XlsxFormatPattern::LightGrid,
            FormatPattern::LightTrellis => XlsxFormatPattern::LightTrellis,
            FormatPattern::Gray125 => XlsxFormatPattern::Gray125,
            FormatPattern::Gray0625 => XlsxFormatPattern::Gray0625,
        }
    }
}

impl vstd::std_specs::convert::FromSpecImpl<FormatPattern> for XlsxFormatPattern {
    open spec fn obeys_from_spec() -> bool {
        true
    }

    open spec fn from_spec(value: FormatPattern) -> Self {
        format_pattern_in_library(value)
    }
}

#[verifier::external_type_specification]
pub struct ExXlsxFormatScript(XlsxFormatScript);

/// The superscript or subscript style of a cell format.
#[derive(Debug, Clone, Copy, PartialEq, Eq, Structural)]
pub enum FormatScript {
    NoScript,
    Superscript,
    Subscript,
}

/// The counterpart of each variant in the spreadsheet library.
pub open spec fn format_script_in_library(value: FormatScript) -> XlsxFormatScript {
    match value {
        FormatScript::NoScript => XlsxFormatScript::None,
        FormatScript::Superscript => XlsxFormatScript::Superscript,
        FormatScript::Subscript => XlsxFormatScript::Subscript,
    }
}

impl From<FormatScript> for XlsxFormatScript {
    fn from(value: FormatScript) -> (r: Self)
        ensures
            r == format_script_in_library(value),
    {
        match value {
            FormatScript::NoScript => XlsxFormatScript::None,
            FormatScript::Superscript => XlsxFormatScript::Superscript,
            FormatScript::Subscript => XlsxFormatScript::Subscript,
        }
    }
}

impl vstd::std_specs::convert::FromSpecImpl<FormatScript> for XlsxFormatScript {
    open spec fn obeys_from_spec() -> bool {
        true
    }

    open spec fn from_spec(value: FormatScript) -> Self {
        format_script_in_library(value)
    }
}

#[verifier::external_type_specification]
pub struct ExXlsxFormatUnderline(XlsxFormatUnderline);

/// The underline style of a cell format.
#[derive(Debug, Clone, Copy, PartialEq, Eq, Structural)]
pub enum FormatUnderline {
    NoUnderline,
    Single,
    Double,
    SingleAccounting,
    DoubleAccounting,
}

/// The counterpart of each variant in the spreadsheet library.
pub open spec fn format_underline_in_library(value: FormatUnderline) -> XlsxFormatUnderline {
    match value {
        FormatUnderline::NoUnderline => XlsxFormatUnderline::None,
        FormatUnderline::Single => XlsxFormatUnderline::Single,
        FormatUnderline::Double => XlsxFormatUnderline::Double,
        FormatUnderline::SingleAccounting => XlsxFormatUnderline::SingleAccounting,
        FormatUnderline::DoubleAccounting => XlsxFormatUnderline::DoubleAccounting,
    }
}

impl From<FormatUnderline> for XlsxFormatUnderline {
    fn from(value: FormatUnderline) -> (r: Self)
        ensures
            r == format_underline_in_library(value),
    {
        match value {
            FormatUnderline::NoUnderline => XlsxFormatUnderline::None,
            FormatUnderline::Single => XlsxFormatUnderline::Single,
            FormatUnderline::Double => XlsxFormatUnderline::Double,
            FormatUnderline::SingleAccounting => XlsxFormatUnderline::SingleAccounting,
            FormatUnderline::DoubleAccounting => XlsxFormatUnderline::DoubleAccounting,
        }
    }
}

impl vstd::std_specs::convert::FromSpecImpl<FormatUnderline> for XlsxFormatUnderline {
    open spec fn obeys_from_spec() -> bool {
        true
    }

    open spec fn from_spec(value: FormatUnderline) -> Self {
        format_underline_in_library(value)
    }
}

#[verifier::external_type_specification]
pub struct ExXlsxHeaderImagePosition(XlsxHeaderImagePosition);

/// The place of an image in a page header or footer.
#[derive(Debug, Clone, Copy, PartialEq, Eq, Structural)]
pub enum HeaderImagePosition {
    Left,
    Center,
    Right,
}

/// The counterpart of each variant in the spreadsheet library.
pub open spec fn header_image_position_in_library(value: HeaderImagePosition) -> XlsxHeaderImagePosition {
    match value {
        HeaderImagePosition::Left => XlsxHeaderImagePosition::Left,
        HeaderImagePosition::Center => XlsxHeaderImagePosition::Center,
        HeaderImagePosition::Right => XlsxHeaderImagePosition::Right,
    }
}

impl From<HeaderImagePosition> for XlsxHeaderImagePosition {
    fn from(value: HeaderImagePosition) -> (r: Self)
        ensures
            r == header_image_position_in_library(value),
    {
        match value {
            HeaderImagePosition::Left => XlsxHeaderImagePosition::Left,
            HeaderImagePosition::Center => XlsxHeaderImagePosition::Center,
            HeaderImagePosition::Right => XlsxHeaderImagePosition::Right,
        }
    }
}

impl vstd::std_specs::convert::FromSpecImpl<HeaderImagePosition> for XlsxHeaderImagePosition {
    open spec fn obeys_from_spec() -> bool {
        true
    }

    open spec fn from_spec(value: HeaderImagePosition) -> Self {
        header_image_position_in_library(value)
    }
}

#[verifier::external_type_specification]
pub struct ExXlsxObjectMovement(XlsxObjectMovement);

/// How an image or note moves and sizes with the cells under it.
#[derive(Debug, Clone, Copy, PartialEq, Eq, Structural)]
pub enum ObjectMovement {
    MoveAndSizeWithCells,
    MoveButDontSizeWithCells,
    DontMoveOrSizeWithCells,
    MoveAndSizeWithCellsAfter,
}

/// The counterpart of each variant in the spreadsheet library.
pub open spec fn object_movement_in_library(value: ObjectMovement) -> XlsxObjectMovement {
    match value {
        ObjectMovement::MoveAndSizeWithCells => XlsxObjectMovement::MoveAndSizeWithCells,
        ObjectMovement::MoveButDontSizeWithCells => XlsxObjectMovement::MoveButDontSizeWithCells,
        ObjectMovement::DontMoveOrSizeWithCells => XlsxObjectMovement::DontMoveOrSizeWithCells,
        ObjectMovement::MoveAndSizeWithCellsAfter => XlsxObjectMovement::MoveAndSizeWithCellsAfter,
    }
}

impl From<ObjectMovement> for XlsxObjectMovement {
    fn from(value: ObjectMovement) -> (r: Self)
        ensures
            r == object_movement_in_library(value),
    {
        match value {
            ObjectMovement::MoveAndSizeWithCells => XlsxObjectMovement::MoveAndSizeWithCells,
            ObjectMovement::MoveButDontSizeWithCells => XlsxObjectMovement::MoveButDontSizeWithCells,
            ObjectMovement::DontMoveOrSizeWithCells => XlsxObjectMovement::DontMoveOrSizeWithCells,
            ObjectMovement::MoveAndSizeWithCellsAfter => XlsxObjectMovement::MoveAndSizeWithCellsAfter,
        }
    }
}

impl vstd::std_specs::convert::FromSpecImpl<ObjectMovement> for XlsxObjectMovement {
    open spec fn obeys_from_spec() -> bool {
        true
    }

    open spec fn from_spec(value: ObjectMovement) -> Self {
        object_movement_in_library(value)
    }
}

#[verifier::external_type_specification]
pub struct ExXlsxTableStyle(XlsxTableStyle);

/// The built-in style of a worksheet table.
#[derive(Debug, Clone, Copy, PartialEq, Eq, Structural)]
pub enum TableStyle {
    NoStyle,
    Light1,
    Light2,
    Light3,
    Light4,
    Light5,
    Light6,
    Light7,
    Light8,
    Light9,
    Light10,
    Light11,
    Light12,
    Light13,
    Light14,
    Light15,
    Light16,
    Light17,
    Light18,
    Light19,
    Light20,
    Light21,
    Medium1,
    Medium2,
    Medium3,
    Medium4,
    Medium5,
    Medium6,
    Medium7,
    Medium8,
    Medium9,
    Medium10,
    Medium11,
    Medium12,
    Medium13,
    Medium14,
    Medium15,
    Medium16,
    Medium17,
    Medium18,
    Medium19,
    Medium20,
    Medium21,
    Medium22,
    Medium23,
    Medium24,
    Medium25,
    Medium26,
    Medium27,
    Medium28,
    Dark1,
    Dark2,
    Dark3,
    Dark4,
    Dark5,
    Dark6,
    Dark7,
    Dark8,
    Dark9,
    Dark10,
    Dark11,
}

/// The counterpart of each variant in the spreadsheet library.
pub open spec fn table_style_in_library(value: TableStyle) -> XlsxTableStyle {
    match value {
        TableStyle::NoStyle => XlsxTableStyle::None,
        TableStyle::Light1 => XlsxTableStyle::Light1,
        TableStyle::Light2 => XlsxTableStyle::Light2,
        TableStyle::Light3 => XlsxTableStyle::Light3,
        TableStyle::Light4 => XlsxTableStyle::Light4,
        TableStyle::Light5 => XlsxTableStyle::Light5,
        TableStyle::Light6 => XlsxTableStyle::Light6,
        TableStyle::Light7 => XlsxTableStyle::Light7,
        TableStyle::Light8 => XlsxTableStyle::Light8,
        TableStyle::Light9 => XlsxTableStyle::Light9,
        TableStyle::Light10 => XlsxTableStyle::Light10,
        TableStyle::Light11 => XlsxTableStyle::Light11,
        TableStyle::Light12 => XlsxTableStyle::Light12,
        TableStyle::Light13 => XlsxTableStyle::Light13,
        TableStyle::Light14 => XlsxTableStyle::Light14,
        TableStyle::Light15 => XlsxTableStyle::Light15,
        TableStyle::Light16 => XlsxTableStyle::Light16,
        TableStyle::Light17 => XlsxTableStyle::Light17,
        TableStyle::Light18 => XlsxTableStyle::Light18,
        TableStyle::Light19 => XlsxTableStyle::Light19,
        TableStyle::Light20 => XlsxTableStyle::Light20,
        TableStyle::Light21 => XlsxTableStyle::Light21,
        TableStyle::Medium1 => XlsxTableStyle::Medium1,
        TableStyle::Medium2 => XlsxTableStyle::Medium2,
        TableStyle::Medium3 => XlsxTableStyle::Medium3,
        TableStyle::Medium4 => XlsxTableStyle::Medium4,
        TableStyle::Medium5 => XlsxTableStyle::Medium5,
        TableStyle::Medium6 => XlsxTableStyle::Medium6,
        TableStyle::Medium7 => XlsxTableStyle::Medium7,
        TableStyle::Medium8 => XlsxTableStyle::Medium8,
        TableStyle::Medium9 => XlsxTableStyle::Medium9,
        TableStyle::Medium10 => XlsxTableStyle::Medium10,
        TableStyle::Medium11 => XlsxTableStyle::Medium11,
        TableStyle::Medium12 => XlsxTableStyle::Medium12,
        TableStyle::Medium13 => XlsxTableStyle::Medium13,
        TableStyle::Medium14 => XlsxTableStyle::Medium14,
        TableStyle::Medium15 => XlsxTableStyle::Medium15,
        TableStyle::Medium16 => XlsxTableStyle::Medium16,
        TableStyle::Medium17 => XlsxTableStyle::Medium17,
        TableStyle::Medium18 => XlsxTableStyle::Medium18,
        TableStyle::Medium19 => XlsxTableStyle::Medium19,
        TableStyle::Medium20 => XlsxTableStyle::Medium20,
        TableStyle::Medium21 => XlsxTableStyle::Medium21,
        TableStyle::Medium22 => XlsxTableStyle::Medium22,
        TableStyle::Medium23 => XlsxTableStyle::Medium23,
        TableStyle::Medium24 => XlsxTableStyle::Medium24,
        TableStyle::Medium25 => XlsxTableStyle::Medium25,
        TableStyle::Medium26 => XlsxTableStyle::Medium26,
        TableStyle::Medium27 => XlsxTableStyle::Medium27,
        TableStyle::Medium28 => XlsxTableStyle::Medium28,
        TableStyle::Dark1 => XlsxTableStyle::Dark1,
        TableStyle::Dark2 => XlsxTableStyle::Dark2,
        TableStyle::Dark3 => XlsxTableStyle::Dark3,
        TableStyle::Dark4 => XlsxTableStyle::Dark4,
        TableStyle::Dark5 => XlsxTableStyle::Dark5,
        TableStyle::Dark6 => XlsxTableStyle::Dark6,
        TableStyle::Dark7 => XlsxTableStyle::Dark7,
        TableStyle::Dark8 => XlsxTableStyle::Dark8,
        TableStyle::Dark9 => XlsxTableStyle::Dark9,
        TableStyle::Dark10 => XlsxTableStyle::Dark10,
        TableStyle::Dark11 => XlsxTableStyle::Dark11,
    }
}

impl From<TableStyle> for XlsxTableStyle {
    fn from(value: TableStyle) -> (r: Self)
        ensures
            r == table_style_in_library(value),
    {
        match value {
            TableStyle::NoStyle => XlsxTableStyle::None,
            TableStyle::Light1 => XlsxTableStyle::Light1,
            TableStyle::Light2 => XlsxTableStyle::Light2,
            TableStyle::Light3 => XlsxTableStyle::Light3,
            TableStyle::Light4 => XlsxTableStyle::Light4,
            TableStyle::Light5 => XlsxTableStyle::Light5,
            TableStyle::Light6 => XlsxTableStyle::Light6,
            TableStyle::Light7 => XlsxTableStyle::Light7,
            TableStyle::Light8 => XlsxTableStyle::Light8,
            TableStyle::Light9 => XlsxTableStyle::Light9,
            TableStyle::Light10 => XlsxTableStyle::Light10,
            TableStyle::Light11 => XlsxTableStyle::Light11,
            TableStyle::Light12 => XlsxTableStyle::Light12,
            TableStyle::Light13 => XlsxTableStyle::Light13,
            TableStyle::Light14 => XlsxTableStyle::Light14,
            TableStyle::Light15 => XlsxTableStyle::Light15,
            TableStyle::Light16 => XlsxTableStyle::Light16,
            TableStyle::Light17 => XlsxTableStyle::Light17,
            TableStyle::Light18 => XlsxTableStyle::Light18,
            TableStyle::Light19 => XlsxTableStyle::Light19,
            TableStyle::Light20 => XlsxTableStyle::Light20,
            TableStyle::Light21 => XlsxTableStyle::Light21,
            TableStyle::Medium1 => XlsxTableStyle::Medium1,
            TableStyle::Medium2 => XlsxTableStyle::Medium2,
            TableStyle::Medium3 => XlsxTableStyle::Medium3,
            TableStyle::Medium4 => XlsxTableStyle::Medium4,
            TableStyle::Medium5 => XlsxTableStyle::Medium5,
            TableStyle::Medium6 => XlsxTableStyle::Medium6,
            TableStyle::Medium7 => XlsxTableStyle::Medium7,
            TableStyle::Medium8 => XlsxTableStyle::Medium8,
            TableStyle::Medium9 => XlsxTableStyle::Medium9,
            TableStyle::Medium10 => XlsxTableStyle::Medium10,
            TableStyle::Medium11 => XlsxTableStyle::Medium11,
            TableStyle::Medium12 => XlsxTableStyle::Medium12,
            TableStyle::Medium13 => XlsxTableStyle::Medium13,
            TableStyle::Medium14 => XlsxTableStyle::Medium14,
            TableStyle::Medium15 => XlsxTableStyle::Medium15,
            TableStyle::Medium16 => XlsxTableStyle::Medium16,
            TableStyle::Medium17 => XlsxTableStyle::Medium17,
            TableStyle::Medium18 => XlsxTableStyle::Medium18,
            TableStyle::Medium19 => XlsxTableStyle::Medium19,
            TableStyle::Medium20 => XlsxTableStyle::Medium20,
            TableStyle::Medium21 => XlsxTableStyle::Medium21,
            TableStyle::Medium22 => XlsxTableStyle::Medium22,
            TableStyle::Medium23 => XlsxTableStyle::Medium23,
            TableStyle::Medium24 => XlsxTableStyle::Medium24,
            TableStyle::Medium25 => XlsxTableStyle::Medium25,
            TableStyle::Medium26 => XlsxTableStyle::Medium26,
            TableStyle::Medium27 => XlsxTableStyle::Medium27,
            TableStyle::Medium28 => XlsxTableStyle::Medium28,
            TableStyle::Dark1 => XlsxTableStyle::Dark1,
            TableStyle::Dark2 => XlsxTableStyle::Dark2,
            TableStyle::Dark3 => XlsxTableStyle::Dark3,
            TableStyle::Dark4 => XlsxTableStyle::Dark4,
            TableStyle::Dark5 => XlsxTableStyle::Dark5,
            TableStyle::Dark6 => XlsxTableStyle::Dark6,
            TableStyle::Dark7 => XlsxTableStyle::Dark7,
            TableStyle::Dark8 => XlsxTableStyle::Dark8,
            TableStyle::Dark9 => XlsxTableStyle::Dark9,
            TableStyle::Dark10 => XlsxTableStyle::Dark10,
            TableStyle::Dark11 => XlsxTableStyle::Dark11,
        }
    }
}

impl vstd::std_specs::convert::FromSpecImpl<TableStyle> for XlsxTableStyle {
    open spec fn obeys_from_spec() -> bool {
        true
    }

    open spec fn from_spec(value: TableStyle) -> Self {
        table_style_in_library(value)
    }
}

#[verifier::external_type_specification]
pub struct ExXlsxColor(XlsxColor);

/// A color: an RGB value, a theme color and shade, the default or automatic color, or one of the named colors.
#[derive(Debug, Clone, Copy, PartialEq, Eq, Structural)]
pub enum Color {
    RGB(u32),
    Theme(u8, u8),
    Default,
    Automatic,
    Black,
    Blue,
    Brown,
    Cyan,
    Gray,
    Green,
    Lime,
    Magenta,
    Navy,
    Orange,
    Pink,
    Purple,
    Red,
    Silver,
    White,
    Yellow,
}

/// The counterpart of each variant in the spreadsheet library.
pub open spec fn color_in_library(value: Color) -> XlsxColor {
    match value {
        Color::RGB(rgb) => XlsxColor::RGB(rgb),
        Color::Theme(color, shade) => XlsxColor::Theme(color, shade),
        Color::Default => XlsxColor::Default,
        Color::Automatic => XlsxColor::Automatic,
        Color::Black => XlsxColor::Black,
        Color::Blue => XlsxColor::Blue,
        Color::Brown => XlsxColor::Brown,
        Color::Cyan => XlsxColor::Cyan,
        Color::Gray => XlsxColor::Gray,
        Color::Green => XlsxColor::Green,
        Color::Lime => XlsxColor::Lime,
        Color::Magenta => XlsxColor::Magenta,
        Color::Navy => XlsxColor::Navy,
        Color::Orange => XlsxColor::Orange,
        Color::Pink => XlsxColor::Pink,
        Color::Purple => XlsxColor::Purple,
        Color::Red => XlsxColor::Red,
        Color::Silver => XlsxColor::Silver,
        Color::White => XlsxColor::White,
        Color::Yellow => XlsxColor::Yellow,
    }
}

impl From<Color> for XlsxColor {
    fn from(value: Color) -> (r: Self)
        ensures
            r == color_in_library(value),
    {
        match value {
            Color::RGB(rgb) => XlsxColor::RGB(rgb),
            Color::Theme(color, shade) => XlsxColor::Theme(color, shade),
            Color::Default => XlsxColor::Default,
            Color::Automatic => XlsxColor::Automatic,
            Color::Black => XlsxColor::Black,
            Color::Blue => XlsxColor::Blue,
            Color::Brown => XlsxColor::Brown,
            Color::Cyan => XlsxColor::Cyan,
            Color::Gray => XlsxColor::Gray,
            Color::Green => XlsxColor::Green,
            Color::Lime => XlsxColor::Lime,
            Color::Magenta => XlsxColor::Magenta,
            Color::Navy => XlsxColor::Navy,
            Color::Orange => XlsxColor::Orange,
            Color::Pink => XlsxColor::Pink,
            Color::Purple => XlsxColor::Purple,
            Color::Red => XlsxColor::Red,
            Color::Silver => XlsxColor::Silver,
            Color::White => XlsxColor::White,
            Color::Yellow => XlsxColor::Yellow,
        }
    }
}

impl vstd::std_specs::convert::FromSpecImpl<Color> for XlsxColor {
    open spec fn obeys_from_spec() -> bool {
        true
    }

    open spec fn from_spec(value: Color) -> Self {
        color_in_library(value)
    }
}

impl Default for Color {
    fn default() -> (r: Self)
        ensures
            r == Color::Default,
    {
        Color::Default
    }
}

} // verus!
