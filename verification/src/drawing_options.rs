//! The option arguments of drawing and plotting built-ins (styles, sizes,
//! locations, alignments and the like) and the values each may take.
use vstd::prelude::*;
use vstd::string::*;
use crate::builtin_args::DiagView;
use crate::diagnostics::{Diagnostic, Severity, diag_view, diag_views};
use crate::dialect::{PineDialect, dialect_number, dialect_version};
use crate::signatures::BuiltinSignature;
use crate::syntax::{CallArg, Span};
use crate::text::str_eq;

verus! {

/// A table of the values an option argument may take.
#[derive(Clone, Copy, Debug, PartialEq, Eq, Structural)]
pub enum OptionTable {
    LabelStyles,
    Sizes,
    Xlocs,
    Ylocs,
    LineStyles,
    BoxBorderStyles,
    Extends,
    PlotStyles,
    ShapeStyles,
    HlineStyles,
    HorizontalAligns,
    VerticalAligns,
    Wraps,
    FontFamilies,
    TablePositions,
}

/// The values of an option table.
pub open spec fn table_set(t: OptionTable) -> Set<Seq<char>> {
    match t {
        OptionTable::LabelStyles => set![
            "label.style_none"@, "label.style_xcross"@, "label.style_cross"@,
            "label.style_triangleup"@, "label.style_triangledown"@, "label.style_flag"@,
            "label.style_circle"@, "label.style_square"@, "label.style_diamond"@,
            "label.style_arrowup"@, "label.style_arrowdown"@, "label.style_label_up"@,
            "label.style_label_down"@, "label.style_label_left"@, "label.style_label_right"@,
            "label.style_label_lower_left"@, "label.style_label_lower_right"@,
            "label.style_label_upper_left"@, "label.style_label_upper_right"@,
            "label.style_label_center"@,
        ],
        OptionTable::Sizes => set![
            "size.auto"@, "size.tiny"@, "size.small"@, "size.normal"@, "size.large"@, "size.huge"@,
        ],
        OptionTable::Xlocs => set!["xloc.bar_index"@, "xloc.bar_time"@],
        OptionTable::Ylocs => set!["yloc.price"@, "yloc.abovebar"@, "yloc.belowbar"@],
        OptionTable::LineStyles => set![
            "line.style_solid"@, "line.style_dotted"@, "line.style_dashed"@,
            "line.style_arrow_left"@, "line.style_arrow_right"@, "line.style_arrow_both"@,
        ],
        OptionTable::BoxBorderStyles => set!["line.style_solid"@, "line.style_dotted"@, "line.style_dashed"@],
        OptionTable::Extends => set!["extend.none"@, "extend.right"@, "extend.left"@, "extend.both"@],
        OptionTable::PlotStyles => set![
            "plot.style_line"@, "plot.style_stepline"@, "plot.style_stepline_diamond"@,
            "plot.style_histogram"@, "plot.style_cross"@, "plot.style_area"@,
            "plot.style_columns"@, "plot.style_circles"@, "plot.style_linebr"@,
            "plot.style_areabr"@,
        ],
        OptionTable::ShapeStyles => set![
            "shape.xcross"@, "shape.cross"@, "shape.circle"@, "shape.triangleup"@,
            "shape.triangledown"@, "shape.flag"@, "shape.arrowup"@, "shape.arrowdown"@,
            "shape.square"@, "shape.diamond"@, "shape.labelup"@, "shape.labeldown"@,
        ],
        OptionTable::HlineStyles => set!["hline.style_solid"@, "hline.style_dotted"@, "hline.style_dashed"@],
        OptionTable::HorizontalAligns => set!["text.align_left"@, "text.align_center"@, "text.align_right"@],
        OptionTable::VerticalAligns => set!["text.align_top"@, "text.align_center"@, "text.align_bottom"@],
        OptionTable::Wraps => set!["text.wrap_none"@, "text.wrap_auto"@],
        OptionTable::FontFamilies => set!["font.family_default"@, "font.family_monospace"@],
        OptionTable::TablePositions => set![
            "position.top_left"@, "position.top_center"@, "position.top_right"@,
            "position.middle_left"@, "position.middle_center"@, "position.middle_right"@,
            "position.bottom_left"@, "position.bottom_center"@, "position.bottom_right"@,
        ],
    }
}

/// The values of an option table as diagnostics list them.
pub open spec fn table_listing(t: OptionTable) -> Seq<char> {
    match t {
        OptionTable::LabelStyles => "label.style_none, label.style_xcross, label.style_cross, label.style_triangleup, label.style_triangledown, label.style_flag, label.style_circle, label.style_square, label.style_diamond, label.style_arrowup, label.style_arrowdown, label.style_label_up, label.style_label_down, label.style_label_left, label.style_label_right, label.style_label_lower_left, label.style_label_lower_right, label.style_label_upper_left, label.style_label_upper_right, label.style_label_center"@,
        OptionTable::Sizes => "size.auto, size.tiny, size.small, size.normal, size.large, size.huge"@,
        OptionTable::Xlocs => "xloc.bar_index, xloc.bar_time"@,
        OptionTable::Ylocs => "yloc.price, yloc.abovebar, yloc.belowbar"@,
        OptionTable::LineStyles => "line.style_solid, line.style_dotted, line.style_dashed, line.style_arrow_left, line.style_arrow_right, line.style_arrow_both"@,
        OptionTable::BoxBorderStyles => "line.style_solid, line.style_dotted, line.style_dashed"@,
        OptionTable::Extends => "extend.none, extend.right, extend.left, extend.both"@,
        OptionTable::PlotStyles => "plot.style_line, plot.style_stepline, plot.style_stepline_diamond, plot.style_histogram, plot.style_cross, plot.style_area, plot.style_columns, plot.style_circles, plot.style_linebr, plot.style_areabr"@,
        OptionTable::ShapeStyles => "shape.xcross, shape.cross, shape.circle, shape.triangleup, shape.triangledown, shape.flag, shape.arrowup, shape.arrowdown, shape.square, shape.diamond, shape.labelup, shape.labeldown"@,
        OptionTable::HlineStyles => "hline.style_solid, hline.style_dotted, hline.style_dashed"@,
        OptionTable::HorizontalAligns => "text.align_left, text.align_center, text.align_right"@,
        OptionTable::VerticalAligns => "text.align_top, text.align_center, text.align_bottom"@,
        OptionTable::Wraps => "text.wrap_none, text.wrap_auto"@,
        OptionTable::FontFamilies => "font.family_default, font.family_monospace"@,
        OptionTable::TablePositions => "position.top_left, position.top_center, position.top_right, position.middle_left, position.middle_center, position.middle_right, position.bottom_left, position.bottom_center, position.bottom_right"@,
    }
}

pub fn table_listing_text(t: OptionTable) -> (r: &'static str)
    ensures
        r@ == table_listing(t),
{
    match t {
        OptionTable::LabelStyles => "label.style_none, label.style_xcross, label.style_cross, label.style_triangleup, label.style_triangledown, label.style_flag, label.style_circle, label.style_square, label.style_diamond, label.style_arrowup, label.style_arrowdown, label.style_label_up, label.style_label_down, label.style_label_left, label.style_label_right, label.style_label_lower_left, label.style_label_lower_right, label.style_label_upper_left, label.style_label_upper_right, label.style_label_center",
        OptionTable::Sizes => "size.auto, size.tiny, size.small, size.normal, size.large, size.huge",
        OptionTable::Xlocs => "xloc.bar_index, xloc.bar_time",
        OptionTable::Ylocs => "yloc.price, yloc.abovebar, yloc.belowbar",
        OptionTable::LineStyles => "line.style_solid, line.style_dotted, line.style_dashed, line.style_arrow_left, line.style_arrow_right, line.style_arrow_both",
        OptionTable::BoxBorderStyles => "line.style_solid, line.style_dotted, line.style_dashed",
        OptionTable::Extends => "extend.none, extend.right, extend.left, extend.both",
        OptionTable::PlotStyles => "plot.style_line, plot.style_stepline, plot.style_stepline_diamond, plot.style_histogram, plot.style_cross, plot.style_area, plot.style_columns, plot.style_circles, plot.style_linebr, plot.style_areabr",
        OptionTable::ShapeStyles => "shape.xcross, shape.cross, shape.circle, shape.triangleup, shape.triangledown, shape.flag, shape.arrowup, shape.arrowdown, shape.square, shape.diamond, shape.labelup, shape.labeldown",
        OptionTable::HlineStyles => "hline.style_solid, hline.style_dotted, hline.style_dashed",
        OptionTable::HorizontalAligns => "text.align_left, text.align_center, text.align_right",
        OptionTable::VerticalAligns => "text.align_top, text.align_center, text.align_bottom",
        OptionTable::Wraps => "text.wrap_none, text.wrap_auto",
        OptionTable::FontFamilies => "font.family_default, font.family_monospace",
        OptionTable::TablePositions => "position.top_left, position.top_center, position.top_right, position.middle_left, position.middle_center, position.middle_right, position.bottom_left, position.bottom_center, position.bottom_right",
    }
}

/// Whether `value` is in the table.
pub fn table_contains(t: OptionTable, value: &str) -> (r: bool)
    ensures
        r == table_set(t).contains(value@),
{
    let v = value;
    match t {
        OptionTable::LabelStyles => {
            let a = str_eq(v, "label.style_none") || str_eq(v, "label.style_xcross") || str_eq(v, "label.style_cross")
                || str_eq(v, "label.style_triangleup") || str_eq(v, "label.style_triangledown")
                || str_eq(v, "label.style_flag") || str_eq(v, "label.style_circle");
            let b = str_eq(v, "label.style_square") || str_eq(v, "label.style_diamond")
                || str_eq(v, "label.style_arrowup") || str_eq(v, "label.style_arrowdown")
                || str_eq(v, "label.style_label_up") || str_eq(v, "label.style_label_down")
                || str_eq(v, "label.style_label_left");
            let c = str_eq(v, "label.style_label_right") || str_eq(v, "label.style_label_lower_left")
                || str_eq(v, "label.style_label_lower_right") || str_eq(v, "label.style_label_upper_left")
                || str_eq(v, "label.style_label_upper_right") || str_eq(v, "label.style_label_center");
            a || b || c
        },
        OptionTable::Sizes => str_eq(v, "size.auto") || str_eq(v, "size.tiny") || str_eq(v, "size.small")
            || str_eq(v, "size.normal") || str_eq(v, "size.large") || str_eq(v, "size.huge"),
        OptionTable::Xlocs => str_eq(v, "xloc.bar_index") || str_eq(v, "xloc.bar_time"),
        OptionTable::Ylocs => str_eq(v, "yloc.price") || str_eq(v, "yloc.abovebar") || str_eq(v, "yloc.belowbar"),
        OptionTable::LineStyles => str_eq(v, "line.style_solid") || str_eq(v, "line.style_dotted")
            || str_eq(v, "line.style_dashed") || str_eq(v, "line.style_arrow_left")
            || str_eq(v, "line.style_arrow_right") || str_eq(v, "line.style_arrow_both"),
        OptionTable::BoxBorderStyles => str_eq(v, "line.style_solid") || str_eq(v, "line.style_dotted")
            || str_eq(v, "line.style_dashed"),
        OptionTable::Extends => str_eq(v, "extend.none") || str_eq(v, "extend.right") || str_eq(v, "extend.left")
            || str_eq(v, "extend.both"),
        OptionTable::PlotStyles => {
            let a = str_eq(v, "plot.style_line") || str_eq(v, "plot.style_stepline")
                || str_eq(v, "plot.style_stepline_diamond") || str_eq(v, "plot.style_histogram")
                || str_eq(v, "plot.style_cross");
            let b = str_eq(v, "plot.style_area") || str_eq(v, "plot.style_columns") || str_eq(v, "plot.style_circles")
                || str_eq(v, "plot.style_linebr") || str_eq(v, "plot.style_areabr");
            a || b
        },
        OptionTable::ShapeStyles => {
            let a = str_eq(v, "shape.xcross") || str_eq(v, "shape.cross") || str_eq(v, "shape.circle")
                || str_eq(v, "shape.triangleup") || str_eq(v, "shape.triangledown") || str_eq(v, "shape.flag");
            let b = str_eq(v, "shape.arrowup") || str_eq(v, "shape.arrowdown") || str_eq(v, "shape.square")
                || str_eq(v, "shape.diamond") || str_eq(v, "shape.labelup") || str_eq(v, "shape.labeldown");
            a || b
        },
        OptionTable::HlineStyles => str_eq(v, "hline.style_solid") || str_eq(v, "hline.style_dotted")
            || str_eq(v, "hline.style_dashed"),
        OptionTable::HorizontalAligns => str_eq(v, "text.align_left") || str_eq(v, "text.align_center")
            || str_eq(v, "text.align_right"),
        OptionTable::VerticalAligns => str_eq(v, "text.align_top") || str_eq(v, "text.align_center")
            || str_eq(v, "text.align_bottom"),
        OptionTable::Wraps => str_eq(v, "text.wrap_none") || str_eq(v, "text.wrap_auto"),
        OptionTable::FontFamilies => str_eq(v, "font.family_default") || str_eq(v, "font.family_monospace"),
        OptionTable::TablePositions => {
            let a = str_eq(v, "position.top_left") || str_eq(v, "position.top_center")
                || str_eq(v, "position.top_right") || str_eq(v, "position.middle_left")
                || str_eq(v, "position.middle_center");
            let b = str_eq(v, "position.middle_right") || str_eq(v, "position.bottom_left")
                || str_eq(v, "position.bottom_center") || str_eq(v, "position.bottom_right");
            a || b
        },
    }
}

/// How an option argument is checked.
#[derive(Clone, Copy, Debug, PartialEq, Eq, Structural)]
pub enum OptionRule {
    /// A constant string from the table, checked by the caller.
    LabelString(OptionTable),
    /// Every string the argument may evaluate to is in the table.
    EnumString(OptionTable),
    /// A known constant string must be a size name.
    TextSize,
    /// A known constant int must be one of the text formatting flags.
    TextFormatting,
}

/// One option argument to check: the position of its parameter, its name,
/// and the rule.
pub struct OptionCheck {
    pub index: usize,
    pub name: &'static str,
    pub rule: OptionRule,
}

pub open spec fn check_view(c: OptionCheck) -> (int, Seq<char>, OptionRule) {
    (c.index as int, c.name@, c.rule)
}

/// The option checks of a call to `function` in language version `version`,
/// each as the position of the option's parameter, its name and its rule.
pub open spec fn option_check_list(function: Seq<char>, version: int) -> Seq<(int, Seq<char>, OptionRule)> {
    if function == "label.new"@ {
        seq![(3int, "xloc"@, OptionRule::LabelString(OptionTable::Xlocs)), (4int, "yloc"@, OptionRule::LabelString(OptionTable::Ylocs)), (6int, "style"@, OptionRule::LabelString(OptionTable::LabelStyles)), (8int, "size"@, OptionRule::TextSize), (9int, "textalign"@, OptionRule::LabelString(OptionTable::HorizontalAligns)), (11int, "text_font_family"@, OptionRule::LabelString(OptionTable::FontFamilies)), (13int, "text_formatting"@, OptionRule::TextFormatting)]
    } else if function == "label.set_style"@ {
        seq![(1int, "style"@, OptionRule::EnumString(OptionTable::LabelStyles))]
    } else if function == "label.set_size"@ {
        seq![(1int, "size"@, OptionRule::TextSize)]
    } else if function == "label.set_textalign"@ {
        seq![(1int, "textalign"@, OptionRule::LabelString(OptionTable::HorizontalAligns))]
    } else if function == "label.set_text_font_family"@ {
        seq![(1int, "text_font_family"@, OptionRule::LabelString(OptionTable::FontFamilies))]
    } else if function == "label.set_text_formatting"@ {
        seq![(1int, "text_formatting"@, OptionRule::TextFormatting)]
    } else if function == "label.set_xloc"@ {
        seq![(2int, "xloc"@, OptionRule::LabelString(OptionTable::Xlocs))]
    } else if function == "label.set_yloc"@ {
        seq![(1int, "yloc"@, OptionRule::LabelString(OptionTable::Ylocs))]
    } else if function == "line.new"@ {
        seq![(4int, "xloc"@, OptionRule::LabelString(OptionTable::Xlocs)), (5int, "extend"@, OptionRule::LabelString(OptionTable::Extends)), (7int, "style"@, OptionRule::LabelString(OptionTable::LineStyles))]
    } else if function == "box.new"@ {
        seq![(6int, "border_style"@, OptionRule::LabelString(OptionTable::BoxBorderStyles)), (7int, "extend"@, OptionRule::LabelString(OptionTable::Extends)), (8int, "xloc"@, OptionRule::LabelString(OptionTable::Xlocs)), (11int, "text_size"@, OptionRule::TextSize), (13int, "text_halign"@, OptionRule::LabelString(OptionTable::HorizontalAligns)), (14int, "text_valign"@, OptionRule::LabelString(OptionTable::VerticalAligns)), (15int, "text_wrap"@, OptionRule::LabelString(OptionTable::Wraps)), (16int, "text_font_family"@, OptionRule::LabelString(OptionTable::FontFamilies)), (18int, "text_formatting"@, OptionRule::TextFormatting)]
    } else if function == "line.set_style"@ {
        seq![(1int, "style"@, OptionRule::EnumString(OptionTable::LineStyles))]
    } else if function == "line.set_extend"@ {
        seq![(1int, "extend"@, OptionRule::EnumString(OptionTable::Extends))]
    } else if function == "line.set_xloc"@ {
        seq![(3int, "xloc"@, OptionRule::LabelString(OptionTable::Xlocs))]
    } else if function == "box.set_extend"@ {
        seq![(1int, "extend"@, OptionRule::LabelString(OptionTable::Extends))]
    } else if function == "box.set_xloc"@ {
        seq![(3int, "xloc"@, OptionRule::LabelString(OptionTable::Xlocs))]
    } else if function == "box.set_border_style"@ {
        seq![(1int, "style"@, OptionRule::LabelString(OptionTable::BoxBorderStyles))]
    } else if function == "box.set_text_size"@ {
        seq![(1int, "text_size"@, OptionRule::TextSize)]
    } else if function == "box.set_text_halign"@ {
        seq![(1int, "text_halign"@, OptionRule::LabelString(OptionTable::HorizontalAligns))]
    } else if function == "box.set_text_valign"@ {
        seq![(1int, "text_valign"@, OptionRule::LabelString(OptionTable::VerticalAligns))]
    } else if function == "box.set_text_wrap"@ {
        seq![(1int, "text_wrap"@, OptionRule::LabelString(OptionTable::Wraps))]
    } else if function == "box.set_text_font_family"@ {
        seq![(1int, "text_font_family"@, OptionRule::LabelString(OptionTable::FontFamilies))]
    } else if function == "box.set_text_formatting"@ {
        seq![(1int, "text_formatting"@, OptionRule::TextFormatting)]
    } else if function == "table.new"@ {
        seq![(0int, "position"@, OptionRule::LabelString(OptionTable::TablePositions))]
    } else if function == "table.set_position"@ {
        seq![(1int, "position"@, OptionRule::LabelString(OptionTable::TablePositions))]
    } else if function == "table.cell_set_text_halign"@ {
        seq![(3int, "text_halign"@, OptionRule::LabelString(OptionTable::HorizontalAligns))]
    } else if function == "table.cell_set_text_valign"@ {
        seq![(3int, "text_valign"@, OptionRule::LabelString(OptionTable::VerticalAligns))]
    } else if function == "table.cell_set_text_wrap"@ {
        seq![(3int, "text_wrap"@, OptionRule::LabelString(OptionTable::Wraps))]
    } else if function == "table.cell_set_text_size"@ {
        seq![(3int, "text_size"@, OptionRule::TextSize)]
    } else if function == "table.cell"@ {
        seq![(7int, "text_halign"@, OptionRule::LabelString(OptionTable::HorizontalAligns)), (8int, "text_valign"@, OptionRule::LabelString(OptionTable::VerticalAligns)), (9int, "text_size"@, OptionRule::TextSize), (12int, "text_font_family"@, OptionRule::LabelString(OptionTable::FontFamilies)), (13int, "text_formatting"@, OptionRule::TextFormatting)]
    } else if function == "table.cell_set_text_font_family"@ {
        seq![(3int, "text_font_family"@, OptionRule::LabelString(OptionTable::FontFamilies))]
    } else if function == "table.cell_set_text_formatting"@ {
        seq![(3int, "text_formatting"@, OptionRule::TextFormatting)]
    } else if function == "plot"@ && version >= 5 {
        seq![(4int, "style"@, OptionRule::EnumString(OptionTable::PlotStyles))]
    } else if function == "plotshape"@ {
        seq![(2int, "style"@, OptionRule::EnumString(OptionTable::ShapeStyles))]
    } else if function == "hline"@ && version >= 5 {
        seq![(3int, "linestyle"@, OptionRule::EnumString(OptionTable::HlineStyles))]
    } else {
        Seq::empty()
    }
}

/// The option checks of a call to `function` under `dialect`.
pub fn drawing_option_checks(function: &str, dialect: PineDialect) -> (r: Vec<OptionCheck>)
    ensures
        r@.map_values(|c: OptionCheck| check_view(c)) == option_check_list(function@, dialect_version(dialect)),
{
    let version = dialect_number(dialect);
    let mut out: Vec<OptionCheck> = Vec::new();
    if str_eq(function, "label.new") {
        out.push(OptionCheck { index: 3, name: "xloc", rule: OptionRule::LabelString(OptionTable::Xlocs) });
        out.push(OptionCheck { index: 4, name: "yloc", rule: OptionRule::LabelString(OptionTable::Ylocs) });
        out.push(OptionCheck { index: 6, name: "style", rule: OptionRule::LabelString(OptionTable::LabelStyles) });
        out.push(OptionCheck { index: 8, name: "size", rule: OptionRule::TextSize });
        out.push(OptionCheck { index: 9, name: "textalign", rule: OptionRule::LabelString(OptionTable::HorizontalAligns) });
        out.push(OptionCheck { index: 11, name: "text_font_family", rule: OptionRule::LabelString(OptionTable::FontFamilies) });
        out.push(OptionCheck { index: 13, name: "text_formatting", rule: OptionRule::TextFormatting });
        assert(out@.map_values(|c: OptionCheck| check_view(c)) =~= seq![(3int, "xloc"@, OptionRule::LabelString(OptionTable::Xlocs)), (4int, "yloc"@, OptionRule::LabelString(OptionTable::Ylocs)), (6int, "style"@, OptionRule::LabelString(OptionTable::LabelStyles)), (8int, "size"@, OptionRule::TextSize), (9int, "textalign"@, OptionRule::LabelString(OptionTable::HorizontalAligns)), (11int, "text_font_family"@, OptionRule::LabelString(OptionTable::FontFamilies)), (13int, "text_formatting"@, OptionRule::TextFormatting)]);
    } else if str_eq(function, "label.set_style") {
        out.push(OptionCheck { index: 1, name: "style", rule: OptionRule::EnumString(OptionTable::LabelStyles) });
        assert(out@.map_values(|c: OptionCheck| check_view(c)) =~= seq![(1int, "style"@, OptionRule::EnumString(OptionTable::LabelStyles))]);
    } else if str_eq(function, "label.set_size") {
        out.push(OptionCheck { index: 1, name: "size", rule: OptionRule::TextSize });
        assert(out@.map_values(|c: OptionCheck| check_view(c)) =~= seq![(1int, "size"@, OptionRule::TextSize)]);
    } else if str_eq(function, "label.set_textalign") {
        out.push(OptionCheck { index: 1, name: "textalign", rule: OptionRule::LabelString(OptionTable::HorizontalAligns) });
        assert(out@.map_values(|c: OptionCheck| check_view(c)) =~= seq![(1int, "textalign"@, OptionRule::LabelString(OptionTable::HorizontalAligns))]);
    } else if str_eq(function, "label.set_text_font_family") {
        out.push(OptionCheck { index: 1, name: "text_font_family", rule: OptionRule::LabelString(OptionTable::FontFamilies) });
        assert(out@.map_values(|c: OptionCheck| check_view(c)) =~= seq![(1int, "text_font_family"@, OptionRule::LabelString(OptionTable::FontFamilies))]);
    } else if str_eq(function, "label.set_text_formatting") {
        out.push(OptionCheck { index: 1, name: "text_formatting", rule: OptionRule::TextFormatting });
        assert(out@.map_values(|c: OptionCheck| check_view(c)) =~= seq![(1int, "text_formatting"@, OptionRule::TextFormatting)]);
    } else if str_eq(function, "label.set_xloc") {
        out.push(OptionCheck { index: 2, name: "xloc", rule: OptionRule::LabelString(OptionTable::Xlocs) });
        assert(out@.map_values(|c: OptionCheck| check_view(c)) =~= seq![(2int, "xloc"@, OptionRule::LabelString(OptionTable::Xlocs))]);
    } else if str_eq(function, "label.set_yloc") {
        out.push(OptionCheck { index: 1, name: "yloc", rule: OptionRule::LabelString(OptionTable::Ylocs) });
        assert(out@.map_values(|c: OptionCheck| check_view(c)) =~= seq![(1int, "yloc"@, OptionRule::LabelString(OptionTable::Ylocs))]);
    } else if str_eq(function, "line.new") {
        out.push(OptionCheck { index: 4, name: "xloc", rule: OptionRule::LabelString(OptionTable::Xlocs) });
        out.push(OptionCheck { index: 5, name: "extend", rule: OptionRule::LabelString(OptionTable::Extends) });
        out.push(OptionCheck { index: 7, name: "style", rule: OptionRule::LabelString(OptionTable::LineStyles) });
        assert(out@.map_values(|c: OptionCheck| check_view(c)) =~= seq![(4int, "xloc"@, OptionRule::LabelString(OptionTable::Xlocs)), (5int, "extend"@, OptionRule::LabelString(OptionTable::Extends)), (7int, "style"@, OptionRule::LabelString(OptionTable::LineStyles))]);
    } else if str_eq(function, "box.new") {
        out.push(OptionCheck { index: 6, name: "border_style", rule: OptionRule::LabelString(OptionTable::BoxBorderStyles) });
        out.push(OptionCheck { index: 7, name: "extend", rule: OptionRule::LabelString(OptionTable::Extends) });
        out.push(OptionCheck { index: 8, name: "xloc", rule: OptionRule::LabelString(OptionTable::Xlocs) });
        out.push(OptionCheck { index: 11, name: "text_size", rule: OptionRule::TextSize });
        out.push(OptionCheck { index: 13, name: "text_halign", rule: OptionRule::LabelString(OptionTable::HorizontalAligns) });
        out.push(OptionCheck { index: 14, name: "text_valign", rule: OptionRule::LabelString(OptionTable::VerticalAligns) });
        out.push(OptionCheck { index: 15, name: "text_wrap", rule: OptionRule::LabelString(OptionTable::Wraps) });
        out.push(OptionCheck { index: 16, name: "text_font_family", rule: OptionRule::LabelString(OptionTable::FontFamilies) });
        out.push(OptionCheck { index: 18, name: "text_formatting", rule: OptionRule::TextFormatting });
        assert(out@.map_values(|c: OptionCheck| check_view(c)) =~= seq![(6int, "border_style"@, OptionRule::LabelString(OptionTable::BoxBorderStyles)), (7int, "extend"@, OptionRule::LabelString(OptionTable::Extends)), (8int, "xloc"@, OptionRule::LabelString(OptionTable::Xlocs)), (11int, "text_size"@, OptionRule::TextSize), (13int, "text_halign"@, OptionRule::LabelString(OptionTable::HorizontalAligns)), (14int, "text_valign"@, OptionRule::LabelString(OptionTable::VerticalAligns)), (15int, "text_wrap"@, OptionRule::LabelString(OptionTable::Wraps)), (16int, "text_font_family"@, OptionRule::LabelString(OptionTable::FontFamilies)), (18int, "text_formatting"@, OptionRule::TextFormatting)]);
    } else if str_eq(function, "line.set_style") {
        out.push(OptionCheck { index: 1, name: "style", rule: OptionRule::EnumString(OptionTable::LineStyles) });
        assert(out@.map_values(|c: OptionCheck| check_view(c)) =~= seq![(1int, "style"@, OptionRule::EnumString(OptionTable::LineStyles))]);
    } else if str_eq(function, "line.set_extend") {
        out.push(OptionCheck { index: 1, name: "extend", rule: OptionRule::EnumString(OptionTable::Extends) });
        assert(out@.map_values(|c: OptionCheck| check_view(c)) =~= seq![(1int, "extend"@, OptionRule::EnumString(OptionTable::Extends))]);
    } else if str_eq(function, "line.set_xloc") {
        out.push(OptionCheck { index: 3, name: "xloc", rule: OptionRule::LabelString(OptionTable::Xlocs) });
        assert(out@.map_values(|c: OptionCheck| check_view(c)) =~= seq![(3int, "xloc"@, OptionRule::LabelString(OptionTable::Xlocs))]);
    } else if str_eq(function, "box.set_extend") {
        out.push(OptionCheck { index: 1, name: "extend", rule: OptionRule::LabelString(OptionTable::Extends) });
        assert(out@.map_values(|c: OptionCheck| check_view(c)) =~= seq![(1int, "extend"@, OptionRule::LabelString(OptionTable::Extends))]);
    } else if str_eq(function, "box.set_xloc") {
        out.push(OptionCheck { index: 3, name: "xloc", rule: OptionRule::LabelString(OptionTable::Xlocs) });
        assert(out@.map_values(|c: OptionCheck| check_view(c)) =~= seq![(3int, "xloc"@, OptionRule::LabelString(OptionTable::Xlocs))]);
    } else if str_eq(function, "box.set_border_style") {
        out.push(OptionCheck { index: 1, name: "style", rule: OptionRule::LabelString(OptionTable::BoxBorderStyles) });
        assert(out@.map_values(|c: OptionCheck| check_view(c)) =~= seq![(1int, "style"@, OptionRule::LabelString(OptionTable::BoxBorderStyles))]);
    } else if str_eq(function, "box.set_text_size") {
        out.push(OptionCheck { index: 1, name: "text_size", rule: OptionRule::TextSize });
        assert(out@.map_values(|c: OptionCheck| check_view(c)) =~= seq![(1int, "text_size"@, OptionRule::TextSize)]);
    } else if str_eq(function, "box.set_text_halign") {
        out.push(OptionCheck { index: 1, name: "text_halign", rule: OptionRule::LabelString(OptionTable::HorizontalAligns) });
        assert(out@.map_values(|c: OptionCheck| check_view(c)) =~= seq![(1int, "text_halign"@, OptionRule::LabelString(OptionTable::HorizontalAligns))]);
    } else if str_eq(function, "box.set_text_valign") {
        out.push(OptionCheck { index: 1, name: "text_valign", rule: OptionRule::LabelString(OptionTable::VerticalAligns) });
        assert(out@.map_values(|c: OptionCheck| check_view(c)) =~= seq![(1int, "text_valign"@, OptionRule::LabelString(OptionTable::VerticalAligns))]);
    } else if str_eq(function, "box.set_text_wrap") {
        out.push(OptionCheck { index: 1, name: "text_wrap", rule: OptionRule::LabelString(OptionTable::Wraps) });
        assert(out@.map_values(|c: OptionCheck| check_view(c)) =~= seq![(1int, "text_wrap"@, OptionRule::LabelString(OptionTable::Wraps))]);
    } else if str_eq(function, "box.set_text_font_family") {
        out.push(OptionCheck { index: 1, name: "text_font_family", rule: OptionRule::LabelString(OptionTable::FontFamilies) });
        assert(out@.map_values(|c: OptionCheck| check_view(c)) =~= seq![(1int, "text_font_family"@, OptionRule::LabelString(OptionTable::FontFamilies))]);
    } else if str_eq(function, "box.set_text_formatting") {
        out.push(OptionCheck { index: 1, name: "text_formatting", rule: OptionRule::TextFormatting });
        assert(out@.map_values(|c: OptionCheck| check_view(c)) =~= seq![(1int, "text_formatting"@, OptionRule::TextFormatting)]);
    } else if str_eq(function, "table.new") {
        out.push(OptionCheck { index: 0, name: "position", rule: OptionRule::LabelString(OptionTable::TablePositions) });
        assert(out@.map_values(|c: OptionCheck| check_view(c)) =~= seq![(0int, "position"@, OptionRule::LabelString(OptionTable::TablePositions))]);
    } else if str_eq(function, "table.set_position") {
        out.push(OptionCheck { index: 1, name: "position", rule: OptionRule::LabelString(OptionTable::TablePositions) });
        assert(out@.map_values(|c: OptionCheck| check_view(c)) =~= seq![(1int, "position"@, OptionRule::LabelString(OptionTable::TablePositions))]);
    } else if str_eq(function, "table.cell_set_text_halign") {
        out.push(OptionCheck { index: 3, name: "text_halign", rule: OptionRule::LabelString(OptionTable::HorizontalAligns) });
        assert(out@.map_values(|c: OptionCheck| check_view(c)) =~= seq![(3int, "text_halign"@, OptionRule::LabelString(OptionTable::HorizontalAligns))]);
    } else if str_eq(function, "table.cell_set_text_valign") {
        out.push(OptionCheck { index: 3, name: "text_valign", rule: OptionRule::LabelString(OptionTable::VerticalAligns) });
        assert(out@.map_values(|c: OptionCheck| check_view(c)) =~= seq![(3int, "text_valign"@, OptionRule::LabelString(OptionTable::VerticalAligns))]);
    } else if str_eq(function, "table.cell_set_text_wrap") {
        out.push(OptionCheck { index: 3, name: "text_wrap", rule: OptionRule::LabelString(OptionTable::Wraps) });
        assert(out@.map_values(|c: OptionCheck| check_view(c)) =~= seq![(3int, "text_wrap"@, OptionRule::LabelString(OptionTable::Wraps))]);
    } else if str_eq(function, "table.cell_set_text_size") {
        out.push(OptionCheck { index: 3, name: "text_size", rule: OptionRule::TextSize });
        assert(out@.map_values(|c: OptionCheck| check_view(c)) =~= seq![(3int, "text_size"@, OptionRule::TextSize)]);
    } else if str_eq(function, "table.cell") {
        out.push(OptionCheck { index: 7, name: "text_halign", rule: OptionRule::LabelString(OptionTable::HorizontalAligns) });
        out.push(OptionCheck { index: 8, name: "text_valign", rule: OptionRule::LabelString(OptionTable::VerticalAligns) });
        out.push(OptionCheck { index: 9, name: "text_size", rule: OptionRule::TextSize });
        out.push(OptionCheck { index: 12, name: "text_font_family", rule: OptionRule::LabelString(OptionTable::FontFamilies) });
        out.push(OptionCheck { index: 13, name: "text_formatting", rule: OptionRule::TextFormatting });
        assert(out@.map_values(|c: OptionCheck| check_view(c)) =~= seq![(7int, "text_halign"@, OptionRule::LabelString(OptionTable::HorizontalAligns)), (8int, "text_valign"@, OptionRule::LabelString(OptionTable::VerticalAligns)), (9int, "text_size"@, OptionRule::TextSize), (12int, "text_font_family"@, OptionRule::LabelString(OptionTable::FontFamilies)), (13int, "text_formatting"@, OptionRule::TextFormatting)]);
    } else if str_eq(function, "table.cell_set_text_font_family") {
        out.push(OptionCheck { index: 3, name: "text_font_family", rule: OptionRule::LabelString(OptionTable::FontFamilies) });
        assert(out@.map_values(|c: OptionCheck| check_view(c)) =~= seq![(3int, "text_font_family"@, OptionRule::LabelString(OptionTable::FontFamilies))]);
    } else if str_eq(function, "table.cell_set_text_formatting") {
        out.push(OptionCheck { index: 3, name: "text_formatting", rule: OptionRule::TextFormatting });
        assert(out@.map_values(|c: OptionCheck| check_view(c)) =~= seq![(3int, "text_formatting"@, OptionRule::TextFormatting)]);
    } else if str_eq(function, "plot") && version >= 5 {
        out.push(OptionCheck { index: 4, name: "style", rule: OptionRule::EnumString(OptionTable::PlotStyles) });
        assert(out@.map_values(|c: OptionCheck| check_view(c)) =~= seq![(4int, "style"@, OptionRule::EnumString(OptionTable::PlotStyles))]);
    } else if str_eq(function, "plotshape") {
        out.push(OptionCheck { index: 2, name: "style", rule: OptionRule::EnumString(OptionTable::ShapeStyles) });
        assert(out@.map_values(|c: OptionCheck| check_view(c)) =~= seq![(2int, "style"@, OptionRule::EnumString(OptionTable::ShapeStyles))]);
    } else if str_eq(function, "hline") && version >= 5 {
        out.push(OptionCheck { index: 3, name: "linestyle", rule: OptionRule::EnumString(OptionTable::HlineStyles) });
        assert(out@.map_values(|c: OptionCheck| check_view(c)) =~= seq![(3int, "linestyle"@, OptionRule::EnumString(OptionTable::HlineStyles))]);
    } else {
        assert(out@.map_values(|c: OptionCheck| check_view(c)) =~= Seq::empty());
    }
    out
}

/// What is known of the value of each argument of a call, as the constant
/// evaluator found it: the strings it may evaluate to, a strict constant int
/// (with `None` inside for a constant that is not a whole int), and a
/// constant string.
pub struct DrawingArgFacts {
    pub string_domain: Option<Vec<String>>,
    pub strict_int: Option<Option<i64>>,
    pub const_string: Option<String>,
}

/// The argument at `ai` fills the option parameter `name` at position
/// `index`: by name, or by that position.
pub open spec fn is_option_target(sig: BuiltinSignature, args: Seq<CallArg>, index: int, name: Seq<char>, ai: int) -> bool {
    ||| (args[ai].name matches Some(n) && n@ == name)
    ||| (args[ai].name is None && ai < sig.params@.len() && sig.params@[ai].name@ == name && index == ai)
}

pub open spec fn all_in_table(values: Seq<String>, t: OptionTable) -> bool {
    forall|i: int| 0 <= i < values.len() ==> table_set(t).contains(#[trigger] values[i]@)
}

pub open spec fn option_value_diag(function: Seq<char>, name: Seq<char>, allowed: Seq<char>, span: Span) -> DiagView {
    (
        Severity::Error,
        "E_CALL_ARG_VALUE"@,
        "`"@ + function + "` argument `"@ + name + "` only supports "@ + allowed,
        span,
    )
}

pub open spec fn size_allowed() -> Seq<char> {
    table_listing(OptionTable::Sizes) + " or int sizes"@
}

pub open spec fn formatting_allowed() -> Seq<char> {
    "text.format_none, text.format_bold, text.format_italic, or text.format_bold + text.format_italic"@
}

/// What the argument at `ai` reports under one option check.
pub open spec fn option_arg_report(
    sig: BuiltinSignature,
    args: Seq<CallArg>,
    facts: Seq<DrawingArgFacts>,
    check: (int, Seq<char>, OptionRule),
    ai: int,
) -> Seq<DiagView> {
    let (index, name, rule) = check;
    if !is_option_target(sig, args, index, name, ai) {
        Seq::empty()
    } else {
        match rule {
            OptionRule::LabelString(_) => Seq::empty(),
            OptionRule::EnumString(t) => if facts[ai].string_domain matches Some(values) && all_in_table(values@, t) {
                Seq::empty()
            } else {
                seq![option_value_diag(sig.name@, name, table_listing(t), args[ai].span)]
            },
            OptionRule::TextSize => match facts[ai].const_string {
                None => Seq::empty(),
                Some(v) => if table_set(OptionTable::Sizes).contains(v@) {
                    Seq::empty()
                } else {
                    seq![option_value_diag(sig.name@, name, size_allowed(), args[ai].span)]
                },
            },
            OptionRule::TextFormatting => match facts[ai].strict_int {
                None => Seq::empty(),
                Some(x) => if x matches Some(v) && 0 <= v <= 3 {
                    Seq::empty()
                } else {
                    seq![option_value_diag(sig.name@, name, formatting_allowed(), args[ai].span)]
                },
            },
        }
    }
}

/// What the first `k` arguments report under one option check.
pub open spec fn option_check_report(
    sig: BuiltinSignature,
    args: Seq<CallArg>,
    facts: Seq<DrawingArgFacts>,
    check: (int, Seq<char>, OptionRule),
    k: int,
) -> Seq<DiagView>
    decreases k,
{
    if k <= 0 {
        Seq::empty()
    } else {
        option_check_report(sig, args, facts, check, k - 1) + option_arg_report(sig, args, facts, check, k - 1)
    }
}

/// What the first `m` option checks report, in order.
pub open spec fn option_checks_report(
    sig: BuiltinSignature,
    args: Seq<CallArg>,
    facts: Seq<DrawingArgFacts>,
    checks: Seq<(int, Seq<char>, OptionRule)>,
    m: int,
) -> Seq<DiagView>
    decreases m,
{
    if m <= 0 {
        Seq::empty()
    } else {
        option_checks_report(sig, args, facts, checks, m - 1) + option_check_report(
            sig,
            args,
            facts,
            checks[m - 1],
            args.len() as int,
        )
    }
}

fn all_values_in_table(values: &Vec<String>, t: OptionTable) -> (r: bool)
    ensures
        r == all_in_table(values@, t),
{
    let mut i: usize = 0;
    while i < values.len()
        invariant
            i <= values@.len(),
            forall|j: int| 0 <= j < i ==> table_set(t).contains(#[trigger] values@[j]@),
        decreases values@.len() - i,
    {
        if !table_contains(t, values[i].as_str()) {
            return false;
        }
        i = i + 1;
    }
    true
}

fn option_value_diagnostic(function_name: &str, name: &str, allowed: &str, tail: &str, span: Span) -> (r: Diagnostic)
    ensures
        diag_view(r) == option_value_diag(function_name@, name@, allowed@ + tail@, span),
{
    let mut message = String::from_str("`");
    message.append(function_name);
    message.append("` argument `");
    message.append(name);
    message.append("` only supports ");
    message.append(allowed);
    message.append(tail);
    let r = Diagnostic::error("E_CALL_ARG_VALUE", message, span);
    assert(r.message@ =~= "`"@ + function_name@ + "` argument `"@ + name@ + "` only supports "@ + (allowed@ + tail@));
    r
}

fn option_target(signature: &BuiltinSignature, args: &Vec<CallArg>, index: usize, name: &str, ai: usize) -> (r: bool)
    requires
        ai < args@.len(),
    ensures
        r == is_option_target(*signature, args@, index as int, name@, ai as int),
{
    match &args[ai].name {
        Some(n) => str_eq(n.as_str(), name),
        None => ai < signature.params.len() && str_eq(signature.params[ai].name.as_str(), name) && index == ai,
    }
}

/// Applies one option check to every argument of the call.
pub fn apply_option_check(
    signature: &BuiltinSignature,
    args: &Vec<CallArg>,
    facts: &Vec<DrawingArgFacts>,
    check: &OptionCheck,
    diagnostics: &mut Vec<Diagnostic>,
)
    requires
        facts@.len() == args@.len(),
    ensures
        diag_views(final(diagnostics)@) == diag_views(old(diagnostics)@) + option_check_report(
            *signature,
            args@,
            facts@,
            check_view(*check),
            args@.len() as int,
        ),
{
    let ghost start = diagnostics@;
    let name = signature.name.as_str();
    let mut ai: usize = 0;
    while ai < args.len()
        invariant
            ai <= args@.len(),
            facts@.len() == args@.len(),
            name@ == signature.name@,
            diag_views(diagnostics@) == diag_views(start) + option_check_report(
                *signature,
                args@,
                facts@,
                check_view(*check),
                ai as int,
            ),
        decreases args@.len() - ai,
    {
        let ghost before = diagnostics@;
        proof {
            reveal_strlit("");
        }
        let mut report: Option<Diagnostic> = None;
        if option_target(signature, args, check.index, check.name, ai) {
            let span = args[ai].span;
            match check.rule {
                OptionRule::LabelString(_) => {},
                OptionRule::EnumString(t) => {
                    let supported = match &facts[ai].string_domain {
                        Some(values) => all_values_in_table(values, t),
                        None => false,
                    };
                    if !supported {
                        let d = option_value_diagnostic(name, check.name, table_listing_text(t), "", span);
                        assert(table_listing(t) + ""@ =~= table_listing(t));
                        report = Some(d);
                    }
                },
                OptionRule::TextSize => {
                    if let Some(v) = &facts[ai].const_string {
                        if !table_contains(OptionTable::Sizes, v.as_str()) {
                            report = Some(
                                option_value_diagnostic(
                                    name,
                                    check.name,
                                    table_listing_text(OptionTable::Sizes),
                                    " or int sizes",
                                    span,
                                ),
                            );
                        }
                    }
                },
                OptionRule::TextFormatting => {
                    if let Some(x) = facts[ai].strict_int {
                        let ok = match x {
                            Some(v) => 0 <= v && v <= 3,
                            None => false,
                        };
                        if !ok {
                            let d = option_value_diagnostic(
                                name,
                                check.name,
                                "text.format_none, text.format_bold, text.format_italic, or text.format_bold + text.format_italic",
                                "",
                                span,
                            );
                            assert(formatting_allowed() + ""@ =~= formatting_allowed());
                            report = Some(d);
                        }
                    }
                },
            }
        }
        match report {
            Some(d) => {
                diagnostics.push(d);
                assert(diag_views(diagnostics@) =~= diag_views(before) + seq![diag_view(d)]);
            },
            None => {
                assert(diag_views(diagnostics@) =~= diag_views(before) + Seq::empty());
            },
        }
        assert(diag_views(diagnostics@) =~= diag_views(start) + option_check_report(
            *signature,
            args@,
            facts@,
            check_view(*check),
            ai as int + 1,
        ));
        ai = ai + 1;
    }
}

/// Checks the option arguments of a drawing or plotting call whose values
/// are known, reporting each value outside what the option takes.  The
/// options that are constant strings checked against a table are left to
/// the caller, which finds them in `drawing_option_checks`.
pub fn validate_drawing_option_args(
    signature: &BuiltinSignature,
    args: &Vec<CallArg>,
    dialect: PineDialect,
    facts: &Vec<DrawingArgFacts>,
    diagnostics: &mut Vec<Diagnostic>,
)
    requires
        facts@.len() == args@.len(),
    ensures
        ({
            let checks = option_check_list(signature.name@, dialect_version(dialect));
            diag_views(final(diagnostics)@) == diag_views(old(diagnostics)@) + option_checks_report(
                *signature,
                args@,
                facts@,
                checks,
                checks.len() as int,
            )
        }),
{
    let ghost start = diagnostics@;
    let checks = drawing_option_checks(signature.name.as_str(), dialect);
    let ghost list = option_check_list(signature.name@, dialect_version(dialect));
    assert(checks@.map_values(|c: OptionCheck| check_view(c)).len() == list.len());
    let mut m: usize = 0;
    while m < checks.len()
        invariant
            m <= checks@.len(),
            facts@.len() == args@.len(),
            checks@.map_values(|c: OptionCheck| check_view(c)) == list,
            diag_views(diagnostics@) == diag_views(start) + option_checks_report(*signature, args@, facts@, list, m as int),
        decreases checks@.len() - m,
    {
        let ghost before = diagnostics@;
        apply_option_check(signature, args, facts, &checks[m], diagnostics);
        assert(list[m as int] == check_view(checks@[m as int]));
        assert(diag_views(diagnostics@) =~= diag_views(start) + option_checks_report(
            *signature,
            args@,
            facts@,
            list,
            m as int + 1,
        ));
        m = m + 1;
    }
}

/// The arguments named `transp` in a call to `fill`, which Pine v6 removed.
pub open spec fn removed_fill_transp_args(function: Seq<char>, version: int, args: Seq<CallArg>) -> Seq<Span>
    decreases args.len(),
{
    if args.len() == 0 || !(function == "fill"@ && version >= 6) {
        Seq::empty()
    } else {
        removed_fill_transp_args(function, version, args.drop_last()) + if args.last().name matches Some(n) && n@
            == "transp"@ {
            seq![args.last().span]
        } else {
            Seq::empty()
        }
    }
}

/// The spans of the `transp` arguments of a v6 call to `fill`, each to be
/// reported as a removed feature.
pub fn removed_fill_transp_spans(function: &str, dialect: PineDialect, args: &Vec<CallArg>) -> (r: Vec<Span>)
    ensures
        r@ == removed_fill_transp_args(function@, dialect_version(dialect), args@),
{
    let mut out: Vec<Span> = Vec::new();
    if !(str_eq(function, "fill") && dialect_number(dialect) >= 6) {
        return out;
    }
    let mut i: usize = 0;
    assert(args@.take(0) =~= Seq::<CallArg>::empty());
    while i < args.len()
        invariant
            i <= args@.len(),
            function@ == "fill"@ && dialect_version(dialect) >= 6,
            out@ == removed_fill_transp_args(function@, dialect_version(dialect), args@.take(i as int)),
        decreases args@.len() - i,
    {
        assert(args@.take(i as int + 1).drop_last() =~= args@.take(i as int));
        if let Some(n) = &args[i].name {
            if str_eq(n.as_str(), "transp") {
                out.push(args[i].span);
            }
        }
        assert(out@ =~= removed_fill_transp_args(function@, dialect_version(dialect), args@.take(i as int + 1)));
        i = i + 1;
    }
    assert(args@.take(args@.len() as int) =~= args@);
    out
}

/// The values of `table_listing`, each on its own, in the listing's order.
pub open spec fn table_values(t: OptionTable) -> Seq<Seq<char>> {
    match t {
        OptionTable::LabelStyles => seq!["label.style_none"@, "label.style_xcross"@, "label.style_cross"@, "label.style_triangleup"@, "label.style_triangledown"@, "label.style_flag"@, "label.style_circle"@, "label.style_square"@, "label.style_diamond"@, "label.style_arrowup"@, "label.style_arrowdown"@, "label.style_label_up"@, "label.style_label_down"@, "label.style_label_left"@, "label.style_label_right"@, "label.style_label_lower_left"@, "label.style_label_lower_right"@, "label.style_label_upper_left"@, "label.style_label_upper_right"@, "label.style_label_center"@],
        OptionTable::Sizes => seq!["size.auto"@, "size.tiny"@, "size.small"@, "size.normal"@, "size.large"@, "size.huge"@],
        OptionTable::Xlocs => seq!["xloc.bar_index"@, "xloc.bar_time"@],
        OptionTable::Ylocs => seq!["yloc.price"@, "yloc.abovebar"@, "yloc.belowbar"@],
        OptionTable::LineStyles => seq!["line.style_solid"@, "line.style_dotted"@, "line.style_dashed"@, "line.style_arrow_left"@, "line.style_arrow_right"@, "line.style_arrow_both"@],
        OptionTable::BoxBorderStyles => seq!["line.style_solid"@, "line.style_dotted"@, "line.style_dashed"@],
        OptionTable::Extends => seq!["extend.none"@, "extend.right"@, "extend.left"@, "extend.both"@],
        OptionTable::PlotStyles => seq!["plot.style_line"@, "plot.style_stepline"@, "plot.style_stepline_diamond"@, "plot.style_histogram"@, "plot.style_cross"@, "plot.style_area"@, "plot.style_columns"@, "plot.style_circles"@, "plot.style_linebr"@, "plot.style_areabr"@],
        OptionTable::ShapeStyles => seq!["shape.xcross"@, "shape.cross"@, "shape.circle"@, "shape.triangleup"@, "shape.triangledown"@, "shape.flag"@, "shape.arrowup"@, "shape.arrowdown"@, "shape.square"@, "shape.diamond"@, "shape.labelup"@, "shape.labeldown"@],
        OptionTable::HlineStyles => seq!["hline.style_solid"@, "hline.style_dotted"@, "hline.style_dashed"@],
        OptionTable::HorizontalAligns => seq!["text.align_left"@, "text.align_center"@, "text.align_right"@],
        OptionTable::VerticalAligns => seq!["text.align_top"@, "text.align_center"@, "text.align_bottom"@],
        OptionTable::Wraps => seq!["text.wrap_none"@, "text.wrap_auto"@],
        OptionTable::FontFamilies => seq!["font.family_default"@, "font.family_monospace"@],
        OptionTable::TablePositions => seq!["position.top_left"@, "position.top_center"@, "position.top_right"@, "position.middle_left"@, "position.middle_center"@, "position.middle_right"@, "position.bottom_left"@, "position.bottom_center"@, "position.bottom_right"@],
    }
}

/// `items` written one after another, separated by a comma and a space.
pub open spec fn comma_joined(items: Seq<Seq<char>>) -> Seq<char>
    decreases items.len(),
{
    if items.len() == 0 {
        Seq::empty()
    } else if items.len() == 1 {
        items[0]
    } else {
        comma_joined(items.drop_last()) + ", "@ + items.last()
    }
}

proof fn lemma_label_styles_listing()
    ensures
        comma_joined(table_values(OptionTable::LabelStyles)) == table_listing(OptionTable::LabelStyles),
        forall|i: int| 0 <= i < table_values(OptionTable::LabelStyles).len() ==> table_set(OptionTable::LabelStyles).contains(
            #[trigger] table_values(OptionTable::LabelStyles)[i],
        ),
        table_set(OptionTable::LabelStyles) =~= table_values(OptionTable::LabelStyles).to_set(),
{
    reveal_strlit("label.style_none");
    reveal_strlit("label.style_xcross");
    reveal_strlit("label.style_cross");
    reveal_strlit("label.style_triangleup");
    reveal_strlit("label.style_triangledown");
    reveal_strlit("label.style_flag");
    reveal_strlit("label.style_circle");
    reveal_strlit("label.style_square");
    reveal_strlit("label.style_diamond");
    reveal_strlit("label.style_arrowup");
    reveal_strlit("label.style_arrowdown");
    reveal_strlit("label.style_label_up");
    reveal_strlit("label.style_label_down");
    reveal_strlit("label.style_label_left");
    reveal_strlit("label.style_label_right");
    reveal_strlit("label.style_label_lower_left");
    reveal_strlit("label.style_label_lower_right");
    reveal_strlit("label.style_label_upper_left");
    reveal_strlit("label.style_label_upper_right");
    reveal_strlit("label.style_label_center");
    reveal_strlit(", ");
    reveal_strlit("label.style_none, label.style_xcross, label.style_cross, label.style_triangleup, label.style_triangledown, label.style_flag, label.style_circle, label.style_square, label.style_diamond, label.style_arrowup, label.style_arrowdown, label.style_label_up, label.style_label_down, label.style_label_left, label.style_label_right, label.style_label_lower_left, label.style_label_lower_right, label.style_label_upper_left, label.style_label_upper_right, label.style_label_center");
    reveal_with_fuel(comma_joined, 21);
    let v = table_values(OptionTable::LabelStyles);
    assert(v.take(1) =~= seq!["label.style_none"@]);
    assert(v.take(2).drop_last() =~= v.take(1));
    assert(v.take(2) =~= seq!["label.style_none"@, "label.style_xcross"@]);
    assert(v.take(3).drop_last() =~= v.take(2));
    assert(v.take(3) =~= seq!["label.style_none"@, "label.style_xcross"@, "label.style_cross"@]);
    assert(v.take(4).drop_last() =~= v.take(3));
    assert(v.take(4) =~= seq!["label.style_none"@, "label.style_xcross"@, "label.style_cross"@, "label.style_triangleup"@]);
    assert(v.take(5).drop_last() =~= v.take(4));
    assert(v.take(5) =~= seq!["label.style_none"@, "label.style_xcross"@, "label.style_cross"@, "label.style_triangleup"@, "label.style_triangledown"@]);
    assert(v.take(6).drop_last() =~= v.take(5));
    assert(v.take(6) =~= seq!["label.style_none"@, "label.style_xcross"@, "label.style_cross"@, "label.style_triangleup"@, "label.style_triangledown"@, "label.style_flag"@]);
    assert(v.take(7).drop_last() =~= v.take(6));
    assert(v.take(7) =~= seq!["label.style_none"@, "label.style_xcross"@, "label.style_cross"@, "label.style_triangleup"@, "label.style_triangledown"@, "label.style_flag"@, "label.style_circle"@]);
    assert(v.take(8).drop_last() =~= v.take(7));
    assert(v.take(8) =~= seq!["label.style_none"@, "label.style_xcross"@, "label.style_cross"@, "label.style_triangleup"@, "label.style_triangledown"@, "label.style_flag"@, "label.style_circle"@, "label.style_square"@]);
    assert(v.take(9).drop_last() =~= v.take(8));
    assert(v.take(9) =~= seq!["label.style_none"@, "label.style_xcross"@, "label.style_cross"@, "label.style_triangleup"@, "label.style_triangledown"@, "label.style_flag"@, "label.style_circle"@, "label.style_square"@, "label.style_diamond"@]);
    assert(v.take(10).drop_last() =~= v.take(9));
    assert(v.take(10) =~= seq!["label.style_none"@, "label.style_xcross"@, "label.style_cross"@, "label.style_triangleup"@, "label.style_triangledown"@, "label.style_flag"@, "label.style_circle"@, "label.style_square"@, "label.style_diamond"@, "label.style_arrowup"@]);
    assert(v.take(11).drop_last() =~= v.take(10));
    assert(v.take(11) =~= seq!["label.style_none"@, "label.style_xcross"@, "label.style_cross"@, "label.style_triangleup"@, "label.style_triangledown"@, "label.style_flag"@, "label.style_circle"@, "label.style_square"@, "label.style_diamond"@, "label.style_arrowup"@, "label.style_arrowdown"@]);
    assert(v.take(12).drop_last() =~= v.take(11));
    assert(v.take(12) =~= seq!["label.style_none"@, "label.style_xcross"@, "label.style_cross"@, "label.style_triangleup"@, "label.style_triangledown"@, "label.style_flag"@, "label.style_circle"@, "label.style_square"@, "label.style_diamond"@, "label.style_arrowup"@, "label.style_arrowdown"@, "label.style_label_up"@]);
    assert(v.take(13).drop_last() =~= v.take(12));
    assert(v.take(13) =~= seq!["label.style_none"@, "label.style_xcross"@, "label.style_cross"@, "label.style_triangleup"@, "label.style_triangledown"@, "label.style_flag"@, "label.style_circle"@, "label.style_square"@, "label.style_diamond"@, "label.style_arrowup"@, "label.style_arrowdown"@, "label.style_label_up"@, "label.style_label_down"@]);
    assert(v.take(14).drop_last() =~= v.take(13));
    assert(v.take(14) =~= seq!["label.style_none"@, "label.style_xcross"@, "label.style_cross"@, "label.style_triangleup"@, "label.style_triangledown"@, "label.style_flag"@, "label.style_circle"@, "label.style_square"@, "label.style_diamond"@, "label.style_arrowup"@, "label.style_arrowdown"@, "label.style_label_up"@, "label.style_label_down"@, "label.style_label_left"@]);
    assert(v.take(15).drop_last() =~= v.take(14));
    assert(v.take(15) =~= seq!["label.style_none"@, "label.style_xcross"@, "label.style_cross"@, "label.style_triangleup"@, "label.style_triangledown"@, "label.style_flag"@, "label.style_circle"@, "label.style_square"@, "label.style_diamond"@, "label.style_arrowup"@, "label.style_arrowdown"@, "label.style_label_up"@, "label.style_label_down"@, "label.style_label_left"@, "label.style_label_right"@]);
    assert(v.take(16).drop_last() =~= v.take(15));
    assert(v.take(16) =~= seq!["label.style_none"@, "label.style_xcross"@, "label.style_cross"@, "label.style_triangleup"@, "label.style_triangledown"@, "label.style_flag"@, "label.style_circle"@, "label.style_square"@, "label.style_diamond"@, "label.style_arrowup"@, "label.style_arrowdown"@, "label.style_label_up"@, "label.style_label_down"@, "label.style_label_left"@, "label.style_label_right"@, "label.style_label_lower_left"@]);
    assert(v.take(17).drop_last() =~= v.take(16));
    assert(v.take(17) =~= seq!["label.style_none"@, "label.style_xcross"@, "label.style_cross"@, "label.style_triangleup"@, "label.style_triangledown"@, "label.style_flag"@, "label.style_circle"@, "label.style_square"@, "label.style_diamond"@, "label.style_arrowup"@, "label.style_arrowdown"@, "label.style_label_up"@, "label.style_label_down"@, "label.style_label_left"@, "label.style_label_right"@, "label.style_label_lower_left"@, "label.style_label_lower_right"@]);
    assert(v.take(18).drop_last() =~= v.take(17));
    assert(v.take(18) =~= seq!["label.style_none"@, "label.style_xcross"@, "label.style_cross"@, "label.style_triangleup"@, "label.style_triangledown"@, "label.style_flag"@, "label.style_circle"@, "label.style_square"@, "label.style_diamond"@, "label.style_arrowup"@, "label.style_arrowdown"@, "label.style_label_up"@, "label.style_label_down"@, "label.style_label_left"@, "label.style_label_right"@, "label.style_label_lower_left"@, "label.style_label_lower_right"@, "label.style_label_upper_left"@]);
    assert(v.take(19).drop_last() =~= v.take(18));
    assert(v.take(19) =~= seq!["label.style_none"@, "label.style_xcross"@, "label.style_cross"@, "label.style_triangleup"@, "label.style_triangledown"@, "label.style_flag"@, "label.style_circle"@, "label.style_square"@, "label.style_diamond"@, "label.style_arrowup"@, "label.style_arrowdown"@, "label.style_label_up"@, "label.style_label_down"@, "label.style_label_left"@, "label.style_label_right"@, "label.style_label_lower_left"@, "label.style_label_lower_right"@, "label.style_label_upper_left"@, "label.style_label_upper_right"@]);
    assert(v.take(20).drop_last() =~= v.take(19));
    assert(v.take(20) =~= v);
    assert(comma_joined(v) =~= table_listing(OptionTable::LabelStyles));
}

proof fn lemma_sizes_listing()
    ensures
        comma_joined(table_values(OptionTable::Sizes)) == table_listing(OptionTable::Sizes),
        forall|i: int| 0 <= i < table_values(OptionTable::Sizes).len() ==> table_set(OptionTable::Sizes).contains(
            #[trigger] table_values(OptionTable::Sizes)[i],
        ),
        table_set(OptionTable::Sizes) =~= table_values(OptionTable::Sizes).to_set(),
{
    reveal_strlit("size.auto");
    reveal_strlit("size.tiny");
    reveal_strlit("size.small");
    reveal_strlit("size.normal");
    reveal_strlit("size.large");
    reveal_strlit("size.huge");
    reveal_strlit(", ");
    reveal_strlit("size.auto, size.tiny, size.small, size.normal, size.large, size.huge");
    reveal_with_fuel(comma_joined, 7);
    let v = table_values(OptionTable::Sizes);
    assert(v.take(1) =~= seq!["size.auto"@]);
    assert(v.take(2).drop_last() =~= v.take(1));
    assert(v.take(2) =~= seq!["size.auto"@, "size.tiny"@]);
    assert(v.take(3).drop_last() =~= v.take(2));
    assert(v.take(3) =~= seq!["size.auto"@, "size.tiny"@, "size.small"@]);
    assert(v.take(4).drop_last() =~= v.take(3));
    assert(v.take(4) =~= seq!["size.auto"@, "size.tiny"@, "size.small"@, "size.normal"@]);
    assert(v.take(5).drop_last() =~= v.take(4));
    assert(v.take(5) =~= seq!["size.auto"@, "size.tiny"@, "size.small"@, "size.normal"@, "size.large"@]);
    assert(v.take(6).drop_last() =~= v.take(5));
    assert(v.take(6) =~= v);
    assert(comma_joined(v) =~= table_listing(OptionTable::Sizes));
}

proof fn lemma_xlocs_listing()
    ensures
        comma_joined(table_values(OptionTable::Xlocs)) == table_listing(OptionTable::Xlocs),
        forall|i: int| 0 <= i < table_values(OptionTable::Xlocs).len() ==> table_set(OptionTable::Xlocs).contains(
            #[trigger] table_values(OptionTable::Xlocs)[i],
        ),
        table_set(OptionTable::Xlocs) =~= table_values(OptionTable::Xlocs).to_set(),
{
    reveal_strlit("xloc.bar_index");
    reveal_strlit("xloc.bar_time");
    reveal_strlit(", ");
    reveal_strlit("xloc.bar_index, xloc.bar_time");
    reveal_with_fuel(comma_joined, 3);
    let v = table_values(OptionTable::Xlocs);
    assert(v.take(1) =~= seq!["xloc.bar_index"@]);
    assert(v.take(2).drop_last() =~= v.take(1));
    assert(v.take(2) =~= v);
    assert(comma_joined(v) =~= table_listing(OptionTable::Xlocs));
}

proof fn lemma_ylocs_listing()
    ensures
        comma_joined(table_values(OptionTable::Ylocs)) == table_listing(OptionTable::Ylocs),
        forall|i: int| 0 <= i < table_values(OptionTable::Ylocs).len() ==> table_set(OptionTable::Ylocs).contains(
            #[trigger] table_values(OptionTable::Ylocs)[i],
        ),
        table_set(OptionTable::Ylocs) =~= table_values(OptionTable::Ylocs).to_set(),
{
    reveal_strlit("yloc.price");
    reveal_strlit("yloc.abovebar");
    reveal_strlit("yloc.belowbar");
    reveal_strlit(", ");
    reveal_strlit("yloc.price, yloc.abovebar, yloc.belowbar");
    reveal_with_fuel(comma_joined, 4);
    let v = table_values(OptionTable::Ylocs);
    assert(v.take(1) =~= seq!["yloc.price"@]);
    assert(v.take(2).drop_last() =~= v.take(1));
    assert(v.take(2) =~= seq!["yloc.price"@, "yloc.abovebar"@]);
    assert(v.take(3).drop_last() =~= v.take(2));
    assert(v.take(3) =~= v);
    assert(comma_joined(v) =~= table_listing(OptionTable::Ylocs));
}

proof fn lemma_line_styles_listing()
    ensures
        comma_joined(table_values(OptionTable::LineStyles)) == table_listing(OptionTable::LineStyles),
        forall|i: int| 0 <= i < table_values(OptionTable::LineStyles).len() ==> table_set(OptionTable::LineStyles).contains(
            #[trigger] table_values(OptionTable::LineStyles)[i],
        ),
        table_set(OptionTable::LineStyles) =~= table_values(OptionTable::LineStyles).to_set(),
{
    reveal_strlit("line.style_solid");
    reveal_strlit("line.style_dotted");
    reveal_strlit("line.style_dashed");
    reveal_strlit("line.style_arrow_left");
    reveal_strlit("line.style_arrow_right");
    reveal_strlit("line.style_arrow_both");
    reveal_strlit(", ");
    reveal_strlit("line.style_solid, line.style_dotted, line.style_dashed, line.style_arrow_left, line.style_arrow_right, line.style_arrow_both");
    reveal_with_fuel(comma_joined, 7);
    let v = table_values(OptionTable::LineStyles);
    assert(v.take(1) =~= seq!["line.style_solid"@]);
    assert(v.take(2).drop_last() =~= v.take(1));
    assert(v.take(2) =~= seq!["line.style_solid"@, "line.style_dotted"@]);
    assert(v.take(3).drop_last() =~= v.take(2));
    assert(v.take(3) =~= seq!["line.style_solid"@, "line.style_dotted"@, "line.style_dashed"@]);
    assert(v.take(4).drop_last() =~= v.take(3));
    assert(v.take(4) =~= seq!["line.style_solid"@, "line.style_dotted"@, "line.style_dashed"@, "line.style_arrow_left"@]);
    assert(v.take(5).drop_last() =~= v.take(4));
    assert(v.take(5) =~= seq!["line.style_solid"@, "line.style_dotted"@, "line.style_dashed"@, "line.style_arrow_left"@, "line.style_arrow_right"@]);
    assert(v.take(6).drop_last() =~= v.take(5));
    assert(v.take(6) =~= v);
    assert(comma_joined(v) =~= table_listing(OptionTable::LineStyles));
}

proof fn lemma_box_border_styles_listing()
    ensures
        comma_joined(table_values(OptionTable::BoxBorderStyles)) == table_listing(OptionTable::BoxBorderStyles),
        forall|i: int| 0 <= i < table_values(OptionTable::BoxBorderStyles).len() ==> table_set(OptionTable::BoxBorderStyles).contains(
            #[trigger] table_values(OptionTable::BoxBorderStyles)[i],
        ),
        table_set(OptionTable::BoxBorderStyles) =~= table_values(OptionTable::BoxBorderStyles).to_set(),
{
    reveal_strlit("line.style_solid");
    reveal_strlit("line.style_dotted");
    reveal_strlit("line.style_dashed");
    reveal_strlit(", ");
    reveal_strlit("line.style_solid, line.style_dotted, line.style_dashed");
    reveal_with_fuel(comma_joined, 4);
    let v = table_values(OptionTable::BoxBorderStyles);
    assert(v.take(1) =~= seq!["line.style_solid"@]);
    assert(v.take(2).drop_last() =~= v.take(1));
    assert(v.take(2) =~= seq!["line.style_solid"@, "line.style_dotted"@]);
    assert(v.take(3).drop_last() =~= v.take(2));
    assert(v.take(3) =~= v);
    assert(comma_joined(v) =~= table_listing(OptionTable::BoxBorderStyles));
}

proof fn lemma_extends_listing()
    ensures
        comma_joined(table_values(OptionTable::Extends)) == table_listing(OptionTable::Extends),
        forall|i: int| 0 <= i < table_values(OptionTable::Extends).len() ==> table_set(OptionTable::Extends).contains(
            #[trigger] table_values(OptionTable::Extends)[i],
        ),
        table_set(OptionTable::Extends) =~= table_values(OptionTable::Extends).to_set(),
{
    reveal_strlit("extend.none");
    reveal_strlit("extend.right");
    reveal_strlit("extend.left");
    reveal_strlit("extend.both");
    reveal_strlit(", ");
    reveal_strlit("extend.none, extend.right, extend.left, extend.both");
    reveal_with_fuel(comma_joined, 5);
    let v = table_values(OptionTable::Extends);
    assert(v.take(1) =~= seq!["extend.none"@]);
    assert(v.take(2).drop_last() =~= v.take(1));
    assert(v.take(2) =~= seq!["extend.none"@, "extend.right"@]);
    assert(v.take(3).drop_last() =~= v.take(2));
    assert(v.take(3) =~= seq!["extend.none"@, "extend.right"@, "extend.left"@]);
    assert(v.take(4).drop_last() =~= v.take(3));
    assert(v.take(4) =~= v);
    assert(comma_joined(v) =~= table_listing(OptionTable::Extends));
}

proof fn lemma_plot_styles_listing()
    ensures
        comma_joined(table_values(OptionTable::PlotStyles)) == table_listing(OptionTable::PlotStyles),
        forall|i: int| 0 <= i < table_values(OptionTable::PlotStyles).len() ==> table_set(OptionTable::PlotStyles).contains(
            #[trigger] table_values(OptionTable::PlotStyles)[i],
        ),
        table_set(OptionTable::PlotStyles) =~= table_values(OptionTable::PlotStyles).to_set(),
{
    reveal_strlit("plot.style_line");
    reveal_strlit("plot.style_stepline");
    reveal_strlit("plot.style_stepline_diamond");
    reveal_strlit("plot.style_histogram");
    reveal_strlit("plot.style_cross");
    reveal_strlit("plot.style_area");
    reveal_strlit("plot.style_columns");
    reveal_strlit("plot.style_circles");
    reveal_strlit("plot.style_linebr");
    reveal_strlit("plot.style_areabr");
    reveal_strlit(", ");
    reveal_strlit("plot.style_line, plot.style_stepline, plot.style_stepline_diamond, plot.style_histogram, plot.style_cross, plot.style_area, plot.style_columns, plot.style_circles, plot.style_linebr, plot.style_areabr");
    reveal_with_fuel(comma_joined, 11);
    let v = table_values(OptionTable::PlotStyles);
    assert(v.take(1) =~= seq!["plot.style_line"@]);
    assert(v.take(2).drop_last() =~= v.take(1));
    assert(v.take(2) =~= seq!["plot.style_line"@, "plot.style_stepline"@]);
    assert(v.take(3).drop_last() =~= v.take(2));
    assert(v.take(3) =~= seq!["plot.style_line"@, "plot.style_stepline"@, "plot.style_stepline_diamond"@]);
    assert(v.take(4).drop_last() =~= v.take(3));
    assert(v.take(4) =~= seq!["plot.style_line"@, "plot.style_stepline"@, "plot.style_stepline_diamond"@, "plot.style_histogram"@]);
    assert(v.take(5).drop_last() =~= v.take(4));
    assert(v.take(5) =~= seq!["plot.style_line"@, "plot.style_stepline"@, "plot.style_stepline_diamond"@, "plot.style_histogram"@, "plot.style_cross"@]);
    assert(v.take(6).drop_last() =~= v.take(5));
    assert(v.take(6) =~= seq!["plot.style_line"@, "plot.style_stepline"@, "plot.style_stepline_diamond"@, "plot.style_histogram"@, "plot.style_cross"@, "plot.style_area"@]);
    assert(v.take(7).drop_last() =~= v.take(6));
    assert(v.take(7) =~= seq!["plot.style_line"@, "plot.style_stepline"@, "plot.style_stepline_diamond"@, "plot.style_histogram"@, "plot.style_cross"@, "plot.style_area"@, "plot.style_columns"@]);
    assert(v.take(8).drop_last() =~= v.take(7));
    assert(v.take(8) =~= seq!["plot.style_line"@, "plot.style_stepline"@, "plot.style_stepline_diamond"@, "plot.style_histogram"@, "plot.style_cross"@, "plot.style_area"@, "plot.style_columns"@, "plot.style_circles"@]);
    assert(v.take(9).drop_last() =~= v.take(8));
    assert(v.take(9) =~= seq!["plot.style_line"@, "plot.style_stepline"@, "plot.style_stepline_diamond"@, "plot.style_histogram"@, "plot.style_cross"@, "plot.style_area"@, "plot.style_columns"@, "plot.style_circles"@, "plot.style_linebr"@]);
    assert(v.take(10).drop_last() =~= v.take(9));
    assert(v.take(10) =~= v);
    assert(comma_joined(v) =~= table_listing(OptionTable::PlotStyles));
}

proof fn lemma_shape_styles_listing()
    ensures
        comma_joined(table_values(OptionTable::ShapeStyles)) == table_listing(OptionTable::ShapeStyles),
        forall|i: int| 0 <= i < table_values(OptionTable::ShapeStyles).len() ==> table_set(OptionTable::ShapeStyles).contains(
            #[trigger] table_values(OptionTable::ShapeStyles)[i],
        ),
        table_set(OptionTable::ShapeStyles) =~= table_values(OptionTable::ShapeStyles).to_set(),
{
    reveal_strlit("shape.xcross");
    reveal_strlit("shape.cross");
    reveal_strlit("shape.circle");
    reveal_strlit("shape.triangleup");
    reveal_strlit("shape.triangledown");
    reveal_strlit("shape.flag");
    reveal_strlit("shape.arrowup");
    reveal_strlit("shape.arrowdown");
    reveal_strlit("shape.square");
    reveal_strlit("shape.diamond");
    reveal_strlit("shape.labelup");
    reveal_strlit("shape.labeldown");
    reveal_strlit(", ");
    reveal_strlit("shape.xcross, shape.cross, shape.circle, shape.triangleup, shape.triangledown, shape.flag, shape.arrowup, shape.arrowdown, shape.square, shape.diamond, shape.labelup, shape.labeldown");
    reveal_with_fuel(comma_joined, 13);
    let v = table_values(OptionTable::ShapeStyles);
    assert(v.take(1) =~= seq!["shape.xcross"@]);
    assert(v.take(2).drop_last() =~= v.take(1));
    assert(v.take(2) =~= seq!["shape.xcross"@, "shape.cross"@]);
    assert(v.take(3).drop_last() =~= v.take(2));
    assert(v.take(3) =~= seq!["shape.xcross"@, "shape.cross"@, "shape.circle"@]);
    assert(v.take(4).drop_last() =~= v.take(3));
    assert(v.take(4) =~= seq!["shape.xcross"@, "shape.cross"@, "shape.circle"@, "shape.triangleup"@]);
    assert(v.take(5).drop_last() =~= v.take(4));
    assert(v.take(5) =~= seq!["shape.xcross"@, "shape.cross"@, "shape.circle"@, "shape.triangleup"@, "shape.triangledown"@]);
    assert(v.take(6).drop_last() =~= v.take(5));
    assert(v.take(6) =~= seq!["shape.xcross"@, "shape.cross"@, "shape.circle"@, "shape.triangleup"@, "shape.triangledown"@, "shape.flag"@]);
    assert(v.take(7).drop_last() =~= v.take(6));
    assert(v.take(7) =~= seq!["shape.xcross"@, "shape.cross"@, "shape.circle"@, "shape.triangleup"@, "shape.triangledown"@, "shape.flag"@, "shape.arrowup"@]);
    assert(v.take(8).drop_last() =~= v.take(7));
    assert(v.take(8) =~= seq!["shape.xcross"@, "shape.cross"@, "shape.circle"@, "shape.triangleup"@, "shape.triangledown"@, "shape.flag"@, "shape.arrowup"@, "shape.arrowdown"@]);
    assert(v.take(9).drop_last() =~= v.take(8));
    assert(v.take(9) =~= seq!["shape.xcross"@, "shape.cross"@, "shape.circle"@, "shape.triangleup"@, "shape.triangledown"@, "shape.flag"@, "shape.arrowup"@, "shape.arrowdown"@, "shape.square"@]);
    assert(v.take(10).drop_last() =~= v.take(9));
    assert(v.take(10) =~= seq!["shape.xcross"@, "shape.cross"@, "shape.circle"@, "shape.triangleup"@, "shape.triangledown"@, "shape.flag"@, "shape.arrowup"@, "shape.arrowdown"@, "shape.square"@, "shape.diamond"@]);
    assert(v.take(11).drop_last() =~= v.take(10));
    assert(v.take(11) =~= seq!["shape.xcross"@, "shape.cross"@, "shape.circle"@, "shape.triangleup"@, "shape.triangledown"@, "shape.flag"@, "shape.arrowup"@, "shape.arrowdown"@, "shape.square"@, "shape.diamond"@, "shape.labelup"@]);
    assert(v.take(12).drop_last() =~= v.take(11));
    assert(v.take(12) =~= v);
    assert(comma_joined(v) =~= table_listing(OptionTable::ShapeStyles));
}

proof fn lemma_hline_styles_listing()
    ensures
        comma_joined(table_values(OptionTable::HlineStyles)) == table_listing(OptionTable::HlineStyles),
        forall|i: int| 0 <= i < table_values(OptionTable::HlineStyles).len() ==> table_set(OptionTable::HlineStyles).contains(
            #[trigger] table_values(OptionTable::HlineStyles)[i],
        ),
        table_set(OptionTable::HlineStyles) =~= table_values(OptionTable::HlineStyles).to_set(),
{
    reveal_strlit("hline.style_solid");
    reveal_strlit("hline.style_dotted");
    reveal_strlit("hline.style_dashed");
    reveal_strlit(", ");
    reveal_strlit("hline.style_solid, hline.style_dotted, hline.style_dashed");
    reveal_with_fuel(comma_joined, 4);
    let v = table_values(OptionTable::HlineStyles);
    assert(v.take(1) =~= seq!["hline.style_solid"@]);
    assert(v.take(2).drop_last() =~= v.take(1));
    assert(v.take(2) =~= seq!["hline.style_solid"@, "hline.style_dotted"@]);
    assert(v.take(3).drop_last() =~= v.take(2));
    assert(v.take(3) =~= v);
    assert(comma_joined(v) =~= table_listing(OptionTable::HlineStyles));
}

proof fn lemma_horizontal_aligns_listing()
    ensures
        comma_joined(table_values(OptionTable::HorizontalAligns)) == table_listing(OptionTable::HorizontalAligns),
        forall|i: int| 0 <= i < table_values(OptionTable::HorizontalAligns).len() ==> table_set(OptionTable::HorizontalAligns).contains(
            #[trigger] table_values(OptionTable::HorizontalAligns)[i],
        ),
        table_set(OptionTable::HorizontalAligns) =~= table_values(OptionTable::HorizontalAligns).to_set(),
{
    reveal_strlit("text.align_left");
    reveal_strlit("text.align_center");
    reveal_strlit("text.align_right");
    reveal_strlit(", ");
    reveal_strlit("text.align_left, text.align_center, text.align_right");
    reveal_with_fuel(comma_joined, 4);
    let v = table_values(OptionTable::HorizontalAligns);
    assert(v.take(1) =~= seq!["text.align_left"@]);
    assert(v.take(2).drop_last() =~= v.take(1));
    assert(v.take(2) =~= seq!["text.align_left"@, "text.align_center"@]);
    assert(v.take(3).drop_last() =~= v.take(2));
    assert(v.take(3) =~= v);
    assert(comma_joined(v) =~= table_listing(OptionTable::HorizontalAligns));
}

proof fn lemma_vertical_aligns_listing()
    ensures
        comma_joined(table_values(OptionTable::VerticalAligns)) == table_listing(OptionTable::VerticalAligns),
        forall|i: int| 0 <= i < table_values(OptionTable::VerticalAligns).len() ==> table_set(OptionTable::VerticalAligns).contains(
            #[trigger] table_values(OptionTable::VerticalAligns)[i],
        ),
        table_set(OptionTable::VerticalAligns) =~= table_values(OptionTable::VerticalAligns).to_set(),
{
    reveal_strlit("text.align_top");
    reveal_strlit("text.align_center");
    reveal_strlit("text.align_bottom");
    reveal_strlit(", ");
    reveal_strlit("text.align_top, text.align_center, text.align_bottom");
    reveal_with_fuel(comma_joined, 4);
    let v = table_values(OptionTable::VerticalAligns);
    assert(v.take(1) =~= seq!["text.align_top"@]);
    assert(v.take(2).drop_last() =~= v.take(1));
    assert(v.take(2) =~= seq!["text.align_top"@, "text.align_center"@]);
    assert(v.take(3).drop_last() =~= v.take(2));
    assert(v.take(3) =~= v);
    assert(comma_joined(v) =~= table_listing(OptionTable::VerticalAligns));
}

proof fn lemma_wraps_listing()
    ensures
        comma_joined(table_values(OptionTable::Wraps)) == table_listing(OptionTable::Wraps),
        forall|i: int| 0 <= i < table_values(OptionTable::Wraps).len() ==> table_set(OptionTable::Wraps).contains(
            #[trigger] table_values(OptionTable::Wraps)[i],
        ),
        table_set(OptionTable::Wraps) =~= table_values(OptionTable::Wraps).to_set(),
{
    reveal_strlit("text.wrap_none");
    reveal_strlit("text.wrap_auto");
    reveal_strlit(", ");
    reveal_strlit("text.wrap_none, text.wrap_auto");
    reveal_with_fuel(comma_joined, 3);
    let v = table_values(OptionTable::Wraps);
    assert(v.take(1) =~= seq!["text.wrap_none"@]);
    assert(v.take(2).drop_last() =~= v.take(1));
    assert(v.take(2) =~= v);
    assert(comma_joined(v) =~= table_listing(OptionTable::Wraps));
}

proof fn lemma_font_families_listing()
    ensures
        comma_joined(table_values(OptionTable::FontFamilies)) == table_listing(OptionTable::FontFamilies),
        forall|i: int| 0 <= i < table_values(OptionTable::FontFamilies).len() ==> table_set(OptionTable::FontFamilies).contains(
            #[trigger] table_values(OptionTable::FontFamilies)[i],
        ),
        table_set(OptionTable::FontFamilies) =~= table_values(OptionTable::FontFamilies).to_set(),
{
    reveal_strlit("font.family_default");
    reveal_strlit("font.family_monospace");
    reveal_strlit(", ");
    reveal_strlit("font.family_default, font.family_monospace");
    reveal_with_fuel(comma_joined, 3);
    let v = table_values(OptionTable::FontFamilies);
    assert(v.take(1) =~= seq!["font.family_default"@]);
    assert(v.take(2).drop_last() =~= v.take(1));
    assert(v.take(2) =~= v);
    assert(comma_joined(v) =~= table_listing(OptionTable::FontFamilies));
}

proof fn lemma_table_positions_listing()
    ensures
        comma_joined(table_values(OptionTable::TablePositions)) == table_listing(OptionTable::TablePositions),
        forall|i: int| 0 <= i < table_values(OptionTable::TablePositions).len() ==> table_set(OptionTable::TablePositions).contains(
            #[trigger] table_values(OptionTable::TablePositions)[i],
        ),
        table_set(OptionTable::TablePositions) =~= table_values(OptionTable::TablePositions).to_set(),
{
    reveal_strlit("position.top_left");
    reveal_strlit("position.top_center");
    reveal_strlit("position.top_right");
    reveal_strlit("position.middle_left");
    reveal_strlit("position.middle_center");
    reveal_strlit("position.middle_right");
    reveal_strlit("position.bottom_left");
    reveal_strlit("position.bottom_center");
    reveal_strlit("position.bottom_right");
    reveal_strlit(", ");
    reveal_strlit("position.top_left, position.top_center, position.top_right, position.middle_left, position.middle_center, position.middle_right, position.bottom_left, position.bottom_center, position.bottom_right");
    reveal_with_fuel(comma_joined, 10);
    let v = table_values(OptionTable::TablePositions);
    assert(v.take(1) =~= seq!["position.top_left"@]);
    assert(v.take(2).drop_last() =~= v.take(1));
    assert(v.take(2) =~= seq!["position.top_left"@, "position.top_center"@]);
    assert(v.take(3).drop_last() =~= v.take(2));
    assert(v.take(3) =~= seq!["position.top_left"@, "position.top_center"@, "position.top_right"@]);
    assert(v.take(4).drop_last() =~= v.take(3));
    assert(v.take(4) =~= seq!["position.top_left"@, "position.top_center"@, "position.top_right"@, "position.middle_left"@]);
    assert(v.take(5).drop_last() =~= v.take(4));
    assert(v.take(5) =~= seq!["position.top_left"@, "position.top_center"@, "position.top_right"@, "position.middle_left"@, "position.middle_center"@]);
    assert(v.take(6).drop_last() =~= v.take(5));
    assert(v.take(6) =~= seq!["position.top_left"@, "position.top_center"@, "position.top_right"@, "position.middle_left"@, "position.middle_center"@, "position.middle_right"@]);
    assert(v.take(7).drop_last() =~= v.take(6));
    assert(v.take(7) =~= seq!["position.top_left"@, "position.top_center"@, "position.top_right"@, "position.middle_left"@, "position.middle_center"@, "position.middle_right"@, "position.bottom_left"@]);
    assert(v.take(8).drop_last() =~= v.take(7));
    assert(v.take(8) =~= seq!["position.top_left"@, "position.top_center"@, "position.top_right"@, "position.middle_left"@, "position.middle_center"@, "position.middle_right"@, "position.bottom_left"@, "position.bottom_center"@]);
    assert(v.take(9).drop_last() =~= v.take(8));
    assert(v.take(9) =~= v);
    assert(comma_joined(v) =~= table_listing(OptionTable::TablePositions));
}

/// A table admits exactly the values its listing names: the listing that a
/// refusal shows is those values separated by commas, each of them is in
/// the table, and the table holds no other.  So a known value, or a domain
/// of values, taken from the listing is never refused.
pub proof fn lemma_table_admits_what_its_listing_names(t: OptionTable)
    ensures
        comma_joined(table_values(t)) == table_listing(t),
        forall|i: int| 0 <= i < table_values(t).len() ==> table_set(t).contains(#[trigger] table_values(t)[i]),
        table_set(t) == table_values(t).to_set(),
{
    match t {
        OptionTable::LabelStyles => lemma_label_styles_listing(),
        OptionTable::Sizes => lemma_sizes_listing(),
        OptionTable::Xlocs => lemma_xlocs_listing(),
        OptionTable::Ylocs => lemma_ylocs_listing(),
        OptionTable::LineStyles => lemma_line_styles_listing(),
        OptionTable::BoxBorderStyles => lemma_box_border_styles_listing(),
        OptionTable::Extends => lemma_extends_listing(),
        OptionTable::PlotStyles => lemma_plot_styles_listing(),
        OptionTable::ShapeStyles => lemma_shape_styles_listing(),
        OptionTable::HlineStyles => lemma_hline_styles_listing(),
        OptionTable::HorizontalAligns => lemma_horizontal_aligns_listing(),
        OptionTable::VerticalAligns => lemma_vertical_aligns_listing(),
        OptionTable::Wraps => lemma_wraps_listing(),
        OptionTable::FontFamilies => lemma_font_families_listing(),
        OptionTable::TablePositions => lemma_table_positions_listing(),
    }
}

} // verus!
