//! The text that presents a saved design to the client.

use vstd::prelude::*;
use crate::text::{join_spec, join_strings, texts};

verus! {

/// A design parameter as it is shown: its numbers and default already in
/// their textual form.
pub struct ParamSummary {
    pub name: String,
    pub param_type: String,
    pub min: Option<String>,
    pub max: Option<String>,
    pub default_value: Option<String>,
}

/// A saved design as it is shown.
pub struct DesignSummary {
    pub name: String,
    pub description: String,
    pub parameters: Vec<ParamSummary>,
    pub suggested_modifications: Vec<String>,
}

/// " (range: <min>-<max>)" when both bounds are known, nothing otherwise.
pub open spec fn range_text(p: ParamSummary) -> Seq<char> {
    match (p.min, p.max) {
        (Some(lo), Some(hi)) => " (range: "@ + lo@ + "-"@ + hi@ + ")"@,
        _ => Seq::empty(),
    }
}

/// " [default: <value>]" when a default is known, nothing otherwise.
pub open spec fn default_text(p: ParamSummary) -> Seq<char> {
    match p.default_value {
        Some(d) => " [default: "@ + d@ + "]"@,
        None => Seq::empty(),
    }
}

/// The line that shows one parameter.
pub open spec fn param_line(p: ParamSummary) -> Seq<char> {
    "  - "@ + p.name@ + ": "@ + p.param_type@ + range_text(p) + default_text(p)
}

/// The lines that show the parameters, in order.
pub open spec fn param_lines(ps: Seq<ParamSummary>) -> Seq<Seq<char>> {
    ps.map_values(|p: ParamSummary| param_line(p))
}

/// The whole presentation of a design: name, description, one line per
/// parameter and one bullet per suggested modification.
pub open spec fn design_report_spec(d: DesignSummary) -> Seq<char> {
    "Design: "@ + d.name@ + "\n\n"@ + d.description@ + "\n\nParameters:\n"@ + join_spec(
        param_lines(d.parameters@),
        "\n"@,
    ) + "\n\nSuggested modifications:\n  - "@ + join_spec(texts(d.suggested_modifications@), "\n  - "@)
}

/// The line that shows one parameter.
pub fn param_line_text(p: &ParamSummary) -> (line: String)
    ensures
        line@ == param_line(*p),
{
    let mut line = String::from_str("  - ");
    line.append(p.name.as_str());
    line.append(": ");
    line.append(p.param_type.as_str());
    match (&p.min, &p.max) {
        (Some(lo), Some(hi)) => {
            line.append(" (range: ");
            line.append(lo.as_str());
            line.append("-");
            line.append(hi.as_str());
            line.append(")");
        },
        _ => {},
    }
    match &p.default_value {
        Some(d) => {
            line.append(" [default: ");
            line.append(d.as_str());
            line.append("]");
        },
        None => {},
    }
    assert(line@ =~= param_line(*p));
    line
}

/// Presents a saved design.
pub fn design_report(d: &DesignSummary) -> (report: String)
    ensures
        report@ == design_report_spec(*d),
{
    let mut lines: Vec<String> = Vec::new();
    let mut i: usize = 0;
    while i < d.parameters.len()
        invariant
            0 <= i <= d.parameters.len(),
            texts(lines@) == param_lines(d.parameters@.take(i as int)),
        decreases d.parameters.len() - i,
    {
        let line = param_line_text(&d.parameters[i]);
        let ghost before = lines@;
        lines.push(line);
        assert(texts(lines@) =~= texts(before).push(line@));
        assert(d.parameters@.take(i as int + 1) =~= d.parameters@.take(i as int).push(d.parameters@[i as int]));
        assert(param_lines(d.parameters@.take(i as int + 1)) =~= param_lines(d.parameters@.take(i as int)).push(
            param_line(d.parameters@[i as int]),
        ));
        i = i + 1;
    }
    assert(d.parameters@.take(d.parameters.len() as int) =~= d.parameters@);
    let params_text = join_strings(&lines, "\n");
    let suggestions_text = join_strings(&d.suggested_modifications, "\n  - ");
    let mut report = String::from_str("Design: ");
    report.append(d.name.as_str());
    report.append("\n\n");
    report.append(d.description.as_str());
    report.append("\n\nParameters:\n");
    report.append(params_text.as_str());
    report.append("\n\nSuggested modifications:\n  - ");
    report.append(suggestions_text.as_str());
    report
}

} // verus!
