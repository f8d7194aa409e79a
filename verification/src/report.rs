//! Reports on a result: in Markdown, and as a page of its own in HTML.

use crate::error::ChaosError;
use crate::result::{PhaseResult, ScenarioResult};
use crate::scenario::same_text;
use crate::text::{
    decimal_text, duration_string, duration_text, hundredths_text, push_decimal, push_hundredths,
    push_tenths, round_div, rounded_div, tenths_text,
};
use vstd::prelude::*;
use vstd::string::StringExecFns;

verus! {

/// The report in Markdown, up to the name.
pub const MARKDOWN_OPEN: &'static str = r#"# Chaos Test Report: "#;

/// The report in Markdown, between the name and the duration.
pub const MARKDOWN_AFTER_NAME: &'static str = r#"

## Summary

- **Total Duration**: "#;

/// The report in Markdown, between the duration and the injections.
pub const MARKDOWN_AFTER_DURATION: &'static str = r#"
- **Total Injections**: "#;

/// The report in Markdown, between the injections and the rate.
pub const MARKDOWN_AFTER_INJECTIONS: &'static str = r#"
- **Success Rate**: "#;

/// The report in Markdown, between the rate and the phases.
pub const MARKDOWN_AFTER_RATE: &'static str = r#"%

## Phase Results

"#;

/// The report in Markdown, after the phases.
pub const MARKDOWN_CLOSE: &'static str = r#"

## Conclusion

Test completed successfully.
"#;

/// One row of the table of phases in the report in HTML, up to the name.
pub const HTML_ROW_OPEN: &'static str = r#"<tr>
                    <td><strong>"#;

/// One row of the table of phases in the report in HTML, between the name and the duration.
pub const HTML_ROW_AFTER_NAME: &'static str = r#"</strong></td>
                    <td>"#;

/// One row of the table of phases in the report in HTML, between the duration and the injections.
pub const HTML_ROW_AFTER_DURATION: &'static str = r#"</td>
                    <td>"#;

/// One row of the table of phases in the report in HTML, after the injections.
pub const HTML_ROW_CLOSE: &'static str = r#"</td>
                </tr>"#;

/// The report in HTML, up to the title.
pub const HTML_OPEN: &'static str = r#"<!DOCTYPE html>
<html lang="en">
<head>
    <meta charset="UTF-8">
    <meta name="viewport" content="width=device-width, initial-scale=1.0">
    <title>Chaos Test Report - "#;

/// The report in HTML, between the title and the name.
pub const HTML_AFTER_TITLE: &'static str = r#"</title>
    <style>
        * {
            margin: 0;
            padding: 0;
            box-sizing: border-box;
        }
        :root {
            --bg-primary: #0d0d0d;
            --bg-secondary: #1a1a1a;
            --bg-tertiary: #2d2d2d;
            --text-primary: #ffffff;
            --text-secondary: #a0a0a0;
            --accent-blue: #3b82f6;
            --accent-green: #22c55e;
            --accent-red: #ef4444;
            --accent-yellow: #eab308;
            --border-color: #333333;
        }
        body {
            font-family: -apple-system, BlinkMacSystemFont, 'Segoe UI', Roboto, Arial, sans-serif;
            background-color: var(--bg-primary);
            color: var(--text-primary);
            line-height: 1.6;
            padding: 2rem;
        }
        .container {
            max-width: 1000px;
            margin: 0 auto;
        }
        header {
            text-align: center;
            margin-bottom: 3rem;
            padding-bottom: 2rem;
            border-bottom: 1px solid var(--border-color);
        }
        h1 {
            font-size: 2.5rem;
            margin-bottom: 0.5rem;
        }
        .subtitle {
            color: var(--text-secondary);
            font-size: 1.1rem;
        }
        .stats-grid {
            display: grid;
            grid-template-columns: repeat(4, 1fr);
            gap: 1.5rem;
            margin-bottom: 3rem;
        }
        .stat-card {
            background-color: var(--bg-secondary);
            border: 1px solid var(--border-color);
            border-radius: 12px;
            padding: 1.5rem;
            text-align: center;
        }
        .stat-icon {
            font-size: 2rem;
            margin-bottom: 0.5rem;
        }
        .stat-value {
            font-size: 2rem;
            font-weight: 700;
            margin-bottom: 0.25rem;
        }
        .stat-value.success { color: var(--accent-green); }
        .stat-value.warning { color: var(--accent-yellow); }
        .stat-value.danger { color: var(--accent-red); }
        .stat-label {
            color: var(--text-secondary);
            font-size: 0.875rem;
            text-transform: uppercase;
            letter-spacing: 0.05em;
        }
        .card {
            background-color: var(--bg-secondary);
            border: 1px solid var(--border-color);
            border-radius: 12px;
            padding: 1.5rem;
            margin-bottom: 1.5rem;
        }
        .card-title {
            font-size: 1.25rem;
            font-weight: 600;
            margin-bottom: 1rem;
            padding-bottom: 0.75rem;
            border-bottom: 1px solid var(--border-color);
        }
        table {
            width: 100%;
            border-collapse: collapse;
        }
        th, td {
            padding: 1rem;
            text-align: left;
            border-bottom: 1px solid var(--border-color);
        }
        th {
            background-color: var(--bg-tertiary);
            font-weight: 600;
            text-transform: uppercase;
            font-size: 0.75rem;
            letter-spacing: 0.05em;
        }
        td {
            color: var(--text-secondary);
        }
        tr:last-child td {
            border-bottom: none;
        }
        .footer {
            text-align: center;
            margin-top: 3rem;
            padding-top: 2rem;
            border-top: 1px solid var(--border-color);
            color: var(--text-secondary);
            font-size: 0.875rem;
        }
        @media (max-width: 768px) {
            .stats-grid {
                grid-template-columns: repeat(2, 1fr);
            }
        }
        @media print {
            body {
                background-color: white;
                color: black;
            }
            .stat-card, .card {
                border: 1px solid #ddd;
                background-color: #f9f9f9;
            }
        }
    </style>
</head>
<body>
    <div class="container">
        <header>
            <h1>ü¶Ä Chaos Test Report</h1>
            <p class="subtitle">"#;

/// The report in HTML, between the name and the duration.
pub const HTML_AFTER_NAME: &'static str = r#"</p>
        </header>

        <div class="stats-grid">
            <div class="stat-card">
                <div class="stat-icon">‚è±Ô∏è</div>
                <div class="stat-value">"#;

/// The report in HTML, between the duration and the class.
pub const HTML_AFTER_DURATION: &'static str = r#"s</div>
                <div class="stat-label">Duration</div>
            </div>
            <div class="stat-card">
                <div class="stat-icon">üìä</div>
                <div class="stat-value "#;

/// The report in HTML, between the class and the rate.
pub const HTML_AFTER_CLASS: &'static str = r#"">"#;

/// The report in HTML, between the rate and the injections.
pub const HTML_AFTER_RATE: &'static str = r#"%</div>
                <div class="stat-label">Success Rate</div>
            </div>
            <div class="stat-card">
                <div class="stat-icon">‚ö°</div>
                <div class="stat-value">"#;

/// The report in HTML, between the injections and the phases.
pub const HTML_AFTER_INJECTIONS: &'static str = r#"</div>
                <div class="stat-label">Injections</div>
            </div>
            <div class="stat-card">
                <div class="stat-icon">üìã</div>
                <div class="stat-value">"#;

/// The report in HTML, between the phases and the rows.
pub const HTML_AFTER_PHASES: &'static str = r#"</div>
                <div class="stat-label">Phases</div>
            </div>
        </div>

        <div class="card">
            <h2 class="card-title">Phase Results</h2>
            <table>
                <thead>
                    <tr>
                        <th>Phase</th>
                        <th>Duration</th>
                        <th>Injections</th>
                    </tr>
                </thead>
                <tbody>
                    "#;

/// The report in HTML, between the rows and the time.
pub const HTML_AFTER_ROWS: &'static str = r#"
                </tbody>
            </table>
        </div>

        <footer class="footer">
            <p>Generated by Chaos Engineering Framework ‚Ä¢ "#;

/// The report in HTML, after the time.
pub const HTML_CLOSE: &'static str = r#"</p>
        </footer>
    </div>
</body>
</html>"#;

/// The forms a report can take.
#[derive(Clone, Copy, Debug, PartialEq, Eq, Structural)]
pub enum ReportFormat {
    /// Lines for a terminal.
    Cli,
    /// The result as it is stored.
    Json,
    Markdown,
    Html,
}

/// The form that a name stands for, if it stands for one.
pub open spec fn format_of(name: Seq<char>) -> Option<ReportFormat> {
    if name == "cli"@ {
        Some(ReportFormat::Cli)
    } else if name == "json"@ {
        Some(ReportFormat::Json)
    } else if name == "markdown"@ {
        Some(ReportFormat::Markdown)
    } else if name == "html"@ {
        Some(ReportFormat::Html)
    } else {
        None
    }
}

impl ReportFormat {
    /// Reads a form from its name; any other name is refused with words
    /// that name it.
    pub fn parse(name: &str) -> (format: Result<ReportFormat, String>)
        ensures
            match format_of(name@) {
                Some(f) => format == Ok::<ReportFormat, String>(f),
                None => format matches Err(words) && words@ == "Unknown format: "@ + name@,
            },
    {
        if same_text(name, "cli") {
            Ok(ReportFormat::Cli)
        } else if same_text(name, "json") {
            Ok(ReportFormat::Json)
        } else if same_text(name, "markdown") {
            Ok(ReportFormat::Markdown)
        } else if same_text(name, "html") {
            Ok(ReportFormat::Html)
        } else {
            let mut words = String::from_str("Unknown format: ");
            words.append(name);
            Err(words)
        }
    }
}

/// The line of one phase in the report in Markdown.
pub open spec fn markdown_phase_text(p: PhaseResult) -> Seq<char> {
    "- **"@ + p.name@ + "**: "@ + duration_text(p.duration_ms as nat) + " ("@ + decimal_text(
        p.injection_count as nat,
    ) + " injections)"@
}

/// The lines of some phases, one line break between each two.
pub open spec fn markdown_phases_text(phases: Seq<PhaseResult>) -> Seq<char>
    decreases phases.len(),
{
    if phases.len() == 0 {
        Seq::empty()
    } else if phases.len() == 1 {
        markdown_phase_text(phases[0])
    } else {
        markdown_phases_text(phases.drop_last()) + "\n"@ + markdown_phase_text(phases.last())
    }
}

/// The report in Markdown: the name, the duration, the number of
/// injections, the success rate in percent with two decimal places, and a
/// line for each phase.
pub open spec fn markdown_report_text(result: ScenarioResult) -> Seq<char> {
    MARKDOWN_OPEN@ + result.scenario_name@ + MARKDOWN_AFTER_NAME@ + duration_text(
        result.total_duration_ms as nat,
    ) + MARKDOWN_AFTER_DURATION@ + decimal_text(result.total_injections as nat)
        + MARKDOWN_AFTER_INJECTIONS@ + hundredths_text(
        rounded_div(result.success_ppm_spec(), 100),
    ) + MARKDOWN_AFTER_RATE@ + markdown_phases_text(result.phase_results@) + MARKDOWN_CLOSE@
}

fn markdown_phases(phases: &Vec<PhaseResult>) -> (lines: String)
    ensures
        lines@ == markdown_phases_text(phases@),
{
    let mut lines = String::new();
    let mut i: usize = 0;
    while i < phases.len()
        invariant
            0 <= i <= phases@.len(),
            lines@ == markdown_phases_text(phases@.take(i as int)),
        decreases phases@.len() - i,
    {
        let p = &phases[i];
        let took = duration_string(p.duration_ms);
        let mut line = String::from_str("- **");
        line.append(p.name.as_str());
        line.append("**: ");
        line.append(took.as_str());
        line.append(" (");
        push_decimal(&mut line, p.injection_count);
        line.append(" injections)");
        proof {
            let upto = phases@.take(i + 1);
            assert(upto.drop_last() =~= phases@.take(i as int));
            assert(upto.last() == phases@[i as int]);
            assert(Seq::<char>::empty() + line@ =~= line@);
        }
        if i > 0 {
            lines.append("\n");
        }
        lines.append(line.as_str());
        i += 1;
    }
    assert(phases@.take(phases@.len() as int) =~= phases@);
    lines
}

/// The report in Markdown.
pub fn generate_markdown_report(result: &ScenarioResult) -> (report: String)
    requires
        result.sound(),
    ensures
        report@ == markdown_report_text(*result),
{
    let took = duration_string(result.total_duration_ms);
    let lines = markdown_phases(&result.phase_results);
    let mut report = String::from_str(MARKDOWN_OPEN);
    report.append(result.scenario_name.as_str());
    report.append(MARKDOWN_AFTER_NAME);
    report.append(took.as_str());
    report.append(MARKDOWN_AFTER_DURATION);
    push_decimal(&mut report, result.total_injections);
    report.append(MARKDOWN_AFTER_INJECTIONS);
    push_hundredths(&mut report, round_div(result.success_ppm(), 100));
    report.append(MARKDOWN_AFTER_RATE);
    report.append(lines.as_str());
    report.append(MARKDOWN_CLOSE);
    report
}

/// One row of the table of phases in the report in HTML.
pub open spec fn html_row_text(p: PhaseResult) -> Seq<char> {
    HTML_ROW_OPEN@ + p.name@ + HTML_ROW_AFTER_NAME@ + duration_text(p.duration_ms as nat)
        + HTML_ROW_AFTER_DURATION@ + decimal_text(p.injection_count as nat) + HTML_ROW_CLOSE@
}

/// The rows of some phases.
pub open spec fn html_rows_text(phases: Seq<PhaseResult>) -> Seq<char>
    decreases phases.len(),
{
    if phases.len() == 0 {
        Seq::empty()
    } else {
        html_rows_text(phases.drop_last()) + html_row_text(phases.last())
    }
}

/// The class of a success rate in the report in HTML.
pub open spec fn report_class(ppm: nat) -> Seq<char> {
    if ppm >= 900_000 {
        "success"@
    } else if ppm >= 700_000 {
        "warning"@
    } else {
        "danger"@
    }
}

/// The report in HTML, with the time it was written as given: the name,
/// the whole seconds the run took, the success rate in percent with one
/// decimal place, the numbers of injections and of phases, and a row for
/// each phase.
pub open spec fn html_report_text(result: ScenarioResult, written_at: Seq<char>) -> Seq<char> {
    HTML_OPEN@ + result.scenario_name@ + HTML_AFTER_TITLE@ + result.scenario_name@
        + HTML_AFTER_NAME@ + decimal_text((result.total_duration_ms / 1000) as nat)
        + HTML_AFTER_DURATION@ + report_class(result.success_ppm_spec()) + HTML_AFTER_CLASS@
        + tenths_text(rounded_div(result.success_ppm_spec(), 1000)) + HTML_AFTER_RATE@
        + decimal_text(result.total_injections as nat) + HTML_AFTER_INJECTIONS@ + decimal_text(
        result.phase_results@.len(),
    ) + HTML_AFTER_PHASES@ + html_rows_text(result.phase_results@) + HTML_AFTER_ROWS@
        + written_at + HTML_CLOSE@
}

fn html_rows(phases: &Vec<PhaseResult>) -> (rows: String)
    ensures
        rows@ == html_rows_text(phases@),
{
    let mut rows = String::new();
    let mut i: usize = 0;
    while i < phases.len()
        invariant
            0 <= i <= phases@.len(),
            rows@ == html_rows_text(phases@.take(i as int)),
        decreases phases@.len() - i,
    {
        let p = &phases[i];
        let took = duration_string(p.duration_ms);
        let mut row = String::from_str(HTML_ROW_OPEN);
        row.append(p.name.as_str());
        row.append(HTML_ROW_AFTER_NAME);
        row.append(took.as_str());
        row.append(HTML_ROW_AFTER_DURATION);
        push_decimal(&mut row, p.injection_count);
        row.append(HTML_ROW_CLOSE);
        proof {
            let upto = phases@.take(i + 1);
            assert(upto.drop_last() =~= phases@.take(i as int));
            assert(upto.last() == phases@[i as int]);
        }
        rows.append(row.as_str());
        i += 1;
    }
    assert(phases@.take(phases@.len() as int) =~= phases@);
    rows
}

/// The report in HTML, with the time it was written as given.
pub fn generate_html_report(result: &ScenarioResult, written_at: &str) -> (report: String)
    requires
        result.sound(),
    ensures
        report@ == html_report_text(*result, written_at@),
{
    let ppm = result.success_ppm();
    let class: &'static str = if ppm >= 900_000 {
        "success"
    } else if ppm >= 700_000 {
        "warning"
    } else {
        "danger"
    };
    let rows = html_rows(&result.phase_results);
    let mut report = String::from_str(HTML_OPEN);
    report.append(result.scenario_name.as_str());
    report.append(HTML_AFTER_TITLE);
    report.append(result.scenario_name.as_str());
    report.append(HTML_AFTER_NAME);
    push_decimal(&mut report, result.total_duration_ms / 1000);
    report.append(HTML_AFTER_DURATION);
    report.append(class);
    report.append(HTML_AFTER_CLASS);
    push_tenths(&mut report, round_div(ppm, 1000));
    report.append(HTML_AFTER_RATE);
    push_decimal(&mut report, result.total_injections);
    report.append(HTML_AFTER_INJECTIONS);
    push_decimal(&mut report, result.phase_results.len() as u64);
    report.append(HTML_AFTER_PHASES);
    report.append(rows.as_str());
    report.append(HTML_AFTER_ROWS);
    report.append(written_at);
    report.append(HTML_CLOSE);
    report
}

} // verus!
