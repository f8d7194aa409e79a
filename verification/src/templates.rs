//! The pages of the dashboard.
//!
//! Every page is text put together from fixed markup and the values shown.
//! Each function here says exactly which text it returns: the markup is
//! named, piece by piece, in [`crate::markup`], and the values stand between
//! the pieces as they are. Nothing is escaped but the scenario file shown on
//! a scenario's page.

use crate::clock::{utc_string, utc_text_or_empty, MINUTE_PATTERN, SECOND_PATTERN};
use crate::load_test::LoadTestMetrics;
use crate::markup;
use crate::result::{PhaseResult, ScenarioResult};
use crate::state::{CustomTarget, ResultSummary, TestStatus};
use crate::text::{
    decimal_text, duration_string, duration_text, push_decimal, push_tenths, round_div,
    rounded_div, tenths_text,
};
use vstd::prelude::*;
use vstd::string::{StrSliceExecFns, StringExecFns};

verus! {

/// The text of an optional string, or a fallback where there is none.
pub open spec fn text_or(value: Option<String>, fallback: Seq<char>) -> Seq<char> {
    match value {
        Some(s) => s@,
        None => fallback,
    }
}

fn str_or<'a>(value: &'a Option<String>, fallback: &'a str) -> (s: &'a str)
    ensures
        s@ == text_or(*value, fallback@),
{
    match value {
        Some(v) => v.as_str(),
        None => fallback,
    }
}

/// A page: the frame with a title and a content, the style sheet and the
/// script in their places.
pub open spec fn layout_text(title: Seq<char>, content: Seq<char>) -> Seq<char> {
    markup::LAYOUT_OPEN@ + title + markup::LAYOUT_AFTER_TITLE@ + markup::CSS_STYLES@
        + markup::LAYOUT_AFTER_CSS@ + content
        + markup::LAYOUT_AFTER_CONTENT@ + markup::JS_SCRIPTS@ + markup::LAYOUT_CLOSE@
}

/// Puts a content into the frame of every page.
pub fn base_layout(title: &str, content: &str) -> (page: String)
    ensures
        page@ == layout_text(title@, content@),
{
    let mut page = String::from_str(markup::LAYOUT_OPEN);
    page.append(title);
    page.append(markup::LAYOUT_AFTER_TITLE);
    page.append(markup::CSS_STYLES);
    page.append(markup::LAYOUT_AFTER_CSS);
    page.append(content);
    page.append(markup::LAYOUT_AFTER_CONTENT);
    page.append(markup::JS_SCRIPTS);
    page.append(markup::LAYOUT_CLOSE);
    page
}

/// The error page for a title and a message.
pub open spec fn error_page_text(title: Seq<char>, message: Seq<char>) -> Seq<char> {
    layout_text("Error"@, markup::ERROR_OPEN@ + title + markup::ERROR_AFTER_TITLE@ + message
        + markup::ERROR_CLOSE@)
}

/// The error page.
pub fn error_page(title: &str, message: &str) -> (page: String)
    ensures
        page@ == error_page_text(title@, message@),
{
    let mut content = String::from_str(markup::ERROR_OPEN);
    content.append(title);
    content.append(markup::ERROR_AFTER_TITLE);
    content.append(message);
    content.append(markup::ERROR_CLOSE);
    base_layout("Error", content.as_str())
}

/// What a list of scenarios shows of one scenario.
#[derive(Debug)]
pub struct ScenarioInfo {
    pub file_name: String,
    pub name: String,
    pub description: Option<String>,
    pub duration: String,
    pub phase_count: usize,
}

impl Clone for ScenarioInfo {
    fn clone(&self) -> (copy: Self)
        ensures
            copy == *self,
    {
        ScenarioInfo {
            file_name: self.file_name.clone(),
            name: self.name.clone(),
            description: crate::state::copy_optional(&self.description),
            duration: self.duration.clone(),
            phase_count: self.phase_count,
        }
    }
}

/// What a scenario's page shows of one phase.
#[derive(Debug)]
pub struct PhaseInfo {
    pub name: String,
    pub duration: String,
    pub injections: Vec<String>,
}

/// The card of one scenario.
pub open spec fn scenario_card_text(s: ScenarioInfo) -> Seq<char> {
    markup::SCENARIO_CARD_OPEN@ + s.file_name@ + markup::SCENARIO_CARD_AFTER_FILE@ + s.name@
        + markup::SCENARIO_CARD_AFTER_NAME@ + text_or(s.description, "No description"@)
        + markup::SCENARIO_CARD_AFTER_DESCRIPTION@ + s.duration@
            + markup::SCENARIO_CARD_AFTER_DURATION@
        + decimal_text(s.phase_count as nat) + markup::SCENARIO_CARD_AFTER_PHASES@ + s.file_name@
        + markup::SCENARIO_CARD_CLOSE@
}

/// The cards of some scenarios, one line break between each two.
pub open spec fn scenario_cards_text(items: Seq<ScenarioInfo>) -> Seq<char>
    decreases items.len(),
{
    if items.len() == 0 {
        Seq::empty()
    } else if items.len() == 1 {
        scenario_card_text(items[0])
    } else {
        scenario_cards_text(items.drop_last()) + "\n"@ + scenario_card_text(items.last())
    }
}

/// The page that lists the scenarios.
pub open spec fn scenarios_page_text(items: Seq<ScenarioInfo>) -> Seq<char> {
    layout_text(
        "Scenarios"@,
        markup::SCENARIOS_OPEN@ + (if items.len() == 0 {
            markup::NO_SCENARIOS@
        } else {
            scenario_cards_text(items)
        }) + markup::SCENARIOS_CLOSE@,
    )
}

fn scenario_card(s: &ScenarioInfo) -> (card: String)
    ensures
        card@ == scenario_card_text(*s),
{
    let mut card = String::from_str(markup::SCENARIO_CARD_OPEN);
    card.append(s.file_name.as_str());
    card.append(markup::SCENARIO_CARD_AFTER_FILE);
    card.append(s.name.as_str());
    card.append(markup::SCENARIO_CARD_AFTER_NAME);
    card.append(str_or(&s.description, "No description"));
    card.append(markup::SCENARIO_CARD_AFTER_DESCRIPTION);
    card.append(s.duration.as_str());
    card.append(markup::SCENARIO_CARD_AFTER_DURATION);
    push_decimal(&mut card, s.phase_count as u64);
    card.append(markup::SCENARIO_CARD_AFTER_PHASES);
    card.append(s.file_name.as_str());
    card.append(markup::SCENARIO_CARD_CLOSE);
    card
}

fn scenario_cards(items: &[ScenarioInfo]) -> (cards: String)
    ensures
        cards@ == scenario_cards_text(items@),
{
    let mut cards = String::new();
    let mut i: usize = 0;
    while i < items.len()
        invariant
            0 <= i <= items@.len(),
            cards@ == scenario_cards_text(items@.take(i as int)),
        decreases items@.len() - i,
    {
        let card = scenario_card(&items[i]);
        proof {
            let upto = items@.take(i + 1);
            assert(upto.drop_last() =~= items@.take(i as int));
            assert(upto.last() == items@[i as int]);
            assert(Seq::<char>::empty() + scenario_card_text(items@[i as int])
                =~= scenario_card_text(items@[i as int]));
        }
        if i > 0 {
            cards.append("\n");
        }
        cards.append(card.as_str());
        i += 1;
    }
    assert(items@.take(items@.len() as int) =~= items@);
    cards
}

/// The page that lists the scenarios.
pub fn scenarios_page(scenarios: &[ScenarioInfo]) -> (page: String)
    ensures
        page@ == scenarios_page_text(scenarios@),
{
    let mut content = String::from_str(markup::SCENARIOS_OPEN);
    if scenarios.len() == 0 {
        content.append(markup::NO_SCENARIOS);
    } else {
        let cards = scenario_cards(scenarios);
        content.append(cards.as_str());
    }
    content.append(markup::SCENARIOS_CLOSE);
    base_layout("Scenarios", content.as_str())
}

/// One character as it stands in markup: the two angle brackets are
/// written as entities, every other character as itself.
pub open spec fn escaped_char(c: char) -> Seq<char> {
    if c == '<' {
        "&lt;"@
    } else if c == '>' {
        "&gt;"@
    } else {
        seq![c]
    }
}

/// A text with its angle brackets written as entities.
pub open spec fn escaped_text(text: Seq<char>) -> Seq<char>
    decreases text.len(),
{
    if text.len() == 0 {
        Seq::empty()
    } else {
        escaped_text(text.drop_last()) + escaped_char(text.last())
    }
}

/// Writes the angle brackets of a text as entities.
pub fn escape_markup(text: &str) -> (escaped: String)
    ensures
        escaped@ == escaped_text(text@),
{
    let n = text.unicode_len();
    let mut escaped = String::new();
    let mut i: usize = 0;
    while i < n
        invariant
            0 <= i <= n,
            n == text@.len(),
            escaped@ == escaped_text(text@.take(i as int)),
        decreases n - i,
    {
        let c = text.get_char(i);
        proof {
            let upto = text@.take(i + 1);
            assert(upto.drop_last() =~= text@.take(i as int));
            assert(upto.last() == c);
            assert(text@.subrange(i as int, i + 1) =~= seq![c]);
        }
        if c == '<' {
            escaped.append("&lt;");
        } else if c == '>' {
            escaped.append("&gt;");
        } else {
            escaped.append(text.substring_char(i, i + 1));
        }
        i += 1;
    }
    assert(text@.take(n as int) =~= text@);
    escaped
}

/// The badges of some injections, one blank between each two.
pub open spec fn badges_text(kinds: Seq<String>) -> Seq<char>
    decreases kinds.len(),
{
    if kinds.len() == 0 {
        Seq::empty()
    } else if kinds.len() == 1 {
        markup::INJECTION_BADGE_OPEN@ + kinds[0]@ + markup::INJECTION_BADGE_CLOSE@
    } else {
        badges_text(kinds.drop_last()) + " "@ + (markup::INJECTION_BADGE_OPEN@ + kinds.last()@
            + markup::INJECTION_BADGE_CLOSE@)
    }
}

/// One phase on the timeline of a scenario.
pub open spec fn phase_item_text(p: PhaseInfo) -> Seq<char> {
    markup::PHASE_ITEM_OPEN@ + p.name@ + markup::PHASE_ITEM_AFTER_NAME@ + p.duration@
        + markup::PHASE_ITEM_AFTER_DURATION@
        + badges_text(p.injections@) + markup::PHASE_ITEM_CLOSE@
}

/// The timeline of a scenario: its phases one after the other.
pub open spec fn phase_items_text(phases: Seq<PhaseInfo>) -> Seq<char>
    decreases phases.len(),
{
    if phases.len() == 0 {
        Seq::empty()
    } else {
        phase_items_text(phases.drop_last()) + phase_item_text(phases.last())
    }
}

/// The page of one scenario: its name and description, its phases, and
/// the scenario file with its angle brackets escaped.
pub open spec fn scenario_detail_page_text(
    scenario: ScenarioInfo,
    yaml: Seq<char>,
    phases: Seq<PhaseInfo>,
) -> Seq<char> {
    layout_text(
        scenario.name@,
        markup::SCENARIO_DETAIL_OPEN@ + scenario.name@ + markup::SCENARIO_DETAIL_AFTER_NAME@
            + text_or(
            scenario.description,
            "No description"@,
        ) + markup::SCENARIO_DETAIL_AFTER_DESCRIPTION@ + scenario.file_name@
            + markup::SCENARIO_DETAIL_AFTER_FILE@
            + phase_items_text(phases) + markup::SCENARIO_DETAIL_AFTER_PHASES@ + escaped_text(yaml)
            + markup::SCENARIO_DETAIL_CLOSE@,
    )
}

fn badges(kinds: &Vec<String>) -> (text: String)
    ensures
        text@ == badges_text(kinds@),
{
    let mut text = String::new();
    let mut i: usize = 0;
    while i < kinds.len()
        invariant
            0 <= i <= kinds@.len(),
            text@ == badges_text(kinds@.take(i as int)),
        decreases kinds@.len() - i,
    {
        let mut badge = String::from_str(markup::INJECTION_BADGE_OPEN);
        badge.append(kinds[i].as_str());
        badge.append(markup::INJECTION_BADGE_CLOSE);
        proof {
            let upto = kinds@.take(i + 1);
            assert(upto.drop_last() =~= kinds@.take(i as int));
            assert(upto.last() == kinds@[i as int]);
            assert(Seq::<char>::empty() + badge@ =~= badge@);
        }
        if i > 0 {
            text.append(" ");
        }
        text.append(badge.as_str());
        i += 1;
    }
    assert(kinds@.take(kinds@.len() as int) =~= kinds@);
    text
}

fn phase_item(p: &PhaseInfo) -> (item: String)
    ensures
        item@ == phase_item_text(*p),
{
    let mut item = String::from_str(markup::PHASE_ITEM_OPEN);
    item.append(p.name.as_str());
    item.append(markup::PHASE_ITEM_AFTER_NAME);
    item.append(p.duration.as_str());
    item.append(markup::PHASE_ITEM_AFTER_DURATION);
    let b = badges(&p.injections);
    item.append(b.as_str());
    item.append(markup::PHASE_ITEM_CLOSE);
    item
}

fn phase_items(phases: &[PhaseInfo]) -> (items: String)
    ensures
        items@ == phase_items_text(phases@),
{
    let mut items = String::new();
    let mut i: usize = 0;
    while i < phases.len()
        invariant
            0 <= i <= phases@.len(),
            items@ == phase_items_text(phases@.take(i as int)),
        decreases phases@.len() - i,
    {
        let item = phase_item(&phases[i]);
        proof {
            let upto = phases@.take(i + 1);
            assert(upto.drop_last() =~= phases@.take(i as int));
            assert(upto.last() == phases@[i as int]);
        }
        items.append(item.as_str());
        i += 1;
    }
    assert(phases@.take(phases@.len() as int) =~= phases@);
    items
}

/// The page of one scenario.
pub fn scenario_detail_page(
    scenario: &ScenarioInfo,
    yaml_content: &str,
    phases: &[PhaseInfo],
) -> (page: String)
    ensures
        page@ == scenario_detail_page_text(*scenario, yaml_content@, phases@),
{
    let timeline = phase_items(phases);
    let yaml = escape_markup(yaml_content);
    let mut content = String::from_str(markup::SCENARIO_DETAIL_OPEN);
    content.append(scenario.name.as_str());
    content.append(markup::SCENARIO_DETAIL_AFTER_NAME);
    content.append(str_or(&scenario.description, "No description"));
    content.append(markup::SCENARIO_DETAIL_AFTER_DESCRIPTION);
    content.append(scenario.file_name.as_str());
    content.append(markup::SCENARIO_DETAIL_AFTER_FILE);
    content.append(timeline.as_str());
    content.append(markup::SCENARIO_DETAIL_AFTER_PHASES);
    content.append(yaml.as_str());
    content.append(markup::SCENARIO_DETAIL_CLOSE);
    base_layout(scenario.name.as_str(), content.as_str())
}

/// One option of a selection: a value, and a label with a detail in brackets.
pub open spec fn option_text(value: Seq<char>, label: Seq<char>, detail: Seq<char>) -> Seq<char> {
    markup::OPTION_OPEN@ + value + markup::OPTION_AFTER_VALUE@ + label + markup::OPTION_AFTER_LABEL@
        + detail
        + markup::OPTION_CLOSE@
}

fn option(value: &str, label: &str, detail: &str) -> (text: String)
    ensures
        text@ == option_text(value@, label@, detail@),
{
    let mut text = String::from_str(markup::OPTION_OPEN);
    text.append(value);
    text.append(markup::OPTION_AFTER_VALUE);
    text.append(label);
    text.append(markup::OPTION_AFTER_LABEL);
    text.append(detail);
    text.append(markup::OPTION_CLOSE);
    text
}

/// The options for some scenarios, one line break between each two: the
/// file is the value, the name the label, the duration the detail.
pub open spec fn scenario_options_text(items: Seq<ScenarioInfo>) -> Seq<char>
    decreases items.len(),
{
    if items.len() == 0 {
        Seq::empty()
    } else if items.len() == 1 {
        option_text(items[0].file_name@, items[0].name@, items[0].duration@)
    } else {
        scenario_options_text(items.drop_last()) + "\n"@ + option_text(
            items.last().file_name@,
            items.last().name@,
            items.last().duration@,
        )
    }
}

fn scenario_options(items: &[ScenarioInfo]) -> (text: String)
    ensures
        text@ == scenario_options_text(items@),
{
    let mut text = String::new();
    let mut i: usize = 0;
    while i < items.len()
        invariant
            0 <= i <= items@.len(),
            text@ == scenario_options_text(items@.take(i as int)),
        decreases items@.len() - i,
    {
        let s = &items[i];
        let one = option(s.file_name.as_str(), s.name.as_str(), s.duration.as_str());
        proof {
            let upto = items@.take(i + 1);
            assert(upto.drop_last() =~= items@.take(i as int));
            assert(upto.last() == items@[i as int]);
            assert(Seq::<char>::empty() + one@ =~= one@);
        }
        if i > 0 {
            text.append("\n");
        }
        text.append(one.as_str());
        i += 1;
    }
    assert(items@.take(items@.len() as int) =~= items@);
    text
}

/// What a page shows of a run in progress between two pieces of markup
/// that differ from page to page: the scenario, the phase, the progress
/// as a width and as a figure, and the seconds elapsed and in all.
pub open spec fn progress_text(
    status: TestStatus,
    open: Seq<char>,
    after_scenario: Seq<char>,
    after_phase: Seq<char>,
    after_width: Seq<char>,
    after_percent: Seq<char>,
    after_elapsed: Seq<char>,
    close: Seq<char>,
) -> Seq<char> {
    open + text_or(status.scenario_name, "Unknown"@) + after_scenario + text_or(
        status.current_phase,
        "Starting..."@,
    ) + after_phase + tenths_text(status.progress_tenths as nat) + after_width + tenths_text(
        status.progress_tenths as nat,
    ) + after_percent + decimal_text(status.elapsed_seconds as nat) + after_elapsed + decimal_text(
        status.total_seconds as nat,
    ) + close
}

fn progress(
    status: &TestStatus,
    open: &str,
    after_scenario: &str,
    after_phase: &str,
    after_width: &str,
    after_percent: &str,
    after_elapsed: &str,
    close: &str,
) -> (text: String)
    ensures
        text@ == progress_text(
            *status,
            open@,
            after_scenario@,
            after_phase@,
            after_width@,
            after_percent@,
            after_elapsed@,
            close@,
        ),
{
    let mut text = String::from_str(open);
    text.append(str_or(&status.scenario_name, "Unknown"));
    text.append(after_scenario);
    text.append(str_or(&status.current_phase, "Starting..."));
    text.append(after_phase);
    push_tenths(&mut text, status.progress_tenths);
    text.append(after_width);
    push_tenths(&mut text, status.progress_tenths);
    text.append(after_percent);
    push_decimal(&mut text, status.elapsed_seconds);
    text.append(after_elapsed);
    push_decimal(&mut text, status.total_seconds);
    text.append(close);
    text
}

/// The run page: the progress of the run while one is in progress, else
/// the form that starts one, with the scenarios to choose from.
pub open spec fn run_page_text(items: Seq<ScenarioInfo>, status: TestStatus) -> Seq<char> {
    layout_text(
        "Run Test"@,
        markup::RUN_OPEN@ + (if status.is_running {
            progress_text(
                status,
                markup::RUN_PROGRESS_OPEN@,
                markup::RUN_PROGRESS_AFTER_SCENARIO@,
                markup::RUN_PROGRESS_AFTER_PHASE@,
                markup::RUN_PROGRESS_AFTER_WIDTH@,
                markup::RUN_PROGRESS_AFTER_PERCENT@,
                markup::RUN_PROGRESS_AFTER_ELAPSED@,
                markup::RUN_PROGRESS_CLOSE@,
            )
        } else {
            markup::RUN_FORM_OPEN@ + scenario_options_text(items) + markup::RUN_FORM_CLOSE@
        }),
    )
}

/// The run page.
pub fn run_page(scenarios: &[ScenarioInfo], status: &TestStatus) -> (page: String)
    ensures
        page@ == run_page_text(scenarios@, *status),
{
    let section = if status.is_running {
        progress(
            status,
            markup::RUN_PROGRESS_OPEN,
            markup::RUN_PROGRESS_AFTER_SCENARIO,
            markup::RUN_PROGRESS_AFTER_PHASE,
            markup::RUN_PROGRESS_AFTER_WIDTH,
            markup::RUN_PROGRESS_AFTER_PERCENT,
            markup::RUN_PROGRESS_AFTER_ELAPSED,
            markup::RUN_PROGRESS_CLOSE,
        )
    } else {
        let options = scenario_options(scenarios);
        let mut form = String::from_str(markup::RUN_FORM_OPEN);
        form.append(options.as_str());
        form.append(markup::RUN_FORM_CLOSE);
        form
    };
    let mut content = String::from_str(markup::RUN_OPEN);
    content.append(section.as_str());
    base_layout("Run Test", content.as_str())
}

/// A success rate of nine tenths or more is good, one of seven tenths or
/// more is fair, anything less is poor.
pub open spec fn rate_class(ppm: u64, good: Seq<char>, fair: Seq<char>, poor: Seq<char>) -> Seq<
    char,
> {
    if ppm >= 900_000 {
        good
    } else if ppm >= 700_000 {
        fair
    } else {
        poor
    }
}

fn class_of<'a>(ppm: u64, good: &'a str, fair: &'a str, poor: &'a str) -> (class: &'a str)
    ensures
        class@ == rate_class(ppm, good@, fair@, poor@),
{
    if ppm >= 900_000 {
        good
    } else if ppm >= 700_000 {
        fair
    } else {
        poor
    }
}

/// A success rate in percent with one decimal place, rounded to the nearest.
pub open spec fn percent_text(ppm: u64) -> Seq<char> {
    tenths_text(rounded_div(ppm as nat, 1000))
}

/// One row of the list of results, with the time of the run as given.
pub open spec fn result_row_text(r: ResultSummary, when: Seq<char>) -> Seq<char> {
    markup::RESULT_ROW_OPEN@ + r.id@ + markup::RESULT_ROW_AFTER_ID@ + r.scenario_name@
        + markup::RESULT_ROW_AFTER_SCENARIO@
        + rate_class(r.success_ppm, "badge-success"@, "badge-warning"@, "badge-danger"@)
        + markup::RESULT_ROW_AFTER_CLASS@ + percent_text(r.success_ppm)
            + markup::RESULT_ROW_AFTER_RATE@
        + decimal_text(r.total_duration_secs as nat) + markup::RESULT_ROW_AFTER_DURATION@ + when
        + markup::RESULT_ROW_AFTER_TIME@ + r.id@ + markup::RESULT_ROW_CLOSE@
}

/// The rows of some results, each with the time of its run to the second.
pub open spec fn result_rows_text(items: Seq<ResultSummary>) -> Seq<char>
    decreases items.len(),
{
    if items.len() == 0 {
        Seq::empty()
    } else {
        result_rows_text(items.drop_last()) + result_row_text(
            items.last(),
            utc_text_or_empty(items.last().timestamp_ms, SECOND_PATTERN@),
        )
    }
}

/// The page that lists the results.
pub open spec fn results_page_text(items: Seq<ResultSummary>) -> Seq<char> {
    layout_text(
        "Results"@,
        markup::RESULTS_OPEN@ + (if items.len() == 0 {
            markup::NO_RESULTS@
        } else {
            markup::RESULTS_TABLE_OPEN@ + result_rows_text(items) + markup::RESULTS_TABLE_CLOSE@
        }),
    )
}

/// One row of the list of results, with the time of the run as given.
pub fn result_row(r: &ResultSummary, when: &str) -> (row: String)
    ensures
        row@ == result_row_text(*r, when@),
{
    let mut row = String::from_str(markup::RESULT_ROW_OPEN);
    row.append(r.id.as_str());
    row.append(markup::RESULT_ROW_AFTER_ID);
    row.append(r.scenario_name.as_str());
    row.append(markup::RESULT_ROW_AFTER_SCENARIO);
    row.append(class_of(r.success_ppm, "badge-success", "badge-warning", "badge-danger"));
    row.append(markup::RESULT_ROW_AFTER_CLASS);
    push_tenths(&mut row, round_div(r.success_ppm, 1000));
    row.append(markup::RESULT_ROW_AFTER_RATE);
    push_decimal(&mut row, r.total_duration_secs);
    row.append(markup::RESULT_ROW_AFTER_DURATION);
    row.append(when);
    row.append(markup::RESULT_ROW_AFTER_TIME);
    row.append(r.id.as_str());
    row.append(markup::RESULT_ROW_CLOSE);
    row
}

fn result_rows(items: &[ResultSummary]) -> (rows: String)
    ensures
        rows@ == result_rows_text(items@),
{
    let mut rows = String::new();
    let mut i: usize = 0;
    while i < items.len()
        invariant
            0 <= i <= items@.len(),
            rows@ == result_rows_text(items@.take(i as int)),
        decreases items@.len() - i,
    {
        let when = utc_string(items[i].timestamp_ms, SECOND_PATTERN);
        let row = result_row(&items[i], when.as_str());
        proof {
            let upto = items@.take(i + 1);
            assert(upto.drop_last() =~= items@.take(i as int));
            assert(upto.last() == items@[i as int]);
        }
        rows.append(row.as_str());
        i += 1;
    }
    assert(items@.take(items@.len() as int) =~= items@);
    rows
}

/// The page that lists the results.
pub fn results_page(results: &[ResultSummary]) -> (page: String)
    ensures
        page@ == results_page_text(results@),
{
    let mut content = String::from_str(markup::RESULTS_OPEN);
    if results.len() == 0 {
        content.append(markup::NO_RESULTS);
    } else {
        let rows = result_rows(results);
        let mut table = String::from_str(markup::RESULTS_TABLE_OPEN);
        table.append(rows.as_str());
        table.append(markup::RESULTS_TABLE_CLOSE);
        content.append(table.as_str());
    }
    base_layout("Results", content.as_str())
}

/// One phase on the timeline of a result.
pub open spec fn phase_result_text(p: PhaseResult) -> Seq<char> {
    markup::PHASE_RESULT_OPEN@ + p.name@ + markup::PHASE_RESULT_AFTER_NAME@
        + duration_text(p.duration_ms as nat)
        + markup::PHASE_RESULT_AFTER_DURATION@ + decimal_text(p.injection_count as nat)
        + markup::PHASE_RESULT_CLOSE@
}

/// The timeline of a result: its phases one after the other.
pub open spec fn phase_results_text(phases: Seq<PhaseResult>) -> Seq<char>
    decreases phases.len(),
{
    if phases.len() == 0 {
        Seq::empty()
    } else {
        phase_results_text(phases.drop_last()) + phase_result_text(phases.last())
    }
}

/// The page of one result: the name, the whole seconds it took, the success
/// rate, the number of injections and of phases, and the timeline.
pub open spec fn result_detail_page_text(result: ScenarioResult) -> Seq<char> {
    layout_text(
        result.scenario_name@,
        markup::RESULT_DETAIL_OPEN@ + result.scenario_name@ + markup::RESULT_DETAIL_AFTER_SCENARIO@
            + decimal_text(
            (result.total_duration_ms / 1000) as nat,
        ) + markup::RESULT_DETAIL_AFTER_DURATION@ + rate_class(
            result.success_ppm_spec() as u64,
            "text-success"@,
            "text-warning"@,
            "text-danger"@,
        ) + markup::RESULT_DETAIL_AFTER_CLASS@ + percent_text(result.success_ppm_spec() as u64)
            + markup::RESULT_DETAIL_AFTER_RATE@ + decimal_text(result.total_injections as nat)
            + markup::RESULT_DETAIL_AFTER_INJECTIONS@ + decimal_text(result.phase_results@.len())
            + markup::RESULT_DETAIL_AFTER_PHASES@ + phase_results_text(result.phase_results@)
            + markup::RESULT_DETAIL_CLOSE@,
    )
}

fn phase_results(phases: &Vec<PhaseResult>) -> (items: String)
    ensures
        items@ == phase_results_text(phases@),
{
    let mut items = String::new();
    let mut i: usize = 0;
    while i < phases.len()
        invariant
            0 <= i <= phases@.len(),
            items@ == phase_results_text(phases@.take(i as int)),
        decreases phases@.len() - i,
    {
        let p = &phases[i];
        let took = duration_string(p.duration_ms);
        let mut item = String::from_str(markup::PHASE_RESULT_OPEN);
        item.append(p.name.as_str());
        item.append(markup::PHASE_RESULT_AFTER_NAME);
        item.append(took.as_str());
        item.append(markup::PHASE_RESULT_AFTER_DURATION);
        push_decimal(&mut item, p.injection_count);
        item.append(markup::PHASE_RESULT_CLOSE);
        proof {
            let upto = phases@.take(i + 1);
            assert(upto.drop_last() =~= phases@.take(i as int));
            assert(upto.last() == phases@[i as int]);
        }
        items.append(item.as_str());
        i += 1;
    }
    assert(phases@.take(phases@.len() as int) =~= phases@);
    items
}

/// The page of one result.
pub fn result_detail_page(result: &ScenarioResult) -> (page: String)
    requires
        result.sound(),
    ensures
        page@ == result_detail_page_text(*result),
{
    let ppm = result.success_ppm();
    let timeline = phase_results(&result.phase_results);
    let mut content = String::from_str(markup::RESULT_DETAIL_OPEN);
    content.append(result.scenario_name.as_str());
    content.append(markup::RESULT_DETAIL_AFTER_SCENARIO);
    push_decimal(&mut content, result.total_duration_ms / 1000);
    content.append(markup::RESULT_DETAIL_AFTER_DURATION);
    content.append(class_of(ppm, "text-success", "text-warning", "text-danger"));
    content.append(markup::RESULT_DETAIL_AFTER_CLASS);
    push_tenths(&mut content, round_div(ppm, 1000));
    content.append(markup::RESULT_DETAIL_AFTER_RATE);
    push_decimal(&mut content, result.total_injections);
    content.append(markup::RESULT_DETAIL_AFTER_INJECTIONS);
    push_decimal(&mut content, result.phase_results.len() as u64);
    content.append(markup::RESULT_DETAIL_AFTER_PHASES);
    content.append(timeline.as_str());
    content.append(markup::RESULT_DETAIL_CLOSE);
    base_layout(result.scenario_name.as_str(), content.as_str())
}

/// How many of the recent results the dashboard shows.
pub const DASHBOARD_ROWS: usize = 5;

/// One row of the recent results on the dashboard, with the time of the
/// run as given.
pub open spec fn recent_row_text(r: ResultSummary, when: Seq<char>) -> Seq<char> {
    markup::RECENT_ROW_OPEN@ + r.id@ + markup::RECENT_ROW_AFTER_ID@ + r.scenario_name@
        + markup::RECENT_ROW_AFTER_SCENARIO@
        + rate_class(r.success_ppm, "text-success"@, "text-warning"@, "text-danger"@)
        + markup::RECENT_ROW_AFTER_CLASS@ + percent_text(r.success_ppm)
            + markup::RECENT_ROW_AFTER_RATE@
        + decimal_text(r.total_duration_secs as nat) + markup::RECENT_ROW_AFTER_DURATION@ + when
        + markup::RECENT_ROW_CLOSE@
}

/// The rows of some results, each with the time of its run to the minute.
pub open spec fn recent_rows_text(items: Seq<ResultSummary>) -> Seq<char>
    decreases items.len(),
{
    if items.len() == 0 {
        Seq::empty()
    } else {
        recent_rows_text(items.drop_last()) + recent_row_text(
            items.last(),
            utc_text_or_empty(items.last().timestamp_ms, MINUTE_PATTERN@),
        )
    }
}

/// The first results of a list, as many as the dashboard shows.
pub open spec fn shown_on_dashboard(items: Seq<ResultSummary>) -> Seq<ResultSummary> {
    if items.len() > DASHBOARD_ROWS {
        items.take(DASHBOARD_ROWS as int)
    } else {
        items
    }
}

/// The dashboard: the run in progress if there is one, the two counts,
/// the status badge, and the first of the recent results.
pub open spec fn dashboard_page_text(
    total_scenarios: usize,
    total_results: usize,
    recent: Seq<ResultSummary>,
    status: TestStatus,
) -> Seq<char> {
    layout_text(
        "Dashboard"@,
        markup::DASHBOARD_OPEN@ + (if status.is_running {
            progress_text(
                status,
                markup::PROGRESS_CARD_OPEN@,
                markup::PROGRESS_CARD_AFTER_SCENARIO@,
                markup::PROGRESS_CARD_AFTER_PHASE@,
                markup::PROGRESS_CARD_AFTER_WIDTH@,
                markup::PROGRESS_CARD_AFTER_PERCENT@,
                markup::PROGRESS_CARD_AFTER_ELAPSED@,
                markup::PROGRESS_CARD_CLOSE@,
            )
        } else {
            Seq::empty()
        }) + markup::DASHBOARD_AFTER_STATUS@ + decimal_text(total_scenarios as nat)
            + markup::DASHBOARD_AFTER_SCENARIOS@ + decimal_text(total_results as nat)
            + markup::DASHBOARD_AFTER_RESULTS@ + (if status.is_running {
            markup::BADGE_RUNNING@
        } else {
            markup::BADGE_IDLE@
        }) + markup::DASHBOARD_AFTER_BADGE@ + (if recent.len() == 0 {
            markup::NO_RESULTS@
        } else {
            markup::RECENT_TABLE_OPEN@ + recent_rows_text(shown_on_dashboard(recent))
                + markup::RECENT_TABLE_CLOSE@
        }) + markup::DASHBOARD_CLOSE@,
    )
}

/// One row of the recent results on the dashboard, with the time of the
/// run as given.
pub fn recent_row(r: &ResultSummary, when: &str) -> (row: String)
    ensures
        row@ == recent_row_text(*r, when@),
{
    let mut row = String::from_str(markup::RECENT_ROW_OPEN);
    row.append(r.id.as_str());
    row.append(markup::RECENT_ROW_AFTER_ID);
    row.append(r.scenario_name.as_str());
    row.append(markup::RECENT_ROW_AFTER_SCENARIO);
    row.append(class_of(r.success_ppm, "text-success", "text-warning", "text-danger"));
    row.append(markup::RECENT_ROW_AFTER_CLASS);
    push_tenths(&mut row, round_div(r.success_ppm, 1000));
    row.append(markup::RECENT_ROW_AFTER_RATE);
    push_decimal(&mut row, r.total_duration_secs);
    row.append(markup::RECENT_ROW_AFTER_DURATION);
    row.append(when);
    row.append(markup::RECENT_ROW_CLOSE);
    row
}

fn recent_rows(items: &[ResultSummary]) -> (rows: String)
    ensures
        rows@ == recent_rows_text(shown_on_dashboard(items@)),
{
    let shown: usize = if items.len() > DASHBOARD_ROWS {
        DASHBOARD_ROWS
    } else {
        items.len()
    };
    let mut rows = String::new();
    let mut i: usize = 0;
    while i < shown
        invariant
            0 <= i <= shown <= items@.len(),
            rows@ == recent_rows_text(items@.take(i as int)),
        decreases shown - i,
    {
        let when = utc_string(items[i].timestamp_ms, MINUTE_PATTERN);
        let row = recent_row(&items[i], when.as_str());
        proof {
            let upto = items@.take(i + 1);
            assert(upto.drop_last() =~= items@.take(i as int));
            assert(upto.last() == items@[i as int]);
        }
        rows.append(row.as_str());
        i += 1;
    }
    assert(items@.take(items@.len() as int) =~= items@);
    rows
}

/// The dashboard.
pub fn dashboard_page(
    total_scenarios: usize,
    total_results: usize,
    recent_results: &[ResultSummary],
    status: &TestStatus,
) -> (page: String)
    ensures
        page@ == dashboard_page_text(total_scenarios, total_results, recent_results@, *status),
{
    let card = if status.is_running {
        progress(
            status,
            markup::PROGRESS_CARD_OPEN,
            markup::PROGRESS_CARD_AFTER_SCENARIO,
            markup::PROGRESS_CARD_AFTER_PHASE,
            markup::PROGRESS_CARD_AFTER_WIDTH,
            markup::PROGRESS_CARD_AFTER_PERCENT,
            markup::PROGRESS_CARD_AFTER_ELAPSED,
            markup::PROGRESS_CARD_CLOSE,
        )
    } else {
        String::new()
    };
    let recent = if recent_results.len() == 0 {
        String::from_str(markup::NO_RESULTS)
    } else {
        let rows = recent_rows(recent_results);
        let mut table = String::from_str(markup::RECENT_TABLE_OPEN);
        table.append(rows.as_str());
        table.append(markup::RECENT_TABLE_CLOSE);
        table
    };
    let mut content = String::from_str(markup::DASHBOARD_OPEN);
    content.append(card.as_str());
    content.append(markup::DASHBOARD_AFTER_STATUS);
    push_decimal(&mut content, total_scenarios as u64);
    content.append(markup::DASHBOARD_AFTER_SCENARIOS);
    push_decimal(&mut content, total_results as u64);
    content.append(markup::DASHBOARD_AFTER_RESULTS);
    content.append(
        if status.is_running {
            markup::BADGE_RUNNING
        } else {
            markup::BADGE_IDLE
        },
    );
    content.append(markup::DASHBOARD_AFTER_BADGE);
    content.append(recent.as_str());
    content.append(markup::DASHBOARD_CLOSE);
    base_layout("Dashboard", content.as_str())
}

/// A latency in milliseconds with one decimal place, rounded to the nearest.
pub open spec fn latency_text(us: u64) -> Seq<char> {
    tenths_text(rounded_div(us as nat, 100))
}

/// The options for some targets, one line break between each two: the
/// address is the value, the name the label, the kind the detail.
pub open spec fn target_options_text(items: Seq<CustomTarget>) -> Seq<char>
    decreases items.len(),
{
    if items.len() == 0 {
        Seq::empty()
    } else if items.len() == 1 {
        option_text(items[0].url@, items[0].name@, items[0].target_type@)
    } else {
        target_options_text(items.drop_last()) + "\n"@ + option_text(
            items.last().url@,
            items.last().name@,
            items.last().target_type@,
        )
    }
}

/// The figures shown while a load test is in progress.
pub open spec fn load_progress_text(m: LoadTestMetrics) -> Seq<char> {
    markup::LOAD_PROGRESS_OPEN@ + decimal_text(m.total_requests as nat)
        + markup::LOAD_PROGRESS_AFTER_TOTAL@
        + decimal_text(m.successful_requests as nat) + markup::LOAD_PROGRESS_AFTER_SUCCESSFUL@
        + decimal_text(m.failed_requests as nat) + markup::LOAD_PROGRESS_AFTER_FAILED@
            + tenths_text(
        m.requests_per_second_tenths as nat,
    ) + markup::LOAD_PROGRESS_AFTER_RATE@ + latency_text(m.avg_latency_us)
        + markup::LOAD_PROGRESS_AFTER_AVERAGE@
        + latency_text(m.p95_latency_us) + markup::LOAD_PROGRESS_AFTER_P95@ + latency_text(
        m.p99_latency_us,
    ) + markup::LOAD_PROGRESS_CLOSE@
}

/// The load test page: the figures while a test is in progress, else the
/// form that starts one, with the saved targets to choose from if there
/// are any.
pub open spec fn load_test_page_text(
    targets: Seq<CustomTarget>,
    is_running: bool,
    metrics: LoadTestMetrics,
) -> Seq<char> {
    layout_text(
        "Load Testing"@,
        markup::LOAD_TEST_OPEN@ + (if is_running {
            load_progress_text(metrics)
        } else {
            markup::LOAD_FORM_OPEN@ + (if targets.len() > 0 {
                markup::SAVED_TARGETS_OPEN@ + target_options_text(targets)
                    + markup::SAVED_TARGETS_CLOSE@
            } else {
                Seq::empty()
            }) + markup::LOAD_FORM_CLOSE@
        }) + markup::LOAD_TEST_CLOSE@,
    )
}

fn target_options(items: &[CustomTarget]) -> (text: String)
    ensures
        text@ == target_options_text(items@),
{
    let mut text = String::new();
    let mut i: usize = 0;
    while i < items.len()
        invariant
            0 <= i <= items@.len(),
            text@ == target_options_text(items@.take(i as int)),
        decreases items@.len() - i,
    {
        let t = &items[i];
        let one = option(t.url.as_str(), t.name.as_str(), t.target_type.as_str());
        proof {
            let upto = items@.take(i + 1);
            assert(upto.drop_last() =~= items@.take(i as int));
            assert(upto.last() == items@[i as int]);
            assert(Seq::<char>::empty() + one@ =~= one@);
        }
        if i > 0 {
            text.append("\n");
        }
        text.append(one.as_str());
        i += 1;
    }
    assert(items@.take(items@.len() as int) =~= items@);
    text
}

fn load_progress(m: &LoadTestMetrics) -> (text: String)
    ensures
        text@ == load_progress_text(*m),
{
    let mut text = String::from_str(markup::LOAD_PROGRESS_OPEN);
    push_decimal(&mut text, m.total_requests);
    text.append(markup::LOAD_PROGRESS_AFTER_TOTAL);
    push_decimal(&mut text, m.successful_requests);
    text.append(markup::LOAD_PROGRESS_AFTER_SUCCESSFUL);
    push_decimal(&mut text, m.failed_requests);
    text.append(markup::LOAD_PROGRESS_AFTER_FAILED);
    push_tenths(&mut text, m.requests_per_second_tenths);
    text.append(markup::LOAD_PROGRESS_AFTER_RATE);
    push_tenths(&mut text, round_div(m.avg_latency_us, 100));
    text.append(markup::LOAD_PROGRESS_AFTER_AVERAGE);
    push_tenths(&mut text, round_div(m.p95_latency_us, 100));
    text.append(markup::LOAD_PROGRESS_AFTER_P95);
    push_tenths(&mut text, round_div(m.p99_latency_us, 100));
    text.append(markup::LOAD_PROGRESS_CLOSE);
    text
}

/// The load test page.
pub fn load_test_page(
    targets: &[CustomTarget],
    is_running: bool,
    metrics: &LoadTestMetrics,
) -> (page: String)
    ensures
        page@ == load_test_page_text(targets@, is_running, *metrics),
{
    let section = if is_running {
        load_progress(metrics)
    } else {
        let saved = if targets.len() > 0 {
            let options = target_options(targets);
            let mut select = String::from_str(markup::SAVED_TARGETS_OPEN);
            select.append(options.as_str());
            select.append(markup::SAVED_TARGETS_CLOSE);
            select
        } else {
            String::new()
        };
        let mut form = String::from_str(markup::LOAD_FORM_OPEN);
        form.append(saved.as_str());
        form.append(markup::LOAD_FORM_CLOSE);
        form
    };
    let mut content = String::from_str(markup::LOAD_TEST_OPEN);
    content.append(section.as_str());
    content.append(markup::LOAD_TEST_CLOSE);
    base_layout("Load Testing", content.as_str())
}

/// One row of the list of targets.
pub open spec fn target_row_text(t: CustomTarget) -> Seq<char> {
    markup::TARGET_ROW_OPEN@ + t.name@ + markup::TARGET_ROW_AFTER_NAME@ + t.target_type@
        + markup::TARGET_ROW_AFTER_KIND@
        + t.url@ + markup::TARGET_ROW_AFTER_URL@ + text_or(t.description, "-"@)
        + markup::TARGET_ROW_AFTER_DESCRIPTION@ + t.id@ + markup::TARGET_ROW_CLOSE@
}

/// The rows of some targets.
pub open spec fn target_rows_text(items: Seq<CustomTarget>) -> Seq<char>
    decreases items.len(),
{
    if items.len() == 0 {
        Seq::empty()
    } else {
        target_rows_text(items.drop_last()) + target_row_text(items.last())
    }
}

/// The page that lists the targets and takes new ones.
pub open spec fn targets_page_text(items: Seq<CustomTarget>) -> Seq<char> {
    layout_text(
        "Targets"@,
        markup::TARGETS_OPEN@ + (if items.len() == 0 {
            markup::NO_TARGETS@
        } else {
            markup::TARGETS_TABLE_OPEN@ + target_rows_text(items) + markup::TARGETS_TABLE_CLOSE@
        }) + markup::TARGETS_CLOSE@,
    )
}

fn target_rows(items: &[CustomTarget]) -> (rows: String)
    ensures
        rows@ == target_rows_text(items@),
{
    let mut rows = String::new();
    let mut i: usize = 0;
    while i < items.len()
        invariant
            0 <= i <= items@.len(),
            rows@ == target_rows_text(items@.take(i as int)),
        decreases items@.len() - i,
    {
        let t = &items[i];
        let mut row = String::from_str(markup::TARGET_ROW_OPEN);
        row.append(t.name.as_str());
        row.append(markup::TARGET_ROW_AFTER_NAME);
        row.append(t.target_type.as_str());
        row.append(markup::TARGET_ROW_AFTER_KIND);
        row.append(t.url.as_str());
        row.append(markup::TARGET_ROW_AFTER_URL);
        row.append(str_or(&t.description, "-"));
        row.append(markup::TARGET_ROW_AFTER_DESCRIPTION);
        row.append(t.id.as_str());
        row.append(markup::TARGET_ROW_CLOSE);
        proof {
            let upto = items@.take(i + 1);
            assert(upto.drop_last() =~= items@.take(i as int));
            assert(upto.last() == items@[i as int]);
        }
        rows.append(row.as_str());
        i += 1;
    }
    assert(items@.take(items@.len() as int) =~= items@);
    rows
}

/// The page that lists the targets and takes new ones.
pub fn targets_page(targets: &[CustomTarget]) -> (page: String)
    ensures
        page@ == targets_page_text(targets@),
{
    let mut content = String::from_str(markup::TARGETS_OPEN);
    if targets.len() == 0 {
        content.append(markup::NO_TARGETS);
    } else {
        let rows = target_rows(targets);
        let mut table = String::from_str(markup::TARGETS_TABLE_OPEN);
        table.append(rows.as_str());
        table.append(markup::TARGETS_TABLE_CLOSE);
        content.append(table.as_str());
    }
    content.append(markup::TARGETS_CLOSE);
    base_layout("Targets", content.as_str())
}

} // verus!
