//! What each page of the dashboard shows, given what was found on disk.
//!
//! Files are read elsewhere. What was read comes in as plain values; the
//! page that answers goes out as text.

use crate::api::{add_stored_result, sort_newest_first};
use crate::arrange::{keeps_ties, lemma_insert_rearranged, rearranged};
use crate::result::ScenarioResult;
use crate::scenario::{Phase, Scenario};
use crate::state::{AppState, ResultSummary};
use crate::templates;
use crate::templates::{PhaseInfo, ScenarioInfo};
use crate::text::{
    comes_before, decimal_text, lemma_text_order_strict, lemma_text_order_transitive, text_lt,
};
use vstd::prelude::*;
use vstd::string::StringExecFns;

verus! {

/// What came of looking for something on disk.
#[derive(Debug)]
pub enum Loaded<T> {
    /// It was found and read.
    Found { value: T },
    /// There is no such file, or it cannot be read.
    Missing { cause: String },
    /// The file does not hold what it should.
    Invalid { cause: String },
}

/// A number of seconds as a page shows it: the number, and `s`.
pub open spec fn seconds_text(secs: u64) -> Seq<char> {
    decimal_text(secs as nat) + "s"@
}

fn seconds(secs: u64) -> (text: String)
    ensures
        text@ == seconds_text(secs),
{
    let mut text = crate::text::decimal(secs);
    text.append("s");
    text
}

/// Whether an entry of a list tells of a scenario what there is to tell.
pub open spec fn shows_scenario(info: ScenarioInfo, file_name: Seq<char>, scenario: Scenario) -> bool {
    &&& info.file_name@ == file_name
    &&& info.name@ == scenario.name@
    &&& info.description == scenario.description
    &&& info.duration@ == seconds_text((scenario.duration_ms / 1000) as u64)
    &&& info.phase_count == scenario.phases@.len()
}

/// Whether an entry of a timeline tells of a phase what there is to tell.
pub open spec fn shows_phase(info: PhaseInfo, phase: Phase) -> bool {
    &&& info.name@ == phase.name@
    &&& info.duration@ == seconds_text((phase.duration_ms / 1000) as u64)
    &&& crate::api::texts(info.injections@) == crate::api::kind_names(
        phase,
        phase.injections@.len() as int,
    )
}

/// What a list shows of a scenario found in a file.
pub fn scenario_info(file_name: &str, scenario: &Scenario) -> (info: ScenarioInfo)
    ensures
        shows_scenario(info, file_name@, *scenario),
{
    ScenarioInfo {
        file_name: String::from_str(file_name),
        name: scenario.name.clone(),
        description: crate::state::copy_optional(&scenario.description),
        duration: seconds(scenario.duration_secs()),
        phase_count: scenario.phases.len(),
    }
}

/// What the timeline shows of the phases of a scenario, in order.
pub fn phase_infos(scenario: &Scenario) -> (infos: Vec<PhaseInfo>)
    ensures
        infos@.len() == scenario.phases@.len(),
        forall|k: int|
            0 <= k < infos@.len() ==> shows_phase(#[trigger] infos@[k], scenario.phases@[k]),
{
    let mut infos: Vec<PhaseInfo> = Vec::new();
    let mut k: usize = 0;
    while k < scenario.phases.len()
        invariant
            0 <= k <= scenario.phases@.len(),
            infos@.len() == k,
            forall|j: int| 0 <= j < k ==> shows_phase(#[trigger] infos@[j], scenario.phases@[j]),
        decreases scenario.phases@.len() - k,
    {
        let phase = &scenario.phases[k];
        infos.push(
            PhaseInfo {
                name: phase.name.clone(),
                duration: seconds(phase.duration_secs()),
                injections: crate::api::injection_names(phase),
            },
        );
        k += 1;
    }
    infos
}

/// The words for something that was not found: what it is, its name in
/// quotes, and the cause.
pub open spec fn not_found_text(what: Seq<char>, name: Seq<char>, cause: Seq<char>) -> Seq<char> {
    what + " '"@ + name + "' not found: "@ + cause
}

fn not_found(what: &str, name: &str, cause: &str) -> (words: String)
    ensures
        words@ == not_found_text(what@, name@, cause@),
{
    let mut words = String::from_str(what);
    words.append(" '");
    words.append(name);
    words.append("' not found: ");
    words.append(cause);
    words
}

/// The dashboard: the number of scenarios, the recent results and their
/// number, and the status.
pub fn dashboard(state: &AppState, scenarios: &[ScenarioInfo]) -> (page: String)
    ensures
        page@ == templates::dashboard_page_text(
            scenarios@.len() as usize,
            state.recent_results@.len() as usize,
            state.recent_results@,
            state.test_status,
        ),
{
    templates::dashboard_page(
        scenarios.len(),
        state.recent_results.len(),
        state.recent_results.as_slice(),
        &state.test_status,
    )
}

/// The page of one scenario, or the error page that says why there is none.
pub fn scenario_detail(name: &str, yaml_content: &str, loaded: &Loaded<Scenario>) -> (page: String)
    ensures
        match *loaded {
            Loaded::Found { value } => exists|info: ScenarioInfo, phases: Seq<PhaseInfo>|
                #![auto]
                shows_scenario(info, name@, value) && phases.len() == value.phases@.len()
                    && (forall|
                    k: int,
                | 0 <= k < phases.len() ==> shows_phase(#[trigger] phases[k], value.phases@[k]))
                    && page@
                    == templates::scenario_detail_page_text(info, yaml_content@, phases),
            Loaded::Missing { cause } => page@ == templates::error_page_text(
                "Not Found"@,
                not_found_text("Scenario"@, name@, cause@),
            ),
            Loaded::Invalid { cause } => page@ == templates::error_page_text(
                "Parse Error"@,
                cause@,
            ),
        },
{
    match loaded {
        Loaded::Found { value } => {
            let info = scenario_info(name, value);
            let phases = phase_infos(value);
            templates::scenario_detail_page(&info, yaml_content, phases.as_slice())
        },
        Loaded::Missing { cause } => {
            let words = not_found("Scenario", name, cause.as_str());
            templates::error_page("Not Found", words.as_str())
        },
        Loaded::Invalid { cause } => templates::error_page("Parse Error", cause.as_str()),
    }
}

/// The page of one result, or the error page that says why there is none.
pub fn result_detail(id: &str, loaded: &Loaded<ScenarioResult>) -> (page: String)
    requires
        loaded matches Loaded::Found { value } ==> value.sound(),
    ensures
        page@ == match *loaded {
            Loaded::Found { value } => templates::result_detail_page_text(value),
            Loaded::Missing { cause } => templates::error_page_text(
                "Not Found"@,
                not_found_text("Result"@, id@, cause@),
            ),
            Loaded::Invalid { cause } => templates::error_page_text("Parse Error"@, cause@),
        },
{
    match loaded {
        Loaded::Found { value } => templates::result_detail_page(value),
        Loaded::Missing { cause } => {
            let words = not_found("Result", id, cause.as_str());
            templates::error_page("Not Found", words.as_str())
        },
        Loaded::Invalid { cause } => templates::error_page("Parse Error", cause.as_str()),
    }
}

/// The recent results with those found on disk added, each identifier
/// once: a result on disk is left out where the list holds one under its
/// identifier already.
pub open spec fn merged(recent: Seq<ResultSummary>, stored: Seq<ResultSummary>) -> Seq<
    ResultSummary,
>
    decreases stored.len(),
{
    if stored.len() == 0 {
        recent
    } else {
        let before = merged(recent, stored.drop_last());
        if crate::api::listed(before, stored.last().id@) {
            before
        } else {
            before.push(stored.last())
        }
    }
}

/// The recent results with those found on disk added, the latest first.
pub fn list_results(state: &AppState, stored: Vec<ResultSummary>) -> (results: Vec<ResultSummary>)
    ensures
        crate::api::newest_first(results@),
        exists|order: Seq<int>|
            #![auto]
            rearranged(results@, merged(state.recent_results@, stored@), order) && keeps_ties(
                results@,
                order,
                |a: ResultSummary, b: ResultSummary| a.timestamp_ms == b.timestamp_ms,
            ),
{
    let mut results = state.get_recent_results();
    let mut i: usize = 0;
    proof {
        assert(stored@.take(0) =~= Seq::<ResultSummary>::empty());
    }
    while i < stored.len()
        invariant
            0 <= i <= stored@.len(),
            results@ == merged(state.recent_results@, stored@.take(i as int)),
        decreases stored@.len() - i,
    {
        proof {
            let upto = stored@.take(i + 1);
            assert(upto.drop_last() =~= stored@.take(i as int));
            assert(upto.last() == stored@[i as int]);
        }
        add_stored_result(&mut results, stored[i].clone());
        i += 1;
    }
    assert(stored@.take(stored@.len() as int) =~= stored@);
    sort_newest_first(results)
}

/// The page that lists the results: the recent ones and those found on
/// disk, the latest first.
pub fn results_page(state: &AppState, stored: Vec<ResultSummary>) -> (page: String)
    ensures
        exists|results: Seq<ResultSummary>, order: Seq<int>|
            #![auto]
            crate::api::newest_first(results) && rearranged(
                results,
                merged(state.recent_results@, stored@),
                order,
            ) && keeps_ties(
                results,
                order,
                |a: ResultSummary, b: ResultSummary| a.timestamp_ms == b.timestamp_ms,
            ) && page@ == templates::results_page_text(results),
{
    let results = list_results(state, stored);
    templates::results_page(results.as_slice())
}

/// The run page.
pub fn run_page(state: &AppState, scenarios: &[ScenarioInfo]) -> (page: String)
    ensures
        page@ == templates::run_page_text(scenarios@, state.test_status),
{
    templates::run_page(scenarios, &state.test_status)
}

/// The load test page.
pub fn load_test_page(state: &AppState) -> (page: String)
    ensures
        page@ == templates::load_test_page_text(
            state.custom_targets@,
            state.load_test_state.is_running,
            state.load_test_state.metrics,
        ),
{
    templates::load_test_page(
        state.custom_targets.as_slice(),
        state.load_test_state.is_running,
        &state.load_test_state.metrics,
    )
}

/// The page that lists the targets.
pub fn targets_page(state: &AppState) -> (page: String)
    ensures
        page@ == templates::targets_page_text(state.custom_targets@),
{
    templates::targets_page(state.custom_targets.as_slice())
}

/// Scenarios in the order of their names.
pub open spec fn by_name(items: Seq<ScenarioInfo>) -> bool {
    forall|i: int, j: int| 0 <= i <= j < items.len() ==> !text_lt(items[j].name@, items[i].name@)
}

/// Puts scenarios in the order of their names; scenarios of the same
/// name keep their order.
pub fn sort_by_name(items: Vec<ScenarioInfo>) -> (sorted: Vec<ScenarioInfo>)
    ensures
        by_name(sorted@),
        exists|order: Seq<int>|
            #![auto]
            rearranged(sorted@, items@, order) && keeps_ties(
                sorted@,
                order,
                |a: ScenarioInfo, b: ScenarioInfo| a.name@ == b.name@,
            ),
{
    let ghost same = |a: ScenarioInfo, b: ScenarioInfo| a.name@ == b.name@;
    let mut sorted: Vec<ScenarioInfo> = Vec::new();
    let ghost mut order: Seq<int> = Seq::empty();
    let mut i: usize = 0;
    proof {
        assert(items@.take(0) =~= Seq::<ScenarioInfo>::empty());
    }
    while i < items.len()
        invariant
            0 <= i <= items@.len(),
            by_name(sorted@),
            rearranged(sorted@, items@.take(i as int), order),
            same == |a: ScenarioInfo, b: ScenarioInfo| a.name@ == b.name@,
            keeps_ties(sorted@, order, same),
        decreases items@.len() - i,
    {
        let item = items[i].clone();
        let mut at: usize = 0;
        while at < sorted.len() && !comes_before(item.name.as_str(), sorted[at].name.as_str())
            invariant
                0 <= at <= sorted@.len(),
                forall|j: int| 0 <= j < at ==> !text_lt(item.name@, sorted@[j].name@),
            decreases sorted@.len() - at,
        {
            at += 1;
        }
        let ghost before = sorted@;
        let ghost order_before = order;
        sorted.insert(at, item);
        proof {
            order = order_before.insert(at as int, i as int);
            assert(sorted@ =~= before.insert(at as int, items@[i as int]));
            lemma_insert_rearranged(before, order_before, items@, at as int, i as int);
            if at < before.len() {
                // The item comes before what stood at its place, and that
                // comes no later than what follows.
                assert forall|k: int| at <= k < before.len() implies text_lt(
                    item.name@,
                    #[trigger] before[k].name@,
                ) by {
                    lemma_text_order_transitive(item.name@, before[at as int].name@, before[k].name@);
                }
            }
            assert forall|a: int, b: int| 0 <= a <= b < sorted@.len() implies !text_lt(
                sorted@[b].name@,
                sorted@[a].name@,
            ) by {
                let a0 = if a < at {
                    a
                } else {
                    a - 1
                };
                let b0 = if b < at {
                    b
                } else {
                    b - 1
                };
                if a == b {
                    lemma_text_order_strict(sorted@[a].name@, sorted@[a].name@);
                } else if a != at && b != at {
                    assert(sorted@[a] == before[a0]);
                    assert(sorted@[b] == before[b0]);
                } else if a == at {
                    assert(sorted@[b] == before[b0]);
                    lemma_text_order_strict(item.name@, before[b0].name@);
                } else {
                    assert(sorted@[a] == before[a0]);
                }
            }
            assert forall|a: int, b: int|
                0 <= a < b < sorted@.len() && same(sorted@[a], sorted@[b]) implies order[a]
                < order[b] by {
                let a0 = if a < at {
                    a
                } else {
                    a - 1
                };
                let b0 = if b < at {
                    b
                } else {
                    b - 1
                };
                if a != at && b != at {
                    assert(sorted@[a] == before[a0]);
                    assert(sorted@[b] == before[b0]);
                    assert(order[a] == order_before[a0]);
                    assert(order[b] == order_before[b0]);
                } else if b == at {
                    assert(order[a] == order_before[a0]);
                } else {
                    assert(sorted@[b] == before[b0]);
                    lemma_text_order_strict(item.name@, before[b0].name@);
                }
            }
        }
        i += 1;
    }
    assert(items@.take(items@.len() as int) =~= items@);
    sorted
}

} // verus!
