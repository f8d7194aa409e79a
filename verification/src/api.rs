//! What the control surface answers: the shapes of its requests and
//! responses, and the decisions behind each answer.
//!
//! Reading requests and files and sending responses is done elsewhere.
//! Here a request meets the shared state, and the answer is decided.

use crate::arrange::{
    keeps_ties, lemma_insert_place, lemma_insert_rearranged, rearranged, rearranges,
};
use crate::clock::utc_text_or_empty;
use crate::load_test::{LoadTestConfig, LoadTestState};
use crate::result::ScenarioResult;
use crate::scenario::{Phase, Scenario};
use crate::scheduler::{phase_runs, phase_start, Scheduler};
use crate::state::{AppState, CustomTarget, ResultSummary, TestStatus};
use crate::text::{
    comes_before, hex_text, lemma_text_order_strict, lemma_text_order_transitive, push_hex,
    text_lt,
};
use vstd::prelude::*;
use vstd::string::{StrSliceExecFns, StringExecFns};

verus! {

/// The request was at odds with the state: something runs already.
pub const STATUS_CONFLICT: u16 = 409;

/// The request makes no sense as things are.
pub const STATUS_BAD_REQUEST: u16 = 400;

/// What was asked for does not exist.
pub const STATUS_NOT_FOUND: u16 = 404;

/// The answer to a health check.
#[derive(Debug)]
pub struct HealthResponse {
    pub status: String,
    pub version: String,
}

/// What the interface tells of one scenario.
#[derive(Debug)]
pub struct ScenarioResponse {
    pub file_name: String,
    pub name: String,
    pub description: Option<String>,
    pub duration_secs: u64,
    pub phase_count: usize,
    pub phases: Vec<PhaseResponse>,
}

/// What the interface tells of one phase.
#[derive(Debug)]
pub struct PhaseResponse {
    pub name: String,
    pub duration_secs: u64,
    pub injections: Vec<String>,
}

/// The request to run a scenario.
#[derive(Debug)]
pub struct RunRequest {
    pub scenario: String,
}

/// The answer to a request that starts, stops or deletes something.
#[derive(Debug)]
pub struct RunResponse {
    pub success: bool,
    pub message: String,
}

/// The request to add a target.
#[derive(Debug)]
pub struct AddTargetRequest {
    pub name: String,
    pub target_type: String,
    pub url: String,
    pub description: Option<String>,
}

/// A refusal: the status to answer with, and why.
#[derive(Debug)]
pub struct ApiError {
    pub status: u16,
    pub message: String,
}

/// A refusal with a status and a reason.
pub open spec fn refused<T>(answer: Result<T, ApiError>, status: u16, message: Seq<char>) -> bool {
    answer matches Err(e) && e.status == status && e.message@ == message
}

/// An acceptance with a message.
pub open spec fn accepted(answer: Result<RunResponse, ApiError>, message: Seq<char>) -> bool {
    answer matches Ok(r) && r.success && r.message@ == message
}

fn refuse<T>(status: u16, message: &str) -> (answer: Result<T, ApiError>)
    ensures
        refused(answer, status, message@),
{
    Err(ApiError { status, message: String::from_str(message) })
}

fn accept(message: &str) -> (answer: Result<RunResponse, ApiError>)
    ensures
        accepted(answer, message@),
{
    Ok(RunResponse { success: true, message: String::from_str(message) })
}

/// The answer to a health check: all is well, and the version that runs.
pub fn health_check(version: &str) -> (answer: HealthResponse)
    ensures
        answer.status@ == "ok"@,
        answer.version@ == version@,
{
    HealthResponse { status: String::from_str("ok"), version: String::from_str(version) }
}

/// The current status.
pub fn get_status(state: &AppState) -> (status: TestStatus)
    ensures
        status == state.test_status,
{
    state.get_status()
}

/// The names of the kinds of the injections of a phase, in order.
pub open spec fn kind_names(phase: Phase, upto: int) -> Seq<Seq<char>>
    decreases upto,
{
    if upto <= 0 {
        Seq::empty()
    } else {
        kind_names(phase, upto - 1).push(phase.injections@[upto - 1].kind.name_spec())
    }
}

/// The text of each string of a list.
pub open spec fn texts(list: Seq<String>) -> Seq<Seq<char>> {
    Seq::new(list.len(), |i: int| list[i]@)
}

/// The names of the kinds of the injections of a phase, in order.
pub fn injection_names(phase: &Phase) -> (names: Vec<String>)
    ensures
        texts(names@) == kind_names(*phase, phase.injections@.len() as int),
{
    let mut names: Vec<String> = Vec::new();
    let mut i: usize = 0;
    while i < phase.injections.len()
        invariant
            0 <= i <= phase.injections@.len(),
            texts(names@) == kind_names(*phase, i as int),
        decreases phase.injections@.len() - i,
    {
        let ghost before = names@;
        names.push(String::from_str(phase.injections[i].kind.name()));
        assert(texts(names@) =~= texts(before).push(phase.injections@[i as int].kind.name_spec()));
        i += 1;
    }
    names
}

/// Whether a response tells of a phase what there is to tell.
pub open spec fn tells_of_phase(response: PhaseResponse, phase: Phase) -> bool {
    &&& response.name@ == phase.name@
    &&& response.duration_secs == phase.duration_ms / 1000
    &&& texts(response.injections@) == kind_names(phase, phase.injections@.len() as int)
}

/// Whether a response tells of a scenario what there is to tell.
pub open spec fn tells_of_scenario(
    response: ScenarioResponse,
    file_name: Seq<char>,
    scenario: Scenario,
) -> bool {
    &&& response.file_name@ == file_name
    &&& response.name@ == scenario.name@
    &&& response.description == scenario.description
    &&& response.duration_secs == scenario.duration_ms / 1000
    &&& response.phase_count == scenario.phases@.len()
    &&& response.phases@.len() == scenario.phases@.len()
    &&& forall|k: int|
        0 <= k < scenario.phases@.len() ==> tells_of_phase(
            #[trigger] response.phases@[k],
            scenario.phases@[k],
        )
}

/// What the interface tells of a scenario found in a file.
pub fn get_scenario(file_name: &str, scenario: &Scenario) -> (response: ScenarioResponse)
    ensures
        tells_of_scenario(response, file_name@, *scenario),
{
    let mut phases: Vec<PhaseResponse> = Vec::new();
    let mut k: usize = 0;
    while k < scenario.phases.len()
        invariant
            0 <= k <= scenario.phases@.len(),
            phases@.len() == k,
            forall|j: int|
                0 <= j < k ==> tells_of_phase(#[trigger] phases@[j], scenario.phases@[j]),
        decreases scenario.phases@.len() - k,
    {
        let phase = &scenario.phases[k];
        phases.push(
            PhaseResponse {
                name: phase.name.clone(),
                duration_secs: phase.duration_secs(),
                injections: injection_names(phase),
            },
        );
        k += 1;
    }
    ScenarioResponse {
        file_name: String::from_str(file_name),
        name: scenario.name.clone(),
        description: crate::state::copy_optional(&scenario.description),
        duration_secs: scenario.duration_secs(),
        phase_count: scenario.phases.len(),
        phases,
    }
}

/// Responses in the order of their names.
pub open spec fn in_name_order(list: Seq<ScenarioResponse>) -> bool {
    forall|i: int, j: int| 0 <= i <= j < list.len() ==> !text_lt(list[j].name@, list[i].name@)
}

/// What the interface tells of the scenarios found in some files, in
/// the order of their names: one response for each file, and scenarios of
/// the same name in the order of their files.
pub fn list_scenarios(files: &Vec<(String, Scenario)>) -> (responses: Vec<ScenarioResponse>)
    ensures
        responses@.len() == files@.len(),
        in_name_order(responses@),
        exists|order: Seq<int>|
            #![auto]
            rearranges(order, files@.len() as int) && keeps_ties(
                responses@,
                order,
                |a: ScenarioResponse, b: ScenarioResponse| a.name@ == b.name@,
            ) && forall|j: int|
                0 <= j < responses@.len() ==> tells_of_scenario(
                    #[trigger] responses@[j],
                    files@[order[j]].0@,
                    files@[order[j]].1,
                ),
{
    let ghost same = |a: ScenarioResponse, b: ScenarioResponse| a.name@ == b.name@;
    let mut responses: Vec<ScenarioResponse> = Vec::new();
    let ghost mut order: Seq<int> = Seq::empty();
    let mut i: usize = 0;
    while i < files.len()
        invariant
            0 <= i <= files@.len(),
            in_name_order(responses@),
            responses@.len() == i,
            rearranges(order, i as int),
            same == |a: ScenarioResponse, b: ScenarioResponse| a.name@ == b.name@,
            keeps_ties(responses@, order, same),
            forall|j: int|
                0 <= j < responses@.len() ==> tells_of_scenario(
                    #[trigger] responses@[j],
                    files@[order[j]].0@,
                    files@[order[j]].1,
                ),
        decreases files@.len() - i,
    {
        let item = get_scenario(files[i].0.as_str(), &files[i].1);
        let mut at: usize = 0;
        while at < responses.len() && !comes_before(item.name.as_str(), responses[at].name.as_str())
            invariant
                0 <= at <= responses@.len(),
                forall|j: int| 0 <= j < at ==> !text_lt(item.name@, responses@[j].name@),
            decreases responses@.len() - at,
        {
            at += 1;
        }
        let ghost before = responses@;
        let ghost order_before = order;
        responses.insert(at, item);
        proof {
            order = order_before.insert(at as int, i as int);
            lemma_insert_place(order_before, at as int, i as int);
            assert(responses@ =~= before.insert(at as int, item));
            assert forall|a: int, b: int| 0 <= a <= b < responses@.len() implies !text_lt(
                responses@[b].name@,
                responses@[a].name@,
            ) by {
                let a0 = if a < at {
                    a
                } else {
                    a - 1
                };
                let b0 = if b < at {
                    b
                } else {
                    b - 1
                };
                if a == b {
                    lemma_text_order_strict(responses@[a].name@, responses@[a].name@);
                } else if a != at && b != at {
                    assert(responses@[a] == before[a0]);
                    assert(responses@[b] == before[b0]);
                } else if a == at {
                    assert(responses@[b] == before[b0]);
                    assert(text_lt(item.name@, before[at as int].name@));
                    lemma_text_order_transitive(item.name@, before[at as int].name@, before[b0].name@);
                    lemma_text_order_strict(item.name@, before[b0].name@);
                } else {
                    assert(responses@[a] == before[a0]);
                }
            }
            assert forall|j: int| 0 <= j < responses@.len() implies tells_of_scenario(
                #[trigger] responses@[j],
                files@[order[j]].0@,
                files@[order[j]].1,
            ) by {
                if j < at {
                    assert(responses@[j] == before[j]);
                    assert(order[j] == order_before[j]);
                } else if j > at {
                    assert(responses@[j] == before[j - 1]);
                    assert(order[j] == order_before[j - 1]);
                }
            }
            assert forall|a: int, b: int|
                0 <= a < b < responses@.len() && same(
                    responses@[a],
                    responses@[b],
                ) implies order[a] < order[b] by {
                let a0 = if a < at {
                    a
                } else {
                    a - 1
                };
                let b0 = if b < at {
                    b
                } else {
                    b - 1
                };
                if a != at && b != at {
                    assert(responses@[a] == before[a0]);
                    assert(responses@[b] == before[b0]);
                    assert(order[a] == order_before[a0]);
                    assert(order[b] == order_before[b0]);
                } else if b == at {
                    assert(order[a] == order_before[a0]);
                } else {
                    // What follows the new item comes after it by name.
                    assert(responses@[b] == before[b0]);
                    assert(text_lt(item.name@, before[at as int].name@));
                    lemma_text_order_transitive(item.name@, before[at as int].name@, before[b0].name@);
                    lemma_text_order_strict(item.name@, before[b0].name@);
                }
            }
        }
        i += 1;
    }
    proof {
        assert(rearranges(order, files@.len() as int));
        assert(keeps_ties(responses@, order, same));
    }
    responses
}

/// A state in which a run was marked as begun: the scenario's name and
/// length are noted, progress starts at nothing, no stop is asked for, and
/// everything else is as before.
pub open spec fn marked_running(
    after: AppState,
    before: AppState,
    scenario_name: Seq<char>,
    total_seconds: u64,
    now_ms: i64,
) -> bool {
    &&& after.test_status.is_running
    &&& after.test_status.scenario_name matches Some(n) && n@ == scenario_name
    &&& after.test_status.total_seconds == total_seconds
    &&& after.test_status.elapsed_seconds == 0
    &&& after.test_status.progress_tenths == 0
    &&& after.test_status.started_at_ms == Some(now_ms)
    &&& after.test_status.current_phase == before.test_status.current_phase
    &&& !after.stop_signal
    &&& after.config == before.config
    &&& after.recent_results == before.recent_results
    &&& after.custom_targets == before.custom_targets
    &&& after.load_test_state == before.load_test_state
}

/// The answer to a request to run a scenario. While a test runs the
/// request is refused and nothing changes. Otherwise the run is marked as
/// begun.
pub fn run_scenario(
    state: &mut AppState,
    scenario_name: &str,
    total_seconds: u64,
    now_ms: i64,
) -> (answer: Result<RunResponse, ApiError>)
    ensures
        old(state).test_status.is_running ==> refused(
            answer,
            STATUS_CONFLICT,
            "A test is already running"@,
        ) && *final(state) == *old(state),
        !old(state).test_status.is_running ==> accepted(
            answer,
            "Started test: "@ + scenario_name@,
        ) && marked_running(*final(state), *old(state), scenario_name@, total_seconds, now_ms),
{
    if state.test_status.is_running {
        return refuse(STATUS_CONFLICT, "A test is already running");
    }
    state.set_running(String::from_str(scenario_name), total_seconds, now_ms);
    let mut message = String::from_str("Started test: ");
    message.append(scenario_name);
    Ok(RunResponse { success: true, message })
}

/// The answer to a request to stop the test. With no test running the
/// request is refused and nothing changes. Otherwise a stop is asked for,
/// and nothing else changes: the test counts as running until the run
/// itself has taken back what is live and marks its end.
pub fn stop_test(state: &mut AppState) -> (answer: Result<RunResponse, ApiError>)
    ensures
        !old(state).test_status.is_running ==> refused(
            answer,
            STATUS_BAD_REQUEST,
            "No test is currently running"@,
        ) && *final(state) == *old(state),
        old(state).test_status.is_running ==> accepted(answer, "Test stopped"@) && *final(state)
            == (AppState { stop_signal: true, ..*old(state) }),
{
    if !state.test_status.is_running {
        return refuse(STATUS_BAD_REQUEST, "No test is currently running");
    }
    state.request_stop();
    accept("Test stopped")
}

/// The answer to a request to start a load test. While one runs the
/// request is refused and nothing changes. Otherwise the test is begun.
pub fn start_load_test(state: &mut AppState, config: LoadTestConfig, now_ms: u64) -> (answer: Result<
    RunResponse,
    ApiError,
>)
    ensures
        old(state).load_test_state.is_running ==> refused(
            answer,
            STATUS_CONFLICT,
            "A load test is already running"@,
        ) && *final(state) == *old(state),
        !old(state).load_test_state.is_running ==> accepted(answer, "Load test started"@)
            && final(state).load_test_state.begun(old(state).load_test_state, config, now_ms)
            && *final(state) == (AppState {
            load_test_state: final(state).load_test_state,
            ..*old(state)
        }),
{
    if state.load_test_state.is_running {
        return refuse(STATUS_CONFLICT, "A load test is already running");
    }
    state.load_test_state.begin(config, now_ms);
    accept("Load test started")
}

/// The answer to a request to stop the load test. With none running the
/// request is refused and nothing changes. Otherwise the test is asked to
/// stop.
pub fn stop_load_test(state: &mut AppState) -> (answer: Result<RunResponse, ApiError>)
    ensures
        !old(state).load_test_state.is_running ==> refused(
            answer,
            STATUS_BAD_REQUEST,
            "No load test is running"@,
        ) && *final(state) == *old(state),
        old(state).load_test_state.is_running ==> accepted(answer, "Load test stopping"@)
            && *final(state) == (AppState {
            load_test_state: LoadTestState { should_stop: true, ..old(state).load_test_state },
            ..*old(state)
        }),
{
    if !state.load_test_state.is_running {
        return refuse(STATUS_BAD_REQUEST, "No load test is running");
    }
    state.load_test_state.should_stop = true;
    accept("Load test stopping")
}

/// An identifier made of a moment: its seconds and the nanoseconds
/// within the second, both in hexadecimal, one after the other.
pub fn uuid_simple(secs: u64, subsec_nanos: u32) -> (id: String)
    ensures
        id@ == hex_text(secs as nat) + hex_text(subsec_nanos as nat),
{
    let mut id = String::new();
    push_hex(&mut id, secs);
    push_hex(&mut id, subsec_nanos as u64);
    assert(id@ =~= hex_text(secs as nat) + hex_text(subsec_nanos as nat));
    id
}

/// Adds a target under an identifier, at the end of the list, and
/// answers with the target as it was added.
pub fn add_target(
    state: &mut AppState,
    request: AddTargetRequest,
    id: String,
    now_ms: i64,
) -> (added: CustomTarget)
    ensures
        added == (CustomTarget {
            id,
            name: request.name,
            target_type: request.target_type,
            url: request.url,
            description: request.description,
            created_at_ms: now_ms,
        }),
        final(state).custom_targets@ == old(state).custom_targets@.push(added),
        *final(state) == (AppState { custom_targets: final(state).custom_targets, ..*old(state) }),
{
    let target = CustomTarget {
        id,
        name: request.name,
        target_type: request.target_type,
        url: request.url,
        description: request.description,
        created_at_ms: now_ms,
    };
    let added = target.clone();
    state.custom_targets.push(target);
    added
}

/// The targets that do not bear an identifier, in their order.
pub open spec fn without_id(targets: Seq<CustomTarget>, id: Seq<char>) -> Seq<CustomTarget> {
    targets.filter(|t: CustomTarget| t.id@ != id)
}

/// Whether a target bears an identifier.
pub open spec fn has_id(targets: Seq<CustomTarget>, id: Seq<char>) -> bool {
    exists|i: int| 0 <= i < targets.len() && (#[trigger] targets[i]).id@ == id
}

/// Deletes the targets that bear an identifier. Where none does, the
/// request is refused and nothing changes.
pub fn delete_target(state: &mut AppState, id: &str) -> (answer: Result<RunResponse, ApiError>)
    ensures
        final(state).custom_targets@ == without_id(old(state).custom_targets@, id@),
        *final(state) == (AppState { custom_targets: final(state).custom_targets, ..*old(state) }),
        has_id(old(state).custom_targets@, id@) ==> accepted(answer, "Target deleted"@),
        !has_id(old(state).custom_targets@, id@) ==> refused(
            answer,
            STATUS_NOT_FOUND,
            "Target not found"@,
        ) && final(state).custom_targets@ == old(state).custom_targets@,
{
    let ghost all = state.custom_targets@;
    let ghost keep = |t: CustomTarget| t.id@ != id@;
    let mut kept: Vec<CustomTarget> = Vec::new();
    let mut found: bool = false;
    let mut i: usize = 0;
    while i < state.custom_targets.len()
        invariant
            0 <= i <= all.len(),
            state.custom_targets@ == all,
            *state == *old(state),
            keep == |t: CustomTarget| t.id@ != id@,
            kept@ == all.take(i as int).filter(keep),
            found == has_id(all.take(i as int), id@),
            !found ==> kept@ == all.take(i as int),
        decreases all.len() - i,
    {
        let target = &state.custom_targets[i];
        proof {
            let upto = all.take(i + 1);
            assert(upto.drop_last() =~= all.take(i as int));
            assert(upto.last() == all[i as int]);
            reveal(Seq::filter);
            if has_id(all.take(i as int), id@) {
                let w = choose|w: int|
                    0 <= w < all.take(i as int).len() && (#[trigger] all.take(i as int)[w]).id@
                        == id@;
                assert(upto[w].id@ == id@);
            }
            if has_id(upto, id@) && target.id@ != id@ {
                let w = choose|w: int| 0 <= w < upto.len() && (#[trigger] upto[w]).id@ == id@;
                assert(all.take(i as int)[w].id@ == id@);
            }
            if target.id@ == id@ {
                assert(upto[i as int].id@ == id@);
            }
        }
        if crate::scenario::same_text(target.id.as_str(), id) {
            found = true;
        } else {
            kept.push(target.clone());
            proof {
                if !found {
                    assert(kept@ =~= all.take(i + 1));
                }
            }
        }
        i += 1;
    }
    assert(all.take(all.len() as int) =~= all);
    state.custom_targets = kept;
    if found {
        accept("Target deleted")
    } else {
        refuse(STATUS_NOT_FOUND, "Target not found")
    }
}

/// A text with an underscore in place of every blank.
pub open spec fn underscored(text: Seq<char>) -> Seq<char> {
    Seq::new(
        text.len(),
        |i: int|
            if text[i] == ' ' {
                '_'
            } else {
                text[i]
            },
    )
}

/// The lower-case form that the standard library gives a text.
pub uninterp spec fn lowercase_text(text: Seq<char>) -> Seq<char>;

/// The standard library's `str::to_lowercase`. What it returns depends
/// on the text alone; the contract gives it a name and says no more.
#[verifier::external_body]
fn lowercase(text: &str) -> (lower: String)
    ensures
        lower@ == lowercase_text(text@),
{
    text.to_lowercase()
}

/// Puts an underscore in place of every blank.
pub fn underscore(text: &str) -> (out: String)
    ensures
        out@ == underscored(text@),
{
    let n = text.unicode_len();
    let mut out = String::new();
    let mut i: usize = 0;
    while i < n
        invariant
            0 <= i <= n,
            n == text@.len(),
            out@ == underscored(text@.take(i as int)),
        decreases n - i,
    {
        let c = text.get_char(i);
        let ghost before = out@;
        if c == ' ' {
            out.append("_");
        } else {
            out.append(text.substring_char(i, i + 1));
        }
        proof {
            reveal_strlit("_");
            assert(out@ =~= underscored(text@.take(i + 1)));
        }
        i += 1;
    }
    assert(text@.take(n as int) =~= text@);
    out
}

/// The identifier of a result: the scenario's name with underscores for
/// blanks, in lower case, then an underscore and a stamp.
pub open spec fn result_id_text(lowered_name: Seq<char>, stamp: Seq<char>) -> Seq<char> {
    lowered_name + "_"@ + stamp
}

/// The identifier of a result, from the scenario's name as it was
/// lowered and a stamp.
pub fn result_id_from(lowered_name: &str, stamp: &str) -> (id: String)
    ensures
        id@ == result_id_text(lowered_name@, stamp@),
{
    let mut id = String::from_str(lowered_name);
    id.append("_");
    id.append(stamp);
    id
}

/// The identifier of the result of a scenario that ended at a moment.
pub fn result_id(scenario_name: &str, now_ms: i64) -> (id: String)
    ensures
        id@ == result_id_text(
            lowercase_text(underscored(scenario_name@)),
            utc_text_or_empty(now_ms, crate::clock::STAMP_PATTERN@),
        ),
{
    let plain = underscore(scenario_name);
    let lowered = lowercase(plain.as_str());
    let stamp = crate::clock::utc_string(now_ms, crate::clock::STAMP_PATTERN);
    result_id_from(lowered.as_str(), stamp.as_str())
}

/// The name of the file that holds a result.
pub fn result_file_name(id: &str) -> (name: String)
    ensures
        name@ == id@ + ".json"@,
{
    let mut name = String::from_str(id);
    name.append(".json");
    name
}

/// The line that a list of results shows of one result.
pub fn summarize_result(
    result: &ScenarioResult,
    id: String,
    file_path: String,
) -> (summary: ResultSummary)
    requires
        result.sound(),
    ensures
        summary.id == id,
        summary.file_path == file_path,
        summary.scenario_name@ == result.scenario_name@,
        summary.timestamp_ms == result.started_at_ms,
        summary.success_ppm == result.success_ppm_spec(),
        summary.total_duration_secs == result.total_duration_ms / 1000,
{
    ResultSummary {
        id,
        scenario_name: result.scenario_name.clone(),
        timestamp_ms: result.started_at_ms,
        success_ppm: result.success_ppm(),
        total_duration_secs: result.duration_secs(),
        file_path,
    }
}

/// Whether a list holds a result under an identifier.
pub open spec fn listed(results: Seq<ResultSummary>, id: Seq<char>) -> bool {
    exists|i: int| 0 <= i < results.len() && (#[trigger] results[i]).id@ == id
}

/// Adds a result found on disk to a list, unless the list holds one
/// under the same identifier. Says whether it was added.
pub fn add_stored_result(results: &mut Vec<ResultSummary>, stored: ResultSummary) -> (added: bool)
    ensures
        added == !listed(old(results)@, stored.id@),
        final(results)@ == if added {
            old(results)@.push(stored)
        } else {
            old(results)@
        },
{
    let mut i: usize = 0;
    while i < results.len()
        invariant
            0 <= i <= results@.len(),
            *results == *old(results),
            forall|j: int| 0 <= j < i ==> (#[trigger] results@[j]).id@ != stored.id@,
        decreases results@.len() - i,
    {
        if crate::scenario::same_text(results[i].id.as_str(), stored.id.as_str()) {
            return false;
        }
        i += 1;
    }
    results.push(stored);
    true
}

/// Results with the latest first.
pub open spec fn newest_first(results: Seq<ResultSummary>) -> bool {
    forall|i: int, j: int|
        0 <= i <= j < results.len() ==> results[i].timestamp_ms >= results[j].timestamp_ms
}

/// Puts results in order, the latest first; results of the same moment
/// keep their order.
pub fn sort_newest_first(results: Vec<ResultSummary>) -> (sorted: Vec<ResultSummary>)
    ensures
        newest_first(sorted@),
        exists|order: Seq<int>|
            #![auto]
            rearranged(sorted@, results@, order) && keeps_ties(
                sorted@,
                order,
                |a: ResultSummary, b: ResultSummary| a.timestamp_ms == b.timestamp_ms,
            ),
{
    let ghost same = |a: ResultSummary, b: ResultSummary| a.timestamp_ms == b.timestamp_ms;
    let mut sorted: Vec<ResultSummary> = Vec::new();
    let ghost mut order: Seq<int> = Seq::empty();
    let mut i: usize = 0;
    proof {
        assert(results@.take(0) =~= Seq::<ResultSummary>::empty());
    }
    while i < results.len()
        invariant
            0 <= i <= results@.len(),
            newest_first(sorted@),
            rearranged(sorted@, results@.take(i as int), order),
            same == |a: ResultSummary, b: ResultSummary| a.timestamp_ms == b.timestamp_ms,
            keeps_ties(sorted@, order, same),
        decreases results@.len() - i,
    {
        let item = results[i].clone();
        let mut at: usize = 0;
        while at < sorted.len() && sorted[at].timestamp_ms >= item.timestamp_ms
            invariant
                0 <= at <= sorted@.len(),
                forall|j: int| 0 <= j < at ==> sorted@[j].timestamp_ms >= item.timestamp_ms,
            decreases sorted@.len() - at,
        {
            at += 1;
        }
        let ghost before = sorted@;
        let ghost order_before = order;
        sorted.insert(at, item);
        proof {
            order = order_before.insert(at as int, i as int);
            assert(sorted@ =~= before.insert(at as int, results@[i as int]));
            lemma_insert_rearranged(before, order_before, results@, at as int, i as int);
            assert forall|a: int, b: int| 0 <= a <= b < sorted@.len() implies sorted@[a].timestamp_ms
                >= sorted@[b].timestamp_ms by {
                let a0 = if a < at {
                    a
                } else {
                    a - 1
                };
                let b0 = if b < at {
                    b
                } else {
                    b - 1
                };
                if a != at && b != at {
                    assert(sorted@[a] == before[a0]);
                    assert(sorted@[b] == before[b0]);
                } else if a == at && b != at {
                    assert(sorted@[b] == before[b0]);
                } else if a != at && b == at {
                    assert(sorted@[a] == before[a0]);
                }
            }
            assert forall|a: int, b: int|
                0 <= a < b < sorted@.len() && same(sorted@[a], sorted@[b]) implies order[a]
                < order[b] by {
                let a0 = if a < at {
                    a
                } else {
                    a - 1
                };
                let b0 = if b < at {
                    b
                } else {
                    b - 1
                };
                if a != at && b != at {
                    assert(sorted@[a] == before[a0]);
                    assert(sorted@[b] == before[b0]);
                    assert(order[a] == order_before[a0]);
                    assert(order[b] == order_before[b0]);
                } else if b == at {
                    assert(order[a] == order_before[a0]);
                } else {
                    assert(sorted@[b] == before[b0]);
                    assert(before[at as int].timestamp_ms >= before[b0].timestamp_ms);
                }
            }
        }
        i += 1;
    }
    assert(results@.take(results@.len() as int) =~= results@);
    sorted
}

/// Notes the progress of a run, unless a stop is asked for or the time
/// has reached the scenario's total duration: then nothing is noted and the
/// phase shown before stays. Otherwise the phase to show is the one that the
/// time falls in by the running sums of the phase durations, which is a
/// phase that runs; or, where the phases end before the total and the time
/// lies behind them, the one shown before. If there is such a phase, it is
/// shown with the whole seconds elapsed. Answers with the index of the
/// phase shown, to go by next time.
pub fn update_progress(
    state: &mut AppState,
    phases: &Vec<Phase>,
    total_ms: u64,
    shown_before: usize,
    elapsed_ms: u64,
) -> (shown: usize)
    ensures
        old(state).stop_signal || elapsed_ms >= total_ms ==> shown == shown_before && *final(state)
            == *old(state),
        !old(state).stop_signal && elapsed_ms < total_ms ==> {
            &&& phase_start(phases@, phases@.len() as int) <= elapsed_ms ==> shown
                == shown_before
            &&& phase_start(phases@, phases@.len() as int) > elapsed_ms ==> shown < phases@.len()
                && phase_start(phases@, shown as int) <= elapsed_ms < phase_start(
                phases@,
                shown + 1,
            ) && phase_runs(phases@, total_ms as nat, shown as int)
            &&& shown < phases@.len() ==> crate::state::progress_noted(
                *final(state),
                *old(state),
                phases@[shown as int].name@,
                (elapsed_ms / 1000) as u64,
            )
            &&& shown >= phases@.len() ==> *final(state) == *old(state)
        },
{
    if state.stop_signal || elapsed_ms >= total_ms {
        return shown_before;
    }
    let shown: usize = match Scheduler::current_phase(phases, elapsed_ms) {
        Some(k) => k,
        None => shown_before,
    };
    if shown < phases.len() {
        state.update_progress(phases[shown].name.as_str(), elapsed_ms / 1000);
    }
    shown
}

} // verus!
