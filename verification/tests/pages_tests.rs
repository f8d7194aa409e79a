use chaos_framework::api;
use chaos_framework::api::{AddTargetRequest, ApiError, RunResponse};
use chaos_framework::clock::{utc_string, MINUTE_PATTERN, SECOND_PATTERN, STAMP_PATTERN};
use chaos_framework::handlers;
use chaos_framework::handlers::Loaded;
use chaos_framework::load_test::{
    mean, percentile, request_rate_tenths, summarize, HttpMethod, LoadTestConfig, LoadTestMetrics,
    LoadTestState, ResponseOutcome, TargetType,
};
use chaos_framework::markup;
use chaos_framework::report::{generate_html_report, generate_markdown_report, ReportFormat};
use chaos_framework::result::{
    counts_to_store, ratio_ppm, stored_counts, PhaseResult, ScenarioResult,
};
use chaos_framework::scenario::{
    Capability, Injection, InjectorKind, Phase, Scenario, SchedulingMode, Target,
};
use chaos_framework::state::{AppState, CustomTarget, ResultSummary, TestStatus, WebConfig};
use chaos_framework::templates;
use chaos_framework::templates::{PhaseInfo, ScenarioInfo};
use chaos_framework::text::{decimal, push_hex, push_hundredths, push_tenths};

fn summary(id: &str, timestamp_ms: i64, success_ppm: u64) -> ResultSummary {
    ResultSummary {
        id: id.to_string(),
        scenario_name: format!("scenario {}", id),
        timestamp_ms,
        success_ppm,
        total_duration_secs: 42,
        file_path: format!("test_results/{}.json", id),
    }
}

fn custom(id: &str, name: &str, description: Option<&str>) -> CustomTarget {
    CustomTarget {
        id: id.to_string(),
        name: name.to_string(),
        target_type: "http".to_string(),
        url: format!("http://{}.test", name),
        description: description.map(|d| d.to_string()),
        created_at_ms: 5,
    }
}

fn info(file: &str, name: &str, description: Option<&str>) -> ScenarioInfo {
    ScenarioInfo {
        file_name: file.to_string(),
        name: name.to_string(),
        description: description.map(|d| d.to_string()),
        duration: "60s".to_string(),
        phase_count: 3,
    }
}

fn phase_result(name: &str, duration_ms: u64, succeeded: u64, failed: u64) -> PhaseResult {
    PhaseResult {
        name: name.to_string(),
        duration_ms,
        injection_count: succeeded + failed,
        succeeded,
        failed,
    }
}

fn result(phases: Vec<PhaseResult>) -> ScenarioResult {
    ScenarioResult {
        scenario_name: "Network Chaos".to_string(),
        started_at_ms: 1_700_000_000_000,
        total_duration_ms: 6_500,
        total_injections: phases.iter().map(|p| p.injection_count).sum(),
        phase_results: phases,
    }
}

fn state() -> AppState {
    AppState::new(WebConfig::default())
}

fn show(hex: fn(&mut String, u64), n: u64) -> String {
    let mut s = String::from("x");
    hex(&mut s, n);
    s
}

#[test]
fn numbers_are_appended_as_text() {
    assert_eq!(show(push_hex, 0), "x0");
    assert_eq!(show(push_hex, 255), "xff");
    assert_eq!(show(push_hex, 0xdead_beef), "xdeadbeef");
    assert_eq!(show(push_tenths, 805), "x80.5");
    assert_eq!(show(push_tenths, 7), "x0.7");
    assert_eq!(show(push_tenths, 1000), "x100.0");
    assert_eq!(show(push_hundredths, 6667), "x66.67");
    assert_eq!(show(push_hundredths, 10000), "x100.00");
    assert_eq!(show(push_hundredths, 5), "x0.05");
    assert_eq!(decimal(90), "90");
}

#[test]
fn moments_are_written_in_utc() {
    assert_eq!(utc_string(0, MINUTE_PATTERN), "1970-01-01 00:00");
    assert_eq!(utc_string(1_700_000_000_000, SECOND_PATTERN), "2023-11-14 22:13:20");
    assert_eq!(utc_string(1_700_000_000_999, STAMP_PATTERN), "20231114_221320");
    assert_eq!(utc_string(-1, SECOND_PATTERN), "1969-12-31 23:59:59");
    assert_eq!(utc_string(i64::MAX, SECOND_PATTERN), "");
    assert_eq!(utc_string(i64::MIN, SECOND_PATTERN), "");
    assert_eq!(utc_string(0, "%Q"), "");
    assert_eq!(utc_string(0, "on %A"), "on Thursday");
}

#[test]
fn success_rate_is_succeeded_over_attempted() {
    let r = result(vec![phase_result("a", 1, 5, 1), phase_result("b", 1, 3, 1)]);
    assert!(r.is_sound());
    assert_eq!(r.attempted(), 10);
    assert_eq!(r.succeeded(), 8);
    assert_eq!(r.success_ratio(), (8, 10));
    let (succeeded, attempted) = r.success_ratio();
    assert_eq!(succeeded as f64 / attempted as f64, 0.8);
    assert_eq!(r.success_ppm(), 800_000);
    assert_eq!(r.duration_secs(), 6);
}

#[test]
fn nothing_attempted_is_full_success() {
    let r = result(vec![]);
    assert!(r.is_sound());
    assert_eq!(r.success_ratio(), (1, 1));
    let (succeeded, attempted) = r.success_ratio();
    assert_eq!(succeeded as f64 / attempted as f64, 1.0);
    assert_eq!(r.success_ppm(), 1_000_000);
    let idle = result(vec![phase_result("a", 1, 0, 0)]);
    assert_eq!(idle.success_ratio(), (1, 1));
}

#[test]
fn unsound_results_are_told_apart() {
    let mut r = result(vec![phase_result("a", 1, 2, 1)]);
    r.total_injections = 4;
    assert!(!r.is_sound());
    let mut r = result(vec![phase_result("a", 1, 2, 1)]);
    r.phase_results[0].failed = 0;
    assert!(!r.is_sound());
    let mut r = result(vec![phase_result("a", 1, 2, 1)]);
    r.phase_results[0].succeeded = 9;
    assert!(!r.is_sound());
    assert_eq!(ratio_ppm(1, 3), 333_333);
    assert_eq!(ratio_ppm(2, 3), 666_666);
    assert_eq!(ratio_ppm(u64::MAX, u64::MAX), 1_000_000);
    assert_eq!(ratio_ppm(0, 7), 0);
}

#[test]
fn the_frame_holds_title_content_style_and_script() {
    let page = templates::base_layout("T", "<p>C</p>");
    assert!(page.starts_with("<!DOCTYPE html>\n<html lang=\"en\">"));
    assert!(page.contains("<title>T - Chaos Dashboard</title>"));
    assert!(page.contains("<main class=\"main-content\">\n        <p>C</p>\n    </main>"));
    assert!(page.contains(markup::CSS_STYLES));
    assert!(page.contains(markup::JS_SCRIPTS));
    assert!(page.ends_with("</body>\n</html>"));
    let expected = format!(
        "{}T{}{}{}<p>C</p>{}{}{}",
        markup::LAYOUT_OPEN,
        markup::LAYOUT_AFTER_TITLE,
        markup::CSS_STYLES,
        markup::LAYOUT_AFTER_CSS,
        markup::LAYOUT_AFTER_CONTENT,
        markup::JS_SCRIPTS,
        markup::LAYOUT_CLOSE
    );
    assert_eq!(page, expected);
}

#[test]
fn the_error_page_shows_title_and_message() {
    let page = templates::error_page("Not Found", "no such thing");
    assert!(page.contains("<title>Error - Chaos Dashboard</title>"));
    assert!(page.contains("<p class=\"empty-state-title\">Not Found</p>\n            <p>no such thing</p>"));
    assert!(page.contains("Back to Dashboard"));
}

#[test]
fn the_scenarios_page_lists_cards_or_says_there_are_none() {
    let none = templates::scenarios_page(&[]);
    assert!(none.contains("No scenarios found"));
    let page = templates::scenarios_page(&[info("a.yaml", "Alpha", Some("first")), info("b.yaml", "Beta", None)]);
    assert!(!page.contains("No scenarios found"));
    assert!(page.contains("onclick=\"window.location='/scenarios/a.yaml'\""));
    assert!(page.contains("<h3 class=\"scenario-name\">Alpha</h3>\n                    <p class=\"text-secondary\">first</p>"));
    assert!(page.contains("<p class=\"text-secondary\">No description</p>"));
    assert!(page.contains("3 phases</span>"));
    assert!(page.contains("runScenario('b.yaml')"));
    assert!(page.contains("</div>\n<div class=\"scenario-card\""));
    assert_eq!(page.matches("class=\"scenario-card\"").count(), 2);
}

#[test]
fn the_scenario_page_escapes_the_file_it_shows() {
    assert_eq!(templates::escape_markup("a < b > c & <<>>"), "a &lt; b &gt; c & &lt;&lt;&gt;&gt;");
    assert_eq!(templates::escape_markup(""), "");
    assert_eq!(templates::escape_markup("naïve ✓"), "naïve ✓");
    let phases = vec![
        PhaseInfo {
            name: "warmup".to_string(),
            duration: "10s".to_string(),
            injections: vec!["packet_loss".to_string(), "tcp_reset".to_string()],
        },
        PhaseInfo { name: "rest".to_string(), duration: "5s".to_string(), injections: vec![] },
    ];
    let page = templates::scenario_detail_page(&info("a.yaml", "Alpha", None), "name: <Alpha>", &phases);
    assert!(page.contains("<title>Alpha - Chaos Dashboard</title>"));
    assert!(page.contains("<code><pre>name: &lt;Alpha&gt;</pre></code>"));
    assert!(page.contains(
        "<span class=\"badge badge-info\">packet_loss</span> <span class=\"badge badge-info\">tcp_reset</span>"
    ));
    assert!(page.contains("<p class=\"timeline-content\">Duration: 10s</p>"));
    assert!(page.contains("<div class=\"mt-1\"></div>"));
    assert!(page.contains("<p class=\"page-subtitle\">No description</p>"));
}

fn running_status() -> TestStatus {
    TestStatus {
        is_running: true,
        scenario_name: Some("Alpha".to_string()),
        current_phase: None,
        progress_tenths: 333,
        elapsed_seconds: 20,
        total_seconds: 60,
        started_at_ms: Some(0),
    }
}

#[test]
fn the_run_page_shows_the_form_or_the_progress() {
    let idle = templates::run_page(&[info("a.yaml", "Alpha", None), info("b.yaml", "Beta", None)], &TestStatus::default());
    assert!(idle.contains("<option value=\"a.yaml\">Alpha (60s)</option>\n<option value=\"b.yaml\">Beta (60s)</option>"));
    assert!(idle.contains("Run New Test"));
    assert!(!idle.contains("Test in progress"));
    let busy = templates::run_page(&[info("a.yaml", "Alpha", None)], &running_status());
    assert!(busy.contains("<h2 class=\"card-title\">Current Test: Alpha</h2>"));
    assert!(busy.contains("<span id=\"current-phase\">Starting...</span>"));
    assert!(busy.contains("style=\"width: 33.3%\""));
    assert!(busy.contains("33.3% complete - 20 / 60 seconds elapsed"));
    assert!(!busy.contains("<option"));
    let mut unknown = running_status();
    unknown.scenario_name = None;
    unknown.current_phase = Some("ramp".to_string());
    let busy = templates::run_page(&[], &unknown);
    assert!(busy.contains("Current Test: Unknown"));
    assert!(busy.contains("<span id=\"current-phase\">ramp</span>"));
}

#[test]
fn the_results_page_shows_rate_class_and_time() {
    let none = templates::results_page(&[]);
    assert!(none.contains("No test results yet"));
    let page = templates::results_page(&[
        summary("good", 1_700_000_000_000, 900_000),
        summary("fair", 0, 899_999),
        summary("poor", 0, 699_449),
    ]);
    assert!(page.contains("<td><span class=\"badge badge-success\">90.0%</span></td>"));
    assert!(page.contains("<td><span class=\"badge badge-warning\">90.0%</span></td>"));
    assert!(page.contains("<td><span class=\"badge badge-danger\">69.9%</span></td>"));
    assert!(page.contains("<td>2023-11-14 22:13:20</td>"));
    assert!(page.contains("<td>1970-01-01 00:00:00</td>"));
    assert!(page.contains("<td>42s</td>"));
    assert!(page.contains("<a href=\"/results/fair\" class=\"btn btn-secondary btn-sm\">View</a>"));
    assert_eq!(
        templates::result_row(&summary("x", 0, 700_000), "then"),
        format!(
            "{}x{}scenario x{}badge-warning{}70.0{}42{}then{}x{}",
            markup::RESULT_ROW_OPEN,
            markup::RESULT_ROW_AFTER_ID,
            markup::RESULT_ROW_AFTER_SCENARIO,
            markup::RESULT_ROW_AFTER_CLASS,
            markup::RESULT_ROW_AFTER_RATE,
            markup::RESULT_ROW_AFTER_DURATION,
            markup::RESULT_ROW_AFTER_TIME,
            markup::RESULT_ROW_CLOSE
        )
    );
}

#[test]
fn the_result_page_shows_the_timeline() {
    let r = result(vec![phase_result("loss", 3_000, 1, 0), phase_result("cpu", 3_500, 1, 1)]);
    let page = templates::result_detail_page(&r);
    assert!(page.contains("<title>Network Chaos - Chaos Dashboard</title>"));
    assert!(page.contains("<span class=\"stat-value\">6s</span>"));
    assert!(page.contains("<span class=\"stat-value text-danger\">66.7%</span>"));
    assert!(page.contains("<p class=\"timeline-content\">Duration: 3s | Injections: 1</p>"));
    assert!(page.contains("<p class=\"timeline-content\">Duration: 3.5s | Injections: 2</p>"));
}

#[test]
fn the_dashboard_shows_five_results_at_most() {
    let results: Vec<ResultSummary> =
        (0..7).map(|i| summary(&format!("r{}", i), 60_000 * i, 1_000_000)).collect();
    let page = templates::dashboard_page(12, 7, &results, &TestStatus::default());
    assert!(page.contains("<span class=\"stat-value\">12</span>"));
    assert!(page.contains("<span class=\"stat-value\">7</span>\n                <span class=\"stat-label\">Test Results</span>"));
    assert!(page.contains("<span class=\"badge badge-neutral\">Idle</span>"));
    assert_eq!(page.matches("<tr onclick=\"window.location='/results/").count(), 5);
    assert!(page.contains("/results/r4'"));
    assert!(!page.contains("/results/r5'"));
    assert!(page.contains("<td class=\"text-success\">100.0%</td>"));
    assert!(page.contains("<td>1970-01-01 00:04</td>"));
    assert!(!page.contains("Test In Progress"));
    let busy = templates::dashboard_page(0, 0, &[], &running_status());
    assert!(busy.contains("Test In Progress"));
    assert!(busy.contains("<p class=\"mb-2\"><strong>Scenario:</strong> Alpha</p>"));
    assert!(busy.contains("33.3% complete - 20 / 60 seconds</p>"));
    assert!(busy.contains("<span class=\"live-dot\"></span> Running</span>"));
    assert!(busy.contains("No test results yet"));
    assert_eq!(
        templates::recent_row(&summary("x", 0, 0), "now"),
        format!(
            "{}x{}scenario x{}text-danger{}0.0{}42{}now{}",
            markup::RECENT_ROW_OPEN,
            markup::RECENT_ROW_AFTER_ID,
            markup::RECENT_ROW_AFTER_SCENARIO,
            markup::RECENT_ROW_AFTER_CLASS,
            markup::RECENT_ROW_AFTER_RATE,
            markup::RECENT_ROW_AFTER_DURATION,
            markup::RECENT_ROW_CLOSE
        )
    );
}

#[test]
fn the_load_test_page_shows_the_form_or_the_figures() {
    let targets = vec![custom("1", "api", None), custom("2", "web", Some("front"))];
    let idle = templates::load_test_page(&targets, false, &LoadTestMetrics::default());
    assert!(idle.contains("Or select from saved targets:"));
    assert!(idle.contains("<option value=\"http://api.test\">api (http)</option>\n<option value=\"http://web.test\">web (http)</option>"));
    let bare = templates::load_test_page(&[], false, &LoadTestMetrics::default());
    assert!(!bare.contains("Or select from saved targets:"));
    assert!(bare.contains("Configure Load Test"));
    let figures = LoadTestMetrics {
        total_requests: 1200,
        successful_requests: 1100,
        failed_requests: 100,
        total_bytes: 0,
        min_latency_us: 900,
        max_latency_us: 250_000,
        avg_latency_us: 12_345,
        p50_latency_us: 10_000,
        p95_latency_us: 99_950,
        p99_latency_us: 249_949,
        requests_per_second_tenths: 1234,
        errors: vec![],
    };
    let busy = templates::load_test_page(&targets, true, &figures);
    assert!(busy.contains("Load test in progress"));
    assert!(busy.contains("<span class=\"stat-value\">1200</span>"));
    assert!(busy.contains("<span class=\"stat-value\">123.4</span>"));
    assert!(busy.contains("<span class=\"stat-value\">12.3ms</span>"));
    assert!(busy.contains("<span class=\"stat-value\">100.0ms</span>"));
    assert!(busy.contains("<span class=\"stat-value\">249.9ms</span>"));
    assert!(!busy.contains("Configure Load Test"));
}

#[test]
fn the_targets_page_lists_rows_or_says_there_are_none() {
    let none = templates::targets_page(&[]);
    assert!(none.contains("No targets configured"));
    let page = templates::targets_page(&[custom("7f", "api", None), custom("80", "web", Some("front"))]);
    assert!(page.contains("<td><strong>api</strong></td>"));
    assert!(page.contains("<td><code>http://web.test</code></td>\n                    <td>front</td>"));
    assert!(page.contains("<td>-</td>"));
    assert!(page.contains("onclick=\"deleteTarget('7f')\""));
    assert!(!page.contains("No targets configured"));
}

#[test]
fn the_state_keeps_the_latest_fifty_results() {
    let mut s = state();
    for i in 0..60 {
        s.add_result(summary(&format!("r{}", i), i, 0));
    }
    let kept = s.get_recent_results();
    assert_eq!(kept.len(), 50);
    assert_eq!(kept[0].id, "r59");
    assert_eq!(kept[49].id, "r10");
}

#[test]
fn the_status_follows_the_run() {
    let mut s = state();
    assert_eq!(s.config.port, 8080);
    assert_eq!(s.config.host, "127.0.0.1");
    assert_eq!(s.config.scenarios_dir, "scenarios");
    assert_eq!(s.config.results_dir, "test_results");
    assert!(!s.get_status().is_running);
    // Nothing runs: asking for a stop changes nothing.
    s.request_stop();
    assert!(!s.should_stop());
    s.set_running("Alpha".to_string(), 60, 1234);
    assert!(!s.should_stop());
    let status = s.get_status();
    assert!(status.is_running);
    assert_eq!(status.scenario_name.as_deref(), Some("Alpha"));
    assert_eq!(status.total_seconds, 60);
    assert_eq!(status.started_at_ms, Some(1234));
    s.update_progress("ramp", 20);
    let status = s.get_status();
    assert_eq!(status.current_phase.as_deref(), Some("ramp"));
    assert_eq!(status.elapsed_seconds, 20);
    assert_eq!(status.progress_tenths, 333);
    s.update_progress("ramp", 40);
    assert_eq!(s.get_status().progress_tenths, 667);
    s.update_progress("over", 90);
    assert_eq!(s.get_status().progress_tenths, 1500);
    s.request_stop();
    s.request_stop();
    assert!(s.should_stop());
    s.set_stopped();
    let status = s.get_status();
    assert!(!status.is_running);
    assert_eq!(status.current_phase, None);
    assert_eq!(status.scenario_name.as_deref(), Some("Alpha"));
    let mut fresh = state();
    fresh.update_progress("p", 5);
    assert_eq!(fresh.get_status().progress_tenths, 0);
    fresh.update_status(status);
    assert_eq!(fresh.get_status().scenario_name.as_deref(), Some("Alpha"));
}

fn refusal(answer: Result<RunResponse, ApiError>) -> (u16, String) {
    match answer {
        Err(e) => (e.status, e.message),
        Ok(r) => panic!("accepted: {}", r.message),
    }
}

fn acceptance(answer: Result<RunResponse, ApiError>) -> String {
    match answer {
        Ok(r) => {
            assert!(r.success);
            r.message
        }
        Err(e) => panic!("refused: {}", e.message),
    }
}

#[test]
fn a_second_run_is_refused_while_one_is_in_progress() {
    let mut s = state();
    assert_eq!(refusal(api::stop_test(&mut s)), (400, "No test is currently running".to_string()));
    assert_eq!(acceptance(api::run_scenario(&mut s, "Alpha", 60, 99)), "Started test: Alpha");
    s.update_progress("ramp", 10);
    assert_eq!(
        refusal(api::run_scenario(&mut s, "Beta", 5, 100)),
        (409, "A test is already running".to_string())
    );
    let status = api::get_status(&s);
    assert_eq!(status.scenario_name.as_deref(), Some("Alpha"));
    assert_eq!(status.total_seconds, 60);
    assert_eq!(status.elapsed_seconds, 10);
    assert_eq!(status.started_at_ms, Some(99));
    assert_eq!(acceptance(api::stop_test(&mut s)), "Test stopped");
    assert!(s.should_stop());
    // The run counts as running until it has marked its own end, and no
    // other run is let in before that.
    let status = api::get_status(&s);
    assert!(status.is_running);
    assert_eq!(status.current_phase.as_deref(), Some("ramp"));
    assert_eq!(
        refusal(api::run_scenario(&mut s, "Beta", 5, 100)),
        (409, "A test is already running".to_string())
    );
    assert!(s.should_stop());
    assert_eq!(acceptance(api::stop_test(&mut s)), "Test stopped");
    assert!(s.should_stop());
    s.set_stopped();
    assert!(!s.get_status().is_running);
    assert_eq!(refusal(api::stop_test(&mut s)), (400, "No test is currently running".to_string()));
    assert_eq!(acceptance(api::run_scenario(&mut s, "Beta", 5, 100)), "Started test: Beta");
    assert!(!s.should_stop());
}

#[test]
fn load_tests_start_and_stop_once() {
    let mut s = state();
    assert_eq!(refusal(api::stop_load_test(&mut s)), (400, "No load test is running".to_string()));
    assert_eq!(acceptance(api::start_load_test(&mut s, LoadTestConfig::default(), 5)), "Load test started");
    assert!(s.load_test_state.is_running);
    assert_eq!(s.load_test_state.start_time_ms, Some(5));
    assert_eq!(
        refusal(api::start_load_test(&mut s, LoadTestConfig::default(), 6)),
        (409, "A load test is already running".to_string())
    );
    assert_eq!(s.load_test_state.start_time_ms, Some(5));
    assert_eq!(acceptance(api::stop_load_test(&mut s)), "Load test stopping");
    assert!(s.load_test_state.should_stop);
}

#[test]
fn targets_are_added_and_deleted_by_identifier() {
    let mut s = state();
    assert_eq!(api::uuid_simple(0x65_53_f1_00, 0x0bad_cafe), "6553f100badcafe");
    assert_eq!(api::uuid_simple(0, 0), "00");
    let request = |name: &str| AddTargetRequest {
        name: name.to_string(),
        target_type: "http".to_string(),
        url: "http://x".to_string(),
        description: None,
    };
    let added = api::add_target(&mut s, request("one"), "a1".to_string(), 77);
    assert_eq!((added.id.as_str(), added.name.as_str(), added.created_at_ms), ("a1", "one", 77));
    api::add_target(&mut s, request("two"), "b2".to_string(), 78);
    api::add_target(&mut s, request("three"), "a1".to_string(), 79);
    assert_eq!(s.list_targets().len(), 3);
    assert_eq!(refusal(api::delete_target(&mut s, "zz")), (404, "Target not found".to_string()));
    assert_eq!(s.list_targets().len(), 3);
    assert_eq!(acceptance(api::delete_target(&mut s, "a1")), "Target deleted");
    let left = s.list_targets();
    assert_eq!(left.len(), 1);
    assert_eq!(left[0].name, "two");
    let health = api::health_check("1.2.3");
    assert_eq!((health.status.as_str(), health.version.as_str()), ("ok", "1.2.3"));
}

#[test]
fn result_identifiers_are_made_of_name_and_stamp() {
    assert_eq!(api::underscore("Network  Chaos Test"), "Network__Chaos_Test");
    assert_eq!(api::result_id("Network Chaos TEST", 1_700_000_000_000), "network_chaos_test_20231114_221320");
    assert_eq!(api::result_id("ÄÖ x", 0), "äö_x_19700101_000000");
    assert_eq!(api::result_id_from("a", "b"), "a_b");
    assert_eq!(api::result_file_name("network_1"), "network_1.json");
    let r = result(vec![phase_result("a", 1, 3, 1)]);
    let s = api::summarize_result(&r, "id".to_string(), "dir/id.json".to_string());
    assert_eq!(s.id, "id");
    assert_eq!(s.file_path, "dir/id.json");
    assert_eq!(s.scenario_name, "Network Chaos");
    assert_eq!(s.timestamp_ms, 1_700_000_000_000);
    assert_eq!(s.success_ppm, 750_000);
    assert_eq!(s.total_duration_secs, 6);
}

#[test]
fn stored_results_are_merged_and_the_latest_comes_first() {
    let mut s = state();
    s.add_result(summary("b", 20, 0));
    s.add_result(summary("a", 10, 0));
    let stored = vec![summary("c", 30, 0), summary("a", 99, 0), summary("d", 20, 0), summary("c", 1, 0)];
    let listed = handlers::list_results(&s, stored);
    let ids: Vec<&str> = listed.iter().map(|r| r.id.as_str()).collect();
    assert_eq!(ids, vec!["c", "b", "d", "a"]);
    assert_eq!(listed[0].timestamp_ms, 30);
    let mut list = vec![summary("x", 1, 0)];
    assert!(!api::add_stored_result(&mut list, summary("x", 2, 0)));
    assert!(api::add_stored_result(&mut list, summary("y", 2, 0)));
    assert_eq!(list.len(), 2);
    let sorted = api::sort_newest_first(vec![summary("1", 5, 0), summary("2", 7, 0), summary("3", 5, 0), summary("4", 9, 0)]);
    let ids: Vec<&str> = sorted.iter().map(|r| r.id.as_str()).collect();
    assert_eq!(ids, vec!["4", "2", "1", "3"]);
    let page = handlers::results_page(&s, vec![summary("late", 1_700_000_000_000, 0)]);
    let late = page.find("/results/late'").expect("listed");
    let early = page.find("/results/a'").expect("listed");
    assert!(late < early);
}

fn small_scenario() -> Scenario {
    let inj = |kind: InjectorKind| Injection {
        kind,
        target: Target { capability: kind.capability(), selector: "t".to_string() },
        duration_ms: None,
        magnitude: None,
        probability_ppm: None,
        interval_ms: None,
    };
    Scenario {
        name: "Small".to_string(),
        description: Some("two phases".to_string()),
        duration_ms: 61_999,
        phases: vec![
            Phase {
                name: "one".to_string(),
                duration_ms: 30_000,
                injections: vec![inj(InjectorKind::TcpReset), inj(InjectorKind::ProcessKill)],
                mode: SchedulingMode::Sequential,
            },
            Phase {
                name: "two".to_string(),
                duration_ms: 31_500,
                injections: vec![],
                mode: SchedulingMode::Concurrent,
            },
        ],
    }
}

#[test]
fn scenarios_are_told_of_as_they_are() {
    let s = small_scenario();
    let response = api::get_scenario("small.yaml", &s);
    assert_eq!(response.file_name, "small.yaml");
    assert_eq!(response.name, "Small");
    assert_eq!(response.description.as_deref(), Some("two phases"));
    assert_eq!(response.duration_secs, 61);
    assert_eq!(response.phase_count, 2);
    assert_eq!(response.phases[0].name, "one");
    assert_eq!(response.phases[0].duration_secs, 30);
    assert_eq!(response.phases[0].injections, vec!["tcp_reset", "process_kill"]);
    assert_eq!(response.phases[1].duration_secs, 31);
    assert!(response.phases[1].injections.is_empty());
    let info = handlers::scenario_info("small.yaml", &s);
    assert_eq!((info.name.as_str(), info.duration.as_str(), info.phase_count), ("Small", "61s", 2));
    let phases = handlers::phase_infos(&s);
    assert_eq!(phases[1].duration, "31s");
    assert_eq!(phases[0].injections, vec!["tcp_reset", "process_kill"]);
    let mut st = state();
    let total = s.duration_ms;
    assert_eq!(api::update_progress(&mut st, &s.phases, total, 7, 29_999), 0);
    assert_eq!(st.get_status().current_phase.as_deref(), Some("one"));
    assert_eq!(st.get_status().elapsed_seconds, 29);
    assert_eq!(api::update_progress(&mut st, &s.phases, total, 0, 30_000), 1);
    assert_eq!(st.get_status().current_phase.as_deref(), Some("two"));
    // The phases end before the total: the phase shown before stays.
    assert_eq!(api::update_progress(&mut st, &s.phases, total, 1, 61_600), 1);
    assert_eq!(st.get_status().elapsed_seconds, 61);
    assert_eq!(api::update_progress(&mut st, &s.phases, total, 9, 61_700), 9);
    assert_eq!(st.get_status().elapsed_seconds, 61);
    // At the total nothing is noted any more.
    assert_eq!(api::update_progress(&mut st, &s.phases, total, 0, 30_500), 1);
    assert_eq!(st.get_status().elapsed_seconds, 30);
    assert_eq!(api::update_progress(&mut st, &s.phases, total, 1, 61_999), 1);
    assert_eq!(api::update_progress(&mut st, &s.phases, total, 1, 70_000), 1);
    assert_eq!(st.get_status().elapsed_seconds, 30);
    assert_eq!(st.get_status().current_phase.as_deref(), Some("two"));
}

fn timed(name: &str, duration_ms: u64) -> Phase {
    Phase { name: name.to_string(), duration_ms, injections: vec![], mode: SchedulingMode::Sequential }
}

#[test]
fn progress_never_shows_a_phase_that_does_not_run() {
    let phases = vec![timed("a", 10_000), timed("b", 5_000)];
    let mut st = state();
    assert_eq!(api::update_progress(&mut st, &phases, 10_000, 0, 9_999), 0);
    assert_eq!(st.get_status().current_phase.as_deref(), Some("a"));
    assert_eq!(st.get_status().elapsed_seconds, 9);
    for elapsed in [10_000u64, 10_001, 12_000, 15_000, u64::MAX] {
        assert_eq!(api::update_progress(&mut st, &phases, 10_000, 0, elapsed), 0);
        assert_eq!(st.get_status().current_phase.as_deref(), Some("a"));
        assert_eq!(st.get_status().elapsed_seconds, 9);
    }
}

#[test]
fn progress_is_never_noted_at_the_total() {
    let phases = vec![timed("a", 6_000), timed("b", 6_000)];
    let mut st = state();
    assert_eq!(api::update_progress(&mut st, &phases, 10_000, 0, 5_999), 0);
    assert_eq!(api::update_progress(&mut st, &phases, 10_000, 0, 6_000), 1);
    assert_eq!(api::update_progress(&mut st, &phases, 10_000, 1, 9_999), 1);
    assert_eq!(st.get_status().current_phase.as_deref(), Some("b"));
    assert_eq!(st.get_status().elapsed_seconds, 9);
    assert_eq!(api::update_progress(&mut st, &phases, 10_000, 1, 10_000), 1);
    assert_eq!(st.get_status().elapsed_seconds, 9);
    assert_eq!(api::update_progress(&mut st, &phases, 0, 4, 0), 4);
    assert_eq!(st.get_status().elapsed_seconds, 9);
}

#[test]
fn progress_is_not_noted_once_a_stop_is_asked_for() {
    let phases = vec![timed("a", 6_000), timed("b", 6_000)];
    let mut st = state();
    st.set_running("s".to_string(), 12, 0);
    assert_eq!(api::update_progress(&mut st, &phases, 12_000, 0, 1_000), 0);
    assert_eq!(st.get_status().elapsed_seconds, 1);
    assert_eq!(acceptance(api::stop_test(&mut st)), "Test stopped");
    assert_eq!(api::update_progress(&mut st, &phases, 12_000, 0, 7_000), 0);
    assert_eq!(st.get_status().elapsed_seconds, 1);
    assert_eq!(st.get_status().current_phase.as_deref(), Some("a"));
    assert_eq!(st.get_status().progress_tenths, 83);
}

#[test]
fn stored_phases_without_counts_have_succeeded_in_all() {
    assert_eq!(stored_counts(5, None, None), (5, 0));
    assert_eq!(stored_counts(0, None, None), (0, 0));
    assert_eq!(stored_counts(5, Some(3), None), (3, 2));
    assert_eq!(stored_counts(5, Some(9), None), (9, 0));
    assert_eq!(stored_counts(5, None, Some(2)), (5, 2));
    assert_eq!(stored_counts(5, Some(3), Some(1)), (3, 1));
    assert_eq!(stored_counts(u64::MAX, None, None), (u64::MAX, 0));
    assert_eq!(counts_to_store(5, 5, 0), (None, None));
    assert_eq!(counts_to_store(5, 3, 2), (Some(3), Some(2)));
    assert_eq!(counts_to_store(0, 0, 0), (None, None));
    for (n, s, f) in [(5u64, 5u64, 0u64), (5, 3, 2), (5, 0, 5), (0, 0, 0), (4, 9, 1)] {
        let (kept_s, kept_f) = counts_to_store(n, s, f);
        assert_eq!(stored_counts(n, kept_s, kept_f), (s, f));
    }
}

#[test]
fn scenarios_are_listed_by_name() {
    let named = |name: &str| {
        let mut s = small_scenario();
        s.name = name.to_string();
        s
    };
    let files = vec![
        ("z.yaml".to_string(), named("beta")),
        ("y.yaml".to_string(), named("alpha")),
        ("x.yaml".to_string(), named("Gamma")),
        ("w.yaml".to_string(), named("alpha")),
    ];
    let listed = api::list_scenarios(&files);
    let order: Vec<(&str, &str)> =
        listed.iter().map(|r| (r.name.as_str(), r.file_name.as_str())).collect();
    assert_eq!(
        order,
        vec![("Gamma", "x.yaml"), ("alpha", "y.yaml"), ("alpha", "w.yaml"), ("beta", "z.yaml")]
    );
    assert_eq!(listed[0].phase_count, 2);
    assert!(api::list_scenarios(&vec![]).is_empty());
}

#[test]
fn pages_answer_for_what_was_found() {
    let found = Loaded::Found { value: small_scenario() };
    let page = handlers::scenario_detail("small.yaml", "name: Small", &found);
    assert!(page.contains("<h1 class=\"page-title\">Small</h1>"));
    assert!(page.contains("runScenario('small.yaml')"));
    assert!(page.contains("Duration: 30s"));
    let missing: Loaded<Scenario> = Loaded::Missing { cause: "No such file".to_string() };
    let page = handlers::scenario_detail("gone.yaml", "", &missing);
    assert_eq!(page, templates::error_page("Not Found", "Scenario 'gone.yaml' not found: No such file"));
    let invalid: Loaded<Scenario> = Loaded::Invalid { cause: "bad indent".to_string() };
    let page = handlers::scenario_detail("bad.yaml", "", &invalid);
    assert_eq!(page, templates::error_page("Parse Error", "bad indent"));
    let r = Loaded::Found { value: result(vec![phase_result("a", 250, 1, 0)]) };
    assert!(handlers::result_detail("r1", &r).contains("Duration: 250ms | Injections: 1"));
    let gone: Loaded<ScenarioResult> = Loaded::Missing { cause: "nope".to_string() };
    assert_eq!(
        handlers::result_detail("r1", &gone),
        templates::error_page("Not Found", "Result 'r1' not found: nope")
    );
    let mut st = state();
    st.add_result(summary("a", 0, 1_000_000));
    let scenarios = vec![info("a.yaml", "Alpha", None)];
    assert_eq!(
        handlers::dashboard(&st, &scenarios),
        templates::dashboard_page(1, 1, &st.get_recent_results(), &st.get_status())
    );
    assert_eq!(handlers::run_page(&st, &scenarios), templates::run_page(&scenarios, &st.get_status()));
    assert_eq!(handlers::targets_page(&st), templates::targets_page(&[]));
    assert_eq!(
        handlers::load_test_page(&st),
        templates::load_test_page(&[], false, &LoadTestMetrics::default())
    );
}

#[test]
fn scenarios_are_sorted_by_name() {
    let sorted = handlers::sort_by_name(vec![
        info("1", "beta", None),
        info("2", "Alpha", None),
        info("3", "alpha", None),
        info("4", "", None),
        info("5", "alphabet", None),
        info("6", "alpha", None),
        info("7", "émile", None),
    ]);
    let order: Vec<(&str, &str)> =
        sorted.iter().map(|s| (s.file_name.as_str(), s.name.as_str())).collect();
    assert_eq!(
        order,
        vec![
            ("4", ""),
            ("2", "Alpha"),
            ("3", "alpha"),
            ("6", "alpha"),
            ("5", "alphabet"),
            ("1", "beta"),
            ("7", "émile"),
        ]
    );
}

#[test]
fn load_test_figures_are_drawn_from_sorted_latencies() {
    let sorted: Vec<u64> = (1..=100).map(|i| i * 1000).collect();
    assert_eq!(percentile(&sorted, 50), 50_000);
    assert_eq!(percentile(&sorted, 95), 95_000);
    assert_eq!(percentile(&sorted, 99), 99_000);
    assert_eq!(percentile(&sorted, 100), 100_000);
    assert_eq!(percentile(&sorted, 101), 100_000);
    assert_eq!(percentile(&sorted, u64::MAX), 100_000);
    assert_eq!(percentile(&vec![3, 1, 2], 50), 1);
    assert_eq!(percentile(&sorted, 0), 1_000);
    assert_eq!(percentile(&vec![], 50), 0);
    assert_eq!(percentile(&vec![7], 99), 7);
    assert_eq!(mean(&sorted), 50_500);
    assert_eq!(mean(&vec![]), 0);
    assert_eq!(mean(&vec![u64::MAX, u64::MAX]), u64::MAX);
    assert_eq!(request_rate_tenths(100, Some(2_000)), 500);
    assert_eq!(request_rate_tenths(1, Some(3_000)), 3);
    assert_eq!(request_rate_tenths(5, None), 50);
    assert_eq!(request_rate_tenths(5, Some(0)), 0);
    assert_eq!(request_rate_tenths(u64::MAX, Some(1)), u64::MAX);
    let m = summarize(&sorted, 120, 100, 20, Some(10_000));
    assert_eq!((m.total_requests, m.successful_requests, m.failed_requests), (120, 100, 20));
    assert_eq!((m.min_latency_us, m.max_latency_us, m.avg_latency_us), (1_000, 100_000, 50_500));
    assert_eq!(m.requests_per_second_tenths, 120);
}

#[test]
fn a_load_test_counts_and_sorts_what_it_sees() {
    let mut s = LoadTestState::new();
    s.begin(LoadTestConfig::default(), 1_000);
    assert!(s.is_running);
    for latency_us in [30_000u64, 10_000, 20_000] {
        s.record(ResponseOutcome::Answered { latency_us, success: true });
    }
    s.record(ResponseOutcome::Answered { latency_us: 5_000, success: false });
    s.record(ResponseOutcome::Unanswered);
    assert_eq!((s.total_requests, s.successful_requests, s.failed_requests), (5, 3, 2));
    assert_eq!(s.latencies, vec![30_000, 10_000, 20_000, 5_000]);
    s.update_metrics(3_000);
    assert_eq!(s.metrics.min_latency_us, 5_000);
    assert_eq!(s.metrics.max_latency_us, 30_000);
    assert_eq!(s.metrics.p50_latency_us, 10_000);
    assert_eq!(s.metrics.p99_latency_us, 20_000);
    assert_eq!(s.metrics.avg_latency_us, 16_250);
    assert_eq!(s.metrics.requests_per_second_tenths, 25);
    assert_eq!(s.latencies, vec![30_000, 10_000, 20_000, 5_000]);
    assert!(s.should_continue(59_999, 60));
    assert!(!s.should_continue(60_000, 60));
    s.should_stop = true;
    assert!(!s.should_continue(0, 60));
    s.reset();
    assert_eq!((s.total_requests, s.successful_requests, s.failed_requests), (0, 0, 0));
    assert_eq!(s.latencies.len(), 4);
}

#[test]
fn a_load_test_is_paced_by_its_configuration() {
    let mut c = LoadTestConfig::default();
    assert_eq!(c.name, "New Load Test");
    assert_eq!(c.target_type, TargetType::Http);
    assert_eq!(c.url, "http://localhost:3000");
    assert_eq!((c.concurrent_users, c.requests_per_second, c.duration_secs, c.timeout_ms), (10, 100, 60, 5000));
    assert_eq!(c.ramp_up_secs, Some(10));
    assert_eq!(c.http_method(), HttpMethod::Get);
    assert_eq!(c.request_delay_us(), 10_000);
    assert_eq!(c.desired_users(0), 0);
    assert_eq!(c.desired_users(999), 0);
    assert_eq!(c.desired_users(1_000), 1);
    assert_eq!(c.desired_users(5_500), 5);
    assert_eq!(c.desired_users(10_000), 10);
    assert_eq!(c.desired_users(u64::MAX), 10);
    c.ramp_up_secs = None;
    assert_eq!(c.desired_users(0), 10);
    c.ramp_up_secs = Some(0);
    assert_eq!(c.desired_users(0), 10);
    c.requests_per_second = 0;
    assert_eq!(c.request_delay_us(), 10_000);
    c.requests_per_second = 3;
    assert_eq!(c.request_delay_us(), 333_333);
    for (name, method) in [
        ("POST", HttpMethod::Post),
        ("PUT", HttpMethod::Put),
        ("DELETE", HttpMethod::Delete),
        ("PATCH", HttpMethod::Patch),
        ("post", HttpMethod::Get),
        ("HEAD", HttpMethod::Get),
    ] {
        c.method = Some(name.to_string());
        assert_eq!(c.http_method(), method);
    }
    c.method = None;
    assert_eq!(c.http_method(), HttpMethod::Get);
}

#[test]
fn reports_are_written_in_markdown_and_html() {
    let r = result(vec![phase_result("loss", 3_000, 1, 0), phase_result("cpu", 3_500, 1, 1)]);
    let expected = "# Chaos Test Report: Network Chaos\n\n## Summary\n\n- **Total Duration**: 6.5s\n- **Total Injections**: 3\n- **Success Rate**: 66.67%\n\n## Phase Results\n\n- **loss**: 3s (1 injections)\n- **cpu**: 3.5s (2 injections)\n\n## Conclusion\n\nTest completed successfully.\n";
    assert_eq!(generate_markdown_report(&r), expected);
    let html = generate_html_report(&r, "2024-01-01 12:00:00");
    assert!(html.contains("<title>Chaos Test Report - Network Chaos</title>"));
    assert!(html.contains("<div class=\"stat-value\">6s</div>"));
    assert!(html.contains("<div class=\"stat-value danger\">66.7%</div>"));
    assert!(html.contains("<td><strong>cpu</strong></td>\n                    <td>3.5s</td>\n                    <td>2</td>"));
    assert!(html.contains("2024-01-01 12:00:00</p>"));
    assert!(html.contains("box-sizing: border-box;\n        }"));
    let all = result(vec![phase_result("a", 1, 9, 1)]);
    assert!(generate_html_report(&all, "").contains("<div class=\"stat-value success\">90.0%</div>"));
    let some = result(vec![phase_result("a", 1, 7, 3)]);
    assert!(generate_html_report(&some, "").contains("<div class=\"stat-value warning\">70.0%</div>"));
    assert_eq!(ReportFormat::parse("cli"), Ok(ReportFormat::Cli));
    assert_eq!(ReportFormat::parse("json"), Ok(ReportFormat::Json));
    assert_eq!(ReportFormat::parse("markdown"), Ok(ReportFormat::Markdown));
    assert_eq!(ReportFormat::parse("html"), Ok(ReportFormat::Html));
    assert_eq!(ReportFormat::parse("pdf"), Err("Unknown format: pdf".to_string()));
}
