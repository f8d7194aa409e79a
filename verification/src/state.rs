//! The state shared between a run and those who watch it: what is running,
//! how far it is, whether a stop was asked for, and the latest results.
//!
//! The state is one owned value. Whoever shares it puts it behind a lock and
//! holds the lock for one call at a time.

use crate::load_test::LoadTestState;
use vstd::prelude::*;
use vstd::string::StringExecFns;

verus! {

/// How many results are kept in memory; older ones are dropped.
pub const RECENT_RESULTS_CAP: usize = 50;

/// Where the dashboard listens and where it finds its files.
#[derive(Debug)]
pub struct WebConfig {
    /// Port to listen on.
    pub port: u16,
    /// Host to bind to.
    pub host: String,
    /// Directory that holds the scenario files.
    pub scenarios_dir: String,
    /// Directory that receives the results.
    pub results_dir: String,
}

impl Default for WebConfig {
    fn default() -> (config: Self)
        ensures
            config.port == 8080,
            config.host@ == "127.0.0.1"@,
            config.scenarios_dir@ == "scenarios"@,
            config.results_dir@ == "test_results"@,
    {
        WebConfig {
            port: 8080,
            host: String::from_str("127.0.0.1"),
            scenarios_dir: String::from_str("scenarios"),
            results_dir: String::from_str("test_results"),
        }
    }
}

impl Clone for WebConfig {
    fn clone(&self) -> (copy: Self)
        ensures
            copy == *self,
    {
        WebConfig {
            port: self.port,
            host: self.host.clone(),
            scenarios_dir: self.scenarios_dir.clone(),
            results_dir: self.results_dir.clone(),
        }
    }
}

/// A snapshot of the run in progress, if there is one.
#[derive(Debug)]
pub struct TestStatus {
    pub is_running: bool,
    pub scenario_name: Option<String>,
    pub current_phase: Option<String>,
    /// Progress in tenths of a percent.
    pub progress_tenths: u64,
    pub elapsed_seconds: u64,
    pub total_seconds: u64,
    /// When the run began, in milliseconds since the Unix epoch.
    pub started_at_ms: Option<i64>,
}

impl TestStatus {
    /// Nothing runs, nothing is known.
    pub open spec fn idle() -> TestStatus {
        TestStatus {
            is_running: false,
            scenario_name: None,
            current_phase: None,
            progress_tenths: 0,
            elapsed_seconds: 0,
            total_seconds: 0,
            started_at_ms: None,
        }
    }
}

impl Default for TestStatus {
    fn default() -> (status: Self)
        ensures
            status == TestStatus::idle(),
    {
        TestStatus {
            is_running: false,
            scenario_name: None,
            current_phase: None,
            progress_tenths: 0,
            elapsed_seconds: 0,
            total_seconds: 0,
            started_at_ms: None,
        }
    }
}

impl Clone for TestStatus {
    fn clone(&self) -> (copy: Self)
        ensures
            copy == *self,
    {
        TestStatus {
            is_running: self.is_running,
            scenario_name: copy_optional(&self.scenario_name),
            current_phase: copy_optional(&self.current_phase),
            progress_tenths: self.progress_tenths,
            elapsed_seconds: self.elapsed_seconds,
            total_seconds: self.total_seconds,
            started_at_ms: self.started_at_ms,
        }
    }
}

/// A copy of an optional string.
pub fn copy_optional(s: &Option<String>) -> (copy: Option<String>)
    ensures
        copy == *s,
{
    match s {
        Some(t) => Some(t.clone()),
        None => None,
    }
}

/// A target for load tests that a user has added.
#[derive(Debug)]
pub struct CustomTarget {
    pub id: String,
    pub name: String,
    pub target_type: String,
    pub url: String,
    pub description: Option<String>,
    /// When the target was added, in milliseconds since the Unix epoch.
    pub created_at_ms: i64,
}

impl Clone for CustomTarget {
    fn clone(&self) -> (copy: Self)
        ensures
            copy == *self,
    {
        CustomTarget {
            id: self.id.clone(),
            name: self.name.clone(),
            target_type: self.target_type.clone(),
            url: self.url.clone(),
            description: copy_optional(&self.description),
            created_at_ms: self.created_at_ms,
        }
    }
}

/// One line of a list of results.
#[derive(Debug)]
pub struct ResultSummary {
    pub id: String,
    pub scenario_name: String,
    /// When the run began, in milliseconds since the Unix epoch.
    pub timestamp_ms: i64,
    /// The success rate in parts per million.
    pub success_ppm: u64,
    pub total_duration_secs: u64,
    pub file_path: String,
}

impl Clone for ResultSummary {
    fn clone(&self) -> (copy: Self)
        ensures
            copy == *self,
    {
        ResultSummary {
            id: self.id.clone(),
            scenario_name: self.scenario_name.clone(),
            timestamp_ms: self.timestamp_ms,
            success_ppm: self.success_ppm,
            total_duration_secs: self.total_duration_secs,
            file_path: self.file_path.clone(),
        }
    }
}

/// Progress in tenths of a percent: `elapsed` out of `total`, rounded to the
/// nearest tenth, and no higher than a `u64` can hold.
pub open spec fn progress_of(elapsed: u64, total: u64) -> nat
    recommends
        total > 0,
{
    let exact = crate::text::rounded_div(elapsed as nat * 1000, total as nat);
    if exact <= u64::MAX {
        exact
    } else {
        u64::MAX as nat
    }
}

/// A state in which progress was noted: the phase and the seconds elapsed
/// are as given, progress follows from them where the total is known, and
/// everything else is as before.
pub open spec fn progress_noted(
    after: AppState,
    before: AppState,
    phase: Seq<char>,
    elapsed: u64,
) -> bool {
    &&& after.test_status.current_phase matches Some(p) && p@ == phase
    &&& after.test_status.elapsed_seconds == elapsed
    &&& after.test_status.progress_tenths == if before.test_status.total_seconds > 0 {
        progress_of(elapsed, before.test_status.total_seconds)
    } else {
        before.test_status.progress_tenths as nat
    }
    &&& after.test_status.is_running == before.test_status.is_running
    &&& after.test_status.scenario_name == before.test_status.scenario_name
    &&& after.test_status.total_seconds == before.test_status.total_seconds
    &&& after.test_status.started_at_ms == before.test_status.started_at_ms
    &&& after == (AppState { test_status: after.test_status, ..before })
}

/// The first `cap` of a list with one more entry put in front.
pub open spec fn with_newest<T>(list: Seq<T>, newest: T, cap: nat) -> Seq<T> {
    let grown = seq![newest] + list;
    if grown.len() > cap {
        grown.take(cap as int)
    } else {
        grown
    }
}

/// The shared state.
pub struct AppState {
    pub config: WebConfig,
    pub test_status: TestStatus,
    pub stop_signal: bool,
    pub recent_results: Vec<ResultSummary>,
    pub load_test_state: LoadTestState,
    pub custom_targets: Vec<CustomTarget>,
}

impl AppState {
    /// A state in which nothing runs and nothing is remembered.
    pub fn new(config: WebConfig) -> (state: Self)
        ensures
            state.config == config,
            state.test_status == TestStatus::idle(),
            !state.stop_signal,
            state.recent_results@.len() == 0,
            state.custom_targets@.len() == 0,
            state.load_test_state.idle(),
    {
        AppState {
            config,
            test_status: TestStatus::default(),
            stop_signal: false,
            recent_results: Vec::new(),
            load_test_state: LoadTestState::new(),
            custom_targets: Vec::new(),
        }
    }

    /// A snapshot of the status.
    pub fn get_status(&self) -> (status: TestStatus)
        ensures
            status == self.test_status,
    {
        self.test_status.clone()
    }

    /// Replaces the status.
    pub fn update_status(&mut self, status: TestStatus)
        ensures
            *final(self) == (AppState { test_status: status, ..*old(self) }),
    {
        self.test_status = status;
    }

    /// Marks a run as begun: the scenario's name and length are noted,
    /// progress starts at nothing, and a stop asked for earlier is forgotten.
    /// The phase shown is left as it was.
    pub fn set_running(&mut self, scenario_name: String, total_seconds: u64, now_ms: i64)
        ensures
            *final(self) == (AppState {
                test_status: TestStatus {
                    is_running: true,
                    scenario_name: Some(scenario_name),
                    total_seconds,
                    elapsed_seconds: 0,
                    progress_tenths: 0,
                    started_at_ms: Some(now_ms),
                    ..old(self).test_status
                },
                stop_signal: false,
                ..*old(self)
            }),
    {
        self.test_status.is_running = true;
        self.test_status.scenario_name = Some(scenario_name);
        self.test_status.total_seconds = total_seconds;
        self.test_status.elapsed_seconds = 0;
        self.test_status.progress_tenths = 0;
        self.test_status.started_at_ms = Some(now_ms);
        self.stop_signal = false;
    }

    /// Marks the run as over; no phase is current any more.
    pub fn set_stopped(&mut self)
        ensures
            *final(self) == (AppState {
                test_status: TestStatus {
                    is_running: false,
                    current_phase: None,
                    ..old(self).test_status
                },
                ..*old(self)
            }),
    {
        self.test_status.is_running = false;
        self.test_status.current_phase = None;
    }

    /// Notes the current phase and the seconds elapsed. Progress follows
    /// from them where the total is known, and stays as it was where the
    /// total is zero.
    pub fn update_progress(&mut self, phase: &str, elapsed: u64)
        ensures
            progress_noted(*final(self), *old(self), phase@, elapsed),
    {
        self.test_status.current_phase = Some(String::from_str(phase));
        self.test_status.elapsed_seconds = elapsed;
        let total: u64 = self.test_status.total_seconds;
        if total > 0 {
            let scaled: u128 = (elapsed as u128) * 1000;
            let q: u128 = (scaled + (total as u128) / 2) / (total as u128);
            self.test_status.progress_tenths = if q > u64::MAX as u128 {
                u64::MAX
            } else {
                q as u64
            };
        }
    }

    /// Whether a stop was asked for.
    pub fn should_stop(&self) -> (stop: bool)
        ensures
            stop == self.stop_signal,
    {
        self.stop_signal
    }

    /// Asks the run to stop. Asking again changes nothing, and neither
    /// does asking while nothing runs.
    pub fn request_stop(&mut self)
        ensures
            old(self).test_status.is_running ==> *final(self) == (AppState {
                stop_signal: true,
                ..*old(self)
            }),
            !old(self).test_status.is_running ==> *final(self) == *old(self),
    {
        if self.test_status.is_running {
            self.stop_signal = true;
        }
    }

    /// Puts a result in front of the recent ones and drops what lies beyond
    /// the cap.
    pub fn add_result(&mut self, summary: ResultSummary)
        ensures
            final(self).recent_results@ == with_newest(
                old(self).recent_results@,
                summary,
                RECENT_RESULTS_CAP as nat,
            ),
            final(self).recent_results@.len() <= old(self).recent_results@.len() + 1,
            old(self).recent_results@.len() <= RECENT_RESULTS_CAP
                ==> final(self).recent_results@.len() <= RECENT_RESULTS_CAP,
            final(self).config == old(self).config,
            final(self).test_status == old(self).test_status,
            final(self).stop_signal == old(self).stop_signal,
            final(self).load_test_state == old(self).load_test_state,
            final(self).custom_targets == old(self).custom_targets,
    {
        self.recent_results.insert(0, summary);
        assert(self.recent_results@ =~= seq![summary] + old(self).recent_results@);
        if self.recent_results.len() > RECENT_RESULTS_CAP {
            self.recent_results.truncate(RECENT_RESULTS_CAP);
            assert(self.recent_results@ =~= (seq![summary] + old(self).recent_results@).take(
                RECENT_RESULTS_CAP as int,
            ));
        }
    }

    /// A copy of the recent results, newest first.
    pub fn get_recent_results(&self) -> (results: Vec<ResultSummary>)
        ensures
            results@ == self.recent_results@,
    {
        copy_results(&self.recent_results)
    }

    /// A copy of the targets that users have added, oldest first.
    pub fn list_targets(&self) -> (targets: Vec<CustomTarget>)
        ensures
            targets@ == self.custom_targets@,
    {
        copy_targets(&self.custom_targets)
    }
}

/// A copy of a list of results.
pub fn copy_results(list: &Vec<ResultSummary>) -> (copy: Vec<ResultSummary>)
    ensures
        copy@ == list@,
{
    let mut copy: Vec<ResultSummary> = Vec::new();
    let mut i: usize = 0;
    while i < list.len()
        invariant
            0 <= i <= list@.len(),
            copy@ == list@.take(i as int),
        decreases list@.len() - i,
    {
        copy.push(list[i].clone());
        assert(list@.take(i as int).push(list@[i as int]) =~= list@.take(i + 1));
        i += 1;
    }
    assert(list@.take(list@.len() as int) =~= list@);
    copy
}

/// A copy of a list of targets.
pub fn copy_targets(list: &Vec<CustomTarget>) -> (copy: Vec<CustomTarget>)
    ensures
        copy@ == list@,
{
    let mut copy: Vec<CustomTarget> = Vec::new();
    let mut i: usize = 0;
    while i < list.len()
        invariant
            0 <= i <= list@.len(),
            copy@ == list@.take(i as int),
        decreases list@.len() - i,
    {
        copy.push(list[i].clone());
        assert(list@.take(i as int).push(list@[i as int]) =~= list@.take(i + 1));
        i += 1;
    }
    assert(list@.take(list@.len() as int) =~= list@);
    copy
}

} // verus!
