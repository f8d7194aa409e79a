//! Load testing of a service: the configuration of a test, the pacing of its
//! requests, and the figures drawn from the latencies observed.
//!
//! Latencies are whole microseconds. The requests are sent elsewhere; this
//! module decides how many users should be active, how long to wait between
//! requests, how a response counts, and what the figures are.

use vstd::prelude::*;
use vstd::string::StringExecFns;

verus! {

/// The kind of service a load test addresses.
#[derive(Clone, Copy, Debug, PartialEq, Eq, Structural)]
pub enum TargetType {
    Http,
    Tcp,
    Websocket,
    Rtmp,
    Hls,
    Grpc,
    Custom,
}

/// The configuration of a load test.
#[derive(Debug)]
pub struct LoadTestConfig {
    pub name: String,
    pub target_type: TargetType,
    pub url: String,
    /// For HTTP: `GET`, `POST` and so on.
    pub method: Option<String>,
    pub headers: Option<Vec<(String, String)>>,
    pub body: Option<String>,
    pub concurrent_users: u32,
    pub requests_per_second: u32,
    pub duration_secs: u64,
    pub timeout_ms: u64,
    pub ramp_up_secs: Option<u64>,
}

impl Default for LoadTestConfig {
    fn default() -> (config: Self)
        ensures
            config.name@ == "New Load Test"@,
            config.target_type == TargetType::Http,
            config.url@ == "http://localhost:3000"@,
            config.method matches Some(m) && m@ == "GET"@,
            config.headers is None,
            config.body is None,
            config.concurrent_users == 10,
            config.requests_per_second == 100,
            config.duration_secs == 60,
            config.timeout_ms == 5000,
            config.ramp_up_secs == Some(10u64),
    {
        LoadTestConfig {
            name: String::from_str("New Load Test"),
            target_type: TargetType::Http,
            url: String::from_str("http://localhost:3000"),
            method: Some(String::from_str("GET")),
            headers: None,
            body: None,
            concurrent_users: 10,
            requests_per_second: 100,
            duration_secs: 60,
            timeout_ms: 5000,
            ramp_up_secs: Some(10),
        }
    }
}

/// The HTTP method of a request.
#[derive(Clone, Copy, Debug, PartialEq, Eq, Structural)]
pub enum HttpMethod {
    Get,
    Post,
    Put,
    Delete,
    Patch,
}

/// The method that a configured name stands for: `POST`, `PUT`, `DELETE` and
/// `PATCH` stand for themselves, anything else and nothing at all for `GET`.
pub open spec fn method_of(name: Option<Seq<char>>) -> HttpMethod {
    match name {
        Some(m) => if m == "POST"@ {
            HttpMethod::Post
        } else if m == "PUT"@ {
            HttpMethod::Put
        } else if m == "DELETE"@ {
            HttpMethod::Delete
        } else if m == "PATCH"@ {
            HttpMethod::Patch
        } else {
            HttpMethod::Get
        },
        None => HttpMethod::Get,
    }
}

/// The text of an optional string.
pub open spec fn text_of(s: Option<String>) -> Option<Seq<char>> {
    match s {
        Some(t) => Some(t@),
        None => None,
    }
}

impl LoadTestConfig {
    /// The method to send requests with.
    pub fn http_method(&self) -> (m: HttpMethod)
        ensures
            m == method_of(text_of(self.method)),
    {
        match &self.method {
            Some(name) => {
                if crate::scenario::same_text(name.as_str(), "POST") {
                    HttpMethod::Post
                } else if crate::scenario::same_text(name.as_str(), "PUT") {
                    HttpMethod::Put
                } else if crate::scenario::same_text(name.as_str(), "DELETE") {
                    HttpMethod::Delete
                } else if crate::scenario::same_text(name.as_str(), "PATCH") {
                    HttpMethod::Patch
                } else {
                    HttpMethod::Get
                }
            },
            None => HttpMethod::Get,
        }
    }

    /// The pause between two rounds of requests, in microseconds: a second
    /// divided by the configured rate, or ten milliseconds when no rate is set.
    pub fn request_delay_us(&self) -> (us: u64)
        ensures
            us == pause_us(self.requests_per_second),
    {
        if self.requests_per_second > 0 {
            1_000_000 / (self.requests_per_second as u64)
        } else {
            10_000
        }
    }

    /// How many users should be active once `elapsed_ms` of the test have
    /// passed: all of them without a ramp-up, else their share by the part of
    /// the ramp-up that is over, rounded down.
    pub fn desired_users(&self, elapsed_ms: u64) -> (users: u32)
        ensures
            users == ramped_users(self.concurrent_users, self.ramp_up_secs, elapsed_ms),
            users <= self.concurrent_users,
    {
        let ramp_secs: u64 = match self.ramp_up_secs {
            Some(s) => s,
            None => 0,
        };
        if ramp_secs == 0 {
            return self.concurrent_users;
        }
        let ramp_ms: u128 = (ramp_secs as u128) * 1000;
        if (elapsed_ms as u128) >= ramp_ms {
            return self.concurrent_users;
        }
        let target: u128 = self.concurrent_users as u128;
        assert(target * (elapsed_ms as u128) <= 0xffff_ffff * 0xffff_ffff_ffff_ffff)
            by (nonlinear_arith)
            requires
                0 <= target <= 0xffff_ffff,
                0 <= elapsed_ms <= 0xffff_ffff_ffff_ffff,
        ;
        let share: u128 = target * (elapsed_ms as u128) / ramp_ms;
        assert(share <= target) by (nonlinear_arith)
            requires
                share == (target as int) * (elapsed_ms as int) / (ramp_ms as int),
                0 <= elapsed_ms < ramp_ms,
                0 <= target,
        ;
        share as u32
    }
}

/// The pause between two rounds of requests at a rate, in microseconds.
pub open spec fn pause_us(requests_per_second: u32) -> nat {
    if requests_per_second > 0 {
        (1_000_000int / requests_per_second as int) as nat
    } else {
        10_000
    }
}

/// The users that should be active after `elapsed_ms` of a test.
pub open spec fn ramped_users(target: u32, ramp_up_secs: Option<u64>, elapsed_ms: u64) -> nat {
    let ramp_ms = match ramp_up_secs {
        Some(s) => s * 1000,
        None => 0,
    };
    if ramp_ms == 0 || elapsed_ms >= ramp_ms {
        target as nat
    } else {
        (target * elapsed_ms / ramp_ms) as nat
    }
}

/// The figures of a load test, drawn from what was observed so far.
#[derive(Debug)]
pub struct LoadTestMetrics {
    pub total_requests: u64,
    pub successful_requests: u64,
    pub failed_requests: u64,
    pub total_bytes: u64,
    pub min_latency_us: u64,
    pub max_latency_us: u64,
    pub avg_latency_us: u64,
    pub p50_latency_us: u64,
    pub p95_latency_us: u64,
    pub p99_latency_us: u64,
    /// Requests per second, in tenths.
    pub requests_per_second_tenths: u64,
    pub errors: Vec<String>,
}

impl Default for LoadTestMetrics {
    fn default() -> (m: Self)
        ensures
            m.is_zero(),
    {
        LoadTestMetrics {
            total_requests: 0,
            successful_requests: 0,
            failed_requests: 0,
            total_bytes: 0,
            min_latency_us: 0,
            max_latency_us: 0,
            avg_latency_us: 0,
            p50_latency_us: 0,
            p95_latency_us: 0,
            p99_latency_us: 0,
            requests_per_second_tenths: 0,
            errors: Vec::new(),
        }
    }
}

impl LoadTestMetrics {
    /// Nothing observed: every figure zero, no errors.
    pub open spec fn is_zero(&self) -> bool {
        &&& self.total_requests == 0
        &&& self.successful_requests == 0
        &&& self.failed_requests == 0
        &&& self.total_bytes == 0
        &&& self.min_latency_us == 0
        &&& self.max_latency_us == 0
        &&& self.avg_latency_us == 0
        &&& self.p50_latency_us == 0
        &&& self.p95_latency_us == 0
        &&& self.p99_latency_us == 0
        &&& self.requests_per_second_tenths == 0
        &&& self.errors@.len() == 0
    }

    /// These are the figures for latencies in rising order, beside the
    /// counts as they are: the lowest, the highest, the mean, three
    /// percentiles and the request rate; no bytes counted, no errors kept.
    pub open spec fn is_figures_of(
        &self,
        sorted: Seq<u64>,
        total: u64,
        successful: u64,
        failed: u64,
        elapsed_ms: Option<u64>,
    ) -> bool {
        &&& self.total_requests == total
        &&& self.successful_requests == successful
        &&& self.failed_requests == failed
        &&& self.total_bytes == 0
        &&& self.min_latency_us == if sorted.len() > 0 {
            sorted[0]
        } else {
            0
        }
        &&& self.max_latency_us == if sorted.len() > 0 {
            sorted[sorted.len() - 1]
        } else {
            0
        }
        &&& self.avg_latency_us == mean_of(sorted)
        &&& self.p50_latency_us == percentile_of(sorted, 50)
        &&& self.p95_latency_us == percentile_of(sorted, 95)
        &&& self.p99_latency_us == percentile_of(sorted, 99)
        &&& self.requests_per_second_tenths == if rate_tenths(total, elapsed_ms) <= u64::MAX {
            rate_tenths(total, elapsed_ms)
        } else {
            u64::MAX as nat
        }
        &&& self.errors@.len() == 0
    }
}

/// Values in rising order.
pub open spec fn rising(values: Seq<u64>) -> bool {
    forall|i: int, j: int| 0 <= i <= j < values.len() ==> values[i] <= values[j]
}

/// The sum of the first `upto` values.
pub open spec fn sum_of(values: Seq<u64>, upto: int) -> nat
    decreases upto,
{
    if upto <= 0 {
        0
    } else {
        sum_of(values, upto - 1) + values[upto - 1] as nat
    }
}

/// The place in a list of `len` values that lies `percent` hundredths of
/// the way through: `percent * (len - 1) / 100`, rounded down, and the last
/// place where that lies beyond it.
pub open spec fn percentile_place(len: nat, percent: nat) -> int
    recommends
        len > 0,
{
    let place = percent * (len - 1) / 100;
    if place <= len - 1 {
        place
    } else {
        len - 1
    }
}

/// The value `percent` hundredths of the way through values in rising
/// order: the one at `percentile_place`; zero where there are no values.
pub open spec fn percentile_of(sorted: Seq<u64>, percent: nat) -> u64 {
    if sorted.len() == 0 {
        0
    } else {
        sorted[percentile_place(sorted.len(), percent)]
    }
}

/// The mean of the values, rounded down; zero where there are none.
pub open spec fn mean_of(values: Seq<u64>) -> nat {
    if values.len() == 0 {
        0
    } else {
        sum_of(values, values.len() as int) / values.len()
    }
}

/// Requests per second in tenths, rounded to the nearest, for `total`
/// requests in `elapsed_ms`; where no start was recorded a second is taken
/// to have passed, and with no time passed there is no rate yet.
pub open spec fn rate_tenths(total: u64, elapsed_ms: Option<u64>) -> nat {
    let ms: nat = match elapsed_ms {
        Some(ms) => ms as nat,
        None => 1000,
    };
    if ms == 0 {
        0
    } else {
        crate::text::rounded_div(total as nat * 10_000, ms)
    }
}

/// The value `percent` hundredths of the way through values in rising
/// order; more than a hundred hundredths is the last value.
pub fn percentile(sorted: &Vec<u64>, percent: u64) -> (value: u64)
    ensures
        value == percentile_of(sorted@, percent as nat),
{
    if sorted.len() == 0 {
        return 0;
    }
    let last: u128 = (sorted.len() - 1) as u128;
    assert((percent as u128) * last <= 0xffff_ffff_ffff_ffff * 0xffff_ffff_ffff_ffff)
        by (nonlinear_arith)
        requires
            0 <= percent <= 0xffff_ffff_ffff_ffff,
            0 <= last <= 0xffff_ffff_ffff_ffff,
    ;
    let place: u128 = (percent as u128) * last / 100;
    if place <= last {
        sorted[place as usize]
    } else {
        sorted[last as usize]
    }
}

/// The sum over a `u64` slice's worth of values fits sixteen bytes.
proof fn lemma_sum_bounded(values: Seq<u64>, upto: int)
    requires
        0 <= upto <= values.len(),
    ensures
        sum_of(values, upto) <= upto * 0xffff_ffff_ffff_ffff,
    decreases upto,
{
    if upto > 0 {
        lemma_sum_bounded(values, upto - 1);
        assert((upto - 1) * 0xffff_ffff_ffff_ffff + 0xffff_ffff_ffff_ffff == upto
            * 0xffff_ffff_ffff_ffff) by (nonlinear_arith);
    }
}

/// The mean of the values, rounded down; zero where there are none.
pub fn mean(values: &Vec<u64>) -> (m: u64)
    ensures
        m == mean_of(values@),
{
    if values.len() == 0 {
        return 0;
    }
    let mut sum: u128 = 0;
    let mut i: usize = 0;
    while i < values.len()
        invariant
            0 <= i <= values@.len(),
            sum == sum_of(values@, i as int),
        decreases values@.len() - i,
    {
        proof {
            lemma_sum_bounded(values@, i as int + 1);
            assert((i + 1) * 0xffff_ffff_ffff_ffff <= 0xffff_ffff_ffff_ffff * 0xffff_ffff_ffff_ffff)
                by (nonlinear_arith)
                requires
                    0 <= i + 1 <= 0xffff_ffff_ffff_ffff,
            ;
        }
        sum = sum + values[i] as u128;
        i += 1;
    }
    let n: u128 = values.len() as u128;
    proof {
        lemma_sum_bounded(values@, values@.len() as int);
        assert(sum / n <= 0xffff_ffff_ffff_ffff) by (nonlinear_arith)
            requires
                n > 0,
                sum <= n * 0xffff_ffff_ffff_ffff,
        ;
    }
    (sum / n) as u64
}

/// Requests per second in tenths, rounded to the nearest.
pub fn request_rate_tenths(total: u64, elapsed_ms: Option<u64>) -> (rate: u64)
    ensures
        rate == if rate_tenths(total, elapsed_ms) <= u64::MAX {
            rate_tenths(total, elapsed_ms)
        } else {
            u64::MAX as nat
        },
{
    let ms: u64 = match elapsed_ms {
        Some(ms) => ms,
        None => 1000,
    };
    if ms == 0 {
        return 0;
    }
    let scaled: u128 = (total as u128) * 10_000;
    let q: u128 = (scaled + (ms as u128) / 2) / (ms as u128);
    if q > u64::MAX as u128 {
        u64::MAX
    } else {
        q as u64
    }
}

/// The figures for a list of latencies, beside the counts as they are:
/// the first value as the lowest and the last as the highest, the mean,
/// and the values at three places of the list as the percentiles. They are
/// what their names say where the list is in rising order.
pub fn summarize(
    sorted: &Vec<u64>,
    total: u64,
    successful: u64,
    failed: u64,
    elapsed_ms: Option<u64>,
) -> (m: LoadTestMetrics)
    ensures
        m.is_figures_of(sorted@, total, successful, failed, elapsed_ms),
{
    let n = sorted.len();
    LoadTestMetrics {
        total_requests: total,
        successful_requests: successful,
        failed_requests: failed,
        total_bytes: 0,
        min_latency_us: if n > 0 {
            sorted[0]
        } else {
            0
        },
        max_latency_us: if n > 0 {
            sorted[n - 1]
        } else {
            0
        },
        avg_latency_us: mean(sorted),
        p50_latency_us: percentile(sorted, 50),
        p95_latency_us: percentile(sorted, 95),
        p99_latency_us: percentile(sorted, 99),
        requests_per_second_tenths: request_rate_tenths(total, elapsed_ms),
        errors: Vec::new(),
    }
}

/// Sorts values into rising order, by the standard library's
/// `sort_unstable`: the same values, each as often as before, none before a
/// smaller one. Not proved here.
#[verifier::external_body]
fn sort_rising(values: &mut Vec<u64>)
    ensures
        final(values)@.to_multiset() == old(values)@.to_multiset(),
        rising(final(values)@),
{
    values.sort_unstable();
}

/// How one response counts.
#[derive(Clone, Copy, Debug, PartialEq, Eq, Structural)]
pub enum ResponseOutcome {
    /// A response arrived; its latency counts, and its status decides
    /// between success and failure.
    Answered { latency_us: u64, success: bool },
    /// No response arrived.
    Unanswered,
}

/// The state of a load test.
#[derive(Debug)]
pub struct LoadTestState {
    pub is_running: bool,
    pub should_stop: bool,
    pub config: Option<LoadTestConfig>,
    pub metrics: LoadTestMetrics,
    pub latencies: Vec<u64>,
    /// When the test began, on the caller's clock, in milliseconds.
    pub start_time_ms: Option<u64>,
    pub total_requests: u64,
    pub successful_requests: u64,
    pub failed_requests: u64,
}

impl LoadTestState {
    /// Nothing runs and nothing is counted.
    pub open spec fn idle(&self) -> bool {
        &&& !self.is_running
        &&& !self.should_stop
        &&& self.config is None
        &&& self.metrics.is_zero()
        &&& self.latencies@ == Seq::<u64>::empty()
        &&& self.start_time_ms is None
        &&& self.total_requests == 0
        &&& self.successful_requests == 0
        &&& self.failed_requests == 0
    }

    /// A state with nothing running and nothing counted.
    pub fn new() -> (state: Self)
        ensures
            state.idle(),
    {
        LoadTestState {
            is_running: false,
            should_stop: false,
            config: None,
            metrics: LoadTestMetrics::default(),
            latencies: Vec::new(),
            start_time_ms: None,
            total_requests: 0,
            successful_requests: 0,
            failed_requests: 0,
        }
    }

    /// Sets the three counters back to zero, and nothing else.
    pub fn reset(&mut self)
        ensures
            *final(self) == (LoadTestState {
                total_requests: 0,
                successful_requests: 0,
                failed_requests: 0,
                ..*old(self)
            }),
    {
        self.total_requests = 0;
        self.successful_requests = 0;
        self.failed_requests = 0;
    }

    /// A test has begun: running, not asked to stop, counters and
    /// latencies cleared, the configuration and the start time kept, the
    /// figures as they were.
    pub open spec fn begun(&self, before: LoadTestState, config: LoadTestConfig, now_ms: u64) -> bool {
        &&& self.is_running
        &&& !self.should_stop
        &&& self.config == Some(config)
        &&& self.latencies@.len() == 0
        &&& self.start_time_ms == Some(now_ms)
        &&& self.total_requests == 0
        &&& self.successful_requests == 0
        &&& self.failed_requests == 0
        &&& self.metrics == before.metrics
    }

    /// Begins a test.
    pub fn begin(&mut self, config: LoadTestConfig, now_ms: u64)
        ensures
            final(self).begun(*old(self), config, now_ms),
    {
        self.is_running = true;
        self.should_stop = false;
        self.reset();
        self.config = Some(config);
        self.start_time_ms = Some(now_ms);
        self.latencies = Vec::new();
    }

    /// Whether another round of requests should be sent: the duration is
    /// not over and nobody asked to stop.
    pub fn should_continue(&self, elapsed_ms: u64, duration_secs: u64) -> (go: bool)
        ensures
            go == (elapsed_ms < duration_secs * 1000 && !self.should_stop),
    {
        (elapsed_ms as u128) < (duration_secs as u128) * 1000 && !self.should_stop
    }

    /// Counts one request and what became of it. Counters stop at the
    /// highest number they can hold.
    pub fn record(&mut self, outcome: ResponseOutcome)
        ensures
            final(self).total_requests == counted(old(self).total_requests),
            final(self).successful_requests == if outcome matches ResponseOutcome::Answered {
                success: true,
                ..
            } {
                counted(old(self).successful_requests)
            } else {
                old(self).successful_requests
            },
            final(self).failed_requests == if outcome matches ResponseOutcome::Answered {
                success: true,
                ..
            } {
                old(self).failed_requests
            } else {
                counted(old(self).failed_requests)
            },
            final(self).latencies@ == match outcome {
                ResponseOutcome::Answered { latency_us, .. } => old(self).latencies@.push(
                    latency_us,
                ),
                ResponseOutcome::Unanswered => old(self).latencies@,
            },
            final(self).is_running == old(self).is_running,
            final(self).should_stop == old(self).should_stop,
            final(self).config == old(self).config,
            final(self).metrics == old(self).metrics,
            final(self).start_time_ms == old(self).start_time_ms,
    {
        self.total_requests = count_up(self.total_requests);
        match outcome {
            ResponseOutcome::Answered { latency_us, success } => {
                self.latencies.push(latency_us);
                if success {
                    self.successful_requests = count_up(self.successful_requests);
                } else {
                    self.failed_requests = count_up(self.failed_requests);
                }
            },
            ResponseOutcome::Unanswered => {
                self.failed_requests = count_up(self.failed_requests);
            },
        }
    }

    /// Draws the figures anew from the counters and the latencies so far.
    /// The figures are those of the latencies put in rising order.
    pub fn update_metrics(&mut self, now_ms: u64)
        ensures
            exists|sorted: Seq<u64>|
                rising(sorted) && sorted.to_multiset() == old(self).latencies@.to_multiset()
                    && final(self).metrics.is_figures_of(
                    sorted,
                    old(self).total_requests,
                    old(self).successful_requests,
                    old(self).failed_requests,
                    elapsed_since(old(self).start_time_ms, now_ms),
                ),
            *final(self) == (LoadTestState { metrics: final(self).metrics, ..*old(self) }),
    {
        let mut sorted: Vec<u64> = copy_values(&self.latencies);
        sort_rising(&mut sorted);
        let elapsed: Option<u64> = match self.start_time_ms {
            Some(start) => Some(
                if now_ms >= start {
                    now_ms - start
                } else {
                    0
                },
            ),
            None => None,
        };
        self.metrics =
        summarize(
            &sorted,
            self.total_requests,
            self.successful_requests,
            self.failed_requests,
            elapsed,
        );
    }
}

/// The time since a start, if one was recorded; a clock that ran backwards
/// counts as no time passed.
pub open spec fn elapsed_since(start_ms: Option<u64>, now_ms: u64) -> Option<u64> {
    match start_ms {
        Some(start) => Some(
            if now_ms >= start {
                (now_ms - start) as u64
            } else {
                0
            },
        ),
        None => None,
    }
}

/// One more than `n`, or `n` where it is already the highest number.
pub open spec fn counted(n: u64) -> u64 {
    if n < u64::MAX {
        (n + 1) as u64
    } else {
        n
    }
}

fn count_up(n: u64) -> (m: u64)
    ensures
        m == counted(n),
{
    if n < u64::MAX {
        n + 1
    } else {
        n
    }
}

fn copy_values(values: &Vec<u64>) -> (copy: Vec<u64>)
    ensures
        copy@ == values@,
{
    let mut copy: Vec<u64> = Vec::new();
    let mut i: usize = 0;
    while i < values.len()
        invariant
            0 <= i <= values@.len(),
            copy@ == values@.take(i as int),
        decreases values@.len() - i,
    {
        copy.push(values[i]);
        assert(values@.take(i as int).push(values@[i as int]) =~= values@.take(i + 1));
        i += 1;
    }
    assert(values@.take(values@.len() as int) =~= values@);
    copy
}

/// The configuration of a test of a video or audio stream.
#[derive(Debug)]
pub struct StreamTestConfig {
    pub name: String,
    pub stream_url: String,
    pub stream_type: StreamType,
    pub duration_secs: u64,
    pub viewers: u32,
}

/// The protocol of a stream.
#[derive(Clone, Copy, Debug, PartialEq, Eq, Structural)]
pub enum StreamType {
    Hls,
    Rtmp,
    WebRtc,
    Dash,
    Srt,
}

/// The figures of a stream test. Bit rate and latency are whole numbers:
/// kilobits per second, and microseconds.
#[derive(Clone, Copy, Debug, PartialEq, Eq, Structural)]
pub struct StreamTestMetrics {
    pub total_viewers: u32,
    pub connected_viewers: u32,
    pub buffering_events: u64,
    pub avg_bitrate_kbps: u64,
    pub avg_latency_us: u64,
    pub dropped_frames: u64,
    pub total_bytes_received: u64,
}

} // verus!
