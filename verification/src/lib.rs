//! A chaos-engineering framework: scenarios of timed fault injections, the
//! engine that schedules, applies and reliably reverts them, and the pages and
//! reports that show what happened.
//!
//! The engine acts on nothing by itself. The scheduler, the executor and the
//! runner take the time and what happened as plain values and answer with
//! what to do next; whoever drives them touches the host. Every fault that
//! goes live is taken back exactly once, and nothing of a phase is live when
//! the next one begins.

pub mod api;
pub mod arrange;
pub mod clock;
pub mod config;
pub mod error;
pub mod executor;
pub mod handle;
pub mod handlers;
pub mod injectors;
pub mod load_test;
pub mod markup;
pub mod report;
pub mod result;
pub mod runner;
pub mod scenario;
pub mod scheduler;
pub mod state;
pub mod target;
pub mod templates;
pub mod text;

pub use config::ScenarioConfig;
pub use error::ChaosError;
pub use executor::Executor;
pub use handle::InjectionHandle;
pub use injectors::Injector;
pub use runner::ScenarioRunner;
pub use scenario::{Phase, Scenario, SchedulingMode, Target};
pub use scheduler::Scheduler;
pub use state::{AppState, WebConfig};
