//! The health report: a fixed status, and the uptime written into the
//! service line.

use crate::decimal::{append_decimal, decimal_digits, decimal_value, lemma_decimal_round_trip};
use std::time::Instant;
use vstd::prelude::*;
use vstd::string::StringExecFns;

verus! {

/// What every request handler shares: the instant at which the process
/// started. It is set once and only read afterwards.
pub struct AppState {
    start: Instant,
}

/// The health report.
#[derive(Clone, Debug, PartialEq, Eq)]
pub struct Health {
    /// The service's name with the uptime in seconds.
    pub service: String,
    /// The status, which is always the same.
    pub status: String,
}

/// A health report as plain text.
pub struct HealthView {
    pub service: Seq<char>,
    pub status: Seq<char>,
}

impl View for Health {
    type V = HealthView;

    open spec fn view(&self) -> HealthView {
        HealthView { service: self.service@, status: self.status@ }
    }
}

/// What stands before the uptime in the service line.
pub open spec fn service_prefix() -> Seq<char> {
    "fks-execution|uptime="@
}

/// What stands after the uptime in the service line.
pub open spec fn service_suffix() -> Seq<char> {
    "s"@
}

/// The service line for an uptime in seconds.
pub open spec fn service_text(uptime_secs: nat) -> Seq<char> {
    service_prefix() + decimal_digits(uptime_secs) + service_suffix()
}

/// The status of a process that answers.
pub open spec fn healthy_text() -> Seq<char> {
    "healthy"@
}

/// The health report of a process that has been up for `uptime_secs` seconds.
pub open spec fn health_of(uptime_secs: nat) -> HealthView {
    HealthView { service: service_text(uptime_secs), status: healthy_text() }
}

/// The uptime that a service line holds: the number written between the
/// prefix and the suffix.
pub open spec fn embedded_uptime(service: Seq<char>) -> nat
    recommends
        service.len() >= service_prefix().len() + service_suffix().len(),
{
    decimal_value(
        service.subrange(service_prefix().len() as int, service.len() - service_suffix().len()),
    )
}

impl AppState {
    /// The instant at which the process started.
    pub closed spec fn start_instant(&self) -> Instant {
        self.start
    }

    /// The state of a process that starts now.
    pub fn new() -> (state: AppState) {
        AppState { start: Instant::now() }
    }

    /// The state of a process that started at `start`.
    pub fn started_at(start: Instant) -> (state: AppState)
        ensures
            state.start_instant() == start,
    {
        AppState { start }
    }

    /// The instant at which the process started.
    pub fn start(&self) -> (start: &Instant)
        ensures
            *start == self.start_instant(),
    {
        &self.start
    }

    /// Whole seconds since the process started, by the monotonic clock.
    fn uptime_secs(&self) -> (secs: u64) {
        self.start.elapsed().as_secs()
    }
}

/// The health report of a process that has been up for `uptime_secs` seconds.
pub fn health_report(uptime_secs: u64) -> (health: Health)
    ensures
        health@ == health_of(uptime_secs as nat),
{
    let mut service = String::from_str("fks-execution|uptime=");
    append_decimal(&mut service, uptime_secs);
    service.append("s");
    Health { service, status: String::from_str("healthy") }
}

/// Answers a health check: reads the clock and reports. The status is always
/// the healthy one, and the service line holds the uptime that was read.
pub fn health_handler(state: &AppState) -> (health: Health)
    ensures
        health@.status == healthy_text(),
        exists|uptime_secs: u64| health@ == health_of(uptime_secs as nat),
{
    let uptime_secs: u64 = state.uptime_secs();
    let health = health_report(uptime_secs);
    assert(health@ == health_of(uptime_secs as nat));
    health
}

/// The uptime can be read back from the service line.
pub proof fn lemma_uptime_reads_back(uptime_secs: nat)
    ensures
        embedded_uptime(service_text(uptime_secs)) == uptime_secs,
{
    let digits = decimal_digits(uptime_secs);
    let text = service_text(uptime_secs);
    assert(text.subrange(service_prefix().len() as int, text.len() - service_suffix().len())
        =~= digits);
    lemma_decimal_round_trip(uptime_secs);
}

/// Reports keep the order of the clock's readings: where a later reading is
/// no smaller than an earlier one, the uptime in the later report is no
/// smaller either, and both reports show the healthy status.
pub proof fn lemma_uptime_order_is_kept(earlier_secs: nat, later_secs: nat)
    requires
        earlier_secs <= later_secs,
    ensures
        embedded_uptime(health_of(earlier_secs).service) <= embedded_uptime(
            health_of(later_secs).service,
        ),
        health_of(earlier_secs).status == healthy_text(),
        health_of(later_secs).status == healthy_text(),
{
    lemma_uptime_reads_back(earlier_secs);
    lemma_uptime_reads_back(later_secs);
}

} // verus!
