//! The monitoring subsystem's state: the runtime configuration, the cached
//! snapshot of the last successful probe, and the transitions that
//! reconfiguration and probe completion apply to it.
//!
//! The background loop itself (timer, process spawning, event delivery)
//! lives outside the library and drives these transitions with plain
//! values; every decision the loop takes is specified and verified here.

use vstd::prelude::*;
use vstd::string::StringExecFns;
use crate::health::{HealthLevel, classify_health, spec_classify_health};
use crate::probe::{ProbeOutput, ProbeOutputView, json_string_field, json_wellformed};
use crate::probe::{json_string_field_exec, now_rfc3339};
use crate::settings::SettingsStore;
use crate::text::{parse_bool, parse_u64, spec_parse_bool, spec_parse_u64};

verus! {

/// The snapshot produced by one successful probe: its health
/// classification, the completion timestamp, and the probe's structured
/// output preserved verbatim for downstream display.
pub struct MonitoringStatus {
    pub health: HealthLevel,
    pub last_update: String,
    pub status_json: String,
}

/// Mathematical model of a snapshot.
#[verifier::ext_equal]
pub struct StatusModel {
    pub health: HealthLevel,
    pub last_update: Seq<char>,
    pub status_json: Seq<char>,
}

impl View for MonitoringStatus {
    type V = StatusModel;

    open spec fn view(&self) -> StatusModel {
        StatusModel {
            health: self.health,
            last_update: self.last_update@,
            status_json: self.status_json@,
        }
    }
}

impl Clone for MonitoringStatus {
    fn clone(&self) -> (r: Self)
        ensures
            r == *self,
    {
        MonitoringStatus {
            health: self.health,
            last_update: self.last_update.clone(),
            status_json: self.status_json.clone(),
        }
    }
}

/// The monitoring subsystem's aggregate state: the runtime-mutable
/// configuration and the cached last successful snapshot.
pub struct MonitoringState {
    pub enabled: bool,
    pub interval_minutes: u64,
    pub last_status: Option<MonitoringStatus>,
}

/// Mathematical model of the monitoring state.
#[verifier::ext_equal]
pub struct StateModel {
    pub enabled: bool,
    pub interval_minutes: u64,
    pub last_status: Option<StatusModel>,
}

impl View for MonitoringState {
    type V = StateModel;

    open spec fn view(&self) -> StateModel {
        StateModel {
            enabled: self.enabled,
            interval_minutes: self.interval_minutes,
            last_status: match self.last_status {
                Some(ref s) => Some(s@),
                None => None,
            },
        }
    }
}

impl StateModel {
    /// The probe interval is always at least one minute.
    pub open spec fn wf(self) -> bool {
        self.interval_minutes >= 1
    }
}

/// The default configuration: probing enabled every 30 minutes, no
/// snapshot yet.
impl Default for MonitoringState {
    fn default() -> (r: Self)
        ensures
            r@ == (StateModel { enabled: true, interval_minutes: 30, last_status: None }),
            r@.wf(),
    {
        MonitoringState { enabled: true, interval_minutes: 30, last_status: None }
    }
}

/// The error reported when the probe process exits unsuccessfully: its
/// standard error content, attached for diagnosability.
pub open spec fn execution_error_message(stderr: Seq<char>) -> Seq<char> {
    "mo status failed: "@ + stderr
}

/// The error reported when the probe's output is not well-formed JSON,
/// distinct from an execution failure and carrying the parser's own
/// description.
pub open spec fn parse_error_message(detail: Seq<char>) -> Seq<char> {
    "Failed to parse mo status output: "@ + detail
}

/// Whether a probe run is accepted: the process exited successfully and
/// its standard output is a well-formed JSON document.
pub open spec fn spec_probe_accepted(o: ProbeOutputView) -> bool {
    o.success && json_wellformed(o.stdout)
}

/// The snapshot an accepted probe run yields: the classified health field,
/// the given completion timestamp, and the output preserved verbatim.
pub open spec fn spec_snapshot(o: ProbeOutputView, captured_at: Seq<char>) -> StatusModel {
    StatusModel {
        health: spec_classify_health(json_string_field(o.stdout, "health"@)),
        last_update: captured_at,
        status_json: o.stdout,
    }
}

/// The transition a completed probe applies to the state: an accepted run
/// replaces the cached snapshot atomically; anything else leaves the state
/// exactly as it was, stale-but-available.
pub open spec fn spec_apply_probe(s: StateModel, o: ProbeOutputView, captured_at: Seq<char>) -> StateModel {
    if spec_probe_accepted(o) {
        StateModel { last_status: Some(spec_snapshot(o, captured_at)), ..s }
    } else {
        s
    }
}

/// The transition a reconfiguration applies: the new flag and interval are
/// stored, the cache is untouched, and a timer-rebuild signal carrying the
/// new interval is produced exactly when the interval changed.
pub open spec fn spec_reconfigure(s: StateModel, enabled: bool, interval_minutes: u64) -> (StateModel, Option<u64>) {
    let signal = if s.interval_minutes != interval_minutes {
        Some(interval_minutes)
    } else {
        None
    };
    (StateModel { enabled, interval_minutes, last_status: s.last_status }, signal)
}

/// Convert a completed probe run into a snapshot, or the error that
/// describes why it is rejected. An unsuccessful exit reports the
/// process's standard error; output that is not well-formed JSON reports a
/// parse error; an absent or unrecognized health field is not an error and
/// classifies as `Unknown`.
pub fn interpret_probe_output(output: &ProbeOutput, captured_at: String) -> (r: Result<MonitoringStatus, String>)
    ensures
        r is Ok <==> spec_probe_accepted(output@),
        r is Ok ==> r->Ok_0@ == spec_snapshot(output@, captured_at@),
        !output.success ==> r is Err && r->Err_0@ == execution_error_message(output@.stderr),
        output.success && !json_wellformed(output@.stdout) ==> r is Err && (exists|d: Seq<char>|
            r->Err_0@ == parse_error_message(d)),
{
    if !output.success {
        let message = String::from_str("mo status failed: ").concat(output.stderr.as_str());
        return Err(message);
    }
    match json_string_field_exec(output.stdout.as_str(), "health") {
        Err(detail) => {
            let message = String::from_str("Failed to parse mo status output: ").concat(
                detail.as_str(),
            );
            proof {
                assert(message@ == parse_error_message(detail@));
            }
            Err(message)
        },
        Ok(field) => {
            let health = classify_health(&field);
            Ok(MonitoringStatus {
                health,
                last_update: captured_at,
                status_json: output.stdout.clone(),
            })
        },
    }
}

impl MonitoringState {
    /// Non-blocking read of the cached snapshot.
    pub fn get_cached_status(&self) -> (r: Option<MonitoringStatus>)
        ensures
            r == self.last_status,
    {
        match &self.last_status {
            Some(s) => Some(s.clone()),
            None => None,
        }
    }

    /// Store the new flag and interval; report the timer-rebuild signal to
    /// send to the background loop, carrying the new interval exactly when
    /// it differs from the current one.
    pub fn update_monitoring_config(&mut self, enabled: bool, interval_minutes: u64) -> (signal: Option<u64>)
        requires
            interval_minutes >= 1,
        ensures
            final(self)@ == spec_reconfigure(old(self)@, enabled, interval_minutes).0,
            signal == spec_reconfigure(old(self)@, enabled, interval_minutes).1,
            signal is Some <==> old(self).interval_minutes != interval_minutes,
            final(self).last_status == old(self).last_status,
            final(self)@.wf(),
    {
        self.enabled = enabled;
        if self.interval_minutes != interval_minutes {
            self.interval_minutes = interval_minutes;
            Some(interval_minutes)
        } else {
            None
        }
    }

    /// Apply a completed probe run, stamped with the given completion
    /// time: an accepted run replaces the cached snapshot and returns it;
    /// a rejected one returns the error and leaves the state unchanged.
    pub fn apply_probe_output(&mut self, output: &ProbeOutput, captured_at: String) -> (r: Result<MonitoringStatus, String>)
        ensures
            final(self)@ == spec_apply_probe(old(self)@, output@, captured_at@),
            r is Ok <==> spec_probe_accepted(output@),
            r is Ok ==> r->Ok_0@ == spec_snapshot(output@, captured_at@),
            r is Err ==> final(self)@ == old(self)@,
            !output.success ==> r is Err && r->Err_0@ == execution_error_message(output@.stderr),
            output.success && !json_wellformed(output@.stdout) ==> r is Err && (
                exists|d: Seq<char>| r->Err_0@ == parse_error_message(d)
            ),
            final(self).enabled == old(self).enabled,
            final(self).interval_minutes == old(self).interval_minutes,
    {
        match interpret_probe_output(output, captured_at) {
            Ok(status) => {
                self.last_status = Some(status.clone());
                Ok(status)
            },
            Err(e) => Err(e),
        }
    }

    /// Run one status check on a completed probe run: stamp it with the
    /// completion time read from the clock, then apply it to the state.
    pub fn run_status_check(&mut self, output: &ProbeOutput) -> (r: Result<MonitoringStatus, String>)
        ensures
            r is Ok <==> spec_probe_accepted(output@),
            r is Ok ==> final(self)@ == spec_apply_probe(old(self)@, output@, r->Ok_0@.last_update),
            r is Ok ==> final(self)@.last_status == Some(r->Ok_0@),
            r is Ok ==> r->Ok_0@.health == spec_classify_health(
                json_string_field(output@.stdout, "health"@),
            ) && r->Ok_0@.status_json == output@.stdout,
            r is Err ==> final(self)@ == old(self)@,
            !output.success ==> r is Err && r->Err_0@ == execution_error_message(output@.stderr),
            output.success && !json_wellformed(output@.stdout) ==> r is Err && (
                exists|d: Seq<char>| r->Err_0@ == parse_error_message(d)
            ),
            final(self).enabled == old(self).enabled,
            final(self).interval_minutes == old(self).interval_minutes,
    {
        let captured_at = now_rfc3339();
        self.apply_probe_output(output, captured_at)
    }

    /// Perform an out-of-band status check, regardless of the enabled
    /// flag: apply the probe run to the cache and return the fresh
    /// snapshot synchronously, or the error with the cache untouched.
    pub fn trigger_status_check(&mut self, output: &ProbeOutput) -> (r: Result<MonitoringStatus, String>)
        ensures
            r is Ok <==> spec_probe_accepted(output@),
            r is Ok ==> final(self)@ == spec_apply_probe(old(self)@, output@, r->Ok_0@.last_update),
            r is Ok ==> final(self)@.last_status == Some(r->Ok_0@),
            r is Err ==> final(self)@ == old(self)@,
            !output.success ==> r is Err && r->Err_0@ == execution_error_message(output@.stderr),
            output.success && !json_wellformed(output@.stdout) ==> r is Err && (
                exists|d: Seq<char>| r->Err_0@ == parse_error_message(d)
            ),
            final(self).enabled == old(self).enabled,
            final(self).interval_minutes == old(self).interval_minutes,
    {
        match self.run_status_check(output) {
            Err(e) => Err(e),
            Ok(_) => match self.get_cached_status() {
                Some(s) => Ok(s),
                None => Err(String::from_str("Status check completed but no status available")),
            },
        }
    }
}

/// The monitoring configuration persisted in the settings store, with the
/// defaults taking over wherever a value is absent, unparseable, or (for
/// the interval) below one minute.
pub fn load_monitoring_settings(settings: &SettingsStore) -> (r: (bool, u64))
    requires
        settings.wf(),
    ensures
        r.0 == (match settings.spec_get("monitoring_enabled"@) {
            Some(v) => match spec_parse_bool(v) {
                Some(b) => b,
                None => true,
            },
            None => true,
        }),
        r.1 == (match settings.spec_get("monitoring_interval_minutes"@) {
            Some(v) => match spec_parse_u64(v) {
                Some(n) => if n >= 1 { n } else { 30u64 },
                None => 30u64,
            },
            None => 30u64,
        }),
        r.1 >= 1,
{
    let enabled: bool = match settings.get_setting("monitoring_enabled") {
        Some(v) => match parse_bool(v.as_str()) {
            Some(b) => b,
            None => true,
        },
        None => true,
    };
    let interval_minutes: u64 = match settings.get_setting("monitoring_interval_minutes") {
        Some(v) => match parse_u64(v.as_str()) {
            Some(n) => if n >= 1 {
                n
            } else {
                30
            },
            None => 30,
        },
        None => 30,
    };
    (enabled, interval_minutes)
}

/// What is published to subscribers after a probe attempt: the fresh
/// snapshot on success, the error description on failure. Delivery is
/// fire-and-forget and happens outside the library.
pub enum MonitoringEvent {
    StatusUpdated(MonitoringStatus),
    ProbeError(String),
}

/// The event a probe outcome publishes: every attempt yields exactly one,
/// a success event carrying the snapshot or a failure event carrying the
/// error description.
pub fn event_for_outcome(outcome: &Result<MonitoringStatus, String>) -> (e: MonitoringEvent)
    ensures
        outcome is Ok ==> e is StatusUpdated && e->StatusUpdated_0@ == outcome->Ok_0@,
        outcome is Err ==> e is ProbeError && e->ProbeError_0@ == outcome->Err_0@,
{
    match outcome {
        Ok(status) => MonitoringEvent::StatusUpdated(status.clone()),
        Err(message) => MonitoringEvent::ProbeError(message.clone()),
    }
}

/// No reconfiguration that keeps the interval sends a timer-rebuild
/// signal, whatever it does to the enabled flag.
pub proof fn lemma_reconfigure_same_interval_sends_nothing(s: StateModel, enabled: bool)
    ensures
        spec_reconfigure(s, enabled, s.interval_minutes).1 is None,
        spec_reconfigure(s, enabled, s.interval_minutes).0.last_status == s.last_status,
{
}

/// Every reconfiguration that changes the interval sends exactly one
/// timer-rebuild signal, and it carries the new interval, which is also
/// the interval stored.
pub proof fn lemma_reconfigure_new_interval_sends_signal(s: StateModel, enabled: bool, interval_minutes: u64)
    requires
        interval_minutes != s.interval_minutes,
    ensures
        spec_reconfigure(s, enabled, interval_minutes).1 == Some(interval_minutes),
        spec_reconfigure(s, enabled, interval_minutes).0.interval_minutes == interval_minutes,
        spec_reconfigure(s, enabled, interval_minutes).0.last_status == s.last_status,
{
}

/// A manual trigger updates the cache even while periodic probing is
/// disabled: the probe transition never consults the enabled flag.
pub proof fn lemma_trigger_ignores_enabled(s: StateModel, o: ProbeOutputView, captured_at: Seq<char>)
    requires
        !s.enabled,
        spec_probe_accepted(o),
    ensures
        spec_apply_probe(s, o, captured_at).last_status == Some(spec_snapshot(o, captured_at)),
{
}

/// A rejected probe leaves the whole state untouched: the cache keeps
/// serving the previous successful snapshot, or stays absent if none ever
/// succeeded.
pub proof fn lemma_failed_probe_keeps_snapshot(s: StateModel, o: ProbeOutputView, captured_at: Seq<char>)
    requires
        !spec_probe_accepted(o),
    ensures
        spec_apply_probe(s, o, captured_at) == s,
{
}

} // verus!
