//! Controller monitor actor: the verified state machine behind the task
//! that owns the ESPHome hardware controller.
//!
//! The actor keeps the controller's health snapshot and decides how every
//! bus event and every probe outcome changes it.  The HTTP requests
//! themselves happen outside the core: the monitor hands out the exact URL
//! to call and takes the outcome back as a plain value, so the health
//! bookkeeping, the backoff decision and the configuration-change reset are
//! all verified.

use vstd::prelude::*;

use crate::config::ConfigSnapshot;
use crate::protocol::{accepts_commands, GlobalMessage, Lifecycle};
use crate::text::{ci_eq_seq, eq_ignore_ascii_case, spec_trim, trim_str, u32_dec};

verus! {

/// Health snapshot of the hardware controller.
#[derive(Debug)]
pub struct ControllerStatus {
    /// Whether the controller answered its last health check.
    pub online: bool,
    /// Hostname of the controller.
    pub hostname: String,
    /// When the controller last answered, in milliseconds since the Unix
    /// epoch.
    pub last_seen: Option<u64>,
    /// Round-trip time of the last answered request, in milliseconds.
    pub response_time_ms: Option<u64>,
    /// Consecutive failed health checks.
    pub error_count: u32,
    /// Controller uptime, when it reported one.
    pub uptime_seconds: Option<u64>,
}

/// Mathematical model of a [`ControllerStatus`].
#[verifier::ext_equal]
pub struct ControllerStatusView {
    pub online: bool,
    pub hostname: Seq<char>,
    pub last_seen: Option<u64>,
    pub response_time_ms: Option<u64>,
    pub error_count: u32,
    pub uptime_seconds: Option<u64>,
}

impl View for ControllerStatus {
    type V = ControllerStatusView;

    open spec fn view(&self) -> ControllerStatusView {
        ControllerStatusView {
            online: self.online,
            hostname: self.hostname@,
            last_seen: self.last_seen,
            response_time_ms: self.response_time_ms,
            error_count: self.error_count,
            uptime_seconds: self.uptime_seconds,
        }
    }
}

impl Clone for ControllerStatus {
    fn clone(&self) -> (r: Self)
        ensures
            r@ == self@,
    {
        ControllerStatus {
            online: self.online,
            hostname: self.hostname.clone(),
            last_seen: self.last_seen,
            response_time_ms: self.response_time_ms,
            error_count: self.error_count,
            uptime_seconds: self.uptime_seconds,
        }
    }
}

impl Default for ControllerStatus {
    /// An empty snapshot: offline, unnamed, never seen.
    fn default() -> (r: Self)
        ensures
            r@.online == false,
            r@.hostname == Seq::<char>::empty(),
            r@.last_seen is None,
            r@.response_time_ms is None,
            r@.error_count == 0,
            r@.uptime_seconds is None,
    {
        ControllerStatus {
            online: false,
            hostname: String::new(),
            last_seen: None,
            response_time_ms: None,
            error_count: 0,
            uptime_seconds: None,
        }
    }
}

/// Sensor readings from the controller.
#[derive(Debug, Clone, Copy, PartialEq, Eq, Structural)]
pub struct SensorReadings {
    pub case_ready: bool,
    pub case_in_view: bool,
    /// When the readings were taken, in seconds since the Unix epoch.
    pub timestamp: u64,
}

/// Coarse machine status reported to the dashboard.
#[derive(Debug)]
pub struct MachineStatus {
    pub status: String,
    pub ready: bool,
    pub active_jobs: u32,
    /// When the status was assembled, in seconds since the Unix epoch.
    pub last_update: u64,
}

/// Commands that can be sent to the controller.
#[derive(Debug)]
pub enum ControllerCommand {
    NextCase,
    GetStatus,
    GetSensors,
    GetHardwareStatus,
    TriggerVibration,
    SetServoPosition { servo: String, position: u8 },
    UpdateConfig { new_settings: Box<ConfigSnapshot> },
}

/// Responses from controller operations.
#[derive(Debug)]
pub enum ControllerResponse {
    Success(String),
    SensorData(SensorReadings),
    StatusData(MachineStatus),
    HardwareData(Vec<(String, String)>),
    Error(String),
    ConfigUpdated,
}

/// Outcome of one HTTP probe against the controller.
#[derive(Debug, Clone, Copy, PartialEq, Eq, Structural)]
pub enum ProbeOutcome {
    /// The controller answered; `success` tells whether with a success
    /// status.
    Responded { success: bool, response_time_ms: u64 },
    /// The transport failed before any answer arrived.
    Unreachable,
}

/// The controller monitor: the health snapshot the actor owns, plus its
/// lifecycle.
#[derive(Debug)]
pub struct ControllerMonitor {
    /// Latest known controller health.
    pub status: ControllerStatus,
    /// Where the actor stands in its lifecycle.
    pub lifecycle: Lifecycle,
}

/// Mathematical model of the whole [`ControllerMonitor`] state.
#[verifier::ext_equal]
pub struct ControllerMonitorView {
    pub status: ControllerStatusView,
    pub lifecycle: Lifecycle,
}

impl View for ControllerMonitor {
    type V = ControllerMonitorView;

    open spec fn view(&self) -> ControllerMonitorView {
        ControllerMonitorView { status: self.status@, lifecycle: self.lifecycle }
    }
}

/// What one health-check outcome does to the snapshot: an answer refreshes
/// `last_seen` and the response time and decides `online` by its status,
/// with the error counter cleared on success and advanced otherwise; an
/// unreachable controller keeps its `last_seen`, loses its response time,
/// and advances the counter.  The counter saturates instead of wrapping.
pub open spec fn health_check_transition(
    pre: ControllerStatusView,
    outcome: ProbeOutcome,
    now_ms: u64,
    post: ControllerStatusView,
) -> bool {
    &&& match outcome {
        ProbeOutcome::Responded { success, response_time_ms } => {
            &&& post.online == success
            &&& post.last_seen == Some(now_ms)
            &&& post.response_time_ms == Some(response_time_ms)
            &&& post.error_count == if success {
                0u32
            } else if pre.error_count < u32::MAX {
                (pre.error_count + 1) as u32
            } else {
                u32::MAX
            }
        },
        ProbeOutcome::Unreachable => {
            &&& post.online == false
            &&& post.last_seen == pre.last_seen
            &&& post.response_time_ms is None
            &&& post.error_count == if pre.error_count < u32::MAX {
                (pre.error_count + 1) as u32
            } else {
                u32::MAX
            }
        },
    }
    &&& post.hostname == pre.hostname
    &&& post.uptime_seconds == pre.uptime_seconds
}

/// What a configuration change does to the snapshot: a changed hostname
/// invalidates every cached health fact, an unchanged one changes nothing.
pub open spec fn config_change_transition(
    pre: ControllerStatusView,
    new_hostname: Seq<char>,
    post: ControllerStatusView,
) -> bool {
    if new_hostname == pre.hostname {
        post == pre
    } else {
        post == (ControllerStatusView {
            online: false,
            hostname: new_hostname,
            last_seen: None,
            response_time_ms: None,
            error_count: 0,
            uptime_seconds: pre.uptime_seconds,
        })
    }
}

impl ControllerMonitor {
    /// A fresh monitor for the configured controller: offline until the
    /// first health check, starting up.
    pub fn new(config: &ConfigSnapshot) -> (r: ControllerMonitor)
        ensures
            r@.status.online == false,
            r@.status.hostname == config@.esphome_hostname,
            r@.status.last_seen is None,
            r@.status.response_time_ms is None,
            r@.status.error_count == 0,
            r@.status.uptime_seconds is None,
            r@.lifecycle == Lifecycle::Starting,
    {
        ControllerMonitor {
            status: ControllerStatus {
                online: false,
                hostname: config.esphome_hostname.clone(),
                last_seen: None,
                response_time_ms: None,
                error_count: 0,
                uptime_seconds: None,
            },
            lifecycle: Lifecycle::Starting,
        }
    }

    /// The first health check is done; enter the command loop.
    pub fn begin_running(&mut self)
        ensures
            final(self)@ == (ControllerMonitorView {
                lifecycle: Lifecycle::Running,
                ..old(self)@
            }),
    {
        self.lifecycle = Lifecycle::Running;
    }

    /// Enter one health-check outcome; the returned flag asks the caller
    /// for a cooldown pause before the next tick, exactly when the
    /// controller was not healthy.
    pub fn apply_health_check(&mut self, outcome: ProbeOutcome, now_ms: u64) -> (cooldown: bool)
        ensures
            health_check_transition(old(self)@.status, outcome, now_ms, final(self)@.status),
            final(self)@.lifecycle == old(self)@.lifecycle,
            cooldown == !final(self)@.status.online,
    {
        match outcome {
            ProbeOutcome::Responded { success, response_time_ms } => {
                self.status.online = success;
                self.status.last_seen = Some(now_ms);
                self.status.response_time_ms = Some(response_time_ms);
                if success {
                    self.status.error_count = 0;
                } else if self.status.error_count < u32::MAX {
                    self.status.error_count = self.status.error_count + 1;
                }
                !success
            },
            ProbeOutcome::Unreachable => {
                self.status.online = false;
                self.status.response_time_ms = None;
                if self.status.error_count < u32::MAX {
                    self.status.error_count = self.status.error_count + 1;
                }
                true
            },
        }
    }

    /// Record the round trip of one successful request outside the health
    /// check, refreshing the response time and `last_seen`.
    pub fn record_response(&mut self, response_time_ms: u64, now_ms: u64)
        ensures
            final(self)@.status == (ControllerStatusView {
                response_time_ms: Some(response_time_ms),
                last_seen: Some(now_ms),
                ..old(self)@.status
            }),
            final(self)@.lifecycle == old(self)@.lifecycle,
    {
        self.status.response_time_ms = Some(response_time_ms);
        self.status.last_seen = Some(now_ms);
    }

    /// Take a new configuration: a changed controller hostname resets the
    /// cached health facts; see [`config_change_transition`].
    pub fn update_config(&mut self, new_settings: &ConfigSnapshot) -> (r: ControllerResponse)
        ensures
            config_change_transition(
                old(self)@.status,
                new_settings@.esphome_hostname,
                final(self)@.status,
            ),
            final(self)@.lifecycle == old(self)@.lifecycle,
            r is ConfigUpdated,
    {
        if !crate::text::str_eq(
            new_settings.esphome_hostname.as_str(),
            self.status.hostname.as_str(),
        ) {
            self.status.hostname = new_settings.esphome_hostname.clone();
            self.status.online = false;
            self.status.last_seen = None;
            self.status.response_time_ms = None;
            self.status.error_count = 0;
        }
        ControllerResponse::ConfigUpdated
    }

    /// The status snapshot handed to callers: a copy, never a live
    /// reference.
    pub fn get_status(&self) -> (r: ControllerStatus)
        ensures
            r@ == self@.status,
    {
        self.status.clone()
    }

    /// The coarse machine status derived from the health snapshot.
    pub fn machine_status_snapshot(&self, now_secs: u64) -> (r: MachineStatus)
        ensures
            r.status@ == if self@.status.online { "Ready"@ } else { "Offline"@ },
            r.ready == self@.status.online,
            r.active_jobs == 0,
            r.last_update == now_secs,
    {
        MachineStatus {
            status: if self.status.online {
                "Ready".to_owned()
            } else {
                "Offline".to_owned()
            },
            ready: self.status.online,
            active_jobs: 0,
            last_update: now_secs,
        }
    }

    /// The hardware status table shown on the dashboard: the controller's
    /// connection state and its configured hostname.
    pub fn hardware_status_summary(&self) -> (r: Vec<(String, String)>)
        ensures
            r@.len() == 2,
            r@[0].0@ == "controller"@,
            r@[0].1@ == if self@.status.online { "Connected"@ } else { "Disconnected"@ },
            r@[1].0@ == "esphome_hostname"@,
            r@[1].1@ == self@.status.hostname,
    {
        let mut r: Vec<(String, String)> = Vec::new();
        r.push(
            (
                "controller".to_owned(),
                if self.status.online {
                    "Connected".to_owned()
                } else {
                    "Disconnected".to_owned()
                },
            ),
        );
        r.push(("esphome_hostname".to_owned(), self.status.hostname.clone()));
        r
    }
}

/// Whether a binary-sensor answer means "on": the answer with surrounding
/// whitespace removed reads `ON`, in any letter case.
pub fn parse_binary_sensor(answer: &str) -> (r: bool)
    ensures
        r == ci_eq_seq(spec_trim(answer@), "ON"@),
{
    eq_ignore_ascii_case(trim_str(answer), "ON")
}

/// URL that triggers the next-case sequence on the controller.
pub fn next_case_url(hostname: &str) -> (r: String)
    ensures
        r@ == "http://"@ + hostname@ + "/button/trigger_next_case/press"@,
{
    let r = "http://".to_owned().concat(hostname).concat("/button/trigger_next_case/press");
    proof {
        assert(r@ =~= "http://"@ + hostname@ + "/button/trigger_next_case/press"@);
    }
    r
}

/// URL of the controller's root page, used by the health check.
pub fn health_check_url(hostname: &str) -> (r: String)
    ensures
        r@ == "http://"@ + hostname@ + "/"@,
{
    let r = "http://".to_owned().concat(hostname).concat("/");
    proof {
        assert(r@ =~= "http://"@ + hostname@ + "/"@);
    }
    r
}

/// URL of one of the controller's binary sensors.
pub fn binary_sensor_url(hostname: &str, sensor_name: &str) -> (r: String)
    ensures
        r@ == "http://"@ + hostname@ + "/binary_sensor/"@ + sensor_name@ + "/state"@,
{
    let r = "http://"
        .to_owned()
        .concat(hostname)
        .concat("/binary_sensor/")
        .concat(sensor_name)
        .concat("/state");
    proof {
        assert(r@ =~= "http://"@ + hostname@ + "/binary_sensor/"@ + sensor_name@ + "/state"@);
    }
    r
}

/// URL of the controller's device-info text sensor.
pub fn device_info_url(hostname: &str) -> (r: String)
    ensures
        r@ == "http://"@ + hostname@ + "/text_sensor/device_info/state"@,
{
    let r = "http://".to_owned().concat(hostname).concat("/text_sensor/device_info/state");
    proof {
        assert(r@ =~= "http://"@ + hostname@ + "/text_sensor/device_info/state"@);
    }
    r
}

/// URL that triggers the vibration motor.
pub fn vibration_url(hostname: &str) -> (r: String)
    ensures
        r@ == "http://"@ + hostname@ + "/switch/vibration_motor/turn_on"@,
{
    let r = "http://".to_owned().concat(hostname).concat("/switch/vibration_motor/turn_on");
    proof {
        assert(r@ =~= "http://"@ + hostname@ + "/switch/vibration_motor/turn_on"@);
    }
    r
}

/// URL that moves one of the controller's servos to a position.
pub fn servo_url(hostname: &str, servo: &str, position: u8) -> (r: String)
    ensures
        r@ == "http://"@ + hostname@ + "/number/"@ + servo@ + "/set?value="@
            + crate::text::spec_dec_digits(position as int),
{
    let r = "http://"
        .to_owned()
        .concat(hostname)
        .concat("/number/")
        .concat(servo)
        .concat("/set?value=")
        .concat(u32_dec(position as u32).as_str());
    proof {
        assert(r@ =~= "http://"@ + hostname@ + "/number/"@ + servo@ + "/set?value="@
            + crate::text::spec_dec_digits(position as int));
    }
    r
}

/// What the actor's surrounding loop must do after one bus event.
#[derive(Debug)]
pub enum ControllerStep {
    /// Nothing: the event is not for this actor.
    Noop,
    /// Send a press request to this URL, then enter the outcome with
    /// [`ControllerMonitor::apply_health_check`]-style bookkeeping or reply
    /// through the caller's slot.
    PressNextCase { url: String },
    /// Fetch both binary sensors at these URLs, classify each answer with
    /// [`parse_binary_sensor`], and reply with the readings.
    ReadSensors { case_ready_url: String, case_in_view_url: String },
    /// Send this status snapshot through the reply slot.
    ReplyStatus(ControllerStatus),
    /// Send this machine status through the reply slot.
    ReplyMachineStatus(MachineStatus),
    /// The actor observed a shutdown and has stopped; leave the loop.
    Exit,
    /// The actor no longer honors commands: drop the reply slot.
    Dropped,
}

impl ControllerMonitor {
    /// Dispatch one bus event: the explicit table from event variant to
    /// handler.  A stopped actor honors nothing.
    pub fn handle_event(&mut self, event: &GlobalMessage, now_secs: u64) -> (step: ControllerStep)
        ensures
            !accepts_commands(old(self)@.lifecycle) ==> step == ControllerStep::Dropped
                && final(self)@ == old(self)@,
            accepts_commands(old(self)@.lifecycle) ==> match event {
                GlobalMessage::Shutdown => {
                    &&& step == ControllerStep::Exit
                    &&& final(self)@ == (ControllerMonitorView {
                        lifecycle: Lifecycle::Stopped,
                        ..old(self)@
                    })
                },
                GlobalMessage::NextCase => {
                    &&& final(self)@ == old(self)@
                    &&& step matches ControllerStep::PressNextCase { url }
                    &&& url@ == "http://"@ + old(self)@.status.hostname
                        + "/button/trigger_next_case/press"@
                },
                GlobalMessage::GetSensors => {
                    &&& final(self)@ == old(self)@
                    &&& step matches ControllerStep::ReadSensors {
                        case_ready_url,
                        case_in_view_url,
                    }
                    &&& case_ready_url@ == "http://"@ + old(self)@.status.hostname
                        + "/binary_sensor/"@ + "case_ready_to_feed"@ + "/state"@
                    &&& case_in_view_url@ == "http://"@ + old(self)@.status.hostname
                        + "/binary_sensor/"@ + "case_in_camera_view"@ + "/state"@
                },
                GlobalMessage::ControllerStatus => {
                    &&& final(self)@ == old(self)@
                    &&& step matches ControllerStep::ReplyStatus(s)
                    &&& s@ == old(self)@.status
                },
                GlobalMessage::MachineStatus => {
                    &&& final(self)@ == old(self)@
                    &&& step matches ControllerStep::ReplyMachineStatus(m)
                    &&& m.status@ == if old(self)@.status.online { "Ready"@ } else { "Offline"@ }
                    &&& m.ready == old(self)@.status.online
                    &&& m.active_jobs == 0
                    &&& m.last_update == now_secs
                },
                GlobalMessage::NewConfig(new_settings) => {
                    &&& step == ControllerStep::Noop
                    &&& config_change_transition(
                        old(self)@.status,
                        new_settings@.esphome_hostname,
                        final(self)@.status,
                    )
                    &&& final(self)@.lifecycle == old(self)@.lifecycle
                },
                _ => step == ControllerStep::Noop && final(self)@ == old(self)@,
            },
    {
        if !matches!(self.lifecycle, Lifecycle::Running) {
            return ControllerStep::Dropped;
        }
        match event {
            GlobalMessage::Shutdown => {
                self.lifecycle = Lifecycle::Stopped;
                ControllerStep::Exit
            },
            GlobalMessage::NextCase => ControllerStep::PressNextCase {
                url: next_case_url(self.status.hostname.as_str()),
            },
            GlobalMessage::GetSensors => ControllerStep::ReadSensors {
                case_ready_url: binary_sensor_url(
                    self.status.hostname.as_str(),
                    "case_ready_to_feed",
                ),
                case_in_view_url: binary_sensor_url(
                    self.status.hostname.as_str(),
                    "case_in_camera_view",
                ),
            },
            GlobalMessage::ControllerStatus => ControllerStep::ReplyStatus(self.get_status()),
            GlobalMessage::MachineStatus => ControllerStep::ReplyMachineStatus(
                self.machine_status_snapshot(now_secs),
            ),
            GlobalMessage::NewConfig(new_settings) => {
                self.update_config(new_settings);
                ControllerStep::Noop
            },
            _ => ControllerStep::Noop,
        }
    }
}

} // verus!
