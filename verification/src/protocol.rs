//! Message taxonomy of the coordination layer: camera addressing, the global
//! broadcast events, actor lifecycle, and the uniform API response envelope.
//!
//! Broadcast events are plain values; the reply slot that accompanies a
//! query-style event travels beside the event in the unverified channel
//! plumbing, so every decision about an event can be made here, on plain
//! data.

use vstd::prelude::*;

use crate::config::ConfigSnapshot;
use crate::error::SorterError;
use crate::text::{has_prefix, str_has_prefix};

verus! {

/// Address of one camera: an ESPHome network camera named by hostname, or a
/// USB camera named by its stable hardware id.
#[derive(Debug, Clone, PartialEq, Eq)]
pub enum CameraType {
    EspHome(String),
    Usb(String),
}

/// Mathematical model of a [`CameraType`].
#[verifier::ext_equal]
pub enum CameraTypeView {
    EspHome(Seq<char>),
    Usb(Seq<char>),
}

impl View for CameraType {
    type V = CameraTypeView;

    open spec fn view(&self) -> CameraTypeView {
        match self {
            CameraType::EspHome(name) => CameraTypeView::EspHome(name@),
            CameraType::Usb(name) => CameraTypeView::Usb(name@),
        }
    }
}

impl DeepView for CameraType {
    type V = CameraTypeView;

    open spec fn deep_view(&self) -> CameraTypeView {
        self.view()
    }
}

/// The camera type denoted by a raw id string: ids carrying the USB prefix
/// address USB cameras, all others address ESPHome cameras.
pub open spec fn spec_camera_type_of_id(s: Seq<char>) -> CameraTypeView {
    if has_prefix(s, "usb:"@) {
        CameraTypeView::Usb(s.subrange("usb:"@.len() as int, s.len() as int))
    } else {
        CameraTypeView::EspHome(s)
    }
}

/// The raw id string of a camera type; the inverse of
/// [`spec_camera_type_of_id`] for USB ids.
pub open spec fn spec_camera_id(v: CameraTypeView) -> Seq<char> {
    match v {
        CameraTypeView::EspHome(name) => name,
        CameraTypeView::Usb(name) => "usb:"@ + name,
    }
}

impl CameraType {
    /// Classify a raw camera id by its prefix.
    pub fn from_id(camera_id: String) -> (r: CameraType)
        ensures
            r@ == spec_camera_type_of_id(camera_id@),
    {
        if str_has_prefix(camera_id.as_str(), "usb:") {
            proof {
                reveal_strlit("usb:");
            }
            let len = camera_id.as_str().unicode_len();
            let rest = camera_id.as_str().substring_char(4, len).to_owned();
            CameraType::Usb(rest)
        } else {
            CameraType::EspHome(camera_id)
        }
    }

    /// The raw id string of this camera, as serialized to the web layer.
    pub fn to_id(&self) -> (r: String)
        ensures
            r@ == spec_camera_id(self@),
    {
        match self {
            CameraType::EspHome(name) => name.clone(),
            CameraType::Usb(name) => "usb:".to_owned().concat(name.as_str()),
        }
    }
}

/// An id addresses a USB camera exactly when it carries the USB prefix, so
/// turning a camera type back into an id and classifying it again yields the
/// original value; ESPHome hostnames never carry the prefix.
pub proof fn lemma_camera_id_round_trip(v: CameraTypeView)
    requires
        v matches CameraTypeView::EspHome(name) ==> !has_prefix(name, "usb:"@),
    ensures
        spec_camera_type_of_id(spec_camera_id(v)) == v,
{
    match v {
        CameraTypeView::EspHome(name) => {},
        CameraTypeView::Usb(name) => {
            let s = "usb:"@ + name;
            assert(s.subrange(0, "usb:"@.len() as int) =~= "usb:"@);
            assert(s.subrange("usb:"@.len() as int, s.len() as int) =~= name);
        },
    }
}

/// Coarse-grained system events carried by the global broadcast bus.
///
/// Every actor subscribes independently and reacts only to the variants it
/// owns.  Query-style variants (`GetSensors`, `ControllerStatus`,
/// `MachineStatus`) are answered through a single-use reply slot that the
/// unverified channel layer pairs with the event.
#[derive(Debug, Clone)]
pub enum GlobalMessage {
    /// Drain in-flight work and stop every actor.
    Shutdown,
    /// Trigger the next-case sequence on the hardware controller.
    NextCase,
    /// Re-enumerate cameras of every kind.
    DetectCameras,
    /// Query the controller's sensor readings.
    GetSensors,
    /// Query the controller's status snapshot.
    ControllerStatus,
    /// Query the coarse machine status.
    MachineStatus,
    /// Replace the camera selection.
    SelectCameras(Vec<CameraType>),
    /// Start streaming from the named cameras.
    StartCameras(Vec<CameraType>),
    /// Stop all camera streaming.
    StopCameras,
    /// Store a software brightness value for one camera.
    SetCameraBrightness { camera_id: CameraType, brightness: i64 },
    /// Replace the configuration snapshot.
    NewConfig(ConfigSnapshot),
}

/// Lifecycle of a device actor.
///
/// `Starting` covers initialization and the first detect cycle; `Running` is
/// the command loop; a shutdown event moves the actor to `Draining` while it
/// finishes the in-flight operation, then to `Stopped`, where every further
/// command is refused and its reply slot dropped.
#[derive(Debug, Clone, Copy, PartialEq, Eq, Structural)]
pub enum Lifecycle {
    Starting,
    Running,
    Draining,
    Stopped,
}

/// An actor honors commands only while it is running.
pub open spec fn accepts_commands(l: Lifecycle) -> bool {
    l is Running
}

/// Uniform envelope for API responses handed back to the web layer.
pub struct ApiResponse<T> {
    pub success: bool,
    pub data: Option<T>,
    pub message: String,
}

impl<T> ApiResponse<T> {
    /// A successful response carrying `data`.
    pub fn success(data: T) -> (r: Self)
        ensures
            r.success == true,
            r.data == Some(data),
            r.message@ == "Success"@,
    {
        ApiResponse { success: true, data: Some(data), message: "Success".to_owned() }
    }

    /// A failed response carrying only a message.
    pub fn error(message: String) -> (r: Self)
        ensures
            r.success == false,
            r.data is None,
            r.message@ == message@,
    {
        ApiResponse { success: false, data: None, message }
    }
}

/// The uniform translation every actor handle applies to a reply: a value
/// that arrived is the answer; a reply slot that was dropped — because the
/// actor stopped or its channel closed — means the actor is gone, reported
/// as a clean error rather than a hang.
pub fn reply_or_unavailable<T>(reply: Option<T>) -> (r: Result<T, SorterError>)
    ensures
        match reply {
            Some(v) => r == Ok::<T, SorterError>(v),
            None => r == Err::<T, SorterError>(SorterError::ActorUnavailable),
        },
{
    match reply {
        Some(v) => Ok(v),
        None => Err(SorterError::ActorUnavailable),
    }
}

/// Sequential model of the global broadcast bus: the full publish history.
///
/// Each subscription keeps its own read cursor into the history, so a slow
/// subscriber never blocks publication and every subscriber sees every event
/// exactly once, in publish order.
pub struct EventBus {
    published: Vec<GlobalMessage>,
}

/// One subscriber's read position on the bus.
pub struct Subscription {
    pub cursor: usize,
}

impl EventBus {
    /// A bus with an empty history.
    pub fn new() -> (r: EventBus)
        ensures
            r.history() == Seq::<GlobalMessage>::empty(),
    {
        EventBus { published: Vec::new() }
    }

    /// The events published so far, oldest first.
    pub closed spec fn history(&self) -> Seq<GlobalMessage> {
        self.published@
    }

    /// Subscribe; the new subscriber will see exactly the events published
    /// after this point.
    pub fn subscribe(&self) -> (r: Subscription)
        ensures
            r.cursor == self.history().len(),
    {
        Subscription { cursor: self.published.len() }
    }

    /// Publish an event to every subscriber.
    pub fn publish(&mut self, event: GlobalMessage)
        ensures
            final(self).history() == old(self).history().push(event),
    {
        self.published.push(event);
    }

    /// The next unseen event for `sub`, if any; advances the cursor, so each
    /// event is delivered to each subscription exactly once and in publish
    /// order.
    pub fn next<'a>(&'a self, sub: &mut Subscription) -> (r: Option<&'a GlobalMessage>)
        requires
            old(sub).cursor <= self.history().len(),
        ensures
            match r {
                Some(event) => {
                    &&& *event == self.history()[old(sub).cursor as int]
                    &&& final(sub).cursor == old(sub).cursor + 1
                    &&& old(sub).cursor < self.history().len()
                },
                None => {
                    &&& final(sub).cursor == old(sub).cursor
                    &&& old(sub).cursor == self.history().len()
                },
            },
    {
        if sub.cursor < self.published.len() {
            let event = &self.published[sub.cursor];
            sub.cursor = sub.cursor + 1;
            Some(event)
        } else {
            None
        }
    }
}

} // verus!
