//! ESPHome network camera directory actor: the verified state machine
//! behind the task that owns the configured network cameras.
//!
//! Network cameras are configured out of band and may come back online, so
//! a camera that fails its probe stays in the directory and is only marked
//! offline — unlike USB cameras, which are removed when an enumeration no
//! longer lists them.  The HTTP probes and snapshot fetches happen outside
//! the core; their outcomes come back in as plain values.

use vstd::prelude::*;

use crate::error::SorterError;
use crate::protocol::{accepts_commands, GlobalMessage, Lifecycle};
use crate::text::{has_prefix, str_eq};

verus! {

/// One ESPHome network camera and its derived URLs.
#[derive(Debug)]
pub struct CameraInfo {
    /// Base address of the camera, scheme included.
    pub hostname: String,
    /// URL of the camera's MJPEG stream.
    pub stream_url: String,
    /// URL of the camera's still snapshot.
    pub snapshot_url: String,
    /// Whether the camera answered its last probe.
    pub online: bool,
}

/// Mathematical model of a [`CameraInfo`].
#[verifier::ext_equal]
pub struct CameraInfoView {
    pub hostname: Seq<char>,
    pub stream_url: Seq<char>,
    pub snapshot_url: Seq<char>,
    pub online: bool,
}

impl View for CameraInfo {
    type V = CameraInfoView;

    open spec fn view(&self) -> CameraInfoView {
        CameraInfoView {
            hostname: self.hostname@,
            stream_url: self.stream_url@,
            snapshot_url: self.snapshot_url@,
            online: self.online,
        }
    }
}

impl DeepView for CameraInfo {
    type V = CameraInfoView;

    open spec fn deep_view(&self) -> CameraInfoView {
        self.view()
    }
}

impl Clone for CameraInfo {
    fn clone(&self) -> (r: Self)
        ensures
            r@ == self@,
    {
        CameraInfo {
            hostname: self.hostname.clone(),
            stream_url: self.stream_url.clone(),
            snapshot_url: self.snapshot_url.clone(),
            online: self.online,
        }
    }
}

/// The base address derived from a raw camera id.
pub open spec fn spec_camera_hostname(camera_id: Seq<char>) -> Seq<char> {
    "http://"@ + camera_id
}

/// The record a fresh directory derives from one configured camera id:
/// base address and the stream and snapshot endpoints under it, assumed
/// online until a probe says otherwise.
pub open spec fn spec_camera_info_of(camera_id: Seq<char>) -> CameraInfoView {
    CameraInfoView {
        hostname: spec_camera_hostname(camera_id),
        stream_url: spec_camera_hostname(camera_id) + "/camera/stream"@,
        snapshot_url: spec_camera_hostname(camera_id) + "/camera/snapshot"@,
        online: true,
    }
}

impl CameraInfo {
    /// Derive the record for one configured camera id.
    pub fn from_id(camera_id: String) -> (r: CameraInfo)
        ensures
            r@ == spec_camera_info_of(camera_id@),
    {
        let hostname = "http://".to_owned().concat(camera_id.as_str());
        let stream_url = hostname.clone().concat("/camera/stream");
        let snapshot_url = hostname.clone().concat("/camera/snapshot");
        let r = CameraInfo { hostname, stream_url, snapshot_url, online: true };
        proof {
            assert(r@ =~= spec_camera_info_of(camera_id@));
        }
        r
    }
}

/// Status snapshot of the network camera directory.
#[derive(Debug)]
pub struct CameraStatus {
    /// Known network cameras, uniquely identified by base address.
    pub cameras: Vec<CameraInfo>,
    /// Raw ids of the currently selected cameras.
    pub selected_cameras: Vec<String>,
    /// Whether streaming is enabled.
    pub streaming: bool,
}

/// Mathematical model of a [`CameraStatus`].
#[verifier::ext_equal]
pub struct CameraStatusView {
    pub cameras: Seq<CameraInfoView>,
    pub selected_cameras: Seq<Seq<char>>,
    pub streaming: bool,
}

impl View for CameraStatus {
    type V = CameraStatusView;

    open spec fn view(&self) -> CameraStatusView {
        CameraStatusView {
            cameras: self.cameras.deep_view(),
            selected_cameras: self.selected_cameras.deep_view(),
            streaming: self.streaming,
        }
    }
}

/// `cam` is the record derived from one of the configured ids.
pub open spec fn spec_from_hostname(ids: Seq<Seq<char>>, cam: CameraInfoView) -> bool {
    exists|j: int| 0 <= j < ids.len() && cam == spec_camera_info_of(#[trigger] ids[j])
}

/// Some camera in `cameras` was derived from the raw id `camera_id`.
pub open spec fn spec_has_esp_camera(cameras: Seq<CameraInfoView>, camera_id: Seq<char>) -> bool {
    exists|k: int|
        0 <= k < cameras.len() && cameras[k].hostname == spec_camera_hostname(camera_id)
}

/// The network camera directory: the state the actor owns, plus its
/// lifecycle.
#[derive(Debug)]
pub struct EspCameraManager {
    /// Current camera status snapshot.
    pub status: CameraStatus,
    /// Where the actor stands in its lifecycle.
    pub lifecycle: Lifecycle,
}

/// Mathematical model of the whole [`EspCameraManager`] state.
#[verifier::ext_equal]
pub struct EspManagerView {
    pub cameras: Seq<CameraInfoView>,
    pub selected_cameras: Seq<Seq<char>>,
    pub streaming: bool,
    pub lifecycle: Lifecycle,
}

impl View for EspCameraManager {
    type V = EspManagerView;

    open spec fn view(&self) -> EspManagerView {
        EspManagerView {
            cameras: self.status.cameras.deep_view(),
            selected_cameras: self.status.selected_cameras.deep_view(),
            streaming: self.status.streaming,
            lifecycle: self.lifecycle,
        }
    }
}

/// Camera base addresses are unique.
pub open spec fn esp_wf(v: EspManagerView) -> bool {
    forall|a: int, b: int|
        0 <= a < b < v.cameras.len() ==> v.cameras[a].hostname != v.cameras[b].hostname
}

/// `pre` with another selection.
pub open spec fn esp_with_selection(pre: EspManagerView, ids: Seq<Seq<char>>) -> EspManagerView {
    EspManagerView {
        cameras: pre.cameras,
        selected_cameras: ids,
        streaming: pre.streaming,
        lifecycle: pre.lifecycle,
    }
}

/// `pre` with another streaming flag.
pub open spec fn esp_with_streaming(pre: EspManagerView, streaming: bool) -> EspManagerView {
    EspManagerView {
        cameras: pre.cameras,
        selected_cameras: pre.selected_cameras,
        streaming,
        lifecycle: pre.lifecycle,
    }
}

/// All-or-nothing selection over raw camera ids, as for the USB directory.
pub open spec fn esp_select_transition(
    pre: EspManagerView,
    ids: Seq<Seq<char>>,
    post: EspManagerView,
    r: Result<(), SorterError>,
) -> bool {
    if forall|i: int| 0 <= i < ids.len() ==> spec_has_esp_camera(pre.cameras, #[trigger] ids[i]) {
        &&& r is Ok
        &&& post == esp_with_selection(pre, ids)
    } else {
        &&& post == pre
        &&& r matches Err(e)
        &&& e matches SorterError::NotFound(m)
        &&& exists|i: int|
            {
                &&& 0 <= i < ids.len()
                &&& !spec_has_esp_camera(pre.cameras, #[trigger] ids[i])
                &&& forall|j: int|
                    0 <= j < i ==> spec_has_esp_camera(pre.cameras, #[trigger] ids[j])
                &&& m@ == ids[i]
            }
    }
}

/// A probe outcome marks every camera at that base address online or
/// offline; the camera set itself never shrinks on a probe.
pub open spec fn esp_probe_transition(
    pre: EspManagerView,
    hostname: Seq<char>,
    online: bool,
    post: EspManagerView,
) -> bool {
    &&& post.cameras.len() == pre.cameras.len()
    &&& forall|k: int|
        0 <= k < pre.cameras.len() ==> #[trigger] post.cameras[k] == if pre.cameras[k].hostname
            == hostname {
            CameraInfoView { online, ..pre.cameras[k] }
        } else {
            pre.cameras[k]
        }
    &&& post.selected_cameras == pre.selected_cameras
    &&& post.streaming == pre.streaming
    &&& post.lifecycle == pre.lifecycle
}

/// Find the camera whose base address was derived from `camera_id`.
fn find_esp_camera(cameras: &Vec<CameraInfo>, camera_id: &str) -> (r: Option<usize>)
    ensures
        match r {
            Some(k) => k < cameras.deep_view().len() && cameras.deep_view()[k as int].hostname
                == spec_camera_hostname(camera_id@),
            None => !spec_has_esp_camera(cameras.deep_view(), camera_id@),
        },
{
    let url = "http://".to_owned().concat(camera_id);
    let mut k: usize = 0;
    while k < cameras.len()
        invariant
            url@ == spec_camera_hostname(camera_id@),
            k <= cameras@.len(),
            forall|j: int|
                0 <= j < k ==> cameras.deep_view()[j].hostname != spec_camera_hostname(camera_id@),
        decreases cameras@.len() - k,
    {
        if str_eq(cameras[k].hostname.as_str(), url.as_str()) {
            return Some(k);
        }
        k += 1;
    }
    None
}

impl EspCameraManager {
    /// A fresh network camera directory for the configured hostnames, one
    /// camera per distinct id, each assumed online until probed.
    pub fn new(network_camera_hostnames: Vec<String>) -> (r: EspCameraManager)
        ensures
            esp_wf(r@),
            forall|j: int|
                0 <= j < network_camera_hostnames.deep_view().len() ==> spec_has_esp_camera(
                    r@.cameras,
                    #[trigger] network_camera_hostnames.deep_view()[j],
                ),
            forall|k: int|
                0 <= k < r@.cameras.len() ==> spec_from_hostname(
                    network_camera_hostnames.deep_view(),
                    #[trigger] r@.cameras[k],
                ),
            r@.selected_cameras == Seq::<Seq<char>>::empty(),
            r@.streaming == false,
            r@.lifecycle == Lifecycle::Starting,
    {
        let mut cameras: Vec<CameraInfo> = Vec::new();
        let ghost ids = network_camera_hostnames.deep_view();
        let mut j: usize = 0;
        while j < network_camera_hostnames.len()
            invariant
                j <= network_camera_hostnames@.len(),
                ids == network_camera_hostnames.deep_view(),
                ids.len() == network_camera_hostnames@.len(),
                forall|a: int, b: int|
                    0 <= a < b < cameras.deep_view().len() ==> cameras.deep_view()[a].hostname
                        != cameras.deep_view()[b].hostname,
                forall|i: int|
                    0 <= i < j ==> spec_has_esp_camera(cameras.deep_view(), #[trigger] ids[i]),
                forall|k: int|
                    0 <= k < cameras.deep_view().len() ==> spec_from_hostname(
                        ids,
                        #[trigger] cameras.deep_view()[k],
                    ),
            decreases network_camera_hostnames@.len() - j,
        {
            let ghost cams0 = cameras.deep_view();
            match find_esp_camera(&cameras, network_camera_hostnames[j].as_str()) {
                Some(_) => {
                    proof {
                        assert(spec_has_esp_camera(cameras.deep_view(), ids[j as int]));
                    }
                },
                None => {
                    let info = CameraInfo::from_id(network_camera_hostnames[j].clone());
                    cameras.push(info);
                    proof {
                        assert(cameras.deep_view()[cams0.len() as int] == spec_camera_info_of(
                            ids[j as int],
                        ));
                        assert forall|i: int| 0 <= i < j + 1 implies spec_has_esp_camera(
                            cameras.deep_view(),
                            #[trigger] ids[i],
                        ) by {
                            if i < j {
                                let k0 = choose|k0: int|
                                    0 <= k0 < cams0.len() && cams0[k0].hostname
                                        == spec_camera_hostname(ids[i]);
                                assert(cameras.deep_view()[k0].hostname == spec_camera_hostname(
                                    ids[i],
                                ));
                            } else {
                                assert(cameras.deep_view()[cams0.len() as int].hostname
                                    == spec_camera_hostname(ids[i]));
                            }
                        }
                        assert forall|k: int| 0 <= k < cameras.deep_view().len() implies
                            spec_from_hostname(ids, #[trigger] cameras.deep_view()[k]) by {
                            if k < cams0.len() {
                                assert(cameras.deep_view()[k] == cams0[k]);
                                assert(spec_from_hostname(ids, cams0[k]));
                            } else {
                                assert(cameras.deep_view()[k] == spec_camera_info_of(
                                    ids[j as int],
                                ));
                                assert(spec_from_hostname(ids, cameras.deep_view()[k]));
                            }
                        }
                        assert forall|a: int, b: int|
                            0 <= a < b < cameras.deep_view().len() implies cameras.deep_view()[a].hostname
                            != cameras.deep_view()[b].hostname by {
                            if b == cams0.len() {
                                assert(cameras.deep_view()[a] == cams0[a]);
                                if cams0[a].hostname == spec_camera_hostname(ids[j as int]) {
                                    assert(spec_has_esp_camera(cams0, ids[j as int]));
                                }
                            } else {
                                assert(cameras.deep_view()[a] == cams0[a]);
                                assert(cameras.deep_view()[b] == cams0[b]);
                            }
                        }
                    }
                },
            }
            j += 1;
        }
        let ghost camsv = cameras.deep_view();
        let r = EspCameraManager {
            status: CameraStatus { cameras, selected_cameras: Vec::new(), streaming: false },
            lifecycle: Lifecycle::Starting,
        };
        proof {
            assert(r@.selected_cameras =~= Seq::<Seq<char>>::empty());
            assert forall|i: int| 0 <= i < ids.len() implies spec_has_esp_camera(
                r@.cameras,
                #[trigger] ids[i],
            ) by {
                let k0 = choose|k0: int|
                    0 <= k0 < camsv.len() && camsv[k0].hostname == spec_camera_hostname(ids[i]);
                assert(r@.cameras[k0].hostname == spec_camera_hostname(ids[i]));
            }
            assert forall|k: int| 0 <= k < r@.cameras.len() implies spec_from_hostname(
                network_camera_hostnames.deep_view(),
                #[trigger] r@.cameras[k],
            ) by {
                assert(r@.cameras[k] == camsv[k]);
                assert(spec_from_hostname(ids, camsv[k]));
            }
        }
        r
    }

    /// The initial probe cycle is done; enter the command loop.
    pub fn begin_running(&mut self)
        ensures
            final(self)@ == (EspManagerView { lifecycle: Lifecycle::Running, ..old(self)@ }),
    {
        self.lifecycle = Lifecycle::Running;
    }

    /// A shutdown event was observed; the actor is gone.
    pub fn stop(&mut self)
        ensures
            final(self)@ == (EspManagerView { lifecycle: Lifecycle::Stopped, ..old(self)@ }),
    {
        self.lifecycle = Lifecycle::Stopped;
    }

    /// The base addresses to probe in a detect cycle: every known camera,
    /// online or not.
    pub fn probe_targets(&self) -> (r: Vec<String>)
        ensures
            r.deep_view().len() == self@.cameras.len(),
            forall|k: int|
                0 <= k < self@.cameras.len() ==> #[trigger] r.deep_view()[k]
                    == self@.cameras[k].hostname,
    {
        let mut r: Vec<String> = Vec::new();
        let mut k: usize = 0;
        while k < self.status.cameras.len()
            invariant
                k <= self.status.cameras@.len(),
                r@.len() == k,
                forall|j: int|
                    0 <= j < k ==> #[trigger] r.deep_view()[j] == self@.cameras[j].hostname,
            decreases self.status.cameras@.len() - k,
        {
            let ghost prev = r.deep_view();
            r.push(self.status.cameras[k].hostname.clone());
            proof {
                assert forall|j: int| 0 <= j < k + 1 implies #[trigger] r.deep_view()[j]
                    == self@.cameras[j].hostname by {
                    if j < k {
                        assert(r.deep_view()[j] == prev[j]);
                    } else {
                        assert(r.deep_view()[j] == r@[j]@);
                    }
                }
            }
            k += 1;
        }
        r
    }

    /// Enter one probe outcome: the camera at that base address is marked
    /// online or offline; it stays in the directory either way.
    pub fn record_probe(&mut self, hostname: &str, online: bool)
        ensures
            esp_probe_transition(old(self)@, hostname@, online, final(self)@),
    {
        let ghost pre = self@;
        let n = self.status.cameras.len();
        let mut k: usize = 0;
        while k < n
            invariant
                k <= n,
                n == self.status.cameras@.len(),
                self@.cameras.len() == pre.cameras.len(),
                forall|j: int|
                    0 <= j < k ==> #[trigger] self@.cameras[j] == if pre.cameras[j].hostname
                        == hostname@ {
                        CameraInfoView { online, ..pre.cameras[j] }
                    } else {
                        pre.cameras[j]
                    },
                forall|j: int| k <= j < pre.cameras.len() ==> #[trigger] self@.cameras[j]
                    == pre.cameras[j],
                self@.selected_cameras == pre.selected_cameras,
                self@.streaming == pre.streaming,
                self@.lifecycle == pre.lifecycle,
            decreases n - k,
        {
            if str_eq(self.status.cameras[k].hostname.as_str(), hostname) {
                let ghost cur = self@.cameras;
                let mut entry = self.status.cameras.remove(k);
                entry.online = online;
                self.status.cameras.insert(k, entry);
                proof {
                    assert(self@.cameras =~= cur.update(
                        k as int,
                        CameraInfoView { online, ..cur[k as int] },
                    ));
                }
            }
            k += 1;
        }
    }

    /// Replace the camera selection, all or nothing, over raw camera ids.
    pub fn select_cameras(&mut self, camera_ids: Vec<String>) -> (r: Result<(), SorterError>)
        ensures
            esp_select_transition(old(self)@, camera_ids.deep_view(), final(self)@, r),
    {
        let mut i: usize = 0;
        while i < camera_ids.len()
            invariant
                i <= camera_ids@.len(),
                forall|j: int|
                    0 <= j < i ==> spec_has_esp_camera(
                        self@.cameras,
                        #[trigger] camera_ids.deep_view()[j],
                    ),
            decreases camera_ids@.len() - i,
        {
            if find_esp_camera(&self.status.cameras, camera_ids[i].as_str()).is_none() {
                proof {
                    assert(camera_ids.deep_view()[i as int] == camera_ids@[i as int]@);
                    assert(!spec_has_esp_camera(self@.cameras, camera_ids.deep_view()[i as int]));
                }
                return Err(SorterError::NotFound(camera_ids[i].clone()));
            }
            i += 1;
        }
        self.status.selected_cameras = camera_ids;
        Ok(())
    }

    /// Enable streaming; legal with an empty selection.
    pub fn start_streaming(&mut self) -> (r: Result<(), SorterError>)
        ensures
            r is Ok,
            final(self)@ == esp_with_streaming(old(self)@, true),
    {
        self.status.streaming = true;
        Ok(())
    }

    /// Disable streaming, idempotently.
    pub fn stop_streaming(&mut self) -> (r: Result<(), SorterError>)
        ensures
            r is Ok,
            final(self)@ == esp_with_streaming(old(self)@, false),
    {
        self.status.streaming = false;
        Ok(())
    }

    /// Plan a capture: the camera must be known and online; the caller then
    /// fetches the returned snapshot URL and classifies the response with
    /// [`classify_snapshot_response`].  An offline camera is rejected here,
    /// before any network call is attempted.
    pub fn capture_plan(&self, camera_id: &str) -> (r: Result<String, SorterError>)
        ensures
            match r {
                Ok(url) => exists|k: int|
                    {
                        &&& 0 <= k < self@.cameras.len()
                        &&& (#[trigger] self@.cameras[k]).hostname == spec_camera_hostname(
                            camera_id@,
                        )
                        &&& self@.cameras[k].online
                        &&& url@ == self@.cameras[k].snapshot_url
                    },
                Err(e) => match e {
                    SorterError::NotFound(m) => !spec_has_esp_camera(self@.cameras, camera_id@)
                        && m@ == camera_id@,
                    SorterError::InvalidState(m) => exists|k: int|
                        {
                            &&& 0 <= k < self@.cameras.len()
                            &&& (#[trigger] self@.cameras[k]).hostname == spec_camera_hostname(
                                camera_id@,
                            )
                            &&& !self@.cameras[k].online
                        },
                    _ => false,
                },
            },
    {
        match find_esp_camera(&self.status.cameras, camera_id) {
            Some(k) => {
                proof {
                    assert(self@.cameras[k as int].hostname == spec_camera_hostname(camera_id@));
                }
                if self.status.cameras[k].online {
                    Ok(self.status.cameras[k].snapshot_url.clone())
                } else {
                    Err(SorterError::InvalidState(camera_id.to_owned()))
                }
            },
            None => Err(SorterError::NotFound(camera_id.to_owned())),
        }
    }

    /// The status snapshot handed to callers: a copy, never a live
    /// reference, so readers cannot observe partial writes.
    pub fn get_status(&self) -> (r: CameraStatus)
        ensures
            r@.cameras == self@.cameras,
            r@.selected_cameras == self@.selected_cameras,
            r@.streaming == self@.streaming,
    {
        let selected = crate::config::clone_string_vec(&self.status.selected_cameras);
        proof {
            assert(selected.deep_view() =~= self.status.selected_cameras.deep_view());
        }
        CameraStatus {
            cameras: self.list_cameras(),
            selected_cameras: selected,
            streaming: self.status.streaming,
        }
    }

    /// The cached camera list, without touching hardware.
    pub fn list_cameras(&self) -> (r: Vec<CameraInfo>)
        ensures
            r.deep_view() == self@.cameras,
    {
        let mut r: Vec<CameraInfo> = Vec::new();
        let mut k: usize = 0;
        while k < self.status.cameras.len()
            invariant
                k <= self.status.cameras@.len(),
                r@.len() == k,
                r.deep_view() == self@.cameras.take(k as int),
            decreases self.status.cameras@.len() - k,
        {
            let ghost prev = r.deep_view();
            let c = self.status.cameras[k].clone();
            proof {
                assert(c.deep_view() == self@.cameras[k as int]);
            }
            r.push(c);
            proof {
                assert forall|j: int| 0 <= j < k + 1 implies r.deep_view()[j]
                    == self@.cameras.take(k + 1)[j] by {
                    if j < k {
                        assert(r.deep_view()[j] == prev[j]);
                    } else {
                        assert(r.deep_view()[j] == self@.cameras[k as int]);
                    }
                }
                assert(r.deep_view() =~= self@.cameras.take(k + 1));
            }
            k += 1;
        }
        proof {
            assert(self@.cameras.take(self@.cameras.len() as int) =~= self@.cameras);
        }
        r
    }
}

/// The URL probed to verify that an address belongs to an ESPHome device:
/// the device-info text sensor under the camera's base address, with the
/// scheme prefixed only where the address does not already carry one.
pub fn probe_url(hostname: &str) -> (r: String)
    ensures
        has_prefix(hostname@, "http://"@) ==> r@ == hostname@ + "/text_sensor/device_info"@,
        !has_prefix(hostname@, "http://"@) ==> r@ == "http://"@ + hostname@
            + "/text_sensor/device_info"@,
{
    let base = if crate::text::str_has_prefix(hostname, "http://") {
        hostname.to_owned()
    } else {
        "http://".to_owned().concat(hostname)
    };
    base.concat("/text_sensor/device_info")
}

/// Classify the response to a snapshot fetch: a success status yields the
/// body bytes, any other status is a protocol error carrying that status.
pub fn classify_snapshot_response(status: u16, body: Vec<u8>) -> (r: Result<Vec<u8>, SorterError>)
    ensures
        200 <= status < 300 ==> (r matches Ok(bytes) && bytes@ == body@),
        !(200 <= status < 300) ==> r == Err::<Vec<u8>, SorterError>(SorterError::Protocol(status)),
{
    if 200 <= status && status < 300 {
        Ok(body)
    } else {
        Err(SorterError::Protocol(status))
    }
}

/// What the actor's surrounding loop must do after one bus event.
#[derive(Debug)]
pub enum EspStep {
    /// Nothing: the event is not for this actor.
    Noop,
    /// Probe every address in the list, then enter each outcome with
    /// [`EspCameraManager::record_probe`].
    Probe(Vec<String>),
    /// The actor observed a shutdown and has stopped; leave the loop.
    Exit,
    /// The actor no longer honors commands.
    Dropped,
}

impl EspCameraManager {
    /// Dispatch one bus event: the explicit table from event variant to
    /// handler.  A stopped actor honors nothing.
    pub fn handle_event(&mut self, event: &GlobalMessage) -> (step: EspStep)
        ensures
            !accepts_commands(old(self)@.lifecycle) ==> step == EspStep::Dropped && final(self)@
                == old(self)@,
            accepts_commands(old(self)@.lifecycle) ==> match event {
                GlobalMessage::Shutdown => {
                    &&& step == EspStep::Exit
                    &&& final(self)@ == (EspManagerView {
                        lifecycle: Lifecycle::Stopped,
                        ..old(self)@
                    })
                },
                GlobalMessage::DetectCameras => {
                    &&& final(self)@ == old(self)@
                    &&& step matches EspStep::Probe(targets)
                    &&& targets.deep_view().len() == old(self)@.cameras.len()
                    &&& forall|k: int|
                        0 <= k < old(self)@.cameras.len() ==> #[trigger] targets.deep_view()[k]
                            == old(self)@.cameras[k].hostname
                },
                GlobalMessage::StartCameras(_) => {
                    &&& step == EspStep::Noop
                    &&& final(self)@ == esp_with_streaming(old(self)@, true)
                },
                GlobalMessage::StopCameras => {
                    &&& step == EspStep::Noop
                    &&& final(self)@ == esp_with_streaming(old(self)@, false)
                },
                _ => step == EspStep::Noop && final(self)@ == old(self)@,
            },
    {
        if !matches!(self.lifecycle, Lifecycle::Running) {
            return EspStep::Dropped;
        }
        match event {
            GlobalMessage::Shutdown => {
                self.lifecycle = Lifecycle::Stopped;
                EspStep::Exit
            },
            GlobalMessage::DetectCameras => EspStep::Probe(self.probe_targets()),
            GlobalMessage::StartCameras(_) => {
                self.status.streaming = true;
                EspStep::Noop
            },
            GlobalMessage::StopCameras => {
                self.status.streaming = false;
                EspStep::Noop
            },
            _ => EspStep::Noop,
        }
    }
}

} // verus!
