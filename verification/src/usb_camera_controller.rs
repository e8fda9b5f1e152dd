//! USB camera directory actor: the verified state machine behind the task
//! that owns the locally attached USB cameras.
//!
//! The actor keeps the enumerated device set, the selection, the streaming
//! flag, and the per-camera software brightness values.  Enumerating the
//! hardware and grabbing frames happen outside the core; the results come
//! back in as plain values (`apply_detection`, `finish_capture`), so every
//! decision about them is verified.  USB devices are dynamically enumerable:
//! a device absent from a new enumeration is removed outright, unlike
//! network cameras, which are only flagged offline.

use vstd::prelude::*;

use crate::error::SorterError;
use crate::protocol::{accepts_commands, Lifecycle};

verus! {

/// One camera format choice (resolution, frame rate, pixel format).
#[derive(Debug)]
pub struct CameraFormatInfo {
    pub width: u32,
    pub height: u32,
    pub fps: u32,
    pub format: String,
}

/// Mathematical model of a [`CameraFormatInfo`].
#[verifier::ext_equal]
pub struct CameraFormatInfoView {
    pub width: u32,
    pub height: u32,
    pub fps: u32,
    pub format: Seq<char>,
}

impl View for CameraFormatInfo {
    type V = CameraFormatInfoView;

    open spec fn view(&self) -> CameraFormatInfoView {
        CameraFormatInfoView {
            width: self.width,
            height: self.height,
            fps: self.fps,
            format: self.format@,
        }
    }
}

impl DeepView for CameraFormatInfo {
    type V = CameraFormatInfoView;

    open spec fn deep_view(&self) -> CameraFormatInfoView {
        self.view()
    }
}

impl Clone for CameraFormatInfo {
    fn clone(&self) -> (r: Self)
        ensures
            r@ == self@,
    {
        CameraFormatInfo {
            width: self.width,
            height: self.height,
            fps: self.fps,
            format: self.format.clone(),
        }
    }
}

/// USB camera device information with hardware identification.
#[derive(Debug)]
pub struct UsbCameraInfo {
    /// Camera index for access through the capture backend.
    pub index: u32,
    /// Camera name/model.
    pub name: String,
    /// Hardware vendor id (USB VID), when the description reveals it.
    pub vendor_id: Option<String>,
    /// Hardware product id (USB PID), when the description reveals it.
    pub product_id: Option<String>,
    /// Device serial number, when the description reveals it.
    pub serial_number: Option<String>,
    /// Stable hardware-based identifier.
    pub hardware_id: String,
    /// Current connection status.
    pub connected: bool,
    /// Supported resolutions.
    pub supported_formats: Vec<CameraFormatInfo>,
    /// Currently selected format.
    pub current_format: Option<CameraFormatInfo>,
}

/// Mathematical model of a [`UsbCameraInfo`].
#[verifier::ext_equal]
pub struct UsbCameraInfoView {
    pub index: u32,
    pub name: Seq<char>,
    pub vendor_id: Option<Seq<char>>,
    pub product_id: Option<Seq<char>>,
    pub serial_number: Option<Seq<char>>,
    pub hardware_id: Seq<char>,
    pub connected: bool,
    pub supported_formats: Seq<CameraFormatInfoView>,
    pub current_format: Option<CameraFormatInfoView>,
}

impl View for UsbCameraInfo {
    type V = UsbCameraInfoView;

    open spec fn view(&self) -> UsbCameraInfoView {
        UsbCameraInfoView {
            index: self.index,
            name: self.name@,
            vendor_id: self.vendor_id.deep_view(),
            product_id: self.product_id.deep_view(),
            serial_number: self.serial_number.deep_view(),
            hardware_id: self.hardware_id@,
            connected: self.connected,
            supported_formats: self.supported_formats.deep_view(),
            current_format: self.current_format.deep_view(),
        }
    }
}

impl DeepView for UsbCameraInfo {
    type V = UsbCameraInfoView;

    open spec fn deep_view(&self) -> UsbCameraInfoView {
        self.view()
    }
}

/// Clone a vector of camera formats, keeping its model.
fn clone_formats(v: &Vec<CameraFormatInfo>) -> (r: Vec<CameraFormatInfo>)
    ensures
        r.deep_view() == v.deep_view(),
{
    let mut r: Vec<CameraFormatInfo> = Vec::new();
    proof {
        assert(r.deep_view() =~= v.deep_view().take(0));
    }
    let mut i: usize = 0;
    while i < v.len()
        invariant
            i <= v.len(),
            r@.len() == i,
            r.deep_view() == v.deep_view().take(i as int),
        decreases v.len() - i,
    {
        let ghost prev = r.deep_view();
        let c = v[i].clone();
        proof {
            assert(c.deep_view() == v.deep_view()[i as int]);
        }
        r.push(c);
        proof {
            assert forall|j: int| 0 <= j < i + 1 implies r.deep_view()[j] == v.deep_view().take(
                i + 1,
            )[j] by {
                if j < i {
                    assert(r.deep_view()[j] == prev[j]);
                } else {
                    assert(r.deep_view()[j] == v.deep_view()[i as int]);
                }
            }
            assert(r.deep_view() =~= v.deep_view().take(i + 1));
        }
        i += 1;
    }
    proof {
        assert(v.deep_view().take(v@.len() as int) =~= v.deep_view());
    }
    r
}

impl Clone for UsbCameraInfo {
    fn clone(&self) -> (r: Self)
        ensures
            r@ == self@,
    {
        let current_format = match &self.current_format {
            Some(f) => Some(f.clone()),
            None => None,
        };
        UsbCameraInfo {
            index: self.index,
            name: self.name.clone(),
            vendor_id: clone_opt_string(&self.vendor_id),
            product_id: clone_opt_string(&self.product_id),
            serial_number: clone_opt_string(&self.serial_number),
            hardware_id: self.hardware_id.clone(),
            connected: self.connected,
            supported_formats: clone_formats(&self.supported_formats),
            current_format,
        }
    }
}

/// Clone an optional string, keeping its model.
fn clone_opt_string(v: &Option<String>) -> (r: Option<String>)
    ensures
        r.deep_view() == v.deep_view(),
{
    match v {
        Some(s) => Some(s.clone()),
        None => None,
    }
}

/// Status snapshot of the USB camera directory.
#[derive(Debug)]
pub struct UsbCameraStatus {
    /// Known USB cameras, uniquely identified by hardware id.
    pub cameras: Vec<UsbCameraInfo>,
    /// Hardware ids of the currently selected cameras.
    pub selected_cameras: Vec<String>,
    /// Whether streaming is enabled.
    pub streaming: bool,
    /// When the last detect cycle ran, in milliseconds since the Unix epoch.
    pub last_detection: Option<u64>,
}

/// Mathematical model of a [`UsbCameraStatus`].
#[verifier::ext_equal]
pub struct UsbCameraStatusView {
    pub cameras: Seq<UsbCameraInfoView>,
    pub selected_cameras: Seq<Seq<char>>,
    pub streaming: bool,
    pub last_detection: Option<u64>,
}

impl View for UsbCameraStatus {
    type V = UsbCameraStatusView;

    open spec fn view(&self) -> UsbCameraStatusView {
        UsbCameraStatusView {
            cameras: self.cameras.deep_view(),
            selected_cameras: self.selected_cameras.deep_view(),
            streaming: self.streaming,
            last_detection: self.last_detection,
        }
    }
}

/// Some camera in `cameras` carries hardware id `id`.
pub open spec fn spec_has_camera(cameras: Seq<UsbCameraInfoView>, id: Seq<char>) -> bool {
    exists|k: int| 0 <= k < cameras.len() && cameras[k].hardware_id == id
}

/// The software brightness stored for `id`, or the neutral value 50 when
/// none was stored.
pub open spec fn spec_brightness(bs: Seq<(Seq<char>, i64)>, id: Seq<char>) -> i64
    decreases bs.len(),
{
    if bs.len() == 0 {
        50
    } else if bs[0].0 == id {
        bs[0].1
    } else {
        spec_brightness(bs.drop_first(), id)
    }
}

/// Some brightness entry carries key `id`.
pub open spec fn spec_has_bkey(bs: Seq<(Seq<char>, i64)>, id: Seq<char>) -> bool {
    exists|k: int| 0 <= k < bs.len() && bs[k].0 == id
}

proof fn lemma_brightness_absent(bs: Seq<(Seq<char>, i64)>, id: Seq<char>)
    requires
        !spec_has_bkey(bs, id),
    ensures
        spec_brightness(bs, id) == 50,
    decreases bs.len(),
{
    if bs.len() > 0 {
        assert(bs[0].0 != id);
        assert(!spec_has_bkey(bs.drop_first(), id)) by {
            if spec_has_bkey(bs.drop_first(), id) {
                let k = choose|k: int|
                    0 <= k < bs.drop_first().len() && bs.drop_first()[k].0 == id;
                assert(bs[k + 1].0 == id);
            }
        }
        lemma_brightness_absent(bs.drop_first(), id);
    }
}

proof fn lemma_brightness_at(bs: Seq<(Seq<char>, i64)>, i: int, id: Seq<char>)
    requires
        0 <= i < bs.len(),
        bs[i].0 == id,
        forall|k: int| 0 <= k < i ==> bs[k].0 != id,
    ensures
        spec_brightness(bs, id) == bs[i].1,
    decreases i,
{
    if i == 0 {
    } else {
        assert(bs[0].0 != id);
        lemma_brightness_at(bs.drop_first(), i - 1, id);
    }
}

proof fn lemma_brightness_push(bs: Seq<(Seq<char>, i64)>, p: (Seq<char>, i64), id: Seq<char>)
    ensures
        spec_brightness(bs.push(p), id) == if spec_has_bkey(bs, id) {
            spec_brightness(bs, id)
        } else if p.0 == id {
            p.1
        } else {
            50
        },
    decreases bs.len(),
{
    if bs.len() == 0 {
        assert(bs.push(p)[0] == p);
        assert(bs.push(p).drop_first() =~= Seq::<(Seq<char>, i64)>::empty());
        assert(spec_brightness(Seq::<(Seq<char>, i64)>::empty(), id) == 50);
        assert(!spec_has_bkey(bs, id));
    } else {
        assert(bs.push(p)[0] == bs[0]);
        assert(bs.push(p).drop_first() =~= bs.drop_first().push(p));
        lemma_brightness_push(bs.drop_first(), p, id);
        if bs[0].0 == id {
            assert(spec_has_bkey(bs, id));
            assert(spec_brightness(bs.push(p), id) == bs[0].1);
            assert(spec_brightness(bs, id) == bs[0].1);
        }
        if bs[0].0 != id {
            assert(spec_has_bkey(bs, id) == spec_has_bkey(bs.drop_first(), id)) by {
                if spec_has_bkey(bs, id) {
                    let k = choose|k: int| 0 <= k < bs.len() && bs[k].0 == id;
                    assert(bs.drop_first()[k - 1].0 == id);
                }
                if spec_has_bkey(bs.drop_first(), id) {
                    let k = choose|k: int|
                        0 <= k < bs.drop_first().len() && bs.drop_first()[k].0 == id;
                    assert(bs[k + 1].0 == id);
                }
            }
        }
    }
}

proof fn lemma_brightness_remove_other(bs: Seq<(Seq<char>, i64)>, i: int, id: Seq<char>)
    requires
        0 <= i < bs.len(),
        bs[i].0 != id,
    ensures
        spec_brightness(bs.remove(i), id) == spec_brightness(bs, id),
    decreases bs.len(),
{
    if i == 0 {
        assert(bs.remove(0) =~= bs.drop_first());
    } else {
        assert(bs.remove(i)[0] == bs[0]);
        assert(bs.remove(i).drop_first() =~= bs.drop_first().remove(i - 1));
        if bs[0].0 != id {
            lemma_brightness_remove_other(bs.drop_first(), i - 1, id);
        }
    }
}

/// The USB camera directory: the state the actor owns, plus its lifecycle.
///
/// The channel plumbing around the actor forwards each request to
/// [`UsbCameraManager::handle_request`] and performs the hardware work the
/// returned step asks for.
#[derive(Debug)]
pub struct UsbCameraManager {
    /// Current camera status snapshot.
    pub status: UsbCameraStatus,
    /// Software brightness values per camera (hardware id, brightness).
    pub brightness_adjustments: Vec<(String, i64)>,
    /// Where the actor stands in its lifecycle.
    pub lifecycle: Lifecycle,
}

/// Mathematical model of the whole [`UsbCameraManager`] state.
#[verifier::ext_equal]
pub struct UsbManagerView {
    pub cameras: Seq<UsbCameraInfoView>,
    pub selected_cameras: Seq<Seq<char>>,
    pub streaming: bool,
    pub last_detection: Option<u64>,
    pub brightness: Seq<(Seq<char>, i64)>,
    pub lifecycle: Lifecycle,
}

impl View for UsbCameraManager {
    type V = UsbManagerView;

    open spec fn view(&self) -> UsbManagerView {
        UsbManagerView {
            cameras: self.status.cameras.deep_view(),
            selected_cameras: self.status.selected_cameras.deep_view(),
            streaming: self.status.streaming,
            last_detection: self.status.last_detection,
            brightness: Seq::new(
                self.brightness_adjustments@.len(),
                |i: int|
                    (self.brightness_adjustments@[i].0@, self.brightness_adjustments@[i].1),
            ),
            lifecycle: self.lifecycle,
        }
    }
}

/// Camera ids and brightness keys are unique.
pub open spec fn usb_wf(v: UsbManagerView) -> bool {
    &&& forall|a: int, b: int|
        0 <= a < b < v.cameras.len() ==> v.cameras[a].hardware_id != v.cameras[b].hardware_id
    &&& forall|a: int, b: int|
        0 <= a < b < v.brightness.len() ==> v.brightness[a].0 != v.brightness[b].0
}

/// `post` is `pre` with another selection.
pub open spec fn usb_with_selection(pre: UsbManagerView, ids: Seq<Seq<char>>) -> UsbManagerView {
    UsbManagerView {
        cameras: pre.cameras,
        selected_cameras: ids,
        streaming: pre.streaming,
        last_detection: pre.last_detection,
        brightness: pre.brightness,
        lifecycle: pre.lifecycle,
    }
}

/// `post` is `pre` with another streaming flag.
pub open spec fn usb_with_streaming(pre: UsbManagerView, streaming: bool) -> UsbManagerView {
    UsbManagerView {
        cameras: pre.cameras,
        selected_cameras: pre.selected_cameras,
        streaming,
        last_detection: pre.last_detection,
        brightness: pre.brightness,
        lifecycle: pre.lifecycle,
    }
}

/// All-or-nothing selection: if every requested id is known the selection is
/// replaced, otherwise the state is left untouched and the first unknown id
/// is reported.
pub open spec fn usb_select_transition(
    pre: UsbManagerView,
    ids: Seq<Seq<char>>,
    post: UsbManagerView,
    r: Result<(), SorterError>,
) -> bool {
    if forall|i: int| 0 <= i < ids.len() ==> spec_has_camera(pre.cameras, #[trigger] ids[i]) {
        &&& r is Ok
        &&& post == usb_with_selection(pre, ids)
    } else {
        &&& post == pre
        &&& r matches Err(e)
        &&& e matches SorterError::NotFound(m)
        &&& exists|i: int|
            {
                &&& 0 <= i < ids.len()
                &&& !spec_has_camera(pre.cameras, #[trigger] ids[i])
                &&& forall|j: int| 0 <= j < i ==> spec_has_camera(pre.cameras, #[trigger] ids[j])
                &&& m@ == ids[i]
            }
    }
}

/// Brightness update: values outside [0, 255] and unknown cameras are
/// rejected without touching any state; an accepted value is stored for its
/// camera and no other.
pub open spec fn usb_set_brightness_transition(
    pre: UsbManagerView,
    id: Seq<char>,
    value: i64,
    post: UsbManagerView,
    r: Result<(), SorterError>,
) -> bool {
    if !(0 <= value <= 255) {
        &&& post == pre
        &&& r matches Err(e)
        &&& e is InvalidState
    } else if !spec_has_camera(pre.cameras, id) {
        &&& post == pre
        &&& r matches Err(e)
        &&& e matches SorterError::NotFound(m)
        &&& m@ == id
    } else {
        &&& r is Ok
        &&& post.cameras == pre.cameras
        &&& post.selected_cameras == pre.selected_cameras
        &&& post.streaming == pre.streaming
        &&& post.last_detection == pre.last_detection
        &&& post.lifecycle == pre.lifecycle
        &&& spec_brightness(post.brightness, id) == value
        &&& forall|other: Seq<char>|
            other != id ==> #[trigger] spec_brightness(post.brightness, other) == spec_brightness(
                pre.brightness,
                other,
            )
    }
}

/// Find the camera with hardware id `id`, if any.
fn find_camera(cameras: &Vec<UsbCameraInfo>, id: &str) -> (r: Option<usize>)
    ensures
        match r {
            Some(k) => k < cameras.deep_view().len() && cameras.deep_view()[k as int].hardware_id
                == id@,
            None => !spec_has_camera(cameras.deep_view(), id@),
        },
{
    let mut k: usize = 0;
    while k < cameras.len()
        invariant
            k <= cameras@.len(),
            forall|j: int| 0 <= j < k ==> cameras.deep_view()[j].hardware_id != id@,
        decreases cameras@.len() - k,
    {
        if crate::text::str_eq(cameras[k].hardware_id.as_str(), id) {
            return Some(k);
        }
        k += 1;
    }
    None
}

/// Find the first brightness entry for `id`, if any.
fn find_brightness(bs: &Vec<(String, i64)>, id: &str) -> (r: Option<usize>)
    ensures
        match r {
            Some(k) => k < bs@.len() && bs@[k as int].0@ == id@ && forall|j: int|
                0 <= j < k ==> bs@[j].0@ != id@,
            None => forall|j: int| 0 <= j < bs@.len() ==> bs@[j].0@ != id@,
        },
{
    let mut k: usize = 0;
    while k < bs.len()
        invariant
            k <= bs@.len(),
            forall|j: int| 0 <= j < k ==> bs@[j].0@ != id@,
        decreases bs@.len() - k,
    {
        if crate::text::str_eq(bs[k].0.as_str(), id) {
            return Some(k);
        }
        k += 1;
    }
    None
}

impl UsbCameraManager {
    /// A fresh USB camera directory: no cameras, nothing selected, not
    /// streaming, never detected, starting up.
    pub fn new() -> (r: UsbCameraManager)
        ensures
            r@.cameras == Seq::<UsbCameraInfoView>::empty(),
            r@.selected_cameras == Seq::<Seq<char>>::empty(),
            r@.streaming == false,
            r@.last_detection is None,
            r@.brightness == Seq::<(Seq<char>, i64)>::empty(),
            r@.lifecycle == Lifecycle::Starting,
            usb_wf(r@),
    {
        let r = UsbCameraManager {
            status: UsbCameraStatus {
                cameras: Vec::new(),
                selected_cameras: Vec::new(),
                streaming: false,
                last_detection: None,
            },
            brightness_adjustments: Vec::new(),
            lifecycle: Lifecycle::Starting,
        };
        proof {
            assert(r@.cameras =~= Seq::<UsbCameraInfoView>::empty());
            assert(r@.selected_cameras =~= Seq::<Seq<char>>::empty());
            assert(r@.brightness =~= Seq::<(Seq<char>, i64)>::empty());
        }
        r
    }

    /// The initial detect cycle is done; enter the command loop.
    pub fn begin_running(&mut self)
        ensures
            final(self)@ == (UsbManagerView { lifecycle: Lifecycle::Running, ..old(self)@ }),
    {
        self.lifecycle = Lifecycle::Running;
    }

    /// A shutdown event was observed: finish the in-flight operation, honor
    /// nothing further.
    pub fn begin_draining(&mut self)
        ensures
            final(self)@ == (UsbManagerView { lifecycle: Lifecycle::Draining, ..old(self)@ }),
    {
        self.lifecycle = Lifecycle::Draining;
    }

    /// The in-flight operation is done; the actor is gone.
    pub fn stop(&mut self)
        ensures
            final(self)@ == (UsbManagerView { lifecycle: Lifecycle::Stopped, ..old(self)@ }),
    {
        self.lifecycle = Lifecycle::Stopped;
    }

    /// Replace the camera selection, all or nothing: every requested id must
    /// name a known camera, otherwise the selection is left unchanged and
    /// the first unknown id is reported.
    pub fn select_cameras(&mut self, hardware_ids: Vec<String>) -> (r: Result<(), SorterError>)
        ensures
            usb_select_transition(old(self)@, hardware_ids.deep_view(), final(self)@, r),
    {
        let mut i: usize = 0;
        while i < hardware_ids.len()
            invariant
                i <= hardware_ids@.len(),
                forall|j: int|
                    0 <= j < i ==> spec_has_camera(
                        self@.cameras,
                        #[trigger] hardware_ids.deep_view()[j],
                    ),
            decreases hardware_ids@.len() - i,
        {
            if find_camera(&self.status.cameras, hardware_ids[i].as_str()).is_none() {
                proof {
                    assert(hardware_ids.deep_view()[i as int] == hardware_ids@[i as int]@);
                    assert(!spec_has_camera(self@.cameras, hardware_ids.deep_view()[i as int]));
                }
                return Err(SorterError::NotFound(hardware_ids[i].clone()));
            }
            i += 1;
        }
        self.status.selected_cameras = hardware_ids;
        Ok(())
    }

    /// Enable streaming.  Starting with an empty selection is legal: the
    /// selection may be populated later or stand for passive mode.
    pub fn start_streaming(&mut self) -> (r: Result<(), SorterError>)
        ensures
            r is Ok,
            final(self)@ == usb_with_streaming(old(self)@, true),
    {
        self.status.streaming = true;
        Ok(())
    }

    /// Disable streaming, idempotently.
    pub fn stop_streaming(&mut self) -> (r: Result<(), SorterError>)
        ensures
            r is Ok,
            final(self)@ == usb_with_streaming(old(self)@, false),
    {
        self.status.streaming = false;
        Ok(())
    }

    /// Store a software brightness value for one camera; see
    /// [`usb_set_brightness_transition`].
    pub fn set_brightness(&mut self, hardware_id: &str, brightness: i64) -> (r: Result<
        (),
        SorterError,
    >)
        requires
            usb_wf(old(self)@),
        ensures
            usb_set_brightness_transition(old(self)@, hardware_id@, brightness, final(self)@, r),
            usb_wf(final(self)@),
    {
        if brightness < 0 || brightness > 255 {
            return Err(
                SorterError::InvalidState("Brightness must be between 0 and 255".to_owned()),
            );
        }
        if find_camera(&self.status.cameras, hardware_id).is_none() {
            return Err(SorterError::NotFound(hardware_id.to_owned()));
        }
        let ghost pre = self@;
        match find_brightness(&self.brightness_adjustments, hardware_id) {
            Some(k) => {
                proof {
                    assert(pre.brightness[k as int].0 == hardware_id@);
                }
                self.brightness_adjustments.remove(k);
                proof {
                    assert(self@.brightness =~= pre.brightness.remove(k as int));
                    assert forall|other: Seq<char>| other != hardware_id@ implies spec_brightness(
                        self@.brightness,
                        other,
                    ) == spec_brightness(pre.brightness, other) by {
                        lemma_brightness_remove_other(pre.brightness, k as int, other);
                    }
                    assert forall|a: int, b: int|
                        0 <= a < b < self@.brightness.len() implies self@.brightness[a].0
                        != self@.brightness[b].0 by {
                        let pa: int = if a < k { a } else { a + 1 };
                        let pb: int = if b < k { b } else { b + 1 };
                        assert(self@.brightness[a] == pre.brightness[pa]);
                        assert(self@.brightness[b] == pre.brightness[pb]);
                    }
                    assert(!spec_has_bkey(self@.brightness, hardware_id@)) by {
                        if spec_has_bkey(self@.brightness, hardware_id@) {
                            let j = choose|j: int|
                                0 <= j < self@.brightness.len() && self@.brightness[j].0
                                    == hardware_id@;
                            if j < k {
                                assert(self@.brightness[j] == pre.brightness[j]);
                                assert(pre.brightness[j].0 == hardware_id@);
                            } else {
                                assert(self@.brightness[j] == pre.brightness[j + 1]);
                                assert(pre.brightness[j + 1].0 == hardware_id@);
                            }
                        }
                    }
                }
            },
            None => {
                proof {
                    assert(!spec_has_bkey(self@.brightness, hardware_id@));
                }
            },
        }
        let ghost mid = self@;
        proof {
            assert(forall|a: int, b: int|
                0 <= a < b < mid.brightness.len() ==> mid.brightness[a].0 != mid.brightness[b].0);
            assert(!spec_has_bkey(mid.brightness, hardware_id@));
        }
        self.brightness_adjustments.push((hardware_id.to_owned(), brightness));
        proof {
            assert(self@.brightness =~= mid.brightness.push((hardware_id@, brightness)));
            lemma_brightness_push(mid.brightness, (hardware_id@, brightness), hardware_id@);
            lemma_brightness_absent(mid.brightness, hardware_id@);
            assert forall|other: Seq<char>| other != hardware_id@ implies spec_brightness(
                self@.brightness,
                other,
            ) == spec_brightness(pre.brightness, other) by {
                lemma_brightness_push(mid.brightness, (hardware_id@, brightness), other);
                if !spec_has_bkey(mid.brightness, other) {
                    lemma_brightness_absent(mid.brightness, other);
                }
            }
            assert forall|a: int, b: int|
                0 <= a < b < self@.brightness.len() implies self@.brightness[a].0
                != self@.brightness[b].0 by {
                if b == self@.brightness.len() - 1 {
                    assert(self@.brightness[a] == mid.brightness[a]);
                    assert(self@.brightness[b].0 == hardware_id@);
                } else {
                    assert(self@.brightness[a] == mid.brightness[a]);
                    assert(self@.brightness[b] == mid.brightness[b]);
                }
            }
        }
        Ok(())
    }

    /// Read back the stored software brightness for one camera, 50 when none
    /// was stored; unknown cameras are rejected.
    pub fn get_brightness(&self, hardware_id: &str) -> (r: Result<i64, SorterError>)
        ensures
            if spec_has_camera(self@.cameras, hardware_id@) {
                r == Ok::<i64, SorterError>(spec_brightness(self@.brightness, hardware_id@))
            } else {
                &&& r matches Err(e)
                &&& e matches SorterError::NotFound(m)
                &&& m@ == hardware_id@
            },
    {
        if find_camera(&self.status.cameras, hardware_id).is_none() {
            return Err(SorterError::NotFound(hardware_id.to_owned()));
        }
        match find_brightness(&self.brightness_adjustments, hardware_id) {
            Some(k) => {
                proof {
                    lemma_brightness_at(self@.brightness, k as int, hardware_id@);
                }
                Ok(self.brightness_adjustments[k].1)
            },
            None => {
                proof {
                    assert(!spec_has_bkey(self@.brightness, hardware_id@));
                    lemma_brightness_absent(self@.brightness, hardware_id@);
                }
                Ok(50)
            },
        }
    }

    /// The cached camera list, without touching hardware.
    pub fn list_cameras(&self) -> (r: Vec<UsbCameraInfo>)
        ensures
            r.deep_view() == self@.cameras,
    {
        clone_cameras(&self.status.cameras)
    }

    /// Plan a capture from one camera: the camera must be known; the caller
    /// then grabs a frame at the returned index and finishes with
    /// [`finish_capture`] under the returned brightness.
    pub fn capture_plan(&self, hardware_id: &str) -> (r: Result<(u32, i64), SorterError>)
        ensures
            match r {
                Ok(plan) => {
                    &&& spec_has_camera(self@.cameras, hardware_id@)
                    &&& exists|k: int|
                        0 <= k < self@.cameras.len() && self@.cameras[k].hardware_id
                            == hardware_id@ && plan.0 == #[trigger] self@.cameras[k].index
                    &&& plan.1 == spec_brightness(self@.brightness, hardware_id@)
                },
                Err(e) => {
                    &&& !spec_has_camera(self@.cameras, hardware_id@)
                    &&& e matches SorterError::NotFound(m)
                    &&& m@ == hardware_id@
                },
            },
    {
        match find_camera(&self.status.cameras, hardware_id) {
            Some(k) => {
                proof {
                    assert(self@.cameras[k as int].hardware_id == hardware_id@);
                    assert(spec_has_camera(self@.cameras, hardware_id@));
                }
                let index = self.status.cameras[k].index;
                proof {
                    assert(index == self@.cameras[k as int].index);
                }
                let brightness = match find_brightness(&self.brightness_adjustments, hardware_id) {
                    Some(j) => {
                        proof {
                            lemma_brightness_at(self@.brightness, j as int, hardware_id@);
                        }
                        self.brightness_adjustments[j].1
                    },
                    None => {
                        proof {
                            assert(!spec_has_bkey(self@.brightness, hardware_id@));
                            lemma_brightness_absent(self@.brightness, hardware_id@);
                        }
                        50
                    },
                };
                Ok((index, brightness))
            },
            None => Err(SorterError::NotFound(hardware_id.to_owned())),
        }
    }
}

/// `cam` appears in `detected` at or after position `from`, at a position
/// after which its hardware id never occurs again (the entry that a detect
/// cycle keeps for its id).
pub open spec fn spec_kept_occurrence(
    detected: Seq<UsbCameraInfoView>,
    from: int,
    cam: UsbCameraInfoView,
) -> bool {
    exists|j: int|
        {
            &&& from <= j < detected.len()
            &&& #[trigger] detected[j] == cam
            &&& forall|j2: int|
                j < j2 < detected.len() ==> (#[trigger] detected[j2]).hardware_id
                    != detected[j].hardware_id
        }
}

/// Outcome of a detect cycle: the camera set is replaced by the new
/// enumeration with duplicate hardware ids collapsed (the last occurrence
/// wins), so a device absent from the enumeration is absent afterwards;
/// selection, streaming, brightness and lifecycle are untouched.
pub open spec fn usb_detection_transition(
    pre: UsbManagerView,
    detected: Seq<UsbCameraInfoView>,
    timestamp_ms: u64,
    post: UsbManagerView,
) -> bool {
    &&& forall|a: int, b: int|
        0 <= a < b < post.cameras.len() ==> post.cameras[a].hardware_id
            != post.cameras[b].hardware_id
    &&& forall|k: int|
        0 <= k < post.cameras.len() ==> spec_kept_occurrence(
            detected,
            0,
            #[trigger] post.cameras[k],
        )
    &&& forall|j: int|
        0 <= j < detected.len() ==> spec_has_camera(
            post.cameras,
            (#[trigger] detected[j]).hardware_id,
        )
    &&& post.selected_cameras == pre.selected_cameras
    &&& post.streaming == pre.streaming
    &&& post.last_detection == Some(timestamp_ms)
    &&& post.brightness == pre.brightness
    &&& post.lifecycle == pre.lifecycle
}

impl UsbCameraManager {
    /// Take the result of a hardware enumeration: replace the camera set
    /// (collapsing duplicate hardware ids, last occurrence winning), stamp
    /// the detection time, and hand the full enumeration back for the reply.
    pub fn apply_detection(&mut self, detected: Vec<UsbCameraInfo>, timestamp_ms: u64) -> (r: Vec<
        UsbCameraInfo,
    >)
        ensures
            usb_detection_transition(
                old(self)@,
                detected.deep_view(),
                timestamp_ms,
                final(self)@,
            ),
            r.deep_view() == detected.deep_view(),
    {
        let ghost dv = detected.deep_view();
        let mut cams: Vec<UsbCameraInfo> = Vec::new();
        let mut i: usize = detected.len();
        while i > 0
            invariant
                i <= detected@.len(),
                dv == detected.deep_view(),
                dv.len() == detected@.len(),
                forall|a: int, b: int|
                    0 <= a < b < cams.deep_view().len() ==> cams.deep_view()[a].hardware_id
                        != cams.deep_view()[b].hardware_id,
                forall|k: int|
                    0 <= k < cams.deep_view().len() ==> spec_kept_occurrence(
                        dv,
                        i as int,
                        #[trigger] cams.deep_view()[k],
                    ),
                forall|j: int|
                    i <= j < dv.len() ==> spec_has_camera(
                        cams.deep_view(),
                        (#[trigger] dv[j]).hardware_id,
                    ),
            decreases i,
        {
            i -= 1;
            let ghost cams0 = cams.deep_view();
            match find_camera(&cams, detected[i].hardware_id.as_str()) {
                Some(_) => {
                    proof {
                        assert(spec_has_camera(cams.deep_view(), dv[i as int].hardware_id));
                    }
                },
                None => {
                    let c = detected[i].clone();
                    proof {
                        assert(c.deep_view() == dv[i as int]);
                        assert forall|j2: int|
                            i < j2 < dv.len() implies (#[trigger] dv[j2]).hardware_id
                            != dv[i as int].hardware_id by {
                            assert(spec_has_camera(cams0, dv[j2].hardware_id));
                        }
                    }
                    cams.push(c);
                    proof {
                        assert(cams@.len() == cams0.len() + 1);
                        assert forall|k: int| 0 <= k < cams.deep_view().len() implies
                            spec_kept_occurrence(dv, i as int, #[trigger] cams.deep_view()[k]) by {
                            if k < cams0.len() {
                                assert(cams.deep_view()[k] == cams0[k]);
                                assert(spec_kept_occurrence(dv, i + 1, cams0[k]));
                                let j0 = choose|j0: int|
                                    {
                                        &&& i + 1 <= j0 < dv.len()
                                        &&& #[trigger] dv[j0] == cams0[k]
                                        &&& forall|j2: int|
                                            j0 < j2 < dv.len() ==> (#[trigger] dv[j2]).hardware_id
                                                != dv[j0].hardware_id
                                    };
                                assert(i <= j0 < dv.len() && dv[j0] == cams.deep_view()[k]);
                            } else {
                                assert(cams.deep_view()[k] == dv[i as int]);
                                assert(spec_kept_occurrence(dv, i as int, dv[i as int]));
                            }
                        }
                        assert forall|j: int| i <= j < dv.len() implies spec_has_camera(
                            cams.deep_view(),
                            (#[trigger] dv[j]).hardware_id,
                        ) by {
                            if j == i {
                                assert(cams.deep_view()[cams0.len() as int].hardware_id
                                    == dv[i as int].hardware_id);
                            } else {
                                let k0 = choose|k0: int|
                                    0 <= k0 < cams0.len() && cams0[k0].hardware_id
                                        == dv[j].hardware_id;
                                assert(cams.deep_view()[k0].hardware_id == dv[j].hardware_id);
                            }
                        }
                        assert forall|a: int, b: int|
                            0 <= a < b < cams.deep_view().len() implies cams.deep_view()[a].hardware_id
                            != cams.deep_view()[b].hardware_id by {
                            if b == cams0.len() {
                                assert(cams.deep_view()[a] == cams0[a]);
                                if cams0[a].hardware_id == dv[i as int].hardware_id {
                                    assert(spec_has_camera(cams0, dv[i as int].hardware_id));
                                }
                            } else {
                                assert(cams.deep_view()[a] == cams0[a]);
                                assert(cams.deep_view()[b] == cams0[b]);
                            }
                        }
                    }
                },
            }
        }
        let ghost camsv = cams.deep_view();
        self.status.cameras = cams;
        self.status.last_detection = Some(timestamp_ms);
        proof {
            assert forall|k: int| 0 <= k < self@.cameras.len() implies spec_kept_occurrence(
                dv,
                0,
                #[trigger] self@.cameras[k],
            ) by {
                assert(self@.cameras[k] == camsv[k]);
                assert(spec_kept_occurrence(dv, 0, camsv[k]));
            }
            assert(usb_detection_transition(old(self)@, dv, timestamp_ms, self@));
        }
        detected
    }

}

/// One pixel channel under the software brightness gain.
///
/// A brightness of 50 is neutral.  Values above 50 scale the channel up by
/// `1 + 6 (b - 50) / 100` (clamped to 255), values below 50 scale it down by
/// `b / 50`, a linear gain in both directions.
pub open spec fn spec_gain_pixel(p: u8, b: i64) -> u8
    recommends
        0 <= b <= 255,
{
    let offset = (b - 50) * 2;
    if offset >= 0 {
        let scaled = (p as int) * (100 + 3 * offset) / 100;
        if scaled > 255 {
            255u8
        } else {
            scaled as u8
        }
    } else {
        ((p as int) * (100 + offset) / 100) as u8
    }
}

/// A pixel buffer under the software brightness gain, channel by channel.
pub open spec fn spec_gain_seq(s: Seq<u8>, b: i64) -> Seq<u8> {
    Seq::new(s.len(), |i: int| spec_gain_pixel(s[i], b))
}

/// Apply the software brightness gain to a raw pixel buffer in place.
pub fn apply_gain(pixels: &mut Vec<u8>, brightness: i64)
    requires
        0 <= brightness <= 255,
    ensures
        final(pixels)@ == spec_gain_seq(old(pixels)@, brightness),
{
    let offset: i64 = (brightness - 50) * 2;
    let factor: i64 = if offset >= 0 {
        100 + 3 * offset
    } else {
        100 + offset
    };
    let ghost orig = pixels@;
    let n = pixels.len();
    let mut i: usize = 0;
    while i < n
        invariant
            i <= n,
            n == pixels@.len(),
            pixels@.len() == orig.len(),
            offset == (brightness - 50) * 2,
            factor == if offset >= 0 { 100 + 3 * offset } else { 100 + offset as int },
            0 <= brightness <= 255,
            forall|j: int| 0 <= j < i ==> pixels@[j] == spec_gain_pixel(orig[j], brightness),
            forall|j: int| i <= j < n ==> pixels@[j] == orig[j],
        decreases n - i,
    {
        let p = pixels[i];
        proof {
            assert((p as i64) * factor <= 255 * 1330 && 0 <= (p as i64) * factor) by (nonlinear_arith)
                requires
                    0 <= p <= 255,
                    0 <= factor <= 1330,
            ;
        }
        let scaled: i64 = (p as i64) * factor / 100;
        let np: u8 = if scaled > 255 {
            255
        } else {
            proof {
                assert(0 <= scaled <= 255);
            }
            scaled as u8
        };
        pixels.set(i, np);
        proof {
            assert(np == spec_gain_pixel(orig[i as int], brightness)) by {
                if offset < 0 {
                    assert((p as int) * factor <= (p as int) * 100) by (nonlinear_arith)
                        requires
                            0 <= p,
                            0 <= factor <= 100,
                    ;
                    assert((p as int) * factor / 100 <= 255);
                }
            }
        }
        i += 1;
    }
    proof {
        assert(pixels@ =~= spec_gain_seq(orig, brightness));
    }
}

/// Result of encoding an RGB buffer of the given dimensions as JPEG; the
/// encoding depends on the pixel data and dimensions alone.
pub uninterp spec fn jpeg_of(width: u32, height: u32, rgb: Seq<u8>) -> Seq<u8>;

/// Relies on image::RgbImage::from_raw and image::DynamicImage::write_to
/// to encode an RGB buffer as JPEG; the buffer length matches the
/// dimensions, so the image is well-formed and the encoding is a function
/// of the pixel data and dimensions alone.  Within JPEG's dimension range
/// (1 through 65535 on each side) the encoder succeeds: its only error for
/// a well-formed RGB buffer is an out-of-range dimension, and writing into
/// a vector cannot fail.
#[verifier::external_body]
fn encode_jpeg(width: u32, height: u32, rgb: &Vec<u8>) -> (r: Result<Vec<u8>, SorterError>)
    requires
        rgb@.len() == 3 * width * height,
    ensures
        r matches Ok(bytes) ==> bytes@ == jpeg_of(width, height, rgb@),
        1 <= width <= 65535 && 1 <= height <= 65535 ==> r is Ok,
{
    let image = match image::RgbImage::from_raw(width, height, rgb.clone()) {
        Some(image) => image,
        None => return Err(SorterError::InvalidState("pixel buffer size mismatch".to_string())),
    };
    let mut jpeg_data = Vec::new();
    let mut cursor = std::io::Cursor::new(&mut jpeg_data);
    match image::DynamicImage::ImageRgb8(image).write_to(&mut cursor, image::ImageFormat::Jpeg) {
        Ok(()) => Ok(jpeg_data),
        Err(e) => Err(SorterError::InvalidState(e.to_string())),
    }
}

/// Finish a capture: apply the camera's software brightness gain to the raw
/// frame, then encode it as JPEG.  A frame whose dimensions fit JPEG's
/// range (1 through 65535 on each side) always encodes.
pub fn finish_capture(width: u32, height: u32, rgb: Vec<u8>, brightness: i64) -> (r: Result<
    Vec<u8>,
    SorterError,
>)
    requires
        0 <= brightness <= 255,
        rgb@.len() == 3 * width * height,
    ensures
        r matches Ok(bytes) ==> bytes@ == jpeg_of(
            width,
            height,
            spec_gain_seq(rgb@, brightness),
        ),
        1 <= width <= 65535 && 1 <= height <= 65535 ==> r is Ok,
{
    let mut pixels = rgb;
    apply_gain(&mut pixels, brightness);
    encode_jpeg(width, height, &pixels)
}

/// The fixed table of formats assumed for cameras whose backend cannot
/// report real capabilities: four common MJPEG resolutions at 30 fps.
pub open spec fn spec_default_formats() -> Seq<CameraFormatInfoView> {
    seq![
        CameraFormatInfoView { width: 320, height: 240, fps: 30, format: "MJPEG"@ },
        CameraFormatInfoView { width: 640, height: 480, fps: 30, format: "MJPEG"@ },
        CameraFormatInfoView { width: 1280, height: 720, fps: 30, format: "MJPEG"@ },
        CameraFormatInfoView { width: 1920, height: 1080, fps: 30, format: "MJPEG"@ },
    ]
}

/// The fixed table of formats assumed for cameras whose backend cannot
/// report real capabilities.
pub fn default_formats() -> (r: Vec<CameraFormatInfo>)
    ensures
        r.deep_view() == spec_default_formats(),
{
    let mut r: Vec<CameraFormatInfo> = Vec::new();
    r.push(CameraFormatInfo { width: 320, height: 240, fps: 30, format: "MJPEG".to_owned() });
    r.push(CameraFormatInfo { width: 640, height: 480, fps: 30, format: "MJPEG".to_owned() });
    r.push(CameraFormatInfo { width: 1280, height: 720, fps: 30, format: "MJPEG".to_owned() });
    r.push(CameraFormatInfo { width: 1920, height: 1080, fps: 30, format: "MJPEG".to_owned() });
    proof {
        assert(r.deep_view() =~= spec_default_formats());
    }
    r
}

/// Result of scanning a camera description for a USB vendor id pattern; the
/// result depends on the description alone.
pub uninterp spec fn vendor_id_of(description: Seq<char>) -> Option<Seq<char>>;

/// Result of scanning a camera description for a USB product id pattern;
/// the result depends on the description alone.
pub uninterp spec fn product_id_of(description: Seq<char>) -> Option<Seq<char>>;

/// Result of scanning a camera description for a serial number pattern; the
/// result depends on the description alone.
pub uninterp spec fn serial_number_of(description: Seq<char>) -> Option<Seq<char>>;

/// Relies on regex::Regex::new and regex::Regex::captures with a fixed
/// vendor-id pattern, then upper-cases the captured hex digits; the result
/// depends on the description alone.
#[verifier::external_body]
fn parse_vendor_id_from_description(description: &str) -> (r: Option<String>)
    ensures
        r.deep_view() == vendor_id_of(description@),
{
    let re = match regex::Regex::new(r"(?i)vid[_:]([0-9a-f]{4})") {
        Ok(re) => re,
        Err(_) => return None,
    };
    re.captures(description).and_then(|c| c.get(1)).map(|m| m.as_str().to_uppercase())
}

/// Relies on regex::Regex::new and regex::Regex::captures with a fixed
/// product-id pattern, then upper-cases the captured hex digits; the result
/// depends on the description alone.
#[verifier::external_body]
fn parse_product_id_from_description(description: &str) -> (r: Option<String>)
    ensures
        r.deep_view() == product_id_of(description@),
{
    let re = match regex::Regex::new(r"(?i)pid[_:]([0-9a-f]{4})") {
        Ok(re) => re,
        Err(_) => return None,
    };
    re.captures(description).and_then(|c| c.get(1)).map(|m| m.as_str().to_uppercase())
}

/// Relies on regex::Regex::new and regex::Regex::captures with a fixed
/// serial-number pattern, then upper-cases the captured digits; the result
/// depends on the description alone.
#[verifier::external_body]
fn parse_serial_from_description(description: &str) -> (r: Option<String>)
    ensures
        r.deep_view() == serial_number_of(description@),
{
    let re = match regex::Regex::new(r"(?i)s[en]r?[_:]([0-9a-f]+)") {
        Ok(re) => re,
        Err(_) => return None,
    };
    re.captures(description).and_then(|c| c.get(1)).map(|m| m.as_str().to_uppercase())
}

/// Result of lower-casing a string; the result depends on the characters
/// alone.
pub uninterp spec fn lower_of(s: Seq<char>) -> Seq<char>;

/// Relies on str::to_lowercase: the result depends on the characters alone.
#[verifier::external_body]
fn lowercase(s: &str) -> (r: String)
    ensures
        r@ == lower_of(s@),
{
    s.to_lowercase()
}

/// The stable hardware id of a camera: built from vendor and product id
/// plus serial number where the description reveals them, else from the
/// serial-less vendor data and the camera name, else from the description
/// and the enumeration index.
pub open spec fn spec_hardware_id(
    index: u32,
    name: Seq<char>,
    description: Seq<char>,
    vid: Option<Seq<char>>,
    pid: Option<Seq<char>>,
    serial: Option<Seq<char>>,
) -> Seq<char> {
    if vid is Some && pid is Some {
        let base = "usb:"@ + vid->0 + ":"@ + pid->0 + ":"@;
        match serial {
            Some(s) => base + s,
            None => base + lower_of(crate::text::spec_replace_spaces(name)),
        }
    } else {
        "usb:"@ + lower_of(crate::text::spec_replace_spaces(description)) + ":"@
            + crate::text::spec_dec_digits(index as int)
    }
}

/// Generate the stable hardware id for one enumerated camera.
pub fn generate_hardware_id(
    index: u32,
    name: &str,
    description: &str,
    vendor_id: &Option<String>,
    product_id: &Option<String>,
    serial_number: &Option<String>,
) -> (r: String)
    ensures
        r@ == spec_hardware_id(
            index,
            name@,
            description@,
            vendor_id.deep_view(),
            product_id.deep_view(),
            serial_number.deep_view(),
        ),
{
    let r = match (vendor_id, product_id) {
        (Some(vid), Some(pid)) => {
            let base = "usb:"
                .to_owned()
                .concat(vid.as_str())
                .concat(":")
                .concat(pid.as_str())
                .concat(":");
            match serial_number {
                Some(s) => base.concat(s.as_str()),
                None => base.concat(lowercase(crate::text::replace_spaces(name).as_str()).as_str()),
            }
        },
        _ => {
            "usb:"
                .to_owned()
                .concat(lowercase(crate::text::replace_spaces(description).as_str()).as_str())
                .concat(":")
                .concat(crate::text::u32_dec(index).as_str())
        },
    };
    proof {
        assert(r@ =~= spec_hardware_id(
            index,
            name@,
            description@,
            vendor_id.deep_view(),
            product_id.deep_view(),
            serial_number.deep_view(),
        ));
    }
    r
}

/// Build the record for one enumerated camera: parse hardware identifiers
/// out of the backend's description, derive the stable hardware id, and
/// assume the default format table.
pub fn create_camera_info(index: u32, name: String, description: &str) -> (r: UsbCameraInfo)
    ensures
        r@.index == index,
        r@.name == name@,
        r@.vendor_id == vendor_id_of(description@),
        r@.product_id == product_id_of(description@),
        r@.serial_number == serial_number_of(description@),
        r@.hardware_id == spec_hardware_id(
            index,
            name@,
            description@,
            vendor_id_of(description@),
            product_id_of(description@),
            serial_number_of(description@),
        ),
        r@.connected == true,
        r@.supported_formats == spec_default_formats(),
        r@.current_format is None,
{
    let vendor_id = parse_vendor_id_from_description(description);
    let product_id = parse_product_id_from_description(description);
    let serial_number = parse_serial_from_description(description);
    let hardware_id = generate_hardware_id(
        index,
        name.as_str(),
        description,
        &vendor_id,
        &product_id,
        &serial_number,
    );
    UsbCameraInfo {
        index,
        name,
        vendor_id,
        product_id,
        serial_number,
        hardware_id,
        connected: true,
        supported_formats: default_formats(),
        current_format: None,
    }
}

/// USB camera control commands, one per operation the actor serializes.
#[derive(Debug)]
pub enum UsbCameraRequest {
    /// Detect and enumerate USB cameras.
    DetectCameras,
    /// List currently known cameras.
    ListCameras,
    /// Select cameras for operations.
    SelectCameras { hardware_ids: Vec<String> },
    /// Start streaming from selected cameras.
    StartStreaming,
    /// Stop all streaming.
    StopStreaming,
    /// Capture an image from one camera.
    CaptureImage { hardware_id: String },
    /// Capture one streaming frame from one camera.
    CaptureStreamingFrame { hardware_id: String },
    /// Get the current status snapshot.
    GetStatus,
    /// Store a software brightness value for one camera.
    SetBrightness { hardware_id: String, brightness: i64 },
    /// Read back the software brightness of one camera.
    GetBrightness { hardware_id: String },
    /// Record the format one camera should use.
    SetCameraFormat { hardware_id: String, format: CameraFormatInfo },
}

/// An immediate answer to a USB camera request.
#[derive(Debug)]
pub enum UsbReply {
    /// The camera list.
    Cameras(Vec<UsbCameraInfo>),
    /// The operation succeeded with nothing to return.
    Done,
    /// The operation failed.
    Failed(SorterError),
    /// The status snapshot.
    Status(UsbCameraStatus),
    /// A brightness value.
    Brightness(i64),
}

/// What the actor's surrounding loop must do after one dispatch step.
#[derive(Debug)]
pub enum UsbStep {
    /// Send this answer through the reply slot.
    Reply(UsbReply),
    /// Enumerate the hardware, then enter the result with
    /// [`UsbCameraManager::apply_detection`] and reply with the enumeration.
    Enumerate,
    /// Grab a frame from the camera at `index`, then finish with
    /// [`finish_capture`] under `brightness` and reply with its result.
    Capture { index: u32, brightness: i64 },
    /// The actor no longer honors commands: drop the reply slot, so the
    /// caller sees the actor as gone instead of hanging.
    Dropped,
}

/// Format update: the format is recorded for every camera carrying the id
/// (unknown ids change nothing), and nothing else moves.
pub open spec fn usb_set_format_transition(
    pre: UsbManagerView,
    id: Seq<char>,
    format: CameraFormatInfoView,
    post: UsbManagerView,
) -> bool {
    &&& post.cameras.len() == pre.cameras.len()
    &&& forall|k: int|
        0 <= k < pre.cameras.len() ==> #[trigger] post.cameras[k] == if pre.cameras[k].hardware_id
            == id {
            UsbCameraInfoView { current_format: Some(format), ..pre.cameras[k] }
        } else {
            pre.cameras[k]
        }
    &&& post.selected_cameras == pre.selected_cameras
    &&& post.streaming == pre.streaming
    &&& post.last_detection == pre.last_detection
    &&& post.brightness == pre.brightness
    &&& post.lifecycle == pre.lifecycle
}

impl UsbCameraManager {
    /// Record the format a camera should use; see
    /// [`usb_set_format_transition`].
    pub fn set_camera_format(&mut self, hardware_id: &str, format: CameraFormatInfo) -> (r: Result<
        (),
        SorterError,
    >)
        ensures
            r is Ok,
            usb_set_format_transition(old(self)@, hardware_id@, format@, final(self)@),
    {
        let ghost pre = self@;
        let ghost fv = format@;
        let n = self.status.cameras.len();
        let mut k: usize = 0;
        while k < n
            invariant
                k <= n,
                n == self.status.cameras@.len(),
                fv == format@,
                self@.cameras.len() == pre.cameras.len(),
                forall|j: int|
                    0 <= j < k ==> #[trigger] self@.cameras[j] == if pre.cameras[j].hardware_id
                        == hardware_id@ {
                        UsbCameraInfoView { current_format: Some(fv), ..pre.cameras[j] }
                    } else {
                        pre.cameras[j]
                    },
                forall|j: int| k <= j < pre.cameras.len() ==> #[trigger] self@.cameras[j]
                    == pre.cameras[j],
                self@.selected_cameras == pre.selected_cameras,
                self@.streaming == pre.streaming,
                self@.last_detection == pre.last_detection,
                self@.brightness == pre.brightness,
                self@.lifecycle == pre.lifecycle,
            decreases n - k,
        {
            if crate::text::str_eq(self.status.cameras[k].hardware_id.as_str(), hardware_id) {
                let ghost cur = self@.cameras;
                let mut entry = self.status.cameras.remove(k);
                entry.current_format = Some(format.clone());
                self.status.cameras.insert(k, entry);
                proof {
                    assert(self@.cameras =~= cur.update(
                        k as int,
                        UsbCameraInfoView { current_format: Some(fv), ..cur[k as int] },
                    ));
                }
            }
            k += 1;
        }
        Ok(())
    }

    /// The status snapshot handed to callers: a copy, never a live
    /// reference, so readers cannot observe partial writes.
    pub fn get_status(&self) -> (r: UsbCameraStatus)
        ensures
            r@.cameras == self@.cameras,
            r@.selected_cameras == self@.selected_cameras,
            r@.streaming == self@.streaming,
            r@.last_detection == self@.last_detection,
    {
        let selected = crate::config::clone_string_vec(&self.status.selected_cameras);
        proof {
            assert(selected.deep_view() =~= self.status.selected_cameras.deep_view());
        }
        UsbCameraStatus {
            cameras: clone_cameras(&self.status.cameras),
            selected_cameras: selected,
            streaming: self.status.streaming,
            last_detection: self.status.last_detection,
        }
    }

    /// Dispatch one request: the explicit table from request variant to
    /// handler.  An actor that is not running honors nothing — the reply
    /// slot is dropped ([`UsbStep::Dropped`]) and no state moves.  Hardware
    /// work (enumeration, frame grabs) is handed back to the surrounding
    /// loop as a step.
    pub fn handle_request(&mut self, request: UsbCameraRequest) -> (step: UsbStep)
        requires
            usb_wf(old(self)@),
        ensures
            usb_wf(final(self)@),
            !accepts_commands(old(self)@.lifecycle) ==> step == UsbStep::Dropped && final(self)@
                == old(self)@,
            accepts_commands(old(self)@.lifecycle) ==> match request {
                UsbCameraRequest::DetectCameras => step == UsbStep::Enumerate && final(self)@
                    == old(self)@,
                UsbCameraRequest::ListCameras => {
                    &&& final(self)@ == old(self)@
                    &&& step matches UsbStep::Reply(UsbReply::Cameras(cs))
                    &&& cs.deep_view() == old(self)@.cameras
                },
                UsbCameraRequest::SelectCameras { hardware_ids } => match step {
                    UsbStep::Reply(UsbReply::Done) => usb_select_transition(
                        old(self)@,
                        hardware_ids.deep_view(),
                        final(self)@,
                        Ok(()),
                    ),
                    UsbStep::Reply(UsbReply::Failed(e)) => usb_select_transition(
                        old(self)@,
                        hardware_ids.deep_view(),
                        final(self)@,
                        Err(e),
                    ),
                    _ => false,
                },
                UsbCameraRequest::StartStreaming => {
                    &&& step == UsbStep::Reply(UsbReply::Done)
                    &&& final(self)@ == usb_with_streaming(old(self)@, true)
                },
                UsbCameraRequest::StopStreaming => {
                    &&& step == UsbStep::Reply(UsbReply::Done)
                    &&& final(self)@ == usb_with_streaming(old(self)@, false)
                },
                UsbCameraRequest::CaptureImage { hardware_id } => {
                    &&& final(self)@ == old(self)@
                    &&& match step {
                        UsbStep::Capture { index, brightness } => {
                            &&& spec_has_camera(old(self)@.cameras, hardware_id@)
                            &&& exists|k: int|
                                0 <= k < old(self)@.cameras.len()
                                    && old(self)@.cameras[k].hardware_id == hardware_id@ && index
                                    == #[trigger] old(self)@.cameras[k].index
                            &&& brightness == spec_brightness(old(self)@.brightness, hardware_id@)
                        },
                        UsbStep::Reply(UsbReply::Failed(e)) => {
                            &&& !spec_has_camera(old(self)@.cameras, hardware_id@)
                            &&& e matches SorterError::NotFound(m)
                            &&& m@ == hardware_id@
                        },
                        _ => false,
                    }
                },
                UsbCameraRequest::CaptureStreamingFrame { hardware_id } => {
                    &&& final(self)@ == old(self)@
                    &&& match step {
                        UsbStep::Capture { index, brightness } => {
                            &&& spec_has_camera(old(self)@.cameras, hardware_id@)
                            &&& exists|k: int|
                                0 <= k < old(self)@.cameras.len()
                                    && old(self)@.cameras[k].hardware_id == hardware_id@ && index
                                    == #[trigger] old(self)@.cameras[k].index
                            &&& brightness == spec_brightness(old(self)@.brightness, hardware_id@)
                        },
                        UsbStep::Reply(UsbReply::Failed(e)) => {
                            &&& !spec_has_camera(old(self)@.cameras, hardware_id@)
                            &&& e matches SorterError::NotFound(m)
                            &&& m@ == hardware_id@
                        },
                        _ => false,
                    }
                },
                UsbCameraRequest::GetStatus => {
                    &&& final(self)@ == old(self)@
                    &&& step matches UsbStep::Reply(UsbReply::Status(s))
                    &&& s@.cameras == old(self)@.cameras
                    &&& s@.selected_cameras == old(self)@.selected_cameras
                    &&& s@.streaming == old(self)@.streaming
                    &&& s@.last_detection == old(self)@.last_detection
                },
                UsbCameraRequest::SetBrightness { hardware_id, brightness } => match step {
                    UsbStep::Reply(UsbReply::Done) => usb_set_brightness_transition(
                        old(self)@,
                        hardware_id@,
                        brightness,
                        final(self)@,
                        Ok(()),
                    ),
                    UsbStep::Reply(UsbReply::Failed(e)) => usb_set_brightness_transition(
                        old(self)@,
                        hardware_id@,
                        brightness,
                        final(self)@,
                        Err(e),
                    ),
                    _ => false,
                },
                UsbCameraRequest::GetBrightness { hardware_id } => {
                    &&& final(self)@ == old(self)@
                    &&& if spec_has_camera(old(self)@.cameras, hardware_id@) {
                        step == UsbStep::Reply(
                            UsbReply::Brightness(
                                spec_brightness(old(self)@.brightness, hardware_id@),
                            ),
                        )
                    } else {
                        &&& step matches UsbStep::Reply(UsbReply::Failed(e))
                        &&& e matches SorterError::NotFound(m)
                        &&& m@ == hardware_id@
                    }
                },
                UsbCameraRequest::SetCameraFormat { hardware_id, format } => {
                    &&& step == UsbStep::Reply(UsbReply::Done)
                    &&& usb_set_format_transition(
                        old(self)@,
                        hardware_id@,
                        format@,
                        final(self)@,
                    )
                },
            },
    {
        if !matches!(self.lifecycle, Lifecycle::Running) {
            return UsbStep::Dropped;
        }
        match request {
            UsbCameraRequest::DetectCameras => UsbStep::Enumerate,
            UsbCameraRequest::ListCameras => UsbStep::Reply(UsbReply::Cameras(self.list_cameras())),
            UsbCameraRequest::SelectCameras { hardware_ids } => match self.select_cameras(
                hardware_ids,
            ) {
                Ok(()) => UsbStep::Reply(UsbReply::Done),
                Err(e) => UsbStep::Reply(UsbReply::Failed(e)),
            },
            UsbCameraRequest::StartStreaming => match self.start_streaming() {
                Ok(()) => UsbStep::Reply(UsbReply::Done),
                Err(e) => UsbStep::Reply(UsbReply::Failed(e)),
            },
            UsbCameraRequest::StopStreaming => match self.stop_streaming() {
                Ok(()) => UsbStep::Reply(UsbReply::Done),
                Err(e) => UsbStep::Reply(UsbReply::Failed(e)),
            },
            UsbCameraRequest::CaptureImage { hardware_id } => match self.capture_plan(
                hardware_id.as_str(),
            ) {
                Ok(plan) => UsbStep::Capture { index: plan.0, brightness: plan.1 },
                Err(e) => UsbStep::Reply(UsbReply::Failed(e)),
            },
            UsbCameraRequest::CaptureStreamingFrame { hardware_id } => match self.capture_plan(
                hardware_id.as_str(),
            ) {
                Ok(plan) => UsbStep::Capture { index: plan.0, brightness: plan.1 },
                Err(e) => UsbStep::Reply(UsbReply::Failed(e)),
            },
            UsbCameraRequest::GetStatus => UsbStep::Reply(UsbReply::Status(self.get_status())),
            UsbCameraRequest::SetBrightness { hardware_id, brightness } => match self
                .set_brightness(hardware_id.as_str(), brightness) {
                Ok(()) => UsbStep::Reply(UsbReply::Done),
                Err(e) => UsbStep::Reply(UsbReply::Failed(e)),
            },
            UsbCameraRequest::GetBrightness { hardware_id } => match self.get_brightness(
                hardware_id.as_str(),
            ) {
                Ok(v) => UsbStep::Reply(UsbReply::Brightness(v)),
                Err(e) => UsbStep::Reply(UsbReply::Failed(e)),
            },
            UsbCameraRequest::SetCameraFormat { hardware_id, format } => match self
                .set_camera_format(hardware_id.as_str(), format) {
                Ok(()) => UsbStep::Reply(UsbReply::Done),
                Err(e) => UsbStep::Reply(UsbReply::Failed(e)),
            },
        }
    }
}

/// Clone the camera list, keeping its model.
fn clone_cameras(v: &Vec<UsbCameraInfo>) -> (r: Vec<UsbCameraInfo>)
    ensures
        r.deep_view() == v.deep_view(),
{
    let mut r: Vec<UsbCameraInfo> = Vec::new();
    proof {
        assert(r.deep_view() =~= v.deep_view().take(0));
    }
    let mut i: usize = 0;
    while i < v.len()
        invariant
            i <= v.len(),
            r@.len() == i,
            r.deep_view() == v.deep_view().take(i as int),
        decreases v.len() - i,
    {
        let ghost prev = r.deep_view();
        let c = v[i].clone();
        proof {
            assert(c.deep_view() == v.deep_view()[i as int]);
        }
        r.push(c);
        proof {
            assert forall|j: int| 0 <= j < i + 1 implies r.deep_view()[j] == v.deep_view().take(
                i + 1,
            )[j] by {
                if j < i {
                    assert(r.deep_view()[j] == prev[j]);
                } else {
                    assert(r.deep_view()[j] == v.deep_view()[i as int]);
                }
            }
            assert(r.deep_view() =~= v.deep_view().take(i + 1));
        }
        i += 1;
    }
    proof {
        assert(v.deep_view().take(v@.len() as int) =~= v.deep_view());
    }
    r
}

} // verus!
