//! System-wide guarantees of the coordination layer, stated and proved over
//! the actors' transition relations.
//!
//! Each lemma here is a fact the rest of the system leans on; the exec
//! functions' contracts establish the hypotheses, so these laws hold of
//! every run of the actors.

use vstd::prelude::*;

use crate::camera_manager::{
    esp_probe_transition, esp_select_transition, esp_with_streaming, spec_has_esp_camera,
    EspManagerView,
};
use crate::error::SorterError;
use crate::protocol::{accepts_commands, Lifecycle};
use crate::usb_camera_controller::{
    spec_brightness, spec_has_camera, spec_kept_occurrence, usb_detection_transition,
    usb_select_transition, usb_set_brightness_transition, usb_with_streaming, UsbCameraInfoView,
    UsbManagerView,
};

verus! {

/// Selection is all or nothing: whenever any requested id is unknown to the
/// USB directory, the whole state — the selection included — is left
/// unchanged and the operation fails.
pub proof fn lemma_usb_select_all_or_nothing(
    pre: UsbManagerView,
    ids: Seq<Seq<char>>,
    post: UsbManagerView,
    r: Result<(), SorterError>,
)
    requires
        usb_select_transition(pre, ids, post, r),
        exists|i: int| 0 <= i < ids.len() && !spec_has_camera(pre.cameras, #[trigger] ids[i]),
    ensures
        post == pre,
        r is Err,
{
}

/// Selection is all or nothing for the network camera directory as well.
pub proof fn lemma_esp_select_all_or_nothing(
    pre: EspManagerView,
    ids: Seq<Seq<char>>,
    post: EspManagerView,
    r: Result<(), SorterError>,
)
    requires
        esp_select_transition(pre, ids, post, r),
        exists|i: int| 0 <= i < ids.len() && !spec_has_esp_camera(pre.cameras, #[trigger] ids[i]),
    ensures
        post == pre,
        r is Err,
{
}

/// Starting and then immediately stopping streaming always leaves the
/// streaming flag off, whatever the selection — the empty one included —
/// and touches nothing else of the USB directory.
pub proof fn lemma_usb_start_stop_leaves_not_streaming(
    st0: UsbManagerView,
    st1: UsbManagerView,
    st2: UsbManagerView,
)
    requires
        st1 == usb_with_streaming(st0, true),
        st2 == usb_with_streaming(st1, false),
    ensures
        st2.streaming == false,
        st2.cameras == st0.cameras,
        st2.selected_cameras == st0.selected_cameras,
        st2.brightness == st0.brightness,
        st2.last_detection == st0.last_detection,
        st2.lifecycle == st0.lifecycle,
{
}

/// Starting and then immediately stopping streaming leaves the network
/// camera directory not streaming, too.
pub proof fn lemma_esp_start_stop_leaves_not_streaming(
    st0: EspManagerView,
    st1: EspManagerView,
    st2: EspManagerView,
)
    requires
        st1 == esp_with_streaming(st0, true),
        st2 == esp_with_streaming(st1, false),
    ensures
        st2.streaming == false,
        st2.cameras == st0.cameras,
        st2.selected_cameras == st0.selected_cameras,
        st2.lifecycle == st0.lifecycle,
{
}

/// A rejected brightness value — one outside [0, 255] — mutates no
/// per-device state at all, so a later read for any camera answers exactly
/// as it would have before the rejected call.
pub proof fn lemma_rejected_brightness_changes_nothing(
    pre: UsbManagerView,
    id: Seq<char>,
    value: i64,
    post: UsbManagerView,
    r: Result<(), SorterError>,
)
    requires
        usb_set_brightness_transition(pre, id, value, post, r),
        !(0 <= value <= 255),
    ensures
        post == pre,
        r is Err,
        forall|any: Seq<char>| #[trigger] spec_brightness(post.brightness, any) == spec_brightness(
            pre.brightness,
            any,
        ),
{
}

/// An accepted brightness value is stored for its camera and read back
/// unchanged, and no other camera's value moves.
pub proof fn lemma_brightness_round_trip(
    pre: UsbManagerView,
    id: Seq<char>,
    value: i64,
    post: UsbManagerView,
    r: Result<(), SorterError>,
)
    requires
        usb_set_brightness_transition(pre, id, value, post, r),
        0 <= value <= 255,
        spec_has_camera(pre.cameras, id),
    ensures
        r is Ok,
        spec_brightness(post.brightness, id) == value,
        forall|other: Seq<char>|
            other != id ==> #[trigger] spec_brightness(post.brightness, other) == spec_brightness(
                pre.brightness,
                other,
            ),
{
}

/// A USB device absent from an enumeration is absent from the directory
/// after the detect cycle that entered it.
pub proof fn lemma_usb_absent_after_detection(
    pre: UsbManagerView,
    detected: Seq<UsbCameraInfoView>,
    timestamp_ms: u64,
    post: UsbManagerView,
    id: Seq<char>,
)
    requires
        usb_detection_transition(pre, detected, timestamp_ms, post),
        forall|j: int| 0 <= j < detected.len() ==> (#[trigger] detected[j]).hardware_id != id,
    ensures
        !spec_has_camera(post.cameras, id),
{
    if spec_has_camera(post.cameras, id) {
        let k = choose|k: int| 0 <= k < post.cameras.len() && post.cameras[k].hardware_id == id;
        assert(spec_kept_occurrence(detected, 0, post.cameras[k]));
        let j = choose|j: int|
            {
                &&& 0 <= j < detected.len()
                &&& #[trigger] detected[j] == post.cameras[k]
                &&& forall|j2: int|
                    j < j2 < detected.len() ==> (#[trigger] detected[j2]).hardware_id
                        != detected[j].hardware_id
            };
        assert(detected[j].hardware_id == id);
    }
}

/// A network camera that fails its probe stays in the directory and merely
/// reports itself offline; probes never shrink the camera set.
pub proof fn lemma_esp_failed_probe_keeps_camera(
    pre: EspManagerView,
    hostname: Seq<char>,
    post: EspManagerView,
    k: int,
)
    requires
        esp_probe_transition(pre, hostname, false, post),
        0 <= k < pre.cameras.len(),
        pre.cameras[k].hostname == hostname,
    ensures
        post.cameras.len() == pre.cameras.len(),
        post.cameras[k].hostname == hostname,
        post.cameras[k].online == false,
{
}

/// Once an actor has observed a shutdown its lifecycle is terminal: it
/// accepts no further commands, so every later request is answered by
/// dropping the reply slot (the dispatch functions' contracts force the
/// dropped step whenever `accepts_commands` is false), and the caller sees
/// the actor as gone instead of hanging.
pub proof fn lemma_no_commands_after_shutdown(l: Lifecycle)
    requires
        l == Lifecycle::Stopped || l == Lifecycle::Draining,
    ensures
        !accepts_commands(l),
{
}

} // verus!
