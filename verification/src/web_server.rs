//! Decision logic of the web handlers: what a request means for the
//! coordination layer, computed on plain values.
//!
//! The HTTP framing around these functions (routing, JSON, reply slots)
//! lives outside the core; a handler validates and translates its payload
//! here, publishes the resulting event, and serializes the answer.

use vstd::prelude::*;

use crate::error::SorterError;
use crate::protocol::{spec_camera_type_of_id, CameraType, CameraTypeView, GlobalMessage};
use crate::text::has_prefix;

verus! {

/// Payload of a brightness request from the web layer.
#[derive(Debug, Clone, Copy, PartialEq, Eq, Structural)]
pub struct BrightnessRequest {
    pub brightness: i64,
}

/// Translate a brightness request into a bus event: values outside
/// [0, 255] are rejected, network cameras have no brightness control, and
/// a USB camera yields a `SetCameraBrightness` event.
pub fn brightness_command(camera_id: String, brightness: i64) -> (r: Result<
    GlobalMessage,
    SorterError,
>)
    ensures
        !(0 <= brightness <= 255) ==> (r matches Err(e) && e is InvalidState),
        0 <= brightness <= 255 ==> match spec_camera_type_of_id(camera_id@) {
            CameraTypeView::EspHome(_) => r matches Err(e) && e is InvalidState,
            CameraTypeView::Usb(name) => {
                &&& r matches Ok(m)
                &&& m matches GlobalMessage::SetCameraBrightness { camera_id: c, brightness: b }
                &&& c@ == CameraTypeView::Usb(name)
                &&& b == brightness
            },
        },
{
    if brightness < 0 || brightness > 255 {
        return Err(
            SorterError::InvalidState("Brightness must be between 0 and 255".to_owned()),
        );
    }
    match CameraType::from_id(camera_id) {
        CameraType::EspHome(_) => Err(
            SorterError::InvalidState(
                "ESPHome cameras do not support brightness control".to_owned(),
            ),
        ),
        CameraType::Usb(name) => Ok(
            GlobalMessage::SetCameraBrightness {
                camera_id: CameraType::Usb(name),
                brightness,
            },
        ),
    }
}

/// The ids in `s` that carry the USB prefix, in order.
pub open spec fn spec_usb_ids(s: Seq<Seq<char>>) -> Seq<Seq<char>>
    decreases s.len(),
{
    if s.len() == 0 {
        Seq::<Seq<char>>::empty()
    } else if has_prefix(s.last(), "usb:"@) {
        spec_usb_ids(s.drop_last()).push(s.last())
    } else {
        spec_usb_ids(s.drop_last())
    }
}

/// The ids in `s` without the USB prefix, in order.
pub open spec fn spec_esp_ids(s: Seq<Seq<char>>) -> Seq<Seq<char>>
    decreases s.len(),
{
    if s.len() == 0 {
        Seq::<Seq<char>>::empty()
    } else if !has_prefix(s.last(), "usb:"@) {
        spec_esp_ids(s.drop_last()).push(s.last())
    } else {
        spec_esp_ids(s.drop_last())
    }
}

/// Partition raw camera ids by kind: USB ids (with their prefix) first,
/// network camera ids second, each in request order.
pub fn split_camera_ids(camera_ids: Vec<String>) -> (r: (Vec<String>, Vec<String>))
    ensures
        r.0.deep_view() == spec_usb_ids(camera_ids.deep_view()),
        r.1.deep_view() == spec_esp_ids(camera_ids.deep_view()),
{
    let ghost ids = camera_ids.deep_view();
    let mut usb: Vec<String> = Vec::new();
    let mut esp: Vec<String> = Vec::new();
    let mut i: usize = 0;
    proof {
        assert(usb.deep_view() =~= spec_usb_ids(ids.take(0)));
        assert(esp.deep_view() =~= spec_esp_ids(ids.take(0)));
    }
    while i < camera_ids.len()
        invariant
            i <= camera_ids@.len(),
            ids == camera_ids.deep_view(),
            ids.len() == camera_ids@.len(),
            usb.deep_view() == spec_usb_ids(ids.take(i as int)),
            esp.deep_view() == spec_esp_ids(ids.take(i as int)),
        decreases camera_ids@.len() - i,
    {
        let ghost usb0 = usb.deep_view();
        let ghost esp0 = esp.deep_view();
        proof {
            assert(ids.take(i + 1).drop_last() =~= ids.take(i as int));
            assert(ids.take(i + 1).last() == ids[i as int]);
        }
        if crate::text::str_has_prefix(camera_ids[i].as_str(), "usb:") {
            usb.push(camera_ids[i].clone());
            proof {
                assert(usb.deep_view() =~= usb0.push(ids[i as int]));
            }
        } else {
            esp.push(camera_ids[i].clone());
            proof {
                assert(esp.deep_view() =~= esp0.push(ids[i as int]));
            }
        }
        i += 1;
    }
    proof {
        assert(ids.take(ids.len() as int) =~= ids);
    }
    (usb, esp)
}

/// Classify raw camera ids for a bus event, in request order.
pub fn camera_types_of(camera_ids: Vec<String>) -> (r: Vec<CameraType>)
    ensures
        r.deep_view().len() == camera_ids.deep_view().len(),
        forall|i: int|
            0 <= i < camera_ids.deep_view().len() ==> #[trigger] r.deep_view()[i]
                == spec_camera_type_of_id(camera_ids.deep_view()[i]),
{
    let ghost ids = camera_ids.deep_view();
    let mut r: Vec<CameraType> = Vec::new();
    let mut i: usize = 0;
    while i < camera_ids.len()
        invariant
            i <= camera_ids@.len(),
            ids == camera_ids.deep_view(),
            ids.len() == camera_ids@.len(),
            r@.len() == i,
            forall|j: int|
                0 <= j < i ==> #[trigger] r.deep_view()[j] == spec_camera_type_of_id(ids[j]),
        decreases camera_ids@.len() - i,
    {
        let ghost prev = r.deep_view();
        let t = CameraType::from_id(camera_ids[i].clone());
        r.push(t);
        proof {
            assert forall|j: int| 0 <= j < i + 1 implies #[trigger] r.deep_view()[j]
                == spec_camera_type_of_id(ids[j]) by {
                if j < i {
                    assert(r.deep_view()[j] == prev[j]);
                } else {
                    assert(r.deep_view()[j] == r@[j]@);
                }
            }
        }
        i += 1;
    }
    r
}

} // verus!
