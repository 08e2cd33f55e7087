//! Which capture source the worker opens.

use crate::text::{push_signed_decimal, signed_decimal};
use vstd::prelude::*;
use vstd::string::*;

verus! {

/// Identifies the capture source: a device by its index, or a capture
/// pipeline by its description. The description is handed to the capture
/// backend exactly as it stands.
#[derive(Debug, PartialEq, Eq)]
pub enum DeviceSelector {
    Index(i32),
    Pipeline(String),
}

/// Mathematical content of a [`DeviceSelector`].
pub enum SelectorView {
    Index(int),
    Pipeline(Seq<char>),
}

impl View for DeviceSelector {
    type V = SelectorView;

    open spec fn view(&self) -> SelectorView {
        match self {
            DeviceSelector::Index(index) => SelectorView::Index(*index as int),
            DeviceSelector::Pipeline(description) => SelectorView::Pipeline(description@),
        }
    }
}

impl Clone for DeviceSelector {
    fn clone(&self) -> (copy: Self)
        ensures
            copy@ == self@,
    {
        match self {
            DeviceSelector::Index(index) => DeviceSelector::Index(*index),
            DeviceSelector::Pipeline(description) => DeviceSelector::Pipeline(description.clone()),
        }
    }
}

/// The description of the pipeline that captures from CSI sensor
/// `sensor_id` at `capture_width` by `capture_height` and `framerate`
/// frames a second, flips by `flip_method`, scales to `display_width` by
/// `display_height` and delivers packed three-channel frames.
pub open spec fn gstreamer_pipeline_text(
    sensor_id: int,
    capture_width: int,
    capture_height: int,
    display_width: int,
    display_height: int,
    framerate: int,
    flip_method: int,
) -> Seq<char> {
    "nvarguscamerasrc sensor-id="@ + signed_decimal(sensor_id)
        + " ! video/x-raw(memory:NVMM), width=(int)"@ + signed_decimal(capture_width)
        + ", height=(int)"@ + signed_decimal(capture_height) + ", framerate=(fraction)"@
        + signed_decimal(framerate) + "/1 ! nvvidconv flip-method="@ + signed_decimal(flip_method)
        + " ! video/x-raw, width=(int)"@ + signed_decimal(display_width) + ", height=(int)"@
        + signed_decimal(display_height)
        + ", format=(string)BGRx ! videoconvert ! video/x-raw, format=(string)BGR ! appsink"@
}

/// Builds the description of a CSI camera pipeline.
pub fn gstreamer_pipeline(
    sensor_id: i32,
    capture_width: i32,
    capture_height: i32,
    display_width: i32,
    display_height: i32,
    framerate: i32,
    flip_method: i32,
) -> (description: String)
    ensures
        description@ == gstreamer_pipeline_text(
            sensor_id as int,
            capture_width as int,
            capture_height as int,
            display_width as int,
            display_height as int,
            framerate as int,
            flip_method as int,
        ),
{
    let mut out = String::from_str("nvarguscamerasrc sensor-id=");
    push_signed_decimal(&mut out, sensor_id);
    out.append(" ! video/x-raw(memory:NVMM), width=(int)");
    push_signed_decimal(&mut out, capture_width);
    out.append(", height=(int)");
    push_signed_decimal(&mut out, capture_height);
    out.append(", framerate=(fraction)");
    push_signed_decimal(&mut out, framerate);
    out.append("/1 ! nvvidconv flip-method=");
    push_signed_decimal(&mut out, flip_method);
    out.append(" ! video/x-raw, width=(int)");
    push_signed_decimal(&mut out, display_width);
    out.append(", height=(int)");
    push_signed_decimal(&mut out, display_height);
    out.append(", format=(string)BGRx ! videoconvert ! video/x-raw, format=(string)BGR ! appsink");
    out
}

impl DeviceSelector {
    /// The first camera of the machine.
    pub fn default_camera() -> (selector: DeviceSelector)
        ensures
            selector@ == SelectorView::Index(0),
    {
        DeviceSelector::Index(0)
    }

    /// The first CSI sensor, captured at 1920 by 1080 and 30 frames a
    /// second, delivered unflipped at 480 by 360.
    pub fn csi_camera() -> (selector: DeviceSelector)
        ensures
            selector@ == SelectorView::Pipeline(
                gstreamer_pipeline_text(0, 1920, 1080, 480, 360, 30, 0),
            ),
    {
        DeviceSelector::Pipeline(gstreamer_pipeline(0, 1920, 1080, 480, 360, 30, 0))
    }
}

} // verus!
