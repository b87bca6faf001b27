//! Classification of the hardware variant from the results of three
//! independent probes.

use crate::text::{contains, contains_text, text_of, texts_of};
use vstd::prelude::*;

verus! {

/// Text that the descriptive name of a depth camera carries.
pub const DEPTH_CAMERA_SIGNATURE: &'static str = "RealSense";

/// Text that the address probe prints when the actuator controller answers.
pub const ACTUATOR_CONTROLLER_ADDRESS: &'static str = "40";

/// Vendor strings of the known arm controllers.
pub const ARM_CONTROLLER_VENDOR_ST: &'static str = "STMicroelectronics";

pub const ARM_CONTROLLER_VENDOR_FTDI: &'static str = "FTDI";

/// The hardware variant an agent runs on.
#[derive(Clone, Copy, Debug, PartialEq, Eq, Structural)]
pub enum RobotType {
    /// Mobile base driven by nine servos.
    Lekiwi,
    /// Dual-arm platform with a depth camera.
    XLE,
    /// No variant could be recognised.
    Unknown,
}

/// What the hardware probes found. A probe that could not run leaves its
/// field empty, absent or false: that is no evidence, never an error.
#[derive(Clone, Debug, PartialEq, Eq)]
pub struct ProbeResults {
    /// Whether the dedicated depth-camera device node exists.
    pub depth_camera_node: bool,
    /// Descriptive names of the video-capture devices that could be read.
    pub video_device_names: Vec<String>,
    /// Whether the actuator bus device exists.
    pub actuator_bus: bool,
    /// What the address probe on the actuator bus printed, if it ran.
    pub actuator_probe: Option<String>,
    /// The listing of USB descriptors, if it could be obtained.
    pub usb_listing: Option<String>,
}

/// Mathematical content of [`ProbeResults`].
pub struct ProbeResultsView {
    pub depth_camera_node: bool,
    pub video_device_names: Seq<Seq<char>>,
    pub actuator_bus: bool,
    pub actuator_probe: Option<Seq<char>>,
    pub usb_listing: Option<Seq<char>>,
}

impl View for ProbeResults {
    type V = ProbeResultsView;

    open spec fn view(&self) -> ProbeResultsView {
        ProbeResultsView {
            depth_camera_node: self.depth_camera_node,
            video_device_names: texts_of(self.video_device_names@),
            actuator_bus: self.actuator_bus,
            actuator_probe: text_of(self.actuator_probe),
            usb_listing: text_of(self.usb_listing),
        }
    }
}

/// Whether some name in `names` carries the depth-camera signature.
pub open spec fn names_depth_camera(names: Seq<Seq<char>>) -> bool {
    exists|i: int|
        0 <= i < names.len() && contains_text(#[trigger] names[i], DEPTH_CAMERA_SIGNATURE@)
}

impl ProbeResultsView {
    /// The dedicated device node is there, or some video-capture device
    /// names itself as a depth camera.
    pub open spec fn depth_camera_evidence(self) -> bool {
        self.depth_camera_node || names_depth_camera(self.video_device_names)
    }

    /// The actuator bus is there and the controller answered at its address.
    pub open spec fn actuator_bus_evidence(self) -> bool {
        &&& self.actuator_bus
        &&& self.actuator_probe matches Some(out)
        &&& contains_text(out, ACTUATOR_CONTROLLER_ADDRESS@)
    }

    /// A USB descriptor names a known arm-controller vendor.
    pub open spec fn arm_controller_evidence(self) -> bool {
        &&& self.usb_listing matches Some(listing)
        &&& (contains_text(listing, ARM_CONTROLLER_VENDOR_ST@) || contains_text(
            listing,
            ARM_CONTROLLER_VENDOR_FTDI@,
        ))
    }

    /// The variant that the evidence stands for: the first rule that matches
    /// wins, in this order.
    pub open spec fn classify(self) -> RobotType {
        if self.depth_camera_evidence() {
            RobotType::XLE
        } else if self.actuator_bus_evidence() {
            RobotType::Lekiwi
        } else if self.arm_controller_evidence() {
            RobotType::XLE
        } else {
            RobotType::Unknown
        }
    }
}

/// Decides whether some name in `names` carries the depth-camera signature.
fn any_depth_camera(names: &Vec<String>) -> (found: bool)
    ensures
        found == names_depth_camera(texts_of(names@)),
{
    let mut k: usize = 0;
    while k < names.len()
        invariant
            k <= names.len(),
            forall|i: int|
                0 <= i < k ==> !contains_text(
                    #[trigger] texts_of(names@)[i],
                    DEPTH_CAMERA_SIGNATURE@,
                ),
        decreases names.len() - k,
    {
        if contains(names[k].as_str(), DEPTH_CAMERA_SIGNATURE) {
            assert(texts_of(names@)[k as int] == names@[k as int]@);
            return true;
        }
        k = k + 1;
    }
    false
}

impl RobotType {
    /// Classifies the robot from what the probes found. Never fails:
    /// without evidence the variant is `Unknown`.
    pub fn detect(probes: &ProbeResults) -> (kind: RobotType)
        ensures
            kind == probes@.classify(),
    {
        if probes.depth_camera_node || any_depth_camera(&probes.video_device_names) {
            return RobotType::XLE;
        }
        if probes.actuator_bus {
            if let Some(out) = &probes.actuator_probe {
                if contains(out.as_str(), ACTUATOR_CONTROLLER_ADDRESS) {
                    return RobotType::Lekiwi;
                }
            }
        }
        if let Some(listing) = &probes.usb_listing {
            if contains(listing.as_str(), ARM_CONTROLLER_VENDOR_ST) || contains(
                listing.as_str(),
                ARM_CONTROLLER_VENDOR_FTDI,
            ) {
                return RobotType::XLE;
            }
        }
        RobotType::Unknown
    }
}

/// Depth-camera evidence decides the variant whatever the other probes
/// found: in particular it wins over actuator-bus evidence.
pub proof fn lemma_depth_camera_takes_precedence(probes: ProbeResultsView)
    requires
        probes.depth_camera_evidence(),
    ensures
        probes.classify() == RobotType::XLE,
{
}

/// Without any evidence the variant is `Unknown`.
pub proof fn lemma_no_evidence_is_unknown(probes: ProbeResultsView)
    requires
        !probes.depth_camera_evidence(),
        !probes.actuator_bus_evidence(),
        !probes.arm_controller_evidence(),
    ensures
        probes.classify() == RobotType::Unknown,
{
}

} // verus!
