//! Configuration consumed by the control core.
use vstd::prelude::*;
use crate::geometry::{within, AffineTransform, Pose, MAX_EXTENT};

verus! {

/// Calibration and motion parameters of the controller.
///
/// `depth_image` holds camera depth boundaries (micrometres) and
/// `depth_robot` the robot height (micrometres) chosen for each; the
/// waypoints are given for the front-facing layout.
#[derive(Debug, Clone)]
pub struct ControllerConfig {
    pub transform: AffineTransform,
    pub depth_image: Vec<i64>,
    pub depth_robot: Vec<i64>,
    pub home: Pose,
    pub approach_height: i64,
    pub lift_height: i64,
    pub transfer: Pose,
    pub drop_bins: Vec<Pose>,
    pub mirror_rotation: i64,
    pub settle_ms: u64,
}

/// Why a controller configuration is unusable.
#[derive(Debug, Clone, Copy, PartialEq, Eq, Structural)]
pub enum ConfigError {
    TableLengthMismatch,
    EmptyDepthTable,
    NoDropBins,
    OutOfRange,
}

/// Every entry lies within `MAX_EXTENT`.
pub open spec fn lengths_bounded(v: Seq<i64>) -> bool {
    forall|i: int| 0 <= i < v.len() ==> within(#[trigger] v[i] as int, MAX_EXTENT as int)
}

/// Every pose is bounded.
pub open spec fn poses_bounded(v: Seq<Pose>) -> bool {
    forall|i: int| 0 <= i < v.len() ==> (#[trigger] v[i]).bounded()
}

impl ControllerConfig {
    /// Every number lies within the limits that keep the robot-frame
    /// arithmetic exact.
    pub open spec fn values_bounded(&self) -> bool {
        &&& self.transform.bounded()
        &&& lengths_bounded(self.depth_image@)
        &&& lengths_bounded(self.depth_robot@)
        &&& self.home.bounded()
        &&& within(self.approach_height as int, MAX_EXTENT as int)
        &&& within(self.lift_height as int, MAX_EXTENT as int)
        &&& self.transfer.bounded()
        &&& poses_bounded(self.drop_bins@)
        &&& within(self.mirror_rotation as int, MAX_EXTENT as int)
    }

    /// The first defect of the configuration, in the order the check looks.
    pub open spec fn defect(&self) -> Option<ConfigError> {
        if self.depth_image@.len() != self.depth_robot@.len() {
            Some(ConfigError::TableLengthMismatch)
        } else if self.depth_image@.len() == 0 {
            Some(ConfigError::EmptyDepthTable)
        } else if self.drop_bins@.len() == 0 {
            Some(ConfigError::NoDropBins)
        } else if !self.values_bounded() {
            Some(ConfigError::OutOfRange)
        } else {
            None
        }
    }

    /// The configuration has no defect.
    pub open spec fn well_formed(&self) -> bool {
        self.defect() is None
    }

    /// Checks the configuration: `Ok` exactly when it has no defect, else
    /// the first defect.
    pub fn check(&self) -> (r: Result<(), ConfigError>)
        ensures
            r == (match self.defect() {
                None => Ok(()),
                Some(e) => Err(e),
            }),
    {
        if self.depth_image.len() != self.depth_robot.len() {
            return Err(ConfigError::TableLengthMismatch);
        }
        if self.depth_image.len() == 0 {
            return Err(ConfigError::EmptyDepthTable);
        }
        if self.drop_bins.len() == 0 {
            return Err(ConfigError::NoDropBins);
        }
        let t = self.transform;
        let scales_ok = scale_ok(t.a00) && scale_ok(t.a01) && scale_ok(t.a10) && scale_ok(t.a11);
        let ok = scales_ok && extent_ok(t.b0) && extent_ok(t.b1) && all_lengths_bounded(
            &self.depth_image,
        ) && all_lengths_bounded(&self.depth_robot) && pose_bounded(&self.home) && extent_ok(
            self.approach_height,
        ) && extent_ok(self.lift_height) && pose_bounded(&self.transfer) && all_poses_bounded(
            &self.drop_bins,
        ) && extent_ok(self.mirror_rotation);
        if ok {
            Ok(())
        } else {
            Err(ConfigError::OutOfRange)
        }
    }
}

fn scale_ok(v: i64) -> (r: bool)
    ensures
        r == within(v as int, crate::geometry::MAX_SCALE as int),
{
    -crate::geometry::MAX_SCALE <= v && v <= crate::geometry::MAX_SCALE
}

fn extent_ok(v: i64) -> (r: bool)
    ensures
        r == within(v as int, MAX_EXTENT as int),
{
    -MAX_EXTENT <= v && v <= MAX_EXTENT
}

fn pose_bounded(p: &Pose) -> (r: bool)
    ensures
        r == p.bounded(),
{
    extent_ok(p.x) && extent_ok(p.y) && extent_ok(p.z) && extent_ok(p.r)
}

fn all_lengths_bounded(v: &Vec<i64>) -> (r: bool)
    ensures
        r == lengths_bounded(v@),
{
    let mut i: usize = 0;
    while i < v.len()
        invariant
            0 <= i <= v.len(),
            forall|k: int| 0 <= k < i ==> within(#[trigger] v@[k] as int, MAX_EXTENT as int),
        decreases v.len() - i,
    {
        if !extent_ok(v[i]) {
            return false;
        }
        i = i + 1;
    }
    true
}

fn all_poses_bounded(v: &Vec<Pose>) -> (r: bool)
    ensures
        r == poses_bounded(v@),
{
    let mut i: usize = 0;
    while i < v.len()
        invariant
            0 <= i <= v.len(),
            forall|k: int| 0 <= k < i ==> (#[trigger] v@[k]).bounded(),
        decreases v.len() - i,
    {
        if !pose_bounded(&v[i]) {
            return false;
        }
        i = i + 1;
    }
    true
}

/// Pixel formats of the camera streams.
#[derive(Debug, Clone, Copy, PartialEq, Eq, Structural)]
pub enum PixelFormat {
    Z16,
    Rgb8,
    Rgba8,
    Bgr8,
    Bgra8,
}

/// The format a configuration name denotes.
pub open spec fn format_named(name: Seq<char>) -> Option<PixelFormat> {
    if name == "Z16"@ {
        Some(PixelFormat::Z16)
    } else if name == "RGB8"@ {
        Some(PixelFormat::Rgb8)
    } else if name == "RGBA8"@ {
        Some(PixelFormat::Rgba8)
    } else if name == "BGR8"@ {
        Some(PixelFormat::Bgr8)
    } else if name == "BGRA8"@ {
        Some(PixelFormat::Bgra8)
    } else {
        None
    }
}

fn same_text(a: &str, b: &str) -> (r: bool)
    ensures
        r == (a@ == b@),
{
    let n = a.unicode_len();
    if n != b.unicode_len() {
        return false;
    }
    let mut i: usize = 0;
    while i < n
        invariant
            0 <= i <= n,
            n == a@.len(),
            n == b@.len(),
            forall|k: int| 0 <= k < i ==> a@[k] == b@[k],
        decreases n - i,
    {
        if a.get_char(i) != b.get_char(i) {
            return false;
        }
        i = i + 1;
    }
    assert(a@ =~= b@);
    true
}

impl PixelFormat {
    /// Reads a format name as written in the configuration.
    pub fn parse(name: &str) -> (r: Option<PixelFormat>)
        ensures
            r == format_named(name@),
    {
        if same_text(name, "Z16") {
            Some(PixelFormat::Z16)
        } else if same_text(name, "RGB8") {
            Some(PixelFormat::Rgb8)
        } else if same_text(name, "RGBA8") {
            Some(PixelFormat::Rgba8)
        } else if same_text(name, "BGR8") {
            Some(PixelFormat::Bgr8)
        } else if same_text(name, "BGRA8") {
            Some(PixelFormat::Bgra8)
        } else {
            None
        }
    }
}

/// Whether the viewer runs.
#[derive(Debug, Clone, Copy, PartialEq, Eq, Structural)]
pub struct VisualizerConfig {
    pub enabled: bool,
}

/// Where the object detector's parameters are kept, if anywhere.
#[derive(Debug, Clone)]
pub struct ObjectDetectorOrigConfig {
    pub params_file: Option<String>,
}

} // verus!
