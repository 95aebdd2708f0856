//! Messages exchanged between the tasks.
use vstd::prelude::*;

verus! {

/// One detected object.
///
/// `x` and `y` are the pixel centroid, `angle` the orientation in
/// millidegrees, `depth` the distance from the camera in micrometres, and
/// `polygon` the outline in pixels (not read by the control core).
#[derive(Debug, Clone, PartialEq)]
pub struct Object {
    pub x: i32,
    pub y: i32,
    pub angle: i32,
    pub polygon: Vec<(i32, i32)>,
    pub depth: i32,
}

/// One vision cycle: the frame (rows of BGR pixels) and the objects found in
/// it, highest priority first.
#[derive(Debug, Clone, PartialEq)]
pub struct Detection {
    pub image: Vec<Vec<[u8; 3]>>,
    pub objects: Vec<Object>,
}

/// A detection with the time it was produced.
#[derive(Debug, Clone, PartialEq)]
pub struct DetectorMessage {
    pub detection: Detection,
    pub timestamp: u64,
}

/// A discrete user command.
#[derive(Debug, Clone, Copy, PartialEq, Eq, Structural)]
pub enum ControlMessage {
    Enter,
    Home,
    Reset,
    ToggleCycleGrab,
    ToggleAutoGrab,
}

/// A command for the actuator. `Noop` carries a duration in milliseconds.
#[derive(Debug, Clone, PartialEq)]
pub enum DobotMessage {
    GrabObject(Object),
    Home,
    Reset,
    Switch,
    Noop(u64),
}

/// A command paired with the time it was posted.
pub type Command = (DobotMessage, u64);

/// What a receive on a lossy broadcast source yields.
#[derive(Debug, Clone, PartialEq)]
pub enum Receipt<T> {
    Delivered(T),
    MissedSome,
    Closed,
}

/// Key code of the Enter key.
pub const KEY_ENTER: i32 = 13;
/// Key code of `h`.
pub const KEY_HOME: i32 = 104;
/// Key code of `t`.
pub const KEY_TOGGLE_CYCLE: i32 = 116;
/// Key code of `r`.
pub const KEY_RESET: i32 = 114;
/// Key code of `a`.
pub const KEY_TOGGLE_AUTO: i32 = 97;

/// The command bound to a key, if any.
pub open spec fn key_command(key: i32) -> Option<ControlMessage> {
    if key == KEY_ENTER {
        Some(ControlMessage::Enter)
    } else if key == KEY_HOME {
        Some(ControlMessage::Home)
    } else if key == KEY_TOGGLE_CYCLE {
        Some(ControlMessage::ToggleCycleGrab)
    } else if key == KEY_RESET {
        Some(ControlMessage::Reset)
    } else if key == KEY_TOGGLE_AUTO {
        Some(ControlMessage::ToggleAutoGrab)
    } else {
        None
    }
}

impl ControlMessage {
    /// Maps a key code from the viewer to a command.
    pub fn from_key(key: i32) -> (r: Option<ControlMessage>)
        ensures
            r == key_command(key),
    {
        if key == KEY_ENTER {
            Some(ControlMessage::Enter)
        } else if key == KEY_HOME {
            Some(ControlMessage::Home)
        } else if key == KEY_TOGGLE_CYCLE {
            Some(ControlMessage::ToggleCycleGrab)
        } else if key == KEY_RESET {
            Some(ControlMessage::Reset)
        } else if key == KEY_TOGGLE_AUTO {
            Some(ControlMessage::ToggleAutoGrab)
        } else {
            None
        }
    }
}

/// The first object of a cached detection, if there is one.
pub open spec fn first_object(cached: Option<DetectorMessage>) -> Option<Object> {
    match cached {
        Some(m) => if m.detection.objects@.len() > 0 {
            Some(m.detection.objects@[0])
        } else {
            None
        },
        None => None,
    }
}

/// Takes the highest-priority object out of a cached detection.
pub fn into_first_object(cached: Option<DetectorMessage>) -> (r: Option<Object>)
    ensures
        r == first_object(cached),
{
    match cached {
        Some(m) => {
            let mut objects = m.detection.objects;
            if objects.len() > 0 {
                Some(objects.remove(0))
            } else {
                None
            }
        },
        None => None,
    }
}

} // verus!
