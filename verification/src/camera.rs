//! The strategy camera's rules.
use vstd::prelude::*;

verus! {

/// Marker for the part of the game that owns the camera.
pub struct CameraPlugin;

/// Whether the mouse wheel may zoom the camera: not while the pointer is
/// over the command interface, and not while a structure is being placed
/// (the wheel then turns the structure).
pub fn stop_scroll(hvr_cmd_interface: bool, placing_structure: bool) -> (zoom_enabled: bool)
    ensures
        zoom_enabled == (!hvr_cmd_interface && !placing_structure),
{
    !(hvr_cmd_interface || placing_structure)
}

} // verus!
