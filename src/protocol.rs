//! The capability set shared by device protocol handlers: one method per
//! command intent, each turning the intent into hardware commands.

use buttplug_core::errors::ButtplugDeviceError;
use uuid::Uuid;
use vstd::prelude::*;

use crate::hardware::HardwareCommand;

verus! {

/// A device protocol. A handler may refuse a command with an error; each
/// implementation states in its own contract what it produces.
pub trait ProtocolHandler {
    /// Moves each axis of feature `feature_id` to its position.
    fn handle_output_position_cmd(
        &self,
        feature_index: u32,
        feature_id: Uuid,
        positions: Vec<u32>,
    ) -> Result<Vec<HardwareCommand>, ButtplugDeviceError>;

    /// Moves each axis to its position over a duration in milliseconds.
    fn handle_hw_position_with_duration_cmd(
        &self,
        feature_index: u32,
        feature_id: Uuid,
        positions: Vec<u32>,
        durations: Vec<u32>,
    ) -> Result<Vec<HardwareCommand>, ButtplugDeviceError>;

    /// Sets vibration motor `feature_index` to `speed`.
    fn handle_output_vibrate_cmd(
        &self,
        feature_index: u32,
        feature_id: Uuid,
        speed: u32,
    ) -> Result<Vec<HardwareCommand>, ButtplugDeviceError>;
}

} // verus!
