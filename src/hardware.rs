//! Outbound hardware commands: what an encoder hands to the transport.

use buttplug_core::errors::ButtplugDeviceError;
use buttplug_server_device_config::Endpoint;
use uuid::Uuid;
use vstd::prelude::*;

verus! {

/// Feature identities are carried through unread.
#[verifier::external_type_specification]
#[verifier::external_body]
pub struct ExUuid(Uuid);

/// The device-command error of the surrounding framework, carried opaquely.
#[verifier::external_type_specification]
#[verifier::external_body]
pub struct ExButtplugDeviceError(ButtplugDeviceError);

/// Endpoint names: a field-less enum, so its variants can be seen and built.
#[verifier::external_type_specification]
pub struct ExEndpoint(Endpoint);

/// A request to write raw bytes to one endpoint of the listed features.
pub struct HardwareWriteCmd {
    pub feature_ids: Vec<Uuid>,
    pub endpoint: Endpoint,
    pub data: Vec<u8>,
    pub write_with_response: bool,
}

impl HardwareWriteCmd {
    pub fn new(
        feature_ids: &[Uuid],
        endpoint: Endpoint,
        data: Vec<u8>,
        write_with_response: bool,
    ) -> (r: HardwareWriteCmd)
        ensures
            r.feature_ids@ == feature_ids@,
            r.endpoint == endpoint,
            r.data@ == data@,
            r.write_with_response == write_with_response,
    {
        HardwareWriteCmd {
            feature_ids: vstd::slice::slice_to_vec(feature_ids),
            endpoint,
            data,
            write_with_response,
        }
    }
}

/// A command for the transport layer.
pub enum HardwareCommand {
    Write(HardwareWriteCmd),
}

impl HardwareCommand {
    /// This command writes `data`, unacknowledged, to the transmit endpoint
    /// of the single feature `feature_id`.
    pub open spec fn is_tx_write(self, feature_id: Uuid, data: Seq<u8>) -> bool {
        match self {
            HardwareCommand::Write(w) => {
                &&& w.feature_ids@ == seq![feature_id]
                &&& w.endpoint == Endpoint::Tx
                &&& w.data@ == data
                &&& !w.write_with_response
            },
        }
    }
}

impl From<HardwareWriteCmd> for HardwareCommand {
    fn from(cmd: HardwareWriteCmd) -> (r: HardwareCommand) {
        HardwareCommand::Write(cmd)
    }
}

impl vstd::std_specs::convert::FromSpecImpl<HardwareWriteCmd> for HardwareCommand {
    open spec fn obeys_from_spec() -> bool {
        true
    }

    open spec fn from_spec(cmd: HardwareWriteCmd) -> HardwareCommand {
        HardwareCommand::Write(cmd)
    }
}

} // verus!
