use vstd::prelude::*;
use crate::actuation::ActuatorCommand;
use crate::events::Dispatched;
use crate::priority::TaskPriority;

verus! {

/// Status of a call into the protocol stack that succeeded.
pub const NRF_SUCCESS: u32 = 0;
/// Status of an event fetch when the event queue is empty.
pub const NRF_ERROR_NOT_FOUND: u32 = 5;
/// Status of an event fetch whose buffer is too small for the event.
pub const NRF_ERROR_DATA_SIZE: u32 = 12;
/// Status of an event fetch whose buffer address is invalid.
pub const NRF_ERROR_INVALID_ADDR: u32 = 16;

/// The UUID type that the adapter holds before one is assigned.
pub const UUID_TYPE_UNSET: u8 = 0xff;

/// Why enabling the protocol stack failed. A failure leaves the device
/// without advertising; the caller decides whether to halt or retry.
#[derive(Clone, Copy, Debug, PartialEq, Eq, Structural)]
pub enum EnableError {
    ClockConfigFailed,
    StackEnableFailed,
    AttributeRegistrationFailed,
    AdvertisingConfigFailed,
    AdvertisingStartFailed,
}

/// The calls of the activation sequence, in the order in which they are made.
#[derive(Clone, Copy, Debug, PartialEq, Eq, Structural)]
pub enum StackCall {
    /// Enable the stack with the low-frequency clock configuration.
    SoftdeviceEnable,
    /// Enable BLE, negotiating the application's RAM base.
    BleEnable,
    /// Read the device address (a failure is only logged).
    AddrGet,
    /// Read the GAP appearance (a failure is only logged).
    AppearanceGet,
    /// Set the device name.
    DeviceNameSet,
    /// Register the vendor base UUID; writes back the UUID type.
    UuidAdd,
    /// Add the rover service; writes back the service handle.
    ServiceAdd,
    /// Add the command characteristic; writes back its value handle.
    CharacteristicAdd,
    /// Configure the advertising set with the advertising payloads.
    AdvConfigure,
    /// Start advertising.
    AdvStart,
}

/// Where the activation sequence stands.
#[derive(Clone, Copy, Debug, PartialEq, Eq, Structural)]
pub enum EnableState {
    /// The call that is to be made next.
    Calling(StackCall),
    Enabled,
    Failed(EnableError),
}

/// Where the sequence goes after `call` returned `status`.
pub open spec fn spec_after(call: StackCall, status: u32) -> EnableState {
    let ok = status == NRF_SUCCESS;
    match call {
        StackCall::SoftdeviceEnable => if ok {
            EnableState::Calling(StackCall::BleEnable)
        } else {
            EnableState::Failed(EnableError::ClockConfigFailed)
        },
        StackCall::BleEnable => if ok {
            EnableState::Calling(StackCall::AddrGet)
        } else {
            EnableState::Failed(EnableError::StackEnableFailed)
        },
        StackCall::AddrGet => EnableState::Calling(StackCall::AppearanceGet),
        StackCall::AppearanceGet => EnableState::Calling(StackCall::DeviceNameSet),
        StackCall::DeviceNameSet => if ok {
            EnableState::Calling(StackCall::UuidAdd)
        } else {
            EnableState::Failed(EnableError::AttributeRegistrationFailed)
        },
        StackCall::UuidAdd => if ok {
            EnableState::Calling(StackCall::ServiceAdd)
        } else {
            EnableState::Failed(EnableError::AttributeRegistrationFailed)
        },
        StackCall::ServiceAdd => if ok {
            EnableState::Calling(StackCall::CharacteristicAdd)
        } else {
            EnableState::Failed(EnableError::AttributeRegistrationFailed)
        },
        StackCall::CharacteristicAdd => if ok {
            EnableState::Calling(StackCall::AdvConfigure)
        } else {
            EnableState::Failed(EnableError::AttributeRegistrationFailed)
        },
        StackCall::AdvConfigure => if ok {
            EnableState::Calling(StackCall::AdvStart)
        } else {
            EnableState::Failed(EnableError::AdvertisingConfigFailed)
        },
        StackCall::AdvStart => if ok {
            EnableState::Enabled
        } else {
            EnableState::Failed(EnableError::AdvertisingStartFailed)
        },
    }
}

/// Where the sequence goes after `call` returned `status`.
fn next_state(call: StackCall, status: u32) -> (s: EnableState)
    ensures
        s == spec_after(call, status),
{
    let ok = status == NRF_SUCCESS;
    match call {
        StackCall::SoftdeviceEnable => if ok {
            EnableState::Calling(StackCall::BleEnable)
        } else {
            EnableState::Failed(EnableError::ClockConfigFailed)
        },
        StackCall::BleEnable => if ok {
            EnableState::Calling(StackCall::AddrGet)
        } else {
            EnableState::Failed(EnableError::StackEnableFailed)
        },
        StackCall::AddrGet => EnableState::Calling(StackCall::AppearanceGet),
        StackCall::AppearanceGet => EnableState::Calling(StackCall::DeviceNameSet),
        StackCall::DeviceNameSet => if ok {
            EnableState::Calling(StackCall::UuidAdd)
        } else {
            EnableState::Failed(EnableError::AttributeRegistrationFailed)
        },
        StackCall::UuidAdd => if ok {
            EnableState::Calling(StackCall::ServiceAdd)
        } else {
            EnableState::Failed(EnableError::AttributeRegistrationFailed)
        },
        StackCall::ServiceAdd => if ok {
            EnableState::Calling(StackCall::CharacteristicAdd)
        } else {
            EnableState::Failed(EnableError::AttributeRegistrationFailed)
        },
        StackCall::CharacteristicAdd => if ok {
            EnableState::Calling(StackCall::AdvConfigure)
        } else {
            EnableState::Failed(EnableError::AttributeRegistrationFailed)
        },
        StackCall::AdvConfigure => if ok {
            EnableState::Calling(StackCall::AdvStart)
        } else {
            EnableState::Failed(EnableError::AdvertisingConfigFailed)
        },
        StackCall::AdvStart => if ok {
            EnableState::Enabled
        } else {
            EnableState::Failed(EnableError::AdvertisingStartFailed)
        },
    }
}

/// The call to make in a state, if any.
pub open spec fn spec_pending(s: EnableState) -> Option<StackCall> {
    match s {
        EnableState::Calling(c) => Some(c),
        _ => None,
    }
}

/// The result of the sequence in a state, once there is one.
pub open spec fn spec_outcome(s: EnableState) -> Option<Result<(), EnableError>> {
    match s {
        EnableState::Calling(_) => None,
        EnableState::Enabled => Some(Ok(())),
        EnableState::Failed(e) => Some(Err(e)),
    }
}

/// Whether the sequence has got past adding the command characteristic.
pub open spec fn spec_characteristic_added(s: EnableState) -> bool {
    match s {
        EnableState::Calling(c) => c == StackCall::AdvConfigure || c == StackCall::AdvStart,
        EnableState::Enabled => true,
        EnableState::Failed(e) => e == EnableError::AdvertisingConfigFailed || e
            == EnableError::AdvertisingStartFailed,
    }
}

/// Why reading the command attribute failed.
#[derive(Clone, Copy, Debug, PartialEq, Eq, Structural)]
pub enum AttributeError {
    /// The stack refused the read with this status.
    ReadFailed(u32),
}

/// Turns the result of reading the command attribute into a command: the
/// first byte drives the right side, the second the left. A failed read
/// gives no command; the write that it followed is dropped, and the next
/// write corrects it.
pub fn speed_from_read(status: u32, value: [i8; 2]) -> (r: Result<ActuatorCommand, AttributeError>)
    ensures
        status == NRF_SUCCESS ==> r == Ok::<ActuatorCommand, AttributeError>(
            ActuatorCommand { right: value@[0], left: value@[1] },
        ),
        status != NRF_SUCCESS ==> r == Err::<ActuatorCommand, AttributeError>(
            AttributeError::ReadFailed(status),
        ),
{
    if status == NRF_SUCCESS {
        Ok(ActuatorCommand { right: value[0], left: value[1] })
    } else {
        Err(AttributeError::ReadFailed(status))
    }
}

/// The adapter of the protocol stack: where its activation stands, and the
/// identifiers that the stack handed back for the rover's service and its
/// command attribute.
pub struct SoftDevice {
    pub base_uuid_type: u8,
    pub rover_service_handle: u16,
    pub value_handle: u16,
    pub state: EnableState,
}

impl SoftDevice {
    /// An adapter that has not made any call yet.
    pub fn new() -> (sd: SoftDevice)
        ensures
            sd.state == EnableState::Calling(StackCall::SoftdeviceEnable),
            sd.base_uuid_type == UUID_TYPE_UNSET,
            sd.rover_service_handle == 0,
            sd.value_handle == 0,
    {
        SoftDevice {
            base_uuid_type: UUID_TYPE_UNSET,
            rover_service_handle: 0,
            value_handle: 0,
            state: EnableState::Calling(StackCall::SoftdeviceEnable),
        }
    }

    /// The next call of the activation sequence; none once it has ended.
    /// The calls are supervisor calls, so the caller must run below the
    /// stack's SVC level.
    pub fn pending_call(&self, caller: &TaskPriority) -> (r: Option<StackCall>)
        requires
            caller.spec_can_call_stack(),
        ensures
            r == spec_pending(self.state),
    {
        match self.state {
            EnableState::Calling(c) => Some(c),
            _ => None,
        }
    }

    /// Records what the pending call returned. `output` is what the call
    /// wrote back: the UUID type after `UuidAdd`, the service handle after
    /// `ServiceAdd`, the value handle after `CharacteristicAdd`; it is
    /// ignored after the other calls and after a failure.
    pub fn record(&mut self, status: u32, output: u16)
        requires
            old(self).state is Calling,
            old(self).state == EnableState::Calling(StackCall::UuidAdd) ==> output <= 0xff,
        ensures
            final(self).state == spec_after(spec_pending(old(self).state).unwrap(), status),
            final(self).base_uuid_type == if old(self).state == EnableState::Calling(StackCall::UuidAdd)
                && status == NRF_SUCCESS {
                output as u8
            } else {
                old(self).base_uuid_type
            },
            final(self).rover_service_handle == if old(self).state == EnableState::Calling(
                StackCall::ServiceAdd,
            ) && status == NRF_SUCCESS {
                output
            } else {
                old(self).rover_service_handle
            },
            final(self).value_handle == if old(self).state == EnableState::Calling(
                StackCall::CharacteristicAdd,
            ) && status == NRF_SUCCESS {
                output
            } else {
                old(self).value_handle
            },
    {
        if let EnableState::Calling(call) = self.state {
            if status == NRF_SUCCESS {
                match call {
                    StackCall::UuidAdd => {
                        self.base_uuid_type = output as u8;
                    },
                    StackCall::ServiceAdd => {
                        self.rover_service_handle = output;
                    },
                    StackCall::CharacteristicAdd => {
                        self.value_handle = output;
                    },
                    _ => {},
                }
            }
            self.state = next_state(call, status);
        }
    }

    /// The handle of the command attribute, once the characteristic that
    /// holds it has been added.
    pub fn command_handle(&self) -> (r: Option<u16>)
        ensures
            r == if spec_characteristic_added(self.state) {
                Some(self.value_handle)
            } else {
                None::<u16>
            },
    {
        match self.state {
            EnableState::Calling(StackCall::SoftdeviceEnable)
            | EnableState::Calling(StackCall::BleEnable)
            | EnableState::Calling(StackCall::AddrGet)
            | EnableState::Calling(StackCall::AppearanceGet)
            | EnableState::Calling(StackCall::DeviceNameSet)
            | EnableState::Calling(StackCall::UuidAdd)
            | EnableState::Calling(StackCall::ServiceAdd)
            | EnableState::Calling(StackCall::CharacteristicAdd) => None,
            EnableState::Failed(EnableError::ClockConfigFailed)
            | EnableState::Failed(EnableError::StackEnableFailed)
            | EnableState::Failed(EnableError::AttributeRegistrationFailed) => None,
            _ => Some(self.value_handle),
        }
    }

    /// The attribute to read after a dispatched event: the command attribute
    /// when the peer wrote it (and it exists), nothing after any other event.
    pub fn command_read_for(&self, d: &Dispatched) -> (r: Option<u16>)
        ensures
            r == if d.spec_is_write() && spec_characteristic_added(self.state) {
                Some(self.value_handle)
            } else {
                None::<u16>
            },
    {
        if d.is_write() {
            self.command_handle()
        } else {
            None
        }
    }

    /// The result of the activation: none while calls remain.
    pub fn outcome(&self) -> (r: Option<Result<(), EnableError>>)
        ensures
            r == spec_outcome(self.state),
    {
        match self.state {
            EnableState::Calling(_) => None,
            EnableState::Enabled => Some(Ok(())),
            EnableState::Failed(e) => Some(Err(e)),
        }
    }
}

/// A failed advertising configuration ends the activation with
/// `AdvertisingConfigFailed`, and no call (no start of advertising) follows.
pub proof fn lemma_adv_config_failure_ends_sequence(status: u32)
    requires
        status != NRF_SUCCESS,
    ensures
        spec_after(StackCall::AdvConfigure, status) == EnableState::Failed(
            EnableError::AdvertisingConfigFailed,
        ),
        spec_pending(spec_after(StackCall::AdvConfigure, status)) is None,
        spec_outcome(spec_after(StackCall::AdvConfigure, status)) == Some(
            Err::<(), EnableError>(EnableError::AdvertisingConfigFailed),
        ),
{
}

} // verus!
