use vstd::prelude::*;

verus! {

/// First identifier of the common (connection-level) events.
pub const BLE_EVT_BASE: u16 = 1;
/// Last identifier of the common events.
pub const BLE_EVT_LAST: u16 = 15;
/// First identifier of the GAP (link layer) events.
pub const BLE_GAP_EVT_BASE: u16 = 16;
/// Last identifier of the GAP events.
pub const BLE_GAP_EVT_LAST: u16 = 47;
/// First identifier of the GATT client events.
pub const BLE_GATTC_EVT_BASE: u16 = 48;
/// Last identifier of the GATT client events.
pub const BLE_GATTC_EVT_LAST: u16 = 79;
/// First identifier of the GATT server events.
pub const BLE_GATTS_EVT_BASE: u16 = 80;
/// Last identifier of the GATT server events.
pub const BLE_GATTS_EVT_LAST: u16 = 111;

/// The category that an event identifier's range assigns it to.
#[derive(Clone, Copy, Debug, PartialEq, Eq, Structural)]
pub enum EventCategory {
    Common,
    Gap,
    Gattc,
    Gatts,
    Unknown,
}

/// The range table: each category owns a closed interval of identifiers,
/// and an identifier outside all of them is unknown.
pub open spec fn category_of(id: u16) -> EventCategory {
    if BLE_EVT_BASE <= id <= BLE_EVT_LAST {
        EventCategory::Common
    } else if BLE_GAP_EVT_BASE <= id <= BLE_GAP_EVT_LAST {
        EventCategory::Gap
    } else if BLE_GATTC_EVT_BASE <= id <= BLE_GATTC_EVT_LAST {
        EventCategory::Gattc
    } else if BLE_GATTS_EVT_BASE <= id <= BLE_GATTS_EVT_LAST {
        EventCategory::Gatts
    } else {
        EventCategory::Unknown
    }
}

/// Classifies an event identifier by the range table.
pub fn classify(id: u16) -> (c: EventCategory)
    ensures
        c == category_of(id),
{
    if BLE_EVT_BASE <= id && id <= BLE_EVT_LAST {
        EventCategory::Common
    } else if BLE_GAP_EVT_BASE <= id && id <= BLE_GAP_EVT_LAST {
        EventCategory::Gap
    } else if BLE_GATTC_EVT_BASE <= id && id <= BLE_GATTC_EVT_LAST {
        EventCategory::Gattc
    } else if BLE_GATTS_EVT_BASE <= id && id <= BLE_GATTS_EVT_LAST {
        EventCategory::Gatts
    } else {
        EventCategory::Unknown
    }
}

/// Common events that the adapter recognizes.
#[derive(Clone, Copy, Debug, PartialEq, Eq, Structural)]
pub enum CommonEvent {
    UserMemRequest,
    UserMemRelease,
    Unrecognized(u16),
}

pub open spec fn spec_common_event(id: u16) -> CommonEvent {
    if id == 1 {
        CommonEvent::UserMemRequest
    } else if id == 2 {
        CommonEvent::UserMemRelease
    } else {
        CommonEvent::Unrecognized(id)
    }
}

/// GAP events that the adapter recognizes.
#[derive(Clone, Copy, Debug, PartialEq, Eq, Structural)]
pub enum GapEvent {
    Connected,
    Disconnected,
    ConnParamUpdate,
    SecParamsRequest,
    SecInfoRequest,
    PasskeyDisplay,
    KeyPressed,
    AuthKeyRequest,
    AuthStatus,
    ConnSecUpdate,
    Timeout,
    RssiChanged,
    SecRequest,
    ScanReqReport,
    PhyUpdateRequest,
    PhyUpdate,
    AdvSetTerminated,
    Unrecognized(u16),
}

pub open spec fn spec_gap_event(id: u16) -> GapEvent {
    match id {
        16 => GapEvent::Connected,
        17 => GapEvent::Disconnected,
        18 => GapEvent::ConnParamUpdate,
        19 => GapEvent::SecParamsRequest,
        20 => GapEvent::SecInfoRequest,
        21 => GapEvent::PasskeyDisplay,
        22 => GapEvent::KeyPressed,
        23 => GapEvent::AuthKeyRequest,
        25 => GapEvent::AuthStatus,
        26 => GapEvent::ConnSecUpdate,
        27 => GapEvent::Timeout,
        28 => GapEvent::RssiChanged,
        30 => GapEvent::SecRequest,
        32 => GapEvent::ScanReqReport,
        33 => GapEvent::PhyUpdateRequest,
        34 => GapEvent::PhyUpdate,
        38 => GapEvent::AdvSetTerminated,
        _ => GapEvent::Unrecognized(id),
    }
}

/// GATT server events that the adapter recognizes.
#[derive(Clone, Copy, Debug, PartialEq, Eq, Structural)]
pub enum GattsEvent {
    Write,
    RwAuthorizeRequest,
    SysAttrMissing,
    Hvc,
    ScConfirm,
    ExchangeMtuRequest,
    Timeout,
    HvnTxComplete,
    Unrecognized(u16),
}

pub open spec fn spec_gatts_event(id: u16) -> GattsEvent {
    match id {
        80 => GattsEvent::Write,
        81 => GattsEvent::RwAuthorizeRequest,
        82 => GattsEvent::SysAttrMissing,
        83 => GattsEvent::Hvc,
        84 => GattsEvent::ScConfirm,
        85 => GattsEvent::ExchangeMtuRequest,
        86 => GattsEvent::Timeout,
        87 => GattsEvent::HvnTxComplete,
        _ => GattsEvent::Unrecognized(id),
    }
}

/// Which handler an event went to, with what that handler made of it.
/// Exactly one handler sees each event.
#[derive(Clone, Copy, Debug, PartialEq, Eq, Structural)]
pub enum Dispatched {
    Common(CommonEvent),
    Gap(GapEvent),
    /// Client-role events are not handled; the identifier is kept for the log.
    Gattc(u16),
    Gatts(GattsEvent),
    /// An identifier outside every known range: logged, never fatal.
    Unknown(u16),
}

impl Dispatched {
    /// The category of the handler that was called.
    pub open spec fn category(self) -> EventCategory {
        match self {
            Dispatched::Common(_) => EventCategory::Common,
            Dispatched::Gap(_) => EventCategory::Gap,
            Dispatched::Gattc(_) => EventCategory::Gattc,
            Dispatched::Gatts(_) => EventCategory::Gatts,
            Dispatched::Unknown(_) => EventCategory::Unknown,
        }
    }

    /// Whether this is a write of the command attribute by the peer, on
    /// which the command has to be fetched.
    pub open spec fn spec_is_write(self) -> bool {
        self == Dispatched::Gatts(GattsEvent::Write)
    }

    pub fn is_write(&self) -> (r: bool)
        ensures
            r == self.spec_is_write(),
    {
        match self {
            Dispatched::Gatts(GattsEvent::Write) => true,
            _ => false,
        }
    }
}

/// What dispatch does with an identifier: the handler of its category,
/// applied to it.
pub open spec fn spec_dispatch(id: u16) -> Dispatched {
    match category_of(id) {
        EventCategory::Common => Dispatched::Common(spec_common_event(id)),
        EventCategory::Gap => Dispatched::Gap(spec_gap_event(id)),
        EventCategory::Gattc => Dispatched::Gattc(id),
        EventCategory::Gatts => Dispatched::Gatts(spec_gatts_event(id)),
        EventCategory::Unknown => Dispatched::Unknown(id),
    }
}

/// Handler of common events.
pub fn handle_common_evt(id: u16) -> (e: CommonEvent)
    ensures
        e == spec_common_event(id),
{
    if id == 1 {
        CommonEvent::UserMemRequest
    } else if id == 2 {
        CommonEvent::UserMemRelease
    } else {
        CommonEvent::Unrecognized(id)
    }
}

/// Handler of GAP events.
pub fn handle_gap_evt(id: u16) -> (e: GapEvent)
    ensures
        e == spec_gap_event(id),
{
    match id {
        16 => GapEvent::Connected,
        17 => GapEvent::Disconnected,
        18 => GapEvent::ConnParamUpdate,
        19 => GapEvent::SecParamsRequest,
        20 => GapEvent::SecInfoRequest,
        21 => GapEvent::PasskeyDisplay,
        22 => GapEvent::KeyPressed,
        23 => GapEvent::AuthKeyRequest,
        25 => GapEvent::AuthStatus,
        26 => GapEvent::ConnSecUpdate,
        27 => GapEvent::Timeout,
        28 => GapEvent::RssiChanged,
        30 => GapEvent::SecRequest,
        32 => GapEvent::ScanReqReport,
        33 => GapEvent::PhyUpdateRequest,
        34 => GapEvent::PhyUpdate,
        38 => GapEvent::AdvSetTerminated,
        _ => GapEvent::Unrecognized(id),
    }
}

/// Handler of GATT server events.
pub fn handle_gatts_evt(id: u16) -> (e: GattsEvent)
    ensures
        e == spec_gatts_event(id),
{
    match id {
        80 => GattsEvent::Write,
        81 => GattsEvent::RwAuthorizeRequest,
        82 => GattsEvent::SysAttrMissing,
        83 => GattsEvent::Hvc,
        84 => GattsEvent::ScConfirm,
        85 => GattsEvent::ExchangeMtuRequest,
        86 => GattsEvent::Timeout,
        87 => GattsEvent::HvnTxComplete,
        _ => GattsEvent::Unrecognized(id),
    }
}

/// Handler of GATT client events: none is handled, the identifier is
/// passed on to be logged.
pub fn handle_gattc_evt(id: u16) -> (r: u16)
    ensures
        r == id,
{
    id
}

/// Routes one event to the handler of its category. The handler is the
/// one that the range table names, boundaries included, and no other.
pub fn dispatch_event(id: u16) -> (d: Dispatched)
    ensures
        d == spec_dispatch(id),
        d.category() == category_of(id),
{
    match classify(id) {
        EventCategory::Common => Dispatched::Common(handle_common_evt(id)),
        EventCategory::Gap => Dispatched::Gap(handle_gap_evt(id)),
        EventCategory::Gattc => Dispatched::Gattc(handle_gattc_evt(id)),
        EventCategory::Gatts => Dispatched::Gatts(handle_gatts_evt(id)),
        EventCategory::Unknown => Dispatched::Unknown(id),
    }
}

} // verus!
