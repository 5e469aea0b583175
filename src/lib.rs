//! Core logic of a radio-controlled rover whose firmware shares its
//! microcontroller with a closed BLE protocol stack: motor actuation,
//! the indicator timing, the priority plan and its shared cells, event
//! routing, the drain and activation sequences of the stack adapter, and
//! the advertising payloads.

pub mod actuation;
pub mod advertising;
pub mod cell;
pub mod drain;
pub mod events;
pub mod indicator;
pub mod priority;
pub mod stack;

pub use actuation::{actuate, duty_for, ActuatorCommand, ChannelOutput, MotorOutputs, MAX_COMMAND};
pub use advertising::{
    ad_structure, advertising_data, device_name, scan_response, short_name, AD_TYPE_COMPLETE_NAME,
    AD_TYPE_FLAGS, AD_TYPE_SHORT_NAME, ADV_FLAGS, MAX_ADV_PAYLOAD,
};
pub use cell::{LockError, SharedCell};
pub use drain::{DrainAction, DrainPass, StopReason};
pub use events::{
    classify, dispatch_event, handle_common_evt, handle_gap_evt, handle_gattc_evt,
    handle_gatts_evt, CommonEvent, Dispatched, EventCategory, GapEvent, GattsEvent,
    BLE_EVT_BASE, BLE_EVT_LAST, BLE_GAP_EVT_BASE, BLE_GAP_EVT_LAST, BLE_GATTC_EVT_BASE,
    BLE_GATTC_EVT_LAST, BLE_GATTS_EVT_BASE, BLE_GATTS_EVT_LAST,
};
pub use indicator::{blink, blink_delay_ms, toggle_leds, BlinkStep, IndicatorLeds, BASE_PERIOD_MS};
pub use priority::{PriorityError, TaskPriority, HIGHEST_PRIORITY, LOWEST_PRIORITY, SVC_PRIORITY};
pub use stack::{
    speed_from_read, AttributeError, EnableError, EnableState, SoftDevice, StackCall,
    NRF_ERROR_DATA_SIZE, NRF_ERROR_INVALID_ADDR, NRF_ERROR_NOT_FOUND, NRF_SUCCESS,
    UUID_TYPE_UNSET,
};
