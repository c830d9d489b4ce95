//! A byte-stream transport over a BLE GATT "UART" service.
//!
//! The library holds the decision logic: baud-rate negotiation, the
//! session state shared between the blocking caller side and the
//! background worker, and the connection supervisor state machine.
//! Performing the radio operations, sleeping and spawning belongs to
//! the program that drives these types.
pub mod baud;
pub mod device;
pub mod event;
pub mod gatt;
pub mod hexfmt;
pub mod laws;
pub mod read;
pub mod state;
pub mod supervisor;

pub use baud::{baud_acceptable, decode_baud, encode_baud};
pub use device::{chars_of, contains_folded, device_matches, find_device};
pub use event::{BleHdlMsg, BleSerialEvent, IoFailure};
pub use gatt::{
    bluetooth_uuid_from_u16, notify_enable_value, select_characteristics, CharIndices,
    BLUETOOTH_BASE_UUID, UUID_CHAR_BAUD, UUID_CHAR_READ, UUID_CHAR_WRITE, UUID_DESC_CLIENT_CHAR_CONF,
    UUID_SERV,
};
pub use hexfmt::bytes_to_spaced_hex;
pub use laws::{
    lemma_acceptable_swap, lemma_change_has_event, lemma_no_connect_no_name,
    lemma_one_disconnect_between_connects, lemma_receive_fifo, lemma_trace_alternates,
    lemma_zero_never_acceptable,
};
pub use read::{ReadProgress, READ_POLL_MS};
pub use state::{
    copy_bytes, valid_address, BaudWait, SerialState, SerialStateView, DEFAULT_BAUD, SET_BAUD_POLLS,
    SET_BAUD_POLL_MS,
};
pub use supervisor::{
    lemma_run_alternates, Action, LinkEvent, Phase, Step, Supervisor, BAUD_POLLS, BAUD_POLL_MS, BAUD_READ_ATTEMPTS,
    BAUD_WRITE_ATTEMPTS, LINK_CHECK_MS, SCAN_POLLS, SCAN_POLL_MS, SETTLE_MS, WRITE_ATTEMPTS,
};
