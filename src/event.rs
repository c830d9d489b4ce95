use vstd::prelude::*;

verus! {

/// What the supervisor reports to the registered listener.
pub enum BleSerialEvent {
    Connect,
    Disconnect,
    Receive(Vec<u8>),
    WriteFailed(Vec<u8>),
}

/// One item taken from the merged sources while a session is active:
/// caller requests, device notifications and the liveness ticker.
pub enum BleHdlMsg {
    ReqSetBaud(u32),
    ReqWrite(Vec<u8>),
    ReqDrop,
    ReadNotify(Vec<u8>),
    Timer,
}

/// A failure returned synchronously by the blocking caller operations.
#[derive(PartialEq, Eq, Structural, Clone, Copy, Debug)]
pub enum IoFailure {
    NotConnected,
    TimedOut,
    Other,
}

} // verus!
