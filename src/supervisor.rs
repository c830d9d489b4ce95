use vstd::prelude::*;

use crate::baud::{acceptable, baud_acceptable, decode_baud, encode_baud, le_u32};
use crate::device::{find_device, lower_of, seq_contains};
use crate::event::{BleHdlMsg, BleSerialEvent};
use crate::gatt::{
    is_last_index, select_characteristics, CharIndices, UUID_CHAR_BAUD, UUID_CHAR_READ, UUID_CHAR_WRITE,
};
use crate::laws::{alternating, lemma_trace_alternates, name_step};
use crate::state::{copy_bytes, SerialState, SerialStateView};

verus! {

/// Pause at the start of every session, so an absent device is not hammered.
pub const SETTLE_MS: u64 = 1500;

/// Pause before each look at the devices found by the scan.
pub const SCAN_POLL_MS: u64 = 1000;

/// Looks at the scan results before the session is given up.
pub const SCAN_POLLS: u8 = 10;

/// Reads of the baud characteristic that make up one baud reading.
pub const BAUD_READ_ATTEMPTS: u8 = 3;

/// Writes of a new baud before the device is polled regardless.
pub const BAUD_WRITE_ATTEMPTS: u8 = 3;

/// Baud readings taken while waiting for a requested baud to show.
pub const BAUD_POLLS: u8 = 10;

/// Pause between two baud readings that did not show the requested baud.
pub const BAUD_POLL_MS: u64 = 400;

/// Writes of a payload before it is reported as failed.
pub const WRITE_ATTEMPTS: u8 = 3;

/// Period of the liveness ticker while a session is active.
pub const LINK_CHECK_MS: u64 = 2000;

/// Where the supervisor stands in its session cycle.
pub enum Phase {
    /// A new session is to be opened.
    Idle,
    /// Waiting out the settle delay.
    Settling,
    /// Discovery of devices with the service is being started.
    Starting,
    /// Waiting before the next look at the scan results.
    ScanWait { polls: u8 },
    /// Looking at the scan results.
    ScanCollect { polls: u8 },
    Connecting,
    Discovering,
    /// Reading the device's baud; `attempts` reads have failed so far.
    BaudCheck { attempts: u8 },
    /// Enabling notifications on the read characteristic.
    NotifySetup,
    Subscribing,
    Naming,
    /// Serving: waiting for the next merged item.
    Active,
    /// Asking the adapter whether the link is still up.
    LinkCheck,
    /// Writing a requested baud; `attempts` writes have failed so far.
    BaudWrite { target: u32, attempts: u8 },
    /// Reading the baud back after a change; `polls` readings were rejected,
    /// `reads` reads of the current reading failed.
    BaudPoll { target: u32, polls: u8, reads: u8 },
    /// Waiting before the next reading after a change.
    BaudPause { target: u32, polls: u8 },
    /// Writing a payload; `attempts` writes have failed so far.
    Writing { data: Vec<u8>, attempts: u8 },
    /// Terminal: the supervisor has been told to stop.
    ShutDown,
}

/// The outcome of the last action, or an item from the merged sources.
pub enum LinkEvent {
    /// The driver made a new request channel and installed its sender.
    SessionOpened,
    /// A requested pause has elapsed.
    Slept,
    ScanStarted(bool),
    /// The ids of the devices seen by the scan so far, in order.
    ScanPolled(Vec<String>),
    Connected(bool),
    /// The characteristic UUIDs of the service, or None where discovery failed.
    Discovered(Option<Vec<u128>>),
    /// The raw bytes of a baud read, or None where the read failed.
    BaudRead(Option<Vec<u8>>),
    /// Whether the configuration descriptor was found; its write is best effort.
    NotifyEnabled(bool),
    Subscribed(bool),
    /// The device's name, where the adapter could tell it.
    NameResolved(Option<String>),
    /// The next item of the merged sources.
    Item(BleHdlMsg),
    /// One of the merged sources has ended.
    SourceClosed,
    LinkStatus(bool),
    BaudWritten(bool),
    DataWritten(bool),
}

/// What the driver is to do next; each action is answered by one event.
pub enum Action {
    /// Make a new request channel, install its sender, answer `SessionOpened`.
    OpenSession,
    /// Pause this many milliseconds, answer `Slept`.
    Sleep(u64),
    StartScan,
    /// Collect the ids seen by the scan, answer `ScanPolled`.
    CollectScan,
    /// Connect the device at this position of the last `ScanPolled` list.
    Connect(usize),
    Discover,
    ReadBaud,
    EnableNotify,
    Subscribe,
    ResolveName,
    /// Wait for the next item of the merged sources.
    AwaitItem,
    CheckLink,
    /// Write these bytes to the baud characteristic, without response.
    WriteBaud(Vec<u8>),
    /// Write these bytes to the write characteristic, with response.
    WriteData(Vec<u8>),
    /// Stop the supervisor for good.
    Stop,
}

/// The decision taken on one event: an event for the listener, if any, and
/// the next action.
pub struct Step {
    pub emit: Option<BleSerialEvent>,
    pub action: Action,
}

/// The phases of a session in which it is active (the device name is known).
pub open spec fn serving(p: Phase) -> bool {
    match p {
        Phase::Active | Phase::LinkCheck | Phase::BaudWrite { .. } | Phase::BaudPoll { .. }
        | Phase::BaudPause { .. } | Phase::Writing { .. } => true,
        _ => false,
    }
}

/// The phases in which the three characteristics have been chosen.
pub open spec fn bound(p: Phase) -> bool {
    serving(p) || p is BaudCheck || p is NotifySetup || p is Subscribing || p is Naming
}

/// The session cycle of one device: decides, event by event, what the driver
/// does next and keeps the shared state in step.
pub struct Supervisor {
    phase: Phase,
    chars: Option<CharIndices>,
}

/// The bytes a step hands to the listener as received.
pub open spec fn received(r: Step) -> Seq<u8> {
    match r.emit {
        Some(BleSerialEvent::Receive(d)) => d@,
        _ => Seq::empty(),
    }
}

/// The retry counters stay below their limits.
pub open spec fn counters_ok(p: Phase) -> bool {
    match p {
        Phase::ScanWait { polls } => polls < SCAN_POLLS,
        Phase::ScanCollect { polls } => polls < SCAN_POLLS,
        Phase::BaudCheck { attempts } => attempts < BAUD_READ_ATTEMPTS,
        Phase::BaudWrite { attempts, .. } => attempts < BAUD_WRITE_ATTEMPTS,
        Phase::BaudPoll { polls, reads, .. } => polls < BAUD_POLLS && reads < BAUD_READ_ATTEMPTS,
        Phase::BaudPause { polls, .. } => polls < BAUD_POLLS,
        Phase::Writing { attempts, .. } => attempts < WRITE_ATTEMPTS,
        _ => true,
    }
}

/// A reading of the baud characteristic that carries a value.
pub open spec fn reading_ok(o: Option<Vec<u8>>) -> bool {
    o matches Some(b) && b@.len() >= 4
}

/// The value of a reading that carries one.
pub open spec fn reading_value(o: Option<Vec<u8>>) -> int {
    match o {
        Some(b) => le_u32(b@),
        None => 0,
    }
}

/// Discovery succeeded and found the baud, read and write characteristics.
pub open spec fn has_all_chars(o: Option<Vec<u128>>) -> bool {
    o matches Some(u) && u@.contains(UUID_CHAR_BAUD) && u@.contains(UUID_CHAR_READ) && u@.contains(
        UUID_CHAR_WRITE,
    )
}

/// Each position holds the last occurrence of its characteristic's UUID.
pub open spec fn chars_at(uuids: Seq<u128>, c: CharIndices) -> bool {
    &&& is_last_index(uuids, UUID_CHAR_BAUD, c.baud as int)
    &&& is_last_index(uuids, UUID_CHAR_READ, c.read as int)
    &&& is_last_index(uuids, UUID_CHAR_WRITE, c.write as int)
}

/// `i` is the first of `ids` that names `addr`.
pub open spec fn first_match(ids: Seq<String>, addr: Seq<char>, i: int) -> bool {
    &&& 0 <= i < ids.len()
    &&& seq_contains(lower_of(ids[i]@), lower_of(addr))
    &&& forall|j: int| 0 <= j < i ==> !seq_contains(lower_of(#[trigger] ids[j]@), lower_of(addr))
}

/// Some of `ids` names `addr`.
pub open spec fn any_match(ids: Seq<String>, addr: Seq<char>) -> bool {
    exists|j: int| 0 <= j < ids.len() && seq_contains(lower_of(#[trigger] ids[j]@), lower_of(addr))
}

/// The name stored on connecting: the resolved one, else "unknown".
pub open spec fn connect_name(n: Option<String>) -> Seq<char> {
    match n {
        Some(s) => s@,
        None => unknown_name(),
    }
}

/// The name stored for a device that does not tell its own.
pub open spec fn unknown_name() -> Seq<char> {
    "unknown"@
}

/// Whether each state of a run knows the device name.
pub open spec fn presences(states: Seq<SerialStateView>) -> Seq<bool> {
    Seq::new(states.len(), |k: int| states[k].name is Some)
}

/// Which steps of a run emitted Connect.
pub open spec fn connects(steps: Seq<Step>) -> Seq<bool> {
    Seq::new(steps.len(), |k: int| steps[k].emit matches Some(BleSerialEvent::Connect))
}

/// Which steps of a run emitted Disconnect.
pub open spec fn disconnects(steps: Seq<Step>) -> Seq<bool> {
    Seq::new(steps.len(), |k: int| steps[k].emit matches Some(BleSerialEvent::Disconnect))
}

/// `states` and `steps` record a run of `Supervisor::step`: step `k` took
/// the shared state from `states[k]` to `states[k + 1]` and returned
/// `steps[k]`, under the name rule that `step` ensures.
pub open spec fn step_run(states: Seq<SerialStateView>, steps: Seq<Step>) -> bool {
    &&& states.len() == steps.len() + 1
    &&& forall|k: int|
        0 <= k < steps.len() ==> name_step(
            states[k].name is Some,
            states[k + 1].name is Some,
            #[trigger] steps[k].emit matches Some(BleSerialEvent::Connect),
            steps[k].emit matches Some(BleSerialEvent::Disconnect),
        )
}

/// Over any run of the supervisor, Connect and Disconnect alternate: after
/// a Connect exactly one Disconnect comes before the next Connect, and from
/// a state without a name the first of them is Connect.
pub proof fn lemma_run_alternates(states: Seq<SerialStateView>, steps: Seq<Step>)
    requires
        step_run(states, steps),
    ensures
        alternating(states[0].name is Some, connects(steps), disconnects(steps)),
{
    let present = presences(states);
    assert forall|k: int| 0 <= k < connects(steps).len() implies #[trigger] name_step(
        present[k],
        present[k + 1],
        connects(steps)[k],
        disconnects(steps)[k],
    ) by {
        assert(name_step(
            states[k].name is Some,
            states[k + 1].name is Some,
            steps[k].emit matches Some(BleSerialEvent::Connect),
            steps[k].emit matches Some(BleSerialEvent::Disconnect),
        ));
    }
    lemma_trace_alternates(present, connects(steps), disconnects(steps));
}

/// The step that restarts the session cycle.
pub open spec fn restarting(r: Step) -> bool {
    r.emit is None && r.action is OpenSession
}

/// The step that waits for the next merged item, emitting nothing.
pub open spec fn awaiting(r: Step) -> bool {
    r.emit is None && r.action is AwaitItem
}

/// Everything but the receive buffer, the device name and the baud is kept.
pub open spec fn same_frame(a: SerialStateView, b: SerialStateView) -> bool {
    a.addr == b.addr && a.has_channel == b.has_channel
}

impl Supervisor {
    pub closed spec fn spec_phase(&self) -> Phase {
        self.phase
    }

    pub closed spec fn spec_chars(&self) -> Option<CharIndices> {
        self.chars
    }

    /// The device name is known exactly while a session is active, and past
    /// its end until the next session opens or the supervisor stops.
    pub open spec fn wf(&self, st: SerialStateView) -> bool {
        &&& serving(self.spec_phase()) ==> st.name.is_some()
        &&& bound(self.spec_phase()) ==> self.spec_chars().is_some()
        &&& st.name.is_some() ==> serving(self.spec_phase()) || self.spec_phase() is Idle
            || self.spec_phase() is ShutDown
        &&& counters_ok(self.spec_phase())
    }

    /// A supervisor about to open its first session.
    pub fn new() -> (r: Self)
        ensures
            r.spec_phase() is Idle,
            r.spec_chars() is None,
    {
        Supervisor { phase: Phase::Idle, chars: None }
    }

    /// The first action: open a session.
    pub fn start(&self) -> (r: Step)
        ensures
            restarting(r),
    {
        Step { emit: None, action: Action::OpenSession }
    }

    pub fn phase(&self) -> (r: &Phase)
        ensures
            *r == self.spec_phase(),
    {
        &self.phase
    }

    /// The positions of the three characteristics chosen for this session.
    pub fn characteristics(&self) -> (r: Option<CharIndices>)
        ensures
            r == self.spec_chars(),
    {
        self.chars
    }

    fn restart(&mut self) -> (r: Step)
        ensures
            final(self).spec_phase() is Idle,
            final(self).spec_chars() is None,
            restarting(r),
    {
        self.phase = Phase::Idle;
        self.chars = None;
        Step { emit: None, action: Action::OpenSession }
    }

    fn serve(&mut self) -> (r: Step)
        ensures
            final(self).spec_phase() is Active,
            final(self).spec_chars() == old(self).spec_chars(),
            awaiting(r),
    {
        self.phase = Phase::Active;
        Step { emit: None, action: Action::AwaitItem }
    }
    /// Decides what follows `ev`: the next phase, the update of the shared
    /// state, an event for the listener and the next action.
    #[verifier::rlimit(50)]
    pub fn step<S>(&mut self, shared: &mut SerialState<S>, ev: LinkEvent) -> (r: Step)
        requires
            old(self).wf(old(shared)@),
        ensures
            final(self).wf(final(shared)@),
            same_frame(old(shared)@, final(shared)@),
            // the name appears exactly with Connect and goes exactly with Disconnect
            name_step(
                old(shared)@.name is Some,
                final(shared)@.name is Some,
                r.emit matches Some(BleSerialEvent::Connect),
                r.emit matches Some(BleSerialEvent::Disconnect),
            ),
            // bytes enter the buffer only with the Receive event that carries them
            final(shared)@.buffer == old(shared)@.buffer + received(r),
            // the chosen characteristics change only on discovery and restart
            final(self).spec_chars() != old(self).spec_chars() ==> r.action is OpenSession
                || old(self).spec_phase() is Discovering,
            final(self).spec_phase() is Idle ==> final(self).spec_chars() is None,
            // a new session is opened exactly when the cycle restarts
            (r.action is OpenSession) <==> final(self).spec_phase() is Idle,
            r.action is OpenSession ==> r.emit is None,
            // only an explicit request stops the supervisor
            final(self).spec_phase() is ShutDown ==> (ev matches LinkEvent::Item(BleHdlMsg::ReqDrop))
                || old(self).spec_phase() is ShutDown,
            // shutdown is terminal and reachable from anywhere
            (ev matches LinkEvent::Item(BleHdlMsg::ReqDrop)) || old(self).spec_phase() is ShutDown
                ==> final(self).spec_phase() is ShutDown && r.emit is None && r.action is Stop
                && final(shared)@ == old(shared)@,
            !(ev matches LinkEvent::Item(BleHdlMsg::ReqDrop)) && !(old(self).spec_phase() is ShutDown)
                ==> {
                // the baud changes only on a reading taken at setup, or on an
                // acceptable reading after a requested change
                &&& final(shared)@.baud != old(shared)@.baud ==> (ev matches LinkEvent::BaudRead(o)
                    && reading_ok(o) && final(shared)@.baud == reading_value(o) && (
                old(self).spec_phase() is BaudCheck || (old(self).spec_phase() matches Phase::BaudPoll {
                    target,
                    ..
                } && acceptable(reading_value(o), target as int))))
                // session setup
                &&& (old(self).spec_phase(), ev) matches (Phase::Idle, LinkEvent::SessionOpened)
                    ==> final(self).spec_phase() is Settling && final(shared)@.name is None
                    && r.action == Action::Sleep(SETTLE_MS) && (if old(shared)@.name is Some {
                    r.emit matches Some(BleSerialEvent::Disconnect)
                } else {
                    r.emit is None
                })
                &&& (old(self).spec_phase(), ev) matches (Phase::Settling, LinkEvent::Slept)
                    ==> final(self).spec_phase() is Starting && r.emit is None && r.action is StartScan
                &&& (old(self).spec_phase(), ev) matches (Phase::Starting, LinkEvent::ScanStarted(ok))
                    ==> if ok {
                    final(self).spec_phase() == Phase::ScanWait { polls: 0 } && r.emit is None
                        && r.action == Action::Sleep(SCAN_POLL_MS)
                } else {
                    restarting(r)
                }
                &&& (old(self).spec_phase(), ev) matches (Phase::ScanWait { polls }, LinkEvent::Slept)
                    ==> final(self).spec_phase() == Phase::ScanCollect { polls } && r.emit is None
                    && r.action is CollectScan
                &&& (old(self).spec_phase(), ev) matches (
                    Phase::ScanCollect { polls },
                    LinkEvent::ScanPolled(ids),
                ) ==> if any_match(ids@, old(shared)@.addr) {
                    final(self).spec_phase() is Connecting && r.emit is None && (r.action matches Action::Connect(i)
                        && first_match(ids@, old(shared)@.addr, i as int))
                } else if polls + 1 < SCAN_POLLS {
                    final(self).spec_phase() == Phase::ScanWait { polls: (polls + 1) as u8 }
                        && r.emit is None && r.action == Action::Sleep(SCAN_POLL_MS)
                } else {
                    restarting(r)
                }
                &&& (old(self).spec_phase(), ev) matches (Phase::Connecting, LinkEvent::Connected(ok))
                    ==> if ok {
                    final(self).spec_phase() is Discovering && r.emit is None && r.action is Discover
                } else {
                    restarting(r)
                }
                &&& (old(self).spec_phase(), ev) matches (Phase::Discovering, LinkEvent::Discovered(o))
                    ==> if has_all_chars(o) {
                    final(self).spec_phase() == Phase::BaudCheck { attempts: 0 } && r.emit is None
                        && r.action is ReadBaud && (final(self).spec_chars() matches Some(c)
                        && chars_at(o->0@, c))
                } else {
                    restarting(r)
                }
                &&& (old(self).spec_phase(), ev) matches (
                    Phase::BaudCheck { attempts },
                    LinkEvent::BaudRead(o),
                ) ==> if reading_ok(o) {
                    final(self).spec_phase() is NotifySetup && r.emit is None && r.action is EnableNotify
                        && final(shared)@.baud == reading_value(o)
                } else if attempts + 1 < BAUD_READ_ATTEMPTS {
                    final(self).spec_phase() == Phase::BaudCheck { attempts: (attempts + 1) as u8 }
                        && r.emit is None && r.action is ReadBaud
                } else {
                    restarting(r)
                }
                &&& (old(self).spec_phase(), ev) matches (Phase::NotifySetup, LinkEvent::NotifyEnabled(found))
                    ==> if found {
                    final(self).spec_phase() is Subscribing && r.emit is None && r.action is Subscribe
                } else {
                    restarting(r)
                }
                &&& (old(self).spec_phase(), ev) matches (Phase::Subscribing, LinkEvent::Subscribed(ok))
                    ==> if ok {
                    final(self).spec_phase() is Naming && r.emit is None && r.action is ResolveName
                } else {
                    restarting(r)
                }
                &&& (old(self).spec_phase(), ev) matches (Phase::Naming, LinkEvent::NameResolved(n))
                    ==> final(self).spec_phase() is Active && (r.emit matches Some(BleSerialEvent::Connect))
                    && r.action is AwaitItem && final(shared)@.name == Some(connect_name(n))
                // serving
                &&& (old(self).spec_phase(), ev) matches (
                    Phase::Active,
                    LinkEvent::Item(BleHdlMsg::ReadNotify(d)),
                ) ==> final(self).spec_phase() is Active && received(r) == d@ && (r.emit matches Some(
                    BleSerialEvent::Receive(_),
                )) && r.action is AwaitItem
                &&& (old(self).spec_phase(), ev) matches (Phase::Active, LinkEvent::Item(BleHdlMsg::Timer))
                    ==> final(self).spec_phase() is LinkCheck && r.emit is None && r.action is CheckLink
                &&& (old(self).spec_phase(), ev) matches (Phase::LinkCheck, LinkEvent::LinkStatus(up))
                    ==> if up {
                    final(self).spec_phase() is Active && awaiting(r)
                } else {
                    restarting(r)
                }
                &&& (old(self).spec_phase(), ev) matches (Phase::Active, LinkEvent::SourceClosed)
                    ==> restarting(r)
                // changing the baud
                &&& (old(self).spec_phase(), ev) matches (
                    Phase::Active,
                    LinkEvent::Item(BleHdlMsg::ReqSetBaud(b)),
                ) ==> final(self).spec_phase() == Phase::BaudWrite { target: b, attempts: 0 }
                    && r.emit is None && (r.action matches Action::WriteBaud(bytes) && bytes@.len() == 4
                    && le_u32(bytes@) == b)
                &&& (old(self).spec_phase(), ev) matches (
                    Phase::BaudWrite { target, attempts },
                    LinkEvent::BaudWritten(ok),
                ) ==> if ok || attempts + 1 >= BAUD_WRITE_ATTEMPTS {
                    final(self).spec_phase() == Phase::BaudPoll { target, polls: 0, reads: 0 }
                        && r.emit is None && r.action is ReadBaud
                } else {
                    final(self).spec_phase() == Phase::BaudWrite { target, attempts: (attempts + 1) as u8 }
                        && r.emit is None && (r.action matches Action::WriteBaud(bytes) && bytes@.len()
                        == 4 && le_u32(bytes@) == target)
                }
                &&& (old(self).spec_phase(), ev) matches (
                    Phase::BaudPoll { target, polls, reads },
                    LinkEvent::BaudRead(o),
                ) ==> if reading_ok(o) && acceptable(reading_value(o), target as int) {
                    final(self).spec_phase() is Active && awaiting(r) && final(shared)@.baud
                        == reading_value(o)
                } else if !reading_ok(o) && reads + 1 < BAUD_READ_ATTEMPTS {
                    final(self).spec_phase() == Phase::BaudPoll { target, polls, reads: (reads + 1) as u8 }
                        && r.emit is None && r.action is ReadBaud
                } else {
                    final(self).spec_phase() == Phase::BaudPause { target, polls } && r.emit is None
                        && r.action == Action::Sleep(BAUD_POLL_MS)
                }
                &&& (old(self).spec_phase(), ev) matches (
                    Phase::BaudPause { target, polls },
                    LinkEvent::Slept,
                ) ==> if polls + 1 < BAUD_POLLS {
                    final(self).spec_phase() == Phase::BaudPoll { target, polls: (polls + 1) as u8, reads: 0 }
                        && r.emit is None && r.action is ReadBaud
                } else {
                    final(self).spec_phase() is Active && awaiting(r)
                }
                // writing
                &&& (old(self).spec_phase(), ev) matches (
                    Phase::Active,
                    LinkEvent::Item(BleHdlMsg::ReqWrite(d)),
                ) ==> (final(self).spec_phase() matches Phase::Writing { data, attempts } && data@ == d@
                    && attempts == 0) && r.emit is None && (r.action matches Action::WriteData(x) && x@
                    == d@)
                &&& (old(self).spec_phase(), ev) matches (
                    Phase::Writing { data, attempts },
                    LinkEvent::DataWritten(ok),
                ) ==> if ok {
                    final(self).spec_phase() is Active && awaiting(r)
                } else if attempts + 1 < WRITE_ATTEMPTS {
                    (final(self).spec_phase() matches Phase::Writing { data: d2, attempts: a2 }
                        && d2@ == data@ && a2 == attempts + 1) && r.emit is None && (
                    r.action matches Action::WriteData(x) && x@ == data@)
                } else {
                    final(self).spec_phase() is Active && (r.emit matches Some(
                        BleSerialEvent::WriteFailed(x),
                    ) && x@ == data@) && r.action is AwaitItem
                }
            },
    {
        if let LinkEvent::Item(BleHdlMsg::ReqDrop) = ev {
            self.phase = Phase::ShutDown;
            return Step { emit: None, action: Action::Stop };
        }
        if let Phase::ShutDown = self.phase {
            return Step { emit: None, action: Action::Stop };
        }
        let mut phase = Phase::Idle;
        core::mem::swap(&mut phase, &mut self.phase);
        match (phase, ev) {
            (Phase::Idle, LinkEvent::SessionOpened) => {
                let prev = shared.set_name(None);
                self.phase = Phase::Settling;
                let emit = if prev.is_some() {
                    Some(BleSerialEvent::Disconnect)
                } else {
                    None
                };
                Step { emit, action: Action::Sleep(SETTLE_MS) }
            },
            (Phase::Settling, LinkEvent::Slept) => {
                self.phase = Phase::Starting;
                Step { emit: None, action: Action::StartScan }
            },
            (Phase::Starting, LinkEvent::ScanStarted(ok)) => {
                if ok {
                    self.phase = Phase::ScanWait { polls: 0 };
                    Step { emit: None, action: Action::Sleep(SCAN_POLL_MS) }
                } else {
                    self.restart()
                }
            },
            (Phase::ScanWait { polls }, LinkEvent::Slept) => {
                self.phase = Phase::ScanCollect { polls };
                Step { emit: None, action: Action::CollectScan }
            },
            (Phase::ScanCollect { polls }, LinkEvent::ScanPolled(ids)) => {
                match find_device(ids.as_slice(), shared.dev_addr()) {
                    Some(i) => {
                        self.phase = Phase::Connecting;
                        Step { emit: None, action: Action::Connect(i) }
                    },
                    None => {
                        if polls + 1 < SCAN_POLLS {
                            self.phase = Phase::ScanWait { polls: polls + 1 };
                            Step { emit: None, action: Action::Sleep(SCAN_POLL_MS) }
                        } else {
                            self.restart()
                        }
                    },
                }
            },
            (Phase::Connecting, LinkEvent::Connected(ok)) => {
                if ok {
                    self.phase = Phase::Discovering;
                    Step { emit: None, action: Action::Discover }
                } else {
                    self.restart()
                }
            },
            (Phase::Discovering, LinkEvent::Discovered(o)) => {
                match o {
                    Some(uuids) => match select_characteristics(uuids.as_slice()) {
                        Some(c) => {
                            self.chars = Some(c);
                            self.phase = Phase::BaudCheck { attempts: 0 };
                            Step { emit: None, action: Action::ReadBaud }
                        },
                        None => self.restart(),
                    },
                    None => self.restart(),
                }
            },
            (Phase::BaudCheck { attempts }, LinkEvent::BaudRead(o)) => {
                match decode_reading(&o) {
                    Some(b) => {
                        shared.set_baud(b);
                        self.phase = Phase::NotifySetup;
                        Step { emit: None, action: Action::EnableNotify }
                    },
                    None => {
                        if attempts + 1 < BAUD_READ_ATTEMPTS {
                            self.phase = Phase::BaudCheck { attempts: attempts + 1 };
                            Step { emit: None, action: Action::ReadBaud }
                        } else {
                            self.restart()
                        }
                    },
                }
            },
            (Phase::NotifySetup, LinkEvent::NotifyEnabled(found)) => {
                if found {
                    self.phase = Phase::Subscribing;
                    Step { emit: None, action: Action::Subscribe }
                } else {
                    self.restart()
                }
            },
            (Phase::Subscribing, LinkEvent::Subscribed(ok)) => {
                if ok {
                    self.phase = Phase::Naming;
                    Step { emit: None, action: Action::ResolveName }
                } else {
                    self.restart()
                }
            },
            (Phase::Naming, LinkEvent::NameResolved(n)) => {
                let name = match n {
                    Some(s) => s,
                    None => "unknown".to_owned(),
                };
                shared.set_name(Some(name));
                self.phase = Phase::Active;
                Step { emit: Some(BleSerialEvent::Connect), action: Action::AwaitItem }
            },
            (Phase::Active, LinkEvent::Item(BleHdlMsg::ReadNotify(d))) => {
                shared.push_received(d.as_slice());
                self.phase = Phase::Active;
                Step { emit: Some(BleSerialEvent::Receive(d)), action: Action::AwaitItem }
            },
            (Phase::Active, LinkEvent::Item(BleHdlMsg::Timer)) => {
                self.phase = Phase::LinkCheck;
                Step { emit: None, action: Action::CheckLink }
            },
            (Phase::LinkCheck, LinkEvent::LinkStatus(up)) => {
                if up {
                    self.serve()
                } else {
                    self.restart()
                }
            },
            (Phase::Active, LinkEvent::Item(BleHdlMsg::ReqSetBaud(b))) => {
                self.phase = Phase::BaudWrite { target: b, attempts: 0 };
                Step { emit: None, action: Action::WriteBaud(encode_baud(b)) }
            },
            (Phase::BaudWrite { target, attempts }, LinkEvent::BaudWritten(ok)) => {
                if ok || attempts + 1 >= BAUD_WRITE_ATTEMPTS {
                    self.phase = Phase::BaudPoll { target, polls: 0, reads: 0 };
                    Step { emit: None, action: Action::ReadBaud }
                } else {
                    self.phase = Phase::BaudWrite { target, attempts: attempts + 1 };
                    Step { emit: None, action: Action::WriteBaud(encode_baud(target)) }
                }
            },
            (Phase::BaudPoll { target, polls, reads }, LinkEvent::BaudRead(o)) => {
                let cur = decode_reading(&o);
                match cur {
                    Some(b) => {
                        if baud_acceptable(b, target) {
                            shared.set_baud(b);
                            return self.serve();
                        }
                    },
                    None => {
                        if reads + 1 < BAUD_READ_ATTEMPTS {
                            self.phase = Phase::BaudPoll { target, polls, reads: reads + 1 };
                            return Step { emit: None, action: Action::ReadBaud };
                        }
                    },
                }
                self.phase = Phase::BaudPause { target, polls };
                Step { emit: None, action: Action::Sleep(BAUD_POLL_MS) }
            },
            (Phase::BaudPause { target, polls }, LinkEvent::Slept) => {
                if polls + 1 < BAUD_POLLS {
                    self.phase = Phase::BaudPoll { target, polls: polls + 1, reads: 0 };
                    Step { emit: None, action: Action::ReadBaud }
                } else {
                    self.serve()
                }
            },
            (Phase::Active, LinkEvent::Item(BleHdlMsg::ReqWrite(d))) => {
                let x = copy_bytes(d.as_slice());
                self.phase = Phase::Writing { data: d, attempts: 0 };
                Step { emit: None, action: Action::WriteData(x) }
            },
            (Phase::Writing { data, attempts }, LinkEvent::DataWritten(ok)) => {
                if ok {
                    self.serve()
                } else if attempts + 1 < WRITE_ATTEMPTS {
                    let x = copy_bytes(data.as_slice());
                    self.phase = Phase::Writing { data, attempts: attempts + 1 };
                    Step { emit: None, action: Action::WriteData(x) }
                } else {
                    self.phase = Phase::Active;
                    Step { emit: Some(BleSerialEvent::WriteFailed(data)), action: Action::AwaitItem }
                }
            },
            _ => self.restart(),
        }
    }

    /// Feeds the events in order to `step` and returns its steps. Connect and
    /// Disconnect alternate among them, as over every run.
    pub fn run<S>(&mut self, shared: &mut SerialState<S>, events: Vec<LinkEvent>) -> (r: Vec<Step>)
        requires
            old(self).wf(old(shared)@),
        ensures
            final(self).wf(final(shared)@),
            r@.len() == events@.len(),
            alternating(old(shared)@.name is Some, connects(r@), disconnects(r@)),
    {
        let mut events = events;
        let ghost n = events@.len();
        let ghost states: Seq<SerialStateView> = seq![shared@];
        let mut out: Vec<Step> = Vec::new();
        while events.len() > 0
            invariant
                self.wf(shared@),
                step_run(states, out@),
                states[0] == old(shared)@,
                states.last() == shared@,
                out@.len() + events@.len() == n,
            decreases events@.len(),
        {
            let ev = events.remove(0);
            let r = self.step(shared, ev);
            proof {
                states = states.push(shared@);
            }
            out.push(r);
            assert(step_run(states, out@)) by {
                assert forall|k: int| 0 <= k < out@.len() implies name_step(
                    states[k].name is Some,
                    states[k + 1].name is Some,
                    #[trigger] out@[k].emit matches Some(BleSerialEvent::Connect),
                    out@[k].emit matches Some(BleSerialEvent::Disconnect),
                ) by {
                    if k < out@.len() - 1 {
                        assert(out@[k] == out@.drop_last()[k]);
                    }
                }
            }
        }
        proof {
            lemma_run_alternates(states, out@);
        }
        out
    }
}

/// The baud carried by a reading, if the read succeeded and is well formed.
fn decode_reading(o: &Option<Vec<u8>>) -> (r: Option<u32>)
    ensures
        reading_ok(*o) ==> r == Some(reading_value(*o) as u32) && reading_value(*o) < 0x1_0000_0000,
        !reading_ok(*o) ==> r is None,
{
    match o {
        Some(b) => decode_baud(b.as_slice()),
        None => None,
    }
}

} // verus!
