use vstd::prelude::*;

use std::collections::VecDeque;

use crate::baud::{acceptable, baud_acceptable};
use crate::event::{BleHdlMsg, IoFailure};

verus! {

/// The baud assumed until the device reports its own.
pub const DEFAULT_BAUD: u32 = 9600;

/// Looks at the baud, one per pause, while a caller waits for a change.
pub const SET_BAUD_POLLS: u32 = 10;

/// Pause before each look at the baud while a caller waits for a change.
pub const SET_BAUD_POLL_MS: u64 = 1000;

/// What a caller waiting for a baud change does after one look.
pub enum BaudWait {
    /// The baud is acceptable: return it.
    Settled(u32),
    /// Pause and look again.
    Wait,
    /// Out of looks: fail with the baud known now, if connected.
    GiveUp(Option<u32>),
}

/// The abstract content of the shared session state.
pub struct SerialStateView {
    pub addr: Seq<char>,
    pub name: Option<Seq<char>>,
    pub baud: u32,
    pub buffer: Seq<u8>,
    pub has_channel: bool,
}

/// State shared by the caller side and the background supervisor, kept
/// behind one lock by the driver. `S` is the sender end of the current
/// session's request channel.
pub struct SerialState<S> {
    dev_addr: String,
    dev_name: Option<String>,
    baud_rate: u32,
    buf_read: VecDeque<u8>,
    ch_req: Option<S>,
}

/// The state after `data` arrived: appended at the back of the buffer.
pub open spec fn with_received(v: SerialStateView, data: Seq<u8>) -> SerialStateView {
    SerialStateView { buffer: v.buffer + data, ..v }
}

/// The state after the buffer was drained.
pub open spec fn drained(v: SerialStateView) -> SerialStateView {
    SerialStateView { buffer: Seq::empty(), ..v }
}

pub open spec fn opt_view(o: Option<String>) -> Option<Seq<char>> {
    match o {
        Some(s) => Some(s@),
        None => None,
    }
}

impl<S> View for SerialState<S> {
    type V = SerialStateView;

    closed spec fn view(&self) -> SerialStateView {
        SerialStateView {
            addr: self.dev_addr@,
            name: opt_view(self.dev_name),
            baud: self.baud_rate,
            buffer: self.buf_read@,
            has_channel: self.ch_req.is_some(),
        }
    }
}

/// An address names a device when it is not empty; an empty one would
/// match every device the scan finds.
pub fn valid_address(addr: &str) -> (r: bool)
    ensures
        r == (addr@.len() > 0),
{
    !addr.is_empty()
}

impl<S> SerialState<S> {
    /// A fresh state for the device at `dev_addr`: not connected, the default
    /// baud, an empty receive buffer and no request channel yet.
    pub fn new(dev_addr: &str) -> (r: Self)
        ensures
            r@.addr == dev_addr@,
            r@.name.is_none(),
            r@.baud == DEFAULT_BAUD,
            r@.buffer.len() == 0,
            !r@.has_channel,
    {
        SerialState {
            dev_addr: dev_addr.to_owned(),
            dev_name: None,
            baud_rate: DEFAULT_BAUD,
            buf_read: VecDeque::new(),
            ch_req: None,
        }
    }

    /// The device address this state was made for; it never changes.
    pub fn dev_addr(&self) -> (r: &str)
        ensures
            r@ == self@.addr,
    {
        self.dev_addr.as_str()
    }

    /// Connected iff a session is active, which is iff a device name is known.
    pub fn is_connected(&self) -> (r: bool)
        ensures
            r == self@.name.is_some(),
    {
        self.dev_name.is_some()
    }

    pub fn device_name(&self) -> (r: Option<String>)
        ensures
            opt_view(r) == self@.name,
    {
        match &self.dev_name {
            Some(n) => Some(n.clone()),
            None => None,
        }
    }

    /// The current baud, known only while connected.
    pub fn baud_rate(&self) -> (r: Option<u32>)
        ensures
            r == (if self@.name.is_some() { Some(self@.baud) } else { None::<u32> }),
    {
        if self.dev_name.is_some() {
            Some(self.baud_rate)
        } else {
            None
        }
    }

    /// The last baud learned from the device, connected or not.
    pub fn last_baud(&self) -> (r: u32)
        ensures
            r == self@.baud,
    {
        self.baud_rate
    }

    /// Empties the receive buffer and returns everything it held, oldest first.
    pub fn drain_read_buf(&mut self) -> (r: Vec<u8>)
        ensures
            r@ == old(self)@.buffer,
            final(self)@ == drained(old(self)@),
    {
        let r = self.take_read(self.buf_read.len());
        assert(self.buf_read@ =~= Seq::<u8>::empty());
        r
    }

    /// Removes and returns the oldest `max` buffered bytes, or all of them
    /// when fewer are buffered.
    pub fn take_read(&mut self, max: usize) -> (r: Vec<u8>)
        ensures
            r@.len() == if max < old(self)@.buffer.len() { max as int } else { old(self)@.buffer.len() as int },
            r@ == old(self)@.buffer.take(r@.len() as int),
            final(self)@ == (SerialStateView { buffer: old(self)@.buffer.skip(r@.len() as int), ..old(self)@ }),
    {
        let mut out: Vec<u8> = Vec::new();
        let ghost orig = self.buf_read@;
        while out.len() < max
            invariant
                out@.len() <= max,
                out@.len() <= orig.len(),
                out@ == orig.take(out@.len() as int),
                self.buf_read@ == orig.skip(out@.len() as int),
                self.dev_addr == old(self).dev_addr,
                self.dev_name == old(self).dev_name,
                self.baud_rate == old(self).baud_rate,
                self.ch_req == old(self).ch_req,
            ensures
                out@.len() == max || out@.len() == orig.len(),
            decreases max - out@.len(),
        {
            match self.buf_read.pop_front() {
                Some(b) => {
                    out.push(b);
                    assert(out@ =~= orig.take(out@.len() as int));
                    assert(self.buf_read@ =~= orig.skip(out@.len() as int));
                },
                None => {
                    assert(out@.len() == orig.len());
                    break;
                },
            }
        }
        out
    }

    /// Appends received bytes at the back of the receive buffer.
    pub fn push_received(&mut self, data: &[u8])
        ensures
            final(self)@ == with_received(old(self)@, data@),
    {
        let mut i: usize = 0;
        let ghost orig = self.buf_read@;
        while i < data.len()
            invariant
                i <= data@.len(),
                self.buf_read@ == orig + data@.take(i as int),
                self.dev_addr == old(self).dev_addr,
                self.dev_name == old(self).dev_name,
                self.baud_rate == old(self).baud_rate,
                self.ch_req == old(self).ch_req,
            decreases data@.len() - i,
        {
            self.buf_read.push_back(data[i]);
            i = i + 1;
            assert(self.buf_read@ =~= orig + data@.take(i as int));
        }
        assert(data@.take(i as int) =~= data@);
    }

    /// Installs the sender of a new session's request channel, dropping the old one.
    pub fn replace_channel(&mut self, tx: S)
        ensures
            final(self)@ == (SerialStateView { has_channel: true, ..old(self)@ }),
    {
        self.ch_req = Some(tx);
    }

    /// The sender of the current session's request channel, if any.
    pub fn channel(&self) -> (r: Option<&S>)
        ensures
            r.is_some() == self@.has_channel,
    {
        self.ch_req.as_ref()
    }

    /// Takes the sender out, leaving no channel behind.
    pub fn take_channel(&mut self) -> (r: Option<S>)
        ensures
            r.is_some() == old(self)@.has_channel,
            final(self)@ == (SerialStateView { has_channel: false, ..old(self)@ }),
    {
        self.ch_req.take()
    }

    pub(crate) fn set_name(&mut self, name: Option<String>) -> (r: Option<String>)
        ensures
            opt_view(r) == old(self)@.name,
            final(self)@ == (SerialStateView { name: opt_view(name), ..old(self)@ }),
    {
        let prev = self.dev_name.take();
        self.dev_name = name;
        prev
    }

    pub(crate) fn set_baud(&mut self, baud: u32)
        ensures
            final(self)@ == (SerialStateView { baud, ..old(self)@ }),
    {
        self.baud_rate = baud;
    }

    /// Decides a caller's write: refused unless a session is active with a
    /// channel, nothing to send for an empty payload, else the request to enqueue.
    pub fn write_request(&self, buf: &[u8]) -> (r: Result<Option<BleHdlMsg>, IoFailure>)
        ensures
            !(self@.has_channel && self@.name.is_some()) ==> r == Err::<Option<BleHdlMsg>, IoFailure>(
                IoFailure::NotConnected,
            ),
            self@.has_channel && self@.name.is_some() && buf@.len() == 0 ==> r == Ok::<
                Option<BleHdlMsg>,
                IoFailure,
            >(None),
            self@.has_channel && self@.name.is_some() && buf@.len() > 0 ==> (match r {
                Ok(Some(BleHdlMsg::ReqWrite(d))) => d@ == buf@,
                _ => false,
            }),
    {
        if self.ch_req.is_none() || self.dev_name.is_none() {
            return Err(IoFailure::NotConnected);
        }
        if buf.len() == 0 {
            return Ok(None);
        }
        Ok(Some(BleHdlMsg::ReqWrite(copy_bytes(buf))))
    }

    /// Decides a caller's baud change: zero is refused with the current baud,
    /// no active session is refused with nothing, else the request to enqueue.
    pub fn set_baud_request(&self, baud: u32) -> (r: Result<BleHdlMsg, Option<u32>>)
        ensures
            baud == 0 ==> r == Err::<BleHdlMsg, Option<u32>>(
                if self@.name.is_some() { Some(self@.baud) } else { None::<u32> },
            ),
            baud != 0 && !(self@.has_channel && self@.name.is_some()) ==> r == Err::<
                BleHdlMsg,
                Option<u32>,
            >(None),
            baud != 0 && self@.has_channel && self@.name.is_some() ==> r == Ok::<
                BleHdlMsg,
                Option<u32>,
            >(BleHdlMsg::ReqSetBaud(baud)),
    {
        if baud == 0 {
            return Err(self.baud_rate());
        }
        if self.ch_req.is_none() || self.dev_name.is_none() {
            return Err(None);
        }
        Ok(BleHdlMsg::ReqSetBaud(baud))
    }

    /// Decides after the `polls`-th look while waiting for `requested`: done
    /// once acceptable, give up after the last look, else wait.
    pub fn set_baud_poll(&self, requested: u32, polls: u32) -> (r: BaudWait)
        ensures
            acceptable(self@.baud as int, requested as int) ==> r == BaudWait::Settled(self@.baud),
            !acceptable(self@.baud as int, requested as int) && polls >= SET_BAUD_POLLS ==> r
                == BaudWait::GiveUp(
                if self@.name.is_some() { Some(self@.baud) } else { None::<u32> },
            ),
            !acceptable(self@.baud as int, requested as int) && polls < SET_BAUD_POLLS ==> r
                == BaudWait::Wait,
    {
        if baud_acceptable(self.baud_rate, requested) {
            BaudWait::Settled(self.baud_rate)
        } else if polls >= SET_BAUD_POLLS {
            BaudWait::GiveUp(self.baud_rate())
        } else {
            BaudWait::Wait
        }
    }
}

/// A copy of the bytes of a slice.
pub fn copy_bytes(b: &[u8]) -> (r: Vec<u8>)
    ensures
        r@ == b@,
{
    let mut v: Vec<u8> = Vec::new();
    let mut i: usize = 0;
    while i < b.len()
        invariant
            i <= b@.len(),
            v@ == b@.take(i as int),
        decreases b@.len() - i,
    {
        v.push(b[i]);
        i = i + 1;
        assert(v@ =~= b@.take(i as int));
    }
    assert(b@.take(i as int) =~= b@);
    v
}

} // verus!
