//! The engine of a connection: the reader and the cache it feeds.

use vstd::prelude::*;
use crate::common::clock::now_millis;
use crate::spectrum_analyzer::command::Command;
use crate::spectrum_analyzer::container::{
    spec_notice,
    spec_store,
    empty_slots,
    Expectation,
    ExpectationValue,
    MessageContainer,
    Notice,
    NoticeValue,
    Slots,
    RECEIVE_INITIAL_DEVICE_INFO_TIMEOUT_MS,
};
use crate::spectrum_analyzer::reader::{spec_scan, spec_trim, Reader};
use crate::spectrum_analyzer::request::{spec_exchange, Request};

verus! {

/// The baud rates at which a device may talk, in the order in which they are
/// tried.
pub const BAUD_RATES: [u32; 2] = [500_000, 2_400];

/// The USB vendor number of Silicon Labs, who make the bridge between USB
/// and the serial line of an RF Explorer.
pub const BRIDGE_VENDOR_ID: u16 = 0x10C4;

/// The USB product number of the CP210x bridge.
pub const BRIDGE_PRODUCT_ID: u16 = 0xEA60;

/// One try to reach a device: a port, by its place among the candidates,
/// and a baud rate.
#[derive(Debug, Clone, Copy, PartialEq, Eq, Structural)]
pub struct Attempt {
    pub port: usize,
    pub baud_rate: u32,
}

/// The tries to make with `ports` candidate ports, in their order: every
/// port in turn, and each at every baud rate in turn.
pub open spec fn spec_attempts(ports: nat) -> Seq<Attempt> {
    Seq::new(
        ports * 2,
        |i: int| Attempt { port: (i / 2) as usize, baud_rate: BAUD_RATES@[i % 2] },
    )
}

/// Whether a USB device with these numbers is the bridge of an RF Explorer.
pub fn is_rf_explorer_port(vendor_id: u16, product_id: u16) -> (r: bool)
    ensures
        r == (vendor_id == BRIDGE_VENDOR_ID && product_id == BRIDGE_PRODUCT_ID),
{
    vendor_id == BRIDGE_VENDOR_ID && product_id == BRIDGE_PRODUCT_ID
}

/// The tries to make with `ports` candidate ports, in their order.
pub fn attempts(ports: usize) -> (plan: Vec<Attempt>)
    ensures
        plan@ == spec_attempts(ports as nat),
{
    let mut plan: Vec<Attempt> = Vec::new();
    let mut port: usize = 0;
    while port < ports
        invariant
            port <= ports,
            plan@ == spec_attempts(port as nat),
        decreases ports - port,
    {
        plan.push(Attempt { port, baud_rate: BAUD_RATES[0] });
        plan.push(Attempt { port, baud_rate: BAUD_RATES[1] });
        assert(plan@ =~= spec_attempts((port + 1) as nat));
        port += 1;
    }
    plan
}

/// The try to make after `last`, which found a device or did not; `None`
/// for `last` asks for the first try. A port that has not answered is tried
/// again at the next baud rate. A port that holds a device is left alone: the
/// next try goes to the port behind it. After the last port there is nothing
/// left to try.
pub open spec fn spec_next_attempt(ports: nat, last: Option<Attempt>, answered: bool) -> Option<
    Attempt,
> {
    match last {
        None => if ports > 0 {
            Some(Attempt { port: 0, baud_rate: BAUD_RATES@[0] })
        } else {
            None
        },
        Some(last) => if !answered && last.port < ports && last.baud_rate == BAUD_RATES@[0] {
            Some(Attempt { port: last.port, baud_rate: BAUD_RATES@[1] })
        } else if last.port + 1 < ports {
            Some(Attempt { port: (last.port + 1) as usize, baud_rate: BAUD_RATES@[0] })
        } else {
            None
        },
    }
}

/// Tells which try to make after `last`.
pub fn next_attempt(ports: usize, last: Option<Attempt>, answered: bool) -> (next: Option<Attempt>)
    ensures
        next == spec_next_attempt(ports as nat, last, answered),
{
    match last {
        None => {
            if ports > 0 {
                Some(Attempt { port: 0, baud_rate: BAUD_RATES[0] })
            } else {
                None
            }
        },
        Some(last) => {
            if !answered && last.port < ports && last.baud_rate == BAUD_RATES[0] {
                Some(Attempt { port: last.port, baud_rate: BAUD_RATES[1] })
            } else if last.port < ports && ports - last.port > 1 {
                Some(Attempt { port: last.port + 1, baud_rate: BAUD_RATES[0] })
            } else {
                None
            }
        },
    }
}

/// While no device answers, the tries are those of the plan, one after the
/// other, and they end with the plan.
pub proof fn lemma_attempts_without_answer(ports: nat, i: int)
    requires
        0 <= i < 2 * ports,
        ports <= usize::MAX,
    ensures
        spec_next_attempt(ports, None, false) == Some(spec_attempts(ports)[0]),
        spec_next_attempt(ports, Some(spec_attempts(ports)[i]), false) == if i + 1 < 2 * ports {
            Some(spec_attempts(ports)[i + 1])
        } else {
            None
        },
{
}

/// A port that holds a device is not tried again: the try after an answer
/// goes to the next port, at the first baud rate.
pub proof fn lemma_attempt_after_answer(ports: nat, last: Attempt)
    requires
        ports <= usize::MAX,
    ensures
        spec_next_attempt(ports, Some(last), true) matches Some(next) ==> next.port == last.port
            + 1 && next.port < ports && next.baud_rate == BAUD_RATES@[0],
{
}

#[derive(Debug)]
pub struct RfExplorer {
    reader: Reader,
    messages: MessageContainer,
}

/// The mathematical value of an [`RfExplorer`]: the bytes that wait to be
/// decoded, and the cache.
pub struct Engine {
    pub buffer: Seq<u8>,
    pub slots: Slots,
}

impl View for RfExplorer {
    type V = Engine;

    closed spec fn view(&self) -> Engine {
        Engine { buffer: self.reader@, slots: self.messages@ }
    }
}

/// The values of a sequence of notices.
pub open spec fn notice_values(notices: Seq<Notice>) -> Seq<NoticeValue> {
    Seq::new(notices.len(), |i: int| notices[i]@)
}

/// What becomes of a buffer and a cache when every whole message in the
/// buffer is decoded and stored, in order: what is left of the buffer, the
/// cache, and a notice for every message.
pub open spec fn spec_drain(buf: Seq<u8>, slots: Slots, timestamp: i64) -> (
    Seq<u8>,
    Slots,
    Seq<NoticeValue>,
)
    decreases buf.len(),
{
    let (message, rest) = spec_scan(buf, timestamp);
    match message {
        None => (rest, slots, Seq::<NoticeValue>::empty()),
        Some(message) => {
            let notice = spec_notice(slots, message);
            let stored = spec_store(slots, message);
            if rest.len() < buf.len() {
                let (left, cache, notices) = spec_drain(rest, stored, timestamp);
                (left, cache, seq![notice] + notices)
            } else {
                (rest, stored, seq![notice])
            }
        },
    }
}

/// What becomes of an engine that is handed `bytes` at the time `timestamp`:
/// the bytes join the buffer, every whole message is decoded and stored, and
/// what is left waits, cut down to the newest `MAX_BUFFER` bytes.
pub open spec fn spec_receive(engine: Engine, bytes: Seq<u8>, timestamp: i64) -> (
    Engine,
    Seq<NoticeValue>,
) {
    let (left, slots, notices) = spec_drain(engine.buffer + bytes, engine.slots, timestamp);
    (Engine { buffer: spec_trim(left), slots }, notices)
}

/// Whether the device has sent both its configuration and its setup frame.
pub open spec fn has_device_info(slots: Slots) -> bool {
    slots.config is Some && slots.setup_info is Some
}

/// What a device has once told of itself is never lost: storing messages
/// keeps the configuration and the setup information in place.
pub proof fn lemma_drain_keeps_device_info(buf: Seq<u8>, slots: Slots, timestamp: i64)
    ensures
        slots.config is Some ==> spec_drain(buf, slots, timestamp).1.config is Some,
        slots.setup_info is Some ==> spec_drain(buf, slots, timestamp).1.setup_info is Some,
        spec_drain(buf, slots, timestamp).1.config_callback == slots.config_callback,
        spec_drain(buf, slots, timestamp).1.sweep_callback == slots.sweep_callback,
    decreases buf.len(),
{
    let (message, rest) = spec_scan(buf, timestamp);
    if let Some(message) = message {
        if rest.len() < buf.len() {
            lemma_drain_keeps_device_info(rest, spec_store(slots, message), timestamp);
        }
    }
}

impl RfExplorer {
    /// The engine of a connection over which nothing has arrived.
    pub fn new() -> (rfe: RfExplorer)
        ensures
            rfe@ == (Engine { buffer: Seq::<u8>::empty(), slots: empty_slots() }),
    {
        RfExplorer { reader: Reader::new(), messages: MessageContainer::new() }
    }

    /// What opens a connection: the host asks the device for its
    /// configuration and setup frames and waits until both are there.
    pub fn handshake() -> (request: Request)
        ensures
            request@ == spec_exchange(
                Command::RequestConfig,
                ExpectationValue::DeviceInfo,
                RECEIVE_INITIAL_DEVICE_INFO_TIMEOUT_MS,
            ),
    {
        Request::exchange(
            Command::RequestConfig,
            Expectation::DeviceInfo,
            RECEIVE_INITIAL_DEVICE_INFO_TIMEOUT_MS,
        )
    }

    /// The cache.
    pub fn messages(&self) -> (messages: &MessageContainer)
        ensures
            messages@ == self@.slots,
    {
        &self.messages
    }

    /// The number of bytes that wait to be decoded.
    pub fn pending(&self) -> (n: usize)
        ensures
            n == self@.buffer.len(),
    {
        self.reader.len()
    }

    /// Registers the callback for configurations under the handle
    /// `callback`, in place of the one that was registered before.
    pub fn set_config_callback(&mut self, callback: Option<u64>)
        ensures
            final(self)@ == (Engine {
                slots: Slots { config_callback: callback, ..old(self)@.slots },
                ..old(self)@
            }),
    {
        self.messages.set_config_callback(callback);
    }

    /// Registers the callback for sweeps under the handle `callback`, in
    /// place of the one that was registered before.
    pub fn set_sweep_callback(&mut self, callback: Option<u64>)
        ensures
            final(self)@ == (Engine {
                slots: Slots { sweep_callback: callback, ..old(self)@.slots },
                ..old(self)@
            }),
    {
        self.messages.set_sweep_callback(callback);
    }

    /// Empties the slot of the tracking status.
    pub fn clear_tracking_status(&mut self)
        ensures
            final(self)@ == (Engine {
                slots: Slots { tracking_status: None, ..old(self)@.slots },
                ..old(self)@
            }),
    {
        self.messages.clear_tracking_status();
    }

    /// Takes in what the host has read from the port, stamping sweeps and
    /// screen dumps with the host's clock.
    pub fn receive(&mut self, bytes: &[u8]) -> (notices: Vec<Notice>)
        ensures
            exists|timestamp: i64|
                (final(self)@, notice_values(notices@)) == spec_receive(
                    old(self)@,
                    bytes@,
                    timestamp,
                ),
            has_device_info(old(self)@.slots) ==> has_device_info(final(self)@.slots),
    {
        let timestamp = now_millis();
        let notices = self.receive_at(bytes, timestamp);
        assert((self@, notice_values(notices@)) == spec_receive(old(self)@, bytes@, timestamp));
        notices
    }

    /// Takes in what the host has read from the port at the time
    /// `timestamp`: decodes every whole message, stores it, and tells for
    /// each what the host has to do about it, in the order of arrival.
    pub fn receive_at(&mut self, bytes: &[u8], timestamp: i64) -> (notices: Vec<Notice>)
        ensures
            (final(self)@, notice_values(notices@)) == spec_receive(old(self)@, bytes@, timestamp),
            has_device_info(old(self)@.slots) ==> has_device_info(final(self)@.slots),
    {
        let ghost before = self@;
        self.reader.push(bytes);
        let ghost start = self.reader@;
        let mut notices: Vec<Notice> = Vec::new();
        proof {
            lemma_drain_keeps_device_info(start, before.slots, timestamp);
            assert(notice_values(notices@) =~= Seq::<NoticeValue>::empty());
            assert(Seq::<NoticeValue>::empty() + spec_drain(start, before.slots, timestamp).2
                =~= spec_drain(start, before.slots, timestamp).2);
        }
        loop
            invariant_except_break
                spec_drain(start, before.slots, timestamp).0 == spec_drain(
                    self.reader@,
                    self.messages@,
                    timestamp,
                ).0,
                spec_drain(start, before.slots, timestamp).1 == spec_drain(
                    self.reader@,
                    self.messages@,
                    timestamp,
                ).1,
                spec_drain(start, before.slots, timestamp).2 == notice_values(notices@)
                    + spec_drain(self.reader@, self.messages@, timestamp).2,
            ensures
                spec_drain(start, before.slots, timestamp) == (
                    self.reader@,
                    self.messages@,
                    notice_values(notices@),
                ),
            decreases self.reader@.len(),
        {
            let pending = self.reader.len();
            let ghost buf = self.reader@;
            let ghost slots = self.messages@;
            let ghost told = notice_values(notices@);
            match self.reader.next_message_at(timestamp) {
                None => {
                    assert(told + Seq::<NoticeValue>::empty() =~= told);
                    break ;
                },
                Some(message) => {
                    let notice = self.messages.store(message);
                    notices.push(notice);
                    assert(notice_values(notices@) =~= told + seq![notice@]);
                    if self.reader.len() >= pending {
                        break ;
                    }
                    assert(notice_values(notices@) + spec_drain(
                        self.reader@,
                        self.messages@,
                        timestamp,
                    ).2 =~= told + (seq![notice@] + spec_drain(
                        self.reader@,
                        self.messages@,
                        timestamp,
                    ).2));
                },
            }
        }
        self.reader.trim();
        notices
    }
}

} // verus!
