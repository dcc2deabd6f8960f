//! What a caller has to do to carry out an operation: the bytes to write to
//! the device, and the state of the cache to wait for afterwards.

use vstd::prelude::*;
use crate::common::option_view;
use crate::spectrum_analyzer::command::Command;
use crate::spectrum_analyzer::container::{Expectation, ExpectationValue};

verus! {

/// One exchange with the device. The host writes `bytes`, if there are any,
/// and then waits until `expectation` is met, if there is one, for at most
/// `timeout_ms` milliseconds. A request without bytes and without an
/// expectation asks for nothing: the operation is already done.
#[derive(Debug, Clone, PartialEq, Eq)]
pub struct Request {
    pub bytes: Vec<u8>,
    pub expectation: Option<Expectation>,
    pub timeout_ms: u64,
}

/// The mathematical value of a [`Request`].
pub struct RequestValue {
    pub bytes: Seq<u8>,
    pub expectation: Option<ExpectationValue>,
    pub timeout_ms: u64,
}

impl View for Request {
    type V = RequestValue;

    open spec fn view(&self) -> RequestValue {
        RequestValue {
            bytes: self.bytes@,
            expectation: option_view(self.expectation),
            timeout_ms: self.timeout_ms,
        }
    }
}

/// The request that asks for nothing.
pub open spec fn spec_done() -> RequestValue {
    RequestValue { bytes: Seq::<u8>::empty(), expectation: None, timeout_ms: 0 }
}

/// The request that writes `command` and waits for nothing.
pub open spec fn spec_send(command: Command) -> RequestValue {
    RequestValue { bytes: command.spec_bytes(), expectation: None, timeout_ms: 0 }
}

/// The request that writes `command` and waits for `expectation`.
pub open spec fn spec_exchange(
    command: Command,
    expectation: ExpectationValue,
    timeout_ms: u64,
) -> RequestValue {
    RequestValue { bytes: command.spec_bytes(), expectation: Some(expectation), timeout_ms }
}

/// The request that writes nothing and waits for `expectation`.
pub open spec fn spec_await(expectation: ExpectationValue, timeout_ms: u64) -> RequestValue {
    RequestValue { bytes: Seq::<u8>::empty(), expectation: Some(expectation), timeout_ms }
}

impl Request {
    /// The request that asks for nothing.
    pub fn done() -> (request: Request)
        ensures
            request@ == spec_done(),
    {
        Request { bytes: Vec::new(), expectation: None, timeout_ms: 0 }
    }

    /// The request that writes `command` and waits for nothing.
    pub fn send(command: Command) -> (request: Request)
        requires
            command.fits(),
        ensures
            request@ == spec_send(command),
    {
        Request { bytes: command.to_bytes(), expectation: None, timeout_ms: 0 }
    }

    /// The request that writes `command` and waits for `expectation`.
    pub fn exchange(command: Command, expectation: Expectation, timeout_ms: u64) -> (request:
        Request)
        requires
            command.fits(),
        ensures
            request@ == spec_exchange(command, expectation@, timeout_ms),
    {
        Request { bytes: command.to_bytes(), expectation: Some(expectation), timeout_ms }
    }

    /// The request that writes nothing and waits for `expectation`.
    pub fn await_only(expectation: Expectation, timeout_ms: u64) -> (request: Request)
        ensures
            request@ == spec_await(expectation@, timeout_ms),
    {
        Request { bytes: Vec::new(), expectation: Some(expectation), timeout_ms }
    }

    /// Whether the request asks for nothing.
    pub fn is_done(&self) -> (r: bool)
        ensures
            r == (self@.bytes.len() == 0 && self@.expectation is None),
    {
        self.bytes.len() == 0 && self.expectation.is_none()
    }
}

} // verus!
