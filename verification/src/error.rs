//! The error channel seen from the caller, and the errors that the wrappers
//! return.

use vstd::prelude::*;
use crate::boundary::Bridge;
use crate::boundary::BridgeView;

verus! {

/// The operations whose failure a wrapper may have to name itself.
#[derive(Clone, Copy, Debug, PartialEq, Eq, Structural)]
pub enum Operation {
    CreateApp,
    CreateWindow,
    SetTitle,
    ScreenArray,
}

/// The ways in which a borrowed array can be malformed.
#[derive(Clone, Copy, Debug, PartialEq, Eq, Structural)]
pub enum Violation {
    /// The header's count is below zero.
    NegativeCount,
    /// The header's count is above zero and its items pointer is null.
    NullItems,
}

/// What a wrapper reports when it fails.
#[derive(Debug)]
pub enum BridgeError {
    /// The text held an embedded terminator: found on the caller's side,
    /// nothing crossed the boundary.
    EmbeddedNul(Operation),
    /// The native side failed and left this message in the error slot.
    Native(String),
    /// The native side returned its failure sentinel and left no message.
    Unexplained(Operation),
    /// The native side handed over a malformed buffer.
    Protocol(Violation),
}

/// The mathematical value of a `BridgeError`.
pub enum ErrorView {
    EmbeddedNul(Operation),
    Native(Seq<char>),
    Unexplained(Operation),
    Protocol(Violation),
}

impl View for BridgeError {
    type V = ErrorView;

    open spec fn view(&self) -> ErrorView {
        match self {
            BridgeError::EmbeddedNul(op) => ErrorView::EmbeddedNul(*op),
            BridgeError::Native(m) => ErrorView::Native(m@),
            BridgeError::Unexplained(op) => ErrorView::Unexplained(*op),
            BridgeError::Protocol(v) => ErrorView::Protocol(*v),
        }
    }
}

/// The text that describes an error to a reader.
pub open spec fn message_text(error: ErrorView) -> Seq<char> {
    match error {
        ErrorView::EmbeddedNul(Operation::CreateWindow) => "Window title contained NUL"@,
        ErrorView::EmbeddedNul(_) => "Title contained NUL"@,
        ErrorView::Native(m) => m,
        ErrorView::Unexplained(Operation::CreateApp) => "swift_appkit_create_app failed"@,
        ErrorView::Unexplained(Operation::CreateWindow) => "swift_appkit_create_window failed"@,
        ErrorView::Unexplained(Operation::SetTitle) => "swift_appkit_set_title failed"@,
        ErrorView::Unexplained(Operation::ScreenArray) => "swift_nsscreen_get_screen_array failed"@,
        ErrorView::Protocol(Violation::NegativeCount) =>
            "swift_nsscreen_get_screen_array returned negative count"@,
        ErrorView::Protocol(Violation::NullItems) =>
            "swift_nsscreen_get_screen_array returned null items with count>0"@,
    }
}

impl BridgeError {
    /// The text that describes this error to a reader.
    pub fn message(&self) -> (text: String)
        ensures
            text@ == message_text(self@),
    {
        match self {
            BridgeError::EmbeddedNul(Operation::CreateWindow) => "Window title contained NUL".to_owned(),
            BridgeError::EmbeddedNul(_) => "Title contained NUL".to_owned(),
            BridgeError::Native(m) => m.clone(),
            BridgeError::Unexplained(Operation::CreateApp) => "swift_appkit_create_app failed".to_owned(),
            BridgeError::Unexplained(Operation::CreateWindow) => "swift_appkit_create_window failed".to_owned(),
            BridgeError::Unexplained(Operation::SetTitle) => "swift_appkit_set_title failed".to_owned(),
            BridgeError::Unexplained(Operation::ScreenArray) => "swift_nsscreen_get_screen_array failed".to_owned(),
            BridgeError::Protocol(Violation::NegativeCount) =>
                "swift_nsscreen_get_screen_array returned negative count".to_owned(),
            BridgeError::Protocol(Violation::NullItems) =>
                "swift_nsscreen_get_screen_array returned null items with count>0".to_owned(),
        }
    }
}

/// `s` with the error slot absent.
pub open spec fn drained(s: BridgeView) -> BridgeView {
    BridgeView { error: None, ..s }
}

/// The error that explains a failure sentinel of `operation`, given what
/// the error slot held.
pub open spec fn explanation(slot: Option<Seq<char>>, operation: Operation) -> ErrorView {
    match slot {
        Some(m) => ErrorView::Native(m),
        None => ErrorView::Unexplained(operation),
    }
}

/// Fetches the message in the error slot, if any, and clears the slot.
pub fn take_last_error(bridge: &mut Bridge) -> (message: Option<String>)
    ensures
        message is Some <==> old(bridge)@.error is Some,
        message matches Some(m) ==> old(bridge)@.error == Some(m@),
        final(bridge)@ == drained(old(bridge)@),
{
    let message = bridge.last_error();
    if message.is_none() {
        return None;
    }
    bridge.clear_last_error();
    message
}

/// Clears the error slot.
pub fn clear_last_error(bridge: &mut Bridge)
    ensures
        final(bridge)@ == drained(old(bridge)@),
{
    bridge.clear_last_error()
}

/// What a drained slot held, as a mathematical value.
pub open spec fn slot_text(slot: Option<String>) -> Option<Seq<char>> {
    match slot {
        Some(m) => Some(m@),
        None => None,
    }
}

/// The error for a failure sentinel of `operation`, from what was drained
/// from the error slot: the message, or the operation's name where the slot
/// was empty.
pub fn explained(slot: Option<String>, operation: Operation) -> (error: BridgeError)
    ensures
        error@ == explanation(slot_text(slot), operation),
{
    match slot {
        Some(m) => BridgeError::Native(m),
        None => BridgeError::Unexplained(operation),
    }
}

/// The outcome of an operation whose success shows only in an empty slot,
/// from what was drained from the error slot.
pub fn confirmed(slot: Option<String>) -> (outcome: Result<(), BridgeError>)
    ensures
        outcome is Ok <==> slot is None,
        outcome matches Err(e) ==> e@ == ErrorView::Native(slot_text(slot)->0),
{
    match slot {
        Some(m) => Err(BridgeError::Native(m)),
        None => Ok(()),
    }
}

/// Drains the error slot after `operation` returned its failure sentinel.
pub fn explain(bridge: &mut Bridge, operation: Operation) -> (error: BridgeError)
    ensures
        error@ == explanation(old(bridge)@.error, operation),
        final(bridge)@ == drained(old(bridge)@),
{
    explained(take_last_error(bridge), operation)
}

/// Drains the error slot after an operation whose success shows only in an
/// empty slot.
pub fn confirm(bridge: &mut Bridge) -> (outcome: Result<(), BridgeError>)
    ensures
        outcome is Ok <==> old(bridge)@.error is None,
        outcome matches Err(e) ==> e@ == ErrorView::Native(old(bridge)@.error->0),
        final(bridge)@ == drained(old(bridge)@),
{
    confirmed(take_last_error(bridge))
}

} // verus!
