//! Screens: handles that the caller inspects and never owns.

use vstd::prelude::*;
use crate::boundary::Bridge;
use crate::boundary::BridgeView;
use crate::boundary::height_call;
use crate::boundary::width_call;
use crate::boundary::handles_of;
use crate::boundary::measure_state;
use crate::boundary::screen_array_state;
use crate::boundary::screen_height_result;
use crate::boundary::screen_primary_result;
use crate::boundary::screen_primary_state;
use crate::boundary::screen_width_result;
use crate::error::BridgeError;
use crate::error::ErrorView;
use crate::error::Operation;
use crate::error::confirm;
use crate::error::drained;
use crate::error::explain;
use crate::error::explanation;
use crate::scalar::is_zero;
use crate::scalar::zero_bits;

verus! {

/// A screen handle, valid for inspection only.
#[derive(Clone, Copy, Debug, PartialEq, Eq, Structural)]
pub struct ScreenPtr(pub usize);

/// `handles`, each as a screen handle.
pub open spec fn screen_ptrs(handles: Seq<usize>) -> Seq<ScreenPtr> {
    Seq::new(handles.len(), |i: int| ScreenPtr(handles[i]))
}

/// Copies entries read from the native buffer into handles that the caller
/// owns, so that nothing of the buffer is held afterwards.
pub fn copy_screens(entries: &Vec<usize>) -> (screens: Vec<ScreenPtr>)
    ensures
        screens@ == screen_ptrs(entries@),
{
    let mut screens: Vec<ScreenPtr> = Vec::new();
    let mut i: usize = 0;
    while i < entries.len()
        invariant
            i <= entries.len(),
            screens@ == screen_ptrs(entries@.take(i as int)),
        decreases entries.len() - i,
    {
        screens.push(ScreenPtr(entries[i]));
        proof {
            assert(screens@ =~= screen_ptrs(entries@.take(i + 1)));
        }
        i += 1;
    }
    proof {
        assert(entries@.take(i as int) =~= entries@);
    }
    screens
}

/// The primary screen. Null from the native side means an error where the
/// error slot holds one (the slot is then drained), and no screen where it
/// holds none.
pub fn primary(bridge: &mut Bridge, on_main: bool) -> (screen: Result<Option<ScreenPtr>, BridgeError>)
    requires
        old(bridge).wf(),
    ensures
        final(bridge).wf(),
        ({
            let after = screen_primary_state(old(bridge)@, on_main);
            let raw = screen_primary_result(old(bridge)@, on_main);
            &&& final(bridge)@ == (if raw == 0 {
                drained(after)
            } else {
                after
            })
            &&& screen is Err <==> raw == 0 && after.error is Some
            &&& screen matches Err(e) ==> e@ == ErrorView::Native(after.error->0)
            &&& screen matches Ok(found) ==> found == (if raw == 0 {
                None
            } else {
                Some(ScreenPtr(raw))
            })
        }),
{
    let ptr: usize = bridge.screen_primary(on_main);
    if ptr == 0 {
        return match confirm(bridge) {
            Ok(_) => Ok(None),
            Err(e) => Err(e),
        };
    }
    Ok(Some(ScreenPtr(ptr)))
}

/// The screens. The header is checked before anything behind it is read,
/// nothing is read where it counts no entry, and the entries are copied out
/// of the native buffer before returning: the result stays valid whatever is
/// called next.
pub fn get_screen_array_borrowed(bridge: &mut Bridge, on_main: bool) -> (screens: Result<
    Vec<ScreenPtr>,
    BridgeError,
>)
    requires
        old(bridge).wf(),
    ensures
        final(bridge).wf(),
        screens is Ok <==> on_main,
        screens matches Ok(v) ==> v@ == screen_ptrs(handles_of(old(bridge)@.screens))
            && final(bridge)@ == screen_array_state(old(bridge)@, on_main),
        screens matches Err(e) ==> e@ == explanation(
            screen_array_state(old(bridge)@, on_main).error,
            Operation::ScreenArray,
        ) && final(bridge)@ == drained(screen_array_state(old(bridge)@, on_main)),
{
    let header = match bridge.screen_array(on_main) {
        Some(header) => header,
        None => {
            return Err(explain(bridge, Operation::ScreenArray));
        },
    };
    let count: usize = match header.entry_count() {
        Ok(count) => count,
        Err(violation) => {
            return Err(BridgeError::Protocol(violation));
        },
    };
    if count == 0 {
        return Ok(copy_screens(&Vec::new()));
    }
    let entries = bridge.read_entries(header.items, count);
    proof {
        assert(bridge@.buffer.take(count as int) =~= handles_of(old(bridge)@.screens));
    }
    Ok(copy_screens(&entries))
}

/// What a size query returns to the caller, given the number that came
/// back and the native side's state after the call: a zero with a recorded
/// error is the failure, any other number is the answer.
pub open spec fn measurement_failed(value: u64, after: BridgeView) -> bool {
    zero_bits(value) && after.error is Some
}

/// Settles a size query: the error slot is looked at, and drained, only
/// where the number that came back is zero.
pub fn settle_measurement(bridge: &mut Bridge, value: u64) -> (outcome: Result<u64, BridgeError>)
    ensures
        outcome is Err <==> measurement_failed(value, old(bridge)@),
        outcome matches Err(e) ==> e@ == ErrorView::Native(old(bridge)@.error->0),
        outcome matches Ok(v) ==> v == value,
        final(bridge)@ == (if zero_bits(value) {
            drained(old(bridge)@)
        } else {
            old(bridge)@
        }),
{
    if is_zero(value) {
        return match confirm(bridge) {
            Ok(_) => Ok(value),
            Err(e) => Err(e),
        };
    }
    Ok(value)
}

/// The width of a screen, as a binary64 bit pattern.
pub fn width(bridge: &mut Bridge, on_main: bool, screen: ScreenPtr) -> (outcome: Result<
    u64,
    BridgeError,
>)
    requires
        old(bridge).wf(),
    ensures
        final(bridge).wf(),
        ({
            let after = measure_state(old(bridge)@, width_call(screen.0), on_main);
            let raw = screen_width_result(old(bridge)@, screen.0, on_main);
            &&& outcome is Err <==> measurement_failed(raw, after)
            &&& outcome matches Err(e) ==> e@ == ErrorView::Native(after.error->0)
            &&& outcome matches Ok(v) ==> v == raw
            &&& final(bridge)@ == (if zero_bits(raw) {
                drained(after)
            } else {
                after
            })
        }),
{
    let w: u64 = bridge.screen_width(screen.0, on_main);
    settle_measurement(bridge, w)
}

/// The height of a screen, as a binary64 bit pattern.
pub fn height(bridge: &mut Bridge, on_main: bool, screen: ScreenPtr) -> (outcome: Result<
    u64,
    BridgeError,
>)
    requires
        old(bridge).wf(),
    ensures
        final(bridge).wf(),
        ({
            let after = measure_state(old(bridge)@, height_call(screen.0), on_main);
            let raw = screen_height_result(old(bridge)@, screen.0, on_main);
            &&& outcome is Err <==> measurement_failed(raw, after)
            &&& outcome matches Err(e) ==> e@ == ErrorView::Native(after.error->0)
            &&& outcome matches Ok(v) ==> v == raw
            &&& final(bridge)@ == (if zero_bits(raw) {
                drained(after)
            } else {
                after
            })
        }),
{
    let h: u64 = bridge.screen_height(screen.0, on_main);
    settle_measurement(bridge, h)
}

} // verus!
