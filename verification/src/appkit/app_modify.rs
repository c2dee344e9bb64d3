//! Changes to a window's visible state. The native side applies them in its
//! own time: success shows only in an error slot that stays empty.

use vstd::prelude::*;
use vstd::utf8::encode_utf8;
use crate::boundary::Bridge;
use crate::boundary::set_location_call;
use crate::boundary::set_title_call;
use crate::boundary::consume_state;
use crate::boundary::null_window_text;
use crate::boundary::window_ok;
use crate::error::BridgeError;
use crate::error::ErrorView;
use crate::error::Operation;
use crate::error::confirm;
use crate::error::drained;
use crate::text::c_text;
use crate::text::has_nul;

verus! {

/// Sets a window's title. A title with an embedded terminator is refused
/// before anything crosses the boundary. Otherwise the call is made and the
/// error slot is drained: the call succeeded exactly where the slot was
/// found empty.
pub fn set_title(bridge: &mut Bridge, on_main: bool, window_ptr: usize, title: &str) -> (outcome:
    Result<(), BridgeError>)
    requires
        old(bridge).wf(),
        window_ok(old(bridge)@, window_ptr),
    ensures
        final(bridge).wf(),
        has_nul(encode_utf8(title@)) ==> final(bridge)@ == old(bridge)@ && (outcome matches Err(
            BridgeError::EmbeddedNul(Operation::SetTitle),
        )),
        !has_nul(encode_utf8(title@)) ==> ({
            let after = consume_state(
                old(bridge)@,
                set_title_call(window_ptr, encode_utf8(title@).push(0u8)),
                on_main,
                null_window_text(),
            );
            &&& final(bridge)@ == drained(after)
            &&& outcome is Ok <==> after.error is None
            &&& outcome matches Err(e) ==> e@ == ErrorView::Native(after.error->0)
        }),
{
    let c_title = match c_text(title) {
        Some(bytes) => bytes,
        None => {
            return Err(BridgeError::EmbeddedNul(Operation::SetTitle));
        },
    };
    bridge.set_title(window_ptr, c_title, on_main);
    confirm(bridge)
}

/// Moves a window to the given position (binary64 bit patterns). The call is
/// made and the error slot is drained: the call succeeded exactly where the
/// slot was found empty.
pub fn set_location(bridge: &mut Bridge, on_main: bool, window_ptr: usize, x: u64, y: u64) -> (outcome:
    Result<(), BridgeError>)
    requires
        old(bridge).wf(),
        window_ok(old(bridge)@, window_ptr),
    ensures
        final(bridge).wf(),
        ({
            let after = consume_state(
                old(bridge)@,
                set_location_call(window_ptr, x, y),
                on_main,
                null_window_text(),
            );
            &&& final(bridge)@ == drained(after)
            &&& outcome is Ok <==> after.error is None
            &&& outcome matches Err(e) ==> e@ == ErrorView::Native(after.error->0)
        }),
{
    bridge.set_location(window_ptr, x, y, on_main);
    confirm(bridge)
}

} // verus!
