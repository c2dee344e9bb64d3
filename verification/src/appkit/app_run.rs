//! The application object and windows: handles that the caller owns.

use vstd::prelude::*;
use vstd::utf8::encode_utf8;
use crate::boundary::Bridge;
use crate::boundary::BridgeView;
use crate::boundary::create_window_call;
use crate::boundary::run_call;
use crate::boundary::app_ok;
use crate::boundary::window_ok;
use crate::boundary::consume_state;
use crate::boundary::create_app_result;
use crate::boundary::create_app_state;
use crate::boundary::create_window_result;
use crate::boundary::create_window_state;
use crate::boundary::null_app_text;
use crate::boundary::release_window_state;
use crate::error::BridgeError;
use crate::error::Operation;
use crate::error::drained;
use crate::error::explain;
use crate::error::explanation;
use crate::error::take_last_error;
use crate::text::c_text;
use crate::text::has_nul;

verus! {

/// The shared application object. It lives as long as the process and is
/// never released.
#[derive(Debug)]
pub struct SwiftApp {
    app_ptr: usize,
}

/// A window that the caller owns until it releases it.
#[derive(Debug)]
pub struct SwiftWindow {
    window_ptr: usize,
}

impl View for SwiftApp {
    type V = usize;

    /// The address of the native object.
    closed spec fn view(&self) -> usize {
        self.app_ptr
    }
}

impl View for SwiftWindow {
    type V = usize;

    /// The address of the native object, null once released.
    closed spec fn view(&self) -> usize {
        self.window_ptr
    }
}

/// The native side after a wrapper that held `window` released it: a null
/// handle never crosses the boundary.
pub open spec fn released(s: BridgeView, window: usize, on_main: bool) -> BridgeView {
    if window == 0 {
        s
    } else {
        release_window_state(s, window, on_main)
    }
}

impl SwiftApp {
    /// Creates the shared application object. It succeeds exactly where the
    /// native side returns a handle that is not null; otherwise the error is
    /// what the error slot explains, and the slot is left absent.
    pub fn new(bridge: &mut Bridge, on_main: bool) -> (created: Result<SwiftApp, BridgeError>)
        requires
            old(bridge).wf(),
        ensures
            final(bridge).wf(),
            created is Ok <==> create_app_result(old(bridge)@, on_main) != 0,
            created matches Ok(app) ==> app@ == create_app_result(old(bridge)@, on_main)
                && final(bridge)@ == create_app_state(old(bridge)@, on_main),
            created matches Err(e) ==> e@ == explanation(
                create_app_state(old(bridge)@, on_main).error,
                Operation::CreateApp,
            ) && final(bridge)@ == drained(create_app_state(old(bridge)@, on_main)),
    {
        let app_ptr: usize = bridge.create_app(on_main);
        if app_ptr == 0 {
            return Err(explain(bridge, Operation::CreateApp));
        }
        Ok(SwiftApp { app_ptr })
    }

    /// The address of the native object.
    pub fn as_ptr(&self) -> (ptr: usize)
        ensures
            ptr == self@,
    {
        self.app_ptr
    }

    /// Runs the native event loop and returns when it has stopped. Off the
    /// main thread it returns at once with an error recorded.
    pub fn run(&self, bridge: &mut Bridge, on_main: bool)
        requires
            old(bridge).wf(),
            app_ok(old(bridge)@, self@),
        ensures
            final(bridge).wf(),
            final(bridge)@ == consume_state(
                old(bridge)@,
                run_call(self@),
                on_main,
                null_app_text(),
            ),
    {
        bridge.run(self.app_ptr, on_main)
    }

    /// Enters the event loop with a null handle and returns what the native
    /// side recorded: always a message, and the slot is left absent.
    pub fn run_with_null_for_test(bridge: &mut Bridge, on_main: bool) -> (message: Option<String>)
        requires
            old(bridge).wf(),
        ensures
            final(bridge).wf(),
            message matches Some(m) && Some(m@) == consume_state(
                old(bridge)@,
                run_call(0),
                on_main,
                null_app_text(),
            ).error,
            final(bridge)@ == drained(
                consume_state(old(bridge)@, run_call(0), on_main, null_app_text()),
            ),
    {
        bridge.run(0, on_main);
        take_last_error(bridge)
    }
}

impl SwiftWindow {
    /// Creates a window with the given frame (binary64 bit patterns) and
    /// title. A title with an embedded terminator is refused before anything
    /// crosses the boundary. Otherwise it succeeds exactly where the native
    /// side returns a handle that is not null; the error is what the error
    /// slot explains, and the slot is left absent.
    pub fn new(
        bridge: &mut Bridge,
        on_main: bool,
        x: u64,
        y: u64,
        width: u64,
        height: u64,
        title: &str,
    ) -> (created: Result<SwiftWindow, BridgeError>)
        requires
            old(bridge).wf(),
        ensures
            final(bridge).wf(),
            created is Ok <==> !has_nul(encode_utf8(title@)) && create_window_result(
                old(bridge)@,
                on_main,
            ) != 0,
            created matches Ok(window) ==> window@ == create_window_result(old(bridge)@, on_main)
                && final(bridge)@ == create_window_state(
                old(bridge)@,
                create_window_call(x, y, width, height, encode_utf8(title@).push(0u8)),
                on_main,
            ),
            has_nul(encode_utf8(title@)) ==> final(bridge)@ == old(bridge)@ && (created matches Err(
                BridgeError::EmbeddedNul(Operation::CreateWindow),
            )),
            !has_nul(encode_utf8(title@)) ==> (created matches Err(e) ==> e@ == explanation(
                create_window_state(
                old(bridge)@,
                create_window_call(x, y, width, height, encode_utf8(title@).push(0u8)),
                on_main,
            ).error,
                Operation::CreateWindow,
            ) && final(bridge)@ == drained(create_window_state(
                old(bridge)@,
                create_window_call(x, y, width, height, encode_utf8(title@).push(0u8)),
                on_main,
            ))),
    {
        let c_title = match c_text(title) {
            Some(bytes) => bytes,
            None => {
                return Err(BridgeError::EmbeddedNul(Operation::CreateWindow));
            },
        };
        let window_ptr: usize = bridge.create_window(x, y, width, height, c_title, on_main);
        if window_ptr == 0 {
            return Err(explain(bridge, Operation::CreateWindow));
        }
        Ok(SwiftWindow { window_ptr })
    }

    /// The address of the native object, null once released.
    pub fn as_ptr(&self) -> (ptr: usize)
        ensures
            ptr == self@,
    {
        self.window_ptr
    }

    /// Releases the window and forgets its address. A wrapper that holds no
    /// address does nothing, so a second release never reaches the native
    /// side.
    pub fn release(&mut self, bridge: &mut Bridge, on_main: bool)
        requires
            old(bridge).wf(),
            window_ok(old(bridge)@, old(self)@),
        ensures
            final(bridge).wf(),
            final(self)@ == 0,
            final(bridge)@ == released(old(bridge)@, old(self)@, on_main),
    {
        if self.window_ptr != 0 {
            bridge.release_window(self.window_ptr, on_main);
            self.window_ptr = 0;
        }
    }
}

} // verus!
