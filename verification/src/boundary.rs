//! The native side of the boundary, as a value.
//!
//! `Bridge` holds what a caller can observe of the native runtime: the error
//! slot, the shared application object, the screens, and the trace of the
//! calls that crossed. Each boundary call is a method; its contract is the
//! transition that the bridge contract prescribes.

use vstd::prelude::*;
use crate::error::Violation;
use crate::text::is_c_text;
use crate::scalar::positive_bits;
use crate::scalar::is_strictly_positive;

verus! {

/// The operations that cross the boundary under the main-thread rule.
#[derive(Clone, Copy, Debug, PartialEq, Eq, Structural)]
pub enum CallKind {
    CreateApp,
    Run,
    CreateWindow,
    ReleaseWindow,
    SetTitle,
    SetLocation,
    ScreenPrimary,
    ScreenArray,
    ScreenWidth,
    ScreenHeight,
}

/// One crossing of the boundary: the operation and what it was given. The
/// handle is null, and the numbers and the text are empty, where the
/// operation takes none. Numbers are binary64 bit patterns.
#[derive(Debug, PartialEq, Eq)]
pub struct Call {
    pub kind: CallKind,
    pub handle: usize,
    pub numbers: Vec<u64>,
    pub text: Vec<u8>,
}

/// The mathematical value of a `Call`.
pub struct CallView {
    pub kind: CallKind,
    pub handle: usize,
    pub numbers: Seq<u64>,
    pub text: Seq<u8>,
}

impl View for Call {
    type V = CallView;

    open spec fn view(&self) -> CallView {
        CallView { kind: self.kind, handle: self.handle, numbers: self.numbers@, text: self.text@ }
    }
}

/// A call that carries a handle and nothing else.
pub open spec fn plain_call(kind: CallKind, handle: usize) -> CallView {
    CallView { kind, handle, numbers: Seq::empty(), text: Seq::empty() }
}

/// The call that enters the event loop with `app`.
pub open spec fn run_call(app: usize) -> CallView {
    plain_call(CallKind::Run, app)
}

/// The call that releases `window`.
pub open spec fn release_call(window: usize) -> CallView {
    plain_call(CallKind::ReleaseWindow, window)
}

/// The call that sets the title of `window` to the boundary text `title`.
pub open spec fn set_title_call(window: usize, title: Seq<u8>) -> CallView {
    CallView { kind: CallKind::SetTitle, handle: window, numbers: Seq::empty(), text: title }
}

/// The call that moves `window` to (`x`, `y`).
pub open spec fn set_location_call(window: usize, x: u64, y: u64) -> CallView {
    CallView { kind: CallKind::SetLocation, handle: window, numbers: seq![x, y], text: Seq::empty() }
}

/// The call that asks for the width of `screen`.
pub open spec fn width_call(screen: usize) -> CallView {
    plain_call(CallKind::ScreenWidth, screen)
}

/// The call that asks for the height of `screen`.
pub open spec fn height_call(screen: usize) -> CallView {
    plain_call(CallKind::ScreenHeight, screen)
}

impl Call {
    /// A call that carries a handle and nothing else.
    pub fn plain(kind: CallKind, handle: usize) -> (call: Call)
        ensures
            call@ == plain_call(kind, handle),
    {
        Call { kind, handle, numbers: Vec::new(), text: Vec::new() }
    }
}

/// A screen of the native side: its handle and its size, each side as a
/// binary64 bit pattern.
#[derive(Clone, Copy, Debug, PartialEq, Eq, Structural)]
pub struct Screen {
    pub handle: usize,
    pub width: u64,
    pub height: u64,
}

/// The header of the borrowed screen array, as the native side lays it out.
#[derive(Clone, Copy, Debug, PartialEq, Eq, Structural)]
pub struct SwiftNSScreenArrayHeader {
    pub count: i32,
    pub reserved: i32,
    pub items: usize,
}

/// The address at which the native side keeps its one array buffer.
pub const SCREEN_BUFFER: usize = 0x1000;

/// The native side's observable state.
pub struct Bridge {
    pub error: Option<String>,
    pub app: usize,
    pub next_handle: usize,
    pub windows: Ghost<Set<usize>>,
    pub screens: Vec<Screen>,
    pub buffer: Vec<usize>,
    pub trace: Vec<Call>,
}

/// The mathematical value of a `Bridge`.
pub struct BridgeView {
    /// The error slot: absent, or the most recent message.
    pub error: Option<Seq<char>>,
    /// The shared application object, null until it is first created.
    pub app: usize,
    /// The next address that a creation call hands out.
    pub next_handle: usize,
    /// The windows that were created and not yet released.
    pub windows: Set<usize>,
    pub screens: Seq<Screen>,
    /// The one array buffer: the entries written by the latest array call.
    pub buffer: Seq<usize>,
    /// Every call that crossed under the main-thread rule, oldest first.
    pub trace: Seq<CallView>,
}

/// The calls of a trace, each as its mathematical value.
pub open spec fn calls_of(trace: Seq<Call>) -> Seq<CallView> {
    Seq::new(trace.len(), |i: int| trace[i]@)
}

impl View for Bridge {
    type V = BridgeView;

    open spec fn view(&self) -> BridgeView {
        BridgeView {
            error: match self.error {
                Some(m) => Some(m@),
                None => None,
            },
            app: self.app,
            next_handle: self.next_handle,
            windows: self.windows@,
            screens: self.screens@,
            buffer: self.buffer@,
            trace: calls_of(self.trace@),
        }
    }
}

/// The message recorded for a call off the main thread.
pub open spec fn main_thread_text() -> Seq<char> {
    "must be called on the main thread"@
}

/// The message recorded for a null application handle.
pub open spec fn null_app_text() -> Seq<char> {
    "null app pointer"@
}

/// The message recorded for a null window handle.
pub open spec fn null_window_text() -> Seq<char> {
    "null window pointer"@
}

/// The message recorded for a null screen handle.
pub open spec fn null_screen_text() -> Seq<char> {
    "null screen pointer"@
}

/// The message recorded for a handle that names no screen.
pub open spec fn unknown_screen_text() -> Seq<char> {
    "unknown screen"@
}

/// The message recorded where the native side cannot make an object.
pub open spec fn exhausted_text() -> Seq<char> {
    "native object could not be created"@
}

/// A screen that the native side may hold: a handle that is not null and a
/// size that is strictly positive on both sides.
pub open spec fn screen_ok(screen: Screen) -> bool {
    screen.handle != 0 && positive_bits(screen.width) && positive_bits(screen.height)
}

/// The states that the native side can be in: every object has an address
/// of its own, below the next one to hand out, and is of one kind only.
pub open spec fn wf(s: BridgeView) -> bool {
    &&& s.next_handle >= 1
    &&& s.app < s.next_handle
    &&& s.screens.len() <= i32::MAX
    &&& forall|i: int|
        0 <= i < s.screens.len() ==> screen_ok(#[trigger] s.screens[i]) && s.screens[i].handle
            < s.next_handle && s.screens[i].handle != s.app
    &&& forall|w: usize| #[trigger] s.windows.contains(w) ==> 0 < w < s.next_handle && w != s.app
    &&& forall|w: usize, i: int|
        #[trigger] s.windows.contains(w) && 0 <= i < s.screens.len() ==> (
        #[trigger] s.screens[i]).handle != w
}

/// A window handle that may cross the boundary: null, or a window that was
/// created and not yet released.
pub open spec fn window_ok(s: BridgeView, window: usize) -> bool {
    window == 0 || s.windows.contains(window)
}

/// An application handle that may cross the boundary: null, or the shared
/// application object.
pub open spec fn app_ok(s: BridgeView, app: usize) -> bool {
    app == 0 || app == s.app
}

/// The state at start: no error, no application, no screen, nothing called.
pub open spec fn initial() -> BridgeView {
    BridgeView {
        error: None,
        app: 0,
        next_handle: 1,
        windows: Set::empty(),
        screens: Seq::empty(),
        buffer: Seq::empty(),
        trace: Seq::empty(),
    }
}

/// `s` after `call` crossed and did its work without an error.
pub open spec fn logged(s: BridgeView, call: CallView) -> BridgeView {
    BridgeView { trace: s.trace.push(call), ..s }
}

/// `s` after `call` crossed and failed with `message`: the slot holds the
/// message, whatever it held before, and no native work was done.
pub open spec fn failed(s: BridgeView, call: CallView, message: Seq<char>) -> BridgeView {
    BridgeView { error: Some(message), trace: s.trace.push(call), ..s }
}

/// `s` after `call` crossed and made a new native object.
pub open spec fn allocated(s: BridgeView, call: CallView) -> BridgeView {
    BridgeView { next_handle: (s.next_handle + 1) as usize, trace: s.trace.push(call), ..s }
}

/// No address is left for a new native object.
pub open spec fn exhausted(s: BridgeView) -> bool {
    s.next_handle == usize::MAX
}

/// The last screen of `screens` that `handle` names, if any.
pub open spec fn lookup(screens: Seq<Screen>, handle: usize) -> Option<Screen>
    decreases screens.len(),
{
    if screens.len() == 0 {
        None
    } else if screens.last().handle == handle {
        Some(screens.last())
    } else {
        lookup(screens.drop_last(), handle)
    }
}

/// The handles of `screens`, in order.
pub open spec fn handles_of(screens: Seq<Screen>) -> Seq<usize> {
    Seq::new(screens.len(), |i: int| screens[i].handle)
}

/// The call that asks for the shared application object.
pub open spec fn create_app_call() -> CallView {
    plain_call(CallKind::CreateApp, 0)
}

/// The native side after the application object was asked for: off the
/// main thread the call fails; the object is made at the first call that
/// succeeds and handed out again at every later one.
pub open spec fn create_app_state(s: BridgeView, on_main: bool) -> BridgeView {
    if !on_main {
        failed(s, create_app_call(), main_thread_text())
    } else if s.app != 0 {
        logged(s, create_app_call())
    } else if exhausted(s) {
        failed(s, create_app_call(), exhausted_text())
    } else {
        BridgeView { app: s.next_handle, ..allocated(s, create_app_call()) }
    }
}

/// What the call for the application object returns: its handle, or null
/// where the call fails.
pub open spec fn create_app_result(s: BridgeView, on_main: bool) -> usize {
    if !on_main {
        0
    } else if s.app != 0 {
        s.app
    } else if exhausted(s) {
        0
    } else {
        s.next_handle
    }
}

/// The call that creates a window.
pub open spec fn create_window_call(
    x: u64,
    y: u64,
    width: u64,
    height: u64,
    title: Seq<u8>,
) -> CallView {
    CallView {
        kind: CallKind::CreateWindow,
        handle: 0,
        numbers: seq![x, y, width, height],
        text: title,
    }
}

/// The native side after a window was asked for: off the main thread, or
/// with no address left, the call fails; else a new window is live.
pub open spec fn create_window_state(s: BridgeView, call: CallView, on_main: bool) -> BridgeView {
    if !on_main {
        failed(s, call, main_thread_text())
    } else if exhausted(s) {
        failed(s, call, exhausted_text())
    } else {
        BridgeView { windows: s.windows.insert(s.next_handle), ..allocated(s, call) }
    }
}

/// What the call for a window returns: its handle, or null where the call
/// fails.
pub open spec fn create_window_result(s: BridgeView, on_main: bool) -> usize {
    if !on_main || exhausted(s) {
        0
    } else {
        s.next_handle
    }
}

/// The transition of an operation that consumes a handle and returns
/// nothing: off the main thread it fails; on it, a null handle fails with
/// `null_text`; otherwise the call is dispatched.
pub open spec fn consume_state(
    s: BridgeView,
    call: CallView,
    on_main: bool,
    null_text: Seq<char>,
) -> BridgeView {
    if !on_main {
        failed(s, call, main_thread_text())
    } else if call.handle == 0 {
        failed(s, call, null_text)
    } else {
        logged(s, call)
    }
}

/// The native side after a window was released: off the main thread the
/// call fails and the window stays; else the window is live no more. A null
/// handle releases nothing.
pub open spec fn release_window_state(s: BridgeView, window: usize, on_main: bool) -> BridgeView {
    let call = release_call(window);
    if !on_main {
        failed(s, call, main_thread_text())
    } else {
        BridgeView { windows: s.windows.remove(window), ..logged(s, call) }
    }
}

/// The call that asks for the primary screen.
pub open spec fn primary_call() -> CallView {
    plain_call(CallKind::ScreenPrimary, 0)
}

/// The native side after the primary screen was asked for: only a call off
/// the main thread is a failure.
pub open spec fn screen_primary_state(s: BridgeView, on_main: bool) -> BridgeView {
    if !on_main {
        failed(s, primary_call(), main_thread_text())
    } else {
        logged(s, primary_call())
    }
}

/// What the call for the primary screen returns: the first screen, or null
/// where the call fails or there is no screen.
pub open spec fn screen_primary_result(s: BridgeView, on_main: bool) -> usize {
    if !on_main || s.screens.len() == 0 {
        0
    } else {
        s.screens[0].handle
    }
}

/// The call that asks for the screen array.
pub open spec fn array_call() -> CallView {
    plain_call(CallKind::ScreenArray, 0)
}

/// The native side after the screen array was asked for: off the main
/// thread the call fails and the buffer is left alone; else the buffer holds
/// the handles of the screens, over whatever it held.
pub open spec fn screen_array_state(s: BridgeView, on_main: bool) -> BridgeView {
    if !on_main {
        failed(s, array_call(), main_thread_text())
    } else {
        BridgeView { buffer: handles_of(s.screens), ..logged(s, array_call()) }
    }
}

/// What a header says of the entries behind it: how many there are to read,
/// or the way in which it is malformed. With a count of zero the items
/// pointer is not looked at.
pub open spec fn entries_of(header: SwiftNSScreenArrayHeader) -> Result<usize, Violation> {
    if header.count < 0 {
        Err(Violation::NegativeCount)
    } else if header.count > 0 && header.items == 0 {
        Err(Violation::NullItems)
    } else {
        Ok(header.count as usize)
    }
}

/// Whether `count` entries may be read at `items`: only a pointer to the
/// array buffer may be followed, and only as far as the buffer was written.
pub open spec fn readable(s: BridgeView, items: usize, count: usize) -> bool {
    items == SCREEN_BUFFER && 0 < count <= s.buffer.len()
}

/// The header that the native side writes for `screens`: the items pointer
/// is the buffer's address, or null where there is nothing to point at.
pub open spec fn header_of(screens: Seq<Screen>) -> SwiftNSScreenArrayHeader {
    SwiftNSScreenArrayHeader {
        count: screens.len() as i32,
        reserved: 0,
        items: if screens.len() == 0 {
            0
        } else {
            SCREEN_BUFFER
        },
    }
}

/// The transition of a size query on `call.handle`.
pub open spec fn measure_state(s: BridgeView, call: CallView, on_main: bool) -> BridgeView {
    if !on_main {
        failed(s, call, main_thread_text())
    } else if call.handle == 0 {
        failed(s, call, null_screen_text())
    } else if lookup(s.screens, call.handle) is None {
        failed(s, call, unknown_screen_text())
    } else {
        logged(s, call)
    }
}

/// Whether a size query on `handle` is answered.
pub open spec fn measured(s: BridgeView, handle: usize, on_main: bool) -> bool {
    on_main && handle != 0 && lookup(s.screens, handle) is Some
}

/// What a width query returns: the width, or zero where the query fails.
pub open spec fn screen_width_result(s: BridgeView, screen: usize, on_main: bool) -> u64 {
    if measured(s, screen, on_main) {
        lookup(s.screens, screen)->0.width
    } else {
        0
    }
}

/// What a height query returns: the height, or zero where the query fails.
pub open spec fn screen_height_result(s: BridgeView, screen: usize, on_main: bool) -> u64 {
    if measured(s, screen, on_main) {
        lookup(s.screens, screen)->0.height
    } else {
        0
    }
}

impl SwiftNSScreenArrayHeader {
    /// Checks the header before anything behind it is read: the number of
    /// entries, or the way in which the header is malformed.
    pub fn entry_count(&self) -> (count: Result<usize, Violation>)
        ensures
            count == entries_of(*self),
    {
        if self.count < 0 {
            Err(Violation::NegativeCount)
        } else if self.count > 0 && self.items == 0 {
            Err(Violation::NullItems)
        } else {
            Ok(self.count as usize)
        }
    }
}

impl Bridge {
    /// Whether this value is a state that the native side can be in.
    pub open spec fn wf(&self) -> bool {
        wf(self@)
    }

    /// A native side at start, without screens.
    pub fn new() -> (bridge: Bridge)
        ensures
            bridge@ == initial(),
            bridge.wf(),
    {
        let bridge = Bridge {
            error: None,
            app: 0,
            next_handle: 1,
            windows: Ghost(Set::empty()),
            screens: Vec::new(),
            buffer: Vec::new(),
            trace: Vec::new(),
        };
        proof {
            assert(calls_of(bridge.trace@) =~= Seq::empty());
            assert(bridge@.screens =~= Seq::empty());
            assert(bridge@.buffer =~= Seq::empty());
            assert(bridge@.trace =~= Seq::empty());
        }
        bridge
    }

    /// Connects a screen of the given size and returns its handle. Nothing
    /// happens, and null is returned, where a side is not strictly positive
    /// or no address or no room in the array is left.
    pub fn attach_screen(&mut self, width: u64, height: u64) -> (handle: usize)
        requires
            old(self).wf(),
        ensures
            final(self).wf(),
            handle != 0 <==> positive_bits(width) && positive_bits(height) && !exhausted(
                old(self)@,
            ) && old(self)@.screens.len() < i32::MAX,
            handle == 0 ==> final(self)@ == old(self)@,
            handle != 0 ==> handle == old(self)@.next_handle && final(self)@ == (BridgeView {
                next_handle: (handle + 1) as usize,
                screens: old(self)@.screens.push(Screen { handle, width, height }),
                ..old(self)@
            }),
    {
        if !is_strictly_positive(width) || !is_strictly_positive(height) || self.next_handle
            == usize::MAX || self.screens.len() >= 0x7FFF_FFFF {
            return 0;
        }
        let handle: usize = self.next_handle;
        self.next_handle = handle + 1;
        self.screens.push(Screen { handle, width, height });
        handle
    }

    /// The calls that crossed so far, oldest first.
    pub fn calls(&self) -> (trace: &Vec<Call>)
        ensures
            calls_of(trace@) == self@.trace,
    {
        &self.trace
    }

    /// Whether the error slot holds a message. The slot is left as it is.
    pub fn has_error(&self) -> (present: bool)
        ensures
            present == (self@.error is Some),
    {
        self.error.is_some()
    }

    fn log(&mut self, call: Call)
        requires
            old(self).wf(),
        ensures
            final(self).wf(),
            final(self)@ == logged(old(self)@, call@),
    {
        self.trace.push(call);
        proof {
            assert(calls_of(self.trace@) =~= calls_of(old(self).trace@).push(call@));
        }
    }

    fn fail(&mut self, call: Call, message: &str)
        requires
            old(self).wf(),
        ensures
            final(self).wf(),
            final(self)@ == failed(old(self)@, call@, message@),
    {
        self.log(call);
        self.error = Some(message.to_owned());
    }

    fn fail_off_main(&mut self, call: Call)
        requires
            old(self).wf(),
        ensures
            final(self).wf(),
            final(self)@ == failed(old(self)@, call@, main_thread_text()),
    {
        self.fail(call, "must be called on the main thread");
    }

    fn fail_exhausted(&mut self, call: Call)
        requires
            old(self).wf(),
        ensures
            final(self).wf(),
            final(self)@ == failed(old(self)@, call@, exhausted_text()),
    {
        self.fail(call, "native object could not be created");
    }

    fn allocate(&mut self, call: Call) -> (handle: usize)
        requires
            old(self).wf(),
            !exhausted(old(self)@),
        ensures
            final(self).wf(),
            handle == old(self)@.next_handle,
            handle != 0,
            final(self)@ == allocated(old(self)@, call@),
    {
        let handle: usize = self.next_handle;
        self.next_handle = handle + 1;
        self.log(call);
        handle
    }

    /// Resets the error slot to absent. Callable from any thread.
    pub fn clear_last_error(&mut self)
        ensures
            final(self)@ == (BridgeView { error: None, ..old(self)@ }),
    {
        self.error = None;
    }

    /// Reads the error slot and leaves it as it is: the message, or nothing
    /// where the slot is absent. Callable from any thread.
    pub fn last_error(&self) -> (message: Option<String>)
        ensures
            message is Some <==> self@.error is Some,
            message matches Some(m) ==> self@.error == Some(m@),
    {
        match &self.error {
            Some(m) => Some(m.clone()),
            None => None,
        }
    }

    /// Returns the shared application object, creating it at the first call.
    pub fn create_app(&mut self, on_main: bool) -> (app: usize)
        requires
            old(self).wf(),
        ensures
            final(self).wf(),
            final(self)@ == create_app_state(old(self)@, on_main),
            app == create_app_result(old(self)@, on_main),
    {
        let call = Call::plain(CallKind::CreateApp, 0);
        if !on_main {
            self.fail_off_main(call);
            0
        } else if self.app != 0 {
            self.log(call);
            self.app
        } else if self.next_handle == usize::MAX {
            self.fail_exhausted(call);
            0
        } else {
            let handle = self.allocate(call);
            self.app = handle;
            handle
        }
    }

    /// Hands control to the native event loop and returns when it stops.
    pub fn run(&mut self, app: usize, on_main: bool)
        requires
            old(self).wf(),
            app_ok(old(self)@, app),
        ensures
            final(self).wf(),
            final(self)@ == consume_state(
                old(self)@,
                run_call(app),
                on_main,
                null_app_text(),
            ),
    {
        let call = Call::plain(CallKind::Run, app);
        if !on_main {
            self.fail_off_main(call);
        } else if app == 0 {
            self.fail(call, "null app pointer");
        } else {
            self.log(call);
        }
    }

    /// Makes a window with the given frame (binary64 bit patterns) and title.
    pub fn create_window(
        &mut self,
        x: u64,
        y: u64,
        width: u64,
        height: u64,
        title: Vec<u8>,
        on_main: bool,
    ) -> (window: usize)
        requires
            old(self).wf(),
            is_c_text(title@),
        ensures
            final(self).wf(),
            final(self)@ == create_window_state(
                old(self)@,
                create_window_call(x, y, width, height, title@),
                on_main,
            ),
            window == create_window_result(old(self)@, on_main),
    {
        let call = Call {
            kind: CallKind::CreateWindow,
            handle: 0,
            numbers: vec![x, y, width, height],
            text: title,
        };
        if !on_main {
            self.fail_off_main(call);
            0
        } else if self.next_handle == usize::MAX {
            self.fail_exhausted(call);
            0
        } else {
            let window = self.allocate(call);
            self.windows = Ghost(self.windows@.insert(window));
            window
        }
    }

    /// Releases a window. A null handle is a no-op.
    pub fn release_window(&mut self, window: usize, on_main: bool)
        requires
            old(self).wf(),
            window_ok(old(self)@, window),
        ensures
            final(self).wf(),
            final(self)@ == release_window_state(old(self)@, window, on_main),
    {
        let call = Call::plain(CallKind::ReleaseWindow, window);
        if !on_main {
            self.fail_off_main(call);
        } else {
            self.log(call);
            self.windows = Ghost(self.windows@.remove(window));
        }
    }

    /// Asks for a new window title. The visible effect may come later.
    pub fn set_title(&mut self, window: usize, title: Vec<u8>, on_main: bool)
        requires
            old(self).wf(),
            window_ok(old(self)@, window),
            is_c_text(title@),
        ensures
            final(self).wf(),
            final(self)@ == consume_state(
                old(self)@,
                set_title_call(window, title@),
                on_main,
                null_window_text(),
            ),
    {
        let call = Call { kind: CallKind::SetTitle, handle: window, numbers: Vec::new(), text: title };
        if !on_main {
            self.fail_off_main(call);
        } else if window == 0 {
            self.fail(call, "null window pointer");
        } else {
            self.log(call);
        }
    }

    /// Asks for a new window position. The visible effect may come later.
    pub fn set_location(&mut self, window: usize, x: u64, y: u64, on_main: bool)
        requires
            old(self).wf(),
            window_ok(old(self)@, window),
        ensures
            final(self).wf(),
            final(self)@ == consume_state(
                old(self)@,
                set_location_call(window, x, y),
                on_main,
                null_window_text(),
            ),
    {
        let call = Call {
            kind: CallKind::SetLocation,
            handle: window,
            numbers: vec![x, y],
            text: Vec::new(),
        };
        if !on_main {
            self.fail_off_main(call);
        } else if window == 0 {
            self.fail(call, "null window pointer");
        } else {
            self.log(call);
        }
    }

    /// The primary screen, or null: with an error off the main thread,
    /// without one where there is no screen.
    pub fn screen_primary(&mut self, on_main: bool) -> (screen: usize)
        requires
            old(self).wf(),
        ensures
            final(self).wf(),
            final(self)@ == screen_primary_state(old(self)@, on_main),
            screen == screen_primary_result(old(self)@, on_main),
    {
        let call = Call::plain(CallKind::ScreenPrimary, 0);
        if !on_main {
            self.fail_off_main(call);
            0
        } else {
            self.log(call);
            if self.screens.len() == 0 {
                0
            } else {
                self.screens[0].handle
            }
        }
    }

    /// The screen array: a null header pointer (nothing) with an error off
    /// the main thread; else the header, with the entries written to the one
    /// buffer over whatever an earlier call left there.
    pub fn screen_array(&mut self, on_main: bool) -> (header: Option<SwiftNSScreenArrayHeader>)
        requires
            old(self).wf(),
        ensures
            final(self).wf(),
            final(self)@ == screen_array_state(old(self)@, on_main),
            header is Some <==> on_main,
            header matches Some(h) ==> h == header_of(old(self)@.screens),
    {
        let call = Call::plain(CallKind::ScreenArray, 0);
        if !on_main {
            self.fail_off_main(call);
            return None;
        }
        self.log(call);
        let mut entries: Vec<usize> = Vec::new();
        let mut i: usize = 0;
        while i < self.screens.len()
            invariant
                i <= self.screens.len(),
                entries@ == handles_of(self.screens@.take(i as int)),
            decreases self.screens.len() - i,
        {
            entries.push(self.screens[i].handle);
            proof {
                assert(entries@ =~= handles_of(self.screens@.take(i + 1)));
            }
            i += 1;
        }
        proof {
            assert(self.screens@.take(i as int) =~= self.screens@);
        }
        self.buffer = entries;
        let count: usize = self.screens.len();
        Some(
            SwiftNSScreenArrayHeader {
                count: count as i32,
                reserved: 0,
                items: if count == 0 {
                    0
                } else {
                    SCREEN_BUFFER
                },
            },
        )
    }

    /// Reads `count` entries at `items`, as a caller does that follows the
    /// items pointer of a header.
    pub fn read_entries(&self, items: usize, count: usize) -> (entries: Vec<usize>)
        requires
            readable(self@, items, count),
        ensures
            entries@ == self@.buffer.take(count as int),
    {
        let mut entries: Vec<usize> = Vec::new();
        let mut i: usize = 0;
        while i < count
            invariant
                i <= count <= self.buffer.len(),
                entries@ == self.buffer@.take(i as int),
            decreases count - i,
        {
            entries.push(self.buffer[i]);
            proof {
                assert(entries@ =~= self.buffer@.take(i + 1));
            }
            i += 1;
        }
        entries
    }

    fn find(&self, handle: usize) -> (found: Option<Screen>)
        ensures
            found == lookup(self@.screens, handle),
    {
        let mut found: Option<Screen> = None;
        let mut i: usize = 0;
        while i < self.screens.len()
            invariant
                i <= self.screens.len(),
                found == lookup(self.screens@.take(i as int), handle),
            decreases self.screens.len() - i,
        {
            proof {
                assert(self.screens@.take(i + 1).drop_last() =~= self.screens@.take(i as int));
            }
            if self.screens[i].handle == handle {
                found = Some(self.screens[i]);
            }
            i += 1;
        }
        proof {
            assert(self.screens@.take(i as int) =~= self.screens@);
        }
        found
    }

    fn measure(&mut self, call: Call, on_main: bool) -> (found: Option<Screen>)
        requires
            old(self).wf(),
        ensures
            final(self).wf(),
            final(self)@ == measure_state(old(self)@, call@, on_main),
            found is Some <==> measured(old(self)@, call.handle, on_main),
            found is Some ==> found == lookup(old(self)@.screens, call.handle),
    {
        if !on_main {
            self.fail_off_main(call);
            return None;
        }
        if call.handle == 0 {
            self.fail(call, "null screen pointer");
            return None;
        }
        let found = self.find(call.handle);
        if found.is_none() {
            self.fail(call, "unknown screen");
        } else {
            self.log(call);
        }
        found
    }

    /// The width of a screen as a binary64 bit pattern; zero with an error
    /// where the query fails.
    pub fn screen_width(&mut self, screen: usize, on_main: bool) -> (width: u64)
        requires
            old(self).wf(),
        ensures
            final(self).wf(),
            final(self)@ == measure_state(
                old(self)@,
                width_call(screen),
                on_main,
            ),
            width == screen_width_result(old(self)@, screen, on_main),
    {
        match self.measure(Call::plain(CallKind::ScreenWidth, screen), on_main) {
            Some(s) => s.width,
            None => 0,
        }
    }

    /// The height of a screen as a binary64 bit pattern; zero with an error
    /// where the query fails.
    pub fn screen_height(&mut self, screen: usize, on_main: bool) -> (height: u64)
        requires
            old(self).wf(),
        ensures
            final(self).wf(),
            final(self)@ == measure_state(
                old(self)@,
                height_call(screen),
                on_main,
            ),
            height == screen_height_result(old(self)@, screen, on_main),
    {
        match self.measure(Call::plain(CallKind::ScreenHeight, screen), on_main) {
            Some(s) => s.height,
            None => 0,
        }
    }
}

} // verus!
