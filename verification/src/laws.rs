//! What holds of the bridge as a whole, stated over the transitions that the
//! contracts of the boundary calls and of the wrappers use.

use vstd::prelude::*;
use crate::appkit::app_run::released;
use crate::boundary::BridgeView;
use crate::boundary::CallView;
use crate::boundary::height_call;
use crate::boundary::release_call;
use crate::boundary::run_call;
use crate::boundary::set_location_call;
use crate::boundary::set_title_call;
use crate::boundary::width_call;
use crate::boundary::Screen;
use crate::boundary::SwiftNSScreenArrayHeader;
use crate::boundary::entries_of;
use crate::boundary::readable;
use crate::boundary::consume_state;
use crate::boundary::create_app_result;
use crate::boundary::create_app_state;
use crate::boundary::create_window_result;
use crate::boundary::create_window_state;
use crate::boundary::exhausted;
use crate::boundary::failed;
use crate::boundary::handles_of;
use crate::boundary::header_of;
use crate::boundary::initial;
use crate::boundary::lookup;
use crate::boundary::main_thread_text;
use crate::boundary::measure_state;
use crate::boundary::measured;
use crate::boundary::null_app_text;
use crate::boundary::null_window_text;
use crate::boundary::release_window_state;
use crate::boundary::screen_array_state;
use crate::boundary::screen_height_result;
use crate::boundary::screen_ok;
use crate::boundary::screen_primary_result;
use crate::boundary::screen_primary_state;
use crate::boundary::screen_width_result;
use crate::boundary::wf;
use crate::error::Operation;
use crate::error::Violation;
use crate::error::explanation;
use crate::error::message_text;
use crate::error::drained;
use crate::scalar::positive_bits;
use crate::text::contains_text;

verus! {

/// The message for a call off the main thread names the main thread.
pub proof fn law_thread_message_names_main_thread()
    ensures
        contains_text(main_thread_text(), "main thread"@),
{
    reveal_strlit("must be called on the main thread");
    reveal_strlit("main thread");
    assert(main_thread_text().subrange(22, 22int + "main thread"@.len()) =~= "main thread"@);
}

/// Off the main thread every operation under the main-thread rule returns
/// its failure sentinel and leaves the main-thread message in the error
/// slot, whatever its arguments and whatever the slot held; the error that
/// a caller gets for the sentinel carries that message.
pub proof fn law_off_main_thread_fails(s: BridgeView, call: CallView, null_text: Seq<char>)
    ensures
        create_app_result(s, false) == 0,
        create_app_state(s, false).error == Some(main_thread_text()),
        create_window_result(s, false) == 0,
        create_window_state(s, call, false).error == Some(main_thread_text()),
        consume_state(s, call, false, null_text).error == Some(main_thread_text()),
        release_window_state(s, call.handle, false).error == Some(main_thread_text()),
        screen_primary_result(s, false) == 0,
        screen_primary_state(s, false).error == Some(main_thread_text()),
        screen_array_state(s, false).error == Some(main_thread_text()),
        screen_width_result(s, call.handle, false) == 0,
        screen_height_result(s, call.handle, false) == 0,
        measure_state(s, call, false).error == Some(main_thread_text()),
        message_text(explanation(create_app_state(s, false).error, Operation::CreateApp))
            == main_thread_text(),
        message_text(explanation(create_window_state(s, call, false).error, Operation::CreateWindow))
            == main_thread_text(),
        message_text(explanation(screen_array_state(s, false).error, Operation::ScreenArray))
            == main_thread_text(),
{
}

/// On the main thread an operation with valid inputs writes nothing to the
/// error slot: a slot that was empty before the call is empty after it.
/// Valid are a handle that is not null, a screen that the native side
/// knows, and, for a creation, an address left to hand out.
pub proof fn law_main_thread_keeps_slot(s: BridgeView, call: CallView, null_text: Seq<char>)
    requires
        wf(s),
    ensures
        s.app != 0 || !exhausted(s) ==> create_app_state(s, true).error == s.error
            && create_app_result(s, true) != 0,
        !exhausted(s) ==> create_window_state(s, call, true).error == s.error
            && create_window_result(s, true) != 0,
        call.handle != 0 ==> consume_state(s, call, true, null_text).error == s.error,
        release_window_state(s, call.handle, true).error == s.error,
        screen_primary_state(s, true).error == s.error,
        screen_array_state(s, true).error == s.error,
        measured(s, call.handle, true) ==> measure_state(s, call, true).error == s.error,
{
}

/// A failure is written before the call returns: whenever an operation
/// returns its failure sentinel for a reason of its own, the error slot holds
/// a message after the call. The one sentinel without a failure is a primary
/// screen that does not exist: on the main thread and with no screen, null
/// comes back and the slot is left as it was.
pub proof fn law_failure_is_recorded(s: BridgeView, call: CallView, on_main: bool)
    requires
        wf(s),
    ensures
        create_app_result(s, on_main) == 0 ==> create_app_state(s, on_main).error is Some,
        create_window_result(s, on_main) == 0 ==> create_window_state(s, call, on_main).error is Some,
        screen_primary_result(s, on_main) == 0 ==> (if on_main {
            s.screens.len() == 0 && screen_primary_state(s, on_main).error == s.error
        } else {
            screen_primary_state(s, on_main).error is Some
        }),
        !on_main ==> screen_array_state(s, on_main).error is Some,
        !measured(s, call.handle, on_main) ==> measure_state(s, call, on_main).error is Some,
        measured(s, call.handle, on_main) ==> positive_bits(
            screen_width_result(s, call.handle, on_main),
        ) && positive_bits(screen_height_result(s, call.handle, on_main)),
{
    if s.screens.len() > 0 {
        assert(screen_ok(s.screens[0]));
    }
    if measured(s, call.handle, on_main) {
        lemma_lookup_is_a_screen(s.screens, call.handle);
    }
}

/// Whatever is found under a handle is one of the screens.
pub proof fn lemma_lookup_is_a_screen(screens: Seq<Screen>, handle: usize)
    ensures
        lookup(screens, handle) matches Some(found) ==> found.handle == handle && screens.contains(
            found,
        ),
    decreases screens.len(),
{
    if screens.len() > 0 {
        if screens.last().handle == handle {
            assert(screens[screens.len() - 1] == screens.last());
        } else {
            let shorter = screens.drop_last();
            lemma_lookup_is_a_screen(shorter, handle);
            if lookup(shorter, handle) is Some {
                let found = lookup(shorter, handle)->0;
                let j = choose|j: int| 0 <= j < shorter.len() && shorter[j] == found;
                assert(screens[j] == found);
            }
        }
    }
}

/// Taking the last error reads and clears: what is taken is what the slot
/// held, and a second take with no failure in between finds nothing and
/// changes nothing.
pub proof fn law_take_reads_and_clears(s: BridgeView)
    ensures
        drained(s).error is None,
        drained(drained(s)) == drained(s),
        drained(s).trace == s.trace,
{
}

/// Every transition leads from a state that the native side can be in to
/// another such state.
pub proof fn law_states_stay_well_formed(
    s: BridgeView,
    call: CallView,
    on_main: bool,
    null_text: Seq<char>,
)
    requires
        wf(s),
    ensures
        wf(initial()),
        wf(drained(s)),
        wf(create_app_state(s, on_main)),
        wf(create_window_state(s, call, on_main)),
        wf(consume_state(s, call, on_main, null_text)),
        wf(release_window_state(s, call.handle, on_main)),
        wf(screen_primary_state(s, on_main)),
        wf(screen_array_state(s, on_main)),
        wf(measure_state(s, call, on_main)),
{
}

/// A window that was created is live and new: its handle is not null, was
/// not live before, and is neither the application's nor a screen's. Every
/// window that was live stays live.
pub proof fn law_created_window_is_new(s: BridgeView, call: CallView, on_main: bool)
    requires
        wf(s),
        create_window_result(s, on_main) != 0,
    ensures
        !s.windows.contains(create_window_result(s, on_main)),
        create_window_state(s, call, on_main).windows == s.windows.insert(
            create_window_result(s, on_main),
        ),
        create_window_result(s, on_main) != create_window_state(s, call, on_main).app,
        forall|i: int|
            0 <= i < s.screens.len() ==> (#[trigger] s.screens[i]).handle != create_window_result(
                s,
                on_main,
            ),
{
    assert(s.windows.contains(s.next_handle) ==> s.next_handle < s.next_handle);
}

/// A window that was released on the main thread is live no more, and no
/// other window is touched; off the main thread nothing is released.
pub proof fn law_released_window_is_gone(s: BridgeView, window: usize, other: usize)
    requires
        other != window,
    ensures
        !release_window_state(s, window, true).windows.contains(window),
        release_window_state(s, window, true).windows.contains(other) == s.windows.contains(other),
        release_window_state(s, window, false).windows == s.windows,
{
}

/// Only creating and releasing a window change which windows are live.
pub proof fn law_windows_live_until_released(
    s: BridgeView,
    call: CallView,
    on_main: bool,
    null_text: Seq<char>,
)
    ensures
        drained(s).windows == s.windows,
        create_app_state(s, on_main).windows == s.windows,
        consume_state(s, call, on_main, null_text).windows == s.windows,
        screen_primary_state(s, on_main).windows == s.windows,
        screen_array_state(s, on_main).windows == s.windows,
        measure_state(s, call, on_main).windows == s.windows,
        create_app_state(s, on_main).app == s.app || s.app == 0,
{
}

/// Releasing a window twice through one wrapper reaches the native side at
/// most once: the wrapper holds null after the first release, and releasing
/// a wrapper that holds null changes nothing.
pub proof fn law_release_at_most_once(s: BridgeView, window: usize, first: bool, second: bool)
    ensures
        released(released(s, window, first), 0, second) == released(s, window, first),
        released(s, window, first).trace == s.trace || released(s, window, first).trace
            == s.trace.push(release_call(window)),
{
}

/// A null handle given to a mutation on the main thread is a safe no-op:
/// the call returns, the error slot names the null handle and its kind, and
/// nothing else of the native side changes.
pub proof fn law_null_handle_is_recorded(s: BridgeView, title: Seq<u8>, x: u64, y: u64)
    ensures
        consume_state(s, set_title_call(0, title), true, null_window_text()) == failed(
            s,
            set_title_call(0, title),
            null_window_text(),
        ),
        consume_state(s, set_location_call(0, x, y), true, null_window_text()) == failed(
            s,
            set_location_call(0, x, y),
            null_window_text(),
        ),
        consume_state(s, run_call(0), true, null_app_text()) == failed(
            s,
            run_call(0),
            null_app_text(),
        ),
        contains_text(null_window_text(), "null"@),
        contains_text(null_window_text(), "window"@),
        contains_text(null_window_text(), "null window pointer"@),
        contains_text(null_app_text(), "null"@),
        contains_text(null_app_text(), "app"@),
        contains_text(null_app_text(), "null app pointer"@),
{
    reveal_strlit("null window pointer");
    reveal_strlit("null app pointer");
    reveal_strlit("null");
    reveal_strlit("window");
    reveal_strlit("app");
    assert(null_window_text().subrange(0, 0int + "null"@.len()) =~= "null"@);
    assert(null_window_text().subrange(5, 5int + "window"@.len()) =~= "window"@);
    assert(null_window_text().subrange(0, 0int + null_window_text().len()) =~= null_window_text());
    assert(null_app_text().subrange(0, 0int + "null"@.len()) =~= "null"@);
    assert(null_app_text().subrange(5, 5int + "app"@.len()) =~= "app"@);
    assert(null_app_text().subrange(0, 0int + null_app_text().len()) =~= null_app_text());
}

/// With no screen the array's count is zero; a count of zero is well-formed
/// whatever the items pointer is, and nothing may then be read behind it.
pub proof fn law_no_screen_gives_empty_array(s: BridgeView, reserved: i32, items: usize)
    requires
        s.screens.len() == 0,
    ensures
        header_of(s.screens).count == 0,
        entries_of(header_of(s.screens)) == Ok::<usize, Violation>(0),
        entries_of(SwiftNSScreenArrayHeader { count: 0, reserved, items }) == Ok::<usize, Violation>(
            0,
        ),
        !readable(screen_array_state(s, true), items, 0),
        screen_array_state(s, true).buffer.len() == 0,
{
}

/// The array buffer is a single slot: an array call overwrites it with the
/// handles of the screens as they are then, whatever it held, and no other
/// call touches it, so what was written stays until the next array call.
pub proof fn law_array_buffer_is_single_slot(s: BridgeView, call: CallView, null_text: Seq<char>)
    ensures
        screen_array_state(s, true).buffer == handles_of(s.screens),
        screen_array_state(s, false).buffer == s.buffer,
        create_app_state(s, true).buffer == s.buffer,
        create_app_state(s, false).buffer == s.buffer,
        create_window_state(s, call, true).buffer == s.buffer,
        create_window_state(s, call, false).buffer == s.buffer,
        consume_state(s, call, true, null_text).buffer == s.buffer,
        consume_state(s, call, false, null_text).buffer == s.buffer,
        release_window_state(s, call.handle, true).buffer == s.buffer,
        release_window_state(s, call.handle, false).buffer == s.buffer,
        screen_primary_state(s, true).buffer == s.buffer,
        screen_primary_state(s, false).buffer == s.buffer,
        measure_state(s, call, true).buffer == s.buffer,
        measure_state(s, call, false).buffer == s.buffer,
        drained(s).buffer == s.buffer,
{
}

/// A header is well-formed exactly where its count is not negative and,
/// with a count above zero, its items pointer is not null; the header that
/// the native side writes is well-formed and lets every entry be read.
pub proof fn law_header_protocol(header: SwiftNSScreenArrayHeader, s: BridgeView)
    requires
        wf(s),
    ensures
        entries_of(header) is Ok <==> header.count >= 0 && (header.count > 0 ==> header.items != 0),
        entries_of(header) matches Ok(n) ==> n == header.count,
        header.count < 0 ==> entries_of(header) == Err::<usize, Violation>(
            Violation::NegativeCount,
        ),
        entries_of(header_of(s.screens)) == Ok::<usize, Violation>(s.screens.len() as usize),
        s.screens.len() > 0 ==> readable(
            screen_array_state(s, true),
            header_of(s.screens).items,
            s.screens.len() as usize,
        ),
{
}

/// A handle that some screen carries is found.
pub proof fn lemma_lookup_finds(screens: Seq<Screen>, i: int)
    requires
        0 <= i < screens.len(),
    ensures
        lookup(screens, screens[i].handle) is Some,
    decreases screens.len(),
{
    if screens.last().handle != screens[i].handle {
        let shorter = screens.drop_last();
        assert(shorter[i] == screens[i]);
        lemma_lookup_finds(shorter, i);
    }
}

/// With one screen or more, every entry of the array is a handle that is
/// not null, and on the main thread its width and its height are answered,
/// both strictly positive, with nothing written to the error slot.
pub proof fn law_every_entry_is_a_screen(s: BridgeView, i: int)
    requires
        wf(s),
        0 <= i < s.screens.len(),
    ensures
        header_of(s.screens).count == s.screens.len(),
        header_of(s.screens).items != 0,
        screen_array_state(s, true).buffer[i] == handles_of(s.screens)[i],
        handles_of(s.screens)[i] != 0,
        positive_bits(screen_width_result(s, handles_of(s.screens)[i], true)),
        positive_bits(screen_height_result(s, handles_of(s.screens)[i], true)),
        measure_state(
            s,
            width_call(handles_of(s.screens)[i]),
            true,
        ).error == s.error,
        measure_state(
            s,
            height_call(handles_of(s.screens)[i]),
            true,
        ).error == s.error,
{
    lemma_lookup_finds(s.screens, i);
    lemma_lookup_is_a_screen(s.screens, s.screens[i].handle);
    assert(screen_ok(s.screens[i]));
}

} // verus!
