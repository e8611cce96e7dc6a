//! One pass of the message loop: what to do with the answer of the call that
//! fetches the next message, and what follows from many passes in a row.
use vstd::prelude::*;

use crate::winproc::WM_QUIT;

verus! {

/// The two loops that poll the queue without waiting.
#[derive(Debug, Clone, Copy, PartialEq, Eq, Structural)]
pub enum PeekStyle {
    /// A message is there when the poll answers anything but 0; a frame is
    /// drawn on every pass that does not end the loop.
    RenderEachPass,
    /// A message is there when the poll answers exactly 1 (`TRUE`); no frame is
    /// drawn.
    MessagesOnly,
}

/// What one pass of the loop does.
#[derive(Debug, Clone, Copy, PartialEq, Eq, Structural)]
pub struct PumpStep {
    /// Translate and dispatch the message that was fetched.
    pub dispatch: bool,
    /// Leave the loop after this pass.
    pub stop: bool,
    /// Draw a frame at the end of this pass.
    pub render: bool,
}

/// Whether the poll's answer means that a message was taken from the queue.
pub open spec fn peek_has_message(style: PeekStyle, peek_result: i32) -> bool {
    match style {
        PeekStyle::RenderEachPass => peek_result != 0,
        PeekStyle::MessagesOnly => peek_result == 1,
    }
}

/// One pass of a polling loop: a fetched message is dispatched; the loop ends
/// right after dispatching a quit message; the rendering loop draws a frame on
/// every other pass.
pub open spec fn peek_step_spec(style: PeekStyle, peek_result: i32, message: u32) -> PumpStep {
    let has = peek_has_message(style, peek_result);
    let stop = has && message == WM_QUIT;
    PumpStep { dispatch: has, stop, render: style == PeekStyle::RenderEachPass && !stop }
}

/// One pass of the loop that waits for messages: it goes on, dispatching the
/// message, exactly when the wait answered 1; 0 (quit) and -1 (error) end it.
pub open spec fn get_step_spec(get_result: i32) -> PumpStep {
    PumpStep { dispatch: get_result == 1, stop: get_result != 1, render: false }
}

/// Decides one pass of a polling loop from the poll's answer and the message
/// field of the message buffer.
pub fn peek_loop_step(style: PeekStyle, peek_result: i32, message: u32) -> (step: PumpStep)
    ensures
        step == peek_step_spec(style, peek_result, message),
{
    let has = match style {
        PeekStyle::RenderEachPass => peek_result != 0,
        PeekStyle::MessagesOnly => peek_result == 1,
    };
    let stop = has && message == WM_QUIT;
    let render = match style {
        PeekStyle::RenderEachPass => !stop,
        PeekStyle::MessagesOnly => false,
    };
    PumpStep { dispatch: has, stop, render }
}

/// Decides one pass of the waiting loop from the answer of the wait.
pub fn get_loop_step(get_result: i32) -> (step: PumpStep)
    ensures
        step == get_step_spec(get_result),
{
    let go_on = get_result == 1;
    PumpStep { dispatch: go_on, stop: !go_on, render: false }
}

/// What a single pass does, over every answer and message: a polling pass
/// dispatches exactly when the poll handed over a message (any answer but 0
/// for the rendering loop, only 1 for the other); it ends the loop exactly
/// when the message it dispatched is a quit message; the rendering loop draws
/// on exactly the passes that do not end it, and the other loop never draws.
/// A waiting pass dispatches exactly when the wait answered 1 and otherwise
/// ends the loop, and never draws.
pub proof fn lemma_step_laws(style: PeekStyle, peek_result: i32, message: u32, get_result: i32)
    ensures
        peek_step_spec(style, peek_result, message).dispatch <==> (peek_result != 0 && (style
            == PeekStyle::RenderEachPass || peek_result == 1)),
        peek_step_spec(style, peek_result, message).stop <==> (peek_step_spec(
            style,
            peek_result,
            message,
        ).dispatch && message == WM_QUIT),
        style == PeekStyle::RenderEachPass ==> (peek_step_spec(style, peek_result, message).render
            <==> !peek_step_spec(style, peek_result, message).stop),
        style == PeekStyle::MessagesOnly ==> !peek_step_spec(style, peek_result, message).render,
        get_step_spec(get_result).dispatch <==> get_result == 1,
        get_step_spec(get_result).stop <==> get_result != 1,
        !get_step_spec(get_result).render,
{
}

/// What a run of passes did.
pub struct PumpTrace {
    /// Passes made.
    pub passes: nat,
    /// Messages dispatched.
    pub dispatched: nat,
    /// Frames drawn.
    pub frames: nat,
    /// Whether the loop ended.
    pub stopped: bool,
}

/// Running passes over a run of answers, each step as decided by `step_of`,
/// until a step ends the loop or the answers run out.
pub open spec fn pump<E>(step_of: spec_fn(E) -> PumpStep, events: Seq<E>) -> PumpTrace
    decreases events.len(),
{
    if events.len() == 0 {
        PumpTrace { passes: 0, dispatched: 0, frames: 0, stopped: false }
    } else {
        let s = step_of(events[0]);
        let d: nat = if s.dispatch { 1 } else { 0 };
        let f: nat = if s.render { 1 } else { 0 };
        if s.stop {
            PumpTrace { passes: 1, dispatched: d, frames: f, stopped: true }
        } else {
            let rest = pump(step_of, events.drop_first());
            PumpTrace {
                passes: rest.passes + 1,
                dispatched: rest.dispatched + d,
                frames: rest.frames + f,
                stopped: rest.stopped,
            }
        }
    }
}

/// Number of elements of `s` for which `p` holds.
pub open spec fn count<E>(s: Seq<E>, p: spec_fn(E) -> bool) -> nat
    decreases s.len(),
{
    if s.len() == 0 {
        0
    } else {
        count(s.drop_first(), p) + if p(s[0]) { 1nat } else { 0nat }
    }
}

/// The polling step over an answer given as (poll result, message).
pub open spec fn peek_event_step(style: PeekStyle) -> spec_fn((i32, u32)) -> PumpStep {
    |e: (i32, u32)| peek_step_spec(style, e.0, e.1)
}

/// Whether an answer of the poll hands over a quit message.
pub open spec fn is_quit(style: PeekStyle, e: (i32, u32)) -> bool {
    peek_has_message(style, e.0) && e.1 == WM_QUIT
}

/// Whether an answer of the poll hands over any message.
pub open spec fn has_message(style: PeekStyle) -> spec_fn((i32, u32)) -> bool {
    |e: (i32, u32)| peek_has_message(style, e.0)
}

/// The stopping law of the polling loops: the loop ends on the first answer
/// that hands over a quit message and on no other; every message handed over
/// up to and including that one is dispatched, and nothing else; the rendering
/// loop draws one frame on each pass but the last one when that one ends it,
/// and the other loop draws none.
pub proof fn lemma_peek_pump(style: PeekStyle, events: Seq<(i32, u32)>)
    ensures
        ({
            let t = pump(peek_event_step(style), events);
            &&& t.stopped <==> exists|i: int| 0 <= i < events.len() && is_quit(style, #[trigger] events[i])
            &&& t.stopped ==> is_quit(style, events[t.passes - 1])
            &&& forall|i: int| 0 <= i < t.passes - 1 ==> !is_quit(style, #[trigger] events[i])
            &&& !t.stopped ==> t.passes == events.len()
            &&& t.passes <= events.len()
            &&& t.dispatched == count(events.take(t.passes as int), has_message(style))
            &&& t.frames == if style == PeekStyle::RenderEachPass {
                if t.stopped { t.passes - 1 } else { t.passes as int }
            } else {
                0
            }
        }),
    decreases events.len(),
{
    let t = pump(peek_event_step(style), events);
    if events.len() == 0 {
        assert(events.take(0) =~= Seq::<(i32, u32)>::empty());
    } else {
        let e0 = events[0];
        let rest = events.drop_first();
        lemma_peek_pump(style, rest);
        let s = peek_step_spec(style, e0.0, e0.1);
        assert(peek_event_step(style)(e0) == s);
        if s.stop {
            assert(is_quit(style, events[0]));
            let tk = events.take(1);
            assert(tk.drop_first() =~= Seq::<(i32, u32)>::empty());
            assert(tk[0] == e0);
            assert(count(tk.drop_first(), has_message(style)) == 0);
        } else {
            let tr = pump(peek_event_step(style), rest);
            assert(!is_quit(style, e0));
            assert forall|i: int| 0 <= i < t.passes - 1 implies !is_quit(style, #[trigger] events[i]) by {
                if i > 0 {
                    assert(events[i] == rest[i - 1]);
                }
            }
            if tr.stopped {
                let j = choose|j: int| 0 <= j < rest.len() && is_quit(style, #[trigger] rest[j]);
                assert(events[j + 1] == rest[j]);
                assert(events[t.passes - 1] == rest[tr.passes - 1]);
            } else {
                assert forall|i: int| 0 <= i < events.len() implies !is_quit(style, #[trigger] events[i]) by {
                    if i > 0 {
                        assert(events[i] == rest[i - 1]);
                        assert(!is_quit(style, rest[i - 1]));
                    }
                }
            }
            let tk = events.take(t.passes as int);
            assert(tk.drop_first() =~= rest.take(tr.passes as int));
            assert(tk[0] == e0);
        }
    }
}

/// The waiting step over an answer of the wait.
pub open spec fn get_event_step() -> spec_fn(i32) -> PumpStep {
    |r: i32| get_step_spec(r)
}

/// The stopping law of the waiting loop: it dispatches one message for each
/// answer 1 until the first other answer, and ends there without dispatching;
/// it never draws.
pub proof fn lemma_get_pump(results: Seq<i32>)
    ensures
        ({
            let t = pump(get_event_step(), results);
            &&& t.stopped <==> exists|i: int| 0 <= i < results.len() && results[i] != 1
            &&& t.stopped ==> results[t.passes - 1] != 1 && t.dispatched == t.passes - 1
            &&& !t.stopped ==> t.passes == results.len() && t.dispatched == t.passes
            &&& forall|i: int| 0 <= i < t.passes - 1 ==> results[i] == 1
            &&& t.frames == 0
        }),
    decreases results.len(),
{
    if results.len() > 0 {
        let rest = results.drop_first();
        lemma_get_pump(rest);
        assert(get_event_step()(results[0]) == get_step_spec(results[0]));
        let t = pump(get_event_step(), results);
        let tr = pump(get_event_step(), rest);
        if results[0] == 1 {
            assert forall|i: int| 0 <= i < t.passes - 1 implies results[i] == 1 by {
                if i > 0 {
                    assert(results[i] == rest[i - 1]);
                }
            }
            if tr.stopped {
                let j = choose|j: int| 0 <= j < rest.len() && rest[j] != 1;
                assert(results[j + 1] == rest[j]);
                assert(results[t.passes - 1] == rest[tr.passes - 1]);
            } else {
                assert forall|i: int| 0 <= i < results.len() implies results[i] == 1 by {
                    if i > 0 {
                        assert(results[i] == rest[i - 1]);
                    }
                }
            }
        }
    }
}

} // verus!
