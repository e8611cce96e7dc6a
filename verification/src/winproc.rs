//! What the window procedure does with a message.
use vstd::prelude::*;

verus! {

/// Message sent to a window that is being destroyed.
pub const WM_DESTROY: u32 = 0x0002;

/// Message that makes the message loop end.
pub const WM_QUIT: u32 = 0x0012;

/// How a program's window procedure treats the destroy message.
#[derive(Debug, Clone, Copy, PartialEq, Eq, Structural)]
pub enum ProcKind {
    /// Handles it and returns 0 (`window_proc`).
    HandleDestroy,
    /// Posts the quit request and still hands it to the default procedure
    /// (`WindowProc`).
    PassThrough,
}

/// A system call the procedure makes, with its arguments.
#[derive(Debug, Clone, Copy, PartialEq, Eq, Structural)]
pub enum ProcCall {
    /// Post a quit request with this exit code.
    PostQuitMessage(i32),
    /// Hand the message, with the window and both parameters unchanged, to the
    /// system's default window procedure.
    DefWindowProc,
}

/// What the procedure returns to the system.
#[derive(Debug, Clone, Copy, PartialEq, Eq, Structural)]
pub enum ProcResult {
    /// This value.
    Value(isize),
    /// Whatever the default window procedure returned.
    FromDefault,
}

/// Everything the procedure does for one message: the calls, in this order,
/// then the result.
#[derive(Debug, PartialEq, Eq)]
pub struct ProcAction {
    pub calls: Vec<ProcCall>,
    pub result: ProcResult,
}

/// The procedure that handles the destroy message itself: for it, a quit
/// request with exit code 0 is posted and 0 is returned; every other message
/// is handed to the default procedure, whose result is returned.
pub fn window_proc(msg: u32) -> (action: ProcAction)
    ensures
        msg == WM_DESTROY ==> action.calls@ == seq![ProcCall::PostQuitMessage(0)] && action.result
            == ProcResult::Value(0),
        msg != WM_DESTROY ==> action.calls@ == seq![ProcCall::DefWindowProc] && action.result
            == ProcResult::FromDefault,
{
    let mut calls: Vec<ProcCall> = Vec::new();
    if msg == WM_DESTROY {
        calls.push(ProcCall::PostQuitMessage(0));
        proof {
            assert(calls@ =~= seq![ProcCall::PostQuitMessage(0)]);
        }
        ProcAction { calls, result: ProcResult::Value(0) }
    } else {
        calls.push(ProcCall::DefWindowProc);
        proof {
            assert(calls@ =~= seq![ProcCall::DefWindowProc]);
        }
        ProcAction { calls, result: ProcResult::FromDefault }
    }
}

/// The procedure that, for the destroy message, first posts a quit request
/// with exit code 0 and then hands the message to the default procedure; every
/// other message only goes to the default procedure. The default procedure's
/// result is returned in both cases.
#[allow(non_snake_case)]
pub fn WindowProc(msg: u32) -> (action: ProcAction)
    ensures
        msg == WM_DESTROY ==> action.calls@ == seq![
            ProcCall::PostQuitMessage(0),
            ProcCall::DefWindowProc,
        ],
        msg != WM_DESTROY ==> action.calls@ == seq![ProcCall::DefWindowProc],
        action.result == ProcResult::FromDefault,
{
    let mut calls: Vec<ProcCall> = Vec::new();
    if msg == WM_DESTROY {
        calls.push(ProcCall::PostQuitMessage(0));
    }
    calls.push(ProcCall::DefWindowProc);
    proof {
        if msg == WM_DESTROY {
            assert(calls@ =~= seq![ProcCall::PostQuitMessage(0), ProcCall::DefWindowProc]);
        } else {
            assert(calls@ =~= seq![ProcCall::DefWindowProc]);
        }
    }
    ProcAction { calls, result: ProcResult::FromDefault }
}

} // verus!
