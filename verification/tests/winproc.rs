use d3d_window::winproc::{window_proc, ProcCall, ProcResult, WindowProc, WM_DESTROY, WM_QUIT};

#[test]
fn message_ids_are_the_system_values() {
    assert_eq!(WM_DESTROY, 0x0002);
    assert_eq!(WM_QUIT, 0x0012);
}

#[test]
fn window_proc_handles_destroy() {
    let a = window_proc(WM_DESTROY);
    assert_eq!(a.calls, vec![ProcCall::PostQuitMessage(0)]);
    assert_eq!(a.result, ProcResult::Value(0));
}

#[test]
fn window_proc_defers_other_messages() {
    for msg in [0u32, 1, 3, WM_QUIT, 0x000F, 0x0100, u32::MAX] {
        let a = window_proc(msg);
        assert_eq!(a.calls, vec![ProcCall::DefWindowProc]);
        assert_eq!(a.result, ProcResult::FromDefault);
    }
}

#[test]
fn pass_through_proc_posts_quit_before_deferring_destroy() {
    let a = WindowProc(WM_DESTROY);
    assert_eq!(a.calls, vec![ProcCall::PostQuitMessage(0), ProcCall::DefWindowProc]);
    assert_eq!(a.result, ProcResult::FromDefault);
}

#[test]
fn pass_through_proc_defers_other_messages() {
    for msg in [0u32, 1, 3, WM_QUIT, 0x0200, u32::MAX] {
        let a = WindowProc(msg);
        assert_eq!(a.calls, vec![ProcCall::DefWindowProc]);
        assert_eq!(a.result, ProcResult::FromDefault);
    }
}
