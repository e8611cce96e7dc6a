use d3d_window::msgloop::{get_loop_step, peek_loop_step, PeekStyle, PumpStep};
use d3d_window::winproc::{WM_DESTROY, WM_QUIT};

fn step(dispatch: bool, stop: bool, render: bool) -> PumpStep {
    PumpStep { dispatch, stop, render }
}

#[test]
fn rendering_loop_draws_when_queue_is_empty() {
    assert_eq!(peek_loop_step(PeekStyle::RenderEachPass, 0, WM_QUIT), step(false, false, true));
}

#[test]
fn rendering_loop_dispatches_and_draws() {
    assert_eq!(peek_loop_step(PeekStyle::RenderEachPass, 1, WM_DESTROY), step(true, false, true));
    assert_eq!(peek_loop_step(PeekStyle::RenderEachPass, 5, 0x0100), step(true, false, true));
}

#[test]
fn rendering_loop_stops_on_quit_after_dispatching_it() {
    assert_eq!(peek_loop_step(PeekStyle::RenderEachPass, 1, WM_QUIT), step(true, true, false));
    assert_eq!(peek_loop_step(PeekStyle::RenderEachPass, -1, WM_QUIT), step(true, true, false));
}

#[test]
fn polling_loop_takes_only_true_as_a_message() {
    assert_eq!(peek_loop_step(PeekStyle::MessagesOnly, 1, 0x0100), step(true, false, false));
    assert_eq!(peek_loop_step(PeekStyle::MessagesOnly, 2, WM_QUIT), step(false, false, false));
    assert_eq!(peek_loop_step(PeekStyle::MessagesOnly, 0, WM_QUIT), step(false, false, false));
    assert_eq!(peek_loop_step(PeekStyle::MessagesOnly, 1, WM_QUIT), step(true, true, false));
}

#[test]
fn waiting_loop_goes_on_only_on_one() {
    assert_eq!(get_loop_step(1), step(true, false, false));
    assert_eq!(get_loop_step(0), step(false, true, false));
    assert_eq!(get_loop_step(-1), step(false, true, false));
    assert_eq!(get_loop_step(2), step(false, true, false));
}

#[test]
fn a_run_of_passes_stops_at_the_first_quit() {
    // (poll result, message) answers of a session
    let answers = [(0, 0), (1, 0x0100), (0, 0x0100), (1, WM_DESTROY), (1, WM_QUIT), (1, 0x0100)];
    let (mut passes, mut dispatched, mut frames) = (0, 0, 0);
    for (r, m) in answers {
        let s = peek_loop_step(PeekStyle::RenderEachPass, r, m);
        passes += 1;
        if s.dispatch {
            dispatched += 1;
        }
        if s.render {
            frames += 1;
        }
        if s.stop {
            break;
        }
    }
    assert_eq!((passes, dispatched, frames), (5, 3, 4));
}

#[test]
fn waiting_loop_dispatches_until_first_other_answer() {
    let answers = [1, 1, 1, 0, 1];
    let (mut passes, mut dispatched) = (0, 0);
    for r in answers {
        let s = get_loop_step(r);
        passes += 1;
        assert!(!s.render);
        if s.dispatch {
            dispatched += 1;
        }
        if s.stop {
            break;
        }
    }
    assert_eq!((passes, dispatched), (4, 3));
}

#[test]
fn polling_loop_without_quit_runs_through_all_answers() {
    let answers = [(1, WM_DESTROY), (0, 0), (2, WM_QUIT)];
    let steps: Vec<PumpStep> =
        answers.iter().map(|&(r, m)| peek_loop_step(PeekStyle::MessagesOnly, r, m)).collect();
    assert!(steps.iter().all(|s| !s.stop && !s.render));
    assert_eq!(steps.iter().filter(|s| s.dispatch).count(), 1);
}
