use optimization_lab::playback::{Clock, PlotFrame, StepPlayer};

fn player(current_step: usize, is_animating: bool, selected_iteration: Option<usize>) -> StepPlayer {
    StepPlayer { current_step, is_animating, selected_iteration }
}

#[test]
fn new_player_is_at_start() {
    assert_eq!(StepPlayer::new(), player(0, false, None));
}

#[test]
fn show_result_jumps_to_end() {
    let mut p = player(2, true, Some(1));
    p.show_result(7);
    assert_eq!(p, player(7, false, Some(1)));
}

#[test]
fn play_at_end_restarts() {
    let mut p = player(5, false, Some(4));
    assert_eq!(p.toggle_play(Some(5)), Clock::Restart);
    assert_eq!(p, player(0, true, None));
}

#[test]
fn play_in_middle_keeps_position_and_pause_keeps_it_too() {
    let mut p = player(2, false, Some(1));
    assert_eq!(p.toggle_play(Some(5)), Clock::Keep);
    assert_eq!(p, player(2, true, None));
    assert_eq!(p.toggle_play(Some(5)), Clock::Keep);
    assert_eq!(p, player(2, false, None));
}

#[test]
fn play_without_result_only_flips() {
    let mut p = player(3, false, Some(0));
    assert_eq!(p.toggle_play(None), Clock::Keep);
    assert_eq!(p, player(3, true, None));
}

#[test]
fn step_forward_shows_and_highlights_next() {
    let mut p = player(0, true, None);
    assert_eq!(p.step_forward(Some(2)), Clock::Restart);
    assert_eq!(p, player(1, false, Some(0)));
    assert_eq!(p.step_forward(Some(2)), Clock::Restart);
    assert_eq!(p, player(2, false, Some(1)));
    assert_eq!(p.step_forward(Some(2)), Clock::Keep);
    assert_eq!(p, player(2, false, Some(1)));
}

#[test]
fn step_forward_without_result_does_nothing() {
    let mut p = player(0, true, None);
    assert_eq!(p.step_forward(None), Clock::Keep);
    assert_eq!(p, player(0, true, None));
}

#[test]
fn reset_goes_back_to_start() {
    let mut p = player(4, true, Some(3));
    assert_eq!(p.reset(), Clock::Restart);
    assert_eq!(p, player(0, false, None));
}

#[test]
fn seek_highlights_previous_row() {
    let mut p = player(0, true, None);
    p.seek(3);
    assert_eq!(p, player(3, false, Some(2)));
    p.seek(0);
    assert_eq!(p, player(0, false, None));
}

#[test]
fn select_row_shows_that_iteration() {
    let mut p = player(0, true, None);
    assert_eq!(p.select_row(2, 4), Clock::Finish);
    assert_eq!(p, player(3, false, Some(2)));
}

#[test]
fn tick_advances_until_end_then_stops() {
    let mut p = player(0, false, None);
    p.toggle_play(Some(2));
    assert_eq!(p.tick(Some(2), false), Clock::Keep);
    assert_eq!(p, player(0, true, None));
    assert_eq!(p.tick(Some(2), true), Clock::Restart);
    assert_eq!(p, player(1, true, None));
    assert_eq!(p.tick(Some(2), true), Clock::Restart);
    assert_eq!(p, player(2, true, None));
    assert_eq!(p.tick(Some(2), true), Clock::Keep);
    assert_eq!(p, player(2, false, None));
    assert_eq!(p.tick(Some(2), true), Clock::Keep);
    assert_eq!(p, player(2, false, None));
}

#[test]
fn tick_without_result_or_when_paused_does_nothing() {
    let mut p = player(1, true, None);
    assert_eq!(p.tick(None, true), Clock::Keep);
    assert_eq!(p, player(1, true, None));
    let mut q = player(1, false, None);
    assert_eq!(q.tick(Some(3), true), Clock::Keep);
    assert_eq!(q, player(1, false, None));
}

#[test]
fn plot_frame_static_shows_previous_iteration() {
    assert_eq!(player(0, false, None).plot_frame(4, true), PlotFrame::At(0));
    assert_eq!(player(3, false, None).plot_frame(4, true), PlotFrame::At(2));
    assert_eq!(player(4, false, None).plot_frame(4, true), PlotFrame::At(3));
    assert_eq!(player(9, false, None).plot_frame(4, true), PlotFrame::At(3));
}

#[test]
fn plot_frame_animated_blends_towards_next() {
    assert_eq!(player(0, true, None).plot_frame(4, true), PlotFrame::Between(0));
    assert_eq!(player(2, true, None).plot_frame(4, true), PlotFrame::Between(2));
    assert_eq!(player(3, true, None).plot_frame(4, true), PlotFrame::At(2));
    assert_eq!(player(2, true, None).plot_frame(4, false), PlotFrame::At(1));
}

#[test]
fn plot_frame_empty_history_draws_nothing() {
    assert_eq!(player(0, false, None).plot_frame(0, true), PlotFrame::Nothing);
    assert_eq!(player(3, true, None).plot_frame(0, true), PlotFrame::Nothing);
}

#[test]
fn cursor_never_passes_end() {
    let n = 3;
    let mut p = StepPlayer::new();
    for _ in 0..10 {
        p.step_forward(Some(n));
        assert!(p.current_step <= n);
    }
    assert_eq!(p, player(3, false, Some(2)));
    p.toggle_play(Some(n));
    for _ in 0..10 {
        p.tick(Some(n), true);
        assert!(p.current_step <= n);
    }
    assert_eq!(p, player(3, false, None));
}
