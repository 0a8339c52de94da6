//! Stepping through the iteration history of a finished run: the cursor over
//! the history, whether it is being animated, and which row of the iteration
//! table is highlighted.
//!
//! The history itself, and the time within an animation step, live in the
//! user interface; every operation here says what becomes of that time.
use vstd::prelude::*;

verus! {

/// What the user interface does with the time spent in the current animation step.
#[derive(Clone, Copy, Debug, PartialEq, Eq, Structural)]
pub enum Clock {
    /// Leave it as it is.
    Keep,
    /// Start the step over (the time within it becomes 0).
    Restart,
    /// Show the step as completed (the time within it becomes 1).
    Finish,
}

/// Which iterations the plot of the search interval shows.
#[derive(Clone, Copy, Debug, PartialEq, Eq, Structural)]
pub enum PlotFrame {
    /// No iteration is drawn.
    Nothing,
    /// The iteration at this index of the history.
    At(usize),
    /// A blend of the iteration at this index and the next one, by the time
    /// spent in the current animation step.
    Between(usize),
}

/// Cursor over an iteration history.
///
/// `current_step` counts the iterations already shown (0 to the length of the
/// history); `selected_iteration` is the highlighted row of the table.
#[derive(Clone, Copy, Debug, PartialEq, Eq, Structural)]
pub struct StepPlayer {
    pub current_step: usize,
    pub is_animating: bool,
    pub selected_iteration: Option<usize>,
}

impl StepPlayer {
    /// The cursor stays within a history of `steps` iterations.
    pub open spec fn within(self, steps: usize) -> bool {
        self.current_step <= steps
    }

    /// The state after a reset.
    pub open spec fn rewound() -> Self {
        StepPlayer { current_step: 0, is_animating: false, selected_iteration: None }
    }

    /// After a new run whose history has `steps` iterations: all of them are shown.
    pub open spec fn spec_show_result(self, steps: usize) -> Self {
        StepPlayer { current_step: steps, is_animating: false, ..self }
    }

    /// Start or pause the animation. `steps` is the length of the history, if
    /// there is a result; an animation that had reached the end starts again.
    pub open spec fn spec_toggle_play(self, steps: Option<usize>) -> (Self, Clock) {
        let restart = match steps {
            Some(n) => !self.is_animating && self.current_step >= n,
            None => false,
        };
        (
            StepPlayer {
                current_step: if restart { 0 } else { self.current_step },
                is_animating: !self.is_animating,
                selected_iteration: None,
            },
            if restart { Clock::Restart } else { Clock::Keep },
        )
    }

    /// One step forward by hand, if the end is not reached; the step just
    /// shown is highlighted and the animation pauses.
    pub open spec fn spec_step_forward(self, steps: Option<usize>) -> (Self, Clock) {
        match steps {
            Some(n) => if self.current_step < n {
                (
                    StepPlayer {
                        current_step: (self.current_step + 1) as usize,
                        is_animating: false,
                        selected_iteration: Some(self.current_step),
                    },
                    Clock::Restart,
                )
            } else {
                (self, Clock::Keep)
            },
            None => (self, Clock::Keep),
        }
    }

    /// Moving the step slider to `step`.
    pub open spec fn spec_seek(self, step: usize) -> Self {
        StepPlayer {
            current_step: step,
            is_animating: false,
            selected_iteration: if step > 0 { Some((step - 1) as usize) } else { None },
        }
    }

    /// Clicking the row `row` of the iteration table.
    pub open spec fn spec_select_row(self, row: usize) -> (Self, Clock) {
        (
            StepPlayer {
                current_step: (row + 1) as usize,
                is_animating: false,
                selected_iteration: Some(row),
            },
            Clock::Finish,
        )
    }

    /// A frame of the animation: when the current step's time has run out
    /// (`step_elapsed`), the next iteration is shown, or the animation stops
    /// at the end of the history.
    pub open spec fn spec_tick(self, steps: Option<usize>, step_elapsed: bool) -> (Self, Clock) {
        match steps {
            Some(n) => if self.is_animating && step_elapsed {
                if self.current_step < n {
                    (
                        StepPlayer { current_step: (self.current_step + 1) as usize, ..self },
                        Clock::Restart,
                    )
                } else {
                    (StepPlayer { is_animating: false, ..self }, Clock::Keep)
                }
            } else {
                (self, Clock::Keep)
            },
            None => (self, Clock::Keep),
        }
    }

    /// What the plot of the search interval shows for a history of `steps`
    /// iterations; `smooth` is whether animated steps are blended.
    pub open spec fn spec_plot_frame(self, steps: usize, smooth: bool) -> PlotFrame {
        if steps == 0 {
            PlotFrame::Nothing
        } else if self.is_animating && smooth && self.current_step + 1 < steps {
            PlotFrame::Between(self.current_step)
        } else if self.current_step == 0 {
            PlotFrame::At(0)
        } else if self.current_step - 1 < steps - 1 {
            PlotFrame::At((self.current_step - 1) as usize)
        } else {
            PlotFrame::At((steps - 1) as usize)
        }
    }

    /// Nothing shown, not animating, no row highlighted.
    pub fn new() -> (p: Self)
        ensures
            p == Self::rewound(),
    {
        StepPlayer { current_step: 0, is_animating: false, selected_iteration: None }
    }

    /// After a new run whose history has `steps` iterations: shows all of them.
    pub fn show_result(&mut self, steps: usize)
        ensures
            *final(self) == old(self).spec_show_result(steps),
    {
        self.current_step = steps;
        self.is_animating = false;
    }

    /// Starts or pauses the animation.
    pub fn toggle_play(&mut self, steps: Option<usize>) -> (c: Clock)
        ensures
            (*final(self), c) == old(self).spec_toggle_play(steps),
    {
        self.selected_iteration = None;
        let mut clock = Clock::Keep;
        if let Some(n) = steps {
            if !self.is_animating && self.current_step >= n {
                self.current_step = 0;
                clock = Clock::Restart;
            }
        }
        self.is_animating = !self.is_animating;
        clock
    }

    /// Shows one more iteration by hand, if there is one.
    pub fn step_forward(&mut self, steps: Option<usize>) -> (c: Clock)
        ensures
            (*final(self), c) == old(self).spec_step_forward(steps),
    {
        if let Some(n) = steps {
            if self.current_step < n {
                self.is_animating = false;
                self.current_step = self.current_step + 1;
                self.selected_iteration = Some(self.current_step - 1);
                return Clock::Restart;
            }
        }
        Clock::Keep
    }

    /// Back to the start: nothing shown, not animating, no row highlighted.
    pub fn reset(&mut self) -> (c: Clock)
        ensures
            *final(self) == Self::rewound(),
            c == Clock::Restart,
    {
        self.is_animating = false;
        self.current_step = 0;
        self.selected_iteration = None;
        Clock::Restart
    }

    /// The step slider was moved to `step`.
    pub fn seek(&mut self, step: usize)
        ensures
            *final(self) == old(self).spec_seek(step),
    {
        self.current_step = step;
        self.is_animating = false;
        self.selected_iteration = if step > 0 { Some(step - 1) } else { None };
    }

    /// The row `row` of a table of `steps` iterations was clicked.
    pub fn select_row(&mut self, row: usize, steps: usize) -> (c: Clock)
        requires
            row < steps,
        ensures
            (*final(self), c) == old(self).spec_select_row(row),
    {
        self.selected_iteration = Some(row);
        self.current_step = row + 1;
        self.is_animating = false;
        Clock::Finish
    }

    /// One frame of the animation.
    pub fn tick(&mut self, steps: Option<usize>, step_elapsed: bool) -> (c: Clock)
        ensures
            (*final(self), c) == old(self).spec_tick(steps, step_elapsed),
    {
        if let Some(n) = steps {
            if self.is_animating && step_elapsed {
                if self.current_step < n {
                    self.current_step = self.current_step + 1;
                    return Clock::Restart;
                } else {
                    self.is_animating = false;
                }
            }
        }
        Clock::Keep
    }

    /// Which iterations the plot shows.
    pub fn plot_frame(&self, steps: usize, smooth: bool) -> (f: PlotFrame)
        ensures
            f == self.spec_plot_frame(steps, smooth),
    {
        let step_idx = if self.current_step == 0 {
            0
        } else {
            let last = if steps >= 1 { steps - 1 } else { 0 };
            if self.current_step - 1 < last { self.current_step - 1 } else { last }
        };
        if step_idx < steps {
            let use_interp = self.is_animating && smooth && self.current_step < steps;
            if use_interp && self.current_step < steps - 1 {
                PlotFrame::Between(self.current_step)
            } else {
                PlotFrame::At(step_idx)
            }
        } else {
            PlotFrame::Nothing
        }
    }
}

/// The state after `k` manual steps forward through a history of `steps` iterations.
pub open spec fn forward_times(p: StepPlayer, steps: usize, k: nat) -> StepPlayer
    decreases k,
{
    if k == 0 {
        p
    } else {
        forward_times(p.spec_step_forward(Some(steps)).0, steps, (k - 1) as nat)
    }
}

/// The state after `k` animation frames, in each of which the step's time ran out.
pub open spec fn elapsed_ticks(p: StepPlayer, steps: usize, k: nat) -> StepPlayer
    decreases k,
{
    if k == 0 {
        p
    } else {
        elapsed_ticks(p.spec_tick(Some(steps), true).0, steps, (k - 1) as nat)
    }
}

/// Every operation keeps the cursor within the history: after a new run it
/// is at the end, and no later click, slider move (within the slider's range),
/// step or frame moves it past the end.
pub proof fn lemma_cursor_stays_within(p: StepPlayer, steps: usize, step: usize, row: usize, elapsed: bool)
    requires
        p.within(steps),
    ensures
        p.spec_show_result(steps).within(steps),
        StepPlayer::rewound().within(steps),
        p.spec_toggle_play(Some(steps)).0.within(steps),
        p.spec_toggle_play(None).0.within(steps),
        p.spec_step_forward(Some(steps)).0.within(steps),
        p.spec_step_forward(None).0.within(steps),
        p.spec_tick(Some(steps), elapsed).0.within(steps),
        p.spec_tick(None, elapsed).0.within(steps),
        step <= steps ==> p.spec_seek(step).within(steps),
        row < steps ==> p.spec_select_row(row).0.within(steps),
{
}

/// The plot only ever draws iterations that are in the history.
pub proof fn lemma_plot_frame_in_history(p: StepPlayer, steps: usize, smooth: bool)
    ensures
        p.spec_plot_frame(steps, smooth) matches PlotFrame::At(i) ==> i < steps,
        p.spec_plot_frame(steps, smooth) matches PlotFrame::Between(i) ==> i + 1 < steps,
        steps > 0 ==> p.spec_plot_frame(steps, smooth) != PlotFrame::Nothing,
        steps == 0 ==> p.spec_plot_frame(steps, smooth) == PlotFrame::Nothing,
{
}

/// Stepping by hand from the start shows one more iteration per step and
/// highlights it, until the whole history is shown; further steps change nothing.
pub proof fn lemma_forward_from_start(steps: usize, k: nat)
    ensures
        k <= steps ==> forward_times(StepPlayer::rewound(), steps, k) == (StepPlayer {
            current_step: k as usize,
            is_animating: false,
            selected_iteration: if k == 0 { None } else { Some((k - 1) as usize) },
        }),
        k > steps ==> forward_times(StepPlayer::rewound(), steps, k) == forward_times(
            StepPlayer::rewound(),
            steps,
            steps as nat,
        ),
    decreases k,
{
    if k > 0 {
        lemma_forward_from_start(steps, (k - 1) as nat);
        lemma_forward_append(StepPlayer::rewound(), steps, (k - 1) as nat);
        if k > steps {
            lemma_forward_from_start(steps, steps as nat);
        }
    }
}

/// `k + 1` steps are `k` steps followed by one more.
pub proof fn lemma_forward_append(p: StepPlayer, steps: usize, k: nat)
    ensures
        forward_times(p, steps, k + 1) == forward_times(p, steps, k).spec_step_forward(Some(steps)).0,
    decreases k,
{
    let next = p.spec_step_forward(Some(steps)).0;
    assert(forward_times(p, steps, k + 1) == forward_times(next, steps, k));
    if k > 0 {
        lemma_forward_append(next, steps, (k - 1) as nat);
        assert(forward_times(p, steps, k) == forward_times(next, steps, (k - 1) as nat));
    }
}

/// `k + 1` frames are `k` frames followed by one more.
pub proof fn lemma_ticks_append(p: StepPlayer, steps: usize, k: nat)
    ensures
        elapsed_ticks(p, steps, k + 1) == elapsed_ticks(p, steps, k).spec_tick(Some(steps), true).0,
    decreases k,
{
    let next = p.spec_tick(Some(steps), true).0;
    assert(elapsed_ticks(p, steps, k + 1) == elapsed_ticks(next, steps, k));
    if k > 0 {
        lemma_ticks_append(next, steps, (k - 1) as nat);
        assert(elapsed_ticks(p, steps, k) == elapsed_ticks(next, steps, (k - 1) as nat));
    }
}

/// An animation started with the play button runs through the whole history
/// one iteration per elapsed step, and stops at the end; started at the end,
/// it first goes back to the beginning.
pub proof fn lemma_animation_runs_to_end(p: StepPlayer, steps: usize, k: nat)
    requires
        p.within(steps),
        !p.is_animating,
    ensures
        ({
            let started = p.spec_toggle_play(Some(steps)).0;
            let first = started.current_step;
            &&& started.is_animating
            &&& (p.current_step == steps ==> first == 0)
            &&& (p.current_step < steps ==> first == p.current_step)
            &&& (first + k <= steps ==> elapsed_ticks(started, steps, k) == (StepPlayer {
                current_step: (first + k) as usize,
                ..started
            }))
            &&& (first + k > steps ==> elapsed_ticks(started, steps, k) == (StepPlayer {
                current_step: steps,
                is_animating: false,
                ..started
            }))
        }),
    decreases k,
{
    let started = p.spec_toggle_play(Some(steps)).0;
    if k > 0 {
        lemma_animation_runs_to_end(p, steps, (k - 1) as nat);
        lemma_ticks_append(started, steps, (k - 1) as nat);
    }
}

/// An animation frame in which the current step's time has not run out
/// changes nothing, and neither does any frame while paused or without a
/// result. A frame whose step time has run out while animating shows the next
/// iteration and starts its time over, or, at the end of the history, stops
/// the animation in place.
pub proof fn lemma_tick_waits_for_step_time(p: StepPlayer, steps: Option<usize>, elapsed: bool)
    ensures
        p.spec_tick(steps, false) == (p, Clock::Keep),
        !p.is_animating ==> p.spec_tick(steps, elapsed) == (p, Clock::Keep),
        steps is None ==> p.spec_tick(steps, elapsed) == (p, Clock::Keep),
        p.is_animating && elapsed && steps is Some && p.current_step < steps.unwrap() ==> {
            let (q, c) = p.spec_tick(steps, elapsed);
            &&& q.current_step == p.current_step + 1
            &&& q.is_animating
            &&& q.selected_iteration == p.selected_iteration
            &&& c == Clock::Restart
        },
        p.is_animating && elapsed && steps is Some && p.current_step >= steps.unwrap() ==> {
            let (q, c) = p.spec_tick(steps, elapsed);
            &&& q.current_step == p.current_step
            &&& !q.is_animating
            &&& q.selected_iteration == p.selected_iteration
            &&& c == Clock::Keep
        },
{
}

/// Without blending (paused, smooth movement off, or no iteration after the
/// cursor) the plot draws the last
/// iteration shown: the one before the cursor, cut at the end of the history,
/// or the first one when nothing is shown yet; the smooth flag then makes no
/// difference. While animating smoothly with an iteration after the cursor, it
/// blends the iteration at the cursor into the next one.
pub proof fn lemma_plot_frame_shows_last_shown(p: StepPlayer, steps: usize, smooth: bool)
    requires
        steps > 0,
    ensures
        !p.is_animating ==> p.spec_plot_frame(steps, true) == p.spec_plot_frame(steps, false),
        !(p.is_animating && smooth && p.current_step + 1 < steps) ==> p.spec_plot_frame(steps, smooth) == PlotFrame::At(
            if p.current_step == 0 {
                0usize
            } else if p.current_step <= steps {
                (p.current_step - 1) as usize
            } else {
                (steps - 1) as usize
            },
        ),
        p.is_animating && smooth && p.current_step + 1 < steps ==> p.spec_plot_frame(steps, smooth)
            == PlotFrame::Between(p.current_step),
{
}

/// Clicking a row puts the cursor just after it and highlights it, pauses,
/// and shows the step completed, whatever the state before.
pub proof fn lemma_select_row_jumps_to_row(p: StepPlayer, q: StepPlayer, row: usize)
    requires
        row < usize::MAX,
    ensures
        p.spec_select_row(row).0.current_step == row + 1,
        p.spec_select_row(row).0.selected_iteration == Some(row),
        !p.spec_select_row(row).0.is_animating,
        p.spec_select_row(row).1 == Clock::Finish,
        p.spec_select_row(row) == q.spec_select_row(row),
{
}

/// Moving the slider puts the cursor exactly on the chosen step, pauses, and
/// highlights the iteration just before it (none at step 0), whatever the
/// state before.
pub proof fn lemma_seek_goes_to_step(p: StepPlayer, q: StepPlayer, step: usize)
    ensures
        p.spec_seek(step).current_step == step,
        !p.spec_seek(step).is_animating,
        step > 0 ==> p.spec_seek(step).selected_iteration == Some((step - 1) as usize),
        step == 0 ==> p.spec_seek(step).selected_iteration is None,
        p.spec_seek(step) == q.spec_seek(step),
{
}

/// A manual step forward shows exactly one more iteration, highlights it,
/// pauses and starts the step's time over; at the end, or without a result,
/// it changes nothing.
pub proof fn lemma_step_forward_one_more(p: StepPlayer, steps: Option<usize>)
    ensures
        steps is Some && p.current_step < steps.unwrap() ==> {
            let (q, c) = p.spec_step_forward(steps);
            &&& q.current_step == p.current_step + 1
            &&& !q.is_animating
            &&& q.selected_iteration == Some(p.current_step)
            &&& c == Clock::Restart
        },
        steps is Some && p.current_step >= steps.unwrap() ==> p.spec_step_forward(steps) == (p, Clock::Keep),
        steps is None ==> p.spec_step_forward(steps) == (p, Clock::Keep),
{
}

/// Play/pause flips the animation and clears the highlight; it keeps the
/// cursor, except that starting at (or past) the end of the history goes back
/// to the first iteration and starts the step's time over.
pub proof fn lemma_toggle_play_flips(p: StepPlayer, steps: Option<usize>)
    ensures
        ({
            let (q, c) = p.spec_toggle_play(steps);
            let restart = !p.is_animating && (steps is Some && p.current_step >= steps.unwrap());
            &&& q.is_animating == !p.is_animating
            &&& q.selected_iteration is None
            &&& restart ==> q.current_step == 0 && c == Clock::Restart
            &&& !restart ==> q.current_step == p.current_step && c == Clock::Keep
        }),
{
}

/// After a run all its iterations are shown, paused, with the highlight kept;
/// a reset goes back to nothing shown, paused, nothing highlighted.
pub proof fn lemma_show_result_and_reset(p: StepPlayer, steps: usize)
    ensures
        p.spec_show_result(steps).current_step == steps,
        !p.spec_show_result(steps).is_animating,
        p.spec_show_result(steps).selected_iteration == p.selected_iteration,
        StepPlayer::rewound().current_step == 0,
        !StepPlayer::rewound().is_animating,
        StepPlayer::rewound().selected_iteration is None,
{
}

} // verus!
