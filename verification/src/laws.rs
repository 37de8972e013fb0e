//! Properties of the controller that span calls, or hold of every state.
use vstd::prelude::*;

use crate::logic::{
    clock_period, elapsed, led_level, mic_should_be_on, ControllerView, Edges, Input, State, BLINK_MS, DEBOUNCE_MS, GAP_MS, HOLD_MS, SYNC_MS,
    TIMER_MS,
};

verus! {

/// Every clock reading moved `k` milliseconds later on the wrapping clock.
#[verifier::opaque]
pub open spec fn later(t: u32, k: u32) -> u32 {
    t.wrapping_add(k)
}

/// The same sample, taken `k` milliseconds later.
pub open spec fn input_later(i: Input, k: u32) -> Input {
    Input { now: later(i.now, k), ..i }
}

/// The same controller with every time stamp it keeps moved `k` milliseconds
/// later.
pub open spec fn controller_later(c: ControllerView, k: u32) -> ControllerView {
    ControllerView {
        press_start: later(c.press_start, k),
        timer_start: later(c.timer_start, k),
        gap_start: later(c.gap_start, k),
        btn1_change_at: later(c.btn1_change_at, k),
        btn2_change_at: later(c.btn2_change_at, k),
        mismatch_since: later(c.mismatch_since, k),
        ..c
    }
}

/// Elapsed time does not change when both readings move by the same amount.
pub proof fn lemma_elapsed_later(now: u32, since: u32, k: u32)
    ensures
        elapsed(later(now, k), later(since, k)) == elapsed(now, since),
{
    reveal(later);
}

proof fn lemma_debounce_later(c: ControllerView, i: Input, k: u32)
    ensures
        controller_later(c, k).debounce(input_later(i, k)) == controller_later(c.debounce(i), k),
        controller_later(c, k).edges(input_later(i, k)) == c.edges(i),
        controller_later(c, k).sampled(input_later(i, k)) == controller_later(c.sampled(i), k),
{
    lemma_elapsed_later(i.now, i.now, k);
    lemma_elapsed_later(i.now, c.btn1_change_at, k);
    lemma_elapsed_later(i.now, c.btn2_change_at, k);
}

#[verifier::rlimit(40)]
proof fn lemma_transition_later(c: ControllerView, e: Edges, i: Input, k: u32)
    ensures
        controller_later(c, k).transition(e, input_later(i, k)).0
            == controller_later(c.transition(e, i).0, k),
        controller_later(c, k).transition(e, input_later(i, k)).1 == c.transition(e, i).1,
{
    reveal(ControllerView::transition);
    lemma_elapsed_later(i.now, c.press_start, k);
    lemma_elapsed_later(i.now, c.timer_start, k);
    lemma_elapsed_later(i.now, c.gap_start, k);
    match c.state {
        State::Idle => {},
        State::Pressing => {},
        State::Timed => {},
        State::Held => {},
        State::SuppressedUntilRelease => {},
        State::Gap => {},
    }
}

proof fn lemma_sync_later(c: ControllerView, i: Input, k: u32)
    ensures
        controller_later(c, k).sync(input_later(i, k)).0 == controller_later(c.sync(i).0, k),
        controller_later(c, k).sync(input_later(i, k)).1 == c.sync(i).1,
        led_level(c.state, i.now, c.timer_start)
            == led_level(c.state, later(i.now, k), later(c.timer_start, k)),
{
    lemma_elapsed_later(i.now, c.mismatch_since, k);
    lemma_elapsed_later(i.now, c.timer_start, k);
}

/// The controller only ever looks at differences of clock readings: moving
/// every reading by the same amount, across the wrap of the clock too, gives
/// the same output and the same state, moved by that amount.
pub proof fn law_time_shift(c: ControllerView, i: Input, k: u32)
    ensures
        controller_later(c, k).step(input_later(i, k)).0 == controller_later(c.step(i).0, k),
        controller_later(c, k).step(input_later(i, k)).1 == c.step(i).1,
{
    lemma_debounce_later(c, i, k);
    let d = c.sampled(i);
    lemma_transition_later(d, c.edges(i), i, k);
    let t = c.moved(i).0;
    lemma_sync_later(t, i, k);
    lemma_sync_later(t.sync(i).0, i, k);
}

/// Debouncing: the debounced level of a button changes only to a raw level
/// that was already there before this sample and has held for at least
/// `DEBOUNCE_MS`; a change of the raw level never gets through on the sample
/// that brings it.
pub proof fn law_debounce(c: ControllerView, i: Input)
    ensures
        c.step(i).0.stable_btn1 != c.stable_btn1 ==> {
            &&& c.step(i).0.stable_btn1 == i.btn1
            &&& i.btn1 == c.raw_btn1
            &&& elapsed(i.now, c.btn1_change_at) >= DEBOUNCE_MS as int
        },
        c.step(i).0.stable_btn2 != c.stable_btn2 ==> {
            &&& c.step(i).0.stable_btn2 == i.btn2
            &&& i.btn2 == c.raw_btn2
            &&& elapsed(i.now, c.btn2_change_at) >= DEBOUNCE_MS as int
        },
{
    reveal(ControllerView::transition);
}

/// A press is recognised once: after an update that saw a button go down,
/// the next update sees no press of that button, whatever it samples.
pub proof fn law_press_recognised_once(c: ControllerView, i1: Input, i2: Input)
    ensures
        c.edges(i1).pressed1 ==> !c.step(i1).0.edges(i2).pressed1,
        c.edges(i1).pressed2 ==> !c.step(i1).0.edges(i2).pressed2,
{
    reveal(ControllerView::transition);
}

/// Idle with the mic off: the only click is the one for a press of button 2
/// alone; any press starts Pressing, otherwise the controller stays idle.
pub proof fn law_idle_clicks_only_for_button2(c: ControllerView, i: Input)
    requires
        c.state == State::Idle,
        !i.mic_on,
    ensures
        c.step(i).1.click == (c.edges(i).pressed2 && !c.edges(i).pressed1),
        c.step(i).0.state == (if c.edges(i).any_pressed() { State::Pressing } else { State::Idle }),
{
    reveal(ControllerView::transition);
}

/// Button 1 toggles the mic by itself, so its press never makes the mode
/// transition click; the only click in such an update is the closing click
/// of a gap, or a sync correction.
pub proof fn law_button1_press_never_clicks(c: ControllerView, i: Input)
    requires
        c.edges(i).pressed1,
        c.state != State::Gap,
    ensures
        !c.moved(i).1,
{
    reveal(ControllerView::transition);
}

/// One press of button 2, one mode: from Pressing the controller goes to
/// Held only while a button is still down and the press has lasted
/// `HOLD_MS`, and to Timed or Idle only once all buttons are up; Idle only
/// for a retrigger by button 1 while the mic was on.
pub proof fn law_one_press_one_mode(c: ControllerView, i: Input)
    requires
        c.state == State::Pressing,
    ensures
        ({
            let n = c.step(i).0.state;
            let e = c.edges(i);
            let d = c.sampled(i);
            &&& n == State::Pressing || n == State::Held || n == State::Timed || n == State::Idle
            &&& n == State::Held <==> (!e.all_released(d.stable_btn1, d.stable_btn2)
                && elapsed(i.now, c.press_start) >= HOLD_MS as int)
            &&& (n == State::Timed || n == State::Idle) <==> e.all_released(d.stable_btn1, d.stable_btn2)
            &&& n == State::Idle ==> c.was_active && c.mic_on_at_press && c.physical_toggle
        }),
{
    reveal(ControllerView::transition);
}

/// The timer: in Timed with no new press, the controller turns the mic off
/// with a click exactly when `TIMER_MS` have passed since the timer started;
/// before that only a sync correction can click.
pub proof fn law_timer_expiry(c: ControllerView, i: Input)
    requires
        c.state == State::Timed,
        !c.edges(i).any_pressed(),
    ensures
        ({
            let expired = elapsed(i.now, c.timer_start) >= TIMER_MS as int;
            &&& c.step(i).0.state == (if expired { State::Idle } else { State::Timed })
            &&& expired ==> c.step(i).1.click
            &&& !expired && c.step(i).1.click ==> c.mismatch_active
                && elapsed(i.now, c.mismatch_since) >= SYNC_MS as int
        }),
{
    reveal(ControllerView::transition);
}

/// A new press of button 2 in Timed wins over the timer's expiry in the same
/// update: the controller starts a retrigger press without a click.
pub proof fn law_retrigger_wins_over_expiry(c: ControllerView, i: Input)
    requires
        c.state == State::Timed,
        c.edges(i).pressed2,
        !c.edges(i).pressed1,
    ensures
        c.step(i).0.state == State::Pressing,
        c.step(i).0.press_start == i.now,
        c.step(i).0.was_active,
        c.step(i).0.mic_on_at_press == i.mic_on,
        !c.step(i).0.physical_toggle,
        !c.step(i).1.click,
{
    reveal(ControllerView::transition);
}

/// A retrigger by button 2 that found the mic on restarts the timer on
/// release, without a click.
pub proof fn law_retrigger_restarts_timer(c: ControllerView, i: Input)
    requires
        c.state == State::Pressing,
        c.was_active,
        c.mic_on_at_press,
        !c.physical_toggle,
        c.edges(i).all_released(c.sampled(i).stable_btn1, c.sampled(i).stable_btn2),
    ensures
        c.step(i).0.state == State::Timed,
        c.step(i).0.timer_start == i.now,
        !c.moved(i).1,
{
    reveal(ControllerView::transition);
}

/// The gap after a long press ends with a click exactly when `GAP_MS` have
/// passed since it began.
pub proof fn law_gap_expiry(c: ControllerView, i: Input)
    requires
        c.state == State::Gap,
    ensures
        ({
            let expired = elapsed(i.now, c.gap_start) >= GAP_MS as int;
            &&& c.step(i).0.state == (if expired { State::Idle } else { State::Gap })
            &&& expired ==> c.step(i).1.click
        }),
{
    reveal(ControllerView::transition);
}

/// Button 1 during a long press: the controller suppresses the release click.
pub proof fn law_button1_during_hold_suppresses(c: ControllerView, i: Input)
    requires
        c.state == State::Held,
        c.edges(i).pressed1,
    ensures
        c.step(i).0.state == State::SuppressedUntilRelease,
        !c.moved(i).1,
{
    reveal(ControllerView::transition);
}

/// While suppressed with the mic off, the controller never clicks; it waits
/// for button 2 to be up (debounced) and then goes back to Idle.
pub proof fn law_suppressed_stays_silent(c: ControllerView, i: Input)
    requires
        c.state == State::SuppressedUntilRelease,
        !i.mic_on,
    ensures
        !c.step(i).1.click,
        c.step(i).0.state == (if c.sampled(i).stable_btn2 {
            State::SuppressedUntilRelease
        } else {
            State::Idle
        }),
{
    reveal(ControllerView::transition);
}

/// Mic sync: a correction click needs a mismatch that was already pending
/// for at least `SYNC_MS`; a mode that agrees with the mic clears any pending
/// mismatch without a click.
pub proof fn law_sync_tolerance(c: ControllerView, i: Input)
    ensures
        ({
            let t = c.moved(i).0;
            &&& t.sync(i).1 ==> c.mismatch_active && t.mismatch(i)
                && elapsed(i.now, c.mismatch_since) >= SYNC_MS as int
            &&& !t.mismatch(i) ==> !t.sync(i).1 && !c.step(i).0.mismatch_active
            &&& t.mismatch(i) <==> (i.mic_on != mic_should_be_on(c.step(i).0.state)
                && c.step(i).0.state != State::Pressing)
        }),
{
    reveal(ControllerView::transition);
}

/// No two sync corrections in a row: after a correction click the next
/// update cannot correct again.
pub proof fn law_no_back_to_back_sync(c: ControllerView, i1: Input, i2: Input)
    requires
        c.moved(i1).0.sync(i1).1,
    ensures
        !c.step(i1).0.moved(i2).0.sync(i2).1,
{
    reveal(ControllerView::transition);
}

/// Mic sync, what each update does with the mic's report: the mic should be
/// on exactly in Timed, Held and Gap, and Pressing is exempt. A disagreement
/// seen for the first time starts the tolerance period at this sample; one
/// that has been pending for at least `SYNC_MS` is corrected by a click and
/// cleared; one pending for less stays pending from its start; agreement
/// clears it.
pub proof fn law_sync_corrects_persistent_mismatch(c: ControllerView, i: Input)
    ensures
        ({
            let n = c.step(i).0;
            let should_be_on = n.state == State::Timed || n.state == State::Held
                || n.state == State::Gap;
            let disagree = i.mic_on != should_be_on && n.state != State::Pressing;
            let pending_long = c.mismatch_active
                && elapsed(i.now, c.mismatch_since) >= SYNC_MS as int;
            &&& disagree && pending_long ==> c.step(i).1.click && !n.mismatch_active
            &&& disagree && !c.mismatch_active ==> n.mismatch_active && n.mismatch_since == i.now
            &&& disagree && c.mismatch_active && !pending_long ==> n.mismatch_active
                && n.mismatch_since == c.mismatch_since
            &&& !disagree ==> !n.mismatch_active
        }),
{
    reveal(ControllerView::transition);
    lemma_transition_frame_laws(c.sampled(i), c.edges(i), i);
}

proof fn lemma_transition_frame_laws(c: ControllerView, e: Edges, i: Input)
    ensures
        c.transition(e, i).0.mismatch_active == c.mismatch_active,
        c.transition(e, i).0.mismatch_since == c.mismatch_since,
{
    reveal(ControllerView::transition);
}

/// The status LED in each mode: off in Idle and while suppressed, lit while
/// pressing, held and in the gap.
pub proof fn law_led_steady_modes(now: u32, ts: u32)
    ensures
        !led_level(State::Idle, now, ts),
        !led_level(State::SuppressedUntilRelease, now, ts),
        led_level(State::Pressing, now, ts),
        led_level(State::Held, now, ts),
        led_level(State::Gap, now, ts),
{
}

/// While the timer runs the LED blinks: lit for the first `BLINK_MS` after
/// the timer starts, and `BLINK_MS` later it always shows the other level
/// (as long as the clock has not come round to the timer's start again).
pub proof fn law_led_blinks_in_timed(now: u32, ts: u32)
    ensures
        elapsed(now, ts) < BLINK_MS as int ==> led_level(State::Timed, now, ts),
        elapsed(now, ts) + (BLINK_MS as int) < clock_period() ==> led_level(
            State::Timed,
            now.wrapping_add(BLINK_MS),
            ts,
        ) == !led_level(State::Timed, now, ts),
{
    let e = elapsed(now, ts);
    let b = BLINK_MS as int;
    if e + b < clock_period() {
        assert(elapsed(now.wrapping_add(BLINK_MS), ts) == e + b);
        assert(0 <= e);
        assert((e + b) / b == e / b + 1) by (nonlinear_arith)
            requires
                b == 500,
                0 <= e,
        ;
        assert(((e / b + 1) % 2 == 0) == !((e / b) % 2 == 0)) by (nonlinear_arith)
            requires
                0 <= e / b,
        ;
    }
    if e < b {
        assert(e / b == 0) by (nonlinear_arith)
            requires
                b == 500,
                0 <= e < b,
        ;
    }
}

/// Debouncing, the other direction: the raw level is always recorded; a
/// change of it restarts its clock at this sample and leaves the debounced
/// level alone; a raw level that has held for `DEBOUNCE_MS` becomes the
/// debounced level.
pub proof fn law_debounce_adopts_steady_level(c: ControllerView, i: Input)
    ensures
        ({
            let n = c.step(i).0;
            &&& n.raw_btn1 == i.btn1 && n.raw_btn2 == i.btn2
            &&& i.btn1 != c.raw_btn1 ==> n.btn1_change_at == i.now && n.stable_btn1 == c.stable_btn1
            &&& i.btn2 != c.raw_btn2 ==> n.btn2_change_at == i.now && n.stable_btn2 == c.stable_btn2
            &&& i.btn1 == c.raw_btn1 ==> n.btn1_change_at == c.btn1_change_at
            &&& i.btn2 == c.raw_btn2 ==> n.btn2_change_at == c.btn2_change_at
            &&& i.btn1 == c.raw_btn1 && elapsed(i.now, c.btn1_change_at) >= DEBOUNCE_MS as int
                ==> n.stable_btn1 == i.btn1
            &&& i.btn2 == c.raw_btn2 && elapsed(i.now, c.btn2_change_at) >= DEBOUNCE_MS as int
                ==> n.stable_btn2 == i.btn2
        }),
{
    reveal(ControllerView::transition);
}

/// In a well-formed controller the edges of an update are exactly the
/// changes of the debounced levels across it.
pub proof fn law_edges_are_level_changes(c: ControllerView, i: Input)
    requires
        c.wf(),
    ensures
        ({
            let n = c.step(i).0;
            let e = c.edges(i);
            &&& e.pressed1 <==> (n.stable_btn1 && !c.stable_btn1)
            &&& e.released1 <==> (!n.stable_btn1 && c.stable_btn1)
            &&& e.pressed2 <==> (n.stable_btn2 && !c.stable_btn2)
            &&& e.released2 <==> (!n.stable_btn2 && c.stable_btn2)
            &&& e.all_released(c.sampled(i).stable_btn1, c.sampled(i).stable_btn2) <==> (
                (e.released1 && !n.stable_btn2) || (e.released2 && !n.stable_btn1))
        }),
{
    reveal(ControllerView::transition);
}

/// A press from Idle records when it started, whether the mic was on, and
/// whether it was button 1; nothing else in the controller's mode changes.
pub proof fn law_idle_press_records(c: ControllerView, i: Input)
    requires
        c.state == State::Idle,
        c.edges(i).any_pressed(),
    ensures
        ({
            let n = c.step(i).0;
            &&& n.state == State::Pressing
            &&& n.press_start == i.now
            &&& !n.was_active
            &&& n.mic_on_at_press == i.mic_on
            &&& n.physical_toggle == c.edges(i).pressed1
            &&& n.timer_start == c.timer_start && n.gap_start == c.gap_start
        }),
{
    reveal(ControllerView::transition);
}

/// Releasing a press: a retrigger by button 1 while the mic was on goes to
/// Idle; every other release starts the timer at this sample. The release
/// clicks exactly for a retrigger by button 2 that found the mic off.
pub proof fn law_pressing_release(c: ControllerView, i: Input)
    requires
        c.state == State::Pressing,
        c.edges(i).all_released(c.sampled(i).stable_btn1, c.sampled(i).stable_btn2),
    ensures
        ({
            let n = c.step(i).0;
            let to_idle = c.was_active && c.mic_on_at_press && c.physical_toggle;
            &&& n.state == (if to_idle { State::Idle } else { State::Timed })
            &&& !to_idle ==> n.timer_start == i.now
            &&& c.moved(i).1 == (c.was_active && !c.mic_on_at_press && !c.physical_toggle)
        }),
{
    reveal(ControllerView::transition);
}

/// A press that goes on without release stays Pressing until `HOLD_MS`
/// have passed since it started, without a click (in a well-formed
/// controller, where no mismatch is pending while pressing).
pub proof fn law_pressing_hold(c: ControllerView, i: Input)
    requires
        c.state == State::Pressing,
        !c.edges(i).all_released(c.sampled(i).stable_btn1, c.sampled(i).stable_btn2),
    ensures
        c.step(i).0.state == (if elapsed(i.now, c.press_start) >= HOLD_MS as int {
            State::Held
        } else {
            State::Pressing
        }),
        !c.moved(i).1,
        c.wf() ==> !c.step(i).1.click,
{
    reveal(ControllerView::transition);
}

/// Releasing a long press starts the gap at this sample, without a click;
/// while a button is still down (and button 1 is not pressed anew) the
/// controller stays Held.
pub proof fn law_held_release_starts_gap(c: ControllerView, i: Input)
    requires
        c.state == State::Held,
        !c.edges(i).pressed1,
    ensures
        ({
            let rel = c.edges(i).all_released(c.sampled(i).stable_btn1, c.sampled(i).stable_btn2);
            &&& c.step(i).0.state == (if rel { State::Gap } else { State::Held })
            &&& rel ==> c.step(i).0.gap_start == i.now
            &&& !c.moved(i).1
        }),
{
    reveal(ControllerView::transition);
}

/// A press of button 1 while the timer runs ends it without a click from the
/// mode change.
pub proof fn law_button1_ends_timer(c: ControllerView, i: Input)
    requires
        c.state == State::Timed,
        c.edges(i).pressed1,
    ensures
        c.step(i).0.state == State::Idle,
        !c.moved(i).1,
{
    reveal(ControllerView::transition);
}

/// Elapsed time counts forward on the wrapping clock: `d` milliseconds after
/// `since` (wrapping past the top of the clock) the elapsed time is `d`.
pub proof fn law_elapsed_counts_forward(since: u32, d: u32)
    ensures
        elapsed(since.wrapping_add(d), since) == d,
{
}

/// A fresh controller is idle, with both buttons up in every stage of the
/// debouncer and no mismatch pending.
pub proof fn law_initial_is_quiet()
    ensures
        ({
            let c = ControllerView::initial();
            &&& c.state == State::Idle
            &&& !c.raw_btn1 && !c.raw_btn2 && !c.stable_btn1 && !c.stable_btn2
            &&& !c.last_btn1 && !c.last_btn2
            &&& !c.mismatch_active
        }),
{
}

} // verus!
