use vstd::prelude::*;

verus! {

/// A press held at least this long is a long press.
pub const HOLD_MS: u32 = 500;

/// How long the mic stays on after a short press.
pub const TIMER_MS: u32 = 10_000;

/// Length of the pulse that emulates one press on the mic's own button.
pub const CLICK_MS: u32 = 100;

/// Half period of the LED blink while the timer runs.
pub const BLINK_MS: u32 = 500;

/// A raw button level counts once it has held this long.
pub const DEBOUNCE_MS: u32 = 30;

/// Pause after a long press before the closing click.
pub const GAP_MS: u32 = 200;

/// How long a mismatch between mic and controller is tolerated.
pub const SYNC_MS: u32 = 500;

/// ADC midpoint between mic-off (about 2.7 V, raw about 552) and
/// mic-on (about 3.7 V, raw about 757) with VCC = 5 V as reference.
pub const ADC_MIC_THRESHOLD: u16 = 655;

/// Convert a 10-bit ADC reading (VCC reference) to a mic-on boolean.
pub fn mic_on_from_adc(raw: u16) -> (on: bool)
    ensures
        on <==> raw > ADC_MIC_THRESHOLD,
{
    raw > ADC_MIC_THRESHOLD
}

// ---------------------------------------------------------------------------
// Time on a millisecond clock that wraps around at 2^32.
// ---------------------------------------------------------------------------

/// Number of distinct readings of the millisecond clock.
pub open spec fn clock_period() -> int {
    0x1_0000_0000
}

/// Milliseconds from `since` to `now` on the wrapping clock.
pub open spec fn elapsed(now: u32, since: u32) -> int {
    if now >= since {
        now - since
    } else {
        now - since + clock_period()
    }
}

/// The wrapping difference the executable code computes is the elapsed time.
pub proof fn lemma_wrapping_sub_is_elapsed(now: u32, since: u32)
    ensures
        now.wrapping_sub(since) as int == elapsed(now, since),
        0 <= elapsed(now, since) < clock_period(),
{
}

/// True when at least `ms` milliseconds have passed from `since` to `now`,
/// counted on the wrapping clock.
pub fn deadline_reached(now: u32, since: u32, ms: u32) -> (reached: bool)
    ensures
        reached <==> elapsed(now, since) >= ms,
{
    proof {
        lemma_wrapping_sub_is_elapsed(now, since);
    }
    now.wrapping_sub(since) >= ms
}

// ---------------------------------------------------------------------------
// Inputs, outputs and states.
// ---------------------------------------------------------------------------

/// One sample of the world, taken once per loop iteration.
pub struct Input {
    /// Current reading of the millisecond clock.
    pub now: u32,
    /// Raw level of button 1 (the mic's own button), `true` = pressed.
    pub btn1: bool,
    /// Raw level of button 2 (the timer button), `true` = pressed.
    pub btn2: bool,
    /// Whether the mic currently reports that it is on.
    pub mic_on: bool,
}

/// What the controller asks the hardware to do.
pub struct Output {
    /// Emit one click on the mic's button (toggles the mic).
    pub click: bool,
    /// Level of the status LED.
    pub led: bool,
}

/// The controller's mode.
#[derive(Debug, Clone, Copy, PartialEq, Eq, Structural)]
pub enum State {
    Idle,
    Pressing,
    Timed,
    Held,
    /// Button 1 was pressed while in Held: suppress the release click until
    /// Button 2 is released, then return to Idle without another click.
    SuppressedUntilRelease,
    Gap,
}

/// The states in which the mic is meant to be on.
pub open spec fn mic_should_be_on(state: State) -> bool {
    state == State::Timed || state == State::Held || state == State::Gap
}

/// Level of the status LED in `state`; while the timer runs it blinks with
/// half period `BLINK_MS`, starting lit when the timer starts.
pub open spec fn led_level(state: State, now: u32, timer_start: u32) -> bool {
    match state {
        State::Idle => false,
        State::Pressing => true,
        State::Held => true,
        State::Gap => true,
        State::SuppressedUntilRelease => false,
        State::Timed => (elapsed(now, timer_start) / (BLINK_MS as int)) % 2 == 0,
    }
}

/// Button edges seen in one update, after debouncing.
pub struct Edges {
    pub pressed1: bool,
    pub released1: bool,
    pub pressed2: bool,
    pub released2: bool,
}

impl Edges {
    pub open spec fn any_pressed(self) -> bool {
        self.pressed1 || self.pressed2
    }

    /// One button was released while the other one is up as well.
    pub open spec fn all_released(self, stable1: bool, stable2: bool) -> bool {
        (self.released1 && !stable2) || (self.released2 && !stable1)
    }
}

/// The abstract state of a controller.
pub struct ControllerView {
    pub state: State,
    pub press_start: u32,
    pub timer_start: u32,
    pub gap_start: u32,
    pub was_active: bool,
    pub mic_on_at_press: bool,
    pub physical_toggle: bool,
    pub raw_btn1: bool,
    pub raw_btn2: bool,
    pub stable_btn1: bool,
    pub stable_btn2: bool,
    pub last_btn1: bool,
    pub last_btn2: bool,
    pub btn1_change_at: u32,
    pub btn2_change_at: u32,
    pub mismatch_since: u32,
    pub mismatch_active: bool,
}

impl ControllerView {
    /// The state of a freshly made controller.
    pub open spec fn initial() -> ControllerView {
        ControllerView {
            state: State::Idle,
            press_start: 0,
            timer_start: 0,
            gap_start: 0,
            was_active: false,
            mic_on_at_press: false,
            physical_toggle: false,
            raw_btn1: false,
            raw_btn2: false,
            stable_btn1: false,
            stable_btn2: false,
            last_btn1: false,
            last_btn2: false,
            btn1_change_at: 0,
            btn2_change_at: 0,
            mismatch_since: 0,
            mismatch_active: false,
        }
    }

    /// What every update leaves behind: the edge detector has caught up with
    /// the debounced levels, and no mismatch is pending while pressing.
    pub open spec fn wf(self) -> bool {
        &&& self.last_btn1 == self.stable_btn1
        &&& self.last_btn2 == self.stable_btn2
        &&& self.state == State::Pressing ==> !self.mismatch_active
    }

    /// Debouncing: a raw level that changes restarts its clock; the stable
    /// level takes the raw level once it has held `DEBOUNCE_MS`.
    pub open spec fn debounce(self, i: Input) -> ControllerView {
        let at1 = if i.btn1 != self.raw_btn1 { i.now } else { self.btn1_change_at };
        let at2 = if i.btn2 != self.raw_btn2 { i.now } else { self.btn2_change_at };
        ControllerView {
            raw_btn1: i.btn1,
            btn1_change_at: at1,
            stable_btn1: if elapsed(i.now, at1) >= DEBOUNCE_MS as int { i.btn1 } else { self.stable_btn1 },
            raw_btn2: i.btn2,
            btn2_change_at: at2,
            stable_btn2: if elapsed(i.now, at2) >= DEBOUNCE_MS as int { i.btn2 } else { self.stable_btn2 },
            ..self
        }
    }

    /// The edges of the debounced levels against those of the last update.
    pub open spec fn edges(self, i: Input) -> Edges {
        let d = self.debounce(i);
        Edges {
            pressed1: d.stable_btn1 && !self.last_btn1,
            released1: !d.stable_btn1 && self.last_btn1,
            pressed2: d.stable_btn2 && !self.last_btn2,
            released2: !d.stable_btn2 && self.last_btn2,
        }
    }

    /// Debounced, with the edge detector caught up.
    pub open spec fn sampled(self, i: Input) -> ControllerView {
        let d = self.debounce(i);
        ControllerView { last_btn1: d.stable_btn1, last_btn2: d.stable_btn2, ..d }
    }

    /// The mode transition on edges `e`, and whether it clicks.
    /// Kept opaque so that proofs that do not need the mode table stay small;
    /// `reveal` it to compute a transition.
    #[verifier::opaque]
    pub open spec fn transition(self, e: Edges, i: Input) -> (ControllerView, bool) {
        let now = i.now;
        match self.state {
            State::Idle => {
                if e.any_pressed() {
                    (ControllerView {
                        press_start: now,
                        was_active: false,
                        mic_on_at_press: i.mic_on,
                        physical_toggle: e.pressed1,
                        state: State::Pressing,
                        ..self
                    }, !e.pressed1)
                } else {
                    (self, false)
                }
            },
            State::Pressing => {
                if e.all_released(self.stable_btn1, self.stable_btn2) {
                    if self.was_active && self.mic_on_at_press {
                        // A retrigger while the mic was on: no click; button 1
                        // ends in Idle, button 2 restarts the timer.
                        if self.physical_toggle {
                            (ControllerView { state: State::Idle, ..self }, false)
                        } else {
                            (ControllerView { timer_start: now, state: State::Timed, ..self }, false)
                        }
                    } else {
                        // The timer starts; a retrigger that found the mic
                        // off clicks.
                        (ControllerView { timer_start: now, state: State::Timed, ..self },
                         self.was_active && !self.physical_toggle)
                    }
                } else if elapsed(now, self.press_start) >= HOLD_MS as int {
                    (ControllerView { state: State::Held, ..self }, false)
                } else {
                    (self, false)
                }
            },
            State::Timed => {
                if e.pressed1 {
                    (ControllerView { state: State::Idle, ..self }, false)
                } else if e.pressed2 {
                    (ControllerView {
                        press_start: now,
                        was_active: true,
                        mic_on_at_press: i.mic_on,
                        physical_toggle: false,
                        state: State::Pressing,
                        ..self
                    }, false)
                } else if elapsed(now, self.timer_start) >= TIMER_MS as int {
                    (ControllerView { state: State::Idle, ..self }, true)
                } else {
                    (self, false)
                }
            },
            State::Held => {
                if e.pressed1 {
                    (ControllerView { state: State::SuppressedUntilRelease, ..self }, false)
                } else if e.all_released(self.stable_btn1, self.stable_btn2) {
                    (ControllerView { gap_start: now, state: State::Gap, ..self }, false)
                } else {
                    (self, false)
                }
            },
            State::SuppressedUntilRelease => {
                if !self.stable_btn2 {
                    (ControllerView { state: State::Idle, ..self }, false)
                } else {
                    (self, false)
                }
            },
            State::Gap => {
                if elapsed(now, self.gap_start) >= GAP_MS as int {
                    (ControllerView { state: State::Idle, ..self }, true)
                } else {
                    (self, false)
                }
            },
        }
    }

    /// Whether the mic's reported level disagrees with the mode, in a mode
    /// where that is checked.
    pub open spec fn mismatch(self, i: Input) -> bool {
        i.mic_on != mic_should_be_on(self.state) && self.state != State::Pressing
    }

    /// Mic sync: a mismatch that persists `SYNC_MS` is corrected by a click.
    pub open spec fn sync(self, i: Input) -> (ControllerView, bool) {
        if self.mismatch(i) {
            if !self.mismatch_active {
                (ControllerView { mismatch_since: i.now, mismatch_active: true, ..self }, false)
            } else if elapsed(i.now, self.mismatch_since) >= SYNC_MS as int {
                (ControllerView { mismatch_active: false, ..self }, true)
            } else {
                (self, false)
            }
        } else {
            (ControllerView { mismatch_active: false, ..self }, false)
        }
    }

    /// The mode transition of one update.
    pub open spec fn moved(self, i: Input) -> (ControllerView, bool) {
        self.sampled(i).transition(self.edges(i), i)
    }

    /// One update: the next state and the output.
    pub open spec fn step(self, i: Input) -> (ControllerView, Output) {
        let t = self.moved(i);
        let s = t.0.sync(i);
        (s.0, Output { click: t.1 || s.1, led: led_level(s.0.state, i.now, s.0.timer_start) })
    }
}

/// The mode transition leaves the button filters and the sync bookkeeping
/// as they were.
proof fn lemma_transition_frame(c: ControllerView, e: Edges, i: Input)
    ensures
        ({
            let t = c.transition(e, i).0;
            &&& t.raw_btn1 == c.raw_btn1 && t.raw_btn2 == c.raw_btn2
            &&& t.stable_btn1 == c.stable_btn1 && t.stable_btn2 == c.stable_btn2
            &&& t.last_btn1 == c.last_btn1 && t.last_btn2 == c.last_btn2
            &&& t.btn1_change_at == c.btn1_change_at && t.btn2_change_at == c.btn2_change_at
            &&& t.mismatch_active == c.mismatch_active && t.mismatch_since == c.mismatch_since
        }),
{
    reveal(ControllerView::transition);
}

/// Every update leaves the controller well formed, whatever state it
/// started from.
pub proof fn law_update_establishes_wf(c: ControllerView, i: Input)
    ensures
        c.step(i).0.wf(),
{
    lemma_transition_frame(c.sampled(i), c.edges(i), i);
}

/// A fresh controller is well formed.
pub proof fn law_initial_wf()
    ensures
        ControllerView::initial().wf(),
{
}

/// The mic button controller. Its abstract state is `ControllerView`.
pub struct Controller {
    pub state: State,
    press_start: u32,
    timer_start: u32,
    gap_start: u32,
    was_active: bool,
    mic_on_at_press: bool,
    physical_toggle: bool,
    raw_btn1: bool,
    raw_btn2: bool,
    stable_btn1: bool,
    stable_btn2: bool,
    last_btn1: bool,
    last_btn2: bool,
    btn1_change_at: u32,
    btn2_change_at: u32,
    mismatch_since: u32,
    mismatch_active: bool,
}

impl View for Controller {
    type V = ControllerView;

    closed spec fn view(&self) -> ControllerView {
        ControllerView {
            state: self.state,
            press_start: self.press_start,
            timer_start: self.timer_start,
            gap_start: self.gap_start,
            was_active: self.was_active,
            mic_on_at_press: self.mic_on_at_press,
            physical_toggle: self.physical_toggle,
            raw_btn1: self.raw_btn1,
            raw_btn2: self.raw_btn2,
            stable_btn1: self.stable_btn1,
            stable_btn2: self.stable_btn2,
            last_btn1: self.last_btn1,
            last_btn2: self.last_btn2,
            btn1_change_at: self.btn1_change_at,
            btn2_change_at: self.btn2_change_at,
            mismatch_since: self.mismatch_since,
            mismatch_active: self.mismatch_active,
        }
    }
}

impl Controller {
    /// A controller in Idle, both buttons up, no mismatch pending.
    pub fn new() -> (c: Self)
        ensures
            c@ == ControllerView::initial(),
            c@.state == State::Idle,
    {
        Controller {
            state: State::Idle,
            press_start: 0,
            timer_start: 0,
            gap_start: 0,
            was_active: false,
            mic_on_at_press: false,
            physical_toggle: false,
            raw_btn1: false,
            raw_btn2: false,
            stable_btn1: false,
            stable_btn2: false,
            last_btn1: false,
            last_btn2: false,
            btn1_change_at: 0,
            btn2_change_at: 0,
            mismatch_since: 0,
            mismatch_active: false,
        }
    }

    /// Debounce both buttons against this sample.
    fn debounce(&mut self, input: &Input)
        ensures
            final(self)@ == old(self)@.debounce(*input),
    {
        let now = input.now;
        let at1 = if input.btn1 != self.raw_btn1 { now } else { self.btn1_change_at };
        let stable1 = if deadline_reached(now, at1, DEBOUNCE_MS) { input.btn1 } else { self.stable_btn1 };
        let at2 = if input.btn2 != self.raw_btn2 { now } else { self.btn2_change_at };
        let stable2 = if deadline_reached(now, at2, DEBOUNCE_MS) { input.btn2 } else { self.stable_btn2 };
        self.raw_btn1 = input.btn1;
        self.btn1_change_at = at1;
        self.stable_btn1 = stable1;
        self.raw_btn2 = input.btn2;
        self.btn2_change_at = at2;
        self.stable_btn2 = stable2;
    }

    /// Run the mode transition on the edges of this sample.
    fn transition(&mut self, e: &Edges, input: &Input) -> (click: bool)
        ensures
            (final(self)@, click) == old(self)@.transition(*e, *input),
    {
        reveal(ControllerView::transition);
        let now = input.now;
        let mut click = false;
        let any_pressed = e.pressed1 || e.pressed2;
        let all_released = (e.released1 && !self.stable_btn2) || (e.released2 && !self.stable_btn1);
        match self.state {
            State::Idle => {
                if any_pressed {
                    self.press_start = now;
                    self.was_active = false;
                    self.mic_on_at_press = input.mic_on;
                    self.physical_toggle = e.pressed1;
                    if !e.pressed1 {
                        click = true;
                    }
                    self.state = State::Pressing;
                }
            },
            State::Pressing => {
                if all_released {
                    if self.was_active && self.mic_on_at_press {
                        // Mic was already on when the retrigger press started:
                        // no toggle click, just restart the timer. A press of
                        // button 1 goes directly to Idle.
                        if self.physical_toggle {
                            self.state = State::Idle;
                        } else {
                            self.timer_start = now;
                            self.state = State::Timed;
                        }
                    } else {
                        // Mic was off (or first press): start the timer; click
                        // only when a retrigger found the mic off.
                        if !self.physical_toggle {
                            if self.was_active {
                                click = true;
                            }
                        }
                        self.timer_start = now;
                        self.state = State::Timed;
                    }
                } else if deadline_reached(now, self.press_start, HOLD_MS) {
                    self.state = State::Held;
                }
            },
            State::Timed => {
                if e.pressed1 {
                    self.state = State::Idle;
                } else if e.pressed2 {
                    self.press_start = now;
                    self.was_active = true;
                    self.mic_on_at_press = input.mic_on;
                    self.physical_toggle = false;
                    self.state = State::Pressing;
                } else if deadline_reached(now, self.timer_start, TIMER_MS) {
                    click = true;
                    self.state = State::Idle;
                }
            },
            State::Held => {
                if e.pressed1 {
                    // Button 1 physically toggled the mic off; suppress the
                    // release click so it is not turned back on.
                    self.state = State::SuppressedUntilRelease;
                } else if all_released {
                    self.gap_start = now;
                    self.state = State::Gap;
                }
            },
            State::SuppressedUntilRelease => {
                // Wait until button 2 is released, then go back to Idle
                // without a click (the mic is already off via button 1).
                if !self.stable_btn2 {
                    self.state = State::Idle;
                }
            },
            State::Gap => {
                if deadline_reached(now, self.gap_start, GAP_MS) {
                    click = true;
                    self.state = State::Idle;
                }
            },
        }
        click
    }

    /// Mic sync: correct a mismatch after `SYNC_MS` tolerance.
    fn sync(&mut self, input: &Input) -> (click: bool)
        ensures
            (final(self)@, click) == old(self)@.sync(*input),
    {
        let now = input.now;
        let mic_should_be_on = match self.state {
            State::Timed => true,
            State::Held => true,
            State::Gap => true,
            _ => false,
        };
        let pressing = match self.state {
            State::Pressing => true,
            _ => false,
        };
        let mut click = false;
        if input.mic_on != mic_should_be_on && !pressing {
            if !self.mismatch_active {
                self.mismatch_since = now;
                self.mismatch_active = true;
            } else if deadline_reached(now, self.mismatch_since, SYNC_MS) {
                click = true;
                self.mismatch_active = false;
            }
        } else {
            self.mismatch_active = false;
        }
        click
    }

    /// Level of the status LED for the current mode.
    fn led(&self, now: u32) -> (on: bool)
        ensures
            on == led_level(self@.state, now, self@.timer_start),
    {
        proof {
            lemma_wrapping_sub_is_elapsed(now, self.timer_start);
        }
        match self.state {
            State::Idle => false,
            State::Pressing => true,
            State::Held => true,
            State::Gap => true,
            State::SuppressedUntilRelease => false,
            State::Timed => (now.wrapping_sub(self.timer_start) / BLINK_MS) % 2 == 0,
        }
    }

    /// Advance the controller by one sample of the world.
    pub fn update(&mut self, input: &Input) -> (out: Output)
        ensures
            (final(self)@, out) == old(self)@.step(*input),
            final(self)@.wf(),
            out.led == led_level(final(self)@.state, input.now, final(self)@.timer_start),
    {
        let ghost pre = self@;
        self.debounce(input);
        let e = Edges {
            pressed1: self.stable_btn1 && !self.last_btn1,
            released1: !self.stable_btn1 && self.last_btn1,
            pressed2: self.stable_btn2 && !self.last_btn2,
            released2: !self.stable_btn2 && self.last_btn2,
        };
        self.last_btn1 = self.stable_btn1;
        self.last_btn2 = self.stable_btn2;
        let moved_click = self.transition(&e, input);
        let sync_click = self.sync(input);
        let led = self.led(input.now);
        proof {
            law_update_establishes_wf(pre, *input);
        }
        Output { click: moved_click || sync_click, led }
    }
}

} // verus!
