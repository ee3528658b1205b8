//! Button debouncing, LED blink patterns and button event dispatch.
//!
//! The pin levels are read and written by the caller; this module decides
//! what the debounced buttons report and what each LED should show.

use vstd::prelude::*;
use crate::error::HalError;
use crate::types::{ButtonState, GpioPin, LedState};

verus! {

/// Button debounce time in milliseconds
pub const BUTTON_DEBOUNCE_MS: u32 = 20;

/// LED blink periods in milliseconds
pub const BLINK_FAST_MS: u32 = 200;
pub const BLINK_SLOW_MS: u32 = 1000;
pub const BLINK_HEARTBEAT_ON_MS: u32 = 100;
pub const BLINK_HEARTBEAT_OFF_MS: u32 = 900;

/// `a - b`, or 0 when `b > a`.
pub open spec fn sat_sub(a: u32, b: u32) -> u32 {
    if a >= b { (a - b) as u32 } else { 0u32 }
}

/// The debounced state that a raw level stands for (true = pressed).
pub open spec fn state_of(raw: bool) -> ButtonState {
    if raw { ButtonState::Pressed } else { ButtonState::Released }
}

/// Button input state tracking
#[derive(Clone, Copy)]
pub struct ButtonInputState {
    /// Current debounced state
    pub current_state: ButtonState,
    /// Raw input state
    pub raw_state: bool,
    /// Debounce timer
    pub debounce_timer_ms: u32,
    /// Press event flag
    pub pressed_event: bool,
    /// Release event flag
    pub released_event: bool,
}

impl ButtonInputState {
    /// The state after one debounce step with input `raw` after
    /// `elapsed_ms`: a change of the raw input restarts the debounce timer,
    /// and once the timer has run out the debounced state follows the raw
    /// input, raising a press or release event on a change.
    pub open spec fn stepped(self, raw: bool, elapsed_ms: u32) -> Self {
        let timer1 = sat_sub(self.debounce_timer_ms, elapsed_ms);
        let raw2 = raw;
        let timer2 = if raw != self.raw_state { BUTTON_DEBOUNCE_MS } else { timer1 };
        if timer2 == 0 {
            let new_state = state_of(raw2);
            ButtonInputState {
                current_state: new_state,
                raw_state: raw2,
                debounce_timer_ms: timer2,
                pressed_event: self.pressed_event
                    || (self.current_state == ButtonState::Released && new_state == ButtonState::Pressed),
                released_event: self.released_event
                    || (self.current_state == ButtonState::Pressed && new_state == ButtonState::Released),
            }
        } else {
            ButtonInputState { raw_state: raw2, debounce_timer_ms: timer2, ..self }
        }
    }

    /// A released button with no pending event and no debounce running.
    pub open spec fn initial() -> Self {
        ButtonInputState {
            current_state: ButtonState::Released,
            raw_state: false,
            debounce_timer_ms: 0,
            pressed_event: false,
            released_event: false,
        }
    }

    pub fn new() -> (s: Self)
        ensures
            s == Self::initial(),
    {
        Self {
            current_state: ButtonState::Released,
            raw_state: false,
            debounce_timer_ms: 0,
            pressed_event: false,
            released_event: false,
        }
    }

    /// Update button state with debouncing
    pub fn update(&mut self, raw_input: bool, elapsed_ms: u32)
        ensures
            *final(self) == old(self).stepped(raw_input, elapsed_ms),
    {
        if self.debounce_timer_ms > 0 {
            self.debounce_timer_ms = self.debounce_timer_ms.saturating_sub(elapsed_ms);
        }
        if raw_input != self.raw_state {
            self.raw_state = raw_input;
            self.debounce_timer_ms = BUTTON_DEBOUNCE_MS;
        }
        if self.debounce_timer_ms == 0 {
            let new_state = if self.raw_state { ButtonState::Pressed } else { ButtonState::Released };
            match (self.current_state, new_state) {
                (ButtonState::Released, ButtonState::Pressed) => {
                    self.pressed_event = true;
                },
                (ButtonState::Pressed, ButtonState::Released) => {
                    self.released_event = true;
                },
                _ => {},
            }
            self.current_state = new_state;
        }
    }

    /// Check and clear press event
    pub fn take_press_event(&mut self) -> (r: bool)
        ensures
            r == old(self).pressed_event,
            *final(self) == (ButtonInputState { pressed_event: false, ..*old(self) }),
    {
        if self.pressed_event {
            self.pressed_event = false;
            true
        } else {
            false
        }
    }

    /// Check and clear release event
    pub fn take_release_event(&mut self) -> (r: bool)
        ensures
            r == old(self).released_event,
            *final(self) == (ButtonInputState { released_event: false, ..*old(self) }),
    {
        if self.released_event {
            self.released_event = false;
            true
        } else {
            false
        }
    }
}

/// LED output state tracking
#[derive(Clone, Copy)]
pub struct LedOutputState {
    /// Current LED state
    pub state: LedState,
    /// Blink timer
    pub blink_timer_ms: u32,
    /// Current physical output state
    pub output_state: bool,
    /// Blink phase (for heartbeat pattern)
    pub blink_phase: bool,
}

impl LedOutputState {
    /// The LED after `elapsed_ms` more milliseconds: steady patterns drive
    /// the output directly, blink patterns toggle it each time their timer
    /// runs out, and the heartbeat alternates a short on phase with a long
    /// off phase.
    pub open spec fn advanced(self, elapsed_ms: u32) -> Self {
        match self.state {
            LedState::Off => LedOutputState { output_state: false, ..self },
            LedState::On => LedOutputState { output_state: true, ..self },
            LedState::BlinkSlow => {
                let t = sat_sub(self.blink_timer_ms, elapsed_ms);
                if t == 0 {
                    LedOutputState { output_state: !self.output_state, blink_timer_ms: BLINK_SLOW_MS, ..self }
                } else {
                    LedOutputState { blink_timer_ms: t, ..self }
                }
            },
            LedState::BlinkFast => {
                let t = sat_sub(self.blink_timer_ms, elapsed_ms);
                if t == 0 {
                    LedOutputState { output_state: !self.output_state, blink_timer_ms: BLINK_FAST_MS, ..self }
                } else {
                    LedOutputState { blink_timer_ms: t, ..self }
                }
            },
            LedState::Heartbeat => {
                let t = sat_sub(self.blink_timer_ms, elapsed_ms);
                if t == 0 {
                    if self.blink_phase {
                        LedOutputState { output_state: false, blink_timer_ms: BLINK_HEARTBEAT_OFF_MS, blink_phase: false, ..self }
                    } else {
                        LedOutputState { output_state: true, blink_timer_ms: BLINK_HEARTBEAT_ON_MS, blink_phase: true, ..self }
                    }
                } else {
                    LedOutputState { blink_timer_ms: t, ..self }
                }
            },
        }
    }

    /// The LED after switching to `new_state`; selecting the current
    /// pattern again changes nothing.
    pub open spec fn with_pattern(self, new_state: LedState) -> Self {
        if new_state == self.state {
            self
        } else {
            match new_state {
                LedState::Off => LedOutputState { state: new_state, output_state: false, ..self },
                LedState::On => LedOutputState { state: new_state, output_state: true, ..self },
                LedState::BlinkSlow => LedOutputState { state: new_state, blink_timer_ms: BLINK_SLOW_MS, output_state: true, ..self },
                LedState::BlinkFast => LedOutputState { state: new_state, blink_timer_ms: BLINK_FAST_MS, output_state: true, ..self },
                LedState::Heartbeat => LedOutputState {
                    state: new_state,
                    blink_timer_ms: BLINK_HEARTBEAT_ON_MS,
                    output_state: true,
                    blink_phase: true,
                },
            }
        }
    }

    /// An LED that is off.
    pub open spec fn initial() -> Self {
        LedOutputState { state: LedState::Off, blink_timer_ms: 0, output_state: false, blink_phase: false }
    }

    pub fn new() -> (s: Self)
        ensures
            s == Self::initial(),
    {
        Self { state: LedState::Off, blink_timer_ms: 0, output_state: false, blink_phase: false }
    }

    /// Update LED state and blink timing; returns whether the output changed
    pub fn update(&mut self, elapsed_ms: u32) -> (changed: bool)
        ensures
            *final(self) == old(self).advanced(elapsed_ms),
            changed == (final(self).output_state != old(self).output_state),
    {
        let previous_output = self.output_state;
        match self.state {
            LedState::Off => {
                self.output_state = false;
            },
            LedState::On => {
                self.output_state = true;
            },
            LedState::BlinkSlow => {
                self.blink_timer_ms = self.blink_timer_ms.saturating_sub(elapsed_ms);
                if self.blink_timer_ms == 0 {
                    self.output_state = !self.output_state;
                    self.blink_timer_ms = BLINK_SLOW_MS;
                }
            },
            LedState::BlinkFast => {
                self.blink_timer_ms = self.blink_timer_ms.saturating_sub(elapsed_ms);
                if self.blink_timer_ms == 0 {
                    self.output_state = !self.output_state;
                    self.blink_timer_ms = BLINK_FAST_MS;
                }
            },
            LedState::Heartbeat => {
                self.blink_timer_ms = self.blink_timer_ms.saturating_sub(elapsed_ms);
                if self.blink_timer_ms == 0 {
                    if self.blink_phase {
                        self.output_state = false;
                        self.blink_timer_ms = BLINK_HEARTBEAT_OFF_MS;
                        self.blink_phase = false;
                    } else {
                        self.output_state = true;
                        self.blink_timer_ms = BLINK_HEARTBEAT_ON_MS;
                        self.blink_phase = true;
                    }
                }
            },
        }
        self.output_state != previous_output
    }

    /// Set new LED state
    pub fn set_state(&mut self, new_state: LedState)
        ensures
            *final(self) == old(self).with_pattern(new_state),
    {
        if new_state != self.state {
            self.state = new_state;
            match new_state {
                LedState::Off => {
                    self.output_state = false;
                },
                LedState::On => {
                    self.output_state = true;
                },
                LedState::BlinkSlow => {
                    self.blink_timer_ms = BLINK_SLOW_MS;
                    self.output_state = true;
                },
                LedState::BlinkFast => {
                    self.blink_timer_ms = BLINK_FAST_MS;
                    self.output_state = true;
                },
                LedState::Heartbeat => {
                    self.blink_timer_ms = BLINK_HEARTBEAT_ON_MS;
                    self.output_state = true;
                    self.blink_phase = true;
                },
            }
        }
    }
}

/// The index of a button pin (mode, profile, emergency stop).
pub open spec fn button_index(pin: GpioPin) -> Option<int> {
    match pin {
        GpioPin::ModeButton => Some(0),
        GpioPin::ProfileButton => Some(1),
        GpioPin::EmergencyStop => Some(2),
        _ => None,
    }
}

/// The index of an LED pin (status, error, activity).
pub open spec fn led_index(pin: GpioPin) -> Option<int> {
    match pin {
        GpioPin::StatusLed => Some(0),
        GpioPin::ErrorLed => Some(1),
        GpioPin::ActivityLed => Some(2),
        _ => None,
    }
}

/// The debouncing and LED state of the three buttons and three LEDs of the
/// board. The pin levels themselves are read and driven by the caller.
pub struct GpioState {
    /// Button states and debouncing (mode, profile, emergency stop)
    pub button_states: [ButtonInputState; 3],
    /// LED states and timing (status, error, activity)
    pub led_states: [LedOutputState; 3],
    /// Last update timestamp
    pub last_update_ms: u32,
}

impl GpioState {
    pub fn new() -> (s: Self)
        ensures
            forall|i: int| 0 <= i < 3 ==> #[trigger] s.button_states[i] == ButtonInputState::initial(),
            forall|i: int| 0 <= i < 3 ==> #[trigger] s.led_states[i] == LedOutputState::initial(),
            s.last_update_ms == 0,
    {
        let s = Self {
            button_states: [ButtonInputState::new(), ButtonInputState::new(), ButtonInputState::new()],
            led_states: [LedOutputState::new(), LedOutputState::new(), LedOutputState::new()],
            last_update_ms: 0,
        };
        s
    }

    /// Update all GPIO states at `current_time_ms`. `pin_levels` are the
    /// electrical levels of the mode, profile and emergency-stop inputs;
    /// the buttons pull their pin low, so a low level means pressed. The
    /// result holds, for each LED, the level to drive when its output
    /// changed, and `None` when the pin is to be left as it is.
    pub fn update(&mut self, current_time_ms: u32, pin_levels: [bool; 3]) -> (r: [Option<bool>; 3])
        ensures
            ({
                let elapsed = sat_sub(current_time_ms, old(self).last_update_ms);
                &&& final(self).last_update_ms == current_time_ms
                &&& forall|i: int| 0 <= i < 3 ==> #[trigger] final(self).button_states[i]
                    == old(self).button_states[i].stepped(!pin_levels[i], elapsed)
                &&& forall|i: int| 0 <= i < 3 ==> #[trigger] final(self).led_states[i]
                    == old(self).led_states[i].advanced(elapsed)
                &&& forall|i: int| 0 <= i < 3 ==> #[trigger] r[i] == (
                    if final(self).led_states[i].output_state != old(self).led_states[i].output_state {
                        Some(final(self).led_states[i].output_state)
                    } else {
                        None
                    })
            }),
    {
        let elapsed_ms = current_time_ms.saturating_sub(self.last_update_ms);
        self.last_update_ms = current_time_ms;

        let mut b0 = self.button_states[0];
        b0.update(!pin_levels[0], elapsed_ms);
        self.button_states[0] = b0;
        let mut b1 = self.button_states[1];
        b1.update(!pin_levels[1], elapsed_ms);
        self.button_states[1] = b1;
        let mut b2 = self.button_states[2];
        b2.update(!pin_levels[2], elapsed_ms);
        self.button_states[2] = b2;

        let mut l0 = self.led_states[0];
        let c0 = l0.update(elapsed_ms);
        self.led_states[0] = l0;
        let mut l1 = self.led_states[1];
        let c1 = l1.update(elapsed_ms);
        self.led_states[1] = l1;
        let mut l2 = self.led_states[2];
        let c2 = l2.update(elapsed_ms);
        self.led_states[2] = l2;

        let r = [
            if c0 { Some(l0.output_state) } else { None },
            if c1 { Some(l1.output_state) } else { None },
            if c2 { Some(l2.output_state) } else { None },
        ];
        assert forall|i: int| 0 <= i < 3 implies #[trigger] self.button_states[i]
            == old(self).button_states[i].stepped(!pin_levels[i], elapsed_ms) by {
            if i == 0 {} else if i == 1 {} else {}
        }
        assert forall|i: int| 0 <= i < 3 implies #[trigger] self.led_states[i]
            == old(self).led_states[i].advanced(elapsed_ms) by {
            if i == 0 {} else if i == 1 {} else {}
        }
        assert forall|i: int| 0 <= i < 3 implies #[trigger] r[i] == (
                if self.led_states[i].output_state != old(self).led_states[i].output_state {
                    Some(self.led_states[i].output_state)
                } else {
                    None
                }) by {
            if i == 0 {} else if i == 1 {} else {}
        }
        r
    }

    /// Get button index for GPIO pin
    fn get_button_index(&self, pin: GpioPin) -> (r: Result<usize, HalError>)
        ensures
            match button_index(pin) {
                Some(i) => r matches Ok(j) && j == i,
                None => r matches Err(HalError::InvalidParameter(m)) && m@ == "Invalid button pin"@,
            },
    {
        match pin {
            GpioPin::ModeButton => Ok(0),
            GpioPin::ProfileButton => Ok(1),
            GpioPin::EmergencyStop => Ok(2),
            _ => Err(HalError::invalid_parameter(String::from_str("Invalid button pin"))),
        }
    }

    /// Get LED index for GPIO pin
    fn get_led_index(&self, pin: GpioPin) -> (r: Result<usize, HalError>)
        ensures
            match led_index(pin) {
                Some(i) => r matches Ok(j) && j == i,
                None => r matches Err(HalError::InvalidParameter(m)) && m@ == "Invalid LED pin"@,
            },
    {
        match pin {
            GpioPin::StatusLed => Ok(0),
            GpioPin::ErrorLed => Ok(1),
            GpioPin::ActivityLed => Ok(2),
            _ => Err(HalError::invalid_parameter(String::from_str("Invalid LED pin"))),
        }
    }

    /// The debounced state of a button
    pub fn read_button(&mut self, pin: GpioPin) -> (r: Result<ButtonState, HalError>)
        ensures
            *final(self) == *old(self),
            match button_index(pin) {
                Some(i) => r == Ok::<ButtonState, HalError>(old(self).button_states[i].current_state),
                None => r is Err,
            },
    {
        let index = self.get_button_index(pin)?;
        Ok(self.button_states[index].current_state)
    }

    /// Whether a button was pressed since the last query; the event is consumed
    pub fn button_pressed(&mut self, pin: GpioPin) -> (r: Result<bool, HalError>)
        ensures
            final(self).led_states == old(self).led_states,
            final(self).last_update_ms == old(self).last_update_ms,
            match button_index(pin) {
                Some(i) => r == Ok::<bool, HalError>(old(self).button_states[i].pressed_event)
                    && final(self).button_states@ == old(self).button_states@.update(i,
                        ButtonInputState { pressed_event: false, ..old(self).button_states[i] }),
                None => r is Err && *final(self) == *old(self),
            },
    {
        let index = self.get_button_index(pin)?;
        let mut b = self.button_states[index];
        let event = b.take_press_event();
        self.button_states[index] = b;
        Ok(event)
    }

    /// Whether a button was released since the last query; the event is consumed
    pub fn button_released(&mut self, pin: GpioPin) -> (r: Result<bool, HalError>)
        ensures
            final(self).led_states == old(self).led_states,
            final(self).last_update_ms == old(self).last_update_ms,
            match button_index(pin) {
                Some(i) => r == Ok::<bool, HalError>(old(self).button_states[i].released_event)
                    && final(self).button_states@ == old(self).button_states@.update(i,
                        ButtonInputState { released_event: false, ..old(self).button_states[i] }),
                None => r is Err && *final(self) == *old(self),
            },
    {
        let index = self.get_button_index(pin)?;
        let mut b = self.button_states[index];
        let event = b.take_release_event();
        self.button_states[index] = b;
        Ok(event)
    }

    /// Select the pattern an LED shows
    pub fn set_led(&mut self, pin: GpioPin, state: LedState) -> (r: Result<(), HalError>)
        ensures
            final(self).button_states == old(self).button_states,
            final(self).last_update_ms == old(self).last_update_ms,
            match led_index(pin) {
                Some(i) => r is Ok && final(self).led_states@ == old(self).led_states@.update(i,
                    old(self).led_states[i].with_pattern(state)),
                None => r is Err && *final(self) == *old(self),
            },
    {
        let index = self.get_led_index(pin)?;
        let mut l = self.led_states[index];
        l.set_state(state);
        self.led_states[index] = l;
        Ok(())
    }

    /// The pattern an LED shows
    pub fn get_led_state(&self, pin: GpioPin) -> (r: Result<LedState, HalError>)
        ensures
            match led_index(pin) {
                Some(i) => r == Ok::<LedState, HalError>(self.led_states[i].state),
                None => r is Err,
            },
    {
        let index = self.get_led_index(pin)?;
        Ok(self.led_states[index].state)
    }
}

/// Button event handler for easy integration: one optional callback per
/// button, run when that button has been pressed.
pub struct ButtonEventHandler<F: Fn()> {
    /// Callback functions for each button
    pub mode_callback: Option<F>,
    pub profile_callback: Option<F>,
    pub estop_callback: Option<F>,
}

impl<F: Fn()> ButtonEventHandler<F> {
    /// Create new button event handler
    pub fn new() -> (h: Self)
        ensures
            h.mode_callback is None,
            h.profile_callback is None,
            h.estop_callback is None,
    {
        Self { mode_callback: None, profile_callback: None, estop_callback: None }
    }

    /// Set callback for mode button press
    pub fn on_mode_button(&mut self, callback: F)
        ensures
            final(self).mode_callback == Some(callback),
            final(self).profile_callback == old(self).profile_callback,
            final(self).estop_callback == old(self).estop_callback,
    {
        self.mode_callback = Some(callback);
    }

    /// Set callback for profile button press
    pub fn on_profile_button(&mut self, callback: F)
        ensures
            final(self).profile_callback == Some(callback),
            final(self).mode_callback == old(self).mode_callback,
            final(self).estop_callback == old(self).estop_callback,
    {
        self.profile_callback = Some(callback);
    }

    /// Set callback for emergency stop button press
    pub fn on_estop_button(&mut self, callback: F)
        ensures
            final(self).estop_callback == Some(callback),
            final(self).mode_callback == old(self).mode_callback,
            final(self).profile_callback == old(self).profile_callback,
    {
        self.estop_callback = Some(callback);
    }

    /// Whether every registered callback may be run.
    pub open spec fn callbacks_callable(&self) -> bool {
        &&& (self.mode_callback matches Some(f) ==> f.requires(()))
        &&& (self.profile_callback matches Some(f) ==> f.requires(()))
        &&& (self.estop_callback matches Some(f) ==> f.requires(()))
    }

    /// Process button events (call after the GPIO update): consumes the
    /// press events of the three buttons and runs the callback of each
    /// button that was pressed. Returns which buttons were pressed (mode,
    /// profile, emergency stop).
    pub fn process_events(&self, gpio: &mut GpioState) -> (r: Result<[bool; 3], HalError>)
        requires
            self.callbacks_callable(),
        ensures
            r matches Ok(pressed) && forall|i: int| 0 <= i < 3 ==> #[trigger] pressed[i] == old(gpio).button_states[i].pressed_event,
            forall|i: int| 0 <= i < 3 ==> #[trigger] final(gpio).button_states[i]
                == (ButtonInputState { pressed_event: false, ..old(gpio).button_states[i] }),
            final(gpio).led_states == old(gpio).led_states,
            final(gpio).last_update_ms == old(gpio).last_update_ms,
    {
        let mode = gpio.button_pressed(GpioPin::ModeButton)?;
        if mode {
            if let Some(callback) = &self.mode_callback {
                callback();
            }
        }
        let profile = gpio.button_pressed(GpioPin::ProfileButton)?;
        if profile {
            if let Some(callback) = &self.profile_callback {
                callback();
            }
        }
        let estop = gpio.button_pressed(GpioPin::EmergencyStop)?;
        if estop {
            if let Some(callback) = &self.estop_callback {
                callback();
            }
        }
        let r = [mode, profile, estop];
        assert forall|i: int| 0 <= i < 3 implies #[trigger] gpio.button_states[i]
            == (ButtonInputState { pressed_event: false, ..old(gpio).button_states[i] }) by {
            if i == 0 {} else if i == 1 {} else {}
        }
        assert forall|i: int| 0 <= i < 3 implies #[trigger] r[i] == old(gpio).button_states[i].pressed_event by {
            if i == 0 {} else if i == 1 {} else {}
        }
        Ok(r)
    }
}

/// A change of the raw input never changes the debounced state in the same
/// step: it only restarts the 20 ms debounce timer.
pub proof fn lemma_change_restarts_debounce(s: ButtonInputState, raw: bool, elapsed_ms: u32)
    requires
        raw != s.raw_state,
    ensures
        s.stepped(raw, elapsed_ms).current_state == s.current_state,
        s.stepped(raw, elapsed_ms).debounce_timer_ms == 20,
        s.stepped(raw, elapsed_ms).pressed_event == s.pressed_event,
        s.stepped(raw, elapsed_ms).released_event == s.released_event,
{
}

/// An input that has stayed the same until the debounce timer ran out is
/// adopted as the debounced state.
pub proof fn lemma_stable_input_adopted(s: ButtonInputState, raw: bool, elapsed_ms: u32)
    requires
        raw == s.raw_state,
        s.debounce_timer_ms <= elapsed_ms,
    ensures
        s.stepped(raw, elapsed_ms).current_state == state_of(raw),
{
}

/// A press event is raised exactly when the debounced state goes from
/// released to pressed, and a pending event is kept until it is taken.
pub proof fn lemma_press_event_on_transition(s: ButtonInputState, raw: bool, elapsed_ms: u32)
    ensures
        s.stepped(raw, elapsed_ms).pressed_event == (s.pressed_event || (
            s.current_state == ButtonState::Released
            && s.stepped(raw, elapsed_ms).current_state == ButtonState::Pressed)),
        s.stepped(raw, elapsed_ms).released_event == (s.released_event || (
            s.current_state == ButtonState::Pressed
            && s.stepped(raw, elapsed_ms).current_state == ButtonState::Released)),
{
}

/// A pulse on a settled, released button that ends before the 20 ms
/// debounce period raises no press event and leaves the button released.
pub proof fn lemma_short_glitch_ignored(s: ButtonInputState, first_ms: u32, second_ms: u32)
    requires
        s.current_state == ButtonState::Released,
        !s.raw_state,
        !s.pressed_event,
        s.debounce_timer_ms == 0,
        second_ms < 20,
    ensures
        s.stepped(true, first_ms).stepped(false, second_ms).current_state == ButtonState::Released,
        !s.stepped(true, first_ms).stepped(false, second_ms).pressed_event,
{
}

/// Once taken, an event is gone: taking it again reports nothing.
pub proof fn lemma_event_taken_once(s: ButtonInputState)
    ensures
        !(ButtonInputState { pressed_event: false, ..s }).pressed_event,
        !(ButtonInputState { released_event: false, ..s }).released_event,
{
}

/// A steady LED drives its output directly whatever the time elapsed, and
/// selecting the pattern an LED already shows changes nothing.
pub proof fn lemma_led_steady_patterns(l: LedOutputState, elapsed_ms: u32, p: LedState)
    ensures
        l.state == LedState::Off ==> !l.advanced(elapsed_ms).output_state,
        l.state == LedState::On ==> l.advanced(elapsed_ms).output_state,
        l.advanced(elapsed_ms).state == l.state,
        l.with_pattern(p).state == p,
        l.with_pattern(l.state) == l,
{
}

/// A blinking LED toggles its output exactly when its timer runs out, and
/// the timer is then reloaded with the period of the pattern: 1000 ms for
/// the slow blink, 200 ms for the fast one.
pub proof fn lemma_blink_toggles_on_timeout(l: LedOutputState, elapsed_ms: u32)
    requires
        l.state == LedState::BlinkSlow || l.state == LedState::BlinkFast,
    ensures
        (l.advanced(elapsed_ms).output_state != l.output_state) == (l.blink_timer_ms <= elapsed_ms),
        l.blink_timer_ms <= elapsed_ms ==> l.advanced(elapsed_ms).blink_timer_ms
            == (if l.state == LedState::BlinkSlow { 1000u32 } else { 200u32 }),
{
}

} // verus!
