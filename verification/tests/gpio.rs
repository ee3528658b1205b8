use rumbledome::gpio::{ButtonEventHandler, ButtonInputState, GpioState, LedOutputState};
use rumbledome::types::{ButtonState, GpioPin, LedState};

#[test]
fn button_press_is_debounced() {
    let mut b = ButtonInputState::new();
    b.update(true, 0);
    assert_eq!(b.current_state, ButtonState::Released);
    assert_eq!(b.debounce_timer_ms, 20);
    b.update(true, 10);
    assert_eq!(b.current_state, ButtonState::Released);
    b.update(true, 10);
    assert_eq!(b.current_state, ButtonState::Pressed);
    assert!(b.take_press_event());
    assert!(!b.take_press_event());
}

#[test]
fn short_glitch_is_ignored() {
    let mut b = ButtonInputState::new();
    b.update(true, 0);
    b.update(false, 5);
    b.update(false, 30);
    assert_eq!(b.current_state, ButtonState::Released);
    assert!(!b.take_press_event());
}

#[test]
fn release_event_after_press() {
    let mut b = ButtonInputState::new();
    b.update(true, 0);
    b.update(true, 25);
    b.update(false, 0);
    b.update(false, 25);
    assert_eq!(b.current_state, ButtonState::Released);
    assert!(b.take_release_event());
    assert!(!b.take_release_event());
}

#[test]
fn led_fast_blink_toggles_every_200ms() {
    let mut led = LedOutputState::new();
    led.set_state(LedState::BlinkFast);
    assert!(led.output_state);
    assert!(!led.update(100));
    assert!(led.update(100));
    assert!(!led.output_state);
    assert_eq!(led.blink_timer_ms, 200);
}

#[test]
fn led_heartbeat_has_short_on_long_off() {
    let mut led = LedOutputState::new();
    led.set_state(LedState::Heartbeat);
    assert!(led.output_state);
    assert!(led.update(100));
    assert!(!led.output_state);
    assert_eq!(led.blink_timer_ms, 900);
    assert!(!led.update(899));
    assert!(led.update(1));
    assert!(led.output_state);
}

#[test]
fn led_same_pattern_again_changes_nothing() {
    let mut led = LedOutputState::new();
    led.set_state(LedState::BlinkSlow);
    led.update(300);
    let timer = led.blink_timer_ms;
    led.set_state(LedState::BlinkSlow);
    assert_eq!(led.blink_timer_ms, timer);
    led.set_state(LedState::Off);
    assert!(!led.output_state);
}

#[test]
fn gpio_buttons_are_active_low() {
    let mut gpio = GpioState::new();
    gpio.update(0, [false, true, true]);
    gpio.update(25, [false, true, true]);
    assert_eq!(gpio.read_button(GpioPin::ModeButton).unwrap(), ButtonState::Pressed);
    assert_eq!(gpio.read_button(GpioPin::ProfileButton).unwrap(), ButtonState::Released);
    assert!(gpio.button_pressed(GpioPin::ModeButton).unwrap());
    assert!(!gpio.button_pressed(GpioPin::ModeButton).unwrap());
    assert!(gpio.read_button(GpioPin::StatusLed).is_err());
}

#[test]
fn gpio_led_outputs_report_changes() {
    let mut gpio = GpioState::new();
    gpio.set_led(GpioPin::StatusLed, LedState::On).unwrap();
    assert_eq!(gpio.get_led_state(GpioPin::StatusLed).unwrap(), LedState::On);
    let levels = gpio.update(10, [true, true, true]);
    assert_eq!(levels, [None, None, None]);
    gpio.set_led(GpioPin::ErrorLed, LedState::BlinkFast).unwrap();
    let levels = gpio.update(210, [true, true, true]);
    assert_eq!(levels, [None, Some(false), None]);
    assert!(gpio.set_led(GpioPin::ModeButton, LedState::On).is_err());
}

#[test]
fn event_handler_reports_pressed_buttons() {
    let mut gpio = GpioState::new();
    let mut handler: ButtonEventHandler<fn()> = ButtonEventHandler::new();
    fn noop() {}
    handler.on_mode_button(noop as fn());
    gpio.update(0, [false, true, true]);
    gpio.update(30, [false, true, true]);
    let fired = handler.process_events(&mut gpio).unwrap();
    assert_eq!(fired, [true, false, false]);
    let fired = handler.process_events(&mut gpio).unwrap();
    assert_eq!(fired, [false, false, false]);
}
