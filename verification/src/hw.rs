//! State kept beside the solenoid PWM, the ADC and the watchdog: the
//! settings the hardware was given and the checks made before giving them.
//! The register accesses themselves are outside this module.

use vstd::prelude::*;
use crate::error::HalError;
use crate::text::{decimal, message_with_number};
use crate::types::{AnalogChannel, PwmChannel};

verus! {

/// PWM frequency at start-up (Hz)
pub const DEFAULT_PWM_FREQUENCY_HZ: u16 = 30;
/// Lowest accepted PWM frequency (Hz)
pub const MIN_PWM_FREQUENCY_HZ: u16 = 10;
/// Highest accepted PWM frequency (Hz)
pub const MAX_PWM_FREQUENCY_HZ: u16 = 1000;
/// Watchdog timeout at start-up (ms)
pub const DEFAULT_WATCHDOG_TIMEOUT_MS: u32 = 1000;

/// Settings of the solenoid PWM channel. The duty cycle (percent) is kept
/// as the bit pattern of its `f32`.
pub struct PwmState {
    /// Current duty cycle, `f32` bits
    pub duty_cycle_bits: u32,
    /// PWM frequency in Hz
    pub frequency_hz: u16,
    /// PWM enabled state
    pub enabled: bool,
}

impl PwmState {
    /// 30 Hz, 0 % duty, output disabled.
    pub fn new() -> (p: Self)
        ensures
            p.duty_cycle_bits == 0,
            p.frequency_hz == DEFAULT_PWM_FREQUENCY_HZ,
            !p.enabled,
    {
        PwmState { duty_cycle_bits: 0, frequency_hz: DEFAULT_PWM_FREQUENCY_HZ, enabled: false }
    }

    /// Change the PWM frequency; it must lie in 10..=1000 Hz.
    pub fn set_frequency(&mut self, channel: PwmChannel, frequency_hz: u16) -> (r: Result<(), HalError>)
        ensures
            MIN_PWM_FREQUENCY_HZ <= frequency_hz <= MAX_PWM_FREQUENCY_HZ ==> r is Ok
                && final(self).frequency_hz == frequency_hz
                && final(self).enabled == old(self).enabled
                && final(self).duty_cycle_bits == old(self).duty_cycle_bits,
            !(MIN_PWM_FREQUENCY_HZ <= frequency_hz <= MAX_PWM_FREQUENCY_HZ) ==> (r matches Err(HalError::InvalidParameter(m))
                && m@ == "Invalid PWM frequency: "@ + decimal(frequency_hz as nat) + " Hz"@)
                && *final(self) == *old(self),
    {
        match channel {
            PwmChannel::BoostSolenoid => {
                if frequency_hz < MIN_PWM_FREQUENCY_HZ || frequency_hz > MAX_PWM_FREQUENCY_HZ {
                    return Err(HalError::InvalidParameter(
                        message_with_number("Invalid PWM frequency: ", frequency_hz as u64, " Hz"),
                    ));
                }
                self.frequency_hz = frequency_hz;
                Ok(())
            },
        }
    }

    /// Turn the output on.
    pub fn enable(&mut self, channel: PwmChannel) -> (r: Result<(), HalError>)
        ensures
            r is Ok,
            final(self).enabled,
            final(self).frequency_hz == old(self).frequency_hz,
            final(self).duty_cycle_bits == old(self).duty_cycle_bits,
    {
        match channel {
            PwmChannel::BoostSolenoid => {
                self.enabled = true;
                Ok(())
            },
        }
    }

    /// Turn the output off in its failsafe state: 0 % duty.
    pub fn disable(&mut self, channel: PwmChannel) -> (r: Result<(), HalError>)
        ensures
            r is Ok,
            !final(self).enabled,
            final(self).duty_cycle_bits == 0,
            final(self).frequency_hz == old(self).frequency_hz,
    {
        match channel {
            PwmChannel::BoostSolenoid => {
                self.enabled = false;
                self.duty_cycle_bits = 0;
                Ok(())
            },
        }
    }

    /// The duty cycle last set, `f32` bits.
    pub fn get_duty_cycle_bits(&self, channel: PwmChannel) -> (r: Result<u32, HalError>)
        ensures
            r == Ok::<u32, HalError>(self.duty_cycle_bits),
    {
        match channel {
            PwmChannel::BoostSolenoid => Ok(self.duty_cycle_bits),
        }
    }
}

/// The input of the ADC that a sensor is wired to: A0, A1 and A2
/// (pins 14, 15, 16).
pub open spec fn spec_adc_channel(channel: AnalogChannel) -> u8 {
    match channel {
        AnalogChannel::DomeInputPressure => 0,
        AnalogChannel::UpperDomePressure => 1,
        AnalogChannel::ManifoldPressure => 2,
    }
}

/// Get ADC channel number for analog channel
pub fn get_adc_channel(channel: AnalogChannel) -> (c: u8)
    ensures
        c == spec_adc_channel(channel),
{
    match channel {
        AnalogChannel::DomeInputPressure => 0,
        AnalogChannel::UpperDomePressure => 1,
        AnalogChannel::ManifoldPressure => 2,
    }
}

/// Which ADC module reads a sensor: the dome sensors are on ADC1, the
/// manifold sensor on ADC2.
pub fn select_adc(channel: AnalogChannel) -> (module: u8)
    ensures
        module == match channel {
            AnalogChannel::ManifoldPressure => 2u8,
            _ => 1u8,
        },
{
    match channel {
        AnalogChannel::DomeInputPressure | AnalogChannel::UpperDomePressure => 1,
        AnalogChannel::ManifoldPressure => 2,
    }
}

/// Watchdog settings
pub struct WatchdogState {
    /// Watchdog enabled state
    pub enabled: bool,
    /// Timeout value in milliseconds
    pub timeout_ms: u32,
}

impl WatchdogState {
    /// Stopped, with a 1000 ms timeout.
    pub fn new() -> (w: Self)
        ensures
            !w.enabled,
            w.timeout_ms == DEFAULT_WATCHDOG_TIMEOUT_MS,
    {
        WatchdogState { enabled: false, timeout_ms: DEFAULT_WATCHDOG_TIMEOUT_MS }
    }

    /// Start with the given timeout.
    pub fn start(&mut self, timeout_ms: u32) -> (r: Result<(), HalError>)
        ensures
            r is Ok,
            final(self).enabled,
            final(self).timeout_ms == timeout_ms,
    {
        self.timeout_ms = timeout_ms;
        self.enabled = true;
        Ok(())
    }

    /// Feeding reaches the hardware only while running; returns whether it
    /// did.
    pub fn feed(&mut self) -> (fed: bool)
        ensures
            fed == old(self).enabled,
            *final(self) == *old(self),
    {
        self.enabled
    }

    /// Stop the watchdog.
    pub fn stop(&mut self) -> (r: Result<(), HalError>)
        ensures
            r is Ok,
            !final(self).enabled,
            final(self).timeout_ms == old(self).timeout_ms,
    {
        self.enabled = false;
        Ok(())
    }

    /// Whether the watchdog runs
    pub fn is_running(&self) -> (b: bool)
        ensures
            b == self.enabled,
    {
        self.enabled
    }
}

} // verus!
