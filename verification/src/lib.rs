//! RumbleDome electronic boost controller: the verified logic of the
//! controller and its tools. EEPROM storage with wear tracking, system
//! backup and restore, CAN decoding of the engine signals, button and LED
//! handling, the SD card protocol and file layout, the Bluetooth console
//! session, the display bookkeeping, the system states and faults, and the
//! control-loop bookkeeping. Hardware access, files, the clock and all
//! floating-point arithmetic belong to the caller; values the firmware keeps
//! as `f32` are carried here as their bit patterns.

use vstd::prelude::*;

pub mod backup;
pub mod calibration;
pub mod bluetooth;
pub mod bounded;
pub mod can;
pub mod display;
pub mod error;
pub mod gpio;
pub mod hw;
pub mod monitor;
pub mod profiles;
pub mod protocol;
pub mod safety;
pub mod scenarios;
pub mod sdcard;
pub mod sim_config;
pub mod sim_input;
pub mod state;
pub mod storage;
pub mod text;
pub mod time;
pub mod types;

verus! {

} // verus!
