//! Verified core of the OSR USB-FX2 learning-kit driver: register bit
//! manipulation, I/O control codes, GUIDs, timeouts, the WDF configuration
//! records the driver initialises, and the decisions the driver takes while
//! it sets a device up.
use vstd::prelude::*;

pub mod device;
pub mod driver;
pub mod interop;
pub mod osrusbfx2;
pub mod public;
pub mod status;
pub mod wdf;
pub mod wide;

