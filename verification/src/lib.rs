//! Control logic of a small quadcopter flight controller running on an
//! STM32F3 Discovery board: the ESC motor duty controller, the user
//! button edge detector, the accelerometer/compass data cache, the raw
//! magnetometer register decoding and the LED ring animations.
//!
//! Everything here works on plain values; reading pins and sensors and
//! writing PWM and GPIO registers is left to the firmware around it.

pub mod accel;
pub mod button;
pub mod leds;
pub mod motor;
pub mod raw_axes;

