//! Verified core of a small robot controller: the frame format and reply
//! checks of a YDLIDAR GS2 serial link, and the integer rules that drive a
//! DC motor and a hobby servo.

pub mod ydlidar;
pub mod motor;
pub mod servo;
