//! The YDLIDAR GS2 serial protocol.

pub mod ydlidar_cmd;
pub mod ydlidar_gs2;
