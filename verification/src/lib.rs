//! Encoder for the DShot digital ESC protocol: frame construction with
//! checksum, calibration of bit timings into hardware tick counts, pulse-train
//! building, and the sequencing rules for arming and driving motor channels.
//!
//! The physical transmit peripheral and the inter-frame delay source are
//! external collaborators; this crate produces the exact values they are
//! handed.

pub mod channel;
pub mod frame;
pub mod pulses;
pub mod sequence;
pub mod timing;

pub use channel::DShot;
pub use channel::TransmitFailure;
pub use frame::DSHOT_TELEMETRY_CMD;
pub use pulses::Pulse;
pub use sequence::ArmAction;
pub use sequence::ArmSequence;
pub use sequence::UpdateAction;
pub use sequence::UpdateSequence;
pub use timing::BitTicks;
pub use timing::BitTimes;
pub use timing::DShotSpeed;
