//! The aggregate root and the values it owns.

pub mod otp;
pub mod recovery_codes;
pub mod user;
