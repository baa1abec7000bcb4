//! The FMPI2C peripheral: standard mode, fast mode and fast mode plus.

pub mod bus;
pub mod check;
pub mod init;
pub mod laws;
pub mod mode;
pub mod register;
pub mod transfer;

pub use bus::{FMPI2c, FMPI2C1};
pub use mode::FmpMode;
