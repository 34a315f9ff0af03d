//! Verified core of the SLAM presale, staking and governance programs.
pub mod address;
pub mod presale;
pub mod staking;
pub mod governance;
