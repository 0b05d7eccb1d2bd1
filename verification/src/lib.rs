pub mod correction;
pub mod entropy;
pub mod party;
pub mod privacy_amplification;
pub mod session;
pub mod sifting;
pub mod states;
