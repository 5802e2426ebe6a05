pub mod burn;
pub mod freeze;
pub mod mint;
pub mod operator;
pub mod pause;
pub mod permit;
pub mod transfer;
