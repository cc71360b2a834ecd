pub mod action;
pub mod status;
