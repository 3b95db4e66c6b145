//! Core of an advertising marketplace: who may book a screen, how a booking
//! moves between its states, and which screens a budget buys.

pub mod allocator;
pub mod config;
pub mod errors;
pub mod files;
pub mod ids;
pub mod models;
pub mod store;
pub mod table;
pub mod token;
