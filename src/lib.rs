//! A birthday reminder bot: the conversation that collects a birthdate and a reminder
//! hour per chat, the table of records that it writes, and the hourly pass that sends
//! each active chat its countdown.
pub mod background;
pub mod calendar;
pub mod common;
pub mod date;
pub mod db;
pub mod handlers;
pub mod states;
