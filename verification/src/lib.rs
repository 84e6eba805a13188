//! Slot watching for appointment centers: the subscriber cache, the polling
//! scheduler and the worker's decisions, with their contracts.

pub mod calendar;
pub mod center;
pub mod collector;
pub mod commands;
pub mod laws;
pub mod lines;
pub mod markdown;
pub mod text;
pub mod tracking;
