//! A conflict-aware scheduling engine: resources, bookings, shifts, time off,
//! availability windows, public holidays and timezone overlap.

pub mod text;
pub mod types;
pub mod store;
pub mod inputs;
pub mod server;
pub mod clock;
pub mod slots;
pub mod zones;
pub mod holidays;
pub mod laws;
