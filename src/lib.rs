//! Attendance tracking for event-goers: one record per identity, replay
//! protection against claiming the same event twice in a row, and a loyalty
//! tier derived from how many events an attendee has claimed.

pub mod claim;
pub mod laws;
pub mod record;
pub mod store;
pub mod tier;

