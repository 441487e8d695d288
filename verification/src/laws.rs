//! What holds of the library as a whole, beyond the contract of any one function.

pub mod access;
pub mod connections;
pub mod contents;
pub mod events;
pub mod live;
pub mod messages;
pub mod pushes;
pub mod values;
