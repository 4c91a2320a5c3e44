//! In-memory model of an Impulse Tracker module and the structural queries
//! over it.
//!
//! A [`Module`] holds the header values of a song, its order list and its
//! instruments, samples and patterns. Elements are looked up by handle
//! ([`Get`]), and two queries follow the order list:
//! [`Module::ordered_patterns`] and [`Module::active_channels`].

pub mod channels;
pub mod flags;
pub mod ids;
pub mod module;
pub mod name;
pub mod ranged;

pub use channels::ActiveChannels;
pub use flags::{ModuleFlag, ModuleFlags};
pub use ids::{InstrumentId, PatternId, SampleId};
pub use module::{Get, Instrument, Module, ModuleHeader, Order, Pattern, Sample};
pub use name::Name;
pub use ranged::{OutOfRange, RangedU8};
