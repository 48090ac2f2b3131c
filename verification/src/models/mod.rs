//! The data the launcher works with: emulators, platforms and collections.

pub mod collection;
pub mod emulator;
pub mod platform;
