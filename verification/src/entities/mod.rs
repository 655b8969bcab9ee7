//! Generated entity data.
pub mod definitions;
