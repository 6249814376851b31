//! Core of a desktop vitals widget: telemetry snapshots and rates, bounded
//! sample histories with trend classification, a GPU utilisation probe, and
//! the shortcut and settings stores.
//!
//! Fractional quantities (percentages, sizes, opacities) are carried as whole
//! thousandths in an `i64`: `1.0` is `1000`.

pub mod gpu;
pub mod history;
pub mod monitor;
pub mod platform;
pub mod service;
pub mod settings;
pub mod shortcuts;
pub mod storage;
pub mod text;
