//! Core of a terminal resource-gauge dashboard: a tri-band gradient gauge
//! painter over a modelled cell buffer, a small persisted preference record
//! with cycling mutations, and a theme palette resolver with indexed-color
//! fallback.

pub mod buffer;
pub mod color;
pub mod config;
pub mod gradient_gauge;
pub mod theme;
