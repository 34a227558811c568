//! Acquisition and normalization of a hardware-profile catalog.
//!
//! The library turns a JSON catalog document into a validated,
//! priority-ordered list of [`profile::Profile`] records, applying a
//! localization fallback chain and default-value substitution per field,
//! and decides between freshly fetched text and a cached fallback.

pub mod acquire;
pub mod json;
pub mod order;
pub mod parse;
pub mod profile;
