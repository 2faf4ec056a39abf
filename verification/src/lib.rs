//! Goal-driven schedule suggestions: turning free-text goals into structured
//! scheduling goals, reading candidate time slots out of untrusted completion
//! text, tracking each suggestion's status, and deciding which stored records
//! are relevant at a given instant.

pub mod instant;
pub mod text;
pub mod json;
pub mod confidence;
pub mod calendar;
pub mod scheduler;
pub mod normalizer;
pub mod generator;
pub mod window;
pub mod keyed;
pub mod storage;
pub mod overlay;
pub mod lifecycle;
pub mod completion;
pub mod state;
