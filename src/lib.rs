//! A bridge between a media graph's registry notifications and a UI-facing
//! stream of typed, ordered graph-change events.

pub mod bridge;
pub mod dict;
pub mod envelope;
pub mod gate;
pub mod number;
pub mod record;
pub mod text;
pub mod translate;
