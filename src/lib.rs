//! Control logic of a zero-delay-feedback state-variable filter: which
//! filter types can be derived and which parameter faults stop a
//! derivation, lazy re-derivation keyed on settings equality, and the
//! per-channel bank of filters.
pub mod bank;
pub mod filter;
pub mod lazy;
pub mod plot;
