//! Operations on values of the ordered integer axis.

pub mod ranges;
