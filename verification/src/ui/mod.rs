//! What the drawing code needs worked out for it.

pub mod header;
