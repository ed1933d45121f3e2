//! Input widgets that the screens are built from.

pub mod choices;
pub mod text_field;
