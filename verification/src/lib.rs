//! Layout engine that turns an invoice into an ordered list of page-drawing
//! instructions.
//!
//! Drawable components (text labels and tables) render themselves at an
//! anchor position; the page assembler places the sections of an invoice at
//! fixed positions of a single page and concatenates what they draw.

pub mod components;
pub mod decimal;
pub mod error;
pub mod fonts;
pub mod format;
pub mod image;
pub mod instruction;
pub mod invoice;
pub mod locale;
pub mod pdf;
pub mod renderer;
pub mod text;
pub mod units;
