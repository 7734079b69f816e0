//! Reads descriptive metadata out of font files and font collections:
//! naming-table records, style flags, metrics and variation axes.
pub mod face;
pub mod font;
pub mod language;
pub mod name_id;
pub mod text;
