//! Colorizes command output lines with an ordered set of regular-expression rules.

pub mod palette;
pub mod text;
pub mod pattern;
pub mod rules;
pub mod matcher;
pub mod table;
pub mod supervisor;
pub mod color_item;
