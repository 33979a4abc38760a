//! Counting of unsafe constructs in syntax trees and rendering of the
//! resulting audit table.

pub mod cells;
pub mod counters;
pub mod dump;
pub mod split;
pub mod status;
pub mod table;
pub mod text;
pub mod visitor;
