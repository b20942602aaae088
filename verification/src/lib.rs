//! Decoder for fixed-width securities-exchange snapshot records.
//!
//! A snapshot feed emits one text line per quote snapshot. Two layout
//! versions exist, distinguished only by total line length: the "new"
//! layout is 190 characters, the "old" one 186. Every field sits at a
//! fixed character offset; multi-character fields are trimmed of
//! surrounding whitespace, single-character fields default to a space
//! when the line is too short to hold them.

pub mod decode;
pub mod laws;
pub mod layout;
pub mod record;
pub mod text;

pub use decode::{decode_line, decode_with_table, parse_new_format, parse_old_format};
pub use layout::{FieldRange, LayoutVariant, OffsetTable};
pub use record::{DecodeError, SnapshotRecord};
