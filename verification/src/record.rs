//! The decoded snapshot record, its mathematical view, and the spec of
//! what decoding a line under an offset table yields.

use vstd::prelude::*;
use crate::layout::{LayoutVariant, OffsetTable};
use crate::text::{char_at_or_space_spec, field_text_spec};

verus! {

/// One decoded quote snapshot. Multi-character fields hold the trimmed
/// substring of the line; single-character fields hold the character at
/// their position, or a space when the line was too short. Every field
/// is populated on every successful decode.
#[derive(Clone, Debug, PartialEq, Eq)]
pub struct SnapshotRecord {
    /// The layout the line was decoded under.
    pub variant: LayoutVariant,
    pub securities_code: String,
    pub display_time: String,
    pub remark: char,
    pub trend_flag: char,
    pub match_flag: char,
    pub trade_upper_lower_limit: char,
    pub trade_price: String,
    pub transaction_volume: String,
    pub buy_tick_size: char,
    pub buy_upper_lower_limit: char,
    pub buy_5_price_volume: String,
    pub sell_tick_size: char,
    pub sell_upper_lower_limit: char,
    pub sell_5_price_volume: String,
    pub display_date: String,
    pub match_staff: String,
}

/// The mathematical view of a [`SnapshotRecord`]: each text field as a
/// sequence of characters.
pub struct SnapshotRecordView {
    pub variant: LayoutVariant,
    pub securities_code: Seq<char>,
    pub display_time: Seq<char>,
    pub remark: char,
    pub trend_flag: char,
    pub match_flag: char,
    pub trade_upper_lower_limit: char,
    pub trade_price: Seq<char>,
    pub transaction_volume: Seq<char>,
    pub buy_tick_size: char,
    pub buy_upper_lower_limit: char,
    pub buy_5_price_volume: Seq<char>,
    pub sell_tick_size: char,
    pub sell_upper_lower_limit: char,
    pub sell_5_price_volume: Seq<char>,
    pub display_date: Seq<char>,
    pub match_staff: Seq<char>,
}

impl View for SnapshotRecord {
    type V = SnapshotRecordView;

    open spec fn view(&self) -> SnapshotRecordView {
        SnapshotRecordView {
            variant: self.variant,
            securities_code: self.securities_code@,
            display_time: self.display_time@,
            remark: self.remark,
            trend_flag: self.trend_flag,
            match_flag: self.match_flag,
            trade_upper_lower_limit: self.trade_upper_lower_limit,
            trade_price: self.trade_price@,
            transaction_volume: self.transaction_volume@,
            buy_tick_size: self.buy_tick_size,
            buy_upper_lower_limit: self.buy_upper_lower_limit,
            buy_5_price_volume: self.buy_5_price_volume@,
            sell_tick_size: self.sell_tick_size,
            sell_upper_lower_limit: self.sell_upper_lower_limit,
            sell_5_price_volume: self.sell_5_price_volume@,
            display_date: self.display_date@,
            match_staff: self.match_staff@,
        }
    }
}

/// What decoding `line` under the offset table `t` yields: the one
/// record whose every field is read at the table's offsets, text fields
/// trimmed, single-character fields defaulting to a space past the end
/// of the line.
pub open spec fn spec_decode(line: Seq<char>, t: OffsetTable) -> SnapshotRecordView {
    SnapshotRecordView {
        variant: t.variant,
        securities_code: field_text_spec(
            line,
            t.securities_code.start as int,
            t.securities_code.end as int,
        ),
        display_time: field_text_spec(line, t.display_time.start as int, t.display_time.end as int),
        remark: char_at_or_space_spec(line, t.remark as int),
        trend_flag: char_at_or_space_spec(line, t.trend_flag as int),
        match_flag: char_at_or_space_spec(line, t.match_flag as int),
        trade_upper_lower_limit: char_at_or_space_spec(line, t.trade_upper_lower_limit as int),
        trade_price: field_text_spec(line, t.trade_price.start as int, t.trade_price.end as int),
        transaction_volume: field_text_spec(
            line,
            t.transaction_volume.start as int,
            t.transaction_volume.end as int,
        ),
        buy_tick_size: char_at_or_space_spec(line, t.buy_tick_size as int),
        buy_upper_lower_limit: char_at_or_space_spec(line, t.buy_upper_lower_limit as int),
        buy_5_price_volume: field_text_spec(
            line,
            t.buy_5_price_volume.start as int,
            t.buy_5_price_volume.end as int,
        ),
        sell_tick_size: char_at_or_space_spec(line, t.sell_tick_size as int),
        sell_upper_lower_limit: char_at_or_space_spec(line, t.sell_upper_lower_limit as int),
        sell_5_price_volume: field_text_spec(
            line,
            t.sell_5_price_volume.start as int,
            t.sell_5_price_volume.end as int,
        ),
        display_date: field_text_spec(line, t.display_date.start as int, t.display_date.end as int),
        match_staff: field_text_spec(line, t.match_staff.start as int, t.match_staff.end as int),
    }
}

/// The decode failure: the line's length matched neither layout. It
/// carries the observed length and the line unchanged.
#[derive(Clone, Debug, PartialEq, Eq)]
pub enum DecodeError {
    UnrecognizedLength { length: usize, line: String },
}

} // verus!
