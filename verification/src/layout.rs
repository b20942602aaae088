//! The two fixed-width layouts of a snapshot line, as offset tables.
//!
//! Both layouts carry the same fields in the same order; they differ
//! only in the width of `display_time` (12 characters in the new
//! layout, 8 in the old), which shifts every later offset by 4. The
//! decoder is driven by these tables, not by two separate code paths.

use vstd::prelude::*;

verus! {

/// Which of the two historical layouts a line, table or record belongs
/// to.
#[derive(Clone, Copy, Debug, PartialEq, Eq, Structural)]
pub enum LayoutVariant {
    /// The 190-character layout.
    New,
    /// The 186-character layout.
    Old,
}

/// A half-open character range `[start, end)` within a line.
#[derive(Clone, Copy, Debug, PartialEq, Eq, Structural)]
pub struct FieldRange {
    pub start: usize,
    pub end: usize,
}

/// The offset table of one layout: where each field of a snapshot line
/// sits. Multi-character fields are ranges, single-character fields are
/// positions.
#[derive(Clone, Copy, Debug, PartialEq, Eq, Structural)]
pub struct OffsetTable {
    pub variant: LayoutVariant,
    /// Total line length the layout expects.
    pub total_len: usize,
    pub securities_code: FieldRange,
    pub display_time: FieldRange,
    pub remark: usize,
    pub trend_flag: usize,
    pub match_flag: usize,
    pub trade_upper_lower_limit: usize,
    pub trade_price: FieldRange,
    pub transaction_volume: FieldRange,
    pub buy_tick_size: usize,
    pub buy_upper_lower_limit: usize,
    pub buy_5_price_volume: FieldRange,
    pub sell_tick_size: usize,
    pub sell_upper_lower_limit: usize,
    pub sell_5_price_volume: FieldRange,
    pub display_date: FieldRange,
    pub match_staff: FieldRange,
}

impl OffsetTable {
    /// Well-formedness of an offset table: the fields tile the whole
    /// line in declaration order, with no overlap and no gap, starting
    /// at 0 and ending at `total_len`.
    pub open spec fn wf(self) -> bool {
        &&& self.securities_code.start == 0
        &&& self.securities_code.start <= self.securities_code.end
        &&& self.securities_code.end == self.display_time.start
        &&& self.display_time.start <= self.display_time.end
        &&& self.display_time.end == self.remark
        &&& self.remark + 1 == self.trend_flag
        &&& self.trend_flag + 1 == self.match_flag
        &&& self.match_flag + 1 == self.trade_upper_lower_limit
        &&& self.trade_upper_lower_limit + 1 == self.trade_price.start
        &&& self.trade_price.start <= self.trade_price.end
        &&& self.trade_price.end == self.transaction_volume.start
        &&& self.transaction_volume.start <= self.transaction_volume.end
        &&& self.transaction_volume.end == self.buy_tick_size
        &&& self.buy_tick_size + 1 == self.buy_upper_lower_limit
        &&& self.buy_upper_lower_limit + 1 == self.buy_5_price_volume.start
        &&& self.buy_5_price_volume.start <= self.buy_5_price_volume.end
        &&& self.buy_5_price_volume.end == self.sell_tick_size
        &&& self.sell_tick_size + 1 == self.sell_upper_lower_limit
        &&& self.sell_upper_lower_limit + 1 == self.sell_5_price_volume.start
        &&& self.sell_5_price_volume.start <= self.sell_5_price_volume.end
        &&& self.sell_5_price_volume.end == self.display_date.start
        &&& self.display_date.start <= self.display_date.end
        &&& self.display_date.end == self.match_staff.start
        &&& self.match_staff.start <= self.match_staff.end
        &&& self.match_staff.end == self.total_len
    }
}

/// The offset table of the new, 190-character layout.
pub open spec fn new_offsets() -> OffsetTable {
    OffsetTable {
        variant: LayoutVariant::New,
        total_len: 190,
        securities_code: FieldRange { start: 0, end: 6 },
        display_time: FieldRange { start: 6, end: 18 },
        remark: 18,
        trend_flag: 19,
        match_flag: 20,
        trade_upper_lower_limit: 21,
        trade_price: FieldRange { start: 22, end: 28 },
        transaction_volume: FieldRange { start: 28, end: 36 },
        buy_tick_size: 36,
        buy_upper_lower_limit: 37,
        buy_5_price_volume: FieldRange { start: 38, end: 108 },
        sell_tick_size: 108,
        sell_upper_lower_limit: 109,
        sell_5_price_volume: FieldRange { start: 110, end: 180 },
        display_date: FieldRange { start: 180, end: 188 },
        match_staff: FieldRange { start: 188, end: 190 },
    }
}

/// The offset table of the old, 186-character layout: same field order,
/// `display_time` 8 characters wide instead of 12, so everything after
/// it sits 4 positions earlier.
pub open spec fn old_offsets() -> OffsetTable {
    OffsetTable {
        variant: LayoutVariant::Old,
        total_len: 186,
        securities_code: FieldRange { start: 0, end: 6 },
        display_time: FieldRange { start: 6, end: 14 },
        remark: 14,
        trend_flag: 15,
        match_flag: 16,
        trade_upper_lower_limit: 17,
        trade_price: FieldRange { start: 18, end: 24 },
        transaction_volume: FieldRange { start: 24, end: 32 },
        buy_tick_size: 32,
        buy_upper_lower_limit: 33,
        buy_5_price_volume: FieldRange { start: 34, end: 104 },
        sell_tick_size: 104,
        sell_upper_lower_limit: 105,
        sell_5_price_volume: FieldRange { start: 106, end: 176 },
        display_date: FieldRange { start: 176, end: 184 },
        match_staff: FieldRange { start: 184, end: 186 },
    }
}

/// Both layout tables are well formed: each tiles its line exactly.
pub proof fn lemma_offset_tables_wf()
    ensures
        new_offsets().wf(),
        old_offsets().wf(),
{
}

impl OffsetTable {
    /// Builds the offset table of the new layout.
    pub fn new_format() -> (t: OffsetTable)
        ensures
            t == new_offsets(),
            t.wf(),
    {
        OffsetTable {
            variant: LayoutVariant::New,
            total_len: 190,
            securities_code: FieldRange { start: 0, end: 6 },
            display_time: FieldRange { start: 6, end: 18 },
            remark: 18,
            trend_flag: 19,
            match_flag: 20,
            trade_upper_lower_limit: 21,
            trade_price: FieldRange { start: 22, end: 28 },
            transaction_volume: FieldRange { start: 28, end: 36 },
            buy_tick_size: 36,
            buy_upper_lower_limit: 37,
            buy_5_price_volume: FieldRange { start: 38, end: 108 },
            sell_tick_size: 108,
            sell_upper_lower_limit: 109,
            sell_5_price_volume: FieldRange { start: 110, end: 180 },
            display_date: FieldRange { start: 180, end: 188 },
            match_staff: FieldRange { start: 188, end: 190 },
        }
    }

    /// Builds the offset table of the old layout.
    pub fn old_format() -> (t: OffsetTable)
        ensures
            t == old_offsets(),
            t.wf(),
    {
        OffsetTable {
            variant: LayoutVariant::Old,
            total_len: 186,
            securities_code: FieldRange { start: 0, end: 6 },
            display_time: FieldRange { start: 6, end: 14 },
            remark: 14,
            trend_flag: 15,
            match_flag: 16,
            trade_upper_lower_limit: 17,
            trade_price: FieldRange { start: 18, end: 24 },
            transaction_volume: FieldRange { start: 24, end: 32 },
            buy_tick_size: 32,
            buy_upper_lower_limit: 33,
            buy_5_price_volume: FieldRange { start: 34, end: 104 },
            sell_tick_size: 104,
            sell_upper_lower_limit: 105,
            sell_5_price_volume: FieldRange { start: 106, end: 176 },
            display_date: FieldRange { start: 176, end: 184 },
            match_staff: FieldRange { start: 184, end: 186 },
        }
    }
}

} // verus!
