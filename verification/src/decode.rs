//! The record decoder: one table-driven extractor shared by both
//! layouts, and the length dispatch that selects the layout or rejects
//! the line.

use vstd::prelude::*;
use crate::layout::OffsetTable;
use crate::record::{DecodeError, SnapshotRecord, spec_decode};
use crate::text::{char_at_or_space, field_text};

verus! {

/// Decodes `line` under the offset table `t`: reads every field at the
/// table's offsets. Total in the line: a line shorter than the table
/// expects yields defaulted or clipped trailing fields, never a fault.
pub fn decode_with_table(line: &str, t: &OffsetTable) -> (r: SnapshotRecord)
    requires
        t.wf(),
    ensures
        r@ == spec_decode(line@, *t),
{
    SnapshotRecord {
        variant: t.variant,
        securities_code: field_text(line, t.securities_code.start, t.securities_code.end),
        display_time: field_text(line, t.display_time.start, t.display_time.end),
        remark: char_at_or_space(line, t.remark),
        trend_flag: char_at_or_space(line, t.trend_flag),
        match_flag: char_at_or_space(line, t.match_flag),
        trade_upper_lower_limit: char_at_or_space(line, t.trade_upper_lower_limit),
        trade_price: field_text(line, t.trade_price.start, t.trade_price.end),
        transaction_volume: field_text(line, t.transaction_volume.start, t.transaction_volume.end),
        buy_tick_size: char_at_or_space(line, t.buy_tick_size),
        buy_upper_lower_limit: char_at_or_space(line, t.buy_upper_lower_limit),
        buy_5_price_volume: field_text(line, t.buy_5_price_volume.start, t.buy_5_price_volume.end),
        sell_tick_size: char_at_or_space(line, t.sell_tick_size),
        sell_upper_lower_limit: char_at_or_space(line, t.sell_upper_lower_limit),
        sell_5_price_volume: field_text(
            line,
            t.sell_5_price_volume.start,
            t.sell_5_price_volume.end,
        ),
        display_date: field_text(line, t.display_date.start, t.display_date.end),
        match_staff: field_text(line, t.match_staff.start, t.match_staff.end),
    }
}

/// Decodes `line` as a record of the new, 190-character layout.
pub fn parse_new_format(line: &str) -> (r: SnapshotRecord)
    ensures
        r@ == spec_decode(line@, crate::layout::new_offsets()),
{
    let t = OffsetTable::new_format();
    decode_with_table(line, &t)
}

/// Decodes `line` as a record of the old, 186-character layout.
pub fn parse_old_format(line: &str) -> (r: SnapshotRecord)
    ensures
        r@ == spec_decode(line@, crate::layout::old_offsets()),
{
    let t = OffsetTable::old_format();
    decode_with_table(line, &t)
}

/// Decodes one snapshot line. The line's character length selects the
/// layout: 190 decodes under the new table, 186 under the old one, and
/// any other length is rejected with `UnrecognizedLength` carrying that
/// length and the line unchanged.
pub fn decode_line(line: &str) -> (res: Result<SnapshotRecord, DecodeError>)
    ensures
        line@.len() == 190 ==> (res matches Ok(r) && r@ == spec_decode(
            line@,
            crate::layout::new_offsets(),
        )),
        line@.len() == 186 ==> (res matches Ok(r) && r@ == spec_decode(
            line@,
            crate::layout::old_offsets(),
        )),
        line@.len() != 190 && line@.len() != 186 ==> (res matches Err(
            DecodeError::UnrecognizedLength { length, line: content },
        ) && length == line@.len() && content@ == line@),
{
    let n = line.unicode_len();
    if n == 190 {
        Ok(parse_new_format(line))
    } else if n == 186 {
        Ok(parse_old_format(line))
    } else {
        Err(DecodeError::UnrecognizedLength { length: n, line: line.to_owned() })
    }
}

} // verus!
