//! Laws of the decoder, proved once and for all: every text field is a
//! substring of the line at its documented offsets, decoding is
//! deterministic, and a truncated line defaults exactly the fields past
//! its end while leaving the earlier ones untouched.

use vstd::prelude::*;
use crate::layout::{LayoutVariant, OffsetTable, new_offsets, old_offsets};
use crate::record::{SnapshotRecordView, spec_decode};
use crate::text::{
    clip,
    field_text_spec,
    is_space,
    lemma_trim_all_spaces,
    lemma_trim_is_subrange,
    trim_spec,
};

verus! {

/// `field` is a contiguous piece of `line` lying within `[start, end)`.
pub open spec fn text_within(field: Seq<char>, line: Seq<char>, start: int, end: int) -> bool {
    exists|i: int, j: int| start <= i <= j <= end && field == line.subrange(i, j)
}

/// A trimmed text field read at `[start, end)` of a line long enough to
/// hold it is a substring of the line within that very range.
pub proof fn lemma_field_text_within(line: Seq<char>, start: int, end: int)
    requires
        0 <= start <= end <= line.len(),
    ensures
        text_within(field_text_spec(line, start, end), line, start, end),
{
    let piece = line.subrange(start, end);
    lemma_trim_is_subrange(piece);
    let (i, j) = choose|i: int, j: int|
        0 <= i <= j <= piece.len() && trim_spec(piece) == piece.subrange(i, j);
    assert(piece.subrange(i, j) =~= line.subrange(start + i, start + j));
    assert(start <= start + i <= start + j <= end && field_text_spec(line, start, end)
        == line.subrange(start + i, start + j));
}

/// On a line of exactly the new layout's length, decoding selects the
/// new layout and every field comes from its documented offsets: each
/// text field is a substring of the line within its declared range, and
/// each single-character field is the character at its declared
/// position.
pub proof fn lemma_new_layout_fields(line: Seq<char>, rv: SnapshotRecordView)
    requires
        line.len() == 190,
        rv == spec_decode(line, new_offsets()),
    ensures
        rv.variant == LayoutVariant::New,
        text_within(rv.securities_code, line, 0, 6),
        text_within(rv.display_time, line, 6, 18),
        rv.remark == line[18],
        rv.trend_flag == line[19],
        rv.match_flag == line[20],
        rv.trade_upper_lower_limit == line[21],
        text_within(rv.trade_price, line, 22, 28),
        text_within(rv.transaction_volume, line, 28, 36),
        rv.buy_tick_size == line[36],
        rv.buy_upper_lower_limit == line[37],
        text_within(rv.buy_5_price_volume, line, 38, 108),
        rv.sell_tick_size == line[108],
        rv.sell_upper_lower_limit == line[109],
        text_within(rv.sell_5_price_volume, line, 110, 180),
        text_within(rv.display_date, line, 180, 188),
        text_within(rv.match_staff, line, 188, 190),
{
    lemma_field_text_within(line, 0, 6);
    lemma_field_text_within(line, 6, 18);
    lemma_field_text_within(line, 22, 28);
    lemma_field_text_within(line, 28, 36);
    lemma_field_text_within(line, 38, 108);
    lemma_field_text_within(line, 110, 180);
    lemma_field_text_within(line, 180, 188);
    lemma_field_text_within(line, 188, 190);
}

/// The analogous law for the old layout: same field order, offsets
/// shifted 4 earlier from `trade_upper_lower_limit` on, `display_time`
/// 8 characters wide.
pub proof fn lemma_old_layout_fields(line: Seq<char>, rv: SnapshotRecordView)
    requires
        line.len() == 186,
        rv == spec_decode(line, old_offsets()),
    ensures
        rv.variant == LayoutVariant::Old,
        text_within(rv.securities_code, line, 0, 6),
        text_within(rv.display_time, line, 6, 14),
        rv.remark == line[14],
        rv.trend_flag == line[15],
        rv.match_flag == line[16],
        rv.trade_upper_lower_limit == line[17],
        text_within(rv.trade_price, line, 18, 24),
        text_within(rv.transaction_volume, line, 24, 32),
        rv.buy_tick_size == line[32],
        rv.buy_upper_lower_limit == line[33],
        text_within(rv.buy_5_price_volume, line, 34, 104),
        rv.sell_tick_size == line[104],
        rv.sell_upper_lower_limit == line[105],
        text_within(rv.sell_5_price_volume, line, 106, 176),
        text_within(rv.display_date, line, 176, 184),
        text_within(rv.match_staff, line, 184, 186),
{
    lemma_field_text_within(line, 0, 6);
    lemma_field_text_within(line, 6, 14);
    lemma_field_text_within(line, 18, 24);
    lemma_field_text_within(line, 24, 32);
    lemma_field_text_within(line, 34, 104);
    lemma_field_text_within(line, 106, 176);
    lemma_field_text_within(line, 176, 184);
    lemma_field_text_within(line, 184, 186);
}

/// A text field whose present characters are all whitespace decodes to
/// the empty text, not to a run of spaces.
pub proof fn lemma_all_space_field_empty(line: Seq<char>, start: int, end: int)
    requires
        0 <= start <= end,
        forall|k: int| start <= k < end && k < line.len() ==> is_space(line[k]),
    ensures
        field_text_spec(line, start, end).len() == 0,
{
    let lo = clip(start, line.len() as int);
    let hi = clip(end, line.len() as int);
    let piece = line.subrange(lo, hi);
    assert forall|k: int| 0 <= k < piece.len() implies is_space(piece[k]) by {
        assert(piece[k] == line[lo + k]);
    }
    lemma_trim_all_spaces(piece);
}

/// A text field that lies wholly within a prefix of a line reads the
/// same from the prefix as from the whole line.
pub proof fn lemma_prefix_field_text(line: Seq<char>, full: Seq<char>, start: int, end: int)
    requires
        0 <= start <= end <= line.len() <= full.len(),
        line == full.subrange(0, line.len() as int),
    ensures
        field_text_spec(line, start, end) == field_text_spec(full, start, end),
{
    assert(line.subrange(start, end) =~= full.subrange(start, end));
}

/// Decoding a truncated line: take a full-length line and any prefix of
/// it. Under the same offset table, every field lying wholly within the
/// prefix decodes from the prefix exactly as from the full line, and
/// every single-character field whose position the prefix no longer
/// reaches decodes to the default space.
pub proof fn lemma_truncated_line_decode(line: Seq<char>, full: Seq<char>, t: OffsetTable)
    requires
        t.wf(),
        line.len() <= full.len(),
        line == full.subrange(0, line.len() as int),
    ensures
        t.securities_code.end <= line.len() ==> spec_decode(line, t).securities_code
            == spec_decode(full, t).securities_code,
        t.display_time.end <= line.len() ==> spec_decode(line, t).display_time == spec_decode(
            full,
            t,
        ).display_time,
        t.remark < line.len() ==> spec_decode(line, t).remark == spec_decode(full, t).remark,
        t.trend_flag < line.len() ==> spec_decode(line, t).trend_flag == spec_decode(
            full,
            t,
        ).trend_flag,
        t.match_flag < line.len() ==> spec_decode(line, t).match_flag == spec_decode(
            full,
            t,
        ).match_flag,
        t.trade_upper_lower_limit < line.len() ==> spec_decode(line, t).trade_upper_lower_limit
            == spec_decode(full, t).trade_upper_lower_limit,
        t.trade_price.end <= line.len() ==> spec_decode(line, t).trade_price == spec_decode(
            full,
            t,
        ).trade_price,
        t.transaction_volume.end <= line.len() ==> spec_decode(line, t).transaction_volume
            == spec_decode(full, t).transaction_volume,
        t.buy_tick_size < line.len() ==> spec_decode(line, t).buy_tick_size == spec_decode(
            full,
            t,
        ).buy_tick_size,
        t.buy_upper_lower_limit < line.len() ==> spec_decode(line, t).buy_upper_lower_limit
            == spec_decode(full, t).buy_upper_lower_limit,
        t.buy_5_price_volume.end <= line.len() ==> spec_decode(line, t).buy_5_price_volume
            == spec_decode(full, t).buy_5_price_volume,
        t.sell_tick_size < line.len() ==> spec_decode(line, t).sell_tick_size == spec_decode(
            full,
            t,
        ).sell_tick_size,
        t.sell_upper_lower_limit < line.len() ==> spec_decode(line, t).sell_upper_lower_limit
            == spec_decode(full, t).sell_upper_lower_limit,
        t.sell_5_price_volume.end <= line.len() ==> spec_decode(line, t).sell_5_price_volume
            == spec_decode(full, t).sell_5_price_volume,
        t.display_date.end <= line.len() ==> spec_decode(line, t).display_date == spec_decode(
            full,
            t,
        ).display_date,
        t.match_staff.end <= line.len() ==> spec_decode(line, t).match_staff == spec_decode(
            full,
            t,
        ).match_staff,
        line.len() <= t.remark ==> spec_decode(line, t).remark == ' ',
        line.len() <= t.trend_flag ==> spec_decode(line, t).trend_flag == ' ',
        line.len() <= t.match_flag ==> spec_decode(line, t).match_flag == ' ',
        line.len() <= t.trade_upper_lower_limit ==> spec_decode(line, t).trade_upper_lower_limit
            == ' ',
        line.len() <= t.buy_tick_size ==> spec_decode(line, t).buy_tick_size == ' ',
        line.len() <= t.buy_upper_lower_limit ==> spec_decode(line, t).buy_upper_lower_limit == ' ',
        line.len() <= t.sell_tick_size ==> spec_decode(line, t).sell_tick_size == ' ',
        line.len() <= t.sell_upper_lower_limit ==> spec_decode(line, t).sell_upper_lower_limit
            == ' ',
{
    if t.securities_code.end <= line.len() {
        lemma_prefix_field_text(
            line,
            full,
            t.securities_code.start as int,
            t.securities_code.end as int,
        );
    }
    if t.display_time.end <= line.len() {
        lemma_prefix_field_text(line, full, t.display_time.start as int, t.display_time.end as int);
    }
    if t.trade_price.end <= line.len() {
        lemma_prefix_field_text(line, full, t.trade_price.start as int, t.trade_price.end as int);
    }
    if t.transaction_volume.end <= line.len() {
        lemma_prefix_field_text(
            line,
            full,
            t.transaction_volume.start as int,
            t.transaction_volume.end as int,
        );
    }
    if t.buy_5_price_volume.end <= line.len() {
        lemma_prefix_field_text(
            line,
            full,
            t.buy_5_price_volume.start as int,
            t.buy_5_price_volume.end as int,
        );
    }
    if t.sell_5_price_volume.end <= line.len() {
        lemma_prefix_field_text(
            line,
            full,
            t.sell_5_price_volume.start as int,
            t.sell_5_price_volume.end as int,
        );
    }
    if t.display_date.end <= line.len() {
        lemma_prefix_field_text(line, full, t.display_date.start as int, t.display_date.end as int);
    }
    if t.match_staff.end <= line.len() {
        lemma_prefix_field_text(line, full, t.match_staff.start as int, t.match_staff.end as int);
    }
}

/// Decoding is deterministic: two decodes of the same line under the
/// same offset table yield field-for-field identical records.
pub proof fn lemma_decode_deterministic(
    line: Seq<char>,
    t: OffsetTable,
    r1: SnapshotRecordView,
    r2: SnapshotRecordView,
)
    requires
        r1 == spec_decode(line, t),
        r2 == spec_decode(line, t),
    ensures
        r1 == r2,
{
}

} // verus!
