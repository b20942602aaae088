use twse_snapshot::{decode_line, parse_new_format, parse_old_format};
use twse_snapshot::{DecodeError, LayoutVariant};

/// A well-formed 190-character line of the new layout.
fn new_line() -> String {
    let mut s = String::new();
    s.push_str("2330  "); // securities_code, [0, 6)
    s.push_str("09:00:00.000"); // display_time, [6, 18)
    s.push(' '); // remark, 18
    s.push('0'); // trend_flag, 19
    s.push('A'); // match_flag, 20
    s.push(' '); // trade_upper_lower_limit, 21
    s.push_str("0625.0"); // trade_price, [22, 28)
    s.push_str("00001234"); // transaction_volume, [28, 36)
    s.push('1'); // buy_tick_size, 36
    s.push(' '); // buy_upper_lower_limit, 37
    s.push(' '); // buy_5_price_volume, [38, 108)
    s.push_str(&"b".repeat(68));
    s.push(' ');
    s.push('2'); // sell_tick_size, 108
    s.push('+'); // sell_upper_lower_limit, 109
    s.push(' '); // sell_5_price_volume, [110, 180)
    s.push_str(&"s".repeat(68));
    s.push(' ');
    s.push_str("20200301"); // display_date, [180, 188)
    s.push_str("XY"); // match_staff, [188, 190)
    assert_eq!(s.chars().count(), 190);
    s
}

/// The analogous 186-character line of the old layout: display_time is
/// 8 characters wide, everything after it sits 4 positions earlier.
fn old_line() -> String {
    let mut s = String::new();
    s.push_str("2330  "); // securities_code, [0, 6)
    s.push_str("09:00:00"); // display_time, [6, 14)
    s.push(' '); // remark, 14
    s.push('0'); // trend_flag, 15
    s.push('A'); // match_flag, 16
    s.push(' '); // trade_upper_lower_limit, 17
    s.push_str("0625.0"); // trade_price, [18, 24)
    s.push_str("00001234"); // transaction_volume, [24, 32)
    s.push('1'); // buy_tick_size, 32
    s.push(' '); // buy_upper_lower_limit, 33
    s.push(' '); // buy_5_price_volume, [34, 104)
    s.push_str(&"b".repeat(68));
    s.push(' ');
    s.push('2'); // sell_tick_size, 104
    s.push('+'); // sell_upper_lower_limit, 105
    s.push(' '); // sell_5_price_volume, [106, 176)
    s.push_str(&"s".repeat(68));
    s.push(' ');
    s.push_str("20200301"); // display_date, [176, 184)
    s.push_str("XY"); // match_staff, [184, 186)
    assert_eq!(s.chars().count(), 186);
    s
}

#[test]
fn new_format_end_to_end() {
    let line = new_line();
    let r = decode_line(&line).expect("length 190 must decode");
    assert_eq!(r.variant, LayoutVariant::New);
    assert_eq!(r.securities_code, "2330");
    assert_eq!(r.display_time, "09:00:00.000");
    assert_eq!(r.remark, ' ');
    assert_eq!(r.trend_flag, '0');
    assert_eq!(r.match_flag, 'A');
    assert_eq!(r.trade_upper_lower_limit, ' ');
    assert_eq!(r.trade_price, "0625.0");
    assert_eq!(r.transaction_volume, "00001234");
    assert_eq!(r.buy_tick_size, '1');
    assert_eq!(r.buy_upper_lower_limit, ' ');
    assert_eq!(r.buy_5_price_volume, "b".repeat(68));
    assert_eq!(r.sell_tick_size, '2');
    assert_eq!(r.sell_upper_lower_limit, '+');
    assert_eq!(r.sell_5_price_volume, "s".repeat(68));
    assert_eq!(r.display_date, "20200301");
    assert_eq!(r.match_staff, "XY");
}

#[test]
fn old_format_end_to_end() {
    let line = old_line();
    let r = decode_line(&line).expect("length 186 must decode");
    assert_eq!(r.variant, LayoutVariant::Old);
    assert_eq!(r.securities_code, "2330");
    assert_eq!(r.display_time, "09:00:00");
    assert_eq!(r.remark, ' ');
    assert_eq!(r.trend_flag, '0');
    assert_eq!(r.match_flag, 'A');
    assert_eq!(r.trade_upper_lower_limit, ' ');
    assert_eq!(r.trade_price, "0625.0");
    assert_eq!(r.transaction_volume, "00001234");
    assert_eq!(r.buy_tick_size, '1');
    assert_eq!(r.buy_upper_lower_limit, ' ');
    assert_eq!(r.buy_5_price_volume, "b".repeat(68));
    assert_eq!(r.sell_tick_size, '2');
    assert_eq!(r.sell_upper_lower_limit, '+');
    assert_eq!(r.sell_5_price_volume, "s".repeat(68));
    assert_eq!(r.display_date, "20200301");
    assert_eq!(r.match_staff, "XY");
}

#[test]
fn parse_functions_match_dispatch() {
    let line = new_line();
    assert_eq!(parse_new_format(&line), decode_line(&line).unwrap());
    let line = old_line();
    assert_eq!(parse_old_format(&line), decode_line(&line).unwrap());
}

#[test]
fn length_185_rejected_and_processing_resumes() {
    let mut short = new_line();
    for _ in 0..5 {
        short.pop();
    }
    assert_eq!(short.chars().count(), 185);
    match decode_line(&short) {
        Err(DecodeError::UnrecognizedLength { length, line }) => {
            assert_eq!(length, 185);
            assert_eq!(line, short);
        }
        Ok(_) => panic!("length 185 must not decode"),
    }
    // The failure is per line: the next line still decodes.
    let next = new_line();
    assert!(decode_line(&next).is_ok());
}

#[test]
fn empty_line_rejected_when_reaching_decoder() {
    match decode_line("") {
        Err(DecodeError::UnrecognizedLength { length, line }) => {
            assert_eq!(length, 0);
            assert_eq!(line, "");
        }
        Ok(_) => panic!("length 0 must not decode"),
    }
}

#[test]
fn other_lengths_rejected_with_content_unchanged() {
    for n in [1usize, 100, 185, 187, 189, 191, 200] {
        let line = "x".repeat(n);
        match decode_line(&line) {
            Err(DecodeError::UnrecognizedLength { length, line: content }) => {
                assert_eq!(length, n);
                assert_eq!(content, line);
            }
            Ok(_) => panic!("length {} must not decode", n),
        }
    }
}

#[test]
fn decoding_twice_is_identical() {
    let line = new_line();
    let first = decode_line(&line).unwrap();
    let second = decode_line(&line).unwrap();
    assert_eq!(first, second);
    let line = old_line();
    let first = decode_line(&line).unwrap();
    let second = decode_line(&line).unwrap();
    assert_eq!(first, second);
}

#[test]
fn all_space_field_decodes_to_empty() {
    let mut line = new_line();
    line.replace_range(0..6, "      ");
    let r = decode_line(&line).unwrap();
    assert_eq!(r.securities_code, "");
    assert_eq!(r.display_time, "09:00:00.000");
}

#[test]
fn tabs_and_spaces_are_trimmed() {
    let mut line = new_line();
    line.replace_range(22..28, "\t 42 \t");
    let r = decode_line(&line).unwrap();
    assert_eq!(r.trade_price, "42");
}

#[test]
fn truncated_line_defaults_trailing_single_characters() {
    // A line of the new layout cut to 109 characters: everything up to
    // position 108 decodes as from the full line, the rest defaults.
    let full = new_line();
    let cut: String = full.chars().take(109).collect();
    let r = parse_new_format(&cut);
    assert_eq!(r.variant, LayoutVariant::New);
    assert_eq!(r.securities_code, "2330");
    assert_eq!(r.display_time, "09:00:00.000");
    assert_eq!(r.trade_price, "0625.0");
    assert_eq!(r.transaction_volume, "00001234");
    assert_eq!(r.buy_5_price_volume, "b".repeat(68));
    assert_eq!(r.sell_tick_size, '2'); // position 108, still present
    assert_eq!(r.sell_upper_lower_limit, ' '); // position 109, defaulted
    assert_eq!(r.sell_5_price_volume, ""); // range wholly past the end
    assert_eq!(r.display_date, "");
    assert_eq!(r.match_staff, "");
}

#[test]
fn truncation_before_all_single_characters() {
    // Cut inside transaction_volume: the partial field is still read,
    // every later single-character field is a space, every later text
    // field is empty.
    let full = new_line();
    let cut: String = full.chars().take(30).collect();
    let r = parse_new_format(&cut);
    assert_eq!(r.securities_code, "2330");
    assert_eq!(r.trade_price, "0625.0");
    assert_eq!(r.transaction_volume, "00");
    assert_eq!(r.buy_tick_size, ' ');
    assert_eq!(r.buy_upper_lower_limit, ' ');
    assert_eq!(r.buy_5_price_volume, "");
    assert_eq!(r.sell_tick_size, ' ');
    assert_eq!(r.sell_upper_lower_limit, ' ');
    assert_eq!(r.sell_5_price_volume, "");
    assert_eq!(r.display_date, "");
    assert_eq!(r.match_staff, "");
}
