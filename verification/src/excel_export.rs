use crate::text::{decimal, decimal_2, digit_char, push_decimal_2};
use vstd::prelude::*;

verus! {

broadcast use vstd::string::group_string_axioms;

/// At most this many data rows go into one report: a worksheet holds
/// 1 048 576 rows, and row 0 is the header row.
pub const MAX_REPORT_ROWS: u32 = 1048575;

/// Volume offset: data row `i` reports a volume of `BASE_VOLUME + i`.
pub const BASE_VOLUME: u32 = 15000;

/// Column captions of a trading report, left to right.
pub open spec fn report_header_texts() -> Seq<Seq<char>> {
    seq!["Timestamp"@, "Symbol"@, "Open"@, "High"@, "Low"@, "Close"@, "Volume"@]
}

/// The timestamp written in data row `row`: minutes and seconds past
/// 10:00, each at least two digits.
pub open spec fn report_timestamp_text(row: nat) -> Seq<char> {
    "2026-08-03T10:"@ + decimal_2(row / 60) + ":"@ + decimal_2(row % 60)
}

/// Below a hundred, the two-digit notation is the tens digit followed by the
/// units digit.
pub proof fn lemma_two_digits(n: nat)
    requires
        n < 100,
    ensures
        decimal_2(n) == seq![digit_char(n / 10), digit_char(n % 10)],
        decimal_2(n).len() == 2,
{
    reveal_with_fuel(decimal, 2);
    if n < 10 {
        assert(n / 10 == 0 && n % 10 == n);
        assert(decimal_2(n) =~= seq![digit_char(n / 10), digit_char(n % 10)]);
    } else {
        assert(n / 10 < 10);
        assert(decimal(n / 10) == seq![digit_char(n / 10)]);
        assert(decimal_2(n) =~= seq![digit_char(n / 10), digit_char(n % 10)]);
    }
}

/// Every timestamp ends in ':' and exactly two digits, the tens and the
/// units of the seconds `row % 60`, after the date, the hour and the
/// zero-padded minutes `row / 60`.
pub proof fn lemma_timestamp_shape(row: nat)
    ensures
        report_timestamp_text(row) == "2026-08-03T10:"@ + decimal_2(row / 60) + seq![
            ':',
            digit_char((row % 60) / 10),
            digit_char((row % 60) % 10),
        ],
        ({
            let t = report_timestamp_text(row);
            &&& t.len() >= 3
            &&& t[t.len() - 3] == ':'
            &&& t[t.len() - 2] == digit_char((row % 60) / 10)
            &&& t[t.len() - 1] == digit_char((row % 60) % 10)
        }),
        row < 6000 ==> report_timestamp_text(row).len() == 19,
{
    reveal_strlit(":");
    reveal_strlit("2026-08-03T10:");
    lemma_two_digits(row % 60);
    let t = report_timestamp_text(row);
    assert(t =~= "2026-08-03T10:"@ + decimal_2(row / 60) + seq![
        ':',
        digit_char((row % 60) / 10),
        digit_char((row % 60) % 10),
    ]);
    if row < 6000 {
        lemma_two_digits(row / 60);
    }
}

/// Native Excel export engine: lays out trading reports of a million rows
/// and more, up to a full worksheet.
pub struct ExcelExportEngine;

impl ExcelExportEngine {
    /// The column captions of the header row.
    pub fn report_headers() -> (headers: Vec<&'static str>)
        ensures
            headers@.map_values(|h: &'static str| h@) == report_header_texts(),
    {
        let headers = vec!["Timestamp", "Symbol", "Open", "High", "Low", "Close", "Volume"];
        assert(headers@.map_values(|h: &'static str| h@) =~= report_header_texts());
        headers
    }

    /// How many data rows a report asked for `rows_count` rows holds: the
    /// request itself, up to the worksheet's `MAX_REPORT_ROWS` data rows.
    /// Data rows are numbered from 1.
    pub fn report_row_count(rows_count: usize) -> (rows: u32)
        ensures
            rows == (if rows_count < MAX_REPORT_ROWS { rows_count as u32 } else { MAX_REPORT_ROWS }),
            rows <= MAX_REPORT_ROWS,
    {
        if rows_count < MAX_REPORT_ROWS as usize {
            rows_count as u32
        } else {
            MAX_REPORT_ROWS
        }
    }

    /// The timestamp cell of data row `row`.
    pub fn report_timestamp(row: u32) -> (text: String)
        ensures
            text@ == report_timestamp_text(row as nat),
            text@ == "2026-08-03T10:"@ + decimal_2((row / 60) as nat) + seq![
                ':',
                digit_char(((row % 60) / 10) as nat),
                digit_char(((row % 60) % 10) as nat),
            ],
    {
        let mut text = "2026-08-03T10:".to_string();
        push_decimal_2(&mut text, row / 60);
        text.append(":");
        push_decimal_2(&mut text, row % 60);
        proof {
            lemma_timestamp_shape(row as nat);
        }
        text
    }

    /// The volume cell of data row `row`.
    pub fn report_volume(row: u32) -> (volume: u32)
        requires
            row <= u32::MAX - BASE_VOLUME,
        ensures
            volume == BASE_VOLUME + row,
    {
        BASE_VOLUME + row
    }
}

} // verus!
