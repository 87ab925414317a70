use wrk2_wrapper::error::ParseError;
use wrk2_wrapper::latency::{extract_latency_table, extract_uncorrected_latency, latency_row};
use wrk2_wrapper::pattern::{match_groups, LATENCY_PATTERN};

fn pair(percentile: &str, latency: &str) -> (String, String) {
    (percentile.to_string(), latency.to_string())
}

#[test]
fn table_lists_the_percentile_lines_in_order() {
    let section = " header))\n 50.000%    1.23ms\n 75.000%    2.34ms\n100.000%   53.00ms";
    assert_eq!(
        extract_latency_table(section),
        Ok(vec![pair("50.000", "1.23ms"), pair("75.000", "2.34ms"), pair("100.000", "53.00ms")])
    );
}

#[test]
fn stray_line_between_two_percentile_lines_is_ignored() {
    let section = " 50.000%  1.23ms\n-- a note of the tool --\n 99.000%  45.67ms";
    assert_eq!(
        extract_latency_table(section),
        Ok(vec![pair("50.000", "1.23ms"), pair("99.000", "45.67ms")])
    );
}

#[test]
fn blank_lines_between_percentile_lines_are_skipped() {
    let section = "\n   \n 50.000%  1.23ms\n\t\n\r\n 99.000%  45.67ms\n \n";
    assert_eq!(
        extract_latency_table(section),
        Ok(vec![pair("50.000", "1.23ms"), pair("99.000", "45.67ms")])
    );
}

#[test]
fn table_keeps_duplicates_and_order() {
    let section = "99% 3ms\n50% 1ms\n99% 3ms\n50% 2ms";
    assert_eq!(
        extract_latency_table(section),
        Ok(vec![pair("99", "3ms"), pair("50", "1ms"), pair("99", "3ms"), pair("50", "2ms")])
    );
}

#[test]
fn percentile_may_be_an_integer_or_a_decimal() {
    assert_eq!(extract_latency_table("50% 1ms"), Ok(vec![pair("50", "1ms")]));
    assert_eq!(extract_latency_table("99.999% 1ms"), Ok(vec![pair("99.999", "1ms")]));
}

#[test]
fn latency_is_the_rest_of_the_line_as_printed() {
    assert_eq!(
        extract_latency_table("  90.000%   3.45 ms (slow)  "),
        Ok(vec![pair("90.000", "3.45 ms (slow)")])
    );
}

#[test]
fn percentile_line_is_found_behind_other_text() {
    assert_eq!(extract_latency_table("p: 50.000% 1ms"), Ok(vec![pair("50.000", "1ms")]));
}

#[test]
fn table_of_blank_lines_is_empty_latency_table() {
    assert_eq!(extract_latency_table(""), Err(ParseError::EmptyLatencyTable));
    assert_eq!(extract_latency_table("\n \n\t\n"), Err(ParseError::EmptyLatencyTable));
}

#[test]
fn table_without_percentile_lines_is_empty_latency_table() {
    assert_eq!(
        extract_latency_table(" header\n50.000 1ms\n50.000%\n% 1ms"),
        Err(ParseError::EmptyLatencyTable)
    );
}

#[test]
fn marker_and_terminator_with_blank_lines_between_is_empty_latency_table() {
    let text = "Uncorrected Latency\n   \n\t\n \n\nrest";
    assert_eq!(extract_uncorrected_latency(text), Err(ParseError::EmptyLatencyTable));
    assert_eq!(
        extract_uncorrected_latency("Uncorrected Latency\n\n"),
        Err(ParseError::EmptyLatencyTable)
    );
    assert_eq!(
        extract_uncorrected_latency("Uncorrected Latency\n \n  Detailed Percentile spectrum"),
        Err(ParseError::EmptyLatencyTable)
    );
}

#[test]
fn uncorrected_latency_is_read_from_its_section_only() {
    let text = "Recorded Latency\n 50.000% 9ms\n\nUncorrected Latency (measured)\n 50.000% 1ms\n 99.000% 2ms\n\n  Detailed Percentile spectrum:\n 77.000% 7ms\n";
    assert_eq!(
        extract_uncorrected_latency(text),
        Ok(vec![pair("50.000", "1ms"), pair("99.000", "2ms")])
    );
}

#[test]
fn uncorrected_latency_stops_at_the_next_marker() {
    let text = "Uncorrected Latency\n 50.000% 1ms\nDetailed Percentile spectrum\n 99.000% 2ms\n\n";
    assert_eq!(extract_uncorrected_latency(text), Ok(vec![pair("50.000", "1ms")]));
}

#[test]
fn uncorrected_latency_without_marker_is_missing_section() {
    assert_eq!(
        extract_uncorrected_latency(" 50.000% 1ms\n\n"),
        Err(ParseError::MissingSection)
    );
}

#[test]
fn uncorrected_latency_without_end_is_missing_section_end() {
    assert_eq!(
        extract_uncorrected_latency("Uncorrected Latency\n 50.000% 1ms\n"),
        Err(ParseError::MissingSectionEnd)
    );
}

#[test]
fn latency_row_takes_the_first_two_groups() {
    let found = Some(vec![
        Some(String::from("50.000%  1.23ms")),
        Some(String::from("50.000")),
        Some(String::from("1.23ms")),
    ]);
    assert_eq!(latency_row(&found), Some(pair("50.000", "1.23ms")));
}

#[test]
fn latency_row_of_no_match_is_none() {
    assert_eq!(latency_row(&None), None);
    assert_eq!(latency_row(&Some(vec![])), None);
    assert_eq!(latency_row(&Some(vec![Some(String::from("x")), Some(String::from("y"))])), None);
    assert_eq!(
        latency_row(&Some(vec![Some(String::from("x")), None, Some(String::from("y"))])),
        None
    );
}

#[test]
fn latency_pattern_captures_percentile_and_latency() {
    assert_eq!(
        match_groups(LATENCY_PATTERN, "99.000%   45.67ms"),
        Ok(Some(vec![
            Some(String::from("99.000%   45.67ms")),
            Some(String::from("99.000")),
            Some(String::from("45.67ms")),
        ]))
    );
    assert_eq!(match_groups(LATENCY_PATTERN, "Detailed spectrum"), Ok(None));
}
