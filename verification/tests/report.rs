use wrk2_wrapper::error::{NumberField, ParseError, ThroughputLine};
use wrk2_wrapper::grouping::format_u64_with_commas;
use wrk2_wrapper::number::truncate_decimal;
use wrk2_wrapper::pattern::{
    group_text, match_groups, REQUESTS_PATTERN, SUMMARY_PATTERN, TRANSFER_PATTERN,
};
use wrk2_wrapper::report::{
    assemble_report, parse_wrk2_output, requests_per_sec_field, summary_fields,
    transfer_per_sec_field, Wrk2Result,
};

const SUMMARY: &str = "  1000000 requests in 30.00s, 512.34MB read\n";
const REQUESTS: &str = "Requests/sec:  33333.33\n";
const TRANSFER: &str = "Transfer/sec:     17.07MB\n";
const LATENCY: &str = "  Latency Distribution (HdrHistogram - Uncorrected Latency (measured without taking delayed starts into account))\n 50.000%  1.23ms\n 99.000%  45.67ms\n\n";

fn pair(percentile: &str, latency: &str) -> (String, String) {
    (percentile.to_string(), latency.to_string())
}

fn groups(texts: &[&str]) -> Option<Vec<Option<String>>> {
    Some(texts.iter().map(|t| Some(t.to_string())).collect())
}

fn full_report() -> String {
    [
        "Running 30s test @ http://127.0.0.1:8080/\n",
        "  2 threads and 100 connections\n",
        "  Thread calibration: mean lat.: 1.234ms, rate sampling interval: 10ms\n",
        "  Thread Stats   Avg      Stdev     Max   +/- Stdev\n",
        "    Latency     1.23ms    0.45ms   12.34ms   78.90%\n",
        "    Req/Sec     1.05k   123.45     2.00k    67.89%\n",
        "  Latency Distribution (HdrHistogram - Recorded Latency)\n",
        " 50.000%    1.10ms\n",
        " 75.000%    1.50ms\n",
        " 90.000%    2.00ms\n",
        " 99.000%   10.00ms\n",
        "100.000%   12.34ms\n",
        "\n",
        "  Detailed Percentile spectrum:\n",
        "       Value   Percentile   TotalCount 1/(1-Percentile)\n",
        "\n",
        "       0.100     0.000000            1         1.00\n",
        "      12.340     1.000000       999000          inf\n",
        "#[Mean    =        1.230, StdDeviation   =        0.450]\n",
        "----------------------------------------------------------\n",
        "\n",
        "  Latency Distribution (HdrHistogram - Uncorrected Latency (measured without taking delayed starts into account))\n",
        " 50.000%    1.23ms\n",
        " 75.000%    2.34ms\n",
        " 90.000%    3.45ms\n",
        " 99.000%   45.67ms\n",
        " 99.900%   50.00ms\n",
        " 99.990%   51.00ms\n",
        " 99.999%   52.00ms\n",
        "100.000%   53.00ms\n",
        "\n",
        "  Detailed Percentile spectrum:\n",
        "       Value   Percentile   TotalCount 1/(1-Percentile)\n",
        "\n",
        "       0.090     0.000000            1         1.00\n",
        "      53.000     1.000000       999000          inf\n",
        "----------------------------------------------------------\n",
        "  1000000 requests in 30.00s, 512.34MB read\n",
        "Requests/sec:  33333.33\n",
        "Transfer/sec:     17.07MB\n",
    ]
    .concat()
}

#[test]
fn parses_the_parts_in_any_order_of_appearance() {
    let text = [SUMMARY, REQUESTS, TRANSFER, LATENCY].concat();
    let report = parse_wrk2_output(&text).unwrap();
    assert_eq!(report.total_requests, 1000000);
    assert_eq!(report.duration, "30.00s");
    assert_eq!(report.data_read, "512.34MB");
    assert_eq!(report.requests_per_sec, "33333.33");
    assert_eq!(report.requests_per_sec.parse::<f64>().unwrap(), 33333.33);
    assert_eq!(report.transfer_per_sec, "17.07MB");
    assert_eq!(
        report.uncorrected_latency,
        vec![pair("50.000", "1.23ms"), pair("99.000", "45.67ms")]
    );
    assert_eq!(format_u64_with_commas(report.total_requests), "1,000,000");
    assert_eq!(parse_wrk2_output(&[LATENCY, TRANSFER, REQUESTS, SUMMARY].concat()), Ok(report));
}

#[test]
fn parses_a_whole_report() {
    let report = parse_wrk2_output(&full_report()).unwrap();
    assert_eq!(
        report,
        Wrk2Result {
            total_requests: 1000000,
            duration: String::from("30.00s"),
            data_read: String::from("512.34MB"),
            requests_per_sec: String::from("33333.33"),
            transfer_per_sec: String::from("17.07MB"),
            uncorrected_latency: vec![
                pair("50.000", "1.23ms"),
                pair("75.000", "2.34ms"),
                pair("90.000", "3.45ms"),
                pair("99.000", "45.67ms"),
                pair("99.900", "50.00ms"),
                pair("99.990", "51.00ms"),
                pair("99.999", "52.00ms"),
                pair("100.000", "53.00ms"),
            ],
        }
    );
    let rate = report.requests_per_sec.parse::<f64>().unwrap();
    assert_eq!(rate, 33333.33);
    assert_eq!(truncate_decimal(&report.requests_per_sec), rate as u64);
    assert_eq!(format_u64_with_commas(truncate_decimal(&report.requests_per_sec)), "33,333");
}

#[test]
fn parsing_twice_gives_the_same_report() {
    let text = full_report();
    assert_eq!(parse_wrk2_output(&text), parse_wrk2_output(&text));
    let broken = [SUMMARY, REQUESTS].concat();
    assert_eq!(parse_wrk2_output(&broken), parse_wrk2_output(&broken));
}

#[test]
fn first_occurrence_of_each_line_is_used() {
    let text = [
        SUMMARY,
        REQUESTS,
        TRANSFER,
        LATENCY,
        "  7 requests in 1.00s, 2.00KB read\n",
        "Requests/sec:  7.00\n",
        "Transfer/sec:  2.00KB\n",
    ]
    .concat();
    let report = parse_wrk2_output(&text).unwrap();
    assert_eq!(report.total_requests, 1000000);
    assert_eq!(report.requests_per_sec, "33333.33");
    assert_eq!(report.transfer_per_sec, "17.07MB");
}

#[test]
fn units_are_kept_as_printed() {
    let text = [
        "12 requests in 1.50m, 0.25GiB read\n",
        "Requests/sec: 0.13\n",
        "Transfer/sec: 2.84parsecs\n",
        LATENCY,
    ]
    .concat();
    let report = parse_wrk2_output(&text).unwrap();
    assert_eq!(report.total_requests, 12);
    assert_eq!(report.duration, "1.50m");
    assert_eq!(report.data_read, "0.25GiB");
    assert_eq!(report.requests_per_sec, "0.13");
    assert_eq!(report.transfer_per_sec, "2.84parsecs");
}

#[test]
fn units_may_hold_any_character_but_whitespace() {
    let text = [
        "12 requests in 1.50min., 0.25GiB/total read\n",
        "Requests/sec: 0.13/s\n",
        "Transfer/sec: 2.84MB/s (peak)\n",
        LATENCY,
    ]
    .concat();
    let report = parse_wrk2_output(&text).unwrap();
    assert_eq!(report.duration, "1.50min.");
    assert_eq!(report.data_read, "0.25GiB/total");
    assert_eq!(report.requests_per_sec, "0.13");
    assert_eq!(report.transfer_per_sec, "2.84MB/s");
}

#[test]
fn missing_summary_line() {
    let text = [REQUESTS, TRANSFER, LATENCY].concat();
    assert_eq!(parse_wrk2_output(&text), Err(ParseError::MissingSummary));
    assert_eq!(parse_wrk2_output(""), Err(ParseError::MissingSummary));
    let lower = ["1000000 Requests in 30.00s, 512.34MB read\n", REQUESTS, TRANSFER, LATENCY];
    assert_eq!(parse_wrk2_output(&lower.concat()), Err(ParseError::MissingSummary));
}

#[test]
fn request_count_beyond_u64_is_malformed() {
    let text =
        ["99999999999999999999999 requests in 30.00s, 1.00MB read\n", REQUESTS, TRANSFER, LATENCY]
            .concat();
    assert_eq!(
        parse_wrk2_output(&text),
        Err(ParseError::MalformedNumber(NumberField::TotalRequests))
    );
}

#[test]
fn request_count_in_other_digits_is_malformed() {
    let text = ["١٢٣ requests in 30.00s, 1.00MB read\n", REQUESTS, TRANSFER, LATENCY].concat();
    assert_eq!(
        parse_wrk2_output(&text),
        Err(ParseError::MalformedNumber(NumberField::TotalRequests))
    );
}

#[test]
fn largest_request_count_is_read() {
    let text =
        ["18446744073709551615 requests in 30.00s, 1.00MB read\n", REQUESTS, TRANSFER, LATENCY]
            .concat();
    assert_eq!(parse_wrk2_output(&text).unwrap().total_requests, u64::MAX);
}

#[test]
fn missing_requests_per_sec_line() {
    let text = [SUMMARY, TRANSFER, LATENCY].concat();
    assert_eq!(
        parse_wrk2_output(&text),
        Err(ParseError::MissingThroughput(ThroughputLine::Requests))
    );
    let no_fraction = [SUMMARY, "Requests/sec: 33333\n", TRANSFER, LATENCY].concat();
    assert_eq!(
        parse_wrk2_output(&no_fraction),
        Err(ParseError::MissingThroughput(ThroughputLine::Requests))
    );
}

#[test]
fn requests_per_sec_in_other_digits_is_malformed() {
    let text = [SUMMARY, "Requests/sec: ١٢.٣٤\n", TRANSFER, LATENCY].concat();
    assert_eq!(
        parse_wrk2_output(&text),
        Err(ParseError::MalformedNumber(NumberField::RequestsPerSec))
    );
}

#[test]
fn missing_transfer_per_sec_line() {
    let text = [SUMMARY, REQUESTS, LATENCY].concat();
    assert_eq!(
        parse_wrk2_output(&text),
        Err(ParseError::MissingThroughput(ThroughputLine::Transfer))
    );
}

#[test]
fn missing_section_marker() {
    let text = [SUMMARY, REQUESTS, TRANSFER, " 50.000%  1.23ms\n\n"].concat();
    assert_eq!(parse_wrk2_output(&text), Err(ParseError::MissingSection));
    assert_eq!(
        parse_wrk2_output(&[SUMMARY, REQUESTS, TRANSFER].concat()),
        Err(ParseError::MissingSection)
    );
}

#[test]
fn missing_section_end() {
    let text =
        [SUMMARY, REQUESTS, TRANSFER, "Uncorrected Latency\n 50.000%  1.23ms\n 99.000%  4ms"];
    assert_eq!(parse_wrk2_output(&text.concat()), Err(ParseError::MissingSectionEnd));
}

#[test]
fn section_of_blank_lines_is_an_empty_latency_table() {
    let text = [SUMMARY, REQUESTS, TRANSFER, "Uncorrected Latency\n  \n\t\n\n"].concat();
    assert_eq!(parse_wrk2_output(&text), Err(ParseError::EmptyLatencyTable));
}

#[test]
fn section_without_percentile_lines_is_an_empty_latency_table() {
    let text = [SUMMARY, REQUESTS, TRANSFER, "Uncorrected Latency (none)\n no data\n\n"].concat();
    assert_eq!(parse_wrk2_output(&text), Err(ParseError::EmptyLatencyTable));
}

#[test]
fn earlier_failure_wins() {
    assert_eq!(parse_wrk2_output(LATENCY), Err(ParseError::MissingSummary));
    assert_eq!(
        parse_wrk2_output(SUMMARY),
        Err(ParseError::MissingThroughput(ThroughputLine::Requests))
    );
    assert_eq!(
        parse_wrk2_output(&[SUMMARY, REQUESTS].concat()),
        Err(ParseError::MissingThroughput(ThroughputLine::Transfer))
    );
}

#[test]
fn stray_line_in_the_section_is_tolerated() {
    let text = [
        SUMMARY,
        REQUESTS,
        TRANSFER,
        "Uncorrected Latency\n 50.000%  1.23ms\n# annotation\n 99.000%  45.67ms\n\n",
    ]
    .concat();
    assert_eq!(
        parse_wrk2_output(&text).unwrap().uncorrected_latency,
        vec![pair("50.000", "1.23ms"), pair("99.000", "45.67ms")]
    );
}

#[test]
fn rejected_pattern_is_invalid_pattern() {
    assert_eq!(match_groups("(", "text"), Err(ParseError::InvalidPattern));
    assert_eq!(match_groups(r"\w{1000}", "text"), Err(ParseError::InvalidPattern));
}

#[test]
fn patterns_of_the_report_are_accepted() {
    assert_eq!(match_groups(SUMMARY_PATTERN, ""), Ok(None));
    assert_eq!(match_groups(REQUESTS_PATTERN, ""), Ok(None));
    assert_eq!(match_groups(TRANSFER_PATTERN, ""), Ok(None));
}

#[test]
fn match_groups_lists_every_group() {
    assert_eq!(
        match_groups(SUMMARY_PATTERN, "x 12 requests in 1.50s, 3.25KB read y"),
        Ok(groups(&["12 requests in 1.50s, 3.25KB read", "12", "1.50s", "3.25KB"]))
    );
    assert_eq!(
        match_groups("(a)|(b)", "xbx"),
        Ok(Some(vec![Some(String::from("b")), None, Some(String::from("b"))]))
    );
    assert_eq!(match_groups("a+", "baab aaa"), Ok(groups(&["aa"])));
}

#[test]
fn group_text_gives_the_group_or_none() {
    let found = vec![Some(String::from("ab")), None, Some(String::from("b"))];
    assert_eq!(group_text(&found, 0), Some(String::from("ab")));
    assert_eq!(group_text(&found, 1), None);
    assert_eq!(group_text(&found, 2), Some(String::from("b")));
    assert_eq!(group_text(&found, 3), None);
}

#[test]
fn summary_fields_reads_three_groups() {
    let found = groups(&["12 requests in 1.50s, 3.25KB read", "12", "1.50s", "3.25KB"]);
    assert_eq!(summary_fields(&found), Ok((12, String::from("1.50s"), String::from("3.25KB"))));
}

#[test]
fn summary_fields_of_no_match_is_missing_summary() {
    assert_eq!(summary_fields(&None), Err(ParseError::MissingSummary));
    assert_eq!(summary_fields(&groups(&["x", "12", "1.50s"])), Err(ParseError::MissingSummary));
    assert_eq!(
        summary_fields(&Some(vec![Some(String::from("x")), None, None, None])),
        Err(ParseError::MissingSummary)
    );
}

#[test]
fn summary_fields_of_a_bad_count_is_malformed_number() {
    assert_eq!(
        summary_fields(&groups(&["x", "18446744073709551616", "1.50s", "3.25KB"])),
        Err(ParseError::MalformedNumber(NumberField::TotalRequests))
    );
    assert_eq!(
        summary_fields(&groups(&["x", "", "1.50s", "3.25KB"])),
        Err(ParseError::MalformedNumber(NumberField::TotalRequests))
    );
}

#[test]
fn requests_per_sec_field_reads_the_first_group() {
    assert_eq!(
        requests_per_sec_field(&groups(&["Requests/sec: 1.50", "1.50"])),
        Ok(String::from("1.50"))
    );
    assert_eq!(
        requests_per_sec_field(&None),
        Err(ParseError::MissingThroughput(ThroughputLine::Requests))
    );
    assert_eq!(
        requests_per_sec_field(&groups(&["x"])),
        Err(ParseError::MissingThroughput(ThroughputLine::Requests))
    );
    assert_eq!(
        requests_per_sec_field(&groups(&["x", "1.5e3"])),
        Err(ParseError::MalformedNumber(NumberField::RequestsPerSec))
    );
}

#[test]
fn transfer_per_sec_field_reads_the_first_group() {
    assert_eq!(
        transfer_per_sec_field(&groups(&["Transfer/sec: 1.50MB", "1.50MB"])),
        Ok(String::from("1.50MB"))
    );
    assert_eq!(
        transfer_per_sec_field(&None),
        Err(ParseError::MissingThroughput(ThroughputLine::Transfer))
    );
    assert_eq!(
        transfer_per_sec_field(&groups(&["x"])),
        Err(ParseError::MissingThroughput(ThroughputLine::Transfer))
    );
}

#[test]
fn assemble_report_fills_every_field() {
    let report = assemble_report(
        (12, String::from("1.50s"), String::from("3.25KB")),
        String::from("8.00"),
        String::from("2.17KB"),
        vec![pair("50.000", "1ms")],
    );
    assert_eq!(
        report,
        Ok(Wrk2Result {
            total_requests: 12,
            duration: String::from("1.50s"),
            data_read: String::from("3.25KB"),
            requests_per_sec: String::from("8.00"),
            transfer_per_sec: String::from("2.17KB"),
            uncorrected_latency: vec![pair("50.000", "1ms")],
        })
    );
}

#[test]
fn assemble_report_refuses_an_empty_table() {
    let report = assemble_report(
        (12, String::from("1.50s"), String::from("3.25KB")),
        String::from("8.00"),
        String::from("2.17KB"),
        vec![],
    );
    assert_eq!(report, Err(ParseError::EmptyLatencyTable));
}

#[test]
fn clone_holds_the_same_values() {
    let report = parse_wrk2_output(&full_report()).unwrap();
    let copy = report.clone();
    assert_eq!(copy, report);
    assert_eq!(copy.uncorrected_latency.len(), 8);
}

#[test]
fn every_error_has_its_message() {
    let errors = [
        ParseError::MissingSummary,
        ParseError::MissingThroughput(ThroughputLine::Requests),
        ParseError::MissingThroughput(ThroughputLine::Transfer),
        ParseError::MissingSection,
        ParseError::MissingSectionEnd,
        ParseError::EmptyLatencyTable,
        ParseError::MalformedNumber(NumberField::TotalRequests),
        ParseError::MalformedNumber(NumberField::RequestsPerSec),
        ParseError::InvalidPattern,
    ];
    for (i, a) in errors.iter().enumerate() {
        assert!(!a.message().is_empty());
        for b in errors.iter().skip(i + 1) {
            assert_ne!(a.message(), b.message());
        }
    }
    assert_eq!(
        ParseError::MissingSection.message(),
        "Could not find Uncorrected Latency section"
    );
    assert_eq!(
        ParseError::MissingThroughput(ThroughputLine::Transfer).message(),
        "Could not find Transfer/sec in output"
    );
}
