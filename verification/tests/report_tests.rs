use hydrabadger::config::Config;
use hydrabadger::report::{
    header_text, push_decimal, report_file_name, row_text, should_write_headers, EpochReport,
};

#[test]
fn decimal_numerals() {
    for (n, s) in [(0u64, "0"), (7, "7"), (10, "10"), (305, "305"), (u64::MAX, "18446744073709551615")] {
        let mut out = String::from("x");
        push_decimal(&mut out, n);
        assert_eq!(out, format!("x{}", s));
    }
}

#[test]
fn epoch_report_counts() {
    let mut cfg = Config::with_defaults();
    cfg.txn_gen_count = 5;
    cfg.txn_gen_bytes = 2;
    let r = EpochReport::new(12, 3, 4, &cfg);
    assert_eq!(r.epoch, 12);
    assert_eq!(r.validator_count, 4);
    assert_eq!(r.contributor_count, 4);
    assert_eq!(r.batch_count, 5);
    assert_eq!(r.tx_size, 2);
    assert_eq!(r.tx_count, 20);
}

#[test]
fn report_row_matches_table_format() {
    let cfg = Config::with_defaults();
    let r = EpochReport::new(3, 2, 3, &cfg);
    assert_eq!(row_text(&r, "0.25"), "| 3 | 3 | 3 | 5 | 2 | 15 | 0.25 |\n");
    let expected = format!(
        "| {} | {} | {} | {} | {} | {} | {} |\n",
        r.epoch, r.validator_count, r.contributor_count, r.batch_count, r.tx_size, r.tx_count, 1.5f64
    );
    assert_eq!(row_text(&r, &1.5f64.to_string()), expected);
}

#[test]
fn report_header_matches_table_format() {
    let headers = [
        "epoch_id",
        "validator num",
        "contributor num",
        "batch num",
        "tx size(Bytes)/tx",
        "block num",
        "epoch_time(latency)",
    ];
    let header_line = format!(
        "\n | {} | {} | {} | {} | {} | {} | {} |\n",
        headers[0], headers[1], headers[2], headers[3], headers[4], headers[5], headers[6]
    );
    let separator_line = "|:-------:|:-------:|:-------:|:-------:|:-------:|:-------:|:-------:|\n";
    assert_eq!(header_text(), header_line + separator_line);
}

#[test]
fn headers_written_only_to_a_missing_or_empty_file() {
    assert!(should_write_headers(None));
    assert!(should_write_headers(Some(0)));
    assert!(!should_write_headers(Some(1)));
    assert!(!should_write_headers(Some(4096)));
}

#[test]
fn report_file_named_after_node() {
    assert_eq!(
        report_file_name("0f3e80d2-5aa1-45e0-b58e-39124ddab2f3"),
        "0f3e80d2-5aa1-45e0-b58e-39124ddab2f3.md"
    );
}
