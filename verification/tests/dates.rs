use apub_delivery::clock::http_date;

#[test]
fn test_http_date_epoch() {
    assert_eq!(http_date(0), "Thu, 01 Jan 1970 00:00:00 GMT");
}

#[test]
fn test_http_date_rfc_example() {
    assert_eq!(http_date(784_111_777), "Sun, 06 Nov 1994 08:49:37 GMT");
}

#[test]
fn test_http_date_leap_day() {
    assert_eq!(http_date(1_582_934_400), "Sat, 29 Feb 2020 00:00:00 GMT");
}

#[test]
fn test_http_date_year_end() {
    assert_eq!(http_date(1_609_459_199), "Thu, 31 Dec 2020 23:59:59 GMT");
}
