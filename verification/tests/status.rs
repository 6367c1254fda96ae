use http_timing::metrics::Metrics;
use http_timing::status::{parse_u32, read_status, status_class};

fn handles() -> Metrics {
    Metrics {
        hist_in_ms: 1,
        hist_out_ms: 2,
        in_2xx: 3,
        in_3xx: 4,
        in_4xx: 5,
        in_5xx: 6,
        out_2xx: 7,
        out_3xx: 8,
        out_4xx: 9,
        out_5xx: 10,
    }
}

#[test]
fn status_class_buckets_by_hundreds() {
    assert_eq!(status_class(199), 100);
    assert_eq!(status_class(200), 200);
    assert_eq!(status_class(204), 200);
    assert_eq!(status_class(404), 400);
    assert_eq!(status_class(503), 500);
    assert_eq!(status_class(0), 0);
    assert_eq!(status_class(99), 0);
    assert_eq!(status_class(600), 600);
    assert_eq!(status_class(u32::MAX), 4294967200);
}

#[test]
fn status_class_is_division_then_product_for_many_codes() {
    for s in 0u32..2000 {
        assert_eq!(status_class(s), (s / 100) * 100);
    }
}

#[test]
fn only_four_classes_have_counters() {
    let m = handles();
    assert_eq!(m.counter(true, status_class(199)), None);
    assert_eq!(m.counter(true, status_class(200)), Some(3));
    assert_eq!(m.counter(true, status_class(302)), Some(4));
    assert_eq!(m.counter(true, status_class(404)), Some(5));
    assert_eq!(m.counter(true, status_class(503)), Some(6));
    assert_eq!(m.counter(false, status_class(200)), Some(7));
    assert_eq!(m.counter(false, status_class(301)), Some(8));
    assert_eq!(m.counter(false, status_class(404)), Some(9));
    assert_eq!(m.counter(false, status_class(599)), Some(10));
    assert_eq!(m.counter(true, status_class(0)), None);
    assert_eq!(m.counter(false, status_class(0)), None);
    assert_eq!(m.counter(true, status_class(600)), None);
    assert_eq!(m.counter(false, status_class(1000)), None);
    assert_eq!(m.counter(true, 250), None);
}

#[test]
fn parse_u32_reads_plain_numbers() {
    assert_eq!(parse_u32(b"200"), Some(200));
    assert_eq!(parse_u32(b"0"), Some(0));
    assert_eq!(parse_u32(b"0200"), Some(200));
    assert_eq!(parse_u32(b"+404"), Some(404));
    assert_eq!(parse_u32(b"4294967295"), Some(u32::MAX));
    assert_eq!(parse_u32(b"00000000004294967295"), Some(u32::MAX));
}

#[test]
fn parse_u32_rejects_everything_else() {
    assert_eq!(parse_u32(b""), None);
    assert_eq!(parse_u32(b"+"), None);
    assert_eq!(parse_u32(b"-"), None);
    assert_eq!(parse_u32(b"-1"), None);
    assert_eq!(parse_u32(b"-0"), None);
    assert_eq!(parse_u32(b"++1"), None);
    assert_eq!(parse_u32(b"1+"), None);
    assert_eq!(parse_u32(b" 200"), None);
    assert_eq!(parse_u32(b"200 "), None);
    assert_eq!(parse_u32(b"20x"), None);
    assert_eq!(parse_u32(b"2_00"), None);
    assert_eq!(parse_u32(b"0x10"), None);
    assert_eq!(parse_u32(b"4294967296"), None);
    assert_eq!(parse_u32(b"99999999999999999999999"), None);
    assert_eq!(parse_u32(b"42949672950"), None);
    assert_eq!(parse_u32(&[0xff, 0x32]), None);
    assert_eq!(parse_u32("２００".as_bytes()), None);
}

#[test]
fn parse_u32_agrees_with_the_standard_parser() {
    let samples = [
        "", "+", "-", "0", "7", "+7", "-7", "007", "12a", "a12", "1 2", "4294967294",
        "4294967295", "4294967296", "+4294967295", "+4294967296", "18446744073709551616",
        "1e3", "१२३", "٣", "\u{a0}1", "1\n",
    ];
    for s in samples {
        assert_eq!(parse_u32(s.as_bytes()), s.parse::<u32>().ok(), "{:?}", s);
    }
    for n in [0u32, 1, 9, 10, 99, 100, 199, 200, 404, 503, 65535, 4294967295] {
        assert_eq!(parse_u32(n.to_string().as_bytes()), Some(n));
    }
}

#[test]
fn read_status_defaults_to_zero() {
    assert_eq!(read_status(None), 0);
    assert_eq!(read_status(Some(b"")), 0);
    assert_eq!(read_status(Some(b"abc")), 0);
    assert_eq!(read_status(Some(b"4294967296")), 0);
    assert_eq!(read_status(Some(b"200")), 200);
    assert_eq!(read_status(Some(b"503")), 503);
}
