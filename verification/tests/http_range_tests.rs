use age_inbox::api::download::{download_plan, length_text, range_answer, DownloadPlan, RangeAnswer};
use age_inbox::decimal::{parse_u64, push_decimal};
use age_inbox::http_range::{content_range, parse_single_range, unsatisfied_content_range};

fn chars(s: &str) -> Vec<char> {
    s.chars().collect()
}

/// `bytes=a-b` selects that inclusive range.
#[test]
fn range_closed() {
    assert_eq!(parse_single_range("bytes=2-5", 10), Some((2, 5)));
    assert_eq!(parse_single_range("bytes=0-0", 1), Some((0, 0)));
}

/// The end is cut at the last byte.
#[test]
fn range_end_is_clamped() {
    assert_eq!(parse_single_range("bytes=2-100", 10), Some((2, 9)));
}

/// `bytes=a-` runs to the last byte.
#[test]
fn range_open_ended() {
    assert_eq!(parse_single_range("bytes=4-", 10), Some((4, 9)));
}

/// `bytes=-n` is the last n bytes; zero or more than the resource is refused.
#[test]
fn range_suffix() {
    assert_eq!(parse_single_range("bytes=-3", 10), Some((7, 9)));
    assert_eq!(parse_single_range("bytes=-10", 10), Some((0, 9)));
    assert_eq!(parse_single_range("bytes=-11", 10), None);
    assert_eq!(parse_single_range("bytes=-0", 10), None);
}

/// Malformed or unsatisfiable ranges select nothing.
#[test]
fn range_refusals() {
    assert_eq!(parse_single_range("items=0-1", 10), None);
    assert_eq!(parse_single_range("bytes=0-1,3-4", 10), None);
    assert_eq!(parse_single_range("bytes=5", 10), None);
    assert_eq!(parse_single_range("bytes=10-", 10), None);
    assert_eq!(parse_single_range("bytes=6-2", 10), None);
    assert_eq!(parse_single_range("bytes=a-2", 10), None);
    assert_eq!(parse_single_range("bytes=1-b", 10), None);
    assert_eq!(parse_single_range("bytes=-", 10), None);
    assert_eq!(parse_single_range("bytes=0-", 0), None);
}

/// Numbers parse as `u64::from_str` parses them, a leading `+` included.
#[test]
fn range_numbers_like_from_str() {
    assert_eq!(parse_single_range("bytes=+2-+3", 10), Some((2, 3)));
    assert_eq!(parse_single_range("bytes=0-18446744073709551615", 10), Some((0, 9)));
    assert_eq!(parse_single_range("bytes=0-18446744073709551616", 10), None);
}

/// `Content-Range` values.
#[test]
fn content_range_texts() {
    assert_eq!(content_range(2, 5, 10), "bytes 2-5/10");
    assert_eq!(unsatisfied_content_range(3), "bytes */3");
    assert_eq!(unsatisfied_content_range(0), "bytes */0");
}

/// The answer to a range: partial content with its length, or 416 with `bytes */size`.
#[test]
fn range_answers() {
    match range_answer("bytes=1-3", 10) {
        RangeAnswer::Partial { start, end, length, content_range } => {
            assert_eq!((start, end, length), (1, 3, 3));
            assert_eq!(content_range, "bytes 1-3/10");
        }
        _ => panic!("expected a partial answer"),
    }
    match range_answer("bytes=20-", 10) {
        RangeAnswer::Unsatisfiable { content_range } => assert_eq!(content_range, "bytes */10"),
        _ => panic!("expected 416"),
    }
}

/// Decimal text and parsing agree.
#[test]
fn decimal_round_trip() {
    for n in [0u64, 7, 10, 99, 12345, u64::MAX] {
        let mut out = Vec::new();
        push_decimal(&mut out, n);
        let text: String = out.iter().collect();
        assert_eq!(text, n.to_string());
        assert_eq!(parse_u64(&out), Some(n));
        assert_eq!(length_text(n), n.to_string());
    }
    assert_eq!(parse_u64(&chars("")), None);
    assert_eq!(parse_u64(&chars("+")), None);
    assert_eq!(parse_u64(&chars("-1")), None);
    assert_eq!(parse_u64(&chars("+42")), Some(42));
    assert_eq!(parse_u64(&chars("007")), Some(7));
}

/// A download without `Range` is whole; with one it is answered against the recorded size, or
/// after decrypting everything when no size was recorded.
#[test]
fn download_plans() {
    assert!(matches!(download_plan(None, Some(10)), DownloadPlan::Whole));
    assert!(matches!(download_plan(None, None), DownloadPlan::Whole));
    match download_plan(Some("bytes=0-3".to_string()), Some(10)) {
        DownloadPlan::Range(RangeAnswer::Partial { start, end, .. }) => assert_eq!((start, end), (0, 3)),
        _ => panic!("expected a partial range"),
    }
    assert!(matches!(
        download_plan(Some("bytes=30-".to_string()), Some(10)),
        DownloadPlan::Range(RangeAnswer::Unsatisfiable { .. })
    ));
    match download_plan(Some("bytes=0-3".to_string()), None) {
        DownloadPlan::RangeAfterFullDecrypt(v) => assert_eq!(v, "bytes=0-3"),
        _ => panic!("expected a deferred range"),
    }
}
