use csvlint::error::{convert_csv_error, kind_from_lowered, ErrorClass};
use csvlint::{validate, validate_line_endings, CsvError, CsvErrorKind};

#[test]
fn lf_only_terminators_all_flagged_in_strict_mode() {
    let data = "field1,field2,field3\na,b,c\nd,e,f\n";
    let strict = validate(data.as_bytes(), b',', false, true);
    let line_errors: Vec<&CsvError> = strict
        .errors
        .iter()
        .filter(|e| e.error == CsvErrorKind::InvalidLineEnding)
        .collect();
    assert_eq!(line_errors.len(), 3);
    assert_eq!(line_errors[0].record_num, 1);
    assert_eq!(line_errors[1].record_num, 2);
    assert_eq!(line_errors[2].record_num, 3);
    assert!(!strict.halted);

    let relaxed = validate(data.as_bytes(), b',', false, false);
    assert!(relaxed
        .errors
        .iter()
        .all(|e| e.error != CsvErrorKind::InvalidLineEnding));
}

#[test]
fn escaped_quotes_valid_under_any_leniency() {
    let data = "field1,field2,field3\r\n\"a\",\"b\"\"c\",\"d\"\r\n";
    for lazy in [false, true] {
        let result = validate(data.as_bytes(), b',', lazy, false);
        assert!(result.errors.is_empty());
        assert!(!result.halted);
    }
}

#[test]
fn empty_input_has_nothing_to_check() {
    let result = validate(b"", b',', false, false);
    assert!(result.errors.is_empty());
    assert!(!result.halted);
    let strict = validate(b"", b',', false, true);
    assert!(strict.errors.is_empty());
    assert!(!strict.halted);
}

#[test]
fn leniency_skips_field_count_check() {
    let data = "field1,field2,field3\r\na,b,c\r\nd,e,f,g\r\n";
    let lenient = validate(data.as_bytes(), b',', true, false);
    let strict = validate(data.as_bytes(), b',', false, false);
    assert!(lenient.errors.is_empty());
    assert_eq!(strict.errors.len(), 1);
    assert!(lenient.errors.len() <= strict.errors.len());
}

#[test]
fn invalid_utf8_in_data_record_halts() {
    let data: &[u8] = b"h1,h2\r\na,b\r\n\xff,c\r\nd,e\r\n";
    let result = validate(data, b',', false, false);
    assert!(result.halted);
    assert_eq!(result.errors.len(), 1);
    assert_eq!(result.errors[0].record_num, 2);
    assert!(result.errors[0].record.is_none());
    assert!(matches!(result.errors[0].error, CsvErrorKind::Utf8(_)));
}

#[test]
fn invalid_utf8_in_header_read_halts_with_record_zero() {
    let data: &[u8] = b"h1,h2\r\n\xff,b\r\nc,d\r\n";
    let result = validate(data, b',', false, false);
    assert!(result.halted);
    assert_eq!(result.errors.len(), 1);
    assert_eq!(result.errors[0].record_num, 0);
    assert!(matches!(result.errors[0].error, CsvErrorKind::Utf8(_)));
}

#[test]
fn strict_mode_reports_line_endings_before_record_errors() {
    let data = "a,b\nc,d,e\r\n";
    let result = validate(data.as_bytes(), b',', false, true);
    assert!(!result.halted);
    assert_eq!(result.errors[0].error, CsvErrorKind::InvalidLineEnding);
    assert_eq!(result.errors[0].record_num, 1);
}

#[test]
fn line_ending_auditor_flags_each_malformed_terminator() {
    let mut errors = Vec::new();
    validate_line_endings(b"\na\r\nb\rc\r", &mut errors);
    assert_eq!(errors.len(), 3);
    assert_eq!(errors[0].record_num, 1);
    assert_eq!(errors[1].record_num, 3);
    assert_eq!(errors[2].record_num, 3);
    assert!(errors
        .iter()
        .all(|e| e.error == CsvErrorKind::InvalidLineEnding && e.record.is_none()));
}

#[test]
fn line_ending_auditor_accepts_crlf() {
    let mut errors = Vec::new();
    validate_line_endings(b"a,b\r\nc,d\r\n", &mut errors);
    assert!(errors.is_empty());
}

#[test]
fn parse_failures_classified_by_message() {
    assert_eq!(kind_from_lowered("bare quote found"), CsvErrorKind::BareQuote);
    assert_eq!(
        kind_from_lowered("unterminated quote"),
        CsvErrorKind::UnterminatedQuote
    );
    assert_eq!(kind_from_lowered("stray quote in field"), CsvErrorKind::Quote);
    assert_eq!(kind_from_lowered("something else"), CsvErrorKind::InvalidEscape);
}

#[test]
fn failure_classes_map_to_kinds() {
    assert_eq!(
        convert_csv_error(ErrorClass::UnequalLengths, "x".to_string()),
        CsvErrorKind::FieldCount
    );
    assert_eq!(
        convert_csv_error(ErrorClass::Io, "disk".to_string()),
        CsvErrorKind::Io("disk".to_string())
    );
    assert_eq!(
        convert_csv_error(ErrorClass::Utf8, "bad".to_string()),
        CsvErrorKind::Utf8("bad".to_string())
    );
    assert_eq!(
        convert_csv_error(ErrorClass::Parse, "Found a BARE Quote".to_string()),
        CsvErrorKind::BareQuote
    );
    assert_eq!(
        convert_csv_error(ErrorClass::Parse, "UNTERMINATED QUOTE".to_string()),
        CsvErrorKind::UnterminatedQuote
    );
}

#[test]
fn error_report_with_long_number_and_payload() {
    let error = CsvError {
        record: None,
        record_num: 1204,
        error: CsvErrorKind::Io("disk gone".to_string()),
    };
    assert_eq!(
        error.to_string(),
        "Record #1204 has error: I/O error: disk gone"
    );
    assert_eq!(
        CsvErrorKind::Utf8("bad byte".to_string()).message(),
        "UTF-8 error: bad byte"
    );
    assert_eq!(
        CsvErrorKind::InvalidLineEnding.message(),
        "invalid line ending (RFC 4180 requires CRLF)"
    );
}

#[test]
fn leniency_can_expose_invalid_utf8_inside_quoted_header() {
    let data: &[u8] = b"\"a\n\xff\",b\r\nc,d\r\nx,y\r\n";
    let strict = validate(data, b',', false, false);
    assert!(strict.errors.is_empty());
    assert!(!strict.halted);
    let lenient = validate(data, b',', true, false);
    assert_eq!(lenient.errors.len(), 1);
    assert_eq!(lenient.errors[0].record_num, 0);
    assert!(lenient.halted);
}
