use csvlint::{validate, CsvError, CsvErrorKind};

#[test]
fn test_perfect_csv() {
    let csv_data = "field1,field2,field3\r\na,b,c\r\nd,e,f\r\n";
    let result = validate(csv_data.as_bytes(), b',', false, false);
    assert!(result.errors.is_empty());
    assert!(!result.halted);
}

#[test]
fn test_field_count_error() {
    let csv_data = "field1,field2,field3\r\na,b,c\r\nd,e,f,g\r\n";
    let result = validate(csv_data.as_bytes(), b',', false, false);
    assert_eq!(result.errors.len(), 1);
    assert_eq!(result.errors[0].record_num, 2);
    assert_eq!(result.errors[0].error, CsvErrorKind::FieldCount);
    assert_eq!(
        result.errors[0].record,
        Some(vec![
            "d".to_string(),
            "e".to_string(),
            "f".to_string(),
            "g".to_string()
        ])
    );
    assert!(!result.halted);
}

#[test]
fn test_line_ending_validation() {
    let csv_data = "field1,field2,field3\na,b,c\nd,e,f\n";
    let result = validate(csv_data.as_bytes(), b',', false, true);
    assert!(!result.errors.is_empty());
    assert!(result
        .errors
        .iter()
        .any(|e| matches!(e.error, CsvErrorKind::InvalidLineEnding)));
}

#[test]
fn test_lazy_quotes_allows_lf() {
    let csv_data = "field1,field2,field3\na,b,c\nd,e,f\n";
    let result = validate(csv_data.as_bytes(), b',', true, false);
    assert!(result
        .errors
        .iter()
        .all(|e| !matches!(e.error, CsvErrorKind::InvalidLineEnding)));
}

#[test]
fn test_csv_parser_validation() {
    let csv_data = "field1,field2,field3\r\na,b,c\r\n";
    let result = validate(csv_data.as_bytes(), b',', false, false);
    assert!(result.errors.is_empty());
}

#[test]
fn test_proper_quote_escaping() {
    let csv_data = "field1,field2,field3\r\n\"a\",\"b\"\"c\",\"d\"\r\n";
    let result = validate(csv_data.as_bytes(), b',', false, false);
    for error in &result.errors {
        println!("Error: {:?}", error);
    }
    assert!(result.errors.is_empty());
}

#[test]
fn test_different_delimiters() {
    let csv_data = "field1\tfield2\tfield3\r\na\tb\tc\r\nd\te\tf\r\n";
    let result = validate(csv_data.as_bytes(), b'\t', false, false);
    assert!(result.errors.is_empty());
    assert!(!result.halted);
}

#[test]
fn test_multiple_field_count_errors() {
    let csv_data = "field1,field2,field3\r\na,b,c\r\nd,e,f,g\r\nh,i,j\r\nk,l,m,n\r\n";
    let result = validate(csv_data.as_bytes(), b',', false, false);
    assert_eq!(result.errors.len(), 2);
    assert_eq!(result.errors[0].record_num, 2);
    assert_eq!(result.errors[1].record_num, 4);
}

#[test]
fn test_rfc4180_compliance_mode() {
    let csv_data =
        "Name,Age,City\r\n\"John Doe\",30,\"New York\"\r\n\"Jane Smith\",25,Chicago\r\n";
    let result = validate(csv_data.as_bytes(), b',', false, true);
    assert!(result.errors.is_empty());
    assert!(!result.halted);
}

#[test]
fn test_fields_with_commas_and_quotes() {
    let csv_data = "field1,field2,field3\r\n\"a,b\",\"c\"\"d\",\"e\r\nf\"\r\n";
    let result = validate(csv_data.as_bytes(), b',', false, false);
    assert!(result.errors.is_empty());
}

#[test]
fn test_error_display() {
    let error = CsvError {
        record: Some(vec!["a".to_string(), "b".to_string(), "c".to_string()]),
        record_num: 3,
        error: CsvErrorKind::FieldCount,
    };
    assert_eq!(
        error.to_string(),
        "Record #3 has error: wrong number of fields"
    );

    let error = CsvError {
        record: Some(vec!["d".to_string(), "e".to_string(), "f".to_string()]),
        record_num: 1,
        error: CsvErrorKind::BareQuote,
    };
    assert_eq!(
        error.to_string(),
        "Record #1 has error: bare \" in non-quoted-field"
    );
}
