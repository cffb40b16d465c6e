//! The validator: line-ending audit, tokenization, field-count checks, and
//! the aggregation of their errors into one result.

use crate::error::{convert_csv_error, failure_kind, is_fatal, CsvError, CsvErrorKind, ErrorClass, ErrorView, KindView};
use crate::line_endings::{errors_view, line_ending_errors, validate_line_endings};
use crate::reader::{csv_reads, open_reader, pending_reads, read_next, ReadOutcome, ReadStep};
use vstd::prelude::*;

verus! {

/// Result of CSV validation.
#[derive(Debug)]
pub struct ValidationResult {
    /// The errors found, in the order they were detected.
    pub errors: Vec<CsvError>,
    /// Whether the scan stopped early on a fatal error.
    pub halted: bool,
}

/// The mathematical value of a `ValidationResult`.
pub struct ResultView {
    pub errors: Seq<ErrorView>,
    pub halted: bool,
}

impl View for ValidationResult {
    type V = ResultView;

    open spec fn view(&self) -> ResultView {
        ResultView { errors: errors_view(self.errors@), halted: self.halted }
    }
}

/// Whether a read step is a failure that halts the scan.
pub open spec fn is_fatal_step(s: ReadStep) -> bool {
    s matches ReadStep::Failed(c, _) && is_fatal(c)
}

/// The errors that the data read numbered `num` contributes.
pub open spec fn step_errors(s: ReadStep, num: nat, header_len: nat, lazy: bool) -> Seq<ErrorView> {
    match s {
        ReadStep::Record(f) => if !lazy && f.len() != header_len {
            seq![ErrorView { record: Some(f), record_num: num, kind: KindView::FieldCount }]
        } else {
            seq![]
        },
        ReadStep::Failed(c, m) => seq![
            ErrorView { record: None, record_num: num, kind: failure_kind(c, m) },
        ],
    }
}

/// The errors of the data reads `1 .. k` (read `j` is record number `j + 1`).
pub open spec fn data_errors(reads: Seq<ReadStep>, k: int, header_len: nat, lazy: bool) -> Seq<
    ErrorView,
>
    decreases k,
{
    if k <= 1 {
        seq![]
    } else {
        data_errors(reads, k - 1, header_len, lazy) + step_errors(
            reads[k - 1],
            k as nat,
            header_len,
            lazy,
        )
    }
}

/// The index of the first fatal read at or after `k`, or the number of reads.
pub open spec fn stop_at(reads: Seq<ReadStep>, k: int) -> int
    decreases reads.len() - k,
{
    if k >= reads.len() {
        reads.len() as int
    } else if is_fatal_step(reads[k]) {
        k
    } else {
        stop_at(reads, k + 1)
    }
}

/// The result of validating `content` when the tokenizer's outcomes are `reads`.
pub open spec fn validation_model(content: Seq<u8>, lazy: bool, strict: bool, reads: Seq<ReadStep>) -> ResultView {
    let le = if strict {
        line_ending_errors(content)
    } else {
        seq![]
    };
    if reads.len() == 0 {
        ResultView { errors: le, halted: false }
    } else {
        match reads[0] {
            ReadStep::Failed(c, m) => ResultView {
                errors: le.push(ErrorView { record: None, record_num: 0, kind: failure_kind(c, m) }),
                halted: true,
            },
            ReadStep::Record(h) => {
                let s = stop_at(reads, 1);
                if s < reads.len() {
                    ResultView { errors: le + data_errors(reads, s + 1, h.len(), lazy), halted: true }
                } else {
                    ResultView {
                        errors: le + data_errors(reads, reads.len() as int, h.len(), lazy),
                        halted: false,
                    }
                }
            },
        }
    }
}

/// The result of validating `content` with the given dialect and modes.
pub open spec fn validation_of(content: Seq<u8>, delimiter: u8, lazy: bool, strict: bool) -> ResultView {
    validation_model(content, lazy, strict, csv_reads(content, delimiter, !lazy))
}

/// Validates whether CSV bytes conform to RFC 4180, collecting every error found.
///
/// With `rfc4180_mode` every terminator that is not CRLF is reported first.
/// The first record read is the header; each later record whose field count
/// differs from the header's is reported unless `lazy_quotes` is set. A failed
/// read is reported under its record number; an I/O or UTF-8 failure, or any
/// failure of the header read, halts the scan.
pub fn validate(content: &[u8], delimiter: u8, lazy_quotes: bool, rfc4180_mode: bool) -> (r: ValidationResult)
    requires
        content@.len() < usize::MAX,
    ensures
        r@ == validation_of(content@, delimiter, lazy_quotes, rfc4180_mode),
{
    let mut errors: Vec<CsvError> = Vec::new();
    if rfc4180_mode {
        validate_line_endings(content, &mut errors);
    }
    let ghost le = errors_view(errors@);
    proof {
        assert(le =~= (if rfc4180_mode { line_ending_errors(content@) } else { seq![] }));
    }
    let ghost reads = csv_reads(content@, delimiter, !lazy_quotes);
    assert(validation_of(content@, delimiter, lazy_quotes, rfc4180_mode) == validation_model(
        content@,
        lazy_quotes,
        rfc4180_mode,
        reads,
    ));
    let mut rdr = open_reader(content, delimiter, !lazy_quotes);
    let header_len: usize;
    match read_next(&mut rdr) {
        ReadOutcome::End => {
            return ValidationResult { errors, halted: false };
        },
        ReadOutcome::Failed(class, msg) => {
            let ghost before = errors@;
            errors.push(CsvError { record: None, record_num: 0, error: convert_csv_error(class, msg) });
            proof {
                assert(errors_view(errors@) =~= errors_view(before).push(errors@.last()@));
            }
            return ValidationResult { errors, halted: true };
        },
        ReadOutcome::Record(fields) => {
            header_len = fields.len();
        },
    }
    let mut k: usize = 1;
    loop
        invariant
            1 <= k <= reads.len() <= content@.len() < usize::MAX,
            pending_reads(rdr) == reads.subrange(k as int, reads.len() as int),
            reads[0] matches ReadStep::Record(h) && h.len() == header_len,
            errors_view(errors@) == le + data_errors(reads, k as int, header_len as nat, lazy_quotes),
            stop_at(reads, 1) == stop_at(reads, k as int),
            validation_of(content@, delimiter, lazy_quotes, rfc4180_mode) == validation_model(
                content@,
                lazy_quotes,
                rfc4180_mode,
                reads,
            ),
            le == (if rfc4180_mode { line_ending_errors(content@) } else { seq![] }),
        decreases reads.len() - k,
    {
        let ghost before = errors@;
        let ghost old_pending = pending_reads(rdr);
        match read_next(&mut rdr) {
            ReadOutcome::End => {
                proof {
                    assert(old_pending.len() == 0);
                    assert(k == reads.len());
                    assert(stop_at(reads, k as int) == reads.len());
                    assert(validation_model(content@, lazy_quotes, rfc4180_mode, reads) == ResultView {
                        errors: le + data_errors(reads, reads.len() as int, header_len as nat, lazy_quotes),
                        halted: false,
                    });
                }
                return ValidationResult { errors, halted: false };
            },
            ReadOutcome::Record(fields) => {
                proof {
                    assert(old_pending[0] == reads[k as int]);
                }
                assert(fields.deep_view().len() == fields@.len());
                if !lazy_quotes && fields.len() != header_len {
                    errors.push(CsvError { record: Some(fields), record_num: k + 1, error: CsvErrorKind::FieldCount });
                    proof {
                        assert(errors_view(errors@) =~= errors_view(before).push(errors@.last()@));
                    }
                } else {
                    assert(errors_view(errors@) =~= errors_view(before));
                }
                proof {
                    assert(data_errors(reads, k + 1, header_len as nat, lazy_quotes) == data_errors(reads, k as int, header_len as nat, lazy_quotes) + step_errors(reads[k as int], (k + 1) as nat, header_len as nat, lazy_quotes));
                    assert(errors_view(errors@) =~= le + data_errors(reads, k + 1, header_len as nat, lazy_quotes));
                }
            },
            ReadOutcome::Failed(class, msg) => {
                proof {
                    assert(old_pending[0] == reads[k as int]);
                }
                let fatal = class == ErrorClass::Io || class == ErrorClass::Utf8;
                errors.push(CsvError { record: None, record_num: k + 1, error: convert_csv_error(class, msg) });
                proof {
                    assert(errors_view(errors@) =~= errors_view(before).push(errors@.last()@));
                    assert(data_errors(reads, k + 1, header_len as nat, lazy_quotes) == data_errors(reads, k as int, header_len as nat, lazy_quotes) + step_errors(reads[k as int], (k + 1) as nat, header_len as nat, lazy_quotes));
                    assert(errors_view(errors@) =~= le + data_errors(reads, k + 1, header_len as nat, lazy_quotes));
                }
                if fatal {
                    proof {
                        assert(is_fatal_step(reads[k as int]));
                        assert(stop_at(reads, k as int) == k);
                        assert(validation_model(content@, lazy_quotes, rfc4180_mode, reads) == ResultView {
                            errors: le + data_errors(reads, k + 1, header_len as nat, lazy_quotes),
                            halted: true,
                        });
                    }
                    return ValidationResult { errors, halted: true };
                }
            },
        }
        proof {
            assert(!is_fatal_step(reads[k as int]));
            assert(stop_at(reads, k as int) == stop_at(reads, k + 1));
            assert(pending_reads(rdr) =~= reads.subrange(k + 1, reads.len() as int));
        }
        k += 1;
    }
}

} // verus!
